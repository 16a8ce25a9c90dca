//! Range-based relevance judgments for the MediatR C# codebase.
//!
//! The query split mirrors the other review fixtures: ten qualified symbol
//! queries, twenty semantic behavior queries and fifteen fuzzy perturbations
//! of the qualified set. Every range is anchored to a concrete implementation
//! in `fixtures/csharp/review/MediatR/src`.

use vstd::prelude::*;
use crate::bench_data::{JudgmentView, QueryType, RelevanceJudgment, RelevanceLevel, SourceRange, judgment_views, judgment_wf};
use crate::bench_data::{judgment_view, range_view};
use crate::bench_data::QueryType::{Qualified, Semantic};

verus! {

fn strong(
    id: &str,
    query_text: &str,
    query_type: QueryType,
    file: &str,
    start_line: usize,
    end_line: usize,
) -> (res: RelevanceJudgment)
    requires
        1 <= start_line <= end_line,
        query_type != QueryType::Fuzzy,
    ensures
        judgment_wf(res),
        res.id@ == id@,
        res.query_type == query_type,
        res.relevant_ranges@.len() == 1,
        judgment_view(res) == (id@, query_text@, query_type, None::<Seq<char>>, seq![(file@, start_line, end_line, RelevanceLevel::Strong)]),
{
    let mut relevant_ranges = Vec::new();
    relevant_ranges.push((
        SourceRange { file: String::from_str(file), start_line, end_line },
        RelevanceLevel::Strong,
    ));
    proof {
        assert(relevant_ranges@.map_values(|r: (SourceRange, RelevanceLevel)| range_view(r)) =~= seq![(file@, start_line, end_line, RelevanceLevel::Strong)]);
    }
    RelevanceJudgment {
        id: String::from_str(id),
        query_text: String::from_str(query_text),
        query_type,
        fuzzy_subtype: None,
        relevant_ranges,
    }
}

fn fuzzy_strong(
    id: &str,
    query_text: &str,
    subtype: &str,
    file: &str,
    start_line: usize,
    end_line: usize,
) -> (res: RelevanceJudgment)
    requires
        1 <= start_line <= end_line,
    ensures
        judgment_wf(res),
        res.id@ == id@,
        res.query_type == QueryType::Fuzzy,
        res.relevant_ranges@.len() == 1,
        judgment_view(res) == (id@, query_text@, QueryType::Fuzzy, Some(subtype@), seq![(file@, start_line, end_line, RelevanceLevel::Strong)]),
{
    let mut relevant_ranges = Vec::new();
    relevant_ranges.push((
        SourceRange { file: String::from_str(file), start_line, end_line },
        RelevanceLevel::Strong,
    ));
    proof {
        assert(relevant_ranges@.map_values(|r: (SourceRange, RelevanceLevel)| range_view(r)) =~= seq![(file@, start_line, end_line, RelevanceLevel::Strong)]);
    }
    RelevanceJudgment {
        id: String::from_str(id),
        query_text: String::from_str(query_text),
        query_type: QueryType::Fuzzy,
        fuzzy_subtype: Some(String::from_str(subtype)),
        relevant_ranges,
    }
}

/// The table as values: id, query text, query type, fuzzy subtype and
/// the (file, start line, end line, level) of every relevant range.
pub open spec fn mediatr_table() -> Seq<JudgmentView> {
    seq![
        ("G1Q1"@, "Send method on Mediator"@, QueryType::Qualified, None, seq![("src/MediatR/Mediator.cs"@, 50usize, 65usize, RelevanceLevel::Strong)]),
        ("G1Q2"@, "Publish method on Mediator"@, QueryType::Qualified, None, seq![("src/MediatR/Mediator.cs"@, 121usize, 130usize, RelevanceLevel::Strong)]),
        ("G1Q3"@, "CreateStream in Mediator"@, QueryType::Qualified, None, seq![("src/MediatR/Mediator.cs"@, 163usize, 180usize, RelevanceLevel::Strong)]),
        ("G1Q4"@, "Handle method on RequestHandlerWrapperImpl"@, QueryType::Qualified, None, seq![("src/MediatR/Wrappers/RequestHandlerWrapper.cs"@, 34usize, 45usize, RelevanceLevel::Strong)]),
        ("G1Q5"@, "Handle in RequestPreProcessorBehavior"@, QueryType::Qualified, None, seq![("src/MediatR/Pipeline/RequestPreProcessorBehavior.cs"@, 20usize, 28usize, RelevanceLevel::Strong)]),
        ("G1Q6"@, "Handle in RequestPostProcessorBehavior"@, QueryType::Qualified, None, seq![("src/MediatR/Pipeline/RequestPostProcessorBehavior.cs"@, 20usize, 30usize, RelevanceLevel::Strong)]),
        ("G1Q7"@, "AddRequiredServices in ServiceRegistrar"@, QueryType::Qualified, None, seq![("src/MediatR/Registration/ServiceRegistrar.cs"@, 464usize, 548usize, RelevanceLevel::Strong)]),
        ("G1Q8"@, "Handle in RequestExceptionProcessorBehavior"@, QueryType::Qualified, None, seq![("src/MediatR/Pipeline/RequestExceptionProcessorBehavior.cs"@, 26usize, 76usize, RelevanceLevel::Strong)]),
        ("G1Q9"@, "Handle method on INotificationHandler"@, QueryType::Qualified, None, seq![("src/MediatR/INotificationHandler.cs"@, 10usize, 19usize, RelevanceLevel::Strong)]),
        ("G1Q10"@, "Publish in ForeachAwaitPublisher"@, QueryType::Qualified, None, seq![("src/MediatR/NotificationPublishers/ForeachAwaitPublisher.cs"@, 17usize, 23usize, RelevanceLevel::Strong)]),
        ("G2Q1"@, "resolve the matching request handler and dispatch a request through the pipeline"@, QueryType::Semantic, None, seq![("src/MediatR/Mediator.cs"@, 50usize, 65usize, RelevanceLevel::Strong), ("src/MediatR/Wrappers/RequestHandlerWrapper.cs"@, 34usize, 45usize, RelevanceLevel::Related)]),
        ("G2Q2"@, "route handler invocation for a request that produces no response value"@, QueryType::Semantic, None, seq![("src/MediatR/Mediator.cs"@, 67usize, 83usize, RelevanceLevel::Strong), ("src/MediatR/Wrappers/RequestHandlerWrapper.cs"@, 55usize, 71usize, RelevanceLevel::Related)]),
        ("G2Q3"@, "send a request to its handler via dynamic dispatch without reflection"@, QueryType::Semantic, None, seq![("src/MediatR/Mediator.cs"@, 85usize, 119usize, RelevanceLevel::Strong), ("src/MediatR/Mediator.cs"@, 50usize, 65usize, RelevanceLevel::Related)]),
        ("G2Q4"@, "publish a notification to all registered notification handlers"@, QueryType::Semantic, None, seq![("src/MediatR/Mediator.cs"@, 121usize, 130usize, RelevanceLevel::Strong), ("src/MediatR/Mediator.cs"@, 150usize, 160usize, RelevanceLevel::Related)]),
        ("G2Q5"@, "await each notification handler sequentially one at a time"@, QueryType::Semantic, None, seq![("src/MediatR/NotificationPublishers/ForeachAwaitPublisher.cs"@, 17usize, 23usize, RelevanceLevel::Strong), ("src/MediatR/Mediator.cs"@, 147usize, 148usize, RelevanceLevel::Related)]),
        ("G2Q6"@, "run notification handlers concurrently and await all of them"@, QueryType::Semantic, None, seq![("src/MediatR/NotificationPublishers/TaskWhenAllPublisher.cs"@, 20usize, 27usize, RelevanceLevel::Strong), ("src/MediatR/Mediator.cs"@, 147usize, 148usize, RelevanceLevel::Related)]),
        ("G2Q7"@, "create a lazy async stream response from a stream request handler"@, QueryType::Semantic, None, seq![("src/MediatR/Mediator.cs"@, 163usize, 180usize, RelevanceLevel::Strong), ("src/MediatR/IStreamRequestHandler.cs"@, 11usize, 21usize, RelevanceLevel::Related)]),
        ("G2Q8"@, "wrap the inner handler with pre-processors that run before it"@, QueryType::Semantic, None, seq![("src/MediatR/Pipeline/RequestPreProcessorBehavior.cs"@, 20usize, 28usize, RelevanceLevel::Strong), ("src/MediatR/Pipeline/IRequestPreProcessor.cs"@, 10usize, 19usize, RelevanceLevel::Related)]),
        ("G2Q9"@, "run post-processors after the handler has produced a response"@, QueryType::Semantic, None, seq![("src/MediatR/Pipeline/RequestPostProcessorBehavior.cs"@, 20usize, 30usize, RelevanceLevel::Strong), ("src/MediatR/Pipeline/IRequestPostProcessor.cs"@, 11usize, 21usize, RelevanceLevel::Related)]),
        ("G2Q10"@, "recover from handler exceptions using registered exception handlers"@, QueryType::Semantic, None, seq![("src/MediatR/Pipeline/RequestExceptionProcessorBehavior.cs"@, 26usize, 76usize, RelevanceLevel::Strong), ("src/MediatR/Pipeline/RequestExceptionProcessorBehavior.cs"@, 86usize, 95usize, RelevanceLevel::Related)]),
        ("G2Q11"@, "compose pipeline behaviors from the innermost handler outwards"@, QueryType::Semantic, None, seq![("src/MediatR/Wrappers/RequestHandlerWrapper.cs"@, 34usize, 45usize, RelevanceLevel::Strong), ("src/MediatR/Wrappers/RequestHandlerWrapper.cs"@, 55usize, 71usize, RelevanceLevel::Related)]),
        ("G2Q12"@, "resolve and de-duplicate notification handlers by published type"@, QueryType::Semantic, None, seq![("src/MediatR/Wrappers/NotificationHandlerWrapper.cs"@, 20usize, 31usize, RelevanceLevel::Strong), ("src/MediatR/Mediator.cs"@, 150usize, 160usize, RelevanceLevel::Related)]),
        ("G2Q13"@, "register mediator sender and publisher as the required core services"@, QueryType::Semantic, None, seq![("src/MediatR/Registration/ServiceRegistrar.cs"@, 464usize, 548usize, RelevanceLevel::Strong), ("src/MediatR/Registration/ServiceRegistrar.cs"@, 44usize, 92usize, RelevanceLevel::Related)]),
        ("G2Q14"@, "scan assemblies and register all request and notification handlers"@, QueryType::Semantic, None, seq![("src/MediatR/Registration/ServiceRegistrar.cs"@, 44usize, 92usize, RelevanceLevel::Strong), ("src/MediatR/Registration/ServiceRegistrar.cs"@, 94usize, 170usize, RelevanceLevel::Related)]),
        ("G2Q15"@, "register handlers and mediator types into the service collection"@, QueryType::Semantic, None, seq![("src/MediatR/MicrosoftExtensionsDI/MediatRServiceCollectionExtensions.cs"@, 46usize, 61usize, RelevanceLevel::Strong), ("src/MediatR/Registration/ServiceRegistrar.cs"@, 44usize, 92usize, RelevanceLevel::Related)]),
        ("G2Q16"@, "resolve a single request handler instance from the service provider"@, QueryType::Semantic, None, seq![("src/MediatR/Wrappers/RequestHandlerWrapper.cs"@, 34usize, 45usize, RelevanceLevel::Strong), ("src/MediatR/IRequestHandler.cs"@, 11usize, 21usize, RelevanceLevel::Related)]),
        ("G2Q17"@, "define the async continuation contract each pipeline behavior must call"@, QueryType::Semantic, None, seq![("src/MediatR/IPipelineBehavior.cs"@, 12usize, 30usize, RelevanceLevel::Strong), ("src/MediatR/Wrappers/RequestHandlerWrapper.cs"@, 40usize, 44usize, RelevanceLevel::Related)]),
        ("G2Q18"@, "represent a request marker that signals a void or typed response"@, QueryType::Semantic, None, seq![("src/MediatR.Contracts/IRequest.cs"@, 6usize, 17usize, RelevanceLevel::Strong), ("src/MediatR/IRequestHandler.cs"@, 27usize, 37usize, RelevanceLevel::Related)]),
        ("G2Q19"@, "synchronously wrap a void notification handler into a task returning handler"@, QueryType::Semantic, None, seq![("src/MediatR/INotificationHandler.cs"@, 25usize, 39usize, RelevanceLevel::Strong), ("src/MediatR/INotificationHandler.cs"@, 10usize, 19usize, RelevanceLevel::Related)]),
        ("G2Q20"@, "delegate the publish work to the configured notification publisher"@, QueryType::Semantic, None, seq![("src/MediatR/Mediator.cs"@, 147usize, 160usize, RelevanceLevel::Strong), ("src/MediatR/NotificationPublishers/ForeachAwaitPublisher.cs"@, 17usize, 23usize, RelevanceLevel::Related)]),
        ("G3Q1"@, "SendRequest method in Mediator"@, QueryType::Fuzzy, Some("naming_affix"@), seq![("src/MediatR/Mediator.cs"@, 50usize, 65usize, RelevanceLevel::Strong)]),
        ("G3Q2"@, "SendHandler method on Mediator"@, QueryType::Fuzzy, Some("naming_case"@), seq![("src/MediatR/Mediator.cs"@, 50usize, 65usize, RelevanceLevel::Strong)]),
        ("G3Q3"@, "deliver a notification to handlers in Mediator"@, QueryType::Fuzzy, Some("paraphrase"@), seq![("src/MediatR/Mediator.cs"@, 121usize, 130usize, RelevanceLevel::Strong)]),
        ("G3Q4"@, "publish notification method in Mediator"@, QueryType::Fuzzy, Some("abbrev_expand"@), seq![("src/MediatR/Mediator.cs"@, 121usize, 130usize, RelevanceLevel::Strong)]),
        ("G3Q5"@, "CreateAsyncStream in Mediator"@, QueryType::Fuzzy, Some("synonym"@), seq![("src/MediatR/Mediator.cs"@, 163usize, 180usize, RelevanceLevel::Strong)]),
        ("G3Q6"@, "Invoke method on RequestHandlerWrapperImpl"@, QueryType::Fuzzy, Some("synonym"@), seq![("src/MediatR/Wrappers/RequestHandlerWrapper.cs"@, 34usize, 45usize, RelevanceLevel::Strong)]),
        ("G3Q7"@, "ProcessHandler in RequestHandlerWrapperImpl"@, QueryType::Fuzzy, Some("naming_affix"@), seq![("src/MediatR/Wrappers/RequestHandlerWrapper.cs"@, 34usize, 45usize, RelevanceLevel::Strong)]),
        ("G3Q8"@, "execute preprocessing hooks before handling a request"@, QueryType::Fuzzy, Some("paraphrase"@), seq![("src/MediatR/Pipeline/RequestPreProcessorBehavior.cs"@, 20usize, 28usize, RelevanceLevel::Strong)]),
        ("G3Q9"@, "PostProcess in RequestPostProcessorBehavior"@, QueryType::Fuzzy, Some("synonym"@), seq![("src/MediatR/Pipeline/RequestPostProcessorBehavior.cs"@, 20usize, 30usize, RelevanceLevel::Strong)]),
        ("G3Q10"@, "addRequiredServices in ServiceRegistrar"@, QueryType::Fuzzy, Some("naming_case"@), seq![("src/MediatR/Registration/ServiceRegistrar.cs"@, 464usize, 548usize, RelevanceLevel::Strong)]),
        ("G3Q11"@, "add the required mediator core services"@, QueryType::Fuzzy, Some("abbrev_expand"@), seq![("src/MediatR/Registration/ServiceRegistrar.cs"@, 464usize, 548usize, RelevanceLevel::Strong)]),
        ("G3Q12"@, "HandleRequest in RequestExceptionProcessorBehavior"@, QueryType::Fuzzy, Some("naming_case"@), seq![("src/MediatR/Pipeline/RequestExceptionProcessorBehavior.cs"@, 26usize, 76usize, RelevanceLevel::Strong)]),
        ("G3Q13"@, "Receive method on INotificationHandler"@, QueryType::Fuzzy, Some("naming_affix"@), seq![("src/MediatR/INotificationHandler.cs"@, 10usize, 19usize, RelevanceLevel::Strong)]),
        ("G3Q14"@, "publish notifications via the foreach await publisher"@, QueryType::Fuzzy, Some("abbrev_expand"@), seq![("src/MediatR/NotificationPublishers/ForeachAwaitPublisher.cs"@, 17usize, 23usize, RelevanceLevel::Strong)]),
        ("G3Q15"@, "stream request handler contract in MediatR"@, QueryType::Fuzzy, Some("naming_affix"@), seq![("src/MediatR/IStreamRequestHandler.cs"@, 11usize, 21usize, RelevanceLevel::Strong)]),
    ]
}

pub fn mediatr_relevance_judgments() -> (res: Vec<RelevanceJudgment>)
    ensures
        judgment_views(res@) == mediatr_table(),
        res@.len() == 45,
        forall|i: int| 0 <= i < res@.len() ==> #[trigger] judgment_wf(res@[i]),
{

    let res = vec![
        // Qualified symbol queries: symbol tokens preserved in natural-language
        // structure (e.g. `Send method on Mediator`).
        strong(
            "G1Q1",
            "Send method on Mediator",
            Qualified,
            "src/MediatR/Mediator.cs",
            50,
            65,
        ),
        strong(
            "G1Q2",
            "Publish method on Mediator",
            Qualified,
            "src/MediatR/Mediator.cs",
            121,
            130,
        ),
        strong(
            "G1Q3",
            "CreateStream in Mediator",
            Qualified,
            "src/MediatR/Mediator.cs",
            163,
            180,
        ),
        strong(
            "G1Q4",
            "Handle method on RequestHandlerWrapperImpl",
            Qualified,
            "src/MediatR/Wrappers/RequestHandlerWrapper.cs",
            34,
            45,
        ),
        strong(
            "G1Q5",
            "Handle in RequestPreProcessorBehavior",
            Qualified,
            "src/MediatR/Pipeline/RequestPreProcessorBehavior.cs",
            20,
            28,
        ),
        strong(
            "G1Q6",
            "Handle in RequestPostProcessorBehavior",
            Qualified,
            "src/MediatR/Pipeline/RequestPostProcessorBehavior.cs",
            20,
            30,
        ),
        strong(
            "G1Q7",
            "AddRequiredServices in ServiceRegistrar",
            Qualified,
            "src/MediatR/Registration/ServiceRegistrar.cs",
            464,
            548,
        ),
        strong(
            "G1Q8",
            "Handle in RequestExceptionProcessorBehavior",
            Qualified,
            "src/MediatR/Pipeline/RequestExceptionProcessorBehavior.cs",
            26,
            76,
        ),
        strong(
            "G1Q9",
            "Handle method on INotificationHandler",
            Qualified,
            "src/MediatR/INotificationHandler.cs",
            10,
            19,
        ),
        strong(
            "G1Q10",
            "Publish in ForeachAwaitPublisher",
            Qualified,
            "src/MediatR/NotificationPublishers/ForeachAwaitPublisher.cs",
            17,
            23,
        ),
        // Semantic behavior queries.
        RelevanceJudgment {
            id: String::from_str("G2Q1"),
            query_text: String::from_str("resolve the matching request handler and dispatch a request through the pipeline"),
            query_type: Semantic,
            fuzzy_subtype: None,
            relevant_ranges: vec![
                (
                    SourceRange {
                        file: String::from_str("src/MediatR/Mediator.cs"),
                        start_line: 50,
                        end_line: 65,
                    },
                    RelevanceLevel::Strong,
                ),
                (
                    SourceRange {
                        file: String::from_str("src/MediatR/Wrappers/RequestHandlerWrapper.cs"),
                        start_line: 34,
                        end_line: 45,
                    },
                    RelevanceLevel::Related,
                ),
            ],
        },
        RelevanceJudgment {
            id: String::from_str("G2Q2"),
            query_text: String::from_str("route handler invocation for a request that produces no response value"),
            query_type: Semantic,
            fuzzy_subtype: None,
            relevant_ranges: vec![
                (
                    SourceRange {
                        file: String::from_str("src/MediatR/Mediator.cs"),
                        start_line: 67,
                        end_line: 83,
                    },
                    RelevanceLevel::Strong,
                ),
                (
                    SourceRange {
                        file: String::from_str("src/MediatR/Wrappers/RequestHandlerWrapper.cs"),
                        start_line: 55,
                        end_line: 71,
                    },
                    RelevanceLevel::Related,
                ),
            ],
        },
        RelevanceJudgment {
            id: String::from_str("G2Q3"),
            query_text: String::from_str("send a request to its handler via dynamic dispatch without reflection"),
            query_type: Semantic,
            fuzzy_subtype: None,
            relevant_ranges: vec![
                (
                    SourceRange {
                        file: String::from_str("src/MediatR/Mediator.cs"),
                        start_line: 85,
                        end_line: 119,
                    },
                    RelevanceLevel::Strong,
                ),
                (
                    SourceRange {
                        file: String::from_str("src/MediatR/Mediator.cs"),
                        start_line: 50,
                        end_line: 65,
                    },
                    RelevanceLevel::Related,
                ),
            ],
        },
        RelevanceJudgment {
            id: String::from_str("G2Q4"),
            query_text: String::from_str("publish a notification to all registered notification handlers"),
            query_type: Semantic,
            fuzzy_subtype: None,
            relevant_ranges: vec![
                (
                    SourceRange {
                        file: String::from_str("src/MediatR/Mediator.cs"),
                        start_line: 121,
                        end_line: 130,
                    },
                    RelevanceLevel::Strong,
                ),
                (
                    SourceRange {
                        file: String::from_str("src/MediatR/Mediator.cs"),
                        start_line: 150,
                        end_line: 160,
                    },
                    RelevanceLevel::Related,
                ),
            ],
        },
        RelevanceJudgment {
            id: String::from_str("G2Q5"),
            query_text: String::from_str("await each notification handler sequentially one at a time"),
            query_type: Semantic,
            fuzzy_subtype: None,
            relevant_ranges: vec![
                (
                    SourceRange {
                        file: String::from_str("src/MediatR/NotificationPublishers/ForeachAwaitPublisher.cs"),
                        start_line: 17,
                        end_line: 23,
                    },
                    RelevanceLevel::Strong,
                ),
                (
                    SourceRange {
                        file: String::from_str("src/MediatR/Mediator.cs"),
                        start_line: 147,
                        end_line: 148,
                    },
                    RelevanceLevel::Related,
                ),
            ],
        },
        RelevanceJudgment {
            id: String::from_str("G2Q6"),
            query_text: String::from_str("run notification handlers concurrently and await all of them"),
            query_type: Semantic,
            fuzzy_subtype: None,
            relevant_ranges: vec![
                (
                    SourceRange {
                        file: String::from_str("src/MediatR/NotificationPublishers/TaskWhenAllPublisher.cs"),
                        start_line: 20,
                        end_line: 27,
                    },
                    RelevanceLevel::Strong,
                ),
                (
                    SourceRange {
                        file: String::from_str("src/MediatR/Mediator.cs"),
                        start_line: 147,
                        end_line: 148,
                    },
                    RelevanceLevel::Related,
                ),
            ],
        },
        RelevanceJudgment {
            id: String::from_str("G2Q7"),
            query_text: String::from_str("create a lazy async stream response from a stream request handler"),
            query_type: Semantic,
            fuzzy_subtype: None,
            relevant_ranges: vec![
                (
                    SourceRange {
                        file: String::from_str("src/MediatR/Mediator.cs"),
                        start_line: 163,
                        end_line: 180,
                    },
                    RelevanceLevel::Strong,
                ),
                (
                    SourceRange {
                        file: String::from_str("src/MediatR/IStreamRequestHandler.cs"),
                        start_line: 11,
                        end_line: 21,
                    },
                    RelevanceLevel::Related,
                ),
            ],
        },
        RelevanceJudgment {
            id: String::from_str("G2Q8"),
            query_text: String::from_str("wrap the inner handler with pre-processors that run before it"),
            query_type: Semantic,
            fuzzy_subtype: None,
            relevant_ranges: vec![
                (
                    SourceRange {
                        file: String::from_str("src/MediatR/Pipeline/RequestPreProcessorBehavior.cs"),
                        start_line: 20,
                        end_line: 28,
                    },
                    RelevanceLevel::Strong,
                ),
                (
                    SourceRange {
                        file: String::from_str("src/MediatR/Pipeline/IRequestPreProcessor.cs"),
                        start_line: 10,
                        end_line: 19,
                    },
                    RelevanceLevel::Related,
                ),
            ],
        },
        RelevanceJudgment {
            id: String::from_str("G2Q9"),
            query_text: String::from_str("run post-processors after the handler has produced a response"),
            query_type: Semantic,
            fuzzy_subtype: None,
            relevant_ranges: vec![
                (
                    SourceRange {
                        file: String::from_str("src/MediatR/Pipeline/RequestPostProcessorBehavior.cs"),
                        start_line: 20,
                        end_line: 30,
                    },
                    RelevanceLevel::Strong,
                ),
                (
                    SourceRange {
                        file: String::from_str("src/MediatR/Pipeline/IRequestPostProcessor.cs"),
                        start_line: 11,
                        end_line: 21,
                    },
                    RelevanceLevel::Related,
                ),
            ],
        },
        RelevanceJudgment {
            id: String::from_str("G2Q10"),
            query_text: String::from_str("recover from handler exceptions using registered exception handlers"),
            query_type: Semantic,
            fuzzy_subtype: None,
            relevant_ranges: vec![
                (
                    SourceRange {
                        file: String::from_str("src/MediatR/Pipeline/RequestExceptionProcessorBehavior.cs"),
                        start_line: 26,
                        end_line: 76,
                    },
                    RelevanceLevel::Strong,
                ),
                (
                    SourceRange {
                        file: String::from_str("src/MediatR/Pipeline/RequestExceptionProcessorBehavior.cs"),
                        start_line: 86,
                        end_line: 95,
                    },
                    RelevanceLevel::Related,
                ),
            ],
        },
        RelevanceJudgment {
            id: String::from_str("G2Q11"),
            query_text: String::from_str("compose pipeline behaviors from the innermost handler outwards"),
            query_type: Semantic,
            fuzzy_subtype: None,
            relevant_ranges: vec![
                (
                    SourceRange {
                        file: String::from_str("src/MediatR/Wrappers/RequestHandlerWrapper.cs"),
                        start_line: 34,
                        end_line: 45,
                    },
                    RelevanceLevel::Strong,
                ),
                (
                    SourceRange {
                        file: String::from_str("src/MediatR/Wrappers/RequestHandlerWrapper.cs"),
                        start_line: 55,
                        end_line: 71,
                    },
                    RelevanceLevel::Related,
                ),
            ],
        },
        RelevanceJudgment {
            id: String::from_str("G2Q12"),
            query_text: String::from_str("resolve and de-duplicate notification handlers by published type"),
            query_type: Semantic,
            fuzzy_subtype: None,
            relevant_ranges: vec![
                (
                    SourceRange {
                        file: String::from_str("src/MediatR/Wrappers/NotificationHandlerWrapper.cs"),
                        start_line: 20,
                        end_line: 31,
                    },
                    RelevanceLevel::Strong,
                ),
                (
                    SourceRange {
                        file: String::from_str("src/MediatR/Mediator.cs"),
                        start_line: 150,
                        end_line: 160,
                    },
                    RelevanceLevel::Related,
                ),
            ],
        },
        RelevanceJudgment {
            id: String::from_str("G2Q13"),
            query_text: String::from_str("register mediator sender and publisher as the required core services"),
            query_type: Semantic,
            fuzzy_subtype: None,
            relevant_ranges: vec![
                (
                    SourceRange {
                        file: String::from_str("src/MediatR/Registration/ServiceRegistrar.cs"),
                        start_line: 464,
                        end_line: 548,
                    },
                    RelevanceLevel::Strong,
                ),
                (
                    SourceRange {
                        file: String::from_str("src/MediatR/Registration/ServiceRegistrar.cs"),
                        start_line: 44,
                        end_line: 92,
                    },
                    RelevanceLevel::Related,
                ),
            ],
        },
        RelevanceJudgment {
            id: String::from_str("G2Q14"),
            query_text: String::from_str("scan assemblies and register all request and notification handlers"),
            query_type: Semantic,
            fuzzy_subtype: None,
            relevant_ranges: vec![
                (
                    SourceRange {
                        file: String::from_str("src/MediatR/Registration/ServiceRegistrar.cs"),
                        start_line: 44,
                        end_line: 92,
                    },
                    RelevanceLevel::Strong,
                ),
                (
                    SourceRange {
                        file: String::from_str("src/MediatR/Registration/ServiceRegistrar.cs"),
                        start_line: 94,
                        end_line: 170,
                    },
                    RelevanceLevel::Related,
                ),
            ],
        },
        RelevanceJudgment {
            id: String::from_str("G2Q15"),
            query_text: String::from_str("register handlers and mediator types into the service collection"),
            query_type: Semantic,
            fuzzy_subtype: None,
            relevant_ranges: vec![
                (
                    SourceRange {
                        file: String::from_str("src/MediatR/MicrosoftExtensionsDI/MediatRServiceCollectionExtensions.cs"),
                        start_line: 46,
                        end_line: 61,
                    },
                    RelevanceLevel::Strong,
                ),
                (
                    SourceRange {
                        file: String::from_str("src/MediatR/Registration/ServiceRegistrar.cs"),
                        start_line: 44,
                        end_line: 92,
                    },
                    RelevanceLevel::Related,
                ),
            ],
        },
        RelevanceJudgment {
            id: String::from_str("G2Q16"),
            query_text: String::from_str("resolve a single request handler instance from the service provider"),
            query_type: Semantic,
            fuzzy_subtype: None,
            relevant_ranges: vec![
                (
                    SourceRange {
                        file: String::from_str("src/MediatR/Wrappers/RequestHandlerWrapper.cs"),
                        start_line: 34,
                        end_line: 45,
                    },
                    RelevanceLevel::Strong,
                ),
                (
                    SourceRange {
                        file: String::from_str("src/MediatR/IRequestHandler.cs"),
                        start_line: 11,
                        end_line: 21,
                    },
                    RelevanceLevel::Related,
                ),
            ],
        },
        RelevanceJudgment {
            id: String::from_str("G2Q17"),
            query_text: String::from_str("define the async continuation contract each pipeline behavior must call"),
            query_type: Semantic,
            fuzzy_subtype: None,
            relevant_ranges: vec![
                (
                    SourceRange {
                        file: String::from_str("src/MediatR/IPipelineBehavior.cs"),
                        start_line: 12,
                        end_line: 30,
                    },
                    RelevanceLevel::Strong,
                ),
                (
                    SourceRange {
                        file: String::from_str("src/MediatR/Wrappers/RequestHandlerWrapper.cs"),
                        start_line: 40,
                        end_line: 44,
                    },
                    RelevanceLevel::Related,
                ),
            ],
        },
        RelevanceJudgment {
            id: String::from_str("G2Q18"),
            query_text: String::from_str("represent a request marker that signals a void or typed response"),
            query_type: Semantic,
            fuzzy_subtype: None,
            relevant_ranges: vec![
                (
                    SourceRange {
                        file: String::from_str("src/MediatR.Contracts/IRequest.cs"),
                        start_line: 6,
                        end_line: 17,
                    },
                    RelevanceLevel::Strong,
                ),
                (
                    SourceRange {
                        file: String::from_str("src/MediatR/IRequestHandler.cs"),
                        start_line: 27,
                        end_line: 37,
                    },
                    RelevanceLevel::Related,
                ),
            ],
        },
        RelevanceJudgment {
            id: String::from_str("G2Q19"),
            query_text: String::from_str("synchronously wrap a void notification handler into a task returning handler"),
            query_type: Semantic,
            fuzzy_subtype: None,
            relevant_ranges: vec![
                (
                    SourceRange {
                        file: String::from_str("src/MediatR/INotificationHandler.cs"),
                        start_line: 25,
                        end_line: 39,
                    },
                    RelevanceLevel::Strong,
                ),
                (
                    SourceRange {
                        file: String::from_str("src/MediatR/INotificationHandler.cs"),
                        start_line: 10,
                        end_line: 19,
                    },
                    RelevanceLevel::Related,
                ),
            ],
        },
        RelevanceJudgment {
            id: String::from_str("G2Q20"),
            query_text: String::from_str("delegate the publish work to the configured notification publisher"),
            query_type: Semantic,
            fuzzy_subtype: None,
            relevant_ranges: vec![
                (
                    SourceRange {
                        file: String::from_str("src/MediatR/Mediator.cs"),
                        start_line: 147,
                        end_line: 160,
                    },
                    RelevanceLevel::Strong,
                ),
                (
                    SourceRange {
                        file: String::from_str("src/MediatR/NotificationPublishers/ForeachAwaitPublisher.cs"),
                        start_line: 17,
                        end_line: 23,
                    },
                    RelevanceLevel::Related,
                ),
            ],
        },
        // Fuzzy queries: lexical perturbations of the qualified set, same ranges.
        fuzzy_strong(
            "G3Q1",
            "SendRequest method in Mediator",
            "naming_affix",
            "src/MediatR/Mediator.cs",
            50,
            65,
        ),
        fuzzy_strong(
            "G3Q2",
            "SendHandler method on Mediator",
            "naming_case",
            "src/MediatR/Mediator.cs",
            50,
            65,
        ),
        fuzzy_strong(
            "G3Q3",
            "deliver a notification to handlers in Mediator",
            "paraphrase",
            "src/MediatR/Mediator.cs",
            121,
            130,
        ),
        fuzzy_strong(
            "G3Q4",
            "publish notification method in Mediator",
            "abbrev_expand",
            "src/MediatR/Mediator.cs",
            121,
            130,
        ),
        fuzzy_strong(
            "G3Q5",
            "CreateAsyncStream in Mediator",
            "synonym",
            "src/MediatR/Mediator.cs",
            163,
            180,
        ),
        fuzzy_strong(
            "G3Q6",
            "Invoke method on RequestHandlerWrapperImpl",
            "synonym",
            "src/MediatR/Wrappers/RequestHandlerWrapper.cs",
            34,
            45,
        ),
        fuzzy_strong(
            "G3Q7",
            "ProcessHandler in RequestHandlerWrapperImpl",
            "naming_affix",
            "src/MediatR/Wrappers/RequestHandlerWrapper.cs",
            34,
            45,
        ),
        fuzzy_strong(
            "G3Q8",
            "execute preprocessing hooks before handling a request",
            "paraphrase",
            "src/MediatR/Pipeline/RequestPreProcessorBehavior.cs",
            20,
            28,
        ),
        fuzzy_strong(
            "G3Q9",
            "PostProcess in RequestPostProcessorBehavior",
            "synonym",
            "src/MediatR/Pipeline/RequestPostProcessorBehavior.cs",
            20,
            30,
        ),
        fuzzy_strong(
            "G3Q10",
            "addRequiredServices in ServiceRegistrar",
            "naming_case",
            "src/MediatR/Registration/ServiceRegistrar.cs",
            464,
            548,
        ),
        fuzzy_strong(
            "G3Q11",
            "add the required mediator core services",
            "abbrev_expand",
            "src/MediatR/Registration/ServiceRegistrar.cs",
            464,
            548,
        ),
        fuzzy_strong(
            "G3Q12",
            "HandleRequest in RequestExceptionProcessorBehavior",
            "naming_case",
            "src/MediatR/Pipeline/RequestExceptionProcessorBehavior.cs",
            26,
            76,
        ),
        fuzzy_strong(
            "G3Q13",
            "Receive method on INotificationHandler",
            "naming_affix",
            "src/MediatR/INotificationHandler.cs",
            10,
            19,
        ),
        fuzzy_strong(
            "G3Q14",
            "publish notifications via the foreach await publisher",
            "abbrev_expand",
            "src/MediatR/NotificationPublishers/ForeachAwaitPublisher.cs",
            17,
            23,
        ),
        fuzzy_strong(
            "G3Q15",
            "stream request handler contract in MediatR",
            "naming_affix",
            "src/MediatR/IStreamRequestHandler.cs",
            11,
            21,
        ),
    ];
    proof {
        assert(judgment_views(res@) =~~= mediatr_table());
    }
    res
}

} // verus!
