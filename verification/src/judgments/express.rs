//! Range-based relevance judgments for the Express JavaScript codebase.
//!
//! The query split mirrors the flask benchmark: ten qualified symbol
//! queries, twenty semantic behavior queries and fifteen fuzzy
//! perturbations of the qualified set. Every range is anchored to a
//! concrete implementation in `fixtures/javascript/review/express/lib`.

use vstd::prelude::*;
use crate::bench_data::{JudgmentView, QueryType, RelevanceJudgment, RelevanceLevel, SourceRange, judgment_views, judgment_wf};
use crate::bench_data::{judgment_view, range_view};
use crate::bench_data::QueryType::{Qualified, Semantic};

verus! {

fn strong(
    id: &str,
    query_text: &str,
    query_type: QueryType,
    file: &str,
    start_line: usize,
    end_line: usize,
) -> (res: RelevanceJudgment)
    requires
        1 <= start_line <= end_line,
        query_type != QueryType::Fuzzy,
    ensures
        judgment_wf(res),
        res.id@ == id@,
        res.query_type == query_type,
        res.relevant_ranges@.len() == 1,
        judgment_view(res) == (id@, query_text@, query_type, None::<Seq<char>>, seq![(file@, start_line, end_line, RelevanceLevel::Strong)]),
{
    let mut relevant_ranges = Vec::new();
    relevant_ranges.push((
        SourceRange { file: String::from_str(file), start_line, end_line },
        RelevanceLevel::Strong,
    ));
    proof {
        assert(relevant_ranges@.map_values(|r: (SourceRange, RelevanceLevel)| range_view(r)) =~= seq![(file@, start_line, end_line, RelevanceLevel::Strong)]);
    }
    RelevanceJudgment {
        id: String::from_str(id),
        query_text: String::from_str(query_text),
        query_type,
        fuzzy_subtype: None,
        relevant_ranges,
    }
}

fn fuzzy_strong(
    id: &str,
    query_text: &str,
    subtype: &str,
    file: &str,
    start_line: usize,
    end_line: usize,
) -> (res: RelevanceJudgment)
    requires
        1 <= start_line <= end_line,
    ensures
        judgment_wf(res),
        res.id@ == id@,
        res.query_type == QueryType::Fuzzy,
        res.relevant_ranges@.len() == 1,
        judgment_view(res) == (id@, query_text@, QueryType::Fuzzy, Some(subtype@), seq![(file@, start_line, end_line, RelevanceLevel::Strong)]),
{
    let mut relevant_ranges = Vec::new();
    relevant_ranges.push((
        SourceRange { file: String::from_str(file), start_line, end_line },
        RelevanceLevel::Strong,
    ));
    proof {
        assert(relevant_ranges@.map_values(|r: (SourceRange, RelevanceLevel)| range_view(r)) =~= seq![(file@, start_line, end_line, RelevanceLevel::Strong)]);
    }
    RelevanceJudgment {
        id: String::from_str(id),
        query_text: String::from_str(query_text),
        query_type: QueryType::Fuzzy,
        fuzzy_subtype: Some(String::from_str(subtype)),
        relevant_ranges,
    }
}

/// The table as values: id, query text, query type, fuzzy subtype and
/// the (file, start line, end line, level) of every relevant range.
pub open spec fn express_table() -> Seq<JudgmentView> {
    seq![
        ("G1Q1"@, "app.use method in Express"@, QueryType::Qualified, None, seq![("lib/application.js"@, 190usize, 244usize, RelevanceLevel::Strong)]),
        ("G1Q2"@, "handle method in Express app"@, QueryType::Qualified, None, seq![("lib/application.js"@, 152usize, 178usize, RelevanceLevel::Strong)]),
        ("G1Q3"@, "send method on Express response"@, QueryType::Qualified, None, seq![("lib/response.js"@, 126usize, 220usize, RelevanceLevel::Strong)]),
        ("G1Q4"@, "json method on Express response"@, QueryType::Qualified, None, seq![("lib/response.js"@, 234usize, 248usize, RelevanceLevel::Strong)]),
        ("G1Q5"@, "get method on Express request"@, QueryType::Qualified, None, seq![("lib/request.js"@, 63usize, 83usize, RelevanceLevel::Strong)]),
        ("G1Q6"@, "createApplication factory in express"@, QueryType::Qualified, None, seq![("lib/express.js"@, 36usize, 56usize, RelevanceLevel::Strong)]),
        ("G1Q7"@, "render method on Express app"@, QueryType::Qualified, None, seq![("lib/application.js"@, 522usize, 575usize, RelevanceLevel::Strong)]),
        ("G1Q8"@, "View constructor in Express"@, QueryType::Qualified, None, seq![("lib/view.js"@, 52usize, 95usize, RelevanceLevel::Strong)]),
        ("G1Q9"@, "cookie method on Express response"@, QueryType::Qualified, None, seq![("lib/response.js"@, 745usize, 778usize, RelevanceLevel::Strong)]),
        ("G1Q10"@, "listen method on Express app"@, QueryType::Qualified, None, seq![("lib/application.js"@, 598usize, 606usize, RelevanceLevel::Strong)]),
        ("G2Q1"@, "dispatch an incoming req and res pair through the middleware pipeline"@, QueryType::Semantic, None, seq![("lib/application.js"@, 152usize, 178usize, RelevanceLevel::Strong), ("lib/application.js"@, 190usize, 244usize, RelevanceLevel::Related)]),
        ("G2Q2"@, "attach a middleware function to the application router at a mount path"@, QueryType::Semantic, None, seq![("lib/application.js"@, 190usize, 244usize, RelevanceLevel::Strong), ("lib/application.js"@, 256usize, 258usize, RelevanceLevel::Related)]),
        ("G2Q3"@, "create a route for a path and register chained HTTP method handlers"@, QueryType::Semantic, None, seq![("lib/application.js"@, 256usize, 258usize, RelevanceLevel::Strong), ("lib/application.js"@, 471usize, 482usize, RelevanceLevel::Related)]),
        ("G2Q4"@, "assign and read back application settings and triggers compiled option callbacks"@, QueryType::Semantic, None, seq![("lib/application.js"@, 351usize, 383usize, RelevanceLevel::Strong), ("lib/application.js"@, 420usize, 422usize, RelevanceLevel::Related)]),
        ("G2Q5"@, "register a callback invoked for a route parameter, supporting arrays of names"@, QueryType::Semantic, None, seq![("lib/application.js"@, 322usize, 334usize, RelevanceLevel::Strong)]),
        ("G2Q6"@, "register a template engine callback for a file extension"@, QueryType::Semantic, None, seq![("lib/application.js"@, 294usize, 308usize, RelevanceLevel::Strong)]),
        ("G2Q7"@, "turn a view name and options into a rendered template string"@, QueryType::Semantic, None, seq![("lib/application.js"@, 522usize, 575usize, RelevanceLevel::Strong), ("lib/application.js"@, 625usize, 631usize, RelevanceLevel::Related)]),
        ("G2Q8"@, "write the HTTP response body applying content type length and etag handling"@, QueryType::Semantic, None, seq![("lib/response.js"@, 126usize, 220usize, RelevanceLevel::Strong)]),
        ("G2Q9"@, "send a JavaScript object to the client as a JSON response"@, QueryType::Semantic, None, seq![("lib/response.js"@, 234usize, 248usize, RelevanceLevel::Strong)]),
        ("G2Q10"@, "send a JSON response wrapped in a JSONP callback name from the query"@, QueryType::Semantic, None, seq![("lib/response.js"@, 262usize, 306usize, RelevanceLevel::Strong)]),
        ("G2Q11"@, "stream a file from disk while setting content-type and cache headers"@, QueryType::Semantic, None, seq![("lib/response.js"@, 373usize, 415usize, RelevanceLevel::Strong), ("lib/response.js"@, 921usize, 1009usize, RelevanceLevel::Related)]),
        ("G2Q12"@, "set or clear an http cookie with signing and expiry options"@, QueryType::Semantic, None, seq![("lib/response.js"@, 745usize, 778usize, RelevanceLevel::Strong), ("lib/response.js"@, 712usize, 719usize, RelevanceLevel::Related)]),
        ("G2Q13"@, "redirect the client to a location using a configurable status code"@, QueryType::Semantic, None, seq![("lib/response.js"@, 812usize, 864usize, RelevanceLevel::Strong)]),
        ("G2Q14"@, "return an incoming request header, special-casing referrer and referer"@, QueryType::Semantic, None, seq![("lib/request.js"@, 63usize, 83usize, RelevanceLevel::Strong)]),
        ("G2Q15"@, "match the request accept headers against the supported content types"@, QueryType::Semantic, None, seq![("lib/request.js"@, 127usize, 130usize, RelevanceLevel::Strong)]),
        ("G2Q16"@, "parse the raw query string of the url using the configured value for query parser"@, QueryType::Semantic, None, seq![("lib/request.js"@, 230usize, 241usize, RelevanceLevel::Strong), ("lib/utils.js"@, 162usize, 184usize, RelevanceLevel::Related)]),
        ("G2Q17"@, "determine the originating client ip address when running behind a trusted proxy"@, QueryType::Semantic, None, seq![("lib/request.js"@, 340usize, 343usize, RelevanceLevel::Strong), ("lib/request.js"@, 357usize, 366usize, RelevanceLevel::Related)]),
        ("G2Q18"@, "look up and resolve a template view file by name across its root directories"@, QueryType::Semantic, None, seq![("lib/view.js"@, 104usize, 123usize, RelevanceLevel::Strong), ("lib/view.js"@, 169usize, 187usize, RelevanceLevel::Related)]),
        ("G2Q19"@, "initialize the application with default settings, locals and a lazy router"@, QueryType::Semantic, None, seq![("lib/application.js"@, 59usize, 83usize, RelevanceLevel::Strong), ("lib/application.js"@, 90usize, 141usize, RelevanceLevel::Related)]),
        ("G2Q20"@, "compile the etag setting value into a response tag generating function"@, QueryType::Semantic, None, seq![("lib/utils.js"@, 130usize, 152usize, RelevanceLevel::Strong)]),
        ("FZ-G1Q1-naming_affix"@, "use_handler method on Express app"@, QueryType::Fuzzy, Some("naming_affix"@), seq![("lib/application.js"@, 190usize, 244usize, RelevanceLevel::Strong)]),
        ("FZ-G1Q1-paraphrase"@, "add middleware functions to the app router"@, QueryType::Fuzzy, Some("paraphrase"@), seq![("lib/application.js"@, 190usize, 244usize, RelevanceLevel::Strong)]),
        ("FZ-G1Q2-naming_case"@, "appHandle in Express"@, QueryType::Fuzzy, Some("naming_case"@), seq![("lib/application.js"@, 152usize, 178usize, RelevanceLevel::Strong)]),
        ("FZ-G1Q2-synonym"@, "process_request in Express"@, QueryType::Fuzzy, Some("synonym"@), seq![("lib/application.js"@, 152usize, 178usize, RelevanceLevel::Strong)]),
        ("FZ-G1Q3-naming_case"@, "sendResponse method on the response"@, QueryType::Fuzzy, Some("naming_case"@), seq![("lib/response.js"@, 126usize, 220usize, RelevanceLevel::Strong)]),
        ("FZ-G1Q3-paraphrase"@, "write the response body back to the client"@, QueryType::Fuzzy, Some("paraphrase"@), seq![("lib/response.js"@, 126usize, 220usize, RelevanceLevel::Strong)]),
        ("FZ-G1Q4-naming_affix"@, "jsonify method on Express response"@, QueryType::Fuzzy, Some("naming_affix"@), seq![("lib/response.js"@, 234usize, 248usize, RelevanceLevel::Strong)]),
        ("FZ-G1Q5-naming_case"@, "reqGet in Express"@, QueryType::Fuzzy, Some("naming_case"@), seq![("lib/request.js"@, 63usize, 83usize, RelevanceLevel::Strong)]),
        ("FZ-G1Q5-paraphrase"@, "fetch a request header by name"@, QueryType::Fuzzy, Some("paraphrase"@), seq![("lib/request.js"@, 63usize, 83usize, RelevanceLevel::Strong)]),
        ("FZ-G1Q6-naming_affix"@, "create_application factory in express"@, QueryType::Fuzzy, Some("naming_affix"@), seq![("lib/express.js"@, 36usize, 56usize, RelevanceLevel::Strong)]),
        ("FZ-G1Q6-paraphrase"@, "build a new express application"@, QueryType::Fuzzy, Some("paraphrase"@), seq![("lib/express.js"@, 36usize, 56usize, RelevanceLevel::Strong)]),
        ("FZ-G1Q7-abbrev_expand"@, "renders a template view in the Express app"@, QueryType::Fuzzy, Some("abbrev_expand"@), seq![("lib/application.js"@, 522usize, 575usize, RelevanceLevel::Strong)]),
        ("FZ-G1Q8-naming_case"@, "View class constructor in Express"@, QueryType::Fuzzy, Some("naming_case"@), seq![("lib/view.js"@, 52usize, 95usize, RelevanceLevel::Strong)]),
        ("FZ-G1Q9-synonym"@, "set_cookie in Express"@, QueryType::Fuzzy, Some("synonym"@), seq![("lib/response.js"@, 745usize, 778usize, RelevanceLevel::Strong)]),
        ("FZ-G1Q10-abbrev_expand"@, "start listening for connections on the http server"@, QueryType::Fuzzy, Some("abbrev_expand"@), seq![("lib/application.js"@, 598usize, 606usize, RelevanceLevel::Strong)]),
    ]
}

pub fn express_relevance_judgments() -> (res: Vec<RelevanceJudgment>)
    ensures
        judgment_views(res@) == express_table(),
        res@.len() == 45,
        forall|i: int| 0 <= i < res@.len() ==> #[trigger] judgment_wf(res@[i]),
{

    let res = vec![
        // Qualified symbol queries: symbol tokens preserved in
        // natural-language structure (e.g. `app.use method in Express`).
        strong(
            "G1Q1",
            "app.use method in Express",
            Qualified,
            "lib/application.js",
            190,
            244,
        ),
        strong(
            "G1Q2",
            "handle method in Express app",
            Qualified,
            "lib/application.js",
            152,
            178,
        ),
        strong(
            "G1Q3",
            "send method on Express response",
            Qualified,
            "lib/response.js",
            126,
            220,
        ),
        strong(
            "G1Q4",
            "json method on Express response",
            Qualified,
            "lib/response.js",
            234,
            248,
        ),
        strong(
            "G1Q5",
            "get method on Express request",
            Qualified,
            "lib/request.js",
            63,
            83,
        ),
        strong(
            "G1Q6",
            "createApplication factory in express",
            Qualified,
            "lib/express.js",
            36,
            56,
        ),
        strong(
            "G1Q7",
            "render method on Express app",
            Qualified,
            "lib/application.js",
            522,
            575,
        ),
        strong(
            "G1Q8",
            "View constructor in Express",
            Qualified,
            "lib/view.js",
            52,
            95,
        ),
        strong(
            "G1Q9",
            "cookie method on Express response",
            Qualified,
            "lib/response.js",
            745,
            778,
        ),
        strong(
            "G1Q10",
            "listen method on Express app",
            Qualified,
            "lib/application.js",
            598,
            606,
        ),
        // Semantic behavior queries.
        RelevanceJudgment {
            id: String::from_str("G2Q1"),
            query_text: String::from_str("dispatch an incoming req and res pair through the middleware pipeline"),
            query_type: Semantic,
            fuzzy_subtype: None,
            relevant_ranges: vec![
                (
                    SourceRange {
                        file: String::from_str("lib/application.js"),
                        start_line: 152,
                        end_line: 178,
                    },
                    RelevanceLevel::Strong,
                ),
                (
                    SourceRange {
                        file: String::from_str("lib/application.js"),
                        start_line: 190,
                        end_line: 244,
                    },
                    RelevanceLevel::Related,
                ),
            ],
        },
        RelevanceJudgment {
            id: String::from_str("G2Q2"),
            query_text: String::from_str("attach a middleware function to the application router at a mount path"),
            query_type: Semantic,
            fuzzy_subtype: None,
            relevant_ranges: vec![
                (
                    SourceRange {
                        file: String::from_str("lib/application.js"),
                        start_line: 190,
                        end_line: 244,
                    },
                    RelevanceLevel::Strong,
                ),
                (
                    SourceRange {
                        file: String::from_str("lib/application.js"),
                        start_line: 256,
                        end_line: 258,
                    },
                    RelevanceLevel::Related,
                ),
            ],
        },
        RelevanceJudgment {
            id: String::from_str("G2Q3"),
            query_text: String::from_str("create a route for a path and register chained HTTP method handlers"),
            query_type: Semantic,
            fuzzy_subtype: None,
            relevant_ranges: vec![
                (
                    SourceRange {
                        file: String::from_str("lib/application.js"),
                        start_line: 256,
                        end_line: 258,
                    },
                    RelevanceLevel::Strong,
                ),
                (
                    SourceRange {
                        file: String::from_str("lib/application.js"),
                        start_line: 471,
                        end_line: 482,
                    },
                    RelevanceLevel::Related,
                ),
            ],
        },
        RelevanceJudgment {
            id: String::from_str("G2Q4"),
            query_text:
                String::from_str("assign and read back application settings and triggers compiled option callbacks"),
            query_type: Semantic,
            fuzzy_subtype: None,
            relevant_ranges: vec![
                (
                    SourceRange {
                        file: String::from_str("lib/application.js"),
                        start_line: 351,
                        end_line: 383,
                    },
                    RelevanceLevel::Strong,
                ),
                (
                    SourceRange {
                        file: String::from_str("lib/application.js"),
                        start_line: 420,
                        end_line: 422,
                    },
                    RelevanceLevel::Related,
                ),
            ],
        },
        RelevanceJudgment {
            id: String::from_str("G2Q5"),
            query_text:
                String::from_str("register a callback invoked for a route parameter, supporting arrays of names"),
            query_type: Semantic,
            fuzzy_subtype: None,
            relevant_ranges: vec![(
                SourceRange {
                    file: String::from_str("lib/application.js"),
                    start_line: 322,
                    end_line: 334,
                },
                RelevanceLevel::Strong,
            )],
        },
        strong(
            "G2Q6",
            "register a template engine callback for a file extension",
            Semantic,
            "lib/application.js",
            294,
            308,
        ),
        RelevanceJudgment {
            id: String::from_str("G2Q7"),
            query_text: String::from_str("turn a view name and options into a rendered template string"),
            query_type: Semantic,
            fuzzy_subtype: None,
            relevant_ranges: vec![
                (
                    SourceRange {
                        file: String::from_str("lib/application.js"),
                        start_line: 522,
                        end_line: 575,
                    },
                    RelevanceLevel::Strong,
                ),
                (
                    SourceRange {
                        file: String::from_str("lib/application.js"),
                        start_line: 625,
                        end_line: 631,
                    },
                    RelevanceLevel::Related,
                ),
            ],
        },
        RelevanceJudgment {
            id: String::from_str("G2Q8"),
            query_text:
                String::from_str("write the HTTP response body applying content type length and etag handling"),
            query_type: Semantic,
            fuzzy_subtype: None,
            relevant_ranges: vec![(
                SourceRange {
                    file: String::from_str("lib/response.js"),
                    start_line: 126,
                    end_line: 220,
                },
                RelevanceLevel::Strong,
            )],
        },
        strong(
            "G2Q9",
            "send a JavaScript object to the client as a JSON response",
            Semantic,
            "lib/response.js",
            234,
            248,
        ),
        strong(
            "G2Q10",
            "send a JSON response wrapped in a JSONP callback name from the query",
            Semantic,
            "lib/response.js",
            262,
            306,
        ),
        RelevanceJudgment {
            id: String::from_str("G2Q11"),
            query_text: String::from_str("stream a file from disk while setting content-type and cache headers"),
            query_type: Semantic,
            fuzzy_subtype: None,
            relevant_ranges: vec![
                (
                    SourceRange {
                        file: String::from_str("lib/response.js"),
                        start_line: 373,
                        end_line: 415,
                    },
                    RelevanceLevel::Strong,
                ),
                (
                    SourceRange {
                        file: String::from_str("lib/response.js"),
                        start_line: 921,
                        end_line: 1009,
                    },
                    RelevanceLevel::Related,
                ),
            ],
        },
        RelevanceJudgment {
            id: String::from_str("G2Q12"),
            query_text: String::from_str("set or clear an http cookie with signing and expiry options"),
            query_type: Semantic,
            fuzzy_subtype: None,
            relevant_ranges: vec![
                (
                    SourceRange {
                        file: String::from_str("lib/response.js"),
                        start_line: 745,
                        end_line: 778,
                    },
                    RelevanceLevel::Strong,
                ),
                (
                    SourceRange {
                        file: String::from_str("lib/response.js"),
                        start_line: 712,
                        end_line: 719,
                    },
                    RelevanceLevel::Related,
                ),
            ],
        },
        strong(
            "G2Q13",
            "redirect the client to a location using a configurable status code",
            Semantic,
            "lib/response.js",
            812,
            864,
        ),
        strong(
            "G2Q14",
            "return an incoming request header, special-casing referrer and referer",
            Semantic,
            "lib/request.js",
            63,
            83,
        ),
        strong(
            "G2Q15",
            "match the request accept headers against the supported content types",
            Semantic,
            "lib/request.js",
            127,
            130,
        ),
        RelevanceJudgment {
            id: String::from_str("G2Q16"),
            query_text:
                String::from_str("parse the raw query string of the url using the configured value for query parser"),
            query_type: Semantic,
            fuzzy_subtype: None,
            relevant_ranges: vec![
                (
                    SourceRange {
                        file: String::from_str("lib/request.js"),
                        start_line: 230,
                        end_line: 241,
                    },
                    RelevanceLevel::Strong,
                ),
                (
                    SourceRange {
                        file: String::from_str("lib/utils.js"),
                        start_line: 162,
                        end_line: 184,
                    },
                    RelevanceLevel::Related,
                ),
            ],
        },
        RelevanceJudgment {
            id: String::from_str("G2Q17"),
            query_text:
                String::from_str("determine the originating client ip address when running behind a trusted proxy"),
            query_type: Semantic,
            fuzzy_subtype: None,
            relevant_ranges: vec![
                (
                    SourceRange {
                        file: String::from_str("lib/request.js"),
                        start_line: 340,
                        end_line: 343,
                    },
                    RelevanceLevel::Strong,
                ),
                (
                    SourceRange {
                        file: String::from_str("lib/request.js"),
                        start_line: 357,
                        end_line: 366,
                    },
                    RelevanceLevel::Related,
                ),
            ],
        },
        RelevanceJudgment {
            id: String::from_str("G2Q18"),
            query_text:
                String::from_str("look up and resolve a template view file by name across its root directories"),
            query_type: Semantic,
            fuzzy_subtype: None,
            relevant_ranges: vec![
                (
                    SourceRange {
                        file: String::from_str("lib/view.js"),
                        start_line: 104,
                        end_line: 123,
                    },
                    RelevanceLevel::Strong,
                ),
                (
                    SourceRange {
                        file: String::from_str("lib/view.js"),
                        start_line: 169,
                        end_line: 187,
                    },
                    RelevanceLevel::Related,
                ),
            ],
        },
        RelevanceJudgment {
            id: String::from_str("G2Q19"),
            query_text:
                String::from_str("initialize the application with default settings, locals and a lazy router"),
            query_type: Semantic,
            fuzzy_subtype: None,
            relevant_ranges: vec![
                (
                    SourceRange {
                        file: String::from_str("lib/application.js"),
                        start_line: 59,
                        end_line: 83,
                    },
                    RelevanceLevel::Strong,
                ),
                (
                    SourceRange {
                        file: String::from_str("lib/application.js"),
                        start_line: 90,
                        end_line: 141,
                    },
                    RelevanceLevel::Related,
                ),
            ],
        },
        strong(
            "G2Q20",
            "compile the etag setting value into a response tag generating function",
            Semantic,
            "lib/utils.js",
            130,
            152,
        ),
        // Fuzzy queries: lexical perturbations of the qualified set, same
        // ranges. FZ-G1Q<n> corresponds to qualified query G1Q<n>.
        // FZ-G1Q1: app.use
        fuzzy_strong(
            "FZ-G1Q1-naming_affix",
            "use_handler method on Express app",
            "naming_affix",
            "lib/application.js",
            190,
            244,
        ),
        fuzzy_strong(
            "FZ-G1Q1-paraphrase",
            "add middleware functions to the app router",
            "paraphrase",
            "lib/application.js",
            190,
            244,
        ),
        // FZ-G1Q2: app.handle
        fuzzy_strong(
            "FZ-G1Q2-naming_case",
            "appHandle in Express",
            "naming_case",
            "lib/application.js",
            152,
            178,
        ),
        fuzzy_strong(
            "FZ-G1Q2-synonym",
            "process_request in Express",
            "synonym",
            "lib/application.js",
            152,
            178,
        ),
        // FZ-G1Q3: res.send
        fuzzy_strong(
            "FZ-G1Q3-naming_case",
            "sendResponse method on the response",
            "naming_case",
            "lib/response.js",
            126,
            220,
        ),
        fuzzy_strong(
            "FZ-G1Q3-paraphrase",
            "write the response body back to the client",
            "paraphrase",
            "lib/response.js",
            126,
            220,
        ),
        // FZ-G1Q4: res.json
        fuzzy_strong(
            "FZ-G1Q4-naming_affix",
            "jsonify method on Express response",
            "naming_affix",
            "lib/response.js",
            234,
            248,
        ),
        // FZ-G1Q5: req.get
        fuzzy_strong(
            "FZ-G1Q5-naming_case",
            "reqGet in Express",
            "naming_case",
            "lib/request.js",
            63,
            83,
        ),
        fuzzy_strong(
            "FZ-G1Q5-paraphrase",
            "fetch a request header by name",
            "paraphrase",
            "lib/request.js",
            63,
            83,
        ),
        // FZ-G1Q6: createApplication
        fuzzy_strong(
            "FZ-G1Q6-naming_affix",
            "create_application factory in express",
            "naming_affix",
            "lib/express.js",
            36,
            56,
        ),
        fuzzy_strong(
            "FZ-G1Q6-paraphrase",
            "build a new express application",
            "paraphrase",
            "lib/express.js",
            36,
            56,
        ),
        // FZ-G1Q7: app.render
        fuzzy_strong(
            "FZ-G1Q7-abbrev_expand",
            "renders a template view in the Express app",
            "abbrev_expand",
            "lib/application.js",
            522,
            575,
        ),
        // FZ-G1Q8: View constructor
        fuzzy_strong(
            "FZ-G1Q8-naming_case",
            "View class constructor in Express",
            "naming_case",
            "lib/view.js",
            52,
            95,
        ),
        // FZ-G1Q9: res.cookie
        fuzzy_strong(
            "FZ-G1Q9-synonym",
            "set_cookie in Express",
            "synonym",
            "lib/response.js",
            745,
            778,
        ),
        // FZ-G1Q10: app.listen
        fuzzy_strong(
            "FZ-G1Q10-abbrev_expand",
            "start listening for connections on the http server",
            "abbrev_expand",
            "lib/application.js",
            598,
            606,
        ),
    ];
    proof {
        assert(judgment_views(res@) =~~= express_table());
    }
    res
}

} // verus!
