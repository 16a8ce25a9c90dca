//! Range-based relevance judgments for the Flask Python codebase.
//!
//! The query split mirrors the ripgrep parameter benchmark: ten qualified
//! symbol queries, twenty semantic behavior queries and fifteen fuzzy
//! perturbations of the qualified set. Every range is anchored to a concrete
//! implementation in `fixtures/python/review/flask`.

use vstd::prelude::*;
use crate::bench_data::{JudgmentView, QueryType, RelevanceJudgment, RelevanceLevel, SourceRange, judgment_views, judgment_wf};
use crate::bench_data::{judgment_view, range_view};
use crate::bench_data::QueryType::{Qualified, Semantic};

verus! {

fn strong(
    id: &str,
    query_text: &str,
    query_type: QueryType,
    file: &str,
    start_line: usize,
    end_line: usize,
) -> (res: RelevanceJudgment)
    requires
        1 <= start_line <= end_line,
        query_type != QueryType::Fuzzy,
    ensures
        judgment_wf(res),
        res.id@ == id@,
        res.query_type == query_type,
        res.relevant_ranges@.len() == 1,
        judgment_view(res) == (id@, query_text@, query_type, None::<Seq<char>>, seq![(file@, start_line, end_line, RelevanceLevel::Strong)]),
{
    let mut relevant_ranges = Vec::new();
    relevant_ranges.push((
        SourceRange { file: String::from_str(file), start_line, end_line },
        RelevanceLevel::Strong,
    ));
    proof {
        assert(relevant_ranges@.map_values(|r: (SourceRange, RelevanceLevel)| range_view(r)) =~= seq![(file@, start_line, end_line, RelevanceLevel::Strong)]);
    }
    RelevanceJudgment {
        id: String::from_str(id),
        query_text: String::from_str(query_text),
        query_type,
        fuzzy_subtype: None,
        relevant_ranges,
    }
}

fn fuzzy_strong(
    id: &str,
    query_text: &str,
    subtype: &str,
    file: &str,
    start_line: usize,
    end_line: usize,
) -> (res: RelevanceJudgment)
    requires
        1 <= start_line <= end_line,
    ensures
        judgment_wf(res),
        res.id@ == id@,
        res.query_type == QueryType::Fuzzy,
        res.relevant_ranges@.len() == 1,
        judgment_view(res) == (id@, query_text@, QueryType::Fuzzy, Some(subtype@), seq![(file@, start_line, end_line, RelevanceLevel::Strong)]),
{
    let mut relevant_ranges = Vec::new();
    relevant_ranges.push((
        SourceRange { file: String::from_str(file), start_line, end_line },
        RelevanceLevel::Strong,
    ));
    proof {
        assert(relevant_ranges@.map_values(|r: (SourceRange, RelevanceLevel)| range_view(r)) =~= seq![(file@, start_line, end_line, RelevanceLevel::Strong)]);
    }
    RelevanceJudgment {
        id: String::from_str(id),
        query_text: String::from_str(query_text),
        query_type: QueryType::Fuzzy,
        fuzzy_subtype: Some(String::from_str(subtype)),
        relevant_ranges,
    }
}

/// The table as values: id, query text, query type, fuzzy subtype and
/// the (file, start line, end line, level) of every relevant range.
pub open spec fn flask_table() -> Seq<JudgmentView> {
    seq![
        ("G1Q1"@, "wsgi_app method in Flask"@, QueryType::Qualified, None, seq![("src/flask/app.py"@, 1566usize, 1616usize, RelevanceLevel::Strong)]),
        ("G1Q2"@, "dispatch_request in Flask"@, QueryType::Qualified, None, seq![("src/flask/app.py"@, 966usize, 990usize, RelevanceLevel::Strong)]),
        ("G1Q3"@, "make_response method on Flask"@, QueryType::Qualified, None, seq![("src/flask/app.py"@, 1224usize, 1364usize, RelevanceLevel::Strong)]),
        ("G1Q4"@, "url_for in Flask"@, QueryType::Qualified, None, seq![("src/flask/app.py"@, 1102usize, 1222usize, RelevanceLevel::Strong)]),
        ("G1Q5"@, "add_url_rule in App"@, QueryType::Qualified, None, seq![("src/flask/sansio/app.py"@, 605usize, 661usize, RelevanceLevel::Strong)]),
        ("G1Q6"@, "register_blueprint method on App"@, QueryType::Qualified, None, seq![("src/flask/sansio/app.py"@, 570usize, 595usize, RelevanceLevel::Strong)]),
        ("G1Q7"@, "register in Blueprint"@, QueryType::Qualified, None, seq![("src/flask/sansio/blueprints.py"@, 273usize, 377usize, RelevanceLevel::Strong)]),
        ("G1Q8"@, "push method on AppContext"@, QueryType::Qualified, None, seq![("src/flask/ctx.py"@, 416usize, 444usize, RelevanceLevel::Strong)]),
        ("G1Q9"@, "session_transaction in FlaskClient"@, QueryType::Qualified, None, seq![("src/flask/testing.py"@, 136usize, 183usize, RelevanceLevel::Strong)]),
        ("G1Q10"@, "dumps method on DefaultJSONProvider"@, QueryType::Qualified, None, seq![("src/flask/json/provider.py"@, 166usize, 179usize, RelevanceLevel::Strong)]),
        ("G2Q1"@, "dispatch an incoming request to its matching view function"@, QueryType::Semantic, None, seq![("src/flask/app.py"@, 966usize, 990usize, RelevanceLevel::Strong), ("src/flask/app.py"@, 945usize, 964usize, RelevanceLevel::Related)]),
        ("G2Q2"@, "run request preprocessing routing and response finalization"@, QueryType::Semantic, None, seq![("src/flask/app.py"@, 992usize, 1019usize, RelevanceLevel::Strong), ("src/flask/app.py"@, 966usize, 990usize, RelevanceLevel::Related)]),
        ("G2Q3"@, "convert a view return value into an HTTP response"@, QueryType::Semantic, None, seq![("src/flask/app.py"@, 1224usize, 1364usize, RelevanceLevel::Strong), ("src/flask/app.py"@, 1190usize, 1222usize, RelevanceLevel::Related)]),
        ("G2Q4"@, "build a URL for endpoint values and query parameters"@, QueryType::Semantic, None, seq![("src/flask/app.py"@, 1102usize, 1222usize, RelevanceLevel::Strong), ("src/flask/app.py"@, 1050usize, 1100usize, RelevanceLevel::Related)]),
        ("G2Q5"@, "run before request handlers and allow an early response"@, QueryType::Semantic, None, seq![("src/flask/app.py"@, 1366usize, 1392usize, RelevanceLevel::Strong), ("src/flask/app.py"@, 1340usize, 1364usize, RelevanceLevel::Related)]),
        ("G2Q6"@, "run after request callbacks and save the session"@, QueryType::Semantic, None, seq![("src/flask/app.py"@, 1394usize, 1418usize, RelevanceLevel::Strong)]),
        ("G2Q7"@, "handle an unhandled application exception as a 500 response"@, QueryType::Semantic, None, seq![("src/flask/app.py"@, 897usize, 948usize, RelevanceLevel::Strong)]),
        ("G2Q8"@, "create and clean up the WSGI request context"@, QueryType::Semantic, None, seq![("src/flask/app.py"@, 1566usize, 1616usize, RelevanceLevel::Strong)]),
        ("G2Q9"@, "register URL routing methods and view functions"@, QueryType::Semantic, None, seq![("src/flask/sansio/app.py"@, 605usize, 661usize, RelevanceLevel::Strong)]),
        ("G2Q10"@, "register a blueprint with application route defaults"@, QueryType::Semantic, None, seq![("src/flask/sansio/app.py"@, 570usize, 595usize, RelevanceLevel::Strong)]),
        ("G2Q11"@, "merge a blueprint routes callbacks and nested blueprints into an app"@, QueryType::Semantic, None, seq![("src/flask/sansio/blueprints.py"@, 273usize, 377usize, RelevanceLevel::Strong)]),
        ("G2Q12"@, "find the most specific application or blueprint error handler"@, QueryType::Semantic, None, seq![("src/flask/sansio/app.py"@, 868usize, 891usize, RelevanceLevel::Strong)]),
        ("G2Q13"@, "decide whether an HTTP exception should be trapped for debugging"@, QueryType::Semantic, None, seq![("src/flask/sansio/app.py"@, 893usize, 926usize, RelevanceLevel::Strong)]),
        ("G2Q14"@, "serialize Python data as a JSON response with Flask defaults"@, QueryType::Semantic, None, seq![("src/flask/json/provider.py"@, 189usize, 215usize, RelevanceLevel::Strong)]),
        ("G2Q15"@, "open modify and save a test client session transaction"@, QueryType::Semantic, None, seq![("src/flask/testing.py"@, 136usize, 183usize, RelevanceLevel::Strong)]),
        ("G2Q16"@, "push a request context and match the incoming URL"@, QueryType::Semantic, None, seq![("src/flask/ctx.py"@, 405usize, 444usize, RelevanceLevel::Strong)]),
        ("G2Q17"@, "serve a trusted file download using conditional response headers"@, QueryType::Semantic, None, seq![("src/flask/helpers.py"@, 417usize, 540usize, RelevanceLevel::Strong)]),
        ("G2Q18"@, "store a message in the session for the next request"@, QueryType::Semantic, None, seq![("src/flask/helpers.py"@, 326usize, 357usize, RelevanceLevel::Strong)]),
        ("G2Q19"@, "return flashed session messages filtered by category"@, QueryType::Semantic, None, seq![("src/flask/helpers.py"@, 360usize, 400usize, RelevanceLevel::Strong)]),
        ("G2Q20"@, "turn malformed JSON loading errors into bad request responses"@, QueryType::Semantic, None, seq![("src/flask/wrappers.py"@, 212usize, 219usize, RelevanceLevel::Strong)]),
        ("FZ-G1Q1-naming_affix"@, "wsgi_app_entry method in Flask"@, QueryType::Fuzzy, Some("naming_affix"@), seq![("src/flask/app.py"@, 1566usize, 1616usize, RelevanceLevel::Strong)]),
        ("FZ-G1Q1-paraphrase"@, "handle an incoming WSGI request in Flask"@, QueryType::Fuzzy, Some("paraphrase"@), seq![("src/flask/app.py"@, 1566usize, 1616usize, RelevanceLevel::Strong)]),
        ("FZ-G1Q2-naming_case"@, "dispatchRequest in Flask"@, QueryType::Fuzzy, Some("naming_case"@), seq![("src/flask/app.py"@, 966usize, 990usize, RelevanceLevel::Strong)]),
        ("FZ-G1Q2-synonym"@, "route_request in Flask"@, QueryType::Fuzzy, Some("synonym"@), seq![("src/flask/app.py"@, 966usize, 990usize, RelevanceLevel::Strong)]),
        ("FZ-G1Q3-naming_case"@, "makeResponse method on Flask"@, QueryType::Fuzzy, Some("naming_case"@), seq![("src/flask/app.py"@, 1224usize, 1364usize, RelevanceLevel::Strong)]),
        ("FZ-G1Q4-paraphrase"@, "generate URL strings for endpoints in Flask"@, QueryType::Fuzzy, Some("paraphrase"@), seq![("src/flask/app.py"@, 1102usize, 1222usize, RelevanceLevel::Strong)]),
        ("FZ-G1Q5-naming_case"@, "addUrlRule in App"@, QueryType::Fuzzy, Some("naming_case"@), seq![("src/flask/sansio/app.py"@, 605usize, 661usize, RelevanceLevel::Strong)]),
        ("FZ-G1Q6-synonym"@, "attach_blueprint method on App"@, QueryType::Fuzzy, Some("synonym"@), seq![("src/flask/sansio/app.py"@, 570usize, 595usize, RelevanceLevel::Strong)]),
        ("FZ-G1Q6-abbrev_expand"@, "register blueprint in App"@, QueryType::Fuzzy, Some("abbrev_expand"@), seq![("src/flask/sansio/app.py"@, 570usize, 595usize, RelevanceLevel::Strong)]),
        ("FZ-G1Q7-synonym"@, "attach in Blueprint"@, QueryType::Fuzzy, Some("synonym"@), seq![("src/flask/sansio/blueprints.py"@, 273usize, 377usize, RelevanceLevel::Strong)]),
        ("FZ-G1Q8-naming_affix"@, "push_context method on AppContext"@, QueryType::Fuzzy, Some("naming_affix"@), seq![("src/flask/ctx.py"@, 416usize, 444usize, RelevanceLevel::Strong)]),
        ("FZ-G1Q9-paraphrase"@, "create a transactional session in FlaskClient"@, QueryType::Fuzzy, Some("paraphrase"@), seq![("src/flask/testing.py"@, 136usize, 183usize, RelevanceLevel::Strong)]),
        ("FZ-G1Q9-abbrev_expand"@, "session transaction in FlaskClient"@, QueryType::Fuzzy, Some("abbrev_expand"@), seq![("src/flask/testing.py"@, 136usize, 183usize, RelevanceLevel::Strong)]),
        ("FZ-G1Q10-naming_affix"@, "dump_json method on DefaultJSONProvider"@, QueryType::Fuzzy, Some("naming_affix"@), seq![("src/flask/json/provider.py"@, 166usize, 179usize, RelevanceLevel::Strong)]),
        ("FZ-G1Q10-abbrev_expand"@, "dumps method on default JSON provider"@, QueryType::Fuzzy, Some("abbrev_expand"@), seq![("src/flask/json/provider.py"@, 166usize, 179usize, RelevanceLevel::Strong)]),
    ]
}

pub fn flask_relevance_judgments() -> (res: Vec<RelevanceJudgment>)
    ensures
        judgment_views(res@) == flask_table(),
        res@.len() == 45,
        forall|i: int| 0 <= i < res@.len() ==> #[trigger] judgment_wf(res@[i]),
{

    let res = vec![
        // Qualified symbol queries: symbol tokens preserved in natural-language
        // structure (e.g. `wsgi_app method in Flask`).
        strong(
            "G1Q1",
            "wsgi_app method in Flask",
            Qualified,
            "src/flask/app.py",
            1566,
            1616,
        ),
        strong(
            "G1Q2",
            "dispatch_request in Flask",
            Qualified,
            "src/flask/app.py",
            966,
            990,
        ),
        strong(
            "G1Q3",
            "make_response method on Flask",
            Qualified,
            "src/flask/app.py",
            1224,
            1364,
        ),
        strong(
            "G1Q4",
            "url_for in Flask",
            Qualified,
            "src/flask/app.py",
            1102,
            1222,
        ),
        strong(
            "G1Q5",
            "add_url_rule in App",
            Qualified,
            "src/flask/sansio/app.py",
            605,
            661,
        ),
        strong(
            "G1Q6",
            "register_blueprint method on App",
            Qualified,
            "src/flask/sansio/app.py",
            570,
            595,
        ),
        strong(
            "G1Q7",
            "register in Blueprint",
            Qualified,
            "src/flask/sansio/blueprints.py",
            273,
            377,
        ),
        strong(
            "G1Q8",
            "push method on AppContext",
            Qualified,
            "src/flask/ctx.py",
            416,
            444,
        ),
        strong(
            "G1Q9",
            "session_transaction in FlaskClient",
            Qualified,
            "src/flask/testing.py",
            136,
            183,
        ),
        strong(
            "G1Q10",
            "dumps method on DefaultJSONProvider",
            Qualified,
            "src/flask/json/provider.py",
            166,
            179,
        ),
        // Semantic behavior queries.
        RelevanceJudgment {
            id: String::from_str("G2Q1"),
            query_text: String::from_str("dispatch an incoming request to its matching view function"),
            query_type: Semantic,
            fuzzy_subtype: None,
            relevant_ranges: vec![
                (
                    SourceRange {
                        file: String::from_str("src/flask/app.py"),
                        start_line: 966,
                        end_line: 990,
                    },
                    RelevanceLevel::Strong,
                ),
                (
                    SourceRange {
                        file: String::from_str("src/flask/app.py"),
                        start_line: 945,
                        end_line: 964,
                    },
                    RelevanceLevel::Related,
                ),
            ],
        },
        RelevanceJudgment {
            id: String::from_str("G2Q2"),
            query_text: String::from_str("run request preprocessing routing and response finalization"),
            query_type: Semantic,
            fuzzy_subtype: None,
            relevant_ranges: vec![
                (
                    SourceRange {
                        file: String::from_str("src/flask/app.py"),
                        start_line: 992,
                        end_line: 1019,
                    },
                    RelevanceLevel::Strong,
                ),
                (
                    SourceRange {
                        file: String::from_str("src/flask/app.py"),
                        start_line: 966,
                        end_line: 990,
                    },
                    RelevanceLevel::Related,
                ),
            ],
        },
        RelevanceJudgment {
            id: String::from_str("G2Q3"),
            query_text: String::from_str("convert a view return value into an HTTP response"),
            query_type: Semantic,
            fuzzy_subtype: None,
            relevant_ranges: vec![
                (
                    SourceRange {
                        file: String::from_str("src/flask/app.py"),
                        start_line: 1224,
                        end_line: 1364,
                    },
                    RelevanceLevel::Strong,
                ),
                (
                    SourceRange {
                        file: String::from_str("src/flask/app.py"),
                        start_line: 1190,
                        end_line: 1222,
                    },
                    RelevanceLevel::Related,
                ),
            ],
        },
        RelevanceJudgment {
            id: String::from_str("G2Q4"),
            query_text: String::from_str("build a URL for endpoint values and query parameters"),
            query_type: Semantic,
            fuzzy_subtype: None,
            relevant_ranges: vec![
                (
                    SourceRange {
                        file: String::from_str("src/flask/app.py"),
                        start_line: 1102,
                        end_line: 1222,
                    },
                    RelevanceLevel::Strong,
                ),
                (
                    SourceRange {
                        file: String::from_str("src/flask/app.py"),
                        start_line: 1050,
                        end_line: 1100,
                    },
                    RelevanceLevel::Related,
                ),
            ],
        },
        RelevanceJudgment {
            id: String::from_str("G2Q5"),
            query_text: String::from_str("run before request handlers and allow an early response"),
            query_type: Semantic,
            fuzzy_subtype: None,
            relevant_ranges: vec![
                (
                    SourceRange {
                        file: String::from_str("src/flask/app.py"),
                        start_line: 1366,
                        end_line: 1392,
                    },
                    RelevanceLevel::Strong,
                ),
                (
                    SourceRange {
                        file: String::from_str("src/flask/app.py"),
                        start_line: 1340,
                        end_line: 1364,
                    },
                    RelevanceLevel::Related,
                ),
            ],
        },
        strong(
            "G2Q6",
            "run after request callbacks and save the session",
            Semantic,
            "src/flask/app.py",
            1394,
            1418,
        ),
        strong(
            "G2Q7",
            "handle an unhandled application exception as a 500 response",
            Semantic,
            "src/flask/app.py",
            897,
            948,
        ),
        strong(
            "G2Q8",
            "create and clean up the WSGI request context",
            Semantic,
            "src/flask/app.py",
            1566,
            1616,
        ),
        strong(
            "G2Q9",
            "register URL routing methods and view functions",
            Semantic,
            "src/flask/sansio/app.py",
            605,
            661,
        ),
        strong(
            "G2Q10",
            "register a blueprint with application route defaults",
            Semantic,
            "src/flask/sansio/app.py",
            570,
            595,
        ),
        strong(
            "G2Q11",
            "merge a blueprint routes callbacks and nested blueprints into an app",
            Semantic,
            "src/flask/sansio/blueprints.py",
            273,
            377,
        ),
        strong(
            "G2Q12",
            "find the most specific application or blueprint error handler",
            Semantic,
            "src/flask/sansio/app.py",
            868,
            891,
        ),
        strong(
            "G2Q13",
            "decide whether an HTTP exception should be trapped for debugging",
            Semantic,
            "src/flask/sansio/app.py",
            893,
            926,
        ),
        strong(
            "G2Q14",
            "serialize Python data as a JSON response with Flask defaults",
            Semantic,
            "src/flask/json/provider.py",
            189,
            215,
        ),
        strong(
            "G2Q15",
            "open modify and save a test client session transaction",
            Semantic,
            "src/flask/testing.py",
            136,
            183,
        ),
        strong(
            "G2Q16",
            "push a request context and match the incoming URL",
            Semantic,
            "src/flask/ctx.py",
            405,
            444,
        ),
        strong(
            "G2Q17",
            "serve a trusted file download using conditional response headers",
            Semantic,
            "src/flask/helpers.py",
            417,
            540,
        ),
        strong(
            "G2Q18",
            "store a message in the session for the next request",
            Semantic,
            "src/flask/helpers.py",
            326,
            357,
        ),
        strong(
            "G2Q19",
            "return flashed session messages filtered by category",
            Semantic,
            "src/flask/helpers.py",
            360,
            400,
        ),
        strong(
            "G2Q20",
            "turn malformed JSON loading errors into bad request responses",
            Semantic,
            "src/flask/wrappers.py",
            212,
            219,
        ),
        // Fuzzy queries: lexical perturbations of the qualified set, same ranges.
        // FZ-G1Q1: Flask::wsgi_app
        fuzzy_strong(
            "FZ-G1Q1-naming_affix",
            "wsgi_app_entry method in Flask",
            "naming_affix",
            "src/flask/app.py",
            1566,
            1616,
        ),
        fuzzy_strong(
            "FZ-G1Q1-paraphrase",
            "handle an incoming WSGI request in Flask",
            "paraphrase",
            "src/flask/app.py",
            1566,
            1616,
        ),
        // FZ-G1Q2: Flask::dispatch_request
        fuzzy_strong(
            "FZ-G1Q2-naming_case",
            "dispatchRequest in Flask",
            "naming_case",
            "src/flask/app.py",
            966,
            990,
        ),
        fuzzy_strong(
            "FZ-G1Q2-synonym",
            "route_request in Flask",
            "synonym",
            "src/flask/app.py",
            966,
            990,
        ),
        // FZ-G1Q3: Flask::make_response
        fuzzy_strong(
            "FZ-G1Q3-naming_case",
            "makeResponse method on Flask",
            "naming_case",
            "src/flask/app.py",
            1224,
            1364,
        ),
        // FZ-G1Q4: Flask::url_for
        fuzzy_strong(
            "FZ-G1Q4-paraphrase",
            "generate URL strings for endpoints in Flask",
            "paraphrase",
            "src/flask/app.py",
            1102,
            1222,
        ),
        // FZ-G1Q5: App::add_url_rule
        fuzzy_strong(
            "FZ-G1Q5-naming_case",
            "addUrlRule in App",
            "naming_case",
            "src/flask/sansio/app.py",
            605,
            661,
        ),
        // FZ-G1Q6: App::register_blueprint
        fuzzy_strong(
            "FZ-G1Q6-synonym",
            "attach_blueprint method on App",
            "synonym",
            "src/flask/sansio/app.py",
            570,
            595,
        ),
        fuzzy_strong(
            "FZ-G1Q6-abbrev_expand",
            "register blueprint in App",
            "abbrev_expand",
            "src/flask/sansio/app.py",
            570,
            595,
        ),
        // FZ-G1Q7: Blueprint::register
        fuzzy_strong(
            "FZ-G1Q7-synonym",
            "attach in Blueprint",
            "synonym",
            "src/flask/sansio/blueprints.py",
            273,
            377,
        ),
        // FZ-G1Q8: AppContext::push
        fuzzy_strong(
            "FZ-G1Q8-naming_affix",
            "push_context method on AppContext",
            "naming_affix",
            "src/flask/ctx.py",
            416,
            444,
        ),
        // FZ-G1Q9: FlaskClient::session_transaction
        fuzzy_strong(
            "FZ-G1Q9-paraphrase",
            "create a transactional session in FlaskClient",
            "paraphrase",
            "src/flask/testing.py",
            136,
            183,
        ),
        fuzzy_strong(
            "FZ-G1Q9-abbrev_expand",
            "session transaction in FlaskClient",
            "abbrev_expand",
            "src/flask/testing.py",
            136,
            183,
        ),
        // FZ-G1Q10: DefaultJSONProvider::dumps
        fuzzy_strong(
            "FZ-G1Q10-naming_affix",
            "dump_json method on DefaultJSONProvider",
            "naming_affix",
            "src/flask/json/provider.py",
            166,
            179,
        ),
        fuzzy_strong(
            "FZ-G1Q10-abbrev_expand",
            "dumps method on default JSON provider",
            "abbrev_expand",
            "src/flask/json/provider.py",
            166,
            179,
        ),
    ];
    proof {
        assert(judgment_views(res@) =~~= flask_table());
    }
    res
}

} // verus!
