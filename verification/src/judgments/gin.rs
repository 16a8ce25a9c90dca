//! Range-based relevance judgments for the Go gin web framework.
//!
//! The query split mirrors the Flask benchmark: ten qualified symbol queries,
//! twenty semantic behavior queries and fifteen fuzzy perturbations of the
//! qualified set. Every range is anchored to a concrete implementation in
//! `fixtures/go/review/gin` (the gin HTTP framework), with source files laid
//! out directly under the fixture root (e.g. `context.go`, `gin.go`,
//! `routergroup.go`, `tree.go`).

use vstd::prelude::*;
use crate::bench_data::{JudgmentView, QueryType, RelevanceJudgment, RelevanceLevel, SourceRange, judgment_views, judgment_wf};
use crate::bench_data::{judgment_view, range_view};
use crate::bench_data::QueryType::{Qualified, Semantic};

verus! {

fn strong(
    id: &str,
    query_text: &str,
    query_type: QueryType,
    file: &str,
    start_line: usize,
    end_line: usize,
) -> (res: RelevanceJudgment)
    requires
        1 <= start_line <= end_line,
        query_type != QueryType::Fuzzy,
    ensures
        judgment_wf(res),
        res.id@ == id@,
        res.query_type == query_type,
        res.relevant_ranges@.len() == 1,
        judgment_view(res) == (id@, query_text@, query_type, None::<Seq<char>>, seq![(file@, start_line, end_line, RelevanceLevel::Strong)]),
{
    let mut relevant_ranges = Vec::new();
    relevant_ranges.push((
        SourceRange { file: String::from_str(file), start_line, end_line },
        RelevanceLevel::Strong,
    ));
    proof {
        assert(relevant_ranges@.map_values(|r: (SourceRange, RelevanceLevel)| range_view(r)) =~= seq![(file@, start_line, end_line, RelevanceLevel::Strong)]);
    }
    RelevanceJudgment {
        id: String::from_str(id),
        query_text: String::from_str(query_text),
        query_type,
        fuzzy_subtype: None,
        relevant_ranges,
    }
}

fn fuzzy_strong(
    id: &str,
    query_text: &str,
    subtype: &str,
    file: &str,
    start_line: usize,
    end_line: usize,
) -> (res: RelevanceJudgment)
    requires
        1 <= start_line <= end_line,
    ensures
        judgment_wf(res),
        res.id@ == id@,
        res.query_type == QueryType::Fuzzy,
        res.relevant_ranges@.len() == 1,
        judgment_view(res) == (id@, query_text@, QueryType::Fuzzy, Some(subtype@), seq![(file@, start_line, end_line, RelevanceLevel::Strong)]),
{
    let mut relevant_ranges = Vec::new();
    relevant_ranges.push((
        SourceRange { file: String::from_str(file), start_line, end_line },
        RelevanceLevel::Strong,
    ));
    proof {
        assert(relevant_ranges@.map_values(|r: (SourceRange, RelevanceLevel)| range_view(r)) =~= seq![(file@, start_line, end_line, RelevanceLevel::Strong)]);
    }
    RelevanceJudgment {
        id: String::from_str(id),
        query_text: String::from_str(query_text),
        query_type: QueryType::Fuzzy,
        fuzzy_subtype: Some(String::from_str(subtype)),
        relevant_ranges,
    }
}

/// The table as values: id, query text, query type, fuzzy subtype and
/// the (file, start line, end line, level) of every relevant range.
pub open spec fn gin_table() -> Seq<JudgmentView> {
    seq![
        ("G1Q1"@, "JSON method on Context"@, QueryType::Qualified, None, seq![("context.go"@, 1255usize, 1257usize, RelevanceLevel::Strong)]),
        ("G1Q2"@, "handleHTTPRequest in Engine"@, QueryType::Qualified, None, seq![("gin.go"@, 690usize, 759usize, RelevanceLevel::Strong)]),
        ("G1Q3"@, "ServeHTTP in Engine"@, QueryType::Qualified, None, seq![("gin.go"@, 662usize, 672usize, RelevanceLevel::Strong)]),
        ("G1Q4"@, "addRoute method on node"@, QueryType::Qualified, None, seq![("tree.go"@, 135usize, 247usize, RelevanceLevel::Strong)]),
        ("G1Q5"@, "GET in RouterGroup"@, QueryType::Qualified, None, seq![("routergroup.go"@, 116usize, 118usize, RelevanceLevel::Strong)]),
        ("G1Q6"@, "Use method in RouterGroup"@, QueryType::Qualified, None, seq![("routergroup.go"@, 65usize, 68usize, RelevanceLevel::Strong)]),
        ("G1Q7"@, "Group in RouterGroup"@, QueryType::Qualified, None, seq![("routergroup.go"@, 72usize, 78usize, RelevanceLevel::Strong)]),
        ("G1Q8"@, "Render method on Context"@, QueryType::Qualified, None, seq![("context.go"@, 1202usize, 1216usize, RelevanceLevel::Strong)]),
        ("G1Q9"@, "ShouldBindJSON in Context"@, QueryType::Qualified, None, seq![("context.go"@, 890usize, 892usize, RelevanceLevel::Strong)]),
        ("G1Q10"@, "Param method on Context"@, QueryType::Qualified, None, seq![("context.go"@, 513usize, 515usize, RelevanceLevel::Strong)]),
        ("G2Q1"@, "dispatch an incoming HTTP request to its matching handler"@, QueryType::Semantic, None, seq![("gin.go"@, 690usize, 759usize, RelevanceLevel::Strong), ("gin.go"@, 662usize, 672usize, RelevanceLevel::Related)]),
        ("G2Q2"@, "find the registered handler for a URL path in the route tree"@, QueryType::Semantic, None, seq![("tree.go"@, 418usize, 668usize, RelevanceLevel::Strong), ("tree.go"@, 135usize, 247usize, RelevanceLevel::Related)]),
        ("G2Q3"@, "insert a new route and its handler into the radix tree"@, QueryType::Semantic, None, seq![("tree.go"@, 135usize, 247usize, RelevanceLevel::Strong)]),
        ("G2Q4"@, "serialize a struct as a JSON response body"@, QueryType::Semantic, None, seq![("render/json.go"@, 57usize, 75usize, RelevanceLevel::Strong)]),
        ("G2Q5"@, "set the JSON content type on the response writer"@, QueryType::Semantic, None, seq![("render/json.go"@, 62usize, 64usize, RelevanceLevel::Strong)]),
        ("G2Q6"@, "decode an incoming request body into a bound struct"@, QueryType::Semantic, None, seq![("context.go"@, 942usize, 944usize, RelevanceLevel::Strong), ("context.go"@, 861usize, 864usize, RelevanceLevel::Related)]),
        ("G2Q7"@, "read a query string value with a fallback default"@, QueryType::Semantic, None, seq![("context.go"@, 548usize, 553usize, RelevanceLevel::Strong)]),
        ("G2Q8"@, "run the pending handlers in a middleware chain"@, QueryType::Semantic, None, seq![("context.go"@, 198usize, 206usize, RelevanceLevel::Strong), ("context.go"@, 217usize, 222usize, RelevanceLevel::Related)]),
        ("G2Q9"@, "stop further handlers from being executed for a request"@, QueryType::Semantic, None, seq![("context.go"@, 217usize, 219usize, RelevanceLevel::Strong)]),
        ("G2Q10"@, "attach middleware handlers to a router group"@, QueryType::Semantic, None, seq![("routergroup.go"@, 65usize, 71usize, RelevanceLevel::Strong), ("routergroup.go"@, 241usize, 248usize, RelevanceLevel::Related)]),
        ("G2Q11"@, "create a nested router group sharing a path prefix"@, QueryType::Semantic, None, seq![("routergroup.go"@, 72usize, 78usize, RelevanceLevel::Strong)]),
        ("G2Q12"@, "register a handler for HTTP GET requests"@, QueryType::Semantic, None, seq![("routergroup.go"@, 116usize, 118usize, RelevanceLevel::Strong), ("routergroup.go"@, 86usize, 97usize, RelevanceLevel::Related)]),
        ("G2Q13"@, "register a route and its handlers on the engine route trees"@, QueryType::Semantic, None, seq![("gin.go"@, 364usize, 386usize, RelevanceLevel::Strong), ("tree.go"@, 135usize, 247usize, RelevanceLevel::Related)]),
        ("G2Q14"@, "execute an HTML template and render it into the response"@, QueryType::Semantic, None, seq![("context.go"@, 1221usize, 1224usize, RelevanceLevel::Strong)]),
        ("G2Q15"@, "write a formatted string into the response body"@, QueryType::Semantic, None, seq![("context.go"@, 1304usize, 1306usize, RelevanceLevel::Strong)]),
        ("G2Q16"@, "set the HTTP status code for the response"@, QueryType::Semantic, None, seq![("context.go"@, 1123usize, 1125usize, RelevanceLevel::Strong)]),
        ("G2Q17"@, "serialize accumulated request errors as JSON"@, QueryType::Semantic, None, seq![("errors.go"@, 77usize, 79usize, RelevanceLevel::Strong)]),
        ("G2Q18"@, "pick the right binding engine from the HTTP method and content type"@, QueryType::Semantic, None, seq![("binding/binding.go"@, 95usize, 120usize, RelevanceLevel::Strong)]),
        ("G2Q19"@, "write response headers and body bytes through the response writer"@, QueryType::Semantic, None, seq![("response_writer.go"@, 84usize, 89usize, RelevanceLevel::Strong)]),
        ("G2Q20"@, "write a plain text server error response for unmatched routes"@, QueryType::Semantic, None, seq![("gin.go"@, 764usize, 779usize, RelevanceLevel::Strong)]),
        ("G3Q1"@, "Json method in Context"@, QueryType::Fuzzy, Some("naming_case"@), seq![("context.go"@, 1255usize, 1257usize, RelevanceLevel::Strong)]),
        ("G3Q2"@, "render response on Context"@, QueryType::Fuzzy, Some("synonym"@), seq![("context.go"@, 1202usize, 1216usize, RelevanceLevel::Strong)]),
        ("G3Q3"@, "dispatch_request helper in Engine"@, QueryType::Fuzzy, Some("naming_affix"@), seq![("gin.go"@, 690usize, 759usize, RelevanceLevel::Strong)]),
        ("G3Q4"@, "route an incoming HTTP request to a handler function"@, QueryType::Fuzzy, Some("paraphrase"@), seq![("gin.go"@, 690usize, 759usize, RelevanceLevel::Strong)]),
        ("G3Q5"@, "serveHTTP in Engine"@, QueryType::Fuzzy, Some("naming_case"@), seq![("gin.go"@, 662usize, 672usize, RelevanceLevel::Strong)]),
        ("G3Q6"@, "add_route method on node"@, QueryType::Fuzzy, Some("naming_affix"@), seq![("tree.go"@, 135usize, 247usize, RelevanceLevel::Strong)]),
        ("G3Q7"@, "tree lookup for a URL path"@, QueryType::Fuzzy, Some("synonym"@), seq![("tree.go"@, 418usize, 668usize, RelevanceLevel::Strong)]),
        ("G3Q8"@, "find the handler registered for a path in the routing tree"@, QueryType::Fuzzy, Some("paraphrase"@), seq![("tree.go"@, 418usize, 668usize, RelevanceLevel::Strong)]),
        ("G3Q9"@, "get method on RouterGroup"@, QueryType::Fuzzy, Some("naming_case"@), seq![("routergroup.go"@, 116usize, 118usize, RelevanceLevel::Strong)]),
        ("G3Q10"@, "register a GET route in RouterGroup"@, QueryType::Fuzzy, Some("abbrev_expand"@), seq![("routergroup.go"@, 116usize, 118usize, RelevanceLevel::Strong)]),
        ("G3Q11"@, "ShouldBindJSON helper in Context"@, QueryType::Fuzzy, Some("naming_case"@), seq![("context.go"@, 890usize, 892usize, RelevanceLevel::Strong)]),
        ("G3Q12"@, "bind_json function on Context"@, QueryType::Fuzzy, Some("naming_affix"@), seq![("context.go"@, 890usize, 892usize, RelevanceLevel::Strong)]),
        ("G3Q13"@, "decode a JSON request body into a struct"@, QueryType::Fuzzy, Some("paraphrase"@), seq![("context.go"@, 890usize, 892usize, RelevanceLevel::Strong)]),
        ("G3Q14"@, "look up a URL path parameter by name"@, QueryType::Fuzzy, Some("synonym"@), seq![("context.go"@, 513usize, 515usize, RelevanceLevel::Strong)]),
        ("G3Q15"@, "param_value accessor on Context"@, QueryType::Fuzzy, Some("naming_affix"@), seq![("context.go"@, 513usize, 515usize, RelevanceLevel::Strong)]),
    ]
}

pub fn gin_relevance_judgments() -> (res: Vec<RelevanceJudgment>)
    ensures
        judgment_views(res@) == gin_table(),
        res@.len() == 45,
        forall|i: int| 0 <= i < res@.len() ==> #[trigger] judgment_wf(res@[i]),
{

    let res = vec![
        // Qualified symbol queries: gin symbol tokens preserved in
        // natural-language structure (e.g. `JSON method on Context`).
        strong(
            "G1Q1",
            "JSON method on Context",
            Qualified,
            "context.go",
            1255,
            1257,
        ),
        strong(
            "G1Q2",
            "handleHTTPRequest in Engine",
            Qualified,
            "gin.go",
            690,
            759,
        ),
        strong("G1Q3", "ServeHTTP in Engine", Qualified, "gin.go", 662, 672),
        strong(
            "G1Q4",
            "addRoute method on node",
            Qualified,
            "tree.go",
            135,
            247,
        ),
        strong(
            "G1Q5",
            "GET in RouterGroup",
            Qualified,
            "routergroup.go",
            116,
            118,
        ),
        strong(
            "G1Q6",
            "Use method in RouterGroup",
            Qualified,
            "routergroup.go",
            65,
            68,
        ),
        strong(
            "G1Q7",
            "Group in RouterGroup",
            Qualified,
            "routergroup.go",
            72,
            78,
        ),
        strong(
            "G1Q8",
            "Render method on Context",
            Qualified,
            "context.go",
            1202,
            1216,
        ),
        strong(
            "G1Q9",
            "ShouldBindJSON in Context",
            Qualified,
            "context.go",
            890,
            892,
        ),
        strong(
            "G1Q10",
            "Param method on Context",
            Qualified,
            "context.go",
            513,
            515,
        ),
        // Semantic behavior queries.
        RelevanceJudgment {
            id: String::from_str("G2Q1"),
            query_text: String::from_str("dispatch an incoming HTTP request to its matching handler"),
            query_type: Semantic,
            fuzzy_subtype: None,
            relevant_ranges: vec![
                (
                    SourceRange {
                        file: String::from_str("gin.go"),
                        start_line: 690,
                        end_line: 759,
                    },
                    RelevanceLevel::Strong,
                ),
                (
                    SourceRange {
                        file: String::from_str("gin.go"),
                        start_line: 662,
                        end_line: 672,
                    },
                    RelevanceLevel::Related,
                ),
            ],
        },
        RelevanceJudgment {
            id: String::from_str("G2Q2"),
            query_text: String::from_str("find the registered handler for a URL path in the route tree"),
            query_type: Semantic,
            fuzzy_subtype: None,
            relevant_ranges: vec![
                (
                    SourceRange {
                        file: String::from_str("tree.go"),
                        start_line: 418,
                        end_line: 668,
                    },
                    RelevanceLevel::Strong,
                ),
                (
                    SourceRange {
                        file: String::from_str("tree.go"),
                        start_line: 135,
                        end_line: 247,
                    },
                    RelevanceLevel::Related,
                ),
            ],
        },
        RelevanceJudgment {
            id: String::from_str("G2Q3"),
            query_text: String::from_str("insert a new route and its handler into the radix tree"),
            query_type: Semantic,
            fuzzy_subtype: None,
            relevant_ranges: vec![(
                SourceRange {
                    file: String::from_str("tree.go"),
                    start_line: 135,
                    end_line: 247,
                },
                RelevanceLevel::Strong,
            )],
        },
        RelevanceJudgment {
            id: String::from_str("G2Q4"),
            query_text: String::from_str("serialize a struct as a JSON response body"),
            query_type: Semantic,
            fuzzy_subtype: None,
            relevant_ranges: vec![(
                SourceRange {
                    file: String::from_str("render/json.go"),
                    start_line: 57,
                    end_line: 75,
                },
                RelevanceLevel::Strong,
            )],
        },
        RelevanceJudgment {
            id: String::from_str("G2Q5"),
            query_text: String::from_str("set the JSON content type on the response writer"),
            query_type: Semantic,
            fuzzy_subtype: None,
            relevant_ranges: vec![(
                SourceRange {
                    file: String::from_str("render/json.go"),
                    start_line: 62,
                    end_line: 64,
                },
                RelevanceLevel::Strong,
            )],
        },
        RelevanceJudgment {
            id: String::from_str("G2Q6"),
            query_text: String::from_str("decode an incoming request body into a bound struct"),
            query_type: Semantic,
            fuzzy_subtype: None,
            relevant_ranges: vec![
                (
                    SourceRange {
                        file: String::from_str("context.go"),
                        start_line: 942,
                        end_line: 944,
                    },
                    RelevanceLevel::Strong,
                ),
                (
                    SourceRange {
                        file: String::from_str("context.go"),
                        start_line: 861,
                        end_line: 864,
                    },
                    RelevanceLevel::Related,
                ),
            ],
        },
        strong(
            "G2Q7",
            "read a query string value with a fallback default",
            Semantic,
            "context.go",
            548,
            553,
        ),
        RelevanceJudgment {
            id: String::from_str("G2Q8"),
            query_text: String::from_str("run the pending handlers in a middleware chain"),
            query_type: Semantic,
            fuzzy_subtype: None,
            relevant_ranges: vec![
                (
                    SourceRange {
                        file: String::from_str("context.go"),
                        start_line: 198,
                        end_line: 206,
                    },
                    RelevanceLevel::Strong,
                ),
                (
                    SourceRange {
                        file: String::from_str("context.go"),
                        start_line: 217,
                        end_line: 222,
                    },
                    RelevanceLevel::Related,
                ),
            ],
        },
        strong(
            "G2Q9",
            "stop further handlers from being executed for a request",
            Semantic,
            "context.go",
            217,
            219,
        ),
        RelevanceJudgment {
            id: String::from_str("G2Q10"),
            query_text: String::from_str("attach middleware handlers to a router group"),
            query_type: Semantic,
            fuzzy_subtype: None,
            relevant_ranges: vec![
                (
                    SourceRange {
                        file: String::from_str("routergroup.go"),
                        start_line: 65,
                        end_line: 71,
                    },
                    RelevanceLevel::Strong,
                ),
                (
                    SourceRange {
                        file: String::from_str("routergroup.go"),
                        start_line: 241,
                        end_line: 248,
                    },
                    RelevanceLevel::Related,
                ),
            ],
        },
        strong(
            "G2Q11",
            "create a nested router group sharing a path prefix",
            Semantic,
            "routergroup.go",
            72,
            78,
        ),
        RelevanceJudgment {
            id: String::from_str("G2Q12"),
            query_text: String::from_str("register a handler for HTTP GET requests"),
            query_type: Semantic,
            fuzzy_subtype: None,
            relevant_ranges: vec![
                (
                    SourceRange {
                        file: String::from_str("routergroup.go"),
                        start_line: 116,
                        end_line: 118,
                    },
                    RelevanceLevel::Strong,
                ),
                (
                    SourceRange {
                        file: String::from_str("routergroup.go"),
                        start_line: 86,
                        end_line: 97,
                    },
                    RelevanceLevel::Related,
                ),
            ],
        },
        RelevanceJudgment {
            id: String::from_str("G2Q13"),
            query_text: String::from_str("register a route and its handlers on the engine route trees"),
            query_type: Semantic,
            fuzzy_subtype: None,
            relevant_ranges: vec![
                (
                    SourceRange {
                        file: String::from_str("gin.go"),
                        start_line: 364,
                        end_line: 386,
                    },
                    RelevanceLevel::Strong,
                ),
                (
                    SourceRange {
                        file: String::from_str("tree.go"),
                        start_line: 135,
                        end_line: 247,
                    },
                    RelevanceLevel::Related,
                ),
            ],
        },
        strong(
            "G2Q14",
            "execute an HTML template and render it into the response",
            Semantic,
            "context.go",
            1221,
            1224,
        ),
        strong(
            "G2Q15",
            "write a formatted string into the response body",
            Semantic,
            "context.go",
            1304,
            1306,
        ),
        strong(
            "G2Q16",
            "set the HTTP status code for the response",
            Semantic,
            "context.go",
            1123,
            1125,
        ),
        strong(
            "G2Q17",
            "serialize accumulated request errors as JSON",
            Semantic,
            "errors.go",
            77,
            79,
        ),
        strong(
            "G2Q18",
            "pick the right binding engine from the HTTP method and content type",
            Semantic,
            "binding/binding.go",
            95,
            120,
        ),
        strong(
            "G2Q19",
            "write response headers and body bytes through the response writer",
            Semantic,
            "response_writer.go",
            84,
            89,
        ),
        strong(
            "G2Q20",
            "write a plain text server error response for unmatched routes",
            Semantic,
            "gin.go",
            764,
            779,
        ),
        // Fuzzy queries: lexical perturbations of the qualified set, same ranges.
        // FZ-G1Q1: Context::JSON
        fuzzy_strong(
            "G3Q1",
            "Json method in Context",
            "naming_case",
            "context.go",
            1255,
            1257,
        ),
        // FZ-G1Q1: Context::JSON
        fuzzy_strong(
            "G3Q2",
            "render response on Context",
            "synonym",
            "context.go",
            1202,
            1216,
        ),
        // FZ-G1Q2: Engine::handleHTTPRequest
        fuzzy_strong(
            "G3Q3",
            "dispatch_request helper in Engine",
            "naming_affix",
            "gin.go",
            690,
            759,
        ),
        fuzzy_strong(
            "G3Q4",
            "route an incoming HTTP request to a handler function",
            "paraphrase",
            "gin.go",
            690,
            759,
        ),
        // FZ-G1Q3: Engine::ServeHTTP
        fuzzy_strong(
            "G3Q5",
            "serveHTTP in Engine",
            "naming_case",
            "gin.go",
            662,
            672,
        ),
        // FZ-G1Q4: node::addRoute
        fuzzy_strong(
            "G3Q6",
            "add_route method on node",
            "naming_affix",
            "tree.go",
            135,
            247,
        ),
        fuzzy_strong(
            "G3Q7",
            "tree lookup for a URL path",
            "synonym",
            "tree.go",
            418,
            668,
        ),
        fuzzy_strong(
            "G3Q8",
            "find the handler registered for a path in the routing tree",
            "paraphrase",
            "tree.go",
            418,
            668,
        ),
        // FZ-G1Q5: RouterGroup::GET
        fuzzy_strong(
            "G3Q9",
            "get method on RouterGroup",
            "naming_case",
            "routergroup.go",
            116,
            118,
        ),
        fuzzy_strong(
            "G3Q10",
            "register a GET route in RouterGroup",
            "abbrev_expand",
            "routergroup.go",
            116,
            118,
        ),
        // FZ-G1Q9: Context::ShouldBindJSON
        fuzzy_strong(
            "G3Q11",
            "ShouldBindJSON helper in Context",
            "naming_case",
            "context.go",
            890,
            892,
        ),
        fuzzy_strong(
            "G3Q12",
            "bind_json function on Context",
            "naming_affix",
            "context.go",
            890,
            892,
        ),
        fuzzy_strong(
            "G3Q13",
            "decode a JSON request body into a struct",
            "paraphrase",
            "context.go",
            890,
            892,
        ),
        // FZ-G1Q10: Context::Param
        fuzzy_strong(
            "G3Q14",
            "look up a URL path parameter by name",
            "synonym",
            "context.go",
            513,
            515,
        ),
        fuzzy_strong(
            "G3Q15",
            "param_value accessor on Context",
            "naming_affix",
            "context.go",
            513,
            515,
        ),
    ];
    proof {
        assert(judgment_views(res@) =~~= gin_table());
    }
    res
}

} // verus!
