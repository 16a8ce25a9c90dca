//! Range-based relevance judgments for the Java Spring Boot minimal demo.
//!
//! The fixture `fixtures/java/review/springboot-minimal-demo` is a small REST
//! demo, so the judgment set is scaled down relative to the Flask benchmark:
//! seven qualified symbol queries, six semantic behavior queries and five
//! fuzzy perturbations of the qualified set, all anchored to concrete method
//! bodies in the fixture.

use vstd::prelude::*;
use crate::bench_data::{JudgmentView, QueryType, RelevanceJudgment, RelevanceLevel, SourceRange, judgment_views, judgment_wf};
use crate::bench_data::{judgment_view, range_view};
use crate::bench_data::QueryType::{Qualified, Semantic};

verus! {

fn strong(
    id: &str,
    query_text: &str,
    query_type: QueryType,
    file: &str,
    start_line: usize,
    end_line: usize,
) -> (res: RelevanceJudgment)
    requires
        1 <= start_line <= end_line,
        query_type != QueryType::Fuzzy,
    ensures
        judgment_wf(res),
        res.id@ == id@,
        res.query_type == query_type,
        res.relevant_ranges@.len() == 1,
        judgment_view(res) == (id@, query_text@, query_type, None::<Seq<char>>, seq![(file@, start_line, end_line, RelevanceLevel::Strong)]),
{
    let mut relevant_ranges = Vec::new();
    relevant_ranges.push((
        SourceRange { file: String::from_str(file), start_line, end_line },
        RelevanceLevel::Strong,
    ));
    proof {
        assert(relevant_ranges@.map_values(|r: (SourceRange, RelevanceLevel)| range_view(r)) =~= seq![(file@, start_line, end_line, RelevanceLevel::Strong)]);
    }
    RelevanceJudgment {
        id: String::from_str(id),
        query_text: String::from_str(query_text),
        query_type,
        fuzzy_subtype: None,
        relevant_ranges,
    }
}

fn fuzzy_strong(
    id: &str,
    query_text: &str,
    subtype: &str,
    file: &str,
    start_line: usize,
    end_line: usize,
) -> (res: RelevanceJudgment)
    requires
        1 <= start_line <= end_line,
    ensures
        judgment_wf(res),
        res.id@ == id@,
        res.query_type == QueryType::Fuzzy,
        res.relevant_ranges@.len() == 1,
        judgment_view(res) == (id@, query_text@, QueryType::Fuzzy, Some(subtype@), seq![(file@, start_line, end_line, RelevanceLevel::Strong)]),
{
    let mut relevant_ranges = Vec::new();
    relevant_ranges.push((
        SourceRange { file: String::from_str(file), start_line, end_line },
        RelevanceLevel::Strong,
    ));
    proof {
        assert(relevant_ranges@.map_values(|r: (SourceRange, RelevanceLevel)| range_view(r)) =~= seq![(file@, start_line, end_line, RelevanceLevel::Strong)]);
    }
    RelevanceJudgment {
        id: String::from_str(id),
        query_text: String::from_str(query_text),
        query_type: QueryType::Fuzzy,
        fuzzy_subtype: Some(String::from_str(subtype)),
        relevant_ranges,
    }
}

/// The table as values: id, query text, query type, fuzzy subtype and
/// the (file, start line, end line, level) of every relevant range.
pub open spec fn spring_boot_table() -> Seq<JudgmentView> {
    seq![
        ("G1Q1"@, "getAllUsers method in UserApiController"@, QueryType::Qualified, None, seq![("src/main/java/com/example/demo/controller/UserApiController.java"@, 31usize, 38usize, RelevanceLevel::Strong)]),
        ("G1Q2"@, "createUser endpoint in UserApiController"@, QueryType::Qualified, None, seq![("src/main/java/com/example/demo/controller/UserApiController.java"@, 48usize, 52usize, RelevanceLevel::Strong)]),
        ("G1Q3"@, "searchByKeyword method in UserService"@, QueryType::Qualified, None, seq![("src/main/java/com/example/demo/service/UserService.java"@, 57usize, 59usize, RelevanceLevel::Strong)]),
        ("G1Q4"@, "updateUser transactional method in UserService"@, QueryType::Qualified, None, seq![("src/main/java/com/example/demo/service/UserService.java"@, 41usize, 50usize, RelevanceLevel::Strong)]),
        ("G1Q5"@, "searchByName in UserRepository"@, QueryType::Qualified, None, seq![("src/main/java/com/example/demo/repository/UserRepository.java"@, 21usize, 21usize, RelevanceLevel::Strong)]),
        ("G1Q6"@, "setName method on User entity"@, QueryType::Qualified, None, seq![("src/main/java/com/example/demo/entity/User.java"@, 45usize, 47usize, RelevanceLevel::Strong)]),
        ("G1Q7"@, "fromEntity static method on UserResponse"@, QueryType::Qualified, None, seq![("src/main/java/com/example/demo/dto/UserResponse.java"@, 22usize, 29usize, RelevanceLevel::Strong)]),
        ("G2Q1"@, "list every stored user and map each entity into a response DTO"@, QueryType::Semantic, None, seq![("src/main/java/com/example/demo/controller/UserApiController.java"@, 31usize, 38usize, RelevanceLevel::Strong), ("src/main/java/com/example/demo/service/UserService.java"@, 22usize, 24usize, RelevanceLevel::Related)]),
        ("G2Q2"@, "find a single user by id and answer with 404 when missing"@, QueryType::Semantic, None, seq![("src/main/java/com/example/demo/controller/UserApiController.java"@, 41usize, 45usize, RelevanceLevel::Strong), ("src/main/java/com/example/demo/service/UserService.java"@, 26usize, 28usize, RelevanceLevel::Related)]),
        ("G2Q3"@, "persist a new user from the request payload and return a created status"@, QueryType::Semantic, None, seq![("src/main/java/com/example/demo/service/UserService.java"@, 35usize, 38usize, RelevanceLevel::Strong), ("src/main/java/com/example/demo/controller/UserApiController.java"@, 48usize, 52usize, RelevanceLevel::Related)]),
        ("G2Q4"@, "expand a JPQL keyword into a SQL LIKE filter over the name column"@, QueryType::Semantic, None, seq![("src/main/java/com/example/demo/repository/UserRepository.java"@, 20usize, 21usize, RelevanceLevel::Strong), ("src/main/java/com/example/demo/service/UserService.java"@, 57usize, 59usize, RelevanceLevel::Related)]),
        ("G2Q5"@, "delete a user by primary key and complete the transaction"@, QueryType::Semantic, None, seq![("src/main/java/com/example/demo/service/UserService.java"@, 53usize, 55usize, RelevanceLevel::Strong), ("src/main/java/com/example/demo/controller/UserApiController.java"@, 55usize, 58usize, RelevanceLevel::Related)]),
        ("G2Q6"@, "copy the entity fields into an immutable response DTO"@, QueryType::Semantic, None, seq![("src/main/java/com/example/demo/dto/UserResponse.java"@, 22usize, 29usize, RelevanceLevel::Strong)]),
        ("FZ-G1Q1-naming_affix"@, "run_all_users method in UserApiController"@, QueryType::Fuzzy, Some("naming_affix"@), seq![("src/main/java/com/example/demo/controller/UserApiController.java"@, 31usize, 38usize, RelevanceLevel::Strong)]),
        ("FZ-G1Q2-synonym"@, "lookupByKeyword method in UserService"@, QueryType::Fuzzy, Some("synonym"@), seq![("src/main/java/com/example/demo/service/UserService.java"@, 57usize, 59usize, RelevanceLevel::Strong)]),
        ("FZ-G1Q3-paraphrase"@, "query users whose name matches a partial text"@, QueryType::Fuzzy, Some("paraphrase"@), seq![("src/main/java/com/example/demo/repository/UserRepository.java"@, 20usize, 21usize, RelevanceLevel::Strong)]),
        ("FZ-G1Q4-abbrev_expand"@, "setters method on user entity"@, QueryType::Fuzzy, Some("abbrev_expand"@), seq![("src/main/java/com/example/demo/entity/User.java"@, 37usize, 63usize, RelevanceLevel::Strong)]),
        ("FZ-G1Q5-naming_case"@, "main() in Application"@, QueryType::Fuzzy, Some("naming_case"@), seq![("src/main/java/com/example/demo/Application.java"@, 9usize, 11usize, RelevanceLevel::Strong)]),
    ]
}

pub fn spring_boot_relevance_judgments() -> (res: Vec<RelevanceJudgment>)
    ensures
        judgment_views(res@) == spring_boot_table(),
        res@.len() == 18,
        forall|i: int| 0 <= i < res@.len() ==> #[trigger] judgment_wf(res@[i]),
{

    let c = "src/main/java/com/example/demo/controller/UserApiController.java";
    let s = "src/main/java/com/example/demo/service/UserService.java";
    let r = "src/main/java/com/example/demo/repository/UserRepository.java";
    let e = "src/main/java/com/example/demo/entity/User.java";
    let d = "src/main/java/com/example/demo/dto/UserResponse.java";
    let a = "src/main/java/com/example/demo/Application.java";

    let res = vec![
        // Qualified symbol queries: symbol tokens preserved in natural-language
        // structure (e.g. `getAllUsers method in UserApiController`).
        strong(
            "G1Q1",
            "getAllUsers method in UserApiController",
            Qualified,
            c,
            31,
            38,
        ),
        strong(
            "G1Q2",
            "createUser endpoint in UserApiController",
            Qualified,
            c,
            48,
            52,
        ),
        strong(
            "G1Q3",
            "searchByKeyword method in UserService",
            Qualified,
            s,
            57,
            59,
        ),
        strong(
            "G1Q4",
            "updateUser transactional method in UserService",
            Qualified,
            s,
            41,
            50,
        ),
        strong(
            "G1Q5",
            "searchByName in UserRepository",
            Qualified,
            r,
            21,
            21,
        ),
        strong(
            "G1Q6",
            "setName method on User entity",
            Qualified,
            e,
            45,
            47,
        ),
        strong(
            "G1Q7",
            "fromEntity static method on UserResponse",
            Qualified,
            d,
            22,
            29,
        ),
        // Semantic behavior queries.
        RelevanceJudgment {
            id: String::from_str("G2Q1"),
            query_text: String::from_str("list every stored user and map each entity into a response DTO"),
            query_type: Semantic,
            fuzzy_subtype: None,
            relevant_ranges: vec![
                (
                    SourceRange {
                        file: String::from_str(c),
                        start_line: 31,
                        end_line: 38,
                    },
                    RelevanceLevel::Strong,
                ),
                (
                    SourceRange {
                        file: String::from_str(s),
                        start_line: 22,
                        end_line: 24,
                    },
                    RelevanceLevel::Related,
                ),
            ],
        },
        RelevanceJudgment {
            id: String::from_str("G2Q2"),
            query_text: String::from_str("find a single user by id and answer with 404 when missing"),
            query_type: Semantic,
            fuzzy_subtype: None,
            relevant_ranges: vec![
                (
                    SourceRange {
                        file: String::from_str(c),
                        start_line: 41,
                        end_line: 45,
                    },
                    RelevanceLevel::Strong,
                ),
                (
                    SourceRange {
                        file: String::from_str(s),
                        start_line: 26,
                        end_line: 28,
                    },
                    RelevanceLevel::Related,
                ),
            ],
        },
        RelevanceJudgment {
            id: String::from_str("G2Q3"),
            query_text: String::from_str("persist a new user from the request payload and return a created status"),
            query_type: Semantic,
            fuzzy_subtype: None,
            relevant_ranges: vec![
                (
                    SourceRange {
                        file: String::from_str(s),
                        start_line: 35,
                        end_line: 38,
                    },
                    RelevanceLevel::Strong,
                ),
                (
                    SourceRange {
                        file: String::from_str(c),
                        start_line: 48,
                        end_line: 52,
                    },
                    RelevanceLevel::Related,
                ),
            ],
        },
        RelevanceJudgment {
            id: String::from_str("G2Q4"),
            query_text: String::from_str("expand a JPQL keyword into a SQL LIKE filter over the name column"),
            query_type: Semantic,
            fuzzy_subtype: None,
            relevant_ranges: vec![
                (
                    SourceRange {
                        file: String::from_str(r),
                        start_line: 20,
                        end_line: 21,
                    },
                    RelevanceLevel::Strong,
                ),
                (
                    SourceRange {
                        file: String::from_str(s),
                        start_line: 57,
                        end_line: 59,
                    },
                    RelevanceLevel::Related,
                ),
            ],
        },
        RelevanceJudgment {
            id: String::from_str("G2Q5"),
            query_text: String::from_str("delete a user by primary key and complete the transaction"),
            query_type: Semantic,
            fuzzy_subtype: None,
            relevant_ranges: vec![
                (
                    SourceRange {
                        file: String::from_str(s),
                        start_line: 53,
                        end_line: 55,
                    },
                    RelevanceLevel::Strong,
                ),
                (
                    SourceRange {
                        file: String::from_str(c),
                        start_line: 55,
                        end_line: 58,
                    },
                    RelevanceLevel::Related,
                ),
            ],
        },
        strong(
            "G2Q6",
            "copy the entity fields into an immutable response DTO",
            Semantic,
            d,
            22,
            29,
        ),
        // Fuzzy queries: lexical perturbations of the qualified set, same ranges.
        // FZ-G1Q1: UserApiController::getAllUsers
        fuzzy_strong(
            "FZ-G1Q1-naming_affix",
            "run_all_users method in UserApiController",
            "naming_affix",
            c,
            31,
            38,
        ),
        // FZ-G1Q2: UserService::searchByKeyword
        fuzzy_strong(
            "FZ-G1Q2-synonym",
            "lookupByKeyword method in UserService",
            "synonym",
            s,
            57,
            59,
        ),
        // FZ-G1Q3: UserRepository::searchByName
        fuzzy_strong(
            "FZ-G1Q3-paraphrase",
            "query users whose name matches a partial text",
            "paraphrase",
            r,
            20,
            21,
        ),
        // FZ-G1Q4: User entity setters
        fuzzy_strong(
            "FZ-G1Q4-abbrev_expand",
            "setters method on user entity",
            "abbrev_expand",
            e,
            37,
            63,
        ),
        // FZ-G1Q5: Application::main
        fuzzy_strong(
            "FZ-G1Q5-naming_case",
            "main() in Application",
            "naming_case",
            a,
            9,
            11,
        ),
    ];
    proof {
        assert(judgment_views(res@) =~~= spring_boot_table());
    }
    res
}

} // verus!
