
use vstd::prelude::*;
use crate::bench_data::{JudgmentView, QueryType, RelevanceJudgment, RelevanceLevel, SourceRange, judgment_views, judgment_wf};
use crate::bench_data::RelevanceLevel as RL;

verus! {

/// The table as values: id, query text, query type, fuzzy subtype and
/// the (file, start line, end line, level) of every relevant range.
pub open spec fn once_cell_table() -> Seq<JudgmentView> {
    seq![
        ("G1Q1"@, "new constructor in unsync OnceCell"@, QueryType::Qualified, None, seq![("src/lib.rs"@, 480usize, 482usize, RelevanceLevel::Strong)]),
        ("G1Q2"@, "get method on unsync OnceCell"@, QueryType::Qualified, None, seq![("src/lib.rs"@, 493usize, 499usize, RelevanceLevel::Strong)]),
        ("G1Q3"@, "set method on unsync OnceCell"@, QueryType::Qualified, None, seq![("src/lib.rs"@, 540usize, 545usize, RelevanceLevel::Strong)]),
        ("G1Q4"@, "get_or_init in unsync OnceCell"@, QueryType::Qualified, None, seq![("src/lib.rs"@, 596usize, 605usize, RelevanceLevel::Strong)]),
        ("G1Q5"@, "new constructor in sync OnceCell"@, QueryType::Qualified, None, seq![("src/lib.rs"@, 960usize, 962usize, RelevanceLevel::Strong)]),
        ("G1Q6"@, "get_or_try_init method on sync OnceCell"@, QueryType::Qualified, None, seq![("src/lib.rs"@, 1162usize, 1176usize, RelevanceLevel::Strong)]),
        ("G1Q7"@, "force method on sync Lazy"@, QueryType::Qualified, None, seq![("src/lib.rs"@, 1318usize, 1323usize, RelevanceLevel::Strong)]),
        ("G1Q8"@, "new constructor in race OnceNonZeroUsize"@, QueryType::Qualified, None, seq![("src/race.rs"@, 50usize, 52usize, RelevanceLevel::Strong)]),
        ("G2Q1"@, "initialize a value only once"@, QueryType::Semantic, None, seq![("src/lib.rs"@, 596usize, 605usize, RelevanceLevel::Strong), ("src/lib.rs"@, 540usize, 545usize, RelevanceLevel::Strong), ("src/lib.rs"@, 1125usize, 1134usize, RelevanceLevel::Strong), ("src/lib.rs"@, 1068usize, 1073usize, RelevanceLevel::Strong), ("src/lib.rs"@, 561usize, 573usize, RelevanceLevel::Related)]),
        ("G2Q2"@, "read the stored value from cell"@, QueryType::Semantic, None, seq![("src/lib.rs"@, 493usize, 499usize, RelevanceLevel::Strong), ("src/lib.rs"@, 518usize, 521usize, RelevanceLevel::Strong), ("src/lib.rs"@, 973usize, 980usize, RelevanceLevel::Strong), ("src/lib.rs"@, 1029usize, 1031usize, RelevanceLevel::Strong)]),
        ("G2Q3"@, "lazy evaluation delayed initialization"@, QueryType::Semantic, None, seq![("src/lib.rs"@, 724usize, 727usize, RelevanceLevel::Strong), ("src/lib.rs"@, 752usize, 754usize, RelevanceLevel::Strong), ("src/lib.rs"@, 1265usize, 1268usize, RelevanceLevel::Strong), ("src/lib.rs"@, 1288usize, 1290usize, RelevanceLevel::Strong), ("src/lib.rs"@, 783usize, 788usize, RelevanceLevel::Related), ("src/lib.rs"@, 1318usize, 1323usize, RelevanceLevel::Related)]),
        ("G2Q4"@, "consume and extract inner value"@, QueryType::Semantic, None, seq![("src/lib.rs"@, 697usize, 701usize, RelevanceLevel::Strong), ("src/lib.rs"@, 677usize, 679usize, RelevanceLevel::Strong), ("src/lib.rs"@, 1227usize, 1229usize, RelevanceLevel::Strong), ("src/lib.rs"@, 1207usize, 1209usize, RelevanceLevel::Strong), ("src/lib.rs"@, 759usize, 765usize, RelevanceLevel::Related), ("src/lib.rs"@, 1295usize, 1301usize, RelevanceLevel::Related)]),
        ("G2Q5"@, "thread synchronization blocking once cell"@, QueryType::Semantic, None, seq![("src/imp_std.rs"@, 61usize, 85usize, RelevanceLevel::Strong), ("src/imp_std.rs"@, 177usize, 208usize, RelevanceLevel::Strong), ("src/imp_std.rs"@, 210usize, 239usize, RelevanceLevel::Strong), ("src/imp_std.rs"@, 145usize, 168usize, RelevanceLevel::Related)]),
        ("G2Q6"@, "parking lot based once cell implementation"@, QueryType::Semantic, None, seq![("src/imp_pl.rs"@, 45usize, 77usize, RelevanceLevel::Strong), ("src/imp_pl.rs"@, 141usize, 169usize, RelevanceLevel::Strong), ("src/imp_pl.rs"@, 124usize, 137usize, RelevanceLevel::Related)]),
        ("G2Q7"@, "no standard library once cell critical section"@, QueryType::Semantic, None, seq![("src/imp_cs.rs"@, 44usize, 54usize, RelevanceLevel::Strong), ("src/imp_cs.rs"@, 27usize, 29usize, RelevanceLevel::Strong), ("src/imp_cs.rs"@, 63usize, 67usize, RelevanceLevel::Strong), ("src/imp_cs.rs"@, 8usize, 13usize, RelevanceLevel::Related)]),
        ("G2Q8"@, "lock-free non-blocking once cell atomic"@, QueryType::Semantic, None, seq![("src/race.rs"@, 150usize, 157usize, RelevanceLevel::Strong), ("src/race.rs"@, 120usize, 129usize, RelevanceLevel::Strong), ("src/race.rs"@, 199usize, 204usize, RelevanceLevel::Strong), ("src/race.rs"@, 311usize, 317usize, RelevanceLevel::Strong), ("src/race.rs"@, 43usize, 45usize, RelevanceLevel::Related), ("src/race.rs"@, 167usize, 169usize, RelevanceLevel::Related), ("src/race.rs"@, 232usize, 235usize, RelevanceLevel::Related)]),
        ("G2Q9"@, "mutable reference access once cell"@, QueryType::Semantic, None, seq![("src/lib.rs"@, 518usize, 521usize, RelevanceLevel::Strong), ("src/lib.rs"@, 1029usize, 1031usize, RelevanceLevel::Strong), ("src/lib.rs"@, 1337usize, 1346usize, RelevanceLevel::Strong), ("src/lib.rs"@, 677usize, 679usize, RelevanceLevel::Related), ("src/lib.rs"@, 1207usize, 1209usize, RelevanceLevel::Related)]),
        ("G2Q10"@, "blocking wait for once cell initialization"@, QueryType::Semantic, None, seq![("src/lib.rs"@, 1003usize, 1011usize, RelevanceLevel::Strong), ("src/imp_std.rs"@, 88usize, 90usize, RelevanceLevel::Strong), ("src/imp_pl.rs"@, 80usize, 94usize, RelevanceLevel::Strong), ("src/lib.rs"@, 1162usize, 1176usize, RelevanceLevel::Related)]),
        ("G2Q11"@, "heap allocated thread safe once box"@, QueryType::Semantic, None, seq![("src/race.rs"@, 389usize, 391usize, RelevanceLevel::Strong), ("src/race.rs"@, 399usize, 405usize, RelevanceLevel::Strong), ("src/race.rs"@, 411usize, 424usize, RelevanceLevel::Strong), ("src/race.rs"@, 432usize, 441usize, RelevanceLevel::Strong), ("src/race.rs"@, 361usize, 364usize, RelevanceLevel::Related)]),
        ("G2Q12"@, "create once cell with pre existing value"@, QueryType::Semantic, None, seq![("src/lib.rs"@, 485usize, 487usize, RelevanceLevel::Strong), ("src/lib.rs"@, 965usize, 967usize, RelevanceLevel::Strong), ("src/lib.rs"@, 433usize, 437usize, RelevanceLevel::Related), ("src/lib.rs"@, 913usize, 917usize, RelevanceLevel::Related), ("src/race.rs"@, 394usize, 396usize, RelevanceLevel::Related)]),
        ("FZ-G1Q1-naming_case"@, "new constructor in unsync once_cell"@, QueryType::Fuzzy, Some("naming_case"@), seq![("src/lib.rs"@, 480usize, 482usize, RelevanceLevel::Strong)]),
        ("FZ-G1Q2-naming_affix"@, "get_value method on unsync OnceCell"@, QueryType::Fuzzy, Some("naming_affix"@), seq![("src/lib.rs"@, 493usize, 499usize, RelevanceLevel::Strong)]),
        ("FZ-G1Q2-synonym"@, "retrieve method on unsync OnceCell"@, QueryType::Fuzzy, Some("synonym"@), seq![("src/lib.rs"@, 493usize, 499usize, RelevanceLevel::Strong)]),
        ("FZ-G1Q3-naming_affix"@, "set_value method on unsync OnceCell"@, QueryType::Fuzzy, Some("naming_affix"@), seq![("src/lib.rs"@, 540usize, 545usize, RelevanceLevel::Strong)]),
        ("FZ-G1Q3-paraphrase"@, "write a value into unsync OnceCell"@, QueryType::Fuzzy, Some("paraphrase"@), seq![("src/lib.rs"@, 540usize, 545usize, RelevanceLevel::Strong)]),
        ("FZ-G1Q4-naming_case"@, "getOrInit in unsync OnceCell"@, QueryType::Fuzzy, Some("naming_case"@), seq![("src/lib.rs"@, 596usize, 605usize, RelevanceLevel::Strong)]),
        ("FZ-G1Q4-paraphrase"@, "fetch or create the stored value in unsync OnceCell"@, QueryType::Fuzzy, Some("paraphrase"@), seq![("src/lib.rs"@, 596usize, 605usize, RelevanceLevel::Strong)]),
        ("FZ-G1Q5-synonym"@, "make constructor in sync OnceCell"@, QueryType::Fuzzy, Some("synonym"@), seq![("src/lib.rs"@, 960usize, 962usize, RelevanceLevel::Strong)]),
        ("FZ-G1Q5-abbrev_expand"@, "new constructor in synchronous OnceCell"@, QueryType::Fuzzy, Some("abbrev_expand"@), seq![("src/lib.rs"@, 960usize, 962usize, RelevanceLevel::Strong)]),
        ("FZ-G1Q6-naming_case"@, "getOrTryInit method on sync OnceCell"@, QueryType::Fuzzy, Some("naming_case"@), seq![("src/lib.rs"@, 1162usize, 1176usize, RelevanceLevel::Strong)]),
        ("FZ-G1Q6-abbrev_expand"@, "get_or_try_initialize method on sync OnceCell"@, QueryType::Fuzzy, Some("abbrev_expand"@), seq![("src/lib.rs"@, 1162usize, 1176usize, RelevanceLevel::Strong)]),
        ("FZ-G1Q7-synonym"@, "evaluate method on sync Lazy"@, QueryType::Fuzzy, Some("synonym"@), seq![("src/lib.rs"@, 1318usize, 1323usize, RelevanceLevel::Strong)]),
        ("FZ-G1Q7-paraphrase"@, "trigger computation of sync Lazy"@, QueryType::Fuzzy, Some("paraphrase"@), seq![("src/lib.rs"@, 1318usize, 1323usize, RelevanceLevel::Strong)]),
        ("FZ-G1Q8-naming_affix"@, "new_cell constructor in race OnceNonZeroUsize"@, QueryType::Fuzzy, Some("naming_affix"@), seq![("src/race.rs"@, 50usize, 52usize, RelevanceLevel::Strong)]),
        ("FZ-G1Q8-abbrev_expand"@, "new constructor in race once non zero usize"@, QueryType::Fuzzy, Some("abbrev_expand"@), seq![("src/race.rs"@, 50usize, 52usize, RelevanceLevel::Strong)]),
        ("G4Q1"@, "懒加载的全局变量"@, QueryType::CrossLang, None, seq![("src/lib.rs"@, 724usize, 727usize, RelevanceLevel::Strong), ("src/lib.rs"@, 1265usize, 1268usize, RelevanceLevel::Strong), ("src/lib.rs"@, 1318usize, 1323usize, RelevanceLevel::Strong)]),
        ("G4Q2"@, "线程安全的一次初始化"@, QueryType::CrossLang, None, seq![("src/lib.rs"@, 960usize, 962usize, RelevanceLevel::Strong), ("src/lib.rs"@, 1125usize, 1134usize, RelevanceLevel::Strong), ("src/lib.rs"@, 1162usize, 1176usize, RelevanceLevel::Strong)]),
        ("G4Q3"@, "获取可能未初始化的值"@, QueryType::CrossLang, None, seq![("src/lib.rs"@, 493usize, 499usize, RelevanceLevel::Strong), ("src/lib.rs"@, 973usize, 980usize, RelevanceLevel::Strong), ("src/lib.rs"@, 1029usize, 1031usize, RelevanceLevel::Strong)]),
        ("G4Q4"@, "延迟初始化的高性能无锁实现"@, QueryType::CrossLang, None, seq![("src/race.rs"@, 50usize, 52usize, RelevanceLevel::Strong), ("src/race.rs"@, 389usize, 391usize, RelevanceLevel::Strong), ("src/race.rs"@, 432usize, 441usize, RelevanceLevel::Strong)]),
    ]
}

pub fn once_cell_relevance_judgments() -> (res: Vec<RelevanceJudgment>)
    ensures
        judgment_views(res@) == once_cell_table(),
        res@.len() == 39,
        forall|i: int| 0 <= i < res@.len() ==> #[trigger] judgment_wf(res@[i]),
{

    let res = vec![
        // G1: Qualified symbol queries - symbol tokens preserved, wrapped in
        // natural-language structure (e.g. "new constructor in unsync OnceCell").
        // G1Q1: unsync::OnceCell::new constructor
        RelevanceJudgment {
            id: String::from_str("G1Q1"),
            query_text: String::from_str("new constructor in unsync OnceCell"),
            query_type: QueryType::Qualified,
            fuzzy_subtype: None,
            relevant_ranges: vec![(
                SourceRange {
                    file: String::from_str("src/lib.rs"),
                    start_line: 480,
                    end_line: 482,
                },
                RL::Strong,
            )],
        },
        // G1Q2: unsync::OnceCell::get method
        RelevanceJudgment {
            id: String::from_str("G1Q2"),
            query_text: String::from_str("get method on unsync OnceCell"),
            query_type: QueryType::Qualified,
            fuzzy_subtype: None,
            relevant_ranges: vec![(
                SourceRange {
                    file: String::from_str("src/lib.rs"),
                    start_line: 493,
                    end_line: 499,
                },
                RL::Strong,
            )],
        },
        // G1Q3: unsync::OnceCell::set method
        RelevanceJudgment {
            id: String::from_str("G1Q3"),
            query_text: String::from_str("set method on unsync OnceCell"),
            query_type: QueryType::Qualified,
            fuzzy_subtype: None,
            relevant_ranges: vec![(
                SourceRange {
                    file: String::from_str("src/lib.rs"),
                    start_line: 540,
                    end_line: 545,
                },
                RL::Strong,
            )],
        },
        // G1Q4: unsync::OnceCell::get_or_init method
        RelevanceJudgment {
            id: String::from_str("G1Q4"),
            query_text: String::from_str("get_or_init in unsync OnceCell"),
            query_type: QueryType::Qualified,
            fuzzy_subtype: None,
            relevant_ranges: vec![(
                SourceRange {
                    file: String::from_str("src/lib.rs"),
                    start_line: 596,
                    end_line: 605,
                },
                RL::Strong,
            )],
        },
        // G1Q5: sync::OnceCell::new constructor
        RelevanceJudgment {
            id: String::from_str("G1Q5"),
            query_text: String::from_str("new constructor in sync OnceCell"),
            query_type: QueryType::Qualified,
            fuzzy_subtype: None,
            relevant_ranges: vec![(
                SourceRange {
                    file: String::from_str("src/lib.rs"),
                    start_line: 960,
                    end_line: 962,
                },
                RL::Strong,
            )],
        },
        // G1Q6: sync::OnceCell::get_or_try_init method
        RelevanceJudgment {
            id: String::from_str("G1Q6"),
            query_text: String::from_str("get_or_try_init method on sync OnceCell"),
            query_type: QueryType::Qualified,
            fuzzy_subtype: None,
            relevant_ranges: vec![(
                SourceRange {
                    file: String::from_str("src/lib.rs"),
                    start_line: 1162,
                    end_line: 1176,
                },
                RL::Strong,
            )],
        },
        // G1Q7: sync::Lazy::force method
        RelevanceJudgment {
            id: String::from_str("G1Q7"),
            query_text: String::from_str("force method on sync Lazy"),
            query_type: QueryType::Qualified,
            fuzzy_subtype: None,
            relevant_ranges: vec![(
                SourceRange {
                    file: String::from_str("src/lib.rs"),
                    start_line: 1318,
                    end_line: 1323,
                },
                RL::Strong,
            )],
        },
        // G1Q8: race::OnceNonZeroUsize::new constructor
        RelevanceJudgment {
            id: String::from_str("G1Q8"),
            query_text: String::from_str("new constructor in race OnceNonZeroUsize"),
            query_type: QueryType::Qualified,
            fuzzy_subtype: None,
            relevant_ranges: vec![(
                SourceRange {
                    file: String::from_str("src/race.rs"),
                    start_line: 50,
                    end_line: 52,
                },
                RL::Strong,
            )],
        },
        // G2: Semantic queries - Strong (core) + Related (context), single-entity ranges
        // G2Q1: initialize a value only once
        RelevanceJudgment {
            id: String::from_str("G2Q1"),
            query_text: String::from_str("initialize a value only once"),
            query_type: QueryType::Semantic,
            fuzzy_subtype: None,
            relevant_ranges: vec![
                (
                    SourceRange {
                        file: String::from_str("src/lib.rs"),
                        start_line: 596,
                        end_line: 605,
                    },
                    RL::Strong,
                ),
                (
                    SourceRange {
                        file: String::from_str("src/lib.rs"),
                        start_line: 540,
                        end_line: 545,
                    },
                    RL::Strong,
                ),
                (
                    SourceRange {
                        file: String::from_str("src/lib.rs"),
                        start_line: 1125,
                        end_line: 1134,
                    },
                    RL::Strong,
                ),
                (
                    SourceRange {
                        file: String::from_str("src/lib.rs"),
                        start_line: 1068,
                        end_line: 1073,
                    },
                    RL::Strong,
                ),
                (
                    SourceRange {
                        file: String::from_str("src/lib.rs"),
                        start_line: 561,
                        end_line: 573,
                    },
                    RL::Related,
                ),
            ],
        },
        // G2Q2: read stored value from cell
        RelevanceJudgment {
            id: String::from_str("G2Q2"),
            query_text: String::from_str("read the stored value from cell"),
            query_type: QueryType::Semantic,
            fuzzy_subtype: None,
            relevant_ranges: vec![
                (
                    SourceRange {
                        file: String::from_str("src/lib.rs"),
                        start_line: 493,
                        end_line: 499,
                    },
                    RL::Strong,
                ),
                (
                    SourceRange {
                        file: String::from_str("src/lib.rs"),
                        start_line: 518,
                        end_line: 521,
                    },
                    RL::Strong,
                ),
                (
                    SourceRange {
                        file: String::from_str("src/lib.rs"),
                        start_line: 973,
                        end_line: 980,
                    },
                    RL::Strong,
                ),
                (
                    SourceRange {
                        file: String::from_str("src/lib.rs"),
                        start_line: 1029,
                        end_line: 1031,
                    },
                    RL::Strong,
                ),
            ],
        },
        // G2Q3: lazy evaluation delayed initialization
        RelevanceJudgment {
            id: String::from_str("G2Q3"),
            query_text: String::from_str("lazy evaluation delayed initialization"),
            query_type: QueryType::Semantic,
            fuzzy_subtype: None,
            relevant_ranges: vec![
                (
                    SourceRange {
                        file: String::from_str("src/lib.rs"),
                        start_line: 724,
                        end_line: 727,
                    },
                    RL::Strong,
                ),
                (
                    SourceRange {
                        file: String::from_str("src/lib.rs"),
                        start_line: 752,
                        end_line: 754,
                    },
                    RL::Strong,
                ),
                (
                    SourceRange {
                        file: String::from_str("src/lib.rs"),
                        start_line: 1265,
                        end_line: 1268,
                    },
                    RL::Strong,
                ),
                (
                    SourceRange {
                        file: String::from_str("src/lib.rs"),
                        start_line: 1288,
                        end_line: 1290,
                    },
                    RL::Strong,
                ),
                (
                    SourceRange {
                        file: String::from_str("src/lib.rs"),
                        start_line: 783,
                        end_line: 788,
                    },
                    RL::Related,
                ),
                (
                    SourceRange {
                        file: String::from_str("src/lib.rs"),
                        start_line: 1318,
                        end_line: 1323,
                    },
                    RL::Related,
                ),
            ],
        },
        // G2Q4: consume and extract inner value
        RelevanceJudgment {
            id: String::from_str("G2Q4"),
            query_text: String::from_str("consume and extract inner value"),
            query_type: QueryType::Semantic,
            fuzzy_subtype: None,
            relevant_ranges: vec![
                (
                    SourceRange {
                        file: String::from_str("src/lib.rs"),
                        start_line: 697,
                        end_line: 701,
                    },
                    RL::Strong,
                ),
                (
                    SourceRange {
                        file: String::from_str("src/lib.rs"),
                        start_line: 677,
                        end_line: 679,
                    },
                    RL::Strong,
                ),
                (
                    SourceRange {
                        file: String::from_str("src/lib.rs"),
                        start_line: 1227,
                        end_line: 1229,
                    },
                    RL::Strong,
                ),
                (
                    SourceRange {
                        file: String::from_str("src/lib.rs"),
                        start_line: 1207,
                        end_line: 1209,
                    },
                    RL::Strong,
                ),
                (
                    SourceRange {
                        file: String::from_str("src/lib.rs"),
                        start_line: 759,
                        end_line: 765,
                    },
                    RL::Related,
                ),
                (
                    SourceRange {
                        file: String::from_str("src/lib.rs"),
                        start_line: 1295,
                        end_line: 1301,
                    },
                    RL::Related,
                ),
            ],
        },
        // G2Q5: thread synchronization blocking once cell (imp_std)
        RelevanceJudgment {
            id: String::from_str("G2Q5"),
            query_text: String::from_str("thread synchronization blocking once cell"),
            query_type: QueryType::Semantic,
            fuzzy_subtype: None,
            relevant_ranges: vec![
                (
                    SourceRange {
                        file: String::from_str("src/imp_std.rs"),
                        start_line: 61,
                        end_line: 85,
                    },
                    RL::Strong,
                ),
                (
                    SourceRange {
                        file: String::from_str("src/imp_std.rs"),
                        start_line: 177,
                        end_line: 208,
                    },
                    RL::Strong,
                ),
                (
                    SourceRange {
                        file: String::from_str("src/imp_std.rs"),
                        start_line: 210,
                        end_line: 239,
                    },
                    RL::Strong,
                ),
                (
                    SourceRange {
                        file: String::from_str("src/imp_std.rs"),
                        start_line: 145,
                        end_line: 168,
                    },
                    RL::Related,
                ),
            ],
        },
        // G2Q6: parking lot based once cell implementation
        RelevanceJudgment {
            id: String::from_str("G2Q6"),
            query_text: String::from_str("parking lot based once cell implementation"),
            query_type: QueryType::Semantic,
            fuzzy_subtype: None,
            relevant_ranges: vec![
                (
                    SourceRange {
                        file: String::from_str("src/imp_pl.rs"),
                        start_line: 45,
                        end_line: 77,
                    },
                    RL::Strong,
                ),
                (
                    SourceRange {
                        file: String::from_str("src/imp_pl.rs"),
                        start_line: 141,
                        end_line: 169,
                    },
                    RL::Strong,
                ),
                (
                    SourceRange {
                        file: String::from_str("src/imp_pl.rs"),
                        start_line: 124,
                        end_line: 137,
                    },
                    RL::Related,
                ),
            ],
        },
        // G2Q7: critical section no_std once cell
        RelevanceJudgment {
            id: String::from_str("G2Q7"),
            query_text: String::from_str("no standard library once cell critical section"),
            query_type: QueryType::Semantic,
            fuzzy_subtype: None,
            relevant_ranges: vec![
                (
                    SourceRange {
                        file: String::from_str("src/imp_cs.rs"),
                        start_line: 44,
                        end_line: 54,
                    },
                    RL::Strong,
                ),
                (
                    SourceRange {
                        file: String::from_str("src/imp_cs.rs"),
                        start_line: 27,
                        end_line: 29,
                    },
                    RL::Strong,
                ),
                (
                    SourceRange {
                        file: String::from_str("src/imp_cs.rs"),
                        start_line: 63,
                        end_line: 67,
                    },
                    RL::Strong,
                ),
                (
                    SourceRange {
                        file: String::from_str("src/imp_cs.rs"),
                        start_line: 8,
                        end_line: 13,
                    },
                    RL::Related,
                ),
            ],
        },
        // G2Q8: lock-free non-blocking race once cell
        RelevanceJudgment {
            id: String::from_str("G2Q8"),
            query_text: String::from_str("lock-free non-blocking once cell atomic"),
            query_type: QueryType::Semantic,
            fuzzy_subtype: None,
            relevant_ranges: vec![
                (
                    SourceRange {
                        file: String::from_str("src/race.rs"),
                        start_line: 150,
                        end_line: 157,
                    },
                    RL::Strong,
                ),
                (
                    SourceRange {
                        file: String::from_str("src/race.rs"),
                        start_line: 120,
                        end_line: 129,
                    },
                    RL::Strong,
                ),
                (
                    SourceRange {
                        file: String::from_str("src/race.rs"),
                        start_line: 199,
                        end_line: 204,
                    },
                    RL::Strong,
                ),
                (
                    SourceRange {
                        file: String::from_str("src/race.rs"),
                        start_line: 311,
                        end_line: 317,
                    },
                    RL::Strong,
                ),
                (
                    SourceRange {
                        file: String::from_str("src/race.rs"),
                        start_line: 43,
                        end_line: 45,
                    },
                    RL::Related,
                ),
                (
                    SourceRange {
                        file: String::from_str("src/race.rs"),
                        start_line: 167,
                        end_line: 169,
                    },
                    RL::Related,
                ),
                (
                    SourceRange {
                        file: String::from_str("src/race.rs"),
                        start_line: 232,
                        end_line: 235,
                    },
                    RL::Related,
                ),
            ],
        },
        // G2Q9: mutable access get_mut methods
        RelevanceJudgment {
            id: String::from_str("G2Q9"),
            query_text: String::from_str("mutable reference access once cell"),
            query_type: QueryType::Semantic,
            fuzzy_subtype: None,
            relevant_ranges: vec![
                (
                    SourceRange {
                        file: String::from_str("src/lib.rs"),
                        start_line: 518,
                        end_line: 521,
                    },
                    RL::Strong,
                ),
                (
                    SourceRange {
                        file: String::from_str("src/lib.rs"),
                        start_line: 1029,
                        end_line: 1031,
                    },
                    RL::Strong,
                ),
                (
                    SourceRange {
                        file: String::from_str("src/lib.rs"),
                        start_line: 1337,
                        end_line: 1346,
                    },
                    RL::Strong,
                ),
                (
                    SourceRange {
                        file: String::from_str("src/lib.rs"),
                        start_line: 677,
                        end_line: 679,
                    },
                    RL::Related,
                ),
                (
                    SourceRange {
                        file: String::from_str("src/lib.rs"),
                        start_line: 1207,
                        end_line: 1209,
                    },
                    RL::Related,
                ),
            ],
        },
        // G2Q10: blocking wait for initialization
        RelevanceJudgment {
            id: String::from_str("G2Q10"),
            query_text: String::from_str("blocking wait for once cell initialization"),
            query_type: QueryType::Semantic,
            fuzzy_subtype: None,
            relevant_ranges: vec![
                (
                    SourceRange {
                        file: String::from_str("src/lib.rs"),
                        start_line: 1003,
                        end_line: 1011,
                    },
                    RL::Strong,
                ),
                (
                    SourceRange {
                        file: String::from_str("src/imp_std.rs"),
                        start_line: 88,
                        end_line: 90,
                    },
                    RL::Strong,
                ),
                (
                    SourceRange {
                        file: String::from_str("src/imp_pl.rs"),
                        start_line: 80,
                        end_line: 94,
                    },
                    RL::Strong,
                ),
                (
                    SourceRange {
                        file: String::from_str("src/lib.rs"),
                        start_line: 1162,
                        end_line: 1176,
                    },
                    RL::Related,
                ),
            ],
        },
        // G2Q11: heap allocated once box
        RelevanceJudgment {
            id: String::from_str("G2Q11"),
            query_text: String::from_str("heap allocated thread safe once box"),
            query_type: QueryType::Semantic,
            fuzzy_subtype: None,
            relevant_ranges: vec![
                (
                    SourceRange {
                        file: String::from_str("src/race.rs"),
                        start_line: 389,
                        end_line: 391,
                    },
                    RL::Strong,
                ),
                (
                    SourceRange {
                        file: String::from_str("src/race.rs"),
                        start_line: 399,
                        end_line: 405,
                    },
                    RL::Strong,
                ),
                (
                    SourceRange {
                        file: String::from_str("src/race.rs"),
                        start_line: 411,
                        end_line: 424,
                    },
                    RL::Strong,
                ),
                (
                    SourceRange {
                        file: String::from_str("src/race.rs"),
                        start_line: 432,
                        end_line: 441,
                    },
                    RL::Strong,
                ),
                (
                    SourceRange {
                        file: String::from_str("src/race.rs"),
                        start_line: 361,
                        end_line: 364,
                    },
                    RL::Related,
                ),
            ],
        },
        // G2Q12: pre-initialized with_value constructor
        RelevanceJudgment {
            id: String::from_str("G2Q12"),
            query_text: String::from_str("create once cell with pre existing value"),
            query_type: QueryType::Semantic,
            fuzzy_subtype: None,
            relevant_ranges: vec![
                (
                    SourceRange {
                        file: String::from_str("src/lib.rs"),
                        start_line: 485,
                        end_line: 487,
                    },
                    RL::Strong,
                ),
                (
                    SourceRange {
                        file: String::from_str("src/lib.rs"),
                        start_line: 965,
                        end_line: 967,
                    },
                    RL::Strong,
                ),
                (
                    SourceRange {
                        file: String::from_str("src/lib.rs"),
                        start_line: 433,
                        end_line: 437,
                    },
                    RL::Related,
                ),
                (
                    SourceRange {
                        file: String::from_str("src/lib.rs"),
                        start_line: 913,
                        end_line: 917,
                    },
                    RL::Related,
                ),
                (
                    SourceRange {
                        file: String::from_str("src/race.rs"),
                        start_line: 394,
                        end_line: 396,
                    },
                    RL::Related,
                ),
            ],
        },
        // FZ: Fuzzy queries - artificially perturbed lexical forms of the G1
        // sources. Same relevant_ranges as their source query. Subtype in
        // fuzzy_subtype drives per-perturbation-type analysis.
        RelevanceJudgment {
            id: String::from_str("FZ-G1Q1-naming_case"),
            query_text: String::from_str("new constructor in unsync once_cell"),
            query_type: QueryType::Fuzzy,
            fuzzy_subtype: Some(String::from_str("naming_case")),
            relevant_ranges: vec![(
                SourceRange {
                    file: String::from_str("src/lib.rs"),
                    start_line: 480,
                    end_line: 482,
                },
                RL::Strong,
            )],
        },
        RelevanceJudgment {
            id: String::from_str("FZ-G1Q2-naming_affix"),
            query_text: String::from_str("get_value method on unsync OnceCell"),
            query_type: QueryType::Fuzzy,
            fuzzy_subtype: Some(String::from_str("naming_affix")),
            relevant_ranges: vec![(
                SourceRange {
                    file: String::from_str("src/lib.rs"),
                    start_line: 493,
                    end_line: 499,
                },
                RL::Strong,
            )],
        },
        RelevanceJudgment {
            id: String::from_str("FZ-G1Q2-synonym"),
            query_text: String::from_str("retrieve method on unsync OnceCell"),
            query_type: QueryType::Fuzzy,
            fuzzy_subtype: Some(String::from_str("synonym")),
            relevant_ranges: vec![(
                SourceRange {
                    file: String::from_str("src/lib.rs"),
                    start_line: 493,
                    end_line: 499,
                },
                RL::Strong,
            )],
        },
        RelevanceJudgment {
            id: String::from_str("FZ-G1Q3-naming_affix"),
            query_text: String::from_str("set_value method on unsync OnceCell"),
            query_type: QueryType::Fuzzy,
            fuzzy_subtype: Some(String::from_str("naming_affix")),
            relevant_ranges: vec![(
                SourceRange {
                    file: String::from_str("src/lib.rs"),
                    start_line: 540,
                    end_line: 545,
                },
                RL::Strong,
            )],
        },
        RelevanceJudgment {
            id: String::from_str("FZ-G1Q3-paraphrase"),
            query_text: String::from_str("write a value into unsync OnceCell"),
            query_type: QueryType::Fuzzy,
            fuzzy_subtype: Some(String::from_str("paraphrase")),
            relevant_ranges: vec![(
                SourceRange {
                    file: String::from_str("src/lib.rs"),
                    start_line: 540,
                    end_line: 545,
                },
                RL::Strong,
            )],
        },
        RelevanceJudgment {
            id: String::from_str("FZ-G1Q4-naming_case"),
            query_text: String::from_str("getOrInit in unsync OnceCell"),
            query_type: QueryType::Fuzzy,
            fuzzy_subtype: Some(String::from_str("naming_case")),
            relevant_ranges: vec![(
                SourceRange {
                    file: String::from_str("src/lib.rs"),
                    start_line: 596,
                    end_line: 605,
                },
                RL::Strong,
            )],
        },
        RelevanceJudgment {
            id: String::from_str("FZ-G1Q4-paraphrase"),
            query_text: String::from_str("fetch or create the stored value in unsync OnceCell"),
            query_type: QueryType::Fuzzy,
            fuzzy_subtype: Some(String::from_str("paraphrase")),
            relevant_ranges: vec![(
                SourceRange {
                    file: String::from_str("src/lib.rs"),
                    start_line: 596,
                    end_line: 605,
                },
                RL::Strong,
            )],
        },
        RelevanceJudgment {
            id: String::from_str("FZ-G1Q5-synonym"),
            query_text: String::from_str("make constructor in sync OnceCell"),
            query_type: QueryType::Fuzzy,
            fuzzy_subtype: Some(String::from_str("synonym")),
            relevant_ranges: vec![(
                SourceRange {
                    file: String::from_str("src/lib.rs"),
                    start_line: 960,
                    end_line: 962,
                },
                RL::Strong,
            )],
        },
        RelevanceJudgment {
            id: String::from_str("FZ-G1Q5-abbrev_expand"),
            query_text: String::from_str("new constructor in synchronous OnceCell"),
            query_type: QueryType::Fuzzy,
            fuzzy_subtype: Some(String::from_str("abbrev_expand")),
            relevant_ranges: vec![(
                SourceRange {
                    file: String::from_str("src/lib.rs"),
                    start_line: 960,
                    end_line: 962,
                },
                RL::Strong,
            )],
        },
        RelevanceJudgment {
            id: String::from_str("FZ-G1Q6-naming_case"),
            query_text: String::from_str("getOrTryInit method on sync OnceCell"),
            query_type: QueryType::Fuzzy,
            fuzzy_subtype: Some(String::from_str("naming_case")),
            relevant_ranges: vec![(
                SourceRange {
                    file: String::from_str("src/lib.rs"),
                    start_line: 1162,
                    end_line: 1176,
                },
                RL::Strong,
            )],
        },
        RelevanceJudgment {
            id: String::from_str("FZ-G1Q6-abbrev_expand"),
            query_text: String::from_str("get_or_try_initialize method on sync OnceCell"),
            query_type: QueryType::Fuzzy,
            fuzzy_subtype: Some(String::from_str("abbrev_expand")),
            relevant_ranges: vec![(
                SourceRange {
                    file: String::from_str("src/lib.rs"),
                    start_line: 1162,
                    end_line: 1176,
                },
                RL::Strong,
            )],
        },
        RelevanceJudgment {
            id: String::from_str("FZ-G1Q7-synonym"),
            query_text: String::from_str("evaluate method on sync Lazy"),
            query_type: QueryType::Fuzzy,
            fuzzy_subtype: Some(String::from_str("synonym")),
            relevant_ranges: vec![(
                SourceRange {
                    file: String::from_str("src/lib.rs"),
                    start_line: 1318,
                    end_line: 1323,
                },
                RL::Strong,
            )],
        },
        RelevanceJudgment {
            id: String::from_str("FZ-G1Q7-paraphrase"),
            query_text: String::from_str("trigger computation of sync Lazy"),
            query_type: QueryType::Fuzzy,
            fuzzy_subtype: Some(String::from_str("paraphrase")),
            relevant_ranges: vec![(
                SourceRange {
                    file: String::from_str("src/lib.rs"),
                    start_line: 1318,
                    end_line: 1323,
                },
                RL::Strong,
            )],
        },
        RelevanceJudgment {
            id: String::from_str("FZ-G1Q8-naming_affix"),
            query_text: String::from_str("new_cell constructor in race OnceNonZeroUsize"),
            query_type: QueryType::Fuzzy,
            fuzzy_subtype: Some(String::from_str("naming_affix")),
            relevant_ranges: vec![(
                SourceRange {
                    file: String::from_str("src/race.rs"),
                    start_line: 50,
                    end_line: 52,
                },
                RL::Strong,
            )],
        },
        RelevanceJudgment {
            id: String::from_str("FZ-G1Q8-abbrev_expand"),
            query_text: String::from_str("new constructor in race once non zero usize"),
            query_type: QueryType::Fuzzy,
            fuzzy_subtype: Some(String::from_str("abbrev_expand")),
            relevant_ranges: vec![(
                SourceRange {
                    file: String::from_str("src/race.rs"),
                    start_line: 50,
                    end_line: 52,
                },
                RL::Strong,
            )],
        },
        // G4: Cross-lang verification queries (kept in once_cell only; real
        // queries are AI-generated and English-primary). Chinese descriptions
        // of the same entities, same ranges as G1/G2 anchors.
        RelevanceJudgment {
            id: String::from_str("G4Q1"),
            query_text: String::from_str("懒加载的全局变量"),
            query_type: QueryType::CrossLang,
            fuzzy_subtype: None,
            relevant_ranges: vec![
                (
                    SourceRange {
                        file: String::from_str("src/lib.rs"),
                        start_line: 724,
                        end_line: 727,
                    },
                    RL::Strong,
                ),
                (
                    SourceRange {
                        file: String::from_str("src/lib.rs"),
                        start_line: 1265,
                        end_line: 1268,
                    },
                    RL::Strong,
                ),
                (
                    SourceRange {
                        file: String::from_str("src/lib.rs"),
                        start_line: 1318,
                        end_line: 1323,
                    },
                    RL::Strong,
                ),
            ],
        },
        RelevanceJudgment {
            id: String::from_str("G4Q2"),
            query_text: String::from_str("线程安全的一次初始化"),
            query_type: QueryType::CrossLang,
            fuzzy_subtype: None,
            relevant_ranges: vec![
                (
                    SourceRange {
                        file: String::from_str("src/lib.rs"),
                        start_line: 960,
                        end_line: 962,
                    },
                    RL::Strong,
                ),
                (
                    SourceRange {
                        file: String::from_str("src/lib.rs"),
                        start_line: 1125,
                        end_line: 1134,
                    },
                    RL::Strong,
                ),
                (
                    SourceRange {
                        file: String::from_str("src/lib.rs"),
                        start_line: 1162,
                        end_line: 1176,
                    },
                    RL::Strong,
                ),
            ],
        },
        RelevanceJudgment {
            id: String::from_str("G4Q3"),
            query_text: String::from_str("获取可能未初始化的值"),
            query_type: QueryType::CrossLang,
            fuzzy_subtype: None,
            relevant_ranges: vec![
                (
                    SourceRange {
                        file: String::from_str("src/lib.rs"),
                        start_line: 493,
                        end_line: 499,
                    },
                    RL::Strong,
                ),
                (
                    SourceRange {
                        file: String::from_str("src/lib.rs"),
                        start_line: 973,
                        end_line: 980,
                    },
                    RL::Strong,
                ),
                (
                    SourceRange {
                        file: String::from_str("src/lib.rs"),
                        start_line: 1029,
                        end_line: 1031,
                    },
                    RL::Strong,
                ),
            ],
        },
        RelevanceJudgment {
            id: String::from_str("G4Q4"),
            query_text: String::from_str("延迟初始化的高性能无锁实现"),
            query_type: QueryType::CrossLang,
            fuzzy_subtype: None,
            relevant_ranges: vec![
                (
                    SourceRange {
                        file: String::from_str("src/race.rs"),
                        start_line: 50,
                        end_line: 52,
                    },
                    RL::Strong,
                ),
                (
                    SourceRange {
                        file: String::from_str("src/race.rs"),
                        start_line: 389,
                        end_line: 391,
                    },
                    RL::Strong,
                ),
                (
                    SourceRange {
                        file: String::from_str("src/race.rs"),
                        start_line: 432,
                        end_line: 441,
                    },
                    RL::Strong,
                ),
            ],
        },
    ];
    proof {
        assert(judgment_views(res@) =~~= once_cell_table());
    }
    res
}

} // verus!
