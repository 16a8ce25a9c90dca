//! Range-based relevance judgments for the ripgrep codebase
//!
//! Defines ground truth for 45 benchmark queries:
//! - G1: Qualified symbol queries (10) - symbol tokens in natural-language
//!   structure (e.g. `find_at in RegexMatcher`), Strong only
//! - G2: Semantic queries (20) - Strong + Related, single-entity ranges
//! - FZ: Fuzzy queries (15) - lexical perturbations of G1 sources
//!
//! All line ranges verified against fixtures/rust/review/ripgrep/crates/.
//! Each range is confined to a single function/struct/trait definition to avoid
//! chunking boundary issues.
//!
//! Path remap notes (fixture `src/` → `crates/` layout, commit `eb1cd003`):
//! - Identical-content moves keep their earlier line numbers.
//! - `searcher/src/searcher/mod.rs` ranges shifted by -2, `searcher/src/{sink.rs,
//!   searcher/core.rs, searcher/glue.rs}` by -1 (import block shrink).
//! - G2Q12 re-judged to `printer/src/standard.rs` (write_prelude/write_line_number).
//! - G2Q15 re-judged to `searcher/mod.rs` `ConfigError`; pre-remap metrics for
//!   these two queries are not comparable with post-remap ones.

use vstd::prelude::*;
use crate::bench_data::{JudgmentView, QueryType, RelevanceJudgment, RelevanceLevel, SourceRange, judgment_views, judgment_wf};
use crate::bench_data::RelevanceLevel as RL;

verus! {

/// The table as values: id, query text, query type, fuzzy subtype and
/// the (file, start line, end line, level) of every relevant range.
pub open spec fn ripgrep_table() -> Seq<JudgmentView> {
    seq![
        ("G1Q1"@, "find_at in RegexMatcher"@, QueryType::Qualified, None, seq![("crates/regex/src/matcher.rs"@, 409usize, 421usize, RelevanceLevel::Strong)]),
        ("G1Q2"@, "build method on WalkBuilder"@, QueryType::Qualified, None, seq![("crates/ignore/src/walk.rs"@, 565usize, 602usize, RelevanceLevel::Strong)]),
        ("G1Q3"@, "is_match in GlobSet"@, QueryType::Qualified, None, seq![("crates/globset/src/lib.rs"@, 342usize, 344usize, RelevanceLevel::Strong)]),
        ("G1Q4"@, "Matcher trait with find_at method"@, QueryType::Qualified, None, seq![("crates/matcher/src/lib.rs"@, 546usize, 560usize, RelevanceLevel::Strong), ("crates/matcher/src/lib.rs"@, 571usize, 576usize, RelevanceLevel::Strong)]),
        ("G1Q5"@, "search_path in Searcher"@, QueryType::Qualified, None, seq![("crates/searcher/src/searcher/mod.rs"@, 643usize, 657usize, RelevanceLevel::Strong)]),
        ("G1Q6"@, "matched method on Sink"@, QueryType::Qualified, None, seq![("crates/searcher/src/sink.rs"@, 124usize, 128usize, RelevanceLevel::Strong)]),
        ("G1Q7"@, "new constructor in TypesBuilder"@, QueryType::Qualified, None, seq![("crates/ignore/src/types.rs"@, 316usize, 318usize, RelevanceLevel::Strong)]),
        ("G1Q8"@, "new constructor in GitignoreBuilder"@, QueryType::Qualified, None, seq![("crates/ignore/src/gitignore.rs"@, 327usize, 333usize, RelevanceLevel::Strong)]),
        ("G1Q9"@, "build method on Pcre2Matcher"@, QueryType::Qualified, None, seq![("crates/pcre2/src/matcher.rs"@, 37usize, 39usize, RelevanceLevel::Strong)]),
        ("G1Q10"@, "new constructor in Match"@, QueryType::Qualified, None, seq![("crates/matcher/src/lib.rs"@, 80usize, 93usize, RelevanceLevel::Strong)]),
        ("G2Q1"@, "search for text pattern in files using regular expression"@, QueryType::Semantic, None, seq![("crates/regex/src/matcher.rs"@, 409usize, 421usize, RelevanceLevel::Strong), ("crates/regex/src/matcher.rs"@, 53usize, 85usize, RelevanceLevel::Strong), ("crates/searcher/src/searcher/mod.rs"@, 645usize, 659usize, RelevanceLevel::Related)]),
        ("G2Q2"@, "recursively walk directory tree respecting gitignore rules"@, QueryType::Semantic, None, seq![("crates/ignore/src/walk.rs"@, 565usize, 602usize, RelevanceLevel::Strong), ("crates/ignore/src/walk.rs"@, 1037usize, 1045usize, RelevanceLevel::Strong), ("crates/ignore/src/gitignore.rs"@, 90usize, 118usize, RelevanceLevel::Related)]),
        ("G2Q3"@, "check if file path matches glob pattern"@, QueryType::Semantic, None, seq![("crates/globset/src/lib.rs"@, 342usize, 344usize, RelevanceLevel::Strong), ("crates/globset/src/lib.rs"@, 350usize, 360usize, RelevanceLevel::Strong)]),
        ("G2Q4"@, "extract matched results with surrounding context lines"@, QueryType::Semantic, None, seq![("crates/searcher/src/sink.rs"@, 142usize, 149usize, RelevanceLevel::Strong), ("crates/searcher/src/searcher/mod.rs"@, 399usize, 419usize, RelevanceLevel::Strong), ("crates/searcher/src/searcher/core.rs"@, 240usize, 274usize, RelevanceLevel::Related)]),
        ("G2Q5"@, "compile regular expression with case insensitive flag"@, QueryType::Semantic, None, seq![("crates/regex/src/matcher.rs"@, 103usize, 106usize, RelevanceLevel::Strong), ("crates/regex/src/config.rs"@, 25usize, 43usize, RelevanceLevel::Related)]),
        ("G2Q6"@, "match patterns that span across multiple lines"@, QueryType::Semantic, None, seq![("crates/searcher/src/searcher/mod.rs"@, 373usize, 391usize, RelevanceLevel::Strong), ("crates/searcher/src/searcher/glue.rs"@, 142usize, 164usize, RelevanceLevel::Strong)]),
        ("G2Q7"@, "use memory mapped file for efficient search performance"@, QueryType::Semantic, None, seq![("crates/searcher/src/searcher/mmap.rs"@, 13usize, 25usize, RelevanceLevel::Strong), ("crates/searcher/src/searcher/mmap.rs"@, 49usize, 56usize, RelevanceLevel::Strong)]),
        ("G2Q8"@, "read file incrementally with bounded memory line buffer"@, QueryType::Semantic, None, seq![("crates/searcher/src/line_buffer.rs"@, 294usize, 323usize, RelevanceLevel::Strong), ("crates/searcher/src/searcher/glue.rs"@, 11usize, 36usize, RelevanceLevel::Related)]),
        ("G2Q9"@, "detect and handle binary files during search"@, QueryType::Semantic, None, seq![("crates/searcher/src/line_buffer.rs"@, 42usize, 64usize, RelevanceLevel::Strong), ("crates/searcher/src/searcher/mod.rs"@, 34usize, 42usize, RelevanceLevel::Related)]),
        ("G2Q10"@, "filter files by extension or type like rust or python"@, QueryType::Semantic, None, seq![("crates/ignore/src/types.rs"@, 248usize, 289usize, RelevanceLevel::Strong), ("crates/ignore/src/types.rs"@, 378usize, 390usize, RelevanceLevel::Related)]),
        ("G2Q11"@, "compile PCRE2 pattern with advanced flags for lookaround"@, QueryType::Semantic, None, seq![("crates/pcre2/src/matcher.rs"@, 37usize, 85usize, RelevanceLevel::Strong), ("crates/pcre2/src/matcher.rs"@, 94usize, 117usize, RelevanceLevel::Related)]),
        ("G2Q12"@, "format search output with line numbers and file paths"@, QueryType::Semantic, None, seq![("crates/printer/src/standard.rs"@, 1176usize, 1200usize, RelevanceLevel::Strong), ("crates/printer/src/standard.rs"@, 1681usize, 1695usize, RelevanceLevel::Related)]),
        ("G2Q13"@, "parallel directory traversal using multiple threads"@, QueryType::Semantic, None, seq![("crates/ignore/src/walk.rs"@, 1306usize, 1325usize, RelevanceLevel::Strong), ("crates/ignore/src/walk.rs"@, 1355usize, 1365usize, RelevanceLevel::Strong)]),
        ("G2Q14"@, "parse gitignore file format with comments and negation"@, QueryType::Semantic, None, seq![("crates/ignore/src/gitignore.rs"@, 360usize, 420usize, RelevanceLevel::Strong)]),
        ("G2Q15"@, "handle search errors gracefully with unified error type"@, QueryType::Semantic, None, seq![("crates/searcher/src/searcher/mod.rs"@, 244usize, 266usize, RelevanceLevel::Strong), ("crates/regex/src/error.rs"@, 7usize, 41usize, RelevanceLevel::Related)]),
        ("G2Q16"@, "extract literal strings from regex for optimization"@, QueryType::Semantic, None, seq![("crates/regex/src/literal.rs"@, 40usize, 80usize, RelevanceLevel::Strong)]),
        ("G2Q17"@, "detect hidden files and directories starting with dot"@, QueryType::Semantic, None, seq![("crates/ignore/src/pathutil.rs"@, 10usize, 19usize, RelevanceLevel::Strong), ("crates/ignore/src/pathutil.rs"@, 27usize, 45usize, RelevanceLevel::Related)]),
        ("G2Q18"@, "override ignore rules with include or exclude globs"@, QueryType::Semantic, None, seq![("crates/ignore/src/overrides.rs"@, 119usize, 134usize, RelevanceLevel::Strong), ("crates/ignore/src/overrides.rs"@, 142usize, 146usize, RelevanceLevel::Related)]),
        ("G2Q19"@, "count total matches and bytes processed in search"@, QueryType::Semantic, None, seq![("crates/searcher/src/sink.rs"@, 340usize, 362usize, RelevanceLevel::Strong)]),
        ("G2Q20"@, "search stdin stream without file path"@, QueryType::Semantic, None, seq![("crates/searcher/src/searcher/mod.rs"@, 727usize, 765usize, RelevanceLevel::Strong)]),
        ("FZ-G1Q1-naming_case"@, "findAt in RegexMatcher"@, QueryType::Fuzzy, Some("naming_case"@), seq![("crates/regex/src/matcher.rs"@, 409usize, 421usize, RelevanceLevel::Strong)]),
        ("FZ-G1Q1-abbrev_expand"@, "find_at in regex matcher"@, QueryType::Fuzzy, Some("abbrev_expand"@), seq![("crates/regex/src/matcher.rs"@, 409usize, 421usize, RelevanceLevel::Strong)]),
        ("FZ-G1Q2-synonym"@, "create method on WalkBuilder"@, QueryType::Fuzzy, Some("synonym"@), seq![("crates/ignore/src/walk.rs"@, 565usize, 602usize, RelevanceLevel::Strong)]),
        ("FZ-G1Q3-naming_case"@, "isMatch in GlobSet"@, QueryType::Fuzzy, Some("naming_case"@), seq![("crates/globset/src/lib.rs"@, 342usize, 344usize, RelevanceLevel::Strong)]),
        ("FZ-G1Q3-paraphrase"@, "test whether a path matches in GlobSet"@, QueryType::Fuzzy, Some("paraphrase"@), seq![("crates/globset/src/lib.rs"@, 342usize, 344usize, RelevanceLevel::Strong)]),
        ("FZ-G1Q4-abbrev_expand"@, "matcher trait with find_at method"@, QueryType::Fuzzy, Some("abbrev_expand"@), seq![("crates/matcher/src/lib.rs"@, 546usize, 560usize, RelevanceLevel::Strong), ("crates/matcher/src/lib.rs"@, 571usize, 576usize, RelevanceLevel::Strong)]),
        ("FZ-G1Q5-naming_case"@, "searchPath in Searcher"@, QueryType::Fuzzy, Some("naming_case"@), seq![("crates/searcher/src/searcher/mod.rs"@, 643usize, 657usize, RelevanceLevel::Strong)]),
        ("FZ-G1Q5-paraphrase"@, "search a file path with Searcher"@, QueryType::Fuzzy, Some("paraphrase"@), seq![("crates/searcher/src/searcher/mod.rs"@, 643usize, 657usize, RelevanceLevel::Strong)]),
        ("FZ-G1Q6-naming_affix"@, "matched_handler method on Sink"@, QueryType::Fuzzy, Some("naming_affix"@), seq![("crates/searcher/src/sink.rs"@, 124usize, 128usize, RelevanceLevel::Strong)]),
        ("FZ-G1Q7-naming_affix"@, "new_builder constructor in TypesBuilder"@, QueryType::Fuzzy, Some("naming_affix"@), seq![("crates/ignore/src/types.rs"@, 316usize, 318usize, RelevanceLevel::Strong)]),
        ("FZ-G1Q7-paraphrase"@, "construct a fresh TypesBuilder"@, QueryType::Fuzzy, Some("paraphrase"@), seq![("crates/ignore/src/types.rs"@, 316usize, 318usize, RelevanceLevel::Strong)]),
        ("FZ-G1Q8-naming_affix"@, "new_gitignore constructor in GitignoreBuilder"@, QueryType::Fuzzy, Some("naming_affix"@), seq![("crates/ignore/src/gitignore.rs"@, 327usize, 333usize, RelevanceLevel::Strong)]),
        ("FZ-G1Q9-synonym"@, "compile method on Pcre2Matcher"@, QueryType::Fuzzy, Some("synonym"@), seq![("crates/pcre2/src/matcher.rs"@, 37usize, 39usize, RelevanceLevel::Strong)]),
        ("FZ-G1Q9-abbrev_expand"@, "build method on pcre2 matcher"@, QueryType::Fuzzy, Some("abbrev_expand"@), seq![("crates/pcre2/src/matcher.rs"@, 37usize, 39usize, RelevanceLevel::Strong)]),
        ("FZ-G1Q10-synonym"@, "make constructor in Match"@, QueryType::Fuzzy, Some("synonym"@), seq![("crates/matcher/src/lib.rs"@, 80usize, 93usize, RelevanceLevel::Strong)]),
    ]
}

pub fn ripgrep_relevance_judgments() -> (res: Vec<RelevanceJudgment>)
    ensures
        judgment_views(res@) == ripgrep_table(),
        res@.len() == 45,
        forall|i: int| 0 <= i < res@.len() ==> #[trigger] judgment_wf(res@[i]),
{

    let res = vec![
        // ==================== G1: Qualified Symbol Queries (10 total) ====================

        // G1Q1: RegexMatcher::find_at - core matching method
        RelevanceJudgment {
            id: String::from_str("G1Q1"),
            query_text: String::from_str("find_at in RegexMatcher"),
            query_type: QueryType::Qualified,
            fuzzy_subtype: None,
            relevant_ranges: vec![(
                SourceRange {
                    file: String::from_str("crates/regex/src/matcher.rs"),
                    start_line: 409,
                    end_line: 421,
                },
                RL::Strong,
            )],
        },
        // G1Q2: WalkBuilder::build - directory iterator builder
        RelevanceJudgment {
            id: String::from_str("G1Q2"),
            query_text: String::from_str("build method on WalkBuilder"),
            query_type: QueryType::Qualified,
            fuzzy_subtype: None,
            relevant_ranges: vec![(
                SourceRange {
                    file: String::from_str("crates/ignore/src/walk.rs"),
                    start_line: 565,
                    end_line: 602,
                },
                RL::Strong,
            )],
        },
        // G1Q3: GlobSet::is_match - glob pattern matching
        RelevanceJudgment {
            id: String::from_str("G1Q3"),
            query_text: String::from_str("is_match in GlobSet"),
            query_type: QueryType::Qualified,
            fuzzy_subtype: None,
            relevant_ranges: vec![(
                SourceRange {
                    file: String::from_str("crates/globset/src/lib.rs"),
                    start_line: 342,
                    end_line: 344,
                },
                RL::Strong,
            )],
        },
        // G1Q4: Matcher trait - core matching interface
        RelevanceJudgment {
            id: String::from_str("G1Q4"),
            query_text: String::from_str("Matcher trait with find_at method"),
            query_type: QueryType::Qualified,
            fuzzy_subtype: None,
            relevant_ranges: vec![
                (
                    SourceRange {
                        file: String::from_str("crates/matcher/src/lib.rs"),
                        start_line: 546,
                        end_line: 560,
                    },
                    RL::Strong,
                ),
                (
                    SourceRange {
                        file: String::from_str("crates/matcher/src/lib.rs"),
                        start_line: 571,
                        end_line: 576,
                    },
                    RL::Strong,
                ),
            ],
        },
        // G1Q5: Searcher::search_path - main search entry point
        RelevanceJudgment {
            id: String::from_str("G1Q5"),
            query_text: String::from_str("search_path in Searcher"),
            query_type: QueryType::Qualified,
            fuzzy_subtype: None,
            relevant_ranges: vec![(
                SourceRange {
                    file: String::from_str("crates/searcher/src/searcher/mod.rs"),
                    start_line: 643,
                    end_line: 657,
                },
                RL::Strong,
            )],
        },
        // G1Q6: Sink::matched - match handling callback
        RelevanceJudgment {
            id: String::from_str("G1Q6"),
            query_text: String::from_str("matched method on Sink"),
            query_type: QueryType::Qualified,
            fuzzy_subtype: None,
            relevant_ranges: vec![(
                SourceRange {
                    file: String::from_str("crates/searcher/src/sink.rs"),
                    start_line: 124,
                    end_line: 128,
                },
                RL::Strong,
            )],
        },
        // G1Q7: TypesBuilder::new - file type matcher builder
        RelevanceJudgment {
            id: String::from_str("G1Q7"),
            query_text: String::from_str("new constructor in TypesBuilder"),
            query_type: QueryType::Qualified,
            fuzzy_subtype: None,
            relevant_ranges: vec![(
                SourceRange {
                    file: String::from_str("crates/ignore/src/types.rs"),
                    start_line: 316,
                    end_line: 318,
                },
                RL::Strong,
            )],
        },
        // G1Q8: GitignoreBuilder::new - gitignore parser builder
        RelevanceJudgment {
            id: String::from_str("G1Q8"),
            query_text: String::from_str("new constructor in GitignoreBuilder"),
            query_type: QueryType::Qualified,
            fuzzy_subtype: None,
            relevant_ranges: vec![(
                SourceRange {
                    file: String::from_str("crates/ignore/src/gitignore.rs"),
                    start_line: 327,
                    end_line: 333,
                },
                RL::Strong,
            )],
        },
        // G1Q9: Pcre2Matcher::build - PCRE2 regex compiler
        RelevanceJudgment {
            id: String::from_str("G1Q9"),
            query_text: String::from_str("build method on Pcre2Matcher"),
            query_type: QueryType::Qualified,
            fuzzy_subtype: None,
            relevant_ranges: vec![(
                SourceRange {
                    file: String::from_str("crates/pcre2/src/matcher.rs"),
                    start_line: 37,
                    end_line: 39,
                },
                RL::Strong,
            )],
        },
        // G1Q10: Match::new - match range constructor
        RelevanceJudgment {
            id: String::from_str("G1Q10"),
            query_text: String::from_str("new constructor in Match"),
            query_type: QueryType::Qualified,
            fuzzy_subtype: None,
            relevant_ranges: vec![(
                SourceRange {
                    file: String::from_str("crates/matcher/src/lib.rs"),
                    start_line: 80,
                    end_line: 93,
                },
                RL::Strong,
            )],
        },
        // ==================== G2: Semantic Queries (20 total) ====================

        // G2Q1: search with regex - core regex matching
        RelevanceJudgment {
            id: String::from_str("G2Q1"),
            query_text: String::from_str("search for text pattern in files using regular expression"),
            query_type: QueryType::Semantic,
            fuzzy_subtype: None,
            relevant_ranges: vec![
                (
                    SourceRange {
                        file: String::from_str("crates/regex/src/matcher.rs"),
                        start_line: 409,
                        end_line: 421,
                    },
                    RL::Strong,
                ),
                (
                    SourceRange {
                        file: String::from_str("crates/regex/src/matcher.rs"),
                        start_line: 53,
                        end_line: 85,
                    },
                    RL::Strong,
                ),
                (
                    SourceRange {
                        file: String::from_str("crates/searcher/src/searcher/mod.rs"),
                        start_line: 645,
                        end_line: 659,
                    },
                    RL::Related,
                ),
            ],
        },
        // G2Q2: walk directory tree - recursive file traversal
        RelevanceJudgment {
            id: String::from_str("G2Q2"),
            query_text: String::from_str("recursively walk directory tree respecting gitignore rules"),
            query_type: QueryType::Semantic,
            fuzzy_subtype: None,
            relevant_ranges: vec![
                (
                    SourceRange {
                        file: String::from_str("crates/ignore/src/walk.rs"),
                        start_line: 565,
                        end_line: 602,
                    },
                    RL::Strong,
                ),
                (
                    SourceRange {
                        file: String::from_str("crates/ignore/src/walk.rs"),
                        start_line: 1037,
                        end_line: 1045,
                    },
                    RL::Strong,
                ),
                (
                    SourceRange {
                        file: String::from_str("crates/ignore/src/gitignore.rs"),
                        start_line: 90,
                        end_line: 118,
                    },
                    RL::Related,
                ),
            ],
        },
        // G2Q3: glob pattern match - file path glob matching
        RelevanceJudgment {
            id: String::from_str("G2Q3"),
            query_text: String::from_str("check if file path matches glob pattern"),
            query_type: QueryType::Semantic,
            fuzzy_subtype: None,
            relevant_ranges: vec![
                (
                    SourceRange {
                        file: String::from_str("crates/globset/src/lib.rs"),
                        start_line: 342,
                        end_line: 344,
                    },
                    RL::Strong,
                ),
                (
                    SourceRange {
                        file: String::from_str("crates/globset/src/lib.rs"),
                        start_line: 350,
                        end_line: 360,
                    },
                    RL::Strong,
                ),
            ],
        },
        // G2Q4: extract context lines - surrounding line extraction
        RelevanceJudgment {
            id: String::from_str("G2Q4"),
            query_text: String::from_str("extract matched results with surrounding context lines"),
            query_type: QueryType::Semantic,
            fuzzy_subtype: None,
            relevant_ranges: vec![
                (
                    SourceRange {
                        file: String::from_str("crates/searcher/src/sink.rs"),
                        start_line: 142,
                        end_line: 149,
                    },
                    RL::Strong,
                ),
                (
                    SourceRange {
                        file: String::from_str("crates/searcher/src/searcher/mod.rs"),
                        start_line: 399,
                        end_line: 419,
                    },
                    RL::Strong,
                ),
                (
                    SourceRange {
                        file: String::from_str("crates/searcher/src/searcher/core.rs"),
                        start_line: 240,
                        end_line: 274,
                    },
                    RL::Related,
                ),
            ],
        },
        // G2Q5: compile regex with flags - case insensitive compilation
        RelevanceJudgment {
            id: String::from_str("G2Q5"),
            query_text: String::from_str("compile regular expression with case insensitive flag"),
            query_type: QueryType::Semantic,
            fuzzy_subtype: None,
            relevant_ranges: vec![
                (
                    SourceRange {
                        file: String::from_str("crates/regex/src/matcher.rs"),
                        start_line: 103,
                        end_line: 106,
                    },
                    RL::Strong,
                ),
                (
                    SourceRange {
                        file: String::from_str("crates/regex/src/config.rs"),
                        start_line: 25,
                        end_line: 43,
                    },
                    RL::Related,
                ),
            ],
        },
        // G2Q6: multi-line pattern matching - patterns spanning lines
        RelevanceJudgment {
            id: String::from_str("G2Q6"),
            query_text: String::from_str("match patterns that span across multiple lines"),
            query_type: QueryType::Semantic,
            fuzzy_subtype: None,
            relevant_ranges: vec![
                (
                    SourceRange {
                        file: String::from_str("crates/searcher/src/searcher/mod.rs"),
                        start_line: 373,
                        end_line: 391,
                    },
                    RL::Strong,
                ),
                (
                    SourceRange {
                        file: String::from_str("crates/searcher/src/searcher/glue.rs"),
                        start_line: 142,
                        end_line: 164,
                    },
                    RL::Strong,
                ),
            ],
        },
        // G2Q7: memory-mapped file search - mmap optimization
        RelevanceJudgment {
            id: String::from_str("G2Q7"),
            query_text: String::from_str("use memory mapped file for efficient search performance"),
            query_type: QueryType::Semantic,
            fuzzy_subtype: None,
            relevant_ranges: vec![
                (
                    SourceRange {
                        file: String::from_str("crates/searcher/src/searcher/mmap.rs"),
                        start_line: 13,
                        end_line: 25,
                    },
                    RL::Strong,
                ),
                (
                    SourceRange {
                        file: String::from_str("crates/searcher/src/searcher/mmap.rs"),
                        start_line: 49,
                        end_line: 56,
                    },
                    RL::Strong,
                ),
            ],
        },
        // G2Q8: line buffer reading - incremental file reading
        RelevanceJudgment {
            id: String::from_str("G2Q8"),
            query_text: String::from_str("read file incrementally with bounded memory line buffer"),
            query_type: QueryType::Semantic,
            fuzzy_subtype: None,
            relevant_ranges: vec![
                (
                    SourceRange {
                        file: String::from_str("crates/searcher/src/line_buffer.rs"),
                        start_line: 294,
                        end_line: 323,
                    },
                    RL::Strong,
                ),
                (
                    SourceRange {
                        file: String::from_str("crates/searcher/src/searcher/glue.rs"),
                        start_line: 11,
                        end_line: 36,
                    },
                    RL::Related,
                ),
            ],
        },
        // G2Q9: binary file detection - heuristic binary detection
        RelevanceJudgment {
            id: String::from_str("G2Q9"),
            query_text: String::from_str("detect and handle binary files during search"),
            query_type: QueryType::Semantic,
            fuzzy_subtype: None,
            relevant_ranges: vec![
                (
                    SourceRange {
                        file: String::from_str("crates/searcher/src/line_buffer.rs"),
                        start_line: 42,
                        end_line: 64,
                    },
                    RL::Strong,
                ),
                (
                    SourceRange {
                        file: String::from_str("crates/searcher/src/searcher/mod.rs"),
                        start_line: 34,
                        end_line: 42,
                    },
                    RL::Related,
                ),
            ],
        },
        // G2Q10: filter by file type - extension/type based filtering
        RelevanceJudgment {
            id: String::from_str("G2Q10"),
            query_text: String::from_str("filter files by extension or type like rust or python"),
            query_type: QueryType::Semantic,
            fuzzy_subtype: None,
            relevant_ranges: vec![
                (
                    SourceRange {
                        file: String::from_str("crates/ignore/src/types.rs"),
                        start_line: 248,
                        end_line: 289,
                    },
                    RL::Strong,
                ),
                (
                    SourceRange {
                        file: String::from_str("crates/ignore/src/types.rs"),
                        start_line: 378,
                        end_line: 390,
                    },
                    RL::Related,
                ),
            ],
        },
        // G2Q11: PCRE2 pattern compilation - advanced regex features
        RelevanceJudgment {
            id: String::from_str("G2Q11"),
            query_text: String::from_str("compile PCRE2 pattern with advanced flags for lookaround"),
            query_type: QueryType::Semantic,
            fuzzy_subtype: None,
            relevant_ranges: vec![
                (
                    SourceRange {
                        file: String::from_str("crates/pcre2/src/matcher.rs"),
                        start_line: 37,
                        end_line: 85,
                    },
                    RL::Strong,
                ),
                (
                    SourceRange {
                        file: String::from_str("crates/pcre2/src/matcher.rs"),
                        start_line: 94,
                        end_line: 117,
                    },
                    RL::Related,
                ),
            ],
        },
        // G2Q12: format output with line numbers - grep-style output
        RelevanceJudgment {
            id: String::from_str("G2Q12"),
            query_text: String::from_str("format search output with line numbers and file paths"),
            query_type: QueryType::Semantic,
            fuzzy_subtype: None,
            relevant_ranges: vec![
                (
                    SourceRange {
                        file: String::from_str("crates/printer/src/standard.rs"),
                        start_line: 1176,
                        end_line: 1200,
                    },
                    RL::Strong,
                ),
                (
                    SourceRange {
                        file: String::from_str("crates/printer/src/standard.rs"),
                        start_line: 1681,
                        end_line: 1695,
                    },
                    RL::Related,
                ),
            ],
        },
        // G2Q13: parallel directory traversal - concurrent file walking
        RelevanceJudgment {
            id: String::from_str("G2Q13"),
            query_text: String::from_str("parallel directory traversal using multiple threads"),
            query_type: QueryType::Semantic,
            fuzzy_subtype: None,
            relevant_ranges: vec![
                (
                    SourceRange {
                        file: String::from_str("crates/ignore/src/walk.rs"),
                        start_line: 1306,
                        end_line: 1325,
                    },
                    RL::Strong,
                ),
                (
                    SourceRange {
                        file: String::from_str("crates/ignore/src/walk.rs"),
                        start_line: 1355,
                        end_line: 1365,
                    },
                    RL::Strong,
                ),
            ],
        },
        // G2Q14: parse gitignore format - gitignore file parsing
        RelevanceJudgment {
            id: String::from_str("G2Q14"),
            query_text: String::from_str("parse gitignore file format with comments and negation"),
            query_type: QueryType::Semantic,
            fuzzy_subtype: None,
            relevant_ranges: vec![(
                SourceRange {
                    file: String::from_str("crates/ignore/src/gitignore.rs"),
                    start_line: 360,
                    end_line: 420,
                },
                RL::Strong,
            )],
        },
        // G2Q15: handle search errors - unified error handling
        RelevanceJudgment {
            id: String::from_str("G2Q15"),
            query_text: String::from_str("handle search errors gracefully with unified error type"),
            query_type: QueryType::Semantic,
            fuzzy_subtype: None,
            relevant_ranges: vec![
                (
                    SourceRange {
                        file: String::from_str("crates/searcher/src/searcher/mod.rs"),
                        start_line: 244,
                        end_line: 266,
                    },
                    RL::Strong,
                ),
                (
                    SourceRange {
                        file: String::from_str("crates/regex/src/error.rs"),
                        start_line: 7,
                        end_line: 41,
                    },
                    RL::Related,
                ),
            ],
        },
        // G2Q16: extract literals from regex - regex optimization
        RelevanceJudgment {
            id: String::from_str("G2Q16"),
            query_text: String::from_str("extract literal strings from regex for optimization"),
            query_type: QueryType::Semantic,
            fuzzy_subtype: None,
            relevant_ranges: vec![(
                SourceRange {
                    file: String::from_str("crates/regex/src/literal.rs"),
                    start_line: 40,
                    end_line: 80,
                },
                RL::Strong,
            )],
        },
        // G2Q17: detect hidden files - dotfile detection
        RelevanceJudgment {
            id: String::from_str("G2Q17"),
            query_text: String::from_str("detect hidden files and directories starting with dot"),
            query_type: QueryType::Semantic,
            fuzzy_subtype: None,
            relevant_ranges: vec![
                (
                    SourceRange {
                        file: String::from_str("crates/ignore/src/pathutil.rs"),
                        start_line: 10,
                        end_line: 19,
                    },
                    RL::Strong,
                ),
                (
                    SourceRange {
                        file: String::from_str("crates/ignore/src/pathutil.rs"),
                        start_line: 27,
                        end_line: 45,
                    },
                    RL::Related,
                ),
            ],
        },
        // G2Q18: override ignore rules - include exclude globs
        RelevanceJudgment {
            id: String::from_str("G2Q18"),
            query_text: String::from_str("override ignore rules with include or exclude globs"),
            query_type: QueryType::Semantic,
            fuzzy_subtype: None,
            relevant_ranges: vec![
                (
                    SourceRange {
                        file: String::from_str("crates/ignore/src/overrides.rs"),
                        start_line: 119,
                        end_line: 134,
                    },
                    RL::Strong,
                ),
                (
                    SourceRange {
                        file: String::from_str("crates/ignore/src/overrides.rs"),
                        start_line: 142,
                        end_line: 146,
                    },
                    RL::Related,
                ),
            ],
        },
        // G2Q19: count matches and bytes - search statistics
        RelevanceJudgment {
            id: String::from_str("G2Q19"),
            query_text: String::from_str("count total matches and bytes processed in search"),
            query_type: QueryType::Semantic,
            fuzzy_subtype: None,
            relevant_ranges: vec![(
                SourceRange {
                    file: String::from_str("crates/searcher/src/sink.rs"),
                    start_line: 340,
                    end_line: 362,
                },
                RL::Strong,
            )],
        },
        // G2Q20: search stdin stream - stream search support
        RelevanceJudgment {
            id: String::from_str("G2Q20"),
            query_text: String::from_str("search stdin stream without file path"),
            query_type: QueryType::Semantic,
            fuzzy_subtype: None,
            relevant_ranges: vec![(
                SourceRange {
                    file: String::from_str("crates/searcher/src/searcher/mod.rs"),
                    start_line: 727,
                    end_line: 765,
                },
                RL::Strong,
            )],
        },
        // ==================== FZ: Fuzzy Queries (15 total) ====================
        // Lexical perturbations of G1 sources; same relevant_ranges.

        // FZ-G1Q1: RegexMatcher::find_at
        RelevanceJudgment {
            id: String::from_str("FZ-G1Q1-naming_case"),
            query_text: String::from_str("findAt in RegexMatcher"),
            query_type: QueryType::Fuzzy,
            fuzzy_subtype: Some(String::from_str("naming_case")),
            relevant_ranges: vec![(
                SourceRange {
                    file: String::from_str("crates/regex/src/matcher.rs"),
                    start_line: 409,
                    end_line: 421,
                },
                RL::Strong,
            )],
        },
        RelevanceJudgment {
            id: String::from_str("FZ-G1Q1-abbrev_expand"),
            query_text: String::from_str("find_at in regex matcher"),
            query_type: QueryType::Fuzzy,
            fuzzy_subtype: Some(String::from_str("abbrev_expand")),
            relevant_ranges: vec![(
                SourceRange {
                    file: String::from_str("crates/regex/src/matcher.rs"),
                    start_line: 409,
                    end_line: 421,
                },
                RL::Strong,
            )],
        },
        // FZ-G1Q2: WalkBuilder::build
        RelevanceJudgment {
            id: String::from_str("FZ-G1Q2-synonym"),
            query_text: String::from_str("create method on WalkBuilder"),
            query_type: QueryType::Fuzzy,
            fuzzy_subtype: Some(String::from_str("synonym")),
            relevant_ranges: vec![(
                SourceRange {
                    file: String::from_str("crates/ignore/src/walk.rs"),
                    start_line: 565,
                    end_line: 602,
                },
                RL::Strong,
            )],
        },
        // FZ-G1Q3: GlobSet::is_match
        RelevanceJudgment {
            id: String::from_str("FZ-G1Q3-naming_case"),
            query_text: String::from_str("isMatch in GlobSet"),
            query_type: QueryType::Fuzzy,
            fuzzy_subtype: Some(String::from_str("naming_case")),
            relevant_ranges: vec![(
                SourceRange {
                    file: String::from_str("crates/globset/src/lib.rs"),
                    start_line: 342,
                    end_line: 344,
                },
                RL::Strong,
            )],
        },
        RelevanceJudgment {
            id: String::from_str("FZ-G1Q3-paraphrase"),
            query_text: String::from_str("test whether a path matches in GlobSet"),
            query_type: QueryType::Fuzzy,
            fuzzy_subtype: Some(String::from_str("paraphrase")),
            relevant_ranges: vec![(
                SourceRange {
                    file: String::from_str("crates/globset/src/lib.rs"),
                    start_line: 342,
                    end_line: 344,
                },
                RL::Strong,
            )],
        },
        // FZ-G1Q4: Matcher trait
        RelevanceJudgment {
            id: String::from_str("FZ-G1Q4-abbrev_expand"),
            query_text: String::from_str("matcher trait with find_at method"),
            query_type: QueryType::Fuzzy,
            fuzzy_subtype: Some(String::from_str("abbrev_expand")),
            relevant_ranges: vec![
                (
                    SourceRange {
                        file: String::from_str("crates/matcher/src/lib.rs"),
                        start_line: 546,
                        end_line: 560,
                    },
                    RL::Strong,
                ),
                (
                    SourceRange {
                        file: String::from_str("crates/matcher/src/lib.rs"),
                        start_line: 571,
                        end_line: 576,
                    },
                    RL::Strong,
                ),
            ],
        },
        // FZ-G1Q5: Searcher::search_path
        RelevanceJudgment {
            id: String::from_str("FZ-G1Q5-naming_case"),
            query_text: String::from_str("searchPath in Searcher"),
            query_type: QueryType::Fuzzy,
            fuzzy_subtype: Some(String::from_str("naming_case")),
            relevant_ranges: vec![(
                SourceRange {
                    file: String::from_str("crates/searcher/src/searcher/mod.rs"),
                    start_line: 643,
                    end_line: 657,
                },
                RL::Strong,
            )],
        },
        RelevanceJudgment {
            id: String::from_str("FZ-G1Q5-paraphrase"),
            query_text: String::from_str("search a file path with Searcher"),
            query_type: QueryType::Fuzzy,
            fuzzy_subtype: Some(String::from_str("paraphrase")),
            relevant_ranges: vec![(
                SourceRange {
                    file: String::from_str("crates/searcher/src/searcher/mod.rs"),
                    start_line: 643,
                    end_line: 657,
                },
                RL::Strong,
            )],
        },
        // FZ-G1Q6: Sink::matched
        RelevanceJudgment {
            id: String::from_str("FZ-G1Q6-naming_affix"),
            query_text: String::from_str("matched_handler method on Sink"),
            query_type: QueryType::Fuzzy,
            fuzzy_subtype: Some(String::from_str("naming_affix")),
            relevant_ranges: vec![(
                SourceRange {
                    file: String::from_str("crates/searcher/src/sink.rs"),
                    start_line: 124,
                    end_line: 128,
                },
                RL::Strong,
            )],
        },
        // FZ-G1Q7: TypesBuilder::new
        RelevanceJudgment {
            id: String::from_str("FZ-G1Q7-naming_affix"),
            query_text: String::from_str("new_builder constructor in TypesBuilder"),
            query_type: QueryType::Fuzzy,
            fuzzy_subtype: Some(String::from_str("naming_affix")),
            relevant_ranges: vec![(
                SourceRange {
                    file: String::from_str("crates/ignore/src/types.rs"),
                    start_line: 316,
                    end_line: 318,
                },
                RL::Strong,
            )],
        },
        RelevanceJudgment {
            id: String::from_str("FZ-G1Q7-paraphrase"),
            query_text: String::from_str("construct a fresh TypesBuilder"),
            query_type: QueryType::Fuzzy,
            fuzzy_subtype: Some(String::from_str("paraphrase")),
            relevant_ranges: vec![(
                SourceRange {
                    file: String::from_str("crates/ignore/src/types.rs"),
                    start_line: 316,
                    end_line: 318,
                },
                RL::Strong,
            )],
        },
        // FZ-G1Q8: GitignoreBuilder::new
        RelevanceJudgment {
            id: String::from_str("FZ-G1Q8-naming_affix"),
            query_text: String::from_str("new_gitignore constructor in GitignoreBuilder"),
            query_type: QueryType::Fuzzy,
            fuzzy_subtype: Some(String::from_str("naming_affix")),
            relevant_ranges: vec![(
                SourceRange {
                    file: String::from_str("crates/ignore/src/gitignore.rs"),
                    start_line: 327,
                    end_line: 333,
                },
                RL::Strong,
            )],
        },
        // FZ-G1Q9: Pcre2Matcher::build
        RelevanceJudgment {
            id: String::from_str("FZ-G1Q9-synonym"),
            query_text: String::from_str("compile method on Pcre2Matcher"),
            query_type: QueryType::Fuzzy,
            fuzzy_subtype: Some(String::from_str("synonym")),
            relevant_ranges: vec![(
                SourceRange {
                    file: String::from_str("crates/pcre2/src/matcher.rs"),
                    start_line: 37,
                    end_line: 39,
                },
                RL::Strong,
            )],
        },
        RelevanceJudgment {
            id: String::from_str("FZ-G1Q9-abbrev_expand"),
            query_text: String::from_str("build method on pcre2 matcher"),
            query_type: QueryType::Fuzzy,
            fuzzy_subtype: Some(String::from_str("abbrev_expand")),
            relevant_ranges: vec![(
                SourceRange {
                    file: String::from_str("crates/pcre2/src/matcher.rs"),
                    start_line: 37,
                    end_line: 39,
                },
                RL::Strong,
            )],
        },
        // FZ-G1Q10: Match::new
        RelevanceJudgment {
            id: String::from_str("FZ-G1Q10-synonym"),
            query_text: String::from_str("make constructor in Match"),
            query_type: QueryType::Fuzzy,
            fuzzy_subtype: Some(String::from_str("synonym")),
            relevant_ranges: vec![(
                SourceRange {
                    file: String::from_str("crates/matcher/src/lib.rs"),
                    start_line: 80,
                    end_line: 93,
                },
                RL::Strong,
            )],
        },
    ];
    proof {
        assert(judgment_views(res@) =~~= ripgrep_table());
    }
    res
}

} // verus!
