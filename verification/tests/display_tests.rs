use cce_e2e::display_sections::{build_sections, group_by_source, render_display_doc, DisplayChunk, DisplaySection};
use cce_e2e::nl_text_exporter::ChunkPath;

fn chunk(path: ChunkPath, text: &str, keywords: &[&str], title: &str, range: (usize, usize)) -> DisplayChunk {
    let path_name = match path {
        ChunkPath::Bm25 => "bm25",
        ChunkPath::Embedding => "embedding",
    };
    DisplayChunk {
        path,
        path_name: path_name.to_string(),
        chunk_index: 0,
        text: text.to_string(),
        bm25_title: Some(title.to_string()),
        line_range: Some(range),
        group_type: "standalone".to_string(),
        entity_kind: Some("function".to_string()),
        fragment: None,
        split_reason: Some("not_split".to_string()),
        keywords: keywords.iter().map(|k| k.to_string()).collect(),
        related: Vec::new(),
    }
}

#[test]
fn duplicate_sections_keep_the_richest() {
    let groups = vec![
        (
            "group_a".to_string(),
            vec![
                chunk(ChunkPath::Bm25, "alpha short code", &["alpha"], "duplicate_entity", (1, 2)),
                chunk(ChunkPath::Embedding, "alpha short semantic", &["alpha"], "duplicate_entity", (1, 2)),
            ],
        ),
        (
            "group_b".to_string(),
            vec![
                chunk(ChunkPath::Bm25, "beta very detailed code description with extra terms", &["beta"], "duplicate_entity", (1, 2)),
                chunk(ChunkPath::Embedding, "beta very detailed semantic description with extra terms", &["beta"], "duplicate_entity", (1, 2)),
            ],
        ),
    ];
    let sections = build_sections(&groups, None, true);
    assert_eq!(sections.len(), 1);
    let s = &sections[0];
    assert_eq!(s.entity_name, "duplicate_entity");
    assert_eq!(s.line_info, "lines 1-2");
    assert_eq!(s.code_texts, vec!["beta very detailed code description with extra terms"]);
    assert_eq!(s.nl_texts, vec!["beta very detailed semantic description with extra terms"]);
    assert_eq!(s.keywords, vec!["beta"]);
    assert_eq!(s.chunk_paths, vec!["bm25", "embedding"]);
}

#[test]
fn sections_sorted_trimmed_and_filtered() {
    let mut late = chunk(ChunkPath::Embedding, "  second  ", &["Main", "main", "run"], "late", (9, 9));
    late.chunk_index = 1;
    let mut early_part = chunk(ChunkPath::Embedding, "first\n", &[], "late", (9, 9));
    early_part.chunk_index = 0;
    early_part.fragment = Some((0, 2));
    let groups = vec![
        ("g1".to_string(), vec![late, early_part]),
        ("g2".to_string(), vec![chunk(ChunkPath::Bm25, "fn main() {}", &[], "main", (3, 5))]),
        ("g3".to_string(), vec![chunk(ChunkPath::Bm25, "only code", &[], "hidden", (1, 1))]),
    ];
    // only the embedding path: g2 and g3 have nothing to show
    let sections = build_sections(&groups, Some(ChunkPath::Embedding), false);
    assert_eq!(sections.len(), 1);
    assert_eq!(sections[0].nl_texts, vec!["first", "second"]);
    assert!(sections[0].code_texts.is_empty());
    assert!(sections[0].keywords.is_empty());
    assert_eq!(sections[0].line_info, "line 9");
    assert_eq!(sections[0].fragment_info, Some("fragment 1/2".to_string()));

    let all = build_sections(&groups, None, true);
    let names: Vec<&str> = all.iter().map(|s| s.entity_name.as_str()).collect();
    assert_eq!(names, vec!["hidden", "main", "late"]);
    assert_eq!(all[2].keywords, vec!["Main", "run"]);
    // without embedding chunks, BM25 chunks are shown as natural language too
    assert_eq!(all[1].nl_texts, vec!["fn main() {}"]);
}

fn section(name: &str, code: &[&str], nl: &[&str]) -> DisplaySection {
    DisplaySection {
        entity_name: name.to_string(),
        line_info: "lines 3-5".to_string(),
        code_texts: code.iter().map(|t| t.to_string()).collect(),
        nl_texts: nl.iter().map(|t| t.to_string()).collect(),
        keywords: vec!["main".to_string(), "run".to_string()],
        start_line: 3,
        group_type: "standalone".to_string(),
        entity_kind: "function".to_string(),
        fragment_info: Some("fragment 1/2".to_string()),
        split_reason: Some("not_split".to_string()),
        chunk_paths: vec!["bm25".to_string(), "embedding".to_string()],
        related_groups: vec![("g2".to_string(), "calls".to_string(), 0)],
    }
}

#[test]
fn display_document_layout() {
    let first = section("main", &["fn main() {}"], &["Entry point.\n", "Runs."]);
    let mut second = section("", &[], &["helper"]);
    second.split_reason = Some("too_long".to_string());
    second.related_groups.clear();
    second.keywords.clear();
    let doc = render_display_doc("src/main.rs", Some("The program."), &[first, second], None).unwrap();
    let expected = [
        "src/main.rs\n",
        "doc:\nThe program.\n",
        "---\n",
        "main (lines 3-5)\n",
        "  kind: function\n",
        "  group: standalone\n",
        "  chunk_path: bm25, embedding\n",
        "  fragment 1/2\n",
        "  related_groups: g2 (calls)\n",
        "keywords: main, run\n",
        "code:\nfn main() {}\n",
        "\nnl:\nEntry point.\n\nRuns.\n",
        "---\n",
        "(lines 3-5)\n",
        "  kind: function\n",
        "  group: standalone\n",
        "  chunk_path: bm25, embedding\n",
        "  fragment 1/2\n",
        "  split_reason: too_long\n",
        "nl:\nhelper\n",
    ]
    .concat();
    assert_eq!(doc, expected);

    // a blank documentation comment is left out; with only the embedding
    // path the natural-language heading is left out too
    let first = section("main", &["fn main() {}"], &["Entry point.\n", "Runs."]);
    let doc = render_display_doc("a.rs", Some("  \n"), &[first], Some(ChunkPath::Embedding)).unwrap();
    assert!(doc.starts_with("a.rs\n---\nmain (lines 3-5)\n"));
    assert!(doc.ends_with("code:\nfn main() {}\nEntry point.\n\nRuns.\n"));

    assert_eq!(
        render_display_doc("a.rs", None, &[], None),
        Err("No display content found in chunks".to_string())
    );
}

#[test]
fn groups_follow_their_first_line() {
    let sources = vec![
        ("a".to_string(), 10),
        ("b".to_string(), 3),
        ("a".to_string(), 12),
        ("c".to_string(), 1),
        ("b".to_string(), 7),
        ("d".to_string(), 3),
    ];
    let groups = group_by_source(&sources);
    assert_eq!(
        groups,
        vec![
            ("c".to_string(), vec![3]),
            ("b".to_string(), vec![1, 4]),
            ("d".to_string(), vec![5]),
            ("a".to_string(), vec![0, 2]),
        ]
    );
    assert!(group_by_source(&[]).is_empty());
}
