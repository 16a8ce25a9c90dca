use cce_e2e::infra::scorer::{form_matches, tantivy_fieldnorm, TermOperator};
use cce_e2e::infra::term_index::{
    build_term_index, Field, QueryForms, QueryTerm, TokenizedDocument,
};

fn toks(words: &[&str]) -> Vec<String> {
    words.iter().map(|w| w.to_string()).collect()
}

fn term(text: &str) -> QueryTerm {
    QueryTerm {
        text: text.to_string(),
        is_split: false,
    }
}

fn docs() -> Vec<TokenizedDocument> {
    vec![
        TokenizedDocument {
            title: toks(&["alpha"]),
            keywords: toks(&["alpha"]),
            content: toks(&["alpha", "beta", "gamma", "delta"]),
        },
        TokenizedDocument {
            title: toks(&["beta"]),
            keywords: toks(&[]),
            content: toks(&["beta", "epsilon", "beta"]),
        },
        TokenizedDocument {
            title: toks(&["gamma"]),
            keywords: toks(&["gamma"]),
            content: toks(&["gamma", "delta", "zeta"]),
        },
    ]
}

#[test]
fn field_index_round_trip() {
    for field in Field::all() {
        assert_eq!(Field::from_index(field.index()), Some(field));
    }
    assert_eq!(Field::Content.index(), 2);
    assert_eq!(Field::from_index(3), None);
}

#[test]
fn query_forms_report_whether_a_term_exists() {
    // `is_empty` answers whether any term exists across both forms.
    assert!(!QueryForms::default().is_empty());
    let forms = QueryForms {
        raw: vec![],
        clean: vec![term("x")],
    };
    assert!(forms.is_empty());
}

#[test]
fn fieldnorm_quantization() {
    for n in 0..24 {
        assert_eq!(tantivy_fieldnorm(n), n);
    }
    assert_eq!(tantivy_fieldnorm(31), 31);
    assert_eq!(tantivy_fieldnorm(33), 33);
    assert_eq!(tantivy_fieldnorm(41), 40);
    assert_eq!(tantivy_fieldnorm(43), 42);
    assert_eq!(tantivy_fieldnorm(100), 96);
    assert_eq!(tantivy_fieldnorm(u32::MAX), 2013265944);
}

#[test]
fn term_index_statistics() {
    let index = build_term_index(&docs());
    assert_eq!(index.n_docs, 3);
    assert_eq!(index.doc_lengths, vec![[1, 1, 4], [1, 0, 3], [1, 1, 3]]);
    assert_eq!(index.field_doc_count, [3, 2, 3]);
    assert_eq!(index.field_total_tokens, [3, 2, 10]);
    let beta = index.term_position(&"beta".to_string()).expect("beta indexed");
    let stats = &index.terms[beta];
    assert_eq!(stats.postings, vec![(0, 2, 1), (1, 0, 1), (1, 2, 2)]);
    assert_eq!(stats.field_df, [1, 0, 2]);
    assert_eq!(index.term_position(&"omega".to_string()), None);
    assert_eq!(index.terms.len(), 6);
}

#[test]
fn or_and_form_matching() {
    let index = build_term_index(&docs());
    let all = [true, true, true];
    let or = form_matches(&index, &[term("alpha"), term("zeta")], &all, TermOperator::Or);
    assert_eq!(or, vec![true, false, true]);
    let and = form_matches(&index, &[term("beta"), term("gamma")], &all, TermOperator::And);
    assert_eq!(and, vec![true, false, false]);
    let missing = form_matches(&index, &[term("beta"), term("omega")], &all, TermOperator::And);
    assert_eq!(missing, vec![false, false, false]);
    let title_only = form_matches(&index, &[term("delta")], &[true, false, false], TermOperator::Or);
    assert_eq!(title_only, vec![false, false, false]);
}

#[test]
fn test_build_term_index_single_doc() {
    // "Test Function" / "This is a test function for testing" / "test func",
    // already tokenized and lower-cased.
    let doc = TokenizedDocument {
        title: toks(&["test", "function"]),
        keywords: toks(&["test", "func"]),
        content: toks(&["this", "is", "a", "test", "function", "for", "testing"]),
    };
    let index = build_term_index(&[doc]);

    assert_eq!(index.n_docs, 1);
    assert!(index.term_position(&"test".to_string()).is_some());
    assert!(index.term_position(&"function".to_string()).is_some());
    assert!(index.term_position(&"func".to_string()).is_some());
    assert_eq!(index.doc_lengths[0], [2, 2, 7]);
}
