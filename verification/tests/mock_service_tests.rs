use cce_e2e::http::{
    bad_request_response, content_length, count_lines, find_subslice, json_response, parse_headers,
};
use cce_e2e::mock_chat_server::extract_candidate_ids;
use cce_e2e::mock_embedding_server::{
    fnv1a, token_buckets, whitespace_token_count, MOCK_EMBEDDING_DIMENSION,
};
use cce_e2e::mock_qdrant::{empty_json_response, is_upsert_request};

#[test]
fn test_extract_candidate_ids_from_escaped_prompt() {
    let body = r#"{"model":"m","messages":[{"role":"user","content":"Query: q\n\n[0] ID: merged_group_0_bm25_0\nFile: src/lib.rs\nType: chunk\nContent: fn main\n\n[1] ID: 1::0::summary::src/lib.rs\nFile: src/lib.rs\n"}]}"#;
    let ids = extract_candidate_ids(body);
    assert_eq!(
        ids,
        vec![
            "merged_group_0_bm25_0".to_string(),
            "1::0::summary::src/lib.rs".to_string()
        ]
    );
}

#[test]
fn extract_candidate_ids_skips_empty_ids_and_stops_at_delimiters() {
    let ids = extract_candidate_ids("ID: a,b ID:\"x\" ID:   c\\n ID:");
    assert_eq!(ids, vec!["a".to_string(), "c".to_string()]);
}

#[test]
fn test_fnv1a_is_deterministic() {
    assert_eq!(fnv1a(b"add"), fnv1a(b"add"));
    assert_ne!(fnv1a(b"add"), fnv1a(b"sub"));
}

#[test]
fn fnv1a_matches_reference_values() {
    assert_eq!(fnv1a(b""), 0xcbf29ce484222325);
    assert_eq!(fnv1a(b"a"), 0xaf63dc4c8601ec8c);
}

#[test]
fn token_buckets_hash_lowercased_tokens() {
    let buckets = token_buckets("Queue  queue\tretry");
    assert_eq!(buckets.len(), 3);
    assert_eq!(buckets[0], buckets[1]);
    let expected = (fnv1a(b"retry") as usize) % MOCK_EMBEDDING_DIMENSION;
    assert_eq!(buckets[2], expected);
    assert!(buckets.iter().all(|b| *b < MOCK_EMBEDDING_DIMENSION));
    assert_eq!(whitespace_token_count("  calculate sum of two numbers "), 5);
    assert_eq!(whitespace_token_count(""), 0);
}

#[test]
fn parse_headers_reads_content_length() {
    let req = b"POST /embeddings HTTP/1.1\r\nHost: x\r\ncontent-LENGTH:  12 \r\n\r\n{\"a\":1}";
    let (end, len) = parse_headers(req).expect("complete head");
    assert_eq!(end, 56);
    assert_eq!(&req[end..end + 4], b"\r\n\r\n");
    assert_eq!(len, 12);
}

#[test]
fn parse_headers_waits_for_the_blank_line() {
    assert_eq!(parse_headers(b"POST / HTTP/1.1\r\nContent-Length: 3\r\n"), None);
}

#[test]
fn parse_headers_defaults_to_zero_and_skips_unparsable_values() {
    assert_eq!(parse_headers(b"GET / HTTP/1.1\r\n\r\n"), Some((14, 0)));
    let req = b"PUT / HTTP/1.1\r\nContent-Length: x\r\nContent-Length: +7\r\n\r\n";
    assert_eq!(parse_headers(req).map(|h| h.1), Some(7));
}

#[test]
fn content_length_of_a_head() {
    let head: Vec<char> = "A\r\nContent-Length: 18446744073709551616\nContent-Length:42".chars().collect();
    assert_eq!(content_length(&head), 42);
    let none: Vec<char> = "Host: a".chars().collect();
    assert_eq!(content_length(&none), 0);
}

#[test]
fn find_subslice_finds_first_occurrence() {
    assert_eq!(find_subslice(b"abcabc", b"ca"), Some(2));
    assert_eq!(find_subslice(b"abc", b"abcd"), None);
    assert_eq!(find_subslice(b"aaa", b"a"), Some(0));
}

#[test]
fn json_response_frames_the_body() {
    let res = json_response(b"{}");
    assert_eq!(
        res,
        b"HTTP/1.1 200 OK\r\nContent-Type: application/json\r\nContent-Length: 2\r\nConnection: close\r\n\r\n{}".to_vec()
    );
    let body = vec![b'x'; 1234];
    let res = json_response(&body);
    assert!(String::from_utf8_lossy(&res).contains("Content-Length: 1234\r\n"));
    assert_eq!(
        bad_request_response(),
        b"HTTP/1.1 400 Bad Request\r\nContent-Length: 0\r\nConnection: close\r\n\r\n".to_vec()
    );
    assert_eq!(
        empty_json_response(),
        b"HTTP/1.1 200 OK\r\ncontent-length: 2\r\ncontent-type: application/json\r\n\r\n{}".to_vec()
    );
}

#[test]
fn upsert_detection() {
    assert!(is_upsert_request("PUT /collections/c/points?wait=true HTTP/1.1"));
    assert!(!is_upsert_request("POST /collections/c/points HTTP/1.1"));
    assert!(!is_upsert_request("PUT /collections/c HTTP/1.1"));
}

#[test]
fn line_counting_matches_str_lines() {
    for text in ["", "a", "a\n", "a\nb", "a\r\n\r\n", "\n\n"] {
        assert_eq!(count_lines(text), text.lines().count());
    }
}
