use vetis::headers::{names_match, HeaderMap};
use vetis::response::{Response, ResponseBuilder};
use vetis::status;

#[test]
fn builder_starts_with_status_ok_and_no_headers() {
    let inner = Response::builder().text("").into_inner();
    assert_eq!(inner.status(), 200);
    assert_eq!(inner.headers().len(), 0);
    assert!(inner.body().is_empty());
}

#[test]
fn new_builder_matches_response_builder() {
    let inner = ResponseBuilder::new().text("a").into_inner();
    assert_eq!(inner.status(), status::OK);
    assert_eq!(inner.body(), b"a");
}

#[test]
fn later_status_replaces_earlier() {
    let inner = Response::builder()
        .status(status::NOT_FOUND)
        .header("A", "1")
        .status(status::CREATED)
        .text("x")
        .into_inner();
    assert_eq!(inner.status(), status::CREATED);
    assert_eq!(inner.headers().len(), 1);
}

#[test]
fn status_code_is_not_validated() {
    let inner = Response::builder().status(999).text("").into_inner();
    assert_eq!(inner.status(), 999);
}

#[test]
fn headers_keep_order_and_duplicates() {
    let inner = Response::builder()
        .header("Set-Cookie", "a=1")
        .header("X-Other", "o")
        .header("set-cookie", "b=2")
        .text("")
        .into_inner();
    let h = inner.headers();
    assert_eq!(h.len(), 3);
    assert_eq!(h.entry(0), ("Set-Cookie", "a=1"));
    assert_eq!(h.entry(1), ("X-Other", "o"));
    assert_eq!(h.entry(2), ("set-cookie", "b=2"));
    assert_eq!(h.get("SET-COOKIE"), Some("a=1"));
    assert_eq!(h.get_all("Set-Cookie"), vec!["a=1", "b=2"]);
    assert_eq!(h.get_all("x-other"), vec!["o"]);
    assert!(h.get_all("Missing").is_empty());
}

#[test]
fn header_lookup_ignores_case() {
    let inner = Response::builder()
        .header("Content-Type", "text/plain")
        .text("hi")
        .into_inner();
    let h = inner.headers();
    assert_eq!(h.get("content-type"), Some("text/plain"));
    assert_eq!(h.get("CONTENT-TYPE"), Some("text/plain"));
    assert_eq!(h.get("Content-Typ"), None);
    assert_eq!(h.get("Content-Typex"), None);
}

#[test]
fn names_match_folds_ascii_letters_only() {
    assert!(names_match("Accept", "aCCEPT"));
    assert!(names_match("", ""));
    assert!(!names_match("Accept", "Accepts"));
    assert!(!names_match("a-b", "a_b"));
    assert!(!names_match("[", "{"));
    assert!(!names_match("@", "`"));
    assert!(names_match("Ä", "Ä"));
    assert!(!names_match("Ä", "ä"));
}

#[test]
fn header_map_append_and_get() {
    let mut h = HeaderMap::new();
    assert_eq!(h.get("A"), None);
    h.append("A", "1");
    h.append("a", "2");
    assert_eq!(h.len(), 2);
    assert_eq!(h.get("A"), Some("1"));
    assert_eq!(h.get_all("A"), vec!["1", "2"]);
}

#[test]
fn text_body_is_the_utf8_bytes() {
    let inner = Response::builder().text("Hello World").into_inner();
    assert_eq!(inner.body(), b"Hello World");
    let inner = Response::builder().text("é").into_inner();
    assert_eq!(inner.body(), &[0xc3, 0xa9]);
}

#[test]
fn byte_body_is_kept_exactly() {
    let inner = Response::builder().body(vec![0, 255, 10]).into_inner();
    assert_eq!(inner.body(), &[0, 255, 10]);
}

#[test]
fn empty_no_content_response_has_no_body_and_no_framing_header() {
    let inner = Response::builder().status(status::NO_CONTENT).text("").into_inner();
    assert_eq!(inner.status(), 204);
    assert_eq!(inner.body().len(), 0);
    assert_eq!(inner.headers().len(), 0);
    assert_eq!(inner.headers().get("Content-Length"), None);
}

#[test]
fn large_body_keeps_its_length() {
    let large_data = "x".repeat(100_000);
    let inner = Response::builder().text(&large_data).into_inner();
    assert_eq!(inner.body().len(), 100_000);
    assert!(inner.body().iter().all(|b| *b == b'x'));
    let inner = Response::builder().body(vec![7u8; 100_000]).into_inner();
    assert_eq!(inner.body().len(), 100_000);
}

#[test]
fn reading_the_response_twice_gives_the_same_parts() {
    let inner = Response::builder()
        .status(status::ACCEPTED)
        .header("K", "v")
        .text("body")
        .into_inner();
    let first = (inner.status(), inner.headers().get("k"), inner.body().to_vec());
    let second = (inner.status(), inner.headers().get("k"), inner.body().to_vec());
    assert_eq!(first, second);
    assert_eq!(first, (202, Some("v"), b"body".to_vec()));
}

#[test]
fn interleaved_builders_are_independent() {
    let a = Response::builder().status(status::OK);
    let b = Response::builder().status(status::NOT_FOUND);
    let a = a.header("Who", "a");
    let b = b.header("Who", "b").header("Extra", "1");
    let ra = a.text("first").into_inner();
    let rb = b.text("second").into_inner();
    assert_eq!(ra.status(), 200);
    assert_eq!(ra.headers().len(), 1);
    assert_eq!(ra.headers().get("who"), Some("a"));
    assert_eq!(ra.body(), b"first");
    assert_eq!(rb.status(), 404);
    assert_eq!(rb.headers().len(), 2);
    assert_eq!(rb.headers().get("who"), Some("b"));
    assert_eq!(rb.body(), b"second");
}
