use http_headers_filter::decimal::decimal_string;
use http_headers_filter::filter::{
    Action, ContextType, HttpHeaders, HttpHeadersRoot, Phase, RequestOutcome,
};
use http_headers_filter::headers::{find_header, format_header_line, format_header_lines};

fn headers(pairs: &[(&str, &str)]) -> Vec<(String, String)> {
    pairs
        .iter()
        .map(|(n, v)| (n.to_string(), v.to_string()))
        .collect()
}

fn request(id: u32, pairs: &[(&str, &str)]) -> (HttpHeaders, RequestOutcome) {
    let mut h = HttpHeadersRoot.create_http_context(id).unwrap();
    let out = h.on_http_request_headers(pairs.len(), true, &headers(pairs));
    (h, out)
}

fn assert_greeting(out: &RequestOutcome) {
    assert_eq!(out.action, Action::Pause);
    let response = out.response.as_ref().expect("a local response");
    assert_eq!(response.status_code, 200);
    assert_eq!(response.headers, headers(&[("powered-by", "proxy-wasm")]));
    assert_eq!(response.body.as_deref(), Some(&b"Hello, World!\n"[..]));
    assert_eq!(response.body.as_ref().unwrap().len(), 14);
}

fn assert_passes(out: &RequestOutcome) {
    assert_eq!(out.action, Action::Continue);
    assert!(out.response.is_none());
}

#[test]
fn root_asks_for_http_exchanges() {
    assert_eq!(HttpHeadersRoot.get_type(), Some(ContextType::HttpContext));
}

#[test]
fn root_makes_fresh_handler() {
    let h = HttpHeadersRoot.create_http_context(17).unwrap();
    assert_eq!(h.context_id, 17);
    assert_eq!(h.phase, Phase::Created);
}

#[test]
fn wasm_path_is_answered_locally() {
    let (h, out) = request(1, &[(":path", "/wasm")]);
    assert_greeting(&out);
    assert_eq!(out.log, vec!["#1 -> :path: /wasm".to_string()]);
    assert_eq!(h.phase, Phase::ShortCircuited);
}

#[test]
fn wasm_path_among_other_headers_is_answered() {
    let (_, out) = request(
        2,
        &[(":method", "GET"), (":path", "/wasm"), ("user-agent", "curl")],
    );
    assert_greeting(&out);
}

#[test]
fn health_path_passes_through() {
    let (h, out) = request(3, &[(":path", "/health")]);
    assert_passes(&out);
    assert_eq!(h.phase, Phase::PassThrough);
}

#[test]
fn missing_path_passes_through() {
    let (h, out) = request(4, &[]);
    assert_passes(&out);
    assert!(out.log.is_empty());
    assert_eq!(h.phase, Phase::PassThrough);
}

#[test]
fn near_miss_paths_pass_through() {
    for path in ["/Wasm", "/wasm/", "/wasm?q=1", "", "wasm", " /wasm"] {
        let (_, out) = request(5, &[(":path", path)]);
        assert_passes(&out);
    }
}

#[test]
fn path_value_under_another_name_passes_through() {
    let (_, out) = request(6, &[("path", "/wasm"), (":PATH", "/wasm")]);
    assert_passes(&out);
}

#[test]
fn first_path_header_decides() {
    let (_, out) = request(7, &[(":path", "/wasm"), (":path", "/other")]);
    assert_greeting(&out);
    let (_, out) = request(7, &[(":path", "/other"), (":path", "/wasm")]);
    assert_passes(&out);
}

#[test]
fn request_log_has_one_line_per_header_in_order() {
    let (_, out) = request(
        42,
        &[(":authority", "example.com"), (":path", "/a"), ("accept", "*/*")],
    );
    assert_eq!(
        out.log,
        vec![
            "#42 -> :authority: example.com".to_string(),
            "#42 -> :path: /a".to_string(),
            "#42 -> accept: */*".to_string(),
        ]
    );
}

#[test]
fn request_log_keeps_duplicate_headers() {
    let (_, out) = request(9, &[("x", "1"), ("x", "1")]);
    assert_eq!(out.log, vec!["#9 -> x: 1".to_string(), "#9 -> x: 1".to_string()]);
}

#[test]
fn response_log_has_one_line_per_header_and_continues() {
    let (mut h, out) = request(8, &[(":path", "/api")]);
    assert_passes(&out);
    let resp = headers(&[(":status", "200"), ("content-type", "text/plain")]);
    let r = h.on_http_response_headers(resp.len(), false, &resp);
    assert_eq!(r.action, Action::Continue);
    assert_eq!(
        r.log,
        vec![
            "#8 <- :status: 200".to_string(),
            "#8 <- content-type: text/plain".to_string(),
        ]
    );
    assert_eq!(h.phase, Phase::ResponseHeadersSeen);
}

#[test]
fn empty_response_headers_log_nothing() {
    let (mut h, _) = request(8, &[]);
    let r = h.on_http_response_headers(0, true, &Vec::new());
    assert_eq!(r.action, Action::Continue);
    assert!(r.log.is_empty());
}

#[test]
fn completion_after_short_circuit() {
    let (mut h, out) = request(11, &[(":path", "/wasm")]);
    assert_greeting(&out);
    assert_eq!(h.on_log(), "#11 completed.");
    assert_eq!(h.phase, Phase::Completed);
}

#[test]
fn completion_after_pass_through() {
    let (mut h, _) = request(12, &[(":path", "/x")]);
    let resp = headers(&[(":status", "404")]);
    let r = h.on_http_response_headers(1, true, &resp);
    let mut log = r.log.clone();
    log.push(h.on_log());
    assert_eq!(
        log,
        vec!["#12 <- :status: 404".to_string(), "#12 completed.".to_string()]
    );
    assert_eq!(log.iter().filter(|l| l.ends_with(" completed.")).count(), 1);
}

#[test]
fn completion_line_of_largest_id() {
    let mut h = HttpHeaders::new(u32::MAX);
    assert_eq!(h.on_log(), "#4294967295 completed.");
}

#[test]
fn same_request_twice_gives_same_outcome() {
    for pairs in [
        vec![(":path", "/wasm"), ("a", "b")],
        vec![(":path", "/health")],
        vec![],
    ] {
        let (_, first) = request(21, &pairs);
        let (_, second) = request(21, &pairs);
        assert_eq!(first.action, second.action);
        assert_eq!(first.log, second.log);
        assert_eq!(
            first.response.as_ref().map(|r| (r.status_code, r.headers.clone(), r.body.clone())),
            second.response.as_ref().map(|r| (r.status_code, r.headers.clone(), r.body.clone()))
        );
    }
}

#[test]
fn decimal_digits() {
    assert_eq!(decimal_string(0), "0");
    assert_eq!(decimal_string(7), "7");
    assert_eq!(decimal_string(10), "10");
    assert_eq!(decimal_string(42), "42");
    assert_eq!(decimal_string(1000), "1000");
    assert_eq!(decimal_string(u32::MAX), "4294967295");
}

#[test]
fn find_header_takes_first_match() {
    let list = headers(&[("a", "1"), ("b", "2"), ("a", "3")]);
    assert_eq!(find_header(&list, &"a".to_string()), Some("1".to_string()));
    assert_eq!(find_header(&list, &"b".to_string()), Some("2".to_string()));
    assert_eq!(find_header(&list, &"c".to_string()), None);
    assert_eq!(find_header(&Vec::new(), &"a".to_string()), None);
}

#[test]
fn header_line_format() {
    let line = format_header_line(3, "->", &"name".to_string(), &"value".to_string());
    assert_eq!(line, "#3 -> name: value");
    let line = format_header_line(30, "<-", &String::new(), &String::new());
    assert_eq!(line, "#30 <- : ");
    let lines = format_header_lines(5, "<-", &headers(&[("k", "v"), ("k2", "v2")]));
    assert_eq!(lines, vec!["#5 <- k: v".to_string(), "#5 <- k2: v2".to_string()]);
}
