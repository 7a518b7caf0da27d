use bathttp::http::{
    body_read_error, build_response, collect_headers, method_from_upper, outgoing_body, parse_method,
    prepare_request, send_error, status_text_for, unsupported_method_error, HttpMethod,
};
use bathttp::HttpRequest;
use std::collections::HashMap;

fn request(method: &str, body: Option<&str>) -> HttpRequest {
    let mut headers = HashMap::new();
    headers.insert("Accept".to_string(), "application/json".to_string());
    headers.insert("X-Token".to_string(), "abc".to_string());
    HttpRequest {
        url: "http://localhost:8080/items".to_string(),
        method: method.to_string(),
        headers,
        body: body.map(|b| b.to_string()),
    }
}

#[test]
fn methods_match_without_regard_to_case() {
    assert_eq!(parse_method(&"get".to_string()).unwrap(), HttpMethod::Get);
    assert_eq!(parse_method(&"Post".to_string()).unwrap(), HttpMethod::Post);
    assert_eq!(parse_method(&"pUt".to_string()).unwrap(), HttpMethod::Put);
    assert_eq!(parse_method(&"DELETE".to_string()).unwrap(), HttpMethod::Delete);
    assert_eq!(parse_method(&"patch".to_string()).unwrap(), HttpMethod::Patch);
}

#[test]
fn other_methods_are_refused() {
    for m in ["TRACE", "", "HEAD", "OPTIONS", "GETS", " get"] {
        let e = parse_method(&m.to_string()).unwrap_err();
        assert_eq!(e.error, "Méthode HTTP non supportée");
        assert_eq!(e.details, Some(format!("Méthode: {}", m)));
    }
}

#[test]
fn upper_case_names_only_from_upper() {
    assert_eq!(method_from_upper(&"GET".to_string()), Some(HttpMethod::Get));
    assert_eq!(method_from_upper(&"PATCH".to_string()), Some(HttpMethod::Patch));
    assert_eq!(method_from_upper(&"get".to_string()), None);
    assert_eq!(method_from_upper(&"".to_string()), None);
}

#[test]
fn unsupported_method_error_names_the_method() {
    let e = unsupported_method_error(&"TRACE".to_string());
    assert_eq!(e.error, "Méthode HTTP non supportée");
    assert_eq!(e.details.as_deref(), Some("Méthode: TRACE"));
}

#[test]
fn prepared_request_keeps_headers_and_url() {
    let p = prepare_request(request("post", Some("{\"a\":1}"))).unwrap();
    assert_eq!(p.method, HttpMethod::Post);
    assert_eq!(p.url, "http://localhost:8080/items");
    assert_eq!(p.headers.len(), 2);
    assert_eq!(p.headers.get("X-Token").map(|s| s.as_str()), Some("abc"));
    assert_eq!(p.body.as_deref(), Some("{\"a\":1}"));
}

#[test]
fn empty_or_absent_body_is_not_attached() {
    assert!(prepare_request(request("PUT", Some(""))).unwrap().body.is_none());
    assert!(prepare_request(request("PUT", None)).unwrap().body.is_none());
    assert_eq!(outgoing_body(Some(String::new())), None);
    assert_eq!(outgoing_body(Some("x".to_string())), Some("x".to_string()));
}

#[test]
fn get_with_body_passes_through() {
    let p = prepare_request(request("GET", Some("q"))).unwrap();
    assert_eq!(p.method, HttpMethod::Get);
    assert_eq!(p.body.as_deref(), Some("q"));
}

#[test]
fn unsupported_request_is_not_prepared() {
    let e = prepare_request(request("TRACE", None)).unwrap_err();
    assert_eq!(e.details.as_deref(), Some("Méthode: TRACE"));
}

#[test]
fn reply_created_is_normalised() {
    let mut headers = HashMap::new();
    headers.insert("x-test".to_string(), "1".to_string());
    let r = build_response(201, headers, "ok".to_string(), 0);
    assert_eq!(r.status, 201);
    assert_eq!(r.status_text, "Created");
    assert_eq!(r.headers.len(), 1);
    assert_eq!(r.headers.get("x-test").map(|s| s.as_str()), Some("1"));
    assert_eq!(r.body, "ok");
    assert_eq!(r.size, 2);
    assert_eq!(r.time_ms, 0);
}

#[test]
fn reply_reason_phrases() {
    assert_eq!(build_response(200, HashMap::new(), String::new(), 3).status_text, "OK");
    assert_eq!(build_response(404, HashMap::new(), String::new(), 3).status_text, "Not Found");
    assert_eq!(build_response(599, HashMap::new(), String::new(), 3).status_text, "Unknown");
    assert_eq!(status_text_for(None), "Unknown");
    assert_eq!(status_text_for(Some("Teapot".to_string())), "Teapot");
}

#[test]
fn reply_size_counts_bytes() {
    let r = build_response(200, HashMap::new(), "héllo €".to_string(), 12);
    assert_eq!(r.size, 10);
    assert_eq!(r.time_ms, 12);
    assert_eq!(build_response(204, HashMap::new(), String::new(), 1).size, 0);
}

#[test]
fn transport_errors_carry_their_detail() {
    let e = send_error("connection refused".to_string());
    assert_eq!(e.error, "Erreur lors de l'envoi de la requête");
    assert_eq!(e.details.as_deref(), Some("connection refused"));
    let e = body_read_error("invalid utf-8".to_string());
    assert_eq!(e.error, "Erreur lors de la lecture du body");
    assert_eq!(e.details.as_deref(), Some("invalid utf-8"));
}

#[test]
fn reply_headers_last_value_wins_and_unreadable_is_empty() {
    let pairs = vec![
        ("x-a".to_string(), Some("1".to_string())),
        ("x-bin".to_string(), None),
        ("x-a".to_string(), Some("2".to_string())),
    ];
    let m = collect_headers(pairs);
    assert_eq!(m.len(), 2);
    assert_eq!(m["x-a"], "2");
    assert_eq!(m["x-bin"], "");
    assert!(collect_headers(Vec::new()).is_empty());
}
