use fallo_client::client::{
    build_request, entries_outcome, list_outcome, status_outcome, strip_quotes, Method, Outcome,
};
use fallo_client::command::Command;
use fallo_client::config::Config;
use fallo_client::render::render;

fn sample_config() -> Config {
    Config { api_key: "secret-key".to_string(), server_url: "https://go.example.net".to_string() }
}

#[test]
fn create_request_targets_short_name() {
    let command = Command::Create {
        destination: "https://example.com/long/path".to_string(),
        short_name: "abc".to_string(),
    };
    let request = build_request(&sample_config(), &command);
    assert_eq!(request.method, Method::Post);
    assert_eq!(request.url, "https://go.example.net/abc");
    assert_eq!(request.header_name, "x-api-key");
    assert_eq!(request.header_value, "secret-key");
    assert_eq!(request.body, Some("https://example.com/long/path".to_string()));
}

#[test]
fn list_request_targets_root() {
    let request = build_request(&sample_config(), &Command::List);
    assert_eq!(request.method, Method::Get);
    assert_eq!(request.url, "https://go.example.net/");
    assert_eq!(request.header_name, "x-api-key");
    assert_eq!(request.header_value, "secret-key");
    assert_eq!(request.body, None);
}

#[test]
fn delete_request_targets_short_name() {
    let command = Command::Delete { short_name: "xyz".to_string() };
    let request = build_request(&sample_config(), &command);
    assert_eq!(request.method, Method::Delete);
    assert_eq!(request.url, "https://go.example.net/xyz");
    assert_eq!(request.header_name, "x-api-key");
    assert_eq!(request.header_value, "secret-key");
    assert_eq!(request.body, None);
}

#[test]
fn create_with_status_200_succeeds() {
    let outcome = status_outcome(200);
    assert_eq!(outcome, Outcome::Success);
    assert_eq!(render(&outcome), vec!["OK!".to_string()]);
}

#[test]
fn delete_with_status_404_fails() {
    let command = Command::Delete { short_name: "gone".to_string() };
    let request = build_request(&sample_config(), &command);
    assert_eq!(request.method, Method::Delete);
    let outcome = status_outcome(404);
    assert_eq!(outcome, Outcome::Failure);
    assert_eq!(render(&outcome), vec![":(".to_string()]);
}

#[test]
fn other_success_codes_are_failures() {
    assert_eq!(status_outcome(201), Outcome::Failure);
    assert_eq!(status_outcome(204), Outcome::Failure);
    assert_eq!(status_outcome(500), Outcome::Failure);
}

#[test]
fn list_of_object_renders_each_entry() {
    let body = r#"{"abc": "https://example.com", "xyz": "https://example.org"}"#;
    let lines = render(&list_outcome(Some(body)));
    assert_eq!(lines.len(), 2);
    assert!(lines.contains(&"abc -> https://example.com".to_string()));
    assert!(lines.contains(&"xyz -> https://example.org".to_string()));
}

#[test]
fn list_of_array_is_invalid_format() {
    let outcome = list_outcome(Some("[1,2,3]"));
    assert_eq!(outcome, Outcome::InvalidFormat);
    assert_eq!(
        render(&outcome),
        vec!["Invalid JSON format. Expected JSON object.".to_string()]
    );
}

#[test]
fn list_of_non_json_is_invalid_format() {
    assert_eq!(list_outcome(Some("not json at all")), Outcome::InvalidFormat);
    assert_eq!(list_outcome(Some("")), Outcome::InvalidFormat);
}

#[test]
fn list_without_response_fails() {
    let outcome = list_outcome(None);
    assert_eq!(outcome, Outcome::Failure);
    assert_eq!(render(&outcome), vec![":(".to_string()]);
}

#[test]
fn list_of_empty_object_prints_nothing() {
    let outcome = list_outcome(Some("{}"));
    assert_eq!(outcome, Outcome::Listed(vec![]));
    assert!(render(&outcome).is_empty());
}

#[test]
fn list_values_that_are_not_strings_are_printed_as_json() {
    let outcome = list_outcome(Some(r#"{"n": 1, "t": true, "z": null}"#));
    let mut lines = render(&outcome);
    lines.sort();
    assert_eq!(
        lines,
        vec!["n -> 1".to_string(), "t -> true".to_string(), "z -> null".to_string()]
    );
}

#[test]
fn list_entries_have_quotes_removed() {
    let outcome = list_outcome(Some(r#"{"k": "v"}"#));
    assert_eq!(outcome, Outcome::Listed(vec![("k".to_string(), "v".to_string())]));
}

#[test]
fn decoded_entries_are_unquoted() {
    let decoded = vec![
        ("a".to_string(), "\"https://a.example\"".to_string()),
        ("b".to_string(), "42".to_string()),
    ];
    let outcome = entries_outcome(Some(decoded));
    assert_eq!(
        outcome,
        Outcome::Listed(vec![
            ("a".to_string(), "https://a.example".to_string()),
            ("b".to_string(), "42".to_string()),
        ])
    );
    assert_eq!(entries_outcome(None), Outcome::InvalidFormat);
}

#[test]
fn strip_quotes_edges() {
    assert_eq!(strip_quotes("\"abc\""), "abc");
    assert_eq!(strip_quotes("\"\"abc\"\"\""), "abc");
    assert_eq!(strip_quotes("a\"b"), "a\"b");
    assert_eq!(strip_quotes("\"\"\""), "");
    assert_eq!(strip_quotes(""), "");
    assert_eq!(strip_quotes("plain"), "plain");
}
