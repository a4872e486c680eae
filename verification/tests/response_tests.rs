use pkce_auth::response::parse_response;
use pkce_auth::response::query_parameters;
use pkce_auth::response::read_response;
use pkce_auth::AuthErrorKind;

#[test]
fn response_without_query_is_empty() {
    let err = parse_response("https://app.example/cb").unwrap_err();
    assert_eq!(err.kind(), AuthErrorKind::EmptyResponse);
    assert_eq!(err.cause(), "No response is present in the given url!");
}

#[test]
fn response_without_code_is_missing_code() {
    let err = parse_response("https://app.example/cb?state=s1").unwrap_err();
    assert_eq!(err.kind(), AuthErrorKind::MissingCode);
    assert_eq!(
        err.cause(),
        "There was no authorization code present in the provided url!"
    );
}

#[test]
fn response_without_state_is_missing_state() {
    let err = parse_response("https://app.example/cb?code=c1").unwrap_err();
    assert_eq!(err.kind(), AuthErrorKind::MissingState);
    assert_eq!(err.cause(), "There was no state present in the provided url!");
}

#[test]
fn response_with_both_is_read() {
    let (code, state) =
        parse_response("https://example.com/?state=abc123&code=qwert12345").unwrap();
    assert_eq!(code, "qwert12345");
    assert_eq!(state, "abc123");
}

#[test]
fn response_that_is_no_url_is_malformed() {
    let err = parse_response("not a url").unwrap_err();
    assert_eq!(err.kind(), AuthErrorKind::MalformedResponse);
    assert_eq!(err.cause(), "not a url is not a valid url.");
}

#[test]
fn response_values_are_decoded_and_others_ignored() {
    let (code, state) =
        parse_response("https://app.example/cb?x=1&code=a%20b&session=9&state=s%2B1").unwrap();
    assert_eq!(code, "a b");
    assert_eq!(state, "s+1");
}

#[test]
fn last_occurrence_of_a_parameter_counts() {
    let pairs = vec![
        ("code".to_string(), "first".to_string()),
        ("state".to_string(), "s".to_string()),
        ("code".to_string(), "second".to_string()),
    ];
    let (code, state) = read_response(&pairs).unwrap();
    assert_eq!(code, "second");
    assert_eq!(state, "s");
}

#[test]
fn empty_list_is_reported_before_missing_code() {
    let pairs: Vec<(String, String)> = Vec::new();
    let err = read_response(&pairs).unwrap_err();
    assert_eq!(err.kind(), AuthErrorKind::EmptyResponse);
}

#[test]
fn missing_code_is_reported_before_missing_state() {
    let pairs = vec![("other".to_string(), "1".to_string())];
    let err = read_response(&pairs).unwrap_err();
    assert_eq!(err.kind(), AuthErrorKind::MissingCode);
}

#[test]
fn query_parameters_come_in_order_and_decoded() {
    let pairs = query_parameters("https://app.example/cb?b=2&a=1%2B1&a=x+y&flag").unwrap();
    let expected: Vec<(String, String)> = [("b", "2"), ("a", "1+1"), ("a", "x y"), ("flag", "")]
        .iter()
        .map(|(k, v)| (k.to_string(), v.to_string()))
        .collect();
    assert_eq!(pairs, expected);
}

#[test]
fn query_parameters_of_a_url_without_query_are_none() {
    assert!(query_parameters("https://app.example/cb").unwrap().is_empty());
}

#[test]
fn query_parameters_of_no_url_are_refused() {
    let err = query_parameters("/cb?code=1").unwrap_err();
    assert_eq!(err.kind(), AuthErrorKind::MalformedResponse);
    assert_eq!(err.cause(), "/cb?code=1 is not a valid url.");
}
