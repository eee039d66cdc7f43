use limit_test::callback::{
    extract_callback, interpret_query, lookup, read_redirect, CallbackPayload, InputError,
    CODE_KEY, STATE_KEY,
};

fn pairs(items: &[(&str, &str)]) -> Vec<(String, String)> {
    items.iter().map(|(k, v)| (k.to_string(), v.to_string())).collect()
}

fn payload(code: &str, state: &str) -> CallbackPayload {
    CallbackPayload { code: code.to_string(), state: state.to_string() }
}

#[test]
fn parameter_names() {
    assert_eq!(CODE_KEY, "code");
    assert_eq!(STATE_KEY, "state");
}

#[test]
fn pasted_redirect_yields_code_and_state() {
    let outcome = read_redirect("https://app.example/cb?code=abc123&state=xyz789");
    assert_eq!(outcome, Ok(payload("abc123", "xyz789")));
}

#[test]
fn pasted_redirect_with_line_terminator() {
    let outcome = read_redirect("https://app.example/cb?code=abc123&state=xyz789\n");
    assert_eq!(outcome, Ok(payload("abc123", "xyz789")));
}

#[test]
fn order_of_parameters_does_not_matter() {
    let outcome = read_redirect("https://app.example/cb?state=xyz789&code=abc123");
    assert_eq!(outcome, Ok(payload("abc123", "xyz789")));
}

#[test]
fn unrelated_parameters_are_ignored() {
    let outcome =
        read_redirect("https://app.example/cb?lang=en&state=S&theme=dark&code=C&x=1#frag");
    assert_eq!(outcome, Ok(payload("C", "S")));
}

#[test]
fn values_are_percent_decoded() {
    let outcome = read_redirect("https://app.example/cb?code=a%2Fb%20c&state=x+y%3D");
    assert_eq!(outcome, Ok(payload("a/b c", "x y=")));
}

#[test]
fn empty_values_count_as_present() {
    let outcome = read_redirect("https://app.example/cb?code=&state");
    assert_eq!(outcome, Ok(payload("", "")));
}

#[test]
fn repeated_parameter_takes_last_value() {
    let outcome = read_redirect("https://app.example/cb?code=first&state=s&code=second");
    assert_eq!(outcome, Ok(payload("second", "s")));
}

#[test]
fn missing_code_is_refused() {
    let outcome = read_redirect("https://app.example/cb?state=xyz789");
    assert_eq!(outcome, Err(InputError::MissingParameters));
}

#[test]
fn missing_state_is_refused() {
    let outcome = read_redirect("https://app.example/cb?code=abc123");
    assert_eq!(outcome, Err(InputError::MissingParameters));
}

#[test]
fn missing_query_is_refused() {
    assert_eq!(read_redirect("https://app.example/cb"), Err(InputError::MissingParameters));
    assert_eq!(read_redirect("https://app.example/cb?"), Err(InputError::MissingParameters));
}

#[test]
fn parameter_names_are_case_sensitive() {
    let outcome = read_redirect("https://app.example/cb?Code=abc123&STATE=xyz789");
    assert_eq!(outcome, Err(InputError::MissingParameters));
}

#[test]
fn text_that_is_no_url_is_refused_with_the_reason() {
    let outcome = read_redirect("code=abc123&state=xyz789");
    assert_eq!(
        outcome,
        Err(InputError::Unparseable { reason: "relative URL without a base".to_string() })
    );
}

#[test]
fn empty_text_is_refused() {
    let outcome = read_redirect("");
    assert_eq!(
        outcome,
        Err(InputError::Unparseable { reason: "relative URL without a base".to_string() })
    );
}

#[test]
fn bad_port_is_refused_with_the_reason() {
    let outcome = read_redirect("https://app.example:99999/cb?code=a&state=b");
    assert_eq!(
        outcome,
        Err(InputError::Unparseable { reason: "invalid port number".to_string() })
    );
}

#[test]
fn diagnostics() {
    let unparseable = InputError::Unparseable { reason: "empty host".to_string() };
    assert_eq!(unparseable.message(), "Parse error: empty host");
    assert_eq!(
        InputError::MissingParameters.message(),
        "Failed to find code and/or state in query string."
    );
}

#[test]
fn lookup_finds_the_last_pair_with_the_key() {
    let query = pairs(&[("a", "1"), ("b", "2"), ("a", "3"), ("c", "4")]);
    assert_eq!(lookup(&query, "a"), Some(&"3".to_string()));
    assert_eq!(lookup(&query, "b"), Some(&"2".to_string()));
    assert_eq!(lookup(&query, "c"), Some(&"4".to_string()));
    assert_eq!(lookup(&query, "d"), None);
    assert_eq!(lookup(&query, ""), None);
}

#[test]
fn lookup_in_empty_query() {
    let query = pairs(&[]);
    assert_eq!(lookup(&query, "code"), None);
}

#[test]
fn extract_callback_needs_both_parameters() {
    assert_eq!(extract_callback(&pairs(&[])), None);
    assert_eq!(extract_callback(&pairs(&[("code", "c")])), None);
    assert_eq!(extract_callback(&pairs(&[("state", "s")])), None);
    assert_eq!(extract_callback(&pairs(&[("code", "c"), ("other", "s")])), None);
    assert_eq!(
        extract_callback(&pairs(&[("state", "s"), ("code", "c")])),
        Some(payload("c", "s"))
    );
}

#[test]
fn extract_callback_at_any_position() {
    let names = ["code", "state", "x", "y"];
    let values = ["C", "S", "1", "2"];
    let orders: [[usize; 4]; 6] =
        [[0, 1, 2, 3], [1, 0, 2, 3], [2, 0, 3, 1], [3, 2, 1, 0], [2, 3, 0, 1], [0, 2, 3, 1]];
    for order in orders {
        let query: Vec<(String, String)> =
            order.iter().map(|&i| (names[i].to_string(), values[i].to_string())).collect();
        assert_eq!(extract_callback(&query), Some(payload("C", "S")));
    }
}

#[test]
fn interpret_query_maps_each_verdict() {
    assert_eq!(
        interpret_query(Ok(pairs(&[("code", "c"), ("state", "s")]))),
        Ok(payload("c", "s"))
    );
    assert_eq!(
        interpret_query(Ok(pairs(&[("code", "c")]))),
        Err(InputError::MissingParameters)
    );
    assert_eq!(
        interpret_query(Err("empty host".to_string())),
        Err(InputError::Unparseable { reason: "empty host".to_string() })
    );
}
