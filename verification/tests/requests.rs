use pgauthz::requests::{
    changes_limit, context_param_error, expand_error_json, expand_not_found_json, parse_usize,
    policy_list_window, requested_page_size, unique_name,
};

#[test]
fn parses_usize_like_std() {
    for s in ["0", "42", "+7", "007", "18446744073709551615", "", "+", "-1", "-0", "1a", " 1", "18446744073709551616", "٣"] {
        assert_eq!(parse_usize(s), s.parse::<usize>().ok(), "input {:?}", s);
    }
}

#[test]
fn policy_window() {
    assert_eq!(policy_list_window(0, None), (100, 0));
    assert_eq!(policy_list_window(10, Some("20")), (10, 20));
    assert_eq!(policy_list_window(10, Some("cursor_token_here")), (10, 0));
    assert_eq!(requested_page_size(0), 1);
    assert_eq!(requested_page_size(50), 50);
}

#[test]
fn changes_follow_the_page_size() {
    assert_eq!(changes_limit(0), 1);
    assert_eq!(changes_limit(5), 5);
    assert_eq!(changes_limit(100), 100);
    assert_eq!(changes_limit(101), 101);
    assert_eq!(changes_limit(1000), 1000);
    assert_eq!(changes_limit(1001), 1000);
}

#[test]
fn expand_error_responses() {
    assert_eq!(
        expand_not_found_json("document", "owner"),
        r#"{"error": "Relation 'owner' not found on type 'document'"}"#
    );
    assert_eq!(
        expand_error_json("no authorization model found"),
        r#"{"error": "no authorization model found"}"#
    );
}

#[test]
fn unique_names() {
    assert_eq!(unique_name("policy", 1725029869000000123), "policy-1725029869000000123");
    assert_eq!(unique_name("", 0), "-0");
}

#[test]
fn check_contexts_must_be_json_objects() {
    assert_eq!(context_param_error(r#"{"hour": 14}"#), None);
    assert_eq!(context_param_error("{}"), None);
    let expected = serde_json::from_str::<std::collections::HashMap<String, serde_json::Value>>("{not json")
        .err()
        .unwrap()
        .to_string();
    assert_eq!(context_param_error("{not json"), Some(format!("invalid context JSON: {}", expected)));
    assert!(context_param_error("[1, 2]").unwrap().starts_with("invalid context JSON: "));
}
