use pgauthz::validation::{
    ensure_identifier_chars, ensure_max_len, ensure_non_empty, validate_check_args,
    validate_continuation_token, validate_expand_args, validate_page_size,
    validate_read_changes_args,
};

#[test]
fn test_validate_check_args_ok() {
    let result = validate_check_args("document", "doc1", "viewer", "user", "alice");
    assert!(result.is_ok());
}

#[test]
fn test_validate_check_args_empty_type() {
    let result = validate_check_args("", "doc1", "viewer", "user", "alice");
    assert!(result.is_err());
    assert!(
        result
            .unwrap_err()
            .contains("object_type must not be empty")
    );
}

#[test]
fn test_validate_check_args_too_long() {
    let long_type = "a".repeat(300);
    let result = validate_check_args(&long_type, "doc1", "viewer", "user", "alice");
    assert!(result.is_err());
    assert!(result.unwrap_err().contains("exceeds max length"));
}

#[test]
fn test_validate_check_args_invalid_chars() {
    let result = validate_check_args("doc@ument!", "doc1", "viewer", "user", "alice");
    assert!(result.is_err());
    assert!(result.unwrap_err().contains("invalid characters"));
}

#[test]
fn test_validate_page_size_boundaries() {
    assert!(validate_page_size(0).is_err());
    assert!(validate_page_size(1).is_ok());
    assert!(validate_page_size(500).is_ok());
    assert!(validate_page_size(1000).is_ok());
    assert!(validate_page_size(1001).is_err());
}

#[test]
fn test_validate_continuation_token_too_long() {
    let long_token = "a".repeat(1100);
    let result = validate_continuation_token(Some(&long_token));
    assert!(result.is_err());
    assert!(result.unwrap_err().contains("exceeds max length"));
}

#[test]
fn whitespace_only_values_count_as_empty() {
    assert_eq!(
        ensure_non_empty("relation", " \t\u{3000}\n").unwrap_err(),
        "relation must not be empty"
    );
    assert!(ensure_non_empty("relation", " a ").is_ok());
}

#[test]
fn max_length_counts_utf8_bytes_and_names_the_limit() {
    // 128 two-byte characters: 256 bytes, one more than the limit.
    let wide = "é".repeat(128);
    assert_eq!(
        ensure_max_len("object_type", &wide, 255).unwrap_err(),
        "object_type exceeds max length 255"
    );
    assert!(ensure_max_len("object_type", &"a".repeat(255), 255).is_ok());
    assert_eq!(
        ensure_max_len("object_id", &"a".repeat(1001), 1000).unwrap_err(),
        "object_id exceeds max length 1000"
    );
}

#[test]
fn identifier_characters() {
    assert!(ensure_identifier_chars("relation", "group:eng#member_x-1").is_ok());
    assert_eq!(
        ensure_identifier_chars("relation", "view er").unwrap_err(),
        "relation contains invalid characters"
    );
    assert!(ensure_identifier_chars("relation", "vïewer").is_err());
}

#[test]
fn checks_run_in_documented_order() {
    // Emptiness is reported before length, length before characters.
    let r = validate_check_args(&"!".repeat(300), "", "viewer", "user", "alice");
    assert_eq!(r.unwrap_err(), "object_id must not be empty");
    let r = validate_check_args(&"!".repeat(300), "doc1", "viewer", "user", "alice");
    assert_eq!(r.unwrap_err(), "object_type exceeds max length 255");
    let r = validate_check_args("document", "doc1", "viewer", "us er", "alice");
    assert_eq!(r.unwrap_err(), "subject_type contains invalid characters");
    // ids are not restricted to identifier characters
    assert!(validate_check_args("document", "doc 1!", "viewer", "user", "a@b.c").is_ok());
}

#[test]
fn expand_args_validation() {
    assert!(validate_expand_args("document", "doc1", "viewer").is_ok());
    assert_eq!(
        validate_expand_args("document", "", "viewer").unwrap_err(),
        "object_id must not be empty"
    );
    assert_eq!(
        validate_expand_args("document", "doc1", "vie wer").unwrap_err(),
        "relation contains invalid characters"
    );
}

#[test]
fn read_changes_args_validation() {
    assert!(validate_read_changes_args("document", 100).is_ok());
    assert_eq!(
        validate_read_changes_args("document", 0).unwrap_err(),
        "page_size must be between 1 and 1000"
    );
    assert_eq!(
        validate_read_changes_args("", 0).unwrap_err(),
        "object_type must not be empty"
    );
    assert!(validate_continuation_token(None).is_ok());
    assert!(validate_continuation_token(Some(&"a".repeat(1000))).is_ok());
}
