//! Request validation helpers for SQL entrypoints.
//!
//! Each validator checks its arguments in a fixed order and reports the first
//! problem it finds as a message naming the offending field.

use vstd::prelude::*;
use vstd::string::StringExecFns;
use crate::text::{addressable, blank, byte_len, decimal, identifier, is_blank, is_identifier, push_decimal, replace_all, replaced};

verus! {

/// Longest accepted type or relation name, in bytes.
pub const MAX_TYPE_LEN: usize = 255;

/// Longest accepted object id, subject id or continuation token, in bytes.
pub const MAX_ID_LEN: usize = 1000;

/// The outcome of a check, with the message as a character sequence.
pub open spec fn outcome(r: Result<(), String>) -> Result<(), Seq<char>> {
    match r {
        Ok(()) => Ok(()),
        Err(m) => Err(m@),
    }
}

/// The first failure of two checks run in order.
pub open spec fn and_then(a: Result<(), Seq<char>>, b: Result<(), Seq<char>>) -> Result<(), Seq<char>> {
    match a {
        Ok(()) => b,
        Err(e) => Err(e),
    }
}

/// Message for a blank field.
pub open spec fn empty_message(field: Seq<char>) -> Seq<char> {
    field + " must not be empty"@
}

/// Message for a field longer than `max` bytes.
pub open spec fn too_long_message(field: Seq<char>, max: nat) -> Seq<char> {
    field + " exceeds max length "@ + decimal(max)
}

/// Message for a field holding characters outside the identifier set.
pub open spec fn invalid_chars_message(field: Seq<char>) -> Seq<char> {
    field + " contains invalid characters"@
}

/// Message for a page size outside `1..=1000`.
pub open spec fn page_size_message() -> Seq<char> {
    "page_size must be between 1 and 1000"@
}

/// A field must not be blank.
pub open spec fn non_empty_check(field: Seq<char>, value: Seq<char>) -> Result<(), Seq<char>> {
    if is_blank(value) {
        Err(empty_message(field))
    } else {
        Ok(())
    }
}

/// A field must be at most `max` bytes long.
pub open spec fn max_len_check(field: Seq<char>, value: Seq<char>, max: nat) -> Result<(), Seq<char>> {
    if byte_len(value) > max {
        Err(too_long_message(field, max))
    } else {
        Ok(())
    }
}

/// A field must hold identifier characters only.
pub open spec fn identifier_check(field: Seq<char>, value: Seq<char>) -> Result<(), Seq<char>> {
    if is_identifier(value) {
        Ok(())
    } else {
        Err(invalid_chars_message(field))
    }
}

/// A page size must lie in `1..=1000`.
pub open spec fn page_size_check(page_size: i32) -> Result<(), Seq<char>> {
    if 1 <= page_size <= 1000 {
        Ok(())
    } else {
        Err(page_size_message())
    }
}

/// What validating the arguments of an expand request yields.
pub open spec fn expand_args_check(object_type: Seq<char>, object_id: Seq<char>, relation: Seq<char>) -> Result<(), Seq<char>> {
    and_then(non_empty_check("object_type"@, object_type),
    and_then(non_empty_check("object_id"@, object_id),
    and_then(non_empty_check("relation"@, relation),
    and_then(max_len_check("object_type"@, object_type, MAX_TYPE_LEN as nat),
    and_then(max_len_check("relation"@, relation, MAX_TYPE_LEN as nat),
    and_then(max_len_check("object_id"@, object_id, MAX_ID_LEN as nat),
    and_then(identifier_check("object_type"@, object_type),
    identifier_check("relation"@, relation))))))))
}

/// What validating the arguments of a check request yields.
pub open spec fn check_args_check(
    object_type: Seq<char>,
    object_id: Seq<char>,
    relation: Seq<char>,
    subject_type: Seq<char>,
    subject_id: Seq<char>,
) -> Result<(), Seq<char>> {
    and_then(non_empty_check("object_type"@, object_type),
    and_then(non_empty_check("object_id"@, object_id),
    and_then(non_empty_check("relation"@, relation),
    and_then(non_empty_check("subject_type"@, subject_type),
    and_then(non_empty_check("subject_id"@, subject_id),
    and_then(max_len_check("object_type"@, object_type, MAX_TYPE_LEN as nat),
    and_then(max_len_check("relation"@, relation, MAX_TYPE_LEN as nat),
    and_then(max_len_check("subject_type"@, subject_type, MAX_TYPE_LEN as nat),
    and_then(max_len_check("object_id"@, object_id, MAX_ID_LEN as nat),
    and_then(max_len_check("subject_id"@, subject_id, MAX_ID_LEN as nat),
    and_then(identifier_check("object_type"@, object_type),
    and_then(identifier_check("relation"@, relation),
    identifier_check("subject_type"@, subject_type)))))))))))))
}

/// What validating an optional continuation token yields.
pub open spec fn continuation_token_check(token: Option<Seq<char>>) -> Result<(), Seq<char>> {
    match token {
        Some(t) => max_len_check("continuation_token"@, t, MAX_ID_LEN as nat),
        None => Ok(()),
    }
}

/// What validating the arguments of a changelog read yields.
pub open spec fn read_changes_args_check(object_type: Seq<char>, page_size: i32) -> Result<(), Seq<char>> {
    and_then(non_empty_check("object_type"@, object_type),
    and_then(max_len_check("object_type"@, object_type, MAX_TYPE_LEN as nat),
    and_then(identifier_check("object_type"@, object_type),
    page_size_check(page_size))))
}

/// Fails when `value` is blank (empty after trimming whitespace).
pub fn ensure_non_empty(field: &str, value: &str) -> (r: Result<(), String>)
    ensures
        outcome(r) == non_empty_check(field@, value@),
{
    if blank(value) {
        let mut m = String::from_str(field);
        m.append(" must not be empty");
        return Err(m);
    }
    Ok(())
}

/// Fails when `value` is longer than `max` bytes.
pub fn ensure_max_len(field: &str, value: &str, max: usize) -> (r: Result<(), String>)
    requires
        addressable(value@),
    ensures
        outcome(r) == max_len_check(field@, value@, max as nat),
{
    if value.len() > max {
        let mut m = String::from_str(field);
        m.append(" exceeds max length ");
        push_decimal(&mut m, max as u128);
        return Err(m);
    }
    Ok(())
}

/// Fails when `value` holds a character other than an ASCII letter or digit,
/// `_`, `-`, `:` or `#`.
pub fn ensure_identifier_chars(field: &str, value: &str) -> (r: Result<(), String>)
    ensures
        outcome(r) == identifier_check(field@, value@),
{
    if !identifier(value) {
        let mut m = String::from_str(field);
        m.append(" contains invalid characters");
        return Err(m);
    }
    Ok(())
}

/// Validates the arguments of an expand request.
pub fn validate_expand_args(object_type: &str, object_id: &str, relation: &str) -> (r: Result<(), String>)
    requires
        addressable(object_type@),
        addressable(object_id@),
        addressable(relation@),
    ensures
        outcome(r) == expand_args_check(object_type@, object_id@, relation@),
{
    ensure_non_empty("object_type", object_type)?;
    ensure_non_empty("object_id", object_id)?;
    ensure_non_empty("relation", relation)?;

    ensure_max_len("object_type", object_type, MAX_TYPE_LEN)?;
    ensure_max_len("relation", relation, MAX_TYPE_LEN)?;
    ensure_max_len("object_id", object_id, MAX_ID_LEN)?;

    ensure_identifier_chars("object_type", object_type)?;
    ensure_identifier_chars("relation", relation)?;
    Ok(())
}

/// Validates an optional continuation token: at most 1000 bytes.
pub fn validate_continuation_token(token: Option<&str>) -> (r: Result<(), String>)
    requires
        token matches Some(t) ==> addressable(t@),
    ensures
        outcome(r) == continuation_token_check(match token {
            Some(t) => Some(t@),
            None => None,
        }),
{
    if let Some(t) = token {
        ensure_max_len("continuation_token", t, MAX_ID_LEN)?;
    }
    Ok(())
}

/// Validates the arguments of a changelog read.
pub fn validate_read_changes_args(object_type: &str, page_size: i32) -> (r: Result<(), String>)
    requires
        addressable(object_type@),
    ensures
        outcome(r) == read_changes_args_check(object_type@, page_size),
{
    ensure_non_empty("object_type", object_type)?;
    ensure_max_len("object_type", object_type, MAX_TYPE_LEN)?;
    ensure_identifier_chars("object_type", object_type)?;
    validate_page_size(page_size)
}

/// Validates the arguments of a check request.
pub fn validate_check_args(
    object_type: &str,
    object_id: &str,
    relation: &str,
    subject_type: &str,
    subject_id: &str,
) -> (r: Result<(), String>)
    requires
        addressable(object_type@),
        addressable(object_id@),
        addressable(relation@),
        addressable(subject_type@),
        addressable(subject_id@),
    ensures
        outcome(r) == check_args_check(object_type@, object_id@, relation@, subject_type@, subject_id@),
{
    ensure_non_empty("object_type", object_type)?;
    ensure_non_empty("object_id", object_id)?;
    ensure_non_empty("relation", relation)?;
    ensure_non_empty("subject_type", subject_type)?;
    ensure_non_empty("subject_id", subject_id)?;

    ensure_max_len("object_type", object_type, MAX_TYPE_LEN)?;
    ensure_max_len("relation", relation, MAX_TYPE_LEN)?;
    ensure_max_len("subject_type", subject_type, MAX_TYPE_LEN)?;
    ensure_max_len("object_id", object_id, MAX_ID_LEN)?;
    ensure_max_len("subject_id", subject_id, MAX_ID_LEN)?;

    ensure_identifier_chars("object_type", object_type)?;
    ensure_identifier_chars("relation", relation)?;
    ensure_identifier_chars("subject_type", subject_type)?;
    Ok(())
}

/// Validates a page size: it must lie in `1..=1000`.
pub fn validate_page_size(page_size: i32) -> (r: Result<(), String>)
    ensures
        outcome(r) == page_size_check(page_size),
{
    if !(1 <= page_size && page_size <= 1000) {
        return Err(String::from_str("page_size must be between 1 and 1000"));
    }
    Ok(())
}

/// A failure's message with `from` replaced by `to`.
pub open spec fn with_replaced(r: Result<(), Seq<char>>, from: Seq<char>, to: Seq<char>) -> Result<(), Seq<char>> {
    match r {
        Ok(()) => Ok(()),
        Err(m) => Err(replaced(m, from, to)),
    }
}

/// What validating the arguments of a list-objects request yields: the check
/// arguments with a placeholder object id (failures naming `object_id` are
/// reported as `object_id/continuation_token`), then the page size, then the
/// continuation token.
pub open spec fn list_objects_args_check(
    subject_type: Seq<char>,
    subject_id: Seq<char>,
    relation: Seq<char>,
    object_type: Seq<char>,
    page_size: i32,
    continuation_token: Option<Seq<char>>,
) -> Result<(), Seq<char>> {
    and_then(with_replaced(
        check_args_check(object_type, "placeholder"@, relation, subject_type, subject_id),
        "object_id"@,
        "object_id/continuation_token"@,
    ),
    and_then(page_size_check(page_size),
    continuation_token_check(continuation_token)))
}

/// What validating the arguments of a list-subjects request yields: the check
/// arguments with a placeholder subject id (failures naming `subject_id` are
/// reported as `subject_id/continuation_token`), then the page size, then the
/// continuation token.
pub open spec fn list_subjects_args_check(
    object_type: Seq<char>,
    object_id: Seq<char>,
    relation: Seq<char>,
    subject_type: Seq<char>,
    page_size: i32,
    continuation_token: Option<Seq<char>>,
) -> Result<(), Seq<char>> {
    and_then(with_replaced(
        check_args_check(object_type, object_id, relation, subject_type, "placeholder"@),
        "subject_id"@,
        "subject_id/continuation_token"@,
    ),
    and_then(page_size_check(page_size),
    continuation_token_check(continuation_token)))
}

/// The view of an optional string slice.
pub open spec fn opt_str(o: Option<&str>) -> Option<Seq<char>> {
    match o {
        Some(s) => Some(s@),
        None => None,
    }
}

/// The placeholder id used where a list request has no id of its own.
fn placeholder() -> (r: &'static str)
    ensures
        r@ == "placeholder"@,
        addressable(r@),
{
    proof {
        reveal_strlit("placeholder");
        vstd::utf8::is_ascii_chars_encode_utf8("placeholder"@);
    }
    "placeholder"
}

/// Replaces `from` by `to` in a failure's message.
fn replace_in_failure(r: Result<(), String>, from: &str, to: &str) -> (out: Result<(), String>)
    requires
        from@.len() > 0,
    ensures
        outcome(out) == with_replaced(outcome(r), from@, to@),
{
    match r {
        Ok(()) => Ok(()),
        Err(m) => Err(replace_all(m.as_str(), from, to)),
    }
}

/// A non-empty literal pattern.
fn pattern(s: &'static str) -> (r: &'static str)
    requires
        s@ == "object_id"@ || s@ == "subject_id"@,
    ensures
        r@ == s@,
        r@.len() > 0,
{
    proof {
        reveal_strlit("object_id");
        reveal_strlit("subject_id");
    }
    s
}

/// Validates the arguments of a list-objects request.
pub fn validate_list_objects_args(
    subject_type: &str,
    subject_id: &str,
    relation: &str,
    object_type: &str,
    page_size: i32,
    continuation_token: Option<&str>,
) -> (r: Result<(), String>)
    requires
        addressable(subject_type@),
        addressable(subject_id@),
        addressable(relation@),
        addressable(object_type@),
        continuation_token matches Some(t) ==> addressable(t@),
    ensures
        outcome(r) == list_objects_args_check(
            subject_type@,
            subject_id@,
            relation@,
            object_type@,
            page_size,
            opt_str(continuation_token),
        ),
{
    let checked = validate_check_args(object_type, placeholder(), relation, subject_type, subject_id);
    replace_in_failure(checked, pattern("object_id"), "object_id/continuation_token")?;
    validate_page_size(page_size)?;
    validate_continuation_token(continuation_token)
}

/// Validates the arguments of a list-subjects request.
pub fn validate_list_subjects_args(
    object_type: &str,
    object_id: &str,
    relation: &str,
    subject_type: &str,
    page_size: i32,
    continuation_token: Option<&str>,
) -> (r: Result<(), String>)
    requires
        addressable(object_type@),
        addressable(object_id@),
        addressable(relation@),
        addressable(subject_type@),
        continuation_token matches Some(t) ==> addressable(t@),
    ensures
        outcome(r) == list_subjects_args_check(
            object_type@,
            object_id@,
            relation@,
            subject_type@,
            page_size,
            opt_str(continuation_token),
        ),
{
    let checked = validate_check_args(object_type, object_id, relation, subject_type, placeholder());
    replace_in_failure(checked, pattern("subject_id"), "subject_id/continuation_token")?;
    validate_page_size(page_size)?;
    validate_continuation_token(continuation_token)
}

} // verus!
