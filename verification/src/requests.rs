//! The parts of the SQL entrypoints that compute: paging windows, the text
//! of expand responses and unique test names.

use vstd::prelude::*;
use crate::guc::opt_view;
use vstd::string::StringExecFns;
use crate::text::{chars_of, decimal, push_decimal};

verus! {

/// The number of policies listed when no page size is given.
pub const DEFAULT_POLICY_PAGE_SIZE: usize = 100;

/// The most changelog entries one read returns (the largest accepted page size).
pub const MAX_CHANGES_PAGE: usize = 1000;

/// The value of a decimal digit character.
pub open spec fn digit_value(c: char) -> int {
    c as int - '0' as int
}

/// Whether a character is an ASCII decimal digit.
pub open spec fn is_digit(c: char) -> bool {
    '0' <= c <= '9'
}

/// The number a sequence of decimal digits denotes.
pub open spec fn digits_value(s: Seq<char>) -> int
    decreases s.len(),
{
    if s.len() == 0 {
        0
    } else {
        digits_value(s.drop_last()) * 10 + digit_value(s.last())
    }
}

/// What `str::parse::<usize>` yields: an optional `+` followed by one or more
/// ASCII digits denoting a value that fits in a `usize`; anything else is
/// rejected.
pub open spec fn parsed_usize(s: Seq<char>) -> Option<usize> {
    if unsigned_digits(s).len() > 0 && all_digits(unsigned_digits(s)) && digits_value(unsigned_digits(s)) <= usize::MAX {
        Some(digits_value(unsigned_digits(s)) as usize)
    } else {
        None
    }
}

/// The string without a leading `+`.
pub open spec fn unsigned_digits(s: Seq<char>) -> Seq<char> {
    if s.len() > 0 && s[0] == '+' {
        s.drop_first()
    } else {
        s
    }
}

/// Every character is an ASCII decimal digit.
pub open spec fn all_digits(s: Seq<char>) -> bool {
    forall|i: int| 0 <= i < s.len() ==> is_digit(#[trigger] s[i])
}

/// The value of a digit prefix never decreases as digits are appended.
proof fn lemma_digits_value_monotonic(s: Seq<char>, i: int)
    requires
        0 <= i <= s.len(),
        forall|k: int| 0 <= k < s.len() ==> is_digit(#[trigger] s[k]),
    ensures
        0 <= digits_value(s.take(i)) <= digits_value(s),
    decreases s.len() - i,
{
    if i < s.len() {
        lemma_digits_value_monotonic(s, i + 1);
        assert(s.take(i + 1).drop_last() =~= s.take(i));
        assert(s.take(i + 1).last() == s[i]);
    } else {
        assert(s.take(i) =~= s);
    }
    if i == 0 {
        assert(s.take(0).len() == 0);
    } else {
        lemma_digits_value_nonneg(s.take(i));
    }
}

/// Digit strings denote non-negative values.
proof fn lemma_digits_value_nonneg(s: Seq<char>)
    requires
        forall|k: int| 0 <= k < s.len() ==> is_digit(#[trigger] s[k]),
    ensures
        digits_value(s) >= 0,
    decreases s.len(),
{
    if s.len() > 0 {
        assert forall|k: int| 0 <= k < s.drop_last().len() implies is_digit(#[trigger] s.drop_last()[k]) by {
            assert(s.drop_last()[k] == s[k]);
        }
        lemma_digits_value_nonneg(s.drop_last());
        assert(is_digit(s[s.len() - 1]));
    }
}

/// Parses a decimal `usize` as `str::parse::<usize>` does.
pub fn parse_usize(s: &str) -> (r: Option<usize>)
    ensures
        r == parsed_usize(s@),
{
    let cs = chars_of(s);
    let ghost digits = unsigned_digits(s@);
    let start: usize = if cs.len() > 0 && cs[0] == '+' { 1 } else { 0 };
    assert(digits =~= cs@.skip(start as int));
    if start >= cs.len() {
        return None;
    }
    let mut value: usize = 0;
    let mut i: usize = start;
    while i < cs.len()
        invariant
            start <= i <= cs.len(),
            cs@ == s@,
            digits == cs@.skip(start as int),
            digits == unsigned_digits(s@),
            forall|k: int| start <= k < i ==> is_digit(#[trigger] cs@[k]),
            value as int == digits_value(digits.take(i - start)),
        decreases cs.len() - i,
    {
        let c = cs[i];
        assert(digits[i - start] == cs@[i as int]);
        if !('0' <= c && c <= '9') {
            assert(!is_digit(digits[i - start]));
            assert(!all_digits(digits));
            return None;
        }
        let d = (c as u32 - '0' as u32) as usize;
        assert(digits.take(i + 1 - start).drop_last() =~= digits.take(i - start));
        assert(digits.take(i + 1 - start).last() == c);
        assert(digit_value(c) == d);
        assert(digits_value(digits.take(i + 1 - start)) == value * 10 + d);
        if value > (usize::MAX - d) / 10 {
            proof {
                assert forall|k: int| 0 <= k < digits.take(i + 1 - start).len() implies is_digit(
                    #[trigger] digits.take(i + 1 - start)[k],
                ) by {
                    assert(digits.take(i + 1 - start)[k] == cs@[start + k]);
                }
                assert(value * 10 + d > usize::MAX) by (nonlinear_arith)
                    requires
                        value > (usize::MAX - d) / 10,
                        d <= 9,
                ;
                if all_digits(digits) {
                    lemma_digits_value_monotonic(digits, i + 1 - start);
                    assert(digits_value(digits) > usize::MAX);
                }
            }
            return None;
        }
        proof {
            assert(value * 10 + d <= usize::MAX) by (nonlinear_arith)
                requires
                    value <= (usize::MAX - d) / 10,
                    d <= 9,
            ;
        }
        value = value * 10 + d;
        i += 1;
    }
    assert(digits.take(cs.len() - start) =~= digits);
    Some(value)
}

/// The limit and offset of a policy listing: the page size (100 when it is
/// 0) and the continuation token read as a number of policies to skip (0
/// when absent or not a number).
pub fn policy_list_window(page_size: usize, continuation_token: Option<&str>) -> (r: (usize, usize))
    ensures
        r.0 == (if page_size == 0 { DEFAULT_POLICY_PAGE_SIZE } else { page_size }),
        r.1 == (match continuation_token {
            Some(t) => match parsed_usize(t@) {
                Some(n) => n,
                None => 0,
            },
            None => 0,
        }),
{
    let limit = if page_size == 0 { DEFAULT_POLICY_PAGE_SIZE } else { page_size };
    let offset = match continuation_token {
        Some(t) => match parse_usize(t) {
            Some(n) => n,
            None => 0,
        },
        None => 0,
    };
    (limit, offset)
}

/// The page size a validated SQL page-size argument becomes: at least 1.
pub fn requested_page_size(page_size: i32) -> (r: usize)
    ensures
        r == (if page_size < 1 { 1 } else { page_size as int }),
{
    if page_size < 1 {
        1
    } else {
        page_size as usize
    }
}

/// How many changelog entries a read returns at most: the page size, at
/// least 1 and at most 1000, so every accepted page size is returned as is.
pub fn changes_limit(page_size: usize) -> (r: usize)
    ensures
        r == (if page_size < 1 { 1 } else if page_size > MAX_CHANGES_PAGE { MAX_CHANGES_PAGE as int } else { page_size as int }),
        1 <= r <= MAX_CHANGES_PAGE,
{
    if page_size < 1 {
        1
    } else if page_size > MAX_CHANGES_PAGE {
        MAX_CHANGES_PAGE
    } else {
        page_size
    }
}

/// The expand response for a relation the type does not define.
pub open spec fn expand_not_found_text(object_type: Seq<char>, relation: Seq<char>) -> Seq<char> {
    "{\"error\": \"Relation '"@ + relation + "' not found on type '"@ + object_type + "'\"}"@
}

/// The expand response when the model cannot be loaded.
pub open spec fn expand_error_text(message: Seq<char>) -> Seq<char> {
    "{\"error\": \""@ + message + "\"}"@
}

/// The expand response for a relation the type does not define.
pub fn expand_not_found_json(object_type: &str, relation: &str) -> (r: String)
    ensures
        r@ == expand_not_found_text(object_type@, relation@),
{
    let mut s = String::from_str("{\"error\": \"Relation '");
    s.append(relation);
    s.append("' not found on type '");
    s.append(object_type);
    s.append("'\"}");
    s
}

/// The expand response when the model cannot be loaded.
pub fn expand_error_json(message: &str) -> (r: String)
    ensures
        r@ == expand_error_text(message@),
{
    let mut s = String::from_str("{\"error\": \"");
    s.append(message);
    s.append("\"}");
    s
}

/// A test name made unique by a timestamp: `<prefix>-<timestamp_nanos>`.
pub fn unique_name(prefix: &str, timestamp_nanos: u128) -> (r: String)
    ensures
        r@ == prefix@ + "-"@ + decimal(timestamp_nanos as nat),
{
    let mut s = String::from_str(prefix);
    s.append("-");
    push_decimal(&mut s, timestamp_nanos);
    s
}

/// What parsing a check context reports: `None` when the text is a JSON
/// object, otherwise the parser's error message.
pub uninterp spec fn context_json_error(context_json: Seq<char>) -> Option<Seq<char>>;

/// Calls `serde_json::from_str` to read the text as a JSON object of named
/// values (`HashMap<String, serde_json::Value>`) and keeps only its error,
/// rendered with `Display`; the outcome is a function of the text alone.
#[verifier::external_body]
fn parse_context_error(context_json: &str) -> (r: Option<String>)
    ensures
        opt_view(r) == context_json_error(context_json@),
{
    serde_json::from_str::<std::collections::HashMap<String, serde_json::Value>>(context_json).err().map(|e| e.to_string())
}

/// The message a check with an unreadable context is refused with:
/// "invalid context JSON: " and the parser's message, or `None` when the
/// context reads.
pub fn context_param_error(context_json: &str) -> (r: Option<String>)
    ensures
        match context_json_error(context_json@) {
            Some(e) => r matches Some(m) && m@ == "invalid context JSON: "@ + e,
            None => r is None,
        },
{
    match parse_context_error(context_json) {
        Some(e) => {
            let mut m = String::from_str("invalid context JSON: ");
            m.append(e.as_str());
            Some(m)
        },
        None => None,
    }
}

} // verus!
