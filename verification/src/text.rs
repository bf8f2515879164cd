//! Character-level helpers over strings: decoding into characters, decimal
//! rendering of integers, and the character classes the validators use.

use vstd::prelude::*;
use vstd::string::{StringExecFns, StrSliceExecFns};
use vstd::utf8::encode_utf8;

verus! {

broadcast use vstd::string::group_string_axioms;

/// The number of bytes of the UTF-8 encoding of a string (what `str::len` returns).
pub open spec fn byte_len(s: Seq<char>) -> nat {
    encode_utf8(s).len()
}

/// A string whose UTF-8 encoding fits in memory, so that its byte length is a `usize`.
pub open spec fn addressable(s: Seq<char>) -> bool {
    byte_len(s) <= usize::MAX
}

/// The Unicode `White_Space` property, which `char::is_whitespace` and
/// `str::trim` go by.
pub open spec fn is_white_space(c: char) -> bool {
    let u = c as u32;
    ||| 0x09 <= u <= 0x0D
    ||| u == 0x20
    ||| u == 0x85
    ||| u == 0xA0
    ||| u == 0x1680
    ||| 0x2000 <= u <= 0x200A
    ||| u == 0x2028
    ||| u == 0x2029
    ||| u == 0x202F
    ||| u == 0x205F
    ||| u == 0x3000
}

/// A string that is empty once leading and trailing whitespace are trimmed.
pub open spec fn is_blank(s: Seq<char>) -> bool {
    forall|i: int| 0 <= i < s.len() ==> is_white_space(#[trigger] s[i])
}

/// ASCII letters and digits.
pub open spec fn is_ascii_alphanumeric(c: char) -> bool {
    ||| 'a' <= c <= 'z'
    ||| 'A' <= c <= 'Z'
    ||| '0' <= c <= '9'
}

/// The characters an identifier may hold: ASCII letters and digits, `_`, `-`, `:` and `#`.
pub open spec fn is_identifier_char(c: char) -> bool {
    is_ascii_alphanumeric(c) || c == '_' || c == '-' || c == ':' || c == '#'
}

/// Every character of the string is an identifier character.
pub open spec fn is_identifier(s: Seq<char>) -> bool {
    forall|i: int| 0 <= i < s.len() ==> is_identifier_char(#[trigger] s[i])
}

/// The decimal digit character of `d < 10`.
pub open spec fn digit_char(d: nat) -> char {
    if d == 0 {
        '0'
    } else if d == 1 {
        '1'
    } else if d == 2 {
        '2'
    } else if d == 3 {
        '3'
    } else if d == 4 {
        '4'
    } else if d == 5 {
        '5'
    } else if d == 6 {
        '6'
    } else if d == 7 {
        '7'
    } else if d == 8 {
        '8'
    } else {
        '9'
    }
}

/// The decimal rendering of a natural number, without sign or leading zeros.
pub open spec fn decimal(n: nat) -> Seq<char>
    decreases n,
{
    if n < 10 {
        seq![digit_char(n)]
    } else {
        decimal(n / 10).push(digit_char(n % 10))
    }
}

/// The characters of a string, in order.
pub fn chars_of(s: &str) -> (v: Vec<char>)
    ensures
        v@ == s@,
{
    let mut v: Vec<char> = Vec::new();
    for c in it: s.chars()
        invariant
            v@ == it.seq().take(it.index()),
            it.seq() == s@,
    {
        v.push(c);
    }
    v
}

/// Whether a character has the Unicode `White_Space` property.
pub fn is_white_space_char(c: char) -> (r: bool)
    ensures
        r == is_white_space(c),
{
    let u = c as u32;
    (0x09 <= u && u <= 0x0D) || u == 0x20 || u == 0x85 || u == 0xA0 || u == 0x1680 || (0x2000
        <= u && u <= 0x200A) || u == 0x2028 || u == 0x2029 || u == 0x202F || u == 0x205F || u
        == 0x3000
}

/// Whether a character may stand in an identifier.
pub fn is_identifier_char_exec(c: char) -> (r: bool)
    ensures
        r == is_identifier_char(c),
{
    ('a' <= c && c <= 'z') || ('A' <= c && c <= 'Z') || ('0' <= c && c <= '9') || c == '_' || c
        == '-' || c == ':' || c == '#'
}

/// Whether the string holds nothing but whitespace.
pub fn blank(s: &str) -> (r: bool)
    ensures
        r == is_blank(s@),
{
    let cs = chars_of(s);
    let mut i: usize = 0;
    while i < cs.len()
        invariant
            cs@ == s@,
            i <= cs.len(),
            forall|j: int| 0 <= j < i ==> is_white_space(#[trigger] cs@[j]),
        decreases cs.len() - i,
    {
        if !is_white_space_char(cs[i]) {
            return false;
        }
        i += 1;
    }
    true
}

/// Whether every character of the string may stand in an identifier.
pub fn identifier(s: &str) -> (r: bool)
    ensures
        r == is_identifier(s@),
{
    let cs = chars_of(s);
    let mut i: usize = 0;
    while i < cs.len()
        invariant
            cs@ == s@,
            i <= cs.len(),
            forall|j: int| 0 <= j < i ==> is_identifier_char(#[trigger] cs@[j]),
        decreases cs.len() - i,
    {
        if !is_identifier_char_exec(cs[i]) {
            return false;
        }
        i += 1;
    }
    true
}

/// The one-character string of a decimal digit.
fn digit_str(d: u128) -> (r: &'static str)
    requires
        d < 10,
    ensures
        r@ == seq![digit_char(d as nat)],
{
    proof {
        reveal_strlit("0");
        reveal_strlit("1");
        reveal_strlit("2");
        reveal_strlit("3");
        reveal_strlit("4");
        reveal_strlit("5");
        reveal_strlit("6");
        reveal_strlit("7");
        reveal_strlit("8");
        reveal_strlit("9");
    }
    if d == 0 {
        "0"
    } else if d == 1 {
        "1"
    } else if d == 2 {
        "2"
    } else if d == 3 {
        "3"
    } else if d == 4 {
        "4"
    } else if d == 5 {
        "5"
    } else if d == 6 {
        "6"
    } else if d == 7 {
        "7"
    } else if d == 8 {
        "8"
    } else {
        "9"
    }
}

/// Appends the decimal rendering of `n` to `s`.
pub fn push_decimal(s: &mut String, n: u128)
    ensures
        final(s)@ == old(s)@ + decimal(n as nat),
    decreases n,
{
    if n >= 10 {
        push_decimal(s, n / 10);
    }
    s.append(digit_str(n % 10));
}

/// `s` with every non-overlapping occurrence of `from`, scanning left to
/// right, replaced by `to` (what `str::replace` computes for a non-empty
/// pattern).
pub open spec fn replaced(s: Seq<char>, from: Seq<char>, to: Seq<char>) -> Seq<char>
    decreases s.len(),
{
    if from.len() == 0 || s.len() < from.len() {
        s
    } else if s.take(from.len() as int) == from {
        to + replaced(s.skip(from.len() as int), from, to)
    } else {
        seq![s[0]] + replaced(s.drop_first(), from, to)
    }
}

/// Whether `pattern` occurs in `cs` at position `i`.
fn occurs_at(cs: &Vec<char>, pattern: &Vec<char>, i: usize) -> (r: bool)
    requires
        i + pattern.len() <= cs.len(),
    ensures
        r == (cs@.skip(i as int).take(pattern.len() as int) == pattern@),
{
    let mut j: usize = 0;
    while j < pattern.len()
        invariant
            i + pattern.len() <= cs.len(),
            j <= pattern.len(),
            forall|k: int| 0 <= k < j ==> cs@[i + k] == pattern@[k],
        decreases pattern.len() - j,
    {
        if cs[i + j] != pattern[j] {
            assert(cs@.skip(i as int).take(pattern.len() as int)[j as int] != pattern@[j as int]);
            return false;
        }
        j += 1;
    }
    assert(cs@.skip(i as int).take(pattern.len() as int) =~= pattern@);
    true
}

/// Replaces every non-overlapping occurrence of `from` (scanning left to
/// right) by `to`.
pub fn replace_all(s: &str, from: &str, to: &str) -> (r: String)
    requires
        from@.len() > 0,
    ensures
        r@ == replaced(s@, from@, to@),
{
    let cs = chars_of(s);
    let pattern = chars_of(from);
    let n = cs.len();
    let m = pattern.len();
    let mut out = String::new();
    let mut seg: usize = 0;
    let mut i: usize = 0;
    assert(cs@.skip(0) =~= cs@);
    assert(out@ + cs@.subrange(0, 0) =~= Seq::<char>::empty());
    while m <= n - i
        invariant
            cs@ == s@,
            pattern@ == from@,
            n == cs.len(),
            m == pattern.len(),
            m > 0,
            seg <= i <= n,
            out@ + cs@.subrange(seg as int, i as int) + replaced(cs@.skip(i as int), from@, to@)
                == replaced(s@, from@, to@),
        decreases n - i,
    {
        let ghost rest = cs@.skip(i as int);
        if occurs_at(&cs, &pattern, i) {
            assert(rest.skip(m as int) =~= cs@.skip(i + m));
            assert(replaced(rest, from@, to@) == to@ + replaced(cs@.skip(i + m), from@, to@));
            out.append(s.substring_char(seg, i));
            out.append(to);
            i = i + m;
            seg = i;
            assert(cs@.subrange(seg as int, i as int) =~= Seq::<char>::empty());
        } else {
            assert(rest.drop_first() =~= cs@.skip(i + 1));
            assert(replaced(rest, from@, to@) == seq![cs@[i as int]] + replaced(cs@.skip(i + 1), from@, to@));
            assert(cs@.subrange(seg as int, i + 1) =~= cs@.subrange(seg as int, i as int).push(cs@[i as int]));
            i = i + 1;
        }
    }
    assert(replaced(cs@.skip(i as int), from@, to@) == cs@.skip(i as int));
    assert(cs@.subrange(seg as int, i as int) + cs@.skip(i as int) =~= cs@.subrange(seg as int, n as int));
    out.append(s.substring_char(seg, n));
    out
}

} // verus!
