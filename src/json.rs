//! Compact JSON text for one-field objects, with the scalar encodings done by
//! serde_json.

use vstd::prelude::*;

verus! {

#[verifier::external_type_specification]
#[verifier::external_body]
pub struct ExJsonError(serde_json::Error);

/// Relies on String::push_str: it appends the slice to the end of the string.
pub assume_specification[ String::push_str ](s: &mut String, t: &str)
    ensures
        final(s)@ == old(s)@ + t@,
;

/// The decimal digit for `d < 10`.
pub open spec fn digit_char(d: nat) -> char {
    seq!['0', '1', '2', '3', '4', '5', '6', '7', '8', '9'][d as int]
}

/// The decimal digits of `n`, most significant first, without leading zeros.
pub open spec fn digits(n: nat) -> Seq<char>
    decreases n,
{
    if n < 10 {
        seq![digit_char(n)]
    } else {
        digits(n / 10) + seq![digit_char(n % 10)]
    }
}

/// The JSON text of an integer: its decimal digits, after a minus sign when
/// it is negative.
pub open spec fn decimal_text(n: int) -> Seq<char> {
    if n < 0 {
        seq!['-'] + digits((-n) as nat)
    } else {
        digits(n as nat)
    }
}

/// A string that JSON writes between quotes with no escape: no quote, no
/// backslash and no control character below U+0020.
pub open spec fn is_plain(s: Seq<char>) -> bool {
    forall|i: int| 0 <= i < s.len() ==> #[trigger] s[i] != '"' && s[i] != '\\' && s[i] >= ' '
}

/// The lowercase hexadecimal digit for `d < 16`.
pub open spec fn hex_digit(d: nat) -> char {
    seq!['0', '1', '2', '3', '4', '5', '6', '7', '8', '9', 'a', 'b', 'c', 'd', 'e', 'f'][d as int]
}

/// How one character stands inside a JSON string literal: a quote or a
/// backslash after a backslash; backspace, tab, line feed, form feed and
/// carriage return by their short escapes; any other control character as a
/// backslash, `u00` and two lowercase hexadecimal digits; any other character
/// as itself.
pub open spec fn escape_char(c: char) -> Seq<char> {
    if c == '"' {
        seq!['\\', '"']
    } else if c == '\\' {
        seq!['\\', '\\']
    } else if c == '\u{8}' {
        seq!['\\', 'b']
    } else if c == '\t' {
        seq!['\\', 't']
    } else if c == '\n' {
        seq!['\\', 'n']
    } else if c == '\u{c}' {
        seq!['\\', 'f']
    } else if c == '\r' {
        seq!['\\', 'r']
    } else if ' ' > c {
        let code = c as nat;
        seq!['\\', 'u', '0', '0', hex_digit(code / 16), hex_digit(code % 16)]
    } else {
        seq![c]
    }
}

/// The characters of `s`, each escaped as a JSON string literal needs.
pub open spec fn escaped(s: Seq<char>) -> Seq<char>
    decreases s.len(),
{
    if s.len() == 0 {
        seq![]
    } else {
        escaped(s.drop_last()) + escape_char(s.last())
    }
}

/// The JSON string literal of `s`.
pub open spec fn quoted(s: Seq<char>) -> Seq<char> {
    seq!['"'] + escaped(s) + seq!['"']
}

/// The compact JSON text of an object whose one member has the key literal
/// `key` and the value text `value`.
pub open spec fn object_of(key: Seq<char>, value: Seq<char>) -> Seq<char> {
    seq!['{'] + key + seq![':'] + value + seq!['}']
}

/// The compact JSON text of the object `{key: n}`.
pub open spec fn field_text(key: Seq<char>, n: int) -> Seq<char> {
    object_of(quoted(key), decimal_text(n))
}

/// A plain string needs no escape: its literal is the string between quotes.
pub proof fn lemma_plain_unescaped(s: Seq<char>)
    requires
        is_plain(s),
    ensures
        escaped(s) == s,
    decreases s.len(),
{
    if s.len() > 0 {
        let t = s.drop_last();
        assert forall|i: int| 0 <= i < t.len() implies #[trigger] t[i] != '"' && t[i] != '\\'
            && t[i] >= ' ' by {
            assert(t[i] == s[i]);
        }
        lemma_plain_unescaped(t);
        assert(s =~= t + seq![s.last()]);
    }
}

/// Relies on serde_json::to_string on an `i64`: the serializer writes the
/// integer with itoa, in decimal, with a leading minus sign when negative,
/// into a `Vec`, which never fails.
#[verifier::external_body]
fn encode_i64(n: i64) -> (r: Result<String, serde_json::Error>)
    ensures
        r is Ok,
        r matches Ok(t) ==> t@ == decimal_text(n as int),
{
    serde_json::to_string(&n)
}

/// Relies on serde_json::to_string on a `str`: a string literal between
/// quotes, in which only quotes, backslashes and control characters are
/// escaped, written into a `Vec`, which never fails.
#[verifier::external_body]
fn encode_str(s: &str) -> (r: Result<String, serde_json::Error>)
    ensures
        r is Ok,
        r matches Ok(t) ==> t@ == quoted(s@),
{
    serde_json::to_string(s)
}

/// Frames a key literal and a value text into a one-member JSON object.
pub fn object_text(key: &str, value: &str) -> (r: String)
    ensures
        r@ == object_of(key@, value@),
{
    proof {
        reveal_strlit("{");
        reveal_strlit(":");
        reveal_strlit("}");
    }
    let mut r = String::new();
    r.push_str("{");
    r.push_str(key);
    r.push_str(":");
    r.push_str(value);
    r.push_str("}");
    assert(r@ =~= object_of(key@, value@));
    r
}

/// The compact JSON text of the object `{key: n}`.
pub fn field_object(key: &str, n: i64) -> (r: String)
    ensures
        r@ == field_text(key@, n as int),
        is_plain(key@) ==> r@ == object_of(seq!['"'] + key@ + seq!['"'], decimal_text(n as int)),
{
    let k = match encode_str(key) {
        Ok(k) => k,
        Err(_) => unreached(),
    };
    let v = match encode_i64(n) {
        Ok(v) => v,
        Err(_) => unreached(),
    };
    proof {
        if is_plain(key@) {
            lemma_plain_unescaped(key@);
        }
    }
    object_text(k.as_str(), v.as_str())
}

} // verus!
