//! JSON text of the small bodies the service sends: a string literal and an
//! object with one string entry, written as `serde_json` writes them.

use vstd::prelude::*;

verus! {

/// A lower-case hexadecimal digit for a value below sixteen.
pub open spec fn lower_hex_digit(n: int) -> char {
    if n < 10 {
        (48 + n) as char
    } else {
        (87 + n) as char
    }
}

/// How one character stands inside a JSON string: quote and backslash are
/// escaped, the control characters with a short escape take it, the other
/// control characters below 0x20 become `\u00xx`, everything else stands as is.
pub open spec fn json_escape_char(c: char) -> Seq<char> {
    let v = c as int;
    if c == '"' {
        seq!['\\', '"']
    } else if c == '\\' {
        seq!['\\', '\\']
    } else if v == 8 {
        seq!['\\', 'b']
    } else if v == 9 {
        seq!['\\', 't']
    } else if v == 10 {
        seq!['\\', 'n']
    } else if v == 12 {
        seq!['\\', 'f']
    } else if v == 13 {
        seq!['\\', 'r']
    } else if v < 32 {
        seq!['\\', 'u', '0', '0', lower_hex_digit(v / 16), lower_hex_digit(v % 16)]
    } else {
        seq![c]
    }
}

/// The escaped form of a whole string.
pub open spec fn json_escape(s: Seq<char>) -> Seq<char>
    decreases s.len(),
{
    if s.len() == 0 {
        seq![]
    } else {
        json_escape(s.drop_last()) + json_escape_char(s.last())
    }
}

/// A JSON string literal holding `s`.
pub open spec fn json_string_text(s: Seq<char>) -> Seq<char> {
    seq!['"'] + json_escape(s) + seq!['"']
}

/// A JSON object with the single entry `key: value`, with no spaces.
pub open spec fn json_object_text(key: Seq<char>, value: Seq<char>) -> Seq<char> {
    seq!['{'] + json_string_text(key) + seq![':'] + json_string_text(value) + seq!['}']
}

/// Calls `serde_json::to_string` on a string slice. Its source writes a quote,
/// the escaped characters (the escape table in `ser.rs`: `\"`, `\\`, `\b`,
/// `\t`, `\n`, `\f`, `\r`, and `\u00xx` with lower-case digits for the other
/// bytes below 0x20) and a closing quote, and cannot fail on a string.
#[verifier::external_body]
fn serde_json_string(s: &str) -> (r: String)
    ensures
        r@ == json_string_text(s@),
{
    serde_json::to_string(s).unwrap_or_default()
}

/// The JSON string literal holding `s`.
pub fn json_string(s: &str) -> (r: String)
    ensures
        r@ == json_string_text(s@),
{
    serde_json_string(s)
}

/// The JSON object `{"key":"value"}`.
pub fn json_object_of_string(key: &str, value: &str) -> (r: String)
    ensures
        r@ == json_object_text(key@, value@),
{
    let key_text = serde_json_string(key);
    let value_text = serde_json_string(value);
    let mut out = String::from_str("{");
    out.append(key_text.as_str());
    out.append(":");
    out.append(value_text.as_str());
    out.append("}");
    proof {
        reveal_strlit("{");
        reveal_strlit(":");
        reveal_strlit("}");
    }
    assert(out@ =~= json_object_text(key@, value@));
    out
}

} // verus!
