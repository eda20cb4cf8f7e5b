//! The JSON text layer: everything that reads or writes JSON syntax goes
//! through serde_json here; the rest of the crate handles members, strings
//! and integers as plain values.
use vstd::prelude::*;

verus! {

/// The members of a JSON text that is one object, each value re-encoded in
/// compact form; `None` when the text is not a JSON object.
pub uninterp spec fn object_members(text: Seq<char>) -> Option<Seq<(Seq<char>, Seq<char>)>>;

/// The string that a JSON text denotes, or `None` when it is no JSON string.
pub uninterp spec fn string_of_json(text: Seq<char>) -> Option<Seq<char>>;

/// The `i64` that a JSON text denotes, or `None` when it denotes none.
pub uninterp spec fn i64_of_json(text: Seq<char>) -> Option<i64>;

/// The JSON string literal that encodes `s`, quotes and escapes included.
pub uninterp spec fn quoted(s: Seq<char>) -> Seq<char>;

pub open spec fn pair_view(p: (String, String)) -> (Seq<char>, Seq<char>) {
    (p.0@, p.1@)
}

pub open spec fn pairs_view(v: Seq<(String, String)>) -> Seq<(Seq<char>, Seq<char>)> {
    v.map_values(|p: (String, String)| pair_view(p))
}

pub open spec fn digit_char(d: nat) -> char {
    if d == 0 { '0' }
    else if d == 1 { '1' }
    else if d == 2 { '2' }
    else if d == 3 { '3' }
    else if d == 4 { '4' }
    else if d == 5 { '5' }
    else if d == 6 { '6' }
    else if d == 7 { '7' }
    else if d == 8 { '8' }
    else { '9' }
}

/// Decimal digits of a natural number, most significant first.
pub open spec fn digits(n: nat) -> Seq<char>
    decreases n,
{
    if n < 10 {
        seq![digit_char(n)]
    } else {
        digits(n / 10).push(digit_char(n % 10))
    }
}

/// Decimal notation of an integer, with a leading `-` when negative.
pub open spec fn decimal(n: int) -> Seq<char> {
    if n < 0 {
        seq!['-'] + digits((-n) as nat)
    } else {
        digits(n as nat)
    }
}

/// serde_json's message for why a text is not JSON, or `None` when it is.
pub uninterp spec fn json_error_of(text: Seq<char>) -> Option<Seq<char>>;

/// Relies on serde_json::from_str into a serde_json::Value, and on the
/// `Display` of serde_json::Error for the message when it fails.
#[verifier::external_body]
pub(crate) fn json_error(text: &str) -> (r: Option<String>)
    ensures
        json_error_of(text@) == (match r {
            Some(e) => Some(e@),
            None => None,
        }),
{
    serde_json::from_str::<serde_json::Value>(text).err().map(|e| e.to_string())
}

/// The list of strings that a JSON text denotes, or serde_json's message for
/// why it denotes none.
pub uninterp spec fn string_list_of(text: Seq<char>) -> Result<Seq<Seq<char>>, Seq<char>>;

/// Relies on serde_json::from_str into a `Vec<String>`, and on the `Display`
/// of serde_json::Error for the message when it fails.
#[verifier::external_body]
pub(crate) fn decode_string_list(text: &str) -> (r: Result<Vec<String>, String>)
    ensures
        string_list_of(text@) == (match r {
            Ok(v) => Ok(v@.map_values(|s: String| s@)),
            Err(e) => Err(e@),
        }),
{
    serde_json::from_str::<Vec<String>>(text).map_err(|e| e.to_string())
}

/// Relies on serde_json::from_str into a serde_json::Map, and on the compact
/// `Display` of serde_json::Value for each member value.
#[verifier::external_body]
pub(crate) fn parse_object(text: &str) -> (r: Option<Vec<(String, String)>>)
    ensures
        object_members(text@) == (match r {
            Some(v) => Some(pairs_view(v@)),
            None => None,
        }),
{
    serde_json::from_str::<serde_json::Map<String, serde_json::Value>>(text).ok().map(
        |m| m.into_iter().map(|(k, v)| (k, v.to_string())).collect(),
    )
}

/// Relies on serde_json::from_str into a `String`: decodes a JSON string.
#[verifier::external_body]
pub(crate) fn decode_string(text: &str) -> (r: Option<String>)
    ensures
        string_of_json(text@) == (match r {
            Some(s) => Some(s@),
            None => None,
        }),
{
    serde_json::from_str::<String>(text).ok()
}

/// Relies on serde_json::from_str into an `i64`: decodes a JSON integer.
#[verifier::external_body]
pub(crate) fn decode_i64(text: &str) -> (r: Option<i64>)
    ensures
        i64_of_json(text@) == r,
{
    serde_json::from_str::<i64>(text).ok()
}

/// Relies on serde_json::to_string on a `str`: the quoted, escaped literal.
#[verifier::external_body]
pub(crate) fn quote(s: &str) -> (r: String)
    ensures
        r@ == quoted(s@),
{
    serde_json::to_string(s).unwrap_or_default()
}

/// Relies on `ToString` for `i64`, which writes the number in decimal.
#[verifier::external_body]
pub(crate) fn int_text(n: i64) -> (r: String)
    ensures
        r@ == decimal(n as int),
{
    n.to_string()
}

} // verus!
