//! Text: what a raw value is in a column of text.
use vstd::prelude::*;
use crate::value::RawValue;

verus! {

/// The digit of `n` in base sixteen, in lower case.
pub open spec fn hex_digit(n: int) -> char {
    seq!['0', '1', '2', '3', '4', '5', '6', '7', '8', '9', 'a', 'b', 'c', 'd', 'e', 'f'][n]
}

/// The bytes in base sixteen: two digits for each byte, the high one first.
pub open spec fn hex_text(bytes: Seq<u8>) -> Seq<char> {
    Seq::new(
        2 * bytes.len(),
        |i: int|
            hex_digit(
                if i % 2 == 0 {
                    bytes[i / 2] as int / 16
                } else {
                    bytes[i / 2] as int % 16
                },
            ),
    )
}

/// A regular expression as text: the pattern and the options, each after a
/// slash.
pub open spec fn regex_text(pattern: Seq<char>, options: Seq<char>) -> Seq<char> {
    seq!['/'] + pattern + seq!['/'] + options
}

/// The text that a raw value stands for in a column of text: text and code
/// as they are, an object identifier in base sixteen, a regular expression
/// in its written form. Every other kind of value has none.
pub open spec fn text_value(value: RawValue) -> Option<Seq<char>> {
    match value {
        RawValue::RegularExpression(regex) => Some(regex_text(regex.pattern@, regex.options@)),
        RawValue::ObjectId(id) => Some(hex_text(id@)),
        RawValue::JavaScriptCode(code) => Some(code@),
        RawValue::String(text) => Some(text@),
        _ => None,
    }
}

/// `ObjectId::to_hex`, on the identifier that `ObjectId::from_bytes` makes of
/// the bytes: the twelve bytes in base sixteen, lower case, two digits each.
#[verifier::external_body]
fn object_id_hex(bytes: &[u8; 12]) -> (r: String)
    ensures
        r@ == hex_text(bytes@),
{
    mongodb::bson::oid::ObjectId::from_bytes(*bytes).to_hex()
}

/// `to_string` of a `Regex` with the given pattern and options: a slash, the
/// pattern, a slash, the options.
#[verifier::external_body]
fn regex_to_string(pattern: &String, options: &String) -> (r: String)
    ensures
        r@ == regex_text(pattern@, options@),
{
    mongodb::bson::Regex { pattern: pattern.clone(), options: options.clone() }.to_string()
}

/// The text that a raw value stands for in a column of text.
pub fn deserialize_text(value: &RawValue) -> (r: Option<String>)
    ensures
        match r {
            Some(text) => text_value(*value) == Some(text@),
            None => text_value(*value) is None,
        },
{
    match value {
        RawValue::RegularExpression(regex) => Some(regex_to_string(&regex.pattern, &regex.options)),
        RawValue::ObjectId(id) => Some(object_id_hex(id)),
        RawValue::JavaScriptCode(code) => Some(code.clone()),
        RawValue::String(text) => Some(text.clone()),
        _ => None,
    }
}

} // verus!
