//! The fixed vocabularies of fields that are kept as strings.

use crate::codec::viewed;
use crate::error::DecodeError;
use crate::json::Json;
use crate::text::same_text;
use vstd::prelude::*;

verus! {

/// `t` is a token of an order side.
pub open spec fn is_order_side(t: Seq<char>) -> bool {
    t == "BUY"@ || t == "SELL"@
}

/// `t` is a token of an order status.
pub open spec fn is_order_status(t: Seq<char>) -> bool {
    ||| t == "NEW"@
    ||| t == "PARTIALLY_FILLED"@
    ||| t == "FILLED"@
    ||| t == "CANCELED"@
    ||| t == "REJECTED"@
    ||| t == "EXPIRED"@
    ||| t == "EXPIRED_IN_MATCH"@
    ||| t == "NEW_INSURANCE"@
    ||| t == "NEW_ADL"@
}

/// The string of a field that must be there and hold a token that `known`
/// accepts.
pub open spec fn token_in(j: Option<Json>, known: spec_fn(Seq<char>) -> bool) -> Result<
    Seq<char>,
    DecodeError,
> {
    match j {
        None => Err(DecodeError::MissingRequiredField),
        Some(Json::Text(s)) => if known(s@) {
            Ok(s@)
        } else {
            Err(DecodeError::UnknownEnumValue)
        },
        Some(_) => Err(DecodeError::TypeMismatch),
    }
}

/// The order side of a field, kept as it is written.
pub open spec fn side_text_in(j: Option<Json>) -> Result<Seq<char>, DecodeError> {
    token_in(j, |t: Seq<char>| is_order_side(t))
}

/// The order status of a field, kept as it is written.
pub open spec fn status_text_in(j: Option<Json>) -> Result<Seq<char>, DecodeError> {
    token_in(j, |t: Seq<char>| is_order_status(t))
}

/// Whether `text` is a token of an order side.
pub fn known_order_side(text: &str) -> (r: bool)
    ensures
        r == is_order_side(text@),
{
    same_text(text, "BUY") || same_text(text, "SELL")
}

/// Whether `text` is a token of an order status.
pub fn known_order_status(text: &str) -> (r: bool)
    ensures
        r == is_order_status(text@),
{
    same_text(text, "NEW") || same_text(text, "PARTIALLY_FILLED") || same_text(text, "FILLED")
        || same_text(text, "CANCELED") || same_text(text, "REJECTED") || same_text(
        text,
        "EXPIRED",
    ) || same_text(text, "EXPIRED_IN_MATCH") || same_text(text, "NEW_INSURANCE") || same_text(
        text,
        "NEW_ADL",
    )
}

/// The order side of the field `key` of `j`, which must be there.
pub fn required_side_text(j: &Json, key: &str) -> (r: Result<String, DecodeError>)
    ensures
        viewed(r) == side_text_in(j.member(key@)),
{
    match j.get(key) {
        None => Err(DecodeError::MissingRequiredField),
        Some(Json::Text(s)) => if known_order_side(s.as_str()) {
            Ok(s.clone())
        } else {
            Err(DecodeError::UnknownEnumValue)
        },
        Some(_) => Err(DecodeError::TypeMismatch),
    }
}

/// The order status of the field `key` of `j`, which must be there.
pub fn required_status_text(j: &Json, key: &str) -> (r: Result<String, DecodeError>)
    ensures
        viewed(r) == status_text_in(j.member(key@)),
{
    match j.get(key) {
        None => Err(DecodeError::MissingRequiredField),
        Some(Json::Text(s)) => if known_order_status(s.as_str()) {
            Ok(s.clone())
        } else {
            Err(DecodeError::UnknownEnumValue)
        },
        Some(_) => Err(DecodeError::TypeMismatch),
    }
}

} // verus!
