//! The numeric codec, and the reading of single fields that every message
//! shape is decoded with. The fields that count as zero where a message
//! leaves them out are read by `decimal_or_zero`, and by nothing else.

use crate::decimal::{decimal_of_text, exponent_syntax, plain_syntax, Decimal, DecimalView};
use crate::error::DecodeError;
use crate::json::Json;
use crate::text::{all_digits, chars_of, digits_of, digits_value, number_within, scan_digits};
use vstd::prelude::*;

verus! {

/// A result with the decoded value replaced by its view.
pub open spec fn viewed<T: View>(r: Result<T, DecodeError>) -> Result<T::V, DecodeError> {
    match r {
        Ok(v) => Ok(v@),
        Err(e) => Err(e),
    }
}

/// The value behind an optional reference.
pub open spec fn optional_value(j: Option<&Json>) -> Option<Json> {
    match j {
        Some(v) => Some(*v),
        None => None,
    }
}

/// The view of a decimal that may be absent.
pub open spec fn optional_decimal_view(d: Option<Decimal>) -> Option<DecimalView> {
    match d {
        Some(v) => Some(v@),
        None => None,
    }
}

/// The view of a string that may be absent.
pub open spec fn optional_text_view(s: Option<String>) -> Option<Seq<char>> {
    match s {
        Some(v) => Some(v@),
        None => None,
    }
}

/// A result with an optional decimal replaced by its view.
pub open spec fn viewed_optional_decimal(r: Result<Option<Decimal>, DecodeError>) -> Result<
    Option<DecimalView>,
    DecodeError,
> {
    match r {
        Ok(d) => Ok(optional_decimal_view(d)),
        Err(e) => Err(e),
    }
}

/// A result with an optional string replaced by its view.
pub open spec fn viewed_optional_text(r: Result<Option<String>, DecodeError>) -> Result<
    Option<Seq<char>>,
    DecodeError,
> {
    match r {
        Ok(s) => Ok(optional_text_view(s)),
        Err(e) => Err(e),
    }
}

/// The views of decoded values, one for one.
pub open spec fn views<T: View>(v: Seq<T>) -> Seq<T::V> {
    Seq::new(v.len(), |i: int| v[i]@)
}

/// A result with each decoded value replaced by its view.
pub open spec fn viewed_each<T: View>(r: Result<Vec<T>, DecodeError>) -> Result<
    Seq<T::V>,
    DecodeError,
> {
    match r {
        Ok(v) => Ok(views(v@)),
        Err(e) => Err(e),
    }
}

/// The decimal that a scalar holds. A string is read in plain decimal
/// syntax; a number is read as it is written, exponent included.
pub open spec fn decimal_in(j: Json) -> Result<DecimalView, DecodeError> {
    match j {
        Json::Text(s) => match decimal_of_text(s@, false) {
            Some(d) => Ok(d),
            None => Err(DecodeError::MalformedNumber),
        },
        Json::Number(s) => match decimal_of_text(s@, true) {
            Some(d) => Ok(d),
            None => Err(DecodeError::MalformedNumber),
        },
        _ => Err(DecodeError::TypeMismatch),
    }
}

/// The decimal that a scalar holds, if it is there: an absent value and
/// `null` hold none.
pub open spec fn optional_decimal_in(j: Option<Json>) -> Result<Option<DecimalView>, DecodeError> {
    match j {
        None => Ok(None),
        Some(Json::Null) => Ok(None),
        Some(v) => match decimal_in(v) {
            Ok(d) => Ok(Some(d)),
            Err(e) => Err(e),
        },
    }
}

/// Decodes a scalar into a decimal: a string in plain decimal syntax, or a
/// number.
pub fn decode(j: &Json) -> (r: Result<Decimal, DecodeError>)
    ensures
        viewed(r) == decimal_in(*j),
        r matches Ok(d) ==> d.wf(),
{
    match j {
        Json::Text(s) => Decimal::parse(s.as_str()),
        Json::Number(s) => Decimal::parse_scientific(s.as_str()),
        _ => Err(DecodeError::TypeMismatch),
    }
}

/// Decodes a scalar that may be absent or `null`.
pub fn decode_optional(j: Option<&Json>) -> (r: Result<Option<Decimal>, DecodeError>)
    ensures
        viewed_optional_decimal(r) == optional_decimal_in(optional_value(j)),
        r matches Ok(Some(d)) ==> d.wf(),
{
    match j {
        None => Ok(None),
        Some(Json::Null) => Ok(None),
        Some(v) => match decode(v) {
            Ok(d) => Ok(Some(d)),
            Err(e) => Err(e),
        },
    }
}

/// Encodes a decimal as the string that outbound parameters carry.
pub fn encode(d: &Decimal) -> (r: String)
    ensures
        r@ == d.text(),
        decimal_of_text(r@, false) == Some(d@),
        decimal_in(Json::Text(r)) == Ok::<DecimalView, DecodeError>(d@),
{
    d.encode()
}

/// Decoding what `encode` writes gives the decimal back, whether the text
/// arrives as a string or as a number.
pub proof fn lemma_decode_of_encode(d: Decimal, written: String)
    requires
        d.wf(),
        written@ == d.text(),
    ensures
        decimal_in(Json::Text(written)) == Ok::<DecimalView, DecodeError>(d@),
        decimal_in(Json::Number(written)) == Ok::<DecimalView, DecodeError>(d@),
{
    d.lemma_text_round_trip();
}

/// The same text decodes alike as a string and as a number, unless it is
/// written with an exponent, which only a number may have.
pub proof fn lemma_string_number_duality(written: String)
    requires
        !exponent_syntax(written@),
    ensures
        decimal_in(Json::Number(written)) == decimal_in(Json::Text(written)),
        optional_decimal_in(Some(Json::Number(written))) == optional_decimal_in(
            Some(Json::Text(written)),
        ),
{
}

/// A string in plain decimal syntax decodes, and decodes alike as a number.
pub proof fn lemma_plain_text_decodes(written: String)
    requires
        plain_syntax(written@),
    ensures
        decimal_in(Json::Text(written)) is Ok,
        decimal_in(Json::Number(written)) == decimal_in(Json::Text(written)),
{
}

/// Which of the two naming conventions a message follows: the long names of
/// request responses, or the short tags of pushed messages.
#[derive(Debug, Clone, Copy, PartialEq, Eq)]
pub enum Wire {
    Rest,
    Stream,
}

impl Wire {
    /// The name that a field has under this convention.
    pub open spec fn name(self, long: &str, short: &str) -> Seq<char> {
        match self {
            Wire::Rest => long@,
            Wire::Stream => short@,
        }
    }

    /// The name that a field has under this convention.
    pub fn pick<'a>(self, long: &'a str, short: &'a str) -> (r: &'a str)
        ensures
            r@ == self.name(long, short),
    {
        match self {
            Wire::Rest => long,
            Wire::Stream => short,
        }
    }
}

/// The decimal of a field that must be there.
pub open spec fn required_decimal_in(j: Option<Json>) -> Result<DecimalView, DecodeError> {
    match j {
        None => Err(DecodeError::MissingRequiredField),
        Some(v) => decimal_in(v),
    }
}

/// A result of a field that is there, as the result of one that may be
/// absent.
pub open spec fn present<V>(r: Result<V, DecodeError>) -> Result<Option<V>, DecodeError> {
    match r {
        Ok(v) => Ok(Some(v)),
        Err(e) => Err(e),
    }
}

/// The decimal of a field that counts as zero where the message leaves it
/// out.
pub open spec fn decimal_or_zero_in(j: Option<Json>) -> Result<DecimalView, DecodeError> {
    match j {
        None => Ok(DecimalView { unscaled: 0, scale: 0 }),
        Some(v) => decimal_in(v),
    }
}

/// The decimal of the field `key` of `j`, which must be there.
pub fn required_decimal(j: &Json, key: &str) -> (r: Result<Decimal, DecodeError>)
    ensures
        viewed(r) == required_decimal_in(j.member(key@)),
        r matches Ok(d) ==> d.wf(),
{
    match j.get(key) {
        None => Err(DecodeError::MissingRequiredField),
        Some(v) => decode(v),
    }
}

/// The decimal of the field `key` of `j`, which may be left out or `null`.
pub fn optional_decimal(j: &Json, key: &str) -> (r: Result<Option<Decimal>, DecodeError>)
    ensures
        viewed_optional_decimal(r) == optional_decimal_in(j.member(key@)),
        r matches Ok(Some(d)) ==> d.wf(),
{
    decode_optional(j.get(key))
}

/// The decimal of the field `key` of `j`, zero where the message leaves the
/// field out.
pub fn decimal_or_zero(j: &Json, key: &str) -> (r: Result<Decimal, DecodeError>)
    ensures
        viewed(r) == decimal_or_zero_in(j.member(key@)),
        r matches Ok(d) ==> d.wf(),
{
    match j.get(key) {
        None => Ok(Decimal::zero()),
        Some(v) => decode(v),
    }
}

/// The string of a field that must be there.
pub open spec fn text_in(j: Option<Json>) -> Result<Seq<char>, DecodeError> {
    match j {
        None => Err(DecodeError::MissingRequiredField),
        Some(Json::Text(s)) => Ok(s@),
        Some(_) => Err(DecodeError::TypeMismatch),
    }
}

/// The string of a field that may be left out or `null`.
pub open spec fn optional_text_in(j: Option<Json>) -> Result<Option<Seq<char>>, DecodeError> {
    match j {
        None => Ok(None),
        Some(Json::Null) => Ok(None),
        Some(Json::Text(s)) => Ok(Some(s@)),
        Some(_) => Err(DecodeError::TypeMismatch),
    }
}

/// The string that `v` holds, which must be there.
pub fn text_of(v: Option<&Json>) -> (r: Result<String, DecodeError>)
    ensures
        viewed(r) == text_in(optional_value(v)),
{
    match v {
        None => Err(DecodeError::MissingRequiredField),
        Some(Json::Text(s)) => Ok(s.clone()),
        Some(_) => Err(DecodeError::TypeMismatch),
    }
}

/// The string of the field `key` of `j`, which must be there.
pub fn required_text(j: &Json, key: &str) -> (r: Result<String, DecodeError>)
    ensures
        viewed(r) == text_in(j.member(key@)),
{
    text_of(j.get(key))
}

/// The string of the field `key` of `j`, which may be left out or `null`.
pub fn optional_text(j: &Json, key: &str) -> (r: Result<Option<String>, DecodeError>)
    ensures
        viewed_optional_text(r) == optional_text_in(j.member(key@)),
{
    match j.get(key) {
        None => Ok(None),
        Some(Json::Null) => Ok(None),
        Some(Json::Text(s)) => Ok(Some(s.clone())),
        Some(_) => Err(DecodeError::TypeMismatch),
    }
}

/// The truth value of a field that must be there.
pub open spec fn flag_in(j: Option<Json>) -> Result<bool, DecodeError> {
    match j {
        None => Err(DecodeError::MissingRequiredField),
        Some(Json::Bool(b)) => Ok(b),
        Some(_) => Err(DecodeError::TypeMismatch),
    }
}

/// The truth value of a field that may be left out or `null`.
pub open spec fn optional_flag_in(j: Option<Json>) -> Result<Option<bool>, DecodeError> {
    match j {
        None => Ok(None),
        Some(Json::Null) => Ok(None),
        Some(Json::Bool(b)) => Ok(Some(b)),
        Some(_) => Err(DecodeError::TypeMismatch),
    }
}

/// The truth value of the field `key` of `j`, which must be there.
pub fn required_flag(j: &Json, key: &str) -> (r: Result<bool, DecodeError>)
    ensures
        r == flag_in(j.member(key@)),
{
    match j.get(key) {
        None => Err(DecodeError::MissingRequiredField),
        Some(Json::Bool(b)) => Ok(*b),
        Some(_) => Err(DecodeError::TypeMismatch),
    }
}

/// The truth value of the field `key` of `j`, which may be left out or
/// `null`.
pub fn optional_flag(j: &Json, key: &str) -> (r: Result<Option<bool>, DecodeError>)
    ensures
        r == optional_flag_in(j.member(key@)),
{
    match j.get(key) {
        None => Ok(None),
        Some(Json::Null) => Ok(None),
        Some(Json::Bool(b)) => Ok(Some(*b)),
        Some(_) => Err(DecodeError::TypeMismatch),
    }
}

/// The whole number that the text of a JSON number writes, where it is
/// written with digits alone and is at most `max`.
pub open spec fn count_of_text(t: Seq<char>, max: nat) -> Option<nat> {
    if t.len() > 0 && all_digits(t) && digits_value(digits_of(t)) <= max {
        Some(digits_value(digits_of(t)))
    } else {
        None
    }
}

/// The whole number, at most `max`, of a field that must be there. A number
/// with a sign, a fraction or an exponent is of the wrong kind, and so is
/// one above `max`.
pub open spec fn count_in(j: Option<Json>, max: nat) -> Result<nat, DecodeError> {
    match j {
        None => Err(DecodeError::MissingRequiredField),
        Some(Json::Number(s)) => match count_of_text(s@, max) {
            Some(n) => Ok(n),
            None => Err(DecodeError::TypeMismatch),
        },
        Some(_) => Err(DecodeError::TypeMismatch),
    }
}

/// The whole number of a field that must be there and fit 64 bits.
pub open spec fn u64_in(j: Option<Json>) -> Result<u64, DecodeError> {
    match count_in(j, u64::MAX as nat) {
        Ok(n) => Ok(n as u64),
        Err(e) => Err(e),
    }
}

/// The whole number of a field that must be there and fit 16 bits.
pub open spec fn u16_in(j: Option<Json>) -> Result<u16, DecodeError> {
    match count_in(j, u16::MAX as nat) {
        Ok(n) => Ok(n as u16),
        Err(e) => Err(e),
    }
}

/// The whole number of a field that must be there and fit 8 bits.
pub open spec fn u8_in(j: Option<Json>) -> Result<u8, DecodeError> {
    match count_in(j, u8::MAX as nat) {
        Ok(n) => Ok(n as u8),
        Err(e) => Err(e),
    }
}

/// The whole number, fitting 16 bits, of a field that may be left out or
/// `null`.
pub open spec fn optional_u16_in(j: Option<Json>) -> Result<Option<u16>, DecodeError> {
    match j {
        None => Ok(None),
        Some(Json::Null) => Ok(None),
        Some(_) => match u16_in(j) {
            Ok(n) => Ok(Some(n)),
            Err(e) => Err(e),
        },
    }
}

/// Reads the whole number that `text` writes with digits alone, where it is
/// at most `max`.
pub fn count_from_text(text: &str, max: u64) -> (r: Option<u64>)
    ensures
        r matches Some(n) ==> count_of_text(text@, max as nat) == Some(n as nat),
        r is None ==> count_of_text(text@, max as nat) is None,
{
    let t = chars_of(text);
    let mut digits: Vec<u8> = Vec::new();
    let end = scan_digits(&t, 0, &mut digits);
    proof {
        crate::text::lemma_digit_run_end(t@, 0);
        assert(t@.subrange(0, end as int) =~= t@.take(end as int));
        if end == t.len() {
            assert(t@.take(end as int) =~= t@);
        }
    }
    if t.len() == 0 || end != t.len() {
        return None;
    }
    number_within(&digits, max)
}

/// The whole number, at most `max`, that `v` holds, which must be there.
pub fn count_of(v: Option<&Json>, max: u64) -> (r: Result<u64, DecodeError>)
    ensures
        r matches Ok(n) ==> count_in(optional_value(v), max as nat) == Ok::<nat, DecodeError>(
            n as nat,
        ),
        r matches Err(e) ==> count_in(optional_value(v), max as nat) == Err::<nat, DecodeError>(e),
{
    match v {
        None => Err(DecodeError::MissingRequiredField),
        Some(Json::Number(s)) => match count_from_text(s.as_str(), max) {
            Some(n) => Ok(n),
            None => Err(DecodeError::TypeMismatch),
        },
        Some(_) => Err(DecodeError::TypeMismatch),
    }
}

/// The whole number that `v` holds, which must be there and fit 64 bits.
pub fn u64_of(v: Option<&Json>) -> (r: Result<u64, DecodeError>)
    ensures
        r == u64_in(optional_value(v)),
{
    count_of(v, u64::MAX)
}

/// The whole number, at most `max`, of the field `key` of `j`, which must be
/// there.
pub fn required_count(j: &Json, key: &str, max: u64) -> (r: Result<u64, DecodeError>)
    ensures
        r matches Ok(n) ==> count_in(j.member(key@), max as nat) == Ok::<nat, DecodeError>(
            n as nat,
        ),
        r matches Err(e) ==> count_in(j.member(key@), max as nat) == Err::<nat, DecodeError>(e),
{
    count_of(j.get(key), max)
}

/// The whole number of the field `key` of `j`, which must be there and fit
/// 64 bits.
pub fn required_u64(j: &Json, key: &str) -> (r: Result<u64, DecodeError>)
    ensures
        r == u64_in(j.member(key@)),
{
    required_count(j, key, u64::MAX)
}

/// The whole number of the field `key` of `j`, which must be there and fit
/// 16 bits.
pub fn required_u16(j: &Json, key: &str) -> (r: Result<u16, DecodeError>)
    ensures
        r == u16_in(j.member(key@)),
{
    match required_count(j, key, 0xffff) {
        Ok(n) => Ok(n as u16),
        Err(e) => Err(e),
    }
}

/// The whole number of the field `key` of `j`, which must be there and fit
/// 8 bits.
pub fn required_u8(j: &Json, key: &str) -> (r: Result<u8, DecodeError>)
    ensures
        r == u8_in(j.member(key@)),
{
    match required_count(j, key, 0xff) {
        Ok(n) => Ok(n as u8),
        Err(e) => Err(e),
    }
}

/// The whole number, fitting 16 bits, of the field `key` of `j`, which may
/// be left out or `null`.
pub fn optional_u16(j: &Json, key: &str) -> (r: Result<Option<u16>, DecodeError>)
    ensures
        r == optional_u16_in(j.member(key@)),
{
    match j.get(key) {
        None => Ok(None),
        Some(Json::Null) => Ok(None),
        Some(_) => match required_u16(j, key) {
            Ok(n) => Ok(Some(n)),
            Err(e) => Err(e),
        },
    }
}

/// The value of a field that must be there, decoded by `f`.
pub open spec fn nested_in<V>(
    j: Option<Json>,
    f: spec_fn(Json) -> Result<V, DecodeError>,
) -> Result<V, DecodeError> {
    match j {
        None => Err(DecodeError::MissingRequiredField),
        Some(v) => f(v),
    }
}

/// The value of the field `key` of `j`, which must be there.
pub fn required_member<'a>(j: &'a Json, key: &str) -> (r: Result<&'a Json, DecodeError>)
    ensures
        r matches Ok(v) ==> j.member(key@) == Some(*v),
        r matches Err(e) ==> e == DecodeError::MissingRequiredField && j.member(key@) is None,
{
    match j.get(key) {
        None => Err(DecodeError::MissingRequiredField),
        Some(v) => Ok(v),
    }
}

/// The element at `index` of `items`, if there is one.
pub open spec fn item_at(items: Seq<Json>, index: int) -> Option<Json> {
    if 0 <= index < items.len() {
        Some(items[index])
    } else {
        None
    }
}

/// The element at `index` of `items`, if there is one.
pub fn item<'a>(items: &'a Vec<Json>, index: usize) -> (r: Option<&'a Json>)
    ensures
        optional_value(r) == item_at(items@, index as int),
{
    if index < items.len() {
        Some(&items[index])
    } else {
        None
    }
}

/// The error of the first of `items` that `f` does not decode.
pub open spec fn first_failure<V>(
    items: Seq<Json>,
    f: spec_fn(Json) -> Result<V, DecodeError>,
) -> Option<DecodeError>
    decreases items.len(),
{
    if items.len() == 0 {
        None
    } else if f(items[0]) is Err {
        Some(f(items[0])->Err_0)
    } else {
        first_failure(items.drop_first(), f)
    }
}

/// Every one of `items` decoded by `f`, in order, or the error of the first
/// that is not.
pub open spec fn each_in<V>(items: Seq<Json>, f: spec_fn(Json) -> Result<V, DecodeError>) -> Result<
    Seq<V>,
    DecodeError,
> {
    match first_failure(items, f) {
        Some(e) => Err(e),
        None => Ok(Seq::new(items.len(), |i: int| f(items[i])->Ok_0)),
    }
}

/// The elements of a value that must be an array, each decoded by `f`.
pub open spec fn array_of<V>(j: Json, f: spec_fn(Json) -> Result<V, DecodeError>) -> Result<
    Seq<V>,
    DecodeError,
> {
    match j {
        Json::Array(v) => each_in(v@, f),
        _ => Err(DecodeError::TypeMismatch),
    }
}

/// The elements of a field that must be there and hold an array, each
/// decoded by `f`.
pub open spec fn list_in<V>(j: Option<Json>, f: spec_fn(Json) -> Result<V, DecodeError>) -> Result<
    Seq<V>,
    DecodeError,
> {
    nested_in(j, |v: Json| array_of(v, f))
}

/// Decodes every one of `items` with `f`, in order, and stops at the first
/// that fails.
pub(crate) fn decode_each<T: View, F: Fn(&Json) -> Result<T, DecodeError>>(
    items: &Vec<Json>,
    f: F,
    Ghost(decoded): Ghost<spec_fn(Json) -> Result<T::V, DecodeError>>,
) -> (r: Result<Vec<T>, DecodeError>)
    requires
        forall|j: &Json| #[trigger] f.requires((j,)),
        forall|j: &Json, o: Result<T, DecodeError>| #[trigger]
            f.ensures((j,), o) ==> viewed(o) == decoded(*j),
    ensures
        viewed_each(r) == each_in(items@, decoded),
{
    let mut out: Vec<T> = Vec::new();
    let mut i: usize = 0;
    proof {
        assert(items@.skip(0) =~= items@);
    }
    while i < items.len()
        invariant
            i <= items.len(),
            out.len() == i,
            forall|j: &Json| #[trigger] f.requires((j,)),
            forall|j: &Json, o: Result<T, DecodeError>| #[trigger]
                f.ensures((j,), o) ==> viewed(o) == decoded(*j),
            first_failure(items@, decoded) == first_failure(items@.skip(i as int), decoded),
            forall|k: int| 0 <= k < i ==> decoded(items@[k]) == Ok::<T::V, DecodeError>(out@[k]@),
        decreases items.len() - i,
    {
        proof {
            assert(items@.skip(i as int)[0] == items@[i as int]);
            assert(items@.skip(i as int).drop_first() =~= items@.skip(i + 1));
        }
        match f(&items[i]) {
            Ok(v) => {
                out.push(v);
            },
            Err(e) => {
                return Err(e);
            },
        }
        i = i + 1;
    }
    proof {
        assert(first_failure(items@.skip(i as int), decoded) is None);
        assert(views(out@) =~= Seq::new(items@.len(), |k: int| decoded(items@[k])->Ok_0));
    }
    Ok(out)
}

/// The string that `j` holds.
pub fn text_item(j: &Json) -> (r: Result<String, DecodeError>)
    ensures
        viewed(r) == text_in(Some(*j)),
{
    match j {
        Json::Text(s) => Ok(s.clone()),
        _ => Err(DecodeError::TypeMismatch),
    }
}

/// The strings that the array `j` holds.
pub fn text_list(j: &Json) -> (r: Result<Vec<String>, DecodeError>)
    ensures
        viewed_each(r) == array_of(*j, |v: Json| text_in(Some(v))),
{
    match j {
        Json::Array(items) => decode_each(items, text_item, Ghost(|v: Json| text_in(Some(v)))),
        _ => Err(DecodeError::TypeMismatch),
    }
}

} // verus!
