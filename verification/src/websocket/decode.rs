//! Typed decoding of generic values: the errors, the readers for single
//! members of a record, and the trait that ties a type to its wire shape.

use vstd::prelude::*;
use crate::decimal::{
    decimal_of_text, lemma_decimal_of_text_is_canonical, lemma_marker_case, same_but_marker,
    Decimal, DecimalModel,
};
use crate::wire::{views_of, Json, WireValue};

verus! {

/// Why a value did not have the shape asked of it.
#[derive(Clone, Copy, Debug, PartialEq, Eq)]
pub enum DecodeErrorKind {
    /// A record has no member of the name.
    MissingField,
    /// A record was asked for, and the value is none.
    ExpectedObject,
    /// A list was asked for, and the value is none.
    ExpectedArray,
    /// A text was asked for, and the value is none.
    ExpectedString,
    /// A boolean was asked for, and the value is none.
    ExpectedBool,
    /// An unsigned integer was asked for, and the value is none that fits.
    ExpectedUnsigned,
    /// An amount was asked for, and the value is neither a number nor a text.
    ExpectedNumber,
    /// An amount was asked for, and the text or number is no decimal literal.
    InvalidNumber,
    /// A positional tuple has the wrong number of elements.
    WrongArity,
    /// A value is outside the closed set of values or shapes of a member.
    UnknownVariant,
    /// A list that must hold something is empty.
    Empty,
}

/// A failed decoding: what was wrong, and the member at which it was found
/// (empty where the value as a whole is meant).
#[derive(Clone, Copy, Debug, PartialEq, Eq)]
pub struct DecodeError {
    pub kind: DecodeErrorKind,
    pub field: &'static str,
}

impl DeepView for WireValue {
    type V = Json;

    open spec fn deep_view(&self) -> Json {
        self@
    }
}

impl DeepView for Decimal {
    type V = DecimalModel;

    open spec fn deep_view(&self) -> DecimalModel {
        self@
    }
}

/// Whether an outcome is the expected one: the expected error, or a value
/// with the expected model.
pub open spec fn agrees<T: DeepView>(
    r: Result<T, DecodeError>,
    expected: Result<T::V, DecodeError>,
) -> bool {
    match r {
        Ok(x) => expected == Ok::<T::V, DecodeError>(x.deep_view()),
        Err(e) => expected == Err::<T::V, DecodeError>(e),
    }
}

/// A type that can be read from a generic value.
pub trait FromJson: Sized + DeepView {
    /// What a value decodes to: the model of the typed value, or the first
    /// error in the order in which the members are declared.
    spec fn decoded(value: Json) -> Result<Self::V, DecodeError>;

    /// Converts a generic value into a typed one, if it has the shape.
    fn from_json(value: &WireValue) -> (r: Result<Self, DecodeError>)
        ensures
            agrees(r, Self::decoded(value@)),
    ;
}

/// The text member `key` of a record.
pub open spec fn text_member(value: Json, key: &'static str) -> Result<Seq<char>, DecodeError> {
    match value.field(key@) {
        None => Err(DecodeError { kind: DecodeErrorKind::MissingField, field: key }),
        Some(v) => match v.text() {
            None => Err(DecodeError { kind: DecodeErrorKind::ExpectedString, field: key }),
            Some(s) => Ok(s),
        },
    }
}

/// The boolean member `key` of a record.
pub open spec fn flag_member(value: Json, key: &'static str) -> Result<bool, DecodeError> {
    match value.field(key@) {
        None => Err(DecodeError { kind: DecodeErrorKind::MissingField, field: key }),
        Some(v) => match v.flag() {
            None => Err(DecodeError { kind: DecodeErrorKind::ExpectedBool, field: key }),
            Some(b) => Ok(b),
        },
    }
}

/// The unsigned integer member `key` of a record.
pub open spec fn count_member(value: Json, key: &'static str) -> Result<usize, DecodeError> {
    match value.field(key@) {
        None => Err(DecodeError { kind: DecodeErrorKind::MissingField, field: key }),
        Some(v) => match v.unsigned() {
            Some(n) if n <= usize::MAX => Ok(n as usize),
            _ => Err(DecodeError { kind: DecodeErrorKind::ExpectedUnsigned, field: key }),
        },
    }
}

/// The amount that a value holds, as a number or as a text with a decimal
/// literal; an error names `field`.
pub open spec fn amount_of(value: Json, field: &'static str) -> Result<DecimalModel, DecodeError> {
    match value {
        Json::Number(s) | Json::Text(s) => match decimal_of_text(s) {
            Some(d) => Ok(d),
            None => Err(DecodeError { kind: DecodeErrorKind::InvalidNumber, field }),
        },
        _ => Err(DecodeError { kind: DecodeErrorKind::ExpectedNumber, field }),
    }
}

/// The amount member `key` of a record.
pub open spec fn amount_member(value: Json, key: &'static str) -> Result<
    DecimalModel,
    DecodeError,
> {
    match value.field(key@) {
        None => Err(DecodeError { kind: DecodeErrorKind::MissingField, field: key }),
        Some(v) => amount_of(v, key),
    }
}

/// The member `key` of a record, decoded as a `T`.
pub open spec fn member<T: FromJson>(value: Json, key: &'static str) -> Result<T::V, DecodeError> {
    match value.field(key@) {
        None => Err(DecodeError { kind: DecodeErrorKind::MissingField, field: key }),
        Some(v) => T::decoded(v),
    }
}

/// An amount decodes alike from a number and from a text with the same
/// literal.
pub proof fn lemma_amount_ignores_encoding(literal: Seq<char>, field: &'static str)
    ensures
        amount_of(Json::Text(literal), field) == amount_of(Json::Number(literal), field),
{
}

/// An amount decodes alike whichever case the exponent marker of its literal
/// has.
pub proof fn lemma_amount_ignores_marker_case(a: Seq<char>, b: Seq<char>, field: &'static str)
    requires
        same_but_marker(a, b),
    ensures
        amount_of(Json::Text(a), field) == amount_of(Json::Text(b), field),
{
    lemma_marker_case(a, b);
}

/// Every amount that is decoded is in canonical form.
pub proof fn lemma_amount_is_canonical(value: Json, field: &'static str)
    ensures
        amount_of(value, field) matches Ok(d) ==> d.canonical(),
        amount_member(value, field) matches Ok(d) ==> d.canonical(),
{
    match value {
        Json::Number(s) | Json::Text(s) => {
            lemma_decimal_of_text_is_canonical(s);
        },
        _ => {},
    }
    match value.field(field@) {
        Some(Json::Number(s)) | Some(Json::Text(s)) => {
            lemma_decimal_of_text_is_canonical(s);
        },
        _ => {},
    }
}

/// The elements of a list decoded one by one, up to the first that fails.
pub open spec fn decoded_items<T: FromJson>(items: Seq<Json>) -> Result<Seq<T::V>, DecodeError>
    decreases items.len(),
{
    if items.len() == 0 {
        Ok(Seq::empty())
    } else {
        match decoded_items::<T>(items.drop_last()) {
            Err(e) => Err(e),
            Ok(front) => match T::decoded(items.last()) {
                Err(e) => Err(e),
                Ok(x) => Ok(front.push(x)),
            },
        }
    }
}

/// A list fails where one of its prefixes fails, and with the same error.
pub proof fn lemma_decoded_items_prefix<T: FromJson>(items: Seq<Json>, k: int)
    requires
        0 <= k <= items.len(),
        decoded_items::<T>(items.take(k)) is Err,
    ensures
        decoded_items::<T>(items) == decoded_items::<T>(items.take(k)),
    decreases items.len(),
{
    if k < items.len() {
        assert(items.drop_last().take(k) == items.take(k));
        lemma_decoded_items_prefix::<T>(items.drop_last(), k);
    } else {
        assert(items.take(k) == items);
    }
}

/// Reads the text member `key` of a record.
pub fn read_text(value: &WireValue, key: &'static str) -> (r: Result<String, DecodeError>)
    ensures
        agrees(r, text_member(value@, key)),
{
    match value.get(key) {
        None => Err(DecodeError { kind: DecodeErrorKind::MissingField, field: key }),
        Some(v) => match v.as_str() {
            None => Err(DecodeError { kind: DecodeErrorKind::ExpectedString, field: key }),
            Some(s) => Ok(s.to_owned()),
        },
    }
}

/// Reads the boolean member `key` of a record.
pub fn read_flag(value: &WireValue, key: &'static str) -> (r: Result<bool, DecodeError>)
    ensures
        agrees(r, flag_member(value@, key)),
{
    match value.get(key) {
        None => Err(DecodeError { kind: DecodeErrorKind::MissingField, field: key }),
        Some(v) => match v.as_bool() {
            None => Err(DecodeError { kind: DecodeErrorKind::ExpectedBool, field: key }),
            Some(b) => Ok(b),
        },
    }
}

/// Reads the unsigned integer member `key` of a record.
pub fn read_count(value: &WireValue, key: &'static str) -> (r: Result<usize, DecodeError>)
    ensures
        agrees(r, count_member(value@, key)),
{
    match value.get(key) {
        None => Err(DecodeError { kind: DecodeErrorKind::MissingField, field: key }),
        Some(v) => match v.as_u64() {
            Some(n) if n <= usize::MAX as u64 => Ok(n as usize),
            _ => Err(DecodeError { kind: DecodeErrorKind::ExpectedUnsigned, field: key }),
        },
    }
}

/// Reads an amount from a number or from a text with a decimal literal.
pub fn read_amount_of(value: &WireValue, field: &'static str) -> (r: Result<Decimal, DecodeError>)
    ensures
        agrees(r, amount_of(value@, field)),
        r matches Ok(d) ==> d.is_canonical(),
{
    let literal = match value {
        WireValue::Number(s) => s.as_str(),
        WireValue::String(s) => s.as_str(),
        _ => {
            return Err(DecodeError { kind: DecodeErrorKind::ExpectedNumber, field });
        },
    };
    match Decimal::parse(literal) {
        Some(d) => Ok(d),
        None => Err(DecodeError { kind: DecodeErrorKind::InvalidNumber, field }),
    }
}

/// Reads the amount member `key` of a record.
pub fn read_amount(value: &WireValue, key: &'static str) -> (r: Result<Decimal, DecodeError>)
    ensures
        agrees(r, amount_member(value@, key)),
        r matches Ok(d) ==> d.is_canonical(),
{
    match value.get(key) {
        None => Err(DecodeError { kind: DecodeErrorKind::MissingField, field: key }),
        Some(v) => read_amount_of(v, key),
    }
}

/// Reads the member `key` of a record as a `T`.
pub fn read_member<T: FromJson>(value: &WireValue, key: &'static str) -> (r: Result<T, DecodeError>)
    ensures
        agrees(r, member::<T>(value@, key)),
{
    match value.get(key) {
        None => Err(DecodeError { kind: DecodeErrorKind::MissingField, field: key }),
        Some(v) => T::from_json(v),
    }
}

impl<T: FromJson> FromJson for Vec<T> {
    /// A list decodes element by element, in order.
    open spec fn decoded(value: Json) -> Result<Seq<T::V>, DecodeError> {
        match value.items() {
            None => Err(DecodeError { kind: DecodeErrorKind::ExpectedArray, field: "" }),
            Some(items) => decoded_items::<T>(items),
        }
    }

    fn from_json(value: &WireValue) -> (r: Result<Self, DecodeError>)
        ensures
            agrees(r, Self::decoded(value@)),
    {
        let items = match value.as_array() {
            None => {
                return Err(DecodeError { kind: DecodeErrorKind::ExpectedArray, field: "" });
            },
            Some(items) => items,
        };
        let mut out: Vec<T> = Vec::new();
        let mut i: usize = 0;
        assert(out.deep_view() == Seq::<T::V>::empty());
        assert(views_of(items@).take(0) == Seq::<Json>::empty());
        while i < items.len()
            invariant
                i <= items.len(),
                value@.items() == Some(views_of(items@)),
                decoded_items::<T>(views_of(items@).take(i as int)) == Ok::<Seq<T::V>, DecodeError>(
                    out.deep_view(),
                ),
            decreases items.len() - i,
        {
            assert(views_of(items@).take(i + 1).drop_last() == views_of(items@).take(i as int));
            match T::from_json(&items[i]) {
                Err(e) => {
                    proof {
                        lemma_decoded_items_prefix::<T>(views_of(items@), i + 1);
                    }
                    return Err(e);
                },
                Ok(x) => {
                    let ghost before = out.deep_view();
                    out.push(x);
                    assert(out.deep_view() == before.push(x.deep_view()));
                },
            }
            i += 1;
        }
        assert(views_of(items@).take(items.len() as int) == views_of(items@));
        Ok(out)
    }
}

} // verus!
