//! Resources of the core API.

use vstd::prelude::*;
use crate::websocket::decode::{DecodeError, DecodeErrorKind};
use crate::wire::{Json, WireValue};

/// View and create addresses for depositing cryptocurrencies.
pub mod crypto_deposit_address;
/// Volume information, total and per-exchange.
pub mod volume;

verus! {

/// The truth value that the venue writes as a number: zero is false, one is
/// true, and anything else is an error.
pub open spec fn flag_of_int(value: Json) -> Result<bool, DecodeError> {
    match value.unsigned() {
        Some(n) if n <= u8::MAX => {
            if n == 0 {
                Ok(false)
            } else if n == 1 {
                Ok(true)
            } else {
                Err(DecodeError { kind: DecodeErrorKind::UnknownVariant, field: "" })
            }
        },
        _ => Err(DecodeError { kind: DecodeErrorKind::ExpectedUnsigned, field: "" }),
    }
}

/// Reads a truth value that is written as zero or one.
pub fn bool_from_int(value: &WireValue) -> (r: Result<bool, DecodeError>)
    ensures
        r == flag_of_int(value@),
{
    match value.as_u64() {
        Some(n) if n <= 255 => {
            if n == 0 {
                Ok(false)
            } else if n == 1 {
                Ok(true)
            } else {
                Err(DecodeError { kind: DecodeErrorKind::UnknownVariant, field: "" })
            }
        },
        _ => Err(DecodeError { kind: DecodeErrorKind::ExpectedUnsigned, field: "" }),
    }
}

} // verus!
