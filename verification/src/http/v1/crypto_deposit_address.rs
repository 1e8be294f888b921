//! View and create addresses for depositing cryptocurrencies.

use vstd::prelude::*;
use crate::text::join;
use crate::websocket::decode::{
    agrees, read_text, text_member, DecodeError, DecodeErrorKind, FromJson,
};
use crate::wire::{Json, WireValue};

verus! {

/// An address to which a currency can be deposited.
#[derive(Clone, Debug, PartialEq, Eq)]
pub struct CryptoDepositAddress {
    pub address: String,
    pub currency: String,
}

/// Mathematical model of a `CryptoDepositAddress`.
pub struct CryptoDepositAddressModel {
    pub address: Seq<char>,
    pub currency: Seq<char>,
}

impl DeepView for CryptoDepositAddress {
    type V = CryptoDepositAddressModel;

    open spec fn deep_view(&self) -> CryptoDepositAddressModel {
        CryptoDepositAddressModel {
            address: self.address@,
            currency: self.currency@,
        }
    }
}

impl FromJson for CryptoDepositAddress {
    /// The value is a record, and its members are asked for in the order
    /// in which the type declares them; the first that fails gives the
    /// error. Members that the type does not name are passed over.
    open spec fn decoded(value: Json) -> Result<CryptoDepositAddressModel, DecodeError> {
        let address = text_member(value, "address");
        let currency = text_member(value, "currency");
        if !(value is Record) {
            Err(DecodeError { kind: DecodeErrorKind::ExpectedObject, field: "" })
        } else if address is Err {
            Err(address->Err_0)
        } else if currency is Err {
            Err(currency->Err_0)
        } else {
            Ok(
                CryptoDepositAddressModel {
                    address: address->Ok_0,
                    currency: currency->Ok_0,
                },
            )
        }
    }

    fn from_json(value: &WireValue) -> (r: Result<Self, DecodeError>)
        ensures
            agrees(r, Self::decoded(value@)),
    {
        if !value.is_object() {
            return Err(DecodeError { kind: DecodeErrorKind::ExpectedObject, field: "" });
        }
        let address = read_text(value, "address")?;
        let currency = read_text(value, "currency")?;
        Ok(CryptoDepositAddress { address, currency })
    }
}

/// The resource of the deposit addresses of `currency`.
pub fn currency_path(currency: &str) -> (path: String)
    ensures
        path@ == "user/deposit/address/"@ + currency@,
{
    join("user/deposit/address/", currency)
}

} // verus!
