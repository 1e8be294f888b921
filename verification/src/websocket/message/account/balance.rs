//! Real-time status of user balance changes.

use vstd::prelude::*;
use crate::decimal::{Decimal, DecimalModel};
use crate::websocket::decode::{
    agrees, amount_member, read_amount, read_text, text_member, DecodeError, DecodeErrorKind,
    FromJson,
};
use crate::websocket::message::Feed;
use crate::wire::{Json, WireValue};

verus! {

/// The balance of one currency. Each amount may arrive as a number or as a
/// text that holds a decimal literal.
#[derive(Clone, Debug, PartialEq, Eq)]
pub struct BalancePayload {
    pub currency: String,
    pub balance: Decimal,
    pub available: Decimal,
    pub held: Decimal,
    pub trading_wallet: Decimal,
    pub collateral_wallet: Decimal,
    pub borrow_wallet: Decimal,
    pub lending_wallet: Decimal,
}

/// Mathematical model of a `BalancePayload`.
pub struct BalancePayloadModel {
    pub currency: Seq<char>,
    pub balance: DecimalModel,
    pub available: DecimalModel,
    pub held: DecimalModel,
    pub trading_wallet: DecimalModel,
    pub collateral_wallet: DecimalModel,
    pub borrow_wallet: DecimalModel,
    pub lending_wallet: DecimalModel,
}

impl DeepView for BalancePayload {
    type V = BalancePayloadModel;

    open spec fn deep_view(&self) -> BalancePayloadModel {
        BalancePayloadModel {
            currency: self.currency@,
            balance: self.balance@,
            available: self.available@,
            held: self.held@,
            trading_wallet: self.trading_wallet@,
            collateral_wallet: self.collateral_wallet@,
            borrow_wallet: self.borrow_wallet@,
            lending_wallet: self.lending_wallet@,
        }
    }
}

impl FromJson for BalancePayload {
    /// The value is a record, and its members are asked for in the order
    /// in which the type declares them; the first that fails gives the
    /// error. Members that the type does not name are passed over.
    open spec fn decoded(value: Json) -> Result<BalancePayloadModel, DecodeError> {
        let currency = text_member(value, "currency");
        let balance = amount_member(value, "balance");
        let available = amount_member(value, "available");
        let held = amount_member(value, "held");
        let trading_wallet = amount_member(value, "trading_wallet");
        let collateral_wallet = amount_member(value, "collateral_wallet");
        let borrow_wallet = amount_member(value, "borrow_wallet");
        let lending_wallet = amount_member(value, "lending_wallet");
        if !(value is Record) {
            Err(DecodeError { kind: DecodeErrorKind::ExpectedObject, field: "" })
        } else if currency is Err {
            Err(currency->Err_0)
        } else if balance is Err {
            Err(balance->Err_0)
        } else if available is Err {
            Err(available->Err_0)
        } else if held is Err {
            Err(held->Err_0)
        } else if trading_wallet is Err {
            Err(trading_wallet->Err_0)
        } else if collateral_wallet is Err {
            Err(collateral_wallet->Err_0)
        } else if borrow_wallet is Err {
            Err(borrow_wallet->Err_0)
        } else if lending_wallet is Err {
            Err(lending_wallet->Err_0)
        } else {
            Ok(
                BalancePayloadModel {
                    currency: currency->Ok_0,
                    balance: balance->Ok_0,
                    available: available->Ok_0,
                    held: held->Ok_0,
                    trading_wallet: trading_wallet->Ok_0,
                    collateral_wallet: collateral_wallet->Ok_0,
                    borrow_wallet: borrow_wallet->Ok_0,
                    lending_wallet: lending_wallet->Ok_0,
                },
            )
        }
    }

    fn from_json(value: &WireValue) -> (r: Result<Self, DecodeError>)
        ensures
            agrees(r, Self::decoded(value@)),
    {
        if !value.is_object() {
            return Err(DecodeError { kind: DecodeErrorKind::ExpectedObject, field: "" });
        }
        let currency = read_text(value, "currency")?;
        let balance = read_amount(value, "balance")?;
        let available = read_amount(value, "available")?;
        let held = read_amount(value, "held")?;
        let trading_wallet = read_amount(value, "trading_wallet")?;
        let collateral_wallet = read_amount(value, "collateral_wallet")?;
        let borrow_wallet = read_amount(value, "borrow_wallet")?;
        let lending_wallet = read_amount(value, "lending_wallet")?;
        Ok(
            BalancePayload {
                currency,
                balance,
                available,
                held,
                trading_wallet,
                collateral_wallet,
                borrow_wallet,
                lending_wallet,
            },
        )
    }
}

/// The topic of the balances feed.
pub fn balance_feed() -> (topic: String)
    ensures
        topic@ == Feed::Balances.topic(Seq::empty()),
{
    Feed::Balances.topic_prefix().to_owned()
}

} // verus!
