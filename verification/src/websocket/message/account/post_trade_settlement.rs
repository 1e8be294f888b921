//! Receive updates regarding post-trade settlement details.

use vstd::prelude::*;

use crate::websocket::decode::{
    agrees, read_text, text_member, DecodeError, DecodeErrorKind, FromJson,
};
use crate::websocket::message::Feed;
use crate::wire::{Json, WireValue};

verus! {

/// The post-trade settlement position of the account.
#[derive(Clone, Debug, PartialEq, Eq)]
pub struct PostTradeSettlementPayload {
    pub enabled: String,
    pub equity: String,
    pub equity_for_withdrawals: String,
    pub available_exposure: String,
    pub exposure: String,
    pub exposure_limit: String,
}

/// Mathematical model of a `PostTradeSettlementPayload`.
pub struct PostTradeSettlementPayloadModel {
    pub enabled: Seq<char>,
    pub equity: Seq<char>,
    pub equity_for_withdrawals: Seq<char>,
    pub available_exposure: Seq<char>,
    pub exposure: Seq<char>,
    pub exposure_limit: Seq<char>,
}

impl DeepView for PostTradeSettlementPayload {
    type V = PostTradeSettlementPayloadModel;

    open spec fn deep_view(&self) -> PostTradeSettlementPayloadModel {
        PostTradeSettlementPayloadModel {
            enabled: self.enabled@,
            equity: self.equity@,
            equity_for_withdrawals: self.equity_for_withdrawals@,
            available_exposure: self.available_exposure@,
            exposure: self.exposure@,
            exposure_limit: self.exposure_limit@,
        }
    }
}

impl FromJson for PostTradeSettlementPayload {
    /// The value is a record, and its members are asked for in the order
    /// in which the type declares them; the first that fails gives the
    /// error. Members that the type does not name are passed over.
    open spec fn decoded(value: Json) -> Result<PostTradeSettlementPayloadModel, DecodeError> {
        let enabled = text_member(value, "enabled");
        let equity = text_member(value, "equity");
        let equity_for_withdrawals = text_member(value, "equity_for_withdrawals");
        let available_exposure = text_member(value, "available_exposure");
        let exposure = text_member(value, "exposure");
        let exposure_limit = text_member(value, "exposure_limit");
        if !(value is Record) {
            Err(DecodeError { kind: DecodeErrorKind::ExpectedObject, field: "" })
        } else if enabled is Err {
            Err(enabled->Err_0)
        } else if equity is Err {
            Err(equity->Err_0)
        } else if equity_for_withdrawals is Err {
            Err(equity_for_withdrawals->Err_0)
        } else if available_exposure is Err {
            Err(available_exposure->Err_0)
        } else if exposure is Err {
            Err(exposure->Err_0)
        } else if exposure_limit is Err {
            Err(exposure_limit->Err_0)
        } else {
            Ok(
                PostTradeSettlementPayloadModel {
                    enabled: enabled->Ok_0,
                    equity: equity->Ok_0,
                    equity_for_withdrawals: equity_for_withdrawals->Ok_0,
                    available_exposure: available_exposure->Ok_0,
                    exposure: exposure->Ok_0,
                    exposure_limit: exposure_limit->Ok_0,
                },
            )
        }
    }

    fn from_json(value: &WireValue) -> (r: Result<Self, DecodeError>)
        ensures
            agrees(r, Self::decoded(value@)),
    {
        if !value.is_object() {
            return Err(DecodeError { kind: DecodeErrorKind::ExpectedObject, field: "" });
        }
        let enabled = read_text(value, "enabled")?;
        let equity = read_text(value, "equity")?;
        let equity_for_withdrawals = read_text(value, "equity_for_withdrawals")?;
        let available_exposure = read_text(value, "available_exposure")?;
        let exposure = read_text(value, "exposure")?;
        let exposure_limit = read_text(value, "exposure_limit")?;
        Ok(
            PostTradeSettlementPayload {
                enabled,
                equity,
                equity_for_withdrawals,
                available_exposure,
                exposure,
                exposure_limit,
            },
        )
    }
}

/// The topic of the post-trade settlement feed.
pub fn post_trade_settlement_feed() -> (topic: String)
    ensures
        topic@ == Feed::PostTradeSettlement.topic(Seq::empty()),
{
    Feed::PostTradeSettlement.topic_prefix().to_owned()
}

} // verus!
