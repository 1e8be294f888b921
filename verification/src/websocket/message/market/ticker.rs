//! Real-time ticker data.

use vstd::prelude::*;
use crate::decimal::{Decimal, DecimalModel};
use crate::websocket::decode::{
    agrees, amount_member, read_amount, read_text, text_member, DecodeError, DecodeErrorKind,
    FromJson,
};
use crate::websocket::message::Feed;
use crate::wire::{Json, WireValue};

verus! {

/// The latest prices of one instrument. Each amount may arrive as a number
/// or as a text that holds a decimal literal.
#[derive(Clone, Debug, PartialEq, Eq)]
pub struct Ticker {
    pub amount: Decimal,
    pub exchange: String,
    pub last: Decimal,
    pub high: Decimal,
    pub low: Decimal,
    pub open: Decimal,
    pub pair: String,
    pub route: String,
    pub source: String,
    pub timestamp: String,
    pub volume: Decimal,
    pub vwap: Decimal,
}

/// Mathematical model of a `Ticker`.
pub struct TickerModel {
    pub amount: DecimalModel,
    pub exchange: Seq<char>,
    pub last: DecimalModel,
    pub high: DecimalModel,
    pub low: DecimalModel,
    pub open: DecimalModel,
    pub pair: Seq<char>,
    pub route: Seq<char>,
    pub source: Seq<char>,
    pub timestamp: Seq<char>,
    pub volume: DecimalModel,
    pub vwap: DecimalModel,
}

impl DeepView for Ticker {
    type V = TickerModel;

    open spec fn deep_view(&self) -> TickerModel {
        TickerModel {
            amount: self.amount@,
            exchange: self.exchange@,
            last: self.last@,
            high: self.high@,
            low: self.low@,
            open: self.open@,
            pair: self.pair@,
            route: self.route@,
            source: self.source@,
            timestamp: self.timestamp@,
            volume: self.volume@,
            vwap: self.vwap@,
        }
    }
}

impl FromJson for Ticker {
    /// The value is a record, and its members are asked for in the order
    /// in which the type declares them; the first that fails gives the
    /// error. Members that the type does not name are passed over.
    open spec fn decoded(value: Json) -> Result<TickerModel, DecodeError> {
        let amount = amount_member(value, "amount");
        let exchange = text_member(value, "exchange");
        let last = amount_member(value, "last");
        let high = amount_member(value, "high");
        let low = amount_member(value, "low");
        let open = amount_member(value, "open");
        let pair = text_member(value, "pair");
        let route = text_member(value, "route");
        let source = text_member(value, "source");
        let timestamp = text_member(value, "timestamp");
        let volume = amount_member(value, "volume");
        let vwap = amount_member(value, "vwap");
        if !(value is Record) {
            Err(DecodeError { kind: DecodeErrorKind::ExpectedObject, field: "" })
        } else if amount is Err {
            Err(amount->Err_0)
        } else if exchange is Err {
            Err(exchange->Err_0)
        } else if last is Err {
            Err(last->Err_0)
        } else if high is Err {
            Err(high->Err_0)
        } else if low is Err {
            Err(low->Err_0)
        } else if open is Err {
            Err(open->Err_0)
        } else if pair is Err {
            Err(pair->Err_0)
        } else if route is Err {
            Err(route->Err_0)
        } else if source is Err {
            Err(source->Err_0)
        } else if timestamp is Err {
            Err(timestamp->Err_0)
        } else if volume is Err {
            Err(volume->Err_0)
        } else if vwap is Err {
            Err(vwap->Err_0)
        } else {
            Ok(
                TickerModel {
                    amount: amount->Ok_0,
                    exchange: exchange->Ok_0,
                    last: last->Ok_0,
                    high: high->Ok_0,
                    low: low->Ok_0,
                    open: open->Ok_0,
                    pair: pair->Ok_0,
                    route: route->Ok_0,
                    source: source->Ok_0,
                    timestamp: timestamp->Ok_0,
                    volume: volume->Ok_0,
                    vwap: vwap->Ok_0,
                },
            )
        }
    }

    fn from_json(value: &WireValue) -> (r: Result<Self, DecodeError>)
        ensures
            agrees(r, Self::decoded(value@)),
    {
        if !value.is_object() {
            return Err(DecodeError { kind: DecodeErrorKind::ExpectedObject, field: "" });
        }
        let amount = read_amount(value, "amount")?;
        let exchange = read_text(value, "exchange")?;
        let last = read_amount(value, "last")?;
        let high = read_amount(value, "high")?;
        let low = read_amount(value, "low")?;
        let open = read_amount(value, "open")?;
        let pair = read_text(value, "pair")?;
        let route = read_text(value, "route")?;
        let source = read_text(value, "source")?;
        let timestamp = read_text(value, "timestamp")?;
        let volume = read_amount(value, "volume")?;
        let vwap = read_amount(value, "vwap")?;
        Ok(
            Ticker {
                amount,
                exchange,
                last,
                high,
                low,
                open,
                pair,
                route,
                source,
                timestamp,
                volume,
                vwap,
            },
        )
    }
}

/// The topic of the ticker of `basequote`.
pub fn ticker_feed(basequote: &str) -> (topic: String)
    ensures
        topic@ == Feed::Ticker.topic(basequote@),
{
    Feed::Ticker.topic_for(basequote)
}

} // verus!
