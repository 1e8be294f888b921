//! Streaming tick data of publicly executed trades.

use vstd::prelude::*;
use crate::decimal::{Decimal, DecimalModel};
use crate::text::chars_of;
use crate::websocket::decode::{
    agrees, amount_member, count_member, flag_member, read_amount, read_count, read_flag,
    read_text, text_member, DecodeError, DecodeErrorKind, FromJson,
};
use crate::websocket::message::Feed;
use crate::wire::{Json, WireValue};

verus! {

/// The side of the book that a trade took from.
#[derive(Clone, Copy, Debug, PartialEq, Eq, Structural)]
pub enum TransactionSide {
    Buy,
    Sell,
}

/// Whether `c` is the small letter `letter`, or its capital.
pub open spec fn is_letter(c: char, letter: char) -> bool {
    c == letter || ('A' <= c && c <= 'Z' && c as u32 + 32 == letter as u32)
}

/// Whether `s` spells `word`, a word in small letters, in small or capital
/// letters.
pub open spec fn spells(s: Seq<char>, word: Seq<char>) -> bool {
    s.len() == word.len() && forall|i: int| 0 <= i < s.len() ==> is_letter(s[i], #[trigger] word[i])
}

/// The side that a text names: `buy` or `sell`, in small or capital letters.
pub open spec fn side_of(s: Seq<char>) -> Option<TransactionSide> {
    if spells(s, "buy"@) {
        Some(TransactionSide::Buy)
    } else if spells(s, "sell"@) {
        Some(TransactionSide::Sell)
    } else {
        None
    }
}

/// The side member `key` of a record.
pub open spec fn side_member(value: Json, key: &'static str) -> Result<
    TransactionSide,
    DecodeError,
> {
    match text_member(value, key) {
        Err(e) => Err(e),
        Ok(s) => match side_of(s) {
            Some(side) => Ok(side),
            None => Err(DecodeError { kind: DecodeErrorKind::UnknownVariant, field: key }),
        },
    }
}

/// Whether `s` spells `word` in small or capital letters.
fn spells_word(s: &Vec<char>, word: &str) -> (b: bool)
    ensures
        b == spells(s@, word@),
{
    let w = chars_of(word);
    if s.len() != w.len() {
        return false;
    }
    let mut i: usize = 0;
    while i < s.len()
        invariant
            i <= s.len(),
            s.len() == w.len(),
            w@ == word@,
            forall|j: int| 0 <= j < i ==> is_letter(s@[j], #[trigger] w@[j]),
        decreases s.len() - i,
    {
        let c = s[i];
        let l = w[i];
        let same = c == l || ('A' <= c && c <= 'Z' && c as u32 + 32 == l as u32);
        if !same {
            return false;
        }
        i += 1;
    }
    true
}

impl TransactionSide {
    /// The side that a text names, if it names one.
    pub fn parse(text: &str) -> (r: Option<TransactionSide>)
        ensures
            r == side_of(text@),
    {
        let s = chars_of(text);
        if spells_word(&s, "buy") {
            Some(TransactionSide::Buy)
        } else if spells_word(&s, "sell") {
            Some(TransactionSide::Sell)
        } else {
            None
        }
    }
}

/// Reads the side member `key` of a record.
pub fn read_side(value: &WireValue, key: &'static str) -> (r: Result<TransactionSide, DecodeError>)
    ensures
        r == side_member(value@, key),
{
    let text = read_text(value, key)?;
    match TransactionSide::parse(text.as_str()) {
        Some(side) => Ok(side),
        None => Err(DecodeError { kind: DecodeErrorKind::UnknownVariant, field: key }),
    }
}

/// One publicly executed trade. The price and the quantity may arrive as
/// numbers or as texts that hold a decimal literal.
#[derive(Clone, Debug, PartialEq, Eq)]
pub struct Trade {
    /// The member `buyOrderId` of the record.
    pub buy_order_id: String,
    /// The member `sellOrderId` of the record.
    pub sell_order_id: String,
    pub pair: String,
    pub pair_id: usize,
    pub price: Decimal,
    pub quantity: Decimal,
    pub side: TransactionSide,
    pub exchange: String,
    pub exchange_id: usize,
    pub timestamp: String,
    pub is_decimal: bool,
}

/// Mathematical model of a `Trade`.
pub struct TradeModel {
    pub buy_order_id: Seq<char>,
    pub sell_order_id: Seq<char>,
    pub pair: Seq<char>,
    pub pair_id: usize,
    pub price: DecimalModel,
    pub quantity: DecimalModel,
    pub side: TransactionSide,
    pub exchange: Seq<char>,
    pub exchange_id: usize,
    pub timestamp: Seq<char>,
    pub is_decimal: bool,
}

impl DeepView for Trade {
    type V = TradeModel;

    open spec fn deep_view(&self) -> TradeModel {
        TradeModel {
            buy_order_id: self.buy_order_id@,
            sell_order_id: self.sell_order_id@,
            pair: self.pair@,
            pair_id: self.pair_id,
            price: self.price@,
            quantity: self.quantity@,
            side: self.side,
            exchange: self.exchange@,
            exchange_id: self.exchange_id,
            timestamp: self.timestamp@,
            is_decimal: self.is_decimal,
        }
    }
}

impl FromJson for Trade {
    /// The value is a record, and its members are asked for in the order
    /// in which the type declares them; the first that fails gives the
    /// error. Members that the type does not name are passed over.
    open spec fn decoded(value: Json) -> Result<TradeModel, DecodeError> {
        let buy_order_id = text_member(value, "buyOrderId");
        let sell_order_id = text_member(value, "sellOrderId");
        let pair = text_member(value, "pair");
        let pair_id = count_member(value, "pair_id");
        let price = amount_member(value, "price");
        let quantity = amount_member(value, "quantity");
        let side = side_member(value, "side");
        let exchange = text_member(value, "exchange");
        let exchange_id = count_member(value, "exchange_id");
        let timestamp = text_member(value, "timestamp");
        let is_decimal = flag_member(value, "is_decimal");
        if !(value is Record) {
            Err(DecodeError { kind: DecodeErrorKind::ExpectedObject, field: "" })
        } else if buy_order_id is Err {
            Err(buy_order_id->Err_0)
        } else if sell_order_id is Err {
            Err(sell_order_id->Err_0)
        } else if pair is Err {
            Err(pair->Err_0)
        } else if pair_id is Err {
            Err(pair_id->Err_0)
        } else if price is Err {
            Err(price->Err_0)
        } else if quantity is Err {
            Err(quantity->Err_0)
        } else if side is Err {
            Err(side->Err_0)
        } else if exchange is Err {
            Err(exchange->Err_0)
        } else if exchange_id is Err {
            Err(exchange_id->Err_0)
        } else if timestamp is Err {
            Err(timestamp->Err_0)
        } else if is_decimal is Err {
            Err(is_decimal->Err_0)
        } else {
            Ok(
                TradeModel {
                    buy_order_id: buy_order_id->Ok_0,
                    sell_order_id: sell_order_id->Ok_0,
                    pair: pair->Ok_0,
                    pair_id: pair_id->Ok_0,
                    price: price->Ok_0,
                    quantity: quantity->Ok_0,
                    side: side->Ok_0,
                    exchange: exchange->Ok_0,
                    exchange_id: exchange_id->Ok_0,
                    timestamp: timestamp->Ok_0,
                    is_decimal: is_decimal->Ok_0,
                },
            )
        }
    }

    fn from_json(value: &WireValue) -> (r: Result<Self, DecodeError>)
        ensures
            agrees(r, Self::decoded(value@)),
    {
        if !value.is_object() {
            return Err(DecodeError { kind: DecodeErrorKind::ExpectedObject, field: "" });
        }
        let buy_order_id = read_text(value, "buyOrderId")?;
        let sell_order_id = read_text(value, "sellOrderId")?;
        let pair = read_text(value, "pair")?;
        let pair_id = read_count(value, "pair_id")?;
        let price = read_amount(value, "price")?;
        let quantity = read_amount(value, "quantity")?;
        let side = read_side(value, "side")?;
        let exchange = read_text(value, "exchange")?;
        let exchange_id = read_count(value, "exchange_id")?;
        let timestamp = read_text(value, "timestamp")?;
        let is_decimal = read_flag(value, "is_decimal")?;
        Ok(
            Trade {
                buy_order_id,
                sell_order_id,
                pair,
                pair_id,
                price,
                quantity,
                side,
                exchange,
                exchange_id,
                timestamp,
                is_decimal,
            },
        )
    }
}

/// The topic of the trades of `basequote`.
pub fn trades_feed(basequote: &str) -> (topic: String)
    ensures
        topic@ == Feed::Trade.topic(basequote@),
{
    Feed::Trade.topic_for(basequote)
}

/// The topic of the trades of `basequote`.
pub fn trade_feed(basequote: &str) -> (topic: String)
    ensures
        topic@ == Feed::Trade.topic(basequote@),
{
    trades_feed(basequote)
}

} // verus!
