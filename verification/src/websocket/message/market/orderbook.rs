//! Streaming order book data.

use vstd::prelude::*;
use crate::decimal::{Decimal, DecimalModel};
use crate::text::join;
use crate::websocket::decode::{
    agrees, amount_of, count_member, member, read_amount_of, read_count, read_member, read_text,
    text_member, DecodeError, DecodeErrorKind, FromJson,
};
use crate::websocket::message::Feed;
use crate::wire::{Json, WireValue};

verus! {

/// One level of an order book: an amount offered at a price on a venue. On
/// the wire a level is a tuple of three, `[price, quantity, source]`.
#[derive(Clone, Debug, PartialEq, Eq)]
pub struct Order {
    pub price: Decimal,
    pub quantity: Decimal,
    pub source: String,
}

/// Mathematical model of an `Order`.
pub struct OrderModel {
    pub price: DecimalModel,
    pub quantity: DecimalModel,
    pub source: Seq<char>,
}

impl DeepView for Order {
    type V = OrderModel;

    open spec fn deep_view(&self) -> OrderModel {
        OrderModel { price: self.price@, quantity: self.quantity@, source: self.source@ }
    }
}

impl FromJson for Order {
    /// The value is a list of exactly three elements: the price and the
    /// quantity, each a number or a text with a decimal literal, and the
    /// source, a text. The position decides which is which.
    open spec fn decoded(value: Json) -> Result<OrderModel, DecodeError> {
        match value.items() {
            None => Err(DecodeError { kind: DecodeErrorKind::ExpectedArray, field: "" }),
            Some(items) => {
                if items.len() != 3 {
                    Err(DecodeError { kind: DecodeErrorKind::WrongArity, field: "" })
                } else {
                    let price = amount_of(items[0], "price");
                    let quantity = amount_of(items[1], "quantity");
                    let source = items[2].text();
                    if price is Err {
                        Err(price->Err_0)
                    } else if quantity is Err {
                        Err(quantity->Err_0)
                    } else if source is None {
                        Err(DecodeError { kind: DecodeErrorKind::ExpectedString, field: "source" })
                    } else {
                        Ok(
                            OrderModel {
                                price: price->Ok_0,
                                quantity: quantity->Ok_0,
                                source: source->Some_0,
                            },
                        )
                    }
                }
            },
        }
    }

    fn from_json(value: &WireValue) -> (r: Result<Self, DecodeError>)
        ensures
            agrees(r, Self::decoded(value@)),
    {
        let items = match value.as_array() {
            None => {
                return Err(DecodeError { kind: DecodeErrorKind::ExpectedArray, field: "" });
            },
            Some(items) => items,
        };
        if items.len() != 3 {
            return Err(DecodeError { kind: DecodeErrorKind::WrongArity, field: "" });
        }
        let price = read_amount_of(&items[0], "price")?;
        let quantity = read_amount_of(&items[1], "quantity")?;
        let source = match items[2].as_str() {
            None => {
                return Err(
                    DecodeError { kind: DecodeErrorKind::ExpectedString, field: "source" },
                );
            },
            Some(s) => s.to_owned(),
        };
        Ok(Order { price, quantity, source })
    }
}

/// The levels that market makers quote.
#[derive(Clone, Debug, PartialEq, Eq)]
pub struct MarketMaking {
    pub asks: Vec<Order>,
    pub bids: Vec<Order>,
}

/// Mathematical model of a `MarketMaking`.
pub struct MarketMakingModel {
    pub asks: Seq<OrderModel>,
    pub bids: Seq<OrderModel>,
}

impl DeepView for MarketMaking {
    type V = MarketMakingModel;

    open spec fn deep_view(&self) -> MarketMakingModel {
        MarketMakingModel {
            asks: self.asks.deep_view(),
            bids: self.bids.deep_view(),
        }
    }
}

impl FromJson for MarketMaking {
    /// The value is a record, and its members are asked for in the order
    /// in which the type declares them; the first that fails gives the
    /// error. Members that the type does not name are passed over.
    open spec fn decoded(value: Json) -> Result<MarketMakingModel, DecodeError> {
        let asks = member::<Vec<Order>>(value, "asks");
        let bids = member::<Vec<Order>>(value, "bids");
        if !(value is Record) {
            Err(DecodeError { kind: DecodeErrorKind::ExpectedObject, field: "" })
        } else if asks is Err {
            Err(asks->Err_0)
        } else if bids is Err {
            Err(bids->Err_0)
        } else {
            Ok(
                MarketMakingModel {
                    asks: asks->Ok_0,
                    bids: bids->Ok_0,
                },
            )
        }
    }

    fn from_json(value: &WireValue) -> (r: Result<Self, DecodeError>)
        ensures
            agrees(r, Self::decoded(value@)),
    {
        if !value.is_object() {
            return Err(DecodeError { kind: DecodeErrorKind::ExpectedObject, field: "" });
        }
        let asks = read_member::<Vec<Order>>(value, "asks")?;
        let bids = read_member::<Vec<Order>>(value, "bids")?;
        Ok(MarketMaking { asks, bids })
    }
}

/// The order book of one instrument.
#[derive(Clone, Debug, PartialEq, Eq)]
pub struct Orderbook {
    pub asks: Vec<Order>,
    pub bids: Vec<Order>,
    pub lastpublished: usize,
    pub lastupdated: usize,
    pub market_making: MarketMaking,
    pub pair: String,
}

/// Mathematical model of a `Orderbook`.
pub struct OrderbookModel {
    pub asks: Seq<OrderModel>,
    pub bids: Seq<OrderModel>,
    pub lastpublished: usize,
    pub lastupdated: usize,
    pub market_making: MarketMakingModel,
    pub pair: Seq<char>,
}

impl DeepView for Orderbook {
    type V = OrderbookModel;

    open spec fn deep_view(&self) -> OrderbookModel {
        OrderbookModel {
            asks: self.asks.deep_view(),
            bids: self.bids.deep_view(),
            lastpublished: self.lastpublished,
            lastupdated: self.lastupdated,
            market_making: self.market_making.deep_view(),
            pair: self.pair@,
        }
    }
}

impl FromJson for Orderbook {
    /// The value is a record, and its members are asked for in the order
    /// in which the type declares them; the first that fails gives the
    /// error. Members that the type does not name are passed over.
    open spec fn decoded(value: Json) -> Result<OrderbookModel, DecodeError> {
        let asks = member::<Vec<Order>>(value, "asks");
        let bids = member::<Vec<Order>>(value, "bids");
        let lastpublished = count_member(value, "lastpublished");
        let lastupdated = count_member(value, "lastupdated");
        let market_making = member::<MarketMaking>(value, "market_making");
        let pair = text_member(value, "pair");
        if !(value is Record) {
            Err(DecodeError { kind: DecodeErrorKind::ExpectedObject, field: "" })
        } else if asks is Err {
            Err(asks->Err_0)
        } else if bids is Err {
            Err(bids->Err_0)
        } else if lastpublished is Err {
            Err(lastpublished->Err_0)
        } else if lastupdated is Err {
            Err(lastupdated->Err_0)
        } else if market_making is Err {
            Err(market_making->Err_0)
        } else if pair is Err {
            Err(pair->Err_0)
        } else {
            Ok(
                OrderbookModel {
                    asks: asks->Ok_0,
                    bids: bids->Ok_0,
                    lastpublished: lastpublished->Ok_0,
                    lastupdated: lastupdated->Ok_0,
                    market_making: market_making->Ok_0,
                    pair: pair->Ok_0,
                },
            )
        }
    }

    fn from_json(value: &WireValue) -> (r: Result<Self, DecodeError>)
        ensures
            agrees(r, Self::decoded(value@)),
    {
        if !value.is_object() {
            return Err(DecodeError { kind: DecodeErrorKind::ExpectedObject, field: "" });
        }
        let asks = read_member::<Vec<Order>>(value, "asks")?;
        let bids = read_member::<Vec<Order>>(value, "bids")?;
        let lastpublished = read_count(value, "lastpublished")?;
        let lastupdated = read_count(value, "lastupdated")?;
        let market_making = read_member::<MarketMaking>(value, "market_making")?;
        let pair = read_text(value, "pair")?;
        Ok(Orderbook { asks, bids, lastpublished, lastupdated, market_making, pair })
    }
}

/// Which of the two order books of an instrument is meant.
#[derive(Clone, Copy, Debug, PartialEq, Eq, Structural)]
pub enum BookType {
    /// Prices with the fees taken into account.
    FeeAdjusted,
    /// Prices as the venues quote them.
    Unadjusted,
}

impl BookType {
    /// The feed that carries this book.
    pub open spec fn feed(self) -> Feed {
        match self {
            BookType::FeeAdjusted => Feed::NetOrderbook,
            BookType::Unadjusted => Feed::RawOrderbook,
        }
    }

    /// The word for this book in a topic.
    pub open spec fn word(self) -> &'static str {
        match self {
            BookType::FeeAdjusted => "net",
            BookType::Unadjusted => "sfox",
        }
    }

    /// The word for this book in a topic.
    pub fn as_str(self) -> (w: &'static str)
        ensures
            w == self.word(),
    {
        match self {
            BookType::FeeAdjusted => "net",
            BookType::Unadjusted => "sfox",
        }
    }

    /// The word for this book in a topic.
    pub fn to_string(&self) -> (w: String)
        ensures
            w@ == self.word()@,
    {
        self.as_str().to_owned()
    }
}

/// The topic of an order book is `orderbook.`, the word of the book, a point
/// and the instrument: the topic of the feed that carries the book.
pub proof fn lemma_book_topic(book_type: BookType, basequote: Seq<char>)
    ensures
        "orderbook."@ + book_type.word()@ + "."@ + basequote == book_type.feed().topic(basequote),
{
    reveal_strlit("orderbook.");
    reveal_strlit("net");
    reveal_strlit("sfox");
    reveal_strlit("orderbook.net");
    reveal_strlit("orderbook.sfox");
    assert("orderbook."@ + book_type.word()@ =~= book_type.feed().topic_prefix_text()@);
}

/// The topic of the order book of `basequote`.
pub fn order_book_feed(basequote: &str, book_type: BookType) -> (topic: String)
    ensures
        topic@ == "orderbook."@ + book_type.word()@ + "."@ + basequote@,
        topic@ == book_type.feed().topic(basequote@),
{
    let head = join("orderbook.", book_type.as_str());
    let stem = join(head.as_str(), ".");
    proof {
        lemma_book_topic(book_type, basequote@);
    }
    join(stem.as_str(), basequote)
}

} // verus!
