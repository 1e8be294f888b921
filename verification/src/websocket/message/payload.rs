//! The typed payloads of all feeds, and the decoder that a feed selects.

use vstd::prelude::*;
use crate::websocket::decode::{
    agrees, count_member, read_count, read_text, text_member, DecodeError, DecodeErrorKind,
    FromJson,
};
use crate::websocket::message::account::balance::{BalancePayload, BalancePayloadModel};
use crate::websocket::message::account::order::{OrderPayload, OrderPayloadModel};
use crate::websocket::message::account::post_trade_settlement::{
    PostTradeSettlementPayload, PostTradeSettlementPayloadModel,
};
use crate::websocket::message::market::orderbook::{Orderbook, OrderbookModel};
use crate::websocket::message::market::ticker::{Ticker, TickerModel};
use crate::websocket::message::market::trade::{Trade, TradeModel};
use crate::websocket::message::{
    classification, classify, frame_value, parse_frame, Feed, WsResponse, WsResponseModel,
    WsSystemResponse, WsSystemResponseModel,
};
use crate::websocket::{ClientErrorModel, WebsocketClientError};
use crate::wire::{Json, WireValue};

verus! {

/// The payload of a message, decoded as its feed asks.
#[derive(Debug, PartialEq, Eq)]
pub enum Payload {
    Balances(Vec<BalancePayload>),
    Orders(Vec<OrderPayload>),
    PostTradeSettlement(PostTradeSettlementPayload),
    Orderbook(Orderbook),
    Ticker(Ticker),
    Trade(Trade),
    /// The payload of a system message, which has no fixed shape.
    System(WireValue),
}

/// Mathematical model of a `Payload`.
pub enum PayloadModel {
    Balances(Seq<BalancePayloadModel>),
    Orders(Seq<OrderPayloadModel>),
    PostTradeSettlement(PostTradeSettlementPayloadModel),
    Orderbook(OrderbookModel),
    Ticker(TickerModel),
    Trade(TradeModel),
    System(Json),
}

impl DeepView for Payload {
    type V = PayloadModel;

    open spec fn deep_view(&self) -> PayloadModel {
        match self {
            Payload::Balances(p) => PayloadModel::Balances(p.deep_view()),
            Payload::Orders(p) => PayloadModel::Orders(p.deep_view()),
            Payload::PostTradeSettlement(p) => PayloadModel::PostTradeSettlement(p.deep_view()),
            Payload::Orderbook(p) => PayloadModel::Orderbook(p.deep_view()),
            Payload::Ticker(p) => PayloadModel::Ticker(p.deep_view()),
            Payload::Trade(p) => PayloadModel::Trade(p.deep_view()),
            Payload::System(p) => PayloadModel::System(p@),
        }
    }
}

/// What a payload decodes to under a feed: balances and open orders come as
/// lists, both order books share one shape, and the payload of a system
/// message is kept as it is.
pub open spec fn decoded_payload(feed: Feed, payload: Json) -> Result<PayloadModel, DecodeError> {
    match feed {
        Feed::Balances => match Vec::<BalancePayload>::decoded(payload) {
            Ok(p) => Ok(PayloadModel::Balances(p)),
            Err(e) => Err(e),
        },
        Feed::Orders => match Vec::<OrderPayload>::decoded(payload) {
            Ok(p) => Ok(PayloadModel::Orders(p)),
            Err(e) => Err(e),
        },
        Feed::PostTradeSettlement => match PostTradeSettlementPayload::decoded(payload) {
            Ok(p) => Ok(PayloadModel::PostTradeSettlement(p)),
            Err(e) => Err(e),
        },
        Feed::NetOrderbook | Feed::RawOrderbook => match Orderbook::decoded(payload) {
            Ok(p) => Ok(PayloadModel::Orderbook(p)),
            Err(e) => Err(e),
        },
        Feed::Ticker => match Ticker::decoded(payload) {
            Ok(p) => Ok(PayloadModel::Ticker(p)),
            Err(e) => Err(e),
        },
        Feed::Trade => match Trade::decoded(payload) {
            Ok(p) => Ok(PayloadModel::Trade(p)),
            Err(e) => Err(e),
        },
        Feed::System => Ok(PayloadModel::System(payload)),
    }
}

/// Decodes a payload as its feed asks.
pub fn decode(feed: Feed, payload: &WireValue) -> (r: Result<Payload, DecodeError>)
    ensures
        agrees(r, decoded_payload(feed, payload@)),
{
    match feed {
        Feed::Balances => match Vec::<BalancePayload>::from_json(payload) {
            Ok(p) => Ok(Payload::Balances(p)),
            Err(e) => Err(e),
        },
        Feed::Orders => match Vec::<OrderPayload>::from_json(payload) {
            Ok(p) => Ok(Payload::Orders(p)),
            Err(e) => Err(e),
        },
        Feed::PostTradeSettlement => match PostTradeSettlementPayload::from_json(payload) {
            Ok(p) => Ok(Payload::PostTradeSettlement(p)),
            Err(e) => Err(e),
        },
        Feed::NetOrderbook | Feed::RawOrderbook => match Orderbook::from_json(payload) {
            Ok(p) => Ok(Payload::Orderbook(p)),
            Err(e) => Err(e),
        },
        Feed::Ticker => match Ticker::from_json(payload) {
            Ok(p) => Ok(Payload::Ticker(p)),
            Err(e) => Err(e),
        },
        Feed::Trade => match Trade::from_json(payload) {
            Ok(p) => Ok(Payload::Trade(p)),
            Err(e) => Err(e),
        },
        Feed::System => Ok(Payload::System(payload.clone())),
    }
}

/// Decoding is a function of the feed and the value: two runs on values with
/// the same model end alike, with the same error or with payloads of the same
/// model.
pub proof fn lemma_decode_repeatable(
    feed: Feed,
    a: WireValue,
    b: WireValue,
    first: Result<Payload, DecodeError>,
    second: Result<Payload, DecodeError>,
)
    requires
        a@ == b@,
        agrees(first, decoded_payload(feed, a@)),
        agrees(second, decoded_payload(feed, b@)),
    ensures
        match (first, second) {
            (Ok(x), Ok(y)) => x.deep_view() == y.deep_view(),
            (Err(e), Err(f)) => e == f,
            _ => false,
        },
{
}

/// The members of an envelope, with the payload decoded as `feed` asks. They
/// are asked for in this order: `recipient`, `payload`, `sequence`,
/// `timestamp`.
pub open spec fn decoded_envelope(feed: Feed, frame: Json) -> Result<
    WsResponseModel<PayloadModel>,
    DecodeError,
> {
    let recipient = text_member(frame, "recipient");
    let payload = match frame.field("payload"@) {
        None => Err(DecodeError { kind: DecodeErrorKind::MissingField, field: "payload" }),
        Some(p) => decoded_payload(feed, p),
    };
    let sequence = count_member(frame, "sequence");
    let timestamp = count_member(frame, "timestamp");
    if recipient is Err {
        Err(recipient->Err_0)
    } else if payload is Err {
        Err(payload->Err_0)
    } else if sequence is Err {
        Err(sequence->Err_0)
    } else if timestamp is Err {
        Err(timestamp->Err_0)
    } else {
        Ok(
            WsResponseModel {
                recipient: recipient->Ok_0,
                payload: payload->Ok_0,
                sequence: sequence->Ok_0,
                timestamp: timestamp->Ok_0,
            },
        )
    }
}

/// Reads an envelope and decodes its payload as `feed` asks.
pub fn decode_envelope(feed: Feed, frame: &WireValue) -> (r: Result<
    WsResponse<Payload>,
    DecodeError,
>)
    ensures
        agrees(r, decoded_envelope(feed, frame@)),
{
    let recipient = read_text(frame, "recipient")?;
    let payload = match frame.get("payload") {
        None => {
            return Err(DecodeError { kind: DecodeErrorKind::MissingField, field: "payload" });
        },
        Some(p) => decode(feed, p)?,
    };
    let sequence = read_count(frame, "sequence")?;
    let timestamp = read_count(frame, "timestamp")?;
    Ok(WsResponse { recipient, payload, sequence, timestamp })
}

/// An inbound message.
#[derive(Debug, PartialEq, Eq)]
pub enum Message {
    /// A message of a feed: the feed, and the envelope with its payload
    /// decoded as the feed asks.
    Feed(Feed, WsResponse<Payload>),
    /// A message of the connection itself, such as the answer to a
    /// subscription or to an authentication. Its payload has no fixed shape.
    System(WsSystemResponse<WireValue>),
}

/// Mathematical model of a `Message`.
pub enum MessageModel {
    Feed(Feed, WsResponseModel<PayloadModel>),
    System(WsSystemResponseModel<Json>),
}

impl DeepView for Message {
    type V = MessageModel;

    open spec fn deep_view(&self) -> MessageModel {
        match self {
            Message::Feed(feed, response) => MessageModel::Feed(*feed, response.deep_view()),
            Message::System(response) => MessageModel::System(response.deep_view()),
        }
    }
}

impl MessageModel {
    /// The feed that the message belongs to.
    pub open spec fn feed(self) -> Feed {
        match self {
            MessageModel::Feed(feed, _) => feed,
            MessageModel::System(_) => Feed::System,
        }
    }
}

impl Message {
    /// The feed that the message belongs to.
    pub fn feed(&self) -> (feed: Feed)
        ensures
            feed == self.deep_view().feed(),
    {
        match self {
            Message::Feed(feed, _) => *feed,
            Message::System(_) => Feed::System,
        }
    }
}

/// What a frame means: it is classified, and then decoded as its feed asks,
/// a system message by the envelope of system messages, any other by the
/// envelope of the feeds.
pub open spec fn decoded_frame(frame: Json) -> Result<MessageModel, ClientErrorModel> {
    match classification(frame) {
        Err(e) => Err(e),
        Ok(Feed::System) => match WsSystemResponse::<WireValue>::decoded(frame) {
            Err(e) => Err(ClientErrorModel::DecodeError(e)),
            Ok(response) => Ok(MessageModel::System(response)),
        },
        Ok(feed) => match decoded_envelope(feed, frame) {
            Err(e) => Err(ClientErrorModel::DecodeError(e)),
            Ok(response) => Ok(MessageModel::Feed(feed, response)),
        },
    }
}

/// Whether an outcome is the expected one: the error with the expected
/// model, or a message with the expected model.
pub open spec fn delivers(
    r: Result<Message, WebsocketClientError>,
    expected: Result<MessageModel, ClientErrorModel>,
) -> bool {
    match r {
        Ok(m) => expected == Ok::<MessageModel, ClientErrorModel>(m.deep_view()),
        Err(e) => expected == Err::<MessageModel, ClientErrorModel>(e@),
    }
}

/// Classifies a frame and decodes it.
pub fn decode_frame(frame: &WireValue) -> (r: Result<Message, WebsocketClientError>)
    ensures
        delivers(r, decoded_frame(frame@)),
{
    let feed = match classify(frame) {
        Ok(feed) => feed,
        Err(e) => {
            return Err(e);
        },
    };
    match feed {
        Feed::System => match WsSystemResponse::<WireValue>::from_json(frame) {
            Ok(response) => Ok(Message::System(response)),
            Err(e) => Err(WebsocketClientError::DecodeError(e)),
        },
        _ => match decode_envelope(feed, frame) {
            Ok(response) => Ok(Message::Feed(feed, response)),
            Err(e) => Err(WebsocketClientError::DecodeError(e)),
        },
    }
}

/// What the text of a frame means.
pub open spec fn decoded_message(text: Seq<char>) -> Result<MessageModel, ClientErrorModel> {
    match frame_value(text) {
        Err(e) => Err(e),
        Ok(frame) => decoded_frame(frame),
    }
}

/// Reads the text of a frame, classifies it and decodes it.
pub fn decode_message(text: &str) -> (r: Result<Message, WebsocketClientError>)
    ensures
        delivers(r, decoded_message(text@)),
{
    match parse_frame(text) {
        Ok(frame) => decode_frame(&frame),
        Err(e) => Err(e),
    }
}

} // verus!
