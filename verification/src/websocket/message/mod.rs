//! Messages of the streaming feed: the feed families and their topics, the
//! frames that subscribe to them, and the envelopes in which the server
//! answers.

use vstd::prelude::*;
use crate::text::{chars_of, chars_start_with, join};
use crate::websocket::decode::{
    agrees, count_member, member, read_count, read_member, read_text, text_member, DecodeError,
    FromJson,
};
use crate::websocket::message::account::balance::BalancePayload;
use crate::websocket::message::account::order::OrderPayload;
use crate::websocket::message::account::post_trade_settlement::PostTradeSettlementPayload;
use crate::websocket::message::market::orderbook::Orderbook;
use crate::websocket::message::market::ticker::Ticker;
use crate::websocket::message::market::trade::Trade;
use crate::websocket::{ClientErrorModel, WebsocketClientError};
use crate::wire::{
    json_document, json_string_literal, lift, read_json, write_json_string, Json, WireValue,
};

/// Types and topics for balances, orders, and post-trade settlement.
pub mod account;
/// Types and topics for orderbook, ticker, and trade.
pub mod market;
/// The typed payloads of all feeds, and the decoder that a feed selects.
pub mod payload;

verus! {

pub type BalancesResponse = WsResponse<Vec<BalancePayload>>;

pub type OrderResponse = WsResponse<Vec<OrderPayload>>;

pub type PostTradeSettlementResponse = WsResponse<PostTradeSettlementPayload>;

pub type OrderbookResponse = WsResponse<Orderbook>;

pub type TickerResponse = WsResponse<Ticker>;

pub type TradeResponse = WsResponse<Trade>;

/// Websocket messages fall under one of these categories.
#[derive(Clone, Copy, Debug, PartialEq, Eq, Structural)]
pub enum Feed {
    Balances,
    Orders,
    PostTradeSettlement,
    NetOrderbook,
    RawOrderbook,
    System,
    Ticker,
    Trade,
}

impl Feed {
    /// Whether the feed has one topic per instrument, rather than one topic
    /// for the account.
    pub open spec fn per_instrument(self) -> bool {
        self == Feed::NetOrderbook || self == Feed::RawOrderbook || self == Feed::Ticker || self
            == Feed::Trade
    }

    /// The prefix of the feed's topics; for a feed of the account, its one
    /// topic.
    pub open spec fn topic_prefix_text(self) -> &'static str {
        match self {
            Feed::Balances => "private.user.balances",
            Feed::NetOrderbook => "orderbook.net",
            Feed::Orders => "private.user.open-orders",
            Feed::PostTradeSettlement => "private.user.post-trade-settlement",
            Feed::RawOrderbook => "orderbook.sfox",
            Feed::System => "system",
            Feed::Ticker => "ticker.sfox",
            Feed::Trade => "trades.sfox",
        }
    }

    /// The prefix by which a recipient is recognised as a message of the
    /// feed. `System` messages carry no recipient, and have none.
    pub open spec fn routing_prefix_text(self) -> Option<&'static str> {
        match self {
            Feed::NetOrderbook => Some("orderbook.net"),
            Feed::RawOrderbook => Some("orderbook.sfox"),
            Feed::Ticker => Some("ticker"),
            Feed::Trade => Some("trades"),
            Feed::Balances => Some("private.user.balances"),
            Feed::Orders => Some("private.user.open-orders"),
            Feed::PostTradeSettlement => Some("private.user.post-trade-settlement"),
            Feed::System => None,
        }
    }

    /// Whether `recipient` begins with the feed's routing prefix.
    pub open spec fn routes(self, recipient: Seq<char>) -> bool {
        match self.routing_prefix_text() {
            Some(prefix) => prefix@.is_prefix_of(recipient),
            None => false,
        }
    }

    /// The topic on which the feed reports on `symbol`; for a feed of the
    /// account, its one topic whatever the symbol.
    pub open spec fn topic(self, symbol: Seq<char>) -> Seq<char> {
        if self.per_instrument() {
            self.topic_prefix_text()@ + "."@ + symbol
        } else {
            self.topic_prefix_text()@
        }
    }

    /// The topics that a subscription to the feed names for `symbols`: one
    /// for each symbol, in their order, or the account's one topic.
    pub open spec fn topics(self, symbols: Seq<Seq<char>>) -> Seq<Seq<char>> {
        if self.per_instrument() {
            Seq::new(symbols.len(), |i: int| self.topic(symbols[i]))
        } else {
            seq![self.topic_prefix_text()@]
        }
    }

    /// Whether the feed has one topic per instrument.
    pub fn is_per_instrument(self) -> (b: bool)
        ensures
            b == self.per_instrument(),
    {
        match self {
            Feed::NetOrderbook | Feed::RawOrderbook | Feed::Ticker | Feed::Trade => true,
            _ => false,
        }
    }

    /// The prefix of the feed's topics.
    pub fn topic_prefix(self) -> (p: &'static str)
        ensures
            p == self.topic_prefix_text(),
    {
        match self {
            Feed::Balances => "private.user.balances",
            Feed::NetOrderbook => "orderbook.net",
            Feed::Orders => "private.user.open-orders",
            Feed::PostTradeSettlement => "private.user.post-trade-settlement",
            Feed::RawOrderbook => "orderbook.sfox",
            Feed::System => "system",
            Feed::Ticker => "ticker.sfox",
            Feed::Trade => "trades.sfox",
        }
    }

    /// The prefix by which a recipient is recognised as a message of the
    /// feed.
    pub fn routing_prefix(self) -> (p: Option<&'static str>)
        ensures
            p == self.routing_prefix_text(),
    {
        match self {
            Feed::NetOrderbook => Some("orderbook.net"),
            Feed::RawOrderbook => Some("orderbook.sfox"),
            Feed::Ticker => Some("ticker"),
            Feed::Trade => Some("trades"),
            Feed::Balances => Some("private.user.balances"),
            Feed::Orders => Some("private.user.open-orders"),
            Feed::PostTradeSettlement => Some("private.user.post-trade-settlement"),
            Feed::System => None,
        }
    }

    /// The topic on which the feed reports on `symbol`.
    pub fn topic_for(self, symbol: &str) -> (t: String)
        ensures
            t@ == self.topic(symbol@),
    {
        if self.is_per_instrument() {
            let head = join(self.topic_prefix(), ".");
            join(head.as_str(), symbol)
        } else {
            self.topic_prefix().to_owned()
        }
    }
}

/// The feed of a recipient: the rules are tried in this order, and the first
/// whose prefix the recipient begins with decides.
pub open spec fn recipient_feed(recipient: Seq<char>) -> Option<Feed> {
    if Feed::NetOrderbook.routes(recipient) {
        Some(Feed::NetOrderbook)
    } else if Feed::RawOrderbook.routes(recipient) {
        Some(Feed::RawOrderbook)
    } else if Feed::Ticker.routes(recipient) {
        Some(Feed::Ticker)
    } else if Feed::Trade.routes(recipient) {
        Some(Feed::Trade)
    } else if Feed::Balances.routes(recipient) {
        Some(Feed::Balances)
    } else if Feed::Orders.routes(recipient) {
        Some(Feed::Orders)
    } else if Feed::PostTradeSettlement.routes(recipient) {
        Some(Feed::PostTradeSettlement)
    } else {
        None
    }
}

/// Whether `recipient` begins with the routing prefix of `feed`.
fn routes_to(feed: Feed, recipient: &Vec<char>) -> (b: bool)
    ensures
        b == feed.routes(recipient@),
{
    match feed.routing_prefix() {
        Some(prefix) => {
            let p = chars_of(prefix);
            chars_start_with(recipient, &p)
        },
        None => false,
    }
}

/// The feed of a recipient, where it is one of a known feed.
pub fn identify_recipient(recipient: &str) -> (r: Option<Feed>)
    ensures
        r == recipient_feed(recipient@),
{
    let text = chars_of(recipient);
    if routes_to(Feed::NetOrderbook, &text) {
        Some(Feed::NetOrderbook)
    } else if routes_to(Feed::RawOrderbook, &text) {
        Some(Feed::RawOrderbook)
    } else if routes_to(Feed::Ticker, &text) {
        Some(Feed::Ticker)
    } else if routes_to(Feed::Trade, &text) {
        Some(Feed::Trade)
    } else if routes_to(Feed::Balances, &text) {
        Some(Feed::Balances)
    } else if routes_to(Feed::Orders, &text) {
        Some(Feed::Orders)
    } else if routes_to(Feed::PostTradeSettlement, &text) {
        Some(Feed::PostTradeSettlement)
    } else {
        None
    }
}

/// No recipient begins with the routing prefixes of two feeds.
pub proof fn lemma_routes_exclusive(recipient: Seq<char>, a: Feed, b: Feed)
    requires
        a.routes(recipient),
        b.routes(recipient),
    ensures
        a == b,
{
    reveal_strlit("orderbook.net");
    reveal_strlit("orderbook.sfox");
    reveal_strlit("ticker");
    reveal_strlit("trades");
    reveal_strlit("private.user.balances");
    reveal_strlit("private.user.open-orders");
    reveal_strlit("private.user.post-trade-settlement");
    let pa = a.routing_prefix_text().unwrap()@;
    let pb = b.routing_prefix_text().unwrap()@;
    assert(pa == recipient.subrange(0, pa.len() as int));
    assert(pb == recipient.subrange(0, pb.len() as int));
    assert(pa[0] == recipient[0] && pb[0] == recipient[0]);
    assert(pa[1] == recipient[1] && pb[1] == recipient[1]);
    if pa[0] == 'o' {
        assert(pa[10] == recipient[10] && pb[10] == recipient[10]);
    }
    if pa[0] == 'p' {
        assert(pa[13] == recipient[13] && pb[13] == recipient[13]);
    }
}

/// A recipient is classified as a feed if and only if it begins with that
/// feed's routing prefix: the order of the rules decides nothing, because no
/// two of them match one recipient.
pub proof fn lemma_recipient_feed_iff_routes(recipient: Seq<char>, feed: Feed)
    ensures
        recipient_feed(recipient) == Some(feed) <==> feed.routes(recipient),
{
    if feed.routes(recipient) {
        match recipient_feed(recipient) {
            Some(found) => {
                lemma_routes_exclusive(recipient, found, feed);
            },
            None => {},
        }
    }
}

/// The topic that a subscription names is classified as the feed that was
/// subscribed to, whatever the symbol.
pub proof fn lemma_topic_round_trip(feed: Feed, symbol: Seq<char>)
    requires
        feed != Feed::System,
    ensures
        recipient_feed(feed.topic(symbol)) == Some(feed),
{
    reveal_strlit("orderbook.net");
    reveal_strlit("orderbook.sfox");
    reveal_strlit("ticker");
    reveal_strlit("trades");
    reveal_strlit("ticker.sfox");
    reveal_strlit("trades.sfox");
    reveal_strlit("private.user.balances");
    reveal_strlit("private.user.open-orders");
    reveal_strlit("private.user.post-trade-settlement");
    let topic = feed.topic(symbol);
    let prefix = feed.routing_prefix_text().unwrap()@;
    assert(prefix =~= topic.subrange(0, prefix.len() as int));
    lemma_recipient_feed_iff_routes(topic, feed);
}

/// Subscribe / Unsubscribe
#[derive(Clone, Copy, Debug, PartialEq, Eq, Structural)]
pub enum SubscribeAction {
    Subscribe,
    Unsubscribe,
}

impl SubscribeAction {
    /// The word that the frame carries for the action.
    pub open spec fn word(self) -> &'static str {
        match self {
            SubscribeAction::Subscribe => "subscribe",
            SubscribeAction::Unsubscribe => "unsubscribe",
        }
    }

    /// The word that the frame carries for the action.
    pub fn as_str(self) -> (w: &'static str)
        ensures
            w == self.word(),
    {
        match self {
            SubscribeAction::Subscribe => "subscribe",
            SubscribeAction::Unsubscribe => "unsubscribe",
        }
    }
}

impl vstd::std_specs::convert::FromSpecImpl<SubscribeAction> for String {
    open spec fn obeys_from_spec() -> bool {
        false
    }

    open spec fn from_spec(val: SubscribeAction) -> String {
        arbitrary()
    }
}

impl From<SubscribeAction> for String {
    fn from(val: SubscribeAction) -> (s: String)
        ensures
            s@ == val.word()@,
    {
        val.as_str().to_owned()
    }
}

/// The topics of a frame, each as a JSON string, with commas between them.
pub open spec fn feed_list(topics: Seq<Seq<char>>) -> Seq<char>
    decreases topics.len(),
{
    if topics.len() == 0 {
        Seq::empty()
    } else if topics.len() == 1 {
        json_string_literal(topics[0])
    } else {
        feed_list(topics.drop_last()) + ","@ + json_string_literal(topics.last())
    }
}

/// The frame that asks the server to take `action` on `topics`:
/// `{"type":<action>,"feeds":[<topic>,...]}`.
pub open spec fn subscription_frame(action: Seq<char>, topics: Seq<Seq<char>>) -> Seq<char> {
    "{\"type\":"@ + json_string_literal(action) + ",\"feeds\":["@ + feed_list(topics) + "]}"@
}

/// A message sent to the websocket server. Contains the action to be taken,
/// the type of feed, and the symbols whose feeds are meant.
#[derive(Clone, Debug, PartialEq, Eq)]
pub struct SubscribeMsg {
    pub action: String,
    pub feed_type: Feed,
    pub feeds: Vec<String>,
}

impl Feed {
    /// The topics that a subscription to the feed names for `symbols`.
    pub fn topics_for(self, symbols: &Vec<String>) -> (out: Vec<String>)
        ensures
            out.deep_view() == self.topics(symbols.deep_view()),
    {
        let mut out: Vec<String> = Vec::new();
        if self.is_per_instrument() {
            let mut i: usize = 0;
            while i < symbols.len()
                invariant
                    i <= symbols.len(),
                    out@.len() == i,
                    forall|j: int| 0 <= j < i ==> out@[j]@ == self.topic(symbols@[j]@),
                decreases symbols.len() - i,
            {
                out.push(self.topic_for(symbols[i].as_str()));
                i += 1;
            }
        } else {
            out.push(self.topic_prefix().to_owned());
        }
        assert(out.deep_view() =~= self.topics(symbols.deep_view()));
        out
    }
}

/// The topics of a frame, each as a JSON string, with commas between them.
fn write_feed_list(topics: &Vec<String>) -> (out: String)
    ensures
        out@ == feed_list(topics.deep_view()),
{
    let mut out = String::new();
    let mut i: usize = 0;
    let ghost all = topics.deep_view();
    while i < topics.len()
        invariant
            i <= topics.len(),
            all == topics.deep_view(),
            out@ == feed_list(all.take(i as int)),
        decreases topics.len() - i,
    {
        assert(all.take(i + 1).drop_last() == all.take(i as int));
        assert(all.take(i + 1).last() == topics@[i as int]@);
        let literal = write_json_string(topics[i].as_str());
        if i > 0 {
            out.append(",");
        }
        out.append(literal.as_str());
        i += 1;
    }
    assert(all.take(topics.len() as int) == all);
    out
}

impl SubscribeMsg {
    /// The text of the frame: the action under `type`, and under `feeds` the
    /// topics of the feed for the symbols, or the one topic of an account
    /// feed whatever the symbols.
    pub fn serialize(&self) -> (frame: String)
        ensures
            frame@ == subscription_frame(
                self.action@,
                self.feed_type.topics(self.feeds.deep_view()),
            ),
    {
        let topics = self.feed_type.topics_for(&self.feeds);
        let action = write_json_string(self.action.as_str());
        let list = write_feed_list(&topics);
        let mut frame = "{\"type\":".to_owned();
        frame.append(action.as_str());
        frame.append(",\"feeds\":[");
        frame.append(list.as_str());
        frame.append("]}");
        frame
    }
}

/// The topics of an account feed do not depend on the symbols that a
/// subscription names.
pub proof fn lemma_account_feed_ignores_symbols(
    feed: Feed,
    action: Seq<char>,
    a: Seq<Seq<char>>,
    b: Seq<Seq<char>>,
)
    requires
        !feed.per_instrument(),
    ensures
        feed.topics(a) == seq![feed.topic_prefix_text()@],
        subscription_frame(action, feed.topics(a)) == subscription_frame(action, feed.topics(b)),
{
}

/// A subscription to an instrument feed names one topic for each symbol, in
/// the order of the symbols.
pub proof fn lemma_instrument_feed_topics(feed: Feed, symbols: Seq<Seq<char>>)
    requires
        feed.per_instrument(),
    ensures
        feed.topics(symbols).len() == symbols.len(),
        forall|i: int|
            0 <= i < symbols.len() ==> #[trigger] feed.topics(symbols)[i]
                == feed.topic_prefix_text()@ + "."@ + symbols[i],
{
}

/// The outer shape of a message received from an active subscription.
#[derive(Debug, PartialEq, Eq)]
pub struct WsResponse<T> {
    pub recipient: String,
    pub payload: T,
    pub sequence: usize,
    pub timestamp: usize,
}

/// Mathematical model of a `WsResponse`.
pub struct WsResponseModel<V> {
    pub recipient: Seq<char>,
    pub payload: V,
    pub sequence: usize,
    pub timestamp: usize,
}

impl<T: DeepView> DeepView for WsResponse<T> {
    type V = WsResponseModel<T::V>;

    open spec fn deep_view(&self) -> WsResponseModel<T::V> {
        WsResponseModel {
            recipient: self.recipient@,
            payload: self.payload.deep_view(),
            sequence: self.sequence,
            timestamp: self.timestamp,
        }
    }
}

impl<T: FromJson> FromJson for WsResponse<T> {
    /// The members are asked for in this order: `recipient`, `payload`,
    /// `sequence`, `timestamp`.
    open spec fn decoded(value: Json) -> Result<WsResponseModel<T::V>, DecodeError> {
        let recipient = text_member(value, "recipient");
        let payload = member::<T>(value, "payload");
        let sequence = count_member(value, "sequence");
        let timestamp = count_member(value, "timestamp");
        if recipient is Err {
            Err(recipient->Err_0)
        } else if payload is Err {
            Err(payload->Err_0)
        } else if sequence is Err {
            Err(sequence->Err_0)
        } else if timestamp is Err {
            Err(timestamp->Err_0)
        } else {
            Ok(
                WsResponseModel {
                    recipient: recipient->Ok_0,
                    payload: payload->Ok_0,
                    sequence: sequence->Ok_0,
                    timestamp: timestamp->Ok_0,
                },
            )
        }
    }

    fn from_json(value: &WireValue) -> (r: Result<Self, DecodeError>)
        ensures
            agrees(r, Self::decoded(value@)),
    {
        let recipient = read_text(value, "recipient")?;
        let payload = read_member::<T>(value, "payload")?;
        let sequence = read_count(value, "sequence")?;
        let timestamp = read_count(value, "timestamp")?;
        Ok(WsResponse { recipient, payload, sequence, timestamp })
    }
}

/// Response to a system-related websocket message.
#[derive(Debug, PartialEq, Eq)]
pub struct WsSystemResponse<T> {
    pub message_type: String,
    pub payload: T,
    pub sequence: usize,
    pub timestamp: usize,
}

/// Mathematical model of a `WsSystemResponse`.
pub struct WsSystemResponseModel<V> {
    pub message_type: Seq<char>,
    pub payload: V,
    pub sequence: usize,
    pub timestamp: usize,
}

impl<T: DeepView> DeepView for WsSystemResponse<T> {
    type V = WsSystemResponseModel<T::V>;

    open spec fn deep_view(&self) -> WsSystemResponseModel<T::V> {
        WsSystemResponseModel {
            message_type: self.message_type@,
            payload: self.payload.deep_view(),
            sequence: self.sequence,
            timestamp: self.timestamp,
        }
    }
}

impl<T: FromJson> FromJson for WsSystemResponse<T> {
    /// The members are asked for in this order: `type`, `payload`,
    /// `sequence`, `timestamp`.
    open spec fn decoded(value: Json) -> Result<WsSystemResponseModel<T::V>, DecodeError> {
        let message_type = text_member(value, "type");
        let payload = member::<T>(value, "payload");
        let sequence = count_member(value, "sequence");
        let timestamp = count_member(value, "timestamp");
        if message_type is Err {
            Err(message_type->Err_0)
        } else if payload is Err {
            Err(payload->Err_0)
        } else if sequence is Err {
            Err(sequence->Err_0)
        } else if timestamp is Err {
            Err(timestamp->Err_0)
        } else {
            Ok(
                WsSystemResponseModel {
                    message_type: message_type->Ok_0,
                    payload: payload->Ok_0,
                    sequence: sequence->Ok_0,
                    timestamp: timestamp->Ok_0,
                },
            )
        }
    }

    fn from_json(value: &WireValue) -> (r: Result<Self, DecodeError>)
        ensures
            agrees(r, Self::decoded(value@)),
    {
        let message_type = read_text(value, "type")?;
        let payload = read_member::<T>(value, "payload")?;
        let sequence = read_count(value, "sequence")?;
        let timestamp = read_count(value, "timestamp")?;
        Ok(WsSystemResponse { message_type, payload, sequence, timestamp })
    }
}

impl FromJson for WireValue {
    /// A generic value decodes to itself.
    open spec fn decoded(value: Json) -> Result<Json, DecodeError> {
        Ok(value)
    }

    fn from_json(value: &WireValue) -> (r: Result<Self, DecodeError>)
        ensures
            agrees(r, Self::decoded(value@)),
    {
        Ok(value.clone())
    }
}

/// The text of the member `key`, where there is one and it is a text.
pub open spec fn routing_key(frame: Json, key: Seq<char>) -> Option<Seq<char>> {
    match frame.field(key) {
        Some(v) => v.text(),
        None => None,
    }
}

/// The feed that a frame belongs to. A frame with a `recipient` is of the
/// feed of that recipient. One without, but with a `type`, is a `System`
/// message. An error carries the recipient that no rule matches, or says
/// that the frame has neither key.
pub open spec fn classification(frame: Json) -> Result<Feed, ClientErrorModel> {
    match routing_key(frame, "recipient"@) {
        Some(recipient) => match recipient_feed(recipient) {
            Some(feed) => Ok(feed),
            None => Err(
                ClientErrorModel::ClassificationError("unknown feed type of "@ + recipient),
            ),
        },
        None => match routing_key(frame, "type"@) {
            Some(_) => Ok(Feed::System),
            None => Err(
                ClientErrorModel::ClassificationError(
                    "could not find a matching key in message"@,
                ),
            ),
        },
    }
}

/// A frame is classified as a feed other than `System` if and only if it
/// carries a recipient that begins with the routing prefix of that feed.
pub proof fn lemma_classification_iff_routes(frame: Json, feed: Feed)
    requires
        feed != Feed::System,
    ensures
        classification(frame) == Ok::<Feed, ClientErrorModel>(feed) <==> (routing_key(
            frame,
            "recipient"@,
        ) matches Some(recipient) && feed.routes(recipient)),
{
    match routing_key(frame, "recipient"@) {
        Some(recipient) => {
            lemma_recipient_feed_iff_routes(recipient, feed);
        },
        None => {},
    }
}

/// A frame is classified as a `System` message if and only if it carries no
/// recipient, and a type.
pub proof fn lemma_classification_of_system(frame: Json)
    ensures
        classification(frame) == Ok::<Feed, ClientErrorModel>(Feed::System) <==> (routing_key(
            frame,
            "recipient"@,
        ).is_none() && routing_key(frame, "type"@).is_some()),
{
}

/// A frame that carries neither a recipient nor a type is refused with a
/// `ClassificationError`.
pub proof fn lemma_frame_without_routing_key(frame: Json)
    requires
        routing_key(frame, "recipient"@).is_none(),
        routing_key(frame, "type"@).is_none(),
    ensures
        classification(frame) == Err::<Feed, ClientErrorModel>(
            ClientErrorModel::ClassificationError("could not find a matching key in message"@),
        ),
{
}

/// Whether an outcome is the expected one: the expected value, or an error
/// with the expected model.
pub open spec fn meets<T>(
    r: Result<T, WebsocketClientError>,
    expected: Result<T, ClientErrorModel>,
) -> bool {
    match r {
        Ok(x) => expected == Ok::<T, ClientErrorModel>(x),
        Err(e) => expected == Err::<T, ClientErrorModel>(e@),
    }
}

/// Reads the text of the member `key`, where there is one and it is a text.
fn read_routing_key<'a>(frame: &'a WireValue, key: &str) -> (r: Option<&'a str>)
    ensures
        match r {
            Some(s) => routing_key(frame@, key@) == Some(s@),
            None => routing_key(frame@, key@).is_none(),
        },
{
    match frame.get(key) {
        Some(v) => v.as_str(),
        None => None,
    }
}

/// Given a frame's value, determines the feed it belongs to.
pub fn classify(frame: &WireValue) -> (r: Result<Feed, WebsocketClientError>)
    ensures
        meets(r, classification(frame@)),
{
    match read_routing_key(frame, "recipient") {
        Some(recipient) => match identify_recipient(recipient) {
            Some(feed) => Ok(feed),
            None => Err(
                WebsocketClientError::ClassificationError(
                    join("unknown feed type of ", recipient),
                ),
            ),
        },
        None => match read_routing_key(frame, "type") {
            Some(_) => Ok(Feed::System),
            None => Err(
                WebsocketClientError::ClassificationError(
                    "could not find a matching key in message".to_owned(),
                ),
            ),
        },
    }
}

/// What a frame's text holds: the value of the JSON document, or a
/// `ParseError` with the parser's complaint.
pub open spec fn frame_value(text: Seq<char>) -> Result<Json, ClientErrorModel> {
    match json_document(text) {
        Ok(value) => Ok(value),
        Err(complaint) => Err(ClientErrorModel::ParseError("could not parse json: "@ + complaint)),
    }
}

/// Reads the text of a frame into a generic value.
pub fn parse_frame(text: &str) -> (r: Result<WireValue, WebsocketClientError>)
    ensures
        match r {
            Ok(value) => frame_value(text@) == Ok::<Json, ClientErrorModel>(value@),
            Err(e) => frame_value(text@) == Err::<Json, ClientErrorModel>(e@),
        },
{
    match read_json(text) {
        Ok(value) => Ok(lift(value)),
        Err(complaint) => Err(
            WebsocketClientError::ParseError(join("could not parse json: ", complaint.as_str())),
        ),
    }
}

/// The feed of a frame given by its text.
pub open spec fn frame_feed(text: Seq<char>) -> Result<Feed, ClientErrorModel> {
    match frame_value(text) {
        Ok(value) => classification(value),
        Err(e) => Err(e),
    }
}

/// Given the text of a websocket message, determines the type of feed it is.
/// This can be used to pick the decoder in a message handler.
pub fn feed_message_type(message: &str) -> (r: Result<Feed, WebsocketClientError>)
    ensures
        meets(r, frame_feed(message@)),
{
    match parse_frame(message) {
        Ok(frame) => classify(&frame),
        Err(e) => Err(e),
    }
}

} // verus!
