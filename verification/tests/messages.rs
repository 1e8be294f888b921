use sfox::decimal::Decimal;
use sfox::websocket::decode::{DecodeErrorKind, FromJson};
use sfox::websocket::message::account::balance::balance_feed;
use sfox::websocket::message::account::order::open_order_feed;
use sfox::websocket::message::account::post_trade_settlement::post_trade_settlement_feed;
use sfox::websocket::message::market::orderbook::{order_book_feed, BookType};
use sfox::websocket::message::market::ticker::ticker_feed;
use sfox::websocket::message::market::trade::{trade_feed, trades_feed, TransactionSide};
use sfox::websocket::message::{
    classify, feed_message_type, identify_recipient, parse_frame, BalancesResponse, Feed,
    OrderResponse, OrderbookResponse, PostTradeSettlementResponse, SubscribeAction, SubscribeMsg,
    TickerResponse, TradeResponse, WsResponse, WsSystemResponse,
};
use sfox::websocket::WebsocketClientError;
use sfox::wire::{Member, WireValue};

const SUBSCRIBE_PAYLOAD: &str = r#"
{
    "type": "success",
    "sequence": 2,
    "timestamp": 1649899310281716290,
    "payload": {
        "action": "subscribe",
        "feeds": ["ticker.sfox.btcusd"]
    }
}
"#;

const NET_ORDERBOOK_PAYLOAD: &str = r#"
{
    "sequence": 2,
    "recipient": "orderbook.net.btcusd",
    "timestamp": 1572903458798000000,
    "payload": {
        "bids": [
            [9458.12, "1e-08", "gemini"],
            [9456, 1, "itbit"],
            [9453, 0.73553115, "itbit"]
        ],
        "asks": [
            [9455.55, 2.03782954, "market1"],
            [9455.56, 0.9908, "market1"]
        ],
        "market_making": {
            "bids": [
                [9447.34, 2, "bitstamp"],
                [9458.12, "1e-08", "gemini"]
            ],
            "asks": [
                [9458.13, 2.07196048, "gemini"]
            ]
        },
        "timestamps": {
            "gemini": [1572903458537, 1572903458538]
        },
        "lastupdated": 1572903458756,
        "pair": "btcusd",
        "currency": "usd",
        "lastpublished": 1572903458798
    }
}
"#;

const TICKER_PAYLOAD: &str = r#"
{
    "sequence": 2,
    "recipient": "ticker.sfox.btcusd",
    "timestamp": 1649899310281716290,
    "payload": {
        "amount": 0.0937,
        "exchange": "coinbase",
        "last": 41284.5,
        "high": 41430.0,
        "low": 39256.25,
        "open": 39470.0,
        "pair": "btcusd",
        "route": "Smart",
        "source": "ticker-info",
        "timestamp": "2022-04-14T01:21:50.159Z",
        "volume": 7394.54452872,
        "vwap": 40362.69788807
    }
}
"#;

const TRADE_PAYLOAD: &str = r#"
{
    "sequence": 2,
    "recipient": "trades.sfox.btcusd",
    "timestamp": 1649899310281716290,
    "payload": {
        "buyOrderId": "",
        "sellOrderId": "",
        "pair": "btcusd",
        "pair_id": 1,
        "price": "41284.50",
        "quantity": "0.01052248",
        "side": "sell",
        "exchange": "coinbase",
        "exchange_id": 4,
        "timestamp": "2022-04-14T01:21:50.159Z",
        "is_decimal": true
    }
}
"#;

const OPEN_ORDERS_PAYLOAD: &str = r#"
{
    "sequence": 3,
    "recipient": "private.user.open-orders",
    "timestamp": 1649899310281716290,
    "payload": [
        {
            "id": 5755372,
            "client_order_id": "",
            "status": "Started",
            "filled": "0",
            "filled_amount": "0",
            "vwap": "0",
            "price": "35000",
            "quantity": "0.001",
            "pair": "btcusd",
            "action": "Buy",
            "type": "Limit",
            "algorithm_id": 200,
            "fees": "0"
        }
    ]
}
"#;

const BALANCES_PAYLOAD: &str = r#"
{
    "sequence": 4,
    "recipient": "private.user.balances",
    "timestamp": 1649899310281716290,
    "payload": [
        {
            "currency": "btc",
            "balance": "0.627",
            "available": "0.627",
            "held": "0",
            "trading_wallet": "0.627",
            "collateral_wallet": "0",
            "borrow_wallet": "0",
            "lending_wallet": "0"
        },
        {
            "currency": "usd",
            "balance": "140.55",
            "available": 140.55,
            "held": "0.0",
            "trading_wallet": "1.4055e2",
            "collateral_wallet": "0",
            "borrow_wallet": "0",
            "lending_wallet": "0"
        }
    ]
}
"#;

const POST_TRADE_SETTLEMENT_PAYLOAD: &str = r#"
{
    "sequence": 5,
    "recipient": "private.user.post-trade-settlement",
    "timestamp": 1649899310281716290,
    "payload": {
        "enabled": "true",
        "equity": "2000000",
        "equity_for_withdrawals": "1500000",
        "available_exposure": "7500000",
        "exposure": "500000",
        "exposure_limit": "8000000"
    }
}
"#;

fn subscribe_msg(action: String, feed_type: Feed, feeds: Vec<String>) -> SubscribeMsg {
    SubscribeMsg {
        action,
        feed_type,
        feeds,
    }
}

fn as_f64(d: &Decimal) -> f64 {
    d.to_text().parse::<f64>().unwrap()
}

#[test]
fn test_feed_message_type_err() {
    let feed_msg_type = feed_message_type("{}");

    assert!(feed_msg_type.is_err());
}

#[test]
fn test_feed_message_type_system() {
    let feed_msg_type = feed_message_type(SUBSCRIBE_PAYLOAD).unwrap();

    assert!(feed_msg_type == Feed::System);
}

#[test]
fn test_feed_message_type_orderbook() {
    let feed_msg_type = feed_message_type(NET_ORDERBOOK_PAYLOAD).unwrap();

    assert!(feed_msg_type == Feed::NetOrderbook);
}

#[test]
fn test_feed_message_type_ticker() {
    let feed_msg_type = feed_message_type(TICKER_PAYLOAD).unwrap();

    assert!(feed_msg_type == Feed::Ticker);
}

#[test]
fn test_feed_message_type_trade() {
    let feed_msg_type = feed_message_type(TRADE_PAYLOAD).unwrap();

    assert!(feed_msg_type == Feed::Trade);
}

#[test]
fn test_feed_message_type_open_orders() {
    let feed_msg_type = feed_message_type(OPEN_ORDERS_PAYLOAD).unwrap();

    assert!(feed_msg_type == Feed::Orders);
}

#[test]
fn test_feed_message_type_balances() {
    let feed_msg_type = feed_message_type(BALANCES_PAYLOAD).unwrap();

    assert!(feed_msg_type == Feed::Balances);
}

#[test]
fn test_feed_message_type_post_trade_settlement() {
    let feed_msg_type = feed_message_type(POST_TRADE_SETTLEMENT_PAYLOAD).unwrap();

    assert!(feed_msg_type == Feed::PostTradeSettlement);
}

#[test]
fn test_deserialize_balance() {
    let frame = parse_frame(BALANCES_PAYLOAD).unwrap();

    let balances_response = BalancesResponse::from_json(&frame).unwrap();

    assert_eq!(balances_response.recipient, "private.user.balances");
    assert_eq!(balances_response.sequence, 4);
    assert_eq!(balances_response.payload.len(), 2);
    assert_eq!(balances_response.payload[0].currency, "btc");
    assert_eq!(as_f64(&balances_response.payload[0].balance), 0.627);
    assert_eq!(as_f64(&balances_response.payload[1].balance), 140.55);
}

#[test]
fn test_serialize_balance() {
    let balance_subscription =
        subscribe_msg("subscribe".into(), Feed::Balances, vec!["btcusd".into()]);

    let msg = balance_subscription.serialize();

    assert!(msg == "{\"type\":\"subscribe\",\"feeds\":[\"private.user.balances\"]}");
}

#[test]
fn test_deserialize_open_orders() {
    let frame = parse_frame(OPEN_ORDERS_PAYLOAD).unwrap();

    let open_orders_response = OrderResponse::from_json(&frame).unwrap();

    assert_eq!(open_orders_response.payload.len(), 1);
    assert_eq!(open_orders_response.payload[0].id, 5755372);
    assert_eq!(open_orders_response.payload[0].order_type, "Limit");
    assert_eq!(open_orders_response.payload[0].algorithm_id, 200);
    assert_eq!(open_orders_response.payload[0].price, "35000");
}

#[test]
fn test_serialize_open_orders() {
    let balance_subscription = subscribe_msg("subscribe".into(), Feed::Orders, vec![]);

    let msg = balance_subscription.serialize();
    assert!(msg == "{\"type\":\"subscribe\",\"feeds\":[\"private.user.open-orders\"]}");
}

#[test]
fn test_deserialize_orders() {
    let frame = parse_frame(NET_ORDERBOOK_PAYLOAD).unwrap();

    let order_response = OrderbookResponse::from_json(&frame).unwrap();

    assert_eq!(order_response.recipient, "orderbook.net.btcusd");
    assert_eq!(order_response.payload.bids.len(), 3);
    assert_eq!(order_response.payload.asks.len(), 2);
    assert_eq!(order_response.payload.market_making.bids.len(), 2);
    assert_eq!(order_response.payload.market_making.asks.len(), 1);
    assert_eq!(order_response.payload.lastupdated, 1572903458756);
    assert_eq!(order_response.payload.lastpublished, 1572903458798);
    assert_eq!(order_response.payload.pair, "btcusd");
    assert_eq!(as_f64(&order_response.payload.bids[0].price), 9458.12);
    assert_eq!(as_f64(&order_response.payload.bids[0].quantity), 1e-8);
    assert_eq!(order_response.payload.bids[0].source, "gemini");
    assert_eq!(as_f64(&order_response.payload.bids[1].price), 9456.0);
    assert_eq!(as_f64(&order_response.payload.bids[1].quantity), 1.0);
}

#[test]
fn test_serialize_net_orders() {
    let balance_subscription = subscribe_msg(
        "subscribe".into(),
        Feed::NetOrderbook,
        vec!["btcusd".into(), "ethusd".into()],
    );

    let msg = balance_subscription.serialize();
    assert!(
        msg == "{\"type\":\"subscribe\",\"feeds\":[\"orderbook.net.btcusd\",\"orderbook.net.ethusd\"]}"
    );
}

#[test]
fn test_serialize_raw_orders() {
    let balance_subscription = subscribe_msg(
        "subscribe".into(),
        Feed::RawOrderbook,
        vec!["btcusd".into(), "ethusd".into()],
    );

    let msg = balance_subscription.serialize();
    assert!(
        msg == "{\"type\":\"subscribe\",\"feeds\":[\"orderbook.sfox.btcusd\",\"orderbook.sfox.ethusd\"]}"
    );
}

#[test]
fn test_deserialize_tickers() {
    let frame = parse_frame(TICKER_PAYLOAD).unwrap();

    let ticker_response = TickerResponse::from_json(&frame).unwrap();

    assert_eq!(ticker_response.payload.exchange, "coinbase");
    assert_eq!(as_f64(&ticker_response.payload.amount), 0.0937);
    assert_eq!(as_f64(&ticker_response.payload.last), 41284.5);
    assert_eq!(as_f64(&ticker_response.payload.high), 41430.0);
    assert_eq!(as_f64(&ticker_response.payload.volume), 7394.54452872);
    assert_eq!(as_f64(&ticker_response.payload.vwap), 40362.69788807);
    assert_eq!(ticker_response.payload.timestamp, "2022-04-14T01:21:50.159Z");
}

#[test]
fn test_serialize_tickers() {
    let balance_subscription = subscribe_msg(
        "subscribe".into(),
        Feed::Ticker,
        vec!["btcusd".into(), "ethusd".into()],
    );

    let msg = balance_subscription.serialize();
    assert!(
        msg == "{\"type\":\"subscribe\",\"feeds\":[\"ticker.sfox.btcusd\",\"ticker.sfox.ethusd\"]}"
    );
}

#[test]
fn test_deserialize_trade() {
    let frame = parse_frame(TRADE_PAYLOAD).unwrap();

    let trade_response = TradeResponse::from_json(&frame).unwrap();

    assert_eq!(trade_response.payload.buy_order_id, "");
    assert_eq!(trade_response.payload.pair_id, 1);
    assert_eq!(as_f64(&trade_response.payload.price), 41284.5);
    assert_eq!(as_f64(&trade_response.payload.quantity), 0.01052248);
    assert_eq!(trade_response.payload.side, TransactionSide::Sell);
    assert_eq!(trade_response.payload.exchange_id, 4);
    assert!(trade_response.payload.is_decimal);
}

#[test]
fn test_serialize_trades() {
    let balance_subscription = subscribe_msg(
        "subscribe".into(),
        Feed::Trade,
        vec!["btcusd".into(), "ethusd".into()],
    );

    let msg = balance_subscription.serialize();
    assert!(
        msg == "{\"type\":\"subscribe\",\"feeds\":[\"trades.sfox.btcusd\",\"trades.sfox.ethusd\"]}"
    );
}

#[test]
fn test_deserialize_system_response() {
    let system_response_payload = r#"
    {
        "type": "system_type",
        "payload": { "some_field": "some_value" },
        "sequence": 123,
        "timestamp": 456
    }
    "#;

    let system_response: WsSystemResponse<WireValue> =
        WsSystemResponse::from_json(&parse_frame(system_response_payload).unwrap()).unwrap();

    assert_eq!(system_response.message_type, "system_type");
    assert_eq!(system_response.sequence, 123);
    assert_eq!(system_response.timestamp, 456);
}

#[test]
fn test_deserialize_ws_response() {
    let ws_response_payload = WireValue::Object(vec![
        Member {
            key: "recipient".to_string(),
            value: WireValue::String("private.user.balances".to_string()),
        },
        Member {
            key: "payload".to_string(),
            value: WireValue::Object(vec![Member {
                key: "some_field".to_string(),
                value: WireValue::String("some_value".to_string()),
            }]),
        },
        Member {
            key: "sequence".to_string(),
            value: WireValue::Number("123".to_string()),
        },
        Member {
            key: "timestamp".to_string(),
            value: WireValue::Number("456".to_string()),
        },
    ]);

    let ws_response: Result<WsResponse<WireValue>, _> = WsResponse::from_json(&ws_response_payload);

    assert!(ws_response.is_ok());
    let ws_response = ws_response.unwrap();

    assert_eq!(ws_response.recipient, "private.user.balances");
    assert_eq!(ws_response.sequence, 123);
    assert_eq!(ws_response.timestamp, 456);

    let payload = &ws_response.payload;
    assert!(payload.is_object());
    assert_eq!(
        payload.get("some_field").unwrap(),
        &WireValue::String("some_value".to_string())
    );
}

#[test]
fn deserialize_post_trade_settlement() {
    let frame = parse_frame(POST_TRADE_SETTLEMENT_PAYLOAD).unwrap();

    let response = PostTradeSettlementResponse::from_json(&frame).unwrap();

    assert_eq!(response.payload.enabled, "true");
    assert_eq!(response.payload.exposure_limit, "8000000");
    assert_eq!(response.sequence, 5);
}

#[test]
fn envelope_reports_the_first_member_that_fails() {
    let no_recipient = parse_frame(r#"{"payload": {}, "sequence": 1, "timestamp": 2}"#).unwrap();
    let e = WsResponse::<WireValue>::from_json(&no_recipient).unwrap_err();
    assert_eq!(e.kind, DecodeErrorKind::MissingField);
    assert_eq!(e.field, "recipient");

    let no_payload = parse_frame(r#"{"recipient": "ticker.sfox.btcusd", "sequence": 1}"#).unwrap();
    let e = WsResponse::<WireValue>::from_json(&no_payload).unwrap_err();
    assert_eq!(e.kind, DecodeErrorKind::MissingField);
    assert_eq!(e.field, "payload");

    let bad_sequence = parse_frame(
        r#"{"recipient": "ticker.sfox.btcusd", "payload": 1, "sequence": -1, "timestamp": 2}"#,
    )
    .unwrap();
    let e = WsResponse::<WireValue>::from_json(&bad_sequence).unwrap_err();
    assert_eq!(e.kind, DecodeErrorKind::ExpectedUnsigned);
    assert_eq!(e.field, "sequence");

    let no_timestamp =
        parse_frame(r#"{"recipient": 7, "payload": 1, "sequence": 1, "timestamp": 2}"#).unwrap();
    let e = WsResponse::<WireValue>::from_json(&no_timestamp).unwrap_err();
    assert_eq!(e.kind, DecodeErrorKind::ExpectedString);
    assert_eq!(e.field, "recipient");
}

#[test]
fn identify_recipient_follows_the_rules() {
    assert_eq!(identify_recipient("orderbook.net.btcusd"), Some(Feed::NetOrderbook));
    assert_eq!(identify_recipient("orderbook.sfox.btcusd"), Some(Feed::RawOrderbook));
    assert_eq!(identify_recipient("ticker.sfox.btcusd"), Some(Feed::Ticker));
    assert_eq!(identify_recipient("trades.sfox.btcusd"), Some(Feed::Trade));
    assert_eq!(identify_recipient("private.user.balances"), Some(Feed::Balances));
    assert_eq!(identify_recipient("private.user.open-orders"), Some(Feed::Orders));
    assert_eq!(
        identify_recipient("private.user.post-trade-settlement"),
        Some(Feed::PostTradeSettlement)
    );
    assert_eq!(identify_recipient("orderbook.btcusd"), None);
    assert_eq!(identify_recipient("orderbook"), None);
    assert_eq!(identify_recipient("private.user"), None);
    assert_eq!(identify_recipient("system"), None);
    assert_eq!(identify_recipient(""), None);
    assert_eq!(identify_recipient("Ticker.sfox.btcusd"), None);
}

#[test]
fn every_topic_is_classified_as_its_feed() {
    let feeds = [
        Feed::Balances,
        Feed::Orders,
        Feed::PostTradeSettlement,
        Feed::NetOrderbook,
        Feed::RawOrderbook,
        Feed::Ticker,
        Feed::Trade,
    ];
    for feed in feeds {
        for symbol in ["btcusd", "", "ticker", "orderbook.net"] {
            let topic = feed.topic_for(symbol);
            assert_eq!(identify_recipient(&topic), Some(feed));
        }
    }
}

#[test]
fn classify_without_routing_key_is_an_error() {
    let frame = parse_frame(r#"{"sequence": 1, "payload": {}}"#).unwrap();
    assert_eq!(
        classify(&frame),
        Err(WebsocketClientError::ClassificationError(
            "could not find a matching key in message".to_string()
        ))
    );
    let not_an_object = parse_frame("[1, 2]").unwrap();
    assert!(matches!(
        classify(&not_an_object),
        Err(WebsocketClientError::ClassificationError(_))
    ));
}

#[test]
fn classify_reports_the_unknown_recipient() {
    let frame = parse_frame(r#"{"recipient": "candles.sfox.btcusd", "type": "x"}"#).unwrap();
    assert_eq!(
        classify(&frame),
        Err(WebsocketClientError::ClassificationError(
            "unknown feed type of candles.sfox.btcusd".to_string()
        ))
    );
}

#[test]
fn classify_falls_back_to_type_when_recipient_is_no_text() {
    let frame = parse_frame(r#"{"recipient": 12, "type": "success"}"#).unwrap();
    assert_eq!(classify(&frame), Ok(Feed::System));
    let neither = parse_frame(r#"{"recipient": 12, "type": 13}"#).unwrap();
    assert!(classify(&neither).is_err());
}

#[test]
fn feed_message_type_reports_text_that_is_no_json() {
    match feed_message_type("{not json") {
        Err(WebsocketClientError::ParseError(m)) => {
            assert!(m.starts_with("could not parse json: "));
            assert!(m.len() > "could not parse json: ".len());
        }
        other => panic!("unexpected outcome: {:?}", other),
    }
}

#[test]
fn unsubscribe_frame_names_the_action() {
    let msg = subscribe_msg(
        String::from(SubscribeAction::Unsubscribe),
        Feed::Ticker,
        vec!["btcusd".into()],
    );
    assert_eq!(
        msg.serialize(),
        "{\"type\":\"unsubscribe\",\"feeds\":[\"ticker.sfox.btcusd\"]}"
    );
    assert_eq!(String::from(SubscribeAction::Subscribe), "subscribe");
    assert_eq!(SubscribeAction::Unsubscribe.as_str(), "unsubscribe");
}

#[test]
fn instrument_feed_without_symbols_has_no_topics() {
    let msg = subscribe_msg("subscribe".into(), Feed::Trade, vec![]);
    assert_eq!(msg.serialize(), "{\"type\":\"subscribe\",\"feeds\":[]}");
}

#[test]
fn account_feeds_ignore_the_symbols() {
    for feed in [Feed::Balances, Feed::Orders, Feed::PostTradeSettlement] {
        let with = subscribe_msg("subscribe".into(), feed, vec!["btcusd".into(), "x".into()]);
        let without = subscribe_msg("subscribe".into(), feed, vec![]);
        assert_eq!(with.serialize(), without.serialize());
    }
    let msg = subscribe_msg(
        "subscribe".into(),
        Feed::PostTradeSettlement,
        vec!["btcusd".into()],
    );
    assert_eq!(
        msg.serialize(),
        "{\"type\":\"subscribe\",\"feeds\":[\"private.user.post-trade-settlement\"]}"
    );
}

#[test]
fn symbols_are_escaped_as_json_strings() {
    let msg = subscribe_msg("subscribe".into(), Feed::Ticker, vec!["a\"b\\c\n".into()]);
    assert_eq!(
        msg.serialize(),
        "{\"type\":\"subscribe\",\"feeds\":[\"ticker.sfox.a\\\"b\\\\c\\n\"]}"
    );
}

#[test]
fn feed_topics() {
    assert_eq!(balance_feed(), "private.user.balances");
    assert_eq!(open_order_feed(), "private.user.open-orders");
    assert_eq!(post_trade_settlement_feed(), "private.user.post-trade-settlement");
    assert_eq!(ticker_feed("btcusd"), "ticker.sfox.btcusd");
    assert_eq!(trades_feed("btcusd"), "trades.sfox.btcusd");
    assert_eq!(trade_feed("ethusd"), "trades.sfox.ethusd");
    assert_eq!(
        order_book_feed("btcusd", BookType::FeeAdjusted),
        "orderbook.net.btcusd"
    );
    assert_eq!(
        order_book_feed("btcusd", BookType::Unadjusted),
        "orderbook.sfox.btcusd"
    );
    assert_eq!(BookType::FeeAdjusted.to_string(), "net");
    assert_eq!(BookType::Unadjusted.to_string(), "sfox");
    assert_eq!(Feed::System.topic_for("btcusd"), "system");
    assert!(Feed::Ticker.is_per_instrument());
    assert!(!Feed::Balances.is_per_instrument());
    assert_eq!(Feed::Ticker.routing_prefix(), Some("ticker"));
    assert_eq!(Feed::System.routing_prefix(), None);
}
