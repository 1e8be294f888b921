use sfox::websocket::message::payload::{Message, Payload};
use sfox::websocket::message::{Feed, SubscribeAction};
use sfox::websocket::{
    feed_msg, is_authentication_success, tx_error, Client, ConnectionState, WebsocketClientError,
    DEFAULT_WS_SERVER_URL,
};

const AUTH_SUCCESS: &str = r#"{"type": "success", "sequence": 1, "timestamp": 2,
    "payload": {"action": "authenticate"}}"#;

const TICKER: &str = r#"{"recipient": "ticker.sfox.btcusd", "sequence": 3, "timestamp": 4,
    "payload": {"amount": 1, "exchange": "x", "last": 1, "high": 1, "low": 1, "open": 1,
    "pair": "btcusd", "route": "r", "source": "s", "timestamp": "t", "volume": 1, "vwap": 1}}"#;

fn connected(credential: Option<&str>) -> Client {
    let mut client = Client::new_with_server_url(
        "ws://127.0.0.1:9000".to_string(),
        credential.map(str::to_string),
    );
    client.begin_connect().unwrap();
    client.handshake_completed(101, "").unwrap();
    client
}

#[test]
fn test_subscribe() {
    let client = connected(None);

    let ticker_result = client.subscribe(Feed::Ticker, vec!["btcusd".into()]);
    let trade_result = client.subscribe(Feed::Trade, vec!["btcusd".into()]);

    assert!(ticker_result.is_ok());
    assert!(trade_result.is_ok());
    assert_eq!(
        ticker_result.unwrap(),
        "{\"type\":\"subscribe\",\"feeds\":[\"ticker.sfox.btcusd\"]}"
    );
    assert_eq!(
        trade_result.unwrap(),
        "{\"type\":\"subscribe\",\"feeds\":[\"trades.sfox.btcusd\"]}"
    );
}

#[test]
fn test_unsubscribe() {
    let client = connected(None);

    let result = client.unsubscribe(Feed::NetOrderbook, vec!["orders".into()]);

    assert!(result.is_ok());
    assert_eq!(
        result.unwrap(),
        "{\"type\":\"unsubscribe\",\"feeds\":[\"orderbook.net.orders\"]}"
    );
}

#[test]
fn test_new() {
    let ws = Client::new(None, None);
    assert_eq!(ws.server_url, DEFAULT_WS_SERVER_URL);
    assert_eq!(ws.server_url, "wss://ws.sfox.com/ws");
    assert_eq!(ws.state, ConnectionState::Disconnected);
    assert_eq!(ws.credential, None);

    let ws = Client::new(Some("ws://localhost:1".to_string()), Some("key".to_string()));
    assert_eq!(ws.server_url, "ws://localhost:1");
    assert_eq!(ws.credential, Some("key".to_string()));
    assert_eq!(ws.state, ConnectionState::Disconnected);
}

#[test]
fn connection_moves_through_its_states() {
    let mut client = Client::new_with_server_url("ws://x".to_string(), Some("key".to_string()));
    assert_eq!(client.state, ConnectionState::Disconnected);
    assert_eq!(client.begin_connect(), Ok(()));
    assert_eq!(client.state, ConnectionState::Connecting);
    assert_eq!(client.handshake_completed(101, "switching"), Ok(()));
    assert_eq!(client.state, ConnectionState::Connected);
    assert_eq!(
        client.authenticate(),
        Ok("{\"type\":\"authenticate\",\"apiKey\":\"key\"}".to_string())
    );
    assert_eq!(client.state, ConnectionState::Connected);
    let message = client.receive(AUTH_SUCCESS).unwrap();
    assert!(is_authentication_success(&message));
    assert_eq!(client.state, ConnectionState::Authenticated);
    assert!(client.subscribe(Feed::Balances, vec![]).is_ok());
    client.close();
    assert_eq!(client.state, ConnectionState::Closed);
    assert_eq!(client.server_url, "ws://x");
    assert_eq!(client.credential, Some("key".to_string()));
}

#[test]
fn handshake_needs_an_informational_status() {
    for status in [100, 101, 199] {
        let mut client = Client::new(None, None);
        client.begin_connect().unwrap();
        assert_eq!(client.handshake_completed(status, "detail"), Ok(()));
        assert_eq!(client.state, ConnectionState::Connected);
    }
    for status in [0, 99, 200, 301, 404, 500, u16::MAX] {
        let mut client = Client::new(None, None);
        client.begin_connect().unwrap();
        assert_eq!(
            client.handshake_completed(status, "detail"),
            Err(WebsocketClientError::InitializationError(
                "Websocket connection unsuccessful: detail".to_string()
            ))
        );
        assert_eq!(client.state, ConnectionState::Closed);
    }
}

#[test]
fn handshake_without_an_attempt_changes_nothing() {
    let mut client = Client::new(None, None);
    assert_eq!(
        client.handshake_completed(101, ""),
        Err(WebsocketClientError::InitializationError(
            "no connection attempt is under way".to_string()
        ))
    );
    assert_eq!(client.state, ConnectionState::Disconnected);
    let mut client = connected(None);
    assert!(client.handshake_completed(400, "").is_err());
    assert_eq!(client.state, ConnectionState::Connected);
}

#[test]
fn a_connection_is_started_once() {
    let mut client = connected(None);
    assert_eq!(
        client.begin_connect(),
        Err(WebsocketClientError::InitializationError(
            "connection already started".to_string()
        ))
    );
    assert_eq!(client.state, ConnectionState::Connected);
    client.close();
    assert!(client.begin_connect().is_err());
    assert_eq!(client.state, ConnectionState::Closed);
}

#[test]
fn connect_failure_closes() {
    let mut client = Client::new(None, None);
    client.begin_connect().unwrap();
    assert_eq!(
        client.connect_failed("refused"),
        WebsocketClientError::InitializationError(
            "Could not connect to websocket server: refused".to_string()
        )
    );
    assert_eq!(client.state, ConnectionState::Closed);
}

#[test]
fn frames_are_handed_out_only_while_open() {
    let mut client = Client::new(None, Some("key".to_string()));
    let not_connected = Err(WebsocketClientError::TxError(
        "Could not send message: socket is not connected".to_string(),
    ));
    assert_eq!(client.subscribe(Feed::Ticker, vec!["btcusd".into()]), not_connected);
    assert_eq!(client.unsubscribe(Feed::Ticker, vec![]), not_connected);
    assert_eq!(
        client.authenticate(),
        Err(WebsocketClientError::AuthenticationError(
            "socket is not connected".to_string()
        ))
    );
    client.begin_connect().unwrap();
    assert_eq!(client.subscribe(Feed::Ticker, vec![]), not_connected);
    client.handshake_completed(101, "").unwrap();
    assert!(client.subscribe(Feed::Ticker, vec![]).is_ok());
    client.close();
    assert_eq!(client.subscribe(Feed::Ticker, vec![]), not_connected);
    assert!(client.authenticate().is_err());
}

#[test]
fn authentication_needs_a_credential() {
    let client = connected(None);
    assert_eq!(
        client.authenticate(),
        Err(WebsocketClientError::AuthenticationError(
            "credential not found".to_string()
        ))
    );
    assert_eq!(client.state, ConnectionState::Connected);
}

#[test]
fn only_an_acknowledgement_authenticates() {
    let mut client = connected(Some("key"));
    let message = client.receive(TICKER).unwrap();
    assert_eq!(message.feed(), Feed::Ticker);
    match &message {
        Message::Feed(Feed::Ticker, response) => {
            assert!(matches!(response.payload, Payload::Ticker(_)))
        }
        other => panic!("unexpected message: {:?}", other),
    }
    assert!(!is_authentication_success(&message));
    assert_eq!(client.state, ConnectionState::Connected);
    for text in [
        r#"{"type": "success", "sequence": 1, "timestamp": 2, "payload": {"action": "subscribe"}}"#,
        r#"{"type": "error", "sequence": 1, "timestamp": 2, "payload": {"action": "authenticate"}}"#,
        r#"{"type": "success", "sequence": 1, "timestamp": 2, "payload": {"action": 1}}"#,
        r#"{"type": "success", "sequence": 1, "timestamp": 2, "payload": "authenticate"}"#,
    ] {
        assert!(client.receive(text).is_ok());
        assert_eq!(client.state, ConnectionState::Connected);
    }
    assert!(client.receive(AUTH_SUCCESS).is_ok());
    assert_eq!(client.state, ConnectionState::Authenticated);
    assert!(client.receive(TICKER).is_ok());
    assert_eq!(client.state, ConnectionState::Authenticated);
}

#[test]
fn an_acknowledgement_does_not_reopen() {
    let mut client = connected(Some("key"));
    client.close();
    assert!(client.receive(AUTH_SUCCESS).is_ok());
    assert_eq!(client.state, ConnectionState::Closed);
    let mut fresh = Client::new(None, None);
    assert!(fresh.receive(AUTH_SUCCESS).is_ok());
    assert_eq!(fresh.state, ConnectionState::Disconnected);
}

#[test]
fn a_bad_frame_leaves_the_connection_usable() {
    let mut client = connected(None);
    assert!(matches!(
        client.receive("garbage"),
        Err(WebsocketClientError::ParseError(_))
    ));
    assert!(matches!(
        client.receive("{}"),
        Err(WebsocketClientError::ClassificationError(_))
    ));
    assert!(matches!(
        client.receive(r#"{"recipient": "ticker.sfox.btcusd"}"#),
        Err(WebsocketClientError::DecodeError(_))
    ));
    assert_eq!(client.state, ConnectionState::Connected);
    assert!(client.receive(TICKER).is_ok());
}

#[test]
fn send_failures() {
    let mut client = connected(None);
    assert_eq!(
        client.lock_failed("poisoned"),
        WebsocketClientError::LockError("poisoned".to_string())
    );
    assert_eq!(client.state, ConnectionState::Connected);
    assert_eq!(
        client.send_failed("broken pipe"),
        WebsocketClientError::TxError("Could not send message: broken pipe".to_string())
    );
    assert_eq!(client.state, ConnectionState::Closed);

    let mut client = connected(Some("key"));
    assert_eq!(
        client.authentication_failed("broken pipe"),
        WebsocketClientError::AuthenticationError(
            "could not send message: Could not send message: broken pipe".to_string()
        )
    );
    assert_eq!(client.state, ConnectionState::Closed);
    assert_eq!(
        tx_error("x"),
        WebsocketClientError::TxError("Could not send message: x".to_string())
    );
}

#[test]
fn feed_message() {
    assert_eq!(
        feed_msg(
            vec!["btcusd".into(), "ethusd".into()],
            Feed::Ticker,
            SubscribeAction::Subscribe
        ),
        "{\"type\":\"subscribe\",\"feeds\":[\"ticker.sfox.btcusd\",\"ticker.sfox.ethusd\"]}"
    );
    assert_eq!(
        feed_msg(vec![], Feed::Balances, SubscribeAction::Unsubscribe),
        "{\"type\":\"unsubscribe\",\"feeds\":[\"private.user.balances\"]}"
    );
    assert!(ConnectionState::Connected.is_open());
    assert!(ConnectionState::Authenticated.is_open());
    assert!(!ConnectionState::Connecting.is_open());
    assert!(!ConnectionState::Disconnected.is_open());
    assert!(!ConnectionState::Closed.is_open());
}
