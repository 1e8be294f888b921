//! Client-side protocol logic for the SFOX trading venue: the streaming feed
//! (subscription frames, classification and typed decoding of inbound
//! frames, the connection's lifecycle) and the small pure parts of the HTTP
//! API.

pub mod decimal;
pub mod http;
pub mod settings;
pub mod text;
pub mod websocket;
pub mod wire;
