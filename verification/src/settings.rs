//! The settings of a client: the credential and the addresses of the venue.

use vstd::prelude::*;
use crate::text::same_text;
use crate::websocket::decode::{
    agrees, member, read_member, read_text, text_member, DecodeError, DecodeErrorKind, FromJson,
};
use crate::wire::{Json, WireValue};

verus! {

/// The credential.
#[derive(Clone, Debug, PartialEq, Eq)]
pub struct AuthSettings {
    pub api_key: String,
}

/// Mathematical model of a `AuthSettings`.
pub struct AuthSettingsModel {
    pub api_key: Seq<char>,
}

impl DeepView for AuthSettings {
    type V = AuthSettingsModel;

    open spec fn deep_view(&self) -> AuthSettingsModel {
        AuthSettingsModel {
            api_key: self.api_key@,
        }
    }
}

impl FromJson for AuthSettings {
    /// The value is a record, and its members are asked for in the order
    /// in which the type declares them; the first that fails gives the
    /// error. Members that the type does not name are passed over.
    open spec fn decoded(value: Json) -> Result<AuthSettingsModel, DecodeError> {
        let api_key = text_member(value, "api_key");
        if !(value is Record) {
            Err(DecodeError { kind: DecodeErrorKind::ExpectedObject, field: "" })
        } else if api_key is Err {
            Err(api_key->Err_0)
        } else {
            Ok(
                AuthSettingsModel {
                    api_key: api_key->Ok_0,
                },
            )
        }
    }

    fn from_json(value: &WireValue) -> (r: Result<Self, DecodeError>)
        ensures
            agrees(r, Self::decoded(value@)),
    {
        if !value.is_object() {
            return Err(DecodeError { kind: DecodeErrorKind::ExpectedObject, field: "" });
        }
        let api_key = read_text(value, "api_key")?;
        Ok(AuthSettings { api_key })
    }
}

/// The addresses of the HTTP API.
#[derive(Clone, Debug, PartialEq, Eq)]
pub struct HttpSettings {
    pub candlestick_url: String,
    pub server_url: String,
}

/// Mathematical model of a `HttpSettings`.
pub struct HttpSettingsModel {
    pub candlestick_url: Seq<char>,
    pub server_url: Seq<char>,
}

impl DeepView for HttpSettings {
    type V = HttpSettingsModel;

    open spec fn deep_view(&self) -> HttpSettingsModel {
        HttpSettingsModel {
            candlestick_url: self.candlestick_url@,
            server_url: self.server_url@,
        }
    }
}

impl FromJson for HttpSettings {
    /// The value is a record, and its members are asked for in the order
    /// in which the type declares them; the first that fails gives the
    /// error. Members that the type does not name are passed over.
    open spec fn decoded(value: Json) -> Result<HttpSettingsModel, DecodeError> {
        let candlestick_url = text_member(value, "candlestick_url");
        let server_url = text_member(value, "server_url");
        if !(value is Record) {
            Err(DecodeError { kind: DecodeErrorKind::ExpectedObject, field: "" })
        } else if candlestick_url is Err {
            Err(candlestick_url->Err_0)
        } else if server_url is Err {
            Err(server_url->Err_0)
        } else {
            Ok(
                HttpSettingsModel {
                    candlestick_url: candlestick_url->Ok_0,
                    server_url: server_url->Ok_0,
                },
            )
        }
    }

    fn from_json(value: &WireValue) -> (r: Result<Self, DecodeError>)
        ensures
            agrees(r, Self::decoded(value@)),
    {
        if !value.is_object() {
            return Err(DecodeError { kind: DecodeErrorKind::ExpectedObject, field: "" });
        }
        let candlestick_url = read_text(value, "candlestick_url")?;
        let server_url = read_text(value, "server_url")?;
        Ok(HttpSettings { candlestick_url, server_url })
    }
}

/// The address of the streaming feed.
#[derive(Clone, Debug, PartialEq, Eq)]
pub struct WebsocketSettings {
    pub server_url: String,
}

/// Mathematical model of a `WebsocketSettings`.
pub struct WebsocketSettingsModel {
    pub server_url: Seq<char>,
}

impl DeepView for WebsocketSettings {
    type V = WebsocketSettingsModel;

    open spec fn deep_view(&self) -> WebsocketSettingsModel {
        WebsocketSettingsModel {
            server_url: self.server_url@,
        }
    }
}

impl FromJson for WebsocketSettings {
    /// The value is a record, and its members are asked for in the order
    /// in which the type declares them; the first that fails gives the
    /// error. Members that the type does not name are passed over.
    open spec fn decoded(value: Json) -> Result<WebsocketSettingsModel, DecodeError> {
        let server_url = text_member(value, "server_url");
        if !(value is Record) {
            Err(DecodeError { kind: DecodeErrorKind::ExpectedObject, field: "" })
        } else if server_url is Err {
            Err(server_url->Err_0)
        } else {
            Ok(
                WebsocketSettingsModel {
                    server_url: server_url->Ok_0,
                },
            )
        }
    }

    fn from_json(value: &WireValue) -> (r: Result<Self, DecodeError>)
        ensures
            agrees(r, Self::decoded(value@)),
    {
        if !value.is_object() {
            return Err(DecodeError { kind: DecodeErrorKind::ExpectedObject, field: "" });
        }
        let server_url = read_text(value, "server_url")?;
        Ok(WebsocketSettings { server_url })
    }
}

/// All settings of a client.
#[derive(Clone, Debug, PartialEq, Eq)]
pub struct Settings {
    pub auth: AuthSettings,
    pub http: HttpSettings,
    pub websocket: WebsocketSettings,
}

/// Mathematical model of a `Settings`.
pub struct SettingsModel {
    pub auth: AuthSettingsModel,
    pub http: HttpSettingsModel,
    pub websocket: WebsocketSettingsModel,
}

impl DeepView for Settings {
    type V = SettingsModel;

    open spec fn deep_view(&self) -> SettingsModel {
        SettingsModel {
            auth: self.auth.deep_view(),
            http: self.http.deep_view(),
            websocket: self.websocket.deep_view(),
        }
    }
}

impl FromJson for Settings {
    /// The value is a record, and its members are asked for in the order
    /// in which the type declares them; the first that fails gives the
    /// error. Members that the type does not name are passed over.
    open spec fn decoded(value: Json) -> Result<SettingsModel, DecodeError> {
        let auth = member::<AuthSettings>(value, "auth");
        let http = member::<HttpSettings>(value, "http");
        let websocket = member::<WebsocketSettings>(value, "websocket");
        if !(value is Record) {
            Err(DecodeError { kind: DecodeErrorKind::ExpectedObject, field: "" })
        } else if auth is Err {
            Err(auth->Err_0)
        } else if http is Err {
            Err(http->Err_0)
        } else if websocket is Err {
            Err(websocket->Err_0)
        } else {
            Ok(
                SettingsModel {
                    auth: auth->Ok_0,
                    http: http->Ok_0,
                    websocket: websocket->Ok_0,
                },
            )
        }
    }

    fn from_json(value: &WireValue) -> (r: Result<Self, DecodeError>)
        ensures
            agrees(r, Self::decoded(value@)),
    {
        if !value.is_object() {
            return Err(DecodeError { kind: DecodeErrorKind::ExpectedObject, field: "" });
        }
        let auth = read_member::<AuthSettings>(value, "auth")?;
        let http = read_member::<HttpSettings>(value, "http")?;
        let websocket = read_member::<WebsocketSettings>(value, "websocket")?;
        Ok(Settings { auth, http, websocket })
    }
}

/// The settings that every client starts from.
pub const DEFAULT_SOURCE: &'static str = "src/settings/config/default";

/// The settings that are laid over the default ones for the staging venue.
pub const DEVELOPMENT_SOURCE: &'static str = "src/settings/config/development";

/// Whether the staging venue is asked for: the switch must be exactly `true`.
pub open spec fn staging(switch: Option<&str>) -> bool {
    match switch {
        Some(word) => word@ == "true"@,
        None => false,
    }
}

/// Whether the staging venue is asked for.
pub fn staging_enabled(switch: Option<&str>) -> (b: bool)
    ensures
        b == staging(switch),
{
    match switch {
        Some(word) => same_text(word, "true"),
        None => false,
    }
}

/// The sources of the settings, in the order in which they are laid over
/// each other: the default ones, and for the staging venue the development
/// ones on top.
pub fn config_sources(switch: Option<&str>) -> (sources: Vec<&'static str>)
    ensures
        sources@ == if staging(switch) {
            seq![DEFAULT_SOURCE, DEVELOPMENT_SOURCE]
        } else {
            seq![DEFAULT_SOURCE]
        },
{
    let mut sources: Vec<&'static str> = Vec::new();
    sources.push(DEFAULT_SOURCE);
    if staging_enabled(switch) {
        sources.push(DEVELOPMENT_SOURCE);
    }
    assert(sources@ =~= if staging(switch) {
        seq![DEFAULT_SOURCE, DEVELOPMENT_SOURCE]
    } else {
        seq![DEFAULT_SOURCE]
    });
    sources
}

} // verus!
