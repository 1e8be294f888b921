//! Authentication of a connected socket.

use vstd::prelude::*;
use crate::text::same_text;
use crate::websocket::decode::{
    agrees, read_text, text_member, DecodeError, DecodeErrorKind, FromJson,
};
use crate::websocket::message::{
    frame_value, parse_frame, WsSystemResponse, WsSystemResponseModel,
};
use crate::websocket::{ClientErrorModel, WebsocketClientError};
use crate::wire::{json_string_literal, write_json_string, Json, WireValue};

verus! {

/// The payload of the answer to an authentication frame.
#[derive(Clone, Debug, PartialEq, Eq)]
pub struct WsAuthResponsePayload {
    pub action: String,
}

/// Mathematical model of a `WsAuthResponsePayload`.
pub struct WsAuthResponsePayloadModel {
    pub action: Seq<char>,
}

impl DeepView for WsAuthResponsePayload {
    type V = WsAuthResponsePayloadModel;

    open spec fn deep_view(&self) -> WsAuthResponsePayloadModel {
        WsAuthResponsePayloadModel {
            action: self.action@,
        }
    }
}

impl FromJson for WsAuthResponsePayload {
    /// The value is a record, and its members are asked for in the order
    /// in which the type declares them; the first that fails gives the
    /// error. Members that the type does not name are passed over.
    open spec fn decoded(value: Json) -> Result<WsAuthResponsePayloadModel, DecodeError> {
        let action = text_member(value, "action");
        if !(value is Record) {
            Err(DecodeError { kind: DecodeErrorKind::ExpectedObject, field: "" })
        } else if action is Err {
            Err(action->Err_0)
        } else {
            Ok(
                WsAuthResponsePayloadModel {
                    action: action->Ok_0,
                },
            )
        }
    }

    fn from_json(value: &WireValue) -> (r: Result<Self, DecodeError>)
        ensures
            agrees(r, Self::decoded(value@)),
    {
        if !value.is_object() {
            return Err(DecodeError { kind: DecodeErrorKind::ExpectedObject, field: "" });
        }
        let action = read_text(value, "action")?;
        Ok(WsAuthResponsePayload { action })
    }
}

/// The frame that authenticates a socket with `token`:
/// `{"type":"authenticate","apiKey":<token>}`.
pub open spec fn auth_frame(token: Seq<char>) -> Seq<char> {
    "{\"type\":\"authenticate\",\"apiKey\":"@ + json_string_literal(token) + "}"@
}

/// The text of the frame that authenticates a socket with `auth_token`.
pub fn auth_message(auth_token: &str) -> (frame: String)
    ensures
        frame@ == auth_frame(auth_token@),
{
    let token = write_json_string(auth_token);
    let mut frame = "{\"type\":\"authenticate\",\"apiKey\":".to_owned();
    frame.append(token.as_str());
    frame.append("}");
    frame
}

/// The characters of a credential, where one was supplied.
pub open spec fn supplied(credential: Option<&str>) -> Option<Seq<char>> {
    match credential {
        Some(token) => Some(token@),
        None => None,
    }
}

/// The frame that authenticates a socket, or an `AuthenticationError` where
/// no credential was supplied.
pub open spec fn authentication(credential: Option<Seq<char>>) -> Result<
    Seq<char>,
    ClientErrorModel,
> {
    match credential {
        Some(token) => Ok(auth_frame(token)),
        None => Err(ClientErrorModel::AuthenticationError("credential not found"@)),
    }
}

/// Prepares the authentication of a connected socket: the frame to send, or
/// an `AuthenticationError` where no credential was supplied.
pub fn authenticate(credential: Option<&str>) -> (r: Result<String, WebsocketClientError>)
    ensures
        match r {
            Ok(frame) => authentication(supplied(credential)) == Ok::<
                Seq<char>,
                ClientErrorModel,
            >(frame@),
            Err(e) => authentication(supplied(credential)) == Err::<
                Seq<char>,
                ClientErrorModel,
            >(e@),
        },
{
    match credential {
        Some(token) => Ok(auth_message(token)),
        None => Err(WebsocketClientError::AuthenticationError("credential not found".to_owned())),
    }
}

/// Whether a system message says that an authentication succeeded: its type
/// is `success` and the action of its payload is `authenticate`.
pub open spec fn confirms_authentication(
    response: WsSystemResponseModel<WsAuthResponsePayloadModel>,
) -> bool {
    response.message_type == "success"@ && response.payload.action == "authenticate"@
}

/// What a frame says of an authentication: whether it confirms one, or why
/// it is no system message with an action.
pub open spec fn auth_check(text: Seq<char>) -> Result<bool, ClientErrorModel> {
    match frame_value(text) {
        Err(e) => Err(e),
        Ok(frame) => match WsSystemResponse::<WsAuthResponsePayload>::decoded(frame) {
            Err(e) => Err(ClientErrorModel::DecodeError(e)),
            Ok(response) => Ok(confirms_authentication(response)),
        },
    }
}

/// Validates a message as a successful response to the frame that
/// `authenticate` prepares.
pub fn auth_message_check_success(msg: &str) -> (r: Result<bool, WebsocketClientError>)
    ensures
        match r {
            Ok(b) => auth_check(msg@) == Ok::<bool, ClientErrorModel>(b),
            Err(e) => auth_check(msg@) == Err::<bool, ClientErrorModel>(e@),
        },
{
    let frame = match parse_frame(msg) {
        Ok(frame) => frame,
        Err(e) => {
            return Err(e);
        },
    };
    match WsSystemResponse::<WsAuthResponsePayload>::from_json(&frame) {
        Err(e) => Err(WebsocketClientError::DecodeError(e)),
        Ok(response) => Ok(
            same_text(response.message_type.as_str(), "success") && same_text(
                response.payload.action.as_str(),
                "authenticate",
            ),
        ),
    }
}

} // verus!
