//! The pure parts of the HTTP API: the errors, the verbs, and how the
//! address of a resource is put together.

use vstd::prelude::*;
use crate::text::join;

/// Core API resources.
pub mod v1;

verus! {

/// Address of the core API.
pub const DEFAULT_SERVER_URL: &'static str = "https://api.sfox.com";

/// Address of the candlestick chart data.
pub const CANDLESTICK_SERVER_URL: &'static str = "https://chartdata.sfox.com";

/// Error type for HTTP requests.
#[derive(Clone, Debug, PartialEq, Eq)]
pub enum HttpError {
    AuthenticationError(String),
    InitializationError(String),
    InvalidRequest(String),
    TransportError(String),
    /// The error of the parser, then the response that it could not read.
    UnparseableResponse(String, String),
}

/// Mathematical model of an `HttpError`.
pub enum HttpErrorModel {
    AuthenticationError(Seq<char>),
    InitializationError(Seq<char>),
    InvalidRequest(Seq<char>),
    TransportError(Seq<char>),
    UnparseableResponse(Seq<char>, Seq<char>),
}

impl View for HttpError {
    type V = HttpErrorModel;

    open spec fn view(&self) -> HttpErrorModel {
        match self {
            HttpError::AuthenticationError(m) => HttpErrorModel::AuthenticationError(m@),
            HttpError::InitializationError(m) => HttpErrorModel::InitializationError(m@),
            HttpError::InvalidRequest(m) => HttpErrorModel::InvalidRequest(m@),
            HttpError::TransportError(m) => HttpErrorModel::TransportError(m@),
            HttpError::UnparseableResponse(e, r) => HttpErrorModel::UnparseableResponse(e@, r@),
        }
    }
}

impl HttpErrorModel {
    /// The error in words: what failed, then the detail in backticks.
    pub open spec fn text(self) -> Seq<char> {
        match self {
            HttpErrorModel::AuthenticationError(m) => "Authentication error: `"@ + m + "`"@,
            HttpErrorModel::InitializationError(m) => "Could not create http client: `"@ + m
                + "`"@,
            HttpErrorModel::InvalidRequest(m) => "Invalid request: `"@ + m + "`"@,
            HttpErrorModel::TransportError(m) => "Error while making request: `"@ + m + "`"@,
            HttpErrorModel::UnparseableResponse(e, r) => "Could not deserialize response. Error: `"@
                + e + "`, Response: `"@ + r + "`"@,
        }
    }
}

/// `detail` between `head` and a closing backtick.
fn ticked(head: &str, detail: &str) -> (out: String)
    ensures
        out@ == head@ + detail@ + "`"@,
{
    let open = join(head, detail);
    join(open.as_str(), "`")
}

impl HttpError {
    /// The error in words.
    pub fn message(&self) -> (m: String)
        ensures
            m@ == self@.text(),
    {
        match self {
            HttpError::AuthenticationError(m) => ticked("Authentication error: `", m.as_str()),
            HttpError::InitializationError(m) => ticked(
                "Could not create http client: `",
                m.as_str(),
            ),
            HttpError::InvalidRequest(m) => ticked("Invalid request: `", m.as_str()),
            HttpError::TransportError(m) => ticked("Error while making request: `", m.as_str()),
            HttpError::UnparseableResponse(e, r) => {
                let head = join("Could not deserialize response. Error: `", e.as_str());
                let middle = join(head.as_str(), "`, Response: `");
                ticked(middle.as_str(), r.as_str())
            },
        }
    }
}

/// GET, POST, PATCH, DELETE
#[derive(Clone, Copy, Debug, PartialEq, Eq, Structural)]
pub enum HttpVerb {
    Get,
    Post,
    Patch,
    Delete,
}

impl HttpVerb {
    /// The name of the verb on the wire.
    pub open spec fn name(self) -> &'static str {
        match self {
            HttpVerb::Get => "GET",
            HttpVerb::Post => "POST",
            HttpVerb::Patch => "PATCH",
            HttpVerb::Delete => "DELETE",
        }
    }

    /// The name of the verb on the wire.
    pub fn as_str(self) -> (n: &'static str)
        ensures
            n == self.name(),
    {
        match self {
            HttpVerb::Get => "GET",
            HttpVerb::Post => "POST",
            HttpVerb::Patch => "PATCH",
            HttpVerb::Delete => "DELETE",
        }
    }

    /// Whether a request with this verb carries a body.
    pub open spec fn takes_body(self) -> bool {
        self == HttpVerb::Post || self == HttpVerb::Patch
    }
}

impl vstd::std_specs::convert::FromSpecImpl<HttpVerb> for &'static str {
    open spec fn obeys_from_spec() -> bool {
        true
    }

    open spec fn from_spec(val: HttpVerb) -> &'static str {
        val.name()
    }
}

impl From<HttpVerb> for &'static str {
    fn from(val: HttpVerb) -> (n: &'static str)
        ensures
            n == val.name(),
    {
        val.as_str()
    }
}

/// Whether a request is sent with a body: only `POST` and `PATCH` take one,
/// and only where one was given.
pub fn has_request_body(verb: HttpVerb, body_given: bool) -> (b: bool)
    ensures
        b == (verb.takes_body() && body_given),
{
    match verb {
        HttpVerb::Get | HttpVerb::Delete => false,
        HttpVerb::Post | HttpVerb::Patch => body_given,
    }
}

/// The address of a resource of the core API.
pub fn url_for_v1_resource(server_url: &str, resource: &str) -> (url: String)
    ensures
        url@ == server_url@ + "/v1/"@ + resource@,
{
    let base = join(server_url, "/v1/");
    join(base.as_str(), resource)
}

/// The address of a candlestick resource.
pub fn url_for_candlestick_resource(candlestick_server_url: &str, resource: &str) -> (url: String)
    ensures
        url@ == candlestick_server_url@ + "/candlesticks"@ + resource@,
{
    let base = join(candlestick_server_url, "/candlesticks");
    join(base.as_str(), resource)
}

} // verus!
