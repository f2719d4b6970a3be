//! What the installer asks of the network, and what it is told back. The
//! library decides what is requested and what an answer means; sending the
//! request is left to the caller.

use vstd::prelude::*;
use vstd::string::StringExecFns;

verus! {

/// A GET request that the caller is to send.
#[derive(Clone, Debug, PartialEq, Eq)]
pub struct Request {
    pub url: String,
    pub user_agent: String,
    /// Value of the `Accept` header, where one is sent.
    pub accept: Option<String>,
    /// Time allowed for the request, in seconds; `None` for no limit.
    pub timeout_seconds: Option<u64>,
}

/// Mathematical model of a [`Request`].
pub struct RequestModel {
    pub url: Seq<char>,
    pub user_agent: Seq<char>,
    pub accept: Option<Seq<char>>,
    pub timeout_seconds: Option<u64>,
}

impl View for Request {
    type V = RequestModel;

    open spec fn view(&self) -> RequestModel {
        RequestModel {
            url: self.url@,
            user_agent: self.user_agent@,
            accept: self.accept.deep_view(),
            timeout_seconds: self.timeout_seconds,
        }
    }
}

/// The answer to a request: its status, the target named by its `Location`
/// header where it has one, and its body where the body was kept in memory.
#[derive(Clone, Debug, PartialEq, Eq)]
pub struct Response {
    pub status: u16,
    pub location: Option<String>,
    pub body: Vec<u8>,
}

/// How a request ended.
#[derive(Clone, Debug, PartialEq, Eq)]
pub enum Exchange {
    /// The request could not be sent, or no answer was received.
    Failed,
    /// The server answered.
    Answered(Response),
}

/// Status of an answer that carries what was asked for.
pub const STATUS_OK: u16 = 200;

/// Status of an answer that names another place to ask.
pub const STATUS_FOUND: u16 = 302;

/// The request for the release listing.
pub open spec fn listing_request_model() -> RequestModel {
    RequestModel {
        url: "https://api.github.com/repos/wasmerio/wasmer/releases"@,
        user_agent: "wasmer.io self update"@,
        accept: Some("application/vnd.github.v3+json"@),
        timeout_seconds: Some(30),
    }
}

/// The request for an artifact at `url`.
pub open spec fn artifact_request_model(url: Seq<char>) -> RequestModel {
    RequestModel {
        url,
        user_agent: "wasmer.io self update"@,
        accept: None,
        timeout_seconds: None,
    }
}

/// The request that lists the releases: identified by a user agent, asking
/// for the listing's media type, and limited to thirty seconds.
pub fn listing_request() -> (request: Request)
    ensures
        request@ == listing_request_model(),
{
    Request {
        url: String::from_str("https://api.github.com/repos/wasmerio/wasmer/releases"),
        user_agent: String::from_str("wasmer.io self update"),
        accept: Some(String::from_str("application/vnd.github.v3+json")),
        timeout_seconds: Some(30),
    }
}

/// The request that fetches an artifact: identified by a user agent, with no
/// time limit.
pub fn artifact_request(url: &str) -> (request: Request)
    ensures
        request@ == artifact_request_model(url@),
{
    Request {
        url: String::from_str(url),
        user_agent: String::from_str("wasmer.io self update"),
        accept: None,
        timeout_seconds: None,
    }
}

} // verus!
