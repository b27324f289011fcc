//! The registry version resolver: the latest published version of a tool.
//!
//! One lookup is one request and one reply. [`Krate::request`] says what to
//! send, the caller sends it once and decodes what comes back, and
//! [`Krate::new`] turns that [`Reply`] into the answer. Nothing is retried and
//! nothing is kept between lookups.

use vstd::prelude::*;

use crate::install::Tool;
use crate::text::join;

verus! {

/// The address of a crate in the registry is this text followed by its name.
pub const REGISTRY_ENDPOINT: &'static str = "https://crates.io/api/v1/crates/";

/// The name of the header that identifies the client.
pub const CLIENT_HEADER: &'static str = "user-agent";

/// The client identifies itself by this text followed by its own version.
pub const CLIENT_PREFIX: &'static str = "wasm-pack/";

/// What stands for the client's version where it is not known at build time.
pub const UNKNOWN_VERSION: &'static str = "unknown";

/// What the registry knows of a crate, as far as this tool reads it. The
/// version is the registry's text, not checked any further.
#[derive(Clone, Debug, PartialEq, Eq)]
pub struct Krate {
    pub max_version: String,
}

/// The envelope in which the registry answers: the crate under the key `crate`.
#[derive(Clone, Debug, PartialEq, Eq)]
pub struct KrateResponse {
    pub krate: Krate,
}

/// The one request of a lookup: a `GET` of `url` with [`CLIENT_HEADER`] set to
/// `user_agent`.
#[derive(Clone, Debug, PartialEq, Eq)]
pub struct Request {
    pub url: String,
    pub user_agent: String,
}

/// What came of the one request.
#[derive(Clone, Debug, PartialEq, Eq)]
pub enum Reply {
    /// The transport failed or refused the status; its own words.
    Failed(String),
    /// A body arrived that is not an envelope; the decoder's own words.
    Malformed(String),
    /// The envelope that the body decoded to.
    Envelope(KrateResponse),
}

/// Why a lookup gave no version.
#[derive(Clone, Debug, PartialEq, Eq)]
pub enum LookupError {
    /// No usable answer came over the network.
    Transport(String),
    /// The answer was not the expected envelope.
    Body(String),
}

/// The address at which the registry describes the crate of the given name.
pub open spec fn address_of(name: Seq<char>) -> Seq<char> {
    REGISTRY_ENDPOINT@ + name
}

/// The text by which the client of the given version identifies itself.
pub open spec fn client_of(version: Option<&str>) -> Seq<char> {
    match version {
        Some(version) => CLIENT_PREFIX@ + version@,
        None => CLIENT_PREFIX@ + UNKNOWN_VERSION@,
    }
}

/// The answer that a reply amounts to.
pub open spec fn answer_of(reply: Reply) -> Result<Krate, LookupError> {
    match reply {
        Reply::Envelope(envelope) => Ok(envelope.krate),
        Reply::Failed(reason) => Err(LookupError::Transport(reason)),
        Reply::Malformed(reason) => Err(LookupError::Body(reason)),
    }
}

impl LookupError {
    /// The words of the failure.
    pub fn message(&self) -> (message: &str)
        ensures
            message@ == (match *self {
                LookupError::Transport(reason) => reason@,
                LookupError::Body(reason) => reason@,
            }),
    {
        match self {
            LookupError::Transport(reason) => reason.as_str(),
            LookupError::Body(reason) => reason.as_str(),
        }
    }
}

impl Krate {
    /// The request that asks the registry for the given tool. `version` is the
    /// client's own version, if it is known.
    pub fn request(name: &Tool, version: Option<&str>) -> (request: Request)
        ensures
            request.url@ == address_of(name@),
            request.user_agent@ == client_of(version),
    {
        let url = join(REGISTRY_ENDPOINT, name.name());
        let user_agent = match version {
            Some(version) => join(CLIENT_PREFIX, version),
            None => join(CLIENT_PREFIX, UNKNOWN_VERSION),
        };
        Request { url, user_agent }
    }

    /// The crate that the registry's reply describes. An envelope gives its
    /// crate, as it is; every other reply is a failure that carries the
    /// reason on to the caller.
    pub fn new(reply: Reply) -> (answer: Result<Krate, LookupError>)
        ensures
            answer == answer_of(reply),
            answer is Ok <==> reply is Envelope,
    {
        match reply {
            Reply::Envelope(envelope) => Ok(envelope.krate),
            Reply::Failed(reason) => Err(LookupError::Transport(reason)),
            Reply::Malformed(reason) => Err(LookupError::Body(reason)),
        }
    }
}

} // verus!
