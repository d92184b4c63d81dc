//! The boundary to the HTTP layer: which requests are let in, and the
//! envelope in which every answer goes out.
//!
//! A request is checked before anything else happens: without a command it
//! is a bad request, without the configured credential it is forbidden. No
//! command is parsed and no cluster is contacted for a request that is turned
//! away.

use crate::executor::{error_message, told, EngineError, EngineErrorView};
use crate::text::opt_str;
use vstd::prelude::*;
use vstd::slice::*;
use vstd::string::*;
use vstd::utf8::*;

verus! {

/// Status of an answer to a command that was carried out.
pub const STATUS_OK: u16 = 200;

/// Status of an answer to a request without a command.
pub const STATUS_BAD_REQUEST: u16 = 400;

/// Status of an answer to a request without the right credential.
pub const STATUS_FORBIDDEN: u16 = 403;

/// Status of an answer to a command that failed.
pub const STATUS_INTERNAL_SERVER_ERROR: u16 = 500;

/// The configuration that every request handler shares: the credential
/// that callers must present. Made once at startup and never changed.
pub struct AppState {
    token: String,
}

impl View for AppState {
    type V = Seq<char>;

    /// The configured credential.
    closed spec fn view(&self) -> Seq<char> {
        self.token@
    }
}

/// Why a request is turned away.
#[derive(Clone, Copy, Debug, PartialEq, Eq, Structural)]
pub enum RequestError {
    /// The request carries no command.
    MissingQuery,
    /// The request carries no credential.
    MissingToken,
    /// The credential is not the configured one.
    BadToken,
}

/// The view of an optional byte slice.
pub open spec fn opt_bytes(o: Option<&[u8]>) -> Option<Seq<u8>> {
    match o {
        Some(bytes) => Some(bytes@),
        None => None,
    }
}

/// Whether a request is let in. The command is looked for first, then the
/// credential, which must equal the configured one byte for byte.
pub open spec fn admission(
    query: Option<Seq<char>>,
    presented: Option<Seq<u8>>,
    token: Seq<char>,
) -> Result<(), RequestError> {
    if query is None {
        Err(RequestError::MissingQuery)
    } else {
        match presented {
            None => Err(RequestError::MissingToken),
            Some(bytes) => if bytes == encode_utf8(token) {
                Ok(())
            } else {
                Err(RequestError::BadToken)
            },
        }
    }
}

/// The status with which a request is turned away.
pub open spec fn rejection_status(e: RequestError) -> u16 {
    match e {
        RequestError::MissingQuery => STATUS_BAD_REQUEST,
        RequestError::MissingToken => STATUS_FORBIDDEN,
        RequestError::BadToken => STATUS_FORBIDDEN,
    }
}

/// The text with which a request is turned away.
pub open spec fn rejection_message(e: RequestError) -> Seq<char> {
    match e {
        RequestError::MissingQuery => "query parameter not found"@,
        RequestError::MissingToken => "No api token found"@,
        RequestError::BadToken => "Bad api token"@,
    }
}

impl RequestError {
    /// The status with which the request is turned away.
    pub fn status(&self) -> (status: u16)
        ensures
            status == rejection_status(*self),
    {
        match self {
            RequestError::MissingQuery => STATUS_BAD_REQUEST,
            RequestError::MissingToken => STATUS_FORBIDDEN,
            RequestError::BadToken => STATUS_FORBIDDEN,
        }
    }

    /// The text with which the request is turned away.
    pub fn message(&self) -> (text: String)
        ensures
            text@ == rejection_message(*self),
    {
        match self {
            RequestError::MissingQuery => String::from_str("query parameter not found"),
            RequestError::MissingToken => String::from_str("No api token found"),
            RequestError::BadToken => String::from_str("Bad api token"),
        }
    }
}

/// Whether two byte slices hold the same bytes.
fn bytes_eq(a: &[u8], b: &[u8]) -> (same: bool)
    ensures
        same == (a@ == b@),
{
    let n: usize = a.len();
    if n != b.len() {
        return false;
    }
    let mut i: usize = 0;
    while i < n
        invariant
            i <= n,
            n == a@.len(),
            n == b@.len(),
            forall|k: int| 0 <= k < i ==> a@[k] == b@[k],
        decreases n - i,
    {
        if a[i] != b[i] {
            return false;
        }
        i += 1;
    }
    assert(a@ =~= b@);
    true
}

impl AppState {
    /// The state of a server that accepts `token` as its credential.
    pub fn new(token: String) -> (state: AppState)
        ensures
            state@ == token@,
    {
        AppState { token }
    }

    /// Decides whether a request is let in, from its command parameter and
    /// the bytes of its credential header, as far as they are present.
    pub fn authorize(&self, query: Option<&str>, presented: Option<&[u8]>) -> (r: Result<
        (),
        RequestError,
    >)
        ensures
            r == admission(opt_str(query), opt_bytes(presented), self@),
    {
        if query.is_none() {
            return Err(RequestError::MissingQuery);
        }
        match presented {
            None => Err(RequestError::MissingToken),
            Some(bytes) => if bytes_eq(bytes, self.token.as_str().as_bytes()) {
                Ok(())
            } else {
                Err(RequestError::BadToken)
            },
        }
    }
}

/// The answer to a request: a status, and the envelope of result text,
/// command and body.
#[derive(Clone, Debug, PartialEq, Eq)]
pub struct Envelope {
    pub status: u16,
    /// The result of the command, or the text of what went wrong.
    pub response: String,
    /// The command as it was received; empty where there was none.
    pub query: String,
    /// The body as it was received.
    pub body: String,
}

pub struct EnvelopeView {
    pub status: u16,
    pub response: Seq<char>,
    pub query: Seq<char>,
    pub body: Seq<char>,
}

impl View for Envelope {
    type V = EnvelopeView;

    open spec fn view(&self) -> EnvelopeView {
        EnvelopeView {
            status: self.status,
            response: self.response@,
            query: self.query@,
            body: self.body@,
        }
    }
}

/// The answer to a request that was let in, given how its command ended.
pub open spec fn answer(
    outcome: Result<Seq<char>, EngineErrorView>,
    query: Seq<char>,
    body: Seq<char>,
) -> EnvelopeView {
    match outcome {
        Ok(text) => EnvelopeView { status: STATUS_OK, response: text, query, body },
        Err(e) => EnvelopeView {
            status: STATUS_INTERNAL_SERVER_ERROR,
            response: "Error: "@ + error_message(e),
            query,
            body,
        },
    }
}

/// The answer to a request that is turned away.
pub open spec fn refusal(e: RequestError, query: Option<Seq<char>>, body: Seq<char>)
    -> EnvelopeView {
    EnvelopeView {
        status: rejection_status(e),
        response: rejection_message(e),
        query: match query {
            Some(q) => q,
            None => Seq::empty(),
        },
        body,
    }
}

/// Answers a request that was let in: status 200 with the result text
/// where the command succeeded, status 500 with the error text where it
/// failed, and the command and the body as they came in either way.
pub fn respond(outcome: Result<String, EngineError>, query: &str, body: &str) -> (envelope:
    Envelope)
    ensures
        envelope@ == answer(told(outcome), query@, body@),
{
    match outcome {
        Ok(text) => Envelope {
            status: STATUS_OK,
            response: text,
            query: String::from_str(query),
            body: String::from_str(body),
        },
        Err(e) => {
            let mut response = String::from_str("Error: ");
            response.append(e.message().as_str());
            Envelope {
                status: STATUS_INTERNAL_SERVER_ERROR,
                response,
                query: String::from_str(query),
                body: String::from_str(body),
            }
        },
    }
}

/// Answers a request that is turned away.
pub fn reject(e: RequestError, query: Option<&str>, body: &str) -> (envelope: Envelope)
    ensures
        envelope@ == refusal(e, opt_str(query), body@),
{
    Envelope {
        status: e.status(),
        response: e.message(),
        query: match query {
            Some(q) => String::from_str(q),
            None => String::new(),
        },
        body: String::from_str(body),
    }
}

/// A request without a credential is forbidden whatever else it carries,
/// so long as it carries a command; a request without a command is a bad
/// request whatever else it carries.
pub proof fn lemma_admission_order(
    query: Option<Seq<char>>,
    presented: Option<Seq<u8>>,
    token: Seq<char>,
)
    ensures
        query is None ==> admission(query, presented, token) == Err::<(), RequestError>(
            RequestError::MissingQuery,
        ),
        query is Some && presented is None ==> admission(query, presented, token) == Err::<
            (),
            RequestError,
        >(RequestError::MissingToken),
        admission(query, presented, token) is Ok <==> query is Some && presented == Some(
            encode_utf8(token),
        ),
{
}

} // verus!
