//! Answers of the client, and the HTTP status that each goes out with.

use hyper::StatusCode;
use vstd::prelude::*;

verus! {

/// The HTTP status of `hyper`, carried through as it is.
#[verifier::external_type_specification]
#[verifier::external_body]
pub struct ExStatusCode(StatusCode);

/// The HTTP status with the number `number`, if there is one.
pub uninterp spec fn status_with_number(number: u16) -> Option<StatusCode>;

/// Calls `StatusCode::from_u16`, which makes the status with a given number. It
/// is trusted to accept the numbers from 100 to 999 and no others, and to give
/// the same status for the same number.
#[verifier::external_body]
fn status_from_number(number: u16) -> (status: Option<StatusCode>)
    ensures
        status == status_with_number(number),
        status is Some <==> 100 <= number < 1000,
{
    StatusCode::from_u16(number).ok()
}

/// Answer to a request.
#[derive(Debug)]
pub enum ClientResponse<T> {
    /// The request was answered.
    Normal(T),
    /// What was asked for does not exist.
    NotFound,
    /// What was asked for is not final yet.
    NotFinalized,
    /// What was asked for is still being worked on.
    InProcess,
    /// The request failed, with the given message.
    Error(String),
}

impl<T> ClientResponse<T> {
    /// The HTTP status that the answer goes out with.
    pub open spec fn spec_status_code(&self) -> u16 {
        match self {
            ClientResponse::Normal(_) => 200,
            ClientResponse::NotFound => 404,
            ClientResponse::NotFinalized => 400,
            ClientResponse::InProcess => 401,
            ClientResponse::Error(_) => 500,
        }
    }

    /// The HTTP status that the answer goes out with.
    #[verifier::when_used_as_spec(spec_status_code)]
    pub fn status_code(&self) -> (code: u16)
        ensures
            code == self.spec_status_code(),
    {
        match self {
            ClientResponse::Normal(_) => 200,
            ClientResponse::NotFound => 404,
            ClientResponse::NotFinalized => 400,
            ClientResponse::InProcess => 401,
            ClientResponse::Error(_) => 500,
        }
    }

    /// The HTTP status that the answer goes out with, as `hyper` has it.
    pub fn status(&self) -> (status: StatusCode)
        ensures
            Some(status) == status_with_number(self.spec_status_code()),
    {
        status_from_number(self.status_code()).unwrap()
    }

    /// The text that an answer without a value goes out with.
    pub open spec fn spec_message(&self) -> Option<Seq<char>> {
        match self {
            ClientResponse::Normal(_) => None,
            ClientResponse::NotFound => Some("Not found"@),
            ClientResponse::NotFinalized => Some("Not synced"@),
            ClientResponse::InProcess => Some("Processing block"@),
            ClientResponse::Error(message) => Some(message@),
        }
    }

    /// The text that an answer without a value goes out with. An answer with a
    /// value goes out with the value, and has no text.
    pub fn message(&self) -> (message: Option<&str>)
        ensures
            message is None <==> self is Normal,
            message matches Some(text) ==> self.spec_message() == Some(text@),
    {
        match self {
            ClientResponse::Normal(_) => None,
            ClientResponse::NotFound => Some("Not found"),
            ClientResponse::NotFinalized => Some("Not synced"),
            ClientResponse::InProcess => Some("Processing block"),
            ClientResponse::Error(message) => Some(message.as_str()),
        }
    }
}

/// The latest block that the client knows.
#[derive(Debug, Clone, Copy, PartialEq, Eq, Structural)]
pub struct LatestBlockResponse {
    pub latest_block: u32,
}

/// Query for the data of an application.
#[derive(Debug, Clone, Copy, PartialEq, Eq, Structural)]
pub struct AppDataQuery {
    /// Whether the data is to be decoded. Left to the client if `None`.
    pub decode: Option<bool>,
}

/// Query for the data of an application, in a layout without options.
#[derive(Debug, Clone, Copy, PartialEq, Eq, Structural)]
pub struct FfiSafeAppDataQuery {
    /// Whether the data is to be decoded.
    pub decode: bool,
}

} // verus!
