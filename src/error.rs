//! The error taxonomy every call of the library reports through.

use vstd::prelude::*;

verus! {

/// serde_json's decoding error, carried as the cause of a parse failure.
#[verifier::external_type_specification]
#[verifier::external_body]
pub struct ExJsonError(serde_json::Error);

/// reqwest's error, carried as the cause of a transport failure.
#[verifier::external_type_specification]
#[verifier::external_body]
pub struct ExRequestError(reqwest::Error);

/// Why a call failed.
#[derive(Debug)]
pub enum ErrType {
    /// The body was not valid JSON, or did not have the expected shape.
    Parser(serde_json::Error),
    /// The request failed before or during transport.
    Request(reqwest::Error),
    /// The server answered with its error flag set; the server's message.
    Api(String),
    /// A caller-supplied argument broke a documented precondition; no request
    /// was sent.
    Call(String),
}

impl ErrType {
    /// A one-line human-readable description of the error kind.
    pub fn kind_name(&self) -> (r: &'static str)
        ensures
            self is Parser ==> r@ == "Parser Error"@,
            self is Request ==> r@ == "Request Error"@,
            self is Api ==> r@ == "API Error"@,
            self is Call ==> r@ == "Call Error"@,
    {
        match self {
            ErrType::Parser(_) => "Parser Error",
            ErrType::Request(_) => "Request Error",
            ErrType::Api(_) => "API Error",
            ErrType::Call(_) => "Call Error",
        }
    }
}

/// The outcome of reading a response body: a transport failure becomes
/// `Request` with its cause, a body is handed on unchanged.
pub fn transport_result<T>(received: Result<T, reqwest::Error>) -> (r: Result<T, ErrType>)
    ensures
        received is Ok ==> r == Ok::<T, ErrType>(received->Ok_0),
        received is Err ==> r == Err::<T, ErrType>(ErrType::Request(received->Err_0)),
{
    match received {
        Ok(v) => Ok(v),
        Err(e) => Err(ErrType::Request(e)),
    }
}

/// The outcome of decoding JSON into a typed value: a decoding failure
/// becomes `Parser` with its cause, a value is handed on unchanged.
pub fn decode_result<T>(decoded: Result<T, serde_json::Error>) -> (r: Result<T, ErrType>)
    ensures
        decoded is Ok ==> r == Ok::<T, ErrType>(decoded->Ok_0),
        decoded is Err ==> r == Err::<T, ErrType>(ErrType::Parser(decoded->Err_0)),
{
    match decoded {
        Ok(v) => Ok(v),
        Err(e) => Err(ErrType::Parser(e)),
    }
}

} // verus!
