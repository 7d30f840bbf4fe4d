//! The uniform `{error, message, body}` wrapper of every API response.

use vstd::prelude::*;
use crate::error::ErrType;

verus! {

/// serde_json's JSON value: the payload of an envelope, carried through
/// unopened until the caller decodes it into a resource.
#[verifier::external_type_specification]
#[verifier::external_body]
pub struct ExJsonValue(serde_json::Value);

/// A decoded response envelope.
pub struct Root {
    pub error: bool,
    pub message: String,
    pub body: serde_json::Value,
}

/// What an envelope stands for: its body when the error flag is clear, the
/// server's message as an `Api` error when it is set.
pub open spec fn envelope_outcome(root: Root) -> Result<serde_json::Value, ErrType> {
    if root.error {
        Err(ErrType::Api(root.message))
    } else {
        Ok(root.body)
    }
}

impl Root {
    /// The body of a successful envelope, or the server's message as an
    /// `Api` error.
    pub fn into_body(self) -> (r: Result<serde_json::Value, ErrType>)
        ensures
            r == envelope_outcome(self),
    {
        if self.error {
            Err(ErrType::Api(self.message))
        } else {
            Ok(self.body)
        }
    }
}

/// The body of an envelope as it came out of JSON decoding: a decoding
/// failure is a `Parser` error with its cause, otherwise the envelope
/// decides.
pub fn envelope_body(decoded: Result<Root, serde_json::Error>) -> (r: Result<serde_json::Value, ErrType>)
    ensures
        decoded is Err ==> r == Err::<serde_json::Value, ErrType>(ErrType::Parser(decoded->Err_0)),
        decoded is Ok ==> r == envelope_outcome(decoded->Ok_0),
{
    match decoded {
        Ok(root) => root.into_body(),
        Err(e) => Err(ErrType::Parser(e)),
    }
}

/// An envelope whose error flag is clear yields its body unchanged, whatever
/// the body and the message are.
pub proof fn lemma_envelope_success(message: String, body: serde_json::Value)
    ensures
        envelope_outcome((Root { error: false, message, body })) == Ok::<serde_json::Value, ErrType>(body),
{
}

/// An envelope whose error flag is set yields an `Api` error carrying its
/// message unmodified, and its body plays no part.
pub proof fn lemma_envelope_failure(message: String, body1: serde_json::Value, body2: serde_json::Value)
    ensures
        envelope_outcome((Root { error: true, message, body: body1 })) == Err::<serde_json::Value, ErrType>(ErrType::Api(message)),
        envelope_outcome((Root { error: true, message, body: body1 })) == envelope_outcome((Root { error: true, message, body: body2 })),
{
}

} // verus!
