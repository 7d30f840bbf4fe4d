//! Identifiers, which the server sends either as JSON strings or as JSON
//! integers.

use vstd::prelude::*;
use crate::text::{decimal_string, decimal_text};

verus! {

/// An identifier as it arrived on the wire.
#[derive(Clone, Debug)]
pub enum JsonId {
    /// Sent as a JSON string.
    Text(String),
    /// Sent as a JSON integer.
    Integer(i128),
    /// Sent as any other JSON value (null, bool, array, object, fraction).
    Other,
}

/// The string form of an identifier: a string as it is, an integer in its
/// canonical decimal form, anything else as the empty string.
pub open spec fn id_text(id: JsonId) -> Seq<char> {
    match id {
        JsonId::Text(s) => s@,
        JsonId::Integer(n) => decimal_text(n as int),
        JsonId::Other => Seq::empty(),
    }
}

/// Normalises an identifier to its string form. Values that are neither
/// strings nor integers deliberately become the empty string instead of an
/// error.
pub fn parse_id(id: &JsonId) -> (r: String)
    ensures
        r@ == id_text(*id),
{
    match id {
        JsonId::Text(s) => s.clone(),
        JsonId::Integer(n) => decimal_string(*n),
        JsonId::Other => String::new(),
    }
}

/// An identifier sent as an integer and the same identifier sent as the
/// string of its decimal digits normalise to the same text.
pub proof fn lemma_id_encodings_agree(n: i128, s: String)
    requires
        s@ == decimal_text(n as int),
    ensures
        id_text(JsonId::Text(s)) == id_text(JsonId::Integer(n)),
{
}

} // verus!
