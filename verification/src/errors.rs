//! The error that is handed across the boundary of the library, as JSON.

use vstd::prelude::*;

verus! {

/// An error as it is shown to the caller: an object with the one member
/// `message`.
#[derive(Debug)]
pub struct ErrorResponse {
    pub message: String,
}

/// The JSON string literal that stands for `text`: the text between double
/// quotes, with the characters escaped that JSON asks to be escaped.
pub uninterp spec fn json_string_of(text: Seq<char>) -> Seq<char>;

/// The JSON object with the one member `message`, given the string literal
/// of the message.
pub open spec fn message_object(literal: Seq<char>) -> Seq<char> {
    "{\"message\":"@ + literal + "}"@
}

/// Calls `serde_json::to_string` on a string slice.
///
/// Trusted: the text that comes back is a function of the text handed in,
/// named `json_string_of`. For a string slice the serializer writes into a
/// byte vector and has no failing path, so the result is always there.
#[verifier::external_body]
fn json_string(text: &str) -> (literal: String)
    ensures
        literal@ == json_string_of(text@),
{
    serde_json::to_string(text).unwrap()
}

impl ErrorResponse {
    /// The error with the message `error_message`, as JSON.
    pub fn json(error_message: &str) -> (text: String)
        ensures
            text@ == message_object(json_string_of(error_message@)),
    {
        let literal = json_string(error_message);
        ErrorResponse::object_around(literal.as_str())
    }

    /// The JSON object whose member `message` is the string literal
    /// `literal`.
    pub fn object_around(literal: &str) -> (text: String)
        ensures
            text@ == message_object(literal@),
    {
        let mut text = "{\"message\":".to_owned();
        text.append(literal);
        text.append("}");
        text
    }
}

} // verus!
