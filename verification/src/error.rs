//! Every way the exchange with the metadata service can fail.

use vstd::prelude::*;

verus! {

/// The fields that a token response must carry.
#[derive(Debug, Clone, Copy, PartialEq, Eq, Structural)]
pub enum TokenField {
    AccessToken,
    ExpiresIn,
    TokenType,
}

impl TokenField {
    /// The key under which the field stands in the response.
    pub open spec fn key(self) -> Seq<char> {
        match self {
            TokenField::AccessToken => "access_token"@,
            TokenField::ExpiresIn => "expires_in"@,
            TokenField::TokenType => "token_type"@,
        }
    }

    /// The key under which the field stands in the response.
    pub fn name(self) -> (name: &'static str)
        ensures
            name@ == self.key(),
    {
        match self {
            TokenField::AccessToken => "access_token",
            TokenField::ExpiresIn => "expires_in",
            TokenField::TokenType => "token_type",
        }
    }
}

/// Why a response body was not accepted as a token response.
#[derive(Debug)]
pub enum JsonFailure {
    /// The body is not a JSON document; the parser's diagnostic is kept.
    Syntax(serde_json::Error),
    /// The document has no member of that name.
    MissingField(TokenField),
    /// The member is there and holds something else than the field's type.
    WrongType(TokenField),
    /// The expiry, counted from the time of the answer, is beyond `i64`.
    ExpiryOutOfRange,
}

/// Why no response body could be read.
#[derive(Debug)]
pub enum ClientFailure<E> {
    /// The transport failed; its own error is kept.
    Transport(E),
    /// The body arrived and is not UTF-8 text.
    InvalidUtf8,
}

/// The failure of one token request.
#[derive(Debug)]
pub enum RequestError<E> {
    /// No usable answer came back.
    ClientError(ClientFailure<E>),
    /// An answer came back and is no token response.
    JSONError(JsonFailure),
}

/// Whether the result `got` is the one that `expected` describes: the same
/// failure, or a value whose view is the expected one.
pub open spec fn result_is<T: View, F>(got: Result<T, F>, expected: Result<T::V, F>) -> bool {
    match expected {
        Ok(view) => got matches Ok(value) && value@ == view,
        Err(failure) => got == Err::<T, F>(failure),
    }
}

} // verus!
