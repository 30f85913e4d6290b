//! The answer of the metadata service to a token request.

use vstd::prelude::*;
use vstd::utf8::{decode_utf8, valid_utf8};

use crate::error::{result_is, JsonFailure, TokenField};
use crate::json::{field_of, json_document, parse_document, read_field, JsonField, JsonFieldView};

verus! {

/// The three fields of a token response.
#[derive(Debug, Clone, PartialEq, Eq)]
pub struct JSONTokenResponse {
    pub access_token: String,
    pub expires_in: i64,
    pub token_type: String,
}

/// A [`JSONTokenResponse`] as mathematical values.
pub struct JSONTokenResponseView {
    pub access_token: Seq<char>,
    pub expires_in: int,
    pub token_type: Seq<char>,
}

impl View for JSONTokenResponse {
    type V = JSONTokenResponseView;

    open spec fn view(&self) -> JSONTokenResponseView {
        JSONTokenResponseView {
            access_token: self.access_token@,
            expires_in: self.expires_in as int,
            token_type: self.token_type@,
        }
    }
}

/// Calls `String::from_utf8`, which checks that the bytes are UTF-8 and, where
/// they are, makes them a string without changing them. The contract says so
/// over `vstd`'s definition of UTF-8: text comes back exactly for the valid
/// bodies, and it is the text that the bytes encode.
#[verifier::external_body]
pub(crate) fn utf8_text(body: Vec<u8>) -> (text: Option<String>)
    ensures
        match text {
            Some(s) => valid_utf8(body@) && s@ == decode_utf8(body@),
            None => !valid_utf8(body@),
        },
{
    match String::from_utf8(body) {
        Ok(text) => Some(text),
        Err(_) => None,
    }
}

/// The text of a field that must hold a string.
pub open spec fn required_text(field: JsonFieldView, which: TokenField) -> Result<
    Seq<char>,
    JsonFailure,
> {
    match field {
        JsonFieldView::Text(text) => Ok(text),
        JsonFieldView::Missing => Err(JsonFailure::MissingField(which)),
        _ => Err(JsonFailure::WrongType(which)),
    }
}

/// The number of a field that must hold an integer.
pub open spec fn required_integer(field: JsonFieldView, which: TokenField) -> Result<
    int,
    JsonFailure,
> {
    match field {
        JsonFieldView::Integer(number) => Ok(number),
        JsonFieldView::Missing => Err(JsonFailure::MissingField(which)),
        _ => Err(JsonFailure::WrongType(which)),
    }
}

/// The response that three fields make up, or the first of them, in the order
/// `access_token`, `expires_in`, `token_type`, that is missing or mistyped.
pub open spec fn response_of_fields(
    access_token: JsonFieldView,
    expires_in: JsonFieldView,
    token_type: JsonFieldView,
) -> Result<JSONTokenResponseView, JsonFailure> {
    match required_text(access_token, TokenField::AccessToken) {
        Err(failure) => Err(failure),
        Ok(access) => match required_integer(expires_in, TokenField::ExpiresIn) {
            Err(failure) => Err(failure),
            Ok(seconds) => match required_text(token_type, TokenField::TokenType) {
                Err(failure) => Err(failure),
                Ok(kind) => Ok(
                    JSONTokenResponseView {
                        access_token: access,
                        expires_in: seconds,
                        token_type: kind,
                    },
                ),
            },
        },
    }
}

/// The response that a body text holds: the text must be a JSON document, and
/// the document must have the three fields with their types. Members beyond
/// those three are not looked at.
pub open spec fn response_of_text(text: Seq<char>) -> Result<JSONTokenResponseView, JsonFailure> {
    match json_document(text) {
        Err(diagnostic) => Err(JsonFailure::Syntax(diagnostic)),
        Ok(document) => response_of_fields(
            field_of(document, TokenField::AccessToken.key()),
            field_of(document, TokenField::ExpiresIn.key()),
            field_of(document, TokenField::TokenType.key()),
        ),
    }
}

/// Fields without `access_token` make no response, whatever the other two
/// hold: the failure names the missing field.
pub proof fn lemma_missing_access_token_is_refused(
    expires_in: JsonFieldView,
    token_type: JsonFieldView,
)
    ensures
        response_of_fields(JsonFieldView::Missing, expires_in, token_type) == Err::<
            JSONTokenResponseView,
            JsonFailure,
        >(JsonFailure::MissingField(TokenField::AccessToken)),
{
}

fn text_of(field: JsonField, which: TokenField) -> (text: Result<String, JsonFailure>)
    ensures
        result_is(text, required_text(field@, which)),
{
    match field {
        JsonField::Text(text) => Ok(text),
        JsonField::Missing => Err(JsonFailure::MissingField(which)),
        _ => Err(JsonFailure::WrongType(which)),
    }
}

fn integer_of(field: JsonField, which: TokenField) -> (number: Result<i64, JsonFailure>)
    ensures
        match required_integer(field@, which) {
            Ok(expected) => number matches Ok(n) && n == expected,
            Err(failure) => number == Err::<i64, JsonFailure>(failure),
        },
{
    match field {
        JsonField::Integer(number) => Ok(number),
        JsonField::Missing => Err(JsonFailure::MissingField(which)),
        _ => Err(JsonFailure::WrongType(which)),
    }
}

impl JSONTokenResponse {
    /// Puts a response together from what the three members of a document
    /// hold. It fails on the first field, in the order `access_token`,
    /// `expires_in`, `token_type`, that is missing or holds another type.
    pub fn from_fields(access_token: JsonField, expires_in: JsonField, token_type: JsonField) -> (made:
        Result<JSONTokenResponse, JsonFailure>)
        ensures
            result_is(made, response_of_fields(access_token@, expires_in@, token_type@)),
    {
        let access = match text_of(access_token, TokenField::AccessToken) {
            Ok(text) => text,
            Err(failure) => { return Err(failure); },
        };
        let seconds = match integer_of(expires_in, TokenField::ExpiresIn) {
            Ok(number) => number,
            Err(failure) => { return Err(failure); },
        };
        let kind = match text_of(token_type, TokenField::TokenType) {
            Ok(text) => text,
            Err(failure) => { return Err(failure); },
        };
        Ok(JSONTokenResponse { access_token: access, expires_in: seconds, token_type: kind })
    }

    /// Reads a response from the text of a body.
    pub fn parse(text: &str) -> (made: Result<JSONTokenResponse, JsonFailure>)
        ensures
            result_is(made, response_of_text(text@)),
    {
        match parse_document(text) {
            Err(diagnostic) => Err(JsonFailure::Syntax(diagnostic)),
            Ok(document) => {
                let access_token = read_field(&document, TokenField::AccessToken.name());
                let expires_in = read_field(&document, TokenField::ExpiresIn.name());
                let token_type = read_field(&document, TokenField::TokenType.name());
                JSONTokenResponse::from_fields(access_token, expires_in, token_type)
            },
        }
    }
}

} // verus!
