//! The metadata flow: a token from the instance's metadata service.

use vstd::prelude::*;
use vstd::utf8::{decode_utf8, valid_utf8};

use crate::error::{result_is, ClientFailure, JsonFailure, RequestError, TokenField};
use crate::json::{json_document, json_member};
use crate::request::{build_token_request, metadata_token_request, TokenRequest};
use crate::response::{response_of_text, utf8_text, JSONTokenResponse, JSONTokenResponseView};
use crate::types::{ApplicationSecret, ApplicationSecretView, GetToken, Token, TokenView};

verus! {

/// Stands for the transport that the caller uses when none is supplied.
#[derive(Debug, Clone, Copy, PartialEq, Eq, Structural)]
pub struct DefaultHyperClient;

/// Prepares a [`MetadataAccessImpl`]: holds the transport, of whatever type,
/// that the flow's requests will go over.
#[derive(Debug, Clone)]
pub struct MetadataAccess<C> {
    client: C,
}

impl MetadataAccess<DefaultHyperClient> {
    /// A builder with the default transport.
    pub fn new() -> (builder: Self)
        ensures
            builder.transport() == DefaultHyperClient,
    {
        Self { client: DefaultHyperClient }
    }
}

impl<C> MetadataAccess<C> {
    /// The transport that the builder holds.
    pub closed spec fn transport(self) -> C {
        self.client
    }

    /// A builder that holds `hyper_client` in place of this one's transport.
    pub fn hyper_client<NewC>(self, hyper_client: NewC) -> (builder: MetadataAccess<NewC>)
        ensures
            builder.transport() == hyper_client,
    {
        MetadataAccess { client: hyper_client }
    }

    /// The flow, over the transport that the builder holds.
    pub fn build(self) -> (flow: MetadataAccessImpl<C>)
        ensures
            flow.transport() == self.transport(),
    {
        MetadataAccessImpl::new(self.client)
    }
}

/// The metadata flow. It keeps nothing between two requests but the transport
/// that the caller gave it.
#[derive(Debug, Clone)]
pub struct MetadataAccessImpl<C> {
    client: C,
}

/// The token that a response grants when it is read at `now`: the
/// credential and its type as the response has them, no refresh token, and
/// the expiry fixed at `now + expires_in`.
pub open spec fn granted_token(response: JSONTokenResponseView, now: int) -> TokenView {
    TokenView {
        access_token: response.access_token,
        refresh_token: None,
        token_type: response.token_type,
        expires_in: Some(response.expires_in),
        expires_in_timestamp: Some(now + response.expires_in),
    }
}

/// What a response amounts to at `now`: its token, unless the expiry is
/// beyond `i64`.
pub open spec fn response_outcome(response: JSONTokenResponseView, now: int) -> Result<
    TokenView,
    JsonFailure,
> {
    if i64::MIN <= now + response.expires_in <= i64::MAX {
        Ok(granted_token(response, now))
    } else {
        Err(JsonFailure::ExpiryOutOfRange)
    }
}

/// The response in the body of an answer, or why there is none: the body
/// must be UTF-8 text, and the text a token response.
pub open spec fn body_response<E>(body: Seq<u8>) -> Result<JSONTokenResponseView, RequestError<E>> {
    if !valid_utf8(body) {
        Err(RequestError::ClientError(ClientFailure::InvalidUtf8))
    } else {
        match response_of_text(decode_utf8(body)) {
            Err(failure) => Err(RequestError::JSONError(failure)),
            Ok(response) => Ok(response),
        }
    }
}

/// The response that the transport's answer holds, or why there is none: a
/// transport error is handed on as it is, a body is read.
pub open spec fn answer_response<E>(answer: Result<Vec<u8>, E>) -> Result<
    JSONTokenResponseView,
    RequestError<E>,
> {
    match answer {
        Err(error) => Err(RequestError::ClientError(ClientFailure::Transport(error))),
        Ok(body) => body_response(body@),
    }
}

/// What the transport's answer amounts to at `now`: the token of its
/// response, or the first thing that stands in the way.
pub open spec fn token_outcome<E>(answer: Result<Vec<u8>, E>, now: int) -> Result<
    TokenView,
    RequestError<E>,
> {
    match answer_response(answer) {
        Err(failure) => Err(failure),
        Ok(response) => match response_outcome(response, now) {
            Err(failure) => Err(RequestError::JSONError(failure)),
            Ok(token) => Ok(token),
        },
    }
}

/// A transport failure is answered with `ClientError`, never with a token,
/// and the transport's error is in it unchanged.
pub proof fn lemma_transport_failure_is_client_error<E>(error: E, now: int)
    ensures
        token_outcome(Err::<Vec<u8>, E>(error), now) == Err::<TokenView, RequestError<E>>(
            RequestError::ClientError(ClientFailure::Transport(error)),
        ),
{
}

/// A body whose document has no `access_token` is answered with `JSONError`,
/// never with a token, whatever else the document holds.
pub proof fn lemma_missing_access_token_is_json_error<E>(body: Vec<u8>, now: int)
    ensures
        valid_utf8(body@) && (json_document(decode_utf8(body@)) matches Ok(document) && json_member(
            document,
            TokenField::AccessToken.key(),
        ) is None) ==> token_outcome(Ok::<Vec<u8>, E>(body), now) == Err::<
            TokenView,
            RequestError<E>,
        >(RequestError::JSONError(JsonFailure::MissingField(TokenField::AccessToken))),
{
}

/// A body that holds a token response grants the token of that response,
/// with the expiry at `now + expires_in`, wherever that sum is within `i64`.
/// The token is the one that [`TokenView::with_expiry_absolute`] makes of the
/// response's fields.
pub proof fn lemma_response_grants_its_token<E>(
    body: Vec<u8>,
    response: JSONTokenResponseView,
    now: int,
)
    ensures
        valid_utf8(body@) && response_of_text(decode_utf8(body@)) == Ok::<
            JSONTokenResponseView,
            JsonFailure,
        >(response) && i64::MIN <= now + response.expires_in <= i64::MAX ==> token_outcome(
            Ok::<Vec<u8>, E>(body),
            now,
        ) == Ok::<TokenView, RequestError<E>>(granted_token(response, now)),
        granted_token(response, now) == (TokenView {
            access_token: response.access_token,
            refresh_token: None,
            token_type: response.token_type,
            expires_in: Some(response.expires_in),
            expires_in_timestamp: None,
        }).with_expiry_absolute(now),
{
}

/// The expiry of a granted token is final: fixing it again, at whatever
/// later reading of the clock, leaves the token as it is.
pub proof fn lemma_granted_expiry_is_final(response: JSONTokenResponseView, now: int, later: int)
    ensures
        granted_token(response, now).with_expiry_absolute(later) == granted_token(response, now),
{
}

/// The token of a response that was read at `now`, the seconds since the
/// epoch. All of the response goes into the token or the call fails: it
/// fails, with [`JsonFailure::ExpiryOutOfRange`], exactly where
/// `now + expires_in` is beyond `i64`.
pub fn token_from_response(response: JSONTokenResponse, now: i64) -> (made: Result<
    Token,
    JsonFailure,
>)
    ensures
        result_is(made, response_outcome(response@, now as int)),
{
    if now.checked_add(response.expires_in).is_none() {
        return Err(JsonFailure::ExpiryOutOfRange);
    }
    let mut token = Token::new(
        response.access_token,
        None,
        response.token_type,
        Some(response.expires_in),
    );
    token.set_expiry_absolute(now);
    Ok(token)
}

/// Reads the response out of the transport's answer.
pub fn read_answer<E>(answer: Result<Vec<u8>, E>) -> (made: Result<
    JSONTokenResponse,
    RequestError<E>,
>)
    ensures
        result_is(made, answer_response(answer)),
{
    let body = match answer {
        Err(error) => {
            return Err(RequestError::ClientError(ClientFailure::Transport(error)));
        },
        Ok(body) => body,
    };
    let text = match utf8_text(body) {
        None => {
            return Err(RequestError::ClientError(ClientFailure::InvalidUtf8));
        },
        Some(text) => text,
    };
    match JSONTokenResponse::parse(text.as_str()) {
        Err(failure) => Err(RequestError::JSONError(failure)),
        Ok(fields) => Ok(fields),
    }
}

impl<C> MetadataAccessImpl<C> {
    fn new(client: C) -> (flow: Self)
        ensures
            flow.transport() == client,
    {
        MetadataAccessImpl { client }
    }

    /// The transport that the flow holds.
    pub closed spec fn transport(self) -> C {
        self.client
    }

    /// The transport, for the caller to send the request over.
    pub fn client(&self) -> (client: &C)
        ensures
            *client == self.transport(),
    {
        &self.client
    }

    /// Obtains a token in one go, for a caller that can wait for the
    /// transport: `send` issues a request over the flow's transport and
    /// hands back the body of the answer or the transport's error, and
    /// `clock` reads the seconds since the epoch.
    ///
    /// `send` is called once, with the token request. `clock` is read once
    /// the answer has turned out to hold a response, and not before; the
    /// expiry counts from that reading.
    pub fn token_with<T, E, S, K>(&mut self, scopes: Vec<T>, send: S, clock: K) -> (made: Result<
        Token,
        RequestError<E>,
    >) where T: Into<String>, S: FnOnce(&C, TokenRequest) -> Result<Vec<u8>, E>, K: FnOnce() -> i64
        requires
            forall|request: TokenRequest|
                request@ == metadata_token_request() ==> call_requires(
                    send,
                    (&old(self).transport(), request),
                ),
            call_requires(clock, ()),
        ensures
            *final(self) == *old(self),
            exists|request: TokenRequest, answer: Result<Vec<u8>, E>|
                request@ == metadata_token_request() && #[trigger] call_ensures(
                    send,
                    (&old(self).transport(), request),
                    answer,
                ) && match answer_response(answer) {
                    Err(failure) => made == Err::<Token, RequestError<E>>(failure),
                    Ok(response) => exists|now: i64| #[trigger]
                        call_ensures(clock, (), now) && result_is(
                            made,
                            token_outcome(answer, now as int),
                        ),
                },
    {
        let request = self.token_request(&scopes);
        let answer = send(&self.client, request);
        let ghost seen = answer;
        match read_answer(answer) {
            Err(failure) => Err(failure),
            Ok(fields) => {
                let now = clock();
                let made = match token_from_response(fields, now) {
                    Err(failure) => Err(RequestError::JSONError(failure)),
                    Ok(token) => Ok(token),
                };
                assert(call_ensures(clock, (), now) && result_is(
                    made,
                    token_outcome(seen, now as int),
                ));
                made
            },
        }
    }
}

impl<C> GetToken for MetadataAccessImpl<C> {
    /// The token request of the metadata service. The scopes are not sent:
    /// what a token of the instance may do is settled on the server.
    fn token_request<T: Into<String>>(&self, scopes: &Vec<T>) -> (request: TokenRequest)
        ensures
            request@ == metadata_token_request(),
    {
        build_token_request()
    }

    /// Reads the transport's answer to the token request. A transport error
    /// comes back as `ClientError` with that error in it, a body that is not
    /// UTF-8 as `ClientError` too, and a body that is no token response, or
    /// whose expiry is beyond `i64`, as `JSONError`. Every other answer
    /// gives its token. The scopes have no part in it, and the flow is left
    /// as it was.
    fn token<T: Into<String>, E>(
        &mut self,
        scopes: Vec<T>,
        answer: Result<Vec<u8>, E>,
        now: i64,
    ) -> (made: Result<Token, RequestError<E>>)
        ensures
            result_is(made, token_outcome(answer, now as int)),
            *final(self) == *old(self),
    {
        match read_answer(answer) {
            Err(failure) => Err(failure),
            Ok(fields) => match token_from_response(fields, now) {
                Err(failure) => Err(RequestError::JSONError(failure)),
                Ok(token) => Ok(token),
            },
        }
    }

    /// The metadata flow has no API key.
    fn api_key(&mut self) -> (key: Option<String>)
        ensures
            key is None,
            *final(self) == *old(self),
    {
        None
    }

    /// The empty secret: the metadata service reissues its tokens, and no
    /// client identity goes into a request.
    fn application_secret(&self) -> (secret: ApplicationSecret)
        ensures
            secret@ == ApplicationSecretView::empty(),
    {
        ApplicationSecret::default()
    }
}

} // verus!
