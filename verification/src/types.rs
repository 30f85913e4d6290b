//! The access token, and what every way of obtaining one has in common.

use vstd::prelude::*;

use crate::error::RequestError;
use crate::request::TokenRequest;

verus! {

/// What a [`Token`] holds, as mathematical values.
pub struct TokenView {
    pub access_token: Seq<char>,
    pub refresh_token: Option<Seq<char>>,
    pub token_type: Seq<char>,
    /// Seconds of validity, counted from the moment the server answered.
    pub expires_in: Option<int>,
    /// Seconds since the epoch after which the token is no longer valid.
    pub expires_in_timestamp: Option<int>,
}

impl TokenView {
    /// The token with its absolute expiry fixed at `now + expires_in`.
    ///
    /// An expiry that is already fixed stays as it is, whatever `now` says, and
    /// a token without `expires_in` gets none.
    pub open spec fn with_expiry_absolute(self, now: int) -> TokenView {
        match (self.expires_in_timestamp, self.expires_in) {
            (None, Some(seconds)) => TokenView {
                expires_in_timestamp: Some(now + seconds),
                ..self
            },
            _ => self,
        }
    }

    /// Whether fixing the expiry at `now` stays within `i64`.
    pub open spec fn expiry_fits(self, now: int) -> bool {
        self.with_expiry_absolute(now).expires_in_timestamp matches Some(at)
            ==> i64::MIN <= at <= i64::MAX
    }
}

/// An access credential with its expiry.
///
/// The fields are private: the absolute expiry is fixed once, by
/// [`Token::set_expiry_absolute`], and nothing changes it afterwards.
#[derive(Debug, Clone, PartialEq, Eq)]
pub struct Token {
    access_token: String,
    refresh_token: Option<String>,
    token_type: String,
    expires_in: Option<i64>,
    expires_in_timestamp: Option<i64>,
}

impl View for Token {
    type V = TokenView;

    closed spec fn view(&self) -> TokenView {
        TokenView {
            access_token: self.access_token@,
            refresh_token: match self.refresh_token {
                Some(s) => Some(s@),
                None => None,
            },
            token_type: self.token_type@,
            expires_in: match self.expires_in {
                Some(n) => Some(n as int),
                None => None,
            },
            expires_in_timestamp: match self.expires_in_timestamp {
                Some(n) => Some(n as int),
                None => None,
            },
        }
    }
}

impl Token {
    /// A token as the server reported it, its absolute expiry not yet fixed.
    pub fn new(
        access_token: String,
        refresh_token: Option<String>,
        token_type: String,
        expires_in: Option<i64>,
    ) -> (token: Token)
        ensures
            token@ == (TokenView {
                access_token: access_token@,
                refresh_token: match refresh_token {
                    Some(s) => Some(s@),
                    None => None,
                },
                token_type: token_type@,
                expires_in: match expires_in {
                    Some(n) => Some(n as int),
                    None => None,
                },
                expires_in_timestamp: None,
            }),
    {
        Token { access_token, refresh_token, token_type, expires_in, expires_in_timestamp: None }
    }

    /// The bearer credential.
    pub fn access_token(&self) -> (text: &str)
        ensures
            text@ == self@.access_token,
    {
        self.access_token.as_str()
    }

    /// The credential with which a new token can be had, where the flow
    /// issues one.
    pub fn refresh_token(&self) -> (text: Option<&str>)
        ensures
            match text {
                Some(s) => self@.refresh_token == Some(s@),
                None => self@.refresh_token is None,
            },
    {
        match &self.refresh_token {
            Some(s) => Some(s.as_str()),
            None => None,
        }
    }

    /// The kind of credential, `Bearer` as a rule.
    pub fn token_type(&self) -> (text: &str)
        ensures
            text@ == self@.token_type,
    {
        self.token_type.as_str()
    }

    /// The seconds of validity that the server reported. They count from the
    /// moment of its answer: to tell whether the token is still good, read
    /// [`Token::expires_in_timestamp`].
    pub fn expires_in(&self) -> (seconds: Option<i64>)
        ensures
            match seconds {
                Some(n) => self@.expires_in == Some(n as int),
                None => self@.expires_in is None,
            },
    {
        self.expires_in
    }

    /// The absolute expiry, in seconds since the epoch, once it is fixed.
    /// Reading it changes nothing: every read of one token gives the same.
    pub fn expires_in_timestamp(&self) -> (at: Option<i64>)
        ensures
            match at {
                Some(n) => self@.expires_in_timestamp == Some(n as int),
                None => self@.expires_in_timestamp is None,
            },
    {
        self.expires_in_timestamp
    }

    /// Fixes the absolute expiry at `now + expires_in`, `now` being the
    /// seconds since the epoch at which the server's answer was read.
    ///
    /// A token whose expiry is fixed already keeps it, and one without
    /// `expires_in` stays without expiry.
    pub fn set_expiry_absolute(&mut self, now: i64)
        requires
            old(self)@.expiry_fits(now as int),
        ensures
            final(self)@ == old(self)@.with_expiry_absolute(now as int),
    {
        if self.expires_in_timestamp.is_none() {
            if let Some(seconds) = self.expires_in {
                self.expires_in_timestamp = Some(now + seconds);
            }
        }
    }
}

/// Fixing the expiry a second time changes nothing, whatever the clock says
/// by then: the absolute expiry of a token is computed once.
pub proof fn lemma_expiry_is_set_once(token: TokenView, first: int, later: int)
    ensures
        token.with_expiry_absolute(first).with_expiry_absolute(later)
            == token.with_expiry_absolute(first),
{
}

/// A credential that identifies the client application to an authorisation
/// server. Flows that need no such identity hand out the empty one.
#[derive(Debug, Clone, PartialEq, Eq)]
pub struct ApplicationSecret {
    pub client_id: String,
    pub client_secret: String,
    pub redirect_uris: Vec<String>,
}

/// An [`ApplicationSecret`] as mathematical values.
pub struct ApplicationSecretView {
    pub client_id: Seq<char>,
    pub client_secret: Seq<char>,
    pub redirect_uris: Seq<Seq<char>>,
}

impl ApplicationSecretView {
    /// The secret that names no client: every field empty.
    pub open spec fn empty() -> ApplicationSecretView {
        ApplicationSecretView {
            client_id: Seq::empty(),
            client_secret: Seq::empty(),
            redirect_uris: Seq::empty(),
        }
    }
}

impl View for ApplicationSecret {
    type V = ApplicationSecretView;

    open spec fn view(&self) -> ApplicationSecretView {
        ApplicationSecretView {
            client_id: self.client_id@,
            client_secret: self.client_secret@,
            redirect_uris: self.redirect_uris@.map_values(|uri: String| uri@),
        }
    }
}

impl Default for ApplicationSecret {
    fn default() -> (secret: ApplicationSecret)
        ensures
            secret@ == ApplicationSecretView::empty(),
    {
        let secret = ApplicationSecret {
            client_id: String::new(),
            client_secret: String::new(),
            redirect_uris: Vec::new(),
        };
        assert(secret@.redirect_uris =~= Seq::<Seq<char>>::empty());
        secret
    }
}

/// What every way of obtaining a token offers, so that a caller can use one
/// without knowing which it is.
///
/// Obtaining a token takes a round trip over a transport that the caller
/// owns. A flow therefore does its part in two steps: it says what to send,
/// and it reads what came back.
pub trait GetToken {
    /// The request to send for a token with these scopes.
    fn token_request<T: Into<String>>(&self, scopes: &Vec<T>) -> TokenRequest;

    /// The token, or the failure, that the transport's answer to
    /// [`GetToken::token_request`] amounts to. `answer` is the body that came
    /// back or the transport's error, `now` the seconds since the epoch at
    /// which the answer was complete.
    fn token<T: Into<String>, E>(
        &mut self,
        scopes: Vec<T>,
        answer: Result<Vec<u8>, E>,
        now: i64,
    ) -> Result<Token, RequestError<E>>;

    /// The API key of the flow, where it has one.
    fn api_key(&mut self) -> Option<String>;

    /// The client identity that the flow works with.
    fn application_secret(&self) -> ApplicationSecret;
}

} // verus!
