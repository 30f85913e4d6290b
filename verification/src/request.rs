//! The one request that the metadata service answers with a token.

use vstd::prelude::*;

verus! {

/// Where the metadata service hands out the token of the instance's default
/// service account.
pub const METADATA_TOKEN_URI: &'static str =
    "http://metadata.google.internal/computeMetadata/v1/instance/service-accounts/default/token";

/// The method of the token request.
pub const METADATA_TOKEN_METHOD: &'static str = "GET";

/// The header without which the metadata service refuses a request.
pub const METADATA_FLAVOR_HEADER: &'static str = "Metadata-Flavor";

/// The value that the metadata service expects under [`METADATA_FLAVOR_HEADER`].
pub const METADATA_FLAVOR_VALUE: &'static str = "Google";

/// One header line of a request.
#[derive(Debug, Clone, PartialEq, Eq)]
pub struct Header {
    pub name: String,
    pub value: String,
}

/// A [`Header`] as mathematical values.
pub struct HeaderView {
    pub name: Seq<char>,
    pub value: Seq<char>,
}

impl View for Header {
    type V = HeaderView;

    open spec fn view(&self) -> HeaderView {
        HeaderView { name: self.name@, value: self.value@ }
    }
}

/// A request for the transport to send: method, address, header lines in
/// their order, and body.
#[derive(Debug, Clone, PartialEq, Eq)]
pub struct TokenRequest {
    pub method: String,
    pub uri: String,
    pub headers: Vec<Header>,
    pub body: Vec<u8>,
}

/// A [`TokenRequest`] as mathematical values.
pub struct TokenRequestView {
    pub method: Seq<char>,
    pub uri: Seq<char>,
    pub headers: Seq<HeaderView>,
    pub body: Seq<u8>,
}

impl View for TokenRequest {
    type V = TokenRequestView;

    open spec fn view(&self) -> TokenRequestView {
        TokenRequestView {
            method: self.method@,
            uri: self.uri@,
            headers: self.headers@.map_values(|header: Header| header@),
            body: self.body@,
        }
    }
}

/// The token request: a `GET` of [`METADATA_TOKEN_URI`] with the single header
/// `Metadata-Flavor: Google` and no body.
pub open spec fn metadata_token_request() -> TokenRequestView {
    TokenRequestView {
        method: METADATA_TOKEN_METHOD@,
        uri: METADATA_TOKEN_URI@,
        headers: seq![HeaderView { name: METADATA_FLAVOR_HEADER@, value: METADATA_FLAVOR_VALUE@ }],
        body: Seq::empty(),
    }
}

/// Builds the token request. It is the same request every time: nothing of
/// the caller's goes into it.
pub fn build_token_request() -> (request: TokenRequest)
    ensures
        request@ == metadata_token_request(),
{
    let mut headers: Vec<Header> = Vec::new();
    headers.push(
        Header { name: METADATA_FLAVOR_HEADER.to_owned(), value: METADATA_FLAVOR_VALUE.to_owned() },
    );
    let request = TokenRequest {
        method: METADATA_TOKEN_METHOD.to_owned(),
        uri: METADATA_TOKEN_URI.to_owned(),
        headers,
        body: Vec::new(),
    };
    assert(request@.headers =~= metadata_token_request().headers);
    request
}

} // verus!
