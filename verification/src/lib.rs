//! Access tokens for a process on a cloud compute instance, obtained from the
//! instance's metadata service.
//!
//! The library holds everything about the exchange except the network round
//! trip itself: the request to send, the reading of the answer, the token that
//! results and every way the exchange can fail. The transport and the clock
//! are the caller's.
//!
//! A caller that schedules its own I/O asks the flow for the request
//! ([`GetToken::token_request`]), sends it, and hands the answer and the time
//! to [`GetToken::token`]. A caller that can wait hands the flow a function
//! that sends and one that reads the clock
//! ([`MetadataAccessImpl::token_with`]).

pub mod error;
pub mod json;
pub mod metadata;
pub mod request;
pub mod response;
pub mod types;

pub use error::{ClientFailure, JsonFailure, RequestError, TokenField};
pub use json::JsonField;
pub use metadata::{
    read_answer, token_from_response, DefaultHyperClient, MetadataAccess, MetadataAccessImpl,
};
pub use request::{build_token_request, Header, TokenRequest};
pub use response::JSONTokenResponse;
pub use types::{ApplicationSecret, GetToken, Token};
