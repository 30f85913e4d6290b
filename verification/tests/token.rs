use metadata_token::{
    read_answer, token_from_response, ClientFailure, JSONTokenResponse, JsonFailure, RequestError,
    Token, TokenField,
};

fn fresh(expires_in: Option<i64>) -> Token {
    Token::new("secret".to_string(), Some("again".to_string()), "Bearer".to_string(), expires_in)
}

#[test]
fn new_token_has_no_absolute_expiry() {
    let token = fresh(Some(3600));
    assert_eq!(token.access_token(), "secret");
    assert_eq!(token.refresh_token(), Some("again"));
    assert_eq!(token.token_type(), "Bearer");
    assert_eq!(token.expires_in(), Some(3600));
    assert_eq!(token.expires_in_timestamp(), None);
}

#[test]
fn expiry_is_fixed_once() {
    let mut token = fresh(Some(3600));
    token.set_expiry_absolute(1_000);
    assert_eq!(token.expires_in_timestamp(), Some(4_600));
    assert_eq!(token.expires_in(), Some(3600));
    token.set_expiry_absolute(2_000);
    assert_eq!(token.expires_in_timestamp(), Some(4_600));
    token.set_expiry_absolute(i64::MAX);
    assert_eq!(token.expires_in_timestamp(), Some(4_600));
}

#[test]
fn reads_of_one_token_agree() {
    let mut token = fresh(Some(10));
    token.set_expiry_absolute(5);
    let first = token.expires_in_timestamp();
    let second = token.expires_in_timestamp();
    let copy = token.clone();
    assert_eq!(first, Some(15));
    assert_eq!(first, second);
    assert_eq!(copy.expires_in_timestamp(), first);
}

#[test]
fn token_without_expires_in_gets_no_expiry() {
    let mut token = fresh(None);
    token.set_expiry_absolute(1_000);
    assert_eq!(token.expires_in(), None);
    assert_eq!(token.expires_in_timestamp(), None);
}

#[test]
fn response_becomes_token() {
    let response = JSONTokenResponse {
        access_token: "A".to_string(),
        expires_in: 3600,
        token_type: "Bearer".to_string(),
    };
    let token = token_from_response(response, 1_700_000_000).unwrap();
    assert_eq!(token.access_token(), "A");
    assert_eq!(token.token_type(), "Bearer");
    assert_eq!(token.refresh_token(), None);
    assert_eq!(token.expires_in(), Some(3600));
    assert_eq!(token.expires_in_timestamp(), Some(1_700_003_600));
}

#[test]
fn response_whose_expiry_overflows_is_refused() {
    let response = JSONTokenResponse {
        access_token: "A".to_string(),
        expires_in: 2,
        token_type: "Bearer".to_string(),
    };
    assert!(matches!(
        token_from_response(response.clone(), i64::MAX - 1),
        Err(JsonFailure::ExpiryOutOfRange)
    ));
    let token = token_from_response(response, i64::MAX - 2).unwrap();
    assert_eq!(token.expires_in_timestamp(), Some(i64::MAX));
}

#[test]
fn answer_is_read_into_a_response() {
    let body = br#"{"access_token":"A","expires_in":3600,"token_type":"Bearer"}"#.to_vec();
    let made = read_answer(Ok::<_, String>(body));
    assert_eq!(
        made.unwrap(),
        JSONTokenResponse {
            access_token: "A".to_string(),
            expires_in: 3600,
            token_type: "Bearer".to_string(),
        }
    );
}

#[test]
fn answer_without_a_response() {
    assert!(matches!(
        read_answer(Err::<Vec<u8>, u16>(504)),
        Err(RequestError::ClientError(ClientFailure::Transport(504)))
    ));
    assert!(matches!(
        read_answer(Ok::<_, u16>(vec![b'{', 0x80, b'}'])),
        Err(RequestError::ClientError(ClientFailure::InvalidUtf8))
    ));
    assert!(matches!(
        read_answer(Ok::<_, u16>(b"<html>".to_vec())),
        Err(RequestError::JSONError(JsonFailure::Syntax(_)))
    ));
    assert!(matches!(
        read_answer(Ok::<_, u16>(br#"{"access_token":"A","expires_in":1}"#.to_vec())),
        Err(RequestError::JSONError(JsonFailure::MissingField(TokenField::TokenType)))
    ));
    assert!(matches!(
        read_answer(Ok::<_, u16>(br#"{"access_token":"A","expires_in":[],"token_type":""}"#.to_vec())),
        Err(RequestError::JSONError(JsonFailure::WrongType(TokenField::ExpiresIn)))
    ));
}

#[test]
fn tokens_compare_by_their_fields() {
    let mut one = fresh(Some(10));
    let mut other = fresh(Some(10));
    assert_eq!(one, other);
    one.set_expiry_absolute(1);
    assert_ne!(one, other);
    other.set_expiry_absolute(1);
    assert_eq!(one, other);
}
