use metadata_token::json::read_field;
use metadata_token::{JSONTokenResponse, JsonFailure, JsonField, TokenField};

fn document(text: &str) -> serde_json::Value {
    serde_json::from_str(text).unwrap()
}

fn text(s: &str) -> JsonField {
    JsonField::Text(s.to_string())
}

#[test]
fn read_field_tells_the_kinds_apart() {
    let doc = document(
        r#"{"s":"text","i":-12,"u":18446744073709551615,"f":2.5,"n":null,"b":true,"a":[1],"o":{"s":1}}"#,
    );
    assert_eq!(read_field(&doc, "s"), text("text"));
    assert_eq!(read_field(&doc, "i"), JsonField::Integer(-12));
    assert_eq!(read_field(&doc, "u"), JsonField::Other);
    assert_eq!(read_field(&doc, "f"), JsonField::Other);
    assert_eq!(read_field(&doc, "n"), JsonField::Other);
    assert_eq!(read_field(&doc, "b"), JsonField::Other);
    assert_eq!(read_field(&doc, "a"), JsonField::Other);
    assert_eq!(read_field(&doc, "o"), JsonField::Other);
    assert_eq!(read_field(&doc, "missing"), JsonField::Missing);
    assert_eq!(read_field(&doc, "S"), JsonField::Missing);
    assert_eq!(read_field(&doc, ""), JsonField::Missing);
}

#[test]
fn read_field_of_what_is_no_object() {
    assert_eq!(read_field(&document(r#"["s"]"#), "s"), JsonField::Missing);
    assert_eq!(read_field(&document(r#""s""#), "s"), JsonField::Missing);
    assert_eq!(read_field(&document("12"), "0"), JsonField::Missing);
    assert_eq!(read_field(&document("null"), "s"), JsonField::Missing);
}

#[test]
fn read_field_takes_the_last_of_equal_keys() {
    let doc = document(r#"{"k":"first","k":2}"#);
    assert_eq!(read_field(&doc, "k"), JsonField::Integer(2));
}

#[test]
fn read_field_at_the_bounds_of_i64() {
    let doc = document(
        r#"{"max":9223372036854775807,"min":-9223372036854775808,"over":9223372036854775808}"#,
    );
    assert_eq!(read_field(&doc, "max"), JsonField::Integer(i64::MAX));
    assert_eq!(read_field(&doc, "min"), JsonField::Integer(i64::MIN));
    assert_eq!(read_field(&doc, "over"), JsonField::Other);
}

#[test]
fn field_names() {
    assert_eq!(TokenField::AccessToken.name(), "access_token");
    assert_eq!(TokenField::ExpiresIn.name(), "expires_in");
    assert_eq!(TokenField::TokenType.name(), "token_type");
}

#[test]
fn fields_make_a_response() {
    let made = JSONTokenResponse::from_fields(text("A"), JsonField::Integer(3600), text("Bearer"));
    assert_eq!(
        made.unwrap(),
        JSONTokenResponse {
            access_token: "A".to_string(),
            expires_in: 3600,
            token_type: "Bearer".to_string(),
        }
    );
}

#[test]
fn first_bad_field_is_reported() {
    let cases = vec![
        (JsonField::Missing, JsonField::Missing, JsonField::Missing, "missing access_token"),
        (JsonField::Other, JsonField::Missing, JsonField::Missing, "mistyped access_token"),
        (JsonField::Integer(1), JsonField::Integer(1), text("B"), "mistyped access_token"),
        (text("A"), JsonField::Missing, JsonField::Other, "missing expires_in"),
        (text("A"), text("1"), JsonField::Missing, "mistyped expires_in"),
        (text("A"), JsonField::Other, text("B"), "mistyped expires_in"),
        (text("A"), JsonField::Integer(1), JsonField::Missing, "missing token_type"),
        (text("A"), JsonField::Integer(1), JsonField::Integer(2), "mistyped token_type"),
        (text("A"), JsonField::Integer(1), JsonField::Other, "mistyped token_type"),
    ];
    for (access_token, expires_in, token_type, expected) in cases {
        let got = match JSONTokenResponse::from_fields(access_token, expires_in, token_type) {
            Err(JsonFailure::MissingField(which)) => format!("missing {}", which.name()),
            Err(JsonFailure::WrongType(which)) => format!("mistyped {}", which.name()),
            other => format!("{:?}", other),
        };
        assert_eq!(got, expected);
    }
}

#[test]
fn parse_reads_the_three_fields() {
    let made = JSONTokenResponse::parse(
        r#" { "token_type" : "Bearer", "expires_in" : 5, "access_token" : "ya29.x" } "#,
    );
    assert_eq!(
        made.unwrap(),
        JSONTokenResponse {
            access_token: "ya29.x".to_string(),
            expires_in: 5,
            token_type: "Bearer".to_string(),
        }
    );
    assert!(matches!(JSONTokenResponse::parse("{"), Err(JsonFailure::Syntax(_))));
    assert!(matches!(
        JSONTokenResponse::parse("{}"),
        Err(JsonFailure::MissingField(TokenField::AccessToken))
    ));
}
