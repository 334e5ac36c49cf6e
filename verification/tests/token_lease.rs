use rarbg_api::error::ClientError;
use rarbg_api::token::{Token, TOKEN_TTL};

#[test]
fn handshake_response_yields_a_token() {
    let token = Token::from_response(r#"{"token":"abc123"}"#, 10_000).unwrap();
    assert_eq!(token.value(), "abc123");
    assert_eq!(*token.created_at(), 10_000);
}

#[test]
fn extra_fields_in_the_handshake_are_ignored() {
    let token = Token::from_response(r#"{"token":"abc123","note":"hi"}"#, 5).unwrap();
    assert_eq!(token.value(), "abc123");
}

#[test]
fn handshake_without_a_usable_token_fails() {
    assert!(matches!(
        Token::from_response(r#"{"no_token_here":1}"#, 0),
        Err(ClientError::AuthFailure)
    ));
    assert!(matches!(
        Token::from_response(r#"{"token":""}"#, 0),
        Err(ClientError::AuthFailure)
    ));
    assert!(matches!(
        Token::from_response(r#"{"token":5}"#, 0),
        Err(ClientError::AuthFailure)
    ));
    assert!(matches!(
        Token::from_response(r#"{"token":null}"#, 0),
        Err(ClientError::AuthFailure)
    ));
    assert!(matches!(
        Token::from_response("plainly not json", 0),
        Err(ClientError::AuthFailure)
    ));
    assert!(matches!(
        Token::from_response(r#"["token"]"#, 0),
        Err(ClientError::AuthFailure)
    ));
}

#[test]
fn validity_boundary_at_the_ttl() {
    let issued_at = 10_000;
    let token = Token::from_response(r#"{"token":"abc123"}"#, issued_at).unwrap();
    // Valid through the last second before the TTL elapses.
    assert!(token.is_valid(issued_at));
    assert!(token.is_valid(issued_at + 1));
    assert!(token.is_valid(issued_at + TOKEN_TTL - 1));
    // Invalid from the TTL on.
    assert!(!token.is_valid(issued_at + TOKEN_TTL));
    assert!(!token.is_valid(issued_at + TOKEN_TTL + 1));
    // A clock reading before the issue time never validates the token.
    assert!(!token.is_valid(issued_at - 1));
    assert!(!token.is_valid(0));
}

#[test]
fn ttl_is_six_hundred_seconds() {
    assert_eq!(TOKEN_TTL, 600);
}
