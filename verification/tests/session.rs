use rarbg_api::compose::CallIntent;
use rarbg_api::token::{Token, TOKEN_TTL};
use rarbg_api::{RarBgApi, REQUEST_TIME_LIMIT};

fn fresh_token(now: u64) -> Token {
    Token::from_response(r#"{"token":"tok123"}"#, now).unwrap()
}

/// One call as the embedding application drives it: hand back the query
/// and how many handshakes were needed.
fn one_call(api: &mut RarBgApi, now: u64) -> (Vec<(String, String)>, u32) {
    let intent = CallIntent::list(None);
    let mut handshakes: u32 = 0;
    loop {
        match api.prepare_request(&intent, now) {
            Some(query) => return (query, handshakes),
            None => {
                handshakes += 1;
                api.install_token(fresh_token(now));
            }
        }
    }
}

#[test]
fn session_exposes_its_configuration() {
    let api = RarBgApi::new("integration-test", fresh_token(1_000));
    assert_eq!(api.app_id(), "integration-test");
    assert_eq!(api.token().value(), "tok123");
    assert_eq!(*api.token().created_at(), 1_000);
}

#[test]
fn valid_lease_is_reused() {
    let api = RarBgApi::new("myapp", fresh_token(1_000));
    let intent = CallIntent::list(None);
    let query = api.prepare_request(&intent, 1_000 + TOKEN_TTL - 1).unwrap();
    assert_eq!(query[0].0, "mode");
    assert_eq!(query[0].1, "list");
    assert_eq!(query[1].0, "token");
    assert_eq!(query[1].1, "tok123");
    assert_eq!(query[2].0, "app_id");
    assert_eq!(query[2].1, "myapp");
}

#[test]
fn expired_lease_is_refused() {
    let api = RarBgApi::new("myapp", fresh_token(1_000));
    let intent = CallIntent::list(None);
    assert!(api.prepare_request(&intent, 1_000 + TOKEN_TTL).is_none());
}

#[test]
fn one_renewal_per_expiry_and_none_a_second_later() {
    let issued_at = 1_000;
    let mut api = RarBgApi::new("myapp", fresh_token(issued_at));

    // The first call after the TTL elapsed renews exactly once.
    let after_expiry = issued_at + TOKEN_TTL;
    let (query, handshakes) = one_call(&mut api, after_expiry);
    assert_eq!(handshakes, 1);
    assert_eq!(*api.token().created_at(), after_expiry);
    assert_eq!(query[1].1, "tok123");

    // A call one second later reuses the renewed lease: zero renewals.
    let (_, handshakes) = one_call(&mut api, after_expiry + 1);
    assert_eq!(handshakes, 0);
    assert_eq!(*api.token().created_at(), after_expiry);
}

#[test]
fn pacing_interval_is_a_handful_of_seconds() {
    // The upstream limit is one request per two seconds; the configured
    // flat delay stays comfortably above it.
    assert!((3..=5).contains(&REQUEST_TIME_LIMIT));
}
