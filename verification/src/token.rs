//! The ephemeral credential: a token value and the second it was issued.

use vstd::prelude::*;

use crate::error::ClientError;
use crate::json::{doc_as_str, doc_get, json_parse, obj_lookup, parse_document, JsonRep};

verus! {

/// How long a token is relied upon, in seconds. The API documents 15
/// minutes; this margin of a third keeps a token from being used close
/// to its server-side expiry.
pub const TOKEN_TTL: u64 = 600;

/// Specification-level content of a [`Token`].
pub struct TokenView {
    pub value: Seq<char>,
    pub created_at: u64,
}

impl TokenView {
    /// A token is valid at `now` iff it was issued no later than `now`
    /// and strictly less than [`TOKEN_TTL`] seconds before it.
    pub open spec fn spec_valid(self, now: u64) -> bool {
        self.created_at <= now < self.created_at + TOKEN_TTL
    }
}

/// A credential for the API, paired with the time it was obtained,
/// in seconds of some monotonic epoch-based clock. A token is replaced
/// wholesale when it expires, never mutated.
#[derive(Clone, Debug)]
pub struct Token {
    value: String,
    created_at: u64,
}

impl View for Token {
    type V = TokenView;

    closed spec fn view(&self) -> TokenView {
        TokenView { value: self.value@, created_at: self.created_at }
    }
}

/// The token value carried by a handshake response document: present
/// exactly when the document is an object whose `token` field is a
/// non-empty string.
pub open spec fn spec_token_of(doc: Option<JsonRep>) -> Option<Seq<char>> {
    match doc {
        Some(JsonRep::Obj(fields)) => match obj_lookup(fields, "token"@) {
            Some(JsonRep::Text(s)) => if s.len() > 0 {
                Some(s)
            } else {
                None
            },
            _ => None,
        },
        _ => None,
    }
}

impl Token {
    /// The value of the token obtained from the API. Never empty.
    pub fn value(&self) -> (r: &str)
        ensures
            r@ == self@.value,
    {
        self.value.as_str()
    }

    /// The second at which the token was obtained.
    pub fn created_at(&self) -> (r: &u64)
        ensures
            *r == self@.created_at,
    {
        &self.created_at
    }

    /// Whether the token may still be used at `now`: strictly less than
    /// [`TOKEN_TTL`] seconds have passed since it was obtained. A clock
    /// that reads earlier than the issue time makes the token invalid.
    pub fn is_valid(&self, now: u64) -> (r: bool)
        ensures
            r == self@.spec_valid(now),
    {
        now >= self.created_at && now - self.created_at < TOKEN_TTL
    }

    /// Read a token out of the handshake response body. Succeeds exactly
    /// when the body is a JSON object whose `token` field is a non-empty
    /// string; anything else is an authentication failure, reported, not
    /// retried.
    pub fn from_response(raw: &str, now: u64) -> (r: Result<Token, ClientError>)
        ensures
            match r {
                Ok(t) => {
                    &&& spec_token_of(json_parse(raw@)) == Some(t@.value)
                    &&& t@.created_at == now
                },
                Err(e) => {
                    &&& spec_token_of(json_parse(raw@)) is None
                    &&& e@ is AuthFailure
                },
            },
    {
        match parse_document(raw) {
            None => Err(ClientError::AuthFailure),
            Some(v) => match doc_get(&v, "token") {
                None => Err(ClientError::AuthFailure),
                Some(f) => match doc_as_str(f) {
                    None => Err(ClientError::AuthFailure),
                    Some(s) => {
                        if s.is_empty() {
                            Err(ClientError::AuthFailure)
                        } else {
                            Ok(Token { value: s.to_owned(), created_at: now })
                        }
                    },
                },
            },
        }
    }
}

/// A lease is valid through the last second before its TTL elapses and
/// at no second from the TTL on: issued `TTL - 1` seconds ago it is
/// still valid; issued `TTL` or more seconds ago it is not.
pub proof fn lemma_validity_boundary(t: Token, now: u64)
    requires
        now >= TOKEN_TTL,
    ensures
        t@.created_at == now - (TOKEN_TTL - 1) ==> t@.spec_valid(now),
        t@.created_at <= now - TOKEN_TTL ==> !t@.spec_valid(now),
{
}

} // verus!
