//! Client core for a rate-limited, token-gated torrent-indexing web API.
//!
//! The crate models the session and request orchestration layer: an
//! ephemeral authentication token with a fixed time-to-live, deterministic
//! assembly of query key/value pairs from a call intent, pacing of outbound
//! requests, and disambiguation of the server's single response shape into
//! either a result collection or a typed error. Transport (HTTP), file
//! export and clock reads are left to the embedding application; everything
//! that decides or computes lives here, with contracts.

use vstd::prelude::*;

pub mod api_parameters;
pub mod api_parameters_builder;
pub mod category;
pub mod compose;
pub mod episode_info;
pub mod error;
pub mod format;
pub mod json;
pub mod limit;
pub mod mode;
pub mod resolve;
pub mod sort_by;
pub mod token;
pub mod torrent_result;
pub mod torrent_results;

use crate::compose::{compose, pairs_view, spec_compose, CallIntent};
use crate::error::{ClientError, ClientErrorView};
use crate::json::json_parse;
use crate::resolve::{resolve, spec_resolve, ResolvedResponse, ResolvedView};
use crate::token::{Token, TokenView};
use crate::torrent_results::TorrentResults;

verus! {

/// Minimum number of seconds between two outbound requests. The upstream
/// service enforces a shared per-application rate limit; a flat delay of
/// this many seconds before every request (token handshakes included)
/// stays within it with margin.
pub const REQUEST_TIME_LIMIT: u64 = 5;

/// Specification-level content of a [`RarBgApi`].
pub struct RarBgApiView {
    pub app_id: Seq<char>,
    pub token: TokenView,
}

/// The session: the application's identifier and the token lease it
/// currently holds. One call is in flight at a time; the lease is
/// replaced, before anything is sent, whenever it has expired.
#[derive(Clone, Debug)]
pub struct RarBgApi {
    app_id: String,
    token: Token,
}

impl View for RarBgApi {
    type V = RarBgApiView;

    closed spec fn view(&self) -> RarBgApiView {
        RarBgApiView { app_id: self.app_id@, token: self.token@ }
    }
}

impl RarBgApi {
    /// A session for `app_id`, holding the lease the embedding
    /// application obtained through the handshake.
    pub fn new(app_id: &str, token: Token) -> (r: Self)
        ensures
            r@.app_id == app_id@,
            r@.token == token@,
    {
        RarBgApi { app_id: app_id.to_owned(), token }
    }

    /// The name of your app.
    pub fn app_id(&self) -> (r: &str)
        ensures
            r@ == self@.app_id,
    {
        self.app_id.as_str()
    }

    /// The token associated to your app.
    pub fn token(&self) -> (r: &Token)
        ensures
            r@ == self@.token,
    {
        &self.token
    }

    /// Replace the lease wholesale. Called by the embedding application
    /// after a handshake, and strictly before anything is sent.
    pub fn install_token(&mut self, token: Token)
        ensures
            final(self)@.token == token@,
            final(self)@.app_id == old(self)@.app_id,
    {
        self.token = token;
    }

    /// The first decision of every call: with a lease valid at `now`,
    /// the composed query to send; with an expired one, nothing — the
    /// embedding application must run the handshake, install the new
    /// lease, and ask again.
    pub fn prepare_request(&self, intent: &CallIntent, now: u64) -> (r: Option<
        Vec<(String, String)>,
    >)
        ensures
            match r {
                Some(q) => {
                    &&& self@.token.spec_valid(now)
                    &&& pairs_view(q@) == spec_compose(intent@, self@.app_id, self@.token.value)
                },
                None => !self@.token.spec_valid(now),
            },
    {
        if self.token.is_valid(now) {
            Some(compose(intent, self.app_id.as_str(), self.token.value()))
        } else {
            None
        }
    }
}

/// The last step of every call: what the response body means to the
/// caller. A result collection comes back as the success value; a
/// server-reported error and a malformed body come back as distinct
/// error values.
pub fn interpret_response(raw: &str) -> (r: Result<TorrentResults, ClientError>)
    ensures
        match r {
            Ok(ts) => spec_resolve(json_parse(raw@)) == Some(ResolvedView::Results(ts@)),
            Err(e) => match e@ {
                ClientErrorView::ApiError(ev) => spec_resolve(json_parse(raw@)) == Some(
                    ResolvedView::ApiError(ev),
                ),
                ClientErrorView::MalformedResponse(_, _) => spec_resolve(json_parse(raw@)) is None,
                _ => false,
            },
        },
{
    match resolve(raw) {
        Ok(ResolvedResponse::Results(ts)) => Ok(ts),
        Ok(ResolvedResponse::ApiError(e)) => Err(ClientError::ApiError(e)),
        Err(e) => Err(e),
    }
}

/// A session renews its lease exactly once per expiry: where the lease
/// has expired at `now` and the renewal installs one issued at `now`,
/// that renewed lease is valid at `now` and still valid one second
/// later, so the next call triggers no further handshake.
pub proof fn lemma_single_renewal(stale: RarBgApi, renewed: RarBgApi, now: u64)
    requires
        !stale@.token.spec_valid(now),
        renewed@.token.created_at == now,
        now < u64::MAX,
    ensures
        renewed@.token.spec_valid(now),
        renewed@.token.spec_valid((now + 1) as u64),
{
}

} // verus!
