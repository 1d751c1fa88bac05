//! One login attempt, and the slot that keeps at most one attempt pending.
use vstd::prelude::*;
use crate::callback::OAuthError;
use crate::codec::all_url_safe;
use crate::pkce::{
    authorize_url, build_authorize_url, generate_pkce, generate_state, redirect_uri_for,
    redirect_uri_of, token_endpoint_of, token_request, token_request_body_of, PkceCodes,
    TokenRequest, CLIENT_ID, DEFAULT_ISSUER,
};
use crate::types::{OAuthLoginInfo, StoredAccount};

verus! {

/// What one login attempt is bound to from its start: its PKCE codes, its
/// state token, its redirect URI, and the name the account will get.
#[derive(Debug)]
pub struct FlowSession {
    pub pkce: PkceCodes,
    pub state: String,
    pub redirect_uri: String,
    pub account_name: String,
    pub port: u16,
}

impl FlowSession {
    pub open spec fn wf(&self) -> bool {
        &&& self.pkce.wf()
        &&& self.redirect_uri@ == redirect_uri_of(self.port)
    }

    /// Starts an attempt whose listener is bound to `port`: draws fresh PKCE
    /// codes and state, and builds the URL that the browser opens.
    pub fn begin(account_name: String, port: u16) -> (r: (FlowSession, OAuthLoginInfo))
        ensures
            r.0.wf(),
            all_url_safe(r.0.state@),
            r.0.port == port,
            r.0.account_name == account_name,
            r.1.callback_port == port,
            r.1.auth_url@ == authorize_url(
                DEFAULT_ISSUER@,
                CLIENT_ID@,
                redirect_uri_of(port),
                r.0.pkce.code_challenge@,
                r.0.state@,
            ),
    {
        let pkce = generate_pkce();
        let state = generate_state();
        let redirect_uri = redirect_uri_for(port);
        let auth_url = build_authorize_url(
            DEFAULT_ISSUER,
            CLIENT_ID,
            redirect_uri.as_str(),
            &pkce,
            state.as_str(),
        );
        (
            FlowSession { pkce, state, redirect_uri, account_name, port },
            OAuthLoginInfo { auth_url, callback_port: port },
        )
    }

    /// The token request for a code, bound to the same verifier, client and
    /// redirect URI as this attempt's authorization URL.
    pub fn token_request(&self, code: &str) -> (r: TokenRequest)
        ensures
            r.url@ == token_endpoint_of(DEFAULT_ISSUER@),
            r.body@ == token_request_body_of(
                CLIENT_ID@,
                self.redirect_uri@,
                self.pkce.code_verifier@,
                code@,
            ),
    {
        token_request(DEFAULT_ISSUER, CLIENT_ID, self.redirect_uri.as_str(), &self.pkce, code)
    }
}

/// What a successful login attempt delivers.
#[derive(Debug)]
pub struct OAuthLoginResult {
    pub account: StoredAccount,
}

/// The slot for the one login attempt that may be pending. Whatever stands
/// in it is handed back before anything replaces it, so that the caller can
/// cancel it and free its port.
pub struct PendingSlot<T> {
    pub pending: Option<T>,
}

/// The slot's contents after a start, and what the start hands back to be
/// cancelled.
pub open spec fn after_start<T>(pending: Option<T>, next: T) -> (Option<T>, Option<T>) {
    (Some(next), pending)
}

/// The slot's contents after a cancel, and what the cancel hands back.
pub open spec fn after_cancel<T>(pending: Option<T>) -> (Option<T>, Option<T>) {
    (None, pending)
}

impl<T> PendingSlot<T> {
    /// An empty slot.
    pub fn new() -> (r: Self)
        ensures
            r.pending is None,
    {
        PendingSlot { pending: None }
    }

    /// Puts a new attempt in the slot and hands back the one it replaces,
    /// which the caller must cancel.
    pub fn start_login(&mut self, next: T) -> (r: Option<T>)
        ensures
            (final(self).pending, r) == after_start(old(self).pending, next),
    {
        let previous = self.pending.take();
        self.pending = Some(next);
        previous
    }

    /// Takes the pending attempt out to wait for it; fails where there is
    /// none.
    pub fn complete_login(&mut self) -> (r: Result<T, OAuthError>)
        ensures
            final(self).pending is None,
            match old(self).pending {
                Some(t) => r matches Ok(u) && u == t,
                None => r matches Err(OAuthError::NoPendingLogin),
            },
    {
        match self.pending.take() {
            Some(t) => Ok(t),
            None => Err(OAuthError::NoPendingLogin),
        }
    }

    /// Takes the pending attempt out to cancel it. With nothing pending it
    /// does nothing, so calling it twice is calling it once.
    pub fn cancel_login(&mut self) -> (r: Option<T>)
        ensures
            (final(self).pending, r) == after_cancel(old(self).pending),
    {
        self.pending.take()
    }
}

/// Starting a second attempt while a first is pending hands the first back
/// to be cancelled, and leaves only the second pending.
pub proof fn lemma_second_start_cancels_first<T>(pending: Option<T>, first: T, second: T)
    ensures
        after_start(after_start(pending, first).0, second) == (Some(second), Some(first)),
{
}

/// Cancelling is idempotent: a second cancel finds nothing to hand back.
pub proof fn lemma_cancel_idempotent<T>(pending: Option<T>)
    ensures
        after_cancel(after_cancel(pending).0) == (None::<T>, None::<T>),
{
}

} // verus!
