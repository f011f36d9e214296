use vstd::prelude::*;

use crate::error::RealDebridError;
use crate::model::{RealDebridSettings, TokenResponse};

verus! {

/// The reason given while the refresh-token exchange does not exist.
pub const REFRESH_NOT_IMPLEMENTED: &'static str = "Refresh token flow not implemented.";

/// The credentials of the session: one unit, so that a token is never read
/// together with the expiry of another.
#[derive(Debug, Clone)]
pub struct TokenState {
    pub access_token: Option<String>,
    pub refresh_token: Option<String>,
    pub client_id: String,
    /// Epoch seconds at which `access_token` stops being valid.
    pub expires_at: u64,
}

/// `a + b`, or `u64::MAX` where that does not fit.
pub open spec fn expiry(now: u64, expires_in: u64) -> u64 {
    if now + expires_in <= u64::MAX {
        (now + expires_in) as u64
    } else {
        u64::MAX
    }
}

impl TokenState {
    /// The state at start-up: what the settings kept, and no access token.
    pub fn new(settings: RealDebridSettings) -> (r: Self)
        ensures
            r.access_token is None,
            r.refresh_token == settings.refresh_token,
            r.client_id == settings.client_id,
            r.expires_at == 0,
    {
        TokenState {
            access_token: None,
            refresh_token: settings.refresh_token,
            client_id: settings.client_id,
            expires_at: 0,
        }
    }

    /// An access token is held and `now` is strictly before its expiry.
    pub open spec fn holds_valid_token(&self, now: u64) -> bool {
        self.access_token is Some && now < self.expires_at
    }

    /// The refresh-token exchange. It does not exist yet, and fails rather
    /// than hand out a stale token.
    fn refresh_access_token(&self) -> (r: Result<String, RealDebridError>)
        ensures
            r matches Err(e) && e.is_auth_with(REFRESH_NOT_IMPLEMENTED@),
    {
        Err(RealDebridError::Auth(REFRESH_NOT_IMPLEMENTED.to_owned()))
    }

    /// The access token to use at epoch second `now`: the cached one while it
    /// is valid, without any network call; otherwise the outcome of a refresh.
    pub fn get_access_token(&mut self, now: u64) -> (r: Result<String, RealDebridError>)
        ensures
            old(self).holds_valid_token(now) ==> r == Ok::<String, RealDebridError>(
                old(self).access_token.unwrap(),
            ),
            !old(self).holds_valid_token(now) ==> (r matches Err(e) && e.is_auth_with(
                REFRESH_NOT_IMPLEMENTED@,
            )),
            *final(self) == *old(self),
    {
        if self.access_token.is_some() && now < self.expires_at {
            match &self.access_token {
                Some(t) => {
                    return Ok(t.clone());
                },
                None => {},
            }
        }
        match self.refresh_access_token() {
            Ok(t) => {
                self.access_token = Some(t.clone());
                Ok(t)
            },
            Err(e) => Err(e),
        }
    }

    /// Takes in the tokens of a successful exchange made at epoch second `now`.
    pub fn fold_token_response(&mut self, response: &TokenResponse, now: u64)
        ensures
            final(self).access_token == Some(response.access_token),
            final(self).refresh_token == Some(response.refresh_token),
            final(self).expires_at == expiry(now, response.expires_in),
            final(self).client_id == old(self).client_id,
    {
        self.access_token = Some(response.access_token.clone());
        self.refresh_token = Some(response.refresh_token.clone());
        self.expires_at = now.saturating_add(response.expires_in);
    }
}

} // verus!
