use vstd::prelude::*;

use crate::error::RealDebridError;
use crate::model::{DeviceCodeResponse, RealDebridSettings, SettingsConfigurationError, TokenResponse};
use crate::token::{expiry, TokenState};

verus! {

/// The reason given when the device code ran out before the user approved it.
pub const DEVICE_CODE_EXPIRED: &'static str = "Device code expired.";

/// Where one device authorization attempt stands.
#[derive(Debug)]
pub enum FlowPhase {
    /// Nothing has been asked yet.
    Start,
    /// A device code has been asked for.
    RequestingCode { client_id: String },
    /// The verification URL is being shown to the user; `started_at` is when
    /// the device code arrived.
    Prompting { client_id: String, device: DeviceCodeResponse, started_at: u64 },
    /// Waiting for the user's approval.
    Polling { client_id: String, device: DeviceCodeResponse, started_at: u64 },
    /// Tokens arrived at `received_at`; the new refresh token is being
    /// stored, and the tokens are taken in only once it is.
    Saving { client_id: String, token: TokenResponse, received_at: u64 },
    /// The attempt issued tokens.
    Succeeded,
    /// The attempt ended without tokens.
    Failed,
}

/// What the caller reports back after doing what an action asked; each
/// `now` is the epoch second at which the outcome came in.
#[derive(Debug)]
pub enum FlowEvent {
    /// Start the attempt.
    Begin,
    /// The outcome of the device-code request.
    DeviceCode { code: Result<DeviceCodeResponse, RealDebridError>, now: u64 },
    /// The outcome of handing the prompt to the host.
    Prompted { shown: Result<(), RealDebridError>, now: u64 },
    /// The outcome of one token poll.
    Polled { reply: Result<TokenResponse, RealDebridError>, now: u64 },
    /// The outcome of storing the settings.
    Saved(Result<(), SettingsConfigurationError>),
}

/// What the caller is to do next.
#[derive(Debug)]
pub enum FlowAction {
    /// Ask the provider for a device code.
    RequestDeviceCode { client_id: String },
    /// Show the verification URL to the user.
    Prompt { verification_url: String },
    /// Sleep `wait_secs` seconds, then poll the token endpoint.
    Poll { wait_secs: u64, client_id: String, device_code: String },
    /// Store these settings.
    Persist(RealDebridSettings),
    /// Report success to the host; the attempt is over.
    Succeed,
    /// Report this failure to the host and to the caller; the attempt is over.
    Fail(RealDebridError),
    /// The event did not fit the phase: nothing to do.
    Nothing,
}

impl FlowPhase {
    pub open spec fn is_terminal(self) -> bool {
        self is Succeeded || self is Failed
    }
}

impl FlowAction {
    /// Success or failure reported to the host.
    pub open spec fn is_terminal(self) -> bool {
        self is Succeed || self is Fail
    }
}

/// More than `expires_in` seconds have gone by from `started_at` to `now`.
pub open spec fn expired(now: u64, started_at: u64, expires_in: u64) -> bool {
    now - started_at > expires_in
}

/// `auth` after taking in `token`, received at `now`.
pub open spec fn folded(auth: TokenState, token: TokenResponse, now: u64) -> TokenState {
    TokenState {
        access_token: Some(token.access_token),
        refresh_token: Some(token.refresh_token),
        client_id: auth.client_id,
        expires_at: expiry(now, token.expires_in),
    }
}

/// The next poll of an attempt that polls with `device`.
pub open spec fn poll_action(client_id: String, device: DeviceCodeResponse) -> FlowAction {
    FlowAction::Poll { wait_secs: device.interval, client_id, device_code: device.device_code }
}

/// Before each poll: the attempt fails if the device code has expired by
/// `now`, and polls again otherwise.
pub open spec fn polls_on(
    client_id: String,
    device: DeviceCodeResponse,
    started_at: u64,
    now: u64,
    next: FlowPhase,
    action: FlowAction,
) -> bool {
    if expired(now, started_at, device.expires_in) {
        next == FlowPhase::Failed && (action matches FlowAction::Fail(x) && x.is_auth_with(
            DEVICE_CODE_EXPIRED@,
        ))
    } else {
        next == FlowPhase::Polling { client_id, device, started_at } && action == poll_action(
            client_id,
            device,
        )
    }
}

/// One step of the device authorization grant: from `phase` and the
/// credentials `auth`, `event` leads to `next`, `next_auth` and `action`.
/// The credentials change only at the step that reports success.
pub open spec fn steps_to(
    phase: FlowPhase,
    auth: TokenState,
    event: FlowEvent,
    next: FlowPhase,
    next_auth: TokenState,
    action: FlowAction,
) -> bool {
    match (phase, event) {
        (FlowPhase::Start, FlowEvent::Begin) => {
            &&& next == FlowPhase::RequestingCode { client_id: auth.client_id }
            &&& next_auth == auth
            &&& action == FlowAction::RequestDeviceCode { client_id: auth.client_id }
        },
        (FlowPhase::RequestingCode { client_id }, FlowEvent::DeviceCode { code: Ok(device), now }) => {
            &&& next == FlowPhase::Prompting { client_id, device, started_at: now }
            &&& next_auth == auth
            &&& action == FlowAction::Prompt { verification_url: device.verification_url }
        },
        (FlowPhase::RequestingCode { .. }, FlowEvent::DeviceCode { code: Err(e), .. }) => {
            &&& next == FlowPhase::Failed
            &&& next_auth == auth
            &&& action == FlowAction::Fail(e)
        },
        (
            FlowPhase::Prompting { client_id, device, started_at },
            FlowEvent::Prompted { shown: Ok(()), now },
        ) => {
            &&& next_auth == auth
            &&& polls_on(client_id, device, started_at, now, next, action)
        },
        (FlowPhase::Prompting { .. }, FlowEvent::Prompted { shown: Err(e), .. }) => {
            &&& next == FlowPhase::Failed
            &&& next_auth == auth
            &&& action == FlowAction::Fail(e)
        },
        (FlowPhase::Polling { client_id, .. }, FlowEvent::Polled { reply: Ok(token), now }) => {
            &&& next == FlowPhase::Saving { client_id, token, received_at: now }
            &&& next_auth == auth
            &&& action == FlowAction::Persist(
                RealDebridSettings { client_id, refresh_token: Some(token.refresh_token) },
            )
        },
        (
            FlowPhase::Polling { client_id, device, started_at },
            FlowEvent::Polled { reply: Err(e), now },
        ) => {
            &&& next_auth == auth
            &&& if e.is_authorization_pending() {
                polls_on(client_id, device, started_at, now, next, action)
            } else {
                next == FlowPhase::Failed && action == FlowAction::Fail(e)
            }
        },
        (FlowPhase::Saving { token, received_at, .. }, FlowEvent::Saved(Ok(()))) => {
            &&& next == FlowPhase::Succeeded
            &&& next_auth == folded(auth, token, received_at)
            &&& action == FlowAction::Succeed
        },
        (FlowPhase::Saving { .. }, FlowEvent::Saved(Err(se))) => {
            &&& next == FlowPhase::Failed
            &&& next_auth == auth
            &&& action matches FlowAction::Fail(x) && x.is_auth_with(se.message()@)
        },
        (p, _) => {
            &&& next == p
            &&& next_auth == auth
            &&& action == FlowAction::Nothing
        },
    }
}

/// One device authorization attempt, driven by the caller: it performs each
/// action returned by `step` and reports the outcome as the next event.
#[derive(Debug)]
pub struct DeviceAuthFlow {
    pub phase: FlowPhase,
}

/// The phase and action before a poll, as `polls_on` states them.
fn poll_or_expire(client_id: String, device: DeviceCodeResponse, started_at: u64, now: u64) -> (r: (
    FlowPhase,
    FlowAction,
))
    ensures
        polls_on(client_id, device, started_at, now, r.0, r.1),
{
    if now > started_at && now - started_at > device.expires_in {
        (FlowPhase::Failed, FlowAction::Fail(RealDebridError::Auth(DEVICE_CODE_EXPIRED.to_owned())))
    } else {
        let action = FlowAction::Poll {
            wait_secs: device.interval,
            client_id: client_id.clone(),
            device_code: device.device_code.clone(),
        };
        (FlowPhase::Polling { client_id, device, started_at }, action)
    }
}

impl DeviceAuthFlow {
    pub fn new() -> (r: Self)
        ensures
            r.phase is Start,
    {
        DeviceAuthFlow { phase: FlowPhase::Start }
    }

    /// Whether the attempt is over.
    pub fn is_finished(&self) -> (r: bool)
        ensures
            r == self.phase.is_terminal(),
    {
        match self.phase {
            FlowPhase::Succeeded | FlowPhase::Failed => true,
            _ => false,
        }
    }

    /// Advances the attempt by one event; `auth` takes in the tokens once
    /// they are stored.
    pub fn step(&mut self, auth: &mut TokenState, event: FlowEvent) -> (action: FlowAction)
        ensures
            steps_to(old(self).phase, *old(auth), event, final(self).phase, *final(auth), action),
    {
        let mut phase = FlowPhase::Failed;
        std::mem::swap(&mut phase, &mut self.phase);
        match (phase, event) {
            (FlowPhase::Start, FlowEvent::Begin) => {
                self.phase = FlowPhase::RequestingCode { client_id: auth.client_id.clone() };
                FlowAction::RequestDeviceCode { client_id: auth.client_id.clone() }
            },
            (FlowPhase::RequestingCode { client_id }, FlowEvent::DeviceCode { code: Ok(device), now }) => {
                let verification_url = device.verification_url.clone();
                self.phase = FlowPhase::Prompting { client_id, device, started_at: now };
                FlowAction::Prompt { verification_url }
            },
            (FlowPhase::RequestingCode { .. }, FlowEvent::DeviceCode { code: Err(e), .. }) => {
                FlowAction::Fail(e)
            },
            (
                FlowPhase::Prompting { client_id, device, started_at },
                FlowEvent::Prompted { shown: Ok(()), now },
            ) => {
                let (next, action) = poll_or_expire(client_id, device, started_at, now);
                self.phase = next;
                action
            },
            (FlowPhase::Prompting { .. }, FlowEvent::Prompted { shown: Err(e), .. }) => {
                FlowAction::Fail(e)
            },
            (FlowPhase::Polling { client_id, .. }, FlowEvent::Polled { reply: Ok(token), now }) => {
                let settings = RealDebridSettings {
                    client_id: client_id.clone(),
                    refresh_token: Some(token.refresh_token.clone()),
                };
                self.phase = FlowPhase::Saving { client_id, token, received_at: now };
                FlowAction::Persist(settings)
            },
            (
                FlowPhase::Polling { client_id, device, started_at },
                FlowEvent::Polled { reply: Err(e), now },
            ) => {
                if e.is_authorization_pending() {
                    let (next, action) = poll_or_expire(client_id, device, started_at, now);
                    self.phase = next;
                    action
                } else {
                    FlowAction::Fail(e)
                }
            },
            (FlowPhase::Saving { token, received_at, .. }, FlowEvent::Saved(Ok(()))) => {
                auth.fold_token_response(&token, received_at);
                self.phase = FlowPhase::Succeeded;
                FlowAction::Succeed
            },
            (FlowPhase::Saving { .. }, FlowEvent::Saved(Err(se))) => {
                FlowAction::Fail(RealDebridError::Auth(se.to_message()))
            },
            (p, _) => {
                self.phase = p;
                FlowAction::Nothing
            },
        }
    }
}

/// Once more than `expires_in` seconds have passed since the device code
/// arrived, the next poll ends the attempt, whatever the provider answered
/// with an error: polling cannot go on forever while the provider keeps
/// saying "pending".
pub proof fn lemma_polling_ends_after_expiry(
    auth: TokenState,
    client_id: String,
    device: DeviceCodeResponse,
    started_at: u64,
    e: RealDebridError,
    now: u64,
    next: FlowPhase,
    next_auth: TokenState,
    action: FlowAction,
)
    requires
        expired(now, started_at, device.expires_in),
        steps_to(
            FlowPhase::Polling { client_id, device, started_at },
            auth,
            FlowEvent::Polled { reply: Err(e), now },
            next,
            next_auth,
            action,
        ),
    ensures
        next is Failed,
        action is Fail,
        next_auth == auth,
{
}

/// An "authorization pending" answer before the device code expires keeps the
/// attempt polling as it was: no failure is reported and the credentials do
/// not change.
pub proof fn lemma_pending_keeps_polling(
    auth: TokenState,
    client_id: String,
    device: DeviceCodeResponse,
    started_at: u64,
    e: RealDebridError,
    now: u64,
    next: FlowPhase,
    next_auth: TokenState,
    action: FlowAction,
)
    requires
        e.is_authorization_pending(),
        !expired(now, started_at, device.expires_in),
        steps_to(
            FlowPhase::Polling { client_id, device, started_at },
            auth,
            FlowEvent::Polled { reply: Err(e), now },
            next,
            next_auth,
            action,
        ),
    ensures
        next == (FlowPhase::Polling { client_id, device, started_at }),
        action == poll_action(client_id, device),
        !action.is_terminal(),
        next_auth == auth,
{
}

/// A success or failure is reported only by the step that ends the attempt,
/// and an ended attempt ignores every later event: an attempt reports at most
/// one outcome.
pub proof fn lemma_one_outcome_per_attempt(
    phase: FlowPhase,
    auth: TokenState,
    event: FlowEvent,
    next: FlowPhase,
    next_auth: TokenState,
    action: FlowAction,
)
    requires
        steps_to(phase, auth, event, next, next_auth, action),
    ensures
        action.is_terminal() ==> !phase.is_terminal() && next.is_terminal(),
        phase.is_terminal() ==> next == phase && action is Nothing && next_auth == auth,
{
}

/// No partial success: every step but the one that reports success leaves
/// the credentials exactly as they were, so an attempt that fails, at any
/// point, leaves them untouched.
pub proof fn lemma_credentials_change_only_on_success(
    phase: FlowPhase,
    auth: TokenState,
    event: FlowEvent,
    next: FlowPhase,
    next_auth: TokenState,
    action: FlowAction,
)
    requires
        steps_to(phase, auth, event, next, next_auth, action),
    ensures
        !(action is Succeed) ==> next_auth == auth,
        action is Succeed ==> next is Succeeded,
{
}

/// The tokens of a successful poll at `received_at` are taken in verbatim
/// once stored, with the access token valid until `received_at + expires_in`.
pub proof fn lemma_fold_round_trip(
    auth: TokenState,
    client_id: String,
    token: TokenResponse,
    received_at: u64,
    next: FlowPhase,
    next_auth: TokenState,
    action: FlowAction,
)
    requires
        received_at + token.expires_in <= u64::MAX,
        steps_to(
            FlowPhase::Saving { client_id, token, received_at },
            auth,
            FlowEvent::Saved(Ok(())),
            next,
            next_auth,
            action,
        ),
    ensures
        next_auth.access_token == Some(token.access_token),
        next_auth.refresh_token == Some(token.refresh_token),
        next_auth.expires_at == received_at + token.expires_in,
        next_auth.client_id == auth.client_id,
        action is Succeed,
{
}

/// The refresh token handed over to be stored is the one of the response,
/// verbatim, with the attempt's client id.
pub proof fn lemma_persists_received_refresh_token(
    auth: TokenState,
    client_id: String,
    device: DeviceCodeResponse,
    started_at: u64,
    token: TokenResponse,
    now: u64,
    next: FlowPhase,
    next_auth: TokenState,
    action: FlowAction,
)
    requires
        steps_to(
            FlowPhase::Polling { client_id, device, started_at },
            auth,
            FlowEvent::Polled { reply: Ok(token), now },
            next,
            next_auth,
            action,
        ),
    ensures
        action == FlowAction::Persist(
            RealDebridSettings { client_id, refresh_token: Some(token.refresh_token) },
        ),
        next_auth == auth,
{
}

} // verus!
