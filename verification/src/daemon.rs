//! Decision logic of the perpetual login loop.
//!
//! The loop itself runs in the transport: once per poll period it probes
//! the gateway, asks [`login_poll_decision`] what to do, drives the
//! protocol when an attempt is due, and applies [`attempt_follow_up`] to
//! the outcome.  Everything it decides is here; the loop only performs.

use vstd::prelude::*;
use crate::auth::AuthError;
use crate::config::AppInfo;
use crate::protocol::LoginUrls;
use crate::scan::contains_sub;
use crate::scan::spec_find_sub;
use crate::serve::spec_exit_state;

verus! {

/// Whether a gateway response shows the captive portal's redirect: the
/// page of an unauthenticated client carries this replace call.
pub fn body_indicates_captive(body: &str) -> (r: bool)
    ensures
        r == (spec_find_sub(body@, "location.replace(\"http://10."@, 0) is Some),
{
    contains_sub(body, "location.replace(\"http://10.")
}

/// What one turn of the login loop does.
#[derive(Clone, Copy, Debug, PartialEq, Eq, Structural)]
pub enum LoopStep {
    /// The running flag fell: leave the loop.
    Exit,
    /// Nothing to do this turn: sleep one poll period and look again.
    Idle,
    /// Behind the portal with credentials at hand: run the protocol.
    Attempt,
}

/// The decision of one poll turn: exit when stopped; idle when not
/// captive (already connected) or when no credentials are stored yet;
/// attempt otherwise.
pub open spec fn spec_login_poll_decision(running: bool, captive: bool, has_user: bool) -> LoopStep {
    if !running {
        LoopStep::Exit
    } else if !captive || !has_user {
        LoopStep::Idle
    } else {
        LoopStep::Attempt
    }
}

/// Decide one turn of the login loop.
pub fn login_poll_decision(running: bool, captive: bool, has_user: bool) -> (r: LoopStep)
    ensures
        r == spec_login_poll_decision(running, captive, has_user),
{
    if !running {
        LoopStep::Exit
    } else if !captive || !has_user {
        LoopStep::Idle
    } else {
        LoopStep::Attempt
    }
}

/// What to do after an attempt: the new value of the loop's "last
/// attempt succeeded" flag, whether to notify the user of a failure,
/// whether to persist the state, and whether to back off before the next
/// turn.
#[derive(Clone, Copy, Debug, PartialEq, Eq, Structural)]
pub struct AttemptFollowUp {
    pub success: bool,
    pub notify_failure: bool,
    pub persist: bool,
    pub back_off: bool,
}

/// The follow-up of an attempt outcome.  Success resets the flag and is
/// persisted.  An explicit rejection notifies the user only on the
/// transition out of success — never on repeated consecutive failures —
/// and backs off.  A transport or malformed-response failure is treated
/// as transient: no notification, no flag change, just the back-off.
/// No outcome ever ends the loop.
pub fn attempt_follow_up(was_success: bool, outcome: &Result<LoginUrls, AuthError>) -> (r:
    AttemptFollowUp)
    ensures
        outcome is Ok ==> r == (AttemptFollowUp {
            success: true,
            notify_failure: false,
            persist: true,
            back_off: false,
        }),
        outcome matches Err(AuthError::AuthFailed { .. }) ==> r == (AttemptFollowUp {
            success: false,
            notify_failure: was_success,
            persist: false,
            back_off: true,
        }),
        outcome is Err && !(outcome matches Err(AuthError::AuthFailed { .. })) ==> r == (
        AttemptFollowUp {
            success: was_success,
            notify_failure: false,
            persist: false,
            back_off: true,
        }),
{
    match outcome {
        Ok(_) => AttemptFollowUp {
            success: true,
            notify_failure: false,
            persist: true,
            back_off: false,
        },
        Err(AuthError::AuthFailed { .. }) => AttemptFollowUp {
            success: false,
            notify_failure: was_success,
            persist: false,
            back_off: true,
        },
        Err(_) => AttemptFollowUp {
            success: was_success,
            notify_failure: false,
            persist: false,
            back_off: true,
        },
    }
}

/// Store a successful attempt's URLs in the shared state: the entry URL
/// for diagnostics and the logout root for later `GET /logout` calls.
/// Credentials, path and the running flag stay.
pub fn apply_login_urls(state: &mut AppInfo, urls: LoginUrls)
    ensures
        final(state).config.user == old(state).config.user,
        final(state).config.last_login_url == Some(urls.last_url),
        final(state).config.logout_url_base == Some(urls.logout_url_base),
        final(state).path == old(state).path,
        final(state).running == old(state).running,
{
    state.config.set_last_url(urls.last_url);
    state.config.set_logout_url_base(urls.logout_url_base);
}

/// Law: one `GET /exit` stops everything.  In the state the exit handler
/// leaves, the running flag is down, the login loop's next turn is
/// `Exit` whatever the network looks like, and the accept loop's
/// continue condition is false — both loops end within one poll of the
/// flag falling.
pub proof fn lemma_exit_stops_both_loops(s: AppInfo, captive: bool, has_user: bool)
    ensures
        !spec_exit_state(s).running,
        spec_login_poll_decision(spec_exit_state(s).running, captive, has_user) == LoopStep::Exit,
{
}

} // verus!
