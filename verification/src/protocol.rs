//! The resolution-and-authentication protocol as an explicit state
//! machine.
//!
//! Every suspension point of the protocol — the external probe and each
//! HTTP exchange — is a state; the transport performs the pending
//! [`ProtocolAction`], hands the outcome back as a [`ProtocolEvent`], and
//! the verified [`protocol_step`] decides everything in between: parsing
//! the fetched pages, building the next request, and classifying
//! failures.

use vstd::prelude::*;
use crate::auth::AuthError;
use crate::auth::AuthInfo;
use crate::auth::IndexUrl;
use crate::auth::UserInfo;
use crate::auth::build_primary_form;
use crate::auth::build_quickauth_url;
use crate::auth::decoded_query_pairs;
use crate::auth::form_encoded;
use crate::auth::get_js_auth_info;
use crate::auth::get_js_url;
use crate::auth::parse_index_page;
use crate::auth::spec_auth_info_ok;
use crate::auth::spec_js_url;
use crate::auth::spec_logout_root;
use crate::auth::spec_parse_index_ok;
use crate::auth::spec_primary_form;
use crate::auth::spec_query_of;
use crate::auth::spec_quickauth_pairs;
use crate::auth::spec_quoted_url;
use crate::auth::spec_root_of;
use crate::auth::spec_variable_value;
use crate::scan::str_eq;

verus! {

/// What `serde_json` reads as the top-level integer field `key` of the
/// JSON document `body`: nothing when `body` does not parse, has no such
/// field, or the field is not an integer.
pub uninterp spec fn spec_json_i64_field(body: Seq<char>, key: Seq<char>) -> Option<i64>;

/// Relies on `serde_json::from_str` and `serde_json::Value::{get,
/// as_i64}`: the top-level integer field `key` of the JSON object in
/// `body`; the result depends on `body` and `key` alone.
#[verifier::external_body]
pub(crate) fn json_i64_field(body: &str, key: &str) -> (r: Option<i64>)
    ensures
        r == spec_json_i64_field(body@, key@),
{
    match serde_json::from_str::<serde_json::Value>(body) {
        Ok(v) => v.get(key).and_then(|f| f.as_i64()),
        Err(_) => None,
    }
}

/// What `serde_json` reads as the top-level string field `key` of the
/// JSON document `body`.
pub uninterp spec fn spec_json_str_field(body: Seq<char>, key: Seq<char>) -> Option<Seq<char>>;

/// Relies on `serde_json::from_str` and `serde_json::Value::{get,
/// as_str}`: the top-level string field `key` of the JSON object in
/// `body`; the result depends on `body` and `key` alone.
#[verifier::external_body]
fn json_str_field(body: &str, key: &str) -> (r: Option<String>)
    ensures
        match r {
            Some(s) => spec_json_str_field(body@, key@) == Some(s@),
            None => spec_json_str_field(body@, key@) is None,
        },
{
    match serde_json::from_str::<serde_json::Value>(body) {
        Ok(v) => v.get(key).and_then(|f| f.as_str().map(|s| s.to_string())),
        Err(_) => None,
    }
}

/// The message a failed primary auth carries: the reply's `msg` field,
/// empty when absent.
pub open spec fn spec_primary_fail_msg(body: Seq<char>) -> Seq<char> {
    match spec_json_str_field(body, "msg"@) {
        Some(m) => m,
        None => Seq::empty(),
    }
}

/// Decide the primary-auth step from the reply's extracted fields.
/// Integer `code` 1 means the protocol goes on to quick auth; any other
/// integer code is an explicit rejection carrying `msg` (empty when
/// absent); no integer `code` at all means the reply had the wrong
/// shape, and `body` is handed back for diagnostics.
pub fn classify_primary(code: Option<i64>, msg: Option<String>, body: String) -> (r: Result<
    (),
    AuthError,
>)
    ensures
        code == Some(1i64) ==> r is Ok,
        code matches Some(c) && c != 1 ==> (r matches Err(AuthError::AuthFailed { msg: m }) && m@
            == (match msg {
            Some(s) => s@,
            None => Seq::<char>::empty(),
        })),
        code is None ==> (r matches Err(AuthError::InvalidResponse(b)) && b@ == body@),
{
    match code {
        Some(c) => {
            if c == 1 {
                Ok(())
            } else {
                Err(
                    AuthError::AuthFailed {
                        msg: match msg {
                            Some(m) => m,
                            None => String::new(),
                        },
                    },
                )
            }
        },
        None => Err(AuthError::InvalidResponse(body)),
    }
}

/// Classify the primary-auth reply text: extract its fields, then decide
/// as [`classify_primary`] does.
pub fn interpret_primary_response(body: &str) -> (r: Result<(), AuthError>)
    ensures
        spec_json_i64_field(body@, "code"@) matches Some(c) ==> (if c == 1 {
            r is Ok
        } else {
            r matches Err(AuthError::AuthFailed { msg }) && msg@ == spec_primary_fail_msg(body@)
        }),
        spec_json_i64_field(body@, "code"@) is None ==> (r matches Err(
            AuthError::InvalidResponse(b),
        ) && b@ == body@),
{
    let code = json_i64_field(body, "code");
    let msg = json_str_field(body, "msg");
    classify_primary(code, msg, String::from_str(body))
}

/// The message a failed quick auth carries: the reply's `message` field,
/// empty when absent.
pub open spec fn spec_quick_fail_msg(body: Seq<char>) -> Seq<char> {
    match spec_json_str_field(body, "message"@) {
        Some(m) => m,
        None => Seq::empty(),
    }
}

/// Decide the quick-auth step from the reply's extracted fields.  String
/// `code` "0" means the session is up; any other string code is an
/// explicit rejection carrying `message` (empty when absent); no string
/// `code` at all means the reply had the wrong shape, and `body` is
/// handed back for diagnostics.
pub fn classify_quick(code: Option<String>, message: Option<String>, body: String) -> (r: Result<
    (),
    AuthError,
>)
    ensures
        code matches Some(c) ==> (if c@ == "0"@ {
            r is Ok
        } else {
            r matches Err(AuthError::AuthFailed { msg: m }) && m@ == (match message {
                Some(s) => s@,
                None => Seq::<char>::empty(),
            })
        }),
        code is None ==> (r matches Err(AuthError::InvalidResponse(b)) && b@ == body@),
{
    match code {
        Some(c) => {
            if str_eq(c.as_str(), "0") {
                Ok(())
            } else {
                Err(
                    AuthError::AuthFailed {
                        msg: match message {
                            Some(m) => m,
                            None => String::new(),
                        },
                    },
                )
            }
        },
        None => Err(AuthError::InvalidResponse(body)),
    }
}

/// Classify the quick-auth reply text: extract its fields, then decide
/// as [`classify_quick`] does.
pub fn interpret_quick_response(body: &str) -> (r: Result<(), AuthError>)
    ensures
        spec_json_str_field(body@, "code"@) matches Some(c) ==> (if c == "0"@ {
            r is Ok
        } else {
            r matches Err(AuthError::AuthFailed { msg }) && msg@ == spec_quick_fail_msg(body@)
        }),
        spec_json_str_field(body@, "code"@) is None ==> (r matches Err(
            AuthError::InvalidResponse(b),
        ) && b@ == body@),
{
    let code = json_str_field(body, "code");
    let message = json_str_field(body, "message");
    classify_quick(code, message, String::from_str(body))
}

/// What a successful login leaves behind: the entry URL of the attempt
/// and the root for later logout calls.
#[derive(Clone, Debug)]
pub struct LoginUrls {
    pub last_url: String,
    pub logout_url_base: String,
}

/// Where the protocol stands: each variant but `Done` awaits the outcome
/// of one outside exchange.
pub enum ProtocolState {
    /// Awaiting the external-connectivity probe.
    ProbeExternal,
    /// Awaiting the gateway page.
    FetchGateway,
    /// Awaiting the entry page.
    FetchEntry { entry: IndexUrl },
    /// Awaiting the portal script.
    FetchScript { entry: IndexUrl },
    /// Awaiting the primary-auth reply.
    SubmitPrimary { entry: IndexUrl, auth: AuthInfo },
    /// Awaiting the quick-auth reply.
    SubmitQuick { entry: IndexUrl, auth: AuthInfo },
    /// The protocol is over, well or badly.
    Done { result: Result<LoginUrls, AuthError> },
}

/// What the transport must do next.
pub enum ProtocolAction {
    /// Probe the well-known external host (a plain TCP connect and
    /// minimal GET, short timeout); report only whether it answered.
    Probe,
    /// GET `url` and hand back the body text.
    Get { url: String },
    /// POST `form`, form-encoded, to `url` and hand back the body text.
    PostForm { url: String, form: Vec<(String, String)> },
    /// Nothing: the protocol is done.
    Stop,
}

/// What the transport hands back.
pub enum ProtocolEvent {
    /// The external probe answered (or did not).
    ProbeResult { reachable: bool },
    /// The pending exchange succeeded with this body text.
    Response { body: String },
    /// The pending exchange failed in transport.
    TransportFailure { detail: String },
}

/// The event answers the pending action of the state.
pub open spec fn event_fits(state: ProtocolState, event: ProtocolEvent) -> bool {
    match state {
        ProtocolState::ProbeExternal => event is ProbeResult,
        ProtocolState::FetchGateway => event is Response || event is TransportFailure,
        ProtocolState::FetchEntry { .. } => event is Response || event is TransportFailure,
        ProtocolState::FetchScript { .. } => event is Response || event is TransportFailure,
        ProtocolState::SubmitPrimary { .. } => event is Response || event is TransportFailure,
        ProtocolState::SubmitQuick { .. } => event is Response || event is TransportFailure,
        ProtocolState::Done { .. } => false,
    }
}

/// Start the protocol: with `probe` set the external probe comes first
/// (its success short-circuits the attempt); without it the gateway page
/// is fetched at once.
pub fn protocol_start(probe: bool) -> (r: (ProtocolState, ProtocolAction))
    ensures
        probe ==> r.0 is ProbeExternal && r.1 is Probe,
        !probe ==> r.0 is FetchGateway && (r.1 matches ProtocolAction::Get { url } && url@
            == "http://192.168.0.1"@),
{
    if probe {
        (ProtocolState::ProbeExternal, ProtocolAction::Probe)
    } else {
        (ProtocolState::FetchGateway, ProtocolAction::Get {
            url: String::from_str("http://192.168.0.1"),
        })
    }
}

/// Drive the protocol one step: consume the outcome of the pending
/// exchange, do all parsing and classification, and emit the next
/// exchange or the final result.
///
/// A transport failure ends the attempt as a `ReqError`; a page or reply
/// of the wrong shape ends it as an `InvalidResponse` carrying the
/// payload; an explicit rejection ends it as `AuthFailed`; a successful
/// probe ends it as `Authed` (nothing to do).  Otherwise the attempt
/// advances: gateway page to entry page, entry page to script, script to
/// primary auth, primary auth (integer code 1) to quick auth, quick auth
/// (string code "0") to the final URLs.
pub fn protocol_step(state: ProtocolState, user: &UserInfo, event: ProtocolEvent) -> (r: (
    ProtocolState,
    ProtocolAction,
))
    requires
        event_fits(state, event),
    ensures
        state is ProbeExternal ==> (event matches ProtocolEvent::ProbeResult { reachable } ==> (
        if reachable {
            (r.0 matches ProtocolState::Done { result } && result matches Err(AuthError::Authed))
                && r.1 is Stop
        } else {
            r.0 is FetchGateway && (r.1 matches ProtocolAction::Get { url } && url@
                == "http://192.168.0.1"@)
        })),
        !(state is ProbeExternal) ==> (event matches ProtocolEvent::TransportFailure { detail }
            ==> ((r.0 matches ProtocolState::Done { result } && result matches Err(
            AuthError::ReqError(d),
        ) && d@ == detail@) && r.1 is Stop)),
        state is FetchGateway ==> (event matches ProtocolEvent::Response { body } ==> (
        if spec_parse_index_ok(body@) {
            &&& r.0 matches ProtocolState::FetchEntry { entry } && {
                &&& entry.url@ == spec_quoted_url(body@)->0
                &&& Some(entry.root@) == spec_root_of(entry.url@)
                &&& entry.args.deep_view() == decoded_query_pairs(spec_query_of(entry.url@)->0)
            }
            &&& r.1 matches ProtocolAction::Get { url } && url@ == spec_quoted_url(body@)->0
        } else {
            (r.0 matches ProtocolState::Done { result } && result matches Err(
                AuthError::InvalidResponse(b),
            ) && b@ == body@) && r.1 is Stop
        })),
        state matches ProtocolState::FetchEntry { entry } ==> (event matches
            ProtocolEvent::Response { body } ==> (if spec_js_url(body@) is Some {
            &&& r.0 matches ProtocolState::FetchScript { entry: e2 } && e2 == entry
            &&& r.1 matches ProtocolAction::Get { url } && url@ == entry.root@ + spec_js_url(
                body@,
            )->0
        } else {
            (r.0 matches ProtocolState::Done { result } && result matches Err(
                AuthError::InvalidResponse(b),
            ) && b@ == body@) && r.1 is Stop
        })),
        state matches ProtocolState::FetchScript { entry } ==> (event matches
            ProtocolEvent::Response { body } ==> (if spec_auth_info_ok(body@) {
            &&& r.0 matches ProtocolState::SubmitPrimary { entry: e2, auth } && e2 == entry && {
                &&& Some(auth.auth_url@) == spec_variable_value(body@, "authApiUrl"@)
                &&& Some(auth.logout_url_root@) == spec_logout_root(auth.auth_url@)
                &&& Some(auth.school_codes@) == spec_variable_value(body@, "authSchoolCodes"@)
            }
            &&& r.1 matches ProtocolAction::PostForm { url, form } && (r.0 matches
                ProtocolState::SubmitPrimary { auth, .. } ==> url@ == auth.auth_url@
                && form.deep_view() == spec_primary_form(auth, *user))
        } else {
            (r.0 matches ProtocolState::Done { result } && result matches Err(
                AuthError::InvalidResponse(b),
            ) && b@ == body@) && r.1 is Stop
        })),
        state matches ProtocolState::SubmitPrimary { entry, auth } ==> (event matches
            ProtocolEvent::Response { body } ==> (match spec_json_i64_field(body@, "code"@) {
            Some(c) => if c == 1 {
                &&& r.0 matches ProtocolState::SubmitQuick { entry: e2, auth: a2 } && e2 == entry
                    && a2 == auth
                &&& r.1 matches ProtocolAction::Get { url } && url@ == entry.root@
                    + "/quickauth.do?"@ + form_encoded(
                    spec_quickauth_pairs(entry.args.deep_view(), *user),
                )
            } else {
                (r.0 matches ProtocolState::Done { result } && result matches Err(
                    AuthError::AuthFailed { msg },
                ) && msg@ == spec_primary_fail_msg(body@)) && r.1 is Stop
            },
            None => (r.0 matches ProtocolState::Done { result } && result matches Err(
                AuthError::InvalidResponse(b),
            ) && b@ == body@) && r.1 is Stop,
        })),
        state matches ProtocolState::SubmitQuick { entry, auth } ==> (event matches
            ProtocolEvent::Response { body } ==> (match spec_json_str_field(body@, "code"@) {
            Some(c) => if c == "0"@ {
                (r.0 matches ProtocolState::Done { result } && result matches Ok(urls) && {
                    &&& urls.last_url@ == entry.url@
                    &&& urls.logout_url_base@ == auth.logout_url_root@
                }) && r.1 is Stop
            } else {
                (r.0 matches ProtocolState::Done { result } && result matches Err(
                    AuthError::AuthFailed { msg },
                ) && msg@ == spec_quick_fail_msg(body@)) && r.1 is Stop
            },
            None => (r.0 matches ProtocolState::Done { result } && result matches Err(
                AuthError::InvalidResponse(b),
            ) && b@ == body@) && r.1 is Stop,
        })),
{
    match (state, event) {
        (ProtocolState::ProbeExternal, ProtocolEvent::ProbeResult { reachable }) => {
            if reachable {
                (ProtocolState::Done { result: Err(AuthError::Authed) }, ProtocolAction::Stop)
            } else {
                (ProtocolState::FetchGateway, ProtocolAction::Get {
                    url: String::from_str("http://192.168.0.1"),
                })
            }
        },
        (ProtocolState::FetchGateway, ProtocolEvent::Response { body }) => {
            match parse_index_page(body.as_str()) {
                Some(entry) => {
                    let url = entry.url.clone();
                    (ProtocolState::FetchEntry { entry }, ProtocolAction::Get { url })
                },
                None => (
                    ProtocolState::Done { result: Err(AuthError::InvalidResponse(body)) },
                    ProtocolAction::Stop,
                ),
            }
        },
        (ProtocolState::FetchEntry { entry }, ProtocolEvent::Response { body }) => {
            match get_js_url(body.as_str()) {
                Some(js) => {
                    let url = entry.root.clone().concat(js);
                    (ProtocolState::FetchScript { entry }, ProtocolAction::Get { url })
                },
                None => (
                    ProtocolState::Done { result: Err(AuthError::InvalidResponse(body)) },
                    ProtocolAction::Stop,
                ),
            }
        },
        (ProtocolState::FetchScript { entry }, ProtocolEvent::Response { body }) => {
            match get_js_auth_info(body.as_str()) {
                Some(auth) => {
                    let url = auth.auth_url.clone();
                    let form = build_primary_form(&auth, user);
                    (
                        ProtocolState::SubmitPrimary { entry, auth },
                        ProtocolAction::PostForm { url, form },
                    )
                },
                None => (
                    ProtocolState::Done { result: Err(AuthError::InvalidResponse(body)) },
                    ProtocolAction::Stop,
                ),
            }
        },
        (ProtocolState::SubmitPrimary { entry, auth }, ProtocolEvent::Response { body }) => {
            match interpret_primary_response(body.as_str()) {
                Ok(_) => {
                    let url = build_quickauth_url(&entry, user);
                    (ProtocolState::SubmitQuick { entry, auth }, ProtocolAction::Get { url })
                },
                Err(e) => (ProtocolState::Done { result: Err(e) }, ProtocolAction::Stop),
            }
        },
        (ProtocolState::SubmitQuick { entry, auth }, ProtocolEvent::Response { body }) => {
            match interpret_quick_response(body.as_str()) {
                Ok(_) => (
                    ProtocolState::Done {
                        result: Ok(
                            LoginUrls {
                                last_url: entry.url,
                                logout_url_base: auth.logout_url_root,
                            },
                        ),
                    },
                    ProtocolAction::Stop,
                ),
                Err(e) => (ProtocolState::Done { result: Err(e) }, ProtocolAction::Stop),
            }
        },
        (_, ProtocolEvent::TransportFailure { detail }) => (
            ProtocolState::Done { result: Err(AuthError::ReqError(detail)) },
            ProtocolAction::Stop,
        ),
        (_, _) => {
            proof {
                assert(false);
            }
            (ProtocolState::Done { result: Err(AuthError::Authed) }, ProtocolAction::Stop)
        },
    }
}

} // verus!
