//! Decision core of the local control plane.
//!
//! The HTTP plumbing around it binds the loopback socket, reads bodies
//! and writes replies; everything the control plane *decides* — which
//! route a request hits and what each handler does to the shared state —
//! stands here on plain values, so the effects on [`AppInfo`] are pinned
//! exactly.

use vstd::prelude::*;
use crate::auth::UserInfo;
use crate::config::AppInfo;
use crate::scan::str_eq;

verus! {

/// The routes of the control plane.
#[derive(Clone, Copy, Debug, PartialEq, Eq, Structural)]
pub enum Route {
    /// `GET /`: liveness probe, no state access.
    Index,
    /// `GET /user`: read the stored credentials.
    GetUser,
    /// `POST /user`: replace the stored credentials.
    SetUser,
    /// `GET /login`: run the authentication protocol now.
    Login,
    /// `GET /exit`: wind the agent down.
    Exit,
    /// `GET /logout`: call the portal's logout endpoint.
    Logout,
    /// Anything else.
    NotFound,
}

/// Which route a method and path hit.
pub open spec fn spec_route_of(method: Seq<char>, path: Seq<char>) -> Route {
    if method == "GET"@ && path == "/"@ {
        Route::Index
    } else if method == "GET"@ && path == "/user"@ {
        Route::GetUser
    } else if method == "POST"@ && path == "/user"@ {
        Route::SetUser
    } else if method == "GET"@ && path == "/login"@ {
        Route::Login
    } else if method == "GET"@ && path == "/exit"@ {
        Route::Exit
    } else if method == "GET"@ && path == "/logout"@ {
        Route::Logout
    } else {
        Route::NotFound
    }
}

/// Builder of the control plane's one-field JSON envelope.
pub struct JsonResponse;

impl JsonResponse {
    /// The body of every status reply: a single `msg` entry carrying a
    /// human-readable message, ready to be serialized as JSON.
    pub fn crate_response_map(msg: &str) -> (r: Vec<(String, String)>)
        ensures
            r.deep_view() == seq![("msg"@, msg@)],
    {
        let mut v: Vec<(String, String)> = Vec::new();
        v.push((String::from_str("msg"), String::from_str(msg)));
        proof {
            assert(v.deep_view() =~~= seq![("msg"@, msg@)]);
        }
        v
    }
}

/// `a` holds the same credentials as `b`.
pub open spec fn same_user(a: UserInfo, b: UserInfo) -> bool {
    &&& a.id@ == b.id@
    &&& a.password@ == b.password@
    &&& a.suffix == b.suffix
}

/// The state `handle_set_user_info` leaves: the credentials replaced,
/// everything else kept.
pub open spec fn spec_set_user_state(s: AppInfo, user: UserInfo) -> AppInfo {
    AppInfo {
        config: crate::config::Config { user: Some(user), ..s.config },
        ..s
    }
}

/// The state `handle_exit` leaves: stopped, everything else kept.
pub open spec fn spec_exit_state(s: AppInfo) -> AppInfo {
    AppInfo { running: false, ..s }
}

/// The control plane's decision core.  The transport parses requests into
/// plain values, calls one handler under the state's write or read lock,
/// and serializes what comes back.
pub struct Server;

impl Server {
    /// Dispatch a request line.
    pub fn route_of(method: &str, path: &str) -> (r: Route)
        ensures
            r == spec_route_of(method@, path@),
    {
        if str_eq(method, "GET") {
            if str_eq(path, "/") {
                Route::Index
            } else if str_eq(path, "/user") {
                Route::GetUser
            } else if str_eq(path, "/login") {
                Route::Login
            } else if str_eq(path, "/exit") {
                Route::Exit
            } else if str_eq(path, "/logout") {
                Route::Logout
            } else {
                Route::NotFound
            }
        } else if str_eq(method, "POST") && str_eq(path, "/user") {
            Route::SetUser
        } else {
            Route::NotFound
        }
    }

    /// The liveness text of `GET /`.
    pub fn handle_index() -> (r: String)
        ensures
            r@ == "hello from htu-net daemon"@,
    {
        String::from_str("hello from htu-net daemon")
    }

    /// `GET /user`: the stored credentials, or nothing (the transport
    /// serializes nothing as the empty object).
    pub fn handle_get_user_info(conf: &AppInfo) -> (r: Option<UserInfo>)
        ensures
            r is Some <==> conf.config.user is Some,
            r matches Some(u) ==> (conf.config.user matches Some(v) && same_user(u, v)),
    {
        match &conf.config.user {
            Some(u) => Some(
                UserInfo {
                    id: u.id.clone(),
                    password: u.password.clone(),
                    suffix: u.suffix,
                },
            ),
            None => None,
        }
    }

    /// `POST /user` with a body that parsed: replace the credentials and
    /// leave the rest of the state alone.  (A body that did not parse
    /// never reaches this point: the transport answers with a client
    /// error and the state stays untouched.)
    pub fn handle_set_user_info(conf: &mut AppInfo, user: UserInfo)
        ensures
            *final(conf) == spec_set_user_state(*old(conf), user),
    {
        conf.config.set_user(user);
    }

    /// `GET /exit`: ask every loop to wind down.  Idempotent.
    pub fn handle_exit(conf: &mut AppInfo)
        ensures
            *final(conf) == spec_exit_state(*old(conf)),
    {
        conf.stop();
    }

    /// `GET /logout`: the base URL to call, the cached logout root or the
    /// portal's fixed default.
    pub fn logout_target(conf: &AppInfo) -> (r: String)
        ensures
            conf.config.logout_url_base matches Some(b) ==> r@ == b@,
            conf.config.logout_url_base is None ==> r@ == "http://10.101.2.205"@,
    {
        match &conf.config.logout_url_base {
            Some(b) => b.clone(),
            None => String::from_str("http://10.101.2.205"),
        }
    }

    /// Whether the accept loop takes another turn: exactly while the
    /// shared state says the agent runs.
    pub fn accept_loop_continues(conf: &AppInfo) -> (r: bool)
        ensures
            r == conf.running,
    {
        conf.running()
    }
}

/// Law: credentials round-trip through the control plane.  After
/// `POST /user` stored `user`, `GET /user` returns exactly those
/// credentials, and storing the same credentials again changes nothing:
/// the second `POST` leaves the state the first one made.
pub proof fn lemma_user_round_trip(s: AppInfo, user: UserInfo)
    ensures
        spec_set_user_state(s, user).config.user == Some(user),
        spec_set_user_state(spec_set_user_state(s, user), user) == spec_set_user_state(s, user),
        spec_set_user_state(s, user).running == s.running,
{
}

} // verus!
