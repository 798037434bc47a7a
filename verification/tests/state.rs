use htu_net_login::auth::{AuthError, Suffix, UserInfo};
use htu_net_login::component::ComponentInfo;
use htu_net_login::config::{apply_watcher_reload, watcher_event_applies, AppInfo, Config};
use htu_net_login::daemon::{
    apply_login_urls, attempt_follow_up, body_indicates_captive, login_poll_decision, LoopStep,
};
use htu_net_login::data;
use htu_net_login::protocol::LoginUrls;
use htu_net_login::serve::{JsonResponse, Route, Server};

fn fresh_state() -> AppInfo {
    AppInfo::new(Config::default(), "/tmp/config.json".to_string())
}

fn test_user() -> UserInfo {
    UserInfo::new("u1".to_string(), "pw".to_string(), Suffix::ChinaUnicom)
}

#[test]
fn default_config_is_empty() {
    let c = Config::default();
    assert!(c.user().is_none());
    assert!(c.last_url().is_none());
    assert!(c.logout_url_base().is_none());
}

#[test]
fn config_setters_and_getters() {
    let mut c = Config::default();
    c.set_user(test_user());
    c.set_last_url("http://e/i.jsp?a=1".to_string());
    c.set_logout_url_base("http://e".to_string());
    assert_eq!(c.user().unwrap().id, "u1");
    assert_eq!(c.last_url().unwrap(), "http://e/i.jsp?a=1");
    assert_eq!(c.logout_url_base().unwrap(), "http://e");
}

#[test]
fn new_state_runs_until_stopped() {
    let mut s = fresh_state();
    assert!(s.running());
    s.stop();
    assert!(!s.running());
    s.stop();
    assert!(!s.running());
}

#[test]
fn watcher_reload_replaces_wholesale() {
    let mut s = fresh_state();
    s.config.set_user(test_user());
    let replacement = Config::default();
    apply_watcher_reload(&mut s, Some(replacement));
    assert!(s.config.user().is_none());
}

#[test]
fn watcher_reload_keeps_state_on_parse_failure() {
    let mut s = fresh_state();
    s.config.set_user(test_user());
    apply_watcher_reload(&mut s, None);
    assert_eq!(s.config.user().unwrap().id, "u1");
}

#[test]
fn watcher_event_filter() {
    let paths = vec!["/etc/other".to_string(), "/tmp/config.json".to_string()];
    assert!(watcher_event_applies(true, &paths, "/tmp/config.json"));
    assert!(!watcher_event_applies(false, &paths, "/tmp/config.json"));
    assert!(!watcher_event_applies(true, &paths, "/tmp/elsewhere.json"));
}

#[test]
fn routes_dispatch() {
    assert_eq!(Server::route_of("GET", "/"), Route::Index);
    assert_eq!(Server::route_of("GET", "/user"), Route::GetUser);
    assert_eq!(Server::route_of("POST", "/user"), Route::SetUser);
    assert_eq!(Server::route_of("GET", "/login"), Route::Login);
    assert_eq!(Server::route_of("GET", "/exit"), Route::Exit);
    assert_eq!(Server::route_of("GET", "/logout"), Route::Logout);
    assert_eq!(Server::route_of("GET", "/nope"), Route::NotFound);
    assert_eq!(Server::route_of("POST", "/login"), Route::NotFound);
}

#[test]
fn set_then_get_round_trips() {
    let mut s = fresh_state();
    assert!(Server::handle_get_user_info(&s).is_none());
    Server::handle_set_user_info(&mut s, test_user());
    let got = Server::handle_get_user_info(&s).unwrap();
    assert_eq!(got.id, "u1");
    assert_eq!(got.password, "pw");
    assert_eq!(got.suffix, Suffix::ChinaUnicom);
    // Setting the same credentials again changes nothing.
    Server::handle_set_user_info(&mut s, test_user());
    let again = Server::handle_get_user_info(&s).unwrap();
    assert_eq!(again.id, "u1");
    assert_eq!(again.password, "pw");
    assert_eq!(again.suffix, Suffix::ChinaUnicom);
}

#[test]
fn exit_stops_both_loops_within_one_poll() {
    let mut s = fresh_state();
    assert!(Server::accept_loop_continues(&s));
    assert_eq!(login_poll_decision(s.running(), true, true), LoopStep::Attempt);
    Server::handle_exit(&mut s);
    assert!(!Server::accept_loop_continues(&s));
    assert_eq!(login_poll_decision(s.running(), true, true), LoopStep::Exit);
    assert_eq!(login_poll_decision(s.running(), false, false), LoopStep::Exit);
}

#[test]
fn logout_target_prefers_cached_base() {
    let mut s = fresh_state();
    assert_eq!(Server::logout_target(&s), "http://10.101.2.205");
    s.config.set_logout_url_base("http://10.9.8.7".to_string());
    assert_eq!(Server::logout_target(&s), "http://10.9.8.7");
}

#[test]
fn response_envelope_single_msg_entry() {
    let v = JsonResponse::crate_response_map("success");
    assert_eq!(v, vec![("msg".to_string(), "success".to_string())]);
}

#[test]
fn index_greeting() {
    assert_eq!(Server::handle_index(), "hello from htu-net daemon");
}

#[test]
fn captive_marker_detection() {
    let captive = "<script>location.replace(\"http://10.101.2.205/index.jsp?a=1\")</script>";
    assert!(body_indicates_captive(captive));
    assert!(!body_indicates_captive("<html>all fine</html>"));
}

#[test]
fn poll_decision_cases() {
    assert_eq!(login_poll_decision(false, true, true), LoopStep::Exit);
    assert_eq!(login_poll_decision(true, false, true), LoopStep::Idle);
    assert_eq!(login_poll_decision(true, true, false), LoopStep::Idle);
    assert_eq!(login_poll_decision(true, true, true), LoopStep::Attempt);
}

#[test]
fn follow_up_success_resets_and_persists() {
    let outcome: Result<LoginUrls, AuthError> = Ok(LoginUrls {
        last_url: "http://e/i.jsp?a=1".to_string(),
        logout_url_base: "http://e".to_string(),
    });
    let f = attempt_follow_up(false, &outcome);
    assert!(f.success && f.persist && !f.notify_failure && !f.back_off);
}

#[test]
fn follow_up_notifies_only_on_first_rejection() {
    let rejected: Result<LoginUrls, AuthError> =
        Err(AuthError::AuthFailed { msg: "bad pass".to_string() });
    let first = attempt_follow_up(true, &rejected);
    assert!(!first.success && first.notify_failure && first.back_off && !first.persist);
    let repeat = attempt_follow_up(first.success, &rejected);
    assert!(!repeat.success && !repeat.notify_failure && repeat.back_off);
}

#[test]
fn follow_up_transient_errors_stay_quiet() {
    let transport: Result<LoginUrls, AuthError> =
        Err(AuthError::ReqError("timeout".to_string()));
    let f = attempt_follow_up(true, &transport);
    assert!(f.success && !f.notify_failure && f.back_off && !f.persist);
    let malformed: Result<LoginUrls, AuthError> =
        Err(AuthError::InvalidResponse("<html>".to_string()));
    let g = attempt_follow_up(false, &malformed);
    assert!(!g.success && !g.notify_failure && g.back_off);
}

#[test]
fn successful_login_updates_cached_urls() {
    let mut s = fresh_state();
    s.config.set_user(test_user());
    apply_login_urls(
        &mut s,
        LoginUrls {
            last_url: "http://e/i.jsp?a=1".to_string(),
            logout_url_base: "http://e".to_string(),
        },
    );
    assert_eq!(s.config.last_url().unwrap(), "http://e/i.jsp?a=1");
    assert_eq!(s.config.logout_url_base().unwrap(), "http://e");
    assert_eq!(s.config.user().unwrap().id, "u1");
    assert!(s.running());
}

#[test]
fn auth_error_descriptions() {
    assert_eq!(
        AuthError::AuthFailed { msg: "no".to_string() }.describe(),
        "Authentication Failed: no"
    );
    assert_eq!(AuthError::Authed.describe(), "Already Authenticated");
    assert_eq!(AuthError::ReqError("t".to_string()).describe(), "Request Error: t");
    assert_eq!(
        AuthError::InvalidResponse("b".to_string()).describe(),
        "Invalid Response: b"
    );
}

#[test]
fn front_end_suffix_round_trip() {
    for s in [
        data::Suffix::ChinaMobile,
        data::Suffix::ChinaUnicom,
        data::Suffix::ChinaTelecom,
        data::Suffix::Local,
    ] {
        assert_eq!(data::Suffix::parse_token(s.to_str()), Some(s));
    }
    assert_eq!(data::Suffix::parse_token("@zz"), None);
    assert_eq!(data::Suffix::default(), data::Suffix::Local);
}

#[test]
fn front_end_defaults() {
    let u = data::UserInfo::default();
    assert_eq!(u.id, "");
    assert_eq!(u.password, "");
    assert_eq!(u.suffix, data::Suffix::Local);
    let c = ComponentInfo::default();
    assert!(!c.mouse_enabled && !c.key_enabled);
    let all = ComponentInfo::all_enabled();
    assert!(all.mouse_enabled && all.key_enabled);
}

#[test]
fn front_end_error_description() {
    assert_eq!(
        data::AppError::StdIo("gone".to_string()).describe(),
        "std io error: gone"
    );
}
