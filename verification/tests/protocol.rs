use htu_net_login::auth::{AuthError, Suffix, UserInfo};
use htu_net_login::logout::{logout_request_url, parse_result, LogoutError};
use htu_net_login::protocol::{
    classify_primary, classify_quick, interpret_primary_response, interpret_quick_response,
    protocol_start, protocol_step, ProtocolAction, ProtocolEvent, ProtocolState,
};

fn test_user() -> UserInfo {
    UserInfo::new("u1".to_string(), "pw".to_string(), Suffix::ChinaMobie)
}

#[test]
fn primary_code_one_continues() {
    assert!(interpret_primary_response("{\"code\":1}").is_ok());
}

#[test]
fn primary_other_code_is_rejection_with_msg() {
    let r = interpret_primary_response("{\"code\":2,\"msg\":\"bad pass\"}");
    match r {
        Err(AuthError::AuthFailed { msg }) => assert_eq!(msg, "bad pass"),
        other => panic!("expected AuthFailed, got {:?}", other),
    }
}

#[test]
fn primary_other_code_without_msg_is_rejection_with_empty_msg() {
    match interpret_primary_response("{\"code\":0}") {
        Err(AuthError::AuthFailed { msg }) => assert_eq!(msg, ""),
        other => panic!("expected AuthFailed, got {:?}", other),
    }
}

#[test]
fn primary_missing_code_is_malformed_not_rejection() {
    match interpret_primary_response("{\"msg\":\"x\"}") {
        Err(AuthError::InvalidResponse(b)) => assert_eq!(b, "{\"msg\":\"x\"}"),
        other => panic!("expected InvalidResponse, got {:?}", other),
    }
}

#[test]
fn primary_string_code_is_malformed() {
    assert!(matches!(
        interpret_primary_response("{\"code\":\"1\"}"),
        Err(AuthError::InvalidResponse(_))
    ));
}

#[test]
fn primary_unparsable_body_is_malformed() {
    assert!(matches!(
        interpret_primary_response("not json"),
        Err(AuthError::InvalidResponse(_))
    ));
}

#[test]
fn quick_code_zero_succeeds() {
    assert!(interpret_quick_response("{\"code\":\"0\"}").is_ok());
}

#[test]
fn quick_other_code_is_rejection_with_message() {
    match interpret_quick_response("{\"code\":\"1\",\"message\":\"x\"}") {
        Err(AuthError::AuthFailed { msg }) => assert_eq!(msg, "x"),
        other => panic!("expected AuthFailed, got {:?}", other),
    }
}

#[test]
fn quick_integer_code_is_malformed() {
    assert!(matches!(
        interpret_quick_response("{\"code\":0}"),
        Err(AuthError::InvalidResponse(_))
    ));
}

#[test]
fn classify_primary_cases() {
    assert!(classify_primary(Some(1), None, String::new()).is_ok());
    match classify_primary(Some(3), Some("no".to_string()), String::new()) {
        Err(AuthError::AuthFailed { msg }) => assert_eq!(msg, "no"),
        other => panic!("expected AuthFailed, got {:?}", other),
    }
    match classify_primary(None, Some("ignored".to_string()), "raw".to_string()) {
        Err(AuthError::InvalidResponse(b)) => assert_eq!(b, "raw"),
        other => panic!("expected InvalidResponse, got {:?}", other),
    }
}

#[test]
fn classify_quick_cases() {
    assert!(classify_quick(Some("0".to_string()), None, String::new()).is_ok());
    match classify_quick(Some("9".to_string()), Some("x".to_string()), String::new()) {
        Err(AuthError::AuthFailed { msg }) => assert_eq!(msg, "x"),
        other => panic!("expected AuthFailed, got {:?}", other),
    }
    match classify_quick(None, None, "raw".to_string()) {
        Err(AuthError::InvalidResponse(b)) => assert_eq!(b, "raw"),
        other => panic!("expected InvalidResponse, got {:?}", other),
    }
}

#[test]
fn start_with_probe() {
    let (state, action) = protocol_start(true);
    assert!(matches!(state, ProtocolState::ProbeExternal));
    assert!(matches!(action, ProtocolAction::Probe));
}

#[test]
fn start_without_probe_fetches_gateway() {
    let (state, action) = protocol_start(false);
    assert!(matches!(state, ProtocolState::FetchGateway));
    match action {
        ProtocolAction::Get { url } => assert_eq!(url, "http://192.168.0.1"),
        _ => panic!("expected Get"),
    }
}

#[test]
fn probe_success_short_circuits() {
    let (state, _) = protocol_start(true);
    let (state, action) =
        protocol_step(state, &test_user(), ProtocolEvent::ProbeResult { reachable: true });
    match state {
        ProtocolState::Done { result } => assert!(matches!(result, Err(AuthError::Authed))),
        _ => panic!("expected Done"),
    }
    assert!(matches!(action, ProtocolAction::Stop));
}

#[test]
fn full_protocol_walk() {
    let user = test_user();
    let (state, _) = protocol_start(true);

    // Probe fails: the client is captive, fetch the gateway page.
    let (state, action) =
        protocol_step(state, &user, ProtocolEvent::ProbeResult { reachable: false });
    match &action {
        ProtocolAction::Get { url } => assert_eq!(url, "http://192.168.0.1"),
        _ => panic!("expected Get"),
    }

    // Gateway page carries the redirect; next comes the entry page.
    let gateway = "t=\"http://10.101.2.205/index.jsp?wlanuserip=1.2.3.4\"".to_string();
    let (state, action) = protocol_step(state, &user, ProtocolEvent::Response { body: gateway });
    match &action {
        ProtocolAction::Get { url } => {
            assert_eq!(url, "http://10.101.2.205/index.jsp?wlanuserip=1.2.3.4")
        }
        _ => panic!("expected Get"),
    }

    // Entry page references the script.
    let entry = "<script src=\"/js/common.js?v=1\"></script>".to_string();
    let (state, action) = protocol_step(state, &user, ProtocolEvent::Response { body: entry });
    match &action {
        ProtocolAction::Get { url } => assert_eq!(url, "http://10.101.2.205/js/common.js"),
        _ => panic!("expected Get"),
    }

    // Script defines the endpoints; next comes the primary POST.
    let js = "authApiUrl = 'http://10.101.2.205:8080/auth';authSchoolCodes = '77';".to_string();
    let (state, action) = protocol_step(state, &user, ProtocolEvent::Response { body: js });
    match &action {
        ProtocolAction::PostForm { url, form } => {
            assert_eq!(url, "http://10.101.2.205:8080/auth");
            assert_eq!(
                form,
                &vec![
                    ("campusCode".to_string(), "77".to_string()),
                    ("username".to_string(), "u1".to_string()),
                    ("password".to_string(), "pw".to_string()),
                    ("operatorSuffix".to_string(), "@yd".to_string()),
                ]
            );
        }
        _ => panic!("expected PostForm"),
    }

    // Primary auth passed; next comes the quick GET.
    let (state, action) = protocol_step(
        state,
        &user,
        ProtocolEvent::Response { body: "{\"code\":1}".to_string() },
    );
    match &action {
        ProtocolAction::Get { url } => assert_eq!(
            url,
            "http://10.101.2.205/quickauth.do?wlanuserip=1.2.3.4&userid=u1%40yd&passwd=pw"
        ),
        _ => panic!("expected Get"),
    }

    // Quick auth passed: connected, with the URLs to cache.
    let (state, action) = protocol_step(
        state,
        &user,
        ProtocolEvent::Response { body: "{\"code\":\"0\"}".to_string() },
    );
    assert!(matches!(action, ProtocolAction::Stop));
    match state {
        ProtocolState::Done { result } => {
            let urls = result.unwrap();
            assert_eq!(urls.last_url, "http://10.101.2.205/index.jsp?wlanuserip=1.2.3.4");
            assert_eq!(urls.logout_url_base, "http://10.101.2.205");
        }
        _ => panic!("expected Done"),
    }
}

#[test]
fn transport_failure_ends_attempt() {
    let user = test_user();
    let (state, _) = protocol_start(false);
    let (state, action) = protocol_step(
        state,
        &user,
        ProtocolEvent::TransportFailure { detail: "connect timed out".to_string() },
    );
    assert!(matches!(action, ProtocolAction::Stop));
    match state {
        ProtocolState::Done { result } => match result {
            Err(AuthError::ReqError(d)) => assert_eq!(d, "connect timed out"),
            other => panic!("expected ReqError, got {:?}", other),
        },
        _ => panic!("expected Done"),
    }
}

#[test]
fn malformed_gateway_page_ends_attempt() {
    let user = test_user();
    let (state, _) = protocol_start(false);
    let (state, _) = protocol_step(
        state,
        &user,
        ProtocolEvent::Response { body: "nothing quoted here".to_string() },
    );
    match state {
        ProtocolState::Done { result } => {
            match result {
                Err(AuthError::InvalidResponse(b)) => assert_eq!(b, "nothing quoted here"),
                other => panic!("expected InvalidResponse, got {:?}", other),
            }
        }
        _ => panic!("expected Done"),
    }
}

#[test]
fn logout_url_appends_endpoint() {
    assert_eq!(logout_request_url("http://10.101.2.205"), "http://10.101.2.205/loginOut");
}

#[test]
fn logout_result_one_is_ok() {
    assert!(parse_result("{\"result\":1}").is_ok());
}

#[test]
fn logout_other_result_hands_reply_back() {
    match parse_result("{\"result\":0}") {
        Err(LogoutError::JSON(b)) => assert_eq!(b, "{\"result\":0}"),
        other => panic!("expected JSON error, got {:?}", other),
    }
}

#[test]
fn logout_missing_result_hands_reply_back() {
    assert!(matches!(parse_result("{}"), Err(LogoutError::JSON(_))));
}
