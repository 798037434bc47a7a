use htu_net_login::auth::{
    build_primary_form, build_quickauth_url, get_js_auth_info, get_js_url, get_root_url,
    get_variable_value, parse_index_page, strip_port_root, AuthInfo, Suffix, UserInfo,
};

#[test]
fn root_of_plain_url() {
    let r = get_root_url("http://10.101.2.205/index.jsp?a=1").unwrap();
    assert_eq!(r, "http://10.101.2.205");
}

#[test]
fn root_of_url_with_port() {
    let r = get_root_url("http://10.101.2.205:8080/index.jsp?a=1").unwrap();
    assert_eq!(r, "http://10.101.2.205:8080");
}

#[test]
fn root_needs_scheme_separator() {
    assert!(get_root_url("10.101.2.205/index.jsp").is_none());
}

#[test]
fn root_needs_slash_after_host() {
    assert!(get_root_url("http://10.101.2.205").is_none());
}

#[test]
fn parse_index_page_recovers_parts() {
    let html = "<html><script>location.replace(\"http://10.101.2.205:8080/index.jsp?wlanuserip=1.2.3.4&name=x%20y\")</script></html>";
    let iu = parse_index_page(html).unwrap();
    assert_eq!(iu.url, "http://10.101.2.205:8080/index.jsp?wlanuserip=1.2.3.4&name=x%20y");
    assert_eq!(iu.root, "http://10.101.2.205:8080");
    assert_eq!(
        iu.args,
        vec![
            ("wlanuserip".to_string(), "1.2.3.4".to_string()),
            ("name".to_string(), "x y".to_string()),
        ]
    );
}

#[test]
fn parse_index_page_round_trips() {
    let html = "a=\"http://h.o.s.t/p/q.jsp?k=v\" trailing";
    let iu = parse_index_page(html).unwrap();
    let rest = &iu.url[iu.root.len()..];
    assert_eq!(format!("{}{}", iu.root, rest), iu.url);
    assert_eq!(rest, "/p/q.jsp?k=v");
}

#[test]
fn parse_index_page_needs_quotes() {
    assert!(parse_index_page("no quotes at all").is_none());
    assert!(parse_index_page("only \"one quote").is_none());
}

#[test]
fn parse_index_page_needs_query() {
    assert!(parse_index_page("x=\"http://10.101.2.205/index.jsp\"").is_none());
}

#[test]
fn js_url_from_script_tag() {
    let html = "<head><script type=\"text/javascript\" src=\"/js/common.js?v=21\"></script></head>";
    assert_eq!(get_js_url(html).unwrap(), "/js/common.js");
}

#[test]
fn js_url_absent_without_common_js() {
    let html = "<script src=\"/js/other.js\"></script>";
    assert!(get_js_url(html).is_none());
}

#[test]
fn variable_value_single_quotes() {
    let js = "var authApiUrl = 'http://1.2.3.4:8080/auth';";
    assert_eq!(get_variable_value(js, "authApiUrl").unwrap(), "http://1.2.3.4:8080/auth");
}

#[test]
fn variable_value_double_quotes_and_whitespace() {
    let js = "x = 1;\nauthSchoolCodes =   \t \"1001\"  ;rest";
    assert_eq!(get_variable_value(js, "authSchoolCodes").unwrap(), "1001");
}

#[test]
fn variable_value_missing_semicolon() {
    assert!(get_variable_value("authApiUrl = 'x'", "authApiUrl").is_none());
}

#[test]
fn variable_value_unquoted_rejected() {
    assert!(get_variable_value("authApiUrl = 42;", "authApiUrl").is_none());
}

#[test]
fn strip_port_root_removes_port() {
    assert_eq!(strip_port_root("http://1.2.3.4:8080/auth").unwrap(), "http://1.2.3.4");
    assert_eq!(strip_port_root("http://1.2.3.4/auth").unwrap(), "http://1.2.3.4");
}

#[test]
fn auth_info_from_script() {
    let js = "authApiUrl = 'http://10.101.2.205:8080/authapi';\nauthSchoolCodes = \"77\";";
    let ai = get_js_auth_info(js).unwrap();
    assert_eq!(ai.auth_url, "http://10.101.2.205:8080/authapi");
    assert_eq!(ai.logout_url_root, "http://10.101.2.205");
    assert_eq!(ai.school_codes, "77");
}

#[test]
fn auth_info_needs_both_variables() {
    assert!(get_js_auth_info("authApiUrl = 'http://a/b';").is_none());
    assert!(get_js_auth_info("authSchoolCodes = '1';").is_none());
}

#[test]
fn suffix_tokens() {
    assert_eq!(Suffix::ChinaMobie.to_str(), "@yd");
    assert_eq!(Suffix::ChinaUnicom.to_str(), "@lt");
    assert_eq!(Suffix::ChinaTelecom.to_str(), "@dx");
    assert_eq!(Suffix::Local.to_str(), "@hsd");
}

#[test]
fn primary_form_fields() {
    let ai = AuthInfo {
        logout_url_root: "http://h".to_string(),
        auth_url: "http://h:8080/auth".to_string(),
        school_codes: "77".to_string(),
    };
    let user = UserInfo::new("u1".to_string(), "pw".to_string(), Suffix::ChinaTelecom);
    let form = build_primary_form(&ai, &user);
    assert_eq!(
        form,
        vec![
            ("campusCode".to_string(), "77".to_string()),
            ("username".to_string(), "u1".to_string()),
            ("password".to_string(), "pw".to_string()),
            ("operatorSuffix".to_string(), "@dx".to_string()),
        ]
    );
}

#[test]
fn quickauth_url_encodes_pairs() {
    let html = "r=\"http://10.101.2.205/index.jsp?wlanuserip=1.2.3.4\"";
    let iu = parse_index_page(html).unwrap();
    let user = UserInfo::new("u1".to_string(), "p w".to_string(), Suffix::ChinaMobie);
    let url = build_quickauth_url(&iu, &user);
    assert_eq!(
        url,
        "http://10.101.2.205/quickauth.do?wlanuserip=1.2.3.4&userid=u1%40yd&passwd=p+w"
    );
}
