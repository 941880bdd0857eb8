use xzmu_login::bootstrap::bootstrap_state;
use xzmu_login::login::{build_login_url, normalize_mac};
use xzmu_login::model::{XZMUAccount, XZMUNetConfig, XzmuError};
use xzmu_login::portal::{extract_login_url, internet_reachable};
use xzmu_login::session::{parse_login_url, query_lookup, session_from_query};

fn config(ip: &str, mac: &str, ac_ip: &str, ac_name: &str) -> XZMUNetConfig {
    XZMUNetConfig {
        wlan_user_ip: ip.to_string(),
        wlan_user_mac: mac.to_string(),
        wlan_ac_ip: ac_ip.to_string(),
        wlan_ac_name: ac_name.to_string(),
    }
}

fn account(username: &str, password: &str) -> XZMUAccount {
    XZMUAccount { username: username.to_string(), password: password.to_string() }
}

const PROBE_PAGE: &str = "<html><script>top.self.location.href=\"http://10.1.0.212?wlanusermac=AA-BB-CC-DD-EE-FF&wlanuserip=10.0.0.5&wlanacip=10.0.0.1&wlanacname=gw1\"</script></html>";

#[test]
fn complete_query_extracts_values_verbatim() {
    let r = parse_login_url("http://x/?wlanuserip=10.0.0.5&wlanusermac=AA-BB-CC-DD-EE-FF&wlanacip=10.0.0.1&wlanacname=gw1");
    assert_eq!(r, Ok(config("10.0.0.5", "AA-BB-CC-DD-EE-FF", "10.0.0.1", "gw1")));
}

#[test]
fn query_order_and_extra_keys_do_not_matter() {
    let r = parse_login_url("http://10.1.0.212/?a=1&wlanacname=gw1&wlanacip=10.0.0.1&b=2&wlanusermac=m&wlanuserip=ip");
    assert_eq!(r, Ok(config("ip", "m", "10.0.0.1", "gw1")));
}

#[test]
fn query_values_are_percent_decoded() {
    let r = parse_login_url("http://x/?wlanuserip=10.0.0.5&wlanusermac=AA%2DBB&wlanacip=10.0.0.1&wlanacname=gw%201");
    assert_eq!(r, Ok(config("10.0.0.5", "AA-BB", "10.0.0.1", "gw 1")));
}

#[test]
fn missing_client_ip_is_named() {
    let r = parse_login_url("http://x/?wlanusermac=m&wlanacip=a&wlanacname=n");
    assert_eq!(r, Err(XzmuError::MissingParameter("wlanuserip".to_string())));
}

#[test]
fn missing_client_mac_is_named() {
    let r = parse_login_url("http://x/?wlanuserip=i&wlanacip=a&wlanacname=n");
    assert_eq!(r, Err(XzmuError::MissingParameter("wlanusermac".to_string())));
}

#[test]
fn missing_gateway_ip_is_named() {
    let r = parse_login_url("http://x/?wlanuserip=i&wlanusermac=m&wlanacname=n");
    assert_eq!(r, Err(XzmuError::MissingParameter("wlanacip".to_string())));
}

#[test]
fn missing_gateway_name_is_named() {
    let r = parse_login_url("http://x/?wlanuserip=i&wlanusermac=m&wlanacip=a");
    assert_eq!(r, Err(XzmuError::MissingParameter("wlanacname".to_string())));
}

#[test]
fn keys_are_case_sensitive() {
    let r = parse_login_url("http://x/?WLANUSERIP=i&wlanusermac=m&wlanacip=a&wlanacname=n");
    assert_eq!(r, Err(XzmuError::MissingParameter("wlanuserip".to_string())));
}

#[test]
fn unparseable_url_is_malformed() {
    let r = parse_login_url("not a url");
    assert!(matches!(r, Err(XzmuError::MalformedUrl(_))));
}

#[test]
fn empty_url_is_malformed() {
    assert!(matches!(parse_login_url(""), Err(XzmuError::MalformedUrl(_))));
}

#[test]
fn last_occurrence_of_a_key_wins() {
    let pairs = vec![
        ("k".to_string(), "first".to_string()),
        ("other".to_string(), "x".to_string()),
        ("k".to_string(), "second".to_string()),
    ];
    assert_eq!(query_lookup(&pairs, "k"), Some("second".to_string()));
    assert_eq!(query_lookup(&pairs, "absent"), None);
    assert_eq!(query_lookup(&Vec::new(), "k"), None);
}

#[test]
fn session_from_query_pairs() {
    let pairs = vec![
        ("wlanacname".to_string(), "gw1".to_string()),
        ("wlanuserip".to_string(), "10.0.0.5".to_string()),
        ("wlanacip".to_string(), "10.0.0.1".to_string()),
        ("wlanusermac".to_string(), "AA".to_string()),
    ];
    assert_eq!(session_from_query(&pairs), Ok(config("10.0.0.5", "AA", "10.0.0.1", "gw1")));
    assert_eq!(
        session_from_query(&pairs[1..].to_vec()),
        Err(XzmuError::MissingParameter("wlanacname".to_string()))
    );
}

#[test]
fn page_without_marker_is_not_captive() {
    let body = "<html>location.href=\"http://www.163.com/\"</html>";
    assert_eq!(extract_login_url(body), Err(XzmuError::NotCaptive));
    assert_eq!(extract_login_url(""), Err(XzmuError::NotCaptive));
}

#[test]
fn page_with_marker_but_no_assignment_lacks_redirect() {
    let body = "<a href=\"http://10.1.0.212?wlanusermac=AA\">login</a>";
    assert_eq!(extract_login_url(body), Err(XzmuError::RedirectNotFound));
}

#[test]
fn redirect_target_is_extracted() {
    assert_eq!(
        extract_login_url(PROBE_PAGE),
        Ok("http://10.1.0.212?wlanusermac=AA-BB-CC-DD-EE-FF&wlanuserip=10.0.0.5&wlanacip=10.0.0.1&wlanacname=gw1".to_string())
    );
}

#[test]
fn first_redirect_assignment_wins() {
    let body = "http://10.1.0.212?wlanusermac= location.href=\"one\" location.href=\"two\"";
    assert_eq!(extract_login_url(body), Ok("one".to_string()));
}

#[test]
fn mac_separators_are_removed() {
    assert_eq!(normalize_mac("AA-BB-CC-DD-EE-FF"), "AABBCCDDEEFF");
    assert_eq!(normalize_mac("AABBCCDDEEFF"), "AABBCCDDEEFF");
    assert_eq!(normalize_mac(""), "");
    assert_eq!(normalize_mac("--"), "");
}

#[test]
fn login_url_carries_normalized_mac() {
    let url = build_login_url(&account("u", "p"), &config("10.0.0.5", "AA-BB-CC-DD-EE-FF", "10.0.0.1", "gw1"));
    assert!(url.contains("&wlan_user_mac=AABBCCDDEEFF&"));
    assert!(!url.contains("AA-BB"));
}

#[test]
fn login_url_is_composed_exactly() {
    let url = build_login_url(&account("2021001", "secret"), &config("10.0.0.5", "AA-BB-CC-DD-EE-FF", "10.0.0.1", "gw1"));
    assert_eq!(
        url,
        "http://10.1.0.212:801/eportal/portal/login?callback=dr1003&login_method=1&user_account=,0,2021001&user_password=secret&wlan_user_ip=10.0.0.5&wlan_user_ipv6=&wlan_user_mac=AABBCCDDEEFF&wlan_ac_ip=10.0.0.1&wlan_ac_name=gw1&jsVersion=4.2&terminal_type=1&lang=zh-cn&v=2833&lang=zh"
    );
}

#[test]
fn probe_page_leads_to_session_parameters() {
    let body = "...top.self.location.href=\"http://x/?wlanuserip=10.0.0.5&wlanusermac=AA-BB-CC-DD-EE-FF&wlanacip=10.0.0.1&wlanacname=gw1\"... http://10.1.0.212?wlanusermac=";
    let url = extract_login_url(body).unwrap();
    assert_eq!(
        parse_login_url(&url),
        Ok(config("10.0.0.5", "AA-BB-CC-DD-EE-FF", "10.0.0.1", "gw1"))
    );
}

#[test]
fn bootstrap_combines_account_and_session() {
    let state = bootstrap_state(Some(account("u", "p")), Ok(PROBE_PAGE.to_string())).unwrap();
    assert_eq!(state.account, Some(account("u", "p")));
    assert_eq!(state.config, Some(config("10.0.0.5", "AA-BB-CC-DD-EE-FF", "10.0.0.1", "gw1")));
}

#[test]
fn bootstrap_without_account() {
    let state = bootstrap_state(None, Ok(PROBE_PAGE.to_string())).unwrap();
    assert_eq!(state.account, None);
    assert!(state.config.is_some());
}

#[test]
fn bootstrap_passes_probe_failure_on() {
    let e = XzmuError::ProbeFailed("timed out".to_string());
    assert_eq!(bootstrap_state(Some(account("u", "p")), Err(e.clone())), Err(e));
}

#[test]
fn bootstrap_fails_when_not_captive() {
    assert_eq!(bootstrap_state(None, Ok("<html></html>".to_string())), Err(XzmuError::NotCaptive));
}

#[test]
fn bootstrap_fails_on_incomplete_redirect() {
    let body = "location.href=\"http://10.1.0.212?wlanusermac=AA&wlanuserip=1\"";
    assert_eq!(
        bootstrap_state(None, Ok(body.to_string())),
        Err(XzmuError::MissingParameter("wlanacip".to_string()))
    );
}

#[test]
fn intercepted_page_is_not_internet() {
    assert!(!internet_reachable(Some("<script>location.href=\"http://10.1.0.212/a\"</script>")));
}

#[test]
fn real_page_is_internet() {
    assert!(internet_reachable(Some("<html>163</html>")));
    assert!(internet_reachable(Some("")));
}

#[test]
fn failed_request_is_not_internet() {
    assert!(!internet_reachable(None));
}

#[test]
fn login_values_cannot_inject_fields() {
    let url = build_login_url(&account("a&x=1", "p#q%r+s"), &config("10.0.0.5", "AA-BB", "10.0.0.1", "gw 1"));
    assert!(url.contains("&user_account=,0,a%26x%3D1&user_password=p%23q%25r%2Bs&wlan_user_ip="));
    assert!(url.contains("&wlan_ac_name=gw+1&jsVersion="));
}

#[test]
fn login_values_encode_utf8_bytes() {
    let url = build_login_url(&account("\u{5F20}", "p"), &config("i", "m", "a", "n"));
    assert!(url.contains("user_account=,0,%E5%BC%A0&user_password=p&"));
}

#[test]
fn redirect_value_ends_on_its_line() {
    let body = "http://10.1.0.212?wlanusermac= location.href=\"a\nb\" location.href=\"ok\"";
    assert_eq!(extract_login_url(body), Ok("ok".to_string()));
}

#[test]
fn empty_redirect_value_is_captured() {
    let body = "http://10.1.0.212?wlanusermac= location.href=\"\"";
    assert_eq!(extract_login_url(body), Ok(String::new()));
}
