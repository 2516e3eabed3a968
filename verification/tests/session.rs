use htu_toolbox::operator::Operator;
use htu_toolbox::session::AuthRequest;
use htu_toolbox::Error;

#[test]
fn session_splits_redirect_into_base_and_params() {
    let req = AuthRequest::from_redirect_url(b"http://10.2.3.4:8080/login?a=1&b=2").unwrap();
    assert_eq!(req.base_url, b"http://10.2.3.4:8080".to_vec());
    assert_eq!(
        req.params,
        vec![(b"a".to_vec(), b"1".to_vec()), (b"b".to_vec(), b"2".to_vec())]
    );
}

#[test]
fn missing_port_defaults_to_80() {
    let req = AuthRequest::from_redirect_url(b"http://10.2.3.4/login?x=y").unwrap();
    assert_eq!(req.base_url, b"http://10.2.3.4:80".to_vec());
    assert_eq!(req.params, vec![(b"x".to_vec(), b"y".to_vec())]);
}

#[test]
fn a_url_without_query_yields_no_params() {
    let req = AuthRequest::from_redirect_url(b"http://portal.example:8080/").unwrap();
    assert_eq!(req.base_url, b"http://portal.example:8080".to_vec());
    assert!(req.params.is_empty());
}

#[test]
fn query_params_come_back_decoded() {
    let req = AuthRequest::from_redirect_url(b"http://h/login?a=%41+b&c%20d=2").unwrap();
    assert_eq!(
        req.params,
        vec![(b"a".to_vec(), b"A b".to_vec()), (b"c d".to_vec(), b"2".to_vec())]
    );
}

#[test]
fn a_malformed_redirect_is_rejected() {
    let err = AuthRequest::from_redirect_url(b"not a url at all").unwrap_err();
    assert_eq!(err, Error::UrlParse);
}

#[test]
fn a_redirect_without_host_is_rejected() {
    let err = AuthRequest::from_redirect_url(b"mailto:someone@example.com").unwrap_err();
    assert_eq!(err, Error::UrlParse);
}

#[test]
fn quick_auth_url_appends_params_then_credentials() {
    let req = AuthRequest {
        base_url: b"http://host".to_vec(),
        params: vec![(b"a".to_vec(), b"1".to_vec())],
    };
    let url = req.quick_auth_url(b"2021001", b"p", Operator::Mobie);
    assert_eq!(
        url,
        b"http://host/quickauth.do?a=1&userid=2021001%40yd&passwd=p".to_vec()
    );
}

#[test]
fn quick_auth_url_with_no_captured_params() {
    let req = AuthRequest { base_url: b"http://h:80".to_vec(), params: Vec::new() };
    let url = req.quick_auth_url(b"id1", b"pw", Operator::Unicom);
    assert_eq!(url, b"http://h:80/quickauth.do?userid=id1%40lt&passwd=pw".to_vec());
}

#[test]
fn quick_auth_url_form_encodes_credentials() {
    let req = AuthRequest { base_url: b"http://h".to_vec(), params: Vec::new() };
    let url = req.quick_auth_url(b"a b", b"p/w\xff", Operator::Telecom);
    assert_eq!(
        url,
        b"http://h/quickauth.do?userid=a+b%40dx&passwd=p%2Fw%FF".to_vec()
    );
}

#[test]
fn create_builds_the_session_from_a_gateway_page() {
    let page: &[u8] = b"<a href=\"http://10.2.3.4:8080/login?a=1&b=2&url=\">go</a>";
    let req = AuthRequest::create(page).unwrap();
    assert_eq!(req.base_url, b"http://10.2.3.4:8080".to_vec());
    assert_eq!(
        req.params,
        vec![(b"a".to_vec(), b"1".to_vec()), (b"b".to_vec(), b"2".to_vec())]
    );
}

#[test]
fn create_reports_a_format_error_with_the_page_attached() {
    let page: &[u8] = b"nothing to see";
    assert_eq!(
        AuthRequest::create(page).unwrap_err(),
        Error::InvalidIndexContent(page.to_vec())
    );
}
