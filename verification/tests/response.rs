use htu_toolbox::response::{
    parse_auth_response, parse_logout_response, AuthResponse, LogoutResponse,
};
use htu_toolbox::Error;

#[test]
fn auth_code_zero_is_success() {
    let ok = AuthResponse { code: "0".to_string(), message: None };
    assert!(ok.success());
}

#[test]
fn any_other_auth_code_is_failure() {
    let r1 = AuthResponse { code: "1".to_string(), message: Some("denied".to_string()) };
    let r2 = AuthResponse { code: "00".to_string(), message: None };
    let r3 = AuthResponse { code: String::new(), message: None };
    assert!(!r1.success());
    assert!(!r2.success());
    assert!(!r3.success());
}

#[test]
fn logout_result_one_is_success() {
    let ok = LogoutResponse { result: 1, msg: "bye".to_string() };
    assert!(ok.success());
}

#[test]
fn any_other_logout_result_is_failure() {
    assert!(!LogoutResponse { result: 0, msg: String::new() }.success());
    assert!(!LogoutResponse { result: -1, msg: String::new() }.success());
    assert!(!LogoutResponse { result: 2, msg: String::new() }.success());
}

#[test]
fn parses_an_auth_reply() {
    let resp = parse_auth_response(b"{\"code\":\"0\",\"message\":\"welcome\"}").unwrap();
    assert_eq!(resp.code, "0");
    assert_eq!(resp.message.as_deref(), Some("welcome"));
    assert!(resp.success());
}

#[test]
fn auth_reply_message_may_be_absent_or_null() {
    let absent = parse_auth_response(b"{\"code\":\"13\"}").unwrap();
    assert_eq!(absent.code, "13");
    assert_eq!(absent.message, None);
    let null = parse_auth_response(b"{\"code\":\"13\",\"message\":null}").unwrap();
    assert_eq!(null.message, None);
}

#[test]
fn auth_reply_fields_may_come_in_any_order_with_extras() {
    let resp =
        parse_auth_response(b"{\"extra\":3,\"message\":\"m\",\"code\":\"7\"}").unwrap();
    assert_eq!(resp.code, "7");
    assert_eq!(resp.message.as_deref(), Some("m"));
}

#[test]
fn an_auth_reply_that_is_not_json_is_rejected_with_the_body() {
    let body: &[u8] = b"<html>late night maintenance</html>";
    assert_eq!(parse_auth_response(body).unwrap_err(), Error::JsonParse(body.to_vec()));
}

#[test]
fn an_auth_reply_of_the_wrong_shape_is_rejected() {
    for body in [
        b"[1,2,3]".as_slice(),
        b"{\"message\":\"no code\"}".as_slice(),
        b"{\"code\":0}".as_slice(),
        b"{\"code\":\"0\",\"message\":5}".as_slice(),
    ] {
        assert_eq!(parse_auth_response(body).unwrap_err(), Error::JsonParse(body.to_vec()));
    }
}

#[test]
fn parses_a_logout_reply() {
    let resp = parse_logout_response(b"{\"result\":1,\"msg\":\"released\"}").unwrap();
    assert_eq!(resp.result, 1);
    assert_eq!(resp.msg, "released");
    assert!(resp.success());
}

#[test]
fn a_logout_reply_of_the_wrong_shape_is_rejected() {
    for body in [
        b"not json".as_slice(),
        b"{\"msg\":\"missing result\"}".as_slice(),
        b"{\"result\":\"1\",\"msg\":\"m\"}".as_slice(),
        b"{\"result\":1}".as_slice(),
        b"{\"result\":4294967296,\"msg\":\"too wide\"}".as_slice(),
        b"{\"result\":1.5,\"msg\":\"m\"}".as_slice(),
    ] {
        assert_eq!(parse_logout_response(body).unwrap_err(), Error::JsonParse(body.to_vec()));
    }
}

#[test]
fn default_replies_are_empty() {
    let a = AuthResponse::default();
    assert_eq!(a.code, "");
    assert_eq!(a.message, None);
    let l = LogoutResponse::default();
    assert_eq!(l.result, 0);
    assert_eq!(l.msg, "");
}
