use htu_toolbox::args::{Net, NetAccArgs, NetLoginArgs, OperatorArg};
use htu_toolbox::config::{Config, NetLoginAccount, NetLoginCfg, OnLaunchAction, SubCmd};
use htu_toolbox::flow::{gateway_request, logout_request};
use htu_toolbox::http::{split_http_reply, Method, Request, RequestBuilder};
use htu_toolbox::operator::Operator;

fn sample_account() -> NetLoginAccount {
    NetLoginAccount {
        id: "2021001".to_string(),
        password: "secret".to_string(),
        operator: Operator::Telecom,
    }
}

#[test]
fn a_configured_account_becomes_the_launch_command() {
    let cfg = Config {
        on_launch: OnLaunchAction::NetLogin,
        net_login: Some(NetLoginCfg { account: sample_account() }),
    };
    match cfg.into_sub_cmd() {
        Some(SubCmd::NetLogin(args)) => {
            assert_eq!(args.id.as_deref(), Some("2021001"));
            assert_eq!(args.password.as_deref(), Some("secret"));
            assert_eq!(args.operator, Some(OperatorArg::Telecom));
        },
        None => panic!("expected a command"),
    }
}

#[test]
fn a_configuration_without_account_selects_nothing() {
    let cfg = Config::default();
    assert!(cfg.into_sub_cmd().is_none());
}

#[test]
fn the_default_configuration_logs_in_on_launch() {
    let cfg = Config::default();
    assert_eq!(cfg.on_launch, OnLaunchAction::NetLogin);
    assert!(cfg.net_login.is_none());
    assert_eq!(OnLaunchAction::default(), OnLaunchAction::NetLogin);
}

#[test]
fn stored_account_converts_to_login_args() {
    let args = NetLoginArgs::from(NetLoginCfg { account: sample_account() });
    assert_eq!(args.id.as_deref(), Some("2021001"));
    assert_eq!(args.password.as_deref(), Some("secret"));
    assert_eq!(args.operator, Some(OperatorArg::Telecom));
}

#[test]
fn operator_and_argument_convert_both_ways() {
    for (op, arg) in [
        (Operator::Mobie, OperatorArg::Mobie),
        (Operator::Unicom, OperatorArg::Unicom),
        (Operator::Telecom, OperatorArg::Telecom),
    ] {
        assert_eq!(OperatorArg::from(op), arg);
        assert_eq!(Operator::from(arg), op);
    }
}

#[test]
fn net_subcommands_carry_their_arguments() {
    let args = NetAccArgs { id: None, password: None, operator: None };
    assert!(matches!(Net::Login(args.clone()), Net::Login(_)));
    assert!(matches!(Net::Logout, Net::Logout));
    assert!(matches!(Net::SetAccount(args), Net::SetAccount(_)));
}

#[test]
fn the_builder_fills_every_field() {
    let body: &[u8] = b"payload";
    let req = Request::builder("http://portal.example/loginOut")
        .method(Method::Post(body))
        .timeout(2000)
        .build();
    assert_eq!(req.url, "http://portal.example/loginOut");
    assert!(matches!(req.method, Method::Post(b) if b == body));
    assert_eq!(req.timeout_ms, Some(2000));
    assert!(!req.ignore_timeout);
}

#[test]
fn builder_and_url_convert_into_requests() {
    let req = Request::from(RequestBuilder::url("http://a").timeout(5));
    assert_eq!(req.url, "http://a");
    assert!(matches!(req.method, Method::Get));
    assert_eq!(req.timeout_ms, Some(5));
    let req = Request::from("http://b");
    assert_eq!(req.url, "http://b");
    assert!(matches!(req.method, Method::Get));
    assert_eq!(req.timeout_ms, None);
    assert!(!req.ignore_timeout);
}

#[test]
fn the_gateway_fetch_is_a_tolerant_short_get() {
    let req = gateway_request();
    assert_eq!(req.url, "http://192.168.1.1");
    assert!(matches!(req.method, Method::Get));
    assert_eq!(req.timeout_ms, Some(100));
    assert!(req.ignore_timeout);
}

#[test]
fn the_logout_call_is_a_fixed_empty_post() {
    let req = logout_request();
    assert_eq!(req.url, "http://10.101.2.205/loginOut");
    assert!(matches!(req.method, Method::Post(b) if b.is_empty()));
    assert_eq!(req.timeout_ms, Some(2000));
    assert!(!req.ignore_timeout);
}

#[test]
fn a_reply_splits_into_status_and_body() {
    let raw = b"HTTP/1.0 200 OK\r\nContent-Type: text/html\r\n\r\n<html>hi</html>".to_vec();
    let resp = split_http_reply(raw);
    assert_eq!(resp.code, 200);
    assert_eq!(resp.data, b"<html>hi</html>".to_vec());
}

#[test]
fn a_reply_without_header_keeps_everything_as_body() {
    let resp = split_http_reply(b"no header here".to_vec());
    assert_eq!(resp.code, 0);
    assert_eq!(resp.data, b"no header here".to_vec());
}

#[test]
fn a_malformed_status_counts_as_code_zero() {
    let resp = split_http_reply(b"HTTP/1.0 abc OK\r\n\r\nbody".to_vec());
    assert_eq!(resp.code, 0);
    assert_eq!(resp.data, b"body".to_vec());
    let resp = split_http_reply(b"HTTP/1.0\r\n\r\nbody".to_vec());
    assert_eq!(resp.code, 0);
    let resp = split_http_reply(b"HTTP/1.0 1234 Odd\r\n\r\nbody".to_vec());
    assert_eq!(resp.code, 0);
}

#[test]
fn the_status_is_read_from_the_first_line_only() {
    let raw = b"HTTP/1.1 404 Not Found\r\nX: 200\r\n\r\n200 inside".to_vec();
    let resp = split_http_reply(raw);
    assert_eq!(resp.code, 404);
    assert_eq!(resp.data, b"200 inside".to_vec());
}

#[test]
fn an_unset_method_builds_a_get() {
    let req = RequestBuilder::url("http://192.168.1.1").ignore_timeout().build();
    assert_eq!(req.url, "http://192.168.1.1");
    assert!(matches!(req.method, Method::Get));
    assert_eq!(req.timeout_ms, None);
    assert!(req.ignore_timeout);
    assert!(matches!(Method::default(), Method::Get));
}
