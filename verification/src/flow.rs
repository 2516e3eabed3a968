use vstd::prelude::*;

use crate::extract::{has_redirect, spec_redirect_url};
use crate::operator::Operator;
use crate::response::{
    auth_reply_of, logout_reply_of, opt_str_view, parse_auth_response, parse_logout_response,
    AuthResponse, LogoutResponse,
};
use crate::http::{Method, Request};
use crate::session::{
    port_or_default, spec_base_url, spec_quick_auth_url, url_host, url_params, url_port,
    url_scheme, url_well_formed, AuthRequest,
};
use crate::Error;

verus! {

/// How a login flow ended.
#[derive(Debug)]
pub enum LoginOutcome {
    /// The probe succeeded: the machine is already online and the portal was
    /// never called.
    AlreadyOnline,
    /// The portal reported success.
    LoggedIn,
    /// The portal answered, and reported failure; its code and message are
    /// surfaced.
    Rejected { code: String, message: Option<String> },
    /// A step of the flow could not be carried out.
    Failed(Error),
}

/// What the shell around the library must do next while driving a login;
/// every network call is bounded by the step that asks for it.
#[derive(Debug)]
pub enum LoginStep {
    /// Probe general connectivity and report whether it worked.
    Probe,
    /// Fetch the gateway page and hand back its body.
    Fetch,
    /// Issue a GET to this URL and hand back the reply body.
    Auth(Vec<u8>),
    /// Nothing further: the flow is over.
    Finished(LoginOutcome),
}

/// The decisions of a login run, from credentials and network events to the
/// next call. The shell performs the calls; every choice between them is
/// made here.
#[derive(Debug)]
pub struct LoginFlow {
    pub userid: Vec<u8>,
    pub passwd: Vec<u8>,
    pub operator: Operator,
}

impl LoginFlow {
    /// A login always begins with the connectivity probe.
    pub fn start(&self) -> (r: LoginStep)
        ensures
            r is Probe,
    {
        LoginStep::Probe
    }

    /// After the probe: a reachable network ends the flow at once as already
    /// online, and no portal call follows; otherwise the gateway page is
    /// fetched next.
    pub fn after_probe(&self, online: bool) -> (r: LoginStep)
        ensures
            online ==> (r matches LoginStep::Finished(o) && o is AlreadyOnline),
            !online ==> r is Fetch,
    {
        if online {
            LoginStep::Finished(LoginOutcome::AlreadyOnline)
        } else {
            LoginStep::Fetch
        }
    }

    /// After the gateway fetch: the page is scraped and the session built.
    /// Success yields the quick-auth call for these credentials; failure
    /// ends the flow with the scrape or parse error.
    pub fn after_fetch(&self, page: &[u8]) -> (r: LoginStep)
        ensures
            r is Auth <==> has_redirect(page@) && url_well_formed(spec_redirect_url(page@))
                && url_host(spec_redirect_url(page@)) is Some,
            r matches LoginStep::Auth(u) ==> (url_host(spec_redirect_url(page@)) matches Some(h)
                && u@ == spec_quick_auth_url(
                spec_base_url(
                    url_scheme(spec_redirect_url(page@)),
                    h,
                    port_or_default(url_port(spec_redirect_url(page@))),
                ),
                url_params(spec_redirect_url(page@)),
                self.userid@,
                self.passwd@,
                self.operator,
            )),
            !has_redirect(page@) ==> (r matches LoginStep::Finished(o) && o matches
                LoginOutcome::Failed(e) && e matches Error::InvalidIndexContent(raw) && raw@
                == page@),
            r is Finished ==> (r matches LoginStep::Finished(o) && o is Failed),
    {
        match AuthRequest::create(page) {
            Ok(req) => LoginStep::Auth(
                req.quick_auth_url(self.userid.as_slice(), self.passwd.as_slice(), self.operator),
            ),
            Err(e) => LoginStep::Finished(LoginOutcome::Failed(e)),
        }
    }

    /// After the auth call: the reply is parsed and judged; the flow always
    /// ends here. A reply of the expected shape ends it logged in exactly
    /// when its code is `"0"` and rejected with that reply's code and
    /// message otherwise; any other reply ends it failed with the raw body
    /// attached.
    pub fn after_auth(&self, body: &[u8]) -> (r: LoginStep)
        ensures
            r is Finished,
            auth_reply_of(body@) is None ==> (r matches LoginStep::Finished(o) && o matches
                LoginOutcome::Failed(e) && e matches Error::JsonParse(raw) && raw@ == body@),
            auth_reply_of(body@) matches Some(q) ==> (r matches LoginStep::Finished(o) && (q.0
                == "0"@ ==> o is LoggedIn) && (q.0 != "0"@ ==> (o matches
            LoginOutcome::Rejected { code, message } && code@ == q.0 && opt_str_view(message)
                == q.1))),
    {
        match parse_auth_response(body) {
            Ok(resp) => LoginStep::Finished(auth_outcome(resp)),
            Err(e) => LoginStep::Finished(LoginOutcome::Failed(e)),
        }
    }
}

/// The call the `Fetch` step stands for: a GET of the default gateway
/// address with a 100-millisecond timeout, a timeout tolerated, since a
/// hanging portal still sends the page.
pub fn gateway_request() -> (r: Request<'static>)
    ensures
        r.url@ == "http://192.168.1.1"@,
        r.method is Get,
        r.timeout_ms == Some(100u64),
        r.ignore_timeout,
{
    Request::builder("http://192.168.1.1").timeout(100).ignore_timeout().build()
}

/// The one call a logout makes: a POST with an empty body to the fixed
/// logout endpoint, with a two-second timeout.
pub fn logout_request() -> (r: Request<'static>)
    ensures
        r.url@ == "http://10.101.2.205/loginOut"@,
        (r.method matches Method::Post(b) && b@ == Seq::<u8>::empty()),
        r.timeout_ms == Some(2000u64),
        !r.ignore_timeout,
{
    let body: &'static [u8] = &[];
    Request::builder("http://10.101.2.205/loginOut").method(Method::Post(body)).timeout(
        2000,
    ).build()
}

/// The verdict on a parsed auth reply: the code `"0"` is a success, any
/// other code a rejection with code and message surfaced.
pub fn auth_outcome(resp: AuthResponse) -> (r: LoginOutcome)
    ensures
        resp.code@ == "0"@ ==> r is LoggedIn,
        resp.code@ != "0"@ ==> (r matches LoginOutcome::Rejected { code, message } && code
            == resp.code && message == resp.message),
{
    if resp.success() {
        LoginOutcome::LoggedIn
    } else {
        LoginOutcome::Rejected { code: resp.code, message: resp.message }
    }
}

/// How a logout ended.
#[derive(Debug)]
pub enum LogoutOutcome {
    /// The portal reported the device released.
    LoggedOut,
    /// The portal answered, and reported failure; its result and message are
    /// surfaced.
    Rejected { result: i32, msg: String },
    /// The reply could not be understood.
    Failed(Error),
}

/// The verdict on a parsed logout reply: the result `1` is a success, any
/// other result a rejection with result and message surfaced.
pub fn logout_outcome(resp: LogoutResponse) -> (r: LogoutOutcome)
    ensures
        resp.result == 1 ==> r is LoggedOut,
        resp.result != 1 ==> (r matches LogoutOutcome::Rejected { result, msg } && result
            == resp.result && msg == resp.msg),
{
    if resp.success() {
        LogoutOutcome::LoggedOut
    } else {
        LogoutOutcome::Rejected { result: resp.result, msg: resp.msg }
    }
}

/// The verdict on a raw logout reply: parse, then judge. The shell performs
/// the POST; everything after the body arrives is decided here. A reply of
/// the expected shape is a success exactly when its result is `1` and a
/// rejection with that reply's result and message otherwise; any other
/// reply, a too-wide result included, fails with the raw body attached.
pub fn judge_logout_body(body: &[u8]) -> (r: LogoutOutcome)
    ensures
        logout_reply_of(body@) matches Some(q) ==> {
            &&& (i32::MIN <= q.0 <= i32::MAX && q.0 == 1) ==> r is LoggedOut
            &&& (i32::MIN <= q.0 <= i32::MAX && q.0 != 1) ==> (r matches LogoutOutcome::Rejected {
                result,
                msg,
            } && result == q.0 && msg@ == q.1)
            &&& !(i32::MIN <= q.0 <= i32::MAX) ==> (r matches LogoutOutcome::Failed(e) && e matches
                Error::JsonParse(raw) && raw@ == body@)
        },
        logout_reply_of(body@) is None ==> (r matches LogoutOutcome::Failed(e) && e matches
            Error::JsonParse(raw) && raw@ == body@),
{
    match parse_logout_response(body) {
        Ok(resp) => logout_outcome(resp),
        Err(e) => LogoutOutcome::Failed(e),
    }
}

} // verus!
