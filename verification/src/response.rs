use vstd::prelude::*;

use crate::Error;

verus! {

/// The view of an optional string.
pub open spec fn opt_str_view(o: Option<String>) -> Option<Seq<char>> {
    match o {
        Some(s) => Some(s@),
        None => None,
    }
}

/// The auth reply carried by a body, if it has the expected shape: a JSON
/// object with a string member `code` and an optional string-or-null member
/// `message`, as JSON parsing reads it. A function of the bytes alone.
pub uninterp spec fn auth_reply_of(b: Seq<u8>) -> Option<(Seq<char>, Option<Seq<char>>)>;

/// The logout reply carried by a body, if it has the expected shape: a JSON
/// object with an integer member `result` that fits 64 signed bits and a
/// string member `msg`, as JSON parsing reads it. A function of the bytes
/// alone.
pub uninterp spec fn logout_reply_of(b: Seq<u8>) -> Option<(i64, Seq<char>)>;

/// Relies on `serde_json::from_slice` at `serde_json::Value` and on
/// `Value::get`, `Value::as_str` and `Value::is_null`: the bytes either are
/// JSON of the expected auth-reply shape, yielding `code` and `message`
/// verbatim (an absent or null `message` counts as none), or they are not;
/// which, and what is yielded, is a function of the bytes alone.
#[verifier::external_body]
fn decode_auth_reply(b: &[u8]) -> (r: Option<(String, Option<String>)>)
    ensures
        r is Some <==> auth_reply_of(b@) is Some,
        r matches Some(p) ==> (auth_reply_of(b@) matches Some(q) && p.0@ == q.0 && opt_str_view(
            p.1,
        ) == q.1),
{
    let v: serde_json::Value = serde_json::from_slice(b).ok()?;
    let code = v.get("code")?.as_str()?.to_owned();
    let message = match v.get("message") {
        None => None,
        Some(m) if m.is_null() => None,
        Some(m) => Some(m.as_str()?.to_owned()),
    };
    Some((code, message))
}

/// Relies on `serde_json::from_slice` at `serde_json::Value` and on
/// `Value::get`, `Value::as_i64` and `Value::as_str`: the bytes either are
/// JSON of the expected logout-reply shape, yielding `result` and `msg`
/// verbatim, or they are not; which, and what is yielded, is a function of
/// the bytes alone.
#[verifier::external_body]
fn decode_logout_reply(b: &[u8]) -> (r: Option<(i64, String)>)
    ensures
        r is Some <==> logout_reply_of(b@) is Some,
        r matches Some(p) ==> (logout_reply_of(b@) matches Some(q) && p.0 == q.0 && p.1@ == q.1),
{
    let v: serde_json::Value = serde_json::from_slice(b).ok()?;
    let result = v.get("result")?.as_i64()?;
    let msg = v.get("msg")?.as_str()?.to_owned();
    Some((result, msg))
}

/// The portal's reply to a quick-auth call: a status code, which is `"0"`
/// exactly on success, and an optional message.
#[derive(Debug)]
pub struct AuthResponse {
    pub code: String,
    pub message: Option<String>,
}

impl AuthResponse {
    /// The code `"0"` is the portal's success report; any other code is a
    /// failure.
    pub fn success(&self) -> (r: bool)
        ensures
            r == (self.code@ == "0"@),
    {
        proof {
            reveal_strlit("0");
        }
        let s = self.code.as_str();
        let r = s.unicode_len() == 1 && s.get_char(0) == '0';
        proof {
            if r {
                assert(self.code@ =~= "0"@);
            }
        }
        r
    }
}

impl Default for AuthResponse {
    /// An empty reply: no code, no message.
    fn default() -> (r: Self)
        ensures
            r.code@ == Seq::<char>::empty(),
            r.message is None,
    {
        AuthResponse { code: String::new(), message: None }
    }
}

/// The portal's reply to a logout call: a numeric result, which is `1`
/// exactly on success, and a message.
#[derive(Debug)]
pub struct LogoutResponse {
    pub result: i32,
    pub msg: String,
}

impl LogoutResponse {
    /// The result `1` is the portal's success report; any other result is a
    /// failure.
    pub fn success(&self) -> (r: bool)
        ensures
            r == (self.result == 1),
    {
        self.result == 1
    }
}

impl Default for LogoutResponse {
    /// An empty reply: result zero, no message.
    fn default() -> (r: Self)
        ensures
            r.result == 0,
            r.msg@ == Seq::<char>::empty(),
    {
        LogoutResponse { result: 0, msg: String::new() }
    }
}

/// Interprets a quick-auth reply. A body of the expected shape — a JSON
/// object with a string member `code` and an optional string-or-null member
/// `message` — yields exactly its `code` and `message`; any other body is a
/// parse failure carrying the raw reply.
pub fn parse_auth_response(body: &[u8]) -> (r: Result<AuthResponse, Error>)
    ensures
        r is Ok <==> auth_reply_of(body@) is Some,
        r matches Ok(a) ==> (auth_reply_of(body@) matches Some(q) && a.code@ == q.0
            && opt_str_view(a.message) == q.1),
        r matches Err(e) ==> (e matches Error::JsonParse(raw) && raw@ == body@),
{
    match decode_auth_reply(body) {
        Some((code, message)) => Ok(AuthResponse { code, message }),
        None => Err(Error::JsonParse(vstd::slice::slice_to_vec(body))),
    }
}

/// Interprets a logout reply. A body of the expected shape — a JSON object
/// with an integer member `result` that also fits 32 signed bits and a
/// string member `msg` — yields exactly its `result` and `msg`; any other
/// body, a too-wide `result` included, is a parse failure carrying the raw
/// reply.
pub fn parse_logout_response(body: &[u8]) -> (r: Result<LogoutResponse, Error>)
    ensures
        r is Ok <==> (logout_reply_of(body@) matches Some(q) && i32::MIN <= q.0 <= i32::MAX),
        r matches Ok(l) ==> (logout_reply_of(body@) matches Some(q) && l.result == q.0 && l.msg@
            == q.1),
        r matches Err(e) ==> (e matches Error::JsonParse(raw) && raw@ == body@),
{
    match decode_logout_reply(body) {
        Some((wide, msg)) => {
            if wide < i32::MIN as i64 || wide > i32::MAX as i64 {
                Err(Error::JsonParse(vstd::slice::slice_to_vec(body)))
            } else {
                Ok(LogoutResponse { result: wide as i32, msg })
            }
        },
        None => Err(Error::JsonParse(vstd::slice::slice_to_vec(body))),
    }
}

} // verus!
