use vstd::prelude::*;

use crate::encode::{
    lemma_query_snoc, push_all, push_decimal, push_encoded, spec_decimal, spec_encode_pair,
    spec_query,
};
use crate::extract::{extract_redirect_url, has_redirect, spec_redirect_url};
use crate::operator::{spec_code_bytes, Operator};
use crate::Error;

verus! {

/// The view of an optional byte string.
pub open spec fn opt_bytes_view(o: Option<Vec<u8>>) -> Option<Seq<u8>> {
    match o {
        Some(v) => Some(v@),
        None => None,
    }
}

/// The view of a list of key-value byte-string pairs.
pub open spec fn pairs_view(ps: Seq<(Vec<u8>, Vec<u8>)>) -> Seq<(Seq<u8>, Seq<u8>)> {
    Seq::new(ps.len(), |i: int| (ps[i].0@, ps[i].1@))
}

/// Whether this byte string is a well-formed absolute URL, as URL parsing
/// accepts it.
pub uninterp spec fn url_well_formed(s: Seq<u8>) -> bool;

/// The scheme of a well-formed URL, normalized.
pub uninterp spec fn url_scheme(s: Seq<u8>) -> Seq<u8>;

/// The host of a well-formed URL, if it has one, normalized.
pub uninterp spec fn url_host(s: Seq<u8>) -> Option<Seq<u8>>;

/// The explicit port of a well-formed URL; the scheme's default port counts
/// as absent.
pub uninterp spec fn url_port(s: Seq<u8>) -> Option<u16>;

/// The query parameters of a well-formed URL, in order, form-urldecoded.
pub uninterp spec fn url_params(s: Seq<u8>) -> Seq<(Seq<u8>, Seq<u8>)>;

/// The pieces of a parsed URL that the session builder reads.
pub struct UrlParts {
    pub scheme: Vec<u8>,
    pub host: Option<Vec<u8>>,
    pub port: Option<u16>,
    pub params: Vec<(Vec<u8>, Vec<u8>)>,
}

/// Relies on `url::Url::parse` and the accessors `scheme`, `host_str`,
/// `port` and `query_pairs` of a parsed `url::Url`: parsing either accepts
/// the text and yields its scheme, host, explicit non-default port and
/// decoded query pairs in order, or rejects it; all of it is a function of
/// the input bytes alone.
#[verifier::external_body]
fn parse_url_parts(s: &[u8]) -> (r: Option<UrlParts>)
    ensures
        r is Some <==> url_well_formed(s@),
        r matches Some(p) ==> {
            &&& p.scheme@ == url_scheme(s@)
            &&& opt_bytes_view(p.host) == url_host(s@)
            &&& p.port == url_port(s@)
            &&& pairs_view(p.params@) == url_params(s@)
        },
{
    let text = core::str::from_utf8(s).ok()?;
    let u = url::Url::parse(text).ok()?;
    Some(
        UrlParts {
            scheme: u.scheme().as_bytes().to_vec(),
            host: u.host_str().map(|h| h.as_bytes().to_vec()),
            port: u.port(),
            params: u.query_pairs().map(
                |(k, v)| (k.into_owned().into_bytes(), v.into_owned().into_bytes()),
            ).collect(),
        },
    )
}

/// A port, with 80 standing in where none is given.
pub open spec fn port_or_default(p: Option<u16>) -> u16 {
    match p {
        Some(x) => x,
        None => 80,
    }
}

/// The session base printed as `scheme://host:port`.
pub open spec fn spec_base_url(scheme: Seq<u8>, host: Seq<u8>, port: u16) -> Seq<u8> {
    scheme + seq![(':' as u8), ('/' as u8), ('/' as u8)] + host + seq![(':' as u8)]
        + spec_decimal(port as nat)
}

/// The fixed path and query separator appended to the base for a quick-auth
/// call: `/quickauth.do?`.
pub open spec fn quickauth_path() -> Seq<u8> {
    seq![
        ('/' as u8),
        ('q' as u8),
        ('u' as u8),
        ('i' as u8),
        ('c' as u8),
        ('k' as u8),
        ('a' as u8),
        ('u' as u8),
        ('t' as u8),
        ('h' as u8),
        ('.' as u8),
        ('d' as u8),
        ('o' as u8),
        ('?' as u8),
    ]
}

/// The key of the account parameter: `userid`.
pub open spec fn userid_key() -> Seq<u8> {
    seq![('u' as u8), ('s' as u8), ('e' as u8), ('r' as u8), ('i' as u8), ('d' as u8)]
}

/// The key of the password parameter: `passwd`.
pub open spec fn passwd_key() -> Seq<u8> {
    seq![('p' as u8), ('a' as u8), ('s' as u8), ('s' as u8), ('w' as u8), ('d' as u8)]
}

/// The value of the account parameter: the id, an `@`, and the operator's
/// wire code.
pub open spec fn spec_userid_value(id: Seq<u8>, op: Operator) -> Seq<u8> {
    id + seq![('@' as u8)] + spec_code_bytes(op)
}

/// The full quick-auth URL: `/quickauth.do` on the session base, then the
/// captured parameters in their original order, then `userid` and `passwd`,
/// every key and value form-urlencoded.
pub open spec fn spec_quick_auth_url(
    base: Seq<u8>,
    params: Seq<(Seq<u8>, Seq<u8>)>,
    id: Seq<u8>,
    passwd: Seq<u8>,
    op: Operator,
) -> Seq<u8> {
    base + quickauth_path() + spec_query(
        params.push((userid_key(), spec_userid_value(id, op))).push((passwd_key(), passwd)),
    )
}

/// A login session scraped off the gateway: the base URL of the portal and
/// the query parameters of the redirect, to be replayed on the auth call.
#[derive(Debug)]
pub struct AuthRequest {
    pub base_url: Vec<u8>,
    pub params: Vec<(Vec<u8>, Vec<u8>)>,
}

/// Appends `k=v` to `dst`, both sides form-urlencoded.
fn push_pair(dst: &mut Vec<u8>, k: &[u8], v: &[u8])
    ensures
        final(dst)@ == old(dst)@ + spec_encode_pair(k@, v@),
{
    push_encoded(dst, k);
    dst.push('=' as u8);
    push_encoded(dst, v);
    proof {
        assert(dst@ =~= old(dst)@ + spec_encode_pair(k@, v@));
    }
}

impl AuthRequest {
    /// Builds the session from the redirect URL: the base is
    /// `scheme://host:port`, the port defaulting to 80, and the redirect's
    /// query parameters are kept in order. A URL that does not parse, or one
    /// without a host, is rejected.
    pub fn from_redirect_url(url: &[u8]) -> (r: Result<AuthRequest, Error>)
        ensures
            r is Ok <==> url_well_formed(url@) && url_host(url@) is Some,
            r matches Ok(a) ==> {
                &&& url_host(url@) matches Some(h) && a.base_url@ == spec_base_url(
                    url_scheme(url@),
                    h,
                    port_or_default(url_port(url@)),
                )
                &&& pairs_view(a.params@) == url_params(url@)
            },
            r matches Err(e) ==> e is UrlParse,
    {
        let parts = match parse_url_parts(url) {
            Some(p) => p,
            None => {
                return Err(Error::UrlParse);
            },
        };
        let host = match parts.host {
            Some(h) => h,
            None => {
                return Err(Error::UrlParse);
            },
        };
        let port = match parts.port {
            Some(p) => p,
            None => 80,
        };
        let mut base: Vec<u8> = Vec::new();
        push_all(&mut base, parts.scheme.as_slice());
        base.push(':' as u8);
        base.push('/' as u8);
        base.push('/' as u8);
        push_all(&mut base, host.as_slice());
        base.push(':' as u8);
        push_decimal(&mut base, port);
        proof {
            assert(base@ =~= spec_base_url(
                url_scheme(url@),
                host@,
                port_or_default(url_port(url@)),
            ));
        }
        Ok(AuthRequest { base_url: base, params: parts.params })
    }

    /// The compute side of session creation: scrape the redirect URL out of
    /// the gateway page, then build the session from it.
    pub fn create(page: &[u8]) -> (r: Result<AuthRequest, Error>)
        ensures
            r is Ok <==> has_redirect(page@) && url_well_formed(spec_redirect_url(page@))
                && url_host(spec_redirect_url(page@)) is Some,
            r matches Ok(a) ==> {
                &&& url_host(spec_redirect_url(page@)) matches Some(h) && a.base_url@
                    == spec_base_url(
                    url_scheme(spec_redirect_url(page@)),
                    h,
                    port_or_default(url_port(spec_redirect_url(page@))),
                )
                &&& pairs_view(a.params@) == url_params(spec_redirect_url(page@))
            },
            !has_redirect(page@) ==> (r matches Err(e) && e matches Error::InvalidIndexContent(raw)
                && raw@ == page@),
            has_redirect(page@) && r is Err ==> (r matches Err(e) && e is UrlParse),
    {
        let url = match extract_redirect_url(page) {
            Ok(u) => u,
            Err(e) => {
                return Err(e);
            },
        };
        Self::from_redirect_url(url.as_slice())
    }

    /// The URL of a quick-auth call for this session and these credentials.
    pub fn quick_auth_url(&self, userid: &[u8], passwd: &[u8], operator: Operator) -> (r: Vec<u8>)
        ensures
            r@ == spec_quick_auth_url(
                self.base_url@,
                pairs_view(self.params@),
                userid@,
                passwd@,
                operator,
            ),
    {
        let mut out: Vec<u8> = Vec::new();
        push_all(&mut out, self.base_url.as_slice());
        out.push('/' as u8);
        out.push('q' as u8);
        out.push('u' as u8);
        out.push('i' as u8);
        out.push('c' as u8);
        out.push('k' as u8);
        out.push('a' as u8);
        out.push('u' as u8);
        out.push('t' as u8);
        out.push('h' as u8);
        out.push('.' as u8);
        out.push('d' as u8);
        out.push('o' as u8);
        out.push('?' as u8);
        let ghost pre = self.base_url@ + quickauth_path();
        proof {
            assert(out@ =~= pre);
        }
        let ghost pview = pairs_view(self.params@);
        let n = self.params.len();
        let mut t: usize = 0;
        while t < n
            invariant
                n == self.params@.len(),
                t <= n,
                pview == pairs_view(self.params@),
                t == 0 ==> out@ == pre,
                t > 0 ==> out@ == pre + spec_query(pview.take(t as int)),
            decreases n - t,
        {
            if t > 0 {
                out.push('&' as u8);
            }
            let p = &self.params[t];
            push_pair(&mut out, p.0.as_slice(), p.1.as_slice());
            proof {
                let q = (self.params@[t as int].0@, self.params@[t as int].1@);
                assert(pview[t as int] == q);
                assert(pview.take(t + 1) =~= pview.take(t as int).push(q));
                if t == 0 {
                    assert(spec_query(pview.take(1)) == spec_encode_pair(q.0, q.1));
                    assert(out@ =~= pre + spec_query(pview.take(1)));
                } else {
                    lemma_query_snoc(pview.take(t as int), q);
                    assert(out@ =~= pre + spec_query(pview.take(t + 1)));
                }
            }
            t = t + 1;
        }
        proof {
            assert(pview.take(n as int) =~= pview);
        }
        // The userid pair: the id, a literal `@`, and the operator code.
        let mut uval: Vec<u8> = Vec::new();
        push_all(&mut uval, userid);
        uval.push('@' as u8);
        match operator {
            Operator::Mobie => {
                uval.push('y' as u8);
                uval.push('d' as u8);
            },
            Operator::Unicom => {
                uval.push('l' as u8);
                uval.push('t' as u8);
            },
            Operator::Telecom => {
                uval.push('d' as u8);
                uval.push('x' as u8);
            },
        }
        proof {
            assert(uval@ =~= spec_userid_value(userid@, operator));
        }
        let mut ukey: Vec<u8> = Vec::new();
        ukey.push('u' as u8);
        ukey.push('s' as u8);
        ukey.push('e' as u8);
        ukey.push('r' as u8);
        ukey.push('i' as u8);
        ukey.push('d' as u8);
        proof {
            assert(ukey@ =~= userid_key());
        }
        if n > 0 {
            out.push('&' as u8);
        }
        push_pair(&mut out, ukey.as_slice(), uval.as_slice());
        let ghost with_user = pview.push((userid_key(), spec_userid_value(userid@, operator)));
        proof {
            let q = (userid_key(), spec_userid_value(userid@, operator));
            if n == 0 {
                assert(pview =~= Seq::<(Seq<u8>, Seq<u8>)>::empty());
                assert(with_user =~= seq![q]);
                assert(spec_query(seq![q]) == spec_encode_pair(q.0, q.1));
                assert(spec_query(pview) == Seq::<u8>::empty());
                assert(out@ =~= pre + spec_query(with_user));
            } else {
                lemma_query_snoc(pview, q);
                assert(out@ =~= pre + spec_query(with_user));
            }
        }
        let mut pkey: Vec<u8> = Vec::new();
        pkey.push('p' as u8);
        pkey.push('a' as u8);
        pkey.push('s' as u8);
        pkey.push('s' as u8);
        pkey.push('w' as u8);
        pkey.push('d' as u8);
        proof {
            assert(pkey@ =~= passwd_key());
        }
        out.push('&' as u8);
        push_pair(&mut out, pkey.as_slice(), passwd);
        proof {
            let q = (passwd_key(), passwd@);
            lemma_query_snoc(with_user, q);
            assert(out@ =~= self.base_url@ + quickauth_path() + spec_query(with_user.push(q)));
        }
        out
    }
}

} // verus!
