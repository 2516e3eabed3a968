use vstd::prelude::*;

verus! {

/// HTTP method of a request; `Post` and `Put` carry the raw request body.
#[derive(Debug)]
pub enum Method<'a> {
    Get,
    Post(&'a [u8]),
    Put(&'a [u8]),
}

impl Default for Method<'_> {
    fn default() -> (r: Self)
        ensures
            r is Get,
    {
        Method::Get
    }
}

/// A description of one HTTP call: target URL, method, an optional timeout in
/// milliseconds, and whether a timeout is tolerated (the response gathered so
/// far is then kept instead of reporting a failure).
#[derive(Debug)]
pub struct Request<'a> {
    pub url: &'a str,
    pub method: Method<'a>,
    pub timeout_ms: Option<u64>,
    pub ignore_timeout: bool,
}

impl Request<'_> {
    /// Starts a builder for a request to the given URL.
    pub fn builder(url: &str) -> (r: RequestBuilder<'_>)
        ensures
            r.url@ == url@,
            r.method is None,
            r.timeout_ms is None,
            !r.ignore_timeout,
    {
        RequestBuilder::url(url)
    }
}

/// Step-by-step construction of a [`Request`]; unset fields fall back to a
/// GET with no timeout.
#[derive(Debug)]
pub struct RequestBuilder<'a> {
    pub url: &'a str,
    pub method: Option<Method<'a>>,
    pub timeout_ms: Option<u64>,
    pub ignore_timeout: bool,
}

impl<'a> RequestBuilder<'a> {
    /// A fresh builder: everything but the URL is unset.
    pub fn url(url: &'a str) -> (r: Self)
        ensures
            r.url@ == url@,
            r.method is None,
            r.timeout_ms is None,
            !r.ignore_timeout,
    {
        Self { url, method: None, timeout_ms: None, ignore_timeout: false }
    }

    /// Sets the method; the other fields are kept.
    pub fn method(self, method: Method<'a>) -> (r: Self)
        ensures
            r.method == Some(method),
            r.url@ == self.url@,
            r.timeout_ms == self.timeout_ms,
            r.ignore_timeout == self.ignore_timeout,
    {
        Self { method: Some(method), ..self }
    }

    /// Sets the timeout in milliseconds; the other fields are kept.
    pub fn timeout(self, timeout_ms: u64) -> (r: Self)
        ensures
            r.timeout_ms == Some(timeout_ms),
            r.url@ == self.url@,
            r.method == self.method,
            r.ignore_timeout == self.ignore_timeout,
    {
        Self { timeout_ms: Some(timeout_ms), ..self }
    }

    /// Marks a timeout as tolerated; the other fields are kept.
    pub fn ignore_timeout(self) -> (r: Self)
        ensures
            r.ignore_timeout,
            r.url@ == self.url@,
            r.method == self.method,
            r.timeout_ms == self.timeout_ms,
    {
        Self { ignore_timeout: true, ..self }
    }

    /// Finishes the builder; an unset method becomes a GET.
    pub fn build(self) -> (r: Request<'a>)
        ensures
            r.url@ == self.url@,
            self.method is Some ==> r.method == self.method->0,
            self.method is None ==> r.method is Get,
            r.timeout_ms == self.timeout_ms,
            r.ignore_timeout == self.ignore_timeout,
    {
        let method = match self.method {
            Some(m) => m,
            None => Method::Get,
        };
        Request { url: self.url, method, timeout_ms: self.timeout_ms, ignore_timeout: self.ignore_timeout }
    }
}

impl<'a> From<RequestBuilder<'a>> for Request<'a> {
    /// Finishing a builder, as [`RequestBuilder::build`] does.
    fn from(b: RequestBuilder<'a>) -> (r: Self) {
        let method = match b.method {
            Some(m) => m,
            None => Method::Get,
        };
        Request { url: b.url, method, timeout_ms: b.timeout_ms, ignore_timeout: b.ignore_timeout }
    }
}

impl<'a> vstd::std_specs::convert::FromSpecImpl<RequestBuilder<'a>> for Request<'a> {
    open spec fn obeys_from_spec() -> bool {
        true
    }

    open spec fn from_spec(b: RequestBuilder<'a>) -> Self {
        match b.method {
            Some(m) => Request {
                url: b.url,
                method: m,
                timeout_ms: b.timeout_ms,
                ignore_timeout: b.ignore_timeout,
            },
            None => Request {
                url: b.url,
                method: Method::Get,
                timeout_ms: b.timeout_ms,
                ignore_timeout: b.ignore_timeout,
            },
        }
    }
}

impl<'a> From<&'a str> for Request<'a> {
    /// A bare URL as a request: a GET with no timeout.
    fn from(url: &'a str) -> (r: Self) {
        Request { url, method: Method::Get, timeout_ms: None, ignore_timeout: false }
    }
}

impl<'a> vstd::std_specs::convert::FromSpecImpl<&'a str> for Request<'a> {
    open spec fn obeys_from_spec() -> bool {
        true
    }

    open spec fn from_spec(url: &'a str) -> Self {
        Request { url, method: Method::Get, timeout_ms: None, ignore_timeout: false }
    }
}

/// What came back from one HTTP call: the status code and the raw body.
#[derive(Debug)]
pub struct HttpResponse {
    pub code: u32,
    pub data: Vec<u8>,
}

/// A carriage return or line feed: the end of a reply's status line.
pub open spec fn is_line_break(b: u8) -> bool {
    b == 13 || b == 10
}

/// A space or horizontal tab: the separators of a status line.
pub open spec fn is_blank(b: u8) -> bool {
    b == 32 || b == 9
}

/// A decimal digit.
pub open spec fn is_digit(b: u8) -> bool {
    48 <= b <= 57
}

/// The first position at or after `i` where the status line ends, if any.
pub open spec fn find_line_break(s: Seq<u8>, i: int) -> Option<int>
    decreases s.len() - i,
{
    if i < 0 || i >= s.len() {
        None
    } else if is_line_break(s[i]) {
        Some(i)
    } else {
        find_line_break(s, i + 1)
    }
}

/// The first position in `[i, end)` holding a separator, if any.
pub open spec fn find_sep(s: Seq<u8>, i: int, end: int) -> Option<int>
    decreases end - i,
{
    if i < 0 || i >= end || end > s.len() {
        None
    } else if is_blank(s[i]) {
        Some(i)
    } else {
        find_sep(s, i + 1, end)
    }
}

/// The first position in `[i, end)` holding anything but a separator, if
/// any.
pub open spec fn find_word(s: Seq<u8>, i: int, end: int) -> Option<int>
    decreases end - i,
{
    if i < 0 || i >= end || end > s.len() {
        None
    } else if !is_blank(s[i]) {
        Some(i)
    } else {
        find_word(s, i + 1, end)
    }
}

/// The first position at or after `i` where a blank line (a CRLF pair
/// twice) separates header and body, if any.
pub open spec fn find_header_end(s: Seq<u8>, i: int) -> Option<int>
    decreases s.len() - i,
{
    if i < 0 || i + 4 > s.len() {
        None
    } else if s[i] == 13 && s[i + 1] == 10 && s[i + 2] == 13 && s[i + 3] == 10 {
        Some(i)
    } else {
        find_header_end(s, i + 1)
    }
}

/// `o`, or `d` where there is none.
pub open spec fn position_or(o: Option<int>, d: int) -> int {
    match o {
        Some(x) => x,
        None => d,
    }
}

/// The code a status token reports: its value when it is exactly three
/// digits, as an HTTP status is, and 0 for anything else.
pub open spec fn spec_token_code(t: Seq<u8>) -> u32 {
    if t.len() == 3 && is_digit(t[0]) && is_digit(t[1]) && is_digit(t[2]) {
        (100 * (t[0] - 48) + 10 * (t[1] - 48) + (t[2] - 48)) as u32
    } else {
        0
    }
}

/// The status code of a raw HTTP reply: the second separator-delimited word
/// of its first line, when that word is a three-digit number; 0 for a reply
/// whose first line carries no such word.
pub open spec fn spec_reply_code(raw: Seq<u8>) -> u32 {
    let eol = position_or(find_line_break(raw, 0), raw.len() as int);
    match find_word(raw, 0, eol) {
        None => 0u32,
        Some(a0) => {
            let b0 = position_or(find_sep(raw, a0, eol), eol);
            match find_word(raw, b0, eol) {
                None => 0u32,
                Some(a1) => {
                    let b1 = position_or(find_sep(raw, a1, eol), eol);
                    spec_token_code(raw.subrange(a1, b1))
                },
            }
        },
    }
}

/// The body of a raw HTTP reply: what follows the first blank line, or the
/// whole reply when no blank line ends a header.
pub open spec fn spec_reply_body(raw: Seq<u8>) -> Seq<u8> {
    match find_header_end(raw, 0) {
        Some(i) => raw.subrange(i + 4, raw.len() as int),
        None => raw,
    }
}

/// The first line-break position, found by scanning.
fn scan_line_break(s: &[u8]) -> (r: Option<usize>)
    ensures
        match r {
            Some(p) => find_line_break(s@, 0) == Some(p as int) && p < s@.len(),
            None => find_line_break(s@, 0) is None,
        },
{
    let n = s.len();
    let mut k: usize = 0;
    while k < n && s[k] != 13 && s[k] != 10
        invariant
            k <= n,
            n == s@.len(),
            find_line_break(s@, 0) == find_line_break(s@, k as int),
        decreases n - k,
    {
        k = k + 1;
    }
    if k < n {
        Some(k)
    } else {
        None
    }
}

/// The first separator in `[from, end)`, found by scanning.
fn scan_sep(s: &[u8], from: usize, end: usize) -> (r: Option<usize>)
    requires
        from <= end <= s@.len(),
    ensures
        match r {
            Some(p) => find_sep(s@, from as int, end as int) == Some(p as int) && from <= p < end,
            None => find_sep(s@, from as int, end as int) is None,
        },
{
    let mut k: usize = from;
    while k < end && s[k] != 32 && s[k] != 9
        invariant
            from <= k <= end <= s@.len(),
            find_sep(s@, from as int, end as int) == find_sep(s@, k as int, end as int),
        decreases end - k,
    {
        k = k + 1;
    }
    if k < end {
        Some(k)
    } else {
        None
    }
}

/// The first non-separator in `[from, end)`, found by scanning.
fn scan_word(s: &[u8], from: usize, end: usize) -> (r: Option<usize>)
    requires
        from <= end <= s@.len(),
    ensures
        match r {
            Some(p) => find_word(s@, from as int, end as int) == Some(p as int) && from <= p < end,
            None => find_word(s@, from as int, end as int) is None,
        },
{
    let mut k: usize = from;
    while k < end && (s[k] == 32 || s[k] == 9)
        invariant
            from <= k <= end <= s@.len(),
            find_word(s@, from as int, end as int) == find_word(s@, k as int, end as int),
        decreases end - k,
    {
        k = k + 1;
    }
    if k < end {
        Some(k)
    } else {
        None
    }
}

/// The first blank line, found by scanning.
fn scan_header_end(s: &[u8]) -> (r: Option<usize>)
    ensures
        match r {
            Some(p) => find_header_end(s@, 0) == Some(p as int) && p + 4 <= s@.len(),
            None => find_header_end(s@, 0) is None,
        },
{
    let n = s.len();
    if n < 4 {
        return None;
    }
    let mut k: usize = 0;
    while n - k >= 4
        invariant
            k <= n,
            n == s@.len(),
            find_header_end(s@, 0) == find_header_end(s@, k as int),
        decreases n - k,
    {
        if s[k] == 13 && s[k + 1] == 10 && s[k + 2] == 13 && s[k + 3] == 10 {
            return Some(k);
        }
        k = k + 1;
    }
    None
}

/// Splits a raw HTTP reply into its status code and its body. The code is
/// the second word of the first line when that word is a three-digit
/// number, and 0 otherwise; the body is what follows the first blank line,
/// or everything when no blank line ends a header.
pub fn split_http_reply(raw: Vec<u8>) -> (r: HttpResponse)
    ensures
        r.code == spec_reply_code(raw@),
        r.data@ == spec_reply_body(raw@),
{
    let n = raw.len();
    let eol = match scan_line_break(raw.as_slice()) {
        Some(p) => p,
        None => n,
    };
    let mut code: u32 = 0;
    if let Some(a0) = scan_word(raw.as_slice(), 0, eol) {
        let b0 = match scan_sep(raw.as_slice(), a0, eol) {
            Some(p) => p,
            None => eol,
        };
        if let Some(a1) = scan_word(raw.as_slice(), b0, eol) {
            let b1 = match scan_sep(raw.as_slice(), a1, eol) {
                Some(p) => p,
                None => eol,
            };
            let ghost token = raw@.subrange(a1 as int, b1 as int);
            if b1 - a1 == 3 {
                let d0 = raw[a1];
                let d1 = raw[a1 + 1];
                let d2 = raw[a1 + 2];
                proof {
                    assert(token[0] == raw@[a1 as int]);
                    assert(token[1] == raw@[a1 + 1]);
                    assert(token[2] == raw@[a1 + 2]);
                }
                if 48 <= d0 && d0 <= 57 && 48 <= d1 && d1 <= 57 && 48 <= d2 && d2 <= 57 {
                    code = 100 * ((d0 - 48) as u32) + 10 * ((d1 - 48) as u32) + ((d2 - 48) as u32);
                }
            }
        }
    }
    let data = match scan_header_end(raw.as_slice()) {
        Some(p) => vstd::slice::slice_to_vec(
            vstd::slice::slice_subrange(raw.as_slice(), p + 4, n),
        ),
        None => raw,
    };
    HttpResponse { code, data }
}

} // verus!
