use vstd::prelude::*;
use vstd::string::StringExecFns;

verus! {

pub const CONTENT_TYPE: &'static str = "content-type";

pub const CONTENT_SECURITY_POLICY: &'static str = "content-security-policy";

/// The directive string sent as Content-Security-Policy when a handler set none.
pub const CSP_DIRECTIVES: &'static str = "default-src 'self'; script-src 'self'; style-src 'self' 'unsafe-inline'; img-src 'self' data:; font-src 'self'; connect-src 'self'";

pub const ALLOW_ORIGIN: &'static str = "access-control-allow-origin";

pub const ALLOW_METHODS: &'static str = "access-control-allow-methods";

pub const ALLOW_HEADERS: &'static str = "access-control-allow-headers";

pub const MAX_AGE: &'static str = "access-control-max-age";

/// The one origin granted cross-origin access, compared literally.
pub const ALLOWED_ORIGIN: &'static str = "http://localhost:3000";

pub const ALLOWED_METHODS: &'static str = "GET";

pub const ANY_HEADERS: &'static str = "*";

/// How long, in seconds, a browser may cache a preflight answer.
pub const MAX_AGE_SECS: &'static str = "3600";

#[derive(Clone, Copy, Debug, PartialEq, Eq, Structural)]
pub enum Method {
    Get,
    Head,
    Post,
    Put,
    Delete,
    Patch,
    Options,
    Other,
}

/// An inbound request, reduced to what the pipeline reads: the method, the
/// URL path without its query, and the `Origin` header if one was sent.
pub struct Request {
    pub method: Method,
    pub path: String,
    pub origin: Option<String>,
}

pub struct RequestView {
    pub method: Method,
    pub path: Seq<char>,
    pub origin: Option<Seq<char>>,
}

impl View for Request {
    type V = RequestView;

    open spec fn view(&self) -> RequestView {
        RequestView {
            method: self.method,
            path: self.path@,
            origin: match self.origin {
                Some(o) => Some(o@),
                None => None,
            },
        }
    }
}

/// An outbound response. Header names are lower case; where a name occurs
/// twice, the first occurrence is the one that counts.
pub struct Response {
    pub status: u16,
    pub headers: Vec<(String, String)>,
    pub body: Vec<u8>,
}

pub struct ResponseView {
    pub status: u16,
    pub headers: Seq<(Seq<char>, Seq<char>)>,
    pub body: Seq<u8>,
}

pub open spec fn header_texts(hs: Seq<(String, String)>) -> Seq<(Seq<char>, Seq<char>)> {
    hs.map_values(|h: (String, String)| (h.0@, h.1@))
}

impl View for Response {
    type V = ResponseView;

    open spec fn view(&self) -> ResponseView {
        ResponseView { status: self.status, headers: header_texts(self.headers@), body: self.body@ }
    }
}

/// The value of the first header called `name`, if any.
pub open spec fn header_of(hs: Seq<(Seq<char>, Seq<char>)>, name: Seq<char>) -> Option<Seq<char>>
    decreases hs.len(),
{
    if hs.len() == 0 {
        None
    } else if hs[0].0 == name {
        Some(hs[0].1)
    } else {
        header_of(hs.drop_first(), name)
    }
}

pub proof fn lemma_header_of_push(hs: Seq<(Seq<char>, Seq<char>)>, h: (Seq<char>, Seq<char>), name: Seq<char>)
    ensures
        header_of(hs.push(h), name) == (match header_of(hs, name) {
            Some(v) => Some(v),
            None => if h.0 == name { Some(h.1) } else { None },
        }),
    decreases hs.len(),
{
    if hs.len() > 0 {
        assert(hs.push(h)[0] == hs[0]);
        assert(hs.push(h).drop_first() =~= hs.drop_first().push(h));
        lemma_header_of_push(hs.drop_first(), h, name);
    } else {
        assert(hs.push(h)[0] == h);
        assert(hs.push(h).drop_first() =~= Seq::<(Seq<char>, Seq<char>)>::empty());
        assert(header_of(Seq::<(Seq<char>, Seq<char>)>::empty(), name) is None);
    }
}

proof fn lemma_header_of_skip(hs: Seq<(Seq<char>, Seq<char>)>, name: Seq<char>, i: int)
    requires
        0 <= i <= hs.len(),
        forall|j: int| 0 <= j < i ==> (#[trigger] hs[j]).0 != name,
    ensures
        header_of(hs, name) == header_of(hs.skip(i), name),
    decreases i,
{
    if i == 0 {
        assert(hs.skip(0) =~= hs);
    } else {
        lemma_header_of_skip(hs, name, i - 1);
        assert(hs.skip(i - 1).drop_first() =~= hs.skip(i));
        assert(hs.skip(i - 1)[0] == hs[i - 1]);
    }
}

/// The header names the pipeline writes are pairwise distinct.
pub proof fn lemma_header_names_differ()
    ensures
        ALLOW_ORIGIN@ != ALLOW_METHODS@,
        ALLOW_ORIGIN@ != ALLOW_HEADERS@,
        ALLOW_ORIGIN@ != MAX_AGE@,
        ALLOW_METHODS@ != ALLOW_HEADERS@,
        ALLOW_METHODS@ != MAX_AGE@,
        ALLOW_HEADERS@ != MAX_AGE@,
        CONTENT_SECURITY_POLICY@ != ALLOW_ORIGIN@,
        CONTENT_SECURITY_POLICY@ != ALLOW_METHODS@,
        CONTENT_SECURITY_POLICY@ != ALLOW_HEADERS@,
        CONTENT_SECURITY_POLICY@ != MAX_AGE@,
        CONTENT_SECURITY_POLICY@ != CONTENT_TYPE@,
{
    reveal_strlit("access-control-allow-origin");
    reveal_strlit("access-control-allow-methods");
    reveal_strlit("access-control-allow-headers");
    reveal_strlit("access-control-max-age");
    reveal_strlit("content-security-policy");
    reveal_strlit("content-type");
    assert(ALLOW_ORIGIN@[21] != ALLOW_METHODS@[21]);
    assert(ALLOW_ORIGIN@[21] != ALLOW_HEADERS@[21]);
    assert(ALLOW_ORIGIN@[15] != MAX_AGE@[15]);
    assert(ALLOW_METHODS@[21] != ALLOW_HEADERS@[21]);
    assert(ALLOW_METHODS@[15] != MAX_AGE@[15]);
    assert(ALLOW_HEADERS@[15] != MAX_AGE@[15]);
    assert(CONTENT_SECURITY_POLICY@[0] != ALLOW_ORIGIN@[0]);
    assert(CONTENT_SECURITY_POLICY@[0] != ALLOW_METHODS@[0]);
    assert(CONTENT_SECURITY_POLICY@[0] != ALLOW_HEADERS@[0]);
    assert(CONTENT_SECURITY_POLICY@[0] != MAX_AGE@[0]);
    assert(CONTENT_SECURITY_POLICY@[8] != CONTENT_TYPE@[8]);
}

pub open spec fn with_header(r: ResponseView, name: Seq<char>, value: Seq<char>) -> ResponseView {
    ResponseView { status: r.status, headers: r.headers.push((name, value)), body: r.body }
}

/// Set-if-absent: the policy header is added only where the handler set none.
pub open spec fn secure_spec(r: ResponseView) -> ResponseView {
    if header_of(r.headers, CONTENT_SECURITY_POLICY@) is Some {
        r
    } else {
        with_header(r, CONTENT_SECURITY_POLICY@, CSP_DIRECTIVES@)
    }
}

pub open spec fn origin_allowed(req: RequestView) -> bool {
    req.origin == Some(ALLOWED_ORIGIN@)
}

/// The answer to a preflight: the grant headers for the allowed origin only.
pub open spec fn preflight_spec(req: RequestView) -> ResponseView {
    ResponseView {
        status: 200,
        headers: if origin_allowed(req) {
            seq![
                (ALLOW_ORIGIN@, ALLOWED_ORIGIN@),
                (ALLOW_METHODS@, ALLOWED_METHODS@),
                (ALLOW_HEADERS@, ANY_HEADERS@),
                (MAX_AGE@, MAX_AGE_SECS@),
            ]
        } else {
            Seq::empty()
        },
        body: Seq::empty(),
    }
}

/// An actual request is granted cross-origin access only for GET from the
/// allowed origin.
pub open spec fn cors_spec(req: RequestView, r: ResponseView) -> ResponseView {
    if req.method == Method::Get && origin_allowed(req) {
        with_header(r, ALLOW_ORIGIN@, ALLOWED_ORIGIN@)
    } else {
        r
    }
}

/// The liveness answer: 200 with the plain-text body `OK`.
pub open spec fn health_spec() -> ResponseView {
    ResponseView {
        status: 200,
        headers: seq![(CONTENT_TYPE@, "text/plain; charset=utf-8"@)],
        body: seq![0x4fu8, 0x4bu8],
    }
}

fn pair(name: &str, value: &str) -> (r: (String, String))
    ensures
        r.0@ == name@,
        r.1@ == value@,
{
    (String::from_str(name), String::from_str(value))
}

impl Response {
    /// The value of the first header called `name`, if any.
    pub fn header(&self, name: &str) -> (r: Option<&String>)
        ensures
            match r {
                Some(v) => header_of(self@.headers, name@) == Some(v@),
                None => header_of(self@.headers, name@) is None,
            },
    {
        let key = String::from_str(name);
        let ghost hs = self@.headers;
        let mut i: usize = 0;
        while i < self.headers.len()
            invariant
                i <= self.headers.len(),
                hs == header_texts(self.headers@),
                key@ == name@,
                forall|j: int| 0 <= j < i ==> (#[trigger] hs[j]).0 != name@,
            decreases self.headers.len() - i,
        {
            if self.headers[i].0 == key {
                proof {
                    lemma_header_of_skip(hs, name@, i as int);
                }
                return Some(&self.headers[i].1);
            }
            i = i + 1;
        }
        proof {
            lemma_header_of_skip(hs, name@, i as int);
        }
        None
    }

    fn push_header(&mut self, name: &str, value: &str)
        ensures
            final(self)@ == with_header(old(self)@, name@, value@),
    {
        let ghost before = self.headers@;
        self.headers.push(pair(name, value));
        assert(header_texts(self.headers@) =~= header_texts(before).push((name@, value@)));
    }
}

/// Adds the Content-Security-Policy header unless the response already has one.
pub fn apply_security_headers(resp: Response) -> (r: Response)
    ensures
        r@ == secure_spec(resp@),
{
    let mut resp = resp;
    if resp.header(CONTENT_SECURITY_POLICY).is_none() {
        resp.push_header(CONTENT_SECURITY_POLICY, CSP_DIRECTIVES);
    }
    resp
}

fn origin_is_allowed(req: &Request) -> (r: bool)
    ensures
        r == origin_allowed(req@),
{
    match &req.origin {
        Some(o) => *o == String::from_str(ALLOWED_ORIGIN),
        None => false,
    }
}

/// Answers a CORS preflight without consulting the router.
pub fn preflight(req: &Request) -> (r: Response)
    ensures
        r@ == preflight_spec(req@),
{
    let mut r = Response { status: 200, headers: Vec::new(), body: Vec::new() };
    assert(r@.headers =~= Seq::<(Seq<char>, Seq<char>)>::empty());
    if origin_is_allowed(req) {
        r.push_header(ALLOW_ORIGIN, ALLOWED_ORIGIN);
        r.push_header(ALLOW_METHODS, ALLOWED_METHODS);
        r.push_header(ALLOW_HEADERS, ANY_HEADERS);
        r.push_header(MAX_AGE, MAX_AGE_SECS);
        assert(r@.headers =~= preflight_spec(req@).headers);
    }
    r
}

/// Grants cross-origin access to an actual request where the policy allows it.
pub fn apply_cors(req: &Request, resp: Response) -> (r: Response)
    ensures
        r@ == cors_spec(req@, resp@),
{
    let mut resp = resp;
    if req.method == Method::Get && origin_is_allowed(req) {
        resp.push_header(ALLOW_ORIGIN, ALLOWED_ORIGIN);
    }
    resp
}

/// The liveness probe: touches nothing and always answers `OK`.
pub fn health() -> (r: Response)
    ensures
        r@ == health_spec(),
{
    let mut r = Response { status: 200, headers: Vec::new(), body: vec![0x4fu8, 0x4bu8] };
    assert(r@.headers =~= Seq::<(Seq<char>, Seq<char>)>::empty());
    r.push_header(CONTENT_TYPE, "text/plain; charset=utf-8");
    assert(r@.headers =~= health_spec().headers);
    r
}

} // verus!
