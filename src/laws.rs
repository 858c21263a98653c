use vstd::prelude::*;
use crate::http::{
    Method, RequestView, ResponseView, header_of, lemma_header_names_differ, lemma_header_of_push,
    origin_allowed, preflight_spec, ALLOWED_METHODS, ALLOWED_ORIGIN, ALLOW_HEADERS, ALLOW_METHODS,
    ALLOW_ORIGIN, ANY_HEADERS, CONTENT_SECURITY_POLICY, CONTENT_TYPE, CSP_DIRECTIVES, MAX_AGE,
    MAX_AGE_SECS,
};
use crate::path::{normalize_spec, percent_decoded, request_target_spec};
use crate::pipeline::{advance_spec, dispatch_spec, finish_spec, HEALTH_PATH};
use crate::serve::{content_type_spec, file_name_spec, EntryView, Outcome};

verus! {

/// Set-if-absent: on the way out every response carries a Content-Security-Policy;
/// it is the handler's own value where the handler set one, else the fixed
/// directive string.
pub proof fn lemma_security_header_set_if_absent(req: RequestView, r: ResponseView)
    ensures
        header_of(finish_spec(req, r).headers, CONTENT_SECURITY_POLICY@) == (match header_of(
            r.headers,
            CONTENT_SECURITY_POLICY@,
        ) {
            Some(v) => Some(v),
            None => Some(CSP_DIRECTIVES@),
        }),
{
    lemma_header_names_differ();
    lemma_header_of_push(r.headers, (ALLOW_ORIGIN@, ALLOWED_ORIGIN@), CONTENT_SECURITY_POLICY@);
    let c = crate::http::cors_spec(req, r);
    lemma_header_of_push(c.headers, (CONTENT_SECURITY_POLICY@, CSP_DIRECTIVES@), CONTENT_SECURITY_POLICY@);
}

/// The liveness probe answers 200 with the body `OK` to every request for its
/// path that reaches the router, whatever its method or origin, and the same
/// request always gets the same answer.
pub proof fn lemma_health_always_ok(req: RequestView)
    requires
        req.path == HEALTH_PATH@,
        req.method != Method::Options,
    ensures
        dispatch_spec(req) matches Outcome::Respond(resp) && resp.status == 200 && resp.body == seq![
            0x4fu8,
            0x4bu8,
        ],
{
}

proof fn lemma_header_of_four(
    a: (Seq<char>, Seq<char>),
    b: (Seq<char>, Seq<char>),
    c: (Seq<char>, Seq<char>),
    d: (Seq<char>, Seq<char>),
    name: Seq<char>,
)
    ensures
        header_of(seq![a, b, c, d], name) == (if a.0 == name {
            Some(a.1)
        } else if b.0 == name {
            Some(b.1)
        } else if c.0 == name {
            Some(c.1)
        } else if d.0 == name {
            Some(d.1)
        } else {
            None
        }),
{
    let e = Seq::<(Seq<char>, Seq<char>)>::empty();
    assert(seq![a, b, c, d] =~= e.push(a).push(b).push(c).push(d));
    assert(header_of(e, name) is None);
    lemma_header_of_push(e, a, name);
    lemma_header_of_push(e.push(a), b, name);
    lemma_header_of_push(e.push(a).push(b), c, name);
    lemma_header_of_push(e.push(a).push(b).push(c), d, name);
}

/// A preflight from the allowed origin is granted GET, any header and a max
/// age of 3600 seconds; a preflight from any other origin, or with none, gets
/// none of the grant headers.
pub proof fn lemma_preflight_grants_only_allowed_origin(req: RequestView)
    requires
        req.method == Method::Options,
    ensures
        dispatch_spec(req) matches Outcome::Respond(resp) && (if origin_allowed(req) {
            &&& header_of(resp.headers, ALLOW_ORIGIN@) == Some(ALLOWED_ORIGIN@)
            &&& header_of(resp.headers, ALLOW_METHODS@) == Some(ALLOWED_METHODS@)
            &&& header_of(resp.headers, ALLOW_HEADERS@) == Some(ANY_HEADERS@)
            &&& header_of(resp.headers, MAX_AGE@) == Some(MAX_AGE_SECS@)
        } else {
            &&& header_of(resp.headers, ALLOW_ORIGIN@) is None
            &&& header_of(resp.headers, ALLOW_METHODS@) is None
            &&& header_of(resp.headers, ALLOW_HEADERS@) is None
            &&& header_of(resp.headers, MAX_AGE@) is None
        }),
{
    lemma_header_names_differ();
    let p = preflight_spec(req);
    let csp = (CONTENT_SECURITY_POLICY@, CSP_DIRECTIVES@);
    let a = (ALLOW_ORIGIN@, ALLOWED_ORIGIN@);
    let b = (ALLOW_METHODS@, ALLOWED_METHODS@);
    let c = (ALLOW_HEADERS@, ANY_HEADERS@);
    let d = (MAX_AGE@, MAX_AGE_SECS@);
    if origin_allowed(req) {
        lemma_header_of_four(a, b, c, d, CONTENT_SECURITY_POLICY@);
        lemma_header_of_four(a, b, c, d, ALLOW_ORIGIN@);
        lemma_header_of_four(a, b, c, d, ALLOW_METHODS@);
        lemma_header_of_four(a, b, c, d, ALLOW_HEADERS@);
        lemma_header_of_four(a, b, c, d, MAX_AGE@);
    } else {
        assert(header_of(p.headers, CONTENT_SECURITY_POLICY@) is None);
        assert(header_of(p.headers, ALLOW_ORIGIN@) is None);
        assert(header_of(p.headers, ALLOW_METHODS@) is None);
        assert(header_of(p.headers, ALLOW_HEADERS@) is None);
        assert(header_of(p.headers, MAX_AGE@) is None);
    }
    lemma_header_of_push(p.headers, csp, ALLOW_ORIGIN@);
    lemma_header_of_push(p.headers, csp, ALLOW_METHODS@);
    lemma_header_of_push(p.headers, csp, ALLOW_HEADERS@);
    lemma_header_of_push(p.headers, csp, MAX_AGE@);
}

/// Round trip: a path that resolves under the root is looked up as exactly
/// the components it names, and a file found there is served whole, with
/// status 200 and the media type of its extension.
pub proof fn lemma_served_file_round_trip(req: RequestView, contents: Seq<u8>)
    requires
        req.method != Method::Options,
        req.path != HEALTH_PATH@,
        request_target_spec(req.path) is Some,
    ensures
        dispatch_spec(req) matches Outcome::Read(l) && (l.segments == request_target_spec(req.path)->0
            && (advance_spec(req, l, EntryView::File(contents)) matches Outcome::Respond(resp) && (
        resp.status == 200 && resp.body == contents && header_of(resp.headers, CONTENT_TYPE@)
            == Some(content_type_spec(file_name_spec(l.segments)))))),
{
    lemma_header_names_differ();
    let l = crate::serve::LookupView { segments: request_target_spec(req.path)->0, index_tried: false };
    let f = crate::serve::file_response_spec(contents, content_type_spec(file_name_spec(l.segments)));
    let e = Seq::<(Seq<char>, Seq<char>)>::empty();
    assert(f.headers =~= e.push(f.headers[0]));
    assert(header_of(e, CONTENT_TYPE@) is None);
    lemma_header_of_push(e, f.headers[0], CONTENT_TYPE@);
    let c = crate::http::cors_spec(req, f);
    lemma_header_of_push(f.headers, (ALLOW_ORIGIN@, ALLOWED_ORIGIN@), CONTENT_TYPE@);
    lemma_header_of_push(c.headers, (CONTENT_SECURITY_POLICY@, CSP_DIRECTIVES@), CONTENT_TYPE@);
}

/// A path whose `..`, once decoded, climbs above the served root is never
/// looked up: it is answered 403 with an empty body.
pub proof fn lemma_escaping_path_refused(req: RequestView)
    requires
        req.method != Method::Options,
        req.path != HEALTH_PATH@,
        percent_decoded(req.path) matches Some(p) && normalize_spec(p) is None,
    ensures
        dispatch_spec(req) matches Outcome::Respond(resp) && resp.status == 403 && resp.body.len() == 0,
{
}

} // verus!
