use vstd::prelude::*;
use vstd::string::StringExecFns;
use crate::http::{
    Method, Request, RequestView, Response, ResponseView, apply_cors, apply_security_headers,
    cors_spec, health, health_spec, preflight, preflight_spec, secure_spec,
};
use crate::path::{lemma_messages_differ, percent_decoded, request_target_spec, resolve_request_path};
use crate::serve::{
    content_type_spec, error_response, examine, file_name_spec, file_response_spec,
    status_response_spec, error_response_spec, Entry, EntryView, Lookup, LookupView, Outcome, Step, INDEX_DOCUMENT,
};

verus! {

/// The path answered by the liveness probe.
pub const HEALTH_PATH: &'static str = "/health";

/// Every response leaves through the CORS layer and then the header layer.
pub open spec fn finish_spec(req: RequestView, r: ResponseView) -> ResponseView {
    secure_spec(cors_spec(req, r))
}

/// The first step for a request: a preflight is answered by the CORS layer,
/// the probe path by the liveness handler, and every other path is decoded
/// and resolved under the served root.
pub open spec fn dispatch_spec(req: RequestView) -> Outcome {
    if req.method == Method::Options {
        Outcome::Respond(finish_spec(req, preflight_spec(req)))
    } else if req.path == HEALTH_PATH@ {
        Outcome::Respond(finish_spec(req, health_spec()))
    } else {
        match request_target_spec(req.path) {
            None => Outcome::Respond(
                finish_spec(req, status_response_spec(if percent_decoded(req.path) is None { 404 } else { 403 })),
            ),
            Some(segs) => Outcome::Read(LookupView { segments: segs, index_tried: false }),
        }
    }
}

/// The step that follows what the file system holds at a lookup's path.
pub open spec fn advance_spec(req: RequestView, l: LookupView, e: EntryView) -> Outcome {
    match e {
        EntryView::File(b) => Outcome::Respond(
            finish_spec(req, file_response_spec(b, content_type_spec(file_name_spec(l.segments)))),
        ),
        EntryView::Directory => if l.index_tried {
            Outcome::Respond(finish_spec(req, status_response_spec(404)))
        } else {
            Outcome::Read(LookupView { segments: l.segments.push(INDEX_DOCUMENT@), index_tried: true })
        },
        EntryView::Missing => Outcome::Respond(finish_spec(req, status_response_spec(404))),
        EntryView::Denied => Outcome::Respond(finish_spec(req, status_response_spec(403))),
        EntryView::Failed => Outcome::Respond(finish_spec(req, status_response_spec(500))),
    }
}

/// Runs a handler's response out through the CORS and header layers.
pub fn finish(req: &Request, resp: Response) -> (r: Response)
    ensures
        r@ == finish_spec(req@, resp@),
{
    apply_security_headers(apply_cors(req, resp))
}

/// Takes a request as far as it goes without the file system.
pub fn dispatch(req: &Request) -> (r: Step)
    ensures
        r@ == dispatch_spec(req@),
{
    if req.method == Method::Options {
        return Step::Respond(finish(req, preflight(req)));
    }
    if req.path == String::from_str(HEALTH_PATH) {
        return Step::Respond(finish(req, health()));
    }
    proof {
        lemma_messages_differ();
    }
    match resolve_request_path(req.path.as_str()) {
        Ok(segments) => Step::Read(Lookup { segments, index_tried: false }),
        Err(e) => Step::Respond(finish(req, error_response(&e))),
    }
}

/// Takes a request one step further once the file system has been consulted.
pub fn advance(req: &Request, lookup: Lookup, entry: Entry) -> (r: Step)
    ensures
        r@ == advance_spec(req@, lookup@, entry@),
{
    proof {
        lemma_messages_differ();
    }
    match examine(lookup, entry) {
        Ok(step) => match step {
            Step::Respond(resp) => Step::Respond(finish(req, resp)),
            Step::Read(l) => Step::Read(l),
        },
        Err(e) => {
            Step::Respond(finish(req, error_response(&e)))
        },
    }
}

} // verus!
