use vstd::prelude::*;
use vstd::string::StringExecFns;
use crate::error::{Error, message_spec};
use crate::http::{Response, ResponseView, CONTENT_TYPE};
use crate::path::{texts, is_forbidden, FORBIDDEN, NOT_FOUND};
use crate::text::{chars_of, string_of};

verus! {

/// The document tried when a path names a directory.
pub const INDEX_DOCUMENT: &'static str = "index.html";

/// The media type of a file whose extension has no registered type.
pub const OCTET_STREAM: &'static str = "application/octet-stream";

/// The message of the error reported when a file could not be read.
pub const READ_FAILED: &'static str = "file read failed";

/// The media type that the registry of the `mime_guess` crate lists first for
/// a file extension, if it lists any.
pub uninterp spec fn mime_of_ext(ext: Seq<char>) -> Option<Seq<char>>;

/// Relies on `mime_guess::from_ext` and `MimeGuess::first_raw`: the first media
/// type registered for the extension, none for an empty or unknown extension.
#[verifier::external_body]
fn guess_mime(ext: &str) -> (r: Option<String>)
    ensures
        match r {
            Some(m) => mime_of_ext(ext@) == Some(m@),
            None => mime_of_ext(ext@) is None,
        },
        ext@.len() == 0 ==> r is None,
{
    mime_guess::from_ext(ext).first_raw().map(String::from)
}

/// The index of the last `.` in `s`, if any.
pub open spec fn last_dot(s: Seq<char>) -> Option<int>
    decreases s.len(),
{
    if s.len() == 0 {
        None
    } else if s.last() == '.' {
        Some(s.len() - 1)
    } else {
        last_dot(s.drop_last())
    }
}

/// What follows the last `.` of a file name; empty where there is no `.`.
pub open spec fn extension_spec(name: Seq<char>) -> Seq<char> {
    match last_dot(name) {
        Some(i) => name.subrange(i + 1, name.len() as int),
        None => Seq::empty(),
    }
}

/// The media type sent for a file name: the registered type of its extension,
/// else the octet-stream fallback.
pub open spec fn content_type_spec(name: Seq<char>) -> Seq<char> {
    match mime_of_ext(extension_spec(name)) {
        Some(m) => m,
        None => OCTET_STREAM@,
    }
}

/// The last component of a lookup, the name whose extension decides the type.
pub open spec fn file_name_spec(segs: Seq<Seq<char>>) -> Seq<char> {
    if segs.len() == 0 {
        Seq::empty()
    } else {
        segs.last()
    }
}

/// The extension of a file name.
pub fn extension(name: &str) -> (r: String)
    ensures
        r@ == extension_spec(name@),
{
    let cs = chars_of(name);
    let mut j: usize = cs.len();
    assert(cs@.take(j as int) =~= cs@);
    let mut dot: Option<usize> = None;
    loop
        invariant_except_break
            j <= cs.len(),
            dot is None,
            last_dot(cs@) == last_dot(cs@.take(j as int)),
        ensures
            dot matches Some(d) ==> last_dot(cs@) == Some(d as int) && d < cs.len(),
            dot is None ==> last_dot(cs@) is None,
        decreases j,
    {
        if j == 0 {
            assert(cs@.take(0) =~= Seq::<char>::empty());
            assert(last_dot(cs@.take(0)) is None);
            break;
        }
        if cs[j - 1] == '.' {
            assert(cs@.take(j as int).last() == '.');
            assert(last_dot(cs@.take(j as int)) == Some(j - 1));
            dot = Some(j - 1);
            break;
        }
        assert(cs@.take(j as int).drop_last() =~= cs@.take(j - 1));
        j = j - 1;
    }
    let mut ext: Vec<char> = Vec::new();
    match dot {
        Some(d) => {
            let mut k: usize = d + 1;
            while k < cs.len()
                invariant
                    d + 1 <= k <= cs.len(),
                    ext@ == cs@.subrange(d + 1, k as int),
                decreases cs.len() - k,
            {
                ext.push(cs[k]);
                k = k + 1;
            }
        },
        None => {},
    }
    assert(ext@ =~= extension_spec(name@));
    string_of(&ext)
}

/// The media type sent for a file called `name`.
pub fn content_type(name: &str) -> (r: String)
    ensures
        r@ == content_type_spec(name@),
{
    let ext = extension(name);
    match guess_mime(ext.as_str()) {
        Some(m) => m,
        None => String::from_str(OCTET_STREAM),
    }
}

/// What the file system holds at the path of a lookup.
pub enum Entry {
    File(Vec<u8>),
    Directory,
    Missing,
    Denied,
    Failed,
}

pub enum EntryView {
    File(Seq<u8>),
    Directory,
    Missing,
    Denied,
    Failed,
}

impl View for Entry {
    type V = EntryView;

    open spec fn view(&self) -> EntryView {
        match self {
            Entry::File(b) => EntryView::File(b@),
            Entry::Directory => EntryView::Directory,
            Entry::Missing => EntryView::Missing,
            Entry::Denied => EntryView::Denied,
            Entry::Failed => EntryView::Failed,
        }
    }
}

/// A path under the served root that remains to be looked at. The served
/// root is the directory the components are taken relative to.
pub struct Lookup {
    pub segments: Vec<String>,
    pub index_tried: bool,
}

pub struct LookupView {
    pub segments: Seq<Seq<char>>,
    pub index_tried: bool,
}

impl View for Lookup {
    type V = LookupView;

    open spec fn view(&self) -> LookupView {
        LookupView { segments: texts(self.segments@), index_tried: self.index_tried }
    }
}

/// What the pipeline does next: answer, or have a path looked at.
pub enum Step {
    Respond(Response),
    Read(Lookup),
}

pub enum Outcome {
    Respond(ResponseView),
    Read(LookupView),
}

impl View for Step {
    type V = Outcome;

    open spec fn view(&self) -> Outcome {
        match self {
            Step::Respond(r) => Outcome::Respond(r@),
            Step::Read(l) => Outcome::Read(l@),
        }
    }
}

pub open spec fn file_response_spec(body: Seq<u8>, content_type: Seq<char>) -> ResponseView {
    ResponseView { status: 200, headers: seq![(CONTENT_TYPE@, content_type)], body }
}

pub open spec fn is_not_found(e: &Error) -> bool {
    e is StaticFile && message_spec(e) == NOT_FOUND@
}

/// The HTTP status that reports an error: 403 for a forbidden path, 404 for
/// any other static-file failure, 500 for everything else.
pub open spec fn error_status_spec(e: &Error) -> u16 {
    if is_forbidden(e) {
        403
    } else if e is StaticFile {
        404
    } else {
        500
    }
}

/// An error answer carries its status only: no detail reaches the client.
pub open spec fn error_response_spec(e: &Error) -> ResponseView {
    status_response_spec(error_status_spec(e))
}

/// A response with a status, no headers and an empty body.
pub open spec fn status_response_spec(status: u16) -> ResponseView {
    ResponseView { status, headers: Seq::empty(), body: Seq::empty() }
}

pub fn error_response(e: &Error) -> (r: Response)
    ensures
        r@ == error_response_spec(e),
{
    let status: u16 = match e {
        Error::StaticFile(m) => if *m == String::from_str(FORBIDDEN) {
            403
        } else {
            404
        },
        _ => 500,
    };
    let r = Response { status, headers: Vec::new(), body: Vec::new() };
    assert(r@.headers =~= Seq::<(Seq<char>, Seq<char>)>::empty());
    r
}

/// A file's contents served with the media type of its name.
pub fn file_response(body: Vec<u8>, name: &str) -> (r: Response)
    ensures
        r@ == file_response_spec(body@, content_type_spec(name@)),
{
    let mut headers: Vec<(String, String)> = Vec::new();
    headers.push((String::from_str(CONTENT_TYPE), content_type(name)));
    let r = Response { status: 200, headers, body };
    assert(r@.headers =~= file_response_spec(body@, content_type_spec(name@)).headers);
    r
}

/// Decides what follows from what the file system holds at a lookup's path:
/// a file is served, a directory has its index document tried once, and
/// every other outcome is an error.
pub fn examine(lookup: Lookup, entry: Entry) -> (r: Result<Step, Error>)
    ensures
        match entry {
            Entry::File(b) => r matches Ok(Step::Respond(resp)) && resp@ == file_response_spec(
                b@,
                content_type_spec(file_name_spec(lookup@.segments)),
            ),
            Entry::Directory => if lookup.index_tried {
                r matches Err(e) && is_not_found(&e)
            } else {
                r matches Ok(Step::Read(l)) && l@ == (LookupView {
                    segments: lookup@.segments.push(INDEX_DOCUMENT@),
                    index_tried: true,
                })
            },
            Entry::Missing => r matches Err(e) && is_not_found(&e),
            Entry::Denied => r matches Err(e) && is_forbidden(&e),
            Entry::Failed => r matches Err(e) && e is Internal && message_spec(&e) == READ_FAILED@,
        },
{
    match entry {
        Entry::File(b) => {
            let n = lookup.segments.len();
            let resp = if n == 0 {
                proof {
                    reveal_strlit("");
                }
                assert(""@ =~= file_name_spec(lookup@.segments));
                file_response(b, "")
            } else {
                assert(lookup.segments@[n - 1]@ == file_name_spec(lookup@.segments));
                file_response(b, lookup.segments[n - 1].as_str())
            };
            Ok(Step::Respond(resp))
        },
        Entry::Directory => {
            if lookup.index_tried {
                Err(Error::StaticFile(String::from_str(NOT_FOUND)))
            } else {
                let mut segments = lookup.segments;
                let ghost before = segments@;
                segments.push(String::from_str(INDEX_DOCUMENT));
                assert(texts(segments@) =~= texts(before).push(INDEX_DOCUMENT@));
                Ok(Step::Read(Lookup { segments, index_tried: true }))
            }
        },
        Entry::Missing => Err(Error::StaticFile(String::from_str(NOT_FOUND))),
        Entry::Denied => Err(Error::StaticFile(String::from_str(FORBIDDEN))),
        Entry::Failed => Err(Error::Internal(String::from_str(READ_FAILED))),
    }
}

} // verus!
