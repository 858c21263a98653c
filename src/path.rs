use vstd::prelude::*;
use crate::error::{Error, message_spec};
use vstd::string::StringExecFns;
use crate::text::{chars_of, string_of};

verus! {

/// The message of the error reported for a path that leaves the served root.
pub const FORBIDDEN: &'static str = "forbidden";

/// The message of the error reported for a path with nothing behind it.
pub const NOT_FOUND: &'static str = "not found";

/// The views of a sequence of strings.
pub open spec fn texts(v: Seq<String>) -> Seq<Seq<char>> {
    v.map_values(|s: String| s@)
}

/// The parts of `s` between slashes, in order; `s` with no slash is one part.
pub open spec fn split_spec(s: Seq<char>) -> Seq<Seq<char>>
    decreases s.len(),
{
    if s.len() == 0 {
        seq![Seq::empty()]
    } else {
        let init = split_spec(s.drop_last());
        if s.last() == '/' {
            init.push(Seq::empty())
        } else {
            init.update(init.len() - 1, init.last().push(s.last()))
        }
    }
}

pub open spec fn is_dot(seg: Seq<char>) -> bool {
    seg == seq!['.']
}

pub open spec fn is_dot_dot(seg: Seq<char>) -> bool {
    seg == seq!['.', '.']
}

/// One part applied to the directory stack: empty parts and `.` stay put,
/// `..` goes up one level and fails above the root, a name goes down.
pub open spec fn step_spec(st: Option<Seq<Seq<char>>>, seg: Seq<char>) -> Option<Seq<Seq<char>>> {
    match st {
        None => None,
        Some(stack) => if seg.len() == 0 || is_dot(seg) {
            Some(stack)
        } else if is_dot_dot(seg) {
            if stack.len() == 0 {
                None
            } else {
                Some(stack.drop_last())
            }
        } else {
            Some(stack.push(seg))
        },
    }
}

pub open spec fn norm_spec(segs: Seq<Seq<char>>) -> Option<Seq<Seq<char>>>
    decreases segs.len(),
{
    if segs.len() == 0 {
        Some(Seq::empty())
    } else {
        step_spec(norm_spec(segs.drop_last()), segs.last())
    }
}

/// The components, below the served root, that a request path names; `None`
/// where a `..` would climb above the root.
pub open spec fn normalize_spec(path: Seq<char>) -> Option<Seq<Seq<char>>> {
    norm_spec(split_spec(path))
}

/// A component that names an entry inside its directory.
pub open spec fn is_normal_component(seg: Seq<char>) -> bool {
    &&& seg.len() > 0
    &&& !is_dot(seg)
    &&& !is_dot_dot(seg)
    &&& !seg.contains('/')
}

/// The text that `percent_encoding` decodes from `s`: each `%` followed by
/// two hexadecimal digits stands for the byte they spell; `None` where the
/// decoded bytes are not UTF-8.
pub uninterp spec fn percent_decoded(s: Seq<char>) -> Option<Seq<char>>;

/// Relies on `percent_encoding::percent_decode_str` and `PercentDecode::decode_utf8`:
/// the decoded text, or none where the decoded bytes are not UTF-8.
#[verifier::external_body]
fn decode_percent(s: &str) -> (r: Option<String>)
    ensures
        match r {
            Some(d) => percent_decoded(s@) == Some(d@),
            None => percent_decoded(s@) is None,
        },
{
    percent_encoding::percent_decode_str(s).decode_utf8().ok().map(std::borrow::Cow::into_owned)
}

/// What a request path names under the served root once decoded: `None`
/// where it does not decode or climbs above the root.
pub open spec fn request_target_spec(path: Seq<char>) -> Option<Seq<Seq<char>>> {
    match percent_decoded(path) {
        Some(p) => normalize_spec(p),
        None => None,
    }
}

pub open spec fn is_forbidden(e: &Error) -> bool {
    e is StaticFile && message_spec(e) == FORBIDDEN@
}

pub proof fn lemma_messages_differ()
    ensures
        NOT_FOUND@ != FORBIDDEN@,
{
    reveal_strlit("not found");
    reveal_strlit("forbidden");
    assert(NOT_FOUND@[0] != FORBIDDEN@[0]);
}

pub proof fn lemma_split_len(s: Seq<char>)
    ensures
        split_spec(s).len() >= 1,
    decreases s.len(),
{
    if s.len() > 0 {
        lemma_split_len(s.drop_last());
    }
}

pub proof fn lemma_split_no_slash(s: Seq<char>)
    ensures
        forall|i: int| 0 <= i < split_spec(s).len() ==> !(#[trigger] split_spec(s)[i]).contains('/'),
    decreases s.len(),
{
    if s.len() > 0 {
        let init = split_spec(s.drop_last());
        lemma_split_no_slash(s.drop_last());
        lemma_split_len(s.drop_last());
        if s.last() != '/' {
            let last = init.last().push(s.last());
            assert forall|j: int| 0 <= j < last.len() implies last[j] != '/' by {
                if j < last.len() - 1 {
                    assert(last[j] == init.last()[j]);
                    assert(!init.last().contains('/'));
                }
            }
        } else {
            assert forall|i: int| 0 <= i < split_spec(s).len() implies !(#[trigger] split_spec(s)[i]).contains('/') by {
                if i == init.len() {
                    assert(split_spec(s)[i] == Seq::<char>::empty());
                }
            }
        }
    }
}

proof fn lemma_norm_components(segs: Seq<Seq<char>>)
    requires
        forall|i: int| 0 <= i < segs.len() ==> !(#[trigger] segs[i]).contains('/'),
    ensures
        norm_spec(segs) matches Some(st) ==> forall|i: int| 0 <= i < st.len() ==> is_normal_component(#[trigger] st[i]),
    decreases segs.len(),
{
    if segs.len() > 0 {
        let init = segs.drop_last();
        assert forall|i: int| 0 <= i < init.len() implies !(#[trigger] init[i]).contains('/') by {
            assert(init[i] == segs[i]);
        }
        lemma_norm_components(init);
        assert(!segs[segs.len() - 1].contains('/'));
    }
}

/// Containment: a path that resolves names only ordinary components, so the
/// file it denotes lies under the served root; a path whose `..` climbs above
/// the root does not resolve at all.
pub proof fn lemma_resolution_stays_under_root(path: Seq<char>)
    ensures
        normalize_spec(path) matches Some(st) ==> forall|i: int| 0 <= i < st.len() ==> is_normal_component(#[trigger] st[i]),
{
    lemma_split_no_slash(path);
    lemma_norm_components(split_spec(path));
}

/// Applies one part to the stack; false where `..` would climb above the root.
fn apply_segment(stack: &mut Vec<String>, seg: &Vec<char>) -> (ok: bool)
    ensures
        ok == step_spec(Some(texts(old(stack)@)), seg@) is Some,
        ok ==> step_spec(Some(texts(old(stack)@)), seg@) == Some(texts(final(stack)@)),
{
    let n = seg.len();
    if n == 0 {
        return true;
    }
    if n == 1 && seg[0] == '.' {
        assert(seg@ =~= seq!['.']);
        return true;
    }
    if n == 2 && seg[0] == '.' && seg[1] == '.' {
        assert(seg@ =~= seq!['.', '.']);
        if stack.len() == 0 {
            return false;
        }
        let ghost before = stack@;
        stack.pop();
        assert(texts(stack@) =~= texts(before).drop_last());
        return true;
    }
    assert(!is_dot(seg@)) by {
        if is_dot(seg@) {
            assert(seg@[0] == seq!['.'][0]);
        }
    }
    assert(!is_dot_dot(seg@)) by {
        if is_dot_dot(seg@) {
            assert(seg@[0] == seq!['.', '.'][0] && seg@[1] == seq!['.', '.'][1]);
        }
    }
    let ghost before = stack@;
    stack.push(string_of(seg));
    assert(texts(stack@) =~= texts(before).push(seg@));
    true
}

/// Resolves a request path to the components it names under the served root.
pub fn resolve(path: &str) -> (r: Result<Vec<String>, Error>)
    ensures
        match r {
            Ok(v) => normalize_spec(path@) == Some(texts(v@)),
            Err(e) => normalize_spec(path@) is None && is_forbidden(&e),
        },
{
    let cs = chars_of(path);
    let mut stack: Vec<String> = Vec::new();
    let mut cur: Vec<char> = Vec::new();
    let mut escaped = false;
    let ghost mut done: Seq<Seq<char>> = Seq::empty();
    let mut i: usize = 0;
    assert(texts(stack@) =~= Seq::<Seq<char>>::empty());
    assert(cs@.take(0) =~= Seq::<char>::empty());
    while i < cs.len()
        invariant
            i <= cs.len(),
            split_spec(cs@.take(i as int)) == done.push(cur@),
            escaped ==> norm_spec(done) is None,
            !escaped ==> norm_spec(done) == Some(texts(stack@)),
        decreases cs.len() - i,
    {
        let c = cs[i];
        assert(cs@.take(i + 1).drop_last() =~= cs@.take(i as int));
        assert(cs@.take(i + 1).last() == c);
        if c == '/' {
            assert(done.push(cur@).drop_last() =~= done);
            if !escaped {
                let ok = apply_segment(&mut stack, &cur);
                escaped = !ok;
            }
            proof {
                done = done.push(cur@);
            }
            cur = Vec::new();
            assert(split_spec(cs@.take(i + 1)) =~= done.push(cur@));
        } else {
            let ghost old_cur = cur@;
            cur.push(c);
            assert(split_spec(cs@.take(i + 1)) =~= done.push(cur@));
        }
        i = i + 1;
    }
    assert(cs@.take(i as int) =~= path@);
    assert(done.push(cur@).drop_last() =~= done);
    if escaped {
        return Err(Error::StaticFile(String::from_str(FORBIDDEN)));
    }
    let ok = apply_segment(&mut stack, &cur);
    if !ok {
        return Err(Error::StaticFile(String::from_str(FORBIDDEN)));
    }
    Ok(stack)
}

/// Percent-decodes a request path and resolves it under the served root.
/// Undecodable text is reported as not found, a climb above the root as
/// forbidden.
pub fn resolve_request_path(path: &str) -> (r: Result<Vec<String>, Error>)
    ensures
        match r {
            Ok(v) => request_target_spec(path@) == Some(texts(v@)),
            Err(e) => request_target_spec(path@) is None && (if percent_decoded(path@) is None {
                e is StaticFile && message_spec(&e) == NOT_FOUND@
            } else {
                is_forbidden(&e)
            }),
        },
{
    match decode_percent(path) {
        Some(d) => resolve(d.as_str()),
        None => Err(Error::StaticFile(String::from_str(NOT_FOUND))),
    }
}

} // verus!
