//! A request as the gateway reads it: the method, the path as it stands in
//! the URI, the parameters of the query once decoded, and the body where it
//! is a JSON document that says to abort or to complete an upload.

use crate::multipart_upload::abort_or_complete::{
    AbortOrCompleteUploadBody, AbortOrCompleteUploadBodyView,
};
use crate::text::{lemma_pieces_not_empty, pieces, same_text, split, strip_first};
use vstd::prelude::*;
use vstd::string::*;
use vstd::utf8::*;

verus! {

/// The method of a request.
#[derive(Debug, Clone, Copy, PartialEq, Eq, Structural)]
pub enum Method {
    Get,
    Post,
    Put,
    Delete,
    Patch,
    Options,
    Head,
    Other,
}

/// A request.
#[derive(Debug, Clone, PartialEq, Eq)]
pub struct Request {
    pub method: Method,
    pub path: String,
    pub query: Vec<(String, String)>,
    pub body: Option<AbortOrCompleteUploadBody>,
}

pub struct RequestView {
    pub method: Method,
    pub path: Seq<char>,
    pub query: Seq<(Seq<char>, Seq<char>)>,
    pub body: Option<AbortOrCompleteUploadBodyView>,
}

impl View for Request {
    type V = RequestView;

    open spec fn view(&self) -> RequestView {
        RequestView {
            method: self.method,
            path: self.path@,
            query: self.query.deep_view(),
            body: self.body.deep_view(),
        }
    }
}

/// The byte that parts the segments of a path.
pub const SLASH: u8 = 0x2f;

/// The segments of a path: what stands between its slashes, without the slash
/// that the path starts with and without what follows a slash that it ends
/// with. A segment is empty where two slashes meet.
pub open spec fn path_segments(path: Seq<char>) -> Seq<Seq<char>> {
    let inner = if path.len() > 0 && path[0] == '/' {
        path.skip(1)
    } else {
        path
    };
    let all = pieces(inner, '/');
    if all.last().len() == 0 {
        all.drop_last()
    } else {
        all
    }
}

/// Reads the segments of a path.
pub fn segments(path: &str) -> (parts: Vec<String>)
    ensures
        parts.deep_view() == path_segments(path@),
{
    let inner: &str = match strip_first(path, SLASH) {
        Some(inner) => {
            assert(path@.drop_first() =~= path@.skip(1));
            inner
        },
        None => path,
    };
    assert(SLASH as char == '/');
    let mut parts = split(inner, SLASH);
    let ghost all = parts.deep_view();
    proof {
        lemma_pieces_not_empty(inner@, '/');
        assert(all.len() == parts.len());
    }
    let last = parts.len() - 1;
    if parts[last].as_str().is_empty() {
        parts.pop();
        assert(parts.deep_view() =~= all.drop_last());
    }
    parts
}

/// The values of the parameters of a query that have a given name, in the
/// order of the query.
pub open spec fn values_of(query: Seq<(Seq<char>, Seq<char>)>, name: Seq<char>) -> Seq<Seq<char>>
    decreases query.len(),
{
    if query.len() == 0 {
        Seq::empty()
    } else {
        let before = values_of(query.drop_last(), name);
        if query.last().0 == name {
            before.push(query.last().1)
        } else {
            before
        }
    }
}

/// A parameter that has to be there: its value where the query has it once,
/// nothing where the query lacks it or has it more than once.
pub open spec fn required_parameter(query: Seq<(Seq<char>, Seq<char>)>, name: Seq<char>) -> Option<
    Seq<char>,
> {
    let values = values_of(query, name);
    if values.len() == 1 {
        Some(values[0])
    } else {
        None
    }
}

/// A parameter that may be left out: whether the query has it at most once,
/// and its value where the query has it.
pub open spec fn optional_parameter(query: Seq<(Seq<char>, Seq<char>)>, name: Seq<char>) -> Option<
    Option<Seq<char>>,
> {
    let values = values_of(query, name);
    if values.len() == 0 {
        Some(None)
    } else if values.len() == 1 {
        Some(Some(values[0]))
    } else {
        None
    }
}

/// Collects the values of the parameters of a query that have a given name.
fn values(query: &Vec<(String, String)>, name: &str) -> (found: Vec<String>)
    ensures
        found.deep_view() == values_of(query.deep_view(), name@),
{
    let mut found: Vec<String> = Vec::new();
    let ghost all = query.deep_view();
    assert(found.deep_view() =~= Seq::<Seq<char>>::empty());
    assert(all.take(0) =~= Seq::empty());
    let mut i: usize = 0;
    while i < query.len()
        invariant
            i <= query.len(),
            all == query.deep_view(),
            found.deep_view() == values_of(all.take(i as int), name@),
        decreases query.len() - i,
    {
        let ghost before = found.deep_view();
        assert(all.take(i + 1).drop_last() =~= all.take(i as int));
        assert(all.take(i + 1).last() == all[i as int]);
        if same_text(query[i].0.as_str(), name) {
            found.push(query[i].1.clone());
            assert(found.deep_view() =~= before.push(all[i as int].1));
        }
        i += 1;
    }
    assert(all.take(query.len() as int) =~= all);
    found
}

/// Reads a parameter that has to be there.
pub fn required(query: &Vec<(String, String)>, name: &str) -> (value: Option<String>)
    ensures
        value.deep_view() == required_parameter(query.deep_view(), name@),
{
    let mut found = values(query, name);
    if found.len() == 1 {
        found.pop()
    } else {
        None
    }
}

/// Reads a parameter that may be left out.
pub fn optional(query: &Vec<(String, String)>, name: &str) -> (value: Option<Option<String>>)
    ensures
        value.deep_view() == optional_parameter(query.deep_view(), name@),
{
    let mut found = values(query, name);
    if found.len() == 0 {
        Some(None)
    } else if found.len() == 1 {
        Some(found.pop())
    } else {
        None
    }
}

} // verus!
