//! Putting two descriptions of an API together.

use crate::text::{same_text, trim_end, trim_start, trimmed_end, trimmed_start};
use vstd::prelude::*;
use vstd::string::*;

verus! {

/// The items of a list that may be absent.
pub open spec fn items<T>(list: Option<Vec<T>>) -> Option<Seq<T>> {
    match list {
        Some(list) => Some(list@),
        None => None,
    }
}

/// Two lists as one: the items of the first, then those of the second; absent
/// where both are.
pub open spec fn merged<T>(a: Option<Seq<T>>, b: Option<Seq<T>>) -> Option<Seq<T>> {
    match (a, b) {
        (Some(a_values), Some(b_values)) => Some(a_values + b_values),
        (Some(a_values), None) => Some(a_values),
        (None, Some(b_values)) => Some(b_values),
        (None, None) => None,
    }
}

/// Merges two lists that may be absent.
pub fn merge<T>(a: Option<Vec<T>>, b: Option<Vec<T>>) -> (all: Option<Vec<T>>)
    ensures
        items(all) == merged(items(a), items(b)),
{
    match (a, b) {
        (Some(mut a_values), Some(mut b_values)) => {
            a_values.append(&mut b_values);
            Some(a_values)
        },
        (Some(a_values), None) => Some(a_values),
        (None, Some(b_values)) => Some(b_values),
        (None, None) => None,
    }
}

/// The path of a route once the API is put under a prefix: a slash, the
/// prefix without the slashes around it, a slash, and the path without the
/// slashes before it.
pub open spec fn prefixed(prefix_path: Seq<char>, key: Seq<char>) -> Seq<char> {
    "/"@ + trimmed_end(trimmed_start(prefix_path, '/'), '/') + "/"@ + trimmed_start(key, '/')
}

/// Puts the path of a route under a prefix.
pub fn prefixed_path(prefix_path: &str, key: &str) -> (path: String)
    ensures
        path@ == prefixed(prefix_path@, key@),
{
    assert(0x2fu8 as char == '/');
    let prefix = trim_end(trim_start(prefix_path, 0x2f), 0x2f);
    let key = trim_start(key, 0x2f);
    "/".to_owned().concat(prefix).concat("/").concat(key)
}

/// A path from the root: a slash, and the path without the slashes before it.
pub open spec fn rooted(path: Seq<char>) -> Seq<char> {
    "/"@ + trimmed_start(path, '/')
}

/// Makes a path start at the root.
pub fn rooted_path(path: &str) -> (rooted: String)
    ensures
        rooted@ == self::rooted(path@),
{
    assert(0x2fu8 as char == '/');
    "/".to_owned().concat(trim_start(path, 0x2f))
}

/// The name of a path: the path without the slashes around it.
pub fn path_name(path: &str) -> (name: String)
    ensures
        name@ == trimmed_end(trimmed_start(path@, '/'), '/'),
{
    assert(0x2fu8 as char == '/');
    trim_end(trim_start(path, 0x2f), 0x2f).to_owned()
}

/// The page of the documentation under a name: the name between two slashes.
pub open spec fn page(name: Seq<char>) -> Seq<char> {
    "/"@ + name + "/"@
}

/// Where a request for the documentation is sent on to: to the page, where
/// the path of the request is the page without the slashes that it ends with.
pub open spec fn redirection(full_path: Seq<char>, name: Seq<char>) -> Option<Seq<char>> {
    if full_path == trimmed_end(page(name), '/') {
        Some(page(name))
    } else {
        None
    }
}

/// Tells where to send a request for the documentation on to, if anywhere.
pub fn swagger_redirect(full_path: &str, name: &str) -> (target: Option<String>)
    ensures
        target.deep_view() == redirection(full_path@, name@),
{
    assert(0x2fu8 as char == '/');
    let page = "/".to_owned().concat(name).concat("/");
    if same_text(full_path, trim_end(page.as_str(), 0x2f)) {
        Some(page)
    } else {
        None
    }
}

} // verus!
