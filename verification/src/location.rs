//! Database locations: the scheme `sqlite://` followed by the path of the
//! database file.

use crate::path::chars_of;
use vstd::prelude::*;

verus! {

/// The prefix that marks a location as a local SQLite database file.
pub const SCHEME: &'static str = "sqlite://";

/// Why a string is no location of a database file.
#[derive(Debug, Clone, Copy, PartialEq, Eq)]
pub enum LocationError {
    /// It does not start with `sqlite://`.
    MissingScheme,
}

/// Whether `url` starts with the scheme.
pub open spec fn has_scheme(url: Seq<char>) -> bool {
    SCHEME@.is_prefix_of(url)
}

/// The path of the database file in `url`: what follows the scheme.
pub open spec fn database_path(url: Seq<char>) -> Seq<char>
    recommends
        has_scheme(url),
{
    url.skip(SCHEME@.len() as int)
}

/// The location of the database file at `path`.
pub open spec fn location_of(path: Seq<char>) -> Seq<char> {
    SCHEME@ + path
}

/// Every path has a location, and the location gives the path back.
pub proof fn lemma_path_of_location(path: Seq<char>)
    ensures
        has_scheme(location_of(path)),
        database_path(location_of(path)) == path,
{
    assert(location_of(path).subrange(0, SCHEME@.len() as int) == SCHEME@);
}

/// A location is the scheme followed by its path, and nothing else.
pub proof fn lemma_location_of_path(url: Seq<char>)
    requires
        has_scheme(url),
    ensures
        location_of(database_path(url)) == url,
{
}

/// Whether `text` starts with `prefix`.
fn starts_with(text: &Vec<char>, prefix: &Vec<char>) -> (found: bool)
    ensures
        found == prefix@.is_prefix_of(text@),
{
    if prefix.len() > text.len() {
        return false;
    }
    let mut i: usize = 0;
    while i < prefix.len()
        invariant
            i <= prefix.len() <= text.len(),
            prefix@.take(i as int) == text@.take(i as int),
        decreases prefix.len() - i,
    {
        if prefix[i] != text[i] {
            assert(prefix@[i as int] != text@.subrange(0, prefix@.len() as int)[i as int]);
            return false;
        }
        assert(prefix@.take(i + 1) == prefix@.take(i as int).push(prefix@[i as int]));
        assert(text@.take(i + 1) == text@.take(i as int).push(text@[i as int]));
        i += 1;
    }
    assert(prefix@.take(i as int) == prefix@);
    true
}

/// Takes the scheme off `url`: the path of the database file, or `None` where
/// `url` does not start with the scheme.
pub fn strip_scheme(url: &str) -> (path: Option<&str>)
    ensures
        path is Some <==> has_scheme(url@),
        path matches Some(p) ==> p@ == database_path(url@),
{
    let scheme = chars_of(SCHEME);
    let text = chars_of(url);
    if starts_with(&text, &scheme) {
        Some(url.substring_char(scheme.len(), text.len()))
    } else {
        None
    }
}

} // verus!
