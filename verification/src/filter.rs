//! The filter of a listing, as the query string it renders to.

use vstd::prelude::*;
use vstd::string::*;

verus! {

/// A filter and sort order for a listing. The pipeline reads one thing of
/// it: the query string it renders to, which is empty where nothing is set.
#[derive(Debug)]
pub struct Filter {
    query: String,
}

impl View for Filter {
    type V = Seq<char>;

    closed spec fn view(&self) -> Seq<char> {
        self.query@
    }
}

impl Default for Filter {
    /// The filter that sets nothing.
    fn default() -> (filter: Self)
        ensures
            filter@ == Seq::<char>::empty(),
    {
        Filter { query: String::new() }
    }
}

impl Filter {
    /// The filter that renders to `query`.
    pub fn new(query: &str) -> (filter: Self)
        ensures
            filter@ == query@,
    {
        Filter { query: String::from_str(query) }
    }

    /// The query string of the filter; empty where nothing is set.
    pub fn to_query_string(&self) -> (query: String)
        ensures
            query@ == self@,
    {
        self.query.clone()
    }
}

/// `path` with `query` behind a `?`, or `path` alone where the query is
/// empty.
pub open spec fn with_query(path: Seq<char>, query: Seq<char>) -> Seq<char> {
    if query.len() == 0 {
        path
    } else {
        path + seq!['?'] + query
    }
}

/// Joins a path and a query string.
pub fn join_query(path: String, query: &str) -> (uri: String)
    ensures
        uri@ == with_query(path@, query@),
{
    if query.is_empty() {
        path
    } else {
        proof {
            reveal_strlit("?");
        }
        let mut uri = path;
        uri.append("?");
        uri.append(query);
        assert(uri@ =~= path@ + seq!['?'] + query@);
        uri
    }
}

} // verus!
