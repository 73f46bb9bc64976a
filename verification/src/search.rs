//! Searching the server: the results, and the cache key a query is stored
//! under.
use vstd::prelude::*;
use crate::library::MetadataItem;
use crate::instance::{spec_trim, trim};
use crate::text::{lowercase, owned, to_lowercase};

verus! {

broadcast use vstd::string::group_string_axioms;

/// Why a search failed.
#[derive(Debug)]
pub enum SearchError {
    Http(String),
}

/// The search response.
#[derive(Debug, Clone)]
pub struct SearchResponse {
    pub media_container: SearchContainer,
}

/// The results of a search.
#[derive(Debug, Clone)]
pub struct SearchContainer {
    pub metadata: Vec<MetadataItem>,
}

/// The cache key of a query: queries that differ only in surrounding white
/// space or in case share it.
pub open spec fn spec_search_cache_key(base_url: Seq<char>, query: Seq<char>) -> Seq<char> {
    "search:query:"@ + base_url + ":"@ + lowercase(spec_trim(query))
}

/// The cache key of a query.
pub fn search_cache_key(base_url: &str, query: &str) -> (r: String)
    ensures
        r@ == spec_search_cache_key(base_url@, query@),
{
    let mut r = owned("search:query:");
    r.append(base_url);
    r.append(":");
    let t = trim(query);
    let l = to_lowercase(t.as_str());
    r.append(l.as_str());
    r
}

} // verus!
