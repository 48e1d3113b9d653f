//! The memoizing cache of resolved links, keyed by the source URL's text.
//! It only ever grows: no eviction, no expiry, no invalidation.
//!
//! The cache is a concurrent map of an outside crate; the library reads and
//! writes it only through the trusted operations below, whose contracts
//! speak of the map of links it holds.

use vstd::prelude::*;
use dashmap::DashMap;

use crate::resolve::{LinkModel, ResolvedLink};

verus! {

/// The cache of resolved links.  Its one field is the concurrent map that
/// backs it; the library sees it only as the map of links it holds.
#[verifier::external_body]
pub struct LinkCache {
    links: DashMap<String, ResolvedLink>,
}

/// The links a cache holds, as a map from source URL text to link value.
pub uninterp spec fn cache_map(c: LinkCache) -> Map<Seq<char>, LinkModel>;

/// The map of links of a cache that holds nothing.
pub open spec fn empty_links() -> Map<Seq<char>, LinkModel> {
    Map::empty()
}

impl View for LinkCache {
    type V = Map<Seq<char>, LinkModel>;

    open spec fn view(&self) -> Map<Seq<char>, LinkModel> {
        cache_map(*self)
    }
}

/// Relies on `dashmap::DashMap::new`: the new cache holds nothing.
#[verifier::external_body]
pub(crate) fn cache_new() -> (r: LinkCache)
    ensures
        r@ == empty_links(),
{
    LinkCache { links: DashMap::new() }
}

/// Relies on `dashmap::DashMap::get`, the held value cloned: the link
/// stored under `key`, if any.
#[verifier::external_body]
pub(crate) fn cache_get(c: &LinkCache, key: &String) -> (r: Option<ResolvedLink>)
    ensures
        match r {
            Some(link) => cache_map(*c).contains_key(key@) && link@ == cache_map(*c)[key@],
            None => !cache_map(*c).contains_key(key@),
        },
{
    c.links.get(key).map(|v| v.value().clone())
}

/// Relies on `dashmap::DashMap::insert`: afterwards `key` holds `link` and
/// every other key is untouched.
#[verifier::external_body]
pub(crate) fn cache_insert(c: &mut LinkCache, key: String, link: ResolvedLink)
    ensures
        cache_map(*final(c)) == cache_map(*old(c)).insert(key@, link@),
{
    c.links.insert(key, link);
}

} // verus!
