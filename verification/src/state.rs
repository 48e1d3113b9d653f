//! The shared state of the service: the registry of entries and the cache
//! of resolved links, and the decision of how to serve one request — use
//! the cached link, or start a resolution and store what it yields.

use vstd::prelude::*;
use crate::cache::{cache_get, cache_insert, cache_map, cache_new, empty_links, LinkCache};
use crate::error::ParseError;
use crate::registry::{merge_upto, first_error, Art, ArtModel, Registry};
use crate::resolve::{start_spec, Action, ActionModel, LinkModel, ResolvedLink, Resolver, StateModel};
use crate::text::lines_of;

verus! {

/// The registry and the link cache, owned together.
pub struct SharedState {
    registry: Registry,
    links: LinkCache,
}

/// The mathematical value of a [`SharedState`]: the entries and the cached
/// links.
pub ghost struct SharedModel {
    pub arts: Seq<ArtModel>,
    pub links: Map<Seq<char>, LinkModel>,
}

impl View for SharedState {
    type V = SharedModel;

    closed spec fn view(&self) -> SharedModel {
        SharedModel { arts: self.registry@, links: cache_map(self.links) }
    }
}

/// How one request is served: with the link already resolved for the
/// picked entry, or by driving a fresh resolution.
pub enum ServePlan {
    Cached { link: ResolvedLink },
    Resolve { resolver: Resolver, action: Action },
}

/// The mathematical value of a [`ServePlan`].
pub ghost enum PlanModel {
    Cached { link: LinkModel },
    Resolve { state: StateModel, action: ActionModel },
}

impl View for ServePlan {
    type V = PlanModel;

    open spec fn view(&self) -> PlanModel {
        match self {
            ServePlan::Cached { link } => PlanModel::Cached { link: link@ },
            ServePlan::Resolve { resolver, action } => PlanModel::Resolve {
                state: resolver@,
                action: action@,
            },
        }
    }
}

/// The plan for serving `art` against the cached links: a hit serves the
/// stored link; a miss starts a resolution.
pub open spec fn plan_spec(links: Map<Seq<char>, LinkModel>, art: ArtModel) -> PlanModel {
    if links.contains_key(art.url.text) {
        PlanModel::Cached { link: links[art.url.text] }
    } else {
        let (state, action) = start_spec(art);
        PlanModel::Resolve { state, action }
    }
}

impl SharedState {
    /// Fresh state around a parsed registry; no link is cached yet.
    pub fn new(registry: Registry) -> (r: SharedState)
        ensures
            r@.arts == registry@,
            r@.links == empty_links(),
    {
        SharedState { registry, links: cache_new() }
    }

    /// The number of entries in the registry.
    pub fn art_count(&self) -> (r: usize)
        ensures
            r == self@.arts.len(),
    {
        self.registry.len()
    }

    /// An entry chosen at random over the whole registry.
    pub fn pick_random(&self) -> (a: &Art)
        requires
            self@.arts.len() > 0,
        ensures
            exists|i: int| 0 <= i < self@.arts.len() && a@ == #[trigger] self@.arts[i],
    {
        self.registry.pick_random()
    }

    /// Merge new registry text into the registry, as [`Registry::reload`]
    /// does.  The cached links are untouched: entries already known keep
    /// their resolution.
    pub fn reload(&mut self, text: &str) -> (r: Result<(), ParseError>)
        ensures
            final(self)@.arts == merge_upto(old(self)@.arts, lines_of(text@)),
            final(self)@.links == old(self)@.links,
            r is Ok <==> first_error(lines_of(text@)) is None,
            match r {
                Ok(()) => true,
                Err(e) => first_error(lines_of(text@)) == Some(e@),
            },
    {
        self.registry.reload(text)
    }

    /// How to serve a request for `art`: the cached link when one is
    /// stored under its source URL, else a resolution to drive, started on
    /// its first action.
    pub fn begin_request(&self, art: &Art) -> (r: ServePlan)
        ensures
            r@ == plan_spec(self@.links, art@),
    {
        match cache_get(&self.links, &art.url.text) {
            Some(link) => ServePlan::Cached { link },
            None => {
                let (resolver, action) = Resolver::start(art);
                ServePlan::Resolve { resolver, action }
            },
        }
    }

    /// Store the link a resolution yielded for `art`'s source URL.  Nothing
    /// else changes; failed resolutions store nothing.
    pub fn store_link(&mut self, art: &Art, link: ResolvedLink)
        ensures
            final(self)@.arts == old(self)@.arts,
            final(self)@.links == old(self)@.links.insert(art@.url.text, link@),
    {
        cache_insert(&mut self.links, art.url.text.clone(), link);
    }
}

/// Serving the same source again after its link was stored is a cache hit:
/// the stored link comes straight back and no fetch is requested.
pub proof fn lemma_second_request_cached(
    links: Map<Seq<char>, LinkModel>,
    art: ArtModel,
    link: LinkModel,
)
    ensures
        plan_spec(links.insert(art.url.text, link), art) == (PlanModel::Cached { link }),
{
}

} // verus!
