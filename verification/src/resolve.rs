//! Resolution of a source link into a direct image link.
//!
//! Resolution needs outbound GETs, which the library does not perform
//! itself: [`Resolver`] is a step machine.  [`Resolver::start`] hands the
//! host the first fetch to perform, and each [`Resolver::step`] takes the
//! outcome of the previous fetch and decides the next action, until the
//! action is a result.  Everything the machine decides — the mirror URL, the
//! retry policy, the cross-site fallback, the sample probes — is verified;
//! the host only moves bytes.

use vstd::prelude::*;
use vstd::string::*;

use crate::error::ResolveError;
use crate::registry::{Art, ArtKind, ArtModel};
use crate::text::{after_last, before_first, contains_seq, str_contains};
use crate::url::{parsed_url, Url, UrlModel};

verus! {

/// A resolved link: the direct image URL, and, when resolution found a
/// better origin than the catalogued one, the corrected source.
#[derive(Debug)]
pub struct ResolvedLink {
    pub image_url: String,
    pub new_source: Option<Url>,
}

/// The mathematical value of a [`ResolvedLink`].
pub ghost struct LinkModel {
    pub image_url: Seq<char>,
    pub new_source: Option<UrlModel>,
}

impl View for ResolvedLink {
    type V = LinkModel;

    open spec fn view(&self) -> LinkModel {
        LinkModel { image_url: self.image_url@, new_source: self.new_source.deep_view() }
    }
}

impl Clone for ResolvedLink {
    fn clone(&self) -> (r: Self)
        ensures
            r@ == self@,
    {
        ResolvedLink {
            image_url: self.image_url.clone(),
            new_source: match &self.new_source {
                Some(u) => Some(u.clone()),
                None => None,
            },
        }
    }
}

// ---------------------------------------------------------------------------
// URL texts the resolver builds
// ---------------------------------------------------------------------------

/// The mirror URL for a Twitter-kind source: the source's path and query
/// moved onto the fixed mirror authority.
pub open spec fn mirror_url_spec(u: UrlModel) -> Seq<char> {
    "https://d.fxtwitter.com"@ + u.path + match u.query {
        Some(q) => "?"@ + q,
        None => Seq::empty(),
    }
}

/// The post-lookup URL for a Safebooru-kind source with query id `id`.
pub open spec fn api_url_spec(id: Seq<char>) -> Seq<char> {
    "https://safebooru.org/index.php?page=dapi&s=post&q=index&json=1&id="@ + id
}

/// An image location with the compressed-format query parameter appended.
pub open spec fn webp_spec(location: Seq<char>) -> Seq<char> {
    location + "?format=webp"@
}

/// The plain candidate built from a sample URL: scheme, host and path.
pub open spec fn plain_candidate_spec(u: UrlModel) -> Seq<char> {
    u.scheme + "://"@ + u.host + u.path
}

/// The slashed candidate: as the plain one, with one more path separator
/// before the path.
pub open spec fn slashed_candidate_spec(u: UrlModel) -> Seq<char> {
    u.scheme + "://"@ + u.host + "/"@ + u.path
}

/// Whether a host looks like a Twitter host.
pub open spec fn twitterish(h: Seq<char>) -> bool {
    contains_seq(h, "twitter.com"@) || contains_seq(h, "x.com"@)
}

/// The Pixiv post page for an image served from Pixiv's CDN: the CDN file
/// name's leading digits moved onto the fixed post-page authority.
pub open spec fn pixiv_page_spec(path: Seq<char>) -> UrlModel {
    let pid = before_first(after_last(path, '/'), '_');
    UrlModel {
        text: "https://pixiv.net/en/artworks/"@ + pid,
        scheme: "https"@,
        host: "pixiv.net"@,
        path: "/en/artworks/"@ + pid,
        query: None,
    }
}

/// A source with Pixiv's image CDN as host rewritten to the Pixiv post page
/// it serves; any other source unchanged.
pub open spec fn pximg_rewrite(u: UrlModel) -> UrlModel {
    if u.host == "i.pximg.net"@ {
        pixiv_page_spec(u.path)
    } else {
        u
    }
}

/// The mirror URL for a Twitter-kind source.
pub fn mirror_url(u: &Url) -> (r: String)
    ensures
        r@ == mirror_url_spec(u@),
{
    let mut s = String::from_str("https://d.fxtwitter.com");
    s.append(u.path.as_str());
    match &u.query {
        Some(q) => {
            s.append("?");
            s.append(q.as_str());
        },
        None => {},
    }
    proof {
        assert(s@ =~= mirror_url_spec(u@));
    }
    s
}

/// The post-lookup URL for the given query id.
pub fn api_url(id: &str) -> (r: String)
    ensures
        r@ == api_url_spec(id@),
{
    let mut s = String::from_str("https://safebooru.org/index.php?page=dapi&s=post&q=index&json=1&id=");
    s.append(id);
    s
}

/// An image location with the compressed-format parameter appended.
fn webp_url(location: &str) -> (r: String)
    ensures
        r@ == webp_spec(location@),
{
    let mut s = String::from_str(location);
    s.append("?format=webp");
    s
}

/// The part of `s` after the last occurrence of `c`.
fn after_last_char(s: &str, c: char) -> (r: &str)
    ensures
        r@ == after_last(s@, c),
{
    let len = s.unicode_len();
    let mut cut: usize = 0;
    let mut i: usize = 0;
    proof {
        assert(s@.subrange(0, 0) =~= Seq::<char>::empty());
    }
    while i < len
        invariant
            cut <= i <= len,
            len == s@.len(),
            after_last(s@.subrange(0, i as int), c) == s@.subrange(cut as int, i as int),
        decreases len - i,
    {
        let ghost prefix = s@.subrange(0, i as int);
        proof {
            assert(s@.subrange(0, i + 1).drop_last() =~= prefix);
            assert(s@.subrange(0, i + 1).last() == s@[i as int]);
        }
        if s.get_char(i) == c {
            cut = i + 1;
            proof {
                assert(s@.subrange(cut as int, i + 1) =~= Seq::<char>::empty());
            }
        } else {
            proof {
                assert(s@.subrange(cut as int, i + 1) =~= s@.subrange(cut as int, i as int).push(
                    s@[i as int],
                ));
            }
        }
        i += 1;
    }
    proof {
        assert(s@.subrange(0, len as int) =~= s@);
    }
    s.substring_char(cut, len)
}

/// The part of `s` before the first occurrence of `c`.
fn before_first_char(s: &str, c: char) -> (r: &str)
    ensures
        r@ == before_first(s@, c),
{
    let len = s.unicode_len();
    let mut i: usize = 0;
    while i < len
        invariant
            i <= len,
            len == s@.len(),
            forall|j: int| 0 <= j < i ==> s@[j] != c,
        decreases len - i,
    {
        if s.get_char(i) == c {
            proof {
                lemma_before_first_at(s@, c, i as int);
            }
            return s.substring_char(0, i);
        }
        i += 1;
    }
    proof {
        lemma_before_first_all(s@, c);
        assert(s@.subrange(0, len as int) =~= s@);
    }
    s.substring_char(0, len)
}

/// When `c` first occurs at position `i`, `before_first` is the prefix up
/// to `i`.
proof fn lemma_before_first_at(s: Seq<char>, c: char, i: int)
    requires
        0 <= i < s.len(),
        forall|j: int| 0 <= j < i ==> s[j] != c,
        s[i] == c,
    ensures
        before_first(s, c) == s.subrange(0, i),
    decreases i,
{
    if i == 0 {
        assert(s.subrange(0, 0) =~= Seq::<char>::empty());
    } else {
        let rest = s.drop_first();
        assert(rest[i - 1] == s[i]);
        assert(forall|j: int| 0 <= j < i - 1 ==> rest[j] == s[j + 1] && s[j + 1] != c);
        lemma_before_first_at(rest, c, i - 1);
        assert(s.subrange(0, i) =~= seq![s[0]] + rest.subrange(0, i - 1));
    }
}

/// When `c` does not occur in `s`, `before_first` is all of `s`.
proof fn lemma_before_first_all(s: Seq<char>, c: char)
    requires
        forall|j: int| 0 <= j < s.len() ==> s[j] != c,
    ensures
        before_first(s, c) == s,
    decreases s.len(),
{
    if s.len() > 0 {
        let rest = s.drop_first();
        assert(forall|j: int| 0 <= j < rest.len() ==> rest[j] == s[j + 1] && s[j + 1] != c);
        lemma_before_first_all(rest, c);
        assert(seq![s[0]] + rest =~= s);
    }
}

/// The Pixiv post page for an image served from Pixiv's CDN.
fn pixiv_page(path: &str) -> (r: Url)
    ensures
        r@ == pixiv_page_spec(path@),
{
    let pid = before_first_char(after_last_char(path, '/'), '_');
    let mut text = String::from_str("https://pixiv.net/en/artworks/");
    text.append(pid);
    let mut p = String::from_str("/en/artworks/");
    p.append(pid);
    let u = Url {
        text,
        scheme: String::from_str("https"),
        host: String::from_str("pixiv.net"),
        path: p,
        query: None,
    };
    proof {
        assert(u@.text =~= pixiv_page_spec(path@).text);
        assert(u@.path =~= pixiv_page_spec(path@).path);
    }
    u
}

/// The two candidates built from a sample URL: the plain form and the form
/// with one more path separator.
fn sample_candidates(u: &Url) -> (r: (String, String))
    ensures
        r.0@ == plain_candidate_spec(u@),
        r.1@ == slashed_candidate_spec(u@),
{
    let mut plain = String::from_str(u.scheme.as_str());
    plain.append("://");
    plain.append(u.host.as_str());
    let mut slashed = plain.clone();
    plain.append(u.path.as_str());
    slashed.append("/");
    slashed.append(u.path.as_str());
    proof {
        assert(plain@ =~= plain_candidate_spec(u@));
        assert(slashed@ =~= slashed_candidate_spec(u@));
    }
    (plain, slashed)
}

// ---------------------------------------------------------------------------
// the id carried in a source URL's query
// ---------------------------------------------------------------------------

/// The value of the last `id` pair among the given name/value pairs, or the
/// empty string when there is none.
pub open spec fn last_id_value(pairs: Seq<(Seq<char>, Seq<char>)>) -> Seq<char>
    decreases pairs.len(),
{
    if pairs.len() == 0 {
        Seq::empty()
    } else if pairs.last().0 == "id"@ {
        pairs.last().1
    } else {
        last_id_value(pairs.drop_last())
    }
}

/// The name/value pairs that form-urlencoded parsing yields on a query
/// string, in order, percent-decoding applied.
pub uninterp spec fn form_pairs_of(q: Seq<char>) -> Seq<(Seq<char>, Seq<char>)>;

/// The id a Safebooru-kind source carries: the value of the last `id` pair
/// of its query string, or the empty string when there is none (no query,
/// no `id` pair, or an empty value — all treated alike as missing).
pub open spec fn query_id(query: Option<Seq<char>>) -> Seq<char> {
    match query {
        Some(q) => last_id_value(form_pairs_of(q)),
        None => Seq::empty(),
    }
}

/// Relies on `form_urlencoded::parse` (collected into owned pairs): the
/// name/value pairs of a query string, in order; the result depends on the
/// text alone.
#[verifier::external_body]
fn parse_query_pairs(q: &str) -> (r: Vec<(String, String)>)
    ensures
        r.deep_view() == form_pairs_of(q@),
{
    form_urlencoded::parse(q.as_bytes()).into_owned().collect()
}

/// The value of the last `id` pair of `pairs`, or empty when none.
fn last_id(pairs: &Vec<(String, String)>) -> (r: String)
    ensures
        r@ == last_id_value(pairs.deep_view()),
{
    let mut id = String::new();
    let mut i: usize = 0;
    proof {
        assert(pairs.deep_view().subrange(0, 0) =~= Seq::<(Seq<char>, Seq<char>)>::empty());
    }
    while i < pairs.len()
        invariant
            i <= pairs.len(),
            id@ == last_id_value(pairs.deep_view().subrange(0, i as int)),
        decreases pairs.len() - i,
    {
        proof {
            assert(pairs.deep_view().subrange(0, i + 1).drop_last() =~= pairs.deep_view().subrange(
                0,
                i as int,
            ));
            assert(pairs.deep_view().subrange(0, i + 1).last() == pairs.deep_view()[i as int]);
        }
        if crate::text::str_eq(pairs[i].0.as_str(), "id") {
            id = pairs[i].1.clone();
        }
        i += 1;
    }
    proof {
        assert(pairs.deep_view().subrange(0, pairs.deep_view().len() as int) =~= pairs.deep_view());
    }
    id
}

/// The id carried in a source URL's query, or empty when there is none.
pub fn extract_query_id(u: &Url) -> (r: String)
    ensures
        r@ == query_id(u@.query),
{
    match &u.query {
        Some(q) => {
            let pairs = parse_query_pairs(q.as_str());
            last_id(&pairs)
        },
        None => String::new(),
    }
}

// ---------------------------------------------------------------------------
// the post-lookup response
// ---------------------------------------------------------------------------

/// The fields the library reads from the first post of a lookup response.
pub struct ApiPost {
    pub source: Option<String>,
    pub sample_url: Option<String>,
}

/// The mathematical value of an [`ApiPost`].
pub ghost struct PostParts {
    pub source: Option<Seq<char>>,
    pub sample_url: Option<Seq<char>>,
}

impl View for ApiPost {
    type V = PostParts;

    open spec fn view(&self) -> PostParts {
        PostParts { source: self.source.deep_view(), sample_url: self.sample_url.deep_view() }
    }
}

/// What a post-lookup response body decodes to, reduced to the fields the
/// library reads from the first element of the JSON array: the `source` and
/// `sample_url` strings, either absent when missing or not a string.
/// `None` when the body is not a JSON array of objects, or the array is
/// empty.
pub uninterp spec fn api_post_of(body: Seq<char>) -> Option<PostParts>;

/// Relies on `serde_json::from_str` (with `Map::get` and `Value::as_str`
/// converting the result): decodes a JSON array of objects and hands back
/// the two fields read from its first element; the result depends on the
/// text alone.
#[verifier::external_body]
fn parse_api_body(body: &str) -> (r: Option<ApiPost>)
    ensures
        match r {
            Some(p) => api_post_of(body@) == Some(p@),
            None => api_post_of(body@) is None,
        },
{
    let posts: Vec<serde_json::Map<String, serde_json::Value>> = serde_json::from_str(body).ok()?;
    let first = posts.first()?;
    Some(ApiPost {
        source: first.get("source").and_then(|v| v.as_str()).map(|s| s.to_string()),
        sample_url: first.get("sample_url").and_then(|v| v.as_str()).map(|s| s.to_string()),
    })
}

// ---------------------------------------------------------------------------
// the step machine
// ---------------------------------------------------------------------------

/// How many times in all the post lookup may be attempted.
pub const MAX_ATTEMPTS: u8 = 6;

/// The outcome of one GET the host performed for the resolver: whether it
/// succeeded (no transport error, no error status), the redirect location
/// it carried, if any, and its body, if one was read.
pub struct FetchResult {
    pub success: bool,
    pub location: Option<String>,
    pub body: Option<String>,
}

/// The mathematical value of a [`FetchResult`].
pub ghost struct FetchModel {
    pub success: bool,
    pub location: Option<Seq<char>>,
    pub body: Option<Seq<char>>,
}

impl View for FetchResult {
    type V = FetchModel;

    open spec fn view(&self) -> FetchModel {
        FetchModel {
            success: self.success,
            location: self.location.deep_view(),
            body: self.body.deep_view(),
        }
    }
}

/// What the resolver asks of the host next: perform a GET (redirects
/// disabled) and hand the outcome to [`Resolver::step`], or stop with a
/// result.
pub enum Action {
    Fetch { url: String },
    Done { link: ResolvedLink },
    Fail { error: ResolveError },
}

/// The mathematical value of an [`Action`].
pub ghost enum ActionModel {
    Fetch { url: Seq<char> },
    Done { link: LinkModel },
    Fail { error: ResolveError },
}

impl View for Action {
    type V = ActionModel;

    open spec fn view(&self) -> ActionModel {
        match self {
            Action::Fetch { url } => ActionModel::Fetch { url: url@ },
            Action::Done { link } => ActionModel::Done { link: link@ },
            Action::Fail { error } => ActionModel::Fail { error: *error },
        }
    }
}

/// What the resolver is waiting for.
enum ResolveState {
    /// The mirror response for a directly catalogued Twitter-kind source.
    Mirror,
    /// The post-lookup response; `attempts` of them have been issued.
    Api { api_url: String, attempts: u8 },
    /// The mirror response for a Twitter source found behind a post; on
    /// failure the post's sample URL is probed instead.
    MirrorFallback { post: ApiPost, origin: Url },
    /// The probe of the plain sample candidate.
    ProbePlain { plain: String, slashed: String, verbatim: String, source: Option<Url> },
    /// The probe of the slashed sample candidate.
    ProbeSlashed {
        plain_ok: bool,
        plain: String,
        slashed: String,
        verbatim: String,
        source: Option<Url>,
    },
    /// Resolution has ended.
    Idle,
}

/// The mathematical value of the resolver's state.
pub ghost enum StateModel {
    Mirror,
    Api { api_url: Seq<char>, attempts: int },
    MirrorFallback { post: PostParts, origin: UrlModel },
    ProbePlain { plain: Seq<char>, slashed: Seq<char>, verbatim: Seq<char>, source: Option<UrlModel> },
    ProbeSlashed {
        plain_ok: bool,
        plain: Seq<char>,
        slashed: Seq<char>,
        verbatim: Seq<char>,
        source: Option<UrlModel>,
    },
    Idle,
}

impl View for ResolveState {
    type V = StateModel;

    closed spec fn view(&self) -> StateModel {
        match self {
            ResolveState::Mirror => StateModel::Mirror,
            ResolveState::Api { api_url, attempts } => StateModel::Api {
                api_url: api_url@,
                attempts: *attempts as int,
            },
            ResolveState::MirrorFallback { post, origin } => StateModel::MirrorFallback {
                post: post@,
                origin: origin@,
            },
            ResolveState::ProbePlain { plain, slashed, verbatim, source } => StateModel::ProbePlain {
                plain: plain@,
                slashed: slashed@,
                verbatim: verbatim@,
                source: source.deep_view(),
            },
            ResolveState::ProbeSlashed { plain_ok, plain, slashed, verbatim, source } => StateModel::ProbeSlashed {
                plain_ok: *plain_ok,
                plain: plain@,
                slashed: slashed@,
                verbatim: verbatim@,
                source: source.deep_view(),
            },
            ResolveState::Idle => StateModel::Idle,
        }
    }
}

/// What the post lookup yields from a fetch outcome: `None` on a failed
/// fetch, a missing body, or a body that decodes to no post.
pub open spec fn api_response(ev: FetchModel) -> Option<PostParts> {
    if ev.success {
        match ev.body {
            Some(b) => api_post_of(b),
            None => None,
        }
    } else {
        None
    }
}

/// The plan for probing a post's sample URL: fail when there is none or it
/// does not parse; else probe the plain candidate first.
pub open spec fn sample_plan(sample_url: Option<Seq<char>>, source: Option<UrlModel>) -> (
    StateModel,
    ActionModel,
) {
    match sample_url {
        None => (StateModel::Idle, ActionModel::Fail { error: ResolveError::NoSampleUrl }),
        Some(s) => match parsed_url(s) {
            None => (StateModel::Idle, ActionModel::Fail { error: ResolveError::BadSampleUrl }),
            Some(su) => (
                StateModel::ProbePlain {
                    plain: plain_candidate_spec(su),
                    slashed: slashed_candidate_spec(su),
                    verbatim: s,
                    source,
                },
                ActionModel::Fetch { url: plain_candidate_spec(su) },
            ),
        },
    }
}

/// The plan after a post was read: a source on a Twitter host is tried
/// through the mirror first; any other source is kept (an image on Pixiv's
/// CDN rewritten to its post page) and the sample URL probed.
pub open spec fn api_advance(post: PostParts) -> (StateModel, ActionModel) {
    let src = match post.source {
        Some(s) => parsed_url(s),
        None => None,
    };
    match src {
        Some(u) => if twitterish(u.host) {
            (
                StateModel::MirrorFallback { post, origin: u },
                ActionModel::Fetch { url: mirror_url_spec(u) },
            )
        } else {
            sample_plan(post.sample_url, Some(pximg_rewrite(u)))
        },
        None => sample_plan(post.sample_url, None),
    }
}

/// The first action of a resolution, by the source's kind.
pub open spec fn start_spec(art: ArtModel) -> (StateModel, ActionModel) {
    match art.kind {
        ArtKind::Twitter => (
            StateModel::Mirror,
            ActionModel::Fetch { url: mirror_url_spec(art.url) },
        ),
        ArtKind::Safebooru => {
            let id = query_id(art.url.query);
            if id.len() == 0 {
                (StateModel::Idle, ActionModel::Fail { error: ResolveError::NoId })
            } else {
                (
                    StateModel::Api { api_url: api_url_spec(id), attempts: 1 },
                    ActionModel::Fetch { url: api_url_spec(id) },
                )
            }
        },
    }
}

/// What one fetch outcome means in each state: the next state and action.
pub open spec fn step_spec(s: StateModel, ev: FetchModel) -> (StateModel, ActionModel) {
    match s {
        StateModel::Mirror => if !ev.success {
            (StateModel::Idle, ActionModel::Fail { error: ResolveError::FetchFailed })
        } else {
            match ev.location {
                None => (
                    StateModel::Idle,
                    ActionModel::Fail { error: ResolveError::NoImageLocation },
                ),
                Some(l) => (
                    StateModel::Idle,
                    ActionModel::Done {
                        link: LinkModel { image_url: webp_spec(l), new_source: None },
                    },
                ),
            }
        },
        StateModel::Api { api_url, attempts } => match api_response(ev) {
            Some(post) => api_advance(post),
            None => if attempts < MAX_ATTEMPTS as int {
                (
                    StateModel::Api { api_url, attempts: attempts + 1 },
                    ActionModel::Fetch { url: api_url },
                )
            } else {
                (StateModel::Idle, ActionModel::Fail { error: ResolveError::ApiFailed })
            },
        },
        StateModel::MirrorFallback { post, origin } => if ev.success && ev.location is Some {
            (
                StateModel::Idle,
                ActionModel::Done {
                    link: LinkModel {
                        image_url: webp_spec(ev.location->Some_0),
                        new_source: Some(origin),
                    },
                },
            )
        } else {
            sample_plan(post.sample_url, Some(origin))
        },
        StateModel::ProbePlain { plain, slashed, verbatim, source } => (
            StateModel::ProbeSlashed {
                plain_ok: ev.success,
                plain,
                slashed: slashed,
                verbatim,
                source,
            },
            ActionModel::Fetch { url: slashed },
        ),
        StateModel::ProbeSlashed { plain_ok, plain, slashed, verbatim, source } => (
            StateModel::Idle,
            ActionModel::Done {
                link: LinkModel {
                    image_url: if plain_ok {
                        plain
                    } else if ev.success {
                        slashed
                    } else {
                        verbatim
                    },
                    new_source: source,
                },
            },
        ),
        StateModel::Idle => (
            StateModel::Idle,
            ActionModel::Fail { error: ResolveError::FetchFailed },
        ),
    }
}

/// A resolution in progress: a step machine the host drives by performing
/// each requested fetch and handing back its outcome.
pub struct Resolver {
    state: ResolveState,
}

impl View for Resolver {
    type V = StateModel;

    closed spec fn view(&self) -> StateModel {
        self.state@
    }
}

impl Resolver {
    /// Begin resolving `art`: the machine and its first action.
    pub fn start(art: &Art) -> (r: (Resolver, Action))
        ensures
            (r.0@, r.1@) == start_spec(art@),
    {
        match art.kind {
            ArtKind::Twitter => {
                let m = mirror_url(&art.url);
                (Resolver { state: ResolveState::Mirror }, Action::Fetch { url: m })
            },
            ArtKind::Safebooru => {
                let id = extract_query_id(&art.url);
                if id.as_str().is_empty() {
                    (
                        Resolver { state: ResolveState::Idle },
                        Action::Fail { error: ResolveError::NoId },
                    )
                } else {
                    let u = api_url(id.as_str());
                    let target = u.clone();
                    (
                        Resolver { state: ResolveState::Api { api_url: u, attempts: 1 } },
                        Action::Fetch { url: target },
                    )
                }
            },
        }
    }

    /// Take the outcome of the requested fetch and decide the next action.
    pub fn step(self, ev: FetchResult) -> (r: (Resolver, Action))
        ensures
            (r.0@, r.1@) == step_spec(self@, ev@),
    {
        let ghost pre = self@;
        match self.state {
            ResolveState::Mirror => {
                if !ev.success {
                    (
                        Resolver { state: ResolveState::Idle },
                        Action::Fail { error: ResolveError::FetchFailed },
                    )
                } else {
                    match ev.location {
                        None => (
                            Resolver { state: ResolveState::Idle },
                            Action::Fail { error: ResolveError::NoImageLocation },
                        ),
                        Some(loc) => {
                            let img = webp_url(loc.as_str());
                            (
                                Resolver { state: ResolveState::Idle },
                                Action::Done {
                                    link: ResolvedLink { image_url: img, new_source: None },
                                },
                            )
                        },
                    }
                }
            },
            ResolveState::Api { api_url, attempts } => {
                let post_opt: Option<ApiPost> = if ev.success {
                    match &ev.body {
                        Some(b) => parse_api_body(b.as_str()),
                        None => None,
                    }
                } else {
                    None
                };
                proof {
                    match &post_opt {
                        Some(p) => assert(api_response(ev@) == Some(p@)),
                        None => assert(api_response(ev@) is None),
                    }
                }
                match post_opt {
                    Some(post) => Self::advance_with_post(post),
                    None => {
                        if attempts < MAX_ATTEMPTS {
                            let target = api_url.clone();
                            (
                                Resolver {
                                    state: ResolveState::Api { api_url, attempts: attempts + 1 },
                                },
                                Action::Fetch { url: target },
                            )
                        } else {
                            (
                                Resolver { state: ResolveState::Idle },
                                Action::Fail { error: ResolveError::ApiFailed },
                            )
                        }
                    },
                }
            },
            ResolveState::MirrorFallback { post, origin } => {
                if ev.success && ev.location.is_some() {
                    let loc = ev.location.unwrap();
                    let img = webp_url(loc.as_str());
                    (
                        Resolver { state: ResolveState::Idle },
                        Action::Done {
                            link: ResolvedLink { image_url: img, new_source: Some(origin) },
                        },
                    )
                } else {
                    Self::sample_step(post.sample_url, Some(origin))
                }
            },
            ResolveState::ProbePlain { plain, slashed, verbatim, source } => {
                let target = slashed.clone();
                (
                    Resolver {
                        state: ResolveState::ProbeSlashed {
                            plain_ok: ev.success,
                            plain,
                            slashed,
                            verbatim,
                            source,
                        },
                    },
                    Action::Fetch { url: target },
                )
            },
            ResolveState::ProbeSlashed { plain_ok, plain, slashed, verbatim, source } => {
                let img = if plain_ok {
                    plain
                } else if ev.success {
                    slashed
                } else {
                    verbatim
                };
                (
                    Resolver { state: ResolveState::Idle },
                    Action::Done { link: ResolvedLink { image_url: img, new_source: source } },
                )
            },
            ResolveState::Idle => (
                Resolver { state: ResolveState::Idle },
                Action::Fail { error: ResolveError::FetchFailed },
            ),
        }
    }

    /// The plan after a post was read (its `source` tried as a Twitter
    /// mirror, or kept as the corrected origin), per [`api_advance`].
    fn advance_with_post(post: ApiPost) -> (r: (Resolver, Action))
        ensures
            (r.0@, r.1@) == api_advance(post@),
    {
        let src: Option<Url> = match &post.source {
            Some(s) => crate::url::parse_url(s.as_str()),
            None => None,
        };
        match src {
            Some(u) => {
                if str_contains(u.host.as_str(), "twitter.com") || str_contains(
                    u.host.as_str(),
                    "x.com",
                ) {
                    let m = mirror_url(&u);
                    (
                        Resolver { state: ResolveState::MirrorFallback { post, origin: u } },
                        Action::Fetch { url: m },
                    )
                } else {
                    let eff = if crate::text::str_eq(u.host.as_str(), "i.pximg.net") {
                        pixiv_page(u.path.as_str())
                    } else {
                        u
                    };
                    Self::sample_step(post.sample_url, Some(eff))
                }
            },
            None => Self::sample_step(post.sample_url, None),
        }
    }

    /// The plan for probing a sample URL, per [`sample_plan`].
    fn sample_step(sample_url: Option<String>, source: Option<Url>) -> (r: (Resolver, Action))
        ensures
            (r.0@, r.1@) == sample_plan(sample_url.deep_view(), source.deep_view()),
    {
        match sample_url {
            None => (
                Resolver { state: ResolveState::Idle },
                Action::Fail { error: ResolveError::NoSampleUrl },
            ),
            Some(s) => match crate::url::parse_url(s.as_str()) {
                None => (
                    Resolver { state: ResolveState::Idle },
                    Action::Fail { error: ResolveError::BadSampleUrl },
                ),
                Some(su) => {
                    let (plain, slashed) = sample_candidates(&su);
                    let target = plain.clone();
                    (
                        Resolver {
                            state: ResolveState::ProbePlain {
                                plain,
                                slashed,
                                verbatim: s,
                                source,
                            },
                        },
                        Action::Fetch { url: target },
                    )
                },
            },
        }
    }
}

/// The retry policy of the post lookup: a failed attempt below the allowed
/// total fetches the same URL again; the last allowed failure surfaces the
/// error.  With the first fetch issued at start, exactly [`MAX_ATTEMPTS`]
/// fetches are attempted.
pub proof fn lemma_retry_policy(s: StateModel, ev: FetchModel)
    requires
        s matches StateModel::Api { .. },
        api_response(ev) is None,
    ensures
        s matches StateModel::Api { api_url, attempts } ==> {
            &&& attempts < MAX_ATTEMPTS as int ==> step_spec(s, ev) == (
                StateModel::Api { api_url, attempts: attempts + 1 },
                ActionModel::Fetch { url: api_url },
            )
            &&& attempts >= MAX_ATTEMPTS as int ==> step_spec(s, ev) == (
                StateModel::Idle,
                ActionModel::Fail { error: ResolveError::ApiFailed },
            )
        },
{
}

/// What a mirror response means for a directly catalogued Twitter source:
/// a location found becomes the image URL with the compressed-format
/// parameter appended and no source correction; a response without a
/// location, or a failed fetch, is an error.
pub proof fn lemma_mirror_outcome(ev: FetchModel)
    ensures
        ev.success && ev.location is Some ==> step_spec(StateModel::Mirror, ev) == (
            StateModel::Idle,
            ActionModel::Done {
                link: LinkModel { image_url: webp_spec(ev.location->Some_0), new_source: None },
            },
        ),
        ev.success && ev.location is None ==> step_spec(StateModel::Mirror, ev) == (
            StateModel::Idle,
            ActionModel::Fail { error: ResolveError::NoImageLocation },
        ),
        !ev.success ==> step_spec(StateModel::Mirror, ev) == (
            StateModel::Idle,
            ActionModel::Fail { error: ResolveError::FetchFailed },
        ),
{
}

} // verus!
