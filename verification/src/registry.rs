//! The registry of known art entries: parsing registry text, idempotent
//! incremental reload, and picking a random entry.

use vstd::prelude::*;
use vstd::string::*;

use crate::error::{ParseError, ParseErrorKind, ParseErrorModel};
use crate::text::{lines_of, str_eq, split_lines};
use crate::url::{parsed_url, Url, UrlModel};

verus! {

/// The recognized kind of a source site, derived from the URL's host.
#[derive(Clone, Copy, Debug, PartialEq, Eq, Structural)]
pub enum ArtKind {
    Twitter,
    Safebooru,
}

/// The kind that the fixed host table assigns to a host, if any.
pub open spec fn host_kind(h: Seq<char>) -> Option<ArtKind> {
    if h == "twitter.com"@ {
        Some(ArtKind::Twitter)
    } else if h == "safebooru.org"@ {
        Some(ArtKind::Safebooru)
    } else {
        None
    }
}

/// The kind the fixed host table assigns to `h`, if any.
pub fn kind_of_host(h: &str) -> (r: Option<ArtKind>)
    ensures
        r == host_kind(h@),
{
    if str_eq(h, "twitter.com") {
        Some(ArtKind::Twitter)
    } else if str_eq(h, "safebooru.org") {
        Some(ArtKind::Safebooru)
    } else {
        None
    }
}

/// One catalogued art entry: a source URL and its recognized kind.
#[derive(Debug)]
pub struct Art {
    pub url: Url,
    pub kind: ArtKind,
}

/// The mathematical value of an [`Art`].
pub ghost struct ArtModel {
    pub url: UrlModel,
    pub kind: ArtKind,
}

impl View for Art {
    type V = ArtModel;

    open spec fn view(&self) -> ArtModel {
        ArtModel { url: self.url@, kind: self.kind }
    }
}

impl DeepView for Art {
    type V = ArtModel;

    open spec fn deep_view(&self) -> ArtModel {
        self@
    }
}

impl Clone for Art {
    fn clone(&self) -> (r: Self)
        ensures
            r@ == self@,
    {
        Art { url: self.url.clone(), kind: self.kind }
    }
}

/// The entry a registry line yields: its URL parsed, and the URL's host
/// mapped to a kind by the fixed table.  `None` when either step fails.
pub open spec fn entry_of_line(l: Seq<char>) -> Option<ArtModel> {
    match parsed_url(l) {
        Some(u) => match host_kind(u.host) {
            Some(k) => Some(ArtModel { url: u, kind: k }),
            None => None,
        },
        None => None,
    }
}

/// Why a registry line yields no entry, if it does not.
pub open spec fn line_error(l: Seq<char>) -> Option<ParseErrorKind> {
    match parsed_url(l) {
        Some(u) => match host_kind(u.host) {
            Some(k) => None,
            None => Some(ParseErrorKind::UnknownHost),
        },
        None => Some(ParseErrorKind::InvalidUrl),
    }
}

/// The entries of all of `lines`, in order and without deduplication;
/// `None` when some line yields no entry.
pub open spec fn parse_all(lines: Seq<Seq<char>>) -> Option<Seq<ArtModel>>
    decreases lines.len(),
{
    if lines.len() == 0 {
        Some(Seq::empty())
    } else {
        match parse_all(lines.drop_last()) {
            Some(s) => match entry_of_line(lines.last()) {
                Some(e) => Some(s.push(e)),
                None => None,
            },
            None => None,
        }
    }
}

/// The error of the first line that yields no entry, if any line does.
pub open spec fn first_error(lines: Seq<Seq<char>>) -> Option<ParseErrorModel>
    decreases lines.len(),
{
    if lines.len() == 0 {
        None
    } else {
        match line_error(lines[0]) {
            Some(k) => Some(ParseErrorModel { line: lines[0], kind: k }),
            None => first_error(lines.drop_first()),
        }
    }
}

/// Whether some entry of `arts` has `u` as its source URL text.
pub open spec fn has_url(arts: Seq<ArtModel>, u: Seq<char>) -> bool {
    exists|i: int| 0 <= i < arts.len() && #[trigger] arts[i].url.text == u
}

/// The set of source URL texts known to `arts`.
pub open spec fn url_set(arts: Seq<ArtModel>) -> Set<Seq<char>> {
    Set::new(|u: Seq<char>| has_url(arts, u))
}

/// `arts` with `e` appended, unless its source URL is already known.
pub open spec fn merge_one(arts: Seq<ArtModel>, e: ArtModel) -> Seq<ArtModel> {
    if has_url(arts, e.url.text) {
        arts
    } else {
        arts.push(e)
    }
}

/// `arts` with the entries of `lines` merged in, one line at a time, each
/// appended unless its URL is already known, stopping at the first line
/// that yields no entry.
pub open spec fn merge_upto(arts: Seq<ArtModel>, lines: Seq<Seq<char>>) -> Seq<ArtModel>
    decreases lines.len(),
{
    if lines.len() == 0 {
        arts
    } else {
        match entry_of_line(lines[0]) {
            Some(e) => merge_upto(merge_one(arts, e), lines.drop_first()),
            None => arts,
        }
    }
}

impl Art {
    /// The entry of one registry line: the line parsed as an absolute URL,
    /// and the URL's host mapped to a kind by the fixed table.
    pub fn from_line(line: &str) -> (r: Result<Art, ParseError>)
        ensures
            match r {
                Ok(a) => entry_of_line(line@) == Some(a@),
                Err(e) => entry_of_line(line@) is None && e@.line == line@ && line_error(line@)
                    == Some(e@.kind),
            },
    {
        match crate::url::parse_url(line) {
            Some(u) => match kind_of_host(u.host.as_str()) {
                Some(k) => Ok(Art { url: u, kind: k }),
                None => Err(
                    ParseError {
                        line: String::from_str(line),
                        kind: ParseErrorKind::UnknownHost,
                    },
                ),
            },
            None => Err(
                ParseError { line: String::from_str(line), kind: ParseErrorKind::InvalidUrl },
            ),
        }
    }
}

/// The registry: an ordered sequence of art entries.  Reload appends the
/// entries of new lines whose URL is not yet known; it never removes or
/// reorders an entry.
#[derive(Debug)]
pub struct Registry {
    arts: Vec<Art>,
}

impl View for Registry {
    type V = Seq<ArtModel>;

    closed spec fn view(&self) -> Seq<ArtModel> {
        self.arts.deep_view()
    }
}

impl Registry {
    /// The number of entries.
    pub fn len(&self) -> (r: usize)
        ensures
            r == self@.len(),
    {
        self.arts.len()
    }

    /// The entry at position `i`.
    pub fn entry(&self, i: usize) -> (a: &Art)
        requires
            i < self@.len(),
        ensures
            a@ == self@[i as int],
    {
        &self.arts[i]
    }

    /// Whether some entry has `u` as its source URL text.
    pub fn contains_url(&self, u: &str) -> (r: bool)
        ensures
            r == has_url(self@, u@),
    {
        let mut i: usize = 0;
        while i < self.arts.len()
            invariant
                i <= self.arts.len(),
                forall|j: int| 0 <= j < i ==> #[trigger] self@[j].url.text != u@,
            decreases self.arts.len() - i,
        {
            if str_eq(self.arts[i].url.text.as_str(), u) {
                proof {
                    assert(self@[i as int].url.text == u@);
                }
                return true;
            }
            i += 1;
        }
        false
    }

    /// The registry built from registry text: one entry per non-empty line,
    /// in order, without deduplication.  The first line that yields no entry
    /// fails the whole parse.
    pub fn parse(text: &str) -> (r: Result<Registry, ParseError>)
        ensures
            match r {
                Ok(reg) => parse_all(lines_of(text@)) == Some(reg@),
                Err(e) => parse_all(lines_of(text@)) is None && first_error(lines_of(text@))
                    == Some(e@),
            },
    {
        let lines = split_lines(text);
        let ghost all = lines.deep_view();
        let mut arts: Vec<Art> = Vec::new();
        let mut i: usize = 0;
        proof {
            assert(all.subrange(0, 0) =~= Seq::<Seq<char>>::empty());
            assert(arts.deep_view() =~= Seq::<ArtModel>::empty());
        }
        while i < lines.len()
            invariant
                i <= lines.len(),
                all == lines.deep_view(),
                all == lines_of(text@),
                parse_all(all.subrange(0, i as int)) == Some(arts.deep_view()),
                forall|j: int| 0 <= j < i ==> #[trigger] line_error(all[j]) is None,
            decreases lines.len() - i,
        {
            match Art::from_line(lines[i].as_str()) {
                Ok(a) => {
                    let ghost before = arts.deep_view();
                    arts.push(a);
                    proof {
                        assert(arts.deep_view() =~= before.push(a@));
                        assert(all.subrange(0, i + 1).drop_last() =~= all.subrange(0, i as int));
                        assert(all.subrange(0, i + 1).last() == all[i as int]);
                    }
                },
                Err(e) => {
                    proof {
                        lemma_first_error_at(all, i as int);
                        lemma_parse_all_none(all, i as int);
                    }
                    return Err(e);
                },
            }
            i += 1;
        }
        proof {
            assert(all.subrange(0, all.len() as int) =~= all);
        }
        Ok(Registry { arts })
    }

    /// Re-parse registry text line by line and append each entry whose URL
    /// is not yet known.  Entries already known stay untouched, at their
    /// position.  A line that yields no entry stops the reload there: the
    /// lines before it stay applied, and its error is returned.
    pub fn reload(&mut self, text: &str) -> (r: Result<(), ParseError>)
        ensures
            final(self)@ == merge_upto(old(self)@, lines_of(text@)),
            r is Ok <==> first_error(lines_of(text@)) is None,
            match r {
                Ok(()) => true,
                Err(e) => first_error(lines_of(text@)) == Some(e@),
            },
    {
        let lines = split_lines(text);
        let ghost all = lines.deep_view();
        let mut i: usize = 0;
        proof {
            assert(all.subrange(0, all.len() as int) =~= all);
        }
        while i < lines.len()
            invariant
                i <= lines.len(),
                all == lines.deep_view(),
                all == lines_of(text@),
                merge_upto(old(self)@, all) == merge_upto(
                    self@,
                    all.subrange(i as int, all.len() as int),
                ),
                forall|j: int| 0 <= j < i ==> #[trigger] line_error(all[j]) is None,
            decreases lines.len() - i,
        {
            let ghost rest = all.subrange(i as int, all.len() as int);
            proof {
                assert(rest[0] == all[i as int]);
                assert(rest.drop_first() =~= all.subrange(i + 1, all.len() as int));
            }
            match Art::from_line(lines[i].as_str()) {
                Ok(a) => {
                    if !self.contains_url(a.url.text.as_str()) {
                        let ghost before = self@;
                        self.arts.push(a);
                        proof {
                            assert(self@ =~= merge_one(before, a@));
                        }
                    }
                },
                Err(e) => {
                    proof {
                        lemma_first_error_at(all, i as int);
                    }
                    return Err(e);
                },
            }
            i += 1;
        }
        proof {
            assert(all.subrange(all.len() as int, all.len() as int) =~= Seq::<Seq<char>>::empty());
            lemma_first_error_none(all);
        }
        Ok(())
    }

    /// An entry chosen at random over the whole registry.  Which one comes
    /// back is not specified beyond membership: the draw is random.
    pub fn pick_random(&self) -> (a: &Art)
        requires
            self@.len() > 0,
        ensures
            exists|i: int| 0 <= i < self@.len() && a@ == #[trigger] self@[i],
    {
        let i = random_below(self.arts.len());
        let a = &self.arts[i];
        proof {
            assert(a@ == self@[i as int]);
        }
        a
    }
}

/// Relies on `fastrand::usize`: a value drawn from the range below `n`.  Of
/// the draw nothing more than its range can be promised.
#[verifier::external_body]
fn random_below(n: usize) -> (r: usize)
    requires
        n > 0,
    ensures
        r < n,
{
    fastrand::usize(0..n)
}

/// If the lines before `i` all yield entries and line `i` does not, the
/// first error of the whole text is the error of line `i`.
proof fn lemma_first_error_at(lines: Seq<Seq<char>>, i: int)
    requires
        0 <= i < lines.len(),
        forall|j: int| 0 <= j < i ==> #[trigger] line_error(lines[j]) is None,
        line_error(lines[i]) is Some,
    ensures
        first_error(lines) == Some(
            ParseErrorModel { line: lines[i], kind: line_error(lines[i])->Some_0 },
        ),
    decreases i,
{
    if i > 0 {
        let rest = lines.drop_first();
        assert(forall|j: int| 0 <= j < i - 1 ==> #[trigger] line_error(rest[j]) is None);
        assert(rest[i - 1] == lines[i]);
        lemma_first_error_at(rest, i - 1);
    }
}

/// If every line yields an entry, there is no first error.
proof fn lemma_first_error_none(lines: Seq<Seq<char>>)
    requires
        forall|j: int| 0 <= j < lines.len() ==> #[trigger] line_error(lines[j]) is None,
    ensures
        first_error(lines) is None,
    decreases lines.len(),
{
    if lines.len() > 0 {
        let rest = lines.drop_first();
        assert(forall|j: int| 0 <= j < rest.len() ==> #[trigger] line_error(rest[j]) is None);
        lemma_first_error_none(rest);
    }
}

/// If some line yields no entry, the whole parse yields nothing.
proof fn lemma_parse_all_none(lines: Seq<Seq<char>>, i: int)
    requires
        0 <= i < lines.len(),
        entry_of_line(lines[i]) is None,
    ensures
        parse_all(lines) is None,
    decreases lines.len(),
{
    if i < lines.len() - 1 {
        lemma_parse_all_none(lines.drop_last(), i);
    }
}

/// For a well-formed registry text, parsing yields exactly one entry per
/// line, in order, and each entry's kind is the one the fixed host table
/// assigns to its URL's host.
pub proof fn lemma_parse_entries(lines: Seq<Seq<char>>, arts: Seq<ArtModel>)
    requires
        parse_all(lines) == Some(arts),
    ensures
        arts.len() == lines.len(),
        forall|i: int| 0 <= i < lines.len() ==> Some(#[trigger] arts[i]) == entry_of_line(lines[i]),
        forall|i: int|
            0 <= i < lines.len() ==> host_kind(#[trigger] arts[i].url.host) == Some(arts[i].kind),
    decreases lines.len(),
{
    if lines.len() > 0 {
        let prefix = lines.drop_last();
        let front = parse_all(prefix)->Some_0;
        lemma_parse_entries(prefix, front);
        assert(arts == front.push(entry_of_line(lines.last())->Some_0));
        assert(forall|i: int| 0 <= i < prefix.len() ==> #[trigger] arts[i] == front[i]);
        assert(forall|i: int| 0 <= i < prefix.len() ==> #[trigger] prefix[i] == lines[i]);
    }
}

/// Reload preserves every existing entry at its position and only appends.
pub proof fn lemma_merge_preserves(arts: Seq<ArtModel>, lines: Seq<Seq<char>>)
    ensures
        merge_upto(arts, lines).len() >= arts.len(),
        forall|i: int| 0 <= i < arts.len() ==> #[trigger] merge_upto(arts, lines)[i] == arts[i],
    decreases lines.len(),
{
    if lines.len() > 0 {
        match entry_of_line(lines[0]) {
            Some(e) => {
                lemma_merge_preserves(merge_one(arts, e), lines.drop_first());
            },
            None => {},
        }
    }
}

/// Reload is monotonic: every source URL known before is known after.
pub proof fn lemma_merge_monotonic(arts: Seq<ArtModel>, lines: Seq<Seq<char>>)
    ensures
        url_set(arts).subset_of(url_set(merge_upto(arts, lines))),
{
    let merged = merge_upto(arts, lines);
    lemma_merge_preserves(arts, lines);
    assert forall|u: Seq<char>| url_set(arts).contains(u) implies url_set(merged).contains(
        u,
    ) by {
        let i = choose|i: int| 0 <= i < arts.len() && #[trigger] arts[i].url.text == u;
        assert(merged[i].url.text == u);
    }
}

/// Reload is idempotent: merging the same lines twice changes nothing the
/// second time.
pub proof fn lemma_merge_idempotent(arts: Seq<ArtModel>, lines: Seq<Seq<char>>)
    ensures
        merge_upto(merge_upto(arts, lines), lines) == merge_upto(arts, lines),
    decreases lines.len(),
{
    if lines.len() > 0 {
        match entry_of_line(lines[0]) {
            Some(e) => {
                let one = merge_one(arts, e);
                let merged = merge_upto(one, lines.drop_first());
                assert(has_url(one, e.url.text)) by {
                    if !has_url(arts, e.url.text) {
                        assert(one[arts.len() as int].url.text == e.url.text);
                    }
                }
                lemma_merge_preserves(one, lines.drop_first());
                assert(has_url(merged, e.url.text)) by {
                    let i = choose|i: int|
                        0 <= i < one.len() && #[trigger] one[i].url.text == e.url.text;
                    assert(merged[i].url.text == e.url.text);
                }
                assert(merge_one(merged, e) == merged);
                lemma_merge_idempotent(one, lines.drop_first());
            },
            None => {},
        }
    }
}

} // verus!
