//! Source URLs, reduced to the parts the library reads: scheme, host, path
//! and query, together with the text they stand for.

use vstd::prelude::*;

verus! {

/// An absolute URL, as the library sees it: the text it stands for and the
/// parts the resolution logic reads.
#[derive(Debug)]
pub struct Url {
    /// The text the URL was parsed from, or that its parts recompose to.
    pub text: String,
    pub scheme: String,
    pub host: String,
    pub path: String,
    pub query: Option<String>,
}

/// The mathematical value of a [`Url`].
pub ghost struct UrlModel {
    pub text: Seq<char>,
    pub scheme: Seq<char>,
    pub host: Seq<char>,
    pub path: Seq<char>,
    pub query: Option<Seq<char>>,
}

impl View for Url {
    type V = UrlModel;

    open spec fn view(&self) -> UrlModel {
        UrlModel {
            text: self.text@,
            scheme: self.scheme@,
            host: self.host@,
            path: self.path@,
            query: self.query.deep_view(),
        }
    }
}

impl DeepView for Url {
    type V = UrlModel;

    open spec fn deep_view(&self) -> UrlModel {
        self@
    }
}

impl Clone for Url {
    fn clone(&self) -> (r: Self)
        ensures
            r@ == self@,
    {
        Url {
            text: self.text.clone(),
            scheme: self.scheme.clone(),
            host: self.host.clone(),
            path: self.path.clone(),
            query: match &self.query {
                Some(q) => Some(q.clone()),
                None => None,
            },
        }
    }
}

/// The scheme, host, path and query of an absolute URL.
pub ghost struct UrlParts {
    pub scheme: Seq<char>,
    pub host: Seq<char>,
    pub path: Seq<char>,
    pub query: Option<Seq<char>>,
}

/// What URI parsing yields on a given text, reduced to the parts the library
/// reads; `None` when the text is not a URI with both a scheme and a host.
pub uninterp spec fn url_parts_of(s: Seq<char>) -> Option<UrlParts>;

/// The [`UrlModel`] of the URL that parsing `s` yields, if any: the parts
/// that `url_parts_of` gives, with `s` itself as the text.
pub open spec fn parsed_url(s: Seq<char>) -> Option<UrlModel> {
    match url_parts_of(s) {
        Some(p) => Some(
            UrlModel {
                text: s,
                scheme: p.scheme,
                host: p.host,
                path: p.path,
                query: p.query,
            },
        ),
        None => None,
    }
}

/// Relies on `http::Uri::from_str`, with the accessors `scheme_str`, `host`,
/// `path` and `query` converting the result: parses `s` as a URI and hands
/// its parts back as plain strings.  The result depends on `s` alone.
#[verifier::external_body]
pub(crate) fn parse_url(s: &str) -> (r: Option<Url>)
    ensures
        match r {
            Some(u) => u.text@ == s@ && url_parts_of(s@) == Some(
                UrlParts {
                    scheme: u.scheme@,
                    host: u.host@,
                    path: u.path@,
                    query: u.query.deep_view(),
                },
            ),
            None => url_parts_of(s@) is None,
        },
{
    let uri: http::Uri = s.parse().ok()?;
    let scheme = uri.scheme_str()?.to_string();
    let host = uri.host()?.to_string();
    let path = uri.path().to_string();
    let query = uri.query().map(|q| q.to_string());
    Some(Url { text: s.to_string(), scheme, host, path, query })
}

} // verus!
