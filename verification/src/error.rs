//! Error types of the library: rejected registry lines and failed link
//! resolutions.

use vstd::prelude::*;

verus! {

/// Why a registry line was rejected.
#[derive(Clone, Copy, Debug, PartialEq, Eq, Structural)]
pub enum ParseErrorKind {
    /// The line is not an absolute URL with a scheme and a host.
    InvalidUrl,
    /// The URL's host is not in the table of recognized sites.
    UnknownHost,
}

/// A rejected registry line, with the line itself.
#[derive(Debug)]
pub struct ParseError {
    pub line: String,
    pub kind: ParseErrorKind,
}

/// The mathematical value of a [`ParseError`].
pub ghost struct ParseErrorModel {
    pub line: Seq<char>,
    pub kind: ParseErrorKind,
}

impl View for ParseError {
    type V = ParseErrorModel;

    open spec fn view(&self) -> ParseErrorModel {
        ParseErrorModel { line: self.line@, kind: self.kind }
    }
}

impl ParseError {
    /// A short description of the error, for the host to display.
    pub fn message(&self) -> (r: &'static str)
        ensures
            r@ == match self.kind {
                ParseErrorKind::InvalidUrl => "registry line is not an absolute url"@,
                ParseErrorKind::UnknownHost => "not support website"@,
            },
    {
        match self.kind {
            ParseErrorKind::InvalidUrl => "registry line is not an absolute url",
            ParseErrorKind::UnknownHost => "not support website",
        }
    }
}

/// Why resolving a source link failed.
#[derive(Clone, Copy, Debug, PartialEq, Eq, Structural)]
pub enum ResolveError {
    /// A source URL of the Safebooru kind carried no `id` query parameter.
    NoId,
    /// The post lookup failed on every allowed attempt.
    ApiFailed,
    /// The post lookup returned no usable sample URL.
    NoSampleUrl,
    /// The sample URL was not an absolute URL with a scheme and a host.
    BadSampleUrl,
    /// The mirror's response carried no image location.
    NoImageLocation,
    /// A fetch failed outright (transport error or an error status).
    FetchFailed,
}

impl ResolveError {
    /// A short description of the error, for the host to display.
    pub fn message(&self) -> (r: &'static str)
        ensures
            r@ == match self {
                ResolveError::NoId => "no id?"@,
                ResolveError::ApiFailed => "could not fetch post data"@,
                ResolveError::NoSampleUrl => "safebooru did not return sample url"@,
                ResolveError::BadSampleUrl => "safebooru sample url was not valid"@,
                ResolveError::NoImageLocation => "did not return an image location"@,
                ResolveError::FetchFailed => "failed to fetch"@,
            },
    {
        match self {
            ResolveError::NoId => "no id?",
            ResolveError::ApiFailed => "could not fetch post data",
            ResolveError::NoSampleUrl => "safebooru did not return sample url",
            ResolveError::BadSampleUrl => "safebooru sample url was not valid",
            ResolveError::NoImageLocation => "did not return an image location",
            ResolveError::FetchFailed => "failed to fetch",
        }
    }
}

} // verus!
