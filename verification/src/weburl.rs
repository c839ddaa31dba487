//! URLs as the `url` crate parses them.
//!
//! A [`ParsedUrl`] can only be made here, by parsing its source text, so the
//! URL it holds is always what `url::Url::parse` makes of that text. Its
//! value for contracts is that source text.
use vstd::prelude::*;

verus! {

#[verifier::external_type_specification]
#[verifier::external_body]
pub struct ExUrl(url::Url);

/// A URL that `url::Url::parse` made of its source text.
pub struct ParsedUrl {
    url: url::Url,
    source: String,
}

impl View for ParsedUrl {
    type V = Seq<char>;

    /// The text that was parsed.
    closed spec fn view(&self) -> Seq<char> {
        self.source@
    }
}

impl ParsedUrl {
    /// The text that was parsed.
    pub fn source(&self) -> (s: &str)
        ensures
            s@ == self@,
    {
        self.source.as_str()
    }
}

/// Whether `url::Url::parse` accepts `input` as an absolute URL.
pub uninterp spec fn url_parse_succeeds(input: Seq<char>) -> bool;

/// The serialization of what `url::Url::join` makes of `input` against the
/// URL parsed from `base`, or `None` where it reports an error.
pub uninterp spec fn url_joined(base: Seq<char>, input: Seq<char>) -> Option<Seq<char>>;

/// The host (`url::Url::host_str`) of the URL parsed from `source`, if it
/// has one.
pub uninterp spec fn url_host(source: Seq<char>) -> Option<Seq<char>>;

/// The path (`url::Url::path`) of the URL parsed from `source`.
pub uninterp spec fn url_path(source: Seq<char>) -> Seq<char>;

/// Parses an absolute URL.
///
/// Trusted: calls `url::Url::parse` and keeps the URL with the text it was
/// parsed from. The contract claims that a URL comes back exactly when the
/// parser accepts the input, as named by [`url_parse_succeeds`]; which inputs
/// it accepts is not stated.
#[verifier::external_body]
pub(crate) fn parse_url(input: &str) -> (res: Option<ParsedUrl>)
    ensures
        res is Some <==> url_parse_succeeds(input@),
        res matches Some(u) ==> u@ == input@,
{
    match url::Url::parse(input) {
        Ok(url) => Some(ParsedUrl { url, source: input.to_owned() }),
        Err(_) => None,
    }
}

/// Resolves a possibly relative URL against a parsed base URL.
///
/// Trusted: calls `url::Url::join` on the base URL and gives the
/// serialization of the result (`String::from(Url)`). The base URL is what
/// `url::Url::parse` made of `base@`, and parsing is deterministic, so the
/// outcome is a function of `base@` and the input, named [`url_joined`]; how
/// relative references are resolved is not stated.
#[verifier::external_body]
pub(crate) fn join_url(base: &ParsedUrl, input: &str) -> (res: Option<String>)
    ensures
        match res {
            Some(s) => url_joined(base@, input@) == Some(s@),
            None => url_joined(base@, input@) is None,
        },
{
    match base.url.join(input) {
        Ok(url) => Some(String::from(url)),
        Err(_) => None,
    }
}

/// The host of a parsed URL.
///
/// Trusted: calls `url::Url::host_str`; the outcome is the one named by
/// [`url_host`] for the parsed text. What the host of a given URL is, is not
/// stated.
#[verifier::external_body]
pub(crate) fn host_of(url: &ParsedUrl) -> (res: Option<String>)
    ensures
        match res {
            Some(h) => url_host(url@) == Some(h@),
            None => url_host(url@) is None,
        },
{
    url.url.host_str().map(str::to_owned)
}

/// The path of a parsed URL.
///
/// Trusted: calls `url::Url::path`; the outcome is the one named by
/// [`url_path`] for the parsed text. What the path of a given URL is, is not
/// stated.
#[verifier::external_body]
pub(crate) fn path_of(url: &ParsedUrl) -> (res: String)
    ensures
        res@ == url_path(url@),
{
    url.url.path().to_owned()
}

} // verus!
