//! The control-plane URL, as far as the worker reads it.
use crate::text::optional_text;
use vstd::prelude::*;

verus! {

/// What the worker reads of a URL.
#[derive(Debug, PartialEq, Eq)]
pub struct ParsedUrl {
    /// The scheme, in lower case and without the colon.
    pub scheme: String,
    /// The host, as the parsed URL writes it.
    pub host: Option<String>,
    /// The port in the URL, or else the known port of the scheme.
    pub port: Option<u16>,
}

/// What `reqwest::Url::parse` makes of a text: scheme, host and port of the URL, or the words in
/// which it refuses the text.
pub uninterp spec fn parsed_url(text: Seq<char>) -> Result<
    (Seq<char>, Option<Seq<char>>, Option<u16>),
    Seq<char>,
>;

impl View for ParsedUrl {
    type V = (Seq<char>, Option<Seq<char>>, Option<u16>);

    open spec fn view(&self) -> Self::V {
        (self.scheme@, optional_text(self.host), self.port)
    }
}

/// The view of what parsing returned.
pub open spec fn parse_view(parsed: Result<ParsedUrl, String>) -> Result<
    (Seq<char>, Option<Seq<char>>, Option<u16>),
    Seq<char>,
> {
    match parsed {
        Ok(url) => Ok(url@),
        Err(reason) => Err(reason@),
    }
}

/// Calls `reqwest::Url::parse` on `text` and reads off the URL what `scheme`, `host_str` and
/// `port_or_known_default` return, or writes out the error. The result depends on `text` alone.
/// An `http` or `https` URL has a port in any case: `port_or_known_default` falls back on the
/// known port of those schemes.
#[verifier::external_body]
pub(crate) fn parse_url(text: &str) -> (r: Result<ParsedUrl, String>)
    ensures
        parse_view(r) == parsed_url(text@),
        r matches Ok(url) ==> (url.scheme@ == "http"@ || url.scheme@ == "https"@)
            ==> url.port is Some,
{
    match reqwest::Url::parse(text) {
        Ok(url) => Ok(
            ParsedUrl {
                scheme: url.scheme().to_owned(),
                host: url.host_str().map(str::to_owned),
                port: url.port_or_known_default(),
            },
        ),
        Err(error) => Err(error.to_string()),
    }
}

/// A parsed URL, or the words in which a text is refused, is seen whole: two that look the same agree
/// in scheme, host and port, or in those words.
pub proof fn law_parsed_url_is_seen_whole(
    a: Result<ParsedUrl, String>,
    b: Result<ParsedUrl, String>,
)
    requires
        parse_view(a) == parse_view(b),
    ensures
        match (a, b) {
            (Ok(a), Ok(b)) => {
                &&& a.scheme@ == b.scheme@
                &&& a.port == b.port
                &&& match (a.host, b.host) {
                    (Some(a), Some(b)) => a@ == b@,
                    (None, None) => true,
                    _ => false,
                }
            },
            (Err(a), Err(b)) => a@ == b@,
            _ => false,
        },
{
}

/// What is seen of a parsed URL is its scheme, its host and its port, and of a refusal its words.
pub proof fn law_parsed_url_is_seen_as_it_is(url: ParsedUrl, reason: String)
    ensures
        parse_view(Ok(url)) matches Ok(seen) && seen.0 == url.scheme@ && seen.2 == url.port && (
        match url.host {
            Some(host) => seen.1 == Some(host@),
            None => seen.1 is None,
        }),
        parse_view(Err(reason)) matches Err(seen) && seen == reason@,
{
}

} // verus!
