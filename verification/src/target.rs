//! Parsing a raw URL into the parts the gateway decides on.

use vstd::prelude::*;

verus! {

/// What the gateway reads of a parsed absolute URL.
#[derive(Debug, PartialEq, Eq)]
pub struct ParsedUrl {
    /// The scheme, lower-cased, without the `:`.
    pub scheme: String,
    /// The host as the parser normalised it, if the URL has one.
    pub host: Option<String>,
    /// The full normalised URL.
    pub href: String,
}

/// The mathematical content of a [`ParsedUrl`].
pub struct UrlParts {
    pub scheme: Seq<char>,
    pub host: Option<Seq<char>>,
    pub href: Seq<char>,
}

impl UrlParts {
    /// The host as text, with an absent host read as the empty text.
    pub open spec fn host_text(self) -> Seq<char> {
        match self.host {
            Some(host) => host,
            None => Seq::empty(),
        }
    }
}

impl View for ParsedUrl {
    type V = UrlParts;

    open spec fn view(&self) -> UrlParts {
        UrlParts {
            scheme: self.scheme@,
            host: match self.host {
                Some(host) => Some(host@),
                None => None,
            },
            href: self.href@,
        }
    }
}

/// What `url::Url::parse` makes of a text: on success the scheme, host and
/// serialization of the URL, on failure the text its error displays.
pub uninterp spec fn url_parse(raw: Seq<char>) -> Result<UrlParts, Seq<char>>;

/// The parts of a parse outcome, or the error text.
pub open spec fn outcome_view(outcome: Result<ParsedUrl, String>) -> Result<UrlParts, Seq<char>> {
    match outcome {
        Ok(url) => Ok(url@),
        Err(text) => Err(text@),
    }
}

/// Calls `url::Url::parse` on the text. From a parsed URL it takes what
/// `scheme`, `host_str` and `as_str` return; from an error, what it
/// displays. The outcome depends on the text alone.
#[verifier::external_body]
pub(crate) fn parse_absolute(raw: &str) -> (outcome: Result<ParsedUrl, String>)
    ensures
        outcome_view(outcome) == url_parse(raw@),
{
    match url::Url::parse(raw) {
        Ok(url) => Ok(
            ParsedUrl {
                scheme: url.scheme().to_string(),
                host: url.host_str().map(str::to_string),
                href: url.as_str().to_string(),
            },
        ),
        Err(error) => Err(error.to_string()),
    }
}

} // verus!
