//! The allowlist: which scheme and which hosts a fetch may reach.

use crate::error::{GatewayError, GatewayErrorView};
use crate::target::{outcome_view, parse_absolute, url_parse, ParsedUrl, UrlParts};
use vstd::prelude::*;
use vstd::string::StringExecFns;

verus! {

/// The one scheme a target may have.
pub open spec fn allowed_scheme() -> Seq<char> {
    "https"@
}

/// The hosts a target may name.
pub open spec fn allowed_hosts() -> Seq<Seq<char>> {
    seq!["poe.ninja"@]
}

/// Whether `host` is on the list `hosts`. The empty text, which stands for
/// an absent host, is on no list; any other host is matched by exact
/// equality, with no case folding and no other normalisation.
pub open spec fn host_listed(hosts: Seq<Seq<char>>, host: Seq<char>) -> bool {
    host.len() > 0 && hosts.contains(host)
}

/// An allowlist of one scheme and a short list of hosts. It is built once and
/// never changed afterwards.
pub struct AllowPolicy {
    scheme: String,
    hosts: Vec<String>,
}

impl AllowPolicy {
    /// The scheme this policy allows.
    pub closed spec fn scheme(&self) -> Seq<char> {
        self.scheme@
    }

    /// The hosts this policy allows, in the order they were listed.
    pub closed spec fn hosts(&self) -> Seq<Seq<char>> {
        Seq::new(self.hosts@.len(), |i: int| self.hosts@[i]@)
    }

    /// The compiled-in policy: `https` only, `poe.ninja` only.
    pub fn fixed() -> (policy: AllowPolicy)
        ensures
            policy.scheme() == allowed_scheme(),
            policy.hosts() == allowed_hosts(),
    {
        let mut hosts: Vec<String> = Vec::new();
        hosts.push(String::from_str("poe.ninja"));
        let policy = AllowPolicy { scheme: String::from_str("https"), hosts };
        assert(policy.hosts() =~= allowed_hosts());
        policy
    }

    /// Whether `scheme` is exactly the allowed scheme. No case folding is
    /// applied.
    pub fn permits_scheme(&self, scheme: &str) -> (ok: bool)
        ensures
            ok == (scheme@ == self.scheme()),
    {
        let given = String::from_str(scheme);
        given == self.scheme
    }

    /// Whether `host` is on the allowlist. The host is compared as the parser
    /// left it; the empty text never matches.
    pub fn permits_host(&self, host: &str) -> (ok: bool)
        ensures
            ok == host_listed(self.hosts(), host@),
    {
        if host.is_empty() {
            return false;
        }
        let given = String::from_str(host);
        let mut i: usize = 0;
        while i < self.hosts.len()
            invariant
                i <= self.hosts.len(),
                given@ == host@,
                host@.len() > 0,
                forall|j: int| 0 <= j < i ==> self.hosts()[j] != host@,
            decreases self.hosts.len() - i,
        {
            if self.hosts[i] == given {
                assert(self.hosts()[i as int] == host@);
                assert(self.hosts().contains(host@));
                return true;
            }
            i += 1;
        }
        false
    }
}

/// The parts of a screened URL, or the failure it was rejected with.
pub open spec fn screened_view(screened: Result<ParsedUrl, GatewayError>) -> Result<
    UrlParts,
    GatewayErrorView,
> {
    match screened {
        Ok(url) => Ok(url@),
        Err(error) => Err(error@),
    }
}

/// The verdict of an allowlist on a parse outcome. The checks run in a fixed
/// order and the first that fails decides: a failed parse, then the scheme,
/// then the host. An absent host is read as the empty text, which is on no
/// list.
pub open spec fn verdict(
    scheme: Seq<char>,
    hosts: Seq<Seq<char>>,
    parsed: Result<UrlParts, Seq<char>>,
) -> Result<UrlParts, GatewayErrorView> {
    match parsed {
        Err(text) => Err(GatewayErrorView::InvalidUrl { detail: text }),
        Ok(parts) => if parts.scheme != scheme {
            Err(GatewayErrorView::SchemeNotAllowed)
        } else if !host_listed(hosts, parts.host_text()) {
            Err(GatewayErrorView::HostNotAllowed)
        } else {
            Ok(parts)
        },
    }
}

impl AllowPolicy {
    /// Screens a parse outcome against this policy. A URL that passes is
    /// handed back unchanged.
    pub fn screen(&self, outcome: Result<ParsedUrl, String>) -> (screened: Result<
        ParsedUrl,
        GatewayError,
    >)
        ensures
            screened_view(screened) == verdict(self.scheme(), self.hosts(), outcome_view(outcome)),
    {
        match outcome {
            Err(text) => Err(GatewayError::InvalidUrl { detail: text }),
            Ok(url) => {
                if !self.permits_scheme(url.scheme.as_str()) {
                    return Err(GatewayError::SchemeNotAllowed);
                }
                let host_allowed = match &url.host {
                    Some(host) => self.permits_host(host.as_str()),
                    None => false,
                };
                if !host_allowed {
                    return Err(GatewayError::HostNotAllowed);
                }
                Ok(url)
            },
        }
    }
}

/// Parses `raw` as an absolute URL and screens it against the compiled-in
/// policy. Nothing here touches the network.
///
/// A text that does not parse is an invalid URL, whatever else it holds; a
/// URL whose scheme is not `https` is rejected for its scheme, whatever its
/// host; a `https` URL whose host is not `poe.ninja` is rejected for its
/// host.
pub fn validate(raw: &str) -> (screened: Result<ParsedUrl, GatewayError>)
    ensures
        screened_view(screened) == verdict(allowed_scheme(), allowed_hosts(), url_parse(raw@)),
        url_parse(raw@) matches Err(text) ==> screened matches Err(error) && error@
            == (GatewayErrorView::InvalidUrl { detail: text }),
        url_parse(raw@) matches Ok(parts) ==> (parts.scheme != "https"@ ==> (screened matches Err(
            GatewayError::SchemeNotAllowed,
        ))),
        url_parse(raw@) matches Ok(parts) ==> (parts.scheme == "https"@ && parts.host != Some(
            "poe.ninja"@,
        ) ==> (screened matches Err(GatewayError::HostNotAllowed))),
        url_parse(raw@) matches Ok(parts) ==> (parts.scheme == "https"@ && parts.host == Some(
            "poe.ninja"@,
        ) ==> (screened matches Ok(url) && url@ == parts)),
{
    let policy = AllowPolicy::fixed();
    let screened = policy.screen(parse_absolute(raw));
    proof {
        lemma_fixed_hosts();
    }
    screened
}

/// The compiled-in allowlist accepts `poe.ninja` and no other host text.
pub proof fn lemma_fixed_hosts()
    ensures
        "poe.ninja"@.len() > 0,
        forall|host: Seq<char>| allowed_hosts().contains(host) <==> host == "poe.ninja"@,
{
    reveal_strlit("poe.ninja");
    assert(allowed_hosts()[0] == "poe.ninja"@);
}

} // verus!
