//! A whole fetch as one function of the raw URL and of what the network
//! answered, and the laws that hold of it.

use crate::decode::{decoding, json_parse, result_view};
use crate::error::{GatewayError, GatewayErrorView, TransportStage};
use crate::exchange::{begin, BodyDemand, Reply, ReplyView};
use crate::policy::{allowed_hosts, allowed_scheme, lemma_fixed_hosts, verdict};
use crate::target::url_parse;
use vstd::prelude::*;

verus! {

/// What the network answered to one request, written down: the reply, what
/// reading the body as text gave, and what reading it in full gave.
#[derive(Debug, PartialEq, Eq)]
pub struct Recorded {
    pub reply: Reply,
    /// The body as text, or `None` where it could not be read.
    pub error_text: Option<String>,
    /// The body in full, or the text of the failure to read it.
    pub body: Result<Vec<u8>, String>,
}

/// The mathematical content of a [`Recorded`].
pub struct Observed {
    pub reply: ReplyView,
    pub error_text: Option<Seq<char>>,
    pub body: Result<Seq<u8>, Seq<char>>,
}

impl View for Recorded {
    type V = Observed;

    open spec fn view(&self) -> Observed {
        Observed {
            reply: self.reply@,
            error_text: match self.error_text {
                Some(text) => Some(text@),
                None => None,
            },
            body: match self.body {
                Ok(bytes) => Ok(bytes@),
                Err(detail) => Err(detail@),
            },
        }
    }
}

/// What an answered request comes to: a transport failure, before a
/// response or while the body of a success is read; a status failure with
/// the body text that could be read; or what decoding the body gives.
pub open spec fn answered(net: Observed) -> Result<serde_json::Value, GatewayErrorView> {
    match net.reply {
        ReplyView::Failed { stage, detail } => Err(
            GatewayErrorView::TransportError { stage, detail },
        ),
        ReplyView::Status { status } => if 200 <= status <= 299 {
            match net.body {
                Ok(bytes) => decoding(json_parse(bytes)),
                Err(detail) => Err(
                    GatewayErrorView::TransportError { stage: TransportStage::Request, detail },
                ),
            }
        } else {
            Err(
                GatewayErrorView::HttpStatusError {
                    status,
                    body: match net.error_text {
                        Some(text) => text,
                        None => Seq::empty(),
                    },
                },
            )
        },
    }
}

/// The result of fetching `raw` where the network answers as `net`. The
/// network is consulted only for a URL that passed the screening.
pub open spec fn fetch_outcome(raw: Seq<char>, net: Observed) -> Result<
    serde_json::Value,
    GatewayErrorView,
> {
    match verdict(allowed_scheme(), allowed_hosts(), url_parse(raw)) {
        Err(failure) => Err(failure),
        Ok(_) => answered(net),
    }
}

/// Runs a fetch against a recorded exchange, stage by stage.
pub fn replay(raw: &str, recorded: Recorded) -> (result: Result<serde_json::Value, GatewayError>)
    ensures
        result_view(result) == fetch_outcome(raw@, recorded@),
{
    let waiting = match begin(raw) {
        Ok(waiting) => waiting,
        Err(error) => {
            return Err(error);
        },
    };
    match waiting.on_reply(recorded.reply) {
        Err(error) => Err(error),
        Ok(BodyDemand::Json(then)) => then.finish(recorded.body),
        Ok(BodyDemand::ErrorText(then)) => Err(then.finish(recorded.error_text)),
    }
}

/// Renders a fetch result for the caller: the value as it is, a failure as
/// its message.
pub fn render(result: Result<serde_json::Value, GatewayError>) -> (shown: Result<
    serde_json::Value,
    String,
>)
    ensures
        result matches Ok(value) ==> shown == Ok::<serde_json::Value, String>(value),
        result matches Err(error) ==> shown matches Err(text) && text@ == error@.message(),
{
    match result {
        Ok(value) => Ok(value),
        Err(error) => Err(error.message()),
    }
}

/// A URL whose scheme is not `https` is rejected for its scheme, whatever the
/// network would have answered.
pub proof fn lemma_scheme_gate(raw: Seq<char>, net: Observed)
    requires
        url_parse(raw) matches Ok(parts) && parts.scheme != "https"@,
    ensures
        fetch_outcome(raw, net) == Err::<serde_json::Value, GatewayErrorView>(
            GatewayErrorView::SchemeNotAllowed,
        ),
{
}

/// A `https` URL whose host is not `poe.ninja` is rejected for its host,
/// whatever the network would have answered.
pub proof fn lemma_host_gate(raw: Seq<char>, net: Observed)
    requires
        url_parse(raw) matches Ok(parts) && parts.scheme == "https"@ && parts.host != Some(
            "poe.ninja"@,
        ),
    ensures
        fetch_outcome(raw, net) == Err::<serde_json::Value, GatewayErrorView>(
            GatewayErrorView::HostNotAllowed,
        ),
{
    lemma_fixed_hosts();
}

/// A text that does not parse as an absolute URL is rejected as invalid, with
/// the parser's text, whatever the network would have answered.
pub proof fn lemma_invalid_url(raw: Seq<char>, net: Observed)
    requires
        url_parse(raw) is Err,
    ensures
        fetch_outcome(raw, net) == Err::<serde_json::Value, GatewayErrorView>(
            GatewayErrorView::InvalidUrl { detail: url_parse(raw)->Err_0 },
        ),
{
}

/// A rejected URL causes no request: the outcome is the same under any two
/// networks.
pub proof fn lemma_rejection_ignores_network(raw: Seq<char>, first: Observed, second: Observed)
    requires
        verdict(allowed_scheme(), allowed_hosts(), url_parse(raw)) is Err,
    ensures
        fetch_outcome(raw, first) == fetch_outcome(raw, second),
{
}

/// The network is reached only for `https://poe.ninja`: where the outcome
/// depends on the network at all, the URL has that scheme and that host.
pub proof fn lemma_only_allowed_target(raw: Seq<char>, first: Observed, second: Observed)
    requires
        fetch_outcome(raw, first) != fetch_outcome(raw, second),
    ensures
        url_parse(raw) matches Ok(parts) && parts.scheme == "https"@ && parts.host == Some(
            "poe.ninja"@,
        ),
{
    lemma_fixed_hosts();
}

/// A screened request that gets no response, because the client could not be
/// built or the connection, TLS or the deadline failed before one came, ends
/// in a transport failure that keeps the driver's text.
pub proof fn lemma_transport_failure(
    raw: Seq<char>,
    net: Observed,
    stage: TransportStage,
    detail: Seq<char>,
)
    requires
        verdict(allowed_scheme(), allowed_hosts(), url_parse(raw)) is Ok,
        net.reply == (ReplyView::Failed { stage, detail }),
    ensures
        fetch_outcome(raw, net) == Err::<serde_json::Value, GatewayErrorView>(
            GatewayErrorView::TransportError { stage, detail },
        ),
{
}

/// A status outside 200..=299 is a failure whatever the body holds: the
/// result carries the status and the body text, and never a value.
pub proof fn lemma_status_failure(raw: Seq<char>, net: Observed, status: int)
    requires
        verdict(allowed_scheme(), allowed_hosts(), url_parse(raw)) is Ok,
        net.reply == (ReplyView::Status { status }),
        !(200 <= status <= 299),
    ensures
        fetch_outcome(raw, net) == Err::<serde_json::Value, GatewayErrorView>(
            GatewayErrorView::HttpStatusError {
                status,
                body: match net.error_text {
                    Some(text) => text,
                    None => Seq::empty(),
                },
            },
        ),
{
}

/// A success status whose body could not be read in full, because the
/// connection or the deadline failed on the way, ends in a transport failure
/// that keeps the driver's text, and never in a value or an invalid-JSON
/// failure.
pub proof fn lemma_unread_body(raw: Seq<char>, net: Observed, status: int, detail: Seq<char>)
    requires
        verdict(allowed_scheme(), allowed_hosts(), url_parse(raw)) is Ok,
        net.reply == (ReplyView::Status { status }),
        200 <= status <= 299,
        net.body == Err::<Seq<u8>, Seq<char>>(detail),
    ensures
        fetch_outcome(raw, net) == Err::<serde_json::Value, GatewayErrorView>(
            GatewayErrorView::TransportError { stage: TransportStage::Request, detail },
        ),
{
}

/// Whatever the network does to a screened request, a failure of the
/// network is never reported as invalid JSON: that failure arises only from
/// a body that was read in full after a success status.
pub proof fn lemma_invalid_json_has_a_body(raw: Seq<char>, net: Observed)
    requires
        fetch_outcome(raw, net) matches Err(GatewayErrorView::InvalidJson { .. }),
    ensures
        net.reply matches ReplyView::Status { status } && 200 <= status <= 299,
        net.body matches Ok(bytes) && json_parse(bytes) is Err,
{
}

/// A success status with a body that was read in full gives exactly what
/// decoding the body gives.
pub proof fn lemma_success_decodes(raw: Seq<char>, net: Observed, status: int, bytes: Seq<u8>)
    requires
        verdict(allowed_scheme(), allowed_hosts(), url_parse(raw)) is Ok,
        net.reply == (ReplyView::Status { status }),
        200 <= status <= 299,
        net.body == Ok::<Seq<u8>, Seq<char>>(bytes),
    ensures
        fetch_outcome(raw, net) == decoding(json_parse(bytes)),
{
}

} // verus!
