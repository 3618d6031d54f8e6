//! One fetch, stage by stage.
//!
//! The gateway never performs I/O. It describes the one request to send and
//! decides what each answer of the network means; a driver sends, reads and
//! reports back. A stage is a value that only the stage before it can hand
//! out, so no request is described for a URL that was not screened, and no
//! body is decoded for a status that was not a success.

use crate::decode::{decode, decoding, json_parse, result_view};
use crate::error::{GatewayError, GatewayErrorView, TransportStage};
use crate::policy::{allowed_hosts, allowed_scheme, lemma_fixed_hosts, validate, verdict};
use crate::status::StatusCode;
use crate::target::{url_parse, ParsedUrl, UrlParts};
use vstd::prelude::*;
use vstd::string::StringExecFns;

verus! {

/// How the driver's HTTP client is set up. The settings are the same for
/// every call.
#[derive(Debug, PartialEq, Eq)]
pub struct ClientSettings {
    /// The `user-agent` header of every request.
    pub user_agent: String,
    /// The deadline for a whole exchange, from connecting until the body
    /// is read, in seconds.
    pub timeout_secs: u64,
    /// How many redirects the client may follow. With none, a redirect
    /// status is handed back as the response it is.
    pub max_redirects: usize,
}

impl ClientSettings {
    /// The fixed settings: a fixed product string, a 20 second deadline and
    /// no redirects, so that a fetch is one request and reaches no host but
    /// the screened one.
    pub fn fixed() -> (settings: ClientSettings)
        ensures
            settings.user_agent@ == "poe2-arb/0.1 (tauri)"@,
            settings.timeout_secs == 20,
            settings.max_redirects == 0,
    {
        ClientSettings {
            user_agent: String::from_str("poe2-arb/0.1 (tauri)"),
            timeout_secs: 20,
            max_redirects: 0,
        }
    }
}

/// The one request of a fetch: a GET without a body.
#[derive(Debug, PartialEq, Eq)]
pub struct OutboundRequest {
    /// The full normalised URL to request.
    pub url: String,
    /// The value of the `accept` header.
    pub accept: String,
}

/// What came of sending the request.
#[derive(Debug, PartialEq, Eq)]
pub enum Reply {
    /// A response arrived; its body has not been read yet.
    Status { status: StatusCode },
    /// No response arrived: the client could not be built, or the connection,
    /// TLS or the deadline failed before one came.
    Failed { stage: TransportStage, detail: String },
}

/// The mathematical content of a [`Reply`].
pub enum ReplyView {
    Status { status: int },
    Failed { stage: TransportStage, detail: Seq<char> },
}

impl View for Reply {
    type V = ReplyView;

    open spec fn view(&self) -> ReplyView {
        match *self {
            Reply::Status { status } => ReplyView::Status { status: status@ },
            Reply::Failed { stage, detail } => ReplyView::Failed { stage, detail: detail@ },
        }
    }
}

/// The stage after screening: the request is described and not yet answered.
pub struct AwaitingResponse {
    target: ParsedUrl,
}

/// The stage after a non-success status: the body is wanted as text, for the
/// failure report only.
pub struct AwaitingErrorText {
    status: StatusCode,
}

/// The stage after a success status: the body is wanted in full, to decode.
pub struct AwaitingBody {
    status: StatusCode,
}

/// Which reading of the body the driver is asked for.
pub enum BodyDemand {
    /// Read the whole body as bytes.
    Json(AwaitingBody),
    /// Read the body as text, as far as that succeeds.
    ErrorText(AwaitingErrorText),
}

impl AwaitingResponse {
    #[verifier::type_invariant]
    spec fn screened(&self) -> bool {
        verdict(allowed_scheme(), allowed_hosts(), Ok(self.target@)) == Ok::<
            UrlParts,
            GatewayErrorView,
        >(self.target@)
    }

    /// The parts of the URL that passed the screening.
    pub closed spec fn parts(&self) -> UrlParts {
        self.target@
    }

    /// The screened URL. Its scheme and host are the allowed ones.
    pub fn target(&self) -> (url: &ParsedUrl)
        ensures
            url@ == self.parts(),
            url@.scheme == "https"@,
            url@.host == Some("poe.ninja"@),
    {
        proof {
            use_type_invariant(self);
            lemma_fixed_hosts();
        }
        &self.target
    }

    /// The request to send: a GET of the screened URL that accepts JSON.
    pub fn request(&self) -> (request: OutboundRequest)
        ensures
            request.url@ == self.parts().href,
            request.accept@ == "application/json"@,
    {
        OutboundRequest {
            url: self.target.href.clone(),
            accept: String::from_str("application/json"),
        }
    }

    /// Decides on the reply. A transport failure ends the fetch and keeps the
    /// driver's text; a status from 200 to 299 asks for the body to decode;
    /// any other status asks for the body as text.
    pub fn on_reply(self, reply: Reply) -> (next: Result<BodyDemand, GatewayError>)
        ensures
            match reply {
                Reply::Failed { stage, detail } => next matches Err(error) && error@ == (
                    GatewayErrorView::TransportError { stage, detail: detail@ }
                ),
                Reply::Status { status } => if 200 <= status@ <= 299 {
                    next matches Ok(BodyDemand::Json(then)) && then.status() == status@
                } else {
                    next matches Ok(BodyDemand::ErrorText(then)) && then.status() == status@
                },
            },
    {
        match reply {
            Reply::Failed { stage, detail } => Err(GatewayError::TransportError { stage, detail }),
            Reply::Status { status } => {
                if status.is_success() {
                    Ok(BodyDemand::Json(AwaitingBody { status }))
                } else {
                    Ok(BodyDemand::ErrorText(AwaitingErrorText { status }))
                }
            },
        }
    }
}

impl AwaitingErrorText {
    #[verifier::type_invariant]
    spec fn refused(&self) -> bool {
        !(200 <= self.status@ <= 299)
    }

    /// The status that was answered. It is not a success code.
    pub closed spec fn status(&self) -> int {
        self.status@
    }

    /// Ends the fetch with the status failure. Where the body could not be
    /// read as text, the failure carries the empty text.
    pub fn finish(self, text: Option<String>) -> (error: GatewayError)
        ensures
            !(200 <= self.status() <= 299),
            error@ == (GatewayErrorView::HttpStatusError {
                status: self.status(),
                body: match text {
                    Some(body) => body@,
                    None => Seq::empty(),
                },
            }),
    {
        proof {
            use_type_invariant(&self);
        }
        let body = match text {
            Some(body) => body,
            None => String::new(),
        };
        GatewayError::HttpStatusError { status: self.status, body }
    }
}

impl AwaitingBody {
    #[verifier::type_invariant]
    spec fn succeeded(&self) -> bool {
        200 <= self.status@ <= 299
    }

    /// The status that was answered. It is a success code.
    pub closed spec fn status(&self) -> int {
        self.status@
    }

    /// Ends the fetch with the decoded body. A body that could not be read
    /// in full, a missed deadline included, is a transport failure that keeps
    /// the driver's text; only a body that was read can be invalid JSON.
    pub fn finish(self, body: Result<Vec<u8>, String>) -> (result: Result<
        serde_json::Value,
        GatewayError,
    >)
        ensures
            200 <= self.status() <= 299,
            body matches Ok(bytes) ==> result_view(result) == decoding(json_parse(bytes@)),
            body matches Err(detail) ==> result_view(result) == Err::<
                serde_json::Value,
                GatewayErrorView,
            >(GatewayErrorView::TransportError { stage: TransportStage::Request, detail: detail@ }),
    {
        proof {
            use_type_invariant(&self);
        }
        match body {
            Ok(bytes) => decode(bytes.as_slice()),
            Err(detail) => Err(
                GatewayError::TransportError { stage: TransportStage::Request, detail },
            ),
        }
    }
}

/// Starts a fetch: parses and screens `raw` and, where it passes, hands out
/// the stage from which the request is sent. Where it does not pass, the
/// fetch has ended and no request exists.
pub fn begin(raw: &str) -> (started: Result<AwaitingResponse, GatewayError>)
    ensures
        match verdict(allowed_scheme(), allowed_hosts(), url_parse(raw@)) {
            Ok(parts) => started matches Ok(waiting) && waiting.parts() == parts,
            Err(failure) => started matches Err(error) && error@ == failure,
        },
{
    match validate(raw) {
        Ok(target) => Ok(AwaitingResponse { target }),
        Err(error) => Err(error),
    }
}

} // verus!
