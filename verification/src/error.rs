//! The failures a fetch can end in, and the text each is reported with.

use crate::status::{status_line, StatusCode};
use vstd::prelude::*;
use vstd::string::StringExecFns;

verus! {

/// Where in the network step a transport failure arose.
#[derive(Debug, Clone, Copy, PartialEq, Eq)]
pub enum TransportStage {
    /// The HTTP client could not be set up.
    ClientSetup,
    /// The exchange with the endpoint failed: no response came back, or the
    /// body of a response could not be read in full.
    Request,
}

/// Why a fetch failed. Every failure is terminal for its call.
#[derive(Debug, PartialEq, Eq)]
pub enum GatewayError {
    /// The input is not a syntactically valid absolute URL.
    InvalidUrl { detail: String },
    /// The URL's scheme is not the allowed one.
    SchemeNotAllowed,
    /// The URL's host is absent or not on the allowlist.
    HostNotAllowed,
    /// The network exchange itself failed: DNS, connection, TLS or timeout,
    /// before a response arrived or while its body was read.
    TransportError { stage: TransportStage, detail: String },
    /// The endpoint answered with a status outside 200..=299.
    HttpStatusError { status: StatusCode, body: String },
    /// The response body could not be decoded as JSON.
    InvalidJson { detail: String },
}

/// The mathematical content of a [`GatewayError`].
pub enum GatewayErrorView {
    InvalidUrl { detail: Seq<char> },
    SchemeNotAllowed,
    HostNotAllowed,
    TransportError { stage: TransportStage, detail: Seq<char> },
    HttpStatusError { status: int, body: Seq<char> },
    InvalidJson { detail: Seq<char> },
}

impl View for GatewayError {
    type V = GatewayErrorView;

    open spec fn view(&self) -> GatewayErrorView {
        match *self {
            GatewayError::InvalidUrl { detail } => GatewayErrorView::InvalidUrl { detail: detail@ },
            GatewayError::SchemeNotAllowed => GatewayErrorView::SchemeNotAllowed,
            GatewayError::HostNotAllowed => GatewayErrorView::HostNotAllowed,
            GatewayError::TransportError { stage, detail } => GatewayErrorView::TransportError {
                stage,
                detail: detail@,
            },
            GatewayError::HttpStatusError { status, body } => GatewayErrorView::HttpStatusError {
                status: status@,
                body: body@,
            },
            GatewayError::InvalidJson { detail } => GatewayErrorView::InvalidJson { detail: detail@ },
        }
    }
}

impl GatewayErrorView {
    /// The text a failure is reported with: a fixed phrase naming the kind,
    /// followed by the diagnostic detail the failure carries.
    pub open spec fn message(self) -> Seq<char> {
        match self {
            GatewayErrorView::InvalidUrl { detail } => "invalid url: "@ + detail,
            GatewayErrorView::SchemeNotAllowed => "only https urls are allowed"@,
            GatewayErrorView::HostNotAllowed => "only poe.ninja is allowed"@,
            GatewayErrorView::TransportError { stage: TransportStage::ClientSetup, detail } => {
                "http client build failed: "@ + detail
            },
            GatewayErrorView::TransportError { stage: TransportStage::Request, detail } => {
                "http request failed: "@ + detail
            },
            GatewayErrorView::HttpStatusError { status, body } => {
                "http error: "@ + status_line(status) + " "@ + body
            },
            GatewayErrorView::InvalidJson { detail } => "invalid json: "@ + detail,
        }
    }
}

impl GatewayError {
    /// Renders the failure as the text handed to the caller.
    pub fn message(&self) -> (text: String)
        ensures
            text@ == self@.message(),
    {
        match self {
            GatewayError::InvalidUrl { detail } => {
                String::from_str("invalid url: ").concat(detail.as_str())
            },
            GatewayError::SchemeNotAllowed => String::from_str("only https urls are allowed"),
            GatewayError::HostNotAllowed => String::from_str("only poe.ninja is allowed"),
            GatewayError::TransportError { stage, detail } => {
                match stage {
                    TransportStage::ClientSetup => {
                        String::from_str("http client build failed: ").concat(detail.as_str())
                    },
                    TransportStage::Request => {
                        String::from_str("http request failed: ").concat(detail.as_str())
                    },
                }
            },
            GatewayError::HttpStatusError { status, body } => {
                let line = status.line();
                String::from_str("http error: ").concat(line.as_str()).concat(" ").concat(
                    body.as_str(),
                )
            },
            GatewayError::InvalidJson { detail } => {
                String::from_str("invalid json: ").concat(detail.as_str())
            },
        }
    }
}

} // verus!
