//! A policy-restricted gateway for outbound JSON fetches.
//!
//! The library decides; a driver performs the network work. A raw URL is
//! screened against a fixed allowlist before any request is described, and
//! every later decision (status handling, body decoding, error text) is a
//! function with a contract.

pub mod decode;
pub mod error;
pub mod exchange;
pub mod fetch;
pub mod greeting;
pub mod policy;
pub mod status;
pub mod target;
