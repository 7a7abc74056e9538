//! A host agent and its client library for infrastructure automation.
//!
//! A controller sends requests (run a command, manage a package or a service,
//! read telemetry) to an agent over a line-framed JSON protocol; the agent
//! serves each with the provider that fits its host and streams a command's
//! output back, ending the stream with the command's exit status.
//!
//! - [`codec`]: the wire framing of headers and body chunks.
//! - [`json`], [`request`], [`response`]: the headers and their schemas.
//! - [`command`]: command lines, exit statuses, and the output stream.
//! - [`package`], [`service`]: the providers and the idempotent steps.
//! - [`host`]: the provider table and the request router.
//! - [`telemetry`], [`output`], [`pattern`]: what providers read.

pub mod codec;
pub mod command;
pub mod error;
pub mod host;
pub mod json;
pub mod output;
pub mod package;
pub mod pattern;
pub mod request;
pub mod response;
pub mod service;
pub mod telemetry;
