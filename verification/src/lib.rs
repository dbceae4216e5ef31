//! Decision logic of a small authenticated HTTP retrieval client.
//!
//! Nothing in this crate opens a connection. The crate interprets what a
//! transport reports (a status, two header facts, a body, or a failure) and
//! decides what is returned, what fails, and, for a download in chunks, which
//! request comes next. A driver performs the requests and feeds the outcomes
//! back in.
//!
//! - [`client`]: the operations, as a trait that a transport implements.
//! - [`auth`] and [`headers`]: the credential and the headers that carry it.
//! - [`response`]: the outcome of one request.
//! - [`fetch`] and [`json`]: what the simple fetches make of an outcome.
//! - [`download`] and [`run`]: the download in chunks, step by step and as a
//!   whole.
//! - [`status`], [`error`] and [`decimal`]: status codes, failures and their
//!   messages.

pub mod auth;
pub mod client;
pub mod decimal;
pub mod download;
pub mod error;
pub mod fetch;
pub mod headers;
pub mod json;
pub mod response;
pub mod run;
pub mod status;
