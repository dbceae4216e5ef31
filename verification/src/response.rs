//! What a transport reports of one request.

use vstd::prelude::*;
use crate::status::Status;

verus! {

/// A response, as far as the client reads it: the status, the two facts it
/// takes from the headers, and the body in the form `B` in which the
/// operation at hand wants it (bytes, text, or nothing).
#[derive(Clone, Debug, PartialEq, Eq)]
pub struct Response<B> {
    /// The status of the response.
    pub status: Status,
    /// Whether the response has an `Accept-Ranges` header, whatever it says.
    pub accept_ranges: bool,
    /// The number in the `Content-Length` header, where there is one and it
    /// is a number.
    pub content_length: Option<u64>,
    /// The body. Where the operation at hand does not read the body of a
    /// response with this status, any value may stand here.
    pub body: B,
}

/// The outcome of one request: a response, whatever its status, or no
/// response at all.
#[derive(Clone, Debug, PartialEq, Eq)]
pub enum Outcome<B> {
    /// The server answered.
    Response(Response<B>),
    /// The exchange failed below HTTP. `detail` is the transport's own
    /// description of the failure.
    TransportFailure { detail: String },
}

/// The mathematical value of a `Response`.
pub struct ResponseView<V> {
    pub status: u16,
    pub accept_ranges: bool,
    pub content_length: Option<u64>,
    pub body: V,
}

/// The mathematical value of an `Outcome`.
pub enum OutcomeView<V> {
    Response(ResponseView<V>),
    TransportFailure { detail: Seq<char> },
}

impl<B: View> View for Response<B> {
    type V = ResponseView<B::V>;

    open spec fn view(&self) -> ResponseView<B::V> {
        ResponseView {
            status: self.status@,
            accept_ranges: self.accept_ranges,
            content_length: self.content_length,
            body: self.body@,
        }
    }
}

impl<B: View> View for Outcome<B> {
    type V = OutcomeView<B::V>;

    open spec fn view(&self) -> OutcomeView<B::V> {
        match *self {
            Outcome::Response(response) => OutcomeView::Response(response@),
            Outcome::TransportFailure { detail } => OutcomeView::TransportFailure {
                detail: detail@,
            },
        }
    }
}

} // verus!
