//! The simple fetches: what each returns for each outcome of its one request.
//!
//! Each function here takes the outcome of the request that the operation
//! sends and gives the operation's result. The request itself is fixed by the
//! operation: an authenticated GET for a text, an unauthenticated HEAD for the
//! length and for the range probe, an authenticated POST for a JSON payload.

use vstd::prelude::*;
use crate::error::{result_view, text_result_view, HttpError, HttpErrorView};
use crate::response::{Outcome, OutcomeView};
use crate::status::is_success;

verus! {

/// The result of fetching a text from `url`: the body of a response in the
/// success class; the address and the status of any other response; the
/// transport's failure as it is.
pub open spec fn text_result(url: Seq<char>, outcome: OutcomeView<Seq<char>>) -> Result<
    Seq<char>,
    HttpErrorView,
> {
    match outcome {
        OutcomeView::TransportFailure { detail } => Err(HttpErrorView::Transport { detail }),
        OutcomeView::Response(response) => if is_success(response.status) {
            Ok(response.body)
        } else {
            Err(HttpErrorView::TextStatus { url, status: response.status })
        },
    }
}

/// The result of asking `url` for its length: the content length of a
/// response in the success class, and a failure where such a response names
/// none; the address and the status of any other response; the transport's
/// failure as it is.
pub open spec fn content_length_result<V>(url: Seq<char>, outcome: OutcomeView<V>) -> Result<
    u64,
    HttpErrorView,
> {
    match outcome {
        OutcomeView::TransportFailure { detail } => Err(HttpErrorView::Transport { detail }),
        OutcomeView::Response(response) => if is_success(response.status) {
            match response.content_length {
                Some(length) => Ok(length),
                None => Err(HttpErrorView::MissingLength { url }),
            }
        } else {
            Err(HttpErrorView::LengthStatus { url, status: response.status })
        },
    }
}

/// The result of probing for range support: whether the response has an
/// `Accept-Ranges` header, whatever its status; one fixed failure where there
/// is no response.
pub open spec fn range_support_result<V>(outcome: OutcomeView<V>) -> Result<bool, HttpErrorView> {
    match outcome {
        OutcomeView::TransportFailure { .. } => Err(HttpErrorView::RangeProbe),
        OutcomeView::Response(response) => Ok(response.accept_ranges),
    }
}

/// The result of posting a payload: success as soon as any response arrived,
/// whatever its status; the transport's failure as it is.
pub open spec fn post_result<V>(outcome: OutcomeView<V>) -> Result<(), HttpErrorView> {
    match outcome {
        OutcomeView::TransportFailure { detail } => Err(HttpErrorView::Transport { detail }),
        OutcomeView::Response(_) => Ok(()),
    }
}

/// Whether a text fetch reads the body of a response with this status.
pub fn text_wants_body(status: crate::status::Status) -> (wanted: bool)
    ensures
        wanted == is_success(status@),
{
    status.is_success()
}

/// Gives the result of a text fetch from `url` whose GET ended in `outcome`.
pub fn read_text(url: &str, outcome: Outcome<String>) -> (r: Result<String, HttpError>)
    ensures
        text_result_view(r) == text_result(url@, outcome@),
{
    match outcome {
        Outcome::TransportFailure { detail } => Err(HttpError::Transport { detail }),
        Outcome::Response(response) => {
            if response.status.is_success() {
                Ok(response.body)
            } else {
                Err(HttpError::TextStatus { url: String::from_str(url), status: response.status })
            }
        },
    }
}

/// Gives the result of a length probe of `url` whose HEAD ended in `outcome`.
/// A response in the success class without a content length is a failure,
/// never a length of zero.
pub fn read_content_length<B: View>(url: &str, outcome: &Outcome<B>) -> (r: Result<u64, HttpError>)
    ensures
        result_view(r) == content_length_result(url@, outcome@),
{
    match outcome {
        Outcome::TransportFailure { detail } => Err(HttpError::Transport { detail: detail.clone() }),
        Outcome::Response(response) => {
            if response.status.is_success() {
                match response.content_length {
                    Some(length) => Ok(length),
                    None => Err(HttpError::MissingLength { url: String::from_str(url) }),
                }
            } else {
                Err(
                    HttpError::LengthStatus {
                        url: String::from_str(url),
                        status: response.status,
                    },
                )
            }
        },
    }
}

/// Gives the result of a range probe whose HEAD ended in `outcome`.
pub fn read_range_support<B: View>(outcome: &Outcome<B>) -> (r: Result<bool, HttpError>)
    ensures
        result_view(r) == range_support_result(outcome@),
{
    match outcome {
        Outcome::TransportFailure { .. } => Err(HttpError::RangeProbe),
        Outcome::Response(response) => Ok(response.accept_ranges),
    }
}

/// Gives the result of a post whose request ended in `outcome`.
pub fn read_post<B: View>(outcome: &Outcome<B>) -> (r: Result<(), HttpError>)
    ensures
        result_view(r) == post_result(outcome@),
{
    match outcome {
        Outcome::TransportFailure { detail } => Err(HttpError::Transport { detail: detail.clone() }),
        Outcome::Response(_) => Ok(()),
    }
}

/// A length probe that is answered in the success class without a content
/// length fails, and names the address; it never yields a length.
pub proof fn lemma_missing_length_fails<V>(url: Seq<char>, outcome: OutcomeView<V>)
    requires
        outcome matches OutcomeView::Response(response) && is_success(response.status)
            && response.content_length is None,
    ensures
        content_length_result(url, outcome) == Err::<u64, HttpErrorView>(
            HttpErrorView::MissingLength { url },
        ),
{
}

} // verus!
