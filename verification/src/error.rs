//! The ways in which an operation of the client fails.

use vstd::prelude::*;
use crate::decimal::{decimal, to_decimal};
use crate::status::{status_text, Status};

verus! {

/// A failed operation. Every failure ends the operation it occurs in; nothing
/// is tried again.
#[derive(Clone, Debug, PartialEq, Eq)]
pub enum HttpError {
    /// The transport could not complete the exchange (connection, DNS, TLS,
    /// or reading the body). `detail` is the transport's own description.
    Transport { detail: String },
    /// The authenticated GET for a text was answered with a status outside
    /// the success class.
    TextStatus { url: String, status: Status },
    /// The HEAD request for the length was answered with a status outside the
    /// success class.
    LengthStatus { url: String, status: Status },
    /// The response to the HEAD request for the length names no content
    /// length.
    MissingLength { url: String },
    /// The probe for range support got no response. What the transport said
    /// of it is dropped on purpose.
    RangeProbe,
    /// A ranged GET was answered with a status that is neither 206 nor 200.
    ChunkStatus { status: Status },
    /// The GET for the whole resource was answered with a status outside the
    /// success class.
    DataStatus { url: String },
    /// The text fetched from `url` is not JSON. `diagnostic` is the parser's
    /// description of the fault.
    Json { url: String, diagnostic: String },
}

/// The mathematical value of an `HttpError`: texts as sequences of
/// characters, a status as its number.
pub enum HttpErrorView {
    Transport { detail: Seq<char> },
    TextStatus { url: Seq<char>, status: u16 },
    LengthStatus { url: Seq<char>, status: u16 },
    MissingLength { url: Seq<char> },
    RangeProbe,
    ChunkStatus { status: u16 },
    DataStatus { url: Seq<char> },
    Json { url: Seq<char>, diagnostic: Seq<char> },
}

impl View for HttpError {
    type V = HttpErrorView;

    open spec fn view(&self) -> HttpErrorView {
        match *self {
            HttpError::Transport { detail } => HttpErrorView::Transport { detail: detail@ },
            HttpError::TextStatus { url, status } => HttpErrorView::TextStatus {
                url: url@,
                status: status@,
            },
            HttpError::LengthStatus { url, status } => HttpErrorView::LengthStatus {
                url: url@,
                status: status@,
            },
            HttpError::MissingLength { url } => HttpErrorView::MissingLength { url: url@ },
            HttpError::RangeProbe => HttpErrorView::RangeProbe,
            HttpError::ChunkStatus { status } => HttpErrorView::ChunkStatus { status: status@ },
            HttpError::DataStatus { url } => HttpErrorView::DataStatus { url: url@ },
            HttpError::Json { url, diagnostic } => HttpErrorView::Json {
                url: url@,
                diagnostic: diagnostic@,
            },
        }
    }
}

impl HttpErrorView {
    /// The message that describes the failure. A status that failed a text
    /// fetch or a length probe is written as its status line; one that ended
    /// a download in chunks as its bare number.
    pub open spec fn message(self) -> Seq<char> {
        match self {
            HttpErrorView::Transport { detail } => detail,
            HttpErrorView::TextStatus { url, status } => "Error while getting from url <"@ + url
                + ">: <"@ + status_text(status) + ">"@,
            HttpErrorView::LengthStatus { url, status } => "Error while trying to access url <"@
                + url + "> - <"@ + status_text(status) + ">"@,
            HttpErrorView::MissingLength { url } => "Error getting length of url <"@ + url + ">"@,
            HttpErrorView::RangeProbe => "Could not check http range"@,
            HttpErrorView::ChunkStatus { status } => "Error received "@ + decimal(status as nat),
            HttpErrorView::DataStatus { url } => "Error while getting from url <"@ + url + ">"@,
            HttpErrorView::Json { url, diagnostic } => "Error parsing json from url <"@ + url
                + ">: "@ + diagnostic,
        }
    }

    /// The status that the failure names, if it names one.
    pub open spec fn status(self) -> Option<u16> {
        match self {
            HttpErrorView::TextStatus { status, .. } => Some(status),
            HttpErrorView::LengthStatus { status, .. } => Some(status),
            HttpErrorView::ChunkStatus { status } => Some(status),
            _ => None,
        }
    }

    /// The address that the failure names, if it names one.
    pub open spec fn url(self) -> Option<Seq<char>> {
        match self {
            HttpErrorView::TextStatus { url, .. } => Some(url),
            HttpErrorView::LengthStatus { url, .. } => Some(url),
            HttpErrorView::MissingLength { url } => Some(url),
            HttpErrorView::DataStatus { url } => Some(url),
            HttpErrorView::Json { url, .. } => Some(url),
            _ => None,
        }
    }
}

impl HttpError {
    /// Describes the failure in one line.
    pub fn message(&self) -> (s: String)
        ensures
            s@ == self@.message(),
    {
        match self {
            HttpError::Transport { detail } => detail.clone(),
            HttpError::TextStatus { url, status } => {
                let mut s: String = String::from_str("Error while getting from url <");
                s.append(url.as_str());
                s.append(">: <");
                s.append(status.display().as_str());
                s.append(">");
                s
            },
            HttpError::LengthStatus { url, status } => {
                let mut s: String = String::from_str("Error while trying to access url <");
                s.append(url.as_str());
                s.append("> - <");
                s.append(status.display().as_str());
                s.append(">");
                s
            },
            HttpError::MissingLength { url } => {
                let mut s: String = String::from_str("Error getting length of url <");
                s.append(url.as_str());
                s.append(">");
                s
            },
            HttpError::RangeProbe => String::from_str("Could not check http range"),
            HttpError::ChunkStatus { status } => {
                let mut s: String = String::from_str("Error received ");
                s.append(to_decimal(status.as_u16() as u64).as_str());
                s
            },
            HttpError::DataStatus { url } => {
                let mut s: String = String::from_str("Error while getting from url <");
                s.append(url.as_str());
                s.append(">");
                s
            },
            HttpError::Json { url, diagnostic } => {
                let mut s: String = String::from_str("Error parsing json from url <");
                s.append(url.as_str());
                s.append(">: ");
                s.append(diagnostic.as_str());
                s
            },
        }
    }
}

/// Whether `part` stands somewhere in `text`, in one piece.
pub open spec fn holds_text(text: Seq<char>, part: Seq<char>) -> bool {
    exists|at: int|
        0 <= at && at + part.len() <= text.len() && #[trigger] text.subrange(
            at,
            at + part.len(),
        ) == part
}

/// The message of a failure that names an address shows the address.
pub proof fn lemma_message_names_url(error: HttpErrorView)
    requires
        error.url() is Some,
    ensures
        holds_text(error.message(), error.url()->0),
{
    let url = error.url()->0;
    let message = error.message();
    let at: int = match error {
        HttpErrorView::TextStatus { .. } => "Error while getting from url <"@.len() as int,
        HttpErrorView::LengthStatus { .. } => "Error while trying to access url <"@.len() as int,
        HttpErrorView::MissingLength { .. } => "Error getting length of url <"@.len() as int,
        HttpErrorView::DataStatus { .. } => "Error while getting from url <"@.len() as int,
        _ => "Error parsing json from url <"@.len() as int,
    };
    assert(message.subrange(at, at + url.len()) =~= url);
}

/// The message of a failure that names a status shows its number in
/// decimal.
pub proof fn lemma_message_shows_status(error: HttpErrorView)
    requires
        error.status() is Some,
    ensures
        holds_text(error.message(), decimal(error.status()->0 as nat)),
{
    let number = decimal(error.status()->0 as nat);
    let message = error.message();
    let at: int = match error {
        HttpErrorView::TextStatus { url, .. } => ("Error while getting from url <"@.len()
            + url.len() + ">: <"@.len()) as int,
        HttpErrorView::LengthStatus { url, .. } => ("Error while trying to access url <"@.len()
            + url.len() + "> - <"@.len()) as int,
        _ => "Error received "@.len() as int,
    };
    assert(message.subrange(at, at + number.len()) =~= number);
}

/// The value of a result whose error is an `HttpError`.
pub open spec fn result_view<T>(r: Result<T, HttpError>) -> Result<T, HttpErrorView> {
    match r {
        Ok(v) => Ok(v),
        Err(e) => Err(e@),
    }
}

/// The value of a result that holds a text or an `HttpError`.
pub open spec fn text_result_view(r: Result<String, HttpError>) -> Result<Seq<char>, HttpErrorView> {
    match r {
        Ok(v) => Ok(v@),
        Err(e) => Err(e@),
    }
}

} // verus!
