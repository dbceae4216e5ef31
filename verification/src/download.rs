//! The download of a resource as bytes, in chunks where the server takes
//! byte ranges and in one piece where it does not.
//!
//! The download is a state machine. A [`Download`] stands for a download that
//! waits for the outcome of one request, the one that [`Download::request`]
//! names. The driver performs that request and hands the outcome to
//! [`Download::step`], which says what to report as progress and how to go
//! on: with the next request, with the finished bytes, or with a failure.
//!
//! The order of the requests is fixed. A HEAD request probes for range
//! support. Without it, one GET fetches the whole resource. With it, a second
//! HEAD request asks for the length, and GET requests for consecutive windows
//! of [`CHUNK`] bytes follow, starting at offset zero, until the offset has
//! passed the length. The test is `offset > length`, so a resource whose
//! length is a multiple of the chunk size is asked for one more window, of
//! which the server has nothing or little to send.
//!
//! A server may answer a ranged request with status 200 and the whole
//! resource. The download then ends with that body alone: what the earlier
//! windows brought is dropped, since the body already holds it.

use vstd::prelude::*;
use crate::decimal::{decimal, to_decimal};
use crate::error::{HttpError, HttpErrorView};
use crate::fetch::{
    content_length_result,
    range_support_result,
    read_content_length,
    read_range_support,
};
use crate::response::{Outcome, OutcomeView};
use crate::status::{is_success, Status, OK, PARTIAL_CONTENT};

verus! {

/// The size in bytes of the window that one ranged request asks for: two
/// mebibytes.
pub const CHUNK: u64 = 2_097_152;

/// Whether a download of a resource of `length` bytes can count its offsets
/// in 64 bits: the first offset past the length must still be a `u64`.
pub open spec fn length_fits(length: u64) -> bool {
    length + CHUNK <= u64::MAX
}

/// A request that a download asks its driver to perform. None of them is
/// authenticated.
#[derive(Clone, Copy, Debug, PartialEq, Eq)]
pub enum Request {
    /// A HEAD request.
    Head,
    /// A GET request for the whole resource.
    Get,
    /// A GET request for the bytes from offset `first` to offset `last`,
    /// both included.
    GetRange { first: u64, last: u64 },
}

/// The value of the `Range` header that asks for the bytes from `first` to
/// `last`.
pub open spec fn range_header_text(first: u64, last: u64) -> Seq<char> {
    "bytes="@ + decimal(first as nat) + "-"@ + decimal(last as nat)
}

impl Request {
    /// The value of the `Range` header of this request, if it has one.
    pub fn range_header(&self) -> (header: Option<String>)
        ensures
            match *self {
                Request::GetRange { first, last } => header matches Some(text) && text@
                    == range_header_text(first, last),
                _ => header is None,
            },
    {
        match *self {
            Request::GetRange { first, last } => {
                let mut text: String = String::from_str("bytes=");
                text.append(to_decimal(first).as_str());
                text.append("-");
                text.append(to_decimal(last).as_str());
                Some(text)
            },
            _ => None,
        }
    }
}

/// Where a download stands: which outcome it waits for.
pub enum Stage {
    /// The outcome of the HEAD request that probes for range support.
    Probing,
    /// The outcome of the HEAD request that asks for the length.
    Sizing,
    /// The outcome of the GET request for the window at `offset`, of a
    /// resource of `total` bytes, with `received` gathered from the windows
    /// before it.
    Ranged { total: u64, offset: u64, received: Seq<u8> },
    /// The outcome of the GET request for the whole resource.
    Whole,
}

/// The mathematical value of a `Download`.
pub struct DownloadView {
    pub url: Seq<char>,
    pub stage: Stage,
}

/// How a download goes on after an outcome.
pub enum NextView {
    /// With the request of this download.
    Continue(DownloadView),
    /// Not at all: these are the bytes of the resource.
    Done(Seq<u8>),
    /// Not at all: the download failed.
    Failed(HttpErrorView),
}

/// What an outcome leads to: the progress to report, if any, and how the
/// download goes on.
pub struct StepView {
    pub progress: Option<u64>,
    pub next: NextView,
}

/// The download of `url` before its first request.
pub open spec fn start(url: Seq<char>) -> DownloadView {
    DownloadView { url, stage: Stage::Probing }
}

impl DownloadView {
    /// What holds of every download that `start` and `step` lead to: a
    /// ranged download stands at a multiple of the chunk size, not past the
    /// length, and the length leaves room for one more chunk.
    pub open spec fn wf(self) -> bool {
        self.stage matches Stage::Ranged { total, offset, .. } ==> {
            &&& offset % CHUNK == 0
            &&& offset <= total
            &&& length_fits(total)
        }
    }

    /// The request whose outcome the download waits for.
    pub open spec fn request(self) -> Request {
        match self.stage {
            Stage::Probing => Request::Head,
            Stage::Sizing => Request::Head,
            Stage::Ranged { offset, .. } => Request::GetRange {
                first: offset,
                last: (offset + CHUNK - 1) as u64,
            },
            Stage::Whole => Request::Get,
        }
    }

    /// Whether the download reads the body of a response with this status.
    pub open spec fn wants_body(self, status: u16) -> bool {
        match self.stage {
            Stage::Probing => false,
            Stage::Sizing => false,
            Stage::Ranged { .. } => status == PARTIAL_CONTENT || status == OK,
            Stage::Whole => is_success(status),
        }
    }

    /// Whether the download can take this outcome: a length that it learns
    /// must fit (see `length_fits`). Every other outcome can be taken.
    pub open spec fn accepts(self, outcome: OutcomeView<Seq<u8>>) -> bool {
        self.stage is Sizing ==> (content_length_result(self.url, outcome) matches Ok(total)
            ==> length_fits(total))
    }

    /// The step that the download takes on `outcome`.
    pub open spec fn step(self, outcome: OutcomeView<Seq<u8>>) -> StepView {
        match self.stage {
            Stage::Probing => match range_support_result(outcome) {
                Err(error) => StepView { progress: None, next: NextView::Failed(error) },
                Ok(supported) => StepView {
                    progress: None,
                    next: NextView::Continue(
                        DownloadView {
                            url: self.url,
                            stage: if supported {
                                Stage::Sizing
                            } else {
                                Stage::Whole
                            },
                        },
                    ),
                },
            },
            Stage::Sizing => match content_length_result(self.url, outcome) {
                Err(error) => StepView { progress: None, next: NextView::Failed(error) },
                Ok(total) => StepView {
                    progress: None,
                    next: NextView::Continue(
                        DownloadView {
                            url: self.url,
                            stage: Stage::Ranged { total, offset: 0, received: Seq::empty() },
                        },
                    ),
                },
            },
            Stage::Ranged { total, offset, received } => match outcome {
                OutcomeView::TransportFailure { detail } => StepView {
                    progress: None,
                    next: NextView::Failed(HttpErrorView::Transport { detail }),
                },
                OutcomeView::Response(response) => if response.status == PARTIAL_CONTENT {
                    StepView {
                        progress: Some((offset + CHUNK) as u64),
                        next: if offset + CHUNK > total {
                            NextView::Done(received + response.body)
                        } else {
                            NextView::Continue(
                                DownloadView {
                                    url: self.url,
                                    stage: Stage::Ranged {
                                        total,
                                        offset: (offset + CHUNK) as u64,
                                        received: received + response.body,
                                    },
                                },
                            )
                        },
                    }
                } else if response.status == OK {
                    StepView { progress: None, next: NextView::Done(response.body) }
                } else {
                    StepView {
                        progress: None,
                        next: NextView::Failed(
                            HttpErrorView::ChunkStatus { status: response.status },
                        ),
                    }
                },
            },
            Stage::Whole => match outcome {
                OutcomeView::TransportFailure { detail } => StepView {
                    progress: None,
                    next: NextView::Failed(HttpErrorView::Transport { detail }),
                },
                OutcomeView::Response(response) => if is_success(response.status) {
                    StepView {
                        progress: Some(response.body.len() as u64),
                        next: NextView::Done(response.body),
                    }
                } else {
                    StepView {
                        progress: None,
                        next: NextView::Failed(HttpErrorView::DataStatus { url: self.url }),
                    }
                },
            },
        }
    }
}

#[derive(Debug, PartialEq, Eq)]
enum Phase {
    Probing,
    Sizing,
    Ranged { total: u64, offset: u64, buf: Vec<u8> },
    Whole,
}

/// A download that waits for the outcome of one request.
#[derive(Debug, PartialEq, Eq)]
pub struct Download {
    url: String,
    phase: Phase,
}

/// How a download goes on after an outcome.
#[derive(Debug, PartialEq, Eq)]
pub enum Next {
    /// With the request of this download.
    Continue(Download),
    /// Not at all: these are the bytes of the resource.
    Done(Vec<u8>),
    /// Not at all: the download failed.
    Failed(HttpError),
}

/// What an outcome leads to.
#[derive(Debug, PartialEq, Eq)]
pub struct Step {
    /// The cumulative count to report as progress, if this outcome completed
    /// a unit of work.
    pub progress: Option<u64>,
    /// How the download goes on.
    pub next: Next,
}

impl View for Download {
    type V = DownloadView;

    closed spec fn view(&self) -> DownloadView {
        DownloadView {
            url: self.url@,
            stage: match self.phase {
                Phase::Probing => Stage::Probing,
                Phase::Sizing => Stage::Sizing,
                Phase::Ranged { total, offset, buf } => Stage::Ranged {
                    total,
                    offset,
                    received: buf@,
                },
                Phase::Whole => Stage::Whole,
            },
        }
    }
}

impl View for Next {
    type V = NextView;

    open spec fn view(&self) -> NextView {
        match *self {
            Next::Continue(download) => NextView::Continue(download@),
            Next::Done(bytes) => NextView::Done(bytes@),
            Next::Failed(error) => NextView::Failed(error@),
        }
    }
}

impl View for Step {
    type V = StepView;

    open spec fn view(&self) -> StepView {
        StepView { progress: self.progress, next: self.next@ }
    }
}

impl Download {
    #[verifier::type_invariant]
    spec fn valid(self) -> bool {
        self@.wf()
    }

    /// The download of `url`, before its first request.
    pub fn new(url: &str) -> (download: Download)
        ensures
            download@ == start(url@),
    {
        Download { url: String::from_str(url), phase: Phase::Probing }
    }

    /// The address of the resource.
    pub fn url(&self) -> (url: &str)
        ensures
            url@ == self@.url,
    {
        self.url.as_str()
    }

    /// The request whose outcome the download waits for.
    pub fn request(&self) -> (request: Request)
        ensures
            request == self@.request(),
            self@.wf(),
    {
        proof {
            use_type_invariant(self);
        }
        match &self.phase {
            Phase::Probing => Request::Head,
            Phase::Sizing => Request::Head,
            Phase::Ranged { offset, .. } => Request::GetRange {
                first: *offset,
                last: *offset + (CHUNK - 1),
            },
            Phase::Whole => Request::Get,
        }
    }

    /// Whether the download reads the body of a response with this status.
    /// Where it does not, the driver may leave the body unread and hand over
    /// an empty one.
    pub fn wants_body(&self, status: Status) -> (wanted: bool)
        ensures
            wanted == self@.wants_body(status@),
    {
        match &self.phase {
            Phase::Probing => false,
            Phase::Sizing => false,
            Phase::Ranged { .. } => status.as_u16() == PARTIAL_CONTENT || status.as_u16() == OK,
            Phase::Whole => status.is_success(),
        }
    }

    /// Whether the download can take this outcome.
    pub fn accepts(&self, outcome: &Outcome<Vec<u8>>) -> (accepted: bool)
        ensures
            accepted == self@.accepts(outcome@),
    {
        match &self.phase {
            Phase::Sizing => match read_content_length(self.url.as_str(), outcome) {
                Ok(total) => total <= u64::MAX - CHUNK,
                Err(_) => true,
            },
            _ => true,
        }
    }

    /// Takes the outcome of the request that the download waited for.
    pub fn step(self, outcome: Outcome<Vec<u8>>) -> (step: Step)
        requires
            self@.accepts(outcome@),
        ensures
            step@ == self@.step(outcome@),
    {
        proof {
            use_type_invariant(&self);
        }
        let Download { url, phase } = self;
        match phase {
            Phase::Probing => match read_range_support(&outcome) {
                Err(error) => Step { progress: None, next: Next::Failed(error) },
                Ok(supported) => {
                    let phase: Phase = if supported {
                        Phase::Sizing
                    } else {
                        Phase::Whole
                    };
                    Step { progress: None, next: Next::Continue(Download { url, phase }) }
                },
            },
            Phase::Sizing => match read_content_length(url.as_str(), &outcome) {
                Err(error) => Step { progress: None, next: Next::Failed(error) },
                Ok(total) => {
                    let mut buf: Vec<u8> = Vec::new();
                    if total <= usize::MAX as u64 {
                        let _ = buf.try_reserve(total as usize);
                    }
                    Step {
                        progress: None,
                        next: Next::Continue(
                            Download { url, phase: Phase::Ranged { total, offset: 0, buf } },
                        ),
                    }
                },
            },
            Phase::Ranged { total, offset, buf } => match outcome {
                Outcome::TransportFailure { detail } => Step {
                    progress: None,
                    next: Next::Failed(HttpError::Transport { detail }),
                },
                Outcome::Response(response) => {
                    if response.status.as_u16() == PARTIAL_CONTENT {
                        let mut buf: Vec<u8> = buf;
                        let mut body: Vec<u8> = response.body;
                        buf.append(&mut body);
                        let done: u64 = offset + CHUNK;
                        if done > total {
                            Step { progress: Some(done), next: Next::Done(buf) }
                        } else {
                            Step {
                                progress: Some(done),
                                next: Next::Continue(
                                    Download {
                                        url,
                                        phase: Phase::Ranged { total, offset: done, buf },
                                    },
                                ),
                            }
                        }
                    } else if response.status.as_u16() == OK {
                        Step { progress: None, next: Next::Done(response.body) }
                    } else {
                        Step {
                            progress: None,
                            next: Next::Failed(HttpError::ChunkStatus { status: response.status }),
                        }
                    }
                },
            },
            Phase::Whole => match outcome {
                Outcome::TransportFailure { detail } => Step {
                    progress: None,
                    next: Next::Failed(HttpError::Transport { detail }),
                },
                Outcome::Response(response) => {
                    if response.status.is_success() {
                        let size: u64 = response.body.len() as u64;
                        Step { progress: Some(size), next: Next::Done(response.body) }
                    } else {
                        Step { progress: None, next: Next::Failed(HttpError::DataStatus { url }) }
                    }
                },
            },
        }
    }
}

} // verus!
