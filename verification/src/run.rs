//! Whole downloads: what a download does when it is fed a sequence of
//! outcomes, and what holds of every such run.

use vstd::prelude::*;
use crate::download::{
    length_fits,
    start,
    Download,
    DownloadView,
    Next,
    NextView,
    Request,
    Stage,
    Step,
    CHUNK,
};
use crate::error::{HttpError, HttpErrorView};
use crate::response::{Outcome, OutcomeView, ResponseView};
use crate::status::{is_success, OK, PARTIAL_CONTENT};

verus! {

/// What a driver has seen of a download: the requests that it performed, in
/// order; the progress that it reported, in order; and how the download
/// ended, if it has ended.
pub struct RunView {
    pub requests: Seq<Request>,
    pub progress: Seq<u64>,
    pub end: Option<Result<Seq<u8>, HttpErrorView>>,
}

/// The progress that one step reports, as a sequence of at most one value.
pub open spec fn reported(progress: Option<u64>) -> Seq<u64> {
    match progress {
        Some(done) => seq![done],
        None => Seq::empty(),
    }
}

/// The run of `download` on `outcomes`: the driver performs the request of
/// the download, hands over the first outcome, and goes on with the rest as
/// the step says. Outcomes that are left when the download has ended are
/// never asked for. Where the outcomes run out first, the last request is one
/// that was sent and not answered, and the run has no end.
pub open spec fn run(download: DownloadView, outcomes: Seq<OutcomeView<Seq<u8>>>) -> RunView
    decreases outcomes.len(),
{
    if outcomes.len() == 0 {
        RunView { requests: seq![download.request()], progress: Seq::empty(), end: None }
    } else {
        let step = download.step(outcomes[0]);
        match step.next {
            NextView::Continue(next) => {
                let rest = run(next, outcomes.drop_first());
                RunView {
                    requests: seq![download.request()] + rest.requests,
                    progress: reported(step.progress) + rest.progress,
                    end: rest.end,
                }
            },
            NextView::Done(bytes) => RunView {
                requests: seq![download.request()],
                progress: reported(step.progress),
                end: Some(Ok(bytes)),
            },
            NextView::Failed(error) => RunView {
                requests: seq![download.request()],
                progress: reported(step.progress),
                end: Some(Err(error)),
            },
        }
    }
}

/// Whether a download can take each of `outcomes` in turn.
pub open spec fn accepts_all(download: DownloadView, outcomes: Seq<OutcomeView<Seq<u8>>>) -> bool
    decreases outcomes.len(),
{
    outcomes.len() > 0 ==> {
        &&& download.accepts(outcomes[0])
        &&& download.step(outcomes[0]).next matches NextView::Continue(next) ==> accepts_all(
            next,
            outcomes.drop_first(),
        )
    }
}

/// What a driver has seen of a download.
#[derive(Debug, PartialEq, Eq)]
pub struct Run {
    /// The requests that it performed, in order.
    pub requests: Vec<Request>,
    /// The progress that it reported, in order.
    pub progress: Vec<u64>,
    /// How the download ended, if it has ended.
    pub end: Option<Result<Vec<u8>, HttpError>>,
}

/// The value of the end of a run.
pub open spec fn end_view(end: Option<Result<Vec<u8>, HttpError>>) -> Option<
    Result<Seq<u8>, HttpErrorView>,
> {
    match end {
        None => None,
        Some(Ok(bytes)) => Some(Ok(bytes@)),
        Some(Err(error)) => Some(Err(error@)),
    }
}

impl View for Run {
    type V = RunView;

    open spec fn view(&self) -> RunView {
        RunView { requests: self.requests@, progress: self.progress@, end: end_view(self.end) }
    }
}

/// The values of `outcomes`, in order.
pub open spec fn outcome_views(outcomes: Seq<Outcome<Vec<u8>>>) -> Seq<OutcomeView<Seq<u8>>> {
    Seq::new(outcomes.len(), |i: int| outcomes[i]@)
}

/// Runs the download of `url` against recorded outcomes, as a driver does
/// against a transport: it notes the request of the download, hands over the
/// next outcome, notes the progress, and goes on as the step says, until the
/// download ends or the outcomes run out.
pub fn replay(url: &str, outcomes: Vec<Outcome<Vec<u8>>>) -> (seen: Run)
    requires
        accepts_all(start(url@), outcome_views(outcomes@)),
    ensures
        seen@ == run(start(url@), outcome_views(outcomes@)),
{
    let ghost all = outcome_views(outcomes@);
    let ghost whole = run(start(url@), all);
    let mut download: Download = Download::new(url);
    let mut requests: Vec<Request> = Vec::new();
    let mut progress: Vec<u64> = Vec::new();
    assert(all.skip(0) =~= all);
    for outcome in it: outcomes
        invariant
            all == outcome_views(it.seq()),
            whole == run(start(url@), all),
            download@.wf(),
            accepts_all(download@, all.skip(it.index() as int)),
            whole.requests == requests@ + run(download@, all.skip(it.index() as int)).requests,
            whole.progress == progress@ + run(download@, all.skip(it.index() as int)).progress,
            whole.end == run(download@, all.skip(it.index() as int)).end,
    {
        let ghost before = download@;
        let ghost rest = all.skip(it.index() as int);
        let ghost noted = requests@;
        let ghost told = progress@;
        assert(rest[0] == outcome@);
        assert(rest.drop_first() =~= all.skip(it.index() + 1));
        proof {
            lemma_step_keeps_wf(before, rest[0]);
        }
        let request: Request = download.request();
        requests.push(request);
        let Step { progress: reported_now, next } = download.step(outcome);
        match reported_now {
            Some(done) => {
                progress.push(done);
            },
            None => {},
        }
        assert(progress@ =~= told + reported(reported_now));
        match next {
            Next::Continue(following) => {
                download = following;
                let ghost tail = run(download@, rest.drop_first());
                assert(requests@ + tail.requests =~= noted + (seq![request] + tail.requests));
                assert(progress@ + tail.progress =~= told + (reported(reported_now)
                    + tail.progress));
            },
            Next::Done(bytes) => {
                assert(requests@ =~= noted + seq![request]);
                return Run { requests, progress, end: Some(Ok(bytes)) };
            },
            Next::Failed(error) => {
                assert(requests@ =~= noted + seq![request]);
                return Run { requests, progress, end: Some(Err(error)) };
            },
        }
    }
    let request: Request = download.request();
    let ghost noted = requests@;
    requests.push(request);
    assert(all.skip(all.len() as int) =~= Seq::empty());
    assert(requests@ =~= noted + seq![request]);
    assert(progress@ + Seq::<u64>::empty() =~= progress@);
    Run { requests, progress, end: None }
}

/// Whether every value of `values` is greater than `floor` and than each
/// value before it.
pub open spec fn increasing_above(floor: int, values: Seq<u64>) -> bool {
    &&& forall|i: int| 0 <= i < values.len() ==> floor < #[trigger] values[i]
    &&& forall|i: int, j: int| 0 <= i < j < values.len() ==> values[i] < values[j]
}

/// A step keeps a download well formed.
pub proof fn lemma_step_keeps_wf(download: DownloadView, outcome: OutcomeView<Seq<u8>>)
    requires
        download.wf(),
        download.accepts(outcome),
    ensures
        download.step(outcome).next matches NextView::Continue(next) ==> next.wf(),
{
}

/// The offset that a download has reached: that of its window for a ranged
/// download, and nothing before that.
pub open spec fn reached(download: DownloadView) -> int {
    match download.stage {
        Stage::Ranged { offset, .. } => offset as int,
        _ => -1,
    }
}

/// The progress of a run rises strictly: every value reported is greater than
/// each one before it, and, in a ranged download, than the offset at which the
/// run began.
pub proof fn lemma_progress_rises(download: DownloadView, outcomes: Seq<OutcomeView<Seq<u8>>>)
    requires
        download.wf(),
        accepts_all(download, outcomes),
    ensures
        increasing_above(reached(download), run(download, outcomes).progress),
    decreases outcomes.len(),
{
    if outcomes.len() > 0 {
        let step = download.step(outcomes[0]);
        match step.next {
            NextView::Continue(next) => {
                let rest = run(next, outcomes.drop_first());
                lemma_step_keeps_wf(download, outcomes[0]);
                lemma_progress_rises(next, outcomes.drop_first());
                let progress = run(download, outcomes).progress;
                assert(progress == reported(step.progress) + rest.progress);
                match step.progress {
                    Some(done) => {
                        assert(reached(next) == done);
                        assert forall|i: int| 0 <= i < progress.len() implies reached(download)
                            < #[trigger] progress[i] by {
                            if i > 0 {
                                assert(progress[i] == rest.progress[i - 1]);
                            }
                        }
                        assert forall|i: int, j: int| 0 <= i < j < progress.len() implies progress[i]
                            < progress[j] by {
                            assert(progress[j] == rest.progress[j - 1]);
                            if i > 0 {
                                assert(progress[i] == rest.progress[i - 1]);
                            }
                        }
                    },
                    None => {
                        assert(progress =~= rest.progress);
                        assert(reached(download) <= reached(next));
                    },
                }
            },
            _ => {},
        }
    }
}

/// The bodies of `responses`, one after the other.
pub open spec fn gathered(responses: Seq<ResponseView<Seq<u8>>>) -> Seq<u8>
    decreases responses.len(),
{
    if responses.len() == 0 {
        Seq::empty()
    } else {
        responses[0].body + gathered(responses.drop_first())
    }
}

/// The outcomes in which each of `responses` arrived.
pub open spec fn arrived(responses: Seq<ResponseView<Seq<u8>>>) -> Seq<OutcomeView<Seq<u8>>> {
    Seq::new(responses.len(), |i: int| OutcomeView::Response(responses[i]))
}

/// The requests for `count` consecutive windows, the first at `offset`.
pub open spec fn windows(offset: int, count: nat) -> Seq<Request> {
    Seq::new(
        count,
        |i: int|
            Request::GetRange {
                first: (offset + i * CHUNK) as u64,
                last: (offset + i * CHUNK + CHUNK - 1) as u64,
            },
    )
}

/// The progress after each of `count` consecutive windows, the first at
/// `offset`: the offset at which each window ends.
pub open spec fn window_ends(offset: int, count: nat) -> Seq<u64> {
    Seq::new(count, |i: int| (offset + (i + 1) * CHUNK) as u64)
}

/// The number of windows that a ranged download at `offset` still asks for,
/// where every one of them is granted.
pub open spec fn windows_left(total: u64, offset: u64) -> nat {
    ((total - offset) / (CHUNK as int) + 1) as nat
}

/// A ranged download whose windows are all granted asks for exactly
/// `windows_left` of them, one after the other, reports the end of each, and
/// ends with what it had, followed by their bodies in the order of the
/// requests.
pub proof fn lemma_windows_granted(
    download: DownloadView,
    responses: Seq<ResponseView<Seq<u8>>>,
)
    requires
        download.wf(),
        download.stage is Ranged,
        responses.len() == windows_left(download.stage->total, download.stage->offset),
        forall|i: int| 0 <= i < responses.len() ==> (#[trigger] responses[i]).status
            == PARTIAL_CONTENT,
    ensures
        run(download, arrived(responses)).end == Some(
            Ok::<Seq<u8>, HttpErrorView>(download.stage->received + gathered(responses)),
        ),
        run(download, arrived(responses)).requests == windows(
            download.stage->offset as int,
            responses.len(),
        ),
        run(download, arrived(responses)).progress == window_ends(
            download.stage->offset as int,
            responses.len(),
        ),
    decreases responses.len(),
{
    let total = download.stage->total;
    let offset = download.stage->offset;
    let received = download.stage->received;
    let outcomes = arrived(responses);
    let count = responses.len();
    assert(count >= 1);
    assert(outcomes[0] == OutcomeView::Response(responses[0]));
    let step = download.step(outcomes[0]);
    let whole = run(download, outcomes);
    assert(step.progress == Some((offset + CHUNK) as u64));
    if count == 1 {
        assert(offset + CHUNK > total);
        assert(gathered(responses.drop_first()) =~= Seq::<u8>::empty());
        assert(gathered(responses) =~= responses[0].body);
        assert(whole.requests =~= windows(offset as int, count));
        assert(whole.progress =~= window_ends(offset as int, count));
    } else {
        assert(offset + CHUNK <= total);
        let next = step.next->Continue_0;
        let rest = responses.drop_first();
        assert(outcomes.drop_first() =~= arrived(rest));
        assert(windows_left(total, (offset + CHUNK) as u64) == count - 1);
        lemma_windows_granted(next, rest);
        let tail = run(next, arrived(rest));
        assert(received + responses[0].body + gathered(rest) =~= received + gathered(responses));
        assert(whole.requests =~= windows(offset as int, count)) by {
            assert forall|i: int| 0 <= i < count implies whole.requests[i] == windows(
                offset as int,
                count,
            )[i] by {
                if i > 0 {
                    assert(whole.requests[i] == tail.requests[i - 1]);
                    assert(offset + CHUNK + (i - 1) * CHUNK == offset + i * CHUNK);
                }
            }
        }
        assert(whole.progress =~= window_ends(offset as int, count)) by {
            assert forall|i: int| 0 <= i < count implies whole.progress[i] == window_ends(
                offset as int,
                count,
            )[i] by {
                if i > 0 {
                    assert(whole.progress[i] == tail.progress[i - 1]);
                    assert(offset + CHUNK + ((i - 1) + 1) * CHUNK == offset + (i + 1) * CHUNK);
                }
            }
        }
    }
}

/// A download in chunks, from the first request to the last. Where the probe
/// finds range support, the length probe gives `total`, and every window is
/// granted, the driver sends the two HEAD requests and then exactly
/// `total / CHUNK + 1` ranged requests at consecutive offsets; it reports the
/// end of each window, a strictly rising sequence; and the download ends with
/// the bodies of the windows in the order of the requests.
pub proof fn lemma_ranged_download(
    url: Seq<char>,
    probe: ResponseView<Seq<u8>>,
    sizing: ResponseView<Seq<u8>>,
    total: u64,
    responses: Seq<ResponseView<Seq<u8>>>,
)
    requires
        probe.accept_ranges,
        is_success(sizing.status),
        sizing.content_length == Some(total),
        length_fits(total),
        responses.len() == total / CHUNK + 1,
        forall|i: int| 0 <= i < responses.len() ==> (#[trigger] responses[i]).status
            == PARTIAL_CONTENT,
    ensures
        ({
            let outcomes = seq![OutcomeView::Response(probe), OutcomeView::Response(sizing)]
                + arrived(responses);
            let whole = run(start(url), outcomes);
            &&& accepts_all(start(url), outcomes)
            &&& whole.end == Some(Ok::<Seq<u8>, HttpErrorView>(gathered(responses)))
            &&& whole.requests == seq![Request::Head, Request::Head] + windows(
                0,
                responses.len(),
            )
            &&& whole.progress == window_ends(0, responses.len())
            &&& increasing_above(0, whole.progress)
        }),
{
    let outcomes = seq![OutcomeView::Response(probe), OutcomeView::Response(sizing)] + arrived(
        responses,
    );
    let probing = start(url);
    let sizing_state = DownloadView { url, stage: Stage::Sizing };
    let ranged = DownloadView {
        url,
        stage: Stage::Ranged { total, offset: 0, received: Seq::empty() },
    };
    let after_probe = outcomes.drop_first();
    let after_sizing = after_probe.drop_first();
    assert(after_sizing =~= arrived(responses));
    assert(probing.step(outcomes[0]).next == NextView::Continue(sizing_state));
    assert(sizing_state.step(after_probe[0]).next == NextView::Continue(ranged));
    lemma_windows_granted(ranged, responses);
    let tail = run(ranged, after_sizing);
    let middle = run(sizing_state, after_probe);
    let whole = run(probing, outcomes);
    assert(Seq::<u8>::empty() + gathered(responses) =~= gathered(responses));
    assert(middle.requests =~= seq![Request::Head] + tail.requests);
    assert(whole.requests =~= seq![Request::Head, Request::Head] + windows(0, responses.len()));
    assert(middle.progress =~= tail.progress);
    assert(whole.progress =~= window_ends(0, responses.len()));
    lemma_accepts_granted(ranged, responses);
    assert(accepts_all(sizing_state, after_probe));
    assert(accepts_all(probing, outcomes));
    lemma_progress_rises(ranged, after_sizing);
}

/// A ranged download can take any number of granted windows.
proof fn lemma_accepts_granted(download: DownloadView, responses: Seq<ResponseView<Seq<u8>>>)
    requires
        download.stage is Ranged,
    ensures
        accepts_all(download, arrived(responses)),
    decreases responses.len(),
{
    if responses.len() > 0 {
        let outcomes = arrived(responses);
        match download.step(outcomes[0]).next {
            NextView::Continue(next) => {
                assert(outcomes.drop_first() =~= arrived(responses.drop_first()));
                lemma_accepts_granted(next, responses.drop_first());
            },
            _ => {},
        }
    }
}

/// The fallback of a download in chunks. Where the probe finds range support
/// and the length probe succeeds, but the first ranged request is answered
/// with status 200, the download ends with exactly the body of that response.
/// The driver has sent one ranged request and sends no other, whatever
/// outcomes might have followed, and reports no progress.
pub proof fn lemma_full_body_ends_download(
    url: Seq<char>,
    probe: ResponseView<Seq<u8>>,
    sizing: ResponseView<Seq<u8>>,
    total: u64,
    full: ResponseView<Seq<u8>>,
    others: Seq<OutcomeView<Seq<u8>>>,
)
    requires
        probe.accept_ranges,
        is_success(sizing.status),
        sizing.content_length == Some(total),
        length_fits(total),
        full.status == OK,
    ensures
        ({
            let outcomes = seq![
                OutcomeView::Response(probe),
                OutcomeView::Response(sizing),
                OutcomeView::Response(full),
            ] + others;
            let whole = run(start(url), outcomes);
            &&& whole.end == Some(Ok::<Seq<u8>, HttpErrorView>(full.body))
            &&& whole.requests == seq![
                Request::Head,
                Request::Head,
                Request::GetRange { first: 0, last: (CHUNK - 1) as u64 },
            ]
            &&& whole.progress == Seq::<u64>::empty()
        }),
{
    let outcomes = seq![
        OutcomeView::Response(probe),
        OutcomeView::Response(sizing),
        OutcomeView::Response(full),
    ] + others;
    let probing = start(url);
    let sizing_state = DownloadView { url, stage: Stage::Sizing };
    let ranged = DownloadView {
        url,
        stage: Stage::Ranged { total, offset: 0, received: Seq::empty() },
    };
    let after_probe = outcomes.drop_first();
    let after_sizing = after_probe.drop_first();
    assert(probing.step(outcomes[0]).next == NextView::Continue(sizing_state));
    assert(sizing_state.step(after_probe[0]).next == NextView::Continue(ranged));
    assert(after_sizing[0] == OutcomeView::Response(full));
    let tail = run(ranged, after_sizing);
    let middle = run(sizing_state, after_probe);
    let whole = run(probing, outcomes);
    assert(tail.requests =~= seq![Request::GetRange { first: 0, last: (CHUNK - 1) as u64 }]);
    assert(middle.requests =~= seq![Request::Head] + tail.requests);
    assert(whole.requests =~= seq![
        Request::Head,
        Request::Head,
        Request::GetRange { first: 0, last: (CHUNK - 1) as u64 },
    ]);
    assert(tail.progress =~= Seq::<u64>::empty());
    assert(middle.progress =~= Seq::<u64>::empty());
    assert(whole.progress =~= Seq::<u64>::empty());
}

/// At any point of a download in chunks, an answer with status 200 ends the
/// download with the body of that answer alone, without a report of
/// progress.
pub proof fn lemma_full_body_replaces(download: DownloadView, full: ResponseView<Seq<u8>>)
    requires
        download.stage is Ranged,
        full.status == OK,
    ensures
        download.step(OutcomeView::Response(full)).next == NextView::Done(full.body),
        download.step(OutcomeView::Response(full)).progress is None,
{
}

/// A download in one piece. Where the probe finds no range support and the
/// GET is answered in the success class, the driver sends the HEAD request
/// and exactly one GET, whatever outcomes might have followed; it reports
/// progress exactly once, the size of the body; and the download ends with
/// the body.
pub proof fn lemma_unranged_download(
    url: Seq<char>,
    probe: ResponseView<Seq<u8>>,
    whole_body: ResponseView<Seq<u8>>,
    others: Seq<OutcomeView<Seq<u8>>>,
)
    requires
        !probe.accept_ranges,
        is_success(whole_body.status),
        whole_body.body.len() <= u64::MAX,
    ensures
        ({
            let outcomes = seq![OutcomeView::Response(probe), OutcomeView::Response(whole_body)]
                + others;
            let whole = run(start(url), outcomes);
            &&& whole.end == Some(Ok::<Seq<u8>, HttpErrorView>(whole_body.body))
            &&& whole.requests == seq![Request::Head, Request::Get]
            &&& whole.progress == seq![whole_body.body.len() as u64]
        }),
{
    let outcomes = seq![OutcomeView::Response(probe), OutcomeView::Response(whole_body)] + others;
    let probing = start(url);
    let fetching = DownloadView { url, stage: Stage::Whole };
    let after_probe = outcomes.drop_first();
    assert(probing.step(outcomes[0]).next == NextView::Continue(fetching));
    assert(after_probe[0] == OutcomeView::Response(whole_body));
    let tail = run(fetching, after_probe);
    let whole = run(probing, outcomes);
    assert(tail.requests =~= seq![Request::Get]);
    assert(whole.requests =~= seq![Request::Head, Request::Get]);
    assert(tail.progress =~= seq![whole_body.body.len() as u64]);
    assert(whole.progress =~= seq![whole_body.body.len() as u64]);
}

/// A failed probe ends the download at once with the fixed probe failure:
/// what the transport said is not passed on, and no other request is sent.
pub proof fn lemma_failed_probe(
    url: Seq<char>,
    detail: Seq<char>,
    others: Seq<OutcomeView<Seq<u8>>>,
)
    ensures
        ({
            let outcomes = seq![OutcomeView::TransportFailure { detail }] + others;
            let whole = run(start(url), outcomes);
            &&& whole.end == Some(Err::<Seq<u8>, HttpErrorView>(HttpErrorView::RangeProbe))
            &&& whole.requests == seq![Request::Head]
            &&& whole.progress == Seq::<u64>::empty()
        }),
{
    let outcomes = seq![OutcomeView::<Seq<u8>>::TransportFailure { detail }] + others;
    let whole = run(start(url), outcomes);
    assert(outcomes[0] == OutcomeView::<Seq<u8>>::TransportFailure { detail });
    assert(whole.requests =~= seq![Request::Head]);
    assert(whole.progress =~= Seq::<u64>::empty());
}

/// The body of a response that the download does not want has no part in
/// the step: two responses that differ in the body alone lead to the same
/// step.
pub proof fn lemma_unwanted_body_ignored(
    download: DownloadView,
    response: ResponseView<Seq<u8>>,
    body: Seq<u8>,
)
    requires
        !download.wants_body(response.status),
    ensures
        download.step(OutcomeView::Response(response)) == download.step(
            OutcomeView::Response(ResponseView { body, ..response }),
        ),
{
}

} // verus!
