use vstd::prelude::*;

verus! {

/// The HTTP status of a missing resource.
pub const STATUS_NOT_FOUND: u16 = 404;

/// How a fetch succeeded.
#[derive(Clone, Copy, Debug, PartialEq, Eq, Structural)]
pub enum Fetched {
    /// The body was streamed to the destination.
    Downloaded,
    /// The destination already held a file; nothing was transferred.
    AlreadyPresent,
}

/// Why a fetch failed.
#[derive(Debug, PartialEq, Eq)]
pub enum FetchError {
    /// The archive has no resource at this URL.
    NotFound(String),
    /// The archive answered with another status that is not a success.
    Status(u16),
    /// A transport, stream or filesystem failure, with its message.
    Io(String),
}

/// Where a fetch stands.
#[derive(Clone, Copy, Debug, PartialEq, Eq, Structural)]
pub enum FetchPhase {
    /// The parent directories are being made and the destination inspected.
    CheckingDestination,
    /// The request was sent; its status is awaited.
    AwaitingResponse,
    /// The body is being written to the destination, chunk by chunk.
    Streaming,
    /// The fetch has ended.
    Finished,
}

/// What the fetch loop observed since the last step.
#[derive(Debug)]
pub enum FetchEvent {
    /// The parent directories exist and the destination was inspected.
    DestinationChecked { is_file: bool },
    /// Making the parent directories or inspecting the destination failed.
    DestinationFailed(String),
    /// The archive answered, with the body's advertised length if any.
    Responded { status: u16, content_length: Option<u64> },
    /// The request could not be made or answered.
    TransportFailed(String),
    /// One chunk of the body was written to the destination.
    ChunkWritten { len: u64 },
    /// Reading a chunk or writing it failed.
    StreamFailed(String),
    /// The body ended and the destination was flushed.
    StreamEnded,
}

/// What the fetch loop is to do next.
#[derive(Debug)]
pub enum FetchAction {
    /// Send the request.
    Request,
    /// Create the destination and stream the body into it.
    CreateAndStream,
    /// Write the next chunk.
    Continue,
    /// Remove the partly written destination, then fail with the error.
    DiscardAndFail(FetchError),
    /// The fetch ends with this result.
    Done(Result<Fetched, FetchError>),
    /// The event does not apply in this phase; nothing to do.
    Ignore,
}

/// One fetch of `url` to a destination, with the bytes received so far against
/// the advertised total (0 when unknown).
#[derive(Debug)]
pub struct FetchState {
    pub url: String,
    pub phase: FetchPhase,
    pub received: u64,
    pub total: u64,
}

/// `s` in phase `p`.
pub open spec fn with_phase(s: FetchState, p: FetchPhase) -> FetchState {
    FetchState { phase: p, ..s }
}

/// The fetch's transitions: each phase and event give the next state and action.
/// A destination that already names a file ends the fetch before any request; a
/// 404 ends it as `NotFound` before anything is created; another status outside
/// 2xx ends it as `Status`; a failure after the destination was created asks for
/// it to be removed.
pub open spec fn fetch_next(s: FetchState, e: FetchEvent) -> (FetchState, FetchAction) {
    match (s.phase, e) {
        (FetchPhase::CheckingDestination, FetchEvent::DestinationChecked { is_file }) => {
            if is_file {
                (
                    with_phase(s, FetchPhase::Finished),
                    FetchAction::Done(Ok(Fetched::AlreadyPresent)),
                )
            } else {
                (with_phase(s, FetchPhase::AwaitingResponse), FetchAction::Request)
            }
        },
        (FetchPhase::CheckingDestination, FetchEvent::DestinationFailed(m)) => {
            (with_phase(s, FetchPhase::Finished), FetchAction::Done(Err(FetchError::Io(m))))
        },
        (FetchPhase::AwaitingResponse, FetchEvent::Responded { status, content_length }) => {
            if status == STATUS_NOT_FOUND {
                (
                    with_phase(s, FetchPhase::Finished),
                    FetchAction::Done(Err(FetchError::NotFound(s.url))),
                )
            } else if 200 <= status < 300 {
                (
                    FetchState {
                        phase: FetchPhase::Streaming,
                        received: 0,
                        total: match content_length {
                            Some(n) => n,
                            None => 0,
                        },
                        ..s
                    },
                    FetchAction::CreateAndStream,
                )
            } else {
                (
                    with_phase(s, FetchPhase::Finished),
                    FetchAction::Done(Err(FetchError::Status(status))),
                )
            }
        },
        (FetchPhase::AwaitingResponse, FetchEvent::TransportFailed(m)) => {
            (with_phase(s, FetchPhase::Finished), FetchAction::Done(Err(FetchError::Io(m))))
        },
        (FetchPhase::Streaming, FetchEvent::ChunkWritten { len }) => {
            (
                FetchState { received: s.received.saturating_add(len), ..s },
                FetchAction::Continue,
            )
        },
        (FetchPhase::Streaming, FetchEvent::StreamFailed(m)) => {
            (with_phase(s, FetchPhase::Finished), FetchAction::DiscardAndFail(FetchError::Io(m)))
        },
        (FetchPhase::Streaming, FetchEvent::StreamEnded) => {
            (with_phase(s, FetchPhase::Finished), FetchAction::Done(Ok(Fetched::Downloaded)))
        },
        _ => (s, FetchAction::Ignore),
    }
}

/// The actions of a run of events from `s`, one per event.
pub open spec fn run_actions(s: FetchState, events: Seq<FetchEvent>) -> Seq<FetchAction>
    decreases events.len(),
{
    if events.len() == 0 {
        Seq::empty()
    } else {
        let (t, a) = fetch_next(s, events[0]);
        seq![a] + run_actions(t, events.drop_first())
    }
}

impl FetchState {
    /// A fetch of `url` that has not begun.
    pub fn start(url: String) -> (r: FetchState)
        ensures
            r.url == url,
            r.phase == FetchPhase::CheckingDestination,
            r.received == 0,
            r.total == 0,
    {
        FetchState { url, phase: FetchPhase::CheckingDestination, received: 0, total: 0 }
    }

    /// Moves the fetch on by one event and says what to do next.
    pub fn step(self, e: FetchEvent) -> (r: (FetchState, FetchAction))
        ensures
            r == fetch_next(self, e),
    {
        let s = self;
        match (s.phase, e) {
            (FetchPhase::CheckingDestination, FetchEvent::DestinationChecked { is_file }) => {
                if is_file {
                    (
                        FetchState { phase: FetchPhase::Finished, ..s },
                        FetchAction::Done(Ok(Fetched::AlreadyPresent)),
                    )
                } else {
                    (FetchState { phase: FetchPhase::AwaitingResponse, ..s }, FetchAction::Request)
                }
            },
            (FetchPhase::CheckingDestination, FetchEvent::DestinationFailed(m)) => {
                (
                    FetchState { phase: FetchPhase::Finished, ..s },
                    FetchAction::Done(Err(FetchError::Io(m))),
                )
            },
            (FetchPhase::AwaitingResponse, FetchEvent::Responded { status, content_length }) => {
                if status == STATUS_NOT_FOUND {
                    let url = s.url.clone();
                    (
                        FetchState { phase: FetchPhase::Finished, ..s },
                        FetchAction::Done(Err(FetchError::NotFound(url))),
                    )
                } else if 200 <= status && status < 300 {
                    let total = match content_length {
                        Some(n) => n,
                        None => 0,
                    };
                    (
                        FetchState { phase: FetchPhase::Streaming, received: 0, total, ..s },
                        FetchAction::CreateAndStream,
                    )
                } else {
                    (
                        FetchState { phase: FetchPhase::Finished, ..s },
                        FetchAction::Done(Err(FetchError::Status(status))),
                    )
                }
            },
            (FetchPhase::AwaitingResponse, FetchEvent::TransportFailed(m)) => {
                (
                    FetchState { phase: FetchPhase::Finished, ..s },
                    FetchAction::Done(Err(FetchError::Io(m))),
                )
            },
            (FetchPhase::Streaming, FetchEvent::ChunkWritten { len }) => {
                let received = s.received.saturating_add(len);
                (FetchState { received, ..s }, FetchAction::Continue)
            },
            (FetchPhase::Streaming, FetchEvent::StreamFailed(m)) => {
                (
                    FetchState { phase: FetchPhase::Finished, ..s },
                    FetchAction::DiscardAndFail(FetchError::Io(m)),
                )
            },
            (FetchPhase::Streaming, FetchEvent::StreamEnded) => {
                (
                    FetchState { phase: FetchPhase::Finished, ..s },
                    FetchAction::Done(Ok(Fetched::Downloaded)),
                )
            },
            (_, _) => (s, FetchAction::Ignore),
        }
    }
}


/// A run has one action per event.
pub proof fn lemma_run_len(s: FetchState, events: Seq<FetchEvent>)
    ensures
        run_actions(s, events).len() == events.len(),
    decreases events.len(),
{
    if events.len() > 0 {
        let (t, a) = fetch_next(s, events[0]);
        lemma_run_len(t, events.drop_first());
    }
}

/// A fetch of `url` that has not begun.
pub open spec fn initial(url: String) -> FetchState {
    FetchState { url, phase: FetchPhase::CheckingDestination, received: 0, total: 0 }
}

/// Once a fetch has ended, no event makes it do anything.
pub proof fn lemma_finished_stays_idle(s: FetchState, events: Seq<FetchEvent>)
    requires
        s.phase == FetchPhase::Finished,
    ensures
        forall|i: int|
            0 <= i < events.len() ==> #[trigger] run_actions(s, events)[i] is Ignore,
    decreases events.len(),
{
    if events.len() > 0 {
        lemma_finished_stays_idle(s, events.drop_first());
        lemma_run_len(s, events.drop_first());
        assert forall|i: int| 0 <= i < events.len() implies #[trigger] run_actions(
            s,
            events,
        )[i] is Ignore by {
            if i > 0 {
                assert(run_actions(s, events)[i] == run_actions(s, events.drop_first())[i - 1]);
            }
        }
    }
}

/// Fetching to a destination that already holds a file (as a previous successful
/// fetch leaves it) transfers nothing: the fetch ends at once with
/// `AlreadyPresent`, and whatever happens later it neither sends a request nor
/// creates the destination.
pub proof fn lemma_fetch_idempotent(url: String, events: Seq<FetchEvent>)
    requires
        events.len() > 0,
        events[0] == (FetchEvent::DestinationChecked { is_file: true }),
    ensures
        run_actions(initial(url), events)[0] == FetchAction::Done(Ok(Fetched::AlreadyPresent)),
        forall|i: int|
            0 <= i < events.len() ==> !(#[trigger] run_actions(initial(url), events)[i] is Request)
                && !(run_actions(initial(url), events)[i] is CreateAndStream),
{
    let (t, a) = fetch_next(initial(url), events[0]);
    lemma_finished_stays_idle(t, events.drop_first());
    lemma_run_len(t, events.drop_first());
    let acts = run_actions(initial(url), events);
    assert forall|i: int| 0 <= i < events.len() implies !(#[trigger] acts[i] is Request) && !(
    acts[i] is CreateAndStream) by {
        if i > 0 {
            assert(acts[i] == run_actions(t, events.drop_first())[i - 1]);
        }
    }
}

/// A fetch reports `Downloaded` only after it has created the destination: in any
/// run from a phase other than streaming, a `Downloaded` result is preceded by a
/// `CreateAndStream` action. So a fetch that succeeded by transferring leaves the
/// file that makes the next fetch of the same destination a skip.
pub proof fn lemma_downloaded_after_create(s: FetchState, events: Seq<FetchEvent>, k: int)
    requires
        s.phase != FetchPhase::Streaming,
        0 <= k < events.len(),
        run_actions(s, events)[k] == FetchAction::Done(Ok(Fetched::Downloaded)),
    ensures
        exists|j: int| 0 <= j < k && #[trigger] run_actions(s, events)[j] is CreateAndStream,
    decreases events.len(),
{
    let (t, a) = fetch_next(s, events[0]);
    let rest = events.drop_first();
    lemma_run_len(t, rest);
    let acts = run_actions(s, events);
    assert(acts[0] == a);
    if t.phase == FetchPhase::Streaming {
        assert(acts[0] is CreateAndStream);
    } else {
        assert(k > 0);
        assert(acts[k] == run_actions(t, rest)[k - 1]);
        lemma_downloaded_after_create(t, rest, k - 1);
        let j = choose|j: int| 0 <= j < k - 1 && #[trigger] run_actions(t, rest)[j] is CreateAndStream;
        assert(acts[j + 1] == run_actions(t, rest)[j]);
    }
}

/// A 404 answer ends the fetch as `NotFound` for its URL, and the destination is
/// never created nor written, whatever events follow.
pub proof fn lemma_not_found_creates_nothing(url: String, events: Seq<FetchEvent>)
    requires
        events.len() >= 2,
        events[0] == (FetchEvent::DestinationChecked { is_file: false }),
        events[1] matches FetchEvent::Responded { status, .. } && status == STATUS_NOT_FOUND,
    ensures
        run_actions(initial(url), events)[1] == FetchAction::Done(Err(FetchError::NotFound(url))),
        forall|i: int|
            0 <= i < events.len() ==> !(#[trigger] run_actions(
                initial(url),
                events,
            )[i] is CreateAndStream) && !(run_actions(initial(url), events)[i] is DiscardAndFail),
{
    let (t1, a1) = fetch_next(initial(url), events[0]);
    let rest = events.drop_first();
    let (t2, a2) = fetch_next(t1, rest[0]);
    let rest2 = rest.drop_first();
    lemma_finished_stays_idle(t2, rest2);
    lemma_run_len(t2, rest2);
    lemma_run_len(t1, rest);
    let acts = run_actions(initial(url), events);
    assert(acts[1] == run_actions(t1, rest)[0]);
    assert forall|i: int| 0 <= i < events.len() implies !(#[trigger] acts[i] is CreateAndStream)
        && !(acts[i] is DiscardAndFail) by {
        if i > 1 {
            assert(acts[i] == run_actions(t1, rest)[i - 1]);
            assert(run_actions(t1, rest)[i - 1] == run_actions(t2, rest2)[i - 2]);
        }
    }
}

/// A status outside 2xx other than 404 is reported as `Status`, never as `NotFound`.
pub proof fn lemma_other_status_is_distinct(s: FetchState, status: u16, len: Option<u64>)
    requires
        s.phase == FetchPhase::AwaitingResponse,
        status != STATUS_NOT_FOUND,
        !(200 <= status < 300),
    ensures
        fetch_next(s, FetchEvent::Responded { status, content_length: len }).1
            == FetchAction::Done(Err(FetchError::Status(status))),
{
}

} // verus!
