//! The orchestrator of one recognition: it owns the catalog, hands the four
//! crops out and gathers the four results. The caller's thread does the
//! decoding, the sending and the waiting, and reports each outcome; `ocr`
//! decides what comes next.

use crate::error::OcrError;
use crate::filter::Bitmap;
use crate::matcher::CatalogItem;
use crate::region::{is_crop_of, item_region_spec, region_crops, REGION_COUNT};
use vstd::prelude::*;

verus! {

/// Where the orchestrator stands between two reports.
#[derive(Clone, Copy, Debug, PartialEq, Eq, Structural)]
pub enum Phase {
    /// No recognition is under way.
    Ready,
    /// The crops are on their way to the workers.
    Sending,
    /// Results are being received.
    Gathering,
}

/// What the caller's thread reports.
#[derive(Clone, Debug, PartialEq, Eq)]
pub enum EngineEvent {
    /// The screenshot was opened and decoded.
    Screenshot(Bitmap),
    /// The screenshot could not be opened or decoded.
    DecodeFailed,
    /// Every crop was put on its worker's queue.
    Sent,
    /// A worker's queue is closed.
    SendFailed,
    /// A worker published the item it recognised in its region.
    Arrived(usize, CatalogItem),
    /// The outbound queue is closed.
    ReceiveFailed,
    /// No result came within the time the caller allows.
    TimedOut,
}

/// What the caller's thread is asked to do next.
#[derive(Clone, Debug, PartialEq, Eq)]
pub enum EngineAction {
    /// Put crop `i` on the queue of worker `i`, for each of the four.
    Send(Vec<Bitmap>),
    /// Wait for the next result.
    Receive,
    /// The recognition is complete: the four results in the order received.
    Done(Vec<(usize, CatalogItem)>),
    /// The wait ran out: the results received until then, fewer than four.
    Partial(Vec<(usize, CatalogItem)>),
    /// The recognition cannot go on.
    Fail(OcrError),
    /// The event does not belong to the phase: nothing changes.
    Ignore,
}

/// The transition relation of the orchestrator: in `phase`, holding the
/// results `held`, on `event`, it moves to `next` holding `kept` and asks
/// for `action`.
pub open spec fn engine_steps(
    phase: Phase,
    held: Seq<(usize, CatalogItem)>,
    event: EngineEvent,
    next: Phase,
    kept: Seq<(usize, CatalogItem)>,
    action: EngineAction,
) -> bool {
    match (phase, event) {
        (Phase::Ready, EngineEvent::Screenshot(shot)) => {
            &&& next == Phase::Sending
            &&& kept =~= held
            &&& action matches EngineAction::Send(crops)
            &&& crops@.len() == REGION_COUNT
            &&& forall|i: int|
                0 <= i < REGION_COUNT ==> is_crop_of(#[trigger] crops@[i], shot, item_region_spec(i))
        },
        (Phase::Ready, EngineEvent::DecodeFailed) => {
            next == Phase::Ready && kept =~= held && action == EngineAction::Fail(
                OcrError::ImageDecode,
            )
        },
        (Phase::Sending, EngineEvent::Sent) => {
            next == Phase::Gathering && kept =~= held && action == EngineAction::Receive
        },
        (Phase::Sending, EngineEvent::SendFailed) => {
            next == Phase::Ready && kept =~= held && action == EngineAction::Fail(OcrError::Channel)
        },
        (Phase::Gathering, EngineEvent::Arrived(index, item)) => {
            let all = held.push((index, item));
            if all.len() == REGION_COUNT {
                &&& next == Phase::Ready
                &&& kept.len() == 0
                &&& action matches EngineAction::Done(results)
                &&& results@ =~= all
            } else {
                next == Phase::Gathering && kept =~= all && action == EngineAction::Receive
            }
        },
        (Phase::Gathering, EngineEvent::ReceiveFailed) => {
            next == Phase::Ready && kept.len() == 0 && action == EngineAction::Fail(
                OcrError::Channel,
            )
        },
        (Phase::Gathering, EngineEvent::TimedOut) => {
            &&& next == Phase::Ready
            &&& kept.len() == 0
            &&& action matches EngineAction::Partial(results)
            &&& results@ =~= held
        },
        _ => next == phase && kept =~= held && action == EngineAction::Ignore,
    }
}

/// Four arrivals, starting with nothing held, complete a recognition: the
/// first three ask for more, the fourth hands back all four in the order in
/// which they came and leaves the orchestrator ready with nothing held.
pub proof fn lemma_four_arrivals_complete(
    a0: (usize, CatalogItem),
    a1: (usize, CatalogItem),
    a2: (usize, CatalogItem),
    a3: (usize, CatalogItem),
    p1: Phase,
    p2: Phase,
    p3: Phase,
    p4: Phase,
    h1: Seq<(usize, CatalogItem)>,
    h2: Seq<(usize, CatalogItem)>,
    h3: Seq<(usize, CatalogItem)>,
    h4: Seq<(usize, CatalogItem)>,
    c1: EngineAction,
    c2: EngineAction,
    c3: EngineAction,
    c4: EngineAction,
)
    requires
        engine_steps(Phase::Gathering, Seq::empty(), EngineEvent::Arrived(a0.0, a0.1), p1, h1, c1),
        engine_steps(p1, h1, EngineEvent::Arrived(a1.0, a1.1), p2, h2, c2),
        engine_steps(p2, h2, EngineEvent::Arrived(a2.0, a2.1), p3, h3, c3),
        engine_steps(p3, h3, EngineEvent::Arrived(a3.0, a3.1), p4, h4, c4),
    ensures
        c1 == EngineAction::Receive,
        c2 == EngineAction::Receive,
        c3 == EngineAction::Receive,
        c4 matches EngineAction::Done(results) && results@ == seq![a0, a1, a2, a3],
        p4 == Phase::Ready,
        h4.len() == 0,
{
    let none = Seq::<(usize, CatalogItem)>::empty();
    assert(h1 =~= none.push(a0));
    assert(h2 =~= h1.push(a1));
    assert(h3 =~= h2.push(a2));
    assert(h3.push(a3) =~= seq![a0, a1, a2, a3]);
}

/// When the wait runs out after three arrivals, the recognition ends with
/// exactly those three, in the order in which they came, and the
/// orchestrator is ready again with nothing held.
pub proof fn lemma_three_arrivals_then_timeout(
    a0: (usize, CatalogItem),
    a1: (usize, CatalogItem),
    a2: (usize, CatalogItem),
    p1: Phase,
    p2: Phase,
    p3: Phase,
    p4: Phase,
    h1: Seq<(usize, CatalogItem)>,
    h2: Seq<(usize, CatalogItem)>,
    h3: Seq<(usize, CatalogItem)>,
    h4: Seq<(usize, CatalogItem)>,
    c1: EngineAction,
    c2: EngineAction,
    c3: EngineAction,
    c4: EngineAction,
)
    requires
        engine_steps(Phase::Gathering, Seq::empty(), EngineEvent::Arrived(a0.0, a0.1), p1, h1, c1),
        engine_steps(p1, h1, EngineEvent::Arrived(a1.0, a1.1), p2, h2, c2),
        engine_steps(p2, h2, EngineEvent::Arrived(a2.0, a2.1), p3, h3, c3),
        engine_steps(p3, h3, EngineEvent::TimedOut, p4, h4, c4),
    ensures
        c4 matches EngineAction::Partial(results) && results@ == seq![a0, a1, a2],
        p4 == Phase::Ready,
        h4.len() == 0,
{
    let none = Seq::<(usize, CatalogItem)>::empty();
    assert(h1 =~= none.push(a0));
    assert(h2 =~= h1.push(a1));
    assert(h3 =~= seq![a0, a1, a2]);
}

/// The orchestrator's state.
pub struct OCREngine {
    items: Vec<CatalogItem>,
    phase: Phase,
    results: Vec<(usize, CatalogItem)>,
}

impl OCREngine {
    /// The catalog that the engine was made with.
    pub closed spec fn items(self) -> Seq<CatalogItem> {
        self.items@
    }

    pub closed spec fn phase(self) -> Phase {
        self.phase
    }

    /// The results received so far in the recognition under way.
    pub closed spec fn held(self) -> Seq<(usize, CatalogItem)> {
        self.results@
    }

    /// The catalog is never empty, and results are held only while
    /// gathering, fewer than four of them.
    pub open spec fn wf(self) -> bool {
        &&& self.items().len() > 0
        &&& self.held().len() < REGION_COUNT
        &&& self.phase() != Phase::Gathering ==> self.held().len() == 0
    }

    /// An engine over `items`, ready for its first recognition. An empty
    /// catalog is refused.
    pub fn new(items: Vec<CatalogItem>) -> (res: Result<OCREngine, OcrError>)
        ensures
            res is Err <==> items@.len() == 0,
            res matches Err(e) ==> e == OcrError::EmptyCatalog,
            res matches Ok(engine) ==> engine.wf() && engine.items() == items@ && engine.phase()
                == Phase::Ready,
    {
        if items.len() == 0 {
            return Err(OcrError::EmptyCatalog);
        }
        Ok(OCREngine { items, phase: Phase::Ready, results: Vec::new() })
    }

    /// The catalog, for the workers to read.
    pub fn catalog(&self) -> (res: &Vec<CatalogItem>)
        ensures
            res@ == self.items(),
    {
        &self.items
    }

    pub fn current_phase(&self) -> (res: Phase)
        ensures
            res == self.phase(),
    {
        self.phase
    }

    /// One step of a recognition. A complete recognition hands back exactly
    /// four results, in the order in which they were received.
    pub fn ocr(&mut self, event: EngineEvent) -> (action: EngineAction)
        requires
            old(self).wf(),
            event matches EngineEvent::Screenshot(shot) ==> shot.wf(),
        ensures
            final(self).wf(),
            final(self).items() == old(self).items(),
            engine_steps(
                old(self).phase(),
                old(self).held(),
                event,
                final(self).phase(),
                final(self).held(),
                action,
            ),
            action matches EngineAction::Done(results) ==> results@.len() == REGION_COUNT,
            action matches EngineAction::Partial(results) ==> results@.len() < REGION_COUNT,
    {
        match self.phase {
            Phase::Ready => match event {
                EngineEvent::Screenshot(shot) => {
                    self.phase = Phase::Sending;
                    EngineAction::Send(region_crops(&shot))
                },
                EngineEvent::DecodeFailed => EngineAction::Fail(OcrError::ImageDecode),
                _ => EngineAction::Ignore,
            },
            Phase::Sending => match event {
                EngineEvent::Sent => {
                    self.phase = Phase::Gathering;
                    EngineAction::Receive
                },
                EngineEvent::SendFailed => {
                    self.phase = Phase::Ready;
                    EngineAction::Fail(OcrError::Channel)
                },
                _ => EngineAction::Ignore,
            },
            Phase::Gathering => match event {
                EngineEvent::Arrived(index, item) => {
                    self.results.push((index, item));
                    if self.results.len() == REGION_COUNT {
                        self.phase = Phase::Ready;
                        EngineAction::Done(self.take_results())
                    } else {
                        EngineAction::Receive
                    }
                },
                EngineEvent::ReceiveFailed => {
                    self.phase = Phase::Ready;
                    let _ = self.take_results();
                    EngineAction::Fail(OcrError::Channel)
                },
                EngineEvent::TimedOut => {
                    self.phase = Phase::Ready;
                    EngineAction::Partial(self.take_results())
                },
                _ => EngineAction::Ignore,
            },
        }
    }

    fn take_results(&mut self) -> (out: Vec<(usize, CatalogItem)>)
        ensures
            out@ == old(self).results@,
            final(self).results@.len() == 0,
            final(self).items == old(self).items,
            final(self).phase == old(self).phase,
    {
        let mut out: Vec<(usize, CatalogItem)> = Vec::new();
        core::mem::swap(&mut self.results, &mut out);
        out
    }
}

} // verus!
