//! One recognition worker as a state machine. The worker's thread performs
//! what a step asks for (waiting on a queue, writing or removing a file,
//! running the recognition engine) and reports back what happened; the step
//! decides what comes next. Filtering a crop and matching the recognised text
//! against the catalog are done inside the step that needs them.

use crate::error::OcrError;
use crate::filter::{filtered, remove_not_text, Bitmap};
use crate::matcher::{find_closest_levenshtein_match, is_closest, CatalogItem};
use vstd::prelude::*;

verus! {

/// Where a worker rests between two steps.
#[derive(Clone, Debug, PartialEq, Eq)]
pub enum WorkerState {
    /// Waiting for a crop on its inbound queue.
    Idle,
    /// The filtered crop is being written to its staging file.
    Persisting,
    /// The recognition engine is reading the staging file.
    Recognizing,
    /// The staging file is being removed; the raw text is kept meanwhile.
    Cleanup(String),
    /// The result is being pushed to the outbound queue.
    Publishing,
}

/// What the worker's thread reports.
#[derive(Clone, Debug, PartialEq, Eq)]
pub enum WorkerEvent {
    Crop(Bitmap),
    ReceiveFailed,
    Persisted,
    PersistFailed,
    Recognized(String),
    RecognitionFailed,
    Removed,
    RemoveFailed,
    Published,
    PublishFailed,
}

/// What the worker's thread is asked to do next.
#[derive(Clone, Debug, PartialEq, Eq)]
pub enum WorkerAction {
    /// Wait for the next crop.
    Receive,
    /// Write this filtered bitmap to the staging file.
    Persist(Bitmap),
    /// Run the recognition engine on the staging file.
    Recognize,
    /// Remove the staging file.
    Remove,
    /// Push this region index and item to the outbound queue.
    Publish(usize, CatalogItem),
    /// Log the error, publish nothing for this crop, wait for the next one.
    Skip(OcrError),
    /// The event does not belong to the state: nothing changes.
    Ignore,
}

/// The event reports that a step of the worker's outside work failed.
pub open spec fn is_failure(event: WorkerEvent) -> bool {
    event is ReceiveFailed || event is PersistFailed || event is RecognitionFailed
        || event is RemoveFailed || event is PublishFailed
}

/// The event is one that the state waits for.
pub open spec fn expects(state: WorkerState, event: WorkerEvent) -> bool {
    match state {
        WorkerState::Idle => event is Crop || event is ReceiveFailed,
        WorkerState::Persisting => event is Persisted || event is PersistFailed,
        WorkerState::Recognizing => event is Recognized || event is RecognitionFailed,
        WorkerState::Cleanup(_) => event is Removed || event is RemoveFailed,
        WorkerState::Publishing => event is Published || event is PublishFailed,
    }
}

/// The transition relation of a worker with region index `index` over
/// `catalog`: from `state` on `event` to `next`, asking for `action`.
pub open spec fn steps_to(
    index: usize,
    catalog: Seq<CatalogItem>,
    state: WorkerState,
    event: WorkerEvent,
    next: WorkerState,
    action: WorkerAction,
) -> bool {
    match (state, event) {
        (WorkerState::Idle, WorkerEvent::Crop(crop)) => {
            &&& next == WorkerState::Persisting
            &&& action matches WorkerAction::Persist(out)
            &&& out.width == crop.width
            &&& out.height == crop.height
            &&& out.pixels@ == filtered(crop.pixels@)
        },
        (WorkerState::Idle, WorkerEvent::ReceiveFailed) => {
            next == WorkerState::Idle && action == WorkerAction::Skip(OcrError::Channel)
        },
        (WorkerState::Persisting, WorkerEvent::Persisted) => {
            next == WorkerState::Recognizing && action == WorkerAction::Recognize
        },
        (WorkerState::Persisting, WorkerEvent::PersistFailed) => {
            next == WorkerState::Idle && action == WorkerAction::Skip(OcrError::Persistence)
        },
        (WorkerState::Recognizing, WorkerEvent::Recognized(text)) => {
            next == WorkerState::Cleanup(text) && action == WorkerAction::Remove
        },
        (WorkerState::Recognizing, WorkerEvent::RecognitionFailed) => {
            next == WorkerState::Idle && action == WorkerAction::Skip(OcrError::RecognitionEngine)
        },
        (WorkerState::Cleanup(text), WorkerEvent::Removed) => {
            if catalog.len() == 0 {
                next == WorkerState::Idle && action == WorkerAction::Skip(OcrError::EmptyCatalog)
            } else {
                &&& next == WorkerState::Publishing
                &&& action matches WorkerAction::Publish(i, item)
                &&& i == index
                &&& exists|k: int| is_closest(catalog, text@, k) && item == #[trigger] catalog[k]
            }
        },
        (WorkerState::Cleanup(_), WorkerEvent::RemoveFailed) => {
            next == WorkerState::Idle && action == WorkerAction::Skip(OcrError::Persistence)
        },
        (WorkerState::Publishing, WorkerEvent::Published) => {
            next == WorkerState::Idle && action == WorkerAction::Receive
        },
        (WorkerState::Publishing, WorkerEvent::PublishFailed) => {
            next == WorkerState::Idle && action == WorkerAction::Skip(OcrError::Channel)
        },
        _ => next == state && action == WorkerAction::Ignore,
    }
}

/// One step of the worker with region index `index`.
pub fn worker_step(
    index: usize,
    catalog: &Vec<CatalogItem>,
    state: WorkerState,
    event: WorkerEvent,
) -> (res: (WorkerState, WorkerAction))
    ensures
        steps_to(index, catalog@, state, event, res.0, res.1),
        is_failure(event) && expects(state, event) ==> res.0 == WorkerState::Idle
            && res.1 is Skip,
        res.1 is Publish ==> state is Cleanup && event is Removed,
        !expects(state, event) ==> res.0 == state && res.1 == WorkerAction::Ignore,
{
    match state {
        WorkerState::Idle => match event {
            WorkerEvent::Crop(crop) => (
                WorkerState::Persisting,
                WorkerAction::Persist(remove_not_text(&crop)),
            ),
            WorkerEvent::ReceiveFailed => (WorkerState::Idle, WorkerAction::Skip(OcrError::Channel)),
            _ => (WorkerState::Idle, WorkerAction::Ignore),
        },
        WorkerState::Persisting => match event {
            WorkerEvent::Persisted => (WorkerState::Recognizing, WorkerAction::Recognize),
            WorkerEvent::PersistFailed => (
                WorkerState::Idle,
                WorkerAction::Skip(OcrError::Persistence),
            ),
            _ => (WorkerState::Persisting, WorkerAction::Ignore),
        },
        WorkerState::Recognizing => match event {
            WorkerEvent::Recognized(text) => (WorkerState::Cleanup(text), WorkerAction::Remove),
            WorkerEvent::RecognitionFailed => (
                WorkerState::Idle,
                WorkerAction::Skip(OcrError::RecognitionEngine),
            ),
            _ => (WorkerState::Recognizing, WorkerAction::Ignore),
        },
        WorkerState::Cleanup(text) => match event {
            WorkerEvent::Removed => match find_closest_levenshtein_match(catalog, text.as_str()) {
                Ok(item) => (WorkerState::Publishing, WorkerAction::Publish(index, item)),
                Err(e) => (WorkerState::Idle, WorkerAction::Skip(e)),
            },
            WorkerEvent::RemoveFailed => (
                WorkerState::Idle,
                WorkerAction::Skip(OcrError::Persistence),
            ),
            _ => (WorkerState::Cleanup(text), WorkerAction::Ignore),
        },
        WorkerState::Publishing => match event {
            WorkerEvent::Published => (WorkerState::Idle, WorkerAction::Receive),
            WorkerEvent::PublishFailed => (WorkerState::Idle, WorkerAction::Skip(OcrError::Channel)),
            _ => (WorkerState::Publishing, WorkerAction::Ignore),
        },
    }
}

} // verus!
