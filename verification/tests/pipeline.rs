use relic_ocr::engine::{EngineAction, EngineEvent, OCREngine, Phase};
use relic_ocr::error::OcrError;
use relic_ocr::filter::{remove_not_text, Bitmap, Rgba};
use relic_ocr::matcher::CatalogItem;
use relic_ocr::worker::{worker_step, WorkerAction, WorkerEvent, WorkerState};

fn item(name: &str) -> CatalogItem {
    CatalogItem {
        id: format!("id-{}", name),
        url_name: String::new(),
        thumb: String::new(),
        item_name: name.to_string(),
    }
}

fn catalog() -> Vec<CatalogItem> {
    vec![
        item("Neo Lith"),
        item("Meso Lith"),
        item("Axi Chassis"),
        item("Lith Systems"),
        item("Forma Blueprint"),
    ]
}

fn screenshot() -> Bitmap {
    let width: u32 = 1500;
    let height: u32 = 470;
    let mut pixels: Vec<Rgba> = Vec::new();
    for y in 0..height {
        for x in 0..width {
            let lit: bool = (x + y) % 3 == 0;
            pixels.push(if lit {
                Rgba { r: 200, g: 180, b: 100, a: 255 }
            } else {
                Rgba { r: 20, g: 20, b: 90, a: 255 }
            });
        }
    }
    Bitmap { width, height, pixels }
}

/// Runs one worker over one crop; `text` is what the recognition engine
/// reads, or `None` when it fails.
fn run_worker(
    index: usize,
    items: &Vec<CatalogItem>,
    crop: Bitmap,
    text: Option<&str>,
) -> (WorkerState, Option<(usize, CatalogItem)>) {
    let expected = remove_not_text(&crop);
    let (state, action) = worker_step(index, items, WorkerState::Idle, WorkerEvent::Crop(crop));
    assert_eq!(state, WorkerState::Persisting);
    assert_eq!(action, WorkerAction::Persist(expected));
    let (state, action) = worker_step(index, items, state, WorkerEvent::Persisted);
    assert_eq!((&state, &action), (&WorkerState::Recognizing, &WorkerAction::Recognize));
    let event = match text {
        Some(t) => WorkerEvent::Recognized(t.to_string()),
        None => WorkerEvent::RecognitionFailed,
    };
    let (state, action) = worker_step(index, items, state, event);
    if text.is_none() {
        assert_eq!(action, WorkerAction::Skip(OcrError::RecognitionEngine));
        return (state, None);
    }
    assert_eq!(state, WorkerState::Cleanup(text.unwrap().to_string()));
    assert_eq!(action, WorkerAction::Remove);
    let (state, action) = worker_step(index, items, state, WorkerEvent::Removed);
    assert_eq!(state, WorkerState::Publishing);
    let published = match action {
        WorkerAction::Publish(i, found) => (i, found),
        other => panic!("expected a result, got {:?}", other),
    };
    let (state, action) = worker_step(index, items, state, WorkerEvent::Published);
    assert_eq!(action, WorkerAction::Receive);
    (state, Some(published))
}

#[test]
fn engine_refuses_an_empty_catalog() {
    assert!(matches!(OCREngine::new(Vec::new()), Err(OcrError::EmptyCatalog)));
}

#[test]
fn engine_keeps_its_catalog() {
    let engine = OCREngine::new(catalog()).unwrap();
    assert_eq!(engine.catalog(), &catalog());
    assert_eq!(engine.current_phase(), Phase::Ready);
}

#[test]
fn four_regions_give_four_results() {
    let mut engine = OCREngine::new(catalog()).unwrap();
    let items = engine.catalog().clone();
    let crops = match engine.ocr(EngineEvent::Screenshot(screenshot())) {
        EngineAction::Send(crops) => crops,
        other => panic!("expected crops, got {:?}", other),
    };
    assert_eq!(crops.len(), 4);
    assert_eq!(engine.current_phase(), Phase::Sending);
    assert_eq!(engine.ocr(EngineEvent::Sent), EngineAction::Receive);
    assert_eq!(engine.current_phase(), Phase::Gathering);

    let read: [&str; 4] = ["Neo L1th\n", "Mes0 Lith", "Axi Chasis", " Lith Systems "];
    let mut published: Vec<(usize, CatalogItem)> = Vec::new();
    for (i, crop) in crops.into_iter().enumerate() {
        assert_eq!((crop.width, crop.height), (250, 50));
        let (state, result) = run_worker(i, &items, crop, Some(read[i]));
        assert_eq!(state, WorkerState::Idle);
        published.push(result.unwrap());
    }

    let arrival: [usize; 4] = [2, 0, 3, 1];
    let mut outcome: Option<Vec<(usize, CatalogItem)>> = None;
    for (n, w) in arrival.iter().enumerate() {
        let (i, found) = published[*w].clone();
        let action = engine.ocr(EngineEvent::Arrived(i, found));
        if n < 3 {
            assert_eq!(action, EngineAction::Receive);
            assert_eq!(engine.current_phase(), Phase::Gathering);
        } else {
            match action {
                EngineAction::Done(results) => outcome = Some(results),
                other => panic!("expected the results, got {:?}", other),
            }
        }
    }
    assert_eq!(engine.current_phase(), Phase::Ready);
    let results = outcome.unwrap();
    assert_eq!(results.len(), 4);
    let order: Vec<usize> = results.iter().map(|r| r.0).collect();
    assert_eq!(order, vec![2, 0, 3, 1]);
    let mut sorted = results.clone();
    sorted.sort_by_key(|r| r.0);
    let names: Vec<&str> = sorted.iter().map(|r| r.1.item_name.as_str()).collect();
    assert_eq!(names, vec!["Neo Lith", "Meso Lith", "Axi Chassis", "Lith Systems"]);
    let indices: Vec<usize> = sorted.iter().map(|r| r.0).collect();
    assert_eq!(indices, vec![0, 1, 2, 3]);
}

#[test]
fn a_failed_worker_leaves_a_partial_result() {
    let mut engine = OCREngine::new(catalog()).unwrap();
    let items = engine.catalog().clone();
    let crops = match engine.ocr(EngineEvent::Screenshot(screenshot())) {
        EngineAction::Send(crops) => crops,
        other => panic!("expected crops, got {:?}", other),
    };
    assert_eq!(engine.ocr(EngineEvent::Sent), EngineAction::Receive);
    let read: [Option<&str>; 4] = [Some("Neo Lith"), Some("Meso Lith"), None, Some("Lith Systems")];
    for (i, crop) in crops.into_iter().enumerate() {
        let (state, result) = run_worker(i, &items, crop, read[i]);
        assert_eq!(state, WorkerState::Idle);
        match result {
            Some((index, found)) => {
                assert_eq!(index, i);
                assert_eq!(engine.ocr(EngineEvent::Arrived(index, found)), EngineAction::Receive);
            }
            None => assert_eq!(i, 2),
        }
    }
    match engine.ocr(EngineEvent::TimedOut) {
        EngineAction::Partial(results) => {
            let indices: Vec<usize> = results.iter().map(|r| r.0).collect();
            assert_eq!(indices, vec![0, 1, 3]);
            let names: Vec<&str> = results.iter().map(|r| r.1.item_name.as_str()).collect();
            assert_eq!(names, vec!["Neo Lith", "Meso Lith", "Lith Systems"]);
        }
        other => panic!("expected a partial result, got {:?}", other),
    }
    assert_eq!(engine.current_phase(), Phase::Ready);
    // the engine is ready for the next capture, with nothing left over
    assert!(matches!(engine.ocr(EngineEvent::Screenshot(screenshot())), EngineAction::Send(_)));
    assert_eq!(engine.ocr(EngineEvent::Sent), EngineAction::Receive);
    assert!(matches!(engine.ocr(EngineEvent::TimedOut), EngineAction::Partial(r) if r.is_empty()));
}

#[test]
fn engine_failures() {
    let mut engine = OCREngine::new(catalog()).unwrap();
    assert_eq!(engine.ocr(EngineEvent::DecodeFailed), EngineAction::Fail(OcrError::ImageDecode));
    assert_eq!(engine.current_phase(), Phase::Ready);
    assert!(matches!(engine.ocr(EngineEvent::Screenshot(screenshot())), EngineAction::Send(_)));
    assert_eq!(engine.ocr(EngineEvent::SendFailed), EngineAction::Fail(OcrError::Channel));
    assert_eq!(engine.current_phase(), Phase::Ready);
    assert!(matches!(engine.ocr(EngineEvent::Screenshot(screenshot())), EngineAction::Send(_)));
    assert_eq!(engine.ocr(EngineEvent::Sent), EngineAction::Receive);
    assert_eq!(engine.ocr(EngineEvent::Arrived(1, item("Meso Lith"))), EngineAction::Receive);
    assert_eq!(engine.ocr(EngineEvent::ReceiveFailed), EngineAction::Fail(OcrError::Channel));
    assert_eq!(engine.current_phase(), Phase::Ready);
}

#[test]
fn engine_ignores_what_it_does_not_wait_for() {
    let mut engine = OCREngine::new(catalog()).unwrap();
    assert_eq!(engine.ocr(EngineEvent::Sent), EngineAction::Ignore);
    assert_eq!(engine.ocr(EngineEvent::TimedOut), EngineAction::Ignore);
    assert_eq!(engine.ocr(EngineEvent::Arrived(0, item("Neo Lith"))), EngineAction::Ignore);
    assert_eq!(engine.current_phase(), Phase::Ready);
    assert!(matches!(engine.ocr(EngineEvent::Screenshot(screenshot())), EngineAction::Send(_)));
    assert_eq!(engine.ocr(EngineEvent::DecodeFailed), EngineAction::Ignore);
    assert_eq!(engine.ocr(EngineEvent::TimedOut), EngineAction::Ignore);
    assert_eq!(engine.current_phase(), Phase::Sending);
}

#[test]
fn worker_skips_on_each_failure() {
    let items = catalog();
    let cases: Vec<(WorkerState, WorkerEvent, OcrError)> = vec![
        (WorkerState::Idle, WorkerEvent::ReceiveFailed, OcrError::Channel),
        (WorkerState::Persisting, WorkerEvent::PersistFailed, OcrError::Persistence),
        (WorkerState::Recognizing, WorkerEvent::RecognitionFailed, OcrError::RecognitionEngine),
        (WorkerState::Cleanup("Neo Lith".to_string()), WorkerEvent::RemoveFailed, OcrError::Persistence),
        (WorkerState::Publishing, WorkerEvent::PublishFailed, OcrError::Channel),
    ];
    for (state, event, error) in cases {
        let (next, action) = worker_step(1, &items, state, event);
        assert_eq!(next, WorkerState::Idle);
        assert_eq!(action, WorkerAction::Skip(error));
    }
}

#[test]
fn worker_ignores_what_it_does_not_wait_for() {
    let items = catalog();
    let (next, action) = worker_step(0, &items, WorkerState::Idle, WorkerEvent::Removed);
    assert_eq!((next, action), (WorkerState::Idle, WorkerAction::Ignore));
    let held = WorkerState::Cleanup("Neo Lith".to_string());
    let (next, action) = worker_step(0, &items, held.clone(), WorkerEvent::Persisted);
    assert_eq!((next, action), (held, WorkerAction::Ignore));
    let (next, action) =
        worker_step(0, &items, WorkerState::Publishing, WorkerEvent::Recognized("x".to_string()));
    assert_eq!((next, action), (WorkerState::Publishing, WorkerAction::Ignore));
}

#[test]
fn worker_without_a_catalog_publishes_nothing() {
    let none: Vec<CatalogItem> = Vec::new();
    let held = WorkerState::Cleanup("Neo Lith".to_string());
    let (next, action) = worker_step(3, &none, held, WorkerEvent::Removed);
    assert_eq!(next, WorkerState::Idle);
    assert_eq!(action, WorkerAction::Skip(OcrError::EmptyCatalog));
}

#[test]
fn worker_publishes_under_its_own_index() {
    let items = catalog();
    for index in 0..4 {
        let held = WorkerState::Cleanup("Forma Blueprnt".to_string());
        let (next, action) = worker_step(index, &items, held, WorkerEvent::Removed);
        assert_eq!(next, WorkerState::Publishing);
        assert_eq!(action, WorkerAction::Publish(index, item("Forma Blueprint")));
    }
}
