use tranzistorak::voice::queue::{TranscriptionQueue, TranscriptionQueueItem};
use tranzistorak::voice::transcriptor::Transcriptor;
use tranzistorak::voice::worker::{
    TranscriptionWorker, WorkerAction, WorkerEvent, WorkerState, POLLING_INTERVAL_MILLIS,
};

fn item(first_sample: i16, guild_id: u64) -> TranscriptionQueueItem {
    TranscriptionQueueItem::new(vec![first_sample, 0, 0], guild_id)
}

fn is_sleep(action: &WorkerAction) -> bool {
    matches!(action, WorkerAction::Sleep)
}

fn is_stop(action: &WorkerAction) -> bool {
    matches!(action, WorkerAction::Stop)
}

#[test]
fn queue_item_keeps_what_it_is_given() {
    let item = TranscriptionQueueItem::new(vec![1, 2, 3], 77);
    assert_eq!(item.samples, vec![1, 2, 3]);
    assert_eq!(item.guild_id, 77);
}

#[test]
fn queue_is_first_in_first_out_across_sessions() {
    let mut queue = TranscriptionQueue::new();
    assert!(queue.is_empty());
    assert_eq!(queue.len(), 0);
    assert!(queue.pop().is_none());
    queue.push(item(1, 10));
    queue.push(item(2, 20));
    queue.push(item(3, 10));
    assert_eq!(queue.len(), 3);
    assert!(!queue.is_empty());
    let first = queue.pop().unwrap();
    assert_eq!((first.samples[0], first.guild_id), (1, 10));
    queue.push(item(4, 30));
    let order: Vec<(i16, u64)> = std::iter::from_fn(|| queue.pop())
        .map(|item| (item.samples[0], item.guild_id))
        .collect();
    assert_eq!(order, vec![(2, 20), (3, 10), (4, 30)]);
    assert!(queue.is_empty());
    assert!(queue.pop().is_none());
}

#[test]
fn idle_worker_sleeps_on_an_empty_queue() {
    let mut worker = TranscriptionWorker::new();
    let mut queue = TranscriptionQueue::new();
    assert_eq!(worker.state(), WorkerState::Idle);
    assert!(is_sleep(&worker.step(WorkerEvent::Woke, &mut queue, true)));
    assert_eq!(worker.state(), WorkerState::Idle);
    // Without an observer the worker goes on polling as long as nothing waits.
    assert!(is_sleep(&worker.step(WorkerEvent::Woke, &mut queue, false)));
    assert_eq!(worker.state(), WorkerState::Idle);
    assert_eq!(POLLING_INTERVAL_MILLIS, 100);
}

#[test]
fn worker_transcribes_then_dispatches() {
    let mut worker = TranscriptionWorker::new();
    let mut queue = TranscriptionQueue::new();
    queue.push(TranscriptionQueueItem::new(vec![5, 6, 7], 42));
    match worker.step(WorkerEvent::Woke, &mut queue, true) {
        WorkerAction::Transcribe(samples) => assert_eq!(samples, vec![5, 6, 7]),
        _ => panic!("the item should go to the inference"),
    }
    assert_eq!(worker.state(), WorkerState::Draining { guild_id: 42 });
    assert_eq!(queue.len(), 0);
    match worker.step(
        WorkerEvent::Transcribed(Some("ahoj".to_owned())),
        &mut queue,
        true,
    ) {
        WorkerAction::Dispatch { guild_id, text } => {
            assert_eq!(guild_id, 42);
            assert_eq!(text, "ahoj");
        }
        _ => panic!("the text should be dispatched"),
    }
    assert_eq!(worker.state(), WorkerState::Idle);
}

#[test]
fn failed_inference_drops_the_item() {
    let mut worker = TranscriptionWorker::new();
    let mut queue = TranscriptionQueue::new();
    queue.push(item(1, 1));
    queue.push(item(2, 2));
    assert!(matches!(
        worker.step(WorkerEvent::Woke, &mut queue, true),
        WorkerAction::Transcribe(_)
    ));
    assert!(is_sleep(&worker.step(
        WorkerEvent::Transcribed(None),
        &mut queue,
        true
    )));
    assert_eq!(worker.state(), WorkerState::Idle);
    // No retry: the next item is the second one.
    assert_eq!(queue.len(), 1);
    match worker.step(WorkerEvent::Woke, &mut queue, true) {
        WorkerAction::Transcribe(samples) => assert_eq!(samples[0], 2),
        _ => panic!("the second item should go to the inference"),
    }
}

#[test]
fn worker_stops_for_good_without_observer() {
    let mut worker = TranscriptionWorker::new();
    let mut queue = TranscriptionQueue::new();
    queue.push(item(1, 1));
    queue.push(item(2, 2));
    assert!(is_stop(&worker.step(WorkerEvent::Woke, &mut queue, false)));
    assert_eq!(worker.state(), WorkerState::Stopped);
    // The item it had taken is lost, the rest stays where it is.
    assert_eq!(queue.len(), 1);
    assert!(is_stop(&worker.step(WorkerEvent::Woke, &mut queue, true)));
    assert!(is_stop(&worker.step(
        WorkerEvent::Transcribed(Some("x".to_owned())),
        &mut queue,
        true
    )));
    assert_eq!(worker.state(), WorkerState::Stopped);
    assert_eq!(queue.len(), 1);
}

#[test]
fn worker_stops_when_the_observer_leaves_during_inference() {
    let mut worker = TranscriptionWorker::new();
    let mut queue = TranscriptionQueue::new();
    queue.push(item(1, 1));
    assert!(matches!(
        worker.step(WorkerEvent::Woke, &mut queue, true),
        WorkerAction::Transcribe(_)
    ));
    assert!(is_stop(&worker.step(
        WorkerEvent::Transcribed(Some("x".to_owned())),
        &mut queue,
        false
    )));
    assert_eq!(worker.state(), WorkerState::Stopped);
}

#[test]
fn failed_inference_without_observer_does_not_stop() {
    let mut worker = TranscriptionWorker::new();
    let mut queue = TranscriptionQueue::new();
    queue.push(item(1, 1));
    worker.step(WorkerEvent::Woke, &mut queue, true);
    assert!(is_sleep(&worker.step(
        WorkerEvent::Transcribed(None),
        &mut queue,
        false
    )));
    assert_eq!(worker.state(), WorkerState::Idle);
}

#[test]
fn events_out_of_turn_change_nothing() {
    let mut worker = TranscriptionWorker::new();
    let mut queue = TranscriptionQueue::new();
    queue.push(item(1, 1));
    queue.push(item(2, 2));
    assert!(is_sleep(&worker.step(
        WorkerEvent::Transcribed(Some("x".to_owned())),
        &mut queue,
        true
    )));
    assert_eq!(worker.state(), WorkerState::Idle);
    assert_eq!(queue.len(), 2);
    worker.step(WorkerEvent::Woke, &mut queue, true);
    assert_eq!(worker.state(), WorkerState::Draining { guild_id: 1 });
    assert!(is_sleep(&worker.step(WorkerEvent::Woke, &mut queue, true)));
    assert_eq!(worker.state(), WorkerState::Draining { guild_id: 1 });
    assert_eq!(queue.len(), 1);
}

#[test]
fn ten_items_are_drained_in_order() {
    let mut worker = TranscriptionWorker::new();
    let mut queue = TranscriptionQueue::new();
    for number in 0..10 {
        queue.push(item(number, 100 + (number as u64 % 3)));
    }
    let mut delivered = Vec::new();
    let mut event = WorkerEvent::Woke;
    let mut cycles = 0;
    while delivered.len() < 10 {
        cycles += 1;
        assert!(cycles <= 100);
        event = match worker.step(event, &mut queue, true) {
            WorkerAction::Sleep => WorkerEvent::Woke,
            WorkerAction::Transcribe(samples) => {
                WorkerEvent::Transcribed(Some(format!("text {}", samples[0])))
            }
            WorkerAction::Dispatch { guild_id, text } => {
                delivered.push((guild_id, text));
                WorkerEvent::Woke
            }
            WorkerAction::Stop => panic!("an observer is registered"),
        };
    }
    let expected: Vec<(u64, String)> = (0..10)
        .map(|number| (100 + number % 3, format!("text {}", number)))
        .collect();
    assert_eq!(delivered, expected);
    assert!(queue.is_empty());
    assert!(is_sleep(&worker.step(WorkerEvent::Woke, &mut queue, true)));
}

#[test]
fn zero_length_item_passes_through_the_worker() {
    let mut engine = Transcriptor::new();
    for _ in 0..151 {
        engine.process_voice_tick(3, &Vec::new());
    }
    assert_eq!(engine.queue_len(), 1);
    assert_eq!(engine.worker_state(), WorkerState::Idle);
    match engine.transcribe_from_queue(WorkerEvent::Woke, true) {
        WorkerAction::Transcribe(samples) => assert!(samples.is_empty()),
        _ => panic!("the empty segment should go to the inference"),
    }
    assert_eq!(engine.worker_state(), WorkerState::Draining { guild_id: 3 });
    match engine.transcribe_from_queue(WorkerEvent::Transcribed(Some(String::new())), true) {
        WorkerAction::Dispatch { guild_id, text } => {
            assert_eq!(guild_id, 3);
            assert_eq!(text, "");
        }
        _ => panic!("the text should be dispatched"),
    }
    assert_eq!(engine.worker_state(), WorkerState::Idle);
    assert_eq!(engine.queue_len(), 0);
}

#[test]
fn engine_items_carry_their_session() {
    let mut engine = Transcriptor::new();
    for _ in 0..151 {
        engine.process_voice_tick(8, &Vec::new());
        engine.process_voice_tick(5, &Vec::new());
    }
    assert_eq!(engine.queue_len(), 2);
    engine.transcribe_from_queue(WorkerEvent::Woke, true);
    assert_eq!(engine.worker_state(), WorkerState::Draining { guild_id: 8 });
    engine.transcribe_from_queue(WorkerEvent::Transcribed(None), true);
    engine.transcribe_from_queue(WorkerEvent::Woke, true);
    assert_eq!(engine.worker_state(), WorkerState::Draining { guild_id: 5 });
}
