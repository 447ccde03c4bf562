use tranzistorak::voice::session::Session;
use tranzistorak::voice::silence::{Segmentation, SilenceTracker};
use tranzistorak::voice::transcriptor::Transcriptor;
use tranzistorak::voice::worker::{WorkerAction, WorkerEvent};

fn voiced_tick(sample: i16) -> Vec<Vec<i16>> {
    vec![vec![sample; 320]]
}

fn quiet_tick() -> Vec<Vec<i16>> {
    vec![vec![0; 320]]
}

fn no_speakers() -> Vec<Vec<i16>> {
    Vec::new()
}

fn take_segment(engine: &mut Transcriptor) -> Vec<i16> {
    match engine.transcribe_from_queue(WorkerEvent::Woke, true) {
        WorkerAction::Transcribe(samples) => {
            engine.transcribe_from_queue(WorkerEvent::Transcribed(None), true);
            samples
        }
        _ => panic!("no segment waits"),
    }
}

#[test]
fn tracker_fires_strictly_beyond_the_separator() {
    let mut tracker = SilenceTracker::new();
    assert_eq!(tracker.silent_run(), 0);
    assert_eq!(tracker.update(true, 47_999), None);
    assert_eq!(tracker.silent_run(), 47_999);
    assert_eq!(tracker.update(true, 1), None);
    assert_eq!(tracker.silent_run(), 48_000);
    assert_eq!(tracker.update(true, 0), None);
    assert_eq!(tracker.silent_run(), 48_000);
    assert_eq!(
        tracker.update(true, 1),
        Some(Segmentation { trailing_silence: 48_001 })
    );
    assert_eq!(tracker.silent_run(), 0);
}

#[test]
fn tracker_resets_on_voice() {
    let mut tracker = SilenceTracker::new();
    assert_eq!(tracker.update(true, 40_000), None);
    assert_eq!(tracker.update(false, 320), None);
    assert_eq!(tracker.silent_run(), 0);
    assert_eq!(tracker.update(true, 40_000), None);
    assert_eq!(tracker.silent_run(), 40_000);
    // A voiced tick never fires, however long it is.
    assert_eq!(tracker.update(false, 1_000_000), None);
    assert_eq!(tracker.silent_run(), 0);
}

#[test]
fn tracker_reports_the_whole_run() {
    let mut tracker = SilenceTracker::new();
    assert_eq!(
        tracker.update(true, 200_000),
        Some(Segmentation { trailing_silence: 200_000 })
    );
    assert_eq!(tracker.update(true, 100), None);
    assert_eq!(
        tracker.update(true, usize::MAX),
        Some(Segmentation { trailing_silence: usize::MAX })
    );
    assert_eq!(tracker.silent_run(), 0);
}

#[test]
fn extract_segment_drops_the_trailing_silence() {
    let mut session = Session::new();
    assert_eq!(session.process_tick(&vec![vec![1000, 2000, 3000]]), None);
    assert_eq!(session.process_tick(&vec![vec![0, 0]]), None);
    assert_eq!(session.buffered_len(), 5);
    assert_eq!(session.silent_run(), 2);
    let segment = session.extract_segment(Segmentation { trailing_silence: 2 });
    assert_eq!(segment, vec![1000, 2000, 3000]);
    assert_eq!(session.buffered_len(), 0);
    assert_eq!(session.silent_run(), 2);
}

#[test]
fn extract_segment_is_empty_when_silence_covers_the_history() {
    let mut session = Session::new();
    session.process_tick(&vec![vec![1000, 2000, 3000]]);
    assert_eq!(
        session.extract_segment(Segmentation { trailing_silence: 3 }),
        Vec::<i16>::new()
    );
    session.process_tick(&vec![vec![1000, 2000, 3000]]);
    assert_eq!(
        session.extract_segment(Segmentation { trailing_silence: usize::MAX }),
        Vec::<i16>::new()
    );
    assert_eq!(session.buffered_len(), 0);
    session.process_tick(&vec![vec![7, 8]]);
    assert_eq!(
        session.extract_segment(Segmentation { trailing_silence: 0 }),
        vec![7, 8]
    );
}

#[test]
fn utterance_followed_by_silence_is_enqueued_once() {
    let mut engine = Transcriptor::new();
    for _ in 0..50 {
        engine.process_voice_tick(1, &voiced_tick(1000));
    }
    assert_eq!(engine.buffered_len(1), Some(16_000));
    assert_eq!(engine.silent_run(1), Some(0));
    for tick in 1..=150 {
        engine.process_voice_tick(1, &no_speakers());
        assert_eq!(engine.queue_len(), 0);
        assert_eq!(engine.silent_run(1), Some(320 * tick));
    }
    assert_eq!(engine.buffered_len(1), Some(64_000));
    engine.process_voice_tick(1, &no_speakers());
    assert_eq!(engine.queue_len(), 1);
    assert_eq!(engine.buffered_len(1), Some(0));
    assert_eq!(engine.silent_run(1), Some(0));
    let segment = take_segment(&mut engine);
    assert_eq!(segment, vec![1000; 16_000]);
    assert_eq!(engine.queue_len(), 0);
}

#[test]
fn quiet_speakers_count_as_silence() {
    let mut engine = Transcriptor::new();
    for _ in 0..50 {
        engine.process_voice_tick(1, &voiced_tick(-1000));
    }
    for _ in 0..150 {
        engine.process_voice_tick(1, &vec![vec![655; 320], vec![-655; 320]]);
    }
    assert_eq!(engine.queue_len(), 0);
    assert_eq!(engine.silent_run(1), Some(48_000));
    engine.process_voice_tick(1, &vec![vec![655; 320]]);
    assert_eq!(engine.queue_len(), 1);
    assert_eq!(take_segment(&mut engine), vec![-1000; 16_000]);
}

#[test]
fn a_sample_above_the_threshold_interrupts_the_silence() {
    let mut engine = Transcriptor::new();
    for _ in 0..150 {
        engine.process_voice_tick(1, &quiet_tick());
    }
    let mut tick = vec![0; 320];
    tick[319] = 656;
    engine.process_voice_tick(1, &vec![tick]);
    assert_eq!(engine.silent_run(1), Some(0));
    assert_eq!(engine.queue_len(), 0);
    assert_eq!(engine.buffered_len(1), Some(151 * 320));
}

#[test]
fn silence_alone_enqueues_an_empty_segment() {
    let mut engine = Transcriptor::new();
    for _ in 0..150 {
        engine.process_voice_tick(9, &no_speakers());
    }
    assert_eq!(engine.queue_len(), 0);
    engine.process_voice_tick(9, &no_speakers());
    assert_eq!(engine.queue_len(), 1);
    assert_eq!(take_segment(&mut engine), Vec::<i16>::new());
    // And again, from the emptied history.
    for _ in 0..151 {
        engine.process_voice_tick(9, &quiet_tick());
    }
    assert_eq!(engine.queue_len(), 1);
    assert_eq!(take_segment(&mut engine), Vec::<i16>::new());
}

#[test]
fn history_is_bounded_and_keeps_the_most_recent_audio() {
    let mut engine = Transcriptor::new();
    for tick in 0..600 {
        engine.process_voice_tick(1, &voiced_tick(1000 + tick));
        assert!(engine.buffered_len(1).unwrap() <= 160_000);
        assert_eq!(
            engine.buffered_len(1),
            Some((320 * (tick as usize + 1)).min(160_000))
        );
    }
    for _ in 0..151 {
        engine.process_voice_tick(1, &no_speakers());
        assert!(engine.buffered_len(1).unwrap() <= 160_000);
    }
    assert_eq!(engine.queue_len(), 1);
    let segment = take_segment(&mut engine);
    // 192 000 voiced samples and 48 320 of silence came in; the history held
    // the last 160 000 of them, of which the silence is left out.
    assert_eq!(segment.len(), 160_000 - 48_320);
    // The oldest sample kept is the one 111 680 before the end of the voice.
    let first_kept = 192_000 - 111_680;
    assert_eq!(segment[0], 1000 + (first_kept / 320) as i16);
    assert_eq!(segment[111_679], 1000 + 599);
}

#[test]
fn one_long_silent_tick_outweighs_the_history() {
    let mut engine = Transcriptor::new();
    engine.process_voice_tick(1, &voiced_tick(1000));
    engine.process_voice_tick(1, &vec![vec![1; 200_000]]);
    assert_eq!(engine.queue_len(), 1);
    assert_eq!(engine.buffered_len(1), Some(0));
    assert_eq!(take_segment(&mut engine), Vec::<i16>::new());
}

#[test]
fn sessions_do_not_share_their_silence() {
    let mut engine = Transcriptor::new();
    assert_eq!(engine.buffered_len(1), None);
    assert_eq!(engine.silent_run(2), None);
    for _ in 0..100 {
        engine.process_voice_tick(1, &no_speakers());
        engine.process_voice_tick(2, &no_speakers());
    }
    // 64 000 silent samples in all, 32 000 in each session.
    assert_eq!(engine.queue_len(), 0);
    assert_eq!(engine.silent_run(1), Some(32_000));
    assert_eq!(engine.silent_run(2), Some(32_000));
    engine.process_voice_tick(2, &voiced_tick(5000));
    assert_eq!(engine.silent_run(1), Some(32_000));
    assert_eq!(engine.silent_run(2), Some(0));
    for _ in 0..51 {
        engine.process_voice_tick(1, &no_speakers());
    }
    assert_eq!(engine.queue_len(), 1);
    assert_eq!(engine.silent_run(1), Some(0));
    assert_eq!(engine.buffered_len(1), Some(0));
    assert_eq!(engine.buffered_len(2), Some(101 * 320));
}

#[test]
fn segments_of_one_session_follow_each_other() {
    let mut engine = Transcriptor::new();
    for utterance in 1..=3 {
        for _ in 0..10 {
            engine.process_voice_tick(4, &voiced_tick(1000 * utterance));
        }
        for _ in 0..151 {
            engine.process_voice_tick(4, &no_speakers());
        }
    }
    assert_eq!(engine.queue_len(), 3);
    assert_eq!(take_segment(&mut engine), vec![1000; 3200]);
    assert_eq!(take_segment(&mut engine), vec![2000; 3200]);
    assert_eq!(take_segment(&mut engine), vec![3000; 3200]);
}

#[test]
fn speakers_are_mixed_before_they_are_buffered() {
    let mut engine = Transcriptor::new();
    engine.process_voice_tick(1, &vec![vec![2000, 2000], vec![-1000, -1000, 4000]]);
    assert_eq!(engine.buffered_len(1), Some(3));
    for _ in 0..151 {
        engine.process_voice_tick(1, &no_speakers());
    }
    assert_eq!(take_segment(&mut engine), vec![500, 500, 2000]);
}
