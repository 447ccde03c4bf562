use tranzistorak::voice::mixing::mix_audio_sources;
use tranzistorak::voice::tick::samples_are_quiet;

#[test]
fn two_speakers_are_averaged() {
    let mixed = mix_audio_sources(&vec![vec![100, 100], vec![-50, -50]]);
    assert_eq!(mixed, vec![25, 25]);
}

#[test]
fn no_speakers_mix_to_nothing() {
    let mixed = mix_audio_sources(&Vec::new());
    assert_eq!(mixed, Vec::<i16>::new());
}

#[test]
fn single_speaker_is_unchanged() {
    let source = vec![0, 1, -1, 655, -656, i16::MAX, i16::MIN];
    let mixed = mix_audio_sources(&vec![source.clone()]);
    assert_eq!(mixed, source);
}

#[test]
fn shorter_speakers_contribute_zero_past_their_end() {
    let mixed = mix_audio_sources(&vec![vec![10, 20, 30], vec![20], vec![], vec![3, 3]]);
    // Sums 33, 23, 30 over four speakers, rounded toward zero.
    assert_eq!(mixed, vec![8, 5, 7]);
}

#[test]
fn the_sum_is_divided_once() {
    // Dividing each sample first would give 0 + 0.
    let mixed = mix_audio_sources(&vec![vec![1], vec![1]]);
    assert_eq!(mixed, vec![1]);
    let mixed = mix_audio_sources(&vec![vec![1], vec![1], vec![1]]);
    assert_eq!(mixed, vec![1]);
}

#[test]
fn negative_means_round_toward_zero() {
    assert_eq!(mix_audio_sources(&vec![vec![-1], vec![0]]), vec![0]);
    assert_eq!(mix_audio_sources(&vec![vec![-3], vec![0]]), vec![-1]);
    assert_eq!(mix_audio_sources(&vec![vec![-7, 7], vec![0, 0], vec![0, 0]]), vec![-2, 2]);
    assert_eq!(mix_audio_sources(&vec![vec![-4], vec![-2]]), vec![-3]);
}

#[test]
fn extreme_samples_do_not_overflow() {
    let loud = vec![i16::MAX; 4];
    let low = vec![i16::MIN; 4];
    assert_eq!(
        mix_audio_sources(&vec![loud.clone(), loud.clone(), loud.clone()]),
        loud
    );
    assert_eq!(
        mix_audio_sources(&vec![low.clone(), low.clone(), low.clone()]),
        low
    );
    assert_eq!(mix_audio_sources(&vec![loud, low]), vec![0; 4]);
}

#[test]
fn mix_is_as_long_as_the_longest_speaker() {
    let mixed = mix_audio_sources(&vec![vec![2; 3], vec![4; 320], vec![6; 7]]);
    assert_eq!(mixed.len(), 320);
    assert_eq!(mixed[0], 4);
    assert_eq!(mixed[3], 3);
    assert_eq!(mixed[7], 1);
    assert_eq!(mixed[319], 1);
}

#[test]
fn quiet_is_at_most_the_threshold_in_absolute_value() {
    assert!(samples_are_quiet(&vec![]));
    assert!(samples_are_quiet(&vec![0, 655, -655, 1, -1]));
    assert!(!samples_are_quiet(&vec![0, 656]));
    assert!(!samples_are_quiet(&vec![-656, 0]));
    assert!(!samples_are_quiet(&vec![0, 0, i16::MIN]));
    assert!(!samples_are_quiet(&vec![i16::MAX]));
}
