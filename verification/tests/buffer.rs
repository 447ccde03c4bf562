use tranzistorak::voice::buffer::SessionBuffer;

#[test]
fn new_buffer_is_empty_and_keeps_its_capacity() {
    let buffer = SessionBuffer::with_capacity(5);
    assert_eq!(buffer.capacity(), 5);
    assert_eq!(buffer.len(), 0);
    assert!(buffer.is_empty());
    assert_eq!(buffer.oldest(5), Vec::<i16>::new());
}

#[test]
fn push_appends_until_full_then_evicts_the_oldest() {
    let mut buffer = SessionBuffer::with_capacity(3);
    assert_eq!(buffer.push(1), None);
    assert_eq!(buffer.push(2), None);
    assert_eq!(buffer.push(3), None);
    assert!(!buffer.is_empty());
    assert_eq!(buffer.len(), 3);
    assert_eq!(buffer.oldest(3), vec![1, 2, 3]);
    assert_eq!(buffer.push(4), Some(1));
    assert_eq!(buffer.push(5), Some(2));
    assert_eq!(buffer.len(), 3);
    assert_eq!(buffer.capacity(), 3);
    assert_eq!(buffer.oldest(3), vec![3, 4, 5]);
}

#[test]
fn oldest_is_a_chronological_prefix() {
    let mut buffer = SessionBuffer::with_capacity(4);
    buffer.extend(&vec![10, 20, 30, 40, 50, 60]);
    assert_eq!(buffer.oldest(0), Vec::<i16>::new());
    assert_eq!(buffer.oldest(1), vec![30]);
    assert_eq!(buffer.oldest(3), vec![30, 40, 50]);
    assert_eq!(buffer.oldest(4), vec![30, 40, 50, 60]);
    assert_eq!(buffer.oldest(100), vec![30, 40, 50, 60]);
    // Looking does not change the buffer.
    assert_eq!(buffer.len(), 4);
    assert_eq!(buffer.oldest(4), vec![30, 40, 50, 60]);
}

#[test]
fn extend_keeps_the_most_recent_samples() {
    let mut buffer = SessionBuffer::with_capacity(5);
    buffer.extend(&vec![1, 2]);
    assert_eq!(buffer.oldest(5), vec![1, 2]);
    buffer.extend(&vec![]);
    assert_eq!(buffer.oldest(5), vec![1, 2]);
    buffer.extend(&vec![3, 4, 5, 6]);
    assert_eq!(buffer.oldest(5), vec![2, 3, 4, 5, 6]);
    buffer.extend(&(7..=20).collect::<Vec<i16>>());
    assert_eq!(buffer.oldest(5), vec![16, 17, 18, 19, 20]);
    assert_eq!(buffer.len(), 5);
}

#[test]
fn extend_with_silence_appends_zeros() {
    let mut buffer = SessionBuffer::with_capacity(4);
    buffer.extend(&vec![7, 8]);
    buffer.extend_with_silence(0);
    assert_eq!(buffer.oldest(4), vec![7, 8]);
    buffer.extend_with_silence(1);
    assert_eq!(buffer.oldest(4), vec![7, 8, 0]);
    buffer.extend_with_silence(2);
    assert_eq!(buffer.oldest(4), vec![8, 0, 0, 0]);
    buffer.extend_with_silence(10);
    assert_eq!(buffer.oldest(4), vec![0, 0, 0, 0]);
}

#[test]
fn clear_empties_and_keeps_the_capacity() {
    let mut buffer = SessionBuffer::with_capacity(3);
    buffer.extend(&vec![1, 2, 3, 4]);
    buffer.clear();
    assert!(buffer.is_empty());
    assert_eq!(buffer.len(), 0);
    assert_eq!(buffer.capacity(), 3);
    assert_eq!(buffer.oldest(3), Vec::<i16>::new());
    assert_eq!(buffer.push(9), None);
    assert_eq!(buffer.oldest(3), vec![9]);
}

#[test]
fn buffer_without_capacity_stays_empty() {
    let mut buffer = SessionBuffer::with_capacity(0);
    assert_eq!(buffer.push(1), None);
    buffer.extend(&vec![2, 3]);
    buffer.extend_with_silence(4);
    assert_eq!(buffer.len(), 0);
    assert!(buffer.is_empty());
    assert_eq!(buffer.oldest(1), Vec::<i16>::new());
}

#[test]
fn length_never_exceeds_capacity() {
    let mut buffer = SessionBuffer::with_capacity(7);
    for sample in 0..100 {
        buffer.push(sample);
        assert!(buffer.len() <= buffer.capacity());
        assert_eq!(buffer.len(), (sample as usize + 1).min(7));
    }
}
