use speaker_capture::queue::{SampleQueue, MAX_QUEUE_SAMPLES};

#[test]
fn empty_queue_pops_nothing() {
    let mut q = SampleQueue::new();
    assert_eq!(q.len(), 0);
    assert_eq!(q.pop_front(), None);
    assert_eq!(q.len(), 0);
}

#[test]
fn push_within_cap_keeps_order_and_drops_nothing() {
    let mut q = SampleQueue::new();
    let batch: Vec<u32> = vec![10, 11, 12, 13, 14];
    let dropped = q.push_batch(&batch);
    assert_eq!(dropped, 0);
    assert_eq!(q.len(), 5);
    for expected in 10..15u32 {
        assert_eq!(q.pop_front(), Some(expected));
    }
    assert_eq!(q.pop_front(), None);
}

#[test]
fn two_batches_interleave_in_production_order() {
    let mut q = SampleQueue::new();
    assert_eq!(q.push_batch(&vec![1, 2]), 0);
    assert_eq!(q.push_batch(&vec![3, 4]), 0);
    assert_eq!(q.pop_front(), Some(1));
    assert_eq!(q.pop_front(), Some(2));
    assert_eq!(q.pop_front(), Some(3));
    assert_eq!(q.pop_front(), Some(4));
}

#[test]
fn overflow_drops_exactly_the_oldest() {
    let mut q = SampleQueue::new();
    let first: Vec<u32> = (0..MAX_QUEUE_SAMPLES as u32).collect();
    assert_eq!(q.push_batch(&first), 0);
    assert_eq!(q.len(), MAX_QUEUE_SAMPLES);

    // Three more samples on a full queue evict exactly the three oldest.
    let more: Vec<u32> = vec![900_001, 900_002, 900_003];
    let dropped = q.push_batch(&more);
    assert_eq!(dropped, 3);
    assert_eq!(q.len(), MAX_QUEUE_SAMPLES);
    assert_eq!(q.pop_front(), Some(3));
}

#[test]
fn giant_batch_keeps_only_the_most_recent() {
    let mut q = SampleQueue::new();
    let batch: Vec<u32> = (0..200_000u32).collect();
    let dropped = q.push_batch(&batch);
    assert_eq!(dropped, 200_000 - MAX_QUEUE_SAMPLES);
    assert_eq!(dropped, 68_928);
    assert_eq!(q.len(), MAX_QUEUE_SAMPLES);
    // The queue now holds the most recent 131072 samples, oldest first.
    assert_eq!(q.pop_front(), Some(68_928));
    assert_eq!(q.pop_front(), Some(68_929));
    let mut last = 0u32;
    while let Some(v) = q.pop_front() {
        last = v;
    }
    assert_eq!(last, 199_999);
}

#[test]
fn empty_batch_changes_nothing() {
    let mut q = SampleQueue::new();
    q.push_batch(&vec![7]);
    let dropped = q.push_batch(&Vec::new());
    assert_eq!(dropped, 0);
    assert_eq!(q.len(), 1);
    assert_eq!(q.pop_front(), Some(7));
}
