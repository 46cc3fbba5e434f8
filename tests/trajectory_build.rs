use nyx_space::time::{Duration, Epoch};
use nyx_space::trajectory::{
    nth_event, resample_step, tail_buckets, Bucketer, InsufficientTriggers, Segment, TrajError, Trajectory,
};

fn stream(p: usize, n: u32) -> (Vec<Vec<u32>>, Bucketer<u32>) {
    let mut b = Bucketer::new(0u32, p);
    let mut out = Vec::new();
    for x in 1..n {
        if let Some(bucket) = b.push(x) {
            out.push(bucket);
        }
    }
    (out, b)
}

#[test]
fn buckets_overlap_by_one_state() {
    // Stream 0..=19 with buckets of four states.
    let (buckets, b) = stream(4, 20);
    assert_eq!(buckets, vec![vec![0, 1, 2, 3], vec![3, 4, 5, 6], vec![6, 7, 8, 9], vec![9, 10, 11, 12], vec![12, 13, 14, 15]]);
    assert_eq!(b.window, vec![15, 16, 17, 18, 19]);
    assert!(!b.too_short());
    assert_eq!(b.finish(), vec![vec![15, 16, 17, 18, 19]]);
}

#[test]
fn consecutive_buckets_share_boundary_state() {
    let (buckets, _) = stream(5, 40);
    for pair in buckets.windows(2) {
        assert_eq!(pair[0].len(), 5);
        assert_eq!(pair[0][4], pair[1][0]);
    }
}

#[test]
fn short_stream_needs_resampling() {
    let (buckets, b) = stream(8, 5);
    assert!(buckets.is_empty());
    assert!(b.too_short());
    assert_eq!(b.finish(), vec![vec![0, 1, 2, 3, 4]]);
}

#[test]
fn tail_is_one_bucket() {
    assert_eq!(tail_buckets(&vec![1, 2, 3]), vec![vec![1, 2, 3]]);
    assert_eq!(tail_buckets(&vec![1, 2, 3, 4, 5]), vec![vec![1, 2, 3, 4, 5]]);
    assert!(tail_buckets(&vec![1]).is_empty());
}

#[test]
fn stream_ending_on_bucket_boundary_has_no_tail() {
    // Stream 0..=6 with buckets of four states: one bucket, then the window
    // holds 3..=6, which closes the stream.
    let (buckets, b) = stream(4, 7);
    assert!(buckets.is_empty());
    assert_eq!(b.finish(), vec![vec![0, 1, 2, 3, 4, 5, 6]]);
    let (buckets, b) = stream(4, 8);
    assert_eq!(buckets, vec![vec![0, 1, 2, 3]]);
    assert_eq!(b.window, vec![3, 4, 5, 6, 7]);
    assert_eq!(b.finish(), vec![vec![3, 4, 5, 6, 7]]);
}

#[test]
fn resample_step_divides_span() {
    assert_eq!(resample_step(Duration::from_nanos(700), 8), Duration::from_nanos(100));
    assert_eq!(resample_step(Duration::from_nanos(705), 8), Duration::from_nanos(100));
    assert_eq!(resample_step(Duration::from_nanos(-700), 8), Duration::from_nanos(-100));
    assert_eq!(resample_step(Duration::from_nanos(3), 8), Duration::from_nanos(1));
}

fn seg(start: i128, end: i128, data: u8) -> Segment<u8> {
    Segment { start: Epoch::from_nanos(start), end: Epoch::from_nanos(end), data }
}

#[test]
fn segments_append_contiguously() {
    let mut t: Trajectory<u8> = Trajectory::new(Epoch::from_nanos(0));
    assert_eq!(t.end_epoch(), None);
    assert_eq!(t.append(seg(1, 10, 0)), Err(TrajError::Discontinuous));
    assert_eq!(t.append(seg(0, 10, 0)), Ok(()));
    assert_eq!(t.append(seg(10, 20, 1)), Ok(()));
    // Overlap, gap and empty segments are refused.
    assert_eq!(t.append(seg(15, 25, 2)), Err(TrajError::Discontinuous));
    assert_eq!(t.append(seg(21, 30, 2)), Err(TrajError::Discontinuous));
    assert_eq!(t.append(seg(20, 20, 2)), Err(TrajError::Discontinuous));
    assert_eq!(t.append(seg(20, 25, 2)), Ok(()));
    assert_eq!(t.segments.len(), 3);
    assert_eq!(t.end_epoch(), Some(Epoch::from_nanos(25)));
}

#[test]
fn locate_picks_governing_segment() {
    let mut t: Trajectory<u8> = Trajectory::new(Epoch::from_nanos(0));
    t.append(seg(0, 10, 0)).unwrap();
    t.append(seg(10, 20, 1)).unwrap();
    t.append(seg(20, 25, 2)).unwrap();
    assert_eq!(t.locate(Epoch::from_nanos(0)), Ok(0));
    assert_eq!(t.locate(Epoch::from_nanos(9)), Ok(0));
    assert_eq!(t.locate(Epoch::from_nanos(10)), Ok(1));
    assert_eq!(t.locate(Epoch::from_nanos(19)), Ok(1));
    assert_eq!(t.locate(Epoch::from_nanos(20)), Ok(2));
    assert_eq!(t.locate(Epoch::from_nanos(25)), Ok(2));
    assert_eq!(t.locate(Epoch::from_nanos(26)), Err(TrajError::OutOfBounds));
    assert_eq!(t.locate(Epoch::from_nanos(-1)), Err(TrajError::OutOfBounds));
    let empty: Trajectory<u8> = Trajectory::new(Epoch::from_nanos(0));
    assert_eq!(empty.locate(Epoch::from_nanos(0)), Err(TrajError::OutOfBounds));
}

#[test]
fn nth_event_selection() {
    let events = vec![3u32, 7, 11];
    assert_eq!(nth_event(&events, 0), Ok(3));
    assert_eq!(nth_event(&events, 2), Ok(11));
    assert_eq!(nth_event(&events, 3), Err(InsufficientTriggers { wanted: 3, found: 3 }));
}
