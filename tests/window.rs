use s3_bench::{Action, BatchError, PartDescriptor, PartFetch, ReadStatus, Scheduler};

fn part(len: usize) -> PartDescriptor {
    PartDescriptor {
        key: "k".to_string(),
        range_start: 8,
        range_end: 8 + len - 1,
        dest_offset: 16,
        expected_length: len,
    }
}

#[test]
fn window_admits_then_waits_for_the_oldest() {
    let mut s = Scheduler::new(3, 2);
    assert_eq!(s.next_action(), Action::Admit(0));
    s.record_admitted();
    assert_eq!(s.next_action(), Action::Admit(1));
    s.record_admitted();
    assert_eq!(s.active(), 2);
    assert_eq!(s.next_action(), Action::AwaitOldest(0));
    assert_eq!(s.record_completed(Ok(())), Ok(()));
    assert_eq!(s.next_action(), Action::Admit(2));
    s.record_admitted();
    assert_eq!(s.next_action(), Action::AwaitOldest(1));
    assert_eq!(s.record_completed(Ok(())), Ok(()));
    assert_eq!(s.next_action(), Action::AwaitOldest(2));
    assert_eq!(s.record_completed(Ok(())), Ok(()));
    assert_eq!(s.next_action(), Action::Finished);
    assert_eq!(s.active(), 0);
}

#[test]
fn no_parts_finish_at_once() {
    assert_eq!(Scheduler::new(0, 4).next_action(), Action::Finished);
}

#[test]
fn failure_stops_the_window() {
    let mut s = Scheduler::new(4, 2);
    s.record_admitted();
    s.record_admitted();
    let e = BatchError::Configuration { chunk_size: 1, part_size: 2 };
    assert_eq!(s.record_completed(Err(e.clone())), Err(e));
    assert_eq!(s.next_action(), Action::Stopped);
}

#[test]
fn reads_accumulate_to_completion() {
    let mut f = PartFetch::new(part(5));
    assert_eq!(f.remaining(), 5);
    assert!(matches!(f.on_read(2), ReadStatus::Pending));
    assert_eq!(f.received(), 2);
    assert_eq!(f.remaining(), 3);
    assert!(matches!(f.on_read(3), ReadStatus::Complete));
    assert_eq!(f.remaining(), 0);
}

#[test]
fn end_of_stream_before_expected_length_is_a_short_read() {
    let mut f = PartFetch::new(part(5));
    assert!(matches!(f.on_read(4), ReadStatus::Pending));
    match f.on_read(0) {
        ReadStatus::Failed(e) => assert_eq!(
            e,
            BatchError::ShortRead {
                key: "k".to_string(),
                range_start: 8,
                range_end: 12,
                received: 4,
                expected: 5,
            }
        ),
        _ => panic!("expected a short read"),
    }
}

#[test]
fn empty_part_completes_on_end_of_stream() {
    let mut f = PartFetch::new(part(1));
    assert!(matches!(f.on_read(1), ReadStatus::Complete));
    let mut g = PartFetch::new(PartDescriptor { expected_length: 0, ..part(1) });
    assert!(matches!(g.on_read(0), ReadStatus::Complete));
}

#[test]
fn transport_error_names_the_part() {
    let f = PartFetch::new(part(4));
    assert_eq!(f.part(), &part(4));
    assert_eq!(
        f.transport_error("timeout".to_string()),
        BatchError::Transport {
            key: "k".to_string(),
            range_start: 8,
            range_end: 11,
            message: "timeout".to_string(),
        }
    );
}
