use oxidenes::pacing::{rest_of_frame, FramePacer, FRAME_NS};

#[test]
fn rest_is_what_is_left_of_the_frame() {
    assert_eq!(rest_of_frame(1_000, 1_000), 16_666_667);
    assert_eq!(rest_of_frame(1_000, 1_001), 16_666_666);
    assert_eq!(rest_of_frame(0, 6_666_667), 10_000_000);
    assert_eq!(rest_of_frame(5, 16_666_671), 1);
}

#[test]
fn an_overrun_rests_nothing() {
    assert_eq!(rest_of_frame(0, 16_666_667), 0);
    assert_eq!(rest_of_frame(0, 16_666_668), 0);
    assert_eq!(rest_of_frame(0, u64::MAX), 0);
}

#[test]
fn a_clock_that_went_back_rests_a_frame() {
    assert_eq!(rest_of_frame(1_000, 999), 16_666_667);
    assert_eq!(rest_of_frame(u64::MAX, 0), 16_666_667);
}

#[test]
fn pacer_reads_the_clock() {
    let mut pacer = FramePacer::new();
    let first = pacer.rest();
    assert!(first as u64 <= FRAME_NS);
    // The rest shrinks as the clock runs, down to nothing.
    let mut last = first;
    while last > 0 {
        let now = pacer.rest();
        assert!(now <= last);
        last = now;
    }
    assert_eq!(pacer.rest(), 0);
    let started = pacer.frame_start;
    let now = pacer.restart();
    assert_eq!(pacer.frame_start, now);
    assert!(pacer.frame_start > started);
    assert!(pacer.rest() > 0);
}

#[test]
fn pacer_starts_at_the_reading_given() {
    let pacer = FramePacer::starting_at(12_345);
    assert_eq!(pacer.frame_start, 12_345);
    let early = FramePacer::starting_at(u64::MAX);
    assert_eq!(early.rest() as u64, FRAME_NS); // the clock stands before the start
}
