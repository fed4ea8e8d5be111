use audio_latency::barrier::ReadinessBarrier;

#[test]
fn a_barrier_for_no_worker_is_open_at_once() {
    let mut barrier = ReadinessBarrier::new(0);
    assert!(barrier.is_complete());
    assert_eq!(barrier.remaining(), 0);
    assert!(!barrier.record(true));
    assert!(barrier.is_complete());
    assert_eq!(barrier.successes(), 0);
}

#[test]
fn the_barrier_opens_with_the_last_message() {
    for workers in 0..20usize {
        for pattern in [0u32, u32::MAX, 0b0101_0101_0101_0101_0101, 0b0011_0110_1001_1100_0111] {
            let mut barrier = ReadinessBarrier::new(workers);
            let mut successes = 0;
            for sent in 0..workers {
                assert!(!barrier.is_complete());
                assert_eq!(barrier.remaining(), workers - sent);
                let success = (pattern >> sent) & 1 == 1;
                if success {
                    successes += 1;
                }
                assert!(barrier.record(success));
            }
            assert!(barrier.is_complete());
            assert_eq!(barrier.remaining(), 0);
            assert_eq!(barrier.workers(), workers);
            assert_eq!(barrier.successes(), successes);
        }
    }
}

#[test]
fn a_message_too_many_is_not_counted() {
    let mut barrier = ReadinessBarrier::new(2);
    assert!(barrier.record(true));
    assert!(barrier.record(false));
    let before = barrier;
    assert!(!barrier.record(true));
    assert_eq!(barrier, before);
    assert_eq!(barrier.successes(), 1);
    assert_eq!(barrier.remaining(), 0);
}
