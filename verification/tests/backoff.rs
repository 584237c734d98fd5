use dslite_b4::backoff::retry_delay_secs;

#[test]
fn retry_delay_doubles_then_caps_at_thirty() {
    assert_eq!(retry_delay_secs(0), 1);
    assert_eq!(retry_delay_secs(1), 2);
    assert_eq!(retry_delay_secs(2), 4);
    assert_eq!(retry_delay_secs(3), 8);
    assert_eq!(retry_delay_secs(4), 16);
    assert_eq!(retry_delay_secs(5), 30);
    assert_eq!(retry_delay_secs(6), 30);
    assert_eq!(retry_delay_secs(u64::MAX), 30);
}

#[test]
fn retry_delay_never_decreases() {
    let mut last = 0;
    for attempt in 0..100 {
        let d = retry_delay_secs(attempt);
        assert!(d >= last && d <= 30);
        last = d;
    }
}
