use llm_budget::clock::{epoch_millis, now_ms};

#[test]
fn a_clock_before_the_epoch_reads_zero() {
    assert_eq!(epoch_millis(None), 0);
}

#[test]
fn milliseconds_are_cut_off_not_rounded() {
    assert_eq!(epoch_millis(Some((0, 999_999))), 0);
    assert_eq!(epoch_millis(Some((0, 1_000_000))), 1);
    assert_eq!(epoch_millis(Some((1_700_000_000, 123_999_999))), 1_700_000_000_123);
}

#[test]
fn milliseconds_wrap_around_at_sixty_four_bits() {
    let expected = (u64::MAX as u128 * 1000 + 5) as u64;
    assert_eq!(epoch_millis(Some((u64::MAX, 5_000_000))), expected);
}

#[test]
fn the_clock_shows_a_recent_time() {
    let before = std::time::SystemTime::now()
        .duration_since(std::time::UNIX_EPOCH)
        .map(|d| d.as_millis() as u64)
        .unwrap_or(0);
    let now = now_ms();
    assert!(now >= before);
    assert!(now < before + 60_000);
}
