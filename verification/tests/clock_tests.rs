use pair_arbitrage::clock::elapsed_ms;

#[test]
fn elapsed_counts_forward() {
    assert_eq!(elapsed_ms(1_000, 1_000), 0);
    assert_eq!(elapsed_ms(1_000, 61_000), 60_000);
    assert_eq!(elapsed_ms(0, u64::MAX), u64::MAX);
}

#[test]
fn elapsed_is_zero_when_the_clock_went_back() {
    assert_eq!(elapsed_ms(61_000, 1_000), 0);
    assert_eq!(elapsed_ms(u64::MAX, 0), 0);
}
