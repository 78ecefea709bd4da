use egresskeeper_core::time::now_unix_ms;

#[test]
fn now_is_close_to_itself() {
    let first = now_unix_ms().expect("clock is available");
    let second = now_unix_ms().expect("clock is available");

    assert!(second >= first);
    assert!(first > 1_600_000_000_000, "clock must be after 2020");
}
