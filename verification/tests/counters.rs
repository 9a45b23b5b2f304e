use keyval_store::app_state::AppState;

#[test]
fn fresh_counters_are_zero() {
    let state = AppState::new();
    assert_eq!(state.get_reads(), 0);
    assert_eq!(state.get_writes(), 0);
}

#[test]
fn no_increment_is_lost() {
    let mut state = AppState::new();
    let n: u64 = 1000;
    for _ in 0..n {
        state.increment_writes();
    }
    assert_eq!(state.get_writes(), n);
    assert_eq!(state.get_reads(), 0);
}

#[test]
fn reads_and_writes_count_apart() {
    let mut state = AppState::new();
    state.increment_reads();
    state.increment_reads();
    state.increment_writes();
    assert_eq!(state.get_reads(), 2);
    assert_eq!(state.get_writes(), 1);
}

#[test]
fn startup_time_is_after_the_epoch() {
    let state = AppState::new();
    assert!(state.get_startup_unix_seconds() > 1_000_000_000);
}
