use rtqlib::runner::{is_overdue, watch, ChildStatus, Watch, WATCH_INTERVAL_MS};

#[test]
fn ticks_are_one_second_apart() {
    assert_eq!(WATCH_INTERVAL_MS, 1000);
}

#[test]
fn an_ended_child_ends_the_watch() {
    assert_eq!(watch(ChildStatus::Exited { success: true }, 0, 100, 100), Watch::Done);
    assert_eq!(watch(ChildStatus::Exited { success: false }, 0, 100, 200), Watch::Done);
    assert_eq!(watch(ChildStatus::Exited { success: false }, 5, 100, 200), Watch::Done);
}

#[test]
fn a_child_that_cannot_be_asked_ends_the_watch() {
    assert_eq!(watch(ChildStatus::Unknown, 0, 100, 100), Watch::Done);
    assert_eq!(watch(ChildStatus::Unknown, 5, 100, 200), Watch::Done);
}

#[test]
fn without_a_limit_the_runner_waits() {
    assert_eq!(watch(ChildStatus::Running, 0, 100, 100), Watch::Wait);
    assert_eq!(watch(ChildStatus::Running, 0, 100, 1_000_000), Watch::Wait);
    assert_eq!(watch(ChildStatus::Running, 0, 0, u64::MAX), Watch::Wait);
}

#[test]
fn the_kill_comes_at_the_first_tick_after_the_deadline() {
    assert_eq!(watch(ChildStatus::Running, 5, 100, 100), Watch::Wait);
    assert_eq!(watch(ChildStatus::Running, 5, 100, 104), Watch::Wait);
    assert_eq!(watch(ChildStatus::Running, 5, 100, 105), Watch::Wait);
    assert_eq!(watch(ChildStatus::Running, 5, 100, 106), Watch::Kill);
    assert_eq!(watch(ChildStatus::Running, 5, 100, 107), Watch::Kill);
}

#[test]
fn a_limit_of_one_second() {
    assert_eq!(watch(ChildStatus::Running, 1, 10, 11), Watch::Wait);
    assert_eq!(watch(ChildStatus::Running, 1, 10, 12), Watch::Kill);
}

#[test]
fn overdue_at_the_edges_of_the_clock() {
    assert!(!is_overdue(i64::MAX, u64::MAX, u64::MAX));
    assert!(!is_overdue(1, u64::MAX, u64::MAX));
    assert!(is_overdue(1, 0, u64::MAX));
    assert!(!is_overdue(i64::MAX, 0, 9_223_372_036_854_775_807));
    assert!(is_overdue(i64::MAX, 0, 9_223_372_036_854_775_808));
    assert!(!is_overdue(0, 0, u64::MAX));
}

#[test]
fn a_clock_that_went_back_kills_nothing() {
    assert!(!is_overdue(5, 100, 50));
    assert_eq!(watch(ChildStatus::Running, 5, 100, 50), Watch::Wait);
}

#[test]
fn a_negative_limit_has_run_out_at_once() {
    assert!(is_overdue(-1, 100, 100));
    assert!(!is_overdue(-1, 100, 99));
    assert!(is_overdue(i64::MIN, 0, 0));
}
