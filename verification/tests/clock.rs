use git_branch_deleter::clock::{local_commit_time, EARLIEST_SECOND, LATEST_SECOND};

#[test]
fn offset_is_added_in_minutes() {
    assert_eq!(local_commit_time(1_000, 60), Some(4_600));
    assert_eq!(local_commit_time(1_431_648_000, 120), Some(1_431_655_200));
    assert_eq!(local_commit_time(1_431_648_000, 1), Some(1_431_648_060));
}

#[test]
fn negative_offset_moves_the_time_back() {
    assert_eq!(local_commit_time(1_000, -60), Some(-2_600));
    assert_eq!(local_commit_time(1_431_648_000, -480), Some(1_431_619_200));
}

#[test]
fn no_offset_leaves_the_seconds() {
    assert_eq!(local_commit_time(0, 0), Some(0));
    assert_eq!(local_commit_time(-1, 0), Some(-1));
    assert_eq!(local_commit_time(86_399, 0), Some(86_399));
}

#[test]
fn times_before_the_epoch() {
    assert_eq!(local_commit_time(-86_400, 30), Some(-84_600));
    assert_eq!(local_commit_time(30, -1), Some(-30));
}

#[test]
fn widest_offsets() {
    assert_eq!(local_commit_time(0, i32::MAX), Some(128_849_018_820));
    assert_eq!(local_commit_time(0, i32::MIN), Some(-128_849_018_880));
}

#[test]
fn bounds_of_the_calendar() {
    assert_eq!(EARLIEST_SECOND, -8_334_601_228_800);
    assert_eq!(LATEST_SECOND, 8_210_266_876_799);
    assert_eq!(local_commit_time(LATEST_SECOND, 0), Some(LATEST_SECOND));
    assert_eq!(local_commit_time(EARLIEST_SECOND, 0), Some(EARLIEST_SECOND));
}

#[test]
fn seconds_beyond_the_calendar_have_no_time() {
    assert_eq!(local_commit_time(LATEST_SECOND + 1, 0), None);
    assert_eq!(local_commit_time(EARLIEST_SECOND - 1, 0), None);
    assert_eq!(local_commit_time(i64::MAX, 0), None);
    assert_eq!(local_commit_time(i64::MIN, 0), None);
    assert_eq!(local_commit_time(LATEST_SECOND + 60, -1), None);
    assert_eq!(local_commit_time(EARLIEST_SECOND - 60, 1), None);
}

#[test]
fn wall_clock_beyond_the_calendar_has_no_time() {
    assert_eq!(local_commit_time(LATEST_SECOND, 1), None);
    assert_eq!(local_commit_time(LATEST_SECOND - 59, 1), None);
    assert_eq!(local_commit_time(LATEST_SECOND - 60, 1), Some(LATEST_SECOND));
    assert_eq!(local_commit_time(EARLIEST_SECOND, -1), None);
    assert_eq!(local_commit_time(EARLIEST_SECOND + 59, -1), None);
    assert_eq!(local_commit_time(EARLIEST_SECOND + 60, -1), Some(EARLIEST_SECOND));
}
