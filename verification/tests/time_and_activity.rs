//! Timestamps, thresholds, and the arithmetic of last activity.

use archiver_core::activity::{
    find_last_commit_across_branches, find_latest_mtime, get_git_last_activity,
};
use archiver_core::classify::{filter_inactive_at, is_inactive_at};
use archiver_core::scan::get_last_activity;
use archiver_core::time::{MAX_UTC_SECONDS, MIN_UTC_SECONDS};
use archiver_core::{Error, Event, Probe, ScannedProject, Source, Timestamp};

const DAY: i64 = 86_400;

fn project(name: &str, secs: i64, nanos: u32) -> ScannedProject {
    ScannedProject {
        name: name.to_string(),
        path: format!("/p/{}", name),
        last_activity: Timestamp::new(secs, nanos),
    }
}

#[test]
fn unix_seconds_within_the_calendar_are_timestamps() {
    assert_eq!(Timestamp::from_unix_seconds(0), Some(Timestamp { secs: 0, nanos: 0 }));
    assert_eq!(
        Timestamp::from_unix_seconds(1_672_574_400),
        Some(Timestamp { secs: 1_672_574_400, nanos: 0 })
    );
    assert_eq!(Timestamp::from_unix_seconds(-1), Some(Timestamp { secs: -1, nanos: 0 }));
}

#[test]
fn unix_seconds_at_the_edges_of_the_calendar() {
    assert_eq!(
        Timestamp::from_unix_seconds(MIN_UTC_SECONDS),
        Some(Timestamp { secs: MIN_UTC_SECONDS, nanos: 0 })
    );
    assert_eq!(Timestamp::from_unix_seconds(MIN_UTC_SECONDS - 1), None);
    assert_eq!(
        Timestamp::from_unix_seconds(MAX_UTC_SECONDS),
        Some(Timestamp { secs: MAX_UTC_SECONDS, nanos: 0 })
    );
    assert_eq!(Timestamp::from_unix_seconds(MAX_UTC_SECONDS + 1), None);
    assert_eq!(Timestamp::from_unix_seconds(i64::MAX), None);
    assert_eq!(Timestamp::from_unix_seconds(i64::MIN), None);
}

#[test]
fn calendar_edges_are_the_ones_of_the_date_library() {
    assert_eq!(chrono::DateTime::<chrono::Utc>::MIN_UTC.timestamp(), MIN_UTC_SECONDS);
    assert_eq!(chrono::DateTime::<chrono::Utc>::MAX_UTC.timestamp(), MAX_UTC_SECONDS);
}

#[test]
fn threshold_is_strict() {
    let last = Timestamp::new(1_000_000, 500);
    let exactly = Timestamp::new(1_000_000 + 30 * DAY, 500);
    let just_over = Timestamp::new(1_000_000 + 30 * DAY, 501);
    let just_under = Timestamp::new(1_000_000 + 30 * DAY, 499);
    assert!(!exactly.exceeds_days(&last, 30));
    assert!(just_over.exceeds_days(&last, 30));
    assert!(!just_under.exceeds_days(&last, 30));
}

#[test]
fn threshold_of_zero_days_and_of_very_many() {
    let t = Timestamp::new(5, 0);
    assert!(!t.exceeds_days(&t, 0));
    assert!(Timestamp::new(5, 1).exceeds_days(&t, 0));
    assert!(!Timestamp::new(i64::MAX, 999_999_999).exceeds_days(&Timestamp::new(i64::MIN, 0), u64::MAX));
    assert!(Timestamp::new(i64::MAX, 0).exceeds_days(&Timestamp::new(i64::MIN, 0), 1));
}

#[test]
fn activity_in_the_future_is_never_inactive() {
    let now = Timestamp::new(1_000, 0);
    let later = Timestamp::new(1_000 + 400 * DAY, 0);
    assert!(!now.exceeds_days(&later, 0));
    assert!(!now.exceeds_days(&later, 30));
}

#[test]
fn later_of_two_timestamps() {
    assert!(Timestamp::new(2, 0).is_after(&Timestamp::new(1, 999_999_999)));
    assert!(Timestamp::new(1, 1).is_after(&Timestamp::new(1, 0)));
    assert!(!Timestamp::new(1, 0).is_after(&Timestamp::new(1, 0)));
    assert!(!Timestamp::new(-3, 0).is_after(&Timestamp::new(-2, 0)));
}

#[test]
fn latest_commit_is_the_maximum_over_all_branches() {
    assert_eq!(find_last_commit_across_branches(&vec![3, 9, 1]).unwrap(), 9);
    assert_eq!(find_last_commit_across_branches(&vec![-7]).unwrap(), -7);
    assert_eq!(find_last_commit_across_branches(&vec![4, 4]).unwrap(), 4);
}

#[test]
fn repository_without_commits_has_no_latest_commit() {
    match find_last_commit_across_branches(&vec![]) {
        Err(Error::Git(why)) => assert_eq!(why, "No commits found in any local branch"),
        other => panic!("expected a Git error, got {:?}", other),
    }
    assert!(matches!(get_git_last_activity(&vec![]), Err(Error::Git(_))));
}

#[test]
fn git_activity_is_the_latest_commit_time() {
    let activity = get_git_last_activity(&vec![1_600_000_000, 1_672_574_400, 12]).unwrap();
    assert_eq!(activity, Timestamp { secs: 1_672_574_400, nanos: 0 });
}

#[test]
fn commit_time_outside_the_calendar_is_invalid() {
    match get_git_last_activity(&vec![5, i64::MAX]) {
        Err(Error::Custom(why)) => assert_eq!(why, "Invalid commit time"),
        other => panic!("expected an invalid commit time, got {:?}", other),
    }
}

#[test]
fn latest_mtime_is_the_maximum() {
    let times = vec![Timestamp::new(10, 5), Timestamp::new(10, 900), Timestamp::new(9, 999_999_999)];
    assert_eq!(find_latest_mtime(&times), Some(Timestamp::new(10, 900)));
    assert_eq!(find_latest_mtime(&vec![]), None);
}

#[test]
fn latest_mtime_goes_by_the_instant() {
    // One second and no nanoseconds is later than no second and 999 999 999.
    let times = vec![Timestamp::new(0, 999_999_999), Timestamp::new(1, 0)];
    assert_eq!(find_latest_mtime(&times), Some(Timestamp::new(1, 0)));
    // Of two equally late entries the last one is given.
    let times = vec![Timestamp::new(1, 0), Timestamp::new(0, 1_000_000_000)];
    assert_eq!(find_latest_mtime(&times), Some(Timestamp::new(0, 1_000_000_000)));
}

#[test]
fn repository_answers_first() {
    let probe = get_last_activity(Source::Repository, &Event::BranchTips(vec![100, 50]));
    assert_eq!(probe, Probe::Known(Timestamp::new(100, 0)));
}

#[test]
fn failing_repository_hands_over_to_the_files() {
    assert_eq!(
        get_last_activity(Source::Repository, &Event::BranchTips(vec![])),
        Probe::Ask(Source::Files)
    );
    assert_eq!(
        get_last_activity(Source::Repository, &Event::BranchTips(vec![i64::MAX])),
        Probe::Ask(Source::Files)
    );
    assert_eq!(
        get_last_activity(Source::Repository, &Event::Failed(Error::Git("bad".to_string()))),
        Probe::Ask(Source::Files)
    );
}

#[test]
fn files_answer_with_their_latest_time_or_hand_over_to_the_directory() {
    let times = vec![Timestamp::new(7, 0), Timestamp::new(8, 1)];
    assert_eq!(
        get_last_activity(Source::Files, &Event::FileTimes(times)),
        Probe::Known(Timestamp::new(8, 1))
    );
    assert_eq!(
        get_last_activity(Source::Files, &Event::FileTimes(vec![])),
        Probe::Ask(Source::Directory)
    );
    assert_eq!(
        get_last_activity(Source::Directory, &Event::DirTime(Timestamp::new(3, 4))),
        Probe::Known(Timestamp::new(3, 4))
    );
}

#[test]
fn failure_of_both_leaves_the_activity_unknown() {
    assert_eq!(
        get_last_activity(Source::Files, &Event::Failed(Error::WalkDir("denied".to_string()))),
        Probe::Unknown
    );
    assert_eq!(
        get_last_activity(Source::Directory, &Event::Failed(Error::Io("denied".to_string()))),
        Probe::Unknown
    );
    assert_eq!(get_last_activity(Source::Directory, &Event::Done), Probe::Unknown);
}

#[test]
fn inactive_projects_are_exactly_those_past_the_threshold() {
    let now = Timestamp::new(100 * DAY, 0);
    let projects = vec![
        project("stale", 69 * DAY, 0),
        project("edge", 70 * DAY, 0),
        project("fresh", 99 * DAY, 0),
        project("barely", 70 * DAY - 1, 999_999_999),
        project("future", 101 * DAY, 0),
    ];
    assert!(is_inactive_at(&projects[0], now, 30));
    assert!(!is_inactive_at(&projects[1], now, 30));
    let inactive = filter_inactive_at(projects, now, 30);
    let names: Vec<&str> = inactive.iter().map(|p| p.name.as_str()).collect();
    assert_eq!(names, vec!["stale", "barely"]);
    assert_eq!(inactive[0].path, "/p/stale");
    assert_eq!(inactive[1].last_activity, Timestamp::new(70 * DAY - 1, 999_999_999));
}

#[test]
fn nothing_is_inactive_among_no_projects() {
    assert!(filter_inactive_at(vec![], Timestamp::new(0, 0), 0).is_empty());
}
