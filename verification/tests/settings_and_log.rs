//! Settings, errors, paths and the archive log.

use archiver_core::archive_log::{append_to_archive_log, find_record, read_archive_log};
use archiver_core::config::Overrides;
use archiver_core::scan::{admits_entry, find_next_candidate, is_candidate_entry};
use archiver_core::{
    Action, ArchivedRecord, Archiver, CleanupRule, DirEntry, Error, Event, ScannedProject,
    Settings, Timestamp,
};

fn record(name: &str, secs: i64) -> ArchivedRecord {
    ArchivedRecord {
        name: name.to_string(),
        original_path: format!("/projects/{}", name),
        archive_path: format!("/archive/{}", name),
        archived_at: Timestamp::new(secs, 0),
    }
}

fn entry(name: &str, is_dir: bool) -> DirEntry {
    DirEntry {
        name: name.to_string(),
        path: format!("/projects/{}", name),
        is_dir,
        has_git_dir: false,
    }
}

fn settings() -> Settings {
    Settings {
        projects_dir: "/projects".to_string(),
        archive_dir: "/projects/.archive".to_string(),
        exclude: vec!["keep".to_string(), "also_keep".to_string()],
        ..Default::default()
    }
}

#[test]
fn default_settings() {
    let s = Settings::default();
    assert_eq!(s.projects_dir, "");
    assert_eq!(s.archive_dir, "");
    assert_eq!(s.inactivity_days, 30);
    assert!(s.cleanup_rules.is_empty());
    assert!(!s.enable_auto_delete);
    assert_eq!(s.days_before_delete, 365);
    assert!(s.exclude.is_empty());
}

fn no_overrides() -> Overrides {
    Overrides {
        projects_dir: None,
        archive_dir: None,
        inactivity_days: None,
        cleanup_rules: None,
        enable_auto_delete: None,
        days_before_delete: None,
        exclude: None,
    }
}

#[test]
fn settings_of_a_user_who_configured_nothing() {
    let s = Settings::new("/home/alice", Some("/home/alice/Documents"), no_overrides());
    assert_eq!(s.projects_dir, "/home/alice/Documents/projects");
    assert_eq!(s.archive_dir, "/home/alice/.archive");
    assert_eq!(s.inactivity_days, 30);
    assert!(s.cleanup_rules.is_empty());
    assert!(!s.enable_auto_delete);
    assert_eq!(s.days_before_delete, 365);
    assert!(s.exclude.is_empty());
    let s = Settings::new("/home/bob", None, no_overrides());
    assert_eq!(s.projects_dir, "/home/bob/projects");
    assert_eq!(s.archive_dir, "/home/bob/.archive");
}

#[test]
fn configured_values_stand() {
    let overrides = Overrides {
        projects_dir: Some("/srv/code".to_string()),
        inactivity_days: Some(0),
        exclude: Some(vec!["keep".to_string()]),
        enable_auto_delete: Some(true),
        ..no_overrides()
    };
    let s = Settings::new("/home/alice", Some("/home/alice/Documents"), overrides);
    assert_eq!(s.projects_dir, "/srv/code");
    assert_eq!(s.archive_dir, "/home/alice/.archive");
    assert_eq!(s.inactivity_days, 0);
    assert_eq!(s.exclude, vec!["keep"]);
    assert!(s.enable_auto_delete);
    assert_eq!(s.days_before_delete, 365);

    let overrides = Overrides {
        archive_dir: Some("/mnt/attic".to_string()),
        days_before_delete: Some(10),
        cleanup_rules: Some(vec![CleanupRule {
            detection_file: "Cargo.toml".to_string(),
            folders_to_delete: vec!["target".to_string()],
        }]),
        ..no_overrides()
    };
    let s = Settings::new("/home/alice", None, overrides);
    assert_eq!(s.projects_dir, "/home/alice/projects");
    assert_eq!(s.archive_dir, "/mnt/attic");
    assert_eq!(s.days_before_delete, 10);
    assert_eq!(s.cleanup_rules[0].folders_to_delete, vec!["target"]);
}

#[test]
fn reconfigured_settings_keep_the_rest() {
    let mut old = settings();
    old.days_before_delete = 7;
    old.enable_auto_delete = true;
    old.cleanup_rules = vec![CleanupRule {
        detection_file: "package.json".to_string(),
        folders_to_delete: vec!["node_modules".to_string()],
    }];
    let s = Settings::reconfigured(Some(&old), "/a".to_string(), "/b".to_string(), 90);
    assert_eq!(s.projects_dir, "/a");
    assert_eq!(s.archive_dir, "/b");
    assert_eq!(s.inactivity_days, 90);
    assert_eq!(s.days_before_delete, 7);
    assert!(s.enable_auto_delete);
    assert_eq!(s.exclude, vec!["keep", "also_keep"]);
    assert_eq!(s.cleanup_rules.len(), 1);
    assert_eq!(s.cleanup_rules[0].detection_file, "package.json");
    assert_eq!(s.cleanup_rules[0].folders_to_delete, vec!["node_modules"]);

    let fresh = Settings::reconfigured(None, "/a".to_string(), "/b".to_string(), 1);
    assert_eq!(fresh.inactivity_days, 1);
    assert_eq!(fresh.days_before_delete, 365);
    assert!(fresh.exclude.is_empty());
}

#[test]
fn cloned_settings_are_equal_field_by_field() {
    let s = settings();
    let c = s.clone();
    assert_eq!(c.projects_dir, s.projects_dir);
    assert_eq!(c.archive_dir, s.archive_dir);
    assert_eq!(c.inactivity_days, s.inactivity_days);
    assert_eq!(c.exclude, s.exclude);
}

#[test]
fn exclusion_list_is_added_to_once() {
    let mut s = settings();
    assert!(s.is_excluded("keep"));
    assert!(!s.is_excluded("other"));
    assert!(s.exclude_project("other"));
    assert_eq!(s.exclude, vec!["keep", "also_keep", "other"]);
    assert!(!s.exclude_project("other"));
    assert_eq!(s.exclude, vec!["keep", "also_keep", "other"]);
    assert!(s.is_excluded("other"));
}

#[test]
fn exclusion_list_loses_the_first_entry_of_a_name() {
    let mut s = settings();
    s.exclude = vec!["a".to_string(), "b".to_string(), "a".to_string()];
    assert!(s.include_project("a"));
    assert_eq!(s.exclude, vec!["b", "a"]);
    assert!(!s.include_project("zzz"));
    assert_eq!(s.exclude, vec!["b", "a"]);
    assert!(s.include_project("a"));
    assert!(s.include_project("b"));
    assert!(s.exclude.is_empty());
    assert!(!s.include_project("b"));
}

#[test]
fn config_file_is_in_the_configuration_directory() {
    let path = Settings::config_path_from(Some("/home/alice/.config/archiver".to_string()));
    assert_eq!(path.unwrap(), "/home/alice/.config/archiver/settings.toml");
    assert!(matches!(Settings::config_path_from(None), Err(Error::HomeDirNotFound)));
}

#[test]
fn log_directory_is_the_state_directory() {
    let path = Settings::log_path_from(Some("/home/alice/.local/state/archiver".to_string()));
    assert_eq!(path.unwrap(), "/home/alice/.local/state/archiver");
    assert!(matches!(Settings::log_path_from(None), Err(Error::HomeDirNotFound)));
}

#[test]
fn platform_paths_fail_only_for_want_of_a_home() {
    match Settings::config_path() {
        Ok(path) => assert!(path.ends_with("settings.toml")),
        Err(e) => assert!(matches!(e, Error::HomeDirNotFound)),
    }
    if let Err(e) = Settings::log_path() {
        assert!(matches!(e, Error::HomeDirNotFound));
    }
}

#[test]
fn error_messages() {
    assert_eq!(Error::Io("denied".to_string()).message(), "I/O error: denied");
    assert_eq!(Error::Git("no repo".to_string()).message(), "Git error: no repo");
    assert_eq!(Error::Config("bad".to_string()).message(), "Settings error: bad");
    assert_eq!(Error::Json("eof".to_string()).message(), "Serialization error: eof");
    assert_eq!(Error::HomeDirNotFound.message(), "Home directory not found");
    assert_eq!(Error::Custom("just this".to_string()).message(), "just this");
    assert_eq!(Error::WalkDir("loop".to_string()).message(), "Failed to walk directory: loop");
    assert_eq!(
        Error::NotFound("demo".to_string()).message(),
        "Project 'demo' not found in archive log."
    );
}

#[test]
fn archive_log_is_a_file_in_the_archive_directory() {
    let archiver = Archiver::new(settings());
    assert_eq!(archiver.log_path(), "/projects/.archive/archive.json");
    match archiver.read_log_request() {
        Action::ReadLog { path } => assert_eq!(path, "/projects/.archive/archive.json"),
        other => panic!("unexpected request {:?}", other),
    }
    match archiver.write_archive_log(vec![record("a", 1)]) {
        Action::WriteLog { path, records } => {
            assert_eq!(path, "/projects/.archive/archive.json");
            assert_eq!(records.len(), 1);
            assert_eq!(records[0].name, "a");
        }
        other => panic!("unexpected request {:?}", other),
    }
    assert_eq!(archiver.settings().inactivity_days, 30);
}

#[test]
fn archived_project_goes_under_its_name_into_the_archive() {
    let archiver = Archiver::new(settings());
    let project = ScannedProject {
        name: "demo".to_string(),
        path: "/projects/demo".to_string(),
        last_activity: Timestamp::new(1, 0),
    };
    match archiver.archive_project(&project) {
        Action::MoveDir { from, to } => {
            assert_eq!(from, "/projects/demo");
            assert_eq!(to, "/projects/.archive/demo");
        }
        other => panic!("unexpected request {:?}", other),
    }
    let rec = archiver.archived_record(&project, Timestamp::new(1_700_000_000, 42));
    assert_eq!(rec.name, "demo");
    assert_eq!(rec.original_path, "/projects/demo");
    assert_eq!(rec.archive_path, "/projects/.archive/demo");
    assert_eq!(rec.archived_at, Timestamp::new(1_700_000_000, 42));
}

#[test]
fn missing_log_reads_as_empty() {
    let records = read_archive_log(Event::LogMissing).unwrap();
    assert!(records.is_empty());
}

#[test]
fn log_answers_read_as_records_or_errors() {
    let records = read_archive_log(Event::LogRecords(vec![record("a", 1), record("b", 2)])).unwrap();
    assert_eq!(records.len(), 2);
    assert_eq!(records[1].name, "b");
    match read_archive_log(Event::LogCorrupt("expected `,`".to_string())) {
        Err(Error::Json(why)) => assert_eq!(why, "expected `,`"),
        other => panic!("expected Json, got {:?}", other),
    }
    assert!(matches!(
        read_archive_log(Event::Failed(Error::Io("denied".to_string()))),
        Err(Error::Io(_))
    ));
    match read_archive_log(Event::Done) {
        Err(Error::Custom(why)) => assert_eq!(why, "Unexpected event"),
        other => panic!("expected Custom, got {:?}", other),
    }
}

#[test]
fn first_record_of_a_name_is_found() {
    let records = vec![record("a", 1), record("b", 2), record("a", 3)];
    assert_eq!(find_record(&records, "a"), Some(0));
    assert_eq!(find_record(&records, "b"), Some(1));
    assert_eq!(find_record(&records, "c"), None);
    assert_eq!(find_record(&vec![], "a"), None);
}

#[test]
fn appended_records_follow_the_existing_ones() {
    let all = append_to_archive_log(vec![record("a", 1)], vec![record("b", 2), record("c", 3)]);
    let names: Vec<&str> = all.iter().map(|r| r.name.as_str()).collect();
    assert_eq!(names, vec!["a", "b", "c"]);
    assert!(append_to_archive_log(vec![], vec![]).is_empty());
}

#[test]
fn candidates_are_directories_that_are_neither_excluded_nor_the_archive() {
    let s = settings();
    assert!(is_candidate_entry(&s, &entry("demo", true)));
    assert!(!is_candidate_entry(&s, &entry("demo", false)));
    assert!(!is_candidate_entry(&s, &entry("keep", true)));
    assert!(!is_candidate_entry(&s, &entry(".archive", true)));
    // Only the archive directory's own name counts, not its whole path.
    assert!(is_candidate_entry(&s, &entry("/projects/.archive", true)));
}

#[test]
fn entries_are_admitted_by_name_and_kind() {
    let s = settings();
    let archive = Some("attic".to_string());
    assert!(admits_entry(&archive, &s, &entry("demo", true)));
    assert!(!admits_entry(&archive, &s, &entry("attic", true)));
    assert!(!admits_entry(&archive, &s, &entry("keep", true)));
    assert!(!admits_entry(&archive, &s, &entry("demo", false)));
    assert!(admits_entry(&None, &s, &entry("attic", true)));
    assert!(admits_entry(&None, &s, &entry("", true)));
}

#[test]
fn next_candidate_skips_what_is_not_a_project() {
    let s = settings();
    let entries = vec![
        entry("keep", true),
        entry("notes.txt", false),
        entry("demo", true),
        entry(".archive", true),
        entry("other", true),
    ];
    assert_eq!(find_next_candidate(&s, &entries, 0), 2);
    assert_eq!(find_next_candidate(&s, &entries, 2), 2);
    assert_eq!(find_next_candidate(&s, &entries, 3), 4);
    assert_eq!(find_next_candidate(&s, &entries, 5), 5);
    assert_eq!(find_next_candidate(&s, &entries, 99), 5);
    assert_eq!(find_next_candidate(&s, &vec![], 0), 0);
}
