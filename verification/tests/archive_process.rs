//! Whole archive runs and restorations, against a file system held in memory.

use archiver_core::{
    Action, ActionPlan, ArchiveRun, ArchivedRecord, Archiver, DirEntry, Error, Event, Restoration,
    RestoreStep, RunStep, Settings, Timestamp,
};

const OLD_COMMIT: i64 = 1_672_574_400; // 2023-01-01T12:00:00Z

/// A directory on the pretended disk.
#[derive(Clone, Debug)]
struct Dir {
    path: String,
    has_git_dir: bool,
    /// Commit times of the local branch tips; `None` if the repository
    /// cannot be opened.
    tips: Option<Vec<i64>>,
    /// Modification times of the regular files below the directory.
    files: Vec<Timestamp>,
    modified: Timestamp,
}

#[derive(Clone, Debug)]
enum Log {
    Missing,
    Corrupt(String),
    Text(Vec<ArchivedRecord>),
}

/// A pretended disk: directories by path, and the archive log.
struct Disk {
    dirs: Vec<Dir>,
    plain_files: Vec<String>,
    log: Log,
    log_path: String,
    archive_read_only: bool,
    archive_dir: String,
    writes: usize,
}

fn now_seconds() -> i64 {
    std::time::SystemTime::now()
        .duration_since(std::time::UNIX_EPOCH)
        .unwrap()
        .as_secs() as i64
}

fn parent_of(path: &str) -> &str {
    match path.rfind('/') {
        Some(i) => &path[..i],
        None => "",
    }
}

fn name_of(path: &str) -> &str {
    match path.rfind('/') {
        Some(i) => &path[i + 1..],
        None => path,
    }
}

impl Disk {
    fn holds(&self, path: &str) -> bool {
        self.dirs.iter().any(|d| d.path == path)
    }

    fn perform(&mut self, action: Action) -> Event {
        match action {
            Action::ListProjects { dir } => {
                let mut entries = Vec::new();
                for d in &self.dirs {
                    if parent_of(&d.path) == dir {
                        entries.push(DirEntry {
                            name: name_of(&d.path).to_string(),
                            path: d.path.clone(),
                            is_dir: true,
                            has_git_dir: d.has_git_dir,
                        });
                    }
                }
                for f in &self.plain_files {
                    if parent_of(f) == dir {
                        entries.push(DirEntry {
                            name: name_of(f).to_string(),
                            path: f.clone(),
                            is_dir: false,
                            has_git_dir: false,
                        });
                    }
                }
                Event::Entries(entries)
            }
            Action::ReadBranchTips { repo } => {
                let dir = self.dirs.iter().find(|d| d.path == repo).unwrap();
                match &dir.tips {
                    Some(tips) => Event::BranchTips(tips.clone()),
                    None => Event::Failed(Error::Git("could not open repository".to_string())),
                }
            }
            Action::ReadFileTimes { dir } => {
                let dir = self.dirs.iter().find(|d| d.path == dir).unwrap();
                Event::FileTimes(dir.files.clone())
            }
            Action::ReadDirTime { dir } => {
                let dir = self.dirs.iter().find(|d| d.path == dir).unwrap();
                Event::DirTime(dir.modified)
            }
            Action::MoveDir { from, to } => {
                let into_archive = to.starts_with(&self.archive_dir);
                if (into_archive && self.archive_read_only) || self.holds(&to) {
                    return Event::Failed(Error::Io("Permission denied (os error 13)".to_string()));
                }
                match self.dirs.iter_mut().find(|d| d.path == from) {
                    Some(dir) => {
                        dir.path = to;
                        Event::Done
                    }
                    None => Event::Failed(Error::Io("No such file or directory".to_string())),
                }
            }
            Action::RemoveDir { path } => {
                let before = self.dirs.len();
                self.dirs.retain(|d| d.path != path);
                if self.dirs.len() < before {
                    Event::Done
                } else {
                    Event::Failed(Error::Io("No such file or directory".to_string()))
                }
            }
            Action::ReadLog { path } => {
                assert_eq!(path, self.log_path);
                match &self.log {
                    Log::Missing => Event::LogMissing,
                    Log::Corrupt(why) => Event::LogCorrupt(why.clone()),
                    Log::Text(records) => Event::LogRecords(records.clone()),
                }
            }
            Action::WriteLog { path, records } => {
                assert_eq!(path, self.log_path);
                if self.archive_read_only {
                    return Event::Failed(Error::Io("Permission denied (os error 13)".to_string()));
                }
                self.log = Log::Text(records);
                self.writes += 1;
                Event::Done
            }
        }
    }

    fn records(&self) -> Vec<ArchivedRecord> {
        match &self.log {
            Log::Text(records) => records.clone(),
            _ => Vec::new(),
        }
    }
}

fn git_dir(path: &str, tips: Vec<i64>, file_time: i64) -> Dir {
    Dir {
        path: path.to_string(),
        has_git_dir: true,
        tips: Some(tips),
        files: vec![Timestamp::new(file_time, 0)],
        modified: Timestamp::new(file_time, 0),
    }
}

/// Three projects: one whose last commit is old, one committed to just now,
/// and one repository without commits whose files are fresh.
fn setup_test_env() -> (Disk, Settings) {
    let now = now_seconds();
    let settings = Settings {
        projects_dir: "/work/projects".to_string(),
        archive_dir: "/work/archive".to_string(),
        inactivity_days: 30,
        ..Default::default()
    };
    let disk = Disk {
        dirs: vec![
            git_dir("/work/projects/old_project", vec![OLD_COMMIT], now),
            git_dir("/work/projects/new_project", vec![now], now),
            git_dir("/work/projects/empty_project", vec![], now),
        ],
        plain_files: vec!["/work/projects/notes.txt".to_string()],
        log: Log::Missing,
        log_path: "/work/archive/archive.json".to_string(),
        archive_read_only: false,
        archive_dir: "/work/archive".to_string(),
        writes: 0,
    };
    (disk, settings)
}

fn run_archive_process(
    archiver: &Archiver,
    disk: &mut Disk,
    dry_run: bool,
) -> Result<Vec<ActionPlan>, Error> {
    let (mut run, mut step): (ArchiveRun, RunStep) = archiver.run_archive_process(dry_run);
    loop {
        match step {
            RunStep::Finished(result) => return result,
            RunStep::Do(action) => {
                let event = disk.perform(action);
                (run, step) = archiver.continue_archive_process(run, event);
            }
        }
    }
}

fn drive(
    archiver: &Archiver,
    disk: &mut Disk,
    start: (Restoration, RestoreStep),
) -> Result<usize, Error> {
    let (mut state, mut step) = start;
    loop {
        match step {
            RestoreStep::Finished(result) => return result,
            RestoreStep::Do(action) => {
                let event = disk.perform(action);
                (state, step) = archiver.continue_restoration(state, event);
            }
        }
    }
}

fn get_archive_records(archiver: &Archiver, disk: &mut Disk) -> Result<Vec<ArchivedRecord>, Error> {
    let event = disk.perform(archiver.read_log_request());
    archiver.get_archive_records(event)
}

#[test]
fn it_archives_only_inactive_projects_on_real_run() {
    let (mut disk, settings) = setup_test_env();
    let archiver = Archiver::new(settings.clone());

    let result = run_archive_process(&archiver, &mut disk, false);
    assert!(result.is_ok());

    assert!(!disk.holds("/work/projects/old_project"));
    assert!(disk.holds("/work/archive/old_project"));

    assert!(disk.holds("/work/projects/new_project"));

    let log_content = get_archive_records(&archiver, &mut disk).unwrap();
    assert_eq!(log_content.len(), 1);
    assert!(log_content.iter().any(|r| r.name == "old_project"));
}

#[test]
fn it_ignores_empty_repositories_without_commits() {
    let (mut disk, settings) = setup_test_env();
    let archiver = Archiver::new(settings.clone());

    let result = run_archive_process(&archiver, &mut disk, false);
    assert!(result.is_ok()); // Should not error out

    assert!(
        disk.holds("/work/projects/empty_project"),
        "Empty project should be ignored and remain"
    );

    let log_content = get_archive_records(&archiver, &mut disk).unwrap();
    assert!(!log_content.iter().any(|r| r.name == "empty_project"));
}

#[test]
fn it_restores_an_archived_project() {
    let (mut disk, settings) = setup_test_env();
    let archiver = Archiver::new(settings.clone());
    run_archive_process(&archiver, &mut disk, false).unwrap();

    assert!(!disk.holds("/work/projects/old_project"));
    assert!(disk.holds("/work/archive/old_project"));

    let result = drive(&archiver, &mut disk, archiver.restore_project("old_project"));
    assert!(result.is_ok());

    assert!(disk.holds("/work/projects/old_project"));
    assert!(!disk.holds("/work/archive/old_project"));

    let log_content = get_archive_records(&archiver, &mut disk).unwrap();
    assert!(log_content.is_empty());
}

#[test]
fn real_run_returns_the_plan_and_writes_one_record() {
    let (mut disk, settings) = setup_test_env();
    let archiver = Archiver::new(settings);

    let plan = run_archive_process(&archiver, &mut disk, false).unwrap();
    assert_eq!(
        plan,
        vec![ActionPlan::Archive {
            project_name: "old_project".to_string(),
            path: "/work/projects/old_project".to_string(),
        }]
    );
    assert_eq!(disk.writes, 1);
    let records = disk.records();
    assert_eq!(records.len(), 1);
    assert_eq!(records[0].name, "old_project");
    assert_eq!(records[0].original_path, "/work/projects/old_project");
    assert_eq!(records[0].archive_path, "/work/archive/old_project");
    assert!(records[0].archived_at.secs >= now_seconds() - 60);
}

#[test]
fn dry_run_plans_without_touching_anything() {
    let (mut disk, settings) = setup_test_env();
    let archiver = Archiver::new(settings);

    let plan = run_archive_process(&archiver, &mut disk, true).unwrap();
    assert_eq!(
        plan,
        vec![ActionPlan::Archive {
            project_name: "old_project".to_string(),
            path: "/work/projects/old_project".to_string(),
        }]
    );
    assert!(disk.holds("/work/projects/old_project"));
    assert!(disk.holds("/work/projects/new_project"));
    assert!(disk.holds("/work/projects/empty_project"));
    assert!(!disk.holds("/work/archive/old_project"));
    assert!(matches!(disk.log, Log::Missing));
    assert_eq!(disk.writes, 0);
}

#[test]
fn run_with_nothing_inactive_reports_nothing() {
    let (mut disk, mut settings) = setup_test_env();
    settings.inactivity_days = 100_000;
    let archiver = Archiver::new(settings);

    let plan = run_archive_process(&archiver, &mut disk, false).unwrap();
    assert_eq!(plan, vec![ActionPlan::Nothing]);
    assert!(matches!(disk.log, Log::Missing));
    assert!(disk.holds("/work/projects/old_project"));
}

#[test]
fn excluded_project_is_never_archived() {
    let (mut disk, mut settings) = setup_test_env();
    settings.exclude = vec!["old_project".to_string()];
    let archiver = Archiver::new(settings);

    let plan = run_archive_process(&archiver, &mut disk, false).unwrap();
    assert_eq!(plan, vec![ActionPlan::Nothing]);
    assert!(disk.holds("/work/projects/old_project"));
    assert!(disk.records().is_empty());
}

#[test]
fn archive_nested_in_projects_is_not_scanned() {
    let (mut disk, mut settings) = setup_test_env();
    settings.archive_dir = "/work/projects/archive".to_string();
    disk.archive_dir = "/work/projects/archive".to_string();
    disk.log_path = "/work/projects/archive/archive.json".to_string();
    disk.dirs.push(git_dir("/work/projects/archive", vec![OLD_COMMIT], OLD_COMMIT));
    let archiver = Archiver::new(settings);

    let plan = run_archive_process(&archiver, &mut disk, false).unwrap();
    assert_eq!(plan.len(), 1);
    assert!(disk.holds("/work/projects/archive"));
    assert!(disk.holds("/work/projects/archive/old_project"));
}

#[test]
fn repository_that_cannot_be_opened_falls_back_to_file_times() {
    let (mut disk, settings) = setup_test_env();
    disk.dirs.push(Dir {
        path: "/work/projects/broken_repo".to_string(),
        has_git_dir: true,
        tips: None,
        files: vec![Timestamp::new(OLD_COMMIT, 0), Timestamp::new(OLD_COMMIT + 5, 7)],
        modified: Timestamp::new(now_seconds(), 0),
    });
    disk.dirs.push(Dir {
        path: "/work/projects/plain_old".to_string(),
        has_git_dir: false,
        tips: None,
        files: vec![],
        modified: Timestamp::new(OLD_COMMIT, 0),
    });
    let archiver = Archiver::new(settings);

    let plan = run_archive_process(&archiver, &mut disk, false).unwrap();
    let names: Vec<String> = plan
        .iter()
        .map(|p| match p {
            ActionPlan::Archive { project_name, .. } => project_name.clone(),
            ActionPlan::Nothing => String::new(),
        })
        .collect();
    assert_eq!(names, vec!["old_project", "broken_repo", "plain_old"]);
    assert_eq!(disk.records().len(), 3);
    assert_eq!(disk.writes, 1);
}

#[test]
fn run_appends_to_an_existing_log() {
    let (mut disk, settings) = setup_test_env();
    let earlier = ArchivedRecord {
        name: "ancient".to_string(),
        original_path: "/work/projects/ancient".to_string(),
        archive_path: "/work/archive/ancient".to_string(),
        archived_at: Timestamp::new(1_600_000_000, 0),
    };
    disk.log = Log::Text(vec![earlier]);
    let archiver = Archiver::new(settings);

    run_archive_process(&archiver, &mut disk, false).unwrap();
    let names: Vec<String> = disk.records().iter().map(|r| r.name.clone()).collect();
    assert_eq!(names, vec!["ancient", "old_project"]);
}

#[test]
fn get_archive_records_on_fresh_setup_is_empty() {
    let (mut disk, settings) = setup_test_env();
    let archiver = Archiver::new(settings);
    let records = get_archive_records(&archiver, &mut disk).unwrap();
    assert!(records.is_empty());
    assert!(matches!(disk.log, Log::Missing));
}

#[test]
fn core_fs_02_it_fails_gracefully_with_read_only_archive_dir() {
    let (mut disk, settings) = setup_test_env();
    let archiver = Archiver::new(settings.clone());
    disk.archive_read_only = true;

    let result = run_archive_process(&archiver, &mut disk, false);

    assert!(result.is_err(), "Expected archiving to fail due to permissions");
    let error = result.err().unwrap();
    assert!(matches!(error, Error::Io(_)), "Expected an I/O error");
    assert!(disk.holds("/work/projects/old_project"));
}

#[test]
fn core_l_01_it_fails_gracefully_with_corrupt_log_file() {
    let (mut disk, settings) = setup_test_env();
    disk.log = Log::Corrupt("key must be a string at line 1 column 2".to_string());
    let archiver = Archiver::new(settings);

    let result = run_archive_process(&archiver, &mut disk, false);

    assert!(result.is_err(), "Expected archiving to fail due to corrupt log");
    let error = result.err().unwrap();
    assert!(matches!(error, Error::Json(_)), "Expected a JSON deserialization error");
    assert!(matches!(disk.log, Log::Corrupt(_)));
    assert_eq!(disk.writes, 0);
}

#[test]
fn corrupt_log_fails_every_reader_and_is_left_alone() {
    let (mut disk, settings) = setup_test_env();
    disk.log = Log::Corrupt("expected value".to_string());
    let archiver = Archiver::new(settings);

    let listed = get_archive_records(&archiver, &mut disk);
    assert!(matches!(listed, Err(Error::Json(ref why)) if why == "expected value"));
    let restored = drive(&archiver, &mut disk, archiver.restore_project("old_project"));
    assert!(matches!(restored, Err(Error::Json(_))));
    let deleted = drive(&archiver, &mut disk, archiver.delete_all());
    assert!(matches!(deleted, Err(Error::Json(_))));
    assert!(matches!(disk.log, Log::Corrupt(_)));
    assert_eq!(disk.writes, 0);
}

#[test]
fn restore_of_unknown_project_is_not_found() {
    let (mut disk, settings) = setup_test_env();
    let archiver = Archiver::new(settings);
    run_archive_process(&archiver, &mut disk, false).unwrap();

    let result = drive(&archiver, &mut disk, archiver.restore_project("no_such_project"));
    match result {
        Err(Error::NotFound(name)) => assert_eq!(name, "no_such_project"),
        other => panic!("expected NotFound, got {:?}", other),
    }
    assert!(disk.holds("/work/archive/old_project"));
    assert_eq!(disk.records().len(), 1);
    assert_eq!(disk.writes, 1);
}

#[test]
fn restore_takes_the_first_record_of_a_name() {
    let (mut disk, settings) = setup_test_env();
    let first = ArchivedRecord {
        name: "twice".to_string(),
        original_path: "/work/projects/twice".to_string(),
        archive_path: "/work/archive/twice".to_string(),
        archived_at: Timestamp::new(1_600_000_000, 0),
    };
    let second = ArchivedRecord {
        name: "twice".to_string(),
        original_path: "/elsewhere/twice".to_string(),
        archive_path: "/work/archive/twice_again".to_string(),
        archived_at: Timestamp::new(1_700_000_000, 0),
    };
    disk.dirs.push(git_dir("/work/archive/twice", vec![1], 1));
    disk.dirs.push(git_dir("/work/archive/twice_again", vec![1], 1));
    disk.log = Log::Text(vec![first, second]);
    let archiver = Archiver::new(settings);

    let result = drive(&archiver, &mut disk, archiver.restore_project("twice"));
    assert_eq!(result.unwrap(), 1);
    assert!(disk.holds("/work/projects/twice"));
    assert!(disk.holds("/work/archive/twice_again"));
    let left = disk.records();
    assert_eq!(left.len(), 1);
    assert_eq!(left[0].original_path, "/elsewhere/twice");
}

#[test]
fn restore_all_restores_each_and_writes_the_log_each_time() {
    let (mut disk, mut settings) = setup_test_env();
    settings.inactivity_days = 0;
    let archiver = Archiver::new(settings);
    disk.dirs[1].tips = Some(vec![OLD_COMMIT + 1]);
    disk.dirs[2].files = vec![Timestamp::new(OLD_COMMIT + 2, 0)];
    let plan = run_archive_process(&archiver, &mut disk, false).unwrap();
    assert_eq!(plan.len(), 3);
    assert_eq!(disk.writes, 1);

    let count = drive(&archiver, &mut disk, archiver.restore_all()).unwrap();
    assert_eq!(count, 3);
    assert_eq!(disk.writes, 4);
    assert!(disk.records().is_empty());
    assert!(disk.holds("/work/projects/old_project"));
    assert!(disk.holds("/work/projects/new_project"));
    assert!(disk.holds("/work/projects/empty_project"));
}

#[test]
fn restore_all_on_empty_archive_restores_nothing() {
    let (mut disk, settings) = setup_test_env();
    let archiver = Archiver::new(settings);
    let count = drive(&archiver, &mut disk, archiver.restore_all()).unwrap();
    assert_eq!(count, 0);
    assert_eq!(disk.writes, 0);
}

#[test]
fn delete_project_removes_directory_and_record() {
    let (mut disk, settings) = setup_test_env();
    let archiver = Archiver::new(settings);
    run_archive_process(&archiver, &mut disk, false).unwrap();

    let count = drive(&archiver, &mut disk, archiver.delete_project("old_project")).unwrap();
    assert_eq!(count, 1);
    assert!(!disk.holds("/work/archive/old_project"));
    assert!(!disk.holds("/work/projects/old_project"));
    assert!(disk.records().is_empty());
}

#[test]
fn delete_all_stops_at_the_first_failure_with_a_consistent_log() {
    let (mut disk, mut settings) = setup_test_env();
    settings.inactivity_days = 0;
    let archiver = Archiver::new(settings);
    disk.dirs[1].tips = Some(vec![OLD_COMMIT + 1]);
    disk.dirs[2].files = vec![Timestamp::new(OLD_COMMIT + 2, 0)];
    run_archive_process(&archiver, &mut disk, false).unwrap();
    // The second archived directory vanishes behind the archiver's back.
    disk.dirs.retain(|d| d.path != "/work/archive/new_project");

    let result = drive(&archiver, &mut disk, archiver.delete_all());
    assert!(matches!(result, Err(Error::Io(_))));
    let names: Vec<String> = disk.records().iter().map(|r| r.name.clone()).collect();
    assert_eq!(names, vec!["new_project", "empty_project"]);
}

#[test]
fn failed_listing_fails_the_run() {
    let settings = Settings {
        projects_dir: "/gone".to_string(),
        archive_dir: "/work/archive".to_string(),
        ..Default::default()
    };
    let archiver = Archiver::new(settings);
    let (run, step) = archiver.run_archive_process(true);
    match step {
        RunStep::Do(Action::ListProjects { dir }) => assert_eq!(dir, "/gone"),
        other => panic!("unexpected first step {:?}", other),
    }
    let (run, step) = archiver.continue_archive_process(
        run,
        Event::Failed(Error::WalkDir("IO error for operation on /gone".to_string())),
    );
    assert!(matches!(step, RunStep::Finished(Err(Error::WalkDir(_)))));
    assert!(matches!(run, ArchiveRun::Closed));
    let (_, step) = archiver.continue_archive_process(run, Event::Done);
    assert!(matches!(step, RunStep::Finished(Err(Error::Custom(_)))));
}
