//! The settings that an [`Archiver`](crate::Archiver) works from.

use crate::error::{Error, ErrorView};
use crate::paths::{join_path, joined_path};
use vstd::prelude::*;
use vstd::string::StringExecFns;

verus! {

/// The name of the configuration file inside the configuration directory.
pub const CONFIG_FILE_NAME: &'static str = "settings.toml";

/// The qualifier under which the platform files this application.
pub const APP_QUALIFIER: &'static str = "dev";

/// The organization under which the platform files this application.
pub const APP_AUTHOR: &'static str = "cuervolu";

/// The name under which the platform files this application.
pub const APP_NAME: &'static str = "archiver";

/// A rule for cleaning a project before it is archived. Reserved: the engine
/// does not act on it.
#[derive(Debug)]
pub struct CleanupRule {
    /// The file whose presence tells the kind of project, such as
    /// `package.json`.
    pub detection_file: String,
    /// The folders to delete, such as `node_modules`.
    pub folders_to_delete: Vec<String>,
}

/// The mathematical value of a [`CleanupRule`].
pub struct CleanupRuleView {
    pub detection_file: Seq<char>,
    pub folders_to_delete: Seq<Seq<char>>,
}

impl View for CleanupRule {
    type V = CleanupRuleView;

    open spec fn view(&self) -> CleanupRuleView {
        CleanupRuleView {
            detection_file: self.detection_file@,
            folders_to_delete: self.folders_to_delete.deep_view(),
        }
    }
}

impl DeepView for CleanupRule {
    type V = CleanupRuleView;

    open spec fn deep_view(&self) -> CleanupRuleView {
        self@
    }
}

impl Clone for CleanupRule {
    fn clone(&self) -> (copy: CleanupRule)
        ensures
            copy@ == self@,
    {
        let folders = self.folders_to_delete.clone();
        assert(folders.deep_view() =~= self.folders_to_delete.deep_view());
        CleanupRule { detection_file: self.detection_file.clone(), folders_to_delete: folders }
    }
}

/// Where the projects are, where they are archived, and when a project
/// counts as inactive.
#[derive(Debug)]
pub struct Settings {
    /// The directory whose immediate subdirectories are the projects.
    pub projects_dir: String,
    /// The directory into which inactive projects are moved.
    pub archive_dir: String,
    /// A project is inactive when more than this many days have passed since
    /// its last activity.
    pub inactivity_days: u64,
    /// Reserved: the engine does not act on it.
    pub cleanup_rules: Vec<CleanupRule>,
    /// Reserved: the engine does not act on it.
    pub enable_auto_delete: bool,
    /// Reserved: the engine does not act on it.
    pub days_before_delete: u64,
    /// Names of projects that are never archived.
    pub exclude: Vec<String>,
}

/// The mathematical value of [`Settings`].
pub struct SettingsView {
    pub projects_dir: Seq<char>,
    pub archive_dir: Seq<char>,
    pub inactivity_days: u64,
    pub cleanup_rules: Seq<CleanupRuleView>,
    pub enable_auto_delete: bool,
    pub days_before_delete: u64,
    pub exclude: Seq<Seq<char>>,
}

impl View for Settings {
    type V = SettingsView;

    open spec fn view(&self) -> SettingsView {
        SettingsView {
            projects_dir: self.projects_dir@,
            archive_dir: self.archive_dir@,
            inactivity_days: self.inactivity_days,
            cleanup_rules: self.cleanup_rules.deep_view(),
            enable_auto_delete: self.enable_auto_delete,
            days_before_delete: self.days_before_delete,
            exclude: self.exclude.deep_view(),
        }
    }
}

impl DeepView for Settings {
    type V = SettingsView;

    open spec fn deep_view(&self) -> SettingsView {
        self@
    }
}

impl Clone for Settings {
    fn clone(&self) -> (copy: Settings)
        ensures
            copy@ == self@,
    {
        let rules = self.cleanup_rules.clone();
        let exclude = self.exclude.clone();
        assert(rules.deep_view() =~= self.cleanup_rules.deep_view());
        assert(exclude.deep_view() =~= self.exclude.deep_view());
        Settings {
            projects_dir: self.projects_dir.clone(),
            archive_dir: self.archive_dir.clone(),
            inactivity_days: self.inactivity_days,
            cleanup_rules: rules,
            enable_auto_delete: self.enable_auto_delete,
            days_before_delete: self.days_before_delete,
            exclude,
        }
    }
}

impl Default for Settings {
    fn default() -> (s: Settings)
        ensures
            s@ == SettingsView::initial(),
    {
        let s = Settings {
            projects_dir: String::new(),
            archive_dir: String::new(),
            inactivity_days: 30,
            cleanup_rules: Vec::new(),
            enable_auto_delete: false,
            days_before_delete: 365,
            exclude: Vec::new(),
        };
        assert(s.cleanup_rules.deep_view() =~= Seq::empty());
        assert(s.exclude.deep_view() =~= Seq::empty());
        s
    }
}

/// What the configuration file and the environment say about the settings;
/// `None` where they say nothing.
#[derive(Debug)]
pub struct Overrides {
    pub projects_dir: Option<String>,
    pub archive_dir: Option<String>,
    pub inactivity_days: Option<u64>,
    pub cleanup_rules: Option<Vec<CleanupRule>>,
    pub enable_auto_delete: Option<bool>,
    pub days_before_delete: Option<u64>,
    pub exclude: Option<Vec<String>>,
}

/// The mathematical value of [`Overrides`].
pub struct OverridesView {
    pub projects_dir: Option<Seq<char>>,
    pub archive_dir: Option<Seq<char>>,
    pub inactivity_days: Option<u64>,
    pub cleanup_rules: Option<Seq<CleanupRuleView>>,
    pub enable_auto_delete: Option<bool>,
    pub days_before_delete: Option<u64>,
    pub exclude: Option<Seq<Seq<char>>>,
}

impl View for Overrides {
    type V = OverridesView;

    open spec fn view(&self) -> OverridesView {
        OverridesView {
            projects_dir: self.projects_dir.deep_view(),
            archive_dir: self.archive_dir.deep_view(),
            inactivity_days: self.inactivity_days,
            cleanup_rules: self.cleanup_rules.deep_view(),
            enable_auto_delete: self.enable_auto_delete,
            days_before_delete: self.days_before_delete,
            exclude: self.exclude.deep_view(),
        }
    }
}

/// The value that is configured, or the default where none is.
pub open spec fn configured<T>(value: Option<T>, default: T) -> T {
    match value {
        Some(v) => v,
        None => default,
    }
}

impl SettingsView {
    /// The settings before anything is configured: no directories, thirty
    /// days of inactivity, nothing excluded.
    pub open spec fn initial() -> SettingsView {
        SettingsView {
            projects_dir: Seq::empty(),
            archive_dir: Seq::empty(),
            inactivity_days: 30,
            cleanup_rules: Seq::empty(),
            enable_auto_delete: false,
            days_before_delete: 365,
            exclude: Seq::empty(),
        }
    }

    /// The settings of a user whose home directory is `home_dir`.
    ///
    /// Whatever the configuration says stands. Where it says nothing, the
    /// projects are in `projects` inside the documents directory, or inside
    /// the home directory where there is no documents directory; the archive
    /// is `.archive` inside the home directory; and the rest is as in the
    /// initial settings.
    pub open spec fn load(
        home_dir: Seq<char>,
        document_dir: Option<Seq<char>>,
        overrides: OverridesView,
    ) -> SettingsView {
        let initial = SettingsView::initial();
        SettingsView {
            projects_dir: configured(
                overrides.projects_dir,
                joined_path(configured(document_dir, home_dir), "projects"@),
            ),
            archive_dir: configured(overrides.archive_dir, joined_path(home_dir, ".archive"@)),
            inactivity_days: configured(overrides.inactivity_days, initial.inactivity_days),
            cleanup_rules: configured(overrides.cleanup_rules, initial.cleanup_rules),
            enable_auto_delete: configured(
                overrides.enable_auto_delete,
                initial.enable_auto_delete,
            ),
            days_before_delete: configured(
                overrides.days_before_delete,
                initial.days_before_delete,
            ),
            exclude: configured(overrides.exclude, initial.exclude),
        }
    }

    /// These settings with the two directories and the threshold replaced.
    pub open spec fn reconfigured(
        self,
        projects_dir: Seq<char>,
        archive_dir: Seq<char>,
        inactivity_days: u64,
    ) -> SettingsView {
        SettingsView { projects_dir, archive_dir, inactivity_days, ..self }
    }

    /// Whether `name` is on the exclusion list.
    pub open spec fn excludes(self, name: Seq<char>) -> bool {
        self.exclude.contains(name)
    }

    /// These settings with `name` added at the end of the exclusion list.
    pub open spec fn with_exclusion(self, name: Seq<char>) -> SettingsView {
        SettingsView { exclude: self.exclude.push(name), ..self }
    }

    /// These settings without the first entry of the exclusion list that is
    /// `name`; unchanged if there is none.
    pub open spec fn without_exclusion(self, name: Seq<char>) -> SettingsView {
        match self.exclude.index_of_first(name) {
            Some(i) => SettingsView { exclude: self.exclude.remove(i), ..self },
            None => self,
        }
    }
}
/// The configuration file's path, given the platform's configuration
/// directory for this application, if it has one.
pub open spec fn config_path_in(config_dir: Option<Seq<char>>) -> Result<Seq<char>, ErrorView> {
    match config_dir {
        Some(dir) => Ok(joined_path(dir, "settings.toml"@)),
        None => Err(ErrorView::HomeDirNotFound),
    }
}

/// The log directory, given the platform's state directory for this
/// application, if it has one.
pub open spec fn log_path_in(state_dir: Option<Seq<char>>) -> Result<Seq<char>, ErrorView> {
    match state_dir {
        Some(dir) => Ok(dir),
        None => Err(ErrorView::HomeDirNotFound),
    }
}

/// The mathematical value of a path or the error in its place.
pub open spec fn path_result_view(r: Result<String, Error>) -> Result<Seq<char>, ErrorView> {
    match r {
        Ok(path) => Ok(path@),
        Err(e) => Err(e@),
    }
}

impl Settings {
    /// The settings of a user whose home directory is `home_dir`, from what
    /// the configuration file and the environment say: see
    /// [`SettingsView::load`].
    pub fn new(home_dir: &str, document_dir: Option<&str>, overrides: Overrides) -> (s: Settings)
        ensures
            s@ == SettingsView::load(
                home_dir@,
                match document_dir {
                    Some(dir) => Some(dir@),
                    None => None,
                },
                overrides@,
            ),
    {
        let initial = Settings::default();
        Settings {
            projects_dir: match overrides.projects_dir {
                Some(dir) => dir,
                None => join_path(
                    match document_dir {
                        Some(dir) => dir,
                        None => home_dir,
                    },
                    "projects",
                ),
            },
            archive_dir: match overrides.archive_dir {
                Some(dir) => dir,
                None => join_path(home_dir, ".archive"),
            },
            inactivity_days: match overrides.inactivity_days {
                Some(days) => days,
                None => initial.inactivity_days,
            },
            cleanup_rules: match overrides.cleanup_rules {
                Some(rules) => rules,
                None => initial.cleanup_rules,
            },
            enable_auto_delete: match overrides.enable_auto_delete {
                Some(enabled) => enabled,
                None => initial.enable_auto_delete,
            },
            days_before_delete: match overrides.days_before_delete {
                Some(days) => days,
                None => initial.days_before_delete,
            },
            exclude: match overrides.exclude {
                Some(names) => names,
                None => initial.exclude,
            },
        }
    }

    /// New settings from the answers to the three questions that a user is
    /// asked. Everything else stays as it is in `existing`, or is as in the
    /// initial settings where there are none yet.
    pub fn reconfigured(
        existing: Option<&Settings>,
        projects_dir: String,
        archive_dir: String,
        inactivity_days: u64,
    ) -> (s: Settings)
        ensures
            s@ == (match existing {
                Some(old) => old@,
                None => SettingsView::initial(),
            }).reconfigured(projects_dir@, archive_dir@, inactivity_days),
    {
        let base = match existing {
            Some(old) => old.clone(),
            None => Settings::default(),
        };
        Settings {
            projects_dir,
            archive_dir,
            inactivity_days,
            cleanup_rules: base.cleanup_rules,
            enable_auto_delete: base.enable_auto_delete,
            days_before_delete: base.days_before_delete,
            exclude: base.exclude,
        }
    }

    /// Where `name` first stands on the exclusion list, if it does.
    fn exclusion_index(&self, name: &str) -> (found: Option<usize>)
        ensures
            found.is_some() == self@.excludes(name@),
            match found {
                Some(i) => i < self.exclude.len() && self@.exclude.index_of_first(name@) == Some(
                    i as int,
                ),
                None => self@.exclude.index_of_first(name@).is_none(),
            },
    {
        let wanted = String::from_str(name);
        let ghost names = self.exclude.deep_view();
        let mut i: usize = 0;
        while i < self.exclude.len()
            invariant
                i <= self.exclude.len(),
                names == self.exclude.deep_view(),
                wanted@ == name@,
                forall|j: int| 0 <= j < i ==> names[j] != name@,
            decreases self.exclude.len() - i,
        {
            assert(names[i as int] == self.exclude[i as int]@);
            if self.exclude[i] == wanted {
                proof {
                    assert(names[i as int] == name@);
                    names.index_of_first_ensures(name@);
                }
                return Some(i);
            }
            i += 1;
        }
        proof {
            names.index_of_first_ensures(name@);
        }
        None
    }

    /// Whether `name` is on the exclusion list.
    pub fn is_excluded(&self, name: &str) -> (r: bool)
        ensures
            r == self@.excludes(name@),
    {
        self.exclusion_index(name).is_some()
    }

    /// Puts `name` on the exclusion list unless it is there already, and
    /// says whether the list changed.
    pub fn exclude_project(&mut self, name: &str) -> (added: bool)
        ensures
            added == !old(self)@.excludes(name@),
            final(self)@ == if added {
                old(self)@.with_exclusion(name@)
            } else {
                old(self)@
            },
    {
        if self.is_excluded(name) {
            return false;
        }
        let ghost before = self.exclude.deep_view();
        self.exclude.push(String::from_str(name));
        assert(self.exclude.deep_view() =~= before.push(name@));
        true
    }

    /// Takes the first entry that is `name` off the exclusion list, and says
    /// whether there was one.
    pub fn include_project(&mut self, name: &str) -> (removed: bool)
        ensures
            removed == old(self)@.excludes(name@),
            final(self)@ == old(self)@.without_exclusion(name@),
    {
        match self.exclusion_index(name) {
            Some(i) => {
                let ghost before = self.exclude.deep_view();
                self.exclude.remove(i);
                assert(self.exclude.deep_view() =~= before.remove(i as int));
                true
            },
            None => false,
        }
    }

    /// The configuration file inside `config_dir`, the platform's
    /// configuration directory for this application; the error
    /// `HomeDirNotFound` where the platform has none.
    pub fn config_path_from(config_dir: Option<String>) -> (r: Result<String, Error>)
        ensures
            path_result_view(r) == config_path_in(config_dir.deep_view()),
    {
        match config_dir {
            Some(dir) => Ok(join_path(dir.as_str(), CONFIG_FILE_NAME)),
            None => Err(Error::HomeDirNotFound),
        }
    }

    /// The directory for log files: `state_dir`, the platform's state
    /// directory for this application; the error `HomeDirNotFound` where the
    /// platform has none.
    pub fn log_path_from(state_dir: Option<String>) -> (r: Result<String, Error>)
        ensures
            path_result_view(r) == log_path_in(state_dir.deep_view()),
    {
        match state_dir {
            Some(dir) => Ok(dir),
            None => Err(Error::HomeDirNotFound),
        }
    }

    /// The standard, platform-specific path of the configuration file.
    /// Which directory the platform gives is outside this library's
    /// knowledge; whatever it gives, the result is what
    /// [`Settings::config_path_from`] makes of it.
    pub fn config_path() -> (r: Result<String, Error>)
        ensures
            exists|config_dir: Option<Seq<char>>|
                path_result_view(r) == #[trigger] config_path_in(config_dir),
    {
        let config_dir = match project_dirs(APP_QUALIFIER, APP_AUTHOR, APP_NAME) {
            Some(dirs) => Some(project_config_dir(&dirs)),
            None => None,
        };
        let r = Self::config_path_from(config_dir);
        assert(path_result_view(r) == config_path_in(config_dir.deep_view()));
        r
    }

    /// The standard, platform-specific directory for log files. Whatever the
    /// platform gives, the result is what [`Settings::log_path_from`] makes
    /// of it.
    pub fn log_path() -> (r: Result<String, Error>)
        ensures
            exists|state_dir: Option<Seq<char>>|
                path_result_view(r) == #[trigger] log_path_in(state_dir),
    {
        let state_dir = match project_dirs(APP_QUALIFIER, APP_AUTHOR, APP_NAME) {
            Some(dirs) => project_state_dir(&dirs),
            None => None,
        };
        let r = Self::log_path_from(state_dir);
        assert(path_result_view(r) == log_path_in(state_dir.deep_view()));
        r
    }
}
#[verifier::external_type_specification]
#[verifier::external_body]
pub struct ExProjectDirs(directories::ProjectDirs);

/// `directories::ProjectDirs::from`.
///
/// Trusted, and nothing is claimed of the value: whether the platform knows
/// a home directory, and where, is for the environment to say.
#[verifier::external_body]
fn project_dirs(qualifier: &str, organization: &str, application: &str) -> (dirs: Option<
    directories::ProjectDirs,
>) {
    directories::ProjectDirs::from(qualifier, organization, application)
}

/// `directories::ProjectDirs::config_dir`, as text.
///
/// Trusted, and nothing is claimed of the value.
#[verifier::external_body]
fn project_config_dir(dirs: &directories::ProjectDirs) -> (dir: String) {
    dirs.config_dir().to_string_lossy().into_owned()
}

/// `directories::ProjectDirs::state_dir`, as text.
///
/// Trusted, and nothing is claimed of the value.
#[verifier::external_body]
fn project_state_dir(dirs: &directories::ProjectDirs) -> (dir: Option<String>) {
    match dirs.state_dir() {
        Some(path) => Some(path.to_string_lossy().into_owned()),
        None => None,
    }
}

} // verus!
