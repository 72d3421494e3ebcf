//! The manager's settings and the places where it keeps its files.

use crate::text::{chars_of, is_literal, lemma_occurs_at_suffix, matches_at, opt_text, texts};
use vstd::prelude::*;

verus! {

/// A place in the file system: a directory to start from, and the names to
/// go down through from there, one after the other.
#[derive(Clone, Debug)]
pub struct Location {
    pub base: String,
    pub segments: Vec<String>,
}

/// What a [`Location`] holds.
pub struct LocationView {
    pub base: Seq<char>,
    pub segments: Seq<Seq<char>>,
}

impl View for Location {
    type V = LocationView;

    open spec fn view(&self) -> LocationView {
        LocationView { base: self.base@, segments: texts(self.segments@) }
    }
}

impl Location {
    /// The directory `base` itself.
    pub fn at(base: &str) -> (l: Location)
        ensures
            l@ == (LocationView { base: base@, segments: Seq::<Seq<char>>::empty() }),
    {
        let l = Location { base: base.to_owned(), segments: Vec::new() };
        assert(texts(l.segments@) =~= Seq::<Seq<char>>::empty());
        l
    }

    /// This place, one name further down.
    pub fn join(self, name: &str) -> (l: Location)
        ensures
            l@ == (LocationView { base: self@.base, segments: self@.segments.push(name@) }),
    {
        let ghost before = texts(self.segments@);
        let mut segments = self.segments;
        segments.push(name.to_owned());
        assert(texts(segments@) =~= before.push(name@));
        Location { base: self.base, segments }
    }
}

/// The directory of the manager's own files, below the home directory.
pub const APP_DIR: &'static str = ".skills-manager";

/// The name of the settings file.
pub const CONFIG_FILE: &'static str = "config.json";

/// The name of the directory that holds skills.
pub const SKILLS_DIR: &'static str = "skills";

/// The repository that updates come from where none is set.
pub const DEFAULT_REPO: &'static str = "YOUR_USERNAME/skill-manager";

/// The manager's settings.
#[derive(Clone, Debug)]
pub struct Config {
    pub project_paths: Vec<String>,
    /// `"system"` or `"project"`.
    pub default_install_location: String,
    pub default_project_path: Option<String>,
    pub github_repo: Option<String>,
    /// When the settings were last written.
    pub updated_at: String,
}

/// What a [`Config`] holds.
pub struct ConfigView {
    pub project_paths: Seq<Seq<char>>,
    pub default_install_location: Seq<char>,
    pub default_project_path: Option<Seq<char>>,
    pub github_repo: Option<Seq<char>>,
    pub updated_at: Seq<char>,
}

impl View for Config {
    type V = ConfigView;

    open spec fn view(&self) -> ConfigView {
        ConfigView {
            project_paths: texts(self.project_paths@),
            default_install_location: self.default_install_location@,
            default_project_path: opt_text(self.default_project_path),
            github_repo: opt_text(self.github_repo),
            updated_at: self.updated_at@,
        }
    }
}

/// The skills directory below `base`.
pub open spec fn skills_below(base: Seq<char>) -> LocationView {
    LocationView { base, segments: seq![APP_DIR@, SKILLS_DIR@] }
}

/// Where skills are installed by default: into the default project where the
/// settings ask for a project and name one, else into the system directory
/// below the home directory.
pub open spec fn default_install_location(config: ConfigView, home: Seq<char>) -> LocationView {
    if config.default_install_location == "project"@ && config.default_project_path is Some {
        skills_below(config.default_project_path->0)
    } else {
        skills_below(home)
    }
}

impl Config {
    /// The settings of a first start, written at the time `now`.
    pub fn initial(now: String) -> (c: Config)
        ensures
            c@ == (ConfigView {
                project_paths: Seq::<Seq<char>>::empty(),
                default_install_location: "system"@,
                default_project_path: None,
                github_repo: Some(DEFAULT_REPO@),
                updated_at: now@,
            }),
    {
        let c = Config {
            project_paths: Vec::new(),
            default_install_location: "system".to_owned(),
            default_project_path: None,
            github_repo: Some(DEFAULT_REPO.to_owned()),
            updated_at: now,
        };
        assert(texts(c.project_paths@) =~= Seq::<Seq<char>>::empty());
        c
    }

    /// The directory of the manager's own files, below the home directory.
    pub fn app_data_dir(home: &str) -> (l: Location)
        ensures
            l@ == (LocationView { base: home@, segments: seq![APP_DIR@] }),
    {
        Location::at(home).join(APP_DIR)
    }

    /// The settings file, in the directory of the manager's own files.
    pub fn config_path(app_data_dir: Location) -> (l: Location)
        ensures
            l@ == (LocationView {
                base: app_data_dir@.base,
                segments: app_data_dir@.segments.push(CONFIG_FILE@),
            }),
    {
        app_data_dir.join(CONFIG_FILE)
    }

    /// These settings as they are written at the time `now`.
    pub fn stamped(self, now: String) -> (c: Config)
        ensures
            c@ == (ConfigView { updated_at: now@, ..self@ }),
    {
        Config {
            project_paths: self.project_paths,
            default_install_location: self.default_install_location,
            default_project_path: self.default_project_path,
            github_repo: self.github_repo,
            updated_at: now,
        }
    }
}

/// The directory of skills below `home`: for the home directory, the system
/// directory of skills.
pub fn get_system_skill_path(home: &str) -> (l: Location)
    ensures
        l@ == skills_below(home@),
{
    let l = Location::at(home).join(APP_DIR).join(SKILLS_DIR);
    assert(l@.segments =~= seq![APP_DIR@, SKILLS_DIR@]);
    l
}

/// Where skills are installed by default.
pub fn get_default_install_path(config: &Config, home: &str) -> (l: Location)
    ensures
        l@ == default_install_location(config@, home@),
{
    let kind = chars_of(config.default_install_location.as_str());
    if is_literal(&kind, "project") {
        match &config.default_project_path {
            Some(project) => {
                return get_system_skill_path(project.as_str());
            },
            None => {},
        }
    }
    get_system_skill_path(home)
}

/// What a first start does about the settings.
#[derive(Clone, Copy, Debug, PartialEq, Eq, Structural)]
pub enum InitAction {
    /// The settings file is there: nothing is fetched.
    Skip,
    /// What is fetched is an archive, to be unpacked into the manager's directory.
    Unpack,
    /// What is fetched is the settings file itself.
    Write,
}

/// What a first start does: nothing where the settings file exists; else it
/// fetches from `download_url`, an archive where the address ends in `.zip`.
pub open spec fn init_action(config_exists: bool, download_url: Seq<char>) -> InitAction {
    if config_exists {
        InitAction::Skip
    } else if ".zip"@.is_suffix_of(download_url) {
        InitAction::Unpack
    } else {
        InitAction::Write
    }
}

/// What a first start does about the settings.
pub fn initialize_if_needed(config_exists: bool, download_url: &str) -> (a: InitAction)
    ensures
        a == init_action(config_exists, download_url@),
{
    if config_exists {
        return InitAction::Skip;
    }
    let url = chars_of(download_url);
    let zip = chars_of(".zip");
    proof {
        lemma_occurs_at_suffix(url@, zip@, url@.len() as int);
        assert(url@.take(url@.len() as int) == url@);
    }
    if url.len() >= zip.len() && matches_at(&url, url.len() - zip.len(), &zip) {
        InitAction::Unpack
    } else {
        InitAction::Write
    }
}

} // verus!
