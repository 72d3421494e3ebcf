//! Installing and removing skills: what is decided before and after the
//! files are touched.

use crate::agents::PrimaryAgent;
use crate::config::{Location, LocationView, SKILLS_DIR};
use crate::security::{ReportView, SecurityReport};
use crate::text::{
    append_chars, append_literal, chars_of, contains_literal, contains_text, join, join_range,
    rows, skip_trailing, slice_of, split, split_on, to_string, trim_end, CharClass,
};
use vstd::prelude::*;

verus! {

/// The answer to a request that installs or removes a skill.
#[derive(Clone, Debug)]
pub struct ImportResult {
    pub success: bool,
    pub message: String,
    pub blocked: bool,
}

impl ImportResult {
    /// The answer to a request that failed, with the reason.
    pub fn failure(message: String) -> (r: ImportResult)
        ensures
            !r.success,
            !r.blocked,
            r.message == message,
    {
        ImportResult { success: false, message, blocked: false }
    }

    /// The answer to a request that was carried out.
    pub fn done(message: String) -> (r: ImportResult)
        ensures
            r.success,
            !r.blocked,
            r.message == message,
    {
        ImportResult { success: true, message, blocked: false }
    }
}

/// How a skill is fetched from GitHub.
#[derive(Clone, Debug)]
pub enum ImportPlan {
    /// The whole repository at `url` is cloned into the directory `skill_name`.
    Whole { skill_name: String, url: String },
    /// The directory `subpath` of the branch `branch` is checked out from the
    /// repository at `repo_base` and moved to the directory `skill_name`.
    Sparse { skill_name: String, repo_base: String, branch: String, subpath: String },
}

/// What an [`ImportPlan`] holds.
pub enum PlanView {
    Whole { skill_name: Seq<char>, url: Seq<char> },
    Sparse { skill_name: Seq<char>, repo_base: Seq<char>, branch: Seq<char>, subpath: Seq<char> },
}

impl View for ImportPlan {
    type V = PlanView;

    open spec fn view(&self) -> PlanView {
        match self {
            ImportPlan::Whole { skill_name, url } => PlanView::Whole {
                skill_name: skill_name@,
                url: url@,
            },
            ImportPlan::Sparse { skill_name, repo_base, branch, subpath } => PlanView::Sparse {
                skill_name: skill_name@,
                repo_base: repo_base@,
                branch: branch@,
                subpath: subpath@,
            },
        }
    }
}

/// Why an address gives no plan.
#[derive(Clone, Copy, Debug, PartialEq, Eq, Structural)]
pub enum PlanError {
    /// The address has fewer than five parts: it names no repository.
    InvalidUrl,
    /// The address points into a tree and names no branch to take it from.
    NoBranch,
}

/// What is said of an address that names no repository.
pub const INVALID_URL: &'static str = "Invalid GitHub URL";

/// The fewest parts of an address that names a repository: scheme, nothing,
/// host, owner and repository.
pub const REPO_PARTS: usize = 5;

/// The fewest parts of an address that points into a tree: those of the
/// repository, `tree` and the branch.
pub const TREE_PARTS: usize = 7;

/// How the skill at an address is fetched.
///
/// The address is split at its slashes, slashes at its end left aside. An
/// address with `/tree/` in it points into a repository: the skill is named
/// after its last part and lies in the directory that follows the branch. Any
/// other address names a whole repository, and the skill is named after it.
pub open spec fn import_plan(url: Seq<char>) -> Result<PlanView, PlanError> {
    let parts = split(trim_end(url, CharClass::Only('/')), '/');
    if parts.len() < REPO_PARTS {
        Err(PlanError::InvalidUrl)
    } else if !contains_text(url, "/tree/"@) {
        Ok(PlanView::Whole { skill_name: parts[4], url })
    } else if parts.len() < TREE_PARTS {
        Err(PlanError::NoBranch)
    } else {
        Ok(
            PlanView::Sparse {
                skill_name: parts.last(),
                repo_base: "https://github.com/"@ + parts[3] + "/"@ + parts[4],
                branch: parts[6],
                subpath: join(parts.skip(TREE_PARTS as int), "/"@),
            },
        )
    }
}

/// The view of what `plan_github_import` gives.
pub open spec fn plan_view(r: Result<ImportPlan, PlanError>) -> Result<PlanView, PlanError> {
    match r {
        Ok(p) => Ok(p@),
        Err(e) => Err(e),
    }
}

/// How the skill at an address is fetched.
pub fn plan_github_import(repo_url: &str) -> (r: Result<ImportPlan, PlanError>)
    ensures
        plan_view(r) == import_plan(repo_url@),
{
    let url = chars_of(repo_url);
    let end = skip_trailing(&url, 0, url.len(), CharClass::Only('/'));
    assert(url@.subrange(0, url.len() as int) == url@);
    let bare = slice_of(&url, 0, end);
    assert(url@.subrange(0, end as int) == url@.take(end as int));
    let parts = split_on(&bare, '/');
    let ghost all = rows(parts@);
    assert(all.len() == parts@.len());
    if parts.len() < REPO_PARTS {
        return Err(PlanError::InvalidUrl);
    }
    assert(all[3] == parts@[3]@);
    assert(all[4] == parts@[4]@);
    if !contains_literal(&url, "/tree/") {
        return Ok(ImportPlan::Whole { skill_name: to_string(&parts[4]), url: to_string(&url) });
    }
    if parts.len() < TREE_PARTS {
        return Err(PlanError::NoBranch);
    }
    assert(all[6] == parts@[6]@);
    assert(all.last() == parts@[parts@.len() - 1]@);
    let mut base = chars_of("https://github.com/");
    append_chars(&mut base, &parts[3]);
    append_literal(&mut base, "/");
    append_chars(&mut base, &parts[4]);
    let sep = chars_of("/");
    let subpath = join_range(&parts, TREE_PARTS, parts.len(), &sep);
    assert(all.subrange(TREE_PARTS as int, parts.len() as int) == all.skip(TREE_PARTS as int));
    Ok(
        ImportPlan::Sparse {
            skill_name: to_string(&parts[parts.len() - 1]),
            repo_base: to_string(&base),
            branch: to_string(&parts[6]),
            subpath: to_string(&subpath),
        },
    )
}

/// The directory into which skills are installed: the primary agent's
/// skills directory in the project at `install_path` where one is given, else
/// the one below the home directory; `None` where neither is known.
pub open spec fn install_location(
    primary: PrimaryAgent,
    install_path: Option<Seq<char>>,
    home: Option<Seq<char>>,
) -> Option<LocationView> {
    match install_path {
        Some(p) => Some(LocationView { base: p, segments: seq![primary.dir@, SKILLS_DIR@] }),
        None => match home {
            Some(h) => Some(LocationView { base: h, segments: seq![primary.skills_dir@] }),
            None => None,
        },
    }
}

/// The view of an optional location.
pub open spec fn opt_location(l: Option<Location>) -> Option<LocationView> {
    match l {
        Some(x) => Some(x@),
        None => None,
    }
}

/// The view of an optional borrowed text.
pub open spec fn opt_str(s: Option<&str>) -> Option<Seq<char>> {
    match s {
        Some(x) => Some(x@),
        None => None,
    }
}

/// The directory into which skills are installed.
pub fn install_dir(primary: &PrimaryAgent, install_path: Option<&str>, home: Option<&str>) -> (l:
    Option<Location>)
    ensures
        opt_location(l) == install_location(*primary, opt_str(install_path), opt_str(home)),
{
    match install_path {
        Some(p) => {
            let l = Location::at(p).join(primary.dir.as_str()).join(SKILLS_DIR);
            assert(l@.segments =~= seq![primary.dir@, SKILLS_DIR@]);
            Some(l)
        },
        None => match home {
            Some(h) => {
                let l = Location::at(h).join(primary.skills_dir.as_str());
                assert(l@.segments =~= seq![primary.skills_dir@]);
                Some(l)
            },
            None => None,
        },
    }
}

/// A request to remove an installed skill.
#[derive(Clone, Debug)]
pub struct UninstallRequest {
    pub skill_path: String,
}

/// What is said of a request that names no path.
pub const PATH_IS_EMPTY: &'static str = "Skill path is empty";

/// What is said of a path at which nothing is.
pub const PATH_IS_MISSING: &'static str = "Skill path does not exist: ";

/// What opens the message about a path outside the skills directories.
pub const PATH_IS_FOREIGN: &'static str = "Invalid skill path - must be in ";

/// What closes that message, after the name of the skills directory.
pub const PATH_IS_FOREIGN_END: &'static str = " directory";

/// What is said after a skill was removed.
pub const UNINSTALLED: &'static str = "Skill uninstalled successfully";

/// What is said when a skill could not be removed.
pub const REMOVAL_FAILED: &'static str = "Failed to remove skill: ";

/// Why the skill at `path` is not removed, if it is not: the path is empty,
/// nothing is there, or it names neither the primary agent's directory nor a
/// skills directory.
pub open spec fn uninstall_refusal(primary: PrimaryAgent, path: Seq<char>, exists: bool) -> Option<
    Seq<char>,
> {
    if path.len() == 0 {
        Some(PATH_IS_EMPTY@)
    } else if !exists {
        Some(PATH_IS_MISSING@ + path)
    } else if !contains_text(path, primary.dir@) || !contains_text(path, SKILLS_DIR@) {
        Some(PATH_IS_FOREIGN@ + primary.skills_dir@ + PATH_IS_FOREIGN_END@)
    } else {
        None
    }
}

/// The answer to a request to remove a skill that is refused; `None` where
/// the skill is to be removed.
pub fn uninstall_skill(primary: &PrimaryAgent, request: &UninstallRequest, exists: bool) -> (r:
    Option<ImportResult>)
    ensures
        match r {
            Some(result) => !result.success && !result.blocked && uninstall_refusal(
                *primary,
                request.skill_path@,
                exists,
            ) == Some(result.message@),
            None => uninstall_refusal(*primary, request.skill_path@, exists) is None,
        },
{
    let path = chars_of(request.skill_path.as_str());
    if path.len() == 0 {
        return Some(ImportResult::failure(PATH_IS_EMPTY.to_owned()));
    }
    if !exists {
        let mut msg = chars_of(PATH_IS_MISSING);
        append_chars(&mut msg, &path);
        return Some(ImportResult::failure(to_string(&msg)));
    }
    if !contains_literal(&path, primary.dir.as_str()) || !contains_literal(&path, SKILLS_DIR) {
        let mut msg = chars_of(PATH_IS_FOREIGN);
        append_literal(&mut msg, primary.skills_dir.as_str());
        append_literal(&mut msg, PATH_IS_FOREIGN_END);
        return Some(ImportResult::failure(to_string(&msg)));
    }
    None
}

/// The answer to a request to remove a skill, once removing it was tried;
/// `error` is what went wrong, if anything did.
pub fn removal_result(error: Option<&str>) -> (r: ImportResult)
    ensures
        !r.blocked,
        r.success == (error is None),
        r.message@ == match error {
            Some(e) => REMOVAL_FAILED@ + e@,
            None => UNINSTALLED@,
        },
{
    match error {
        Some(e) => {
            let mut msg = chars_of(REMOVAL_FAILED);
            append_literal(&mut msg, e);
            ImportResult::failure(to_string(&msg))
        },
        None => ImportResult::done(UNINSTALLED.to_owned()),
    }
}

/// A request to install a skill from GitHub.
#[derive(Clone, Debug)]
pub struct ImportGithubRequest {
    pub repo_url: String,
    pub install_path: Option<String>,
    pub skip_security_check: Option<bool>,
}

impl ImportGithubRequest {
    /// Whether what is fetched is screened: always, unless the request asks
    /// to leave the check out.
    pub fn wants_scan(&self) -> (b: bool)
        ensures
            b == !(self.skip_security_check == Some(true)),
    {
        match self.skip_security_check {
            Some(skip) => !skip,
            None => true,
        }
    }
}

/// A request to install a skill from a local directory.
#[derive(Clone, Debug)]
pub struct ImportLocalRequest {
    pub source_path: String,
    pub install_path: Option<String>,
    pub skill_name: String,
}

/// The answer to a request to install a skill.
#[derive(Clone, Debug)]
pub struct ImportResponse {
    pub success: bool,
    pub message: String,
    pub skill_name: String,
    pub security_report: Option<SecurityReport>,
    pub blocked: bool,
}

/// What an [`ImportResponse`] holds.
pub struct ResponseView {
    pub success: bool,
    pub message: Seq<char>,
    pub skill_name: Seq<char>,
    pub security_report: Option<ReportView>,
    pub blocked: bool,
}

impl View for ImportResponse {
    type V = ResponseView;

    open spec fn view(&self) -> ResponseView {
        ResponseView {
            success: self.success,
            message: self.message@,
            skill_name: self.skill_name@,
            security_report: match self.security_report {
                Some(r) => Some(r@),
                None => None,
            },
            blocked: self.blocked,
        }
    }
}

/// What is said of a skill that the screening blocks.
pub const BLOCKED: &'static str = "Skill blocked due to security issues";

/// What is said of a skill that was installed.
pub const IMPORTED: &'static str = "Successfully imported skill: ";

/// What is said of a source directory that is not there.
pub const SOURCE_IS_MISSING: &'static str = "Source path does not exist: ";

/// The answer to a request to install the skill `skill_name`, given the
/// report of its screening where it was screened: a skill that the report
/// blocks is refused, and the report goes with the answer either way.
pub open spec fn import_answer(skill_name: Seq<char>, report: Option<ReportView>) -> ResponseView {
    let blocked = report is Some && report->0.blocked;
    ResponseView {
        success: !blocked,
        message: if blocked {
            BLOCKED@
        } else {
            IMPORTED@ + skill_name
        },
        skill_name,
        security_report: report,
        blocked,
    }
}

/// The answer to a request to install a skill from GitHub, once it is
/// fetched and, unless the request left that out, screened. A skill that is
/// refused is to be removed again.
pub fn import_github_skill(skill_name: &str, report: Option<SecurityReport>) -> (r: ImportResponse)
    ensures
        r@ == import_answer(
            skill_name@,
            match report {
                Some(x) => Some(x@),
                None => None,
            },
        ),
{
    let blocked = match &report {
        Some(x) => x.blocked,
        None => false,
    };
    let message = if blocked {
        BLOCKED.to_owned()
    } else {
        let mut msg = chars_of(IMPORTED);
        append_literal(&mut msg, skill_name);
        to_string(&msg)
    };
    ImportResponse {
        success: !blocked,
        message,
        skill_name: skill_name.to_owned(),
        security_report: report,
        blocked,
    }
}

/// How copying a local directory went.
#[derive(Clone, Debug)]
pub enum CopyOutcome {
    /// The source directory is not there; nothing was copied.
    SourceMissing,
    /// Copying failed, with the reason.
    Failed(String),
    /// The directory was copied.
    Copied,
}

/// The answer to a request to install a skill from a local directory, given
/// how copying it went: the skill is installed, unscreened, where it was
/// copied; else the answer is the reason why not.
pub fn import_local_skill(request: &ImportLocalRequest, outcome: CopyOutcome) -> (r: Result<
    ImportResponse,
    String,
>)
    ensures
        match outcome {
            CopyOutcome::SourceMissing => r matches Err(e) && e@ == SOURCE_IS_MISSING@
                + request.source_path@,
            CopyOutcome::Failed(reason) => r matches Err(e) && e@ == reason@,
            CopyOutcome::Copied => r matches Ok(response) && response@ == import_answer(
                request.skill_name@,
                None,
            ),
        },
{
    match outcome {
        CopyOutcome::SourceMissing => {
            let mut msg = chars_of(SOURCE_IS_MISSING);
            append_literal(&mut msg, request.source_path.as_str());
            Err(to_string(&msg))
        },
        CopyOutcome::Failed(reason) => Err(reason),
        CopyOutcome::Copied => Ok(import_github_skill(request.skill_name.as_str(), None)),
    }
}

} // verus!
