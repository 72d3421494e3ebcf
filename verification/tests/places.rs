use skills_manager::agents::{
    check_symlink_status, create_symlink, failed_symlink, find_symlink_agent, get_agent_configs,
    get_symlink_agents, plan_link, remove_symlink, select_linked, symlink_status, AgentConfig,
    LinkAction, LinkProbe, LinkState, PrimaryAgent,
};
use skills_manager::config::{
    get_default_install_path, get_system_skill_path, initialize_if_needed, Config, InitAction,
    Location,
};
use skills_manager::github::{
    archive_root, archive_url, clone_url, entry_destination, is_directory_entry,
    parse_github_url, skill_name_from_url, GithubUrlError,
};
use skills_manager::install::{
    import_github_skill, import_local_skill, install_dir, plan_github_import, removal_result,
    uninstall_skill, CopyOutcome, ImportGithubRequest, ImportLocalRequest, ImportPlan, PlanError,
    UninstallRequest,
};
use skills_manager::rules::RuleSet;
use skills_manager::security::scan_entries;
use skills_manager::selector::FileEntry;
use skills_manager::service::{check_updates, health_check, perform_update, PerformUpdateRequest};

fn s(x: &str) -> Option<String> {
    Some(x.to_string())
}

fn primary() -> PrimaryAgent {
    PrimaryAgent {
        id: "prime".to_string(),
        display_name: "Prime".to_string(),
        dir: ".prime".to_string(),
        skills_dir: ".prime/skills".to_string(),
    }
}

fn parts(l: &Location) -> (String, Vec<String>) {
    (l.base.clone(), l.segments.clone())
}

#[test]
fn agent_table() {
    let agents = get_agent_configs(&primary());
    let ids: Vec<&str> = agents.iter().map(|a| a.id.as_str()).collect();
    assert_eq!(
        ids,
        vec![
            "prime", "github-copilot", "cursor", "opencode", "antigravity", "amp", "codex",
            "gemini-cli", "windsurf", "roo", "trae"
        ]
    );
    assert_eq!(agents[0].name, "prime");
    assert_eq!(agents[0].display_name, "Prime");
    assert_eq!(agents[0].skills_dir, ".prime/skills");
    assert_eq!(agents[0].global_skills_dir, ".prime/skills");
    assert_eq!(agents[0].compatibility, "native");
    assert_eq!(agents[0].color, "#D97757");
    assert_eq!(agents[1].display_name, "GitHub Copilot");
    assert_eq!(agents[1].skills_dir, ".github/skills");
    assert_eq!(agents[1].global_skills_dir, ".copilot/skills");
    assert_eq!(agents[3].global_skills_dir, ".config/opencode/skill");
    assert_eq!(agents[8].global_skills_dir, ".codeium/windsurf/skills");
    assert_eq!(agents[10].color, "#EC4899");
    assert!(agents[..6].iter().all(|a| a.compatibility == "native"));
    assert!(agents[6..].iter().all(|a| a.compatibility == "symlink"));
}

#[test]
fn linked_agents() {
    let linked = get_symlink_agents();
    let ids: Vec<&str> = linked.iter().map(|a| a.id.as_str()).collect();
    assert_eq!(ids, vec!["codex", "gemini-cli", "windsurf", "roo", "trae"]);
    let selected = select_linked(&get_agent_configs(&primary()));
    let again: Vec<&str> = selected.iter().map(|a| a.id.as_str()).collect();
    assert_eq!(again, ids);
    assert_eq!(selected[0].display_name, "OpenAI Codex");
}

#[test]
fn finding_a_linked_agent() {
    assert_eq!(find_symlink_agent("roo").map(|a| a.display_name), s("Roo"));
    assert!(find_symlink_agent("cursor").is_none());
    assert!(find_symlink_agent("prime").is_none());
    assert!(find_symlink_agent("").is_none());
}

fn codex() -> AgentConfig {
    find_symlink_agent("codex").unwrap()
}

#[test]
fn status_of_a_link() {
    let a = codex();
    let absent = symlink_status(&a, ".prime/skills", "/h/.prime/skills", "/h/.codex/skills", &LinkProbe::Absent);
    assert_eq!(absent.agent_id, "codex");
    assert_eq!(absent.agent_name, "OpenAI Codex");
    assert_eq!(absent.target_path, "/h/.prime/skills");
    assert_eq!(absent.link_path, "/h/.codex/skills");
    assert_eq!((absent.exists, absent.is_valid, absent.error), (false, false, None));
    let taken = symlink_status(&a, ".prime/skills", "/h/.prime/skills", "/h/.codex/skills", &LinkProbe::NotALink);
    assert_eq!((taken.exists, taken.is_valid), (true, false));
    assert_eq!(taken.error, s("Path exists but is not a symlink"));
    let good = LinkProbe::LinksTo { target: "/h/.prime/skills".to_string(), is_source: true };
    let ok = symlink_status(&a, ".prime/skills", "/h/.prime/skills", "/h/.codex/skills", &good);
    assert_eq!((ok.exists, ok.is_valid, ok.error), (true, true, None));
    let named = LinkProbe::LinksTo { target: "/other/.prime/skills/x".to_string(), is_source: false };
    let also = symlink_status(&a, ".prime/skills", "/h/.prime/skills", "/h/.codex/skills", &named);
    assert_eq!((also.is_valid, also.error), (true, None));
    let stray = LinkProbe::LinksTo { target: "/tmp/elsewhere".to_string(), is_source: false };
    let bad = symlink_status(&a, ".prime/skills", "/h/.prime/skills", "/h/.codex/skills", &stray);
    assert_eq!((bad.exists, bad.is_valid), (true, false));
    assert_eq!(bad.error, s("Points to: /tmp/elsewhere"));
}

#[test]
fn statuses_of_all_links() {
    let links: Vec<LinkState> = get_symlink_agents()
        .into_iter()
        .map(|agent| LinkState { link_path: format!("/h/{}", agent.global_skills_dir), agent, probe: LinkProbe::Absent })
        .collect();
    let statuses = check_symlink_status(".prime/skills", "/h/.prime/skills", &links);
    assert_eq!(statuses.len(), 5);
    assert_eq!(statuses[2].agent_id, "windsurf");
    assert_eq!(statuses[2].link_path, "/h/.codeium/windsurf/skills");
    assert!(statuses.iter().all(|s| !s.exists && !s.is_valid && s.error.is_none()));
}

#[test]
fn making_and_removing_links() {
    assert_eq!(plan_link(&LinkProbe::Absent), LinkAction::Create);
    assert_eq!(plan_link(&LinkProbe::NotALink), LinkAction::Refuse);
    let there = LinkProbe::LinksTo { target: "x".to_string(), is_source: false };
    assert_eq!(plan_link(&there), LinkAction::Replace);
    let a = codex();
    let made = create_symlink(&a, "/src", "/link", LinkAction::Create);
    assert_eq!((made.exists, made.is_valid, made.error.clone()), (true, true, None));
    assert_eq!((made.target_path.as_str(), made.link_path.as_str()), ("/src", "/link"));
    let refused = create_symlink(&a, "/src", "/link", LinkAction::Refuse);
    assert_eq!((refused.exists, refused.is_valid), (true, false));
    assert_eq!(refused.error, s("Path exists and is not a symlink. Please remove it manually."));
    let failed = failed_symlink(&a, "no home".to_string());
    assert_eq!((failed.exists, failed.is_valid, failed.error), (false, false, s("no home")));
    assert_eq!((failed.target_path.as_str(), failed.link_path.as_str()), ("", ""));
    let gone = remove_symlink(&a, "/link", &there).unwrap();
    assert_eq!((gone.exists, gone.is_valid, gone.error), (false, false, None));
    assert_eq!((gone.target_path.as_str(), gone.link_path.as_str()), ("", "/link"));
    assert!(remove_symlink(&a, "/link", &LinkProbe::Absent).is_ok());
    assert_eq!(remove_symlink(&a, "/link", &LinkProbe::NotALink).err(), s("Path is not a symlink, refusing to remove"));
}

#[test]
fn settings_and_their_places() {
    let c = Config::initial("2024-01-01T00:00:00Z".to_string());
    assert!(c.project_paths.is_empty());
    assert_eq!(c.default_install_location, "system");
    assert_eq!(c.default_project_path, None);
    assert_eq!(c.github_repo, s("YOUR_USERNAME/skill-manager"));
    assert_eq!(c.updated_at, "2024-01-01T00:00:00Z");
    let later = c.clone().stamped("later".to_string());
    assert_eq!(later.updated_at, "later");
    assert_eq!(later.github_repo, c.github_repo);
    let dir = Config::app_data_dir("/home/u");
    assert_eq!(parts(&dir), ("/home/u".to_string(), vec![".skills-manager".to_string()]));
    let file = Config::config_path(dir);
    assert_eq!(parts(&file), ("/home/u".to_string(), vec![".skills-manager".to_string(), "config.json".to_string()]));
    let sys = get_system_skill_path("/home/u");
    assert_eq!(parts(&sys), ("/home/u".to_string(), vec![".skills-manager".to_string(), "skills".to_string()]));
}

#[test]
fn default_install_path() {
    let mut c = Config::initial("t".to_string());
    assert_eq!(parts(&get_default_install_path(&c, "/h")).0, "/h");
    c.default_project_path = s("/work/p");
    assert_eq!(parts(&get_default_install_path(&c, "/h")).0, "/h");
    c.default_install_location = "project".to_string();
    let l = get_default_install_path(&c, "/h");
    assert_eq!(parts(&l), ("/work/p".to_string(), vec![".skills-manager".to_string(), "skills".to_string()]));
    c.default_project_path = None;
    assert_eq!(parts(&get_default_install_path(&c, "/h")).0, "/h");
    c.default_install_location = "Project".to_string();
    c.default_project_path = s("/work/p");
    assert_eq!(parts(&get_default_install_path(&c, "/h")).0, "/h");
}

#[test]
fn first_start() {
    assert_eq!(initialize_if_needed(true, "https://x/init.zip"), InitAction::Skip);
    assert_eq!(initialize_if_needed(false, "https://x/init.zip"), InitAction::Unpack);
    assert_eq!(initialize_if_needed(false, "https://x/config.json"), InitAction::Write);
    assert_eq!(initialize_if_needed(false, ".zip"), InitAction::Unpack);
    assert_eq!(initialize_if_needed(false, "zip"), InitAction::Write);
    assert_eq!(initialize_if_needed(false, "a.ZIP"), InitAction::Write);
    assert_eq!(initialize_if_needed(false, ""), InitAction::Write);
}

fn repo(owner: &str, name: &str, branch: &str, sub: Option<&str>) -> Result<(String, String, String, Option<String>), GithubUrlError> {
    Ok((owner.to_string(), name.to_string(), branch.to_string(), sub.map(|x| x.to_string())))
}

#[test]
fn github_addresses() {
    assert_eq!(parse_github_url("https://github.com/o/r"), repo("o", "r", "main", None));
    assert_eq!(parse_github_url("https://github.com/o/r.git"), repo("o", "r", "main", None));
    assert_eq!(parse_github_url("https://github.com/o/r.git.git"), repo("o", "r", "main", None));
    assert_eq!(parse_github_url("github.com/o/r"), repo("o", "r", "main", None));
    assert_eq!(parse_github_url("https://github.com/o/r/tree/dev"), repo("o", "r", "dev", None));
    assert_eq!(parse_github_url("https://github.com/o/r/tree/dev/a/b"), repo("o", "r", "dev", Some("a/b")));
    assert_eq!(parse_github_url("https://github.com/o/r/tree/dev/"), repo("o", "r", "dev", Some("")));
    assert_eq!(parse_github_url("https://github.com/o/r/tree"), repo("o", "r", "main", None));
    assert_eq!(parse_github_url("https://github.com/o/r/blob/dev/x"), repo("o", "r", "main", None));
    assert_eq!(parse_github_url("https://github.com/o/"), repo("o", "", "main", None));
    assert_eq!(parse_github_url("https://github.com/o"), Err(GithubUrlError::InvalidFormat));
    assert_eq!(parse_github_url("https://github.com"), Err(GithubUrlError::InvalidFormat));
    assert_eq!(parse_github_url("https://gitlab.com/o/r"), Err(GithubUrlError::NotGithub));
    assert_eq!(parse_github_url("https://www.github.com/o/r"), Err(GithubUrlError::NotGithub));
    assert_eq!(parse_github_url(""), Err(GithubUrlError::NotGithub));
    assert_eq!(GithubUrlError::NotGithub.message(), "Not a GitHub URL");
    assert_eq!(GithubUrlError::InvalidFormat.message(), "Invalid GitHub URL format");
}

#[test]
fn names_and_addresses_of_archives() {
    assert_eq!(skill_name_from_url("https://github.com/o/r.git"), "r");
    assert_eq!(skill_name_from_url("https://github.com/o/r"), "r");
    assert_eq!(skill_name_from_url("https://github.com/o/r/"), "");
    assert_eq!(skill_name_from_url("plain"), "plain");
    assert_eq!(archive_url("o", "r", "dev"), "https://github.com/o/r/archive/refs/heads/dev.zip");
    assert_eq!(clone_url("o", "r"), "https://github.com/o/r.git");
    assert_eq!(archive_root("r", "dev", None), "r-dev/");
    assert_eq!(archive_root("r", "dev", Some("a/b")), "r-dev/a/b/");
    assert_eq!(entry_destination("r-dev/a/b/x.md", "r-dev/a/b/"), s("x.md"));
    assert_eq!(entry_destination("r-dev/a/b/", "r-dev/a/b/"), None);
    assert_eq!(entry_destination("r-dev/a/c/x.md", "r-dev/a/b/"), None);
    assert_eq!(entry_destination("r-dev/x", "r-dev/"), s("x"));
    assert_eq!(entry_destination("", "r-dev/"), None);
    assert!(is_directory_entry("r-dev/a/"));
    assert!(is_directory_entry("/"));
    assert!(!is_directory_entry("r-dev/a"));
    assert!(!is_directory_entry(""));
}

#[test]
fn plans_for_fetching() {
    match plan_github_import("https://github.com/o/r") {
        Ok(ImportPlan::Whole { skill_name, url }) => {
            assert_eq!(skill_name, "r");
            assert_eq!(url, "https://github.com/o/r");
        }
        other => panic!("{:?}", other),
    }
    match plan_github_import("https://github.com/o/r///") {
        Ok(ImportPlan::Whole { skill_name, url }) => {
            assert_eq!(skill_name, "r");
            assert_eq!(url, "https://github.com/o/r///");
        }
        other => panic!("{:?}", other),
    }
    match plan_github_import("https://github.com/o/r/tree/dev/skills/pdf/") {
        Ok(ImportPlan::Sparse { skill_name, repo_base, branch, subpath }) => {
            assert_eq!(skill_name, "pdf");
            assert_eq!(repo_base, "https://github.com/o/r");
            assert_eq!(branch, "dev");
            assert_eq!(subpath, "skills/pdf");
        }
        other => panic!("{:?}", other),
    }
    match plan_github_import("https://github.com/o/r/tree/dev") {
        Ok(ImportPlan::Sparse { skill_name, branch, subpath, .. }) => {
            assert_eq!(skill_name, "dev");
            assert_eq!(branch, "dev");
            assert_eq!(subpath, "");
        }
        other => panic!("{:?}", other),
    }
    assert_eq!(plan_github_import("https://github.com/o").err(), Some(PlanError::InvalidUrl));
    assert_eq!(plan_github_import("").err(), Some(PlanError::InvalidUrl));
    assert_eq!(plan_github_import("https://github.com/o/r/tree/").err(), Some(PlanError::NoBranch));
    assert_eq!(plan_github_import("https://x/tree/r").err(), Some(PlanError::NoBranch));
    assert_eq!(plan_github_import("x/tree/r").err(), Some(PlanError::InvalidUrl));
}

#[test]
fn where_skills_are_installed() {
    let p = primary();
    let project = install_dir(&p, Some("/work/p"), Some("/h")).unwrap();
    assert_eq!(parts(&project), ("/work/p".to_string(), vec![".prime".to_string(), "skills".to_string()]));
    let home = install_dir(&p, None, Some("/h")).unwrap();
    assert_eq!(parts(&home), ("/h".to_string(), vec![".prime/skills".to_string()]));
    assert!(install_dir(&p, None, None).is_none());
    assert!(install_dir(&p, Some("/work/p"), None).is_some());
}

#[test]
fn removing_a_skill() {
    let p = primary();
    let ask = |path: &str, exists: bool| {
        uninstall_skill(&p, &UninstallRequest { skill_path: path.to_string() }, exists)
            .map(|r| (r.success, r.message, r.blocked))
    };
    assert_eq!(ask("", true), Some((false, "Skill path is empty".to_string(), false)));
    assert_eq!(ask("/h/.prime/skills/x", false), Some((false, "Skill path does not exist: /h/.prime/skills/x".to_string(), false)));
    assert_eq!(ask("/tmp/x", true), Some((false, "Invalid skill path - must be in .prime/skills directory".to_string(), false)));
    assert_eq!(ask("/h/.prime/x", true).map(|r| r.0), Some(false));
    assert_eq!(ask("/h/skills/x", true).map(|r| r.0), Some(false));
    assert_eq!(ask("/h/.prime/skills/x", true), None);
    assert_eq!(ask("/skills/.prime", true), None);
    let done = removal_result(None);
    assert_eq!((done.success, done.message.as_str(), done.blocked), (true, "Skill uninstalled successfully", false));
    let failed = removal_result(Some("denied"));
    assert_eq!((failed.success, failed.message.as_str(), failed.blocked), (false, "Failed to remove skill: denied", false));
}

#[test]
fn answers_to_import_requests() {
    let set = RuleSet::standard().unwrap();
    let file = |text: &[u8]| FileEntry {
        path: "a.sh".to_string(),
        components: vec!["a.sh".to_string()],
        is_file: true,
        content: Some(text.to_vec()),
    };
    let clean = scan_entries(&set, &vec![file(b"ls\n")], "r");
    let ok = import_github_skill("r", Some(clean));
    assert_eq!((ok.success, ok.blocked), (true, false));
    assert_eq!(ok.message, "Successfully imported skill: r");
    assert_eq!(ok.skill_name, "r");
    assert_eq!(ok.security_report.map(|r| r.score), Some(100));
    let risky = scan_entries(&set, &vec![file(b"chmod 777 x\nchmod 777 y\nchmod 777 z\n")], "r");
    let still = import_github_skill("r", Some(risky));
    assert_eq!((still.success, still.blocked), (true, false));
    let bad = scan_entries(&set, &vec![file(b"rm -rf /\n")], "r");
    let refused = import_github_skill("r", Some(bad));
    assert_eq!((refused.success, refused.blocked), (false, true));
    assert_eq!(refused.message, "Skill blocked due to security issues");
    assert!(refused.security_report.is_some());
    let unscreened = import_github_skill("r", None);
    assert_eq!((unscreened.success, unscreened.blocked), (true, false));
    assert!(unscreened.security_report.is_none());
    let wants = |skip: Option<bool>| ImportGithubRequest { repo_url: "u".to_string(), install_path: None, skip_security_check: skip }.wants_scan();
    assert!(wants(None));
    assert!(wants(Some(false)));
    assert!(!wants(Some(true)));
}

#[test]
fn answers_to_local_imports() {
    let request = ImportLocalRequest { source_path: "/src/x".to_string(), install_path: None, skill_name: "x".to_string() };
    assert_eq!(import_local_skill(&request, CopyOutcome::SourceMissing).err(), s("Source path does not exist: /src/x"));
    assert_eq!(import_local_skill(&request, CopyOutcome::Failed("disk full".to_string())).err(), s("disk full"));
    let ok = import_local_skill(&request, CopyOutcome::Copied).unwrap();
    assert_eq!((ok.success, ok.blocked), (true, false));
    assert_eq!(ok.message, "Successfully imported skill: x");
    assert_eq!(ok.skill_name, "x");
    assert!(ok.security_report.is_none());
}

#[test]
fn answers_about_the_manager() {
    let h = health_check("now".to_string());
    assert_eq!((h.status.as_str(), h.timestamp.as_str()), ("ok", "now"));
    let u = check_updates();
    assert!(!u.has_update);
    assert_eq!(u.current_version, "1.0.0");
    assert_eq!(u.latest_version, "1.0.0");
    assert_eq!(u.download_url, None);
    let r = perform_update(&PerformUpdateRequest { update_type: "full".to_string() });
    assert_eq!(r, Err("Update feature not implemented yet".to_string()));
}
