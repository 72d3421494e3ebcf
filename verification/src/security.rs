//! The screening engine: from the files of a package to a risk report.

use crate::rules::{RuleSet, SecurityRule};
use crate::selector::{class_of, entry_views, file_name, EntryView, FileClass, FileEntry};
use crate::taxonomy::{Category, Confidence, RiskLevel, Severity};
use crate::text::{
    append_chars, chars_of, lines, prefix_string, rows, skip_leading, slice_of, split_lines,
    starts_with, texts, to_string, trim_start, CharClass,
};
use vstd::prelude::*;
use vstd::utf8::{decode_utf8, valid_utf8};

verus! {

/// One match of a rule on a line, or one blocked binary.
#[derive(Clone, Debug)]
pub struct SecurityIssue {
    pub rule_id: String,
    pub rule_name: String,
    pub file: String,
    pub line: usize,
    pub code: String,
    pub severity: Severity,
    pub category: Category,
    pub description: String,
    pub confidence: Confidence,
}

/// What a [`SecurityIssue`] holds.
pub struct IssueView {
    pub rule_id: Seq<char>,
    pub rule_name: Seq<char>,
    pub file: Seq<char>,
    pub line: nat,
    pub code: Seq<char>,
    pub severity: Severity,
    pub category: Category,
    pub description: Seq<char>,
    pub confidence: Confidence,
}

impl View for SecurityIssue {
    type V = IssueView;

    open spec fn view(&self) -> IssueView {
        IssueView {
            rule_id: self.rule_id@,
            rule_name: self.rule_name@,
            file: self.file@,
            line: self.line as nat,
            code: self.code@,
            severity: self.severity,
            category: self.category,
            description: self.description@,
            confidence: self.confidence,
        }
    }
}

/// The views of a sequence of issues.
pub open spec fn issue_views(issues: Seq<SecurityIssue>) -> Seq<IssueView> {
    issues.map_values(|i: SecurityIssue| i@)
}

/// The most characters of a line that an issue quotes.
pub const CODE_LIMIT: usize = 200;

/// The weight of a blocked binary.
pub const BINARY_WEIGHT: u32 = 100;

/// The score of a package without findings, and the most that can be deducted.
pub const FULL_SCORE: u32 = 100;

/// An issue together with what it means for the verdict.
pub struct Finding {
    pub issue: IssueView,
    /// What the finding deducts from the score.
    pub weight: nat,
    /// Whether the finding blocks the package whatever the score.
    pub hard: bool,
}

/// Whether a line is a comment: after its leading white space it begins with
/// one of the comment markers. Comment lines are not matched.
pub open spec fn is_comment(line: Seq<char>) -> bool {
    let t = trim_start(line, CharClass::Whitespace);
    "#"@.is_prefix_of(t) || "//"@.is_prefix_of(t) || "/*"@.is_prefix_of(t) || "*"@.is_prefix_of(t)
        || "--"@.is_prefix_of(t) || "REM "@.is_prefix_of(t) || "rem "@.is_prefix_of(t)
        || "<!--"@.is_prefix_of(t)
}

/// The part of a line that an issue quotes: its first `CODE_LIMIT` characters.
pub open spec fn quoted(line: Seq<char>) -> Seq<char> {
    if line.len() <= CODE_LIMIT {
        line
    } else {
        line.take(CODE_LIMIT as int)
    }
}

/// The finding that a match of `rule` on line `line_no` of `file` gives.
pub open spec fn rule_finding(
    rule: SecurityRule,
    file: Seq<char>,
    line_no: nat,
    line: Seq<char>,
) -> Finding {
    Finding {
        issue: IssueView {
            rule_id: rule.id@,
            rule_name: rule.name@,
            file,
            line: line_no,
            code: quoted(line),
            severity: rule.severity,
            category: rule.category,
            description: rule.description@,
            confidence: rule.confidence,
        },
        weight: rule.weight as nat,
        hard: rule.hard_trigger,
    }
}

/// The findings of the first `n` rules on one line: one for each rule that
/// matches, in registration order.
pub open spec fn line_hits(
    rules: Seq<SecurityRule>,
    n: nat,
    file: Seq<char>,
    line_no: nat,
    line: Seq<char>,
) -> Seq<Finding>
    decreases n,
{
    if n == 0 {
        Seq::<Finding>::empty()
    } else {
        let rest = line_hits(rules, (n - 1) as nat, file, line_no, line);
        if rules[n - 1].matches(line) {
            rest.push(rule_finding(rules[n - 1], file, line_no, line))
        } else {
            rest
        }
    }
}

/// The findings of one line: none for a comment, else those of every rule.
pub open spec fn line_findings(
    rules: Seq<SecurityRule>,
    file: Seq<char>,
    line_no: nat,
    line: Seq<char>,
) -> Seq<Finding> {
    if is_comment(line) {
        Seq::<Finding>::empty()
    } else {
        line_hits(rules, rules.len(), file, line_no, line)
    }
}

/// The findings of the first `n` lines of a file; lines count from 1.
pub open spec fn text_findings(
    rules: Seq<SecurityRule>,
    file: Seq<char>,
    all: Seq<Seq<char>>,
    n: nat,
) -> Seq<Finding>
    decreases n,
{
    if n == 0 {
        Seq::<Finding>::empty()
    } else {
        text_findings(rules, file, all, (n - 1) as nat) + line_findings(
            rules,
            file,
            n,
            all[n - 1],
        )
    }
}

/// The sum of the weights of `f`.
pub open spec fn total_weight(f: Seq<Finding>) -> nat
    decreases f.len(),
{
    if f.len() == 0 {
        0
    } else {
        total_weight(f.drop_last()) + f.last().weight
    }
}

/// Whether some finding of `f` blocks the package.
pub open spec fn any_hard(f: Seq<Finding>) -> bool {
    exists|i: int| 0 <= i < f.len() && (#[trigger] f[i]).hard
}

/// The issues of `f`, in order.
pub open spec fn issues_of(f: Seq<Finding>) -> Seq<IssueView> {
    f.map_values(|x: Finding| x.issue)
}

/// The weight of a concatenation is the sum of the weights.
pub proof fn lemma_total_weight_add(f: Seq<Finding>, g: Seq<Finding>)
    ensures
        total_weight(f + g) == total_weight(f) + total_weight(g),
    decreases g.len(),
{
    if g.len() == 0 {
        assert(f + g == f);
    } else {
        assert((f + g).drop_last() == f + g.drop_last());
        lemma_total_weight_add(f, g.drop_last());
    }
}

/// A concatenation blocks where one of its parts does.
pub proof fn lemma_any_hard_add(f: Seq<Finding>, g: Seq<Finding>)
    ensures
        any_hard(f + g) == (any_hard(f) || any_hard(g)),
{
    if any_hard(f) {
        let i = choose|i: int| 0 <= i < f.len() && (#[trigger] f[i]).hard;
        assert((f + g)[i].hard);
    }
    if any_hard(g) {
        let i = choose|i: int| 0 <= i < g.len() && (#[trigger] g[i]).hard;
        assert((f + g)[f.len() + i].hard);
    }
    if any_hard(f + g) {
        let i = choose|i: int| 0 <= i < (f + g).len() && (#[trigger] (f + g)[i]).hard;
        if i < f.len() {
            assert(f[i].hard);
        } else {
            assert(g[i - f.len()].hard);
        }
    }
}

/// What has been found so far, as the scan keeps it.
struct Tally {
    issues: Vec<SecurityIssue>,
    /// The weight deducted so far, held at `FULL_SCORE` once it reaches it.
    deducted: u32,
    blocked: bool,
    found: Ghost<Seq<Finding>>,
}

impl Tally {
    spec fn wf(&self) -> bool {
        &&& issue_views(self.issues@) == issues_of(self.found@)
        &&& self.deducted as nat == if total_weight(self.found@) >= FULL_SCORE {
            FULL_SCORE as nat
        } else {
            total_weight(self.found@)
        }
        &&& self.blocked == any_hard(self.found@)
    }

    fn new() -> (t: Tally)
        ensures
            t.wf(),
            t.found@ == Seq::<Finding>::empty(),
    {
        let t = Tally { issues: Vec::new(), deducted: 0, blocked: false, found: Ghost(Seq::empty()) };
        assert(issue_views(t.issues@) == issues_of(t.found@));
        t
    }

    /// Takes in one finding.
    fn record(&mut self, issue: SecurityIssue, weight: u32, hard: bool)
        requires
            old(self).wf(),
        ensures
            final(self).wf(),
            final(self).found@ == old(self).found@.push(
                Finding { issue: issue@, weight: weight as nat, hard },
            ),
    {
        let ghost f = Finding { issue: issue@, weight: weight as nat, hard };
        let ghost before = self.found@;
        let ghost earlier = self.issues@;
        self.issues.push(issue);
        if weight >= FULL_SCORE - self.deducted {
            self.deducted = FULL_SCORE;
        } else {
            self.deducted = self.deducted + weight;
        }
        if hard {
            self.blocked = true;
        }
        self.found = Ghost(before.push(f));
        proof {
            assert(before.push(f).drop_last() == before);
            assert(issue_views(earlier) == issues_of(before));
            assert(issue_views(earlier).len() == earlier.len());
            assert(issues_of(before).len() == before.len());
            assert(self.issues@ == earlier.push(issue));
            assert(self.found@ == before.push(f));
            assert forall|k: int| 0 <= k < self.issues@.len() implies issue_views(
                self.issues@,
            )[k] == issues_of(self.found@)[k] by {
                if k < earlier.len() {
                    assert(issue_views(earlier)[k] == issues_of(before)[k]);
                }
            }
            assert(issue_views(self.issues@) =~= issues_of(self.found@));
            lemma_any_hard_add(before, seq![f]);
            assert(before + seq![f] == before.push(f));
            assert(any_hard(seq![f]) == hard) by {
                if hard {
                    assert(seq![f][0].hard);
                }
            }
        }
    }
}

/// Whether a line is a comment, and so left unmatched.
pub fn is_comment_line(line: &str) -> (b: bool)
    ensures
        b == is_comment(line@),
{
    let v = chars_of(line);
    comment_chars(&v)
}

fn comment_chars(line: &Vec<char>) -> (b: bool)
    ensures
        b == is_comment(line@),
{
    let start = skip_leading(line, 0, line.len(), CharClass::Whitespace);
    assert(line@.subrange(0, line.len() as int) == line@);
    let t = slice_of(line, start, line.len());
    assert(line@.subrange(start as int, line.len() as int) == line@.skip(start as int));
    starts_with(&t, "#") || starts_with(&t, "//") || starts_with(&t, "/*") || starts_with(&t, "*")
        || starts_with(&t, "--") || starts_with(&t, "REM ") || starts_with(&t, "rem ")
        || starts_with(&t, "<!--")
}

/// Matches one line against every rule and takes in what is found.
fn scan_line(
    rules: &Vec<SecurityRule>,
    file: &String,
    line_no: usize,
    line: &Vec<char>,
    tally: &mut Tally,
)
    requires
        old(tally).wf(),
    ensures
        final(tally).wf(),
        final(tally).found@ == old(tally).found@ + line_findings(
            rules@,
            file@,
            line_no as nat,
            line@,
        ),
{
    if comment_chars(line) {
        assert(tally.found@ + Seq::<Finding>::empty() == tally.found@);
        return ;
    }
    let text = to_string(line);
    let ghost before = tally.found@;
    let mut i: usize = 0;
    assert(before + Seq::<Finding>::empty() == before);
    while i < rules.len()
        invariant
            i <= rules.len(),
            tally.wf(),
            text@ == line@,
            tally.found@ == before + line_hits(rules@, i as nat, file@, line_no as nat, line@),
        decreases rules.len() - i,
    {
        let rule = &rules[i];
        let ghost hits = line_hits(rules@, i as nat, file@, line_no as nat, line@);
        if rule.is_match(text.as_str()) {
            let issue = SecurityIssue {
                rule_id: rule.id.to_owned(),
                rule_name: rule.name.to_owned(),
                file: file.clone(),
                line: line_no,
                code: prefix_string(line, CODE_LIMIT),
                severity: rule.severity,
                category: rule.category,
                description: rule.description.to_owned(),
                confidence: rule.confidence,
            };
            tally.record(issue, rule.weight, rule.hard_trigger);
            proof {
                let f = rule_finding(rules@[i as int], file@, line_no as nat, line@);
                assert(line@.take(line@.len() as int) == line@);
                assert(issue@.code == quoted(line@));
                assert(issue@ == f.issue);
                assert(before + hits.push(f) == (before + hits).push(f));
            }
        }
        i += 1;
    }
}

/// Matches every line of a text and takes in what is found.
fn scan_text(rules: &Vec<SecurityRule>, file: &String, text: &str, tally: &mut Tally)
    requires
        old(tally).wf(),
    ensures
        final(tally).wf(),
        final(tally).found@ == old(tally).found@ + text_findings(
            rules@,
            file@,
            lines(text@),
            lines(text@).len(),
        ),
{
    let chars = chars_of(text);
    let all = split_lines(&chars);
    let ghost before = tally.found@;
    let ghost spec_lines = lines(text@);
    assert(rows(all@).len() == all@.len());
    assert(before + Seq::<Finding>::empty() == before);
    let mut i: usize = 0;
    while i < all.len()
        invariant
            i <= all.len(),
            tally.wf(),
            rows(all@) == spec_lines,
            all@.len() == spec_lines.len(),
            tally.found@ == before + text_findings(rules@, file@, spec_lines, i as nat),
        decreases all.len() - i,
    {
        let ghost so_far = text_findings(rules@, file@, spec_lines, i as nat);
        assert(rows(all@)[i as int] == all@[i as int]@);
        scan_line(rules, file, i + 1, &all[i], tally);
        proof {
            let here = line_findings(rules@, file@, (i + 1) as nat, spec_lines[i as int]);
            assert(before + (so_far + here) == (before + so_far) + here);
        }
        i += 1;
    }
}

/// The id under which a blocked binary is reported.
pub const BINARY_RULE_ID: &'static str = "BINARY_EXECUTABLE";

/// The name under which a blocked binary is reported.
pub const BINARY_RULE_NAME: &'static str = "可执行二进制文件";

/// What is said of a blocked binary.
pub const BINARY_DESCRIPTION: &'static str = "Skill 中包含可执行二进制文件，存在重大安全风险";

/// The marker that opens the quoted code of a blocked binary.
pub const BINARY_CODE_PREFIX: &'static str = "检测到可执行文件: ";

/// The finding that a blocked binary gives: one critical issue that names the
/// file, with the full weight, blocking the package.
pub open spec fn binary_finding(e: EntryView) -> Finding {
    Finding {
        issue: IssueView {
            rule_id: BINARY_RULE_ID@,
            rule_name: BINARY_RULE_NAME@,
            file: e.path,
            line: 0,
            code: BINARY_CODE_PREFIX@ + file_name(e.components),
            severity: Severity::Critical,
            category: Category::RemoteExec,
            description: BINARY_DESCRIPTION@,
            confidence: Confidence::High,
        },
        weight: BINARY_WEIGHT as nat,
        hard: true,
    }
}

/// The findings of one entry. A blocked binary gives its one finding and is
/// never read. A scannable file gives the findings of its lines where its
/// bytes are text. Every other entry gives none.
pub open spec fn entry_findings(rules: Seq<SecurityRule>, e: EntryView) -> Seq<Finding> {
    match class_of(e.components, e.is_file) {
        FileClass::BlockedBinary => seq![binary_finding(e)],
        FileClass::Scannable => match e.content {
            Some(bytes) => if valid_utf8(bytes) {
                text_findings(rules, e.path, lines(decode_utf8(bytes)), lines(decode_utf8(bytes)).len())
            } else {
                Seq::<Finding>::empty()
            },
            None => Seq::<Finding>::empty(),
        },
        _ => Seq::<Finding>::empty(),
    }
}

/// Whether an entry is recorded as scanned: a blocked binary, or a scannable
/// file that was read, whether or not its bytes turned out to be text.
pub open spec fn entry_scanned(e: EntryView) -> bool {
    match class_of(e.components, e.is_file) {
        FileClass::BlockedBinary => true,
        FileClass::Scannable => e.content is Some,
        _ => false,
    }
}

/// The findings of the first `n` entries, in the order of the walk.
pub open spec fn walk_findings(rules: Seq<SecurityRule>, entries: Seq<EntryView>, n: nat) -> Seq<
    Finding,
>
    decreases n,
{
    if n == 0 {
        Seq::<Finding>::empty()
    } else {
        walk_findings(rules, entries, (n - 1) as nat) + entry_findings(rules, entries[n - 1])
    }
}

/// The paths of those of the first `n` entries that are recorded as scanned.
pub open spec fn walk_scanned(entries: Seq<EntryView>, n: nat) -> Seq<Seq<char>>
    decreases n,
{
    if n == 0 {
        Seq::<Seq<char>>::empty()
    } else if entry_scanned(entries[n - 1]) {
        walk_scanned(entries, (n - 1) as nat).push(entries[n - 1].path)
    } else {
        walk_scanned(entries, (n - 1) as nat)
    }
}

/// The issue that a blocked binary gives.
fn binary_issue(entry: &FileEntry) -> (issue: SecurityIssue)
    ensures
        issue@ == binary_finding(entry@).issue,
{
    let mut code = chars_of(BINARY_CODE_PREFIX);
    if entry.components.len() > 0 {
        let name = chars_of(entry.components[entry.components.len() - 1].as_str());
        append_chars(&mut code, &name);
        assert(name@ == file_name(entry@.components));
    } else {
        assert(code@ + Seq::<char>::empty() == code@);
    }
    SecurityIssue {
        rule_id: BINARY_RULE_ID.to_owned(),
        rule_name: BINARY_RULE_NAME.to_owned(),
        file: entry.path.clone(),
        line: 0,
        code: to_string(&code),
        severity: Severity::Critical,
        category: Category::RemoteExec,
        description: BINARY_DESCRIPTION.to_owned(),
        confidence: Confidence::High,
    }
}

/// Takes in what one entry gives.
fn scan_entry(
    rules: &Vec<SecurityRule>,
    entry: &FileEntry,
    tally: &mut Tally,
    scanned: &mut Vec<String>,
)
    requires
        old(tally).wf(),
    ensures
        final(tally).wf(),
        final(tally).found@ == old(tally).found@ + entry_findings(rules@, entry@),
        texts(final(scanned)@) == if entry_scanned(entry@) {
            texts(old(scanned)@).push(entry@.path)
        } else {
            texts(old(scanned)@)
        },
{
    let ghost before = tally.found@;
    let ghost listed = texts(scanned@);
    assert(before + Seq::<Finding>::empty() == before);
    match entry.class() {
        FileClass::BlockedBinary => {
            let issue = binary_issue(entry);
            tally.record(issue, BINARY_WEIGHT, true);
            scanned.push(entry.path.clone());
            proof {
                assert(before.push(binary_finding(entry@)) == before + seq![binary_finding(entry@)]);
                assert(texts(scanned@) =~= listed.push(entry@.path));
            }
        },
        FileClass::Scannable => {
            match &entry.content {
                Some(bytes) => {
                    scanned.push(entry.path.clone());
                    assert(texts(scanned@) =~= listed.push(entry@.path));
                    match core::str::from_utf8(bytes.as_slice()) {
                        Ok(text) => {
                            scan_text(rules, &entry.path, text, tally);
                        },
                        Err(_) => {},
                    }
                },
                None => {},
            }
        },
        _ => {},
    }
}

/// The score that a total weight leaves: what remains of `FULL_SCORE`, and
/// nothing once the weight reaches it.
pub open spec fn score_for(total: nat) -> nat {
    if total >= FULL_SCORE {
        0
    } else {
        (FULL_SCORE - total) as nat
    }
}

/// The level of a package: the first that applies of critical (blocked, or a
/// score under 20), high (under 50), medium (under 75), low (under 90), safe.
pub open spec fn level_for(score: nat, blocked: bool) -> RiskLevel {
    if blocked || score < 20 {
        RiskLevel::Critical
    } else if score < 50 {
        RiskLevel::High
    } else if score < 75 {
        RiskLevel::Medium
    } else if score < 90 {
        RiskLevel::Low
    } else {
        RiskLevel::Safe
    }
}

/// The score that a total weight leaves.
pub fn risk_score(total_weight: u32) -> (score: u32)
    ensures
        score == score_for(total_weight as nat),
        score <= FULL_SCORE,
{
    if total_weight >= FULL_SCORE {
        0
    } else {
        FULL_SCORE - total_weight
    }
}

/// The level of a package with the given score.
pub fn risk_level(score: u32, blocked: bool) -> (level: RiskLevel)
    ensures
        level == level_for(score as nat, blocked),
{
    if blocked || score < 20 {
        RiskLevel::Critical
    } else if score < 50 {
        RiskLevel::High
    } else if score < 75 {
        RiskLevel::Medium
    } else if score < 90 {
        RiskLevel::Low
    } else {
        RiskLevel::Safe
    }
}

/// The order in which the categories are looked for when advice is given.
pub const ADVICE_ORDER: [Category; 8] = [
    Category::Destructive,
    Category::CmdInjection,
    Category::RemoteExec,
    Category::Network,
    Category::Secrets,
    Category::Persistence,
    Category::Privilege,
    Category::SensitiveFileAccess,
];

/// The advice given where nothing was found.
pub const DEFAULT_ADVICE: &'static str = "未发现明显安全问题，但建议定期审查代码";

/// The advice on destructive commands.
pub const ADVICE_DESTRUCTIVE: &'static str = "避免使用破坏性命令如 rm -rf，建议使用更安全的删除方式";

/// The advice on dynamic execution.
pub const ADVICE_CMD_INJECTION: &'static str = "避免使用 eval 或动态执行命令，存在代码注入风险";

/// The advice on remote execution.
pub const ADVICE_REMOTE_EXEC: &'static str = "不要从网络直接下载并执行脚本，存在远程代码执行风险";

/// The advice on network requests.
pub const ADVICE_NETWORK: &'static str = "审查所有网络请求，确保不会泄露敏感数据";

/// The advice on secrets in code.
pub const ADVICE_SECRETS: &'static str = "不要在代码中硬编码密钥，使用环境变量或密钥管理服务";

/// The advice on persistence.
pub const ADVICE_PERSISTENCE: &'static str = "审查所有持久化操作，确保不会在系统中留下恶意后门";

/// The advice on loose permissions.
pub const ADVICE_PRIVILEGE: &'static str = "避免过于宽松的权限设置，遵循最小权限原则";

/// The advice on sensitive files.
pub const ADVICE_SENSITIVE_FILES: &'static str = "不要访问系统敏感文件，如 /etc/passwd 或 SSH 密钥";

/// The advice that goes with a category.
pub open spec fn advice_text(c: Category) -> Seq<char> {
    match c {
        Category::Destructive => ADVICE_DESTRUCTIVE@,
        Category::CmdInjection => ADVICE_CMD_INJECTION@,
        Category::RemoteExec => ADVICE_REMOTE_EXEC@,
        Category::Network => ADVICE_NETWORK@,
        Category::Secrets => ADVICE_SECRETS@,
        Category::Persistence => ADVICE_PERSISTENCE@,
        Category::Privilege => ADVICE_PRIVILEGE@,
        Category::SensitiveFileAccess => ADVICE_SENSITIVE_FILES@,
    }
}

/// Whether some issue falls in category `c`.
pub open spec fn has_category(issues: Seq<IssueView>, c: Category) -> bool {
    exists|i: int| 0 <= i < issues.len() && (#[trigger] issues[i]).category == c
}

/// The advice for the first `n` categories of `ADVICE_ORDER`: one text for
/// each category that occurs among the issues, however often it occurs.
pub open spec fn advice_upto(issues: Seq<IssueView>, n: nat) -> Seq<Seq<char>>
    decreases n,
{
    if n == 0 {
        Seq::<Seq<char>>::empty()
    } else {
        let rest = advice_upto(issues, (n - 1) as nat);
        if has_category(issues, ADVICE_ORDER@[n - 1]) {
            rest.push(advice_text(ADVICE_ORDER@[n - 1]))
        } else {
            rest
        }
    }
}

/// The advice for a list of issues: the default where there is none, else
/// the advice of each category present, in the order of `ADVICE_ORDER`.
pub open spec fn advice_for(issues: Seq<IssueView>) -> Seq<Seq<char>> {
    if issues.len() == 0 {
        seq![DEFAULT_ADVICE@]
    } else {
        advice_upto(issues, ADVICE_ORDER@.len())
    }
}

fn advice(c: Category) -> (s: &'static str)
    ensures
        s@ == advice_text(c),
{
    match c {
        Category::Destructive => ADVICE_DESTRUCTIVE,
        Category::CmdInjection => ADVICE_CMD_INJECTION,
        Category::RemoteExec => ADVICE_REMOTE_EXEC,
        Category::Network => ADVICE_NETWORK,
        Category::Secrets => ADVICE_SECRETS,
        Category::Persistence => ADVICE_PERSISTENCE,
        Category::Privilege => ADVICE_PRIVILEGE,
        Category::SensitiveFileAccess => ADVICE_SENSITIVE_FILES,
    }
}

fn any_in_category(issues: &Vec<SecurityIssue>, c: Category) -> (b: bool)
    ensures
        b == has_category(issue_views(issues@), c),
{
    let mut i: usize = 0;
    while i < issues.len()
        invariant
            i <= issues.len(),
            forall|k: int| 0 <= k < i ==> (#[trigger] issue_views(issues@)[k]).category != c,
        decreases issues.len() - i,
    {
        assert(issue_views(issues@)[i as int] == issues@[i as int]@);
        if issues[i].category == c {
            return true;
        }
        i += 1;
    }
    false
}

/// The advice for a list of issues.
pub fn generate_recommendations(issues: &Vec<SecurityIssue>) -> (recommendations: Vec<String>)
    ensures
        texts(recommendations@) == advice_for(issue_views(issues@)),
{
    let mut out: Vec<String> = Vec::new();
    if issues.len() == 0 {
        out.push(DEFAULT_ADVICE.to_owned());
        assert(texts(out@) =~= seq![DEFAULT_ADVICE@]);
        return out;
    }
    assert(texts(out@) =~= Seq::<Seq<char>>::empty());
    let mut i: usize = 0;
    while i < ADVICE_ORDER.len()
        invariant
            i <= ADVICE_ORDER@.len(),
            texts(out@) == advice_upto(issue_views(issues@), i as nat),
        decreases ADVICE_ORDER@.len() - i,
    {
        let c = ADVICE_ORDER[i];
        let ghost rest = texts(out@);
        if any_in_category(issues, c) {
            out.push(advice(c).to_owned());
            assert(texts(out@) =~= rest.push(advice_text(c)));
        }
        i += 1;
    }
    out
}

/// The outcome of screening one package.
#[derive(Clone, Debug)]
pub struct SecurityReport {
    pub skill_id: String,
    pub score: u32,
    pub level: String,
    pub issues: Vec<SecurityIssue>,
    pub blocked: bool,
    pub recommendations: Vec<String>,
    pub scanned_files: Vec<String>,
}

/// What a [`SecurityReport`] holds.
pub struct ReportView {
    pub skill_id: Seq<char>,
    pub score: nat,
    pub level: Seq<char>,
    pub issues: Seq<IssueView>,
    pub blocked: bool,
    pub recommendations: Seq<Seq<char>>,
    pub scanned_files: Seq<Seq<char>>,
}

impl View for SecurityReport {
    type V = ReportView;

    open spec fn view(&self) -> ReportView {
        ReportView {
            skill_id: self.skill_id@,
            score: self.score as nat,
            level: self.level@,
            issues: issue_views(self.issues@),
            blocked: self.blocked,
            recommendations: texts(self.recommendations@),
            scanned_files: texts(self.scanned_files@),
        }
    }
}

/// The report on a package whose walk met `entries`, under the label `skill_id`.
pub open spec fn report_for(
    rules: Seq<SecurityRule>,
    entries: Seq<EntryView>,
    skill_id: Seq<char>,
) -> ReportView {
    let found = walk_findings(rules, entries, entries.len());
    let score = score_for(total_weight(found));
    let blocked = any_hard(found);
    ReportView {
        skill_id,
        score,
        level: level_for(score, blocked).token(),
        issues: issues_of(found),
        blocked,
        recommendations: advice_for(issues_of(found)),
        scanned_files: walk_scanned(entries, entries.len()),
    }
}

/// What a walk of the package's directory came to.
#[derive(Clone, Debug)]
pub enum Traversal {
    /// The directory does not exist.
    Missing,
    /// The directory exists and could not be opened for the walk.
    Unopenable,
    /// The entries that the walk met, in its order.
    Walked(Vec<FileEntry>),
}

/// Why a package could not be screened.
#[derive(Clone, Copy, Debug, PartialEq, Eq, Structural)]
pub enum ScanError {
    /// The package's directory exists and could not be walked.
    RootUnreadable,
}

/// Screens the entries of a package against `rules`.
pub fn scan_entries(rules: &RuleSet, entries: &Vec<FileEntry>, skill_id: &str) -> (report:
    SecurityReport)
    ensures
        report@ == report_for(rules@, entry_views(entries@), skill_id@),
{
    let list = rules.rules();
    let mut tally = Tally::new();
    let mut scanned: Vec<String> = Vec::new();
    let ghost all = entry_views(entries@);
    assert(texts(scanned@) =~= Seq::<Seq<char>>::empty());
    let mut i: usize = 0;
    while i < entries.len()
        invariant
            i <= entries.len(),
            list@ == rules@,
            all == entry_views(entries@),
            tally.wf(),
            tally.found@ == walk_findings(rules@, all, i as nat),
            texts(scanned@) == walk_scanned(all, i as nat),
        decreases entries.len() - i,
    {
        assert(all[i as int] == entries@[i as int]@);
        scan_entry(list, &entries[i], &mut tally, &mut scanned);
        i += 1;
    }
    let score = risk_score(tally.deducted);
    let level = risk_level(score, tally.blocked);
    let recommendations = generate_recommendations(&tally.issues);
    SecurityReport {
        skill_id: skill_id.to_owned(),
        score,
        level: level.as_str().to_owned(),
        issues: tally.issues,
        blocked: tally.blocked,
        recommendations,
        scanned_files: scanned,
    }
}

/// The entries that a traversal hands to the scan: those it met, and none
/// where the directory is missing.
pub open spec fn traversal_entries(t: Traversal) -> Seq<EntryView> {
    match t {
        Traversal::Walked(entries) => entry_views(entries@),
        _ => Seq::<EntryView>::empty(),
    }
}

/// Screens a package, given what the walk of its directory came to.
///
/// A missing directory gives the report of an empty package. A directory that
/// could not be opened is the one failure; whatever else went wrong below it
/// shows only in which entries have content.
pub fn scan_directory(rules: &RuleSet, traversal: &Traversal, skill_id: &str) -> (r: Result<
    SecurityReport,
    ScanError,
>)
    ensures
        r is Err <==> traversal is Unopenable,
        r matches Err(e) ==> e == ScanError::RootUnreadable,
        r matches Ok(report) ==> report@ == report_for(
            rules@,
            traversal_entries(*traversal),
            skill_id@,
        ),
{
    match traversal {
        Traversal::Missing => {
            let none: Vec<FileEntry> = Vec::new();
            assert(entry_views(none@) =~= Seq::<EntryView>::empty());
            Ok(scan_entries(rules, &none, skill_id))
        },
        Traversal::Unopenable => Err(ScanError::RootUnreadable),
        Traversal::Walked(entries) => Ok(scan_entries(rules, entries, skill_id)),
    }
}

} // verus!
