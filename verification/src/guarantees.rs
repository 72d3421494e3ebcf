//! What holds of every report, proved from the definitions of the scan.

use crate::rules::SecurityRule;
use crate::security::{
    advice_for, advice_text, advice_upto, any_hard, binary_finding, entry_findings, entry_scanned,
    has_category, is_comment, lemma_any_hard_add, lemma_total_weight_add, line_findings, line_hits,
    report_for, rule_finding, text_findings, total_weight, walk_findings, IssueView, ReportView,
    BINARY_WEIGHT, DEFAULT_ADVICE, FULL_SCORE,
};
use crate::selector::{class_of, EntryView, FileClass};
use crate::taxonomy::{Category, RiskLevel, Severity};
use crate::text::lines;
use vstd::prelude::*;
use vstd::utf8::{decode_utf8, valid_utf8};

verus! {

/// A package whose walk met nothing has no findings.
pub proof fn empty_package_has_no_findings(rules: Seq<SecurityRule>, entries: Seq<EntryView>)
    requires
        entries.len() == 0,
    ensures
        walk_findings(rules, entries, entries.len()).len() == 0,
{
}

/// A package of which every entry is benign has no findings.
pub proof fn benign_package_has_no_findings(
    rules: Seq<SecurityRule>,
    entries: Seq<EntryView>,
    n: nat,
)
    requires
        n <= entries.len(),
        forall|k: int| 0 <= k < n ==> entry_findings(rules, #[trigger] entries[k]).len() == 0,
    ensures
        walk_findings(rules, entries, n).len() == 0,
    decreases n,
{
    if n > 0 {
        benign_package_has_no_findings(rules, entries, (n - 1) as nat);
    }
}

/// A line that no rule matches has no findings.
pub proof fn unmatched_line_has_no_findings(
    rules: Seq<SecurityRule>,
    n: nat,
    file: Seq<char>,
    line_no: nat,
    line: Seq<char>,
)
    requires
        n <= rules.len(),
        forall|i: int| 0 <= i < n ==> !(#[trigger] rules[i]).matches(line),
    ensures
        line_hits(rules, n, file, line_no, line).len() == 0,
    decreases n,
{
    if n > 0 {
        unmatched_line_has_no_findings(rules, (n - 1) as nat, file, line_no, line);
    }
}

/// A package without findings is safe: the full score, not blocked, and the
/// default advice alone.
pub proof fn clean_package_is_safe(
    rules: Seq<SecurityRule>,
    entries: Seq<EntryView>,
    skill_id: Seq<char>,
)
    requires
        walk_findings(rules, entries, entries.len()).len() == 0,
    ensures
        report_for(rules, entries, skill_id).score == FULL_SCORE,
        report_for(rules, entries, skill_id).level == RiskLevel::Safe.token(),
        !report_for(rules, entries, skill_id).blocked,
        report_for(rules, entries, skill_id).issues.len() == 0,
        report_for(rules, entries, skill_id).recommendations == seq![DEFAULT_ADVICE@],
{
}

/// The score is what the total weight leaves of the full score: never above
/// it, and nothing once the weights add up to it or more.
pub proof fn score_saturates(rules: Seq<SecurityRule>, entries: Seq<EntryView>, skill_id: Seq<char>)
    ensures
        report_for(rules, entries, skill_id).score <= FULL_SCORE,
        report_for(rules, entries, skill_id).score + total_weight(
            walk_findings(rules, entries, entries.len()),
        ) >= FULL_SCORE,
        total_weight(walk_findings(rules, entries, entries.len())) >= FULL_SCORE ==> report_for(
            rules,
            entries,
            skill_id,
        ).score == 0,
        total_weight(walk_findings(rules, entries, entries.len())) < FULL_SCORE ==> report_for(
            rules,
            entries,
            skill_id,
        ).score == FULL_SCORE - total_weight(walk_findings(rules, entries, entries.len())),
{
}

/// A blocked package is critical, whatever its score.
pub proof fn blocked_is_critical(
    rules: Seq<SecurityRule>,
    entries: Seq<EntryView>,
    skill_id: Seq<char>,
)
    requires
        report_for(rules, entries, skill_id).blocked,
    ensures
        report_for(rules, entries, skill_id).level == RiskLevel::Critical.token(),
{
}

/// Two scans of the same entries with the same rules give the same report.
pub proof fn scan_is_deterministic(
    rules: Seq<SecurityRule>,
    entries: Seq<EntryView>,
    skill_id: Seq<char>,
    first: ReportView,
    second: ReportView,
)
    requires
        first == report_for(rules, entries, skill_id),
        second == report_for(rules, entries, skill_id),
    ensures
        first == second,
        first.issues == second.issues,
        first.scanned_files == second.scanned_files,
        first.score == second.score,
        first.level == second.level,
{
}

/// A comment line gives no finding, whatever the rules.
pub proof fn comment_line_has_no_findings(
    rules: Seq<SecurityRule>,
    file: Seq<char>,
    line_no: nat,
    line: Seq<char>,
)
    requires
        is_comment(line),
    ensures
        line_findings(rules, file, line_no, line).len() == 0,
{
}

/// A line that is no comment gives exactly one finding for a rule set of one
/// rule that matches it.
pub proof fn matching_line_has_one_finding(
    rule: SecurityRule,
    file: Seq<char>,
    line_no: nat,
    line: Seq<char>,
)
    requires
        !is_comment(line),
        rule.matches(line),
    ensures
        line_findings(seq![rule], file, line_no, line) == seq![
            rule_finding(rule, file, line_no, line),
        ],
{
    reveal_with_fuel(line_hits, 2);
    assert(line_hits(seq![rule], 0, file, line_no, line).push(
        rule_finding(rule, file, line_no, line),
    ) =~= seq![rule_finding(rule, file, line_no, line)]);
}

/// A blocked binary gives exactly one finding: critical, of the full weight
/// and blocking. It is recorded as scanned, and what its bytes are plays no part.
pub proof fn binary_is_flagged_unread(rules: Seq<SecurityRule>, e: EntryView, other: EntryView)
    requires
        class_of(e.components, e.is_file) == FileClass::BlockedBinary,
        other.path == e.path,
        other.components == e.components,
        other.is_file == e.is_file,
    ensures
        entry_findings(rules, e) == seq![binary_finding(e)],
        entry_findings(rules, e)[0].issue.severity == Severity::Critical,
        entry_findings(rules, e)[0].issue.file == e.path,
        entry_findings(rules, e)[0].hard,
        entry_findings(rules, e)[0].weight == BINARY_WEIGHT,
        entry_scanned(e),
        entry_findings(rules, other) == entry_findings(rules, e),
{
}

proof fn any_hard_in_line(
    rules: Seq<SecurityRule>,
    n: nat,
    file: Seq<char>,
    line_no: nat,
    line: Seq<char>,
    i: int,
)
    requires
        0 <= i < n <= rules.len(),
        rules[i].matches(line),
        rules[i].hard_trigger,
    ensures
        any_hard(line_hits(rules, n, file, line_no, line)),
    decreases n,
{
    let rest = line_hits(rules, (n - 1) as nat, file, line_no, line);
    if i == n - 1 {
        let f = rule_finding(rules[i], file, line_no, line);
        assert(rest.push(f)[rest.len() as int].hard);
    } else {
        any_hard_in_line(rules, (n - 1) as nat, file, line_no, line, i);
        if rules[n - 1].matches(line) {
            let f = rule_finding(rules[n - 1], file, line_no, line);
            lemma_any_hard_add(rest, seq![f]);
            assert(rest + seq![f] == rest.push(f));
        }
    }
}

proof fn any_hard_in_text(
    rules: Seq<SecurityRule>,
    file: Seq<char>,
    all: Seq<Seq<char>>,
    n: nat,
    j: int,
    i: int,
)
    requires
        0 <= j < n <= all.len(),
        0 <= i < rules.len(),
        !is_comment(all[j]),
        rules[i].matches(all[j]),
        rules[i].hard_trigger,
    ensures
        any_hard(text_findings(rules, file, all, n)),
    decreases n,
{
    let before = text_findings(rules, file, all, (n - 1) as nat);
    let here = line_findings(rules, file, n, all[n - 1]);
    lemma_any_hard_add(before, here);
    if j == n - 1 {
        any_hard_in_line(rules, rules.len(), file, n, all[j], i);
    } else {
        any_hard_in_text(rules, file, all, (n - 1) as nat, j, i);
    }
}

proof fn any_hard_in_walk(rules: Seq<SecurityRule>, entries: Seq<EntryView>, n: nat, k: int)
    requires
        0 <= k < n <= entries.len(),
        any_hard(entry_findings(rules, entries[k])),
    ensures
        any_hard(walk_findings(rules, entries, n)),
    decreases n,
{
    lemma_any_hard_add(
        walk_findings(rules, entries, (n - 1) as nat),
        entry_findings(rules, entries[n - 1]),
    );
    if k < n - 1 {
        any_hard_in_walk(rules, entries, (n - 1) as nat, k);
    }
}

/// One match of a hard-trigger rule blocks the package and makes it
/// critical, whatever else the package holds: where entry `k` is a scannable
/// file whose bytes are text, line `j` of it (counting from 0) is no comment,
/// and rule `i` is a hard trigger that matches that line.
pub proof fn hard_trigger_blocks(
    rules: Seq<SecurityRule>,
    entries: Seq<EntryView>,
    skill_id: Seq<char>,
    k: int,
    j: int,
    i: int,
)
    requires
        0 <= k < entries.len(),
        class_of(entries[k].components, entries[k].is_file) == FileClass::Scannable,
        entries[k].content is Some,
        valid_utf8(entries[k].content->0),
        0 <= j < lines(decode_utf8(entries[k].content->0)).len(),
        !is_comment(lines(decode_utf8(entries[k].content->0))[j]),
        0 <= i < rules.len(),
        rules[i].hard_trigger,
        rules[i].matches(lines(decode_utf8(entries[k].content->0))[j]),
    ensures
        report_for(rules, entries, skill_id).blocked,
        report_for(rules, entries, skill_id).level == RiskLevel::Critical.token(),
{
    let all = lines(decode_utf8(entries[k].content->0));
    any_hard_in_text(rules, entries[k].path, all, all.len(), j, i);
    any_hard_in_walk(rules, entries, entries.len(), k);
}

/// One blocked binary blocks the package and makes it critical with a score
/// of nothing, whatever else the package holds.
pub proof fn binary_blocks(
    rules: Seq<SecurityRule>,
    entries: Seq<EntryView>,
    skill_id: Seq<char>,
    k: int,
)
    requires
        0 <= k < entries.len(),
        class_of(entries[k].components, entries[k].is_file) == FileClass::BlockedBinary,
    ensures
        report_for(rules, entries, skill_id).blocked,
        report_for(rules, entries, skill_id).level == RiskLevel::Critical.token(),
        report_for(rules, entries, skill_id).score == 0,
{
    assert(entry_findings(rules, entries[k])[0].hard);
    any_hard_in_walk(rules, entries, entries.len(), k);
    weight_of_walk_covers_entry(rules, entries, entries.len(), k);
}

proof fn weight_of_walk_covers_entry(
    rules: Seq<SecurityRule>,
    entries: Seq<EntryView>,
    n: nat,
    k: int,
)
    requires
        0 <= k < n <= entries.len(),
    ensures
        total_weight(walk_findings(rules, entries, n)) >= total_weight(
            entry_findings(rules, entries[k]),
        ),
    decreases n,
{
    lemma_total_weight_add(
        walk_findings(rules, entries, (n - 1) as nat),
        entry_findings(rules, entries[n - 1]),
    );
    if k < n - 1 {
        weight_of_walk_covers_entry(rules, entries, (n - 1) as nat, k);
    }
}

/// Issues of one category alone get the advice of that category and no other,
/// however many they are.
pub proof fn one_category_one_advice(issues: Seq<IssueView>, c: Category)
    requires
        issues.len() > 0,
        forall|i: int| 0 <= i < issues.len() ==> (#[trigger] issues[i]).category == c,
    ensures
        advice_for(issues) == seq![advice_text(c)],
{
    assert(issues[0].category == c);
    assert forall|d: Category| has_category(issues, d) == (d == c) by {}
    reveal_with_fuel(advice_upto, 9);
    assert(advice_for(issues) =~= seq![advice_text(c)]);
}

} // verus!
