//! Regression checks over features marked passing: which features are
//! checked, how each outcome is counted, and the report. Running the
//! verification commands happens outside.

use vstd::prelude::*;
use crate::db::models::Feature;
use crate::text::{
    decimal, decimal_string, eq_ignore_case, lines_spec, owned, push_lit, push_owned, push_str,
    str_eq_ignore_case, views,
};

verus! {

/// The outcome of checking one feature.
#[derive(Debug, Clone)]
pub struct CheckResult {
    pub description: String,
    pub passed: bool,
    pub error_message: Option<String>,
    pub was_automated: bool,
}

/// The outcome of a regression run.
#[derive(Debug, Clone)]
pub struct RegressionSummary {
    pub total_features: usize,
    pub passing_features: usize,
    pub automated_passed: usize,
    pub automated_failed: usize,
    pub manual_required: usize,
    pub results: Vec<CheckResult>,
}

/// Whether a feature is checked: it passes and, with a category filter,
/// its category matches it (ASCII case ignored).
pub open spec fn is_checked(f: Feature, filter: Option<Seq<char>>) -> bool {
    f.passes && match filter {
        Some(c) => eq_ignore_case(f.category@, c),
        None => true,
    }
}

/// The indices of the checked features, in order.
pub open spec fn checked_indices(fs: Seq<Feature>, filter: Option<Seq<char>>) -> Seq<int>
    decreases fs.len(),
{
    if fs.len() == 0 {
        Seq::empty()
    } else {
        let rest = checked_indices(fs.drop_last(), filter);
        if is_checked(fs.last(), filter) { rest.push(fs.len() - 1) } else { rest }
    }
}

/// The features a regression run checks, by index.
pub fn features_to_check(features: &Vec<Feature>, category_filter: Option<&str>) -> (r: Vec<usize>)
    ensures
        r@.map_values(|i: usize| i as int) == checked_indices(
            features@,
            match category_filter { Some(c) => Some(c@), None => None },
        ),
{
    let ghost filter = match category_filter { Some(c) => Some(c@), None => None::<Seq<char>> };
    let mut r: Vec<usize> = Vec::new();
    let mut i: usize = 0;
    while i < features.len()
        invariant
            i <= features@.len(),
            filter == (match category_filter { Some(c) => Some(c@), None => None::<Seq<char>> }),
            r@.map_values(|k: usize| k as int) == checked_indices(features@.subrange(0, i as int), filter),
        decreases features.len() - i,
    {
        let ghost prev = features@.subrange(0, i as int);
        let ghost cur = features@.subrange(0, i + 1);
        assert(cur.drop_last() =~= prev);
        let f = &features[i];
        let keep = f.passes && match category_filter {
            Some(c) => str_eq_ignore_case(f.category.as_str(), c),
            None => true,
        };
        if keep {
            r.push(i);
            assert(r@.map_values(|k: usize| k as int) =~= checked_indices(prev, filter).push(i as int));
        }
        i = i + 1;
    }
    assert(features@.subrange(0, features@.len() as int) =~= features@);
    r
}

/// The counts of a summary add up to its results, and there are no more
/// results than features checked.
pub open spec fn counts_consistent(s: RegressionSummary) -> bool {
    s.automated_passed + s.automated_failed + s.manual_required == s.results@.len()
        && s.results@.len() <= s.passing_features
}

impl RegressionSummary {
    /// A run over `total` features, `checked` of which are checked, before
    /// any check.
    pub fn start(total: usize, checked: usize) -> (s: Self)
        ensures
            s.total_features == total,
            s.passing_features == checked,
            s.automated_passed == 0,
            s.automated_failed == 0,
            s.manual_required == 0,
            s.results@.len() == 0,
            counts_consistent(s),
    {
        RegressionSummary {
            total_features: total,
            passing_features: checked,
            automated_passed: 0,
            automated_failed: 0,
            manual_required: 0,
            results: Vec::new(),
        }
    }

    /// Records a feature whose verification command was refused by the
    /// security rules: a failed automated check.
    pub fn record_blocked(&mut self, description: &str, reason: &str)
        requires
            counts_consistent(*old(self)),
            old(self).results@.len() < old(self).passing_features,
        ensures
            counts_consistent(*final(self)),
            final(self).automated_failed == old(self).automated_failed + 1,
            final(self).automated_passed == old(self).automated_passed,
            final(self).manual_required == old(self).manual_required,
            final(self).total_features == old(self).total_features,
            final(self).passing_features == old(self).passing_features,
            final(self).results@.subrange(0, old(self).results@.len() as int) == old(self).results@,
            final(self).results@.len() == old(self).results@.len() + 1,
            final(self).results@.last().description@ == description@,
            !final(self).results@.last().passed,
            final(self).results@.last().was_automated,
            final(self).results@.last().error_message matches Some(m) && m@ == "Security blocked: "@ + reason@,
    {
        let mut m = owned("Security blocked: ");
        push_str(&mut m, reason);
        self.automated_failed = self.automated_failed + 1;
        self.results.push(CheckResult {
            description: owned(description),
            passed: false,
            error_message: Some(m),
            was_automated: true,
        });
    }

    /// Records the outcome of a verification command: a pass when it
    /// succeeded, otherwise a failure with its error output.
    pub fn record_outcome(&mut self, description: &str, success: bool, stderr: &str)
        requires
            counts_consistent(*old(self)),
            old(self).results@.len() < old(self).passing_features,
        ensures
            counts_consistent(*final(self)),
            success ==> final(self).automated_passed == old(self).automated_passed + 1
                && final(self).automated_failed == old(self).automated_failed,
            !success ==> final(self).automated_failed == old(self).automated_failed + 1
                && final(self).automated_passed == old(self).automated_passed,
            final(self).manual_required == old(self).manual_required,
            final(self).total_features == old(self).total_features,
            final(self).passing_features == old(self).passing_features,
            final(self).results@.subrange(0, old(self).results@.len() as int) == old(self).results@,
            final(self).results@.len() == old(self).results@.len() + 1,
            final(self).results@.last().description@ == description@,
            final(self).results@.last().passed == success,
            final(self).results@.last().was_automated,
            success ==> final(self).results@.last().error_message is None,
            !success ==> (final(self).results@.last().error_message matches Some(m) && m@ == stderr@),
    {
        if success {
            self.automated_passed = self.automated_passed + 1;
            self.results.push(CheckResult {
                description: owned(description),
                passed: true,
                error_message: None,
                was_automated: true,
            });
        } else {
            self.automated_failed = self.automated_failed + 1;
            self.results.push(CheckResult {
                description: owned(description),
                passed: false,
                error_message: Some(owned(stderr)),
                was_automated: true,
            });
        }
    }

    /// Records a feature without a verification command: it needs a manual
    /// check and still counts as passing.
    pub fn record_manual(&mut self, description: &str)
        requires
            counts_consistent(*old(self)),
            old(self).results@.len() < old(self).passing_features,
        ensures
            counts_consistent(*final(self)),
            final(self).manual_required == old(self).manual_required + 1,
            final(self).automated_passed == old(self).automated_passed,
            final(self).automated_failed == old(self).automated_failed,
            final(self).total_features == old(self).total_features,
            final(self).passing_features == old(self).passing_features,
            final(self).results@.subrange(0, old(self).results@.len() as int) == old(self).results@,
            final(self).results@.len() == old(self).results@.len() + 1,
            final(self).results@.last().description@ == description@,
            final(self).results@.last().passed,
            !final(self).results@.last().was_automated,
            final(self).results@.last().error_message is None,
    {
        self.manual_required = self.manual_required + 1;
        self.results.push(CheckResult {
            description: owned(description),
            passed: true,
            error_message: None,
            was_automated: false,
        });
    }
}

/// What running a feature's verification command gave: refused by the
/// security rules (with the reason), or finished (with whether it
/// succeeded and its error output).
#[derive(Debug, Clone)]
pub enum CommandOutcome {
    Blocked(String),
    Finished { success: bool, stderr: String },
}

/// A check result as plain values: description, passed, error message,
/// automated.
pub open spec fn result_view(r: CheckResult) -> (Seq<char>, bool, Option<Seq<char>>, bool) {
    (r.description@, r.passed, match r.error_message { Some(e) => Some(e@), None => None }, r.was_automated)
}

/// The result for a checked feature: without a verification command a
/// manual check that counts as passing; otherwise what its command gave.
pub open spec fn result_for(f: Feature, o: Option<CommandOutcome>) -> (Seq<char>, bool, Option<Seq<char>>, bool) {
    match (f.verification_command, o) {
        (Some(_), Some(CommandOutcome::Blocked(reason))) => (f.description@, false, Some("Security blocked: "@ + reason@), true),
        (Some(_), Some(CommandOutcome::Finished { success, stderr })) => (
            f.description@,
            success,
            if success { None } else { Some(stderr@) },
            true,
        ),
        _ => (f.description@, true, None, false),
    }
}

/// The outcomes are given for every feature, and every checked feature
/// with a verification command has one.
pub open spec fn outcomes_ready(fs: Seq<Feature>, filter: Option<Seq<char>>, os: Seq<Option<CommandOutcome>>) -> bool {
    &&& os.len() == fs.len()
    &&& forall|i: int| 0 <= i < fs.len() && is_checked(fs[i], filter) && fs[i].verification_command is Some
        ==> #[trigger] os[i] is Some
}

/// The results of a run, in the order of the checked features.
pub open spec fn expected_results(fs: Seq<Feature>, filter: Option<Seq<char>>, os: Seq<Option<CommandOutcome>>) -> Seq<
    (Seq<char>, bool, Option<Seq<char>>, bool),
> {
    let idx = checked_indices(fs, filter);
    Seq::new(idx.len(), |k: int| result_for(fs[idx[k]], os[idx[k]]))
}

/// How many results are automated (or not) and passed (or not).
pub open spec fn count_of(rs: Seq<(Seq<char>, bool, Option<Seq<char>>, bool)>, automated: bool, passed: bool) -> nat
    decreases rs.len(),
{
    if rs.len() == 0 {
        0
    } else {
        count_of(rs.drop_last(), automated, passed) + if rs.last().3 == automated && rs.last().1 == passed { 1nat } else { 0nat }
    }
}

/// Every checked index is the index of a feature.
proof fn lemma_checked_in_range(fs: Seq<Feature>, filter: Option<Seq<char>>)
    ensures
        forall|k: int| 0 <= k < checked_indices(fs, filter).len() ==> 0 <= #[trigger] checked_indices(fs, filter)[k] < fs.len(),
    decreases fs.len(),
{
    if fs.len() > 0 {
        let rest = checked_indices(fs.drop_last(), filter);
        lemma_checked_in_range(fs.drop_last(), filter);
        assert forall|k: int| 0 <= k < checked_indices(fs, filter).len() implies 0 <= #[trigger] checked_indices(
            fs,
            filter,
        )[k] < fs.len() by {
            if k < rest.len() {
                assert(0 <= rest[k] < fs.drop_last().len());
            }
        }
    }
}

/// Runs the regression checks over the features marked passing (with a
/// category filter, only those of that category, case ignored), given what
/// each checked feature's verification command gave: a refused command or
/// a failed one is a regression, a feature without a command needs a manual
/// check and still counts as passing.
pub fn run_regression_check(
    features: &Vec<Feature>,
    category_filter: Option<&str>,
    outcomes: &Vec<Option<CommandOutcome>>,
) -> (s: RegressionSummary)
    requires
        outcomes_ready(features@, match category_filter { Some(c) => Some(c@), None => None }, outcomes@),
    ensures
        ({
            let filter = match category_filter { Some(c) => Some(c@), None => None };
            let rs = expected_results(features@, filter, outcomes@);
            &&& s.total_features == features@.len()
            &&& s.passing_features == checked_indices(features@, filter).len()
            &&& s.results@.map_values(|r: CheckResult| result_view(r)) == rs
            &&& s.automated_passed == count_of(rs, true, true)
            &&& s.automated_failed == count_of(rs, true, false)
            &&& s.manual_required == count_of(rs, false, true)
        }),
{
    let ghost filter = match category_filter { Some(c) => Some(c@), None => None };
    let ghost idx_spec = checked_indices(features@, filter);
    let ghost rs = expected_results(features@, filter, outcomes@);
    proof {
        lemma_checked_in_range(features@, filter);
    }
    let idx = features_to_check(features, category_filter);
    assert(idx@.len() == idx_spec.len());
    let mut summary = RegressionSummary::start(features.len(), idx.len());
    let mut k: usize = 0;
    while k < idx.len()
        invariant
            k <= idx@.len(),
            idx@.map_values(|i: usize| i as int) == idx_spec,
            idx_spec == checked_indices(features@, filter),
            rs == expected_results(features@, filter, outcomes@),
            forall|j: int| 0 <= j < idx_spec.len() ==> 0 <= #[trigger] idx_spec[j] < features@.len(),
            outcomes_ready(features@, filter, outcomes@),
            summary.total_features == features@.len(),
            summary.passing_features == idx@.len(),
            counts_consistent(summary),
            summary.results@.len() == k,
            summary.results@.map_values(|r: CheckResult| result_view(r)) == rs.take(k as int),
            summary.automated_passed == count_of(rs.take(k as int), true, true),
            summary.automated_failed == count_of(rs.take(k as int), true, false),
            summary.manual_required == count_of(rs.take(k as int), false, true),
        decreases idx.len() - k,
    {
        let i = idx[k];
        proof {
            assert(idx@.map_values(|i: usize| i as int)[k as int] == i as int);
            assert(0 <= idx_spec[k as int] < features@.len());
        }
        let f = &features[i];
        let ghost before = summary.results@;
        match &f.verification_command {
            None => summary.record_manual(f.description.as_str()),
            Some(_) => match &outcomes[i] {
                Some(CommandOutcome::Blocked(reason)) => summary.record_blocked(f.description.as_str(), reason.as_str()),
                Some(CommandOutcome::Finished { success, stderr }) => summary.record_outcome(
                    f.description.as_str(),
                    *success,
                    stderr.as_str(),
                ),
                None => summary.record_manual(f.description.as_str()),
            },
        }
        proof {
            let x = summary.results@.last();
            assert(summary.results@ =~= before.push(x));
            assert(result_view(x) == rs[k as int]);
            let t = rs.take(k + 1);
            assert(t.drop_last() =~= rs.take(k as int));
            assert(summary.results@.map_values(|r: CheckResult| result_view(r)) =~= rs.take(k as int).push(result_view(x)));
            assert(t =~= rs.take(k as int).push(rs[k as int]));
        }
        k = k + 1;
    }
    assert(rs.take(idx@.len() as int) =~= rs);
    summary
}

/// Results that are manual always pass, so each result is counted exactly
/// once among passed, failed and manual.
proof fn lemma_count_partition(rs: Seq<(Seq<char>, bool, Option<Seq<char>>, bool)>)
    requires
        forall|i: int| 0 <= i < rs.len() ==> (#[trigger] rs[i]).3 || rs[i].1,
    ensures
        count_of(rs, true, true) + count_of(rs, true, false) + count_of(rs, false, true) == rs.len(),
    decreases rs.len(),
{
    if rs.len() > 0 {
        let rest = rs.drop_last();
        assert forall|i: int| 0 <= i < rest.len() implies (#[trigger] rest[i]).3 || rest[i].1 by {
            assert(rest[i] == rs[i]);
        }
        lemma_count_partition(rest);
        assert(rs.last() == rs[rs.len() - 1]);
    }
}

/// Every checked feature is counted once: after a run, the passed, failed
/// and manual counts add up to the number of features checked, which is
/// the number of results.
pub proof fn lemma_run_counts_every_feature(fs: Seq<Feature>, filter: Option<Seq<char>>, os: Seq<Option<CommandOutcome>>)
    ensures
        ({
            let rs = expected_results(fs, filter, os);
            &&& rs.len() == checked_indices(fs, filter).len()
            &&& count_of(rs, true, true) + count_of(rs, true, false) + count_of(rs, false, true) == rs.len()
        }),
{
    let rs = expected_results(fs, filter, os);
    assert forall|i: int| 0 <= i < rs.len() implies (#[trigger] rs[i]).3 || rs[i].1 by {
        let idx = checked_indices(fs, filter);
        let f = fs[idx[i]];
        let o = os[idx[i]];
        assert(rs[i] == result_for(f, o));
    }
    lemma_count_partition(rs);
}

/// The first line of an error output, if it has one.
pub open spec fn first_line(err: Seq<char>) -> Option<Seq<char>> {
    let ls = lines_spec(err);
    if ls.len() > 0 { Some(ls[0]) } else { None }
}

/// The report lines for one regression: the feature and the first line of
/// its error.
pub open spec fn regression_lines(r: CheckResult) -> Seq<Seq<char>> {
    if r.was_automated && !r.passed {
        seq!["  • "@ + r.description@] + match r.error_message {
            Some(e) => match first_line(e@) {
                Some(l) => seq!["    └─ "@ + l],
                None => seq![],
            },
            None => seq![],
        }
    } else {
        seq![]
    }
}

/// The report lines for all regressions.
pub open spec fn all_regression_lines(rs: Seq<CheckResult>) -> Seq<Seq<char>>
    decreases rs.len(),
{
    if rs.len() == 0 {
        Seq::empty()
    } else {
        all_regression_lines(rs.drop_last()) + regression_lines(rs.last())
    }
}

/// The report of a run: the counts, then either the regressions found or
/// the all-clear (with a reminder of manual checks).
pub open spec fn report_spec(s: RegressionSummary) -> Seq<Seq<char>> {
    let head = seq![
        ""@,
        "════════════════════════════════════════"@,
        "       REGRESSION CHECK SUMMARY"@,
        "════════════════════════════════════════"@,
        ""@,
        "Total features:        "@ + decimal(s.total_features as nat),
        "Features checked:      "@ + decimal(s.passing_features as nat),
        ""@,
        "Automated tests:"@,
        "  ✓ Passed:           "@ + decimal(s.automated_passed as nat),
        "  ✗ Failed:           "@ + decimal(s.automated_failed as nat),
        "  ○ Manual required:  "@ + decimal(s.manual_required as nat),
        ""@,
    ];
    let body = if s.automated_failed > 0 {
        seq!["❌ REGRESSIONS DETECTED:"@] + all_regression_lines(s.results@) + seq![
            ""@,
            "Action: Fix regressions before continuing."@,
        ]
    } else {
        seq!["✅ All automated regression tests passed!"@] + if s.manual_required > 0 {
            seq!["   Reminder: "@ + decimal(s.manual_required as nat) + " features require manual verification."@]
        } else {
            seq![]
        }
    };
    head + body + seq![""@]
}

/// Appends "{label}{n}".
fn push_count(lines: &mut Vec<String>, label: &str, n: usize)
    ensures
        views(final(lines)@) == views(old(lines)@).push(label@ + decimal(n as nat)),
{
    let mut l = owned(label);
    push_str(&mut l, decimal_string(n as u64).as_str());
    push_owned(lines, l);
}

/// Appends the report lines of one result.
fn push_regression(lines: &mut Vec<String>, r: &CheckResult)
    ensures
        views(final(lines)@) == views(old(lines)@) + regression_lines(*r),
{
    let ghost start = views(lines@);
    if r.was_automated && !r.passed {
        let mut l = owned("  • ");
        push_str(&mut l, r.description.as_str());
        push_owned(lines, l);
        match &r.error_message {
            Some(e) => {
                let cs = crate::text::to_chars(e.as_str());
                let ls = crate::text::lines_chars(cs.as_slice());
                if ls.len() > 0 {
                    let mut m = owned("    └─ ");
                    crate::text::push_chars(&mut m, ls[0].as_slice());
                    push_owned(lines, m);
                }
            },
            None => {},
        }
    }
    assert(views(lines@) =~= start + regression_lines(*r));
}

/// The lines of a run's report.
pub fn report_results(summary: &RegressionSummary) -> (lines: Vec<String>)
    ensures
        views(lines@) == report_spec(*summary),
{
    let mut lines: Vec<String> = Vec::new();
    push_lit(&mut lines, "");
    push_lit(&mut lines, "════════════════════════════════════════");
    push_lit(&mut lines, "       REGRESSION CHECK SUMMARY");
    push_lit(&mut lines, "════════════════════════════════════════");
    push_lit(&mut lines, "");
    push_count(&mut lines, "Total features:        ", summary.total_features);
    push_count(&mut lines, "Features checked:      ", summary.passing_features);
    push_lit(&mut lines, "");
    push_lit(&mut lines, "Automated tests:");
    push_count(&mut lines, "  ✓ Passed:           ", summary.automated_passed);
    push_count(&mut lines, "  ✗ Failed:           ", summary.automated_failed);
    push_count(&mut lines, "  ○ Manual required:  ", summary.manual_required);
    push_lit(&mut lines, "");
    let ghost head = views(lines@);
    if summary.automated_failed > 0 {
        push_lit(&mut lines, "❌ REGRESSIONS DETECTED:");
        let ghost start = views(lines@);
        let ghost rs = summary.results@;
        let mut i: usize = 0;
        while i < summary.results.len()
            invariant
                i <= rs.len(),
                rs == summary.results@,
                views(lines@) == start + all_regression_lines(rs.subrange(0, i as int)),
            decreases summary.results.len() - i,
        {
            let ghost prev = rs.subrange(0, i as int);
            let ghost cur = rs.subrange(0, i + 1);
            assert(cur.drop_last() =~= prev);
            push_regression(&mut lines, &summary.results[i]);
            i = i + 1;
            assert(views(lines@) =~= start + all_regression_lines(cur));
        }
        assert(rs.subrange(0, rs.len() as int) =~= rs);
        push_lit(&mut lines, "");
        push_lit(&mut lines, "Action: Fix regressions before continuing.");
    } else {
        push_lit(&mut lines, "✅ All automated regression tests passed!");
        if summary.manual_required > 0 {
            let mut l = owned("   Reminder: ");
            push_str(&mut l, decimal_string(summary.manual_required as u64).as_str());
            push_str(&mut l, " features require manual verification.");
            push_owned(&mut lines, l);
        }
    }
    push_lit(&mut lines, "");
    assert(views(lines@) =~= report_spec(*summary));
    lines
}


/// A line that is empty or does not start with `c`.
pub open spec fn not_led_by(l: Seq<char>, c: char) -> bool {
    l.len() == 0 || l[0] != c
}

/// Every regression line is indented: none starts with a character other
/// than a space.
proof fn lemma_regression_lines_indented(rs: Seq<CheckResult>, c: char)
    requires
        c != ' ',
    ensures
        forall|i: int| 0 <= i < all_regression_lines(rs).len() ==> not_led_by(#[trigger] all_regression_lines(rs)[i], c),
    decreases rs.len(),
{
    reveal_strlit("  • ");
    reveal_strlit("    └─ ");
    if rs.len() > 0 {
        lemma_regression_lines_indented(rs.drop_last(), c);
        let r = rs.last();
        let a = all_regression_lines(rs.drop_last());
        let b = regression_lines(r);
        assert(all_regression_lines(rs) == a + b);
        assert forall|i: int| 0 <= i < b.len() implies not_led_by(#[trigger] b[i], c) by {
            if i == 0 {
                assert(b[0] == "  • "@ + r.description@);
                assert(b[0][0] == ' ');
            } else {
                let l = first_line(r.error_message->0@)->0;
                assert(b[1] == "    └─ "@ + l);
                assert(b[1][0] == ' ');
            }
        }
        assert forall|i: int| 0 <= i < (a + b).len() implies not_led_by(#[trigger] (a + b)[i], c) by {
            if i < a.len() {
                assert((a + b)[i] == a[i]);
            } else {
                assert((a + b)[i] == b[i - a.len()]);
            }
        }
    }
}

/// Every failed automated check is listed by its description.
proof fn lemma_regression_lines_list(rs: Seq<CheckResult>, k: int)
    requires
        0 <= k < rs.len(),
        rs[k].was_automated && !rs[k].passed,
    ensures
        all_regression_lines(rs).contains("  • "@ + rs[k].description@),
    decreases rs.len(),
{
    let a = all_regression_lines(rs.drop_last());
    let b = regression_lines(rs.last());
    assert(all_regression_lines(rs) == a + b);
    if k == rs.len() - 1 {
        assert((a + b)[a.len() as int] == b[0]);
    } else {
        lemma_regression_lines_list(rs.drop_last(), k);
        let j = choose|j: int| 0 <= j < a.len() && a[j] == "  • "@ + rs[k].description@;
        assert((a + b)[j] == a[j]);
    }
}

/// The report announces regressions, and lists every failed automated
/// check, exactly when some automated check failed; the all-clear line
/// appears exactly when none did.
pub proof fn lemma_report_announces_regressions(s: RegressionSummary)
    ensures
        report_spec(s).contains("❌ REGRESSIONS DETECTED:"@) <==> s.automated_failed > 0,
        report_spec(s).contains("✅ All automated regression tests passed!"@) <==> s.automated_failed == 0,
        s.automated_failed > 0 ==> forall|k: int|
            0 <= k < s.results@.len() && (#[trigger] s.results@[k]).was_automated && !s.results@[k].passed
                ==> report_spec(s).contains("  • "@ + s.results@[k].description@),
{
    reveal_strlit("❌ REGRESSIONS DETECTED:");
    reveal_strlit("✅ All automated regression tests passed!");
    reveal_strlit("Action: Fix regressions before continuing.");
    reveal_strlit("   Reminder: ");
    reveal_strlit("════════════════════════════════════════");
    reveal_strlit("       REGRESSION CHECK SUMMARY");
    reveal_strlit("Total features:        ");
    reveal_strlit("Features checked:      ");
    reveal_strlit("Automated tests:");
    reveal_strlit("  ✓ Passed:           ");
    reveal_strlit("  ✗ Failed:           ");
    reveal_strlit("  ○ Manual required:  ");
    reveal_strlit("");
    let rep = report_spec(s);
    let detected = "❌ REGRESSIONS DETECTED:"@;
    let clear = "✅ All automated regression tests passed!"@;
    let rs = s.results@;
    lemma_regression_lines_indented(rs, '❌');
    lemma_regression_lines_indented(rs, '✅');
    // Every line but the announcement itself is led by another character.
    assert forall|i: int| 0 <= i < rep.len() && i != 13 implies not_led_by(#[trigger] rep[i], '❌')
        && not_led_by(rep[i], '✅') by {
        if i >= 13 && i < rep.len() - 1 && s.automated_failed > 0 {
            let body = seq![detected] + all_regression_lines(rs) + seq![""@, "Action: Fix regressions before continuing."@];
            assert(rep[i] == body[i - 13]);
            if i - 14 < all_regression_lines(rs).len() {
                assert(body[i - 13] == all_regression_lines(rs)[i - 14]);
            }
        }
    }
    if s.automated_failed > 0 {
        assert(rep[13] == detected);
        assert(!rep.contains(clear)) by {
            if rep.contains(clear) {
                let i = choose|i: int| 0 <= i < rep.len() && rep[i] == clear;
                assert(clear[0] == '✅');
                if i == 13 {
                    assert(detected[0] != clear[0]);
                }
            }
        }
        assert forall|k: int|
            0 <= k < rs.len() && (#[trigger] rs[k]).was_automated && !rs[k].passed
                implies rep.contains("  • "@ + rs[k].description@) by {
            lemma_regression_lines_list(rs, k);
            let ls = all_regression_lines(rs);
            let j = choose|j: int| 0 <= j < ls.len() && ls[j] == "  • "@ + rs[k].description@;
            let body = seq![detected] + ls + seq![""@, "Action: Fix regressions before continuing."@];
            assert(body[j + 1] == ls[j]);
            assert(rep[14 + j] == body[j + 1]);
        }
    } else {
        assert(rep[13] == clear);
        assert(!rep.contains(detected)) by {
            if rep.contains(detected) {
                let i = choose|i: int| 0 <= i < rep.len() && rep[i] == detected;
                assert(detected[0] == '❌');
                if i == 13 {
                    assert(detected[0] != clear[0]);
                }
            }
        }
    }
}

} // verus!
