//! The summary of a finished run — totals, percentages, per-unit detail —
//! and the small decisions of the non-interactive fallback path.

use crate::detect::{DetectedManager, DetectedManagerView};
use crate::status::{ManagerStatus, StatusView};
use crate::text::{
    ascii_lower, digit_char, digit_to_char, pad_right, push_char, push_string, spec_decimal,
    spec_lower, spec_pad_right, spec_trim, str_eq, trim_spaces, u64_to_string,
};
use vstd::prelude::*;

verus! {

/// The statuses of a unit collection, in order.
pub open spec fn spec_statuses(ms: Seq<DetectedManager>) -> Seq<StatusView> {
    ms.map_values(|m: DetectedManager| m@.status)
}

/// How many of the first `n` statuses are `Success`.
pub open spec fn count_success(s: Seq<StatusView>, n: int) -> int
    decreases n,
{
    if n <= 0 {
        0
    } else {
        count_success(s, n - 1) + if s[n - 1] is Success {
            1int
        } else {
            0int
        }
    }
}

/// How many of the first `n` statuses are `Failed`.
pub open spec fn count_failed(s: Seq<StatusView>, n: int) -> int
    decreases n,
{
    if n <= 0 {
        0
    } else {
        count_failed(s, n - 1) + if s[n - 1] is Failed {
            1int
        } else {
            0int
        }
    }
}

/// The counts a finished run reports: everything not `Success` or `Failed`
/// is incomplete.
pub struct UpgradeSummary {
    pub total: usize,
    pub successful: usize,
    pub failed: usize,
    pub incomplete: usize,
}

/// Count the units by their status. The three counts always add up to the
/// total.
pub fn summarize(managers: &Vec<DetectedManager>) -> (r: UpgradeSummary)
    ensures
        r.total == managers@.len(),
        r.successful == count_success(spec_statuses(managers@), managers@.len() as int),
        r.failed == count_failed(spec_statuses(managers@), managers@.len() as int),
        r.successful + r.failed + r.incomplete == r.total,
{
    let n = managers.len();
    let mut successful: usize = 0;
    let mut failed: usize = 0;
    let mut i: usize = 0;
    while i < n
        invariant
            i <= n,
            n == managers@.len(),
            successful == count_success(spec_statuses(managers@), i as int),
            failed == count_failed(spec_statuses(managers@), i as int),
            successful + failed <= i,
        decreases n - i,
    {
        if managers[i].status.is_success() {
            successful = successful + 1;
        } else if managers[i].status.is_failed() {
            failed = failed + 1;
        }
        i = i + 1;
    }
    UpgradeSummary { total: n, successful, failed, incomplete: n - successful - failed }
}

/// `part` of `total` in tenths of a percent, rounded down.
pub fn percent_tenths(part: usize, total: usize) -> (r: u64)
    requires
        part <= total,
        0 < total,
    ensures
        r == part as int * 1000 / total as int,
        r <= 1000,
{
    let p: u128 = part as u128;
    let t: u128 = total as u128;
    let tenths: u128 = (p * 1000) / t;
    proof {
        assert((p as int * 1000) / (t as int) <= 1000) by (nonlinear_arith)
            requires
                p <= t,
                0 < t,
        {}
    }
    tenths as u64
}

/// A percentage with one decimal place, as the summary prints it.
pub open spec fn spec_percent_display(part: int, total: int) -> Seq<char> {
    let tenths = part * 1000 / total;
    spec_decimal((tenths / 10) as nat) + seq!['.'] + seq![digit_char(tenths % 10)]
}

/// `part` of `total` written as a percentage with one decimal place.
pub fn percent_display(part: usize, total: usize) -> (r: String)
    requires
        part <= total,
        0 < total,
    ensures
        r@ == spec_percent_display(part as int, total as int),
{
    let tenths = percent_tenths(part, total);
    let mut r = u64_to_string(tenths / 10);
    push_char(&mut r, '.');
    push_char(&mut r, digit_to_char(tenths % 10));
    proof {
        assert(r@ =~= spec_percent_display(part as int, total as int));
    }
    r
}

/// The lines one unit contributes to the detailed results: its padded name
/// and verdict, and for a failure the reason on a line of its own.
pub open spec fn spec_detail_lines(m: DetectedManagerView) -> Seq<Seq<char>> {
    match m.status {
        StatusView::Success(_) => seq!["  \u{2713} "@ + spec_pad_right(m.name, 20) + " Success"@],
        StatusView::Failed(reason, _) => seq![
            "  \u{2717} "@ + spec_pad_right(m.name, 20) + " Failed"@,
            "    \u{2514}\u{2500} Error: "@ + reason,
        ],
        _ => seq!["  ? "@ + spec_pad_right(m.name, 20) + " Incomplete"@],
    }
}

/// The detailed-results lines for one unit.
pub fn unit_detail_lines(m: &DetectedManager) -> (r: Vec<String>)
    ensures
        r.deep_view() == spec_detail_lines(m@),
{
    let padded = pad_right(m.name.as_str(), 20);
    let mut r: Vec<String> = Vec::new();
    match &m.status {
        ManagerStatus::Success(_) => {
            let mut line = "  \u{2713} ".to_owned();
            line.append(padded.as_str());
            line.append(" Success");
            push_string(&mut r, line);
        },
        ManagerStatus::Failed(reason, _) => {
            let mut line = "  \u{2717} ".to_owned();
            line.append(padded.as_str());
            line.append(" Failed");
            push_string(&mut r, line);
            let mut err_line = "    \u{2514}\u{2500} Error: ".to_owned();
            err_line.append(reason.as_str());
            push_string(&mut r, err_line);
        },
        _ => {
            let mut line = "  ? ".to_owned();
            line.append(padded.as_str());
            line.append(" Incomplete");
            push_string(&mut r, line);
        },
    }
    proof {
        assert(r.deep_view() =~= spec_detail_lines(m@));
    }
    r
}

/// The overall-results lines of the summary: the total, then successes and
/// failures with their percentages, and the incomplete count only when
/// there are any.
pub open spec fn spec_overall_lines(
    total: int,
    successful: int,
    failed: int,
    incomplete: int,
) -> Seq<Seq<char>> {
    seq![
        "Overall Results:"@,
        "  Total Managers:    "@ + spec_decimal(total as nat),
        "  \u{2713} Successful:      "@ + spec_decimal(successful as nat) + " ("@
            + spec_percent_display(successful, total) + "%)"@,
        "  \u{2717} Failed:          "@ + spec_decimal(failed as nat) + " ("@
            + spec_percent_display(failed, total) + "%)"@,
    ] + if incomplete > 0 {
        seq![
            "  ? Incomplete:      "@ + spec_decimal(incomplete as nat) + " ("@
                + spec_percent_display(incomplete, total) + "%)"@,
        ]
    } else {
        Seq::<Seq<char>>::empty()
    }
}

fn count_line(label: &str, count: usize, total: usize) -> (r: String)
    requires
        count <= total,
        0 < total,
    ensures
        r@ == label@ + spec_decimal(count as nat) + " ("@ + spec_percent_display(
            count as int,
            total as int,
        ) + "%)"@,
{
    let mut r = label.to_owned();
    let num = u64_to_string(count as u64);
    r.append(num.as_str());
    r.append(" (");
    let pct = percent_display(count, total);
    r.append(pct.as_str());
    r.append("%)");
    proof {
        assert(r@ =~= label@ + spec_decimal(count as nat) + " ("@ + spec_percent_display(
            count as int,
            total as int,
        ) + "%)"@);
    }
    r
}

/// The overall-results block of the summary.
pub fn overall_lines(s: &UpgradeSummary) -> (r: Vec<String>)
    requires
        0 < s.total,
        s.successful + s.failed + s.incomplete == s.total,
    ensures
        r.deep_view() == spec_overall_lines(
            s.total as int,
            s.successful as int,
            s.failed as int,
            s.incomplete as int,
        ),
{
    let mut r: Vec<String> = Vec::new();
    push_string(&mut r, "Overall Results:".to_owned());
    let mut total_line = "  Total Managers:    ".to_owned();
    let total_num = u64_to_string(s.total as u64);
    total_line.append(total_num.as_str());
    push_string(&mut r, total_line);
    push_string(&mut r, count_line("  \u{2713} Successful:      ", s.successful, s.total));
    push_string(&mut r, count_line("  \u{2717} Failed:          ", s.failed, s.total));
    if s.incomplete > 0 {
        push_string(&mut r, count_line("  ? Incomplete:      ", s.incomplete, s.total));
    }
    proof {
        assert(r.deep_view() =~= spec_overall_lines(
            s.total as int,
            s.successful as int,
            s.failed as int,
            s.incomplete as int,
        ));
    }
    r
}

/// The finish line the spinner shows for one unit.
pub open spec fn spec_spinner_finish(name: Seq<char>, status: StatusView) -> Seq<char> {
    match status {
        StatusView::Success(_) => "\u{2713} "@ + name + " completed successfully"@,
        StatusView::Failed(reason, _) => "\u{2717} "@ + name + " failed: "@ + reason,
        _ => "? "@ + name + " finished with unknown status"@,
    }
}

pub fn spinner_finish_message(name: &str, status: &ManagerStatus) -> (r: String)
    ensures
        r@ == spec_spinner_finish(name@, status@),
{
    match status {
        ManagerStatus::Success(_) => {
            let mut r = "\u{2713} ".to_owned();
            r.append(name);
            r.append(" completed successfully");
            proof {
                assert(r@ =~= spec_spinner_finish(name@, status@));
            }
            r
        },
        ManagerStatus::Failed(reason, _) => {
            let mut r = "\u{2717} ".to_owned();
            r.append(name);
            r.append(" failed: ");
            r.append(reason.as_str());
            proof {
                assert(r@ =~= spec_spinner_finish(name@, status@));
            }
            r
        },
        _ => {
            let mut r = "? ".to_owned();
            r.append(name);
            r.append(" finished with unknown status");
            proof {
                assert(r@ =~= spec_spinner_finish(name@, status@));
            }
            r
        },
    }
}

/// Does a typed answer say yes? The selective fallback asks before each
/// unit and accepts `y` or `yes`, in any casing, with surrounding
/// whitespace ignored.
pub open spec fn spec_prompt_accepts(input: Seq<char>) -> bool {
    let t = spec_lower(spec_trim(input));
    t == "y"@ || t == "yes"@
}

pub fn prompt_accepts(input: &str) -> (r: bool)
    ensures
        r == spec_prompt_accepts(input@),
{
    let trimmed = trim_spaces(input);
    let lowered = ascii_lower(trimmed.as_str());
    str_eq(lowered.as_str(), "y") || str_eq(lowered.as_str(), "yes")
}

} // verus!
