//! The background-update schedule: building the cron line that runs the
//! upgrade, merging it into an existing crontab, and taking it out again.
//!
//! Reading and installing the crontab is an outside concern; these
//! functions turn the current crontab text and the settings into the new
//! crontab text.

use crate::text::{
    ascii_lower, contains_seq, join_lines, push_string, spec_join_nl, spec_lines, spec_lower,
    split_char, split_lines, spec_split_char, str_contains, str_eq, push_char,
};
use vstd::prelude::*;

verus! {

/// Why a schedule could not be built.
#[derive(Debug)]
pub enum ScheduleError {
    InvalidTime,
    InvalidDay,
}

impl ScheduleError {
    pub fn message(&self) -> (r: String)
        ensures
            self is InvalidTime ==> r@ == "Invalid time format. Use HH:MM (e.g., 18:00)"@,
            self is InvalidDay ==> r@
                == "Invalid day. Use: monday, tuesday, wednesday, thursday, friday, saturday, sunday"@,
    {
        match self {
            ScheduleError::InvalidTime => "Invalid time format. Use HH:MM (e.g., 18:00)".to_owned(),
            ScheduleError::InvalidDay =>
                "Invalid day. Use: monday, tuesday, wednesday, thursday, friday, saturday, sunday".to_owned(),
        }
    }
}

/// A crontab line is kept when it does not mention this tool.
pub open spec fn spec_keep_line(l: Seq<char>) -> bool {
    !contains_seq(l, "spine"@) && !contains_seq(l, "spn"@)
}

/// The lines that survive the filter, in order.
pub open spec fn spec_kept_lines(ls: Seq<Seq<char>>) -> Seq<Seq<char>>
    decreases ls.len(),
{
    if ls.len() == 0 {
        Seq::empty()
    } else {
        (if spec_keep_line(ls[0]) {
            seq![ls[0]]
        } else {
            Seq::empty()
        }) + spec_kept_lines(ls.drop_first())
    }
}

proof fn lemma_kept_lines_push(ls: Seq<Seq<char>>, x: Seq<char>)
    ensures
        spec_kept_lines(ls.push(x)) == spec_kept_lines(ls) + (if spec_keep_line(x) {
            seq![x]
        } else {
            Seq::<Seq<char>>::empty()
        }),
    decreases ls.len(),
{
    if ls.len() == 0 {
        assert(ls.push(x)[0] == x);
        assert(ls.push(x).drop_first() =~= Seq::<Seq<char>>::empty());
        assert(ls =~= Seq::<Seq<char>>::empty());
        assert(spec_kept_lines(Seq::<Seq<char>>::empty()) == Seq::<Seq<char>>::empty());
        assert(spec_kept_lines(ls.push(x)) =~= spec_kept_lines(ls) + (if spec_keep_line(x) {
            seq![x]
        } else {
            Seq::<Seq<char>>::empty()
        }));
    } else {
        lemma_kept_lines_push(ls.drop_first(), x);
        assert(ls.push(x).drop_first() =~= ls.drop_first().push(x));
        assert(ls.push(x)[0] == ls[0]);
        assert(spec_kept_lines(ls.push(x)) =~= spec_kept_lines(ls) + (if spec_keep_line(x) {
            seq![x]
        } else {
            Seq::<Seq<char>>::empty()
        }));
    }
}

/// The lines of a crontab that are not ours.
fn kept_lines(lines: &Vec<String>) -> (r: Vec<String>)
    ensures
        r.deep_view() == spec_kept_lines(lines.deep_view()),
{
    let mut r: Vec<String> = Vec::new();
    let mut i: usize = 0;
    proof {
        assert(lines.deep_view().take(0) =~= Seq::<Seq<char>>::empty());
        assert(r.deep_view() =~= spec_kept_lines(lines.deep_view().take(0)));
    }
    while i < lines.len()
        invariant
            i <= lines@.len(),
            r.deep_view() == spec_kept_lines(lines.deep_view().take(i as int)),
        decreases lines@.len() - i,
    {
        let line = &lines[i];
        let keep = !str_contains(line.as_str(), "spine") && !str_contains(line.as_str(), "spn");
        let ghost prev = r.deep_view();
        if keep {
            push_string(&mut r, line.clone());
        }
        i = i + 1;
        proof {
            lemma_kept_lines_push(
                lines.deep_view().take(i - 1),
                lines.deep_view()[i - 1],
            );
            assert(lines.deep_view().take(i - 1).push(lines.deep_view()[i - 1])
                =~= lines.deep_view().take(i as int));
            if keep {
                assert(r.deep_view() =~= spec_kept_lines(lines.deep_view().take(i as int)));
            } else {
                assert(prev + Seq::<Seq<char>>::empty() =~= prev);
            }
        }
    }
    proof {
        assert(lines.deep_view().take(lines@.len() as int) =~= lines.deep_view());
    }
    r
}

/// A crontab without any line of ours: the other lines, joined again.
pub open spec fn spec_foreign_crontab(crontab: Seq<char>) -> Seq<char> {
    spec_join_nl(spec_kept_lines(spec_lines(crontab)))
}

/// The crontab text with every schedule of this tool taken out.
pub fn remove_auto_update_schedule(current_crontab: &str) -> (r: String)
    ensures
        r@ == spec_foreign_crontab(current_crontab@),
{
    let lines = split_lines(current_crontab);
    let kept = kept_lines(&lines);
    join_lines(&kept)
}

/// The filtered crontab, closed with a line feed when it is not empty, so
/// a new entry can follow.
pub open spec fn spec_crontab_base(crontab: Seq<char>) -> Seq<char> {
    let f = spec_foreign_crontab(crontab);
    if f.len() > 0 && f.last() != '\n' {
        f + seq!['\n']
    } else {
        f
    }
}

fn crontab_base(current_crontab: &str) -> (r: String)
    ensures
        r@ == spec_crontab_base(current_crontab@),
{
    let mut base = remove_auto_update_schedule(current_crontab);
    let n = base.as_str().unicode_len();
    if n > 0 {
        let last = base.as_str().get_char(n - 1);
        if last != '\n' {
            push_char(&mut base, '\n');
            proof {
                assert(base@ =~= spec_crontab_base(current_crontab@));
            }
        }
    }
    base
}

/// The cron entry that runs the upgrade every day at `hour:minute`.
pub open spec fn spec_daily_entry(
    hour: Seq<char>,
    minute: Seq<char>,
    binary_path: Seq<char>,
    notify: bool,
) -> Seq<char> {
    minute + " "@ + hour + " * * * "@ + binary_path + " upgrade --no-tui"@ + (if notify {
        " --notify"@
    } else {
        Seq::empty()
    }) + " >> /tmp/spine-auto-update.log 2>&1\n"@
}

/// The cron entry that runs the upgrade every week, at 18:00 of weekday
/// `weekday` in cron's numbering.
pub open spec fn spec_weekly_entry(
    weekday: char,
    binary_path: Seq<char>,
    notify: bool,
) -> Seq<char> {
    "0 18 * * "@ + seq![weekday] + " "@ + binary_path + " upgrade --no-tui"@ + (if notify {
        " --notify"@
    } else {
        Seq::empty()
    }) + " >> /tmp/spine-auto-update.log 2>&1\n"@
}

fn entry_tail(binary_path: &str, notify: bool) -> (r: String)
    ensures
        r@ == binary_path@ + " upgrade --no-tui"@ + (if notify {
            " --notify"@
        } else {
            Seq::<char>::empty()
        }) + " >> /tmp/spine-auto-update.log 2>&1\n"@,
{
    let mut r = binary_path.to_owned();
    r.append(" upgrade --no-tui");
    if notify {
        r.append(" --notify");
    }
    r.append(" >> /tmp/spine-auto-update.log 2>&1\n");
    proof {
        assert(r@ =~= binary_path@ + " upgrade --no-tui"@ + (if notify {
            " --notify"@
        } else {
            Seq::<char>::empty()
        }) + " >> /tmp/spine-auto-update.log 2>&1\n"@);
    }
    r
}

/// The number cron gives a weekday, as a digit character; `None` for a
/// word that names no weekday. Capital letters count as their lower-case
/// selves.
pub open spec fn spec_weekday_digit(day: Seq<char>) -> Option<char> {
    let d = spec_lower(day);
    if d == "monday"@ {
        Option::Some('1')
    } else if d == "tuesday"@ {
        Option::Some('2')
    } else if d == "wednesday"@ {
        Option::Some('3')
    } else if d == "thursday"@ {
        Option::Some('4')
    } else if d == "friday"@ {
        Option::Some('5')
    } else if d == "saturday"@ {
        Option::Some('6')
    } else if d == "sunday"@ {
        Option::Some('0')
    } else {
        Option::None
    }
}

fn weekday_digit(day: &str) -> (r: Option<char>)
    ensures
        r == spec_weekday_digit(day@),
{
    let d = ascii_lower(day);
    if str_eq(d.as_str(), "monday") {
        Option::Some('1')
    } else if str_eq(d.as_str(), "tuesday") {
        Option::Some('2')
    } else if str_eq(d.as_str(), "wednesday") {
        Option::Some('3')
    } else if str_eq(d.as_str(), "thursday") {
        Option::Some('4')
    } else if str_eq(d.as_str(), "friday") {
        Option::Some('5')
    } else if str_eq(d.as_str(), "saturday") {
        Option::Some('6')
    } else if str_eq(d.as_str(), "sunday") {
        Option::Some('0')
    } else {
        Option::None
    }
}

/// The new crontab that schedules a daily upgrade at `time` (`HH:MM`):
/// every line of ours replaced by the one new entry, every other line
/// kept. `Err(InvalidTime)` exactly when `time` does not split at `:` into
/// two parts.
pub fn setup_daily_auto_update(
    time: &str,
    binary_path: &str,
    notify: bool,
    current_crontab: &str,
) -> (r: Result<String, ScheduleError>)
    ensures
        match r {
            Result::Ok(c) => {
                &&& spec_split_char(time@, ':').len() == 2
                &&& c@ == spec_crontab_base(current_crontab@) + spec_daily_entry(
                    spec_split_char(time@, ':')[0],
                    spec_split_char(time@, ':')[1],
                    binary_path@,
                    notify,
                )
            },
            Result::Err(e) => e is InvalidTime && spec_split_char(time@, ':').len() != 2,
        },
{
    let parts = split_char(time, ':');
    if parts.len() != 2 {
        return Result::Err(ScheduleError::InvalidTime);
    }
    let mut out = crontab_base(current_crontab);
    out.append(parts[1].as_str());
    out.append(" ");
    out.append(parts[0].as_str());
    out.append(" * * * ");
    let tail = entry_tail(binary_path, notify);
    out.append(tail.as_str());
    proof {
        assert(out@ =~= spec_crontab_base(current_crontab@) + spec_daily_entry(
            spec_split_char(time@, ':')[0],
            spec_split_char(time@, ':')[1],
            binary_path@,
            notify,
        ));
    }
    Result::Ok(out)
}

/// The new crontab that schedules a weekly upgrade at 18:00 on `day`:
/// every line of ours replaced by the one new entry, every other line
/// kept. `Err(InvalidDay)` exactly when `day` names no weekday.
pub fn setup_weekly_auto_update(
    day: &str,
    binary_path: &str,
    notify: bool,
    current_crontab: &str,
) -> (r: Result<String, ScheduleError>)
    ensures
        match r {
            Result::Ok(c) => {
                &&& spec_weekday_digit(day@) is Some
                &&& c@ == spec_crontab_base(current_crontab@) + spec_weekly_entry(
                    spec_weekday_digit(day@)->0,
                    binary_path@,
                    notify,
                )
            },
            Result::Err(e) => e is InvalidDay && spec_weekday_digit(day@) is None,
        },
{
    let digit = match weekday_digit(day) {
        Option::Some(d) => d,
        Option::None => {
            return Result::Err(ScheduleError::InvalidDay);
        },
    };
    let mut out = crontab_base(current_crontab);
    out.append("0 18 * * ");
    push_char(&mut out, digit);
    out.append(" ");
    let tail = entry_tail(binary_path, notify);
    out.append(tail.as_str());
    proof {
        assert(out@ =~= spec_crontab_base(current_crontab@) + spec_weekly_entry(
            spec_weekday_digit(day@)->0,
            binary_path@,
            notify,
        ));
    }
    Result::Ok(out)
}

} // verus!
