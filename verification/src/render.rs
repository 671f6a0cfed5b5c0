//! The texts the monitor's screens show: status labels, the detail view's
//! blocks, the logs view's content and indicator, and the help lines.
//! Drawing them into the terminal is an outside concern.

use crate::config::{ManagerConfig, ManagerConfigView};
use crate::monitor::spec_max_scroll;
use crate::status::{ManagerStatus, StatusView};
use crate::text::{spec_decimal, u64_to_string};
use vstd::prelude::*;

verus! {

/// The short status label the manager list shows beside a unit's name.
pub open spec fn spec_status_label(s: StatusView) -> Seq<char> {
    match s {
        StatusView::Pending => "Pending"@,
        StatusView::Running(op, _) => op + "..."@,
        StatusView::Success(_) => "\u{2713} Complete"@,
        StatusView::Failed(_, _) => "\u{2717} Failed"@,
    }
}

pub fn status_label(s: &ManagerStatus) -> (r: String)
    ensures
        r@ == spec_status_label(s@),
{
    match s {
        ManagerStatus::Pending => "Pending".to_owned(),
        ManagerStatus::Running(op, _) => {
            let mut r = op.clone();
            r.append("...");
            r
        },
        ManagerStatus::Success(_) => "\u{2713} Complete".to_owned(),
        ManagerStatus::Failed(_, _) => "\u{2717} Failed".to_owned(),
    }
}

/// The status line of the detail view.
pub open spec fn spec_detail_status(s: StatusView) -> Seq<char> {
    match s {
        StatusView::Pending => "Status: Pending"@,
        StatusView::Running(op, _) => "Status: "@ + op + "..."@,
        StatusView::Success(_) => "Status: \u{2713} All operations completed successfully"@,
        StatusView::Failed(reason, _) => "Status: \u{2717} Failed - "@ + reason,
    }
}

pub fn detail_status_text(s: &ManagerStatus) -> (r: String)
    ensures
        r@ == spec_detail_status(s@),
{
    match s {
        ManagerStatus::Pending => "Status: Pending".to_owned(),
        ManagerStatus::Running(op, _) => {
            let mut r = "Status: ".to_owned();
            r.append(op.as_str());
            r.append("...");
            proof {
                assert(r@ =~= spec_detail_status(s@));
            }
            r
        },
        ManagerStatus::Success(_) => "Status: \u{2713} All operations completed successfully".to_owned(),
        ManagerStatus::Failed(reason, _) => {
            let mut r = "Status: \u{2717} Failed - ".to_owned();
            r.append(reason.as_str());
            proof {
                assert(r@ =~= spec_detail_status(s@));
            }
            r
        },
    }
}

/// An optional command as the detail view prints it.
pub open spec fn spec_command_or_na(o: Option<Seq<char>>) -> Seq<char> {
    match o {
        Option::Some(c) => c,
        Option::None => "N/A"@,
    }
}

/// The configuration block of the detail view.
pub open spec fn spec_detail_info(c: ManagerConfigView) -> Seq<char> {
    "Name: "@ + c.name + "\nCheck Command: "@ + c.check_command + "\nRefresh: "@
        + spec_command_or_na(c.refresh) + "\nSelf-Update: "@ + spec_command_or_na(c.self_update)
        + "\nUpgrade: "@ + c.upgrade_all + "\nCleanup: "@ + spec_command_or_na(c.cleanup)
}

fn append_command_or_na(out: &mut String, o: &Option<String>)
    ensures
        final(out)@ == old(out)@ + spec_command_or_na(
            match o {
                Option::Some(c) => Option::Some(c@),
                Option::None => Option::None,
            },
        ),
{
    match o {
        Option::Some(c) => out.append(c.as_str()),
        Option::None => out.append("N/A"),
    }
}

pub fn detail_info_text(c: &ManagerConfig) -> (r: String)
    ensures
        r@ == spec_detail_info(c@),
{
    let mut r = "Name: ".to_owned();
    r.append(c.name.as_str());
    r.append("\nCheck Command: ");
    r.append(c.check_command.as_str());
    r.append("\nRefresh: ");
    append_command_or_na(&mut r, &c.refresh);
    r.append("\nSelf-Update: ");
    append_command_or_na(&mut r, &c.self_update);
    r.append("\nUpgrade: ");
    r.append(c.upgrade_all.as_str());
    r.append("\nCleanup: ");
    append_command_or_na(&mut r, &c.cleanup);
    proof {
        assert(r@ =~= spec_detail_info(c@));
    }
    r
}

/// What the logs view shows: the transcript, or a placeholder while there
/// is none — and for a failure without any captured output, the reason.
pub open spec fn spec_logs_text(s: StatusView) -> Seq<char> {
    match s {
        StatusView::Pending => "Process not started yet..."@,
        StatusView::Running(_, t) => if t.len() == 0 {
            "No output yet..."@
        } else {
            t
        },
        StatusView::Success(t) => if t.len() == 0 {
            "Command completed successfully - no output captured"@
        } else {
            t
        },
        StatusView::Failed(reason, t) => if t.len() == 0 {
            reason
        } else {
            t
        },
    }
}

pub fn logs_text(s: &ManagerStatus) -> (r: String)
    ensures
        r@ == spec_logs_text(s@),
{
    match s {
        ManagerStatus::Pending => "Process not started yet...".to_owned(),
        ManagerStatus::Running(_, t) => {
            if t.as_str().is_empty() {
                "No output yet...".to_owned()
            } else {
                t.clone()
            }
        },
        ManagerStatus::Success(t) => {
            if t.as_str().is_empty() {
                "Command completed successfully - no output captured".to_owned()
            } else {
                t.clone()
            }
        },
        ManagerStatus::Failed(reason, t) => {
            if t.as_str().is_empty() {
                reason.clone()
            } else {
                t.clone()
            }
        },
    }
}

/// The title line of the logs view.
pub fn logs_title(name: &str) -> (r: String)
    ensures
        r@ == name@ + " - Live Logs"@,
{
    let mut r = name.to_owned();
    r.append(" - Live Logs");
    r
}

/// The help line under the manager list.
pub fn list_help_text(selective: bool, show_completion: bool) -> (r: String)
    ensures
        show_completion ==> r@
            == "All operations completed! Press 'q' to quit or navigate to view details."@,
        !show_completion && selective ==> r@
            == "Navigate: \u{2191}\u{2193}/j k | Start: Space | Detail: Enter | Quit: q"@,
        !show_completion && !selective ==> r@
            == "Navigate: \u{2191}\u{2193}/j k | Detail: Enter | Quit: q"@,
{
    if show_completion {
        "All operations completed! Press 'q' to quit or navigate to view details.".to_owned()
    } else if selective {
        "Navigate: \u{2191}\u{2193}/j k | Start: Space | Detail: Enter | Quit: q".to_owned()
    } else {
        "Navigate: \u{2191}\u{2193}/j k | Detail: Enter | Quit: q".to_owned()
    }
}

/// The scroll part of the logs view's help line: shown only when the log
/// is taller than its viewport, with the one-based offset and ceiling.
pub open spec fn spec_scroll_indicator(
    content_height: int,
    display_height: int,
    offset: int,
) -> Seq<char> {
    if content_height > display_height {
        " | Scroll: \u{2191}\u{2193}/jk PgUp/PgDn Home/End ("@ + spec_decimal((offset + 1) as nat)
            + "/"@ + spec_decimal((spec_max_scroll(content_height, display_height) + 1) as nat)
            + ")"@
    } else {
        Seq::empty()
    }
}

pub fn scroll_indicator(content_height: u16, display_height: u16, offset: u16) -> (r: String)
    ensures
        r@ == spec_scroll_indicator(content_height as int, display_height as int, offset as int),
{
    if content_height > display_height {
        let max_scroll: u16 = content_height - display_height;
        let mut r = " | Scroll: \u{2191}\u{2193}/jk PgUp/PgDn Home/End (".to_owned();
        let cur = u64_to_string(offset as u64 + 1);
        r.append(cur.as_str());
        r.append("/");
        let ceiling = u64_to_string(max_scroll as u64 + 1);
        r.append(ceiling.as_str());
        r.append(")");
        proof {
            assert(r@ =~= spec_scroll_indicator(
                content_height as int,
                display_height as int,
                offset as int,
            ));
        }
        r
    } else {
        String::new()
    }
}

} // verus!
