use spine::config::{
    any_requires_sudo, auto_update_status_lines, config_search_paths, default_day, default_no_tui,
    default_notify, default_schedule, default_time, AutoUpdateConfig, ManagerConfig,
};
use spine::detect::{probe_program, DetectedManager};
use spine::engine::WorkflowRun;
use spine::notify::{send_notification, Platform};
use spine::render::{
    detail_info_text, detail_status_text, list_help_text, logs_text, logs_title, scroll_indicator,
    status_label,
};
use spine::runner::ExecutionOutcome;
use spine::status::ManagerStatus;
use spine::summary::{
    percent_display, percent_tenths, prompt_accepts, spinner_finish_message, summarize,
    unit_detail_lines, overall_lines,
};

fn upgrade_only(name: &str, command: &str) -> ManagerConfig {
    ManagerConfig {
        name: String::from(name),
        check_command: format!("{} --version", name),
        refresh: None,
        self_update: None,
        upgrade_all: String::from(command),
        cleanup: None,
        requires_sudo: false,
    }
}

fn run_to_completion(config: ManagerConfig, success: bool) -> ManagerStatus {
    let mut run = WorkflowRun::new(config);
    run.start_next_stage().unwrap();
    run.finish_stage(&ExecutionOutcome {
        success,
        timed_out: false,
        exit_code: Some(if success { 0 } else { 1 }),
    });
    if !run.is_finished() {
        assert!(run.start_next_stage().is_none());
    }
    run.status()
}

#[test]
fn three_succeeding_units_report_full_success() {
    // Three units, each with only an always-succeeding upgrade stage:
    // all reach Success, the summary says 100.0% success and 0.0% failure.
    let mut managers: Vec<DetectedManager> = Vec::new();
    for name in ["alpha", "beta", "gamma"] {
        let config = upgrade_only(name, "true");
        let status = run_to_completion(config.clone(), true);
        assert!(matches!(status, ManagerStatus::Success(_)));
        let mut m = DetectedManager::new(String::from(name), config);
        m.status = status;
        managers.push(m);
    }
    let s = summarize(&managers);
    assert_eq!(s.total, 3);
    assert_eq!(s.successful, 3);
    assert_eq!(s.failed, 0);
    assert_eq!(s.incomplete, 0);
    assert_eq!(percent_display(s.successful, s.total), "100.0");
    assert_eq!(percent_display(s.failed, s.total), "0.0");
    let lines = overall_lines(&s);
    assert_eq!(lines[0], "Overall Results:");
    assert_eq!(lines[1], "  Total Managers:    3");
    assert_eq!(lines[2], "  \u{2713} Successful:      3 (100.0%)");
    assert_eq!(lines[3], "  \u{2717} Failed:          0 (0.0%)");
    assert_eq!(lines.len(), 4);
}

#[test]
fn one_failing_unit_reports_the_failure_with_its_reason() {
    // One unit whose only stage exits non-zero: the summary counts one
    // failure of one, and the per-unit detail carries the reason text.
    let config = upgrade_only("solo", "false");
    let status = run_to_completion(config.clone(), false);
    assert!(matches!(status, ManagerStatus::Failed(_, _)));
    let mut m = DetectedManager::new(String::from("solo"), config);
    m.status = status;
    let managers = vec![m];
    let s = summarize(&managers);
    assert_eq!(s.total, 1);
    assert_eq!(s.failed, 1);
    assert_eq!(s.successful, 0);
    assert_eq!(percent_display(s.failed, s.total), "100.0");
    let detail = unit_detail_lines(&managers[0]);
    assert_eq!(detail.len(), 2);
    assert_eq!(detail[0], "  \u{2717} solo                 Failed");
    assert_eq!(detail[1], "    \u{2514}\u{2500} Error: Upgrade command failed");
}

#[test]
fn summary_counts_incomplete_units() {
    let mut m = DetectedManager::new(String::from("quiet"), upgrade_only("quiet", "true"));
    m.status = ManagerStatus::Pending;
    let s = summarize(&vec![m]);
    assert_eq!(s.incomplete, 1);
    let lines = overall_lines(&s);
    assert_eq!(lines[4], "  ? Incomplete:      1 (100.0%)");
}

#[test]
fn mixed_outcomes_split_the_percentages() {
    let mut managers: Vec<DetectedManager> = Vec::new();
    for (name, ok) in [("a", true), ("b", true), ("c", false)] {
        let config = upgrade_only(name, if ok { "true" } else { "false" });
        let status = run_to_completion(config.clone(), ok);
        let mut m = DetectedManager::new(String::from(name), config);
        m.status = status;
        managers.push(m);
    }
    let s = summarize(&managers);
    assert_eq!((s.total, s.successful, s.failed, s.incomplete), (3, 2, 1, 0));
    let lines = overall_lines(&s);
    assert_eq!(lines[2], "  \u{2713} Successful:      2 (66.6%)");
    assert_eq!(lines[3], "  \u{2717} Failed:          1 (33.3%)");
}

#[test]
fn percentages_truncate_to_tenths() {
    assert_eq!(percent_tenths(1, 3), 333);
    assert_eq!(percent_display(1, 3), "33.3");
    assert_eq!(percent_display(2, 3), "66.6");
    assert_eq!(percent_tenths(0, 7), 0);
    assert_eq!(percent_tenths(7, 7), 1000);
}

#[test]
fn detail_lines_for_success_and_incomplete() {
    let mut m = DetectedManager::new(String::from("ok"), upgrade_only("ok", "true"));
    m.status = ManagerStatus::Success(String::from("log"));
    assert_eq!(unit_detail_lines(&m), vec!["  \u{2713} ok                   Success"]);
    m.status = ManagerStatus::Running(String::from("Upgrading"), String::new());
    assert_eq!(unit_detail_lines(&m), vec!["  ? ok                   Incomplete"]);
}

#[test]
fn spinner_messages_follow_the_status() {
    let success = ManagerStatus::Success(String::new());
    assert_eq!(
        spinner_finish_message("brew", &success),
        "\u{2713} brew completed successfully"
    );
    let failed = ManagerStatus::Failed(String::from("Upgrade command failed"), String::new());
    assert_eq!(
        spinner_finish_message("brew", &failed),
        "\u{2717} brew failed: Upgrade command failed"
    );
    let pending = ManagerStatus::Pending;
    assert_eq!(
        spinner_finish_message("brew", &pending),
        "? brew finished with unknown status"
    );
}

#[test]
fn prompts_accept_yes_in_any_casing() {
    assert!(prompt_accepts("y"));
    assert!(prompt_accepts("Y"));
    assert!(prompt_accepts(" yes \n"));
    assert!(prompt_accepts("YES"));
    assert!(!prompt_accepts("no"));
    assert!(!prompt_accepts(""));
    assert!(!prompt_accepts("yess"));
}

#[test]
fn status_labels_for_the_list() {
    assert_eq!(status_label(&ManagerStatus::Pending), "Pending");
    assert_eq!(
        status_label(&ManagerStatus::Running(String::from("Refreshing"), String::new())),
        "Refreshing..."
    );
    assert_eq!(status_label(&ManagerStatus::Success(String::new())), "\u{2713} Complete");
    assert_eq!(
        status_label(&ManagerStatus::Failed(String::from("x"), String::new())),
        "\u{2717} Failed"
    );
}

#[test]
fn detail_view_texts() {
    let status = ManagerStatus::Failed(String::from("Refresh command failed"), String::new());
    assert_eq!(
        detail_status_text(&status),
        "Status: \u{2717} Failed - Refresh command failed"
    );
    let config = ManagerConfig {
        name: String::from("Homebrew"),
        check_command: String::from("brew --version"),
        refresh: Some(String::from("brew update")),
        self_update: None,
        upgrade_all: String::from("brew upgrade"),
        cleanup: None,
        requires_sudo: false,
    };
    assert_eq!(
        detail_info_text(&config),
        "Name: Homebrew\nCheck Command: brew --version\nRefresh: brew update\nSelf-Update: N/A\nUpgrade: brew upgrade\nCleanup: N/A"
    );
}

#[test]
fn logs_view_texts_fall_back_when_empty() {
    assert_eq!(logs_text(&ManagerStatus::Pending), "Process not started yet...");
    assert_eq!(
        logs_text(&ManagerStatus::Running(String::from("Upgrading"), String::new())),
        "No output yet..."
    );
    assert_eq!(
        logs_text(&ManagerStatus::Running(String::from("Upgrading"), String::from("line\n"))),
        "line\n"
    );
    assert_eq!(
        logs_text(&ManagerStatus::Success(String::new())),
        "Command completed successfully - no output captured"
    );
    assert_eq!(
        logs_text(&ManagerStatus::Failed(String::from("reason"), String::new())),
        "reason"
    );
    assert_eq!(logs_title("brew"), "brew - Live Logs");
}

#[test]
fn help_lines_and_scroll_indicator() {
    assert_eq!(
        list_help_text(false, true),
        "All operations completed! Press 'q' to quit or navigate to view details."
    );
    assert_eq!(
        list_help_text(true, false),
        "Navigate: \u{2191}\u{2193}/j k | Start: Space | Detail: Enter | Quit: q"
    );
    assert_eq!(
        list_help_text(false, false),
        "Navigate: \u{2191}\u{2193}/j k | Detail: Enter | Quit: q"
    );
    assert_eq!(
        scroll_indicator(100, 10, 4),
        " | Scroll: \u{2191}\u{2193}/jk PgUp/PgDn Home/End (5/91)"
    );
    assert_eq!(scroll_indicator(5, 10, 0), "");
}

#[test]
fn configuration_defaults() {
    assert_eq!(default_schedule(), "daily");
    assert_eq!(default_time(), "18:00");
    assert_eq!(default_day(), "monday");
    assert!(default_notify());
    assert!(default_no_tui());
    let d = AutoUpdateConfig::default();
    assert!(!d.enabled);
    assert_eq!(d.schedule, "daily");
    assert_eq!(d.time, "18:00");
    assert_eq!(d.day, "monday");
    assert!(d.notify);
    assert!(d.no_tui);
}

#[test]
fn auto_update_status_report() {
    let daily = AutoUpdateConfig::default();
    let lines = auto_update_status_lines(&daily);
    assert_eq!(
        lines,
        vec![
            "  Enabled:      \u{2717} No",
            "  Schedule:     daily",
            "  Time:         18:00",
            "  Notifications: \u{2713} Enabled",
            "  Mode:         Background",
        ]
    );
    let weekly = AutoUpdateConfig {
        enabled: true,
        schedule: String::from("weekly"),
        time: String::from("09:00"),
        day: String::from("friday"),
        notify: false,
        no_tui: false,
    };
    let lines = auto_update_status_lines(&weekly);
    assert_eq!(
        lines,
        vec![
            "  Enabled:      \u{2713} Yes",
            "  Schedule:     weekly",
            "  Day:          friday",
            "  Time:         18:00",
            "  Notifications: \u{2717} Disabled",
            "  Mode:         Interactive",
        ]
    );
}

#[test]
fn search_paths_follow_the_priority_order() {
    let paths = config_search_paths(
        &Some(String::from("/home/u/.config")),
        &Some(String::from("/work")),
        &Some(String::from("/home/u")),
        &Some(String::from("/opt/bin")),
    );
    assert_eq!(
        paths,
        vec![
            "/home/u/.config/spine/backbone.toml",
            "/work/backbone.toml",
            "/home/u/.spine/backbone.toml",
            "/opt/bin/backbone.toml",
            "/etc/spine/backbone.toml",
            "/usr/local/etc/spine/backbone.toml",
        ]
    );
    let bare = config_search_paths(&None, &None, &None, &None);
    assert_eq!(
        bare,
        vec!["/etc/spine/backbone.toml", "/usr/local/etc/spine/backbone.toml"]
    );
}

#[test]
fn sudo_is_required_when_any_manager_needs_it() {
    let mut plain = upgrade_only("a", "true");
    assert!(!any_requires_sudo(&vec![plain.clone()]));
    plain.requires_sudo = true;
    assert!(any_requires_sudo(&vec![upgrade_only("b", "true"), plain]));
    assert!(!any_requires_sudo(&Vec::new()));
}

#[test]
fn probe_program_takes_the_first_word() {
    assert_eq!(probe_program("brew --version"), Some(String::from("brew")));
    assert_eq!(probe_program("apt"), Some(String::from("apt")));
    assert_eq!(probe_program("   "), None);
    assert_eq!(probe_program(""), None);
}

#[test]
fn linux_notification_command() {
    let cmd = send_notification("Spine Update Complete", "All done.", Platform::Linux).unwrap();
    assert_eq!(cmd.program, "notify-send");
    assert_eq!(
        cmd.args,
        vec!["Spine Update Complete", "All done.", "--icon=system-software-update"]
    );
}

#[test]
fn macos_notification_escapes_quotes() {
    let cmd = send_notification("He said \"hi\"", "a \"b\" c", Platform::MacOs).unwrap();
    assert_eq!(cmd.program, "osascript");
    assert_eq!(cmd.args[0], "-e");
    assert_eq!(
        cmd.args[1],
        "display notification \"a \\\"b\\\" c\" with title \"He said \\\"hi\\\"\""
    );
    assert!(send_notification("t", "m", Platform::Other).is_none());
}
