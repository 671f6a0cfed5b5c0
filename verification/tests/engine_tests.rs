use spine::config::ManagerConfig;
use spine::engine::{Stage, StageSpec, WorkflowRun};
use spine::runner::{build_command, CommandSpec, ExecutionOutcome, StageError};
use spine::status::ManagerStatus;

fn config_all_stages() -> ManagerConfig {
    ManagerConfig {
        name: String::from("Advanced Package Tool"),
        check_command: String::from("apt --version"),
        refresh: Some(String::from("apt update")),
        self_update: None,
        upgrade_all: String::from("apt upgrade -y"),
        cleanup: Some(String::from("apt autoremove -y")),
        requires_sudo: true,
    }
}

fn config_upgrade_only(command: &str) -> ManagerConfig {
    ManagerConfig {
        name: String::from("tool"),
        check_command: String::from("tool --version"),
        refresh: None,
        self_update: None,
        upgrade_all: String::from(command),
        cleanup: None,
        requires_sudo: false,
    }
}

fn ok_outcome() -> ExecutionOutcome {
    ExecutionOutcome { success: true, timed_out: false, exit_code: Some(0) }
}

fn failed_outcome(code: i64) -> ExecutionOutcome {
    ExecutionOutcome { success: false, timed_out: false, exit_code: Some(code) }
}

fn status_label_of(run: &WorkflowRun) -> Option<String> {
    match run.status() {
        ManagerStatus::Running(label, _) => Some(label),
        _ => None,
    }
}

#[test]
fn initial_run_is_pending() {
    let run = WorkflowRun::new(config_all_stages());
    assert_eq!(run.status(), ManagerStatus::Pending);
    assert_ne!(run.status(), ManagerStatus::Success(String::new()));
    assert!(!run.is_finished());
}

#[test]
fn lone_upgrade_reaches_success_after_one_stage() {
    // A unit with no optional stages: exactly one stage runs, then Success.
    let mut run = WorkflowRun::new(config_upgrade_only("true"));
    let spec = run.start_next_stage().expect("the upgrade stage must start");
    assert!(matches!(spec.stage, Stage::Upgrade));
    assert_eq!(spec.command, "true");
    assert_eq!(spec.timeout_secs, 3600);
    assert!(!spec.elevate);
    run.finish_stage(&ok_outcome());
    assert!(!run.is_finished());
    let next = run.start_next_stage();
    assert!(next.is_none());
    match run.status() {
        ManagerStatus::Success(transcript) => {
            assert_eq!(
                transcript,
                "=== UPGRADING PACKAGES ===\n\n\u{2713} Upgrade completed\n\n"
            );
        }
        other => panic!("expected Success, got {:?}", other),
    }
    assert!(run.is_finished());
}

#[test]
fn statuses_walk_the_stage_order_forward() {
    // Refresh, upgrade and cleanup configured: labels appear in the fixed
    // order, each stage exactly once, ending in Success.
    let mut run = WorkflowRun::new(config_all_stages());
    let mut labels: Vec<String> = Vec::new();

    let s1 = run.start_next_stage().expect("refresh starts");
    assert!(matches!(s1.stage, Stage::Refresh));
    assert_eq!(s1.timeout_secs, 300);
    assert!(s1.elevate);
    labels.push(status_label_of(&run).unwrap());
    run.finish_stage(&ok_outcome());

    let s2 = run.start_next_stage().expect("upgrade starts");
    assert!(matches!(s2.stage, Stage::Upgrade));
    labels.push(status_label_of(&run).unwrap());
    run.finish_stage(&ok_outcome());

    let s3 = run.start_next_stage().expect("cleanup starts");
    assert!(matches!(s3.stage, Stage::Cleanup));
    assert_eq!(s3.timeout_secs, 300);
    labels.push(status_label_of(&run).unwrap());
    run.finish_stage(&ok_outcome());

    assert!(run.start_next_stage().is_none());
    assert_eq!(labels, vec!["Refreshing", "Upgrading", "Cleaning"]);
    assert!(matches!(run.status(), ManagerStatus::Success(_)));
}

#[test]
fn self_update_stage_runs_when_configured() {
    let mut config = config_upgrade_only("brew upgrade");
    config.self_update = Some(String::from("brew update"));
    let mut run = WorkflowRun::new(config);
    let s1 = run.start_next_stage().expect("self-update starts");
    assert!(matches!(s1.stage, Stage::SelfUpdate));
    assert_eq!(s1.command, "brew update");
    assert_eq!(s1.timeout_secs, 600);
    assert_eq!(status_label_of(&run).unwrap(), "Self-updating");
}

#[test]
fn output_lines_grow_the_transcript() {
    let mut run = WorkflowRun::new(config_upgrade_only("true"));
    run.start_next_stage().unwrap();
    run.record_line("unpacking", false);
    run.record_line("disk warning", true);
    match run.status() {
        ManagerStatus::Running(label, transcript) => {
            assert_eq!(label, "Upgrading");
            assert_eq!(
                transcript,
                "=== UPGRADING PACKAGES ===\nunpacking\nSTDERR: disk warning\n"
            );
        }
        other => panic!("expected Running, got {:?}", other),
    }
}

#[test]
fn nonzero_exit_fails_and_blocks_later_stages() {
    // Refresh exits non-zero: the unit fails at once and the transcript
    // holds no header or marker of any later stage.
    let mut run = WorkflowRun::new(config_all_stages());
    let s1 = run.start_next_stage().unwrap();
    assert!(matches!(s1.stage, Stage::Refresh));
    run.finish_stage(&failed_outcome(100));
    assert!(run.is_finished());
    match run.status() {
        ManagerStatus::Failed(reason, transcript) => {
            assert_eq!(reason, "Refresh command failed");
            assert_eq!(
                transcript,
                "=== REFRESHING REPOSITORIES ===\n\nCommand exited with code: 100\n"
            );
            assert!(!transcript.contains("=== UPGRADING PACKAGES ==="));
            assert!(!transcript.contains("=== CLEANUP ==="));
            assert!(!transcript.contains("completed"));
        }
        other => panic!("expected Failed, got {:?}", other),
    }
}

#[test]
fn missing_exit_code_is_reported_as_minus_one() {
    let mut run = WorkflowRun::new(config_upgrade_only("false"));
    run.start_next_stage().unwrap();
    run.finish_stage(&ExecutionOutcome { success: false, timed_out: false, exit_code: None });
    match run.status() {
        ManagerStatus::Failed(_, transcript) => {
            assert!(transcript.contains("\nCommand exited with code: -1\n"));
        }
        other => panic!("expected Failed, got {:?}", other),
    }
}

#[test]
fn timeout_fails_with_timed_out_reason() {
    let mut run = WorkflowRun::new(config_upgrade_only("sleep 9999"));
    run.start_next_stage().unwrap();
    run.record_line("still working", false);
    run.finish_stage(&ExecutionOutcome { success: false, timed_out: true, exit_code: None });
    assert!(run.is_finished());
    match run.status() {
        ManagerStatus::Failed(reason, transcript) => {
            assert_eq!(reason, "Command timed out");
            assert_eq!(
                transcript,
                "=== UPGRADING PACKAGES ===\nstill working\n\nERROR: Command timed out\n"
            );
        }
        other => panic!("expected Failed, got {:?}", other),
    }
}

#[test]
fn stage_error_fails_with_stage_name_and_message() {
    let mut run = WorkflowRun::new(config_upgrade_only("no-such-binary"));
    run.start_next_stage().unwrap();
    run.fail_stage(&StageError::SpawnFailed(String::from("No such file or directory")));
    match run.status() {
        ManagerStatus::Failed(reason, _) => {
            assert_eq!(reason, "Upgrade error: No such file or directory");
        }
        other => panic!("expected Failed, got {:?}", other),
    }
}

#[test]
fn empty_command_error_message() {
    let mut run = WorkflowRun::new(config_upgrade_only(""));
    run.start_next_stage().unwrap();
    run.fail_stage(&StageError::InvalidCommand);
    match run.status() {
        ManagerStatus::Failed(reason, _) => {
            assert_eq!(reason, "Upgrade error: Empty command");
        }
        other => panic!("expected Failed, got {:?}", other),
    }
}

#[test]
fn elevation_unavailable_error_message() {
    let mut run = WorkflowRun::new(config_upgrade_only("apt upgrade"));
    run.start_next_stage().unwrap();
    run.fail_stage(&StageError::ElevationUnavailable);
    match run.status() {
        ManagerStatus::Failed(reason, _) => {
            assert_eq!(reason, "Upgrade error: sudo is required but not available");
        }
        other => panic!("expected Failed, got {:?}", other),
    }
}

#[test]
fn build_command_splits_on_whitespace() {
    let spec: CommandSpec = build_command("apt  upgrade \t -y", false, false).unwrap();
    assert_eq!(spec.program, "apt");
    assert_eq!(spec.args, vec!["upgrade", "-y"]);
}

#[test]
fn build_command_single_word() {
    let spec = build_command("true", false, true).unwrap();
    assert_eq!(spec.program, "true");
    assert!(spec.args.is_empty());
}

#[test]
fn build_command_rejects_empty() {
    assert!(matches!(
        build_command("   ", false, true),
        Err(StageError::InvalidCommand)
    ));
    assert!(matches!(build_command("", true, true), Err(StageError::InvalidCommand)));
}

#[test]
fn build_command_wraps_in_sudo() {
    let spec = build_command("apt upgrade -y", true, true).unwrap();
    assert_eq!(spec.program, "sudo");
    assert_eq!(spec.args, vec!["-n", "apt", "upgrade", "-y"]);
}

#[test]
fn build_command_needs_the_elevation_helper() {
    assert!(matches!(
        build_command("apt upgrade", true, false),
        Err(StageError::ElevationUnavailable)
    ));
}

#[test]
fn full_run_produces_the_exact_transcript() {
    let mut config = config_all_stages();
    config.self_update = Some(String::from("apt self-update"));
    let mut run = WorkflowRun::new(config);
    for _ in 0..4 {
        assert!(run.start_next_stage().is_some());
        run.finish_stage(&ok_outcome());
    }
    assert!(run.start_next_stage().is_none());
    match run.status() {
        ManagerStatus::Success(transcript) => {
            let expected = "=== REFRESHING REPOSITORIES ===\n\n\u{2713} Refresh completed\n\n=== SELF-UPDATE ===\n\n\u{2713} Self-update completed\n\n=== UPGRADING PACKAGES ===\n\n\u{2713} Upgrade completed\n\n=== CLEANUP ===\n\n\u{2713} Cleanup completed\n\n";
            assert_eq!(transcript, expected);
        }
        other => panic!("expected Success, got {:?}", other),
    }
}

#[test]
fn failure_in_a_middle_stage_keeps_earlier_markers_only() {
    let mut run = WorkflowRun::new(config_all_stages());
    run.start_next_stage().unwrap();
    run.finish_stage(&ok_outcome());
    let s2 = run.start_next_stage().unwrap();
    assert!(matches!(s2.stage, Stage::Upgrade));
    run.finish_stage(&failed_outcome(2));
    match run.status() {
        ManagerStatus::Failed(reason, transcript) => {
            assert_eq!(reason, "Upgrade command failed");
            assert!(transcript.contains("\u{2713} Refresh completed"));
            assert!(transcript.contains("=== UPGRADING PACKAGES ==="));
            assert!(!transcript.contains("\u{2713} Upgrade completed"));
            assert!(!transcript.contains("=== CLEANUP ==="));
        }
        other => panic!("expected Failed, got {:?}", other),
    }
}

#[test]
fn stage_spec_carries_the_configured_command() {
    let mut run = WorkflowRun::new(config_all_stages());
    let spec: StageSpec = run.start_next_stage().unwrap();
    assert_eq!(spec.command, "apt update");
}
