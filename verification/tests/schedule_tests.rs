use spine::schedule::{
    remove_auto_update_schedule, setup_daily_auto_update, setup_weekly_auto_update, ScheduleError,
};

#[test]
fn daily_schedule_appends_the_cron_entry() {
    let crontab = "0 1 * * * /usr/bin/backup\n";
    let out = setup_daily_auto_update("18:30", "/usr/local/bin/spn", false, crontab).unwrap();
    assert_eq!(
        out,
        "0 1 * * * /usr/bin/backup\n30 18 * * * /usr/local/bin/spn upgrade --no-tui >> /tmp/spine-auto-update.log 2>&1\n"
    );
}

#[test]
fn daily_schedule_with_notification_flag() {
    let out = setup_daily_auto_update("06:00", "/opt/spn", true, "").unwrap();
    assert_eq!(
        out,
        "00 06 * * * /opt/spn upgrade --no-tui --notify >> /tmp/spine-auto-update.log 2>&1\n"
    );
}

#[test]
fn daily_schedule_replaces_an_existing_entry() {
    let crontab = "0 1 * * * /usr/bin/backup\n5 2 * * * /usr/local/bin/spn upgrade --no-tui >> /tmp/spine-auto-update.log 2>&1\n";
    let out = setup_daily_auto_update("18:00", "/usr/local/bin/spn", false, crontab).unwrap();
    assert_eq!(
        out,
        "0 1 * * * /usr/bin/backup\n00 18 * * * /usr/local/bin/spn upgrade --no-tui >> /tmp/spine-auto-update.log 2>&1\n"
    );
}

#[test]
fn invalid_time_is_rejected() {
    assert!(matches!(
        setup_daily_auto_update("1800", "/bin/spn", false, ""),
        Err(ScheduleError::InvalidTime)
    ));
    assert!(matches!(
        setup_daily_auto_update("18:00:30", "/bin/spn", false, ""),
        Err(ScheduleError::InvalidTime)
    ));
}

#[test]
fn weekly_schedule_uses_cron_weekday_numbers() {
    let out = setup_weekly_auto_update("Friday", "/bin/spn", false, "").unwrap();
    assert_eq!(
        out,
        "0 18 * * 5 /bin/spn upgrade --no-tui >> /tmp/spine-auto-update.log 2>&1\n"
    );
    let sunday = setup_weekly_auto_update("sunday", "/bin/spn", true, "").unwrap();
    assert_eq!(
        sunday,
        "0 18 * * 0 /bin/spn upgrade --no-tui --notify >> /tmp/spine-auto-update.log 2>&1\n"
    );
}

#[test]
fn invalid_day_is_rejected() {
    assert!(matches!(
        setup_weekly_auto_update("someday", "/bin/spn", false, ""),
        Err(ScheduleError::InvalidDay)
    ));
    let message = ScheduleError::InvalidDay.message();
    assert!(message.contains("monday"));
}

#[test]
fn removing_the_schedule_keeps_foreign_lines() {
    let crontab = "0 1 * * * /usr/bin/backup\n5 2 * * * /usr/local/bin/spn upgrade --no-tui >> /tmp/spine-auto-update.log 2>&1\n30 3 * * * echo spine-check\nMAILTO=ops\n";
    let out = remove_auto_update_schedule(crontab);
    assert_eq!(out, "0 1 * * * /usr/bin/backup\nMAILTO=ops");
}

#[test]
fn removing_from_an_empty_crontab_leaves_nothing() {
    assert_eq!(remove_auto_update_schedule(""), "");
    assert_eq!(remove_auto_update_schedule("1 2 * * * spn upgrade\n"), "");
}
