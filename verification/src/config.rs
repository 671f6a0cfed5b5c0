//! Configuration data: which package managers exist, the commands of their
//! stages, and the automatic-update settings.
//!
//! Loading and parsing the configuration file is an outside concern; the
//! library receives the values ready-made and only carries and reads them.

use std::collections::HashMap;
use vstd::prelude::*;

verus! {

/// The stage commands of one package manager. `upgrade_all` is the only
/// mandatory stage; an absent optional command means the stage is skipped.
pub struct ManagerConfig {
    pub name: String,
    pub check_command: String,
    pub refresh: Option<String>,
    pub self_update: Option<String>,
    pub upgrade_all: String,
    pub cleanup: Option<String>,
    pub requires_sudo: bool,
}

/// Mathematical image of a `ManagerConfig`.
pub struct ManagerConfigView {
    pub name: Seq<char>,
    pub check_command: Seq<char>,
    pub refresh: Option<Seq<char>>,
    pub self_update: Option<Seq<char>>,
    pub upgrade_all: Seq<char>,
    pub cleanup: Option<Seq<char>>,
    pub requires_sudo: bool,
}

impl View for ManagerConfig {
    type V = ManagerConfigView;

    open spec fn view(&self) -> ManagerConfigView {
        ManagerConfigView {
            name: self.name@,
            check_command: self.check_command@,
            refresh: self.refresh.deep_view(),
            self_update: self.self_update.deep_view(),
            upgrade_all: self.upgrade_all@,
            cleanup: self.cleanup.deep_view(),
            requires_sudo: self.requires_sudo,
        }
    }
}

fn clone_opt_string(o: &Option<String>) -> (r: Option<String>)
    ensures
        r.deep_view() == o.deep_view(),
        r == *o,
{
    match o {
        Option::Some(s) => Option::Some(s.clone()),
        Option::None => Option::None,
    }
}

impl Clone for ManagerConfig {
    fn clone(&self) -> (r: Self)
        ensures
            r == *self,
    {
        ManagerConfig {
            name: self.name.clone(),
            check_command: self.check_command.clone(),
            refresh: clone_opt_string(&self.refresh),
            self_update: clone_opt_string(&self.self_update),
            upgrade_all: self.upgrade_all.clone(),
            cleanup: clone_opt_string(&self.cleanup),
            requires_sudo: self.requires_sudo,
        }
    }
}

/// When and how automatic background updates run.
pub struct AutoUpdateConfig {
    pub enabled: bool,
    pub schedule: String,
    pub time: String,
    pub day: String,
    pub notify: bool,
    pub no_tui: bool,
}

/// The whole configuration: one entry per known package manager, keyed by its
/// short name, plus the automatic-update settings.
pub struct Config {
    pub managers: HashMap<String, ManagerConfig>,
    pub auto_update: AutoUpdateConfig,
}

pub fn default_schedule() -> (r: String)
    ensures
        r@ == "daily"@,
{
    "daily".to_owned()
}

pub fn default_time() -> (r: String)
    ensures
        r@ == "18:00"@,
{
    "18:00".to_owned()
}

pub fn default_day() -> (r: String)
    ensures
        r@ == "monday"@,
{
    "monday".to_owned()
}

pub fn default_notify() -> (r: bool)
    ensures
        r,
{
    true
}

pub fn default_no_tui() -> (r: bool)
    ensures
        r,
{
    true
}

impl Default for AutoUpdateConfig {
    /// Automatic updates start out disabled: daily at 18:00, Mondays when
    /// weekly, with notifications on and the interactive monitor off.
    fn default() -> (r: Self)
        ensures
            !r.enabled,
            r.schedule@ == "daily"@,
            r.time@ == "18:00"@,
            r.day@ == "monday"@,
            r.notify,
            r.no_tui,
    {
        AutoUpdateConfig {
            enabled: false,
            schedule: default_schedule(),
            time: default_time(),
            day: default_day(),
            notify: default_notify(),
            no_tui: default_no_tui(),
        }
    }
}

/// Does any of the given managers need elevation? Decides whether the
/// elevation helper is probed before a run.
pub fn any_requires_sudo(configs: &Vec<ManagerConfig>) -> (r: bool)
    ensures
        r <==> exists|k: int| 0 <= k < configs@.len() && (#[trigger] configs@[k])@.requires_sudo,
{
    let n = configs.len();
    let mut i: usize = 0;
    while i < n
        invariant
            i <= n,
            n == configs@.len(),
            forall|k: int| 0 <= k < i ==> !(#[trigger] configs@[k])@.requires_sudo,
        decreases n - i,
    {
        if configs[i].requires_sudo {
            return true;
        }
        i = i + 1;
    }
    false
}

/// The candidate locations of the configuration file, in search order, given
/// the directories the system offers. Paths are joined with `/`.
pub open spec fn spec_config_search_paths(
    config_dir: Option<Seq<char>>,
    current_dir: Option<Seq<char>>,
    home_dir: Option<Seq<char>>,
    exe_dir: Option<Seq<char>>,
) -> Seq<Seq<char>> {
    (match config_dir {
        Option::Some(d) => seq![d + "/spine/backbone.toml"@],
        Option::None => Seq::empty(),
    }) + (match current_dir {
        Option::Some(d) => seq![d + "/backbone.toml"@],
        Option::None => Seq::empty(),
    }) + (match home_dir {
        Option::Some(d) => seq![d + "/.spine/backbone.toml"@],
        Option::None => Seq::empty(),
    }) + (match exe_dir {
        Option::Some(d) => seq![d + "/backbone.toml"@],
        Option::None => Seq::empty(),
    }) + seq!["/etc/spine/backbone.toml"@, "/usr/local/etc/spine/backbone.toml"@]
}

/// Where to look for the configuration file, in priority order: the system
/// configuration directory, the working directory, the home directory, the
/// directory of the running binary, then the fixed system locations.
pub fn config_search_paths(
    config_dir: &Option<String>,
    current_dir: &Option<String>,
    home_dir: &Option<String>,
    exe_dir: &Option<String>,
) -> (r: Vec<String>)
    ensures
        r.deep_view() == spec_config_search_paths(
            config_dir.deep_view(),
            current_dir.deep_view(),
            home_dir.deep_view(),
            exe_dir.deep_view(),
        ),
{
    let mut r: Vec<String> = Vec::new();
    if let Option::Some(d) = config_dir {
        let mut p = d.clone();
        p.append("/spine/backbone.toml");
        r.push(p);
    }
    if let Option::Some(d) = current_dir {
        let mut p = d.clone();
        p.append("/backbone.toml");
        r.push(p);
    }
    if let Option::Some(d) = home_dir {
        let mut p = d.clone();
        p.append("/.spine/backbone.toml");
        r.push(p);
    }
    if let Option::Some(d) = exe_dir {
        let mut p = d.clone();
        p.append("/backbone.toml");
        r.push(p);
    }
    r.push("/etc/spine/backbone.toml".to_owned());
    r.push("/usr/local/etc/spine/backbone.toml".to_owned());
    assert(r.deep_view() =~= spec_config_search_paths(
        config_dir.deep_view(),
        current_dir.deep_view(),
        home_dir.deep_view(),
        exe_dir.deep_view(),
    ));
    r
}

/// The lines of the auto-update status report: whether it is enabled, the
/// schedule with its time or day, and how a background run behaves.
pub open spec fn spec_auto_update_status_lines(
    enabled: bool,
    schedule: Seq<char>,
    time: Seq<char>,
    day: Seq<char>,
    notify: bool,
    no_tui: bool,
) -> Seq<Seq<char>> {
    seq![
        if enabled {
            "  Enabled:      \u{2713} Yes"@
        } else {
            "  Enabled:      \u{2717} No"@
        },
        "  Schedule:     "@ + schedule,
    ] + (if schedule == "daily"@ {
        seq!["  Time:         "@ + time]
    } else {
        seq!["  Day:          "@ + day, "  Time:         18:00"@]
    }) + seq![
        if notify {
            "  Notifications: \u{2713} Enabled"@
        } else {
            "  Notifications: \u{2717} Disabled"@
        },
        if no_tui {
            "  Mode:         Background"@
        } else {
            "  Mode:         Interactive"@
        },
    ]
}

/// The auto-update status report for one configuration.
pub fn auto_update_status_lines(c: &AutoUpdateConfig) -> (r: Vec<String>)
    ensures
        r.deep_view() == spec_auto_update_status_lines(
            c.enabled,
            c.schedule@,
            c.time@,
            c.day@,
            c.notify,
            c.no_tui,
        ),
{
    let mut r: Vec<String> = Vec::new();
    if c.enabled {
        crate::text::push_string(&mut r, "  Enabled:      \u{2713} Yes".to_owned());
    } else {
        crate::text::push_string(&mut r, "  Enabled:      \u{2717} No".to_owned());
    }
    let mut schedule_line = "  Schedule:     ".to_owned();
    schedule_line.append(c.schedule.as_str());
    crate::text::push_string(&mut r, schedule_line);
    if crate::text::str_eq(c.schedule.as_str(), "daily") {
        let mut time_line = "  Time:         ".to_owned();
        time_line.append(c.time.as_str());
        crate::text::push_string(&mut r, time_line);
    } else {
        let mut day_line = "  Day:          ".to_owned();
        day_line.append(c.day.as_str());
        crate::text::push_string(&mut r, day_line);
        crate::text::push_string(&mut r, "  Time:         18:00".to_owned());
    }
    if c.notify {
        crate::text::push_string(&mut r, "  Notifications: \u{2713} Enabled".to_owned());
    } else {
        crate::text::push_string(&mut r, "  Notifications: \u{2717} Disabled".to_owned());
    }
    if c.no_tui {
        crate::text::push_string(&mut r, "  Mode:         Background".to_owned());
    } else {
        crate::text::push_string(&mut r, "  Mode:         Interactive".to_owned());
    }
    proof {
        assert(r.deep_view() =~= spec_auto_update_status_lines(
            c.enabled,
            c.schedule@,
            c.time@,
            c.day@,
            c.notify,
            c.no_tui,
        ));
    }
    r
}

} // verus!
