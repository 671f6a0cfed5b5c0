//! A detected package manager: one configured manager whose probe command
//! was found on this system, together with its live status.
//!
//! Probing the system path is an outside concern; the library says which
//! program a probe must look for and assembles the detected unit.

use crate::config::{ManagerConfig, ManagerConfigView};
use crate::status::{ManagerStatus, StatusView};
use crate::text::{spec_tokens, split_tokens};
use vstd::prelude::*;

verus! {

/// One package manager found on this system, and where its upgrade stands.
pub struct DetectedManager {
    pub name: String,
    pub config: ManagerConfig,
    pub status: ManagerStatus,
}

/// Mathematical image of a `DetectedManager`.
pub struct DetectedManagerView {
    pub name: Seq<char>,
    pub config: ManagerConfigView,
    pub status: StatusView,
}

impl View for DetectedManager {
    type V = DetectedManagerView;

    open spec fn view(&self) -> DetectedManagerView {
        DetectedManagerView { name: self.name@, config: self.config@, status: self.status@ }
    }
}

impl Clone for DetectedManager {
    fn clone(&self) -> (r: Self)
        ensures
            r == *self,
    {
        DetectedManager {
            name: self.name.clone(),
            config: self.config.clone(),
            status: self.status.clone(),
        }
    }
}

impl DetectedManager {
    /// A freshly detected manager: nothing has run yet.
    pub fn new(name: String, config: ManagerConfig) -> (r: Self)
        ensures
            r@.name == name@,
            r@.config == config@,
            r@.status == StatusView::Pending,
    {
        DetectedManager { name, config, status: ManagerStatus::Pending }
    }
}

/// The program a manager's availability probe must find: the first word of
/// its check command, or nothing when the command is blank.
pub fn probe_program(check_command: &str) -> (r: Option<String>)
    ensures
        match r {
            Option::Some(p) => spec_tokens(check_command@).len() > 0 && p@ == spec_tokens(
                check_command@,
            )[0],
            Option::None => spec_tokens(check_command@).len() == 0,
        },
{
    let words = split_tokens(check_command);
    if words.len() == 0 {
        Option::None
    } else {
        Option::Some(words[0].clone())
    }
}

} // verus!
