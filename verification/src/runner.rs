//! What one stage hands to, and receives from, the process that runs its
//! command: the split command line, the errors that keep a command from
//! running, and the outcome of a finished process.

use crate::text::{push_string, spec_tokens, split_tokens};
use vstd::prelude::*;

verus! {

/// A command ready to spawn: the program and its argument list.
pub struct CommandSpec {
    pub program: String,
    pub args: Vec<String>,
}

/// Mathematical image of a `CommandSpec`.
pub struct CommandSpecView {
    pub program: Seq<char>,
    pub args: Seq<Seq<char>>,
}

impl View for CommandSpec {
    type V = CommandSpecView;

    open spec fn view(&self) -> CommandSpecView {
        CommandSpecView { program: self.program@, args: self.args.deep_view() }
    }
}

/// Why a stage never produced an outcome: its command was empty, elevation
/// was asked for without a helper, or the operating system failed to spawn
/// or read from the process.
#[derive(Debug)]
pub enum StageError {
    InvalidCommand,
    ElevationUnavailable,
    SpawnFailed(String),
}

/// Mathematical image of a `StageError`.
pub enum StageErrorView {
    InvalidCommand,
    ElevationUnavailable,
    SpawnFailed(Seq<char>),
}

impl View for StageError {
    type V = StageErrorView;

    open spec fn view(&self) -> StageErrorView {
        match self {
            StageError::InvalidCommand => StageErrorView::InvalidCommand,
            StageError::ElevationUnavailable => StageErrorView::ElevationUnavailable,
            StageError::SpawnFailed(m) => StageErrorView::SpawnFailed(m@),
        }
    }
}

/// The text a stage error carries into the unit's failure reason.
pub open spec fn spec_stage_error_message(e: StageErrorView) -> Seq<char> {
    match e {
        StageErrorView::InvalidCommand => "Empty command"@,
        StageErrorView::ElevationUnavailable => "sudo is required but not available"@,
        StageErrorView::SpawnFailed(m) => m,
    }
}

impl StageError {
    pub fn message(&self) -> (r: String)
        ensures
            r@ == spec_stage_error_message(self@),
    {
        match self {
            StageError::InvalidCommand => "Empty command".to_owned(),
            StageError::ElevationUnavailable => "sudo is required but not available".to_owned(),
            StageError::SpawnFailed(m) => m.clone(),
        }
    }
}

/// How a stage's process ended: whether it was cut off by the timeout,
/// whether it reported success, and the exit code if one was seen.
pub struct ExecutionOutcome {
    pub success: bool,
    pub timed_out: bool,
    pub exit_code: Option<i64>,
}

/// Mathematical image of an `ExecutionOutcome`.
pub struct OutcomeView {
    pub success: bool,
    pub timed_out: bool,
    pub exit_code: Option<int>,
}

impl View for ExecutionOutcome {
    type V = OutcomeView;

    open spec fn view(&self) -> OutcomeView {
        OutcomeView {
            success: self.success,
            timed_out: self.timed_out,
            exit_code: match self.exit_code {
                Option::Some(c) => Option::Some(c as int),
                Option::None => Option::None,
            },
        }
    }
}

/// The command line `build_command` owes for a stage command: `Err` exactly
/// on an empty command or on elevation without a helper; otherwise the words
/// of the command, wrapped in a non-interactive `sudo` call when elevated.
pub open spec fn spec_build_command(
    command: Seq<char>,
    elevate: bool,
    sudo_available: bool,
) -> Result<CommandSpecView, StageErrorView> {
    let words = spec_tokens(command);
    if words.len() == 0 {
        Result::Err(StageErrorView::InvalidCommand)
    } else if elevate && !sudo_available {
        Result::Err(StageErrorView::ElevationUnavailable)
    } else if elevate {
        Result::Ok(CommandSpecView { program: "sudo"@, args: seq!["-n"@] + words })
    } else {
        Result::Ok(CommandSpecView { program: words[0], args: words.drop_first() })
    }
}

/// Split a stage command into a program and arguments, wrapping it for
/// elevation when asked. `sudo_available` says whether the elevation helper
/// was found on this system.
pub fn build_command(command: &str, elevate: bool, sudo_available: bool) -> (r: Result<
    CommandSpec,
    StageError,
>)
    ensures
        match r {
            Result::Ok(c) => spec_build_command(command@, elevate, sudo_available)
                == Result::<CommandSpecView, StageErrorView>::Ok(c@),
            Result::Err(e) => spec_build_command(command@, elevate, sudo_available)
                == Result::<CommandSpecView, StageErrorView>::Err(e@),
        },
{
    let mut words = split_tokens(command);
    if words.len() == 0 {
        return Result::Err(StageError::InvalidCommand);
    }
    if elevate {
        if !sudo_available {
            return Result::Err(StageError::ElevationUnavailable);
        }
        let mut args: Vec<String> = Vec::new();
        push_string(&mut args, "-n".to_owned());
        assert(args.deep_view() =~= seq!["-n"@] + words.deep_view().take(0));
        let mut i: usize = 0;
        while i < words.len()
            invariant
                i <= words.len(),
                words.deep_view() == spec_tokens(command@),
                args.deep_view() == seq!["-n"@] + words.deep_view().take(i as int),
            decreases words.len() - i,
        {
            push_string(&mut args, words[i].clone());
            i = i + 1;
            assert(args.deep_view() =~= seq!["-n"@] + words.deep_view().take(i as int));
        }
        assert(args.deep_view() =~= seq!["-n"@] + spec_tokens(command@));
        Result::Ok(CommandSpec { program: "sudo".to_owned(), args })
    } else {
        let program = words[0].clone();
        let mut args: Vec<String> = Vec::new();
        let mut i: usize = 1;
        while i < words.len()
            invariant
                1 <= i <= words.len(),
                words.deep_view() == spec_tokens(command@),
                args.deep_view() == words.deep_view().subrange(1, i as int),
            decreases words.len() - i,
        {
            push_string(&mut args, words[i].clone());
            i = i + 1;
            assert(args.deep_view() =~= words.deep_view().subrange(1, i as int));
        }
        assert(args.deep_view() =~= spec_tokens(command@).drop_first());
        Result::Ok(CommandSpec { program, args })
    }
}

} // verus!
