//! The status a workflow unit exposes to the monitor, and the order its
//! transitions must respect.

use vstd::prelude::*;

verus! {

/// Where one package manager's upgrade cycle stands.
///
/// `Running` carries the label of the stage in flight and the transcript so
/// far; `Success` the full transcript; `Failed` the failure reason and the
/// transcript up to the failure.
#[derive(Debug)]
pub enum ManagerStatus {
    Pending,
    Running(String, String),
    Success(String),
    Failed(String, String),
}

/// Mathematical image of a `ManagerStatus`: the same shape over `Seq<char>`.
pub enum StatusView {
    Pending,
    Running(Seq<char>, Seq<char>),
    Success(Seq<char>),
    Failed(Seq<char>, Seq<char>),
}

impl View for ManagerStatus {
    type V = StatusView;

    open spec fn view(&self) -> StatusView {
        match self {
            ManagerStatus::Pending => StatusView::Pending,
            ManagerStatus::Running(op, t) => StatusView::Running(op@, t@),
            ManagerStatus::Success(t) => StatusView::Success(t@),
            ManagerStatus::Failed(r, t) => StatusView::Failed(r@, t@),
        }
    }
}

/// Position of a running stage's label in the fixed stage order; 0 for a
/// label that is no stage of the workflow.
pub open spec fn stage_label_rank(label: Seq<char>) -> int {
    if label == "Refreshing"@ {
        1
    } else if label == "Self-updating"@ {
        2
    } else if label == "Upgrading"@ {
        3
    } else if label == "Cleaning"@ {
        4
    } else {
        0
    }
}

/// Height of a status in the stage order: `Pending` sits below every stage,
/// the terminal states above all of them.
pub open spec fn status_rank(s: StatusView) -> int {
    match s {
        StatusView::Pending => 0,
        StatusView::Running(label, _) => stage_label_rank(label),
        StatusView::Success(_) => 5,
        StatusView::Failed(_, _) => 5,
    }
}

pub open spec fn status_is_terminal(s: StatusView) -> bool {
    s is Success || s is Failed
}

/// One admissible move of a unit's status: never backward through the stage
/// order, and a terminal status never changes again.
pub open spec fn status_le(a: StatusView, b: StatusView) -> bool {
    &&& status_rank(a) <= status_rank(b)
    &&& status_is_terminal(a) ==> a == b
}

/// `status_le` chains: a run whose every step is admissible moves the status
/// along a single forward path through the stage order, with no backward
/// transition, however many steps it takes.
pub proof fn lemma_status_le_transitive(a: StatusView, b: StatusView, c: StatusView)
    requires
        status_le(a, b),
        status_le(b, c),
    ensures
        status_le(a, c),
{
}

impl PartialEq for ManagerStatus {
    /// Two statuses are equal when they are the same variant with the same
    /// texts.
    fn eq(&self, other: &Self) -> (r: bool) {
        match (self, other) {
            (ManagerStatus::Pending, ManagerStatus::Pending) => true,
            (ManagerStatus::Running(op1, t1), ManagerStatus::Running(op2, t2)) => crate::text::str_eq(
                op1.as_str(),
                op2.as_str(),
            ) && crate::text::str_eq(t1.as_str(), t2.as_str()),
            (ManagerStatus::Success(t1), ManagerStatus::Success(t2)) => crate::text::str_eq(
                t1.as_str(),
                t2.as_str(),
            ),
            (ManagerStatus::Failed(r1, t1), ManagerStatus::Failed(r2, t2)) => crate::text::str_eq(
                r1.as_str(),
                r2.as_str(),
            ) && crate::text::str_eq(t1.as_str(), t2.as_str()),
            _ => false,
        }
    }
}

impl vstd::std_specs::cmp::PartialEqSpecImpl for ManagerStatus {
    open spec fn obeys_eq_spec() -> bool {
        true
    }

    open spec fn eq_spec(&self, other: &Self) -> bool {
        self@ == other@
    }
}

impl Clone for ManagerStatus {
    fn clone(&self) -> (r: Self)
        ensures
            r == *self,
    {
        match self {
            ManagerStatus::Pending => ManagerStatus::Pending,
            ManagerStatus::Running(op, t) => ManagerStatus::Running(op.clone(), t.clone()),
            ManagerStatus::Success(t) => ManagerStatus::Success(t.clone()),
            ManagerStatus::Failed(reason, t) => ManagerStatus::Failed(reason.clone(), t.clone()),
        }
    }
}

impl ManagerStatus {
    /// The unit has reached `Success` or `Failed` and will not move again.
    pub fn is_terminal(&self) -> (r: bool)
        ensures
            r == status_is_terminal(self@),
    {
        match self {
            ManagerStatus::Success(_) => true,
            ManagerStatus::Failed(_, _) => true,
            _ => false,
        }
    }

    pub fn is_success(&self) -> (r: bool)
        ensures
            r == (self@ is Success),
    {
        match self {
            ManagerStatus::Success(_) => true,
            _ => false,
        }
    }

    pub fn is_failed(&self) -> (r: bool)
        ensures
            r == (self@ is Failed),
    {
        match self {
            ManagerStatus::Failed(_, _) => true,
            _ => false,
        }
    }
}

} // verus!
