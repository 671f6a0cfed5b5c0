//! The interactive monitor's state machine: which screen is shown, which
//! unit is selected, how each unit's log view is scrolled, and which units
//! have been started in selective mode.
//!
//! The event loop around it polls the terminal and draws; every decision —
//! what a key does, when a workflow may start, how far a view may scroll —
//! is taken here and mirrored by the spec function `spec_monitor_step`.

use crate::status::{ManagerStatus, status_is_terminal};
use vstd::prelude::*;

verus! {

/// Which screen the monitor shows.
#[derive(Debug, Clone, Copy, PartialEq, Eq, Structural)]
pub enum AppState {
    ManagerList,
    DetailView(usize),
    LogsView(usize),
}

/// One keyboard action the monitor understands; any other key is `Other`.
/// `Back` stands for every key that returns to the list.
#[derive(Debug, Clone, Copy, PartialEq, Eq, Structural)]
pub enum MonitorKey {
    Quit,
    Back,
    Up,
    Down,
    Enter,
    Start,
    Logs,
    PageUp,
    PageDown,
    Home,
    End,
    Other,
}

/// What the caller owes after a key: nothing, leaving the monitor, or
/// launching the workflow of one unit.
#[derive(Debug, Clone, Copy, PartialEq, Eq, Structural)]
pub enum MonitorAction {
    Stay,
    Quit,
    StartUnit(usize),
}

/// Mathematical image of a `MonitorState`.
#[verifier::ext_equal]
pub struct MonitorView {
    pub state: AppState,
    pub selected: usize,
    pub scroll: Seq<u16>,
    pub started: Seq<bool>,
}

/// The monitor's whole mutable state, over a fixed, non-empty collection of
/// units.
pub struct MonitorState {
    pub state: AppState,
    pub selected: usize,
    pub scroll: Vec<u16>,
    pub started: Vec<bool>,
}

impl View for MonitorState {
    type V = MonitorView;

    open spec fn view(&self) -> MonitorView {
        MonitorView {
            state: self.state,
            selected: self.selected,
            scroll: self.scroll@,
            started: self.started@,
        }
    }
}

/// Well-formedness: one scroll offset and one started flag per unit, and
/// every index the state holds points at a unit.
pub open spec fn monitor_wf(m: MonitorView) -> bool {
    &&& m.scroll.len() == m.started.len()
    &&& m.selected < m.started.len()
    &&& match m.state {
        AppState::ManagerList => true,
        AppState::DetailView(i) => i < m.started.len(),
        AppState::LogsView(i) => i < m.started.len(),
    }
}

/// The largest admissible scroll offset for a log of `line_count` lines in
/// a viewport of `viewport` lines.
pub open spec fn spec_max_scroll(line_count: int, viewport: int) -> int {
    if line_count > viewport {
        line_count - viewport
    } else {
        0
    }
}

/// `offset`, cut down to the admissible range.
pub open spec fn spec_clamp_scroll(offset: int, line_count: int, viewport: int) -> int {
    if offset <= spec_max_scroll(line_count, viewport) {
        offset
    } else {
        spec_max_scroll(line_count, viewport)
    }
}

/// The scroll offset a log view may use: never past the end of the log.
/// Whatever offset was stored, the result lies in
/// `0 ..= max(0, line_count - viewport)`.
pub fn clamp_scroll(offset: u16, line_count: u16, viewport: u16) -> (r: u16)
    ensures
        r as int == spec_clamp_scroll(offset as int, line_count as int, viewport as int),
        0 <= r as int <= spec_max_scroll(line_count as int, viewport as int),
{
    let max_scroll: u16 = if line_count > viewport {
        line_count - viewport
    } else {
        0
    };
    if offset <= max_scroll {
        offset
    } else {
        max_scroll
    }
}

/// Where a scroll key moves an offset, before clamping.
pub open spec fn spec_scroll_target(offset: int, key: MonitorKey, line_count: int, viewport: int) -> int {
    match key {
        MonitorKey::Up => if offset >= 1 {
            offset - 1
        } else {
            0
        },
        MonitorKey::Down => offset + 1,
        MonitorKey::PageUp => if offset >= 10 {
            offset - 10
        } else {
            0
        },
        MonitorKey::PageDown => offset + 10,
        MonitorKey::Home => 0,
        MonitorKey::End => spec_max_scroll(line_count, viewport),
        _ => offset,
    }
}

pub open spec fn is_scroll_key(key: MonitorKey) -> bool {
    match key {
        MonitorKey::Up => true,
        MonitorKey::Down => true,
        MonitorKey::PageUp => true,
        MonitorKey::PageDown => true,
        MonitorKey::Home => true,
        MonitorKey::End => true,
        _ => false,
    }
}

/// One monitor transition: what `key` does to the state, and what the
/// caller must do. `line_count` and `viewport` describe the log view in
/// front of the user at the moment of the key press.
pub open spec fn spec_monitor_step(
    m: MonitorView,
    key: MonitorKey,
    selective: bool,
    line_count: int,
    viewport: int,
) -> (MonitorView, MonitorAction) {
    if key == MonitorKey::Quit {
        (m, MonitorAction::Quit)
    } else {
        match m.state {
            AppState::ManagerList => {
                if key == MonitorKey::Down {
                    if m.selected + 1 < m.started.len() {
                        (MonitorView { selected: (m.selected + 1) as usize, ..m }, MonitorAction::Stay)
                    } else {
                        (m, MonitorAction::Stay)
                    }
                } else if key == MonitorKey::Up {
                    if m.selected > 0 {
                        (MonitorView { selected: (m.selected - 1) as usize, ..m }, MonitorAction::Stay)
                    } else {
                        (m, MonitorAction::Stay)
                    }
                } else if key == MonitorKey::Enter {
                    (MonitorView { state: AppState::DetailView(m.selected), ..m }, MonitorAction::Stay)
                } else if key == MonitorKey::Start && selective && !m.started[m.selected as int] {
                    (
                        MonitorView { started: m.started.update(m.selected as int, true), ..m },
                        MonitorAction::StartUnit(m.selected),
                    )
                } else {
                    (m, MonitorAction::Stay)
                }
            },
            AppState::DetailView(i) => {
                if key == MonitorKey::Logs {
                    (MonitorView { state: AppState::LogsView(i), ..m }, MonitorAction::Stay)
                } else if key == MonitorKey::Back {
                    (MonitorView { state: AppState::ManagerList, ..m }, MonitorAction::Stay)
                } else {
                    (m, MonitorAction::Stay)
                }
            },
            AppState::LogsView(i) => {
                if key == MonitorKey::Back {
                    (MonitorView { state: AppState::ManagerList, ..m }, MonitorAction::Stay)
                } else if is_scroll_key(key) {
                    let target = spec_scroll_target(m.scroll[i as int] as int, key, line_count, viewport);
                    (
                        MonitorView {
                            scroll: m.scroll.update(
                                i as int,
                                spec_clamp_scroll(target, line_count, viewport) as u16,
                            ),
                            ..m
                        },
                        MonitorAction::Stay,
                    )
                } else {
                    (m, MonitorAction::Stay)
                }
            },
        }
    }
}

/// A monitor transition keeps the state well-formed; started flags never
/// fall back to unstarted; a unit is asked to start only if it was not
/// started, and is then marked started; and a clamped scroll offset stays
/// within `0 ..= max(0, line_count - viewport)`.
pub proof fn lemma_monitor_step(
    m: MonitorView,
    key: MonitorKey,
    selective: bool,
    line_count: int,
    viewport: int,
)
    requires
        monitor_wf(m),
    ensures
        ({
            let (m2, a) = spec_monitor_step(m, key, selective, line_count, viewport);
            &&& monitor_wf(m2)
            &&& m2.started.len() == m.started.len()
            &&& forall|k: int| 0 <= k < m.started.len() && m.started[k] ==> m2.started[k]
            &&& (a matches MonitorAction::StartUnit(u) ==> u < m.started.len() && !m.started[
                u as int
            ] && m2.started[u as int])
        }),
{
}

/// In selective mode, pressing start on an already-started unit is a
/// no-op: no second start is requested, nothing in the monitor changes,
/// and the units themselves are untouched.
pub proof fn lemma_start_already_started(
    m: MonitorView,
    selective: bool,
    line_count: int,
    viewport: int,
)
    requires
        monitor_wf(m),
        m.state == AppState::ManagerList,
        m.started[m.selected as int],
    ensures
        spec_monitor_step(m, MonitorKey::Start, selective, line_count, viewport) == (
            m,
            MonitorAction::Stay,
        ),
{
}

/// After any scroll key, the stored offset of the viewed log is clamped:
/// `0 <= offset <= max(0, line_count - viewport)` — also after repeated
/// jumps to the end.
pub proof fn lemma_scroll_stays_clamped(
    m: MonitorView,
    key: MonitorKey,
    selective: bool,
    line_count: int,
    viewport: int,
    i: usize,
)
    requires
        monitor_wf(m),
        m.state == AppState::LogsView(i),
        is_scroll_key(key),
    ensures
        ({
            let (m2, a) = spec_monitor_step(m, key, selective, line_count, viewport);
            0 <= m2.scroll[i as int] as int <= spec_max_scroll(line_count, viewport)
        }),
{
}

impl MonitorState {
    pub open spec fn wf(&self) -> bool {
        monitor_wf(self@)
    }

    /// A monitor over `n` units: the list screen, the first unit selected,
    /// all logs at the top, nothing started.
    pub fn new(n: usize) -> (r: Self)
        requires
            n > 0,
        ensures
            r.wf(),
            r@.state == AppState::ManagerList,
            r@.selected == 0,
            r@.scroll.len() == n,
            r@.started.len() == n,
            forall|k: int| 0 <= k < n ==> r@.scroll[k] == 0,
            forall|k: int| 0 <= k < n ==> !r@.started[k],
    {
        let mut scroll: Vec<u16> = Vec::new();
        let mut started: Vec<bool> = Vec::new();
        let mut i: usize = 0;
        while i < n
            invariant
                i <= n,
                scroll@.len() == i,
                started@.len() == i,
                forall|k: int| 0 <= k < i ==> scroll@[k] == 0,
                forall|k: int| 0 <= k < i ==> !started@[k],
            decreases n - i,
        {
            scroll.push(0);
            started.push(false);
            i = i + 1;
        }
        MonitorState { state: AppState::ManagerList, selected: 0, scroll, started }
    }

    /// Mark every unit as started — bulk mode launches all workflows at
    /// once before the first key is read.
    pub fn mark_all_started(&mut self)
        requires
            old(self).wf(),
        ensures
            final(self).wf(),
            final(self)@ == (MonitorView {
                started: Seq::new(old(self)@.started.len(), |k: int| true),
                ..old(self)@
            }),
    {
        let n = self.started.len();
        let mut started: Vec<bool> = Vec::new();
        let mut i: usize = 0;
        while i < n
            invariant
                i <= n,
                started@.len() == i,
                forall|k: int| 0 <= k < i ==> started@[k],
            decreases n - i,
        {
            started.push(true);
            i = i + 1;
        }
        self.started = started;
        proof {
            assert(self@.started =~= Seq::new(old(self)@.started.len(), |k: int| true));
            assert(self@ =~= (MonitorView {
                started: Seq::new(old(self)@.started.len(), |k: int| true),
                ..old(self)@
            }));
        }
    }

    /// Handle one key press. `line_count` and `viewport` describe the log
    /// text and window currently in front of the user; they only matter
    /// for scroll keys.
    pub fn handle_key(
        &mut self,
        key: MonitorKey,
        selective: bool,
        line_count: u16,
        viewport: u16,
    ) -> (r: MonitorAction)
        requires
            old(self).wf(),
        ensures
            final(self).wf(),
            (final(self)@, r) == spec_monitor_step(
                old(self)@,
                key,
                selective,
                line_count as int,
                viewport as int,
            ),
    {
        proof {
            lemma_monitor_step(old(self)@, key, selective, line_count as int, viewport as int);
        }
        if let MonitorKey::Quit = key {
            return MonitorAction::Quit;
        }
        match self.state {
            AppState::ManagerList => {
                match key {
                    MonitorKey::Down => {
                        let n = self.started.len();
                        if self.selected + 1 < n {
                            self.selected = self.selected + 1;
                        }
                        MonitorAction::Stay
                    },
                    MonitorKey::Up => {
                        if self.selected > 0 {
                            self.selected = self.selected - 1;
                        }
                        MonitorAction::Stay
                    },
                    MonitorKey::Enter => {
                        self.state = AppState::DetailView(self.selected);
                        MonitorAction::Stay
                    },
                    MonitorKey::Start => {
                        if selective && !self.started[self.selected] {
                            self.started.set(self.selected, true);
                            MonitorAction::StartUnit(self.selected)
                        } else {
                            MonitorAction::Stay
                        }
                    },
                    _ => MonitorAction::Stay,
                }
            },
            AppState::DetailView(i) => {
                match key {
                    MonitorKey::Logs => {
                        self.state = AppState::LogsView(i);
                        MonitorAction::Stay
                    },
                    MonitorKey::Back => {
                        self.state = AppState::ManagerList;
                        MonitorAction::Stay
                    },
                    _ => MonitorAction::Stay,
                }
            },
            AppState::LogsView(i) => {
                match key {
                    MonitorKey::Back => {
                        self.state = AppState::ManagerList;
                        MonitorAction::Stay
                    },
                    MonitorKey::Up => {
                        let cur = self.scroll[i];
                        let target = if cur >= 1 {
                            cur - 1
                        } else {
                            0
                        };
                        self.scroll.set(i, clamp_scroll(target, line_count, viewport));
                        MonitorAction::Stay
                    },
                    MonitorKey::Down => {
                        let cur = self.scroll[i];
                        let target = if cur <= u16::MAX - 1 {
                            cur + 1
                        } else {
                            u16::MAX
                        };
                        self.scroll.set(i, clamp_scroll(target, line_count, viewport));
                        proof {
                            let sp = spec_clamp_scroll(
                                old(self)@.scroll[i as int] + 1,
                                line_count as int,
                                viewport as int,
                            );
                            assert(self@.scroll[i as int] as int == sp);
                        }
                        MonitorAction::Stay
                    },
                    MonitorKey::PageUp => {
                        let cur = self.scroll[i];
                        let target = if cur >= 10 {
                            cur - 10
                        } else {
                            0
                        };
                        self.scroll.set(i, clamp_scroll(target, line_count, viewport));
                        MonitorAction::Stay
                    },
                    MonitorKey::PageDown => {
                        let cur = self.scroll[i];
                        let target = if cur <= u16::MAX - 10 {
                            cur + 10
                        } else {
                            u16::MAX
                        };
                        self.scroll.set(i, clamp_scroll(target, line_count, viewport));
                        proof {
                            let sp = spec_clamp_scroll(
                                old(self)@.scroll[i as int] + 10,
                                line_count as int,
                                viewport as int,
                            );
                            assert(self@.scroll[i as int] as int == sp);
                        }
                        MonitorAction::Stay
                    },
                    MonitorKey::Home => {
                        self.scroll.set(i, 0);
                        MonitorAction::Stay
                    },
                    MonitorKey::End => {
                        let max_scroll: u16 = if line_count > viewport {
                            line_count - viewport
                        } else {
                            0
                        };
                        self.scroll.set(i, max_scroll);
                        MonitorAction::Stay
                    },
                    _ => MonitorAction::Stay,
                }
            },
        }
    }
}

/// Is every unit that matters finished? In selective mode only the started
/// units count — a unit never started does not hold completion back; in
/// bulk mode every unit counts.
pub fn all_complete(statuses: &Vec<ManagerStatus>, started: &Vec<bool>, selective: bool) -> (r:
    bool)
    requires
        statuses@.len() == started@.len(),
    ensures
        r <==> forall|k: int|
            0 <= k < statuses@.len() && (selective ==> started@[k]) ==> status_is_terminal(
                (#[trigger] statuses@[k])@,
            ),
{
    let n = statuses.len();
    let mut i: usize = 0;
    while i < n
        invariant
            i <= n,
            n == statuses@.len(),
            n == started@.len(),
            forall|k: int|
                0 <= k < i && (selective ==> started@[k]) ==> status_is_terminal(
                    (#[trigger] statuses@[k])@,
                ),
        decreases n - i,
    {
        if !selective || started[i] {
            if !statuses[i].is_terminal() {
                assert(!status_is_terminal((statuses@[i as int])@));
                return false;
            }
        }
        assert((selective ==> started@[i as int]) ==> status_is_terminal(
            (statuses@[i as int])@,
        ));
        i = i + 1;
    }
    true
}

} // verus!
