//! The state of an open search window: counts, tabs and selection, and
//! the ways it moves.

use vstd::prelude::*;
use crate::diffuser::{next_task_post, Diffuse, Tab, TaskResult};

verus! {

/// Direction in which to change the selected tab.
pub enum ChangeTab {
    Next,
    Previous,
}

/// Direction in which to move the selected result line.
pub enum Move {
    Up,
    Down,
}

/// The tab selected after changing tab: `Next` goes right and wraps to the
/// first tab, `Previous` goes left and wraps to the last.
pub open spec fn changed_tab(selected_tab: int, tab_count: int, tab: ChangeTab) -> int {
    match tab {
        ChangeTab::Next => if selected_tab + 1 < tab_count {
            selected_tab + 1
        } else {
            0
        },
        ChangeTab::Previous => if 0 < selected_tab {
            selected_tab - 1
        } else {
            tab_count - 1
        },
    }
}

/// The line selected after moving: `Up` goes up and wraps to the last line,
/// `Down` goes down and wraps to the first.
pub open spec fn moved_selection(selected_idx: int, line_count: int, m: Move) -> int {
    match m {
        Move::Up => if 0 < selected_idx {
            selected_idx - 1
        } else {
            line_count - 1
        },
        Move::Down => if selected_idx + 1 < line_count {
            selected_idx + 1
        } else {
            0
        },
    }
}

/// The state of the search window.
pub struct SearchState {
    pub file_path: String,
    pub db_count: usize,
    pub update: bool,
    pub tabs: Vec<Tab>,
    pub selected_tab: usize,
    pub selected_idx: usize,
    pub line_nr: u32,
    pub line_prefix: String,
}

/// The state after a task's result is taken in: each value the result
/// carries replaces the current one, and a requested update is recorded.
pub open spec fn applied(s: SearchState, result: TaskResult) -> SearchState {
    SearchState {
        db_count: match result.db_count {
            Some(c) => c,
            None => s.db_count,
        },
        selected_idx: match result.selected_idx {
            Some(i) => i,
            None => s.selected_idx,
        },
        selected_tab: match result.selected_tab {
            Some(t) => t,
            None => s.selected_tab,
        },
        tabs: match result.tabs {
            Some(t) => t,
            None => s.tabs,
        },
        update: s.update || result.update,
        ..s
    }
}

impl Default for SearchState {
    /// An empty state: no results, no tabs, nothing selected.
    fn default() -> (r: SearchState)
        ensures
            r.file_path@.len() == 0,
            r.db_count == 0,
            !r.update,
            r.tabs@.len() == 0,
            r.selected_tab == 0,
            r.selected_idx == 0,
            r.line_nr == 0,
            r.line_prefix@.len() == 0,
    {
        SearchState {
            file_path: String::new(),
            db_count: 0,
            update: false,
            tabs: Vec::new(),
            selected_tab: 0,
            selected_idx: 0,
            line_nr: 0,
            line_prefix: String::new(),
        }
    }
}

impl SearchState {
    /// Takes in the result of an executed task.
    pub fn apply(&mut self, result: TaskResult)
        ensures
            *final(self) == applied(*old(self), result),
            final(self).update == (old(self).update || result.update),
    {
        if result.has_changes() {
            if let Some(db_count) = result.db_count {
                self.db_count = db_count;
            }
            if let Some(selected_idx) = result.selected_idx {
                self.selected_idx = selected_idx;
            }
            if let Some(selected_tab) = result.selected_tab {
                self.selected_tab = selected_tab;
            }
            if let Some(tabs) = result.tabs {
                self.tabs = tabs;
            }
            if result.update {
                self.update = true;
            }
        }
    }

    /// Selects the next or the previous tab, wrapping around at either end.
    pub fn change_tab(&mut self, tab: ChangeTab)
        requires
            tab is Previous && old(self).selected_tab == 0 ==> old(self).tabs@.len() > 0,
        ensures
            final(self).selected_tab == changed_tab(
                old(self).selected_tab as int,
                old(self).tabs@.len() as int,
                tab,
            ),
            *final(self) == (SearchState { selected_tab: final(self).selected_tab, ..*old(self) }),
    {
        let count = self.tabs.len();
        match tab {
            ChangeTab::Next => {
                if count > 0 && self.selected_tab < count - 1 {
                    self.selected_tab += 1;
                } else {
                    self.selected_tab = 0;
                }
            },
            ChangeTab::Previous => {
                if 0 < self.selected_tab {
                    self.selected_tab -= 1;
                } else {
                    self.selected_tab = count - 1;
                }
            },
        }
    }

    /// Moves the selected result line up or down, wrapping around at either
    /// end; `line_count` is the number of lines shown.
    pub fn move_selection(&mut self, line_count: usize, m: Move)
        requires
            m is Up && old(self).selected_idx == 0 ==> line_count > 0,
        ensures
            final(self).selected_idx == moved_selection(
                old(self).selected_idx as int,
                line_count as int,
                m,
            ),
            *final(self) == (SearchState { selected_idx: final(self).selected_idx, ..*old(self) }),
    {
        match m {
            Move::Up => {
                if 0 < self.selected_idx {
                    self.selected_idx -= 1;
                } else {
                    self.selected_idx = line_count - 1;
                }
            },
            Move::Down => {
                if line_count > 0 && self.selected_idx < line_count - 1 {
                    self.selected_idx += 1;
                } else {
                    self.selected_idx = 0;
                }
            },
        }
    }
}

/// What one step of the task runner does: the result of the task that has
/// just finished, if any, is taken in; then the next task is handed out in
/// queue order, or the runner stops when none is waiting.
pub open spec fn runner_step_post<T>(
    old_pending: Seq<T>,
    old_running: bool,
    old_state: SearchState,
    finished: Option<TaskResult>,
    new_pending: Seq<T>,
    new_running: bool,
    new_state: SearchState,
    next: Option<T>,
) -> bool {
    &&& new_state == match finished {
        Some(r) => applied(old_state, r),
        None => old_state,
    }
    &&& next_task_post(old_pending, old_running, new_pending, new_running, next)
}

/// One step of the task runner (see `runner_step_post`).
pub fn runner_step<T>(queue: &mut Diffuse<T>, state: &mut SearchState, finished: Option<TaskResult>) -> (next: Option<T>)
    ensures
        runner_step_post(
            old(queue).pending(),
            old(queue).running(),
            *old(state),
            finished,
            final(queue).pending(),
            final(queue).running(),
            *final(state),
            next,
        ),
{
    if let Some(result) = finished {
        state.apply(result);
    }
    queue.next_task()
}

/// The runner works through the queue one task at a time, in order, taking
/// in each task's result before it hands out the next, and stops only when
/// nothing is waiting: from a queue holding two tasks, three steps hand out
/// the first, then the second, then nothing, and the state ends as the two
/// results, taken in order, made it.
pub proof fn law_runner_in_order<T>(
    p0: Seq<T>,
    r0: bool,
    s0: SearchState,
    p1: Seq<T>,
    r1: bool,
    s1: SearchState,
    first: Option<T>,
    res1: TaskResult,
    p2: Seq<T>,
    r2: bool,
    s2: SearchState,
    second: Option<T>,
    res2: TaskResult,
    p3: Seq<T>,
    r3: bool,
    s3: SearchState,
    third: Option<T>,
)
    requires
        p0.len() == 2,
        runner_step_post(p0, r0, s0, None, p1, r1, s1, first),
        runner_step_post(p1, r1, s1, Some(res1), p2, r2, s2, second),
        runner_step_post(p2, r2, s2, Some(res2), p3, r3, s3, third),
    ensures
        first == Some(p0[0]),
        second == Some(p0[1]),
        third is None,
        !r3,
        p3.len() == 0,
        s3 == applied(applied(s0, res1), res2),
{
}

/// A result that asks for no change leaves the state as it was.
pub proof fn law_apply_unchanged(s: SearchState, result: TaskResult)
    requires
        !result.spec_has_changes(),
    ensures
        applied(s, result) == s,
{
}

/// Taking in a result never drops a requested redraw: afterwards a redraw
/// is pending exactly when one was before or the result asks for one.
pub proof fn law_apply_keeps_update(s: SearchState, result: TaskResult)
    ensures
        s.update ==> applied(s, result).update,
        result.update ==> applied(s, result).update,
        applied(s, result).update == (s.update || result.update),
{
}

/// Taking in the same result twice is the same as taking it in once.
pub proof fn law_apply_idempotent(s: SearchState, result: TaskResult)
    ensures
        applied(applied(s, result), result) == applied(s, result),
{
}

/// Going to the next tab and back returns to the tab one started from, and
/// so does going back and then forward; either way the selection stays
/// among the tabs.
pub proof fn law_change_tab_roundtrip(selected_tab: int, tab_count: int)
    requires
        0 <= selected_tab < tab_count,
    ensures
        changed_tab(changed_tab(selected_tab, tab_count, ChangeTab::Next), tab_count, ChangeTab::Previous)
            == selected_tab,
        changed_tab(changed_tab(selected_tab, tab_count, ChangeTab::Previous), tab_count, ChangeTab::Next)
            == selected_tab,
        0 <= changed_tab(selected_tab, tab_count, ChangeTab::Next) < tab_count,
        0 <= changed_tab(selected_tab, tab_count, ChangeTab::Previous) < tab_count,
{
}

/// Moving down and back up returns to the line one started from, and so does
/// moving up and then down; either way the selection stays among the lines.
pub proof fn law_move_roundtrip(selected_idx: int, line_count: int)
    requires
        0 <= selected_idx < line_count,
    ensures
        moved_selection(moved_selection(selected_idx, line_count, Move::Down), line_count, Move::Up)
            == selected_idx,
        moved_selection(moved_selection(selected_idx, line_count, Move::Up), line_count, Move::Down)
            == selected_idx,
        0 <= moved_selection(selected_idx, line_count, Move::Down) < line_count,
        0 <= moved_selection(selected_idx, line_count, Move::Up) < line_count,
{
}

} // verus!
