//! The task queue that serialises search work, the result a task hands
//! back, and the tabs shown above the search results.

use vstd::prelude::*;
use crate::path::{file_name_of, path_file_name};

verus! {

/// A tab of the search window: a short name to display and the full text
/// it stands for.
pub trait FuzzyTab {
    /// The name shown on the tab.
    spec fn tab_name(&self) -> Seq<char>;

    /// The full text the tab stands for.
    spec fn tab_full(&self) -> Seq<char>;

    fn name(&self) -> (r: String)
        ensures
            r@ == self.tab_name(),
    ;

    fn full(&self) -> (r: String)
        ensures
            r@ == self.tab_full(),
    ;
}

/// A plain text tab: its name and its full text are the text itself.
impl FuzzyTab for String {
    open spec fn tab_name(&self) -> Seq<char> {
        self@
    }

    open spec fn tab_full(&self) -> Seq<char> {
        self@
    }

    fn name(&self) -> (r: String) {
        self.clone()
    }

    fn full(&self) -> (r: String) {
        self.clone()
    }
}

/// A tab for a directory: named after the directory's final component,
/// standing for its whole path.
pub struct DirectoryTab {
    path: String,
}

impl DirectoryTab {
    /// The path has a final component to name the tab after.
    #[verifier::type_invariant]
    spec fn has_file_name(self) -> bool {
        file_name_of(self.path@) is Some
    }

    /// A tab for `path`; none when `path` has no final component (such as
    /// `/` or a path ending in `..`).
    pub fn new(path: String) -> (r: Option<DirectoryTab>)
        ensures
            r is Some <==> file_name_of(path@) is Some,
            r matches Some(tab) ==> tab.tab_full() == path@ && tab.tab_name() == file_name_of(path@).unwrap(),
    {
        match path_file_name(path.as_str()) {
            Some(_) => Some(DirectoryTab { path }),
            None => None,
        }
    }
}

impl FuzzyTab for DirectoryTab {
    closed spec fn tab_name(&self) -> Seq<char> {
        file_name_of(self.path@).unwrap()
    }

    closed spec fn tab_full(&self) -> Seq<char> {
        self.path@
    }

    fn name(&self) -> (r: String) {
        proof {
            use_type_invariant(self);
        }
        match path_file_name(self.path.as_str()) {
            Some(name) => name,
            None => String::new(),
        }
    }

    fn full(&self) -> (r: String) {
        self.path.clone()
    }
}

/// A directory tab is named after the final component of the path it
/// stands for.
pub proof fn law_directory_tab_named_after_path(d: DirectoryTab)
    ensures
        d.tab_name() == file_name_of(d.tab_full()).unwrap(),
{
}

/// The kinds of tab the search window shows.
pub enum Tab {
    /// A plain text tab.
    Text(String),
    /// A directory tab.
    Directory(DirectoryTab),
}

impl FuzzyTab for Tab {
    open spec fn tab_name(&self) -> Seq<char> {
        match self {
            Tab::Text(s) => s.tab_name(),
            Tab::Directory(d) => d.tab_name(),
        }
    }

    open spec fn tab_full(&self) -> Seq<char> {
        match self {
            Tab::Text(s) => s.tab_full(),
            Tab::Directory(d) => d.tab_full(),
        }
    }

    fn name(&self) -> (r: String) {
        match self {
            Tab::Text(s) => s.name(),
            Tab::Directory(d) => d.name(),
        }
    }

    fn full(&self) -> (r: String) {
        match self {
            Tab::Text(s) => s.full(),
            Tab::Directory(d) => d.full(),
        }
    }
}

/// What one executed task asks to change in the search state.
pub struct TaskResult {
    pub db_count: Option<usize>,
    pub selected_idx: Option<usize>,
    pub selected_tab: Option<usize>,
    pub tabs: Option<Vec<Tab>>,
    pub update: bool,
}

impl TaskResult {
    /// Whether the result asks for any change at all.
    pub open spec fn spec_has_changes(&self) -> bool {
        self.update || self.db_count is Some || self.selected_idx is Some
            || self.selected_tab is Some || self.tabs is Some
    }

    /// Whether the result asks for any change at all.
    pub fn has_changes(&self) -> (r: bool)
        ensures
            r == self.spec_has_changes(),
    {
        self.update || self.db_count.is_some() || self.selected_idx.is_some()
            || self.selected_tab.is_some() || self.tabs.is_some()
    }
}

impl Default for TaskResult {
    /// A result that changes nothing.
    fn default() -> (r: TaskResult)
        ensures
            r.db_count is None,
            r.selected_idx is None,
            r.selected_tab is None,
            r.tabs is None,
            !r.update,
    {
        TaskResult {
            db_count: None,
            selected_idx: None,
            selected_tab: None,
            tabs: None,
            update: false,
        }
    }
}

/// The queue of pending tasks, run one batch after another by a single
/// runner.
pub struct Diffuse<T> {
    queue: Vec<T>,
    is_running: bool,
}

/// What `Diffuse::queue` does: the new tasks go after the pending ones, the
/// runner counts as running, and it is to be started exactly when it was
/// not running before.
pub open spec fn queue_post<T>(
    old_pending: Seq<T>,
    old_running: bool,
    tasks: Seq<T>,
    new_pending: Seq<T>,
    new_running: bool,
    start: bool,
) -> bool {
    &&& new_pending == old_pending + tasks
    &&& new_running
    &&& start == !old_running
}

/// What `Diffuse::next_task` does: the oldest pending task is handed out and
/// leaves the queue; when none is pending the runner stops and nothing is
/// handed out.
pub open spec fn next_task_post<T>(
    old_pending: Seq<T>,
    old_running: bool,
    new_pending: Seq<T>,
    new_running: bool,
    task: Option<T>,
) -> bool {
    if old_pending.len() == 0 {
        &&& task is None
        &&& new_pending.len() == 0
        &&& !new_running
    } else {
        &&& task == Some(old_pending[0])
        &&& new_pending == old_pending.drop_first()
        &&& new_running == old_running
    }
}

impl<T> Diffuse<T> {
    /// The tasks waiting to run, oldest first.
    pub closed spec fn pending(&self) -> Seq<T> {
        self.queue@
    }

    /// Whether a runner is working through the queue.
    pub closed spec fn running(&self) -> bool {
        self.is_running
    }

    /// An empty queue with no runner.
    pub fn new() -> (r: Diffuse<T>)
        ensures
            r.pending().len() == 0,
            !r.running(),
    {
        Diffuse { queue: Vec::new(), is_running: false }
    }

    /// Adds tasks to the queue. Returns whether the caller has to start a
    /// runner (there was none).
    pub fn queue(&mut self, task_list: Vec<T>) -> (start: bool)
        ensures
            queue_post(
                old(self).pending(),
                old(self).running(),
                task_list@,
                final(self).pending(),
                final(self).running(),
                start,
            ),
    {
        let mut task_list = task_list;
        self.queue.append(&mut task_list);
        if !self.is_running {
            self.is_running = true;
            true
        } else {
            false
        }
    }

    /// Hands the oldest pending task to the runner; when none is pending
    /// the runner is marked as stopped and none is returned.
    pub fn next_task(&mut self) -> (task: Option<T>)
        ensures
            next_task_post(
                old(self).pending(),
                old(self).running(),
                final(self).pending(),
                final(self).running(),
                task,
            ),
    {
        if self.queue.len() == 0 {
            self.is_running = false;
            return None;
        }
        Some(self.queue.remove(0))
    }
}

/// Every queued task is handed out once and in order: tasks queued on an
/// idle queue in two calls come out one at a time, those of the first call
/// first; the first call asks for a runner and the second does not.
pub proof fn law_queue_order<T>(
    p0: Seq<T>,
    r0: bool,
    a: Seq<T>,
    p1: Seq<T>,
    r1: bool,
    s1: bool,
    b: Seq<T>,
    p2: Seq<T>,
    r2: bool,
    s2: bool,
    p3: Seq<T>,
    r3: bool,
    task: Option<T>,
)
    requires
        p0.len() == 0,
        !r0,
        queue_post(p0, r0, a, p1, r1, s1),
        queue_post(p1, r1, b, p2, r2, s2),
        next_task_post(p2, r2, p3, r3, task),
        a.len() + b.len() > 0,
    ensures
        s1,
        !s2,
        task == Some((a + b)[0]),
        p3 == (a + b).drop_first(),
        r3,
{
}

/// Tasks queued while the runner works go after those still waiting, and
/// no second runner is asked for.
pub proof fn law_queue_while_running<T>(
    p0: Seq<T>,
    r0: bool,
    p1: Seq<T>,
    r1: bool,
    task: Option<T>,
    tasks: Seq<T>,
    p2: Seq<T>,
    r2: bool,
    start: bool,
)
    requires
        r0,
        p0.len() > 0,
        next_task_post(p0, r0, p1, r1, task),
        queue_post(p1, r1, tasks, p2, r2, start),
    ensures
        task == Some(p0[0]),
        p2 == p0.drop_first() + tasks,
        !start,
        r2,
{
}

/// The runner stops only once the queue is drained, and a queue call made
/// after it stopped asks for a new runner.
pub proof fn law_runner_restarts<T>(
    p0: Seq<T>,
    r0: bool,
    p1: Seq<T>,
    r1: bool,
    task: Option<T>,
    tasks: Seq<T>,
    p2: Seq<T>,
    r2: bool,
    start: bool,
)
    requires
        next_task_post(p0, r0, p1, r1, task),
        task is None,
        queue_post(p1, r1, tasks, p2, r2, start),
    ensures
        p0.len() == 0,
        start,
        p2 == tasks,
{
}

} // verus!
