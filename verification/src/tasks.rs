//! The search tasks the queue runs, and the results they hand back. Running
//! a command or the database is left to the caller; these hold what a task
//! needs and decide what its outcome changes.

use vstd::prelude::*;
use crate::devicon::{icon_for, lookup, DevIcon, IconTable};
use crate::diffuser::{DirectoryTab, FuzzyTab, Tab, TaskResult};
use crate::fuzzy::{FuzzySearch, LineOut};
use crate::path::{file_name_of, join_of, path_file_name, path_join};
use crate::recent::RECENT_DIR_FILE;
use crate::text::{chars_of, has_prefix, lines_of, split_lines, str_eq, string_from_range, views};

verus! {

/// Name of the tab listing every directory.
pub const ALL_DIRECTORIES_TAB: &'static str = " All directories ";

/// Name of the tab listing recently used directories.
pub const RECENT_DIRECTORIES_TAB: &'static str = " Recent directories ";

/// Whether `tabs` are the two text tabs of a directory search, in order.
pub open spec fn are_directory_tabs(tabs: Seq<Tab>) -> bool {
    &&& tabs.len() == 2
    &&& tabs[0] matches Tab::Text(all) && all@ == ALL_DIRECTORIES_TAB@
    &&& tabs[1] matches Tab::Text(recent) && recent@ == RECENT_DIRECTORIES_TAB@
}

/// The tabs of a directory search: all directories, then recent ones.
pub fn tabs() -> (r: Option<Vec<Tab>>)
    ensures
        r matches Some(t) && are_directory_tabs(t@),
{
    let mut v: Vec<Tab> = Vec::new();
    v.push(Tab::Text(ALL_DIRECTORIES_TAB.to_owned()));
    v.push(Tab::Text(RECENT_DIRECTORIES_TAB.to_owned()));
    Some(v)
}

/// The result of a database search: the first line selected, redraw.
pub fn search_result() -> (r: TaskResult)
    ensures
        r.db_count is None,
        r.selected_idx == Some(0usize),
        r.selected_tab is None,
        r.tabs is None,
        r.update,
{
    TaskResult { db_count: None, selected_idx: Some(0), selected_tab: None, tabs: None, update: true }
}

/// Searches the recently used directories.
pub struct ExecRecentDirectories {
    pub search_query: String,
}

impl ExecRecentDirectories {
    pub fn new(search_query: String) -> (r: ExecRecentDirectories)
        ensures
            r.search_query == search_query,
    {
        ExecRecentDirectories { search_query }
    }

    /// The result once `found` recent directories matched: counted, the
    /// first selected, the recent tab selected among the directory tabs,
    /// redraw.
    pub fn found(found: usize) -> (r: TaskResult)
        ensures
            r.db_count == Some(found),
            r.selected_idx == Some(0usize),
            r.selected_tab == Some(1usize),
            r.tabs matches Some(t) && are_directory_tabs(t@),
            r.update,
    {
        TaskResult {
            db_count: Some(found),
            selected_idx: Some(0),
            selected_tab: Some(1),
            tabs: tabs(),
            update: true,
        }
    }
}

/// Forgets a recently used directory.
pub struct RemoveRecentDirectory {
    pub path: String,
}

impl RemoveRecentDirectory {
    pub fn new(path: &str) -> (r: RemoveRecentDirectory)
        ensures
            r.path@ == path@,
    {
        RemoveRecentDirectory { path: path.to_owned() }
    }
}

/// Remembers a directory as recently used.
pub struct InsertRecentDirectory(pub LineOut);

impl InsertRecentDirectory {
    pub fn new(line_out: LineOut) -> (r: InsertRecentDirectory)
        ensures
            r.0 == line_out,
    {
        InsertRecentDirectory(line_out)
    }
}

/// Lists the directories below `cwd` with an outside command.
pub struct ExecDirectorySearch {
    pub cmd: &'static str,
    pub cwd: String,
    pub args: Vec<&'static str>,
    pub search_query: String,
}

impl ExecDirectorySearch {
    /// The result lines for the command's output: one directory line per
    /// output line.
    pub fn directory_lines(output: &str) -> (r: Vec<LineOut>)
        ensures
            r@.len() == lines_of(output@).len(),
            forall|i: int|
                0 <= i < r@.len() ==> {
                    &&& (#[trigger] r@[i]).text@ == lines_of(output@)[i]
                    &&& r@[i].icon@.len() == 0
                    &&& r@[i].hl_group@ == "Directory"@
                    &&& r@[i].git_root@.len() == 0
                    &&& r@[i].line_nr is None
                },
    {
        let lines = split_lines(output);
        let mut out: Vec<LineOut> = Vec::new();
        let mut i: usize = 0;
        while i < lines.len()
            invariant
                views(lines@) == lines_of(output@),
                i <= lines@.len(),
                out@.len() == i,
                forall|k: int|
                    0 <= k < i ==> {
                        &&& (#[trigger] out@[k]).text@ == lines@[k]@
                        &&& out@[k].icon@.len() == 0
                        &&& out@[k].hl_group@ == "Directory"@
                        &&& out@[k].git_root@.len() == 0
                        &&& out@[k].line_nr is None
                    },
            decreases lines.len() - i,
        {
            out.push(LineOut::directory(lines[i].as_str()));
            i += 1;
        }
        out
    }

    /// The result once `count` directories were stored: counted, the first
    /// selected, the first of the directory tabs selected, redraw.
    pub fn loaded(count: usize) -> (r: TaskResult)
        ensures
            r.db_count == Some(count),
            r.selected_idx == Some(0usize),
            r.selected_tab == Some(0usize),
            r.tabs matches Some(t) && are_directory_tabs(t@),
            r.update,
    {
        TaskResult {
            db_count: Some(count),
            selected_idx: Some(0),
            selected_tab: Some(0),
            tabs: tabs(),
            update: true,
        }
    }
}

/// Clears the results.
pub struct ClearResultsTask;

impl ClearResultsTask {
    /// The result of clearing: nothing counted, the first line selected.
    pub fn result() -> (r: TaskResult)
        ensures
            r.db_count == Some(0usize),
            r.selected_idx == Some(0usize),
            r.selected_tab is None,
            r.tabs is None,
            !r.update,
    {
        TaskResult {
            db_count: Some(0),
            selected_idx: Some(0),
            selected_tab: None,
            tabs: None,
            update: false,
        }
    }
}

/// Lists files or directories below `cwd` with an outside command.
pub struct ExecStandardSearch {
    pub cmd: &'static str,
    pub cwd: String,
    pub args: Vec<&'static str>,
    pub search_query: String,
    pub search_type: FuzzySearch,
}

/// The result line for a file: its icon and the icon's highlight group,
/// below `root`, opened at its first line.
pub open spec fn is_file_line(t: IconTable, line: LineOut, text: Seq<char>, root: Seq<char>) -> bool {
    &&& line.text@ == text
    &&& line.icon@ == icon_for(t, text).unwrap().icon@
    &&& line.hl_group@ == "DevIcon"@ + icon_for(t, text).unwrap().name@
    &&& line.git_root@ == root
    &&& line.line_nr == Some(1u32)
}

/// Result lines for each line of `output`, each a file with its icon, below
/// `root`.
pub fn file_lines(table: &IconTable, output: &str, root: &str) -> (r: Vec<LineOut>)
    requires
        lookup(table.from_extension@, "txt"@) is Some,
    ensures
        r@.len() == lines_of(output@).len(),
        forall|i: int|
            0 <= i < r@.len() ==> is_file_line(*table, #[trigger] r@[i], lines_of(output@)[i], root@),
{
    let lines = split_lines(output);
    let mut out: Vec<LineOut> = Vec::new();
    let mut i: usize = 0;
    while i < lines.len()
        invariant
            lookup(table.from_extension@, "txt"@) is Some,
            views(lines@) == lines_of(output@),
            i <= lines@.len(),
            out@.len() == i,
            forall|k: int| 0 <= k < i ==> is_file_line(*table, #[trigger] out@[k], lines@[k]@, root@),
        decreases lines.len() - i,
    {
        let dev_icon = DevIcon::get_icon(table, lines[i].as_str());
        out.push(
            LineOut {
                text: lines[i].clone(),
                icon: dev_icon.icon.to_owned(),
                hl_group: dev_icon.highlight,
                git_root: root.to_owned(),
                line_nr: Some(1),
            },
        );
        i += 1;
    }
    out
}

impl ExecStandardSearch {
    /// The result lines for the command's output: directory lines for a
    /// directory search, file lines with icons otherwise.
    pub fn result_lines(&self, table: &IconTable, output: &str) -> (r: Vec<LineOut>)
        requires
            lookup(table.from_extension@, "txt"@) is Some,
        ensures
            r@.len() == lines_of(output@).len(),
            forall|i: int|
                0 <= i < r@.len() ==> if self.search_type is Directories {
                    &&& (#[trigger] r@[i]).text@ == lines_of(output@)[i]
                    &&& r@[i].icon@.len() == 0
                    &&& r@[i].hl_group@ == "Directory"@
                    &&& r@[i].git_root@.len() == 0
                    &&& r@[i].line_nr is None
                } else {
                    is_file_line(*table, r@[i], lines_of(output@)[i], Seq::<char>::empty())
                },
    {
        if self.search_type == FuzzySearch::Directories {
            ExecDirectorySearch::directory_lines(output)
        } else {
            let root = String::new();
            file_lines(table, output, root.as_str())
        }
    }
}

/// Records a directory in the recent-directories file.
pub struct StoreRecentDirectory {
    pub recent_directories: String,
    pub dir_path: String,
}

impl StoreRecentDirectory {
    /// A task recording `dir_path` in the recent-directories file of the
    /// data directory `data_dir`.
    pub fn new(data_dir: &str, dir_path: String) -> (r: StoreRecentDirectory)
        ensures
            r.recent_directories@ == join_of(data_dir@, RECENT_DIR_FILE@),
            r.dir_path == dir_path,
    {
        StoreRecentDirectory { recent_directories: path_join(data_dir, RECENT_DIR_FILE), dir_path }
    }
}

/// Lists the files below `cwd` with an outside command.
pub struct FileSearchTask {
    pub cmd: &'static str,
    pub cwd: String,
    pub args: Vec<&'static str>,
    pub search_query: String,
}

impl FileSearchTask {
    /// The result lines for the command's output: each a file with its icon,
    /// below the task's working directory.
    pub fn result_lines(&self, table: &IconTable, output: &str) -> (r: Vec<LineOut>)
        requires
            lookup(table.from_extension@, "txt"@) is Some,
        ensures
            r@.len() == lines_of(output@).len(),
            forall|i: int|
                0 <= i < r@.len() ==> is_file_line(
                    *table,
                    #[trigger] r@[i],
                    lines_of(output@)[i],
                    self.cwd@,
                ),
    {
        file_lines(table, output, self.cwd.as_str())
    }

    /// The result once `count` files were stored: counted, the first line
    /// selected, the first tab selected, no tabs, redraw.
    pub fn loaded(count: usize) -> (r: TaskResult)
        ensures
            r.db_count == Some(count),
            r.selected_idx == Some(0usize),
            r.selected_tab == Some(0usize),
            r.tabs matches Some(t) && t@.len() == 0,
            r.update,
    {
        TaskResult {
            db_count: Some(count),
            selected_idx: Some(0),
            selected_tab: Some(0),
            tabs: Some(Vec::new()),
            update: true,
        }
    }
}

/// Searches file contents below `cwd`.
pub struct GrepTask {
    pub search_query: String,
    pub cwd: String,
}

/// An open buffer: its file name and the line the cursor was on.
pub struct BufInfo {
    pub name: String,
    pub lnum: u32,
}

/// Searches the open buffers, grouped by the repository they belong to.
pub struct BufferSearch {
    pub search_query: String,
    pub buf_infos: Vec<BufInfo>,
    pub selected_tab: usize,
    pub cwd: String,
}

/// Name of the tab for buffers outside any repository.
pub const OTHER_TAB: &'static str = " other ";

/// An open buffer to list: its file, the line the cursor was on, and the
/// repository it belongs to, if any.
pub struct BufferEntry {
    pub name: String,
    pub lnum: u32,
    pub git_root: Option<String>,
}

/// Whether `path` names the directory `root` itself, with or without the
/// separator that `root` may end in.
pub open spec fn names_root(path: Seq<char>, root: Seq<char>) -> bool {
    path == root || (root.len() > 0 && root.last() == '/' && path == root.drop_last())
}

/// `path` relative to `root`, when `root` is the path itself or a directory
/// above it: nothing for the root itself, else what follows `root` and the
/// separator after it.
pub open spec fn relative_below(path: Seq<char>, root: Seq<char>) -> Option<Seq<char>> {
    if names_root(path, root) {
        Some(Seq::<char>::empty())
    } else if root.len() > 0 && root.last() == '/' && has_prefix(path, root) {
        Some(path.skip(root.len() as int))
    } else if has_prefix(path, root.push('/')) {
        Some(path.skip(root.len() + 1int))
    } else {
        None
    }
}

/// The result line of a buffer, opened at the buffer's line: below its
/// repository when it has one (nothing when the buffer is the repository's
/// directory itself), otherwise its whole file name with no root.
pub open spec fn is_buffer_line(t: IconTable, line: LineOut, e: BufferEntry) -> bool {
    &&& line.icon@ == icon_for(t, e.name@).unwrap().icon@
    &&& line.hl_group@ == "DevIcon"@ + icon_for(t, e.name@).unwrap().name@
    &&& line.line_nr == Some(e.lnum)
    &&& match e.git_root {
        Some(root) => line.text@ == relative_below(e.name@, root@).unwrap() && line.git_root@
            == root@,
        None => line.text@ == e.name@ && line.git_root@.len() == 0,
    }
}

/// The directories of the tabs after listing buffers: those already there,
/// then each buffer's repository not yet among them, in buffer order.
pub open spec fn tab_roots(init: Seq<Seq<char>>, entries: Seq<BufferEntry>) -> Seq<Seq<char>>
    decreases entries.len(),
{
    if entries.len() == 0 {
        init
    } else {
        let t = tab_roots(init, entries.drop_last());
        match entries.last().git_root {
            Some(root) => if t.contains(root@) {
                t
            } else {
                t.push(root@)
            },
            None => t,
        }
    }
}

/// No text occurs twice.
pub open spec fn distinct(s: Seq<Seq<char>>) -> bool {
    forall|i: int, j: int| 0 <= i < j < s.len() ==> #[trigger] s[i] != #[trigger] s[j]
}

/// Listing buffers gives each repository one tab: the tabs stay distinct,
/// keep those already there in front, and include the repository of every
/// buffer that has one.
pub proof fn law_tab_roots(init: Seq<Seq<char>>, entries: Seq<BufferEntry>)
    requires
        distinct(init),
    ensures
        distinct(tab_roots(init, entries)),
        tab_roots(init, entries).len() >= init.len(),
        tab_roots(init, entries).take(init.len() as int) == init,
        forall|k: int|
            0 <= k < entries.len() && (#[trigger] entries[k]).git_root is Some ==> tab_roots(
                init,
                entries,
            ).contains(entries[k].git_root.unwrap()@),
    decreases entries.len(),
{
    if entries.len() > 0 {
        let front = entries.drop_last();
        law_tab_roots(init, front);
        let t = tab_roots(init, front);
        assert forall|k: int|
            0 <= k < entries.len() && (#[trigger] entries[k]).git_root is Some implies tab_roots(
            init,
            entries,
        ).contains(entries[k].git_root.unwrap()@) by {
            let root = entries[k].git_root.unwrap();
            if k < front.len() {
                assert(front[k] == entries[k]);
                let m = choose|m: int| 0 <= m < t.len() && t[m] == root@;
                if entries.last().git_root is Some && !t.contains(entries.last().git_root.unwrap()@) {
                    assert(tab_roots(init, entries)[m] == root@);
                }
            } else {
                if t.contains(root@) {
                } else {
                    assert(tab_roots(init, entries)[t.len() as int] == root@);
                }
            }
        }
        match entries.last().git_root {
            Some(root) => {
                if !t.contains(root@) {
                    assert(tab_roots(init, entries) == t.push(root@));
                    assert(t.push(root@).take(init.len() as int) =~= t.take(init.len() as int));
                }
            },
            None => {},
        }
    }
}

/// What the buffers can be listed from: each repository root is a directory
/// with a name, above its buffer's file.
pub open spec fn buffers_listable(cwd_root: Option<String>, entries: Seq<BufferEntry>) -> bool {
    &&& (cwd_root matches Some(r) ==> file_name_of(r@) is Some)
    &&& forall|i: int|
        0 <= i < entries.len() ==> match (#[trigger] entries[i]).git_root {
            Some(root) => file_name_of(root@) is Some && relative_below(entries[i].name@, root@) is Some,
            None => true,
        }
}

/// Where the tab for buffers outside any repository stands among `count`
/// tabs: first when the working directory has no repository, else last.
pub open spec fn other_tab_index(cwd_root: Option<String>, count: int) -> int {
    match cwd_root {
        Some(_) => count - 1,
        None => 0,
    }
}

/// The tabs a buffer search shows: the working directory's repository (or
/// the tab for other buffers when it has none), the other repositories the
/// buffers belong to, and then the tab for other buffers when it did not
/// come first.
pub open spec fn buffer_tab_fulls(cwd_root: Option<String>, entries: Seq<BufferEntry>) -> Seq<Seq<char>> {
    match cwd_root {
        Some(r) => tab_roots(seq![r@], entries).push(OTHER_TAB@),
        None => tab_roots(seq![OTHER_TAB@], entries),
    }
}

impl BufferSearch {
    /// The result lines and tabs of a buffer search (see `is_buffer_line`
    /// and `buffer_tab_fulls`).
    pub fn plan(table: &IconTable, cwd_root: Option<String>, entries: &Vec<BufferEntry>) -> (r: (
        Vec<LineOut>,
        Vec<Tab>,
    ))
        requires
            lookup(table.from_extension@, "txt"@) is Some,
            buffers_listable(cwd_root, entries@),
        ensures
            r.0@.len() == entries@.len(),
            forall|i: int|
                0 <= i < entries@.len() ==> is_buffer_line(*table, #[trigger] r.0@[i], entries@[i]),
            r.1@.map_values(|t: Tab| t.tab_full()) == buffer_tab_fulls(cwd_root, entries@),
            forall|i: int|
                0 <= i < r.1@.len() ==> (#[trigger] r.1@[i] is Text <==> i == other_tab_index(
                    cwd_root,
                    r.1@.len() as int,
                )),
    {
        let ghost croot = cwd_root;
        let mut tabs: Vec<Tab> = Vec::new();
        let push_other = match cwd_root {
            Some(root) => {
                let tab = DirectoryTab::new(root).unwrap();
                tabs.push(Tab::Directory(tab));
                true
            },
            None => {
                tabs.push(Tab::Text(OTHER_TAB.to_owned()));
                false
            },
        };
        let ghost init = tabs@.map_values(|t: Tab| t.tab_full());
        assert(init =~= match croot {
            Some(r) => seq![r@],
            None => seq![OTHER_TAB@],
        });
        let mut lines: Vec<LineOut> = Vec::new();
        let mut i: usize = 0;
        while i < entries.len()
            invariant
                lookup(table.from_extension@, "txt"@) is Some,
                buffers_listable(croot, entries@),
                i <= entries@.len(),
                lines@.len() == i,
                forall|k: int| 0 <= k < i ==> is_buffer_line(*table, #[trigger] lines@[k], entries@[k]),
                tabs@.map_values(|t: Tab| t.tab_full()) == tab_roots(init, entries@.take(i as int)),
                tabs@.len() >= 1,
                forall|k: int|
                    0 <= k < tabs@.len() ==> (#[trigger] tabs@[k] is Text <==> (croot is None && k
                        == 0)),
            decreases entries.len() - i,
        {
            let entry = &entries[i];
            let dev_icon = DevIcon::get_icon(table, entry.name.as_str());
            assert(entries@.take(i + 1).drop_last() =~= entries@.take(i as int));
            assert(entries@.take(i + 1).last() == entries@[i as int]);
            match &entry.git_root {
                Some(root) => {
                    let text = relative_path(entry.name.as_str(), root.as_str());
                    lines.push(
                        LineOut {
                            text,
                            icon: dev_icon.icon.to_owned(),
                            hl_group: dev_icon.highlight,
                            git_root: root.clone(),
                            line_nr: Some(entry.lnum),
                        },
                    );
                    let ghost fulls = tabs@.map_values(|t: Tab| t.tab_full());
                    let mut known = false;
                    let mut k: usize = 0;
                    while k < tabs.len()
                        invariant
                            k <= tabs@.len(),
                            forall|m: int|
                                0 <= m < tabs@.len() ==> (#[trigger] tabs@[m] is Text <==> (croot is None
                                    && m == 0)),
                            fulls == tabs@.map_values(|t: Tab| t.tab_full()),
                            known == exists|m: int| 0 <= m < k && #[trigger] fulls[m] == root@,
                        decreases tabs.len() - k,
                    {
                        let full = tabs[k].full();
                        assert(fulls[k as int] == full@);
                        let same = str_eq(full.as_str(), root.as_str());
                        if same {
                            known = true;
                        }
                        assert(known == exists|m: int| 0 <= m < k + 1 && #[trigger] fulls[m] == root@) by {
                            if same {
                                assert(fulls[k as int] == root@);
                            } else if exists|m: int| 0 <= m < k + 1 && #[trigger] fulls[m] == root@ {
                                let m = choose|m: int| 0 <= m < k + 1 && #[trigger] fulls[m] == root@;
                                assert(m != k);
                            }
                        }
                        k += 1;
                    }
                    assert(known == fulls.contains(root@));
                    if !known {
                        let tab = DirectoryTab::new(root.clone()).unwrap();
                        let ghost before = tabs@;
                        tabs.push(Tab::Directory(tab));
                        assert(tabs@.map_values(|t: Tab| t.tab_full()) =~= fulls.push(root@));
                    }
                },
                None => {
                    lines.push(
                        LineOut {
                            text: entry.name.clone(),
                            icon: dev_icon.icon.to_owned(),
                            hl_group: dev_icon.highlight,
                            git_root: String::new(),
                            line_nr: Some(entry.lnum),
                        },
                    );
                },
            }
            i += 1;
        }
        assert(entries@.take(entries@.len() as int) =~= entries@);
        if push_other {
            let ghost before = tabs@.map_values(|t: Tab| t.tab_full());
            tabs.push(Tab::Text(OTHER_TAB.to_owned()));
            assert(tabs@.map_values(|t: Tab| t.tab_full()) =~= before.push(OTHER_TAB@));
        }
        (lines, tabs)
    }

    /// The result once the buffers were stored: counted, the first line and
    /// tab selected, the given tabs, redraw.
    pub fn loaded(count: usize, tabs: Vec<Tab>) -> (r: TaskResult)
        ensures
            r.db_count == Some(count),
            r.selected_idx == Some(0usize),
            r.selected_tab == Some(0usize),
            r.tabs == Some(tabs),
            r.update,
    {
        TaskResult {
            db_count: Some(count),
            selected_idx: Some(0),
            selected_tab: Some(0),
            tabs: Some(tabs),
            update: true,
        }
    }
}

impl BufferSearch {
    /// Whether the buffers can be listed from these roots (see
    /// `buffers_listable`); `plan` asks for it.
    pub fn listable(cwd_root: &Option<String>, entries: &Vec<BufferEntry>) -> (r: bool)
        ensures
            r == buffers_listable(*cwd_root, entries@),
    {
        match cwd_root {
            Some(root) => {
                if path_file_name(root.as_str()).is_none() {
                    return false;
                }
            },
            None => {},
        }
        let mut i: usize = 0;
        while i < entries.len()
            invariant
                i <= entries@.len(),
                cwd_root matches Some(r) ==> file_name_of(r@) is Some,
                forall|k: int|
                    0 <= k < i ==> match (#[trigger] entries@[k]).git_root {
                        Some(root) => file_name_of(root@) is Some && relative_below(
                            entries@[k].name@,
                            root@,
                        ) is Some,
                        None => true,
                    },
            decreases entries.len() - i,
        {
            match &entries[i].git_root {
                Some(root) => {
                    if path_file_name(root.as_str()).is_none() || !is_below(
                        entries[i].name.as_str(),
                        root.as_str(),
                    ) {
                        return false;
                    }
                },
                None => {},
            }
            i += 1;
        }
        true
    }
}

/// Whether `root` is a directory above `path` (see `relative_below`).
fn is_below(path: &str, root: &str) -> (r: bool)
    ensures
        r == relative_below(path@, root@) is Some,
{
    let cp = chars_of(path);
    let cr = chars_of(root);
    if names_root_chars(&cp, &cr) {
        return true;
    }
    if cr.len() > 0 && cr[cr.len() - 1] == '/' && crate::text::chars_starts_with(&cp, &cr) {
        return true;
    }
    let mut with_sep = cr.clone();
    with_sep.push('/');
    assert(with_sep@ == root@.push('/'));
    crate::text::chars_starts_with(&cp, &with_sep)
}

/// Whether `path` names the directory `root` itself (see `names_root`).
fn names_root_chars(path: &Vec<char>, root: &Vec<char>) -> (r: bool)
    ensures
        r == names_root(path@, root@),
{
    if crate::text::chars_equal(path, root) {
        return true;
    }
    if root.len() == 0 || root[root.len() - 1] != '/' {
        return false;
    }
    let trimmed: Vec<char> = root_without_last(root);
    crate::text::chars_equal(path, &trimmed)
}

/// `root` without its last character.
fn root_without_last(root: &Vec<char>) -> (r: Vec<char>)
    requires
        root@.len() > 0,
    ensures
        r@ == root@.drop_last(),
{
    let mut r: Vec<char> = Vec::new();
    let mut i: usize = 0;
    while i < root.len() - 1
        invariant
            root@.len() > 0,
            i < root@.len(),
            r@ == root@.take(i as int),
        decreases root.len() - i,
    {
        r.push(root[i]);
        i += 1;
        assert(r@ =~= root@.take(i as int));
    }
    assert(r@ =~= root@.drop_last());
    r
}

/// `path` relative to the directory `root` above it (see `relative_below`).
fn relative_path(path: &str, root: &str) -> (r: String)
    requires
        relative_below(path@, root@) is Some,
    ensures
        r@ == relative_below(path@, root@).unwrap(),
{
    let cp = chars_of(path);
    let cr = chars_of(root);
    if names_root_chars(&cp, &cr) {
        String::new()
    } else if cr.len() > 0 && cr[cr.len() - 1] == '/' && crate::text::chars_starts_with(&cp, &cr) {
        string_from_range(&cp, cr.len(), cp.len())
    } else {
        proof {
            assert(has_prefix(path@, root@.push('/')));
            assert(cr@.len() + 1 <= cp@.len());
        }
        let end = cp.len();
        string_from_range(&cp, cr.len() + 1, end)
    }
}

} // verus!
