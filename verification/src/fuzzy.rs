//! The fuzzy finder: what is searched, the result lines, the window layout
//! and what is drawn into the windows.

use vstd::prelude::*;
use crate::diffuser::{FuzzyTab, Tab};
use crate::path::{join_of, path_join};
use crate::text::{decimal, has_prefix, push_decimal, str_ends_with_char, str_starts_with};

verus! {

/// Highlight group of the selected result line.
pub const GRP_FUZZY_SELECT: &'static str = "NeoFuzzySelect";

/// Highlight group of matched letters.
pub const GRP_FUZZY_LETTER: &'static str = "NeoFuzzyLetter";

/// Autocommand group of the search window.
pub const AUCMD_GRP: &'static str = "neo-fuzzy";

/// Highlight group of the selected tab.
pub const TAB_BTN_SELECTED: &'static str = "TabButtonSelected";

/// Highlight group of the other tabs.
pub const TAB_BTN: &'static str = "TabButton";

/// What a fuzzy search looks for.
#[derive(PartialEq, Eq, Structural, Clone, Copy)]
pub enum FuzzySearch {
    Files,
    Directories,
    GitFiles,
    Buffer,
}

impl FuzzySearch {
    /// Whether the search is over files: both `Files` and `GitFiles`.
    pub fn is_file_based(&self) -> (r: bool)
        ensures
            r == (*self is Files || *self is GitFiles),
    {
        match self {
            FuzzySearch::Files | FuzzySearch::GitFiles => true,
            _ => false,
        }
    }
}

/// What a key of the query window does.
#[derive(PartialEq, Eq, Structural, Clone, Copy)]
pub enum KeyAction {
    /// Select the line above.
    MoveUp,
    /// Select the line below.
    MoveDown,
    /// Close the finder.
    Close,
    /// Open the selected item in a buffer.
    OpenBuffer,
    /// Open the selected item in a new tab.
    OpenTab,
    /// Open the selected item in a horizontal split.
    OpenHSplit,
    /// Open the selected item in a vertical split.
    OpenVSplit,
    /// Delete the selected item.
    Delete,
    /// Select the next tab.
    NextTab,
    /// Select the previous tab.
    PreviousTab,
}

/// The keys of the query window and what each does, in the order they are
/// mapped: deleting is offered only when searching directories or buffers.
pub open spec fn keymap_spec(search_type: FuzzySearch) -> Seq<(Seq<char>, KeyAction)> {
    seq![
        ("<Up>"@, KeyAction::MoveUp),
        ("<Down>"@, KeyAction::MoveDown),
        ("<Esc>"@, KeyAction::Close),
        ("<C-t>"@, KeyAction::OpenTab),
        ("<C-s>"@, KeyAction::OpenHSplit),
        ("<C-v>"@, KeyAction::OpenVSplit),
    ] + (if search_type is Directories || search_type is Buffer {
        seq![("<C-d>"@, KeyAction::Delete)]
    } else {
        seq![]
    }) + seq![
        ("<Enter>"@, KeyAction::OpenBuffer),
        ("<Tab>"@, KeyAction::NextTab),
        ("<S-Tab>"@, KeyAction::PreviousTab),
    ]
}

/// Whether `keys` maps `key`, and maps it to `action` wherever it is listed.
pub open spec fn binds(keys: Seq<(Seq<char>, KeyAction)>, key: Seq<char>, action: KeyAction) -> bool {
    &&& exists|i: int| 0 <= i < keys.len() && #[trigger] keys[i].0 == key
    &&& forall|i: int| 0 <= i < keys.len() && #[trigger] keys[i].0 == key ==> keys[i].1 == action
}

/// In every search, the arrows move the selection, `<Esc>` closes, `<Enter>`
/// opens in a buffer, `<C-t>` in a tab, `<C-s>` in a horizontal and `<C-v>`
/// in a vertical split, `<Tab>` and `<S-Tab>` change tabs, and `<C-d>`
/// deletes exactly in a directory or buffer search.
pub proof fn law_key_bindings(search_type: FuzzySearch)
    ensures
        binds(keymap_spec(search_type), "<Up>"@, KeyAction::MoveUp),
        binds(keymap_spec(search_type), "<Down>"@, KeyAction::MoveDown),
        binds(keymap_spec(search_type), "<Esc>"@, KeyAction::Close),
        binds(keymap_spec(search_type), "<Enter>"@, KeyAction::OpenBuffer),
        binds(keymap_spec(search_type), "<C-t>"@, KeyAction::OpenTab),
        binds(keymap_spec(search_type), "<C-s>"@, KeyAction::OpenHSplit),
        binds(keymap_spec(search_type), "<C-v>"@, KeyAction::OpenVSplit),
        binds(keymap_spec(search_type), "<Tab>"@, KeyAction::NextTab),
        binds(keymap_spec(search_type), "<S-Tab>"@, KeyAction::PreviousTab),
        search_type is Directories || search_type is Buffer ==> binds(
            keymap_spec(search_type),
            "<C-d>"@,
            KeyAction::Delete,
        ),
        !(search_type is Directories || search_type is Buffer) ==> forall|i: int|
            0 <= i < keymap_spec(search_type).len() ==> (#[trigger] keymap_spec(search_type)[i]).0
                != "<C-d>"@,
{
    reveal_strlit("<Up>");
    reveal_strlit("<Down>");
    reveal_strlit("<Esc>");
    reveal_strlit("<C-t>");
    reveal_strlit("<C-s>");
    reveal_strlit("<C-v>");
    reveal_strlit("<C-d>");
    reveal_strlit("<Enter>");
    reveal_strlit("<Tab>");
    reveal_strlit("<S-Tab>");
    let m = keymap_spec(search_type);
    let d = search_type is Directories || search_type is Buffer;
    let n: int = if d { 1 } else { 0 };
    assert(m.len() == 9 + n);
    assert(m[0] == ("<Up>"@, KeyAction::MoveUp));
    assert(m[1] == ("<Down>"@, KeyAction::MoveDown));
    assert(m[2] == ("<Esc>"@, KeyAction::Close));
    assert(m[3] == ("<C-t>"@, KeyAction::OpenTab));
    assert(m[4] == ("<C-s>"@, KeyAction::OpenHSplit));
    assert(m[5] == ("<C-v>"@, KeyAction::OpenVSplit));
    if d {
        assert(m[6] == ("<C-d>"@, KeyAction::Delete));
    }
    assert(m[6 + n] == ("<Enter>"@, KeyAction::OpenBuffer));
    assert(m[7 + n] == ("<Tab>"@, KeyAction::NextTab));
    assert(m[8 + n] == ("<S-Tab>"@, KeyAction::PreviousTab));
    // The keys differ from one another: each in its length or in one character.
    assert("<Up>"@.len() == 4 && "<Esc>"@.len() == 5 && "<Tab>"@.len() == 5);
    assert("<C-t>"@[3] == 't' && "<C-s>"@[3] == 's' && "<C-v>"@[3] == 'v' && "<C-d>"@[3] == 'd');
    assert("<Esc>"@[1] == 'E' && "<Tab>"@[1] == 'T' && "<C-t>"@[1] == 'C');
    assert("<C-s>"@[1] == 'C' && "<C-v>"@[1] == 'C' && "<C-d>"@[1] == 'C');
    assert("<Down>"@.len() == 6 && "<Enter>"@.len() == 7 && "<S-Tab>"@.len() == 7);
    assert("<Enter>"@[1] == 'E' && "<S-Tab>"@[1] == 'S');
    assert forall|i: int, k: int| 0 <= i < k < m.len() implies #[trigger] m[i].0 != #[trigger] m[k].0 by {
        assert(i == 0 || i == 1 || i == 2 || i == 3 || i == 4 || i == 5 || i == 6 || i == 7 || i == 8);
        assert(k == 1 || k == 2 || k == 3 || k == 4 || k == 5 || k == 6 || k == 7 || k == 8 || k == 9);
    }
    lemma_binds_at(m, 0);
    lemma_binds_at(m, 1);
    lemma_binds_at(m, 2);
    lemma_binds_at(m, 3);
    lemma_binds_at(m, 4);
    lemma_binds_at(m, 5);
    lemma_binds_at(m, 6 + n);
    lemma_binds_at(m, 7 + n);
    lemma_binds_at(m, 8 + n);
    if d {
        lemma_binds_at(m, 6);
    } else {
        assert forall|i: int| 0 <= i < m.len() implies (#[trigger] m[i]).0 != "<C-d>"@ by {
            assert(i == 0 || i == 1 || i == 2 || i == 3 || i == 4 || i == 5 || i == 6 || i == 7 || i == 8);
        }
    }
}

/// In a list of distinct keys, the key at `j` is bound to its action.
proof fn lemma_binds_at(keys: Seq<(Seq<char>, KeyAction)>, j: int)
    requires
        0 <= j < keys.len(),
        forall|i: int, k: int| 0 <= i < k < keys.len() ==> #[trigger] keys[i].0 != #[trigger] keys[k].0,
    ensures
        binds(keys, keys[j].0, keys[j].1),
{
    assert forall|i: int| 0 <= i < keys.len() && #[trigger] keys[i].0 == keys[j].0 implies keys[i].1
        == keys[j].1 by {
        if i < j {
            assert(keys[i].0 != keys[j].0);
        } else if j < i {
            assert(keys[j].0 != keys[i].0);
        }
    }
}

/// The keys of the query window for a search (see `keymap_spec`).
pub fn keymaps(search_type: FuzzySearch) -> (r: Vec<(&'static str, KeyAction)>)
    ensures
        r@.map_values(|k: (&'static str, KeyAction)| (k.0@, k.1)) == keymap_spec(search_type),
{
    let mut r: Vec<(&'static str, KeyAction)> = Vec::new();
    r.push(("<Up>", KeyAction::MoveUp));
    r.push(("<Down>", KeyAction::MoveDown));
    r.push(("<Esc>", KeyAction::Close));
    r.push(("<C-t>", KeyAction::OpenTab));
    r.push(("<C-s>", KeyAction::OpenHSplit));
    r.push(("<C-v>", KeyAction::OpenVSplit));
    if search_type == FuzzySearch::Directories || search_type == FuzzySearch::Buffer {
        r.push(("<C-d>", KeyAction::Delete));
    }
    r.push(("<Enter>", KeyAction::OpenBuffer));
    r.push(("<Tab>", KeyAction::NextTab));
    r.push(("<S-Tab>", KeyAction::PreviousTab));
    assert(r@.map_values(|k: (&'static str, KeyAction)| (k.0@, k.1)) =~= keymap_spec(search_type));
    r
}

/// One line of search results.
#[derive(Clone)]
pub struct LineOut {
    pub text: String,
    pub icon: String,
    pub hl_group: String,
    pub git_root: String,
    /// The line to open the file at, where the search gives one.
    pub line_nr: Option<u32>,
}

impl LineOut {
    /// A result line for a directory: no icon, the `Directory` highlight.
    pub fn directory(text: &str) -> (r: LineOut)
        ensures
            r.text@ == text@,
            r.icon@ == Seq::<char>::empty(),
            r.hl_group@ == "Directory"@,
            r.git_root@ == Seq::<char>::empty(),
            r.line_nr is None,
    {
        LineOut {
            text: text.to_owned(),
            icon: String::new(),
            hl_group: "Directory".to_owned(),
            git_root: String::new(),
            line_nr: None,
        }
    }
}

impl LineOut {
    /// The path the line stands for: its text below its root.
    pub fn full_path(&self) -> (r: String)
        ensures
            r@ == join_of(self.git_root@, self.text@),
    {
        path_join(self.git_root.as_str(), self.text.as_str())
    }
}

/// The path of the selected result line, below the working directory.
pub fn selected_path(cwd: &str, search_lines: &Vec<LineOut>, selected_idx: usize) -> (r: String)
    requires
        selected_idx < search_lines@.len(),
    ensures
        r@ == join_of(cwd@, search_lines@[selected_idx as int].text@),
{
    path_join(cwd, search_lines[selected_idx].text.as_str())
}

/// What opening the selected result does: the path to open, and whether it
/// is remembered as a recently used directory.
pub struct OpenItem {
    pub path: String,
    pub remember: bool,
}

/// The path the selected line opens: in the first tab of a directory search
/// the line is below the home directory and is remembered; in a buffer
/// search it is below the selected tab's directory; otherwise it is the
/// line's text. With no result lines nothing opens.
pub fn open_target(
    search_type: FuzzySearch,
    selected_tab: usize,
    selected_idx: usize,
    tabs: &Vec<Tab>,
    search_lines: &Vec<LineOut>,
    home: &str,
) -> (r: Option<OpenItem>)
    requires
        search_lines@.len() > 0 ==> selected_idx < search_lines@.len(),
        search_lines@.len() > 0 && search_type is Buffer ==> selected_tab < tabs@.len(),
    ensures
        search_lines@.len() == 0 ==> r is None,
        search_lines@.len() > 0 ==> (r matches Some(item) && {
            let selected = search_lines@[selected_idx as int].text@;
            if search_type is Directories && selected_tab == 0 {
                item.path@ == join_of(home@, selected) && item.remember
            } else if search_type is Buffer {
                item.path@ == join_of(tabs@[selected_tab as int].tab_full(), selected)
                    && !item.remember
            } else {
                item.path@ == selected && !item.remember
            }
        }),
{
    if search_lines.len() == 0 {
        return None;
    }
    let selected = search_lines[selected_idx].text.as_str();
    if search_type == FuzzySearch::Directories && selected_tab == 0 {
        Some(OpenItem { path: path_join(home, selected), remember: true })
    } else if search_type == FuzzySearch::Buffer {
        let root = tabs[selected_tab].full();
        Some(OpenItem { path: path_join(root.as_str(), selected), remember: false })
    } else {
        Some(OpenItem { path: selected.to_owned(), remember: false })
    }
}

/// What deleting the selected result does.
pub enum DeleteAction {
    /// Wipe out the buffer of this file.
    WipeBuffer(String),
    /// Forget this recently used directory.
    ForgetDirectory(String),
    /// Nothing.
    Nothing,
}

/// What deleting the selected line does: a buffer search wipes out the
/// line's buffer; the recent-directories tab of a directory search forgets
/// the directory; otherwise nothing happens.
pub fn delete_action(
    search_type: FuzzySearch,
    selected_tab: usize,
    selected_idx: usize,
    cwd: &str,
    search_lines: &Vec<LineOut>,
) -> (r: DeleteAction)
    requires
        search_type is Buffer || (search_type is Directories && selected_tab == 1)
            ==> selected_idx < search_lines@.len(),
    ensures
        search_type is Buffer ==> (r matches DeleteAction::WipeBuffer(p) && p@ == join_of(
            cwd@,
            search_lines@[selected_idx as int].text@,
        )),
        search_type is Directories && selected_tab == 1 ==> (r matches DeleteAction::ForgetDirectory(
            d,
        ) && d@ == search_lines@[selected_idx as int].text@),
        !(search_type is Buffer) && !(search_type is Directories && selected_tab == 1) ==> r is Nothing,
{
    if search_type == FuzzySearch::Buffer {
        DeleteAction::WipeBuffer(selected_path(cwd, search_lines, selected_idx))
    } else if search_type == FuzzySearch::Directories && selected_tab == 1 {
        DeleteAction::ForgetDirectory(search_lines[selected_idx].text.clone())
    } else {
        DeleteAction::Nothing
    }
}

/// A task the finder queues; the search turns each into a task of its own.
pub enum PlannedTask {
    /// Empty the stored results.
    ClearResults,
    /// Search for `query` in tab `tab`.
    Search { query: String, tab: usize },
    /// Preview line `idx` of tab `tab`.
    Preview { idx: usize, tab: usize },
    /// Forget this recently used directory.
    ForgetDirectory(String),
}

/// Whether `t` searches for `query` in tab `tab`.
pub open spec fn is_search(t: PlannedTask, query: Seq<char>, tab: usize) -> bool {
    t matches PlannedTask::Search { query: q, tab: k } && q@ == query && k == tab
}

/// Whether `t` previews line `idx` of tab `tab`.
pub open spec fn is_preview(t: PlannedTask, idx: usize, tab: usize) -> bool {
    t matches PlannedTask::Preview { idx: i, tab: k } && i == idx && k == tab
}

/// The tasks that fill a newly opened finder: clear the results, search for
/// nothing in the first tab, preview its first line.
pub fn open_tasks() -> (r: Vec<PlannedTask>)
    ensures
        r@.len() == 3,
        r@[0] is ClearResults,
        is_search(r@[1], Seq::<char>::empty(), 0),
        is_preview(r@[2], 0, 0),
{
    vec![PlannedTask::ClearResults, PlannedTask::Search { query: String::new(), tab: 0 }, PlannedTask::Preview { idx: 0, tab: 0 }]
}

/// The tasks after the query changed: search for it in the selected tab and
/// preview that tab's first line.
pub fn query_tasks(query: String, tab: usize) -> (r: Vec<PlannedTask>)
    ensures
        r@.len() == 2,
        is_search(r@[0], query@, tab),
        is_preview(r@[1], 0, tab),
{
    vec![PlannedTask::Search { query, tab }, PlannedTask::Preview { idx: 0, tab }]
}

/// The tasks after deleting the selected line: none when deleting does
/// nothing; otherwise (after forgetting the directory, for a recent
/// directory) clear the results, search again with the same query and tab,
/// and preview the same line.
pub fn delete_tasks(action: &DeleteAction, query: String, tab: usize, idx: usize) -> (r: Vec<PlannedTask>)
    ensures
        *action is Nothing ==> r@.len() == 0,
        *action is WipeBuffer ==> {
            &&& r@.len() == 3
            &&& r@[0] is ClearResults
            &&& is_search(r@[1], query@, tab)
            &&& is_preview(r@[2], idx, tab)
        },
        *action matches DeleteAction::ForgetDirectory(d) ==> {
            &&& r@.len() == 4
            &&& r@[0] matches PlannedTask::ForgetDirectory(e) && e@ == d@
            &&& r@[1] is ClearResults
            &&& is_search(r@[2], query@, tab)
            &&& is_preview(r@[3], idx, tab)
        },
{
    match action {
        DeleteAction::Nothing => Vec::new(),
        DeleteAction::WipeBuffer(_) => vec![
            PlannedTask::ClearResults,
            PlannedTask::Search { query, tab },
            PlannedTask::Preview { idx, tab },
        ],
        DeleteAction::ForgetDirectory(d) => vec![
            PlannedTask::ForgetDirectory(d.clone()),
            PlannedTask::ClearResults,
            PlannedTask::Search { query, tab },
            PlannedTask::Preview { idx, tab },
        ],
    }
}

/// A piece of text with a highlight group.
pub struct HLText {
    pub text: String,
    pub highlight: String,
}

impl HLText {
    pub fn new(text: String, highlight: String) -> (r: HLText)
        ensures
            r.text == text,
            r.highlight == highlight,
    {
        HLText { text, highlight }
    }
}

/// A highlight over a column range of one line; `col_end` -1 runs to the
/// end of the line.
pub struct Highlight {
    pub group: String,
    pub line: usize,
    pub col_start: u32,
    pub col_end: i32,
}

/// Positions and sizes of the four windows of the search window.
pub struct FuzzyLayout {
    pub pop_cmd_row: u32,
    pub pop_cmd_col: u32,
    pub pop_cmd_height: u32,
    pub pop_cmd_width: u32,
    pub out_preview_height: u32,
    pub out_preview_row: u32,
    pub out_width: u32,
    pub out_col: u32,
    pub preview_width: u32,
    pub preview_col: u32,
}

/// Lays the search window out on an editor of the given size: a one-line
/// query box at the top left, the tabs at the top right, the results below
/// the query box and the preview beside them.
pub fn fuzzy_layout(width: u32, height: u32) -> (r: FuzzyLayout)
    requires
        width >= 12,
        height >= 10,
    ensures
        r.pop_cmd_row == 2,
        r.pop_cmd_col == 4,
        r.pop_cmd_height == 1,
        r.pop_cmd_width == if width % 2 == 0 {
            width - 8
        } else {
            width - 9
        },
        r.out_preview_height == height - 10,
        r.out_preview_row == r.pop_cmd_row + 3,
        r.out_width == r.pop_cmd_width / 2,
        r.out_col == r.pop_cmd_col,
        r.preview_width == r.out_width - 2,
        r.preview_col == r.pop_cmd_col + r.out_width + 2,
{
    let pop_cmd_row: u32 = 2;
    let pop_cmd_col: u32 = 4;
    let pop_cmd_height: u32 = 1;
    let pop_cmd_width: u32 = if width % 2 == 0 {
        width - 8
    } else {
        width - 9
    };
    let out_preview_height = height - 10;
    let out_preview_row = pop_cmd_row + 3;
    let out_width = pop_cmd_width / 2;
    let out_col = pop_cmd_col;
    let preview_width = out_width - 2;
    let preview_col = pop_cmd_col + out_width + 2;
    FuzzyLayout {
        pop_cmd_row,
        pop_cmd_col,
        pop_cmd_height,
        pop_cmd_width,
        out_preview_height,
        out_preview_row,
        out_width,
        out_col,
        preview_width,
        preview_col,
    }
}

/// With their one-cell borders, the results and the preview windows do not
/// overlap, and every window stays inside the editor.
pub proof fn law_layout_fits(width: u32, height: u32, r: FuzzyLayout)
    requires
        width >= 12,
        height >= 10,
        r.pop_cmd_row == 2,
        r.pop_cmd_col == 4,
        r.pop_cmd_height == 1,
        r.pop_cmd_width == if width % 2 == 0 {
            width - 8
        } else {
            width - 9
        },
        r.out_preview_height == height - 10,
        r.out_preview_row == r.pop_cmd_row + 3,
        r.out_width == r.pop_cmd_width / 2,
        r.out_col == r.pop_cmd_col,
        r.preview_width == r.out_width - 2,
        r.preview_col == r.pop_cmd_col + r.out_width + 2,
    ensures
        r.out_col + r.out_width < r.preview_col - 1,
        r.preview_col + r.preview_width + 1 < width,
        r.pop_cmd_row + r.pop_cmd_height < r.out_preview_row - 1,
        r.out_preview_row + r.out_preview_height + 1 < height,
        r.out_width >= 2,
{
}

/// Lays the search window out with the query box at the bottom: the
/// results at the top left, the preview beside them, and a one-line query
/// box below both, as wide as the two together.
pub fn bottom_query_layout(width: u32, height: u32) -> (r: FuzzyLayout)
    requires
        width >= 12,
        height >= 10,
    ensures
        r.pop_cmd_row == height - 6,
        r.pop_cmd_col == 4,
        r.pop_cmd_height == 1,
        r.pop_cmd_width == if width % 2 == 0 {
            width - 8
        } else {
            width - 9
        },
        r.out_preview_height == r.pop_cmd_row - 4,
        r.out_preview_row == 2,
        r.out_width == r.pop_cmd_width / 2,
        r.out_col == r.pop_cmd_col,
        r.preview_width == r.out_width - 2,
        r.preview_col == r.pop_cmd_col + r.out_width + 2,
{
    let pop_cmd_row = height - 6;
    let pop_cmd_col: u32 = 4;
    let pop_cmd_width: u32 = if width % 2 == 0 {
        width - 8
    } else {
        width - 9
    };
    let out_width = pop_cmd_width / 2;
    FuzzyLayout {
        pop_cmd_row,
        pop_cmd_col,
        pop_cmd_height: 1,
        pop_cmd_width,
        out_preview_height: pop_cmd_row - 4,
        out_preview_row: 2,
        out_width,
        out_col: pop_cmd_col,
        preview_width: out_width - 2,
        preview_col: pop_cmd_col + out_width + 2,
    }
}

/// With the query box at the bottom, the bordered results and preview
/// windows end above the query box, do not overlap each other, and every
/// window stays inside the editor.
pub proof fn law_bottom_layout_fits(width: u32, height: u32, r: FuzzyLayout)
    requires
        width >= 12,
        height >= 10,
        r.pop_cmd_row == height - 6,
        r.pop_cmd_col == 4,
        r.pop_cmd_height == 1,
        r.pop_cmd_width == if width % 2 == 0 {
            width - 8
        } else {
            width - 9
        },
        r.out_preview_height == r.pop_cmd_row - 4,
        r.out_preview_row == 2,
        r.out_width == r.pop_cmd_width / 2,
        r.out_col == r.pop_cmd_col,
        r.preview_width == r.out_width - 2,
        r.preview_col == r.pop_cmd_col + r.out_width + 2,
    ensures
        r.out_preview_row + r.out_preview_height < r.pop_cmd_row - 1,
        r.pop_cmd_row + r.pop_cmd_height < height,
        r.out_col + r.out_width < r.preview_col - 1,
        r.preview_col + r.preview_width + 1 < width,
        r.pop_cmd_col + r.pop_cmd_width + 1 < width,
{
}

/// The text of a result line: a space, the icon, a space, the text.
pub open spec fn result_line(line: LineOut) -> Seq<char> {
    seq![' '] + line.icon@ + seq![' '] + line.text@
}

/// The lines shown in the results window, one per result.
pub fn result_lines(lines: &Vec<LineOut>) -> (r: Vec<String>)
    ensures
        r@.len() == lines@.len(),
        forall|i: int| 0 <= i < lines@.len() ==> #[trigger] r@[i]@ == result_line(lines@[i]),
{
    let mut out: Vec<String> = Vec::new();
    let mut i: usize = 0;
    while i < lines.len()
        invariant
            i <= lines@.len(),
            out@.len() == i,
            forall|k: int| 0 <= k < i ==> #[trigger] out@[k]@ == result_line(lines@[k]),
        decreases lines.len() - i,
    {
        let line = &lines[i];
        let mut s = String::new();
        s.append(" ");
        s.append(line.icon.as_str());
        s.append(" ");
        s.append(line.text.as_str());
        proof {
            reveal_strlit(" ");
        }
        assert(s@ =~= result_line(lines@[i as int]));
        out.push(s);
        i += 1;
    }
    out
}

/// The count shown beside the query: ` (shown/total) `.
pub open spec fn info_text_spec(shown: nat, total: nat) -> Seq<char> {
    seq![' ', '('] + decimal(shown) + seq!['/'] + decimal(total) + seq![')', ' ']
}

/// The count shown beside the query: how many results are shown out of how
/// many were found.
pub fn info_text(shown: u64, total: u64) -> (r: String)
    ensures
        r@ == info_text_spec(shown as nat, total as nat),
{
    let mut s = String::new();
    s.append(" (");
    push_decimal(&mut s, shown);
    s.append("/");
    push_decimal(&mut s, total);
    s.append(") ");
    proof {
        reveal_strlit(" (");
        reveal_strlit("/");
        reveal_strlit(") ");
    }
    assert(s@ =~= info_text_spec(shown as nat, total as nat));
    s
}

/// The highlighted texts of the tab bar: each tab's name, highlighted as
/// selected or not, followed by a plain space.
pub fn tab_texts(tabs: &Vec<Tab>, selected_tab: usize) -> (r: Vec<HLText>)
    ensures
        r@.len() == 2 * tabs@.len(),
        forall|i: int|
            0 <= i < tabs@.len() ==> {
                &&& (#[trigger] r@[2 * i]).text@ == tabs@[i].tab_name()
                &&& r@[2 * i].highlight@ == if i == selected_tab {
                    TAB_BTN_SELECTED@
                } else {
                    TAB_BTN@
                }
                &&& r@[2 * i + 1].text@ == " "@
                &&& r@[2 * i + 1].highlight@ == ""@
            },
{
    let mut out: Vec<HLText> = Vec::new();
    let mut i: usize = 0;
    while i < tabs.len()
        invariant
            i <= tabs@.len(),
            out@.len() == 2 * i,
            forall|k: int|
                0 <= k < i ==> {
                    &&& (#[trigger] out@[2 * k]).text@ == tabs@[k].tab_name()
                    &&& out@[2 * k].highlight@ == if k == selected_tab {
                        TAB_BTN_SELECTED@
                    } else {
                        TAB_BTN@
                    }
                    &&& out@[2 * k + 1].text@ == " "@
                    &&& out@[2 * k + 1].highlight@ == ""@
                },
        decreases tabs.len() - i,
    {
        let group = if i == selected_tab {
            TAB_BTN_SELECTED.to_owned()
        } else {
            TAB_BTN.to_owned()
        };
        let ghost before = out@;
        out.push(HLText::new(tabs[i].name(), group));
        out.push(HLText::new(" ".to_owned(), "".to_owned()));
        assert forall|k: int| 0 <= k < i + 1 implies #[trigger] out@[2 * k] == if k < i {
            before[2 * k]
        } else {
            out@[2 * (i as int)]
        } && out@[2 * k + 1] == if k < i {
            before[2 * k + 1]
        } else {
            out@[2 * (i as int) + 1]
        } by {
            if k < i {
                assert(2 * k + 1 < 2 * i);
            }
        }
        i += 1;
    }
    out
}

/// The highlights of the results window: each line's icon in the line's
/// highlight group, then the selected line's text in `NeoFuzzySelect`.
pub fn out_highlights(lines: &Vec<LineOut>, selected_idx: usize) -> (r: Vec<Highlight>)
    ensures
        r@.len() == lines@.len() + 1,
        forall|i: int|
            0 <= i < lines@.len() ==> {
                &&& (#[trigger] r@[i]).group@ == lines@[i].hl_group@
                &&& r@[i].line == i
                &&& r@[i].col_start == 0
                &&& r@[i].col_end == 2
            },
        r@[lines@.len() as int].group@ == GRP_FUZZY_SELECT@,
        r@[lines@.len() as int].line == selected_idx,
        r@[lines@.len() as int].col_start == 3,
        r@[lines@.len() as int].col_end == -1,
{
    let mut out: Vec<Highlight> = Vec::new();
    let mut i: usize = 0;
    while i < lines.len()
        invariant
            i <= lines@.len(),
            out@.len() == i,
            forall|k: int|
                0 <= k < i ==> {
                    &&& (#[trigger] out@[k]).group@ == lines@[k].hl_group@
                    &&& out@[k].line == k
                    &&& out@[k].col_start == 0
                    &&& out@[k].col_end == 2
                },
        decreases lines.len() - i,
    {
        out.push(
            Highlight { group: lines[i].hl_group.clone(), line: i, col_start: 0, col_end: 2 },
        );
        i += 1;
    }
    out.push(
        Highlight {
            group: GRP_FUZZY_SELECT.to_owned(),
            line: selected_idx,
            col_start: 3,
            col_end: -1,
        },
    );
    out
}

/// First line of the preview of an empty directory.
pub const EMPTY_DIRECTORY: &'static str = "> Empty directory";

/// The preview of a binary file.
pub const BINARY_FILE: &'static str = "> File is a binary";

/// A highlight of line `line` from its start to its end.
pub open spec fn whole_line(h: Highlight, group: Seq<char>, line: int) -> bool {
    h.group@ == group && h.line == line && h.col_start == 0 && h.col_end == -1
}

/// The highlights a directory listing gets, in order: directories (ending
/// in `/`) as `Directory`, the empty-directory notice as `Comment`.
pub open spec fn directory_preview_highlights(preview: Seq<String>, n: int) -> Seq<(Seq<char>, int)>
    decreases n,
{
    if n <= 0 {
        seq![]
    } else {
        let item = preview[n - 1]@;
        let rest = directory_preview_highlights(preview, n - 1);
        let with_dir = if item.len() > 0 && item.last() == '/' {
            rest.push(("Directory"@, n - 1))
        } else {
            rest
        };
        if has_prefix(item, EMPTY_DIRECTORY@) {
            with_dir.push(("Comment"@, n - 1))
        } else {
            with_dir
        }
    }
}

/// What the preview window gets: whether its highlights are cleared first,
/// and the new highlights. A directory search highlights directories and
/// the empty-directory notice after clearing; otherwise a lone binary-file
/// notice is highlighted as a comment.
pub fn preview_highlights(search_type: FuzzySearch, preview: &Vec<String>) -> (r: (
    bool,
    Vec<Highlight>,
))
    ensures
        r.0 == (search_type is Directories),
        search_type is Directories ==> r.1@.len() == directory_preview_highlights(
            preview@,
            preview@.len() as int,
        ).len() && forall|k: int|
            0 <= k < r.1@.len() ==> whole_line(
                #[trigger] r.1@[k],
                directory_preview_highlights(preview@, preview@.len() as int)[k].0,
                directory_preview_highlights(preview@, preview@.len() as int)[k].1,
            ),
        !(search_type is Directories) ==> if preview@.len() == 1 && has_prefix(
            preview@[0]@,
            BINARY_FILE@,
        ) {
            r.1@.len() == 1 && whole_line(r.1@[0], "Comment"@, 0)
        } else {
            r.1@.len() == 0
        },
{
    let mut out: Vec<Highlight> = Vec::new();
    if search_type == FuzzySearch::Directories {
        let mut i: usize = 0;
        while i < preview.len()
            invariant
                i <= preview@.len(),
                out@.len() == directory_preview_highlights(preview@, i as int).len(),
                forall|k: int|
                    0 <= k < out@.len() ==> whole_line(
                        #[trigger] out@[k],
                        directory_preview_highlights(preview@, i as int)[k].0,
                        directory_preview_highlights(preview@, i as int)[k].1,
                    ),
            decreases preview.len() - i,
        {
            let item = preview[i].as_str();
            let ghost before = out@;
            if str_ends_with_char(item, '/') {
                out.push(
                    Highlight { group: "Directory".to_owned(), line: i, col_start: 0, col_end: -1 },
                );
            }
            if str_starts_with(item, EMPTY_DIRECTORY) {
                out.push(
                    Highlight { group: "Comment".to_owned(), line: i, col_start: 0, col_end: -1 },
                );
            }
            i += 1;
        }
        (true, out)
    } else {
        if preview.len() == 1 && str_starts_with(preview[0].as_str(), BINARY_FILE) {
            out.push(Highlight { group: "Comment".to_owned(), line: 0, col_start: 0, col_end: -1 });
        }
        (false, out)
    }
}

} // verus!
