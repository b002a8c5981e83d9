use neo_api_rs::diffuser::{DirectoryTab, Tab};
use neo_api_rs::fuzzy::{delete_tasks, keymaps, open_tasks, query_tasks, KeyAction, PlannedTask};
use neo_api_rs::fuzzy::{
    bottom_query_layout, delete_action, fuzzy_layout, info_text, open_target, out_highlights, preview_highlights,
    result_lines, selected_path, tab_texts, DeleteAction, FuzzySearch, LineOut, BINARY_FILE,
    EMPTY_DIRECTORY, GRP_FUZZY_SELECT, TAB_BTN, TAB_BTN_SELECTED,
};

fn line(text: &str, icon: &str, hl: &str, root: &str) -> LineOut {
    LineOut {
        text: text.to_string(),
        icon: icon.to_string(),
        hl_group: hl.to_string(),
        git_root: root.to_string(),
        line_nr: None,
    }
}

#[test]
fn file_based_searches() {
    assert!(FuzzySearch::Files.is_file_based());
    assert!(FuzzySearch::GitFiles.is_file_based());
    assert!(!FuzzySearch::Buffer.is_file_based());
    assert!(!FuzzySearch::Directories.is_file_based());
}

#[test]
fn directory_line_and_paths() {
    let d = LineOut::directory("projects/x");
    assert_eq!(d.text, "projects/x");
    assert_eq!(d.icon, "");
    assert_eq!(d.hl_group, "Directory");
    assert_eq!(d.git_root, "");
    assert_eq!(line("src/lib.rs", "", "", "/repo").full_path(), "/repo/src/lib.rs");
    assert_eq!(line("/abs/f", "", "", "/repo").full_path(), "/abs/f");
    let lines = vec![line("a.rs", "", "", ""), line("b/c.rs", "", "", "")];
    assert_eq!(selected_path("/work/", &lines, 1), "/work/b/c.rs");
    assert_eq!(selected_path("/work", &lines, 0), "/work/a.rs");
}

#[test]
fn open_target_by_search_type() {
    let lines = vec![line("p", "", "", ""), line("q/r", "", "", "")];
    let tabs = vec![Tab::Directory(DirectoryTab::new("/repo".to_string()).unwrap())];
    let home_dir = open_target(FuzzySearch::Directories, 0, 1, &tabs, &lines, "/home/u").unwrap();
    assert_eq!(home_dir.path, "/home/u/q/r");
    assert!(home_dir.remember);
    let recent = open_target(FuzzySearch::Directories, 1, 0, &tabs, &lines, "/home/u").unwrap();
    assert_eq!(recent.path, "p");
    assert!(!recent.remember);
    let buf = open_target(FuzzySearch::Buffer, 0, 1, &tabs, &lines, "/home/u").unwrap();
    assert_eq!(buf.path, "/repo/q/r");
    assert!(!buf.remember);
    let file = open_target(FuzzySearch::Files, 3, 0, &tabs, &lines, "/home/u").unwrap();
    assert_eq!(file.path, "p");
    assert!(open_target(FuzzySearch::Files, 0, 0, &tabs, &vec![], "/home/u").is_none());
}

#[test]
fn delete_action_by_search_type() {
    let lines = vec![line("a.rs", "", "", ""), line("dir", "", "", "")];
    match delete_action(FuzzySearch::Buffer, 0, 0, "/cwd", &lines) {
        DeleteAction::WipeBuffer(p) => assert_eq!(p, "/cwd/a.rs"),
        _ => panic!("expected a buffer to wipe"),
    }
    match delete_action(FuzzySearch::Directories, 1, 1, "/cwd", &lines) {
        DeleteAction::ForgetDirectory(d) => assert_eq!(d, "dir"),
        _ => panic!("expected a directory to forget"),
    }
    assert!(matches!(delete_action(FuzzySearch::Directories, 0, 1, "/cwd", &lines), DeleteAction::Nothing));
    assert!(matches!(delete_action(FuzzySearch::Files, 1, 1, "/cwd", &lines), DeleteAction::Nothing));
}

#[test]
fn layout_values() {
    let l = fuzzy_layout(100, 40);
    assert_eq!(l.pop_cmd_width, 92);
    assert_eq!(l.out_width, 46);
    assert_eq!(l.preview_width, 44);
    assert_eq!(l.preview_col, 52);
    assert_eq!(l.out_preview_height, 30);
    assert_eq!(l.out_preview_row, 5);
    let odd = fuzzy_layout(101, 10);
    assert_eq!(odd.pop_cmd_width, 92);
    assert_eq!(odd.out_preview_height, 0);
    assert!(l.preview_col + l.preview_width + 1 < 100);
}

#[test]
fn drawn_texts() {
    let lines = vec![line("main.rs", "R", "DevIconRs", ""), line("x", "", "Directory", "")];
    assert_eq!(result_lines(&lines), vec![" R main.rs", "  x"]);
    assert_eq!(info_text(3, 120), " (3/120) ");
    assert_eq!(info_text(0, 0), " (0/0) ");
    let hs = out_highlights(&lines, 1);
    assert_eq!(hs.len(), 3);
    assert_eq!(hs[0].group, "DevIconRs");
    assert_eq!((hs[1].line, hs[1].col_start, hs[1].col_end), (1, 0, 2));
    assert_eq!(hs[2].group, GRP_FUZZY_SELECT);
    assert_eq!((hs[2].line, hs[2].col_start, hs[2].col_end), (1, 3, -1));
}

#[test]
fn tab_bar_texts() {
    let tabs = vec![
        Tab::Text(" All ".to_string()),
        Tab::Directory(DirectoryTab::new("/repo/name".to_string()).unwrap()),
    ];
    let t = tab_texts(&tabs, 1);
    assert_eq!(t.len(), 4);
    assert_eq!(t[0].text, " All ");
    assert_eq!(t[0].highlight, TAB_BTN);
    assert_eq!(t[1].text, " ");
    assert_eq!(t[1].highlight, "");
    assert_eq!(t[2].text, "name");
    assert_eq!(t[2].highlight, TAB_BTN_SELECTED);
}

#[test]
fn preview_highlight_kinds() {
    let listing = vec!["lib/".to_string(), "a.rs".to_string(), "src/".to_string()];
    let (clear, hs) = preview_highlights(FuzzySearch::Directories, &listing);
    assert!(clear);
    let got: Vec<(String, usize)> = hs.iter().map(|h| (h.group.clone(), h.line)).collect();
    assert_eq!(got, vec![("Directory".to_string(), 0), ("Directory".to_string(), 2)]);
    assert!(hs.iter().all(|h| h.col_start == 0 && h.col_end == -1));

    let empty = vec![EMPTY_DIRECTORY.to_string()];
    let (_, hs) = preview_highlights(FuzzySearch::Directories, &empty);
    assert_eq!(hs.len(), 1);
    assert_eq!(hs[0].group, "Comment");

    let binary = vec![BINARY_FILE.to_string()];
    let (clear, hs) = preview_highlights(FuzzySearch::Files, &binary);
    assert!(!clear);
    assert_eq!(hs.len(), 1);
    assert_eq!((hs[0].group.as_str(), hs[0].line), ("Comment", 0));

    let text = vec!["fn main() {}".to_string()];
    let (_, hs) = preview_highlights(FuzzySearch::Buffer, &text);
    assert!(hs.is_empty());
}

#[test]
fn bottom_layout_values() {
    let l = bottom_query_layout(100, 40);
    assert_eq!(l.pop_cmd_row, 34);
    assert_eq!(l.pop_cmd_width, 92);
    assert_eq!(l.out_preview_height, 30);
    assert_eq!(l.out_preview_row, 2);
    assert_eq!(l.out_width, 46);
    assert_eq!(l.preview_width, 44);
    assert_eq!(l.preview_col, 52);
    assert!(l.out_preview_row + l.out_preview_height < l.pop_cmd_row - 1);
}

#[test]
fn keymaps_by_search_type() {
    let keys: Vec<&str> = keymaps(FuzzySearch::Files).iter().map(|k| k.0).collect();
    assert_eq!(keys, vec!["<Up>", "<Down>", "<Esc>", "<C-t>", "<C-s>", "<C-v>", "<Enter>", "<Tab>", "<S-Tab>"]);
    let dirs = keymaps(FuzzySearch::Directories);
    assert_eq!(dirs.len(), 10);
    assert!(dirs[6] == ("<C-d>", KeyAction::Delete));
    assert!(keymaps(FuzzySearch::Buffer).iter().any(|k| k.1 == KeyAction::Delete));
    assert!(!keymaps(FuzzySearch::GitFiles).iter().any(|k| k.1 == KeyAction::Delete));
}

fn planned_names(tasks: &[PlannedTask]) -> Vec<String> {
    tasks
        .iter()
        .map(|t| match t {
            PlannedTask::ClearResults => "clear".to_string(),
            PlannedTask::Search { query, tab } => format!("search {query:?} {tab}"),
            PlannedTask::Preview { idx, tab } => format!("preview {idx} {tab}"),
            PlannedTask::ForgetDirectory(d) => format!("forget {d}"),
        })
        .collect()
}

#[test]
fn planned_task_lists() {
    assert_eq!(planned_names(&open_tasks()), vec!["clear", "search \"\" 0", "preview 0 0"]);
    assert_eq!(planned_names(&query_tasks("ab".to_string(), 2)), vec!["search \"ab\" 2", "preview 0 2"]);
    assert!(delete_tasks(&DeleteAction::Nothing, "q".to_string(), 1, 3).is_empty());
    assert_eq!(
        planned_names(&delete_tasks(&DeleteAction::WipeBuffer("/w/a".to_string()), "q".to_string(), 1, 3)),
        vec!["clear", "search \"q\" 1", "preview 3 1"]
    );
    assert_eq!(
        planned_names(&delete_tasks(&DeleteAction::ForgetDirectory("p/x".to_string()), "q".to_string(), 1, 0)),
        vec!["forget p/x", "clear", "search \"q\" 1", "preview 0 1"]
    );
}
