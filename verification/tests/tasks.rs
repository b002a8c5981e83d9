use neo_api_rs::devicon::{DevIcon, IconTable};
use neo_api_rs::diffuser::{FuzzyTab, Tab};
use neo_api_rs::fuzzy::FuzzySearch;
use neo_api_rs::tasks::{
    file_lines, search_result, tabs, BufferEntry, BufferSearch, ClearResultsTask,
    ExecDirectorySearch, ExecRecentDirectories, ExecStandardSearch, FileSearchTask,
    InsertRecentDirectory, RemoveRecentDirectory, StoreRecentDirectory, ALL_DIRECTORIES_TAB,
    OTHER_TAB, RECENT_DIRECTORIES_TAB,
};
use neo_api_rs::fuzzy::LineOut;

fn icon(icon: &'static str, name: &'static str) -> DevIcon {
    DevIcon { icon, color: "#000000", name }
}

fn table() -> IconTable {
    IconTable {
        from_file_name: vec![],
        from_extension: vec![("txt", icon("T", "Txt")), ("rs", icon("R", "Rs"))],
        from_os: vec![],
        from_de: vec![],
        from_wm: vec![],
    }
}

fn fulls(tabs: &[Tab]) -> Vec<String> {
    tabs.iter().map(|t| t.full()).collect()
}

#[test]
fn directory_tabs_and_results() {
    let t = tabs().unwrap();
    let names: Vec<String> = t.iter().map(|t| t.name()).collect();
    assert_eq!(names, vec![ALL_DIRECTORIES_TAB, RECENT_DIRECTORIES_TAB]);
    let r = ExecRecentDirectories::found(4);
    assert_eq!(r.db_count, Some(4));
    assert_eq!(r.selected_tab, Some(1));
    assert_eq!(r.selected_idx, Some(0));
    assert!(r.update);
    let l = ExecDirectorySearch::loaded(9);
    assert_eq!((l.db_count, l.selected_tab), (Some(9), Some(0)));
    assert_eq!(l.tabs.map(|t| t.len()), Some(2));
    let s = search_result();
    assert_eq!((s.db_count, s.selected_idx, s.update), (None, Some(0), true));
    let c = ClearResultsTask::result();
    assert_eq!((c.db_count, c.selected_idx, c.update), (Some(0), Some(0), false));
    assert_eq!(ExecRecentDirectories::new("q".to_string()).search_query, "q");
    assert_eq!(RemoveRecentDirectory::new("/x").path, "/x");
    let line = LineOut::directory("d");
    assert_eq!(InsertRecentDirectory::new(line).0.text, "d");
}

#[test]
fn directory_lines_from_output() {
    let lines = ExecDirectorySearch::directory_lines("a/\nb/c/\n");
    let texts: Vec<&str> = lines.iter().map(|l| l.text.as_str()).collect();
    assert_eq!(texts, vec!["a/", "b/c/"]);
    assert!(lines.iter().all(|l| l.hl_group == "Directory" && l.icon.is_empty()));
    assert!(lines.iter().all(|l| l.line_nr.is_none()));
}

#[test]
fn file_lines_have_icons() {
    let t = table();
    let lines = file_lines(&t, "src/main.rs\nREADME\n", "/repo");
    assert_eq!(lines.len(), 2);
    assert_eq!((lines[0].icon.as_str(), lines[0].hl_group.as_str()), ("R", "DevIconRs"));
    assert_eq!((lines[1].icon.as_str(), lines[1].hl_group.as_str()), ("T", "DevIconTxt"));
    assert!(lines.iter().all(|l| l.git_root == "/repo"));
    assert!(lines.iter().all(|l| l.line_nr == Some(1)));
}

#[test]
fn standard_search_result_lines() {
    let t = table();
    let dirs = ExecStandardSearch {
        cmd: "fd",
        cwd: "/w".to_string(),
        args: vec!["--type", "directory"],
        search_query: String::new(),
        search_type: FuzzySearch::Directories,
    };
    let r = dirs.result_lines(&t, "x\n");
    assert_eq!(r[0].hl_group, "Directory");
    let files = ExecStandardSearch { search_type: FuzzySearch::Files, ..dirs };
    let r = files.result_lines(&t, "x.rs\n");
    assert_eq!((r[0].icon.as_str(), r[0].git_root.as_str()), ("R", ""));
    let task = FileSearchTask { cmd: "fd", cwd: "/w".to_string(), args: vec![], search_query: String::new() };
    let r = task.result_lines(&t, "a.rs\n");
    assert_eq!(r[0].git_root, "/w");
    let l = FileSearchTask::loaded(1);
    assert_eq!(l.tabs.map(|t| t.len()), Some(0));
}

#[test]
fn store_recent_directory_path() {
    let s = StoreRecentDirectory::new("/home/u/.local/share/nvim", "/p".to_string());
    assert_eq!(s.recent_directories, "/home/u/.local/share/nvim/recent_directories.txt");
    assert_eq!(s.dir_path, "/p");
}

#[test]
fn buffer_plan_groups_by_repository() {
    let t = table();
    let entries = vec![
        BufferEntry { name: "/r1/src/a.rs".to_string(), lnum: 3, git_root: Some("/r1".to_string()) },
        BufferEntry { name: "/tmp/notes".to_string(), lnum: 1, git_root: None },
        BufferEntry { name: "/r2/b.rs".to_string(), lnum: 1, git_root: Some("/r2/".to_string()) },
        BufferEntry { name: "/r1/c.rs".to_string(), lnum: 9, git_root: Some("/r1".to_string()) },
    ];
    let (lines, tabs) = BufferSearch::plan(&t, Some("/r1".to_string()), &entries);
    let texts: Vec<&str> = lines.iter().map(|l| l.text.as_str()).collect();
    assert_eq!(texts, vec!["src/a.rs", "/tmp/notes", "b.rs", "c.rs"]);
    assert_eq!(lines[0].git_root, "/r1");
    assert_eq!(lines[1].git_root, "");
    assert_eq!(lines[0].hl_group, "DevIconRs");
    let line_nrs: Vec<Option<u32>> = lines.iter().map(|l| l.line_nr).collect();
    assert_eq!(line_nrs, vec![Some(3), Some(1), Some(1), Some(9)]);
    assert_eq!(fulls(&tabs), vec!["/r1", "/r2/", OTHER_TAB]);

    let (_, tabs) = BufferSearch::plan(&t, None, &entries);
    assert_eq!(fulls(&tabs), vec![OTHER_TAB, "/r1", "/r2/"]);
    let r = BufferSearch::loaded(4, tabs);
    assert_eq!(r.db_count, Some(4));
    assert_eq!(r.tabs.map(|t| t.len()), Some(3));
}

#[test]
fn buffers_listable_check() {
    let ok = vec![
        BufferEntry { name: "/r1/a.rs".to_string(), lnum: 1, git_root: Some("/r1".to_string()) },
        BufferEntry { name: "/tmp/x".to_string(), lnum: 1, git_root: None },
    ];
    assert!(BufferSearch::listable(&Some("/r1".to_string()), &ok));
    assert!(BufferSearch::listable(&None, &ok));
    assert!(!BufferSearch::listable(&Some("/".to_string()), &ok));
    let outside = vec![BufferEntry { name: "/r10/a.rs".to_string(), lnum: 1, git_root: Some("/r1".to_string()) }];
    assert!(!BufferSearch::listable(&None, &outside));
    let trailing = vec![BufferEntry { name: "/r2/b.rs".to_string(), lnum: 1, git_root: Some("/r2/".to_string()) }];
    assert!(BufferSearch::listable(&None, &trailing));
}

#[test]
fn buffer_at_repository_root() {
    let t = table();
    let entries = vec![
        BufferEntry { name: "/r1".to_string(), lnum: 1, git_root: Some("/r1".to_string()) },
        BufferEntry { name: "/r2".to_string(), lnum: 2, git_root: Some("/r2/".to_string()) },
        BufferEntry { name: "/r1/".to_string(), lnum: 4, git_root: Some("/r1".to_string()) },
    ];
    assert!(BufferSearch::listable(&Some("/r1".to_string()), &entries));
    let (lines, tabs) = BufferSearch::plan(&t, Some("/r1".to_string()), &entries);
    let texts: Vec<&str> = lines.iter().map(|l| l.text.as_str()).collect();
    assert_eq!(texts, vec!["", "", ""]);
    assert_eq!(lines[0].git_root, "/r1");
    assert_eq!(lines[1].line_nr, Some(2));
    assert_eq!(fulls(&tabs), vec!["/r1", "/r2/", OTHER_TAB]);
}
