use neo_api_rs::recent::{
    history_lines, join_lines, recent_directory_lines, remove_recent_line, store_directory,
    terminate_lines, HISTORY_COUNT,
};

fn strings(v: &[&str]) -> Vec<String> {
    v.iter().map(|s| s.to_string()).collect()
}

#[test]
fn join_and_terminate() {
    assert_eq!(join_lines(&strings(&["a", "b", "c"])), "a\nb\nc");
    assert_eq!(join_lines(&strings(&[])), "");
    assert_eq!(terminate_lines(&strings(&["a", "b", "c"]), 2), "a\nb\n");
    assert_eq!(terminate_lines(&strings(&["a"]), 0), "");
}

#[test]
fn remove_line_by_index() {
    assert_eq!(remove_recent_line("/a\n/b\n/c\n", 1), "/a\n/c");
    assert_eq!(remove_recent_line("/a\n/b", 0), "/b");
    assert_eq!(remove_recent_line("/a\n/b", 7), "/a\n/b");
    assert_eq!(remove_recent_line("", 0), "");
}

#[test]
fn history_is_sorted_and_unique() {
    let lines = history_lines("/c\n/a\n/c\n", "/b");
    assert_eq!(lines, strings(&["/a", "/b", "/c"]));
    let again = history_lines("/a\n/b\n/c\n", "/a");
    assert_eq!(again, strings(&["/a", "/b", "/c"]));
}

#[test]
fn store_directory_writes_sorted_lines() {
    assert_eq!(store_directory("", "/home/u/p"), "/home/u/p\n");
    assert_eq!(store_directory("/z\n/a\n", "/m"), "/a\n/m\n/z\n");
    assert_eq!(store_directory("/a\n/m\n", "/m"), "/a\n/m\n");
}

#[test]
fn store_directory_keeps_history_count() {
    let mut contents = String::new();
    for i in 0..40 {
        contents.push_str(&format!("/d{:02}\n", i));
    }
    let out = store_directory(&contents, "/new");
    let lines: Vec<&str> = out.lines().collect();
    assert_eq!(lines.len(), HISTORY_COUNT);
    assert_eq!(lines[0], "/d00");
    assert_eq!(lines[HISTORY_COUNT - 1], "/d29");
}

#[test]
fn recent_lines_below_home() {
    let lines = recent_directory_lines("/home/u/a\n/other/b\n/home/u/c/d\n/home/uv\n", "/home/u");
    let texts: Vec<&str> = lines.iter().map(|l| l.text.as_str()).collect();
    assert_eq!(texts, vec!["a", "c/d"]);
    for l in &lines {
        assert_eq!(l.icon, "");
        assert_eq!(l.hl_group, "Directory");
        assert_eq!(l.git_root, "");
    }
}

#[test]
fn store_directory_twice_is_once() {
    let contents = "/b\n/a\n";
    let once = store_directory(contents, "/c");
    assert_eq!(store_directory(&once, "/c"), once);
    let mut full = String::new();
    for i in 0..35 {
        full.push_str(&format!("/d{:02}\n", i));
    }
    let once = store_directory(&full, "/zz");
    assert_eq!(store_directory(&once, "/zz"), once);
}

#[test]
fn removed_line_reads_back() {
    let out = remove_recent_line("/a\n/b\n/c\n", 2);
    let lines: Vec<&str> = out.lines().collect();
    assert_eq!(lines, vec!["/a", "/b"]);
}
