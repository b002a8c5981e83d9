use neo_api_rs::fuzzy::{BINARY_FILE, EMPTY_DIRECTORY};
use neo_api_rs::preview::{is_binary, sort_listing, Preview};

#[test]
fn binary_by_extension() {
    assert!(is_binary("/tmp/a.png"));
    assert!(is_binary("lib.so"));
    assert!(is_binary("movie.mkv"));
    assert!(!is_binary("main.rs"));
    assert!(!is_binary("Makefile"));
    assert!(!is_binary(".png"));
    assert!(!is_binary("dir.png/.."));
}

#[test]
fn listing_puts_directories_first() {
    let items = vec!["b.txt".to_string(), "z/".to_string(), "a.txt".to_string(), "c/".to_string()];
    assert_eq!(sort_listing(items), vec!["c/", "z/", "a.txt", "b.txt"]);
}

#[test]
fn directory_preview_lines() {
    let entries = vec![
        ("src".to_string(), true),
        ("Cargo.toml".to_string(), false),
        ("README.md".to_string(), false),
        ("app".to_string(), true),
    ];
    assert_eq!(
        Preview::directory_lines(&entries),
        vec!["app/", "src/", "Cargo.toml", "README.md"]
    );
}

#[test]
fn empty_directory_preview() {
    assert_eq!(Preview::directory_lines(&vec![]), vec![EMPTY_DIRECTORY]);
}

#[test]
fn file_and_binary_preview() {
    assert_eq!(Preview::file_lines("fn main() {}\r\n// end\n"), vec!["fn main() {}", "// end"]);
    assert_eq!(Preview::binary_lines(), vec![BINARY_FILE]);
}
