use neo_api_rs::devicon::{find_icon, DevIcon, IconTable};

fn icon(icon: &'static str, name: &'static str) -> DevIcon {
    DevIcon { icon, color: "#ffffff", name }
}

pub fn small_table() -> IconTable {
    IconTable {
        from_file_name: vec![("Makefile", icon("M", "Makefile"))],
        from_extension: vec![
            ("txt", icon("T", "Txt")),
            ("rs", icon("R", "Rs")),
            ("rs", icon("R2", "Rust")),
        ],
        from_os: vec![("arch", icon("A", "Arch"))],
        from_de: vec![("gnome", icon("G", "Gnome"))],
        from_wm: vec![("i3", icon("I", "I3"))],
    }
}

#[test]
fn icon_by_file_name_then_extension() {
    let t = small_table();
    let r = DevIcon::get_icon(&t, "Makefile");
    assert_eq!(r.icon, "M");
    assert_eq!(r.highlight, "DevIconMakefile");
    let r = DevIcon::get_icon(&t, "src/main.rs");
    assert_eq!(r.icon, "R2");
    assert_eq!(r.highlight, "DevIconRust");
}

#[test]
fn icon_by_os_de_wm_then_fallback() {
    let t = small_table();
    assert_eq!(DevIcon::get_icon(&t, "arch").highlight, "DevIconArch");
    assert_eq!(DevIcon::get_icon(&t, "gnome").highlight, "DevIconGnome");
    assert_eq!(DevIcon::get_icon(&t, "i3").highlight, "DevIconI3");
    let r = DevIcon::get_icon(&t, "notes.unknown");
    assert_eq!(r.icon, "T");
    assert_eq!(r.highlight, "DevIconTxt");
    assert_eq!(DevIcon::get_icon(&t, "dir/Makefile").highlight, "DevIconTxt");
}

#[test]
fn find_icon_last_entry_wins() {
    let t = small_table();
    assert_eq!(find_icon(&t.from_extension, "rs").map(|i| i.name), Some("Rust"));
    assert!(find_icon(&t.from_extension, "py").is_none());
    assert_eq!(icon("x", "Name").highlight_group(), "DevIconName");
}
