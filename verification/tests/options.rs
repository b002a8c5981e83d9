use neo_api_rs::api_types::{
    Anchor, AutoCmdGroup, BufferDeleteOpts, HLMode, KeymapOpts, PopupAlign, PopupBorder,
    PopupRelative, PopupStyle, TextType, VirtTextPos,
};
use neo_api_rs::fuzzy::HLText;
use neo_api_rs::options::{
    win_entries, AutoCmdConfig, CmdOptsMods, ExtmarkOpts, FileTypeMatch, HLOpts, OptionValue, WinConfig,
};

fn describe(entries: Vec<(&'static str, OptionValue)>) -> Vec<String> {
    entries
        .into_iter()
        .map(|(key, value)| match value {
            OptionValue::Bool(b) => format!("{key}={b}"),
            OptionValue::Integer(i) => format!("{key}={i}"),
            OptionValue::Text(t) => format!("{key}={t}"),
            OptionValue::Chunks(c) => {
                let parts: Vec<String> = c.iter().map(|h| format!("{}/{}", h.text, h.highlight)).collect();
                format!("{key}=[{}]", parts.join(","))
            }
            OptionValue::Texts(t) => format!("{key}=[{}]", t.join(",")),
        })
        .collect()
}

#[test]
fn extmark_entries_in_field_order() {
    let opts = ExtmarkOpts {
        id: Some(333),
        virt_text: Some(vec![HLText::new(" (1/2) ".to_string(), "Comment".to_string())]),
        virt_text_pos: Some(VirtTextPos::RightAlign),
        hl_mode: Some(HLMode::Combine),
        end_row: Some(-1),
        ..ExtmarkOpts::default()
    };
    assert_eq!(
        describe(opts.entries()),
        vec![
            "id=333",
            "end_row=-1",
            "hl_mode=combine",
            "virt_text=[ (1/2) /Comment]",
            "virt_text_pos=right_align"
        ]
    );
    assert!(ExtmarkOpts::default().entries().is_empty());
}

#[test]
fn keymap_and_delete_entries() {
    assert_eq!(describe(KeymapOpts::new(4, true).entries()), vec!["silent=true", "buffer=4"]);
    let none = KeymapOpts { silent: None, buffer: None };
    assert!(none.entries().is_empty());
    let del = BufferDeleteOpts { force: true, unload: false };
    assert_eq!(describe(del.entries()), vec!["force=true", "unload=false"]);
}

#[test]
fn filetype_match_entries() {
    let m = FileTypeMatch { buf: Some(3), filename: Some("a.rs".to_string()), contents: None };
    assert_eq!(describe(m.entries()), vec!["buf=3", "filename=a.rs"]);
    let c = FileTypeMatch { buf: None, filename: None, contents: Some(vec!["#!/bin/sh".to_string()]) };
    assert_eq!(describe(c.entries()), vec!["contents=[#!/bin/sh]"]);
}

#[test]
fn option_defaults() {
    let hl = HLOpts::default();
    assert!(hl.fg.is_none() && !hl.bold && !hl.force);
    let fg = HLOpts::with_fg("#ffffff".to_string());
    assert_eq!(fg.fg.as_deref(), Some("#ffffff"));
    assert!(fg.bg.is_none() && !fg.italic);
    let mods = CmdOptsMods::default();
    assert_eq!((mods.tab, mods.verbose), (-1, -1));
    assert_eq!(mods.split, "");
    assert!(!mods.silent && !mods.filter.force);
}

fn config(title: Option<TextType>, footer: Option<TextType>) -> WinConfig {
    WinConfig {
        width: Some(92),
        height: None,
        row: Some(2),
        col: None,
        relative: PopupRelative::Editor,
        anchor: Anchor::NorthWest,
        border: PopupBorder::Rounded,
        noautocmd: false,
        style: Some(PopupStyle::Minimal),
        focusable: None,
        title,
        title_pos: PopupAlign::Center,
        footer,
        footer_pos: PopupAlign::Right,
    }
}

#[test]
fn window_entries_with_defaults() {
    assert_eq!(
        describe(win_entries(config(None, None))),
        vec![
            "relative=editor",
            "width=92",
            "height=40",
            "row=2",
            "col=0",
            "anchor=NW",
            "border=rounded",
            "noautocmd=false",
            "style=minimal"
        ]
    );
}

#[test]
fn window_title_placement_only_with_title() {
    let with_title = describe(win_entries(config(Some(TextType::String(" Search ".to_string())), None)));
    assert_eq!(&with_title[9..], &["title= Search ".to_string(), "title_pos=center".to_string()]);
    let with_footer = describe(win_entries(config(
        None,
        Some(TextType::Tuples(vec![HLText::new("f".to_string(), "Comment".to_string())])),
    )));
    assert_eq!(&with_footer[9..], &["footer=[f/Comment]".to_string(), "footer_pos=right".to_string()]);
    assert!(!with_footer.iter().any(|e| e.starts_with("title")));
}

#[test]
fn autocmd_entries() {
    let c = AutoCmdConfig {
        group: Some(AutoCmdGroup::Integer(7)),
        pattern: vec![],
        buffer: Some(3),
        desc: None,
        once: true,
    };
    assert_eq!(describe(c.entries()), vec!["group=7", "buffer=3", "once=true"]);
    let n = AutoCmdConfig {
        group: Some(AutoCmdGroup::String("grp".to_string())),
        pattern: vec!["*.rs".to_string()],
        buffer: None,
        desc: Some("d".to_string()),
        once: false,
    };
    assert_eq!(describe(n.entries()), vec!["group=grp", "pattern=[*.rs]", "desc=d", "once=false"]);
}
