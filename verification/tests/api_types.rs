use neo_api_rs::api_types::{
    Anchor, AutoCmd, AutoCmdEvent, CmdOpts, HLMode, KeymapOpts, LogLevel, Mode, NeoBuffer,
    NeoWindow, OpenIn, PopupAlign, PopupBorder, PopupLevel, PopupRelative, PopupSplit, PopupStyle,
    StdpathType, VirtTextPos, WinCursor,
};

#[test]
fn names_known_to_the_api() {
    assert_eq!(VirtTextPos::RightAlign.name(), "right_align");
    assert_eq!(HLMode::Combine.name(), "combine");
    assert_eq!(StdpathType::Data.name(), "data");
    assert_eq!(OpenIn::VSplit.command(), "vsplit");
    assert_eq!(OpenIn::Buffer.command(), "edit");
    assert_eq!(PopupRelative::Editor.name(), "editor");
    assert_eq!(Anchor::SouthEast.name(), "SE");
    assert_eq!(PopupStyle::Minimal.name(), "minimal");
    assert_eq!(PopupAlign::Center.name(), "center");
    assert_eq!(LogLevel::Trace.level(), 0);
    assert_eq!(LogLevel::Error.level(), 4);
    assert_eq!(LogLevel::Off.level(), 5);
    let _ = PopupSplit::Below.name();
    let _ = PopupLevel::Error.highlight();
}

#[test]
fn border_names() {
    assert_eq!(PopupBorder::NoBorder.name(), "none");
    assert_eq!(PopupBorder::Rounded.name(), "rounded");
    let custom = PopupBorder::Custom(vec!["+".to_string(), "-".to_string(), "+".to_string()]);
    assert_eq!(custom.name(), "+,-,+");
    assert_eq!(PopupBorder::Custom(vec![]).name(), "");
}

#[test]
fn mode_letters() {
    assert_eq!(Mode::Insert.get_char(), 'i');
    assert_eq!(Mode::Normal.get_str(), "n");
    assert_eq!(Mode::Visual.get_str(), "v");
    assert_eq!(Mode::Select.get_char(), 's');
}

#[test]
fn cursor_rows_round_trip() {
    let c = WinCursor::from_zero_indexed(4, 7);
    assert_eq!(c.row_one_indexed(), 5);
    assert_eq!(c.row_zero_indexed(), 4);
    assert_eq!(c.column, 7);
    let d = WinCursor::from_one_indexed(1, 0);
    assert_eq!(d.row_zero_indexed(), 0);
}

#[test]
fn handles_and_options() {
    assert_eq!(NeoWindow::current().id(), 0);
    assert_eq!(NeoBuffer::zero().id(), 0);
    assert_eq!(NeoBuffer::new(12).id(), 12);
    assert!(NeoBuffer::created(0).is_none());
    assert!(matches!(PopupBorder::default(), PopupBorder::NoBorder));
    assert_eq!(NeoBuffer::created(7).map(|b| b.id()), Some(7));
    assert_eq!(NeoWindow::new(3).id(), 3);
    assert_eq!(AutoCmd::new(8).id(), 8);
    let o = NeoBuffer::new(5).keymap_opts(true);
    assert_eq!((o.buffer, o.silent), (Some(5), Some(true)));
    let k = KeymapOpts::new(2, false);
    assert_eq!((k.buffer, k.silent), (Some(2), Some(false)));
    let cmd = CmdOpts::simple("write");
    assert_eq!(cmd.cmd, "write");
}

#[test]
fn event_names() {
    assert_eq!(AutoCmdEvent::TextChangedI.name(), "TextChangedI");
    assert_eq!(AutoCmdEvent::BufLeave.name(), "BufLeave");
}

#[test]
fn event_names_are_distinct_on_examples() {
    let events = [
        AutoCmdEvent::BufEnter,
        AutoCmdEvent::BufLeave,
        AutoCmdEvent::TextChangedI,
        AutoCmdEvent::TextChanged,
        AutoCmdEvent::VimLeave,
        AutoCmdEvent::VimLeavePre,
    ];
    for (i, a) in events.iter().enumerate() {
        for (j, b) in events.iter().enumerate() {
            assert_eq!(i == j, a.name() == b.name());
        }
    }
}
