use neo_api_rs::debug::NeoDebug;
use neo_api_rs::nui::{NuiDimension, NuiSize, NuiValue};

#[test]
fn nui_size_values() {
    match NuiSize::Percentage(50).to_value() {
        NuiValue::Text(t) => assert_eq!(t, "50%"),
        _ => panic!("a percentage is text"),
    }
    match NuiSize::Percentage(0).to_value() {
        NuiValue::Text(t) => assert_eq!(t, "0%"),
        _ => panic!("a percentage is text"),
    }
    match NuiSize::Fixed(30).to_value() {
        NuiValue::Integer(i) => assert_eq!(i, 30),
        _ => panic!("a fixed size is a number"),
    }
    let (x, y) = NuiDimension::XandY(NuiSize::Fixed(3)).pair();
    assert!(x == NuiSize::Fixed(3) && y == NuiSize::Fixed(3));
    let (x, y) = NuiDimension::XorY(NuiSize::Fixed(1), NuiSize::Percentage(2)).pair();
    assert!(x == NuiSize::Fixed(1) && y == NuiSize::Percentage(2));
}

#[test]
fn debug_log_place_and_lines() {
    assert_eq!(NeoDebug::log_dir("/tmp"), "/tmp/neo-api-log");
    assert_eq!(NeoDebug::log_file("/tmp/"), "/tmp/neo-api-log/debug.log");
    assert_eq!(NeoDebug::entry("hello"), "hello\n");
    let log = format!("{}{}", NeoDebug::entry("one"), NeoDebug::entry("two"));
    assert_eq!(NeoDebug::display_lines(&log), vec!["one", "two"]);
}
