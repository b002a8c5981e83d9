use neo_api_rs::bridge::{BridgeError, NeoBridge};

#[test]
fn read_after_write() {
    let mut b: NeoBridge<u32> = NeoBridge::new();
    b.insert("a", 1);
    b.insert("b", 2);
    b.insert("a", 3);
    assert_eq!(b.borrow("a").ok(), Some(&3));
    assert_eq!(b.borrow("b").ok(), Some(&2));
    assert!(matches!(b.borrow("c"), Err(BridgeError::Missing)));
}

#[test]
fn consume_removes() {
    let mut b: NeoBridge<String> = NeoBridge::new();
    b.insert("k", "v".to_string());
    assert_eq!(b.consume("k").ok(), Some("v".to_string()));
    assert!(matches!(b.consume("k"), Err(BridgeError::Missing)));
    assert!(matches!(b.borrow("k"), Err(BridgeError::Missing)));
}
