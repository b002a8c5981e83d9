use neo_api_rs::callback::CallBackQueue;

#[test]
fn callbacks_come_out_in_order() {
    let mut q: CallBackQueue<&str> = CallBackQueue::new();
    assert!(q.is_empty());
    q.push("first");
    q.push("second");
    assert_eq!(q.pop_front(), Some("first"));
    q.push("third");
    assert_eq!(q.pop_front(), Some("second"));
    assert_eq!(q.pop_front(), Some("third"));
    assert_eq!(q.pop_front(), None);
    assert!(q.is_empty());
}
