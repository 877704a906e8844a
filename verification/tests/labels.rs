use batch_hasher::labels::build_work_items;
use batch_hasher::labels::work_item_label;

#[test]
fn label_of_zero_is_zero_padded() {
    assert_eq!(work_item_label(0), "password_000000");
}

#[test]
fn label_keeps_digit_order() {
    assert_eq!(work_item_label(123), "password_000123");
    assert_eq!(work_item_label(999), "password_000999");
    assert_eq!(work_item_label(42), "password_000042");
}

#[test]
fn label_of_largest_index() {
    assert_eq!(work_item_label(999999), "password_999999");
}

#[test]
fn work_items_are_labeled_by_index() {
    let items = build_work_items(4);
    assert_eq!(items.len(), 4);
    assert_eq!(items[0], "password_000000");
    assert_eq!(items[1], "password_000001");
    assert_eq!(items[2], "password_000002");
    assert_eq!(items[3], "password_000003");
}

#[test]
fn empty_batch_has_no_items() {
    let items = build_work_items(0);
    assert_eq!(items.len(), 0);
}
