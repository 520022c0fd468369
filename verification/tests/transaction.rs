use api::transaction::{DynamodbTransaction, Transaction};

#[test]
fn items_are_executed_last_added_first() {
    let mut t = DynamodbTransaction::new("client");
    t.add_item(1);
    t.add_items(vec![2, 3]);
    t.add_item(4);
    assert_eq!(*t.client(), "client");
    assert_eq!(t.take_items_for_execution(), vec![4, 3, 2, 1]);
    assert_eq!(t.take_items_for_execution(), Vec::<i32>::new());
}
