use api::client_quotations::{client_project_key_exec, ClientQuotation, DynamodbQuotationItem};

#[test]
fn client_quotations_are_keyed_by_client_and_project() {
    let q = ClientQuotation {
        id: "q1".to_string(),
        client_id: "client-1".to_string(),
        project_id: "project-1".to_string(),
        created_at: "t0".to_string(),
        updated_at: "t1".to_string(),
    };
    let item = DynamodbQuotationItem::from(q.clone());
    assert_eq!(item.client_id_and_project_id, "client-1#project-1");
    assert_eq!(item.id, "q1");
    assert_eq!(item.into(), q);
    assert_eq!(client_project_key_exec("a".to_string(), "b"), "a#b");
}
