use api::error::Error;
use api::models::{
    Address, BatchDeletePartObject, BatchDeleteQuotationObject, Date, File, Order, OrderStatus,
    Part, PartQuote, Project, Quotation, QuoteStatus, UpdatablePart, Currency, Money,
};
use api::repositories::keys::append_attribute;
use api::repositories::orders::{
    checked_orders_from_items,
    orders_from_items, orders_query_plan, project_quote_part_prefix, DynamodbOrder, OrdersQuery,
    QueryBy as OrdersQueryBy,
};
use api::repositories::parts::{
    checked_parts_from_items,
    part_batch_delete_keys, part_batch_get_keys, part_update_plan, parts_from_items,
    parts_query_plan, parts_to_items, transaction_create_part_quotes, DynamodbPart,
};
use api::repositories::plans::{read_failure_error, DeleteFailure, PlanValue, ReadFailure};
use api::repositories::projects::{
    checked_projects_from_items,
    project_delete_error, project_delete_plan, projects_from_items, projects_query_plan,
    DynamodbProject, ProjectsQuery, TableIndex,
};
use api::repositories::quotations::{
    checked_quotations_from_items,
    quotation_batch_delete_keys, quotation_delete_error, quotation_delete_plan,
    quotation_update_plan, quotations_from_items, quotations_query_plan, DynamodbQuote, QueryBy,
    QuotationsQuery,
};

const T0: &str = "2024-02-03T04:05:06+00:00";
const NOW: &str = "2024-06-01T00:00:00+00:00";

fn s(v: &str) -> PlanValue {
    PlanValue::S(v.to_string())
}

fn values(pairs: &[(&str, PlanValue)]) -> Vec<(String, PlanValue)> {
    pairs.iter().map(|(n, v)| (n.to_string(), v.clone())).collect()
}

fn quotation() -> Quotation {
    Quotation {
        id: "q1".to_string(),
        customer_id: "c1".to_string(),
        project_id: "p1".to_string(),
        name: "Brackets".to_string(),
        status: QuoteStatus::PendingReview,
        created_at: T0.to_string(),
        updated_at: NOW.to_string(),
    }
}

#[test]
fn attributes_are_joined_with_ampersands() {
    assert_eq!(append_attribute("a".to_string(), "b"), "a&b");
    assert_eq!(append_attribute(String::new(), ""), "&");
}

#[test]
fn quotation_items_round_trip() {
    let item = DynamodbQuote::from(quotation());
    assert_eq!(item.pk, "c1");
    assert_eq!(item.sk, "q1");
    assert_eq!(item.lsi1_sk, format!("p1&{T0}&q1"));
    assert_eq!(item.lsi2_sk, format!("PENDING_REVIEW&p1&{T0}&q1"));
    assert_eq!(item.clone().try_into(), Ok(quotation()));
    assert_eq!(item.checked_try_into(), Some(Ok(quotation())));
}

#[test]
fn unreadable_quotation_items() {
    let mut item = DynamodbQuote::from(quotation());
    item.lsi1_sk = "p1&q1".to_string();
    assert_eq!(item.clone().try_into(), Err(Error::UnknownError));
    item.lsi1_sk = format!("p1&{T0}&q1");
    item.lsi2_sk = "NOT_A_STATUS&p1".to_string();
    assert_eq!(item.clone().try_into(), Err(Error::UnknownError));
    item.lsi1_sk = "p1&not a time&q1".to_string();
    assert_eq!(item.checked_try_into(), None);
}

#[test]
fn a_page_of_quotation_items() {
    let mut other = quotation();
    other.id = "q2".to_string();
    let items = vec![DynamodbQuote::from(quotation()), DynamodbQuote::from(other.clone())];
    assert_eq!(quotations_from_items(items), Ok(vec![quotation(), other]));
    let mut bad = DynamodbQuote::from(quotation());
    bad.lsi2_sk = "X".to_string();
    assert_eq!(
        quotations_from_items(vec![DynamodbQuote::from(quotation()), bad]),
        Err(Error::UnknownError)
    );
}

fn quotations_query(query_by: QueryBy) -> QuotationsQuery {
    QuotationsQuery {
        customer_id: Some("c1".to_string()),
        project_id: Some("p1".to_string()),
        from: None,
        to: None,
        status: None,
        query_by,
        limit: 100,
        cursor: Some("cur".to_string()),
    }
}

#[test]
fn quotations_of_a_project_by_creation_time() {
    let plan = quotations_query_plan(quotations_query(QueryBy::Customer), NOW.to_string()).unwrap();
    assert_eq!(plan.index_name, "LSI1_ProjectAndCreationDateTime");
    assert_eq!(
        plan.key_condition_expression,
        "pk = :customer_id AND lsi1_sk BETWEEN :lower_bound AND :upper_bound"
    );
    assert_eq!(
        plan.expression_attribute_values,
        values(&[
            (":customer_id", s("c1")),
            (":lower_bound", s("p1&1970-01-01T00:00:00+00:00")),
            (":upper_bound", s(&format!("p1&{NOW}"))),
        ])
    );
    assert_eq!(plan.limit, 100);
    assert_eq!(plan.cursor, Some("cur".to_string()));
    assert_eq!(plan.scan_index_forward, Some(false));
}

#[test]
fn quotations_by_status_and_pending_review() {
    let mut q = quotations_query(QueryBy::Customer);
    q.status = Some(QuoteStatus::Payed);
    let plan = quotations_query_plan(q, NOW.to_string()).unwrap();
    assert_eq!(plan.index_name, "GSI1_QuoteStatus");
    assert_eq!(
        plan.expression_attribute_values,
        values(&[(":customer_id", s("c1")), (":prefix", s("PAYED&p1"))])
    );
    let plan = quotations_query_plan(quotations_query(QueryBy::IsPendingReview), NOW.to_string())
        .unwrap();
    assert_eq!(plan.index_name, "GSI2_QuoteIsPendingReview");
    assert_eq!(plan.key_condition_expression, "gsi2_pk = :isPendingReview");
    assert_eq!(plan.expression_attribute_values, values(&[(":isPendingReview", PlanValue::Bool(true))]));
}

#[test]
fn quotations_queries_name_their_missing_parameter() {
    let mut q = quotations_query(QueryBy::Customer);
    q.customer_id = None;
    assert_eq!(
        quotations_query_plan(q, NOW.to_string()),
        Err(Error::MissingRequiredParameter("customer_id".to_string()))
    );
    let mut q = quotations_query(QueryBy::Customer);
    q.project_id = None;
    assert_eq!(
        quotations_query_plan(q, NOW.to_string()),
        Err(Error::MissingRequiredParameter("project_id".to_string()))
    );
}

#[test]
fn quotation_updates_and_deletes() {
    let plan = quotation_update_plan(
        "c1".to_string(),
        "p1".to_string(),
        "q1".to_string(),
        Some(QuoteStatus::PendingReview),
        NOW.to_string(),
    );
    assert_eq!(plan.pk, "c1");
    assert_eq!(plan.sk, "q1");
    assert_eq!(plan.update_expression, "SET updated_at = :updated_at, #gsi1_sk = :gsi1_sk");
    assert_eq!(
        plan.condition_expression,
        Some("NOT begins_with(gsi1_sk, :payedStatus)".to_string())
    );
    assert_eq!(
        plan.expression_attribute_values,
        values(&[
            (":updated_at", s(NOW)),
            (":payedStatus", s("PAYED")),
            (":gsi1_sk", s("PENDING_REVIEW&p1&q1")),
        ])
    );
    let plan = quotation_update_plan("c1".to_string(), "p1".to_string(), "q1".to_string(), None, NOW.to_string());
    assert_eq!(plan.update_expression, "SET updated_at = :updated_at");
    assert_eq!(plan.expression_attribute_values.len(), 2);

    let delete = quotation_delete_plan("c1".to_string(), "q1".to_string());
    assert_eq!(delete.condition_expression, "NOT begins_with(gsi1_sk, :payedStatus)");
    assert_eq!(delete.expression_attribute_values, values(&[(":payedStatus", s("PAYED"))]));
    assert_eq!(quotation_delete_error(DeleteFailure::ConditionalCheckFailed), Error::DeletePayedQuotation);
    assert_eq!(quotation_delete_error(DeleteFailure::RequestFailed), Error::UnknownError);
    let keys = quotation_batch_delete_keys(vec![BatchDeleteQuotationObject {
        quotation_id: "q9".to_string(),
        customer_id: "c9".to_string(),
    }]);
    assert_eq!(keys.len(), 1);
    assert_eq!(keys[0].pk, "c9");
    assert_eq!(keys[0].sk, "q9");
}

#[test]
fn read_failures() {
    assert_eq!(read_failure_error(ReadFailure::NoItem), Error::ItemNotFoundError);
    assert_eq!(read_failure_error(ReadFailure::Undecodable), Error::UnknownError);
    assert_eq!(read_failure_error(ReadFailure::RequestFailed), Error::UnknownError);
}

fn order(status: OrderStatus) -> Order {
    Order {
        id: "o1".to_string(),
        customer_id: "c1".to_string(),
        project_id: "p1".to_string(),
        quotation_id: "q1".to_string(),
        part_id: "pt1".to_string(),
        part_quote_id: "pq1".to_string(),
        deadline: Date::new(739000),
        status,
        shipping_recipient_name: "Ana".to_string(),
        shipping_address: Address {
            line1: "Av. Reforma 1".to_string(),
            line2: None,
            city: "CDMX".to_string(),
            state: "CDMX".to_string(),
            postal_code: "06600".to_string(),
            country: "MX".to_string(),
        },
        created_at: T0.to_string(),
        updated_at: NOW.to_string(),
    }
}

#[test]
fn order_items_round_trip() {
    let item = DynamodbOrder::from(order(OrderStatus::Open));
    assert_eq!(item.lsi1_sk, format!("{T0}&o1"));
    assert_eq!(item.lsi2_sk, "p1&q1&pt1&o1");
    assert_eq!(item.gsi1_sk, format!("OPEN&{T0}&o1"));
    assert_eq!(item.gsi2_pk, Some("true".to_string()));
    assert_eq!(item.gsi2_sk, format!("{T0}&o1"));
    assert_eq!(item.update_at, NOW);
    assert_eq!(item.try_into(), Ok(order(OrderStatus::Open)));
    let closed = DynamodbOrder::from(order(OrderStatus::Closed));
    assert_eq!(closed.gsi2_pk, None);
    assert_eq!(closed.clone().checked_try_into(), Some(Ok(order(OrderStatus::Closed))));
    assert_eq!(orders_from_items(vec![closed]), Ok(vec![order(OrderStatus::Closed)]));
}

fn orders_query() -> OrdersQuery {
    OrdersQuery {
        customer_id: Some("c1".to_string()),
        project_id: None,
        quote_id: None,
        part_id: None,
        status: None,
        from: Some("2024-01-01T00:00:00+00:00".to_string()),
        to: None,
        query_by: OrdersQueryBy::Customer,
        cursor: None,
        limit: 25,
    }
}

#[test]
fn orders_queries() {
    let plan = orders_query_plan(orders_query(), NOW.to_string()).unwrap();
    assert_eq!(plan.index_name, "LSI1_CreationDateTime");
    assert_eq!(
        plan.expression_attribute_values,
        values(&[
            (":customer_id", s("c1")),
            (":lower_bound", s("2024-01-01T00:00:00+00:00")),
            (":upper_bound", s(NOW)),
        ])
    );
    assert_eq!(plan.limit, 25);
    let mut q = orders_query();
    q.status = Some(OrderStatus::Open);
    let plan = orders_query_plan(q, NOW.to_string()).unwrap();
    assert_eq!(plan.index_name, "GSI1_OrderStatus");
    assert_eq!(plan.expression_attribute_values, values(&[(":customer_id", s("c1")), (":prefix", s("OPEN"))]));
    let mut q = orders_query();
    q.project_id = Some("p1".to_string());
    q.quote_id = Some("q1".to_string());
    let plan = orders_query_plan(q, NOW.to_string()).unwrap();
    assert_eq!(plan.index_name, "LSI2_ProjectAndQuoteAndPart");
    assert_eq!(plan.key_condition_expression, "begins_with(lsi2_sk, :lsi2_sk)");
    assert_eq!(plan.expression_attribute_values, values(&[(":lsi2_sk", s("p1&q1"))]));
    let mut q = orders_query();
    q.query_by = OrdersQueryBy::IsOpen;
    q.customer_id = None;
    let plan = orders_query_plan(q, NOW.to_string()).unwrap();
    assert_eq!(plan.index_name, "GSI1_OrderIsOpen");
    assert_eq!(plan.expression_attribute_values, values(&[(":is_open", s("true"))]));
    let mut q = orders_query();
    q.customer_id = None;
    assert_eq!(
        orders_query_plan(q, NOW.to_string()),
        Err(Error::MissingRequiredParameter("customer_id".to_string()))
    );
}

#[test]
fn order_prefixes() {
    assert_eq!(project_quote_part_prefix("p".to_string(), None, None), "p");
    assert_eq!(project_quote_part_prefix("p".to_string(), None, Some("x".to_string())), "p");
    assert_eq!(project_quote_part_prefix("p".to_string(), Some("q".to_string()), None), "p&q");
    assert_eq!(
        project_quote_part_prefix("p".to_string(), Some("q".to_string()), Some("x".to_string())),
        "p&q&x"
    );
}

fn part() -> Part {
    Part {
        id: "pt1".to_string(),
        customer_id: "c1".to_string(),
        project_id: "p1".to_string(),
        quotation_id: "q1".to_string(),
        model_file: File { name: "m.step".to_string(), key: "k/m.step".to_string() },
        render_file: Some(File { name: "r.png".to_string(), key: "k/r.png".to_string() }),
        drawing_file: None,
        process: "CNC".to_string(),
        attributes: "{}".to_string(),
        quantity: 4,
        selected_part_quote_id: None,
        part_quotes: None,
        created_at: T0.to_string(),
        updated_at: NOW.to_string(),
    }
}

#[test]
fn part_items_round_trip() {
    let items = parts_to_items(vec![part()]);
    assert_eq!(items.len(), 1);
    assert_eq!(items[0].lsi1_sk, format!("q1&{T0}&pt1"));
    assert_eq!(items[0].clone().try_into(), Ok(part()));
    assert_eq!(DynamodbPart::from(part()).checked_try_into(), Some(Ok(part())));
    assert_eq!(parts_from_items(items), Ok(vec![part()]));
    let mut bad = DynamodbPart::from(part());
    bad.lsi1_sk = "q1".to_string();
    assert_eq!(bad.try_into(), Err(Error::UnknownError));
}

#[test]
fn part_queries_and_keys() {
    let plan = parts_query_plan("c1".to_string(), "q1".to_string(), None, 100);
    assert_eq!(plan.index_name, "LSI1_QuoteAndCreationDateTime");
    assert_eq!(plan.key_condition_expression, "pk = :customer_id AND begins_with(lsi1_sk, :quotation_id)");
    assert_eq!(plan.expression_attribute_values, values(&[(":customer_id", s("c1")), (":quotation_id", s("q1"))]));
    assert_eq!(plan.scan_index_forward, None);
    let keys = part_batch_delete_keys(vec![BatchDeletePartObject {
        customer_id: "c1".to_string(),
        part_id: "pt1".to_string(),
    }]);
    assert_eq!((keys[0].pk.as_str(), keys[0].sk.as_str()), ("c1", "pt1"));
    let keys = part_batch_get_keys(vec![("c2".to_string(), "pt2".to_string())]);
    assert_eq!((keys[0].pk.as_str(), keys[0].sk.as_str()), ("c2", "pt2"));
}

#[test]
fn part_updates() {
    let update = UpdatablePart {
        id: "pt1".to_string(),
        customer_id: "c1".to_string(),
        drawing_file: None,
        process: Some("3D printing".to_string()),
        attributes: None,
        quantity: Some(12),
        selected_part_quote_id: None,
        clear_part_quotes: Some(true),
    };
    let plan = part_update_plan(update, NOW.to_string());
    assert_eq!(plan.pk, "c1");
    assert_eq!(plan.sk, "pt1");
    assert_eq!(plan.condition_expression, None);
    assert_eq!(
        plan.update_expression,
        "SET updated_at = :updated_at, process = :process, quantity = :quantity, \
         selected_part_quote_id = :selected_part_quote_id, part_quotes = :part_quotes"
    );
    assert_eq!(
        plan.expression_attribute_values,
        values(&[
            (":updated_at", s(NOW)),
            (":process", s("3D printing")),
            (":quantity", PlanValue::N("12".to_string())),
            (":selected_part_quote_id", PlanValue::Null),
            (":part_quotes", PlanValue::Null),
        ])
    );
    let quotes = vec![PartQuote {
        id: "pq1".to_string(),
        part_id: "pt1".to_string(),
        unit_price: Money { amount: 5, currency: Currency::MXN },
        sub_total: Money { amount: 20, currency: Currency::MXN },
    }];
    let plan = transaction_create_part_quotes("c1".to_string(), "pt1".to_string(), "pq1".to_string(), quotes.clone());
    assert_eq!(plan.pk, "c1");
    assert_eq!(plan.sk, "pt1");
    assert_eq!(
        plan.update_expression,
        "SET part_quotes = :part_quotes, selected_part_quote_id = :selected_part_quote_id"
    );
}

fn project() -> Project {
    Project {
        id: "p1".to_string(),
        customer_id: "c1".to_string(),
        name: "Drone".to_string(),
        is_locked: false,
        created_at: T0.to_string(),
        updated_at: NOW.to_string(),
    }
}

#[test]
fn project_items_round_trip() {
    let item = DynamodbProject::from(project());
    assert_eq!(item.lsi1_sk, format!("{T0}&p1"));
    assert_eq!(item.lsi2_sk, "Drone&p1");
    assert_eq!(item.clone().try_into(), Ok(project()));
    assert_eq!(item.clone().checked_try_into(), Some(Ok(project())));
    assert_eq!(projects_from_items(vec![item]), Ok(vec![project()]));
}

#[test]
fn projects_queries_and_deletes() {
    let q = ProjectsQuery {
        customer_id: "c1".to_string(),
        from: None,
        to: Some(NOW.to_string()),
        name: None,
        cursor: None,
        limit: 10,
    };
    let plan = projects_query_plan(q.clone(), "ignored".to_string());
    assert_eq!(plan.index_name, "LSI1_CreationTimestamp");
    assert_eq!(
        plan.expression_attribute_values,
        values(&[
            (":customer_id", s("c1")),
            (":lower_bound", s("1970-01-01T00:00:00+00:00")),
            (":upper_bound", s(NOW)),
        ])
    );
    let mut by_name = q;
    by_name.name = Some("Dro".to_string());
    let plan = projects_query_plan(by_name, NOW.to_string());
    assert_eq!(plan.index_name, "LSI2_ProjectName");
    assert_eq!(plan.key_condition_expression, "pk = :customer_id AND begins_with(lsi2_sk, :name)");
    assert_eq!(plan.expression_attribute_values, values(&[(":customer_id", s("c1")), (":name", s("Dro"))]));
    assert_eq!(TableIndex::LSI1CreationTimestamp.to_string(), "LSI1_CreationTimestamp");
    let delete = project_delete_plan("c1".to_string(), "p1".to_string());
    assert_eq!(delete.condition_expression, "is_locked <> :is_locked");
    assert_eq!(delete.expression_attribute_values, values(&[(":is_locked", PlanValue::Bool(true))]));
    assert_eq!(project_delete_error(DeleteFailure::ConditionalCheckFailed), Error::DeleteLockedProject);
    assert_eq!(project_delete_error(DeleteFailure::OtherServiceError), Error::UnknownError);
}

#[test]
fn checked_pages_refuse_unreadable_items() {
    let good = DynamodbQuote::from(quotation());
    let mut bad_time = DynamodbQuote::from(quotation());
    bad_time.lsi1_sk = "p1&not a time&q1".to_string();
    assert_eq!(checked_quotations_from_items(vec![good.clone()]), Some(Ok(vec![quotation()])));
    assert_eq!(checked_quotations_from_items(vec![good, bad_time]), None);
    assert_eq!(checked_quotations_from_items(vec![]), Some(Ok(vec![])));

    let mut bad_part = DynamodbPart::from(part());
    bad_part.lsi1_sk = "q1&yesterday&pt1".to_string();
    assert_eq!(checked_parts_from_items(vec![bad_part]), None);
    assert_eq!(checked_parts_from_items(vec![DynamodbPart::from(part())]), Some(Ok(vec![part()])));

    let mut bad_project = DynamodbProject::from(project());
    bad_project.lsi1_sk = "then&p1".to_string();
    assert_eq!(checked_projects_from_items(vec![bad_project]), None);

    let mut bad_order = DynamodbOrder::from(order(OrderStatus::Open));
    bad_order.gsi1_sk = "OPEN&soon&o1".to_string();
    assert_eq!(checked_orders_from_items(vec![bad_order]), None);
    let mut unknown_status = DynamodbOrder::from(order(OrderStatus::Open));
    unknown_status.gsi1_sk = format!("LOST&{T0}&o1");
    assert_eq!(checked_orders_from_items(vec![unknown_status]), Some(Err(Error::UnknownError)));
}
