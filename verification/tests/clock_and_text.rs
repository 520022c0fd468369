use api::clock::unix_epoch;
use api::models::{QuoteStatus, UpdatablePart};
use api::repositories::parts::part_update_plan;
use api::repositories::plans::PlanValue;
use api::repositories::quotations::DynamodbQuote;
use api::text::{split_exec, split_once_exec};

fn quote_item(lsi1_sk: &str) -> DynamodbQuote {
    DynamodbQuote {
        pk: "c1".to_string(),
        sk: "q1".to_string(),
        lsi1_sk: lsi1_sk.to_string(),
        lsi2_sk: "CREATED&p1".to_string(),
        name: "n".to_string(),
        updated_at: "u".to_string(),
    }
}

#[test]
fn creation_times_are_written_back_by_chrono() {
    let q = quote_item("p1&2024-03-05T10:20:30Z&q1").try_into().unwrap();
    assert_eq!(q.created_at, "2024-03-05T10:20:30+00:00");
    assert_eq!(q.status, QuoteStatus::Created);
    let q = quote_item("p1&2024-03-05T12:20:30+02:00&q1").try_into().unwrap();
    assert_eq!(q.created_at, "2024-03-05T10:20:30+00:00");
    assert_eq!(quote_item("p1&yesterday&q1").checked_try_into(), None);
}

#[test]
fn the_unix_epoch() {
    assert_eq!(unix_epoch(), "1970-01-01T00:00:00+00:00");
    assert_eq!(unix_epoch(), chrono::DateTime::<chrono::Utc>::UNIX_EPOCH.to_rfc3339());
}

#[test]
fn splitting_on_a_separator() {
    assert_eq!(split_exec("a&b&c", '&'), vec!["a", "b", "c"]);
    assert_eq!(split_exec("", '&'), vec![""]);
    assert_eq!(split_exec("&x&", '&'), vec!["", "x", ""]);
    assert_eq!(
        split_once_exec("PAYED&p1&q1", '&'),
        Some(("PAYED".to_string(), "p1&q1".to_string()))
    );
    assert_eq!(split_once_exec("no-separator", '&'), None);
}

#[test]
fn quantities_are_written_in_decimal() {
    for (quantity, text) in [(0u64, "0"), (1234, "1234"), (u64::MAX, "18446744073709551615")] {
        let plan = part_update_plan(
            UpdatablePart {
                id: "pt".to_string(),
                customer_id: "c".to_string(),
                drawing_file: None,
                process: None,
                attributes: None,
                quantity: Some(quantity),
                selected_part_quote_id: None,
                clear_part_quotes: None,
            },
            "now".to_string(),
        );
        assert_eq!(plan.expression_attribute_values[1], (":quantity".to_string(), PlanValue::N(text.to_string())));
    }
}
