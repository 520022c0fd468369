use api::models::{Currency, File, Money, OrderStatus, Quotation, QuoteStatus};
use api::usecases::is_valid_quote_status;

#[test]
fn quote_status_names_round_trip() {
    let all = [
        (QuoteStatus::Created, "CREATED"),
        (QuoteStatus::PendingReview, "PENDING_REVIEW"),
        (QuoteStatus::PendingPayment, "PENDING_PAYMENT"),
        (QuoteStatus::Payed, "PAYED"),
    ];
    for (status, name) in all {
        assert_eq!(status.to_string(), name);
        assert_eq!(QuoteStatus::parse(name), Some(status));
        assert_eq!(QuoteStatus::parse(&status.to_string()), Some(status));
    }
    assert_eq!(QuoteStatus::parse("created"), None);
    assert_eq!(QuoteStatus::parse(""), None);
    assert_eq!(QuoteStatus::parse("PAID"), None);
}

#[test]
fn order_status_names_round_trip() {
    assert_eq!(OrderStatus::Open.to_string(), "OPEN");
    assert_eq!(OrderStatus::Closed.to_string(), "CLOSED");
    assert_eq!(OrderStatus::parse("OPEN"), Some(OrderStatus::Open));
    assert_eq!(OrderStatus::parse("CLOSED"), Some(OrderStatus::Closed));
    assert_eq!(OrderStatus::parse("Open"), None);
}

#[test]
fn new_quotation_is_created_now() {
    let q = Quotation::new(
        "q1".to_string(),
        "c1".to_string(),
        "p1".to_string(),
        "Brackets".to_string(),
        "2024-05-01T10:00:00+00:00".to_string(),
    );
    assert_eq!(q.id, "q1");
    assert_eq!(q.customer_id, "c1");
    assert_eq!(q.project_id, "p1");
    assert_eq!(q.name, "Brackets");
    assert_eq!(q.status, QuoteStatus::Created);
    assert_eq!(q.created_at, "2024-05-01T10:00:00+00:00");
    assert_eq!(q.updated_at, "2024-05-01T10:00:00+00:00");
}

#[test]
fn file_new_keeps_name_and_key() {
    let f = File::new("model.step".to_string(), "customers/c1/model.step".to_string());
    assert_eq!(f.name, "model.step");
    assert_eq!(f.key, "customers/c1/model.step");
}

#[test]
fn money_defaults_to_zero_pesos() {
    let m = Money::default();
    assert_eq!(m.amount, 0);
    assert_eq!(m.currency, Currency::MXN);
}

#[test]
fn pdf_quotes_need_pending_payment_or_payed() {
    assert!(!is_valid_quote_status(QuoteStatus::Created));
    assert!(!is_valid_quote_status(QuoteStatus::PendingReview));
    assert!(is_valid_quote_status(QuoteStatus::PendingPayment));
    assert!(is_valid_quote_status(QuoteStatus::Payed));
}
