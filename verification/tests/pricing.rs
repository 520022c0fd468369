use api::models::{Currency, File, Money, Part, PartQuote};
use api::pricing::{
    calculate_subtotal_of_selected_quotes, checked_subtotal_of_selected_quotes, checkout_metadata, checkout_success_url,
    finalize_quote_path, generate_quote_line_items, has_selected_quote,
    line_items_from_parts_data, new_quote, quote_pdf_url, to_stripe_currency, StripeCurrency,
};
use api::usecases::GetQuotationSubtotal;
use std::sync::Arc;

fn money(amount: i64, currency: Currency) -> Money {
    Money { amount, currency }
}

fn quote(id: &str, part_id: &str, unit: i64, sub_total: i64, currency: Currency) -> PartQuote {
    PartQuote {
        id: id.to_string(),
        part_id: part_id.to_string(),
        unit_price: money(unit, currency.clone()),
        sub_total: money(sub_total, currency),
    }
}

fn part(id: &str, quantity: u64, selected: Option<&str>, quotes: Option<Vec<PartQuote>>) -> Part {
    Part {
        id: id.to_string(),
        customer_id: "c1".to_string(),
        project_id: "p1".to_string(),
        quotation_id: "q1".to_string(),
        model_file: File { name: format!("{id}.step"), key: format!("models/{id}.step") },
        render_file: None,
        drawing_file: None,
        process: "CNC".to_string(),
        attributes: "aluminium 6061".to_string(),
        quantity,
        selected_part_quote_id: selected.map(|s| s.to_string()),
        part_quotes: quotes,
        created_at: "2024-01-01T00:00:00+00:00".to_string(),
        updated_at: "2024-01-01T00:00:00+00:00".to_string(),
    }
}

fn sample_parts() -> Vec<Part> {
    vec![
        part(
            "part-1",
            10,
            Some("pq-2"),
            Some(vec![
                quote("pq-1", "part-1", 100, 1000, Currency::MXN),
                quote("pq-2", "part-1", 90, 900, Currency::MXN),
            ]),
        ),
        part("part-2", 3, Some("pq-3"), Some(vec![quote("pq-3", "part-2", 50, 150, Currency::USD)])),
    ]
}

#[test]
fn subtotal_sums_the_selected_quotes() {
    let total = calculate_subtotal_of_selected_quotes(sample_parts());
    assert_eq!(total.amount, 1050);
    assert_eq!(total.currency, Currency::MXN);
    let empty = calculate_subtotal_of_selected_quotes(vec![]);
    assert_eq!(empty.amount, 0);
}

#[test]
fn subtotal_through_the_use_case() {
    let use_case = GetQuotationSubtotal::new(Arc::new(()), Arc::new(()));
    let total = use_case.calculate_quotation_subtotal(sample_parts());
    assert_eq!(total, money(1050, Currency::MXN));
    let response = use_case.respond(sample_parts());
    assert_eq!(response.quotation_subtotal, Some(money(1050, Currency::MXN)));
}

#[test]
fn first_matching_quote_is_the_selected_one() {
    let parts = vec![part(
        "part-9",
        1,
        Some("dup"),
        Some(vec![
            quote("dup", "part-9", 1, 7, Currency::MXN),
            quote("dup", "part-9", 1, 1000, Currency::MXN),
        ]),
    )];
    assert_eq!(calculate_subtotal_of_selected_quotes(parts).amount, 7);
}

#[test]
fn parts_without_a_matching_quote_have_no_selection() {
    assert!(has_selected_quote(&sample_parts()[0]));
    assert!(!has_selected_quote(&part("x", 1, None, Some(vec![]))));
    assert!(!has_selected_quote(&part("x", 1, Some("a"), None)));
    assert!(!has_selected_quote(&part(
        "x",
        1,
        Some("a"),
        Some(vec![quote("b", "x", 1, 1, Currency::MXN)])
    )));
}

#[test]
fn stripe_currencies() {
    assert_eq!(to_stripe_currency(&Currency::MXN), StripeCurrency::MXN);
    assert_eq!(to_stripe_currency(&Currency::USD), StripeCurrency::USD);
    assert_eq!(to_stripe_currency(&Currency::Other("EUR".to_string())), StripeCurrency::USD);
}

#[test]
fn quote_lines_use_the_selected_subtotal() {
    let items = generate_quote_line_items(sample_parts());
    assert_eq!(items.len(), 2);
    assert_eq!(items[0].price_data.currency, StripeCurrency::MXN);
    assert_eq!(items[0].price_data.product, "part-1");
    assert_eq!(items[0].price_data.unit_amount, 900);
    assert_eq!(items[0].quantity, 10);
    assert_eq!(items[1].price_data.currency, StripeCurrency::USD);
    assert_eq!(items[1].price_data.unit_amount, 150);
    assert_eq!(items[1].quantity, 3);
}

#[test]
fn checkout_lines_use_the_selected_unit_price() {
    let items = line_items_from_parts_data(&sample_parts());
    assert_eq!(items.len(), 2);
    assert_eq!(items[0].currency, StripeCurrency::MXN);
    assert_eq!(items[0].name, "part-1.step");
    assert_eq!(items[0].description, "aluminium 6061");
    assert_eq!(items[0].unit_amount, 90);
    assert_eq!(items[0].quantity, 10);
    assert_eq!(items[1].unit_amount, 50);
    assert_eq!(items[1].currency, StripeCurrency::USD);
}

#[test]
fn stripe_requests() {
    let q = new_quote("cus_1".to_string(), generate_quote_line_items(sample_parts()));
    assert_eq!(q.customer, "cus_1");
    assert_eq!(q.line_items.len(), 2);
    assert_eq!(finalize_quote_path("qt_123"), "quotes/qt_123/finalize");
    assert_eq!(quote_pdf_url("qt_123"), "https://files.stripe.com/v1/quotes/qt_123/pdf");
    assert_eq!(checkout_success_url("https://app.example.com"), "https://app.example.com/orders");
    assert_eq!(
        checkout_metadata("c1".to_string(), "p1".to_string(), "q1".to_string()),
        vec![
            ("customer_id".to_string(), "c1".to_string()),
            ("project_id".to_string(), "p1".to_string()),
            ("quotation_id".to_string(), "q1".to_string()),
        ]
    );
}

#[test]
fn checked_subtotal_refuses_what_cannot_be_summed() {
    assert_eq!(checked_subtotal_of_selected_quotes(sample_parts()), Some(money(1050, Currency::MXN)));
    assert_eq!(checked_subtotal_of_selected_quotes(vec![]), Some(money(0, Currency::MXN)));
    let mut unselected = sample_parts();
    unselected.push(part("part-3", 1, None, Some(vec![])));
    assert_eq!(checked_subtotal_of_selected_quotes(unselected), None);
    let huge = vec![
        part("a", 1, Some("x"), Some(vec![quote("x", "a", 1, i64::MAX, Currency::MXN)])),
        part("b", 1, Some("y"), Some(vec![quote("y", "b", 1, 1, Currency::MXN)])),
    ];
    assert_eq!(checked_subtotal_of_selected_quotes(huge), None);
    let negative_then_back = vec![
        part("a", 1, Some("x"), Some(vec![quote("x", "a", 1, i64::MIN, Currency::MXN)])),
        part("b", 1, Some("y"), Some(vec![quote("y", "b", 1, 5, Currency::MXN)])),
    ];
    assert_eq!(checked_subtotal_of_selected_quotes(negative_then_back), Some(money(i64::MIN + 5, Currency::MXN)));
}
