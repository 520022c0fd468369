use api::error::Error;
use api::models::{File, Identity, MetadataPublic, Part, QueryResponse, Quotation, QuoteStatus};
use api::repositories::quotations::QueryBy;
use api::usecases::{
    AdminQueryQuotationsByStatus, AdminQueryQuotationsByStatusInput,
    AdminQueryQuotationsByStatusResponse, CreateQuotation, CreateQuotationInput, DeleteQuotation,
    GetQuotation, GetQuotationSubtotal, QueryQuotationsByProject, QueryQuotationsForProjectInput,
    QueryQuotationsForProjectResponse, SendForReview, SendForReviewInput, UpdateQuotation,
    CASCADE_PAGE_LIMIT, QUERY_LIMIT, pdf_quote_availability,
};
use std::sync::Arc;

fn identity() -> Identity {
    Identity {
        id: "c1".to_string(),
        email: "c1@example.com".to_string(),
        metadata_public: MetadataPublic { stripe_customer_id: None },
    }
}

fn file(key: &str) -> File {
    File { name: key.to_string(), key: key.to_string() }
}

fn part(id: &str, render: Option<&str>, drawing: Option<&str>) -> Part {
    Part {
        id: id.to_string(),
        customer_id: "c1".to_string(),
        project_id: "p1".to_string(),
        quotation_id: "q1".to_string(),
        model_file: file(&format!("{id}/model")),
        render_file: render.map(file),
        drawing_file: drawing.map(file),
        process: String::new(),
        attributes: String::new(),
        quantity: 1,
        selected_part_quote_id: None,
        part_quotes: None,
        created_at: String::new(),
        updated_at: String::new(),
    }
}

#[test]
fn page_sizes() {
    assert_eq!(QUERY_LIMIT, 100);
    assert_eq!(CASCADE_PAGE_LIMIT, 25);
}

#[test]
fn constructors_keep_their_repositories() {
    let q = Arc::new(1u8);
    let p = Arc::new(2u8);
    let o = Arc::new(3u8);
    assert_eq!(*CreateQuotation::new(q.clone()).quotations_repository, 1);
    assert_eq!(*GetQuotation::new(q.clone()).quotations_repository, 1);
    assert_eq!(*QueryQuotationsByProject::new(q.clone()).quotations_repository, 1);
    assert_eq!(*AdminQueryQuotationsByStatus::new(q.clone()).quotations_repository, 1);
    let s = GetQuotationSubtotal::new(p.clone(), q.clone());
    assert_eq!((*s.parts_repository, *s.quotations_repository), (2, 1));
    let d = DeleteQuotation::new(q.clone(), p.clone(), o.clone());
    assert_eq!((*d.quotations_repository, *d.parts_repository, *d.object_storage), (1, 2, 3));
    let u = UpdateQuotation::new(q.clone(), p.clone());
    assert_eq!((*u.quotations_repository, *u.parts_repository), (1, 2));
    let r = SendForReview::new(q, p, o);
    assert_eq!((*r.quotations_repository, *r.parts_repository, *r.emailer_service), (1, 2, 3));
}

#[test]
fn created_quotations() {
    let input = CreateQuotationInput {
        identity: identity(),
        project_id: "p1".to_string(),
        quotation_name: "First".to_string(),
    };
    let q = CreateQuotation::<()>::quotation_to_create(input, "q7".to_string(), "2024-01-01T00:00:00+00:00".to_string());
    assert_eq!(
        q,
        Quotation {
            id: "q7".to_string(),
            customer_id: "c1".to_string(),
            project_id: "p1".to_string(),
            name: "First".to_string(),
            status: QuoteStatus::Created,
            created_at: "2024-01-01T00:00:00+00:00".to_string(),
            updated_at: "2024-01-01T00:00:00+00:00".to_string(),
        }
    );
}

#[test]
fn queries_of_the_use_cases() {
    let q = QueryQuotationsByProject::<()>::query_for(QueryQuotationsForProjectInput {
        identity: identity(),
        project_id: "p1".to_string(),
    });
    assert_eq!(q.customer_id, Some("c1".to_string()));
    assert_eq!(q.project_id, Some("p1".to_string()));
    assert_eq!(q.query_by, QueryBy::Customer);
    assert_eq!(q.limit, 100);
    assert_eq!(q.status, None);
    let q = AdminQueryQuotationsByStatus::<()>::query_for(AdminQueryQuotationsByStatusInput {
        status: QuoteStatus::PendingReview,
    });
    assert_eq!(q.customer_id, None);
    assert_eq!(q.status, Some(QuoteStatus::PendingReview));
    assert_eq!(q.query_by, QueryBy::IsPendingReview);
    assert_eq!(q.limit, 100);
}

#[test]
fn responses_wrap_the_quotations() {
    let r = QueryQuotationsForProjectResponse::new(vec![]);
    assert!(r.quotations.is_empty());
    let r = AdminQueryQuotationsByStatusResponse::new(vec![]);
    assert!(r.quotations.is_empty());
}

#[test]
fn subtotals_only_once_pending_payment() {
    assert!(GetQuotationSubtotal::<(), ()>::needs_parts(QuoteStatus::PendingPayment));
    assert!(!GetQuotationSubtotal::<(), ()>::needs_parts(QuoteStatus::Created));
    assert!(!GetQuotationSubtotal::<(), ()>::needs_parts(QuoteStatus::PendingReview));
    assert!(!GetQuotationSubtotal::<(), ()>::needs_parts(QuoteStatus::Payed));
}

type Delete = DeleteQuotation<(), (), ()>;

#[test]
fn files_of_parts_to_delete() {
    let parts = vec![part("a", Some("a/render"), None), part("b", None, Some("b/drawing"))];
    assert_eq!(
        Delete::associated_object_keys(&parts),
        vec!["a/model", "a/render", "b/model", "b/drawing"]
    );
    let objects = Delete::batch_delete_objects(&parts);
    assert_eq!(objects.len(), 2);
    assert_eq!(objects[1].part_id, "b");
    assert_eq!(objects[1].customer_id, "c1");
}

#[test]
fn cascade_steps() {
    let step = Delete::cascade_step(Err(Error::UnknownError));
    assert!(step.deletes.is_none());
    assert_eq!(step.next_cursor, None);
    let step = Delete::cascade_step(Ok(QueryResponse { data: vec![], cursor: Some("c".to_string()) }));
    assert!(step.deletes.is_none());
    assert_eq!(step.next_cursor, None);
    let step = Delete::cascade_step(Ok(QueryResponse {
        data: vec![part("a", None, None)],
        cursor: Some("next".to_string()),
    }));
    let (objects, keys) = step.deletes.unwrap();
    assert_eq!(objects.len(), 1);
    assert_eq!(keys, vec!["a/model"]);
    assert_eq!(step.next_cursor, Some("next".to_string()));
    let step = Delete::cascade_step(Ok(QueryResponse { data: vec![part("b", None, None)], cursor: None }));
    assert!(step.deletes.is_some());
    assert_eq!(step.next_cursor, None);
}

#[test]
fn review_notice() {
    let input = SendForReviewInput {
        identity: identity(),
        project_id: "p1".to_string(),
        quotation_id: "q1".to_string(),
    };
    let (subject, body) = SendForReview::<(), (), ()>::review_email(&input);
    assert_eq!(subject, "A quote needs review");
    assert_eq!(body, "Customer with id c1 sent the quote with id q1 for review.");
}

#[test]
fn pdf_quotes_before_payment_are_refused() {
    assert_eq!(pdf_quote_availability(QuoteStatus::Created), Err(Error::NoPdfQuoteAvailable));
    assert_eq!(pdf_quote_availability(QuoteStatus::PendingReview), Err(Error::NoPdfQuoteAvailable));
    assert_eq!(pdf_quote_availability(QuoteStatus::PendingPayment), Ok(()));
    assert_eq!(pdf_quote_availability(QuoteStatus::Payed), Ok(()));
}
