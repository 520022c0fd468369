//! The use cases of quotations: what each asks of the repositories and services, and
//! what it answers, given what they returned. The calls themselves are made by the
//! service around this crate.

use std::sync::Arc;
use vstd::prelude::*;
use crate::error::Error;
use crate::models::{BatchDeletePartObject, Identity, Money, Part, PartView, ProjectId, QueryResponse, QuoteId, QuoteStatus, Quotation, parts_view};
use crate::pricing::{
    all_selected, calculate_subtotal_of_selected_quotes, selected_subtotal_sum, sums_fit,
};
use crate::repositories::quotations::{QueryBy, QuotationsQuery};

verus! {

/// Page size of the quotation and part queries of the use cases.
pub const QUERY_LIMIT: i32 = 100;

/// Page size of the part queries when a quotation's parts are deleted.
pub const CASCADE_PAGE_LIMIT: i32 = 25;

/// Input of quotation creation.
#[derive(Debug, Clone, PartialEq, Eq)]
pub struct CreateQuotationInput {
    pub identity: Identity,
    pub project_id: ProjectId,
    pub quotation_name: String,
}

/// Input of the query of a project's quotations.
#[derive(Debug, Clone, PartialEq, Eq)]
pub struct QueryQuotationsForProjectInput {
    pub identity: Identity,
    pub project_id: ProjectId,
}

/// Input of reading one quotation.
#[derive(Debug, Clone, PartialEq, Eq)]
pub struct GetQuotationByIdInput {
    pub identity: Identity,
    pub quotation_id: QuoteId,
}

/// Input of reading a quotation's subtotal.
#[derive(Debug, Clone, PartialEq, Eq)]
pub struct GetQuotationSubtotalInput {
    pub identity: Identity,
    pub quotation_id: QuoteId,
}

/// Input of deleting a quotation.
#[derive(Debug, Clone, PartialEq, Eq)]
pub struct DeleteQuotationInput {
    pub identity: Identity,
    pub quotation_id: QuoteId,
}

/// Input of sending a quotation for review.
#[derive(Debug, Clone, PartialEq, Eq)]
pub struct UpdateQuotationInput {
    pub identity: Identity,
    pub project_id: ProjectId,
    pub quotation_id: QuoteId,
}

/// Input of sending a quotation for review, with a notice to the administrators.
#[derive(Debug, Clone, PartialEq, Eq)]
pub struct SendForReviewInput {
    pub identity: Identity,
    pub project_id: ProjectId,
    pub quotation_id: QuoteId,
}

/// Input of downloading a quote as PDF.
#[derive(Debug, Clone, PartialEq, Eq)]
pub struct DownloadQuotePdfInput {
    pub identity: Identity,
    pub quotation_id: QuoteId,
}

/// Input of the administrators' query of quotations by status.
#[derive(Debug, Clone, Copy, PartialEq, Eq)]
pub struct AdminQueryQuotationsByStatusInput {
    pub status: QuoteStatus,
}

/// Body of a quotation creation request.
#[derive(Debug, Clone, PartialEq, Eq)]
pub struct CreateQuotationRequest {
    pub quotation_name: String,
}

/// Body of a request to send a quotation for review.
#[derive(Debug, Clone, PartialEq, Eq)]
pub struct SendQuotationForReviewRequest {
    pub project_id: String,
    pub quotation_id: String,
}

/// Query parameters of the administrators' query of quotations.
#[derive(Debug, Clone, Copy, PartialEq, Eq)]
pub struct AdminQueryQuotationsByStatusQueryParams {
    pub status: QuoteStatus,
}

/// The quotations of a project.
#[derive(Debug, Clone, PartialEq, Eq)]
pub struct QueryQuotationsForProjectResponse {
    pub quotations: Vec<Quotation>,
}

impl QueryQuotationsForProjectResponse {
    pub fn new(quotations: Vec<Quotation>) -> (r: Self)
        ensures
            r.quotations == quotations,
    {
        QueryQuotationsForProjectResponse { quotations }
    }
}

/// The quotations with a given status.
#[derive(Debug, Clone, PartialEq, Eq)]
pub struct AdminQueryQuotationsByStatusResponse {
    pub quotations: Vec<Quotation>,
}

impl AdminQueryQuotationsByStatusResponse {
    pub fn new(quotations: Vec<Quotation>) -> (r: Self)
        ensures
            r.quotations == quotations,
    {
        AdminQueryQuotationsByStatusResponse { quotations }
    }
}

/// The subtotal of a quotation, known once the quotation awaits payment.
#[derive(Debug, Clone, PartialEq, Eq)]
pub struct GetQuotationSubtotalResponse {
    pub quotation_subtotal: Option<Money>,
}

// ---------------------------------------------------------------- create

/// Creates a quotation for a customer's project.
pub struct CreateQuotation<Q> {
    pub quotations_repository: Arc<Q>,
}

impl<Q> CreateQuotation<Q> {
    pub fn new(quotations_repository: Arc<Q>) -> (u: Self)
        ensures
            u.quotations_repository == quotations_repository,
    {
        CreateQuotation { quotations_repository }
    }

    /// The quotation to store: new, with the id and time given, for the customer's project.
    pub fn quotation_to_create(input: CreateQuotationInput, id: QuoteId, now: String) -> (q: Quotation)
        ensures
            q.id == id,
            q.customer_id == input.identity.id,
            q.project_id == input.project_id,
            q.name == input.quotation_name,
            q.status == QuoteStatus::Created,
            q.created_at@ == now@,
            q.updated_at@ == now@,
    {
        Quotation::new(id, input.identity.id, input.project_id, input.quotation_name, now)
    }
}

// ---------------------------------------------------------------- read

/// Reads one of the customer's quotations.
pub struct GetQuotation<Q> {
    pub quotations_repository: Arc<Q>,
}

impl<Q> GetQuotation<Q> {
    pub fn new(quotations_repository: Arc<Q>) -> (u: Self)
        ensures
            u.quotations_repository == quotations_repository,
    {
        GetQuotation { quotations_repository }
    }
}

/// Queries the quotations of a customer's project.
pub struct QueryQuotationsByProject<Q> {
    pub quotations_repository: Arc<Q>,
}

impl<Q> QueryQuotationsByProject<Q> {
    pub fn new(quotations_repository: Arc<Q>) -> (u: Self)
        ensures
            u.quotations_repository == quotations_repository,
    {
        QueryQuotationsByProject { quotations_repository }
    }

    /// The customer's quotations of the project, newest first, one page of at most 100.
    pub fn query_for(input: QueryQuotationsForProjectInput) -> (q: QuotationsQuery)
        ensures
            q.customer_id == Some(input.identity.id),
            q.project_id == Some(input.project_id),
            q.from is None,
            q.to is None,
            q.status is None,
            q.query_by == QueryBy::Customer,
            q.limit == QUERY_LIMIT,
            q.cursor is None,
    {
        QuotationsQuery {
            customer_id: Some(input.identity.id),
            project_id: Some(input.project_id),
            from: None,
            to: None,
            status: None,
            query_by: QueryBy::Customer,
            limit: QUERY_LIMIT,
            cursor: None,
        }
    }
}

/// Queries the quotations awaiting review, for administrators.
pub struct AdminQueryQuotationsByStatus<Q> {
    pub quotations_repository: Arc<Q>,
}

impl<Q> AdminQueryQuotationsByStatus<Q> {
    pub fn new(quotations_repository: Arc<Q>) -> (u: Self)
        ensures
            u.quotations_repository == quotations_repository,
    {
        AdminQueryQuotationsByStatus { quotations_repository }
    }

    /// The quotations pending review, one page of at most 100; the status given is
    /// passed on, though the pending-review index does not look at it.
    pub fn query_for(input: AdminQueryQuotationsByStatusInput) -> (q: QuotationsQuery)
        ensures
            q.customer_id is None,
            q.project_id is None,
            q.from is None,
            q.to is None,
            q.status == Some(input.status),
            q.query_by == QueryBy::IsPendingReview,
            q.limit == QUERY_LIMIT,
            q.cursor is None,
    {
        QuotationsQuery {
            customer_id: None,
            project_id: None,
            from: None,
            to: None,
            status: Some(input.status),
            query_by: QueryBy::IsPendingReview,
            limit: QUERY_LIMIT,
            cursor: None,
        }
    }
}

// ---------------------------------------------------------------- subtotal

/// Reads the subtotal of a quotation.
pub struct GetQuotationSubtotal<Q, P> {
    pub parts_repository: Arc<P>,
    pub quotations_repository: Arc<Q>,
}

/// A quotation has a subtotal once it awaits payment.
pub open spec fn has_subtotal(status: QuoteStatus) -> bool {
    status == QuoteStatus::PendingPayment
}

impl<Q, P> GetQuotationSubtotal<Q, P> {
    pub fn new(parts_repository: Arc<P>, quotations_repository: Arc<Q>) -> (u: Self)
        ensures
            u.parts_repository == parts_repository,
            u.quotations_repository == quotations_repository,
    {
        GetQuotationSubtotal { parts_repository, quotations_repository }
    }

    /// Whether the subtotal is computed for a quotation in this status; if not, the
    /// answer is no subtotal, and no parts are read.
    pub fn needs_parts(status: QuoteStatus) -> (b: bool)
        ensures
            b == has_subtotal(status),
    {
        match status {
            QuoteStatus::PendingPayment => true,
            _ => false,
        }
    }

    /// The subtotal of the quotation's parts: the sum of the subtotals of the quotes the
    /// customer selected. Every part must have a selected quote and every running sum
    /// must fit in an `i64`.
    pub fn calculate_quotation_subtotal(&self, parts: Vec<Part>) -> (m: Money)
        requires
            all_selected(parts_view(parts@)),
            sums_fit(parts_view(parts@)),
        ensures
            m.amount == selected_subtotal_sum(parts_view(parts@)),
            m.currency == crate::models::Currency::MXN,
    {
        calculate_subtotal_of_selected_quotes(parts)
    }

    /// The answer for a quotation awaiting payment, given its parts.
    pub fn respond(&self, parts: Vec<Part>) -> (r: GetQuotationSubtotalResponse)
        requires
            all_selected(parts_view(parts@)),
            sums_fit(parts_view(parts@)),
        ensures
            r.quotation_subtotal is Some,
            r.quotation_subtotal->0.amount == selected_subtotal_sum(parts_view(parts@)),
            r.quotation_subtotal->0.currency == crate::models::Currency::MXN,
    {
        GetQuotationSubtotalResponse { quotation_subtotal: Some(self.calculate_quotation_subtotal(parts)) }
    }
}

// ---------------------------------------------------------------- delete

/// Deletes a quotation, then its parts and their files.
pub struct DeleteQuotation<Q, P, O> {
    pub quotations_repository: Arc<Q>,
    pub parts_repository: Arc<P>,
    pub object_storage: Arc<O>,
}

/// The keys of the stored files of the parts, in order: for each part its model, then
/// its render and drawing where it has them.
pub open spec fn associated_keys(parts: Seq<PartView>) -> Seq<Seq<char>>
    decreases parts.len(),
{
    if parts.len() == 0 {
        Seq::empty()
    } else {
        let p = parts.last();
        associated_keys(parts.drop_last()) + seq![p.model_file.key] + (match p.render_file {
            Some(f) => seq![f.key],
            None => Seq::empty(),
        }) + (match p.drawing_file {
            Some(f) => seq![f.key],
            None => Seq::empty(),
        })
    }
}

/// How many files the parts have stored: a model each, and a render and a drawing where
/// they have them.
pub open spec fn stored_file_count(parts: Seq<PartView>) -> nat
    decreases parts.len(),
{
    if parts.len() == 0 {
        0
    } else {
        let p = parts.last();
        stored_file_count(parts.drop_last()) + 1 + (if p.render_file is Some { 1nat } else { 0nat })
            + (if p.drawing_file is Some { 1nat } else { 0nat })
    }
}

/// Every stored file of every part is among the keys deleted with the parts (its model,
/// its render if it has one, its drawing if it has one, whether or not it also has a
/// render), and nothing else: one key per stored file.
pub proof fn lemma_associated_keys_complete(parts: Seq<PartView>)
    ensures
        associated_keys(parts).len() == stored_file_count(parts),
        forall|i: int|
            0 <= i < parts.len() ==> associated_keys(parts).contains(#[trigger] parts[i].model_file.key),
        forall|i: int|
            0 <= i < parts.len() && (#[trigger] parts[i]).render_file is Some
                ==> associated_keys(parts).contains(parts[i].render_file->0.key),
        forall|i: int|
            0 <= i < parts.len() && (#[trigger] parts[i]).drawing_file is Some
                ==> associated_keys(parts).contains(parts[i].drawing_file->0.key),
    decreases parts.len(),
{
    if parts.len() > 0 {
        let init = parts.drop_last();
        let p = parts.last();
        lemma_associated_keys_complete(init);
        let a = associated_keys(init);
        let r: Seq<Seq<char>> = match p.render_file {
            Some(f) => seq![f.key],
            None => Seq::empty(),
        };
        let d: Seq<Seq<char>> = match p.drawing_file {
            Some(f) => seq![f.key],
            None => Seq::empty(),
        };
        let all = associated_keys(parts);
        assert(all == a + seq![p.model_file.key] + r + d);
        assert forall|x: Seq<char>| a.contains(x) implies all.contains(x) by {
            let k = choose|k: int| 0 <= k < a.len() && a[k] == x;
            assert(all[k] == x);
        }
        assert(all[a.len() as int] == p.model_file.key);
        if p.render_file is Some {
            assert(all[a.len() + 1int] == p.render_file->0.key);
        }
        if p.drawing_file is Some {
            assert(all[(a.len() + 1 + r.len()) as int] == p.drawing_file->0.key);
        }
        assert forall|i: int| 0 <= i < parts.len() implies all.contains(
            #[trigger] parts[i].model_file.key,
        ) by {
            if i < init.len() {
                assert(init[i] == parts[i]);
                assert(a.contains(init[i].model_file.key));
            }
        }
        assert forall|i: int|
            0 <= i < parts.len() && (#[trigger] parts[i]).render_file is Some implies all.contains(
                parts[i].render_file->0.key,
            ) by {
            if i < init.len() {
                assert(init[i] == parts[i]);
                assert(a.contains(init[i].render_file->0.key));
            }
        }
        assert forall|i: int|
            0 <= i < parts.len() && (#[trigger] parts[i]).drawing_file is Some implies all.contains(
                parts[i].drawing_file->0.key,
            ) by {
            if i < init.len() {
                assert(init[i] == parts[i]);
                assert(a.contains(init[i].drawing_file->0.key));
            }
        }
    }
}

/// What a step of the cascade delete does: delete a page of parts and their files, and
/// where to continue.
pub struct CascadeStep {
    /// The parts to delete in a batch, and the keys of their files; none for an empty or failed page.
    pub deletes: Option<(Vec<BatchDeletePartObject>, Vec<String>)>,
    /// The cursor of the next page; `None` ends the cascade.
    pub next_cursor: Option<String>,
}

/// The step deletes the page's parts, in order, and their files, and goes on at the page's cursor.
pub open spec fn deletes_page(step: CascadeStep, page: QueryResponse<Vec<Part>, String>) -> bool {
    &&& step.deletes is Some
    &&& (step.deletes->0).0.len() == page.data.len()
    &&& forall|i: int|
        0 <= i < page.data.len() ==> #[trigger] (step.deletes->0).0[i].customer_id
            == page.data[i].customer_id && (step.deletes->0).0[i].part_id == page.data[i].id
    &&& (step.deletes->0).1@.map_values(|k: String| k@) == associated_keys(parts_view(page.data@))
    &&& step.next_cursor == page.cursor
}

/// A failed query or an empty page ends the cascade with nothing deleted; any other
/// page is deleted.
pub open spec fn is_cascade_step(result: Result<QueryResponse<Vec<Part>, String>, Error>, step: CascadeStep) -> bool {
    match result {
        Err(_) => step.deletes is None && step.next_cursor is None,
        Ok(page) => if page.data.len() == 0 {
            step.deletes is None && step.next_cursor is None
        } else {
            deletes_page(step, page)
        },
    }
}

impl<Q, P, O> DeleteQuotation<Q, P, O> {
    pub fn new(quotations_repository: Arc<Q>, parts_repository: Arc<P>, object_storage: Arc<O>) -> (u: Self)
        ensures
            u.quotations_repository == quotations_repository,
            u.parts_repository == parts_repository,
            u.object_storage == object_storage,
    {
        DeleteQuotation { quotations_repository, parts_repository, object_storage }
    }

    /// The parts to delete in a batch: each part's customer and id, in order.
    pub fn batch_delete_objects(parts: &Vec<Part>) -> (objects: Vec<BatchDeletePartObject>)
        ensures
            objects.len() == parts.len(),
            forall|i: int|
                0 <= i < parts.len() ==> #[trigger] objects[i].customer_id == parts[i].customer_id
                    && objects[i].part_id == parts[i].id,
    {
        let mut objects: Vec<BatchDeletePartObject> = Vec::new();
        let mut i: usize = 0;
        while i < parts.len()
            invariant
                i <= parts.len(),
                objects.len() == i,
                forall|k: int|
                    0 <= k < i ==> #[trigger] objects[k].customer_id == parts[k].customer_id
                        && objects[k].part_id == parts[k].id,
            decreases parts.len() - i,
        {
            objects.push(
                BatchDeletePartObject {
                    customer_id: parts[i].customer_id.clone(),
                    part_id: parts[i].id.clone(),
                },
            );
            i = i + 1;
        }
        objects
    }

    /// The object storage keys of the parts' model, render and drawing files.
    pub fn associated_object_keys(parts: &Vec<Part>) -> (keys: Vec<String>)
        ensures
            keys@.map_values(|k: String| k@) == associated_keys(parts_view(parts@)),
            keys.len() == stored_file_count(parts_view(parts@)),
            forall|i: int|
                0 <= i < parts.len() ==> keys@.map_values(|k: String| k@).contains(
                    #[trigger] parts[i].model_file.key@,
                ),
            forall|i: int|
                0 <= i < parts.len() && (#[trigger] parts[i]).render_file is Some
                    ==> keys@.map_values(|k: String| k@).contains(parts[i].render_file->0.key@),
            forall|i: int|
                0 <= i < parts.len() && (#[trigger] parts[i]).drawing_file is Some
                    ==> keys@.map_values(|k: String| k@).contains(parts[i].drawing_file->0.key@),
    {
        let mut keys: Vec<String> = Vec::new();
        let mut i: usize = 0;
        proof {
            assert(parts_view(parts@).take(0) =~= Seq::<PartView>::empty());
            assert(keys@.map_values(|k: String| k@) =~= Seq::<Seq<char>>::empty());
        }
        while i < parts.len()
            invariant
                i <= parts.len(),
                keys@.map_values(|k: String| k@) == associated_keys(parts_view(parts@).take(i as int)),
            decreases parts.len() - i,
        {
            let part = &parts[i];
            let ghost before = keys@.map_values(|k: String| k@);
            keys.push(part.model_file.key.clone());
            let ghost after_model = keys@.map_values(|k: String| k@);
            proof {
                assert(after_model =~= before + seq![part.model_file.key@]);
            }
            match &part.render_file {
                Some(f) => {
                    keys.push(f.key.clone());
                },
                None => {},
            }
            let ghost after_render = keys@.map_values(|k: String| k@);
            proof {
                assert(after_render =~= after_model + match part@.render_file {
                    Some(f) => seq![f.key],
                    None => Seq::<Seq<char>>::empty(),
                });
            }
            match &part.drawing_file {
                Some(f) => {
                    keys.push(f.key.clone());
                },
                None => {},
            }
            proof {
                assert(keys@.map_values(|k: String| k@) =~= after_render + match part@.drawing_file {
                    Some(f) => seq![f.key],
                    None => Seq::<Seq<char>>::empty(),
                });
                let pv = parts_view(parts@);
                assert(pv.take(i + 1).drop_last() =~= pv.take(i as int));
                assert(pv.take(i + 1).last() == part@);
            }
            i = i + 1;
        }
        proof {
            let pv = parts_view(parts@);
            assert(pv.take(parts.len() as int) =~= pv);
            lemma_associated_keys_complete(pv);
            assert forall|i: int| 0 <= i < parts.len() implies keys@.map_values(|k: String| k@).contains(
                #[trigger] parts[i].model_file.key@,
            ) by {
                assert(pv[i] == parts[i]@);
                assert(associated_keys(pv).contains(pv[i].model_file.key));
            }
            assert forall|i: int|
                0 <= i < parts.len() && (#[trigger] parts[i]).render_file is Some implies keys@.map_values(
                    |k: String| k@,
                ).contains(parts[i].render_file->0.key@) by {
                assert(pv[i] == parts[i]@);
                assert(pv[i].render_file is Some);
                assert(associated_keys(pv).contains(pv[i].render_file->0.key));
            }
            assert forall|i: int|
                0 <= i < parts.len() && (#[trigger] parts[i]).drawing_file is Some implies keys@.map_values(
                    |k: String| k@,
                ).contains(parts[i].drawing_file->0.key@) by {
                assert(pv[i] == parts[i]@);
                assert(pv[i].drawing_file is Some);
                assert(associated_keys(pv).contains(pv[i].drawing_file->0.key));
            }
        }
        keys
    }

    /// One step of deleting a quotation's parts, given the page of parts just queried: a
    /// failed query or an empty page ends the cascade; otherwise the page's parts and
    /// their files are deleted and the cascade goes on at the page's cursor, if any.
    pub fn cascade_step(result: Result<QueryResponse<Vec<Part>, String>, Error>) -> (step: CascadeStep)
        ensures
            is_cascade_step(result, step),
            (result is Err || result->Ok_0.data.len() == 0) ==> step.deletes is None
                && step.next_cursor is None,
            (result is Ok && result->Ok_0.data.len() > 0) ==> step.deletes is Some
                && step.next_cursor == result->Ok_0.cursor
                && (step.deletes->0).0.len() == result->Ok_0.data.len()
                && (step.deletes->0).1.len() == stored_file_count(parts_view(result->Ok_0.data@)),
            forall|i: int|
                #![trigger result->Ok_0.data[i]]
                result is Ok && 0 <= i < result->Ok_0.data.len() ==> {
                    let part = result->Ok_0.data[i];
                    let keys = (step.deletes->0).1@.map_values(|k: String| k@);
                    &&& (step.deletes->0).0[i].customer_id == part.customer_id
                    &&& (step.deletes->0).0[i].part_id == part.id
                    &&& keys.contains(part.model_file.key@)
                    &&& (part.render_file matches Some(f) ==> keys.contains(f.key@))
                    &&& (part.drawing_file matches Some(f) ==> keys.contains(f.key@))
                },
    {
        match result {
            Err(_) => CascadeStep { deletes: None, next_cursor: None },
            Ok(page) => {
                if page.data.len() == 0 {
                    CascadeStep { deletes: None, next_cursor: None }
                } else {
                    let objects = Self::batch_delete_objects(&page.data);
                    let keys = Self::associated_object_keys(&page.data);
                    CascadeStep { deletes: Some((objects, keys)), next_cursor: page.cursor }
                }
            },
        }
    }
}

// ---------------------------------------------------------------- review

/// Sends a quotation for review.
pub struct UpdateQuotation<Q, P> {
    pub quotations_repository: Arc<Q>,
    pub parts_repository: Arc<P>,
}

impl<Q, P> UpdateQuotation<Q, P> {
    pub fn new(quotations_repository: Arc<Q>, parts_repository: Arc<P>) -> (u: Self)
        ensures
            u.quotations_repository == quotations_repository,
            u.parts_repository == parts_repository,
    {
        UpdateQuotation { quotations_repository, parts_repository }
    }
}

/// Sends a quotation for review and tells the administrators.
pub struct SendForReview<Q, P, E> {
    pub quotations_repository: Arc<Q>,
    pub parts_repository: Arc<P>,
    pub emailer_service: Arc<E>,
}

/// Subject of the notice sent to the administrators.
pub open spec fn review_subject() -> Seq<char> {
    "A quote needs review"@
}

/// Body of the notice sent to the administrators.
pub open spec fn review_message(customer_id: Seq<char>, quotation_id: Seq<char>) -> Seq<char> {
    "Customer with id "@ + customer_id + " sent the quote with id "@ + quotation_id + " for review."@
}

impl<Q, P, E> SendForReview<Q, P, E> {
    pub fn new(quotations_repository: Arc<Q>, parts_repository: Arc<P>, emailer_service: Arc<E>) -> (u: Self)
        ensures
            u.quotations_repository == quotations_repository,
            u.parts_repository == parts_repository,
            u.emailer_service == emailer_service,
    {
        SendForReview { quotations_repository, parts_repository, emailer_service }
    }

    /// The subject and body of the notice to the administrators.
    pub fn review_email(input: &SendForReviewInput) -> (r: (String, String))
        ensures
            r.0@ == review_subject(),
            r.1@ == review_message(input.identity.id@, input.quotation_id@),
    {
        let subject = String::from_str("A quote needs review");
        let body = String::from_str("Customer with id ").concat(input.identity.id.as_str()).concat(
            " sent the quote with id ",
        ).concat(input.quotation_id.as_str()).concat(" for review.");
        (subject, body)
    }
}

/// A quote can be downloaded as PDF once it awaits payment or is payed.
pub fn is_valid_quote_status(status: QuoteStatus) -> (b: bool)
    ensures
        b == (status == QuoteStatus::PendingPayment || status == QuoteStatus::Payed),
{
    match status {
        QuoteStatus::PendingPayment => true,
        QuoteStatus::Payed => true,
        _ => false,
    }
}

/// Whether a quote can be downloaded as PDF: refused, as no PDF being available, before
/// it awaits payment.
pub fn pdf_quote_availability(status: QuoteStatus) -> (r: Result<(), Error>)
    ensures
        r is Ok <==> (status == QuoteStatus::PendingPayment || status == QuoteStatus::Payed),
        r is Err ==> r == Err::<(), Error>(Error::NoPdfQuoteAvailable),
{
    if is_valid_quote_status(status) {
        Ok(())
    } else {
        Err(Error::NoPdfQuoteAvailable)
    }
}

} // verus!
