//! The quotations table: items, queries, updates and deletes.
use vstd::prelude::*;
use crate::clock::{canonical_rfc3339, rfc3339_canonical};
use crate::error::Error;
use crate::clock::{unix_epoch, unix_epoch_rfc3339};
use crate::models::{
    BatchDeleteQuotationObject, CustomerId, ProjectId, QuoteId, QuoteStatus, Quotation,
    QuotationView, opt_string_view,
};
use crate::repositories::plans::{
    DeleteFailure, DeletePlan, ItemKey, PlanValue, PlanValueView, QueryPlan, UpdatePlan,
    one_value, opt_or, s_value, three_values, two_values, values_view,
};
use crate::repositories::keys::{append_attribute, is_canonical_time, key2, key3, key4, lemma_split_key3, lemma_split_once_key, lemma_status_names_sep_free, sep, sep_free};
use crate::text::{split, split_exec, split_once, split_once_exec};

verus! {


/// A quotation as stored: `lsi1_sk` is `project_id&created_at&quote_id`,
/// `lsi2_sk` is `status&project_id&created_at&quote_id`.
#[derive(Debug, Clone, PartialEq, Eq)]
pub struct DynamodbQuote {
    pub pk: CustomerId,
    pub sk: QuoteId,
    pub lsi1_sk: String,
    pub lsi2_sk: String,
    pub name: String,
    pub updated_at: String,
}

pub struct DynamodbQuoteView {
    pub pk: Seq<char>,
    pub sk: Seq<char>,
    pub lsi1_sk: Seq<char>,
    pub lsi2_sk: Seq<char>,
    pub name: Seq<char>,
    pub updated_at: Seq<char>,
}

impl View for DynamodbQuote {
    type V = DynamodbQuoteView;

    open spec fn view(&self) -> DynamodbQuoteView {
        DynamodbQuoteView {
            pk: self.pk@,
            sk: self.sk@,
            lsi1_sk: self.lsi1_sk@,
            lsi2_sk: self.lsi2_sk@,
            name: self.name@,
            updated_at: self.updated_at@,
        }
    }
}

/// The item stored for a quotation.
pub open spec fn quote_item(q: QuotationView) -> DynamodbQuoteView {
    DynamodbQuoteView {
        pk: q.customer_id,
        sk: q.id,
        lsi1_sk: key3(q.project_id, q.created_at, q.id),
        lsi2_sk: key4(q.status.name(), q.project_id, q.created_at, q.id),
        name: q.name,
        updated_at: q.updated_at,
    }
}

/// Reading the item panics where `lsi1_sk` has three attributes and the second is no time.
pub open spec fn quote_item_readable(item: DynamodbQuoteView) -> bool {
    let p = split(item.lsi1_sk, sep());
    p.len() == 3 ==> rfc3339_canonical(p[1]) is Some
}

/// The quotation read from an item; every missing or unreadable attribute is an unknown error.
pub open spec fn quote_from_item(item: DynamodbQuoteView) -> Result<QuotationView, Error> {
    let p = split(item.lsi1_sk, sep());
    let status = match split_once(item.lsi2_sk, sep()) {
        Some(parts) => QuoteStatus::from_name(parts.0),
        None => None,
    };
    if p.len() == 3 && status is Some {
        Ok(
            QuotationView {
                id: item.sk,
                customer_id: item.pk,
                project_id: p[0],
                name: item.name,
                status: status->0,
                created_at: rfc3339_canonical(p[1])->0,
                updated_at: item.updated_at,
            },
        )
    } else {
        Err(Error::UnknownError)
    }
}

pub open spec fn quotation_result_view(r: Result<Quotation, Error>) -> Result<QuotationView, Error> {
    match r {
        Ok(q) => Ok(q@),
        Err(e) => Err(e),
    }
}

/// A quotation's item holds its customer, id, name and time of update unchanged, under the
/// keys `project_id&created_at&id` and `status&project_id&created_at&id`; reading an item
/// gives back its id, customer, name and time of update unchanged.
pub proof fn lemma_quotations_item_fields(p: QuotationView, item: DynamodbQuoteView)
    ensures
        quote_item(p).pk == p.customer_id,
        quote_item(p).sk == p.id,
        quote_item(p).name == p.name,
        quote_item(p).updated_at == p.updated_at,
        quote_item(p).lsi1_sk == (p.project_id.push('&') + p.created_at).push('&') + p.id,
        quote_item(p).lsi2_sk == ((p.status.name().push('&') + p.project_id).push('&') + p.created_at).push('&') + p.id,
        quote_from_item(item) matches Ok(q) ==> q.id == item.sk && q.customer_id == item.pk && q.name == item.name && q.updated_at == item.updated_at,
{
    assert(quote_item(p).lsi1_sk =~= (p.project_id.push('&') + p.created_at).push('&') + p.id);
    assert(quote_item(p).lsi2_sk =~= ((p.status.name().push('&') + p.project_id).push('&') + p.created_at).push('&') + p.id);
}

impl DynamodbQuote {
    pub fn from(value: Quotation) -> (item: DynamodbQuote)
        ensures
            item@ == quote_item(value@),
            item@.pk == value@.customer_id,
            item@.sk == value@.id,
            item@.name == value@.name,
            item@.updated_at == value@.updated_at,
    {
        let status = value.status.to_string();
        let lsi1_sk = append_attribute(
            append_attribute(value.project_id.clone(), value.created_at.as_str()),
            value.id.as_str(),
        );
        let lsi2_sk = append_attribute(
            append_attribute(
                append_attribute(status, value.project_id.as_str()),
                value.created_at.as_str(),
            ),
            value.id.as_str(),
        );
        DynamodbQuote {
            pk: value.customer_id,
            sk: value.id,
            lsi1_sk,
            lsi2_sk,
            name: value.name,
            updated_at: value.updated_at,
        }
    }

    pub fn try_into(self) -> (r: Result<Quotation, Error>)
        requires
            quote_item_readable(self@),
        ensures
            quotation_result_view(r) == quote_from_item(self@),
            r matches Ok(q) ==> q@.id == self@.sk && q@.customer_id == self@.pk && q@.name == self@.name && q@.updated_at == self@.updated_at,
    {
        let lsi1 = split_exec(self.lsi1_sk.as_str(), '&');
        let lsi2 = split_once_exec(self.lsi2_sk.as_str(), '&');
        let status = match &lsi2 {
            Some(parts) => QuoteStatus::parse(parts.0.as_str()),
            None => None,
        };
        if lsi1.len() == 3 {
            let created = canonical_rfc3339(lsi1[1].as_str());
            match (created, status) {
                (Some(created_at), Some(status)) => {
                    let project_id = lsi1[0].clone();
                    Ok(
                        Quotation {
                            id: self.sk,
                            customer_id: self.pk,
                            project_id,
                            name: self.name,
                            status,
                            created_at,
                            updated_at: self.updated_at,
                        },
                    )
                },
                _ => Err(Error::UnknownError),
            }
        } else {
            Err(Error::UnknownError)
        }
    }

    /// Reads the item where that does not panic; `None` where it would.
    pub fn checked_try_into(self) -> (r: Option<Result<Quotation, Error>>)
        ensures
            r is Some <==> quote_item_readable(self@),
            r is Some ==> quotation_result_view(r->0) == quote_from_item(self@),
    {
        if self.readable() {
            Some(self.try_into())
        } else {
            None
        }
    }

    fn readable(&self) -> (b: bool)
        ensures
            b == quote_item_readable(self@),
    {
        let lsi1 = split_exec(self.lsi1_sk.as_str(), '&');
        if lsi1.len() == 3 {
            canonical_rfc3339(lsi1[1].as_str()).is_some()
        } else {
            true
        }
    }
}

/// Writing a quotation and reading it back gives the quotation, when its ids hold no
/// separator and its creation time is a text that chrono writes back unchanged.
pub proof fn lemma_quote_item_round_trip(q: QuotationView)
    requires
        sep_free(q.project_id),
        sep_free(q.id),
        sep_free(q.created_at),
        is_canonical_time(q.created_at),
    ensures
        quote_item_readable(quote_item(q)),
        quote_from_item(quote_item(q)) == Ok::<QuotationView, Error>(q),
{
    lemma_split_key3(q.project_id, q.created_at, q.id);
    lemma_status_names_sep_free();
    lemma_split_once_key(q.status.name(), key3(q.project_id, q.created_at, q.id));
    assert(key4(q.status.name(), q.project_id, q.created_at, q.id) =~= key2(
        q.status.name(),
        key3(q.project_id, q.created_at, q.id),
    ));
}




/// How the quotations are looked up.
#[derive(Debug, Clone, Copy, PartialEq, Eq, Structural)]
pub enum QueryBy {
    /// The quotations of a customer, by status or by creation time within a project.
    Customer,
    /// All quotations waiting for review.
    IsPendingReview,
}

/// The parameters of a quotations query.
#[derive(Debug, Clone, PartialEq, Eq)]
pub struct QuotationsQuery {
    pub customer_id: Option<CustomerId>,
    pub project_id: Option<ProjectId>,
    pub from: Option<String>,
    pub to: Option<String>,
    pub status: Option<QuoteStatus>,
    pub query_by: QueryBy,
    pub limit: i32,
    pub cursor: Option<String>,
}

/// Index, key condition and values of a quotations query.
pub open spec fn quotations_query_shape(q: QuotationsQuery, now: Seq<char>) -> Option<(Seq<char>, Seq<char>, Seq<(Seq<char>, PlanValueView)>)> {
    match q.query_by {
        QueryBy::IsPendingReview => Some(
            (
                "GSI2_QuoteIsPendingReview"@,
                "gsi2_pk = :isPendingReview"@,
                seq![(":isPendingReview"@, PlanValueView::Bool(true))],
            ),
        ),
        QueryBy::Customer => match q.customer_id {
            None => None,
            Some(c) => match q.status {
                Some(status) => Some(
                    (
                        "GSI1_QuoteStatus"@,
                        "pk = :customer_id AND begins_with(gsi1_sk, :prefix)"@,
                        seq![
                            (":customer_id"@, PlanValueView::S(c@)),
                            (":prefix"@, PlanValueView::S(key2(status.name(), opt_or(q.project_id, Seq::empty())))),
                        ],
                    ),
                ),
                None => match q.project_id {
                    None => None,
                    Some(p) => Some(
                        (
                            "LSI1_ProjectAndCreationDateTime"@,
                            "pk = :customer_id AND lsi1_sk BETWEEN :lower_bound AND :upper_bound"@,
                            seq![
                                (":customer_id"@, PlanValueView::S(c@)),
                                (":lower_bound"@, PlanValueView::S(key2(p@, opt_or(q.from, unix_epoch_rfc3339())))),
                                (":upper_bound"@, PlanValueView::S(key2(p@, opt_or(q.to, now)))),
                            ],
                        ),
                    ),
                },
            },
        },
    }
}

/// A customer's quotations in a status are those whose `gsi1_sk` begins with the status's
/// name, `&`, and the project's id (nothing after the `&` without a project); the
/// quotations pending review are those whose `gsi2_pk` is true; a customer query is refused
/// without the customer, naming `customer_id`, and, without a status, without the project,
/// naming `project_id`.
pub proof fn lemma_quotations_query_keys(q: QuotationsQuery, now: Seq<char>)
    ensures
        q.query_by == QueryBy::IsPendingReview ==> quotations_query_shape(q, now) == Some(
            (
                "GSI2_QuoteIsPendingReview"@,
                "gsi2_pk = :isPendingReview"@,
                seq![(":isPendingReview"@, PlanValueView::Bool(true))],
            ),
        ),
        (q.query_by == QueryBy::Customer && q.customer_id is None) ==> quotations_query_shape(q, now) is None
            && quotations_missing_parameter(q) == "customer_id"@,
        (q.query_by == QueryBy::Customer && q.customer_id is Some && q.status is None
            && q.project_id is None) ==> quotations_query_shape(q, now) is None
            && quotations_missing_parameter(q) == "project_id"@,
        (q.query_by == QueryBy::Customer && q.customer_id is Some && q.status is Some) ==> {
            let project = match q.project_id {
                Some(p) => p@,
                None => Seq::<char>::empty(),
            };
            quotations_query_shape(q, now) == Some(
                (
                    "GSI1_QuoteStatus"@,
                    "pk = :customer_id AND begins_with(gsi1_sk, :prefix)"@,
                    seq![
                        (":customer_id"@, PlanValueView::S(q.customer_id->0@)),
                        (":prefix"@, PlanValueView::S(q.status->0.name().push('&') + project)),
                    ],
                ),
            )
        },
{
    if let Some(st) = q.status {
        let n = st.name();
        assert(n + seq!['&'] =~= n.push('&'));
    }
}

/// The parameter whose absence a quotations query reports.
pub open spec fn quotations_missing_parameter(q: QuotationsQuery) -> Seq<char> {
    if q.customer_id is None {
        "customer_id"@
    } else {
        "project_id"@
    }
}

/// A customer's quotations of a project by creation time are those created from `from`
/// (the Unix epoch when none is given) up to `to` (`now` when none is given): each bound is
/// the project's id, `&`, and the given time whenever one is given.
pub proof fn lemma_quotations_time_bounds(q: QuotationsQuery, now: Seq<char>)
    requires
        q.query_by == QueryBy::Customer,
        q.customer_id is Some,
        q.project_id is Some,
        q.status is None,
    ensures
        quotations_query_shape(q, now) is Some,
        (quotations_query_shape(q, now)->0).0 == "LSI1_ProjectAndCreationDateTime"@,
        (quotations_query_shape(q, now)->0).2.len() == 3,
        (quotations_query_shape(q, now)->0).2[0] == (":customer_id"@, PlanValueView::S(q.customer_id->0@)),
        q.from matches Some(f) ==> (quotations_query_shape(q, now)->0).2[1] == (":lower_bound"@,
            PlanValueView::S(q.project_id->0@.push('&') + f@)),
        q.from is None ==> (quotations_query_shape(q, now)->0).2[1] == (":lower_bound"@,
            PlanValueView::S(q.project_id->0@.push('&') + "1970-01-01T00:00:00+00:00"@)),
        q.to matches Some(t) ==> (quotations_query_shape(q, now)->0).2[2] == (":upper_bound"@,
            PlanValueView::S(q.project_id->0@.push('&') + t@)),
        q.to is None ==> (quotations_query_shape(q, now)->0).2[2] == (":upper_bound"@,
            PlanValueView::S(q.project_id->0@.push('&') + now)),
{
    let p = q.project_id->0@;
    assert(p + seq!['&'] =~= p.push('&'));
}

/// The query the quotations repository sends. A customer query needs the customer, and,
/// without a status, the project; missing, they are reported by name. Time bounds
/// default to the Unix epoch and to `now`; pages come newest first.
pub fn quotations_query_plan(q: QuotationsQuery, now: String) -> (r: Result<QueryPlan, Error>)
    ensures
        match (r, quotations_query_shape(q, now@)) {
            (Ok(plan), Some(shape)) => {
                &&& plan@.index_name == shape.0
                &&& plan@.key_condition_expression == shape.1
                &&& plan@.expression_attribute_values == shape.2
                &&& plan.limit == q.limit
                &&& plan@.cursor == opt_string_view(q.cursor)
                &&& plan.scan_index_forward == Some(false)
            },
            (Err(Error::MissingRequiredParameter(p)), None) => p@ == quotations_missing_parameter(q),
            _ => false,
        },
        (q.query_by == QueryBy::Customer && q.customer_id is Some && q.project_id is Some
            && q.status is None) ==> r is Ok && (r->Ok_0)@.expression_attribute_values.len() == 3
            && (r->Ok_0)@.expression_attribute_values[1] == (":lower_bound"@, PlanValueView::S(
            q.project_id->0@.push('&') + match q.from {
                Some(f) => f@,
                None => "1970-01-01T00:00:00+00:00"@,
            },
        )) && (r->Ok_0)@.expression_attribute_values[2] == (":upper_bound"@, PlanValueView::S(
            q.project_id->0@.push('&') + match q.to {
                Some(t) => t@,
                None => now@,
            },
        )),
{
    proof {
        if q.query_by == QueryBy::Customer && q.customer_id is Some && q.project_id is Some
            && q.status is None {
            lemma_quotations_time_bounds(q, now@);
        }
    }
    let QuotationsQuery { customer_id, project_id, from, to, status, query_by, limit, cursor } = q;
    let (index_name, key_condition_expression, expression_attribute_values) = match query_by {
        QueryBy::IsPendingReview => {
            let v = one_value((String::from_str(":isPendingReview"), PlanValue::Bool(true)));
            (String::from_str("GSI2_QuoteIsPendingReview"), String::from_str("gsi2_pk = :isPendingReview"), v)
        },
        QueryBy::Customer => {
            let c = match customer_id {
                Some(c) => c,
                None => {
                    return Err(Error::MissingRequiredParameter(String::from_str("customer_id")));
                },
            };
            match status {
                Some(status) => {
                    let project = match project_id {
                        Some(p) => p,
                        None => String::new(),
                    };
                    let prefix = append_attribute(status.to_string(), project.as_str());
                    let v = two_values(s_value(":customer_id", c), s_value(":prefix", prefix));
                    (
                        String::from_str("GSI1_QuoteStatus"),
                        String::from_str("pk = :customer_id AND begins_with(gsi1_sk, :prefix)"),
                        v,
                    )
                },
                None => {
                    let p = match project_id {
                        Some(p) => p,
                        None => {
                            return Err(
                                Error::MissingRequiredParameter(String::from_str("project_id")),
                            );
                        },
                    };
                    let lower = match from {
                        Some(f) => f,
                        None => unix_epoch(),
                    };
                    let upper = match to {
                        Some(t) => t,
                        None => now,
                    };
                    let lower_bound = append_attribute(p.clone(), lower.as_str());
                    let upper_bound = append_attribute(p, upper.as_str());
                    let v = three_values(
                        s_value(":customer_id", c),
                        s_value(":lower_bound", lower_bound),
                        s_value(":upper_bound", upper_bound),
                    );
                    (
                        String::from_str("LSI1_ProjectAndCreationDateTime"),
                        String::from_str(
                            "pk = :customer_id AND lsi1_sk BETWEEN :lower_bound AND :upper_bound",
                        ),
                        v,
                    )
                },
            }
        },
    };
    Ok(
        QueryPlan {
            index_name,
            key_condition_expression,
            expression_attribute_values,
            limit,
            cursor,
            scan_index_forward: Some(false),
        },
    )
}


/// The update of a quotation: its time of update, and, with a status, its status key
/// `status&project_id&quotation_id`. Refused by DynamoDB once the quotation is payed.
pub fn quotation_update_plan(
    customer_id: CustomerId,
    project_id: ProjectId,
    quotation_id: QuoteId,
    status: Option<QuoteStatus>,
    now: String,
) -> (plan: UpdatePlan)
    ensures
        plan@.pk == customer_id@,
        plan@.sk == quotation_id@,
        plan@.condition_expression == Some("NOT begins_with(gsi1_sk, :payedStatus)"@),
        plan@.update_expression == "SET updated_at = :updated_at"@ + match status {
            Some(_) => ", #gsi1_sk = :gsi1_sk"@,
            None => Seq::<char>::empty(),
        },
        plan@.expression_attribute_values == seq![
            (":updated_at"@, PlanValueView::S(now@)),
            (":payedStatus"@, PlanValueView::S(QuoteStatus::Payed.name())),
        ] + match status {
            Some(s) => seq![(":gsi1_sk"@, PlanValueView::S(key3(s.name(), project_id@, quotation_id@)))],
            None => Seq::empty(),
        },
{
    let mut update_expression = String::from_str("SET updated_at = :updated_at");
    let mut values = two_values(
        s_value(":updated_at", now),
        s_value(":payedStatus", QuoteStatus::Payed.to_string()),
    );
    let ghost before = values_view(values@);
    match status {
        Some(status) => {
            let gsi1_sk = append_attribute(
                append_attribute(status.to_string(), project_id.as_str()),
                quotation_id.as_str(),
            );
            update_expression.append(", #gsi1_sk = :gsi1_sk");
            let v = s_value(":gsi1_sk", gsi1_sk);
            values.push(v);
            proof {
                assert(values_view(values@) =~= before + seq![(v.0@, v.1@)]);
            }
        },
        None => {
            proof {
                assert(update_expression@ =~= "SET updated_at = :updated_at"@ + Seq::<char>::empty());
                assert(values_view(values@) =~= before + Seq::empty());
            }
        },
    }
    UpdatePlan {
        pk: customer_id,
        sk: quotation_id,
        update_expression,
        condition_expression: Some(String::from_str("NOT begins_with(gsi1_sk, :payedStatus)")),
        expression_attribute_values: values,
    }
}

/// The delete of a quotation, refused by DynamoDB once the quotation is payed.
pub fn quotation_delete_plan(customer_id: CustomerId, quotation_id: QuoteId) -> (plan: DeletePlan)
    ensures
        plan.pk == customer_id,
        plan.sk == quotation_id,
        plan.condition_expression@ == "NOT begins_with(gsi1_sk, :payedStatus)"@,
        values_view(plan.expression_attribute_values@) == seq![
            (":payedStatus"@, PlanValueView::S(QuoteStatus::Payed.name())),
        ],
{
    DeletePlan {
        pk: customer_id,
        sk: quotation_id,
        condition_expression: String::from_str("NOT begins_with(gsi1_sk, :payedStatus)"),
        expression_attribute_values: one_value(
            s_value(":payedStatus", QuoteStatus::Payed.to_string()),
        ),
    }
}

/// The error of a refused quotation delete: a failed condition means the quotation is payed.
pub fn quotation_delete_error(failure: DeleteFailure) -> (e: Error)
    ensures
        e == (match failure {
            DeleteFailure::ConditionalCheckFailed => Error::DeletePayedQuotation,
            _ => Error::UnknownError,
        }),
{
    match failure {
        DeleteFailure::ConditionalCheckFailed => Error::DeletePayedQuotation,
        _ => Error::UnknownError,
    }
}

/// The keys of the quotations to delete in a batch, in order.
pub fn quotation_batch_delete_keys(data: Vec<BatchDeleteQuotationObject>) -> (keys: Vec<ItemKey>)
    ensures
        keys.len() == data.len(),
        forall|i: int|
            0 <= i < data.len() ==> #[trigger] keys[i].pk == data[i].customer_id && keys[i].sk
                == data[i].quotation_id,
{
    let mut keys: Vec<ItemKey> = Vec::new();
    let mut i: usize = 0;
    while i < data.len()
        invariant
            i <= data.len(),
            keys.len() == i,
            forall|k: int|
                0 <= k < i ==> #[trigger] keys[k].pk == data[k].customer_id && keys[k].sk
                    == data[k].quotation_id,
        decreases data.len() - i,
    {
        keys.push(ItemKey { pk: data[i].customer_id.clone(), sk: data[i].quotation_id.clone() });
        i = i + 1;
    }
    keys
}

/// The quotations read from the items of a page, in order, or the first error.
pub open spec fn quotes_from_items(items: Seq<DynamodbQuoteView>) -> Result<Seq<QuotationView>, Error>
    decreases items.len(),
{
    if items.len() == 0 {
        Ok(Seq::empty())
    } else {
        match quotes_from_items(items.drop_last()) {
            Ok(qs) => match quote_from_item(items.last()) {
                Ok(q) => Ok(qs.push(q)),
                Err(e) => Err(e),
            },
            Err(e) => Err(e),
        }
    }
}

pub open spec fn quotes_view(v: Seq<Quotation>) -> Seq<QuotationView> {
    v.map_values(|q: Quotation| q@)
}

/// Reads every item of a page; every item must be readable.
pub fn quotations_from_items(items: Vec<DynamodbQuote>) -> (r: Result<Vec<Quotation>, Error>)
    requires
        forall|i: int| 0 <= i < items.len() ==> quote_item_readable(#[trigger] items@[i]@),
    ensures
        match r {
            Ok(v) => quotes_from_items(items@.map_values(|x: DynamodbQuote| x@)) == Ok::<Seq<QuotationView>, Error>(quotes_view(v@)),
            Err(e) => quotes_from_items(items@.map_values(|x: DynamodbQuote| x@)) == Err::<Seq<QuotationView>, Error>(e),
        },
{
    let ghost orig = items@;
    let ghost iv = items@.map_values(|x: DynamodbQuote| x@);
    let n = items.len();
    let mut out: Vec<Quotation> = Vec::new();
    let mut remaining = items;
    let mut k: usize = 0;
    proof {
        assert(iv.take(0) =~= Seq::<DynamodbQuoteView>::empty());
        assert(quotes_view(out@) =~= Seq::<QuotationView>::empty());
    }
    while remaining.len() > 0
        invariant
            k + remaining.len() == n,
            n == orig.len(),
            orig == items@,
            iv == orig.map_values(|x: DynamodbQuote| x@),
            remaining@ == orig.subrange(k as int, n as int),
            forall|i: int| 0 <= i < orig.len() ==> quote_item_readable(#[trigger] orig[i]@),
            quotes_from_items(iv.take(k as int)) == Ok::<Seq<QuotationView>, Error>(quotes_view(out@)),
        decreases remaining.len(),
    {
        let x = remaining.remove(0);
        proof {
            assert(x == orig[k as int]);
            assert(remaining@ =~= orig.subrange(k + 1, n as int));
            assert(iv.take(k + 1).drop_last() =~= iv.take(k as int));
            assert(iv.take(k + 1).last() == x@);
        }
        match x.try_into() {
            Ok(q) => {
                let ghost before_out = out@;
                out.push(q);
                proof {
                    assert(quotes_view(out@) =~= quotes_view(before_out).push(q@));
                }
            },
            Err(e) => {
                proof {
                    assert(quote_from_item(x@) == Err::<QuotationView, Error>(e));
                    assert(quotes_from_items(iv.take(k + 1)) == Err::<Seq<QuotationView>, Error>(e));
                    lemma_quotes_error_prefix(iv, (k + 1) as int, e);
                    assert(iv == orig.map_values(|x: DynamodbQuote| x@));
                }
                return Err(e);
            },
        }
        k = k + 1;
    }
    proof {
        assert(iv.take(n as int) =~= iv);
    }
    Ok(out)
}

/// Once a prefix of the items reads with an error, every longer prefix does too.
proof fn lemma_quotes_error_prefix(items: Seq<DynamodbQuoteView>, k: int, e: Error)
    requires
        0 <= k <= items.len(),
        quotes_from_items(items.take(k)) == Err::<Seq<QuotationView>, Error>(e),
    ensures
        quotes_from_items(items) == Err::<Seq<QuotationView>, Error>(e),
    decreases items.len() - k,
{
    if k < items.len() {
        assert(items.take(k + 1).drop_last() =~= items.take(k));
        lemma_quotes_error_prefix(items, k + 1, e);
    } else {
        assert(items.take(k) =~= items);
    }
}


/// Reads every item of a page where that does not panic: `None` where some item is
/// unreadable, else what `quotations_from_items` gives.
pub fn checked_quotations_from_items(items: Vec<DynamodbQuote>) -> (r: Option<Result<Vec<Quotation>, Error>>)
    ensures
        r is Some <==> forall|i: int| 0 <= i < items.len() ==> quote_item_readable(#[trigger] items@[i]@),
        match r {
            Some(Ok(v)) => quotes_from_items(items@.map_values(|x: DynamodbQuote| x@)) == Ok::<Seq<QuotationView>, Error>(quotes_view(v@)),
            Some(Err(e)) => quotes_from_items(items@.map_values(|x: DynamodbQuote| x@)) == Err::<Seq<QuotationView>, Error>(e),
            None => true,
        },
{
    let mut i: usize = 0;
    while i < items.len()
        invariant
            i <= items.len(),
            forall|k: int| 0 <= k < i ==> quote_item_readable(#[trigger] items@[k]@),
        decreases items.len() - i,
    {
        if !items[i].readable() {
            return None;
        }
        i = i + 1;
    }
    Some(quotations_from_items(items))
}

} // verus!
