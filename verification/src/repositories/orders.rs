//! The orders table: items and queries.
use vstd::prelude::*;
use crate::clock::{canonical_rfc3339, rfc3339_canonical};
use crate::error::Error;
use crate::clock::{unix_epoch, unix_epoch_rfc3339};
use crate::repositories::plans::{
    PlanValueView, QueryPlan, one_value, opt_or, s_value, three_values, two_values,
};
use crate::models::{Address, PartId, ProjectId, QuoteId, AddressView, CustomerId, Date, Order, OrderId, OrderStatus, OrderView, PartQuoteId, opt_string_view};
use crate::repositories::keys::{append_attribute, is_canonical_time, key2, key3, key4, lemma_split_key3, lemma_split_key4, lemma_status_names_sep_free, sep, sep_free};
use crate::text::{split, split_exec};

verus! {


/// An order as stored: `lsi1_sk` is `created_at&order_id`, `lsi2_sk` is
/// `project_id&quote_id&part_id&order_id`, `gsi1_sk` is `status&created_at&order_id`,
/// `gsi2_pk` is `true` for open orders and absent otherwise, `gsi2_sk` is `created_at&order_id`.
#[derive(Debug, Clone, PartialEq, Eq)]
pub struct DynamodbOrder {
    pub pk: CustomerId,
    pub sk: OrderId,
    pub lsi1_sk: String,
    pub lsi2_sk: String,
    pub gsi1_sk: String,
    pub gsi2_pk: Option<String>,
    pub gsi2_sk: String,
    pub part_quote_id: PartQuoteId,
    pub deadline: Date,
    pub shipping_recipient_name: String,
    pub shipping_address: Address,
    pub update_at: String,
}

pub struct DynamodbOrderView {
    pub pk: Seq<char>,
    pub sk: Seq<char>,
    pub lsi1_sk: Seq<char>,
    pub lsi2_sk: Seq<char>,
    pub gsi1_sk: Seq<char>,
    pub gsi2_pk: Option<Seq<char>>,
    pub gsi2_sk: Seq<char>,
    pub part_quote_id: Seq<char>,
    pub deadline: Date,
    pub shipping_recipient_name: Seq<char>,
    pub shipping_address: AddressView,
    pub update_at: Seq<char>,
}

impl View for DynamodbOrder {
    type V = DynamodbOrderView;

    open spec fn view(&self) -> DynamodbOrderView {
        DynamodbOrderView {
            pk: self.pk@,
            sk: self.sk@,
            lsi1_sk: self.lsi1_sk@,
            lsi2_sk: self.lsi2_sk@,
            gsi1_sk: self.gsi1_sk@,
            gsi2_pk: opt_string_view(self.gsi2_pk),
            gsi2_sk: self.gsi2_sk@,
            part_quote_id: self.part_quote_id@,
            deadline: self.deadline,
            shipping_recipient_name: self.shipping_recipient_name@,
            shipping_address: self.shipping_address@,
            update_at: self.update_at@,
        }
    }
}

/// The item stored for an order.
pub open spec fn order_item(o: OrderView) -> DynamodbOrderView {
    DynamodbOrderView {
        pk: o.customer_id,
        sk: o.id,
        lsi1_sk: key2(o.created_at, o.id),
        lsi2_sk: key4(o.project_id, o.quotation_id, o.part_id, o.id),
        gsi1_sk: key3(o.status.name(), o.created_at, o.id),
        gsi2_pk: if o.status == OrderStatus::Open { Some("true"@) } else { None },
        gsi2_sk: key2(o.created_at, o.id),
        part_quote_id: o.part_quote_id,
        deadline: o.deadline,
        shipping_recipient_name: o.shipping_recipient_name,
        shipping_address: o.shipping_address,
        update_at: o.updated_at,
    }
}

/// Reading the item panics where `gsi1_sk` has three attributes and the second is no time.
pub open spec fn order_item_readable(item: DynamodbOrderView) -> bool {
    let g = split(item.gsi1_sk, sep());
    g.len() == 3 ==> rfc3339_canonical(g[1]) is Some
}

/// The order read from an item; every missing or unreadable attribute is an unknown error.
pub open spec fn order_from_item(item: DynamodbOrderView) -> Result<OrderView, Error> {
    let g = split(item.gsi1_sk, sep());
    let l = split(item.lsi2_sk, sep());
    let status = if g.len() == 3 { OrderStatus::from_name(g[0]) } else { None };
    if g.len() == 3 && l.len() == 4 && status is Some {
        Ok(
            OrderView {
                id: item.sk,
                customer_id: item.pk,
                project_id: l[0],
                quotation_id: l[1],
                part_id: l[2],
                part_quote_id: item.part_quote_id,
                deadline: item.deadline,
                status: status->0,
                shipping_recipient_name: item.shipping_recipient_name,
                shipping_address: item.shipping_address,
                created_at: rfc3339_canonical(g[1])->0,
                updated_at: item.update_at,
            },
        )
    } else {
        Err(Error::UnknownError)
    }
}

pub open spec fn order_result_view(r: Result<Order, Error>) -> Result<OrderView, Error> {
    match r {
        Ok(o) => Ok(o@),
        Err(e) => Err(e),
    }
}

/// An order's item holds its customer, id, quote, deadline, recipient, address and time of
/// update unchanged, is marked open exactly when the order is open, and is keyed by
/// `created_at&id` and `project_id&quotation_id&part_id&id`; reading an item gives those
/// fields back unchanged.
pub proof fn lemma_orders_item_fields(p: OrderView, item: DynamodbOrderView)
    ensures
        order_item(p).pk == p.customer_id,
        order_item(p).sk == p.id,
        order_item(p).part_quote_id == p.part_quote_id,
        order_item(p).deadline == p.deadline,
        order_item(p).shipping_recipient_name == p.shipping_recipient_name,
        order_item(p).shipping_address == p.shipping_address,
        order_item(p).update_at == p.updated_at,
        order_item(p).lsi1_sk == p.created_at.push('&') + p.id,
        order_item(p).gsi2_sk == p.created_at.push('&') + p.id,
        order_item(p).lsi2_sk == ((p.project_id.push('&') + p.quotation_id).push('&') + p.part_id).push('&') + p.id,
        order_item(p).gsi2_pk == (if p.status == OrderStatus::Open { Some("true"@) } else { None }),
        order_from_item(item) matches Ok(q) ==> q.id == item.sk && q.customer_id == item.pk && q.part_quote_id == item.part_quote_id && q.deadline == item.deadline && q.shipping_recipient_name == item.shipping_recipient_name && q.shipping_address == item.shipping_address && q.updated_at == item.update_at,
{
    assert(order_item(p).lsi1_sk =~= p.created_at.push('&') + p.id);
    assert(order_item(p).gsi2_sk =~= p.created_at.push('&') + p.id);
    assert(order_item(p).lsi2_sk =~= ((p.project_id.push('&') + p.quotation_id).push('&') + p.part_id).push('&') + p.id);
}

impl DynamodbOrder {
    pub fn from(value: Order) -> (item: DynamodbOrder)
        ensures
            item@ == order_item(value@),
            item@.pk == value@.customer_id,
            item@.sk == value@.id,
            item@.part_quote_id == value@.part_quote_id,
            item@.deadline == value@.deadline,
            item@.shipping_recipient_name == value@.shipping_recipient_name,
            item@.shipping_address == value@.shipping_address,
            item@.update_at == value@.updated_at,
    {
        let lsi1_sk = append_attribute(value.created_at.clone(), value.id.as_str());
        let lsi2_sk = append_attribute(
            append_attribute(
                append_attribute(value.project_id, value.quotation_id.as_str()),
                value.part_id.as_str(),
            ),
            value.id.as_str(),
        );
        let gsi1_sk = append_attribute(
            append_attribute(value.status.to_string(), value.created_at.as_str()),
            value.id.as_str(),
        );
        let gsi2_sk = append_attribute(value.created_at, value.id.as_str());
        let gsi2_pk = match value.status {
            OrderStatus::Open => Some(String::from_str("true")),
            _ => None,
        };
        DynamodbOrder {
            pk: value.customer_id,
            sk: value.id,
            lsi1_sk,
            lsi2_sk,
            gsi1_sk,
            gsi2_pk,
            gsi2_sk,
            part_quote_id: value.part_quote_id,
            deadline: value.deadline,
            shipping_recipient_name: value.shipping_recipient_name,
            shipping_address: value.shipping_address,
            update_at: value.updated_at,
        }
    }

    pub fn try_into(self) -> (r: Result<Order, Error>)
        requires
            order_item_readable(self@),
        ensures
            order_result_view(r) == order_from_item(self@),
            r matches Ok(q) ==> q@.id == self@.sk && q@.customer_id == self@.pk && q@.part_quote_id == self@.part_quote_id && q@.deadline == self@.deadline && q@.shipping_recipient_name == self@.shipping_recipient_name && q@.shipping_address == self@.shipping_address && q@.updated_at == self@.update_at,
    {
        let g = split_exec(self.gsi1_sk.as_str(), '&');
        let l = split_exec(self.lsi2_sk.as_str(), '&');
        if g.len() != 3 || l.len() != 4 {
            return Err(Error::UnknownError);
        }
        let status = OrderStatus::parse(g[0].as_str());
        let created = canonical_rfc3339(g[1].as_str());
        match (status, created) {
            (Some(status), Some(created_at)) => Ok(
                Order {
                    id: self.sk,
                    customer_id: self.pk,
                    project_id: l[0].clone(),
                    quotation_id: l[1].clone(),
                    part_id: l[2].clone(),
                    part_quote_id: self.part_quote_id,
                    deadline: self.deadline,
                    status,
                    shipping_recipient_name: self.shipping_recipient_name,
                    shipping_address: self.shipping_address,
                    created_at,
                    updated_at: self.update_at,
                },
            ),
            _ => Err(Error::UnknownError),
        }
    }

    /// Reads the item where that does not panic; `None` where it would.
    pub fn checked_try_into(self) -> (r: Option<Result<Order, Error>>)
        ensures
            r is Some <==> order_item_readable(self@),
            r is Some ==> order_result_view(r->0) == order_from_item(self@),
    {
        if self.readable() {
            Some(self.try_into())
        } else {
            None
        }
    }

    fn readable(&self) -> (b: bool)
        ensures
            b == order_item_readable(self@),
    {
        let g = split_exec(self.gsi1_sk.as_str(), '&');
        if g.len() == 3 {
            canonical_rfc3339(g[1].as_str()).is_some()
        } else {
            true
        }
    }
}

/// Writing an order and reading it back gives the order, when its ids hold no separator
/// and its creation time is a separator-free text that chrono writes back unchanged.
pub proof fn lemma_order_item_round_trip(o: OrderView)
    requires
        sep_free(o.project_id),
        sep_free(o.quotation_id),
        sep_free(o.part_id),
        sep_free(o.id),
        sep_free(o.created_at),
        is_canonical_time(o.created_at),
    ensures
        order_item_readable(order_item(o)),
        order_from_item(order_item(o)) == Ok::<OrderView, Error>(o),
{
    lemma_status_names_sep_free();
    lemma_split_key3(o.status.name(), o.created_at, o.id);
    lemma_split_key4(o.project_id, o.quotation_id, o.part_id, o.id);
}


/// The orders read from the items of a page, in order, or the first error.
pub open spec fn orders_from_item_views(items: Seq<DynamodbOrderView>) -> Result<Seq<OrderView>, Error>
    decreases items.len(),
{
    if items.len() == 0 {
        Ok(Seq::empty())
    } else {
        match orders_from_item_views(items.drop_last()) {
            Ok(qs) => match order_from_item(items.last()) {
                Ok(q) => Ok(qs.push(q)),
                Err(e) => Err(e),
            },
            Err(e) => Err(e),
        }
    }
}

pub open spec fn orders_view(v: Seq<Order>) -> Seq<OrderView> {
    v.map_values(|q: Order| q@)
}

/// Reads every item of a page; every item must be readable.
pub fn orders_from_items(items: Vec<DynamodbOrder>) -> (r: Result<Vec<Order>, Error>)
    requires
        forall|i: int| 0 <= i < items.len() ==> order_item_readable(#[trigger] items@[i]@),
    ensures
        match r {
            Ok(v) => orders_from_item_views(items@.map_values(|x: DynamodbOrder| x@)) == Ok::<Seq<OrderView>, Error>(orders_view(v@)),
            Err(e) => orders_from_item_views(items@.map_values(|x: DynamodbOrder| x@)) == Err::<Seq<OrderView>, Error>(e),
        },
{
    let ghost orig = items@;
    let ghost iv = items@.map_values(|x: DynamodbOrder| x@);
    let n = items.len();
    let mut out: Vec<Order> = Vec::new();
    let mut remaining = items;
    let mut k: usize = 0;
    proof {
        assert(iv.take(0) =~= Seq::<DynamodbOrderView>::empty());
        assert(orders_view(out@) =~= Seq::<OrderView>::empty());
    }
    while remaining.len() > 0
        invariant
            k + remaining.len() == n,
            n == orig.len(),
            orig == items@,
            iv == orig.map_values(|x: DynamodbOrder| x@),
            remaining@ == orig.subrange(k as int, n as int),
            forall|i: int| 0 <= i < orig.len() ==> order_item_readable(#[trigger] orig[i]@),
            orders_from_item_views(iv.take(k as int)) == Ok::<Seq<OrderView>, Error>(orders_view(out@)),
        decreases remaining.len(),
    {
        let x = remaining.remove(0);
        proof {
            assert(x == orig[k as int]);
            assert(remaining@ =~= orig.subrange(k + 1, n as int));
            assert(iv.take(k + 1).drop_last() =~= iv.take(k as int));
            assert(iv.take(k + 1).last() == x@);
        }
        match x.try_into() {
            Ok(q) => {
                let ghost before_out = out@;
                out.push(q);
                proof {
                    assert(orders_view(out@) =~= orders_view(before_out).push(q@));
                }
            },
            Err(e) => {
                proof {
                    assert(order_from_item(x@) == Err::<OrderView, Error>(e));
                    assert(orders_from_item_views(iv.take(k + 1)) == Err::<Seq<OrderView>, Error>(e));
                    lemma_orders_error_prefix(iv, (k + 1) as int, e);
                    assert(iv == orig.map_values(|x: DynamodbOrder| x@));
                }
                return Err(e);
            },
        }
        k = k + 1;
    }
    proof {
        assert(iv.take(n as int) =~= iv);
    }
    Ok(out)
}

/// Once a prefix of the items reads with an error, every longer prefix does too.
proof fn lemma_orders_error_prefix(items: Seq<DynamodbOrderView>, k: int, e: Error)
    requires
        0 <= k <= items.len(),
        orders_from_item_views(items.take(k)) == Err::<Seq<OrderView>, Error>(e),
    ensures
        orders_from_item_views(items) == Err::<Seq<OrderView>, Error>(e),
    decreases items.len() - k,
{
    if k < items.len() {
        assert(items.take(k + 1).drop_last() =~= items.take(k));
        lemma_orders_error_prefix(items, k + 1, e);
    } else {
        assert(items.take(k) =~= items);
    }
}


/// How the orders are looked up.
#[derive(Debug, Clone, Copy, PartialEq, Eq, Structural)]
pub enum QueryBy {
    /// The orders of a customer: by project (and quote and part), by status, or by creation time.
    Customer,
    /// All open orders.
    IsOpen,
}

/// The parameters of an orders query.
#[derive(Debug, Clone, PartialEq, Eq)]
pub struct OrdersQuery {
    pub customer_id: Option<CustomerId>,
    pub project_id: Option<ProjectId>,
    pub quote_id: Option<QuoteId>,
    pub part_id: Option<PartId>,
    pub status: Option<OrderStatus>,
    pub from: Option<String>,
    pub to: Option<String>,
    pub query_by: QueryBy,
    pub cursor: Option<String>,
    pub limit: i32,
}

/// The prefix of `lsi2_sk` that selects orders of a project, of one of its quotes, or of
/// one part of that quote; a part without a quote is ignored.
pub open spec fn lsi2_prefix(project_id: Seq<char>, quote_id: Option<String>, part_id: Option<String>) -> Seq<char> {
    match quote_id {
        None => project_id,
        Some(q) => match part_id {
            None => key2(project_id, q@),
            Some(p) => key3(project_id, q@, p@),
        },
    }
}

/// Index, key condition and values of an orders query; `None` without the customer that
/// a customer query needs.
pub open spec fn orders_query_shape(q: OrdersQuery, now: Seq<char>) -> Option<(Seq<char>, Seq<char>, Seq<(Seq<char>, PlanValueView)>)> {
    match q.query_by {
        QueryBy::IsOpen => Some(
            ("GSI1_OrderIsOpen"@, "gsi2_pk = :is_open"@, seq![(":is_open"@, PlanValueView::S("true"@))]),
        ),
        QueryBy::Customer => match q.customer_id {
            None => None,
            Some(c) => match q.project_id {
                Some(p) => Some(
                    (
                        "LSI2_ProjectAndQuoteAndPart"@,
                        "begins_with(lsi2_sk, :lsi2_sk)"@,
                        seq![(":lsi2_sk"@, PlanValueView::S(lsi2_prefix(p@, q.quote_id, q.part_id)))],
                    ),
                ),
                None => match q.status {
                    Some(s) => Some(
                        (
                            "GSI1_OrderStatus"@,
                            "pk = :customer_id AND begins_with(gsi1_sk, :prefix)"@,
                            seq![(":customer_id"@, PlanValueView::S(c@)), (":prefix"@, PlanValueView::S(s.name()))],
                        ),
                    ),
                    None => Some(
                        (
                            "LSI1_CreationDateTime"@,
                            "pk = :customer_id AND lsi1_sk BETWEEN :lower_bound AND :upper_bound"@,
                            seq![
                                (":customer_id"@, PlanValueView::S(c@)),
                                (":lower_bound"@, PlanValueView::S(opt_or(q.from, unix_epoch_rfc3339()))),
                                (":upper_bound"@, PlanValueView::S(opt_or(q.to, now))),
                            ],
                        ),
                    ),
                },
            },
        },
    }
}

/// A customer's orders of a project are those whose `lsi2_sk` begins with the project's
/// id, followed by `&` and the quote's id when a quote is given, and by `&` and the part's
/// id when a part of that quote is given; orders by status are those whose `gsi1_sk`
/// begins with the status's name; the open orders are those whose `gsi2_pk` is `true`; a
/// customer query without the customer is refused.
pub proof fn lemma_orders_query_keys(q: OrdersQuery, now: Seq<char>)
    ensures
        q.query_by == QueryBy::IsOpen ==> orders_query_shape(q, now) == Some(
            ("GSI1_OrderIsOpen"@, "gsi2_pk = :is_open"@, seq![(":is_open"@, PlanValueView::S("true"@))]),
        ),
        (q.query_by == QueryBy::Customer && q.customer_id is None) ==> orders_query_shape(q, now) is None,
        (q.query_by == QueryBy::Customer && q.customer_id is Some && q.project_id is Some) ==> {
            let p = q.project_id->0@;
            let expected = match (q.quote_id, q.part_id) {
                (None, _) => p,
                (Some(quote), None) => p.push('&') + quote@,
                (Some(quote), Some(part)) => (p.push('&') + quote@).push('&') + part@,
            };
            orders_query_shape(q, now) == Some(
                (
                    "LSI2_ProjectAndQuoteAndPart"@,
                    "begins_with(lsi2_sk, :lsi2_sk)"@,
                    seq![(":lsi2_sk"@, PlanValueView::S(expected))],
                ),
            )
        },
        (q.query_by == QueryBy::Customer && q.customer_id is Some && q.project_id is None
            && q.status is Some) ==> orders_query_shape(q, now) == Some(
            (
                "GSI1_OrderStatus"@,
                "pk = :customer_id AND begins_with(gsi1_sk, :prefix)"@,
                seq![
                    (":customer_id"@, PlanValueView::S(q.customer_id->0@)),
                    (":prefix"@, PlanValueView::S(q.status->0.name())),
                ],
            ),
        ),
{
    if q.query_by == QueryBy::Customer && q.customer_id is Some && q.project_id is Some {
        let p = q.project_id->0@;
        if let Some(quote) = q.quote_id {
            assert(p + seq!['&'] =~= p.push('&'));
            if let Some(part) = q.part_id {
                let a = p.push('&') + quote@;
                assert(a + seq!['&'] =~= a.push('&'));
            }
        }
    }
}

/// A customer's orders by creation time are those created from `from` (the Unix epoch
/// when none is given) up to `to` (`now` when none is given): each bound is the given
/// time whenever one is given.
pub proof fn lemma_orders_time_bounds(q: OrdersQuery, now: Seq<char>)
    requires
        q.query_by == QueryBy::Customer,
        q.customer_id is Some,
        q.project_id is None,
        q.status is None,
    ensures
        orders_query_shape(q, now) is Some,
        (orders_query_shape(q, now)->0).0 == "LSI1_CreationDateTime"@,
        (orders_query_shape(q, now)->0).2.len() == 3,
        (orders_query_shape(q, now)->0).2[0] == (":customer_id"@, PlanValueView::S(q.customer_id->0@)),
        q.from matches Some(f) ==> (orders_query_shape(q, now)->0).2[1] == (":lower_bound"@, PlanValueView::S(f@)),
        q.from is None ==> (orders_query_shape(q, now)->0).2[1] == (":lower_bound"@, PlanValueView::S("1970-01-01T00:00:00+00:00"@)),
        q.to matches Some(t) ==> (orders_query_shape(q, now)->0).2[2] == (":upper_bound"@, PlanValueView::S(t@)),
        q.to is None ==> (orders_query_shape(q, now)->0).2[2] == (":upper_bound"@, PlanValueView::S(now)),
{
}

/// The query the orders repository sends; a customer query without the customer is
/// refused, naming `customer_id`. Pages come newest first.
pub fn orders_query_plan(q: OrdersQuery, now: String) -> (r: Result<QueryPlan, Error>)
    ensures
        match (r, orders_query_shape(q, now@)) {
            (Ok(plan), Some(shape)) => {
                &&& plan@.index_name == shape.0
                &&& plan@.key_condition_expression == shape.1
                &&& plan@.expression_attribute_values == shape.2
                &&& plan.limit == q.limit
                &&& plan@.cursor == opt_string_view(q.cursor)
                &&& plan.scan_index_forward == Some(false)
            },
            (Err(Error::MissingRequiredParameter(p)), None) => p@ == "customer_id"@,
            _ => false,
        },
        (q.query_by == QueryBy::Customer && q.customer_id is Some && q.project_id is None
            && q.status is None) ==> r is Ok && (r->Ok_0)@.expression_attribute_values.len() == 3
            && (r->Ok_0)@.expression_attribute_values[1] == (":lower_bound"@, PlanValueView::S(
            match q.from {
                Some(f) => f@,
                None => "1970-01-01T00:00:00+00:00"@,
            },
        )) && (r->Ok_0)@.expression_attribute_values[2] == (":upper_bound"@, PlanValueView::S(
            match q.to {
                Some(t) => t@,
                None => now@,
            },
        )),
{
    proof {
        if q.query_by == QueryBy::Customer && q.customer_id is Some && q.project_id is None
            && q.status is None {
            lemma_orders_time_bounds(q, now@);
        }
    }
    let OrdersQuery { customer_id, project_id, quote_id, part_id, status, from, to, query_by, cursor, limit } = q;
    let (index_name, key_condition_expression, expression_attribute_values) = match query_by {
        QueryBy::IsOpen => (
            String::from_str("GSI1_OrderIsOpen"),
            String::from_str("gsi2_pk = :is_open"),
            one_value(s_value(":is_open", String::from_str("true"))),
        ),
        QueryBy::Customer => {
            let c = match customer_id {
                Some(c) => c,
                None => {
                    return Err(Error::MissingRequiredParameter(String::from_str("customer_id")));
                },
            };
            match project_id {
                Some(p) => {
                    let prefix = project_quote_part_prefix(p, quote_id, part_id);
                    (
                        String::from_str("LSI2_ProjectAndQuoteAndPart"),
                        String::from_str("begins_with(lsi2_sk, :lsi2_sk)"),
                        one_value(s_value(":lsi2_sk", prefix)),
                    )
                },
                None => match status {
                    Some(s) => (
                        String::from_str("GSI1_OrderStatus"),
                        String::from_str("pk = :customer_id AND begins_with(gsi1_sk, :prefix)"),
                        two_values(s_value(":customer_id", c), s_value(":prefix", s.to_string())),
                    ),
                    None => {
                        let lower = match from {
                            Some(f) => f,
                            None => unix_epoch(),
                        };
                        let upper = match to {
                            Some(t) => t,
                            None => now,
                        };
                        (
                            String::from_str("LSI1_CreationDateTime"),
                            String::from_str(
                                "pk = :customer_id AND lsi1_sk BETWEEN :lower_bound AND :upper_bound",
                            ),
                            three_values(
                                s_value(":customer_id", c),
                                s_value(":lower_bound", lower),
                                s_value(":upper_bound", upper),
                            ),
                        )
                    },
                },
            }
        },
    };
    Ok(
        QueryPlan {
            index_name,
            key_condition_expression,
            expression_attribute_values,
            limit,
            cursor,
            scan_index_forward: Some(false),
        },
    )
}

/// `project_id`, then `&quote_id` if given, then `&part_id` if given as well.
pub fn project_quote_part_prefix(project_id: ProjectId, quote_id: Option<QuoteId>, part_id: Option<PartId>) -> (s: String)
    ensures
        s@ == lsi2_prefix(project_id@, quote_id, part_id),
{
    match quote_id {
        None => project_id,
        Some(q) => {
            let s = append_attribute(project_id, q.as_str());
            match part_id {
                None => s,
                Some(p) => append_attribute(s, p.as_str()),
            }
        },
    }
}


/// Reads every item of a page where that does not panic: `None` where some item is
/// unreadable, else what `orders_from_items` gives.
pub fn checked_orders_from_items(items: Vec<DynamodbOrder>) -> (r: Option<Result<Vec<Order>, Error>>)
    ensures
        r is Some <==> forall|i: int| 0 <= i < items.len() ==> order_item_readable(#[trigger] items@[i]@),
        match r {
            Some(Ok(v)) => orders_from_item_views(items@.map_values(|x: DynamodbOrder| x@)) == Ok::<Seq<OrderView>, Error>(orders_view(v@)),
            Some(Err(e)) => orders_from_item_views(items@.map_values(|x: DynamodbOrder| x@)) == Err::<Seq<OrderView>, Error>(e),
            None => true,
        },
{
    let mut i: usize = 0;
    while i < items.len()
        invariant
            i <= items.len(),
            forall|k: int| 0 <= k < i ==> order_item_readable(#[trigger] items@[k]@),
        decreases items.len() - i,
    {
        if !items[i].readable() {
            return None;
        }
        i = i + 1;
    }
    Some(orders_from_items(items))
}

} // verus!
