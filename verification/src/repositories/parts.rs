//! The parts table: items, queries, updates and batches.
use vstd::prelude::*;
use crate::clock::{canonical_rfc3339, rfc3339_canonical};
use crate::error::Error;
use crate::repositories::plans::{
    ItemKey, PlanValue, PlanValueView, QueryPlan, UpdatePlan, one_value, s_value, two_values,
    values_view,
};
use crate::text::{decimal, u64_to_string};
use crate::models::{BatchDeletePartObject, QuoteId, UpdatablePart, CustomerId, File, FileView, Part, PartId, PartQuote, PartQuoteId, PartQuoteView, PartView, ProjectId, opt_file_view, opt_string_view, part_quotes_view, parts_view};
use crate::repositories::keys::{append_attribute, is_canonical_time, key3, lemma_split_key3, sep, sep_free};
use crate::text::{split, split_exec};

verus! {


/// A part as stored: `lsi1_sk` is `quote_id&created_at&part_id`.
#[derive(Debug, Clone, PartialEq, Eq)]
pub struct DynamodbPart {
    pub pk: CustomerId,
    pub sk: PartId,
    pub lsi1_sk: String,
    pub project_id: ProjectId,
    pub model_file: File,
    pub render_file: Option<File>,
    pub drawing_file: Option<File>,
    pub process: String,
    pub attributes: String,
    pub quantity: u64,
    pub selected_part_quote_id: Option<PartQuoteId>,
    pub part_quotes: Option<Vec<PartQuote>>,
    pub updated_at: String,
}

pub struct DynamodbPartView {
    pub pk: Seq<char>,
    pub sk: Seq<char>,
    pub lsi1_sk: Seq<char>,
    pub project_id: Seq<char>,
    pub model_file: FileView,
    pub render_file: Option<FileView>,
    pub drawing_file: Option<FileView>,
    pub process: Seq<char>,
    pub attributes: Seq<char>,
    pub quantity: u64,
    pub selected_part_quote_id: Option<Seq<char>>,
    pub part_quotes: Option<Seq<PartQuoteView>>,
    pub updated_at: Seq<char>,
}

impl View for DynamodbPart {
    type V = DynamodbPartView;

    open spec fn view(&self) -> DynamodbPartView {
        DynamodbPartView {
            pk: self.pk@,
            sk: self.sk@,
            lsi1_sk: self.lsi1_sk@,
            project_id: self.project_id@,
            model_file: self.model_file@,
            render_file: opt_file_view(self.render_file),
            drawing_file: opt_file_view(self.drawing_file),
            process: self.process@,
            attributes: self.attributes@,
            quantity: self.quantity,
            selected_part_quote_id: opt_string_view(self.selected_part_quote_id),
            part_quotes: part_quotes_view(self.part_quotes),
            updated_at: self.updated_at@,
        }
    }
}

/// The item stored for a part.
pub open spec fn part_item(p: PartView) -> DynamodbPartView {
    DynamodbPartView {
        pk: p.customer_id,
        sk: p.id,
        lsi1_sk: key3(p.quotation_id, p.created_at, p.id),
        project_id: p.project_id,
        model_file: p.model_file,
        render_file: p.render_file,
        drawing_file: p.drawing_file,
        process: p.process,
        attributes: p.attributes,
        quantity: p.quantity,
        selected_part_quote_id: p.selected_part_quote_id,
        part_quotes: p.part_quotes,
        updated_at: p.updated_at,
    }
}

/// Reading the item panics where `lsi1_sk` has three attributes and the second is no time.
pub open spec fn part_item_readable(item: DynamodbPartView) -> bool {
    let l = split(item.lsi1_sk, sep());
    l.len() == 3 ==> rfc3339_canonical(l[1]) is Some
}

/// The part read from an item; a missing quote id or creation time is an unknown error.
pub open spec fn part_from_item(item: DynamodbPartView) -> Result<PartView, Error> {
    let l = split(item.lsi1_sk, sep());
    if l.len() == 3 {
        Ok(
            PartView {
                id: item.sk,
                customer_id: item.pk,
                project_id: item.project_id,
                quotation_id: l[0],
                model_file: item.model_file,
                render_file: item.render_file,
                drawing_file: item.drawing_file,
                process: item.process,
                attributes: item.attributes,
                quantity: item.quantity,
                selected_part_quote_id: item.selected_part_quote_id,
                part_quotes: item.part_quotes,
                created_at: rfc3339_canonical(l[1])->0,
                updated_at: item.updated_at,
            },
        )
    } else {
        Err(Error::UnknownError)
    }
}

pub open spec fn part_result_view(r: Result<Part, Error>) -> Result<PartView, Error> {
    match r {
        Ok(p) => Ok(p@),
        Err(e) => Err(e),
    }
}

/// A part's item holds every field of the part unchanged (customer, id, project, files,
/// process, attributes, quantity, selected quote, quotes, time of update), under the key
/// `quotation_id&created_at&id`; reading an item gives those fields back unchanged.
pub proof fn lemma_parts_item_fields(p: PartView, item: DynamodbPartView)
    ensures
        part_item(p).pk == p.customer_id,
        part_item(p).sk == p.id,
        part_item(p).project_id == p.project_id,
        part_item(p).model_file == p.model_file,
        part_item(p).render_file == p.render_file,
        part_item(p).drawing_file == p.drawing_file,
        part_item(p).process == p.process,
        part_item(p).attributes == p.attributes,
        part_item(p).quantity == p.quantity,
        part_item(p).selected_part_quote_id == p.selected_part_quote_id,
        part_item(p).part_quotes == p.part_quotes,
        part_item(p).updated_at == p.updated_at,
        part_item(p).lsi1_sk == (p.quotation_id.push('&') + p.created_at).push('&') + p.id,
        part_from_item(item) matches Ok(q) ==> q.id == item.sk && q.customer_id == item.pk && q.project_id == item.project_id && q.model_file == item.model_file && q.render_file == item.render_file && q.drawing_file == item.drawing_file && q.process == item.process && q.attributes == item.attributes && q.quantity == item.quantity && q.selected_part_quote_id == item.selected_part_quote_id && q.part_quotes == item.part_quotes && q.updated_at == item.updated_at,
{
    assert(part_item(p).lsi1_sk =~= (p.quotation_id.push('&') + p.created_at).push('&') + p.id);
}

impl DynamodbPart {
    pub fn from(value: Part) -> (item: DynamodbPart)
        ensures
            item@ == part_item(value@),
            item@.pk == value@.customer_id,
            item@.sk == value@.id,
            item@.project_id == value@.project_id,
            item@.model_file == value@.model_file,
            item@.render_file == value@.render_file,
            item@.drawing_file == value@.drawing_file,
            item@.process == value@.process,
            item@.attributes == value@.attributes,
            item@.quantity == value@.quantity,
            item@.selected_part_quote_id == value@.selected_part_quote_id,
            item@.part_quotes == value@.part_quotes,
            item@.updated_at == value@.updated_at,
    {
        let lsi1_sk = append_attribute(
            append_attribute(value.quotation_id, value.created_at.as_str()),
            value.id.as_str(),
        );
        DynamodbPart {
            pk: value.customer_id,
            sk: value.id,
            lsi1_sk,
            project_id: value.project_id,
            model_file: value.model_file,
            render_file: value.render_file,
            drawing_file: value.drawing_file,
            process: value.process,
            attributes: value.attributes,
            quantity: value.quantity,
            selected_part_quote_id: value.selected_part_quote_id,
            part_quotes: value.part_quotes,
            updated_at: value.updated_at,
        }
    }

    pub fn try_into(self) -> (r: Result<Part, Error>)
        requires
            part_item_readable(self@),
        ensures
            part_result_view(r) == part_from_item(self@),
            r matches Ok(q) ==> q@.id == self@.sk && q@.customer_id == self@.pk && q@.project_id == self@.project_id && q@.model_file == self@.model_file && q@.render_file == self@.render_file && q@.drawing_file == self@.drawing_file && q@.process == self@.process && q@.attributes == self@.attributes && q@.quantity == self@.quantity && q@.selected_part_quote_id == self@.selected_part_quote_id && q@.part_quotes == self@.part_quotes && q@.updated_at == self@.updated_at,
    {
        let l = split_exec(self.lsi1_sk.as_str(), '&');
        if l.len() != 3 {
            return Err(Error::UnknownError);
        }
        let created = canonical_rfc3339(l[1].as_str());
        match created {
            Some(created_at) => Ok(
                Part {
                    id: self.sk,
                    customer_id: self.pk,
                    project_id: self.project_id,
                    quotation_id: l[0].clone(),
                    model_file: self.model_file,
                    render_file: self.render_file,
                    drawing_file: self.drawing_file,
                    process: self.process,
                    attributes: self.attributes,
                    quantity: self.quantity,
                    selected_part_quote_id: self.selected_part_quote_id,
                    part_quotes: self.part_quotes,
                    created_at,
                    updated_at: self.updated_at,
                },
            ),
            None => Err(Error::UnknownError),
        }
    }

    /// Reads the item where that does not panic; `None` where it would.
    pub fn checked_try_into(self) -> (r: Option<Result<Part, Error>>)
        ensures
            r is Some <==> part_item_readable(self@),
            r is Some ==> part_result_view(r->0) == part_from_item(self@),
    {
        if self.readable() {
            Some(self.try_into())
        } else {
            None
        }
    }

    fn readable(&self) -> (b: bool)
        ensures
            b == part_item_readable(self@),
    {
        let l = split_exec(self.lsi1_sk.as_str(), '&');
        if l.len() == 3 {
            canonical_rfc3339(l[1].as_str()).is_some()
        } else {
            true
        }
    }
}

/// Writing a part and reading it back gives the part, when its quote and part ids hold no
/// separator and its creation time is a separator-free text that chrono writes back unchanged.
pub proof fn lemma_part_item_round_trip(p: PartView)
    requires
        sep_free(p.quotation_id),
        sep_free(p.id),
        sep_free(p.created_at),
        is_canonical_time(p.created_at),
    ensures
        part_item_readable(part_item(p)),
        part_from_item(part_item(p)) == Ok::<PartView, Error>(p),
{
    lemma_split_key3(p.quotation_id, p.created_at, p.id);
}


/// The parts read from the items of a page, in order, or the first error.
pub open spec fn parts_from_item_views(items: Seq<DynamodbPartView>) -> Result<Seq<PartView>, Error>
    decreases items.len(),
{
    if items.len() == 0 {
        Ok(Seq::empty())
    } else {
        match parts_from_item_views(items.drop_last()) {
            Ok(qs) => match part_from_item(items.last()) {
                Ok(q) => Ok(qs.push(q)),
                Err(e) => Err(e),
            },
            Err(e) => Err(e),
        }
    }
}

/// Reads every item of a page; every item must be readable.
pub fn parts_from_items(items: Vec<DynamodbPart>) -> (r: Result<Vec<Part>, Error>)
    requires
        forall|i: int| 0 <= i < items.len() ==> part_item_readable(#[trigger] items@[i]@),
    ensures
        match r {
            Ok(v) => parts_from_item_views(items@.map_values(|x: DynamodbPart| x@)) == Ok::<Seq<PartView>, Error>(parts_view(v@)),
            Err(e) => parts_from_item_views(items@.map_values(|x: DynamodbPart| x@)) == Err::<Seq<PartView>, Error>(e),
        },
{
    let ghost orig = items@;
    let ghost iv = items@.map_values(|x: DynamodbPart| x@);
    let n = items.len();
    let mut out: Vec<Part> = Vec::new();
    let mut remaining = items;
    let mut k: usize = 0;
    proof {
        assert(iv.take(0) =~= Seq::<DynamodbPartView>::empty());
        assert(parts_view(out@) =~= Seq::<PartView>::empty());
    }
    while remaining.len() > 0
        invariant
            k + remaining.len() == n,
            n == orig.len(),
            orig == items@,
            iv == orig.map_values(|x: DynamodbPart| x@),
            remaining@ == orig.subrange(k as int, n as int),
            forall|i: int| 0 <= i < orig.len() ==> part_item_readable(#[trigger] orig[i]@),
            parts_from_item_views(iv.take(k as int)) == Ok::<Seq<PartView>, Error>(parts_view(out@)),
        decreases remaining.len(),
    {
        let x = remaining.remove(0);
        proof {
            assert(x == orig[k as int]);
            assert(remaining@ =~= orig.subrange(k + 1, n as int));
            assert(iv.take(k + 1).drop_last() =~= iv.take(k as int));
            assert(iv.take(k + 1).last() == x@);
        }
        match x.try_into() {
            Ok(q) => {
                let ghost before_out = out@;
                out.push(q);
                proof {
                    assert(parts_view(out@) =~= parts_view(before_out).push(q@));
                }
            },
            Err(e) => {
                proof {
                    assert(part_from_item(x@) == Err::<PartView, Error>(e));
                    assert(parts_from_item_views(iv.take(k + 1)) == Err::<Seq<PartView>, Error>(e));
                    lemma_parts_error_prefix(iv, (k + 1) as int, e);
                    assert(iv == orig.map_values(|x: DynamodbPart| x@));
                }
                return Err(e);
            },
        }
        k = k + 1;
    }
    proof {
        assert(iv.take(n as int) =~= iv);
    }
    Ok(out)
}

/// Once a prefix of the items reads with an error, every longer prefix does too.
proof fn lemma_parts_error_prefix(items: Seq<DynamodbPartView>, k: int, e: Error)
    requires
        0 <= k <= items.len(),
        parts_from_item_views(items.take(k)) == Err::<Seq<PartView>, Error>(e),
    ensures
        parts_from_item_views(items) == Err::<Seq<PartView>, Error>(e),
    decreases items.len() - k,
{
    if k < items.len() {
        assert(items.take(k + 1).drop_last() =~= items.take(k));
        lemma_parts_error_prefix(items, k + 1, e);
    } else {
        assert(items.take(k) =~= items);
    }
}


/// The query of one page of the parts of a quotation.
pub fn parts_query_plan(customer_id: CustomerId, quotation_id: QuoteId, cursor: Option<String>, limit: i32) -> (plan: QueryPlan)
    ensures
        plan@.index_name == "LSI1_QuoteAndCreationDateTime"@,
        plan@.key_condition_expression == "pk = :customer_id AND begins_with(lsi1_sk, :quotation_id)"@,
        plan@.expression_attribute_values == seq![
            (":customer_id"@, PlanValueView::S(customer_id@)),
            (":quotation_id"@, PlanValueView::S(quotation_id@)),
        ],
        plan.limit == limit,
        plan@.cursor == opt_string_view(cursor),
        plan.scan_index_forward is None,
{
    QueryPlan {
        index_name: String::from_str("LSI1_QuoteAndCreationDateTime"),
        key_condition_expression: String::from_str(
            "pk = :customer_id AND begins_with(lsi1_sk, :quotation_id)",
        ),
        expression_attribute_values: two_values(
            s_value(":customer_id", customer_id),
            s_value(":quotation_id", quotation_id),
        ),
        limit,
        cursor,
        scan_index_forward: None,
    }
}

/// The clauses of a part update, each with its value: the fields that are given, then
/// the selected quote (cleared when none is given), then the quotes if they are to be cleared.
pub open spec fn part_update_clauses(u: UpdatablePart) -> Seq<(Seq<char>, (Seq<char>, PlanValueView))> {
    (match u.drawing_file {
        Some(f) => seq![(", drawing_file = :drawing_file"@, (":drawing_file"@, PlanValueView::File(f@)))],
        None => Seq::empty(),
    }) + (match u.process {
        Some(p) => seq![(", process = :process"@, (":process"@, PlanValueView::S(p@)))],
        None => Seq::empty(),
    }) + (match u.attributes {
        Some(a) => seq![(", attributes = :attributes"@, (":attributes"@, PlanValueView::Attributes(a@)))],
        None => Seq::empty(),
    }) + (match u.quantity {
        Some(q) => seq![(", quantity = :quantity"@, (":quantity"@, PlanValueView::N(decimal(q as nat))))],
        None => Seq::empty(),
    }) + seq![
        (
            ", selected_part_quote_id = :selected_part_quote_id"@,
            (
                ":selected_part_quote_id"@,
                match u.selected_part_quote_id {
                    Some(id) => PlanValueView::S(id@),
                    None => PlanValueView::Null,
                },
            ),
        ),
    ] + (if u.clear_part_quotes == Some(true) {
        seq![(", part_quotes = :part_quotes"@, (":part_quotes"@, PlanValueView::Null))]
    } else {
        Seq::empty()
    })
}

/// The texts of the clauses, one after the other.
pub open spec fn concat_clauses(c: Seq<(Seq<char>, (Seq<char>, PlanValueView))>) -> Seq<char>
    decreases c.len(),
{
    if c.len() == 0 {
        Seq::empty()
    } else {
        concat_clauses(c.drop_last()) + c.last().0
    }
}

proof fn lemma_concat_clauses_push(c: Seq<(Seq<char>, (Seq<char>, PlanValueView))>, x: (Seq<char>, (Seq<char>, PlanValueView)))
    ensures
        concat_clauses(c.push(x)) == concat_clauses(c) + x.0,
{
    assert(c.push(x).drop_last() =~= c);
}

/// `t` occurs in `s`.
pub open spec fn has_text(s: Seq<char>, t: Seq<char>) -> bool {
    exists|i: int| 0 <= i && i + t.len() <= s.len() && #[trigger] s.subrange(i, i + t.len()) == t
}

proof fn lemma_concat_clauses_append(a: Seq<(Seq<char>, (Seq<char>, PlanValueView))>, b: Seq<(Seq<char>, (Seq<char>, PlanValueView))>)
    ensures
        concat_clauses(a + b) == concat_clauses(a) + concat_clauses(b),
    decreases b.len(),
{
    if b.len() == 0 {
        assert(a + b =~= a);
        assert(concat_clauses(a) + concat_clauses(b) =~= concat_clauses(a));
    } else {
        assert((a + b).drop_last() =~= a + b.drop_last());
        assert((a + b).last() == b.last());
        lemma_concat_clauses_append(a, b.drop_last());
        assert(concat_clauses(a + b) =~= concat_clauses(a) + concat_clauses(b));
    }
}

/// Each clause's text occurs in the texts of the clauses.
proof fn lemma_clause_in_concat(c: Seq<(Seq<char>, (Seq<char>, PlanValueView))>, k: int)
    requires
        0 <= k < c.len(),
    ensures
        has_text(concat_clauses(c), c[k].0),
{
    let a = c.take(k);
    let x = seq![c[k]];
    let rest = c.skip(k + 1);
    assert(c =~= a + (x + rest));
    lemma_concat_clauses_append(a, x + rest);
    lemma_concat_clauses_append(x, rest);
    assert(x.drop_last() =~= Seq::<(Seq<char>, (Seq<char>, PlanValueView))>::empty());
    assert(concat_clauses(Seq::<(Seq<char>, (Seq<char>, PlanValueView))>::empty()) =~= Seq::<char>::empty());
    assert(x.last() == c[k]);
    assert(concat_clauses(x) =~= c[k].0);
    let l = concat_clauses(a).len() as int;
    let whole = concat_clauses(c);
    assert(whole =~= concat_clauses(a) + c[k].0 + concat_clauses(rest));
    assert(whole.subrange(l, l + c[k].0.len()) =~= c[k].0);
}

proof fn lemma_has_text_after(p: Seq<char>, s: Seq<char>, t: Seq<char>)
    requires
        has_text(s, t),
    ensures
        has_text(p + s, t),
{
    let i = choose|i: int| 0 <= i && i + t.len() <= s.len() && #[trigger] s.subrange(i, i + t.len()) == t;
    assert((p + s).subrange(i + p.len(), i + p.len() + t.len()) =~= s.subrange(i, i + t.len()));
}

/// A clause's value is among the values of an update made of the clauses.
proof fn lemma_clause_value_listed(c: Seq<(Seq<char>, (Seq<char>, PlanValueView))>, k: int, first: (Seq<char>, PlanValueView))
    requires
        0 <= k < c.len(),
    ensures
        (seq![first] + c.map_values(|x: (Seq<char>, (Seq<char>, PlanValueView))| x.1)).contains(c[k].1),
{
    let v = seq![first] + c.map_values(|x: (Seq<char>, (Seq<char>, PlanValueView))| x.1);
    assert(v[k + 1] == c[k].1);
}

/// A clause among the clauses is written: its text is in the expression and its value
/// among the values.
proof fn lemma_clause_written(c: Seq<(Seq<char>, (Seq<char>, PlanValueView))>, x: (Seq<char>, (Seq<char>, PlanValueView)), prefix: Seq<char>, first: (Seq<char>, PlanValueView))
    requires
        c.contains(x),
    ensures
        has_text(prefix + concat_clauses(c), x.0),
        (seq![first] + c.map_values(|y: (Seq<char>, (Seq<char>, PlanValueView))| y.1)).contains(x.1),
{
    let k = choose|k: int| 0 <= k < c.len() && c[k] == x;
    lemma_clause_in_concat(c, k);
    lemma_has_text_after(prefix, concat_clauses(c), x.0);
    lemma_clause_value_listed(c, k, first);
}

/// An update writes every field it is given: the field's clause is in the update
/// expression and its value among the values. The selected quote is always written
/// (cleared without one), and the quotes are cleared when asked to be.
pub proof fn lemma_part_update_given_fields(u: UpdatablePart)
    ensures
        u.drawing_file matches Some(f) ==> part_update_clauses(u).contains(
            (", drawing_file = :drawing_file"@, (":drawing_file"@, PlanValueView::File(f@))),
        ),
        u.process matches Some(p) ==> part_update_clauses(u).contains(
            (", process = :process"@, (":process"@, PlanValueView::S(p@))),
        ),
        u.attributes matches Some(a) ==> part_update_clauses(u).contains(
            (", attributes = :attributes"@, (":attributes"@, PlanValueView::Attributes(a@))),
        ),
        u.quantity matches Some(q) ==> part_update_clauses(u).contains(
            (", quantity = :quantity"@, (":quantity"@, PlanValueView::N(decimal(q as nat)))),
        ),
        u.selected_part_quote_id matches Some(id) ==> part_update_clauses(u).contains(
            (
                ", selected_part_quote_id = :selected_part_quote_id"@,
                (":selected_part_quote_id"@, PlanValueView::S(id@)),
            ),
        ),
        u.selected_part_quote_id is None ==> part_update_clauses(u).contains(
            (
                ", selected_part_quote_id = :selected_part_quote_id"@,
                (":selected_part_quote_id"@, PlanValueView::Null),
            ),
        ),
        u.clear_part_quotes == Some(true) ==> part_update_clauses(u).contains(
            (", part_quotes = :part_quotes"@, (":part_quotes"@, PlanValueView::Null)),
        ),
{
    let c = part_update_clauses(u);
    let d: int = if u.drawing_file is Some { 1 } else { 0 };
    let pr: int = if u.process is Some { 1 } else { 0 };
    let at: int = if u.attributes is Some { 1 } else { 0 };
    let qt: int = if u.quantity is Some { 1 } else { 0 };
    if let Some(f) = u.drawing_file {
        assert(c[0] == (", drawing_file = :drawing_file"@, (":drawing_file"@, PlanValueView::File(f@))));
    }
    if let Some(p) = u.process {
        assert(c[d] == (", process = :process"@, (":process"@, PlanValueView::S(p@))));
    }
    if let Some(a) = u.attributes {
        assert(c[d + pr] == (", attributes = :attributes"@, (":attributes"@, PlanValueView::Attributes(a@))));
    }
    if let Some(q) = u.quantity {
        assert(c[d + pr + at] == (", quantity = :quantity"@, (":quantity"@, PlanValueView::N(decimal(q as nat)))));
    }
    assert(c[d + pr + at + qt].0 == ", selected_part_quote_id = :selected_part_quote_id"@);
    if u.clear_part_quotes == Some(true) {
        assert(c[d + pr + at + qt + 1] == (", part_quotes = :part_quotes"@, (":part_quotes"@, PlanValueView::Null)));
    }
}

/// Adds one clause to an update under construction.
fn add_clause(
    expression: &mut String,
    values: &mut Vec<(String, PlanValue)>,
    Ghost(clauses): Ghost<Seq<(Seq<char>, (Seq<char>, PlanValueView))>>,
    clause: &str,
    name: &str,
    value: PlanValue,
) -> (r: Ghost<Seq<(Seq<char>, (Seq<char>, PlanValueView))>>)
    requires
        old(expression)@ == "SET updated_at = :updated_at"@ + concat_clauses(clauses),
        values_view(old(values)@) == seq![(":updated_at"@, old(values)@[0].1@)] + clauses.map_values(|c: (Seq<char>, (Seq<char>, PlanValueView))| c.1),
        old(values)@.len() >= 1,
    ensures
        r@ == clauses.push((clause@, (name@, value@))),
        final(expression)@ == "SET updated_at = :updated_at"@ + concat_clauses(r@),
        values_view(final(values)@) == seq![(":updated_at"@, old(values)@[0].1@)] + r@.map_values(|c: (Seq<char>, (Seq<char>, PlanValueView))| c.1),
        final(values)@.len() >= 1,
        final(values)@[0] == old(values)@[0],
{
    let ghost new_clauses = clauses.push((clause@, (name@, value@)));
    let ghost old_values = values@;
    expression.append(clause);
    values.push((String::from_str(name), value));
    proof {
        lemma_concat_clauses_push(clauses, (clause@, (name@, value@)));
        assert(new_clauses.map_values(|c: (Seq<char>, (Seq<char>, PlanValueView))| c.1) =~= clauses.map_values(|c: (Seq<char>, (Seq<char>, PlanValueView))| c.1).push((name@, value@)));
        assert(values_view(values@) =~= values_view(old_values).push((name@, value@)));
    }
    Ghost(new_clauses)
}

/// What `part_update_plan` writes, field by field, from the update it is made of.
proof fn lemma_part_update_plan_writes(
    u0: UpdatablePart,
    now: Seq<char>,
    expression: Seq<char>,
    values: Seq<(Seq<char>, PlanValueView)>,
)
    requires
        expression == "SET updated_at = :updated_at"@ + concat_clauses(part_update_clauses(u0)),
        values == seq![(":updated_at"@, PlanValueView::S(now))]
            + part_update_clauses(u0).map_values(|c: (Seq<char>, (Seq<char>, PlanValueView))| c.1),
    ensures
        u0.drawing_file matches Some(f) ==> has_text(expression, ", drawing_file = :drawing_file"@)
            && values.contains((":drawing_file"@, PlanValueView::File(f@))),
        u0.process matches Some(p) ==> has_text(expression, ", process = :process"@)
            && values.contains((":process"@, PlanValueView::S(p@))),
        u0.attributes matches Some(a) ==> has_text(expression, ", attributes = :attributes"@)
            && values.contains((":attributes"@, PlanValueView::Attributes(a@))),
        u0.quantity matches Some(q) ==> has_text(expression, ", quantity = :quantity"@)
            && values.contains((":quantity"@, PlanValueView::N(decimal(q as nat)))),
        has_text(expression, ", selected_part_quote_id = :selected_part_quote_id"@),
        u0.selected_part_quote_id matches Some(id) ==> values.contains(
            (":selected_part_quote_id"@, PlanValueView::S(id@)),
        ),
        u0.selected_part_quote_id is None ==> values.contains(
            (":selected_part_quote_id"@, PlanValueView::Null),
        ),
        u0.clear_part_quotes == Some(true) ==> has_text(expression, ", part_quotes = :part_quotes"@)
            && values.contains((":part_quotes"@, PlanValueView::Null)),
{
        let c = part_update_clauses(u0);
        let pre = "SET updated_at = :updated_at"@;
        let first = (":updated_at"@, PlanValueView::S(now));
        lemma_part_update_given_fields(u0);
        if let Some(f) = u0.drawing_file {
            lemma_clause_written(c, (", drawing_file = :drawing_file"@, (":drawing_file"@, PlanValueView::File(f@))), pre, first);
        }
        if let Some(p) = u0.process {
            lemma_clause_written(c, (", process = :process"@, (":process"@, PlanValueView::S(p@))), pre, first);
        }
        if let Some(a) = u0.attributes {
            lemma_clause_written(c, (", attributes = :attributes"@, (":attributes"@, PlanValueView::Attributes(a@))), pre, first);
        }
        if let Some(q) = u0.quantity {
            lemma_clause_written(c, (", quantity = :quantity"@, (":quantity"@, PlanValueView::N(decimal(q as nat)))), pre, first);
        }
        match u0.selected_part_quote_id {
            Some(id) => {
                lemma_clause_written(c, (", selected_part_quote_id = :selected_part_quote_id"@, (":selected_part_quote_id"@, PlanValueView::S(id@))), pre, first);
            },
            None => {
                lemma_clause_written(c, (", selected_part_quote_id = :selected_part_quote_id"@, (":selected_part_quote_id"@, PlanValueView::Null)), pre, first);
            },
        }
        if u0.clear_part_quotes == Some(true) {
            lemma_clause_written(c, (", part_quotes = :part_quotes"@, (":part_quotes"@, PlanValueView::Null)), pre, first);
        }
    
}

/// The update of a part: its time of update, the fields given, the selected quote
/// (cleared when none is given), and the quotes if they are to be cleared. Values that
/// are maps are sent as serde_dynamo writes them.
pub fn part_update_plan(updatable_part: UpdatablePart, now: String) -> (plan: UpdatePlan)
    ensures
        plan@.pk == updatable_part.customer_id@,
        plan@.sk == updatable_part.id@,
        plan@.condition_expression is None,
        plan@.update_expression == "SET updated_at = :updated_at"@ + concat_clauses(part_update_clauses(updatable_part)),
        plan@.expression_attribute_values == seq![(":updated_at"@, PlanValueView::S(now@))]
            + part_update_clauses(updatable_part).map_values(|c: (Seq<char>, (Seq<char>, PlanValueView))| c.1),
        updatable_part.drawing_file matches Some(f) ==> has_text(plan@.update_expression, ", drawing_file = :drawing_file"@)
            && plan@.expression_attribute_values.contains((":drawing_file"@, PlanValueView::File(f@))),
        updatable_part.process matches Some(p) ==> has_text(plan@.update_expression, ", process = :process"@)
            && plan@.expression_attribute_values.contains((":process"@, PlanValueView::S(p@))),
        updatable_part.attributes matches Some(a) ==> has_text(plan@.update_expression, ", attributes = :attributes"@)
            && plan@.expression_attribute_values.contains((":attributes"@, PlanValueView::Attributes(a@))),
        updatable_part.quantity matches Some(q) ==> has_text(plan@.update_expression, ", quantity = :quantity"@)
            && plan@.expression_attribute_values.contains((":quantity"@, PlanValueView::N(decimal(q as nat)))),
        has_text(plan@.update_expression, ", selected_part_quote_id = :selected_part_quote_id"@),
        updatable_part.selected_part_quote_id matches Some(id) ==> plan@.expression_attribute_values.contains(
            (":selected_part_quote_id"@, PlanValueView::S(id@)),
        ),
        updatable_part.selected_part_quote_id is None ==> plan@.expression_attribute_values.contains(
            (":selected_part_quote_id"@, PlanValueView::Null),
        ),
        updatable_part.clear_part_quotes == Some(true) ==> has_text(plan@.update_expression, ", part_quotes = :part_quotes"@)
            && plan@.expression_attribute_values.contains((":part_quotes"@, PlanValueView::Null)),
{
    let ghost u = updatable_part;
    let UpdatablePart {
        id,
        customer_id,
        drawing_file,
        process,
        attributes,
        quantity,
        selected_part_quote_id,
        clear_part_quotes,
    } = updatable_part;
    let mut expression = String::from_str("SET updated_at = :updated_at");
    let mut values = one_value(s_value(":updated_at", now));
    let ghost empty = Seq::<(Seq<char>, (Seq<char>, PlanValueView))>::empty();
    let mut clauses: Ghost<Seq<(Seq<char>, (Seq<char>, PlanValueView))>> = Ghost(empty);
    proof {
        assert(expression@ =~= "SET updated_at = :updated_at"@ + concat_clauses(empty));
        assert(values_view(values@) =~= seq![(":updated_at"@, values@[0].1@)] + empty.map_values(|c: (Seq<char>, (Seq<char>, PlanValueView))| c.1));
    }
    match drawing_file {
        Some(f) => {
            clauses = add_clause(&mut expression, &mut values, clauses, ", drawing_file = :drawing_file", ":drawing_file", PlanValue::File(f));
        },
        None => {},
    }
    match process {
        Some(p) => {
            clauses = add_clause(&mut expression, &mut values, clauses, ", process = :process", ":process", PlanValue::S(p));
        },
        None => {},
    }
    match attributes {
        Some(a) => {
            clauses = add_clause(&mut expression, &mut values, clauses, ", attributes = :attributes", ":attributes", PlanValue::Attributes(a));
        },
        None => {},
    }
    match quantity {
        Some(q) => {
            clauses = add_clause(&mut expression, &mut values, clauses, ", quantity = :quantity", ":quantity", PlanValue::N(u64_to_string(q)));
        },
        None => {},
    }
    let selected = match selected_part_quote_id {
        Some(id) => PlanValue::S(id),
        None => PlanValue::Null,
    };
    clauses = add_clause(&mut expression, &mut values, clauses, ", selected_part_quote_id = :selected_part_quote_id", ":selected_part_quote_id", selected);
    let clear = match clear_part_quotes {
        Some(b) => b,
        None => false,
    };
    if clear {
        clauses = add_clause(&mut expression, &mut values, clauses, ", part_quotes = :part_quotes", ":part_quotes", PlanValue::Null);
    }
    proof {
        assert(clauses@ =~= part_update_clauses(u));
    }
    let plan = UpdatePlan { pk: customer_id, sk: id, update_expression: expression, condition_expression: None, expression_attribute_values: values };
    proof {
        lemma_part_update_plan_writes(u, now@, plan@.update_expression, plan@.expression_attribute_values);
    }
    plan
}

/// The update, within a transaction, that stores the quotes of a part and the one selected.
pub fn transaction_create_part_quotes(
    customer_id: CustomerId,
    part_id: PartId,
    selected_part_quote_id: PartQuoteId,
    part_quotes: Vec<PartQuote>,
) -> (plan: UpdatePlan)
    ensures
        plan.pk == customer_id,
        plan.sk == part_id,
        plan@.update_expression == "SET part_quotes = :part_quotes, selected_part_quote_id = :selected_part_quote_id"@,
        plan@.condition_expression is None,
        plan@.expression_attribute_values == seq![
            (":part_quotes"@, PlanValueView::PartQuotes(part_quotes@.map_values(|x: PartQuote| x@))),
            (":selected_part_quote_id"@, PlanValueView::S(selected_part_quote_id@)),
        ],
{
    UpdatePlan {
        pk: customer_id,
        sk: part_id,
        update_expression: String::from_str(
            "SET part_quotes = :part_quotes, selected_part_quote_id = :selected_part_quote_id",
        ),
        condition_expression: None,
        expression_attribute_values: two_values(
            (String::from_str(":part_quotes"), PlanValue::PartQuotes(part_quotes)),
            s_value(":selected_part_quote_id", selected_part_quote_id),
        ),
    }
}

/// The keys of the parts to delete in a batch, in order.
pub fn part_batch_delete_keys(data: Vec<BatchDeletePartObject>) -> (keys: Vec<ItemKey>)
    ensures
        keys.len() == data.len(),
        forall|i: int|
            0 <= i < data.len() ==> #[trigger] keys[i].pk == data[i].customer_id && keys[i].sk
                == data[i].part_id,
{
    let mut keys: Vec<ItemKey> = Vec::new();
    let mut i: usize = 0;
    while i < data.len()
        invariant
            i <= data.len(),
            keys.len() == i,
            forall|k: int|
                0 <= k < i ==> #[trigger] keys[k].pk == data[k].customer_id && keys[k].sk
                    == data[k].part_id,
        decreases data.len() - i,
    {
        keys.push(ItemKey { pk: data[i].customer_id.clone(), sk: data[i].part_id.clone() });
        i = i + 1;
    }
    keys
}

/// The keys of the parts to read in a batch, in order: customer and part id.
pub fn part_batch_get_keys(customer_and_part_ids: Vec<(CustomerId, PartId)>) -> (keys: Vec<ItemKey>)
    ensures
        keys.len() == customer_and_part_ids.len(),
        forall|i: int|
            0 <= i < keys.len() ==> #[trigger] keys[i].pk == customer_and_part_ids[i].0 && keys[i].sk
                == customer_and_part_ids[i].1,
{
    let mut keys: Vec<ItemKey> = Vec::new();
    let mut i: usize = 0;
    while i < customer_and_part_ids.len()
        invariant
            i <= customer_and_part_ids.len(),
            keys.len() == i,
            forall|k: int|
                0 <= k < i ==> #[trigger] keys[k].pk == customer_and_part_ids[k].0 && keys[k].sk
                    == customer_and_part_ids[k].1,
        decreases customer_and_part_ids.len() - i,
    {
        let pk = customer_and_part_ids[i].0.clone();
        let sk = customer_and_part_ids[i].1.clone();
        keys.push(ItemKey { pk, sk });
        i = i + 1;
    }
    keys
}

/// The items written for a batch of new parts, in order.
pub fn parts_to_items(parts: Vec<Part>) -> (items: Vec<DynamodbPart>)
    ensures
        items.len() == parts.len(),
        forall|i: int| 0 <= i < parts.len() ==> #[trigger] items[i]@ == part_item(parts[i]@),
{
    let ghost orig = parts@;
    let n = parts.len();
    let mut remaining = parts;
    let mut items: Vec<DynamodbPart> = Vec::new();
    let mut k: usize = 0;
    while remaining.len() > 0
        invariant
            k + remaining.len() == n,
            n == orig.len(),
            orig == parts@,
            remaining@ == orig.subrange(k as int, n as int),
            items.len() == k,
            forall|i: int| 0 <= i < k ==> #[trigger] items[i]@ == part_item(orig[i]@),
        decreases remaining.len(),
    {
        let p = remaining.remove(0);
        proof {
            assert(p == orig[k as int]);
            assert(remaining@ =~= orig.subrange(k + 1, n as int));
        }
        items.push(DynamodbPart::from(p));
        k = k + 1;
    }
    items
}


/// Reads every item of a page where that does not panic: `None` where some item is
/// unreadable, else what `parts_from_items` gives.
pub fn checked_parts_from_items(items: Vec<DynamodbPart>) -> (r: Option<Result<Vec<Part>, Error>>)
    ensures
        r is Some <==> forall|i: int| 0 <= i < items.len() ==> part_item_readable(#[trigger] items@[i]@),
        match r {
            Some(Ok(v)) => parts_from_item_views(items@.map_values(|x: DynamodbPart| x@)) == Ok::<Seq<PartView>, Error>(parts_view(v@)),
            Some(Err(e)) => parts_from_item_views(items@.map_values(|x: DynamodbPart| x@)) == Err::<Seq<PartView>, Error>(e),
            None => true,
        },
{
    let mut i: usize = 0;
    while i < items.len()
        invariant
            i <= items.len(),
            forall|k: int| 0 <= k < i ==> part_item_readable(#[trigger] items@[k]@),
        decreases items.len() - i,
    {
        if !items[i].readable() {
            return None;
        }
        i = i + 1;
    }
    Some(parts_from_items(items))
}

} // verus!
