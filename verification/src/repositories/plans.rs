//! The requests the repositories send: queries, updates, deletes and keys. They are
//! sent by the service around this crate.

use vstd::prelude::*;
use crate::error::Error;
use crate::models::{File, FileView, PartQuote, PartQuoteView, opt_string_view};

verus! {

/// A value in a request: a DynamoDB attribute, or a value that is stored as the map
/// (or list of maps) that serde_dynamo writes for it.
#[derive(Debug, Clone, PartialEq, Eq)]
pub enum PlanValue {
    S(String),
    N(String),
    Bool(bool),
    Null,
    File(File),
    Attributes(String),
    PartQuotes(Vec<PartQuote>),
}

pub enum PlanValueView {
    S(Seq<char>),
    N(Seq<char>),
    Bool(bool),
    Null,
    File(FileView),
    Attributes(Seq<char>),
    PartQuotes(Seq<PartQuoteView>),
}

impl View for PlanValue {
    type V = PlanValueView;

    open spec fn view(&self) -> PlanValueView {
        match self {
            PlanValue::S(s) => PlanValueView::S(s@),
            PlanValue::N(s) => PlanValueView::N(s@),
            PlanValue::Bool(b) => PlanValueView::Bool(*b),
            PlanValue::Null => PlanValueView::Null,
            PlanValue::File(f) => PlanValueView::File(f@),
            PlanValue::Attributes(a) => PlanValueView::Attributes(a@),
            PlanValue::PartQuotes(q) => PlanValueView::PartQuotes(q@.map_values(|x: PartQuote| x@)),
        }
    }
}

pub open spec fn values_view(v: Seq<(String, PlanValue)>) -> Seq<(Seq<char>, PlanValueView)> {
    v.map_values(|p: (String, PlanValue)| (p.0@, p.1@))
}

/// A query of an index.
#[derive(Debug, Clone, PartialEq, Eq)]
pub struct QueryPlan {
    pub index_name: String,
    pub key_condition_expression: String,
    pub expression_attribute_values: Vec<(String, PlanValue)>,
    pub limit: i32,
    /// The cursor of the page to start at, as the client sent it.
    pub cursor: Option<String>,
    /// `Some(false)` asks for newest first; `None` leaves DynamoDB's order.
    pub scan_index_forward: Option<bool>,
}

pub struct QueryPlanView {
    pub index_name: Seq<char>,
    pub key_condition_expression: Seq<char>,
    pub expression_attribute_values: Seq<(Seq<char>, PlanValueView)>,
    pub limit: i32,
    pub cursor: Option<Seq<char>>,
    pub scan_index_forward: Option<bool>,
}

impl View for QueryPlan {
    type V = QueryPlanView;

    open spec fn view(&self) -> QueryPlanView {
        QueryPlanView {
            index_name: self.index_name@,
            key_condition_expression: self.key_condition_expression@,
            expression_attribute_values: values_view(self.expression_attribute_values@),
            limit: self.limit,
            cursor: opt_string_view(self.cursor),
            scan_index_forward: self.scan_index_forward,
        }
    }
}

/// An update of one item.
#[derive(Debug, Clone, PartialEq, Eq)]
pub struct UpdatePlan {
    pub pk: String,
    pub sk: String,
    pub update_expression: String,
    pub condition_expression: Option<String>,
    pub expression_attribute_values: Vec<(String, PlanValue)>,
}

pub struct UpdatePlanView {
    pub pk: Seq<char>,
    pub sk: Seq<char>,
    pub update_expression: Seq<char>,
    pub condition_expression: Option<Seq<char>>,
    pub expression_attribute_values: Seq<(Seq<char>, PlanValueView)>,
}

impl View for UpdatePlan {
    type V = UpdatePlanView;

    open spec fn view(&self) -> UpdatePlanView {
        UpdatePlanView {
            pk: self.pk@,
            sk: self.sk@,
            update_expression: self.update_expression@,
            condition_expression: opt_string_view(self.condition_expression),
            expression_attribute_values: values_view(self.expression_attribute_values@),
        }
    }
}

/// A conditional delete of one item.
#[derive(Debug, Clone, PartialEq, Eq)]
pub struct DeletePlan {
    pub pk: String,
    pub sk: String,
    pub condition_expression: String,
    pub expression_attribute_values: Vec<(String, PlanValue)>,
}

/// The text of an optional value, or a default.
pub open spec fn opt_or(o: Option<String>, d: Seq<char>) -> Seq<char> {
    match o {
        Some(s) => s@,
        None => d,
    }
}

/// Why DynamoDB refused a conditional delete.
#[derive(Debug, Clone, Copy, PartialEq, Eq, Structural)]
pub enum DeleteFailure {
    /// The item's condition did not hold.
    ConditionalCheckFailed,
    /// Another error of the service.
    OtherServiceError,
    /// The request did not reach the service or its answer was not understood.
    RequestFailed,
}

/// Why reading an item gave no model.
#[derive(Debug, Clone, Copy, PartialEq, Eq, Structural)]
pub enum ReadFailure {
    /// The table holds no such item.
    NoItem,
    /// The item could not be deserialised.
    Undecodable,
    /// The request failed.
    RequestFailed,
}

/// A missing item is reported as such; every other failure is an unknown error.
pub fn read_failure_error(failure: ReadFailure) -> (e: Error)
    ensures
        e == (match failure {
            ReadFailure::NoItem => Error::ItemNotFoundError,
            _ => Error::UnknownError,
        }),
{
    match failure {
        ReadFailure::NoItem => Error::ItemNotFoundError,
        _ => Error::UnknownError,
    }
}

/// The key of an item: its partition and sort key.
#[derive(Debug, Clone, PartialEq, Eq)]
pub struct ItemKey {
    pub pk: String,
    pub sk: String,
}

pub fn s_value(name: &str, value: String) -> (p: (String, PlanValue))
    ensures
        p.0@ == name@,
        p.1@ == PlanValueView::S(value@),
{
    (String::from_str(name), PlanValue::S(value))
}

pub fn two_values(a: (String, PlanValue), b: (String, PlanValue)) -> (v: Vec<(String, PlanValue)>)
    ensures
        values_view(v@) == seq![(a.0@, a.1@), (b.0@, b.1@)],
{
    let mut v = Vec::new();
    v.push(a);
    v.push(b);
    proof {
        assert(values_view(v@) =~= seq![(a.0@, a.1@), (b.0@, b.1@)]);
    }
    v
}

pub fn three_values(a: (String, PlanValue), b: (String, PlanValue), c: (String, PlanValue)) -> (v: Vec<(String, PlanValue)>)
    ensures
        values_view(v@) == seq![(a.0@, a.1@), (b.0@, b.1@), (c.0@, c.1@)],
{
    let mut v = Vec::new();
    v.push(a);
    v.push(b);
    v.push(c);
    proof {
        assert(values_view(v@) =~= seq![(a.0@, a.1@), (b.0@, b.1@), (c.0@, c.1@)]);
    }
    v
}

pub fn one_value(a: (String, PlanValue)) -> (v: Vec<(String, PlanValue)>)
    ensures
        values_view(v@) == seq![(a.0@, a.1@)],
{
    let mut v = Vec::new();
    v.push(a);
    proof {
        assert(values_view(v@) =~= seq![(a.0@, a.1@)]);
    }
    v
}

} // verus!
