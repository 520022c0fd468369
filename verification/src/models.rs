//! The data the service works on, each with its mathematical view.
//! Points in time are kept as the RFC 3339 text that chrono's `to_rfc3339`
//! writes for them; calendar days as their number counted from January 1 of year 1.

use vstd::prelude::*;
use crate::error::STATUS_UNAUTHORIZED;

verus! {

pub type CustomerId = String;
pub type ProjectId = String;
pub type QuoteId = String;
pub type PartId = String;
pub type PartQuoteId = String;
pub type OrderId = String;
pub type FileId = String;

/// A stored file: its display name and its object storage key.
#[derive(Debug, Clone, PartialEq, Eq, Default)]
pub struct File {
    pub name: String,
    pub key: String,
}

pub struct FileView {
    pub name: Seq<char>,
    pub key: Seq<char>,
}

impl View for File {
    type V = FileView;

    open spec fn view(&self) -> FileView {
        FileView { name: self.name@, key: self.key@ }
    }
}

impl File {
    pub fn new(name: String, key: String) -> (f: File)
        ensures
            f.name == name,
            f.key == key,
    {
        File { name, key }
    }
}

pub open spec fn opt_file_view(f: Option<File>) -> Option<FileView> {
    match f {
        Some(f) => Some(f@),
        None => None,
    }
}

pub open spec fn opt_string_view(s: Option<String>) -> Option<Seq<char>> {
    match s {
        Some(s) => Some(s@),
        None => None,
    }
}

/// ISO 4217 currency; the two the service prices in, and any other by its code.
#[derive(Debug, Clone, PartialEq, Eq)]
pub enum Currency {
    MXN,
    USD,
    Other(String),
}

pub enum CurrencyView {
    MXN,
    USD,
    Other(Seq<char>),
}

impl View for Currency {
    type V = CurrencyView;

    open spec fn view(&self) -> CurrencyView {
        match self {
            Currency::MXN => CurrencyView::MXN,
            Currency::USD => CurrencyView::USD,
            Currency::Other(c) => CurrencyView::Other(c@),
        }
    }
}

/// An amount of money in the currency's smallest unit.
#[derive(Debug, Clone, PartialEq, Eq)]
pub struct Money {
    pub amount: i64,
    pub currency: Currency,
}

pub struct MoneyView {
    pub amount: int,
    pub currency: CurrencyView,
}

impl View for Money {
    type V = MoneyView;

    open spec fn view(&self) -> MoneyView {
        MoneyView { amount: self.amount as int, currency: self.currency@ }
    }
}

impl Default for Money {
    fn default() -> (m: Money)
        ensures
            m.amount == 0,
            m.currency == Currency::MXN,
    {
        Money { amount: 0, currency: Currency::MXN }
    }
}

/// Life cycle of a quotation.
#[derive(Debug, Clone, Copy, PartialEq, Eq, Structural)]
pub enum QuoteStatus {
    Created,
    PendingReview,
    PendingPayment,
    Payed,
}

impl QuoteStatus {
    /// The stored name of the status (SCREAMING_SNAKE_CASE).
    pub open spec fn name(self) -> Seq<char> {
        match self {
            QuoteStatus::Created => "CREATED"@,
            QuoteStatus::PendingReview => "PENDING_REVIEW"@,
            QuoteStatus::PendingPayment => "PENDING_PAYMENT"@,
            QuoteStatus::Payed => "PAYED"@,
        }
    }

    /// The status whose stored name is `s`, if any.
    pub open spec fn from_name(s: Seq<char>) -> Option<QuoteStatus> {
        if s == "CREATED"@ {
            Some(QuoteStatus::Created)
        } else if s == "PENDING_REVIEW"@ {
            Some(QuoteStatus::PendingReview)
        } else if s == "PENDING_PAYMENT"@ {
            Some(QuoteStatus::PendingPayment)
        } else if s == "PAYED"@ {
            Some(QuoteStatus::Payed)
        } else {
            None
        }
    }

    pub fn to_string(&self) -> (s: String)
        ensures
            s@ == self.name(),
    {
        match self {
            QuoteStatus::Created => String::from_str("CREATED"),
            QuoteStatus::PendingReview => String::from_str("PENDING_REVIEW"),
            QuoteStatus::PendingPayment => String::from_str("PENDING_PAYMENT"),
            QuoteStatus::Payed => String::from_str("PAYED"),
        }
    }

    pub fn parse(s: &str) -> (r: Option<QuoteStatus>)
        ensures
            r == QuoteStatus::from_name(s@),
    {
        if str_eq(s, "CREATED") {
            Some(QuoteStatus::Created)
        } else if str_eq(s, "PENDING_REVIEW") {
            Some(QuoteStatus::PendingReview)
        } else if str_eq(s, "PENDING_PAYMENT") {
            Some(QuoteStatus::PendingPayment)
        } else if str_eq(s, "PAYED") {
            Some(QuoteStatus::Payed)
        } else {
            None
        }
    }
}

/// Life cycle of an order.
#[derive(Debug, Clone, Copy, PartialEq, Eq, Structural)]
pub enum OrderStatus {
    Open,
    Closed,
}

impl OrderStatus {
    /// The stored name of the status (SCREAMING_SNAKE_CASE).
    pub open spec fn name(self) -> Seq<char> {
        match self {
            OrderStatus::Open => "OPEN"@,
            OrderStatus::Closed => "CLOSED"@,
        }
    }

    pub open spec fn from_name(s: Seq<char>) -> Option<OrderStatus> {
        if s == "OPEN"@ {
            Some(OrderStatus::Open)
        } else if s == "CLOSED"@ {
            Some(OrderStatus::Closed)
        } else {
            None
        }
    }

    pub fn to_string(&self) -> (s: String)
        ensures
            s@ == self.name(),
    {
        match self {
            OrderStatus::Open => String::from_str("OPEN"),
            OrderStatus::Closed => String::from_str("CLOSED"),
        }
    }

    pub fn parse(s: &str) -> (r: Option<OrderStatus>)
        ensures
            r == OrderStatus::from_name(s@),
    {
        if str_eq(s, "OPEN") {
            Some(OrderStatus::Open)
        } else if str_eq(s, "CLOSED") {
            Some(OrderStatus::Closed)
        } else {
            None
        }
    }
}

/// Equality of two texts, character by character.
pub fn str_eq(a: &str, b: &str) -> (r: bool)
    ensures
        r == (a@ == b@),
{
    let n = a.unicode_len();
    let m = b.unicode_len();
    if n != m {
        return false;
    }
    let mut i: usize = 0;
    while i < n
        invariant
            n == a@.len(),
            m == b@.len(),
            n == m,
            i <= n,
            forall|k: int| 0 <= k < i ==> a@[k] == b@[k],
        decreases n - i,
    {
        if a.get_char(i) != b.get_char(i) {
            return false;
        }
        i = i + 1;
    }
    assert(a@ =~= b@);
    true
}

/// A quotation of a customer's project.
#[derive(Debug, Clone, PartialEq, Eq)]
pub struct Quotation {
    pub id: QuoteId,
    pub customer_id: CustomerId,
    pub project_id: ProjectId,
    pub name: String,
    pub status: QuoteStatus,
    pub created_at: String,
    pub updated_at: String,
}

pub struct QuotationView {
    pub id: Seq<char>,
    pub customer_id: Seq<char>,
    pub project_id: Seq<char>,
    pub name: Seq<char>,
    pub status: QuoteStatus,
    pub created_at: Seq<char>,
    pub updated_at: Seq<char>,
}

impl View for Quotation {
    type V = QuotationView;

    open spec fn view(&self) -> QuotationView {
        QuotationView {
            id: self.id@,
            customer_id: self.customer_id@,
            project_id: self.project_id@,
            name: self.name@,
            status: self.status,
            created_at: self.created_at@,
            updated_at: self.updated_at@,
        }
    }
}

impl Quotation {
    /// A new quotation, in `Created` status, created and updated at `now`.
    pub fn new(id: QuoteId, customer_id: CustomerId, project_id: ProjectId, name: String, now: String) -> (q: Quotation)
        ensures
            q.id == id,
            q.customer_id == customer_id,
            q.project_id == project_id,
            q.name == name,
            q.status == QuoteStatus::Created,
            q.created_at@ == now@,
            q.updated_at@ == now@,
    {
        let updated_at = now.clone();
        Quotation { id, customer_id, project_id, name, status: QuoteStatus::Created, created_at: now, updated_at }
    }
}

/// A quote for a part, made by an administrator.
#[derive(Debug, Clone, PartialEq, Eq)]
pub struct PartQuote {
    pub id: PartQuoteId,
    pub part_id: PartId,
    pub unit_price: Money,
    pub sub_total: Money,
}

pub struct PartQuoteView {
    pub id: Seq<char>,
    pub part_id: Seq<char>,
    pub unit_price: MoneyView,
    pub sub_total: MoneyView,
}

impl View for PartQuote {
    type V = PartQuoteView;

    open spec fn view(&self) -> PartQuoteView {
        PartQuoteView {
            id: self.id@,
            part_id: self.part_id@,
            unit_price: self.unit_price@,
            sub_total: self.sub_total@,
        }
    }
}

/// A part of a quotation. `process` and `attributes` hold their display text.
#[derive(Debug, Clone, PartialEq, Eq)]
pub struct Part {
    pub id: PartId,
    pub customer_id: CustomerId,
    pub project_id: ProjectId,
    pub quotation_id: QuoteId,
    pub model_file: File,
    pub render_file: Option<File>,
    pub drawing_file: Option<File>,
    pub process: String,
    pub attributes: String,
    pub quantity: u64,
    pub selected_part_quote_id: Option<PartQuoteId>,
    pub part_quotes: Option<Vec<PartQuote>>,
    pub created_at: String,
    pub updated_at: String,
}

pub open spec fn part_quotes_view(q: Option<Vec<PartQuote>>) -> Option<Seq<PartQuoteView>> {
    match q {
        Some(v) => Some(v@.map_values(|x: PartQuote| x@)),
        None => None,
    }
}

pub struct PartView {
    pub id: Seq<char>,
    pub customer_id: Seq<char>,
    pub project_id: Seq<char>,
    pub quotation_id: Seq<char>,
    pub model_file: FileView,
    pub render_file: Option<FileView>,
    pub drawing_file: Option<FileView>,
    pub process: Seq<char>,
    pub attributes: Seq<char>,
    pub quantity: u64,
    pub selected_part_quote_id: Option<Seq<char>>,
    pub part_quotes: Option<Seq<PartQuoteView>>,
    pub created_at: Seq<char>,
    pub updated_at: Seq<char>,
}

impl View for Part {
    type V = PartView;

    open spec fn view(&self) -> PartView {
        PartView {
            id: self.id@,
            customer_id: self.customer_id@,
            project_id: self.project_id@,
            quotation_id: self.quotation_id@,
            model_file: self.model_file@,
            render_file: opt_file_view(self.render_file),
            drawing_file: opt_file_view(self.drawing_file),
            process: self.process@,
            attributes: self.attributes@,
            quantity: self.quantity,
            selected_part_quote_id: opt_string_view(self.selected_part_quote_id),
            part_quotes: part_quotes_view(self.part_quotes),
            created_at: self.created_at@,
            updated_at: self.updated_at@,
        }
    }
}

pub open spec fn parts_view(parts: Seq<Part>) -> Seq<PartView> {
    parts.map_values(|p: Part| p@)
}

/// A calendar day, counted from January 1 of year 1 (day 1), as chrono's
/// `num_days_from_ce` counts it.
#[derive(Debug, Clone, Copy, PartialEq, Eq, Structural)]
pub struct Date {
    pub days_from_ce: i32,
}

/// A shipping address.
#[derive(Debug, Clone, PartialEq, Eq)]
pub struct Address {
    pub line1: String,
    pub line2: Option<String>,
    pub city: String,
    pub state: String,
    pub postal_code: String,
    pub country: String,
}

pub struct AddressView {
    pub line1: Seq<char>,
    pub line2: Option<Seq<char>>,
    pub city: Seq<char>,
    pub state: Seq<char>,
    pub postal_code: Seq<char>,
    pub country: Seq<char>,
}

impl View for Address {
    type V = AddressView;

    open spec fn view(&self) -> AddressView {
        AddressView {
            line1: self.line1@,
            line2: opt_string_view(self.line2),
            city: self.city@,
            state: self.state@,
            postal_code: self.postal_code@,
            country: self.country@,
        }
    }
}

/// An order for one quoted part.
#[derive(Debug, Clone, PartialEq, Eq)]
pub struct Order {
    pub id: OrderId,
    pub customer_id: CustomerId,
    pub project_id: ProjectId,
    pub quotation_id: QuoteId,
    pub part_id: PartId,
    pub part_quote_id: PartQuoteId,
    pub deadline: Date,
    pub status: OrderStatus,
    pub shipping_recipient_name: String,
    pub shipping_address: Address,
    pub created_at: String,
    pub updated_at: String,
}

pub struct OrderView {
    pub id: Seq<char>,
    pub customer_id: Seq<char>,
    pub project_id: Seq<char>,
    pub quotation_id: Seq<char>,
    pub part_id: Seq<char>,
    pub part_quote_id: Seq<char>,
    pub deadline: Date,
    pub status: OrderStatus,
    pub shipping_recipient_name: Seq<char>,
    pub shipping_address: AddressView,
    pub created_at: Seq<char>,
    pub updated_at: Seq<char>,
}

impl View for Order {
    type V = OrderView;

    open spec fn view(&self) -> OrderView {
        OrderView {
            id: self.id@,
            customer_id: self.customer_id@,
            project_id: self.project_id@,
            quotation_id: self.quotation_id@,
            part_id: self.part_id@,
            part_quote_id: self.part_quote_id@,
            deadline: self.deadline,
            status: self.status,
            shipping_recipient_name: self.shipping_recipient_name@,
            shipping_address: self.shipping_address@,
            created_at: self.created_at@,
            updated_at: self.updated_at@,
        }
    }
}

/// A customer's project.
#[derive(Debug, Clone, PartialEq, Eq)]
pub struct Project {
    pub id: ProjectId,
    pub customer_id: CustomerId,
    pub name: String,
    pub is_locked: bool,
    pub created_at: String,
    pub updated_at: String,
}

pub struct ProjectView {
    pub id: Seq<char>,
    pub customer_id: Seq<char>,
    pub name: Seq<char>,
    pub is_locked: bool,
    pub created_at: Seq<char>,
    pub updated_at: Seq<char>,
}

impl View for Project {
    type V = ProjectView;

    open spec fn view(&self) -> ProjectView {
        ProjectView {
            id: self.id@,
            customer_id: self.customer_id@,
            name: self.name@,
            is_locked: self.is_locked,
            created_at: self.created_at@,
            updated_at: self.updated_at@,
        }
    }
}

/// Public metadata of an identity.
#[derive(Debug, Clone, PartialEq, Eq, Default)]
pub struct MetadataPublic {
    pub stripe_customer_id: Option<String>,
}

/// An authenticated identity.
#[derive(Debug, Clone, PartialEq, Eq)]
pub struct Identity {
    pub id: String,
    pub email: String,
    pub metadata_public: MetadataPublic,
}

/// An active session.
#[derive(Debug, Clone, PartialEq, Eq)]
pub struct Session {
    pub id: String,
    pub identity: Identity,
}

/// The session of an administrator, as request handlers receive it.
#[derive(Debug, Clone, PartialEq, Eq)]
pub struct AdminSession(pub Session);

/// The session of a customer, as request handlers receive it.
#[derive(Debug, Clone, PartialEq, Eq)]
pub struct CustomerSession(pub Session);

impl AdminSession {
    /// The administrator's session that authentication left on the request; without one
    /// the request is refused as unauthorized.
    pub fn from_extension(found: Option<AdminSession>) -> (r: Result<AdminSession, (u16, &'static str)>)
        ensures
            match found {
                Some(s) => r == Ok::<AdminSession, (u16, &'static str)>(s),
                None => r matches Err(e) && e.0 == STATUS_UNAUTHORIZED && e.1@ == "Missing admin session"@,
            },
    {
        match found {
            Some(s) => Ok(s),
            None => Err((STATUS_UNAUTHORIZED, "Missing admin session")),
        }
    }
}

impl CustomerSession {
    /// The customer's session that authentication left on the request; without one the
    /// request is refused as unauthorized.
    pub fn from_extension(found: Option<CustomerSession>) -> (r: Result<CustomerSession, (u16, &'static str)>)
        ensures
            match found {
                Some(s) => r == Ok::<CustomerSession, (u16, &'static str)>(s),
                None => r matches Err(e) && e.0 == STATUS_UNAUTHORIZED && e.1@ == "Missing customer session"@,
            },
    {
        match found {
            Some(s) => Ok(s),
            None => Err((STATUS_UNAUTHORIZED, "Missing customer session")),
        }
    }
}

/// One page of a query, with the cursor of the next page if there is one.
pub struct QueryResponse<T, V> {
    pub data: T,
    pub cursor: Option<V>,
}

/// Key of a quotation to delete in a batch.
#[derive(Debug, Clone, PartialEq, Eq)]
pub struct BatchDeleteQuotationObject {
    pub quotation_id: QuoteId,
    pub customer_id: CustomerId,
}

/// Key of a part to delete in a batch.
#[derive(Debug, Clone, PartialEq, Eq)]
pub struct BatchDeletePartObject {
    pub customer_id: CustomerId,
    pub part_id: PartId,
}

/// The changes to make to a part; `None` leaves a field as it is.
#[derive(Debug, Clone, PartialEq, Eq)]
pub struct UpdatablePart {
    pub id: PartId,
    pub customer_id: CustomerId,
    pub drawing_file: Option<File>,
    pub process: Option<String>,
    pub attributes: Option<String>,
    pub quantity: Option<u64>,
    pub selected_part_quote_id: Option<PartQuoteId>,
    pub clear_part_quotes: Option<bool>,
}

} // verus!
