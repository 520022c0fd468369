//! Prices of quotations: the subtotal of the selected part quotes and the line
//! items sent to Stripe.

use vstd::prelude::*;
use crate::models::{
    Currency, CurrencyView, Money, Part, PartQuote, PartQuoteView, PartView, parts_view,
};

verus! {

/// Index of the first quote of `quotes` whose id is `id`.
pub open spec fn first_quote_with_id(quotes: Seq<PartQuoteView>, id: Seq<char>) -> Option<int>
    decreases quotes.len(),
{
    if quotes.len() == 0 {
        None
    } else if quotes[0].id == id {
        Some(0)
    } else {
        match first_quote_with_id(quotes.drop_first(), id) {
            Some(i) => Some(i + 1),
            None => None,
        }
    }
}

/// The quote a part's customer selected: the first of its quotes with the selected id.
pub open spec fn selected_quote(p: PartView) -> Option<PartQuoteView> {
    match (p.part_quotes, p.selected_part_quote_id) {
        (Some(quotes), Some(id)) => match first_quote_with_id(quotes, id) {
            Some(i) => Some(quotes[i]),
            None => None,
        },
        _ => None,
    }
}

/// Every part has a selected quote.
pub open spec fn all_selected(parts: Seq<PartView>) -> bool {
    forall|i: int| 0 <= i < parts.len() ==> (#[trigger] selected_quote(parts[i])) is Some
}

/// Sum of the subtotals of the selected quotes of the parts.
pub open spec fn selected_subtotal_sum(parts: Seq<PartView>) -> int
    decreases parts.len(),
{
    if parts.len() == 0 {
        0
    } else {
        selected_subtotal_sum(parts.drop_last()) + selected_quote(parts.last())->0.sub_total.amount
    }
}

/// Every running sum of the selected subtotals fits in an `i64`.
pub open spec fn sums_fit(parts: Seq<PartView>) -> bool {
    forall|k: int|
        0 <= k <= parts.len() ==> i64::MIN <= #[trigger] selected_subtotal_sum(parts.take(k))
            <= i64::MAX
}

proof fn lemma_first_quote_with_id(quotes: Seq<PartQuoteView>, id: Seq<char>, i: int)
    requires
        0 <= i < quotes.len(),
        quotes[i].id == id,
        forall|k: int| 0 <= k < i ==> quotes[k].id != id,
    ensures
        first_quote_with_id(quotes, id) == Some(i),
    decreases i,
{
    if i > 0 {
        lemma_first_quote_with_id(quotes.drop_first(), id, i - 1);
    }
}

proof fn lemma_no_quote_with_id(quotes: Seq<PartQuoteView>, id: Seq<char>)
    requires
        forall|k: int| 0 <= k < quotes.len() ==> quotes[k].id != id,
    ensures
        first_quote_with_id(quotes, id) is None,
    decreases quotes.len(),
{
    if quotes.len() > 0 {
        lemma_no_quote_with_id(quotes.drop_first(), id);
    }
}

/// The selected quote of a part; the part must have one.
fn find_selected_quote(part: &Part) -> (q: &PartQuote)
    requires
        selected_quote(part@) is Some,
    ensures
        q@ == selected_quote(part@)->0,
{
    let quotes = part.part_quotes.as_ref().unwrap();
    let id = part.selected_part_quote_id.as_ref().unwrap();
    let ghost qv = quotes@.map_values(|x: PartQuote| x@);
    let mut i: usize = 0;
    while i < quotes.len()
        invariant
            i <= quotes.len(),
            qv == quotes@.map_values(|x: PartQuote| x@),
            part@.part_quotes == Some(qv),
            part@.selected_part_quote_id == Some(id@),
            selected_quote(part@) is Some,
            forall|k: int| 0 <= k < i ==> qv[k].id != id@,
        decreases quotes.len() - i,
    {
        if quotes[i].id == *id {
            proof {
                lemma_first_quote_with_id(qv, id@, i as int);
            }
            return &quotes[i];
        }
        i = i + 1;
    }
    proof {
        lemma_no_quote_with_id(qv, id@);
    }
    &quotes[0]
}

/// Whether a part has a selected quote, as the subtotal and the line items need.
pub fn has_selected_quote(part: &Part) -> (b: bool)
    ensures
        b == (selected_quote(part@) is Some),
{
    match (&part.part_quotes, &part.selected_part_quote_id) {
        (Some(quotes), Some(id)) => {
            let ghost qv = quotes@.map_values(|x: PartQuote| x@);
            let mut i: usize = 0;
            while i < quotes.len()
                invariant
                    i <= quotes.len(),
                    qv == quotes@.map_values(|x: PartQuote| x@),
                    part@.part_quotes == Some(qv),
                    part@.selected_part_quote_id == Some(id@),
                    forall|k: int| 0 <= k < i ==> qv[k].id != id@,
                decreases quotes.len() - i,
            {
                if quotes[i].id == *id {
                    proof {
                        lemma_first_quote_with_id(qv, id@, i as int);
                    }
                    return true;
                }
                i = i + 1;
            }
            proof {
                lemma_no_quote_with_id(qv, id@);
            }
            false
        },
        _ => false,
    }
}

/// The subtotal of a quotation: the sum of the subtotals of the quotes its customer
/// selected, in the default currency. Every part must have a selected quote and every
/// running sum must fit in an `i64`.
pub fn calculate_subtotal_of_selected_quotes(parts: Vec<Part>) -> (m: Money)
    requires
        all_selected(parts_view(parts@)),
        sums_fit(parts_view(parts@)),
    ensures
        m.amount == selected_subtotal_sum(parts_view(parts@)),
        m.currency == Currency::MXN,
{
    let ghost pv = parts_view(parts@);
    let mut money = Money::default();
    let mut i: usize = 0;
    proof {
        assert(pv.take(0) =~= Seq::<PartView>::empty());
    }
    while i < parts.len()
        invariant
            i <= parts.len(),
            pv == parts_view(parts@),
            all_selected(pv),
            sums_fit(pv),
            money.amount == selected_subtotal_sum(pv.take(i as int)),
            money.currency == Currency::MXN,
        decreases parts.len() - i,
    {
        let part = &parts[i];
        proof {
            assert(pv[i as int] == part@);
            assert(selected_quote(pv[i as int]) is Some);
            assert(pv.take(i + 1).drop_last() =~= pv.take(i as int));
            assert(pv.take(i + 1).last() == pv[i as int]);
            assert(i64::MIN <= selected_subtotal_sum(pv.take(i + 1)) <= i64::MAX);
        }
        let quote = find_selected_quote(part);
        money.amount = money.amount + quote.sub_total.amount;
        i = i + 1;
    }
    proof {
        assert(pv.take(parts.len() as int) =~= pv);
    }
    money
}

/// The subtotal where it can be computed: `None` where a part has no selected quote or a
/// running sum leaves the range of `i64`, else what `calculate_subtotal_of_selected_quotes`
/// gives.
pub fn checked_subtotal_of_selected_quotes(parts: Vec<Part>) -> (r: Option<Money>)
    ensures
        r is Some <==> all_selected(parts_view(parts@)) && sums_fit(parts_view(parts@)),
        r matches Some(m) ==> m.amount == selected_subtotal_sum(parts_view(parts@))
            && m.currency == Currency::MXN,
{
    let ghost pv = parts_view(parts@);
    let mut i: usize = 0;
    while i < parts.len()
        invariant
            i <= parts.len(),
            pv == parts_view(parts@),
            forall|k: int| 0 <= k < i ==> (#[trigger] selected_quote(pv[k])) is Some,
        decreases parts.len() - i,
    {
        if !has_selected_quote(&parts[i]) {
            proof {
                assert(pv[i as int] == parts[i as int]@);
                assert(selected_quote(pv[i as int]) is None);
            }
            return None;
        }
        proof {
            assert(pv[i as int] == parts[i as int]@);
        }
        i = i + 1;
    }
    assert(all_selected(pv));
    let mut sum: i64 = 0;
    let mut j: usize = 0;
    proof {
        assert(pv.take(0) =~= Seq::<PartView>::empty());
    }
    while j < parts.len()
        invariant
            j <= parts.len(),
            pv == parts_view(parts@),
            all_selected(pv),
            sum == selected_subtotal_sum(pv.take(j as int)),
            forall|k: int|
                0 <= k <= j ==> i64::MIN <= #[trigger] selected_subtotal_sum(pv.take(k)) <= i64::MAX,
        decreases parts.len() - j,
    {
        let part = &parts[j];
        proof {
            assert(pv[j as int] == part@);
            assert(selected_quote(pv[j as int]) is Some);
            assert(pv.take(j + 1).drop_last() =~= pv.take(j as int));
            assert(pv.take(j + 1).last() == pv[j as int]);
        }
        let quote = find_selected_quote(part);
        match sum.checked_add(quote.sub_total.amount) {
            Some(next) => {
                sum = next;
            },
            None => {
                proof {
                    assert(!(i64::MIN <= selected_subtotal_sum(pv.take(j + 1)) <= i64::MAX));
                }
                return None;
            },
        }
        j = j + 1;
    }
    proof {
        assert(pv.take(parts.len() as int) =~= pv);
        assert forall|k: int| 0 <= k <= pv.len() implies i64::MIN <= #[trigger] selected_subtotal_sum(
            pv.take(k),
        ) <= i64::MAX by {}
        assert(sums_fit(pv));
    }
    Some(calculate_subtotal_of_selected_quotes(parts))
}

/// Currencies that Stripe is asked to charge in.
#[derive(Debug, Clone, Copy, PartialEq, Eq, Structural)]
pub enum StripeCurrency {
    MXN,
    USD,
}

/// Stripe charges in pesos or dollars; any other currency is charged in dollars.
pub open spec fn stripe_currency(c: CurrencyView) -> StripeCurrency {
    match c {
        CurrencyView::MXN => StripeCurrency::MXN,
        _ => StripeCurrency::USD,
    }
}

pub fn to_stripe_currency(c: &Currency) -> (s: StripeCurrency)
    ensures
        s == stripe_currency(c@),
{
    match c {
        Currency::MXN => StripeCurrency::MXN,
        Currency::USD => StripeCurrency::USD,
        _ => StripeCurrency::USD,
    }
}

/// Price of a line of a Stripe quote.
#[derive(Debug, Clone, PartialEq, Eq)]
pub struct PriceData {
    pub currency: StripeCurrency,
    /// Stripe's product id, which is the part's id.
    pub product: String,
    pub unit_amount: u64,
}

/// A line of a Stripe quote.
#[derive(Debug, Clone, PartialEq, Eq)]
pub struct QuoteLineItem {
    pub price_data: PriceData,
    pub quantity: u64,
}

/// A Stripe quote to create.
#[derive(Debug, Clone, PartialEq, Eq)]
pub struct Quote {
    /// Stripe's customer id.
    pub customer: String,
    pub line_items: Vec<QuoteLineItem>,
}

/// A Stripe quote as Stripe answers it.
#[derive(Debug, Clone, PartialEq, Eq)]
pub struct StripeQuote {
    pub id: String,
}

/// The quote line of a part: the selected quote's subtotal, per unit, for the part's quantity.
pub open spec fn is_quote_line_of(item: QuoteLineItem, p: PartView) -> bool {
    let q = selected_quote(p)->0;
    &&& item.price_data.currency == stripe_currency(q.sub_total.currency)
    &&& item.price_data.product@ == q.part_id
    &&& item.price_data.unit_amount == q.sub_total.amount as u64
    &&& item.quantity == p.quantity
}

/// One Stripe quote line per part, in order. Every part must have a selected quote.
pub fn generate_quote_line_items(parts: Vec<Part>) -> (items: Vec<QuoteLineItem>)
    requires
        all_selected(parts_view(parts@)),
    ensures
        items.len() == parts.len(),
        forall|i: int| 0 <= i < parts.len() ==> is_quote_line_of(#[trigger] items[i], parts[i]@),
{
    let mut items: Vec<QuoteLineItem> = Vec::new();
    let mut i: usize = 0;
    while i < parts.len()
        invariant
            i <= parts.len(),
            all_selected(parts_view(parts@)),
            items.len() == i,
            forall|k: int| 0 <= k < i ==> is_quote_line_of(#[trigger] items[k], parts[k]@),
        decreases parts.len() - i,
    {
        let part = &parts[i];
        proof {
            assert(parts_view(parts@)[i as int] == part@);
        }
        let quote = find_selected_quote(part);
        let item = QuoteLineItem {
            price_data: PriceData {
                currency: to_stripe_currency(&quote.sub_total.currency),
                product: quote.part_id.clone(),
                unit_amount: quote.sub_total.amount as u64,
            },
            quantity: part.quantity,
        };
        items.push(item);
        i = i + 1;
    }
    items
}

/// A line of a Stripe checkout session.
#[derive(Debug, Clone, PartialEq, Eq)]
pub struct CheckoutLineItem {
    pub currency: StripeCurrency,
    pub name: String,
    pub description: String,
    pub unit_amount: i64,
    pub quantity: u64,
}

/// The checkout line of a part: the selected quote's unit price, named after the part's
/// model file and described by its attributes.
pub open spec fn is_checkout_line_of(item: CheckoutLineItem, p: PartView) -> bool {
    let q = selected_quote(p)->0;
    &&& item.currency == stripe_currency(q.sub_total.currency)
    &&& item.name@ == p.model_file.name
    &&& item.description@ == p.attributes
    &&& item.unit_amount == q.unit_price.amount
    &&& item.quantity == p.quantity
}

/// One checkout line per part, in order. Every part must have a selected quote.
pub fn line_items_from_parts_data(parts: &Vec<Part>) -> (items: Vec<CheckoutLineItem>)
    requires
        all_selected(parts_view(parts@)),
    ensures
        items.len() == parts.len(),
        forall|i: int|
            0 <= i < parts.len() ==> is_checkout_line_of(#[trigger] items[i], parts[i]@),
{
    let mut items: Vec<CheckoutLineItem> = Vec::new();
    let mut i: usize = 0;
    while i < parts.len()
        invariant
            i <= parts.len(),
            all_selected(parts_view(parts@)),
            items.len() == i,
            forall|k: int| 0 <= k < i ==> is_checkout_line_of(#[trigger] items[k], parts[k]@),
        decreases parts.len() - i,
    {
        let part = &parts[i];
        proof {
            assert(parts_view(parts@)[i as int] == part@);
        }
        let quote = find_selected_quote(part);
        let item = CheckoutLineItem {
            currency: to_stripe_currency(&quote.sub_total.currency),
            name: part.model_file.name.clone(),
            description: part.attributes.clone(),
            unit_amount: quote.unit_price.amount,
            quantity: part.quantity,
        };
        items.push(item);
        i = i + 1;
    }
    items
}

/// Metadata key of a checkout session that holds the customer's id.
pub const CUSTOMER_ID: &'static str = "customer_id";
/// Metadata key of a checkout session that holds the project's id.
pub const PROJECT_ID: &'static str = "project_id";
/// Metadata key of a checkout session that holds the quotation's id.
pub const QUOTATION_ID: &'static str = "quotation_id";

/// The Stripe quote to create for a customer: its customer and its lines.
pub fn new_quote(stripe_customer_id: String, line_items: Vec<QuoteLineItem>) -> (q: Quote)
    ensures
        q.customer == stripe_customer_id,
        q.line_items == line_items,
{
    Quote { customer: stripe_customer_id, line_items }
}

/// Path of the request that finalizes a Stripe quote.
pub fn finalize_quote_path(stripe_quote_id: &str) -> (path: String)
    ensures
        path@ == "quotes/"@ + stripe_quote_id@ + "/finalize"@,
{
    String::from_str("quotes/").concat(stripe_quote_id).concat("/finalize")
}

/// Address of the PDF file of a Stripe quote.
pub fn quote_pdf_url(stripe_quote_id: &str) -> (url: String)
    ensures
        url@ == "https://files.stripe.com/v1/quotes/"@ + stripe_quote_id@ + "/pdf"@,
{
    String::from_str("https://files.stripe.com/v1/quotes/").concat(stripe_quote_id).concat("/pdf")
}

/// Where a paid checkout session sends the customer: the orders page under `base_url`.
pub fn checkout_success_url(base_url: &str) -> (url: String)
    ensures
        url@ == base_url@ + "/orders"@,
{
    String::from_str(base_url).concat("/orders")
}

/// Metadata of a checkout session: the customer's, the project's and the quotation's ids,
/// each under its key.
pub fn checkout_metadata(
    customer_id: String,
    project_id: String,
    quotation_id: String,
) -> (metadata: Vec<(String, String)>)
    ensures
        metadata@.len() == 3,
        metadata@[0].0@ == CUSTOMER_ID@,
        metadata@[0].1 == customer_id,
        metadata@[1].0@ == PROJECT_ID@,
        metadata@[1].1 == project_id,
        metadata@[2].0@ == QUOTATION_ID@,
        metadata@[2].1 == quotation_id,
{
    let mut metadata: Vec<(String, String)> = Vec::new();
    metadata.push((String::from_str(CUSTOMER_ID), customer_id));
    metadata.push((String::from_str(PROJECT_ID), project_id));
    metadata.push((String::from_str(QUOTATION_ID), quotation_id));
    metadata
}

} // verus!
