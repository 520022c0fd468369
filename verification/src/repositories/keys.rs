//! Sort keys join several attributes with `&`; reading an item splits them again.

use vstd::prelude::*;
use crate::clock::rfc3339_canonical;
use crate::models::{OrderStatus, QuoteStatus};
use crate::text::{
    join2, lemma_split_join, lemma_split_no_sep, lemma_split_nonempty, split, split_once,
};

verus! {

pub const ATTRIBUTES_SEPARATOR: &'static str = "&";

/// The character that separates the attributes of a sort key.
pub open spec fn sep() -> char {
    '&'
}

/// `a&b`.
pub open spec fn key2(a: Seq<char>, b: Seq<char>) -> Seq<char> {
    join2(a, sep(), b)
}

/// `a&b&c`.
pub open spec fn key3(a: Seq<char>, b: Seq<char>, c: Seq<char>) -> Seq<char> {
    join2(key2(a, b), sep(), c)
}

/// `a&b&c&d`.
pub open spec fn key4(a: Seq<char>, b: Seq<char>, c: Seq<char>, d: Seq<char>) -> Seq<char> {
    join2(key3(a, b, c), sep(), d)
}

/// Text free of the separator.
pub open spec fn sep_free(s: Seq<char>) -> bool {
    !s.contains(sep())
}

/// `a`, the separator, then `b`.
pub fn append_attribute(a: String, b: &str) -> (r: String)
    ensures
        r@ == key2(a@, b@),
{
    proof {
        reveal_strlit("&");
    }
    a.concat(ATTRIBUTES_SEPARATOR).concat(b)
}

pub proof fn lemma_split_key2(a: Seq<char>, b: Seq<char>)
    requires
        sep_free(a),
    ensures
        split(key2(a, b), sep()) == seq![a] + split(b, sep()),
{
    lemma_split_join(a, sep(), b);
    lemma_split_no_sep(a, sep());
}

pub proof fn lemma_split_key3(a: Seq<char>, b: Seq<char>, c: Seq<char>)
    requires
        sep_free(a),
        sep_free(b),
        sep_free(c),
    ensures
        split(key3(a, b, c), sep()) == seq![a, b, c],
{
    lemma_split_join(key2(a, b), sep(), c);
    lemma_split_join(a, sep(), b);
    lemma_split_no_sep(a, sep());
    lemma_split_no_sep(b, sep());
    lemma_split_no_sep(c, sep());
    assert(seq![a] + seq![b] + seq![c] =~= seq![a, b, c]);
}

pub proof fn lemma_split_key4(a: Seq<char>, b: Seq<char>, c: Seq<char>, d: Seq<char>)
    requires
        sep_free(a),
        sep_free(b),
        sep_free(c),
        sep_free(d),
    ensures
        split(key4(a, b, c, d), sep()) == seq![a, b, c, d],
{
    lemma_split_join(key3(a, b, c), sep(), d);
    lemma_split_key3(a, b, c);
    lemma_split_no_sep(d, sep());
    assert(seq![a, b, c] + seq![d] =~= seq![a, b, c, d]);
}

pub proof fn lemma_split_once_key(a: Seq<char>, b: Seq<char>)
    requires
        sep_free(a),
    ensures
        split_once(key2(a, b), sep()) == Some((a, b)),
{
    lemma_split_key2(a, b);
    lemma_split_nonempty(b, sep());
    assert(key2(a, b).subrange(a.len() + 1 as int, key2(a, b).len() as int) =~= b);
}

/// A status's name holds no separator, and reading the name gives the status back.
pub proof fn lemma_status_names_sep_free()
    ensures
        forall|s: QuoteStatus| #[trigger] sep_free(s.name()),
        forall|s: OrderStatus| #[trigger] sep_free(s.name()),
        forall|s: QuoteStatus| QuoteStatus::from_name(#[trigger] s.name()) == Some(s),
        forall|s: OrderStatus| OrderStatus::from_name(#[trigger] s.name()) == Some(s),
{
    reveal_strlit("CREATED");
    reveal_strlit("PENDING_REVIEW");
    reveal_strlit("PENDING_PAYMENT");
    reveal_strlit("PAYED");
    reveal_strlit("OPEN");
    reveal_strlit("CLOSED");
    assert forall|s: QuoteStatus| #[trigger] sep_free(s.name()) by {
        if s.name().contains(sep()) {
            let i = choose|i: int| 0 <= i < s.name().len() && s.name()[i] == sep();
        }
    }
    assert forall|s: OrderStatus| #[trigger] sep_free(s.name()) by {
        if s.name().contains(sep()) {
            let i = choose|i: int| 0 <= i < s.name().len() && s.name()[i] == sep();
        }
    }
    assert forall|s: QuoteStatus| QuoteStatus::from_name(#[trigger] s.name()) == Some(s) by {
        assert("CREATED"@.len() != "PENDING_REVIEW"@.len());
        assert("CREATED"@.len() != "PENDING_PAYMENT"@.len());
        assert("CREATED"@.len() != "PAYED"@.len());
        assert("PENDING_REVIEW"@.len() != "PENDING_PAYMENT"@.len());
        assert("PENDING_REVIEW"@.len() != "PAYED"@.len());
        assert("PENDING_PAYMENT"@.len() != "PAYED"@.len());
    }
    assert forall|s: OrderStatus| OrderStatus::from_name(#[trigger] s.name()) == Some(s) by {
        assert("OPEN"@.len() != "CLOSED"@.len());
    }
}

/// A text that chrono writes back unchanged after reading it.
pub open spec fn is_canonical_time(t: Seq<char>) -> bool {
    rfc3339_canonical(t) == Some(t)
}

} // verus!
