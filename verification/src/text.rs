use vstd::prelude::*;

verus! {

/// The pieces of `s` between occurrences of `sep`, as `str::split` yields them:
/// one piece more than there are separators, empty pieces included.
pub open spec fn split(s: Seq<char>, sep: char) -> Seq<Seq<char>>
    decreases s.len(),
{
    if s.len() == 0 {
        seq![Seq::<char>::empty()]
    } else {
        let rest = split(s.drop_last(), sep);
        if s.last() == sep {
            rest.push(Seq::<char>::empty())
        } else {
            rest.update(rest.len() - 1, rest.last().push(s.last()))
        }
    }
}

/// What `str::split_once` gives: the text before the first `sep` and the text after it.
pub open spec fn split_once(s: Seq<char>, sep: char) -> Option<(Seq<char>, Seq<char>)> {
    let pieces = split(s, sep);
    if pieces.len() == 1 {
        None
    } else {
        Some((pieces[0], s.subrange(pieces[0].len() + 1 as int, s.len() as int)))
    }
}

/// `a`, the separator, then `b`.
pub open spec fn join2(a: Seq<char>, sep: char, b: Seq<char>) -> Seq<char> {
    a + seq![sep] + b
}

pub open spec fn strings_view(v: Seq<String>) -> Seq<Seq<char>> {
    v.map_values(|x: String| x@)
}

pub proof fn lemma_split_nonempty(s: Seq<char>, sep: char)
    ensures
        split(s, sep).len() >= 1,
    decreases s.len(),
{
    if s.len() > 0 {
        lemma_split_nonempty(s.drop_last(), sep);
    }
}

/// Text without the separator is a single piece.
pub proof fn lemma_split_no_sep(s: Seq<char>, sep: char)
    requires
        !s.contains(sep),
    ensures
        split(s, sep) == seq![s],
    decreases s.len(),
{
    if s.len() > 0 {
        let t = s.drop_last();
        assert(!t.contains(sep)) by {
            if t.contains(sep) {
                let i = choose|i: int| 0 <= i < t.len() && t[i] == sep;
                assert(s[i] == sep);
            }
        }
        lemma_split_no_sep(t, sep);
        assert(s[s.len() - 1] != sep);
        assert(t.push(s.last()) =~= s);
    } else {
        assert(s =~= Seq::<char>::empty());
    }
}

/// Splitting a joined text gives the pieces of both halves.
pub proof fn lemma_split_join(a: Seq<char>, sep: char, b: Seq<char>)
    ensures
        split(join2(a, sep, b), sep) == split(a, sep) + split(b, sep),
    decreases b.len(),
{
    lemma_split_nonempty(a, sep);
    if b.len() == 0 {
        assert((a + seq![sep] + b).drop_last() =~= a);
        assert(split(b, sep) =~= seq![Seq::<char>::empty()]);
        assert(split(a, sep).push(Seq::<char>::empty()) =~= split(a, sep) + split(b, sep));
    } else {
        let b1 = b.drop_last();
        lemma_split_join(a, sep, b1);
        lemma_split_nonempty(b1, sep);
        let j = join2(a, sep, b);
        assert(j.drop_last() =~= join2(a, sep, b1));
        assert(j.last() == b.last());
        let l = split(a, sep);
        let r = split(b1, sep);
        if b.last() == sep {
            assert((l + r).push(Seq::<char>::empty()) =~= l + r.push(Seq::<char>::empty()));
        } else {
            assert((l + r).update((l + r).len() - 1, (l + r).last().push(b.last())) =~= l
                + r.update(r.len() - 1, r.last().push(b.last())));
        }
    }
}

/// The first piece is a prefix of the text; when there are more pieces, a separator follows it.
pub proof fn lemma_split_first(s: Seq<char>, sep: char)
    ensures
        split(s, sep).len() >= 1,
        split(s, sep)[0].len() <= s.len(),
        split(s, sep)[0] =~= s.take(split(s, sep)[0].len() as int),
        !split(s, sep)[0].contains(sep),
        split(s, sep).len() > 1 ==> split(s, sep)[0].len() < s.len() && s[split(s, sep)[0].len() as int] == sep,
        split(s, sep).len() == 1 ==> split(s, sep)[0] =~= s,
    decreases s.len(),
{
    lemma_split_nonempty(s, sep);
    if s.len() > 0 {
        let t = s.drop_last();
        lemma_split_first(t, sep);
        lemma_split_nonempty(t, sep);
        let p = split(t, sep)[0];
        if split(t, sep).len() == 1 {
            if s.last() != sep {
                assert(split(s, sep)[0] =~= p.push(s.last()));
                assert(split(s, sep)[0] =~= s);
                assert(!split(s, sep)[0].contains(sep)) by {
                    if split(s, sep)[0].contains(sep) {
                        let i = choose|i: int| 0 <= i < s.len() && split(s, sep)[0][i] == sep;
                        if i < t.len() {
                            assert(p[i] == sep);
                        }
                    }
                }
            } else {
                assert(split(s, sep)[0] =~= p);
            }
        } else {
            assert(split(s, sep)[0] =~= p);
        }
    }
}

/// Index of the first `sep` in `s` at or after `from`, or the length of `s`.
fn find_char(s: &str, sep: char, from: usize, n: usize) -> (i: usize)
    requires
        n == s@.len(),
        from <= n,
    ensures
        from <= i <= n,
        forall|k: int| from <= k < i ==> s@[k] != sep,
        i < n ==> s@[i as int] == sep,
{
    let mut i = from;
    while i < n
        invariant
            n == s@.len(),
            from <= i <= n,
            forall|k: int| from <= k < i ==> s@[k] != sep,
        decreases n - i,
    {
        if s.get_char(i) == sep {
            return i;
        }
        i = i + 1;
    }
    i
}

/// The pieces of `s` between occurrences of `sep` (`str::split`).
pub fn split_exec(s: &str, sep: char) -> (pieces: Vec<String>)
    ensures
        strings_view(pieces@) == split(s@, sep),
{
    let n = s.unicode_len();
    let mut pieces: Vec<String> = Vec::new();
    let mut start: usize = 0;
    let mut i: usize = 0;
    proof {
        assert(s@.take(0) =~= Seq::<char>::empty());
        assert(strings_view(pieces@).push(s@.subrange(0, 0)) =~= split(s@.take(0), sep));
    }
    while i < n
        invariant
            n == s@.len(),
            start <= i <= n,
            strings_view(pieces@).push(s@.subrange(start as int, i as int)) == split(
                s@.take(i as int),
                sep,
            ),
        decreases n - i,
    {
        let c = s.get_char(i);
        let ghost prev = s@.take(i as int);
        proof {
            assert(s@.take(i + 1).drop_last() =~= prev);
            assert(s@.take(i + 1).last() == c);
        }
        if c == sep {
            let piece = String::from_str(s.substring_char(start, i));
            let ghost old_view = strings_view(pieces@);
            pieces.push(piece);
            start = i + 1;
            proof {
                assert(strings_view(pieces@) =~= old_view.push(piece@));
                assert(s@.subrange(start as int, i + 1) =~= Seq::<char>::empty());
            }
        } else {
            proof {
                assert(s@.subrange(start as int, i + 1) =~= s@.subrange(start as int, i as int).push(c));
            }
        }
        i = i + 1;
    }
    let last = String::from_str(s.substring_char(start, n));
    let ghost old_view = strings_view(pieces@);
    pieces.push(last);
    proof {
        assert(s@.take(n as int) =~= s@);
        assert(strings_view(pieces@) =~= old_view.push(last@));
    }
    pieces
}

/// Text before and after the first `sep` (`str::split_once`).
pub fn split_once_exec(s: &str, sep: char) -> (r: Option<(String, String)>)
    ensures
        match r {
            Some(p) => split_once(s@, sep) == Some((p.0@, p.1@)),
            None => split_once(s@, sep) is None,
        },
{
    let n = s.unicode_len();
    let i = find_char(s, sep, 0, n);
    proof {
        lemma_split_first(s@, sep);
        let p0 = split(s@, sep)[0];
        if split(s@, sep).len() > 1 {
            assert(p0.len() == i) by {
                if p0.len() < i {
                    assert(s@[p0.len() as int] != sep);
                } else if p0.len() > i {
                    assert(p0[i as int] == s@[i as int]);
                }
            }
        } else {
            assert(i == n) by {
                if i < n {
                    assert(p0[i as int] == sep);
                }
            }
        }
    }
    if i == n {
        None
    } else {
        let before = String::from_str(s.substring_char(0, i));
        let after = String::from_str(s.substring_char(i + 1, n));
        proof {
            assert(before@ =~= split(s@, sep)[0]);
        }
        Some((before, after))
    }
}

/// The decimal digit of a value below ten.
pub open spec fn digit(d: int) -> char {
    if d == 0 { '0' } else if d == 1 { '1' } else if d == 2 { '2' } else if d == 3 { '3' }
    else if d == 4 { '4' } else if d == 5 { '5' } else if d == 6 { '6' } else if d == 7 { '7' }
    else if d == 8 { '8' } else { '9' }
}

/// The decimal digits of a number, without leading zeros.
pub open spec fn decimal(n: nat) -> Seq<char>
    decreases n,
{
    if n < 10 {
        seq![digit(n as int)]
    } else {
        decimal(n / 10).push(digit((n % 10) as int))
    }
}

/// `u64`'s `to_string`: the std `Display` of an integer writes its decimal digits.
#[verifier::external_body]
pub(crate) fn u64_to_string(n: u64) -> (s: String)
    ensures
        s@ == decimal(n as nat),
{
    n.to_string()
}

} // verus!
