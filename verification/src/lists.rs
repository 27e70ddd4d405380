//! The list columns of the table: several values in one field, separated by
//! `;`, written by joining and read back by splitting.
use vstd::prelude::*;
use crate::text::{join, split, join_strings, split_string};
use crate::number::{decimal, decimal_string, parsed_i64, parse_i64, law_parse_decimal, lemma_decimal_avoids};

verus! {

/// The separator between the values of a list field.
pub const LIST_SEP: char = ';';

/// The integers that the pieces denote, when every piece denotes an `i64`.
pub open spec fn parsed_list(pieces: Seq<Seq<char>>) -> Option<Seq<i64>> {
    if forall|i: int| 0 <= i < pieces.len() ==> (#[trigger] parsed_i64(pieces[i])) is Some {
        Some(Seq::new(pieces.len(), |i: int| parsed_i64(pieces[i])->0))
    } else {
        None
    }
}

/// The decimal numerals of `ns`, in order.
pub open spec fn decimals(ns: Seq<i64>) -> Seq<Seq<char>> {
    Seq::new(ns.len(), |i: int| decimal(ns[i] as int))
}

/// The values of a list field, as text.
pub fn split_list(s: &str) -> (r: Vec<String>)
    ensures
        r.deep_view() == split(s@, LIST_SEP),
{
    split_string(s, LIST_SEP)
}

/// The values of a list field of integers; `None` when one of them is not
/// an `i64`.
pub fn parse_int_list(s: &str) -> (r: Option<Vec<i64>>)
    ensures
        match r {
            Some(v) => parsed_list(split(s@, LIST_SEP)) == Some(v@),
            None => parsed_list(split(s@, LIST_SEP)) is None,
        },
{
    let pieces = split_string(s, LIST_SEP);
    let ghost pv = pieces.deep_view();
    let mut out: Vec<i64> = Vec::new();
    let mut i: usize = 0;
    while i < pieces.len()
        invariant
            i <= pieces.len(),
            pv == pieces.deep_view(),
            pv == split(s@, LIST_SEP),
            out@.len() == i,
            forall|j: int| 0 <= j < i ==> parsed_i64(pv[j]) == Some(#[trigger] out@[j]),
        decreases pieces.len() - i,
    {
        match parse_i64(pieces[i].as_str()) {
            None => {
                assert(parsed_i64(pv[i as int]) is None);
                return None;
            },
            Some(n) => {
                out.push(n);
            },
        }
        i = i + 1;
    }
    assert forall|j: int| 0 <= j < pv.len() implies (#[trigger] parsed_i64(pv[j])) is Some by {
        assert(parsed_i64(pv[j]) == Some(out@[j]));
    }
    assert(out@ =~= Seq::new(pv.len(), |j: int| parsed_i64(pv[j])->0));
    Some(out)
}

/// The values joined into one list field.
pub fn join_list(parts: &Vec<String>) -> (r: String)
    ensures
        r@ == join(parts.deep_view(), LIST_SEP),
{
    join_strings(parts, LIST_SEP)
}

/// The integers written in decimal and joined into one list field.
pub fn decimal_list(ns: &Vec<i64>) -> (r: String)
    ensures
        r@ == join(decimals(ns@), LIST_SEP),
{
    let mut parts: Vec<String> = Vec::new();
    let mut i: usize = 0;
    while i < ns.len()
        invariant
            i <= ns.len(),
            parts@.len() == i,
            parts.deep_view() == decimals(ns@.take(i as int)),
        decreases ns.len() - i,
    {
        let ghost before = parts@;
        let d = decimal_string(ns[i]);
        parts.push(d);
        assert forall|j: int| 0 <= j < i implies parts@[j]@ == #[trigger] decimals(ns@.take(i + 1))[j] by {
            assert(parts@[j] == before[j]);
            assert(before[j]@ == Seq::new(before.len(), |k: int| before[k]@)[j]);
            assert(before[j]@ == decimals(ns@.take(i as int))[j]);
        }
        assert(parts.deep_view() =~= decimals(ns@.take(i + 1)));
        i = i + 1;
    }
    assert(ns@.take(ns.len() as int) == ns@);
    join_strings(&parts, LIST_SEP)
}

/// Splitting `x` followed by a text without `sep` extends the last piece.
proof fn lemma_split_append(x: Seq<char>, b: Seq<char>, sep: char)
    requires
        !b.contains(sep),
    ensures
        split(x + b, sep) == split(x, sep).update(
            split(x, sep).len() - 1,
            split(x, sep).last() + b,
        ),
    decreases b.len(),
{
    crate::text::lemma_split_nonempty(x, sep);
    let sx = split(x, sep);
    if b.len() == 0 {
        assert(x + b == x);
        assert(sx.last() + b == sx.last());
        assert(sx.update(sx.len() - 1, sx.last()) =~= sx);
    } else {
        let b0 = b.drop_last();
        assert(!b0.contains(sep)) by {
            assert forall|i: int| 0 <= i < b0.len() implies b0[i] != sep by {
                assert(b0[i] == b[i]);
            }
        }
        lemma_split_append(x, b0, sep);
        let y = x + b;
        assert(y.drop_last() == x + b0);
        assert(y.last() == b.last());
        assert(b.last() != sep) by {
            assert(b[b.len() - 1] == b.last());
        }
        assert((sx.last() + b0).push(b.last()) == sx.last() + b);
        let r0 = sx.update(sx.len() - 1, sx.last() + b0);
        assert(r0.update(r0.len() - 1, r0.last().push(b.last())) =~= sx.update(
            sx.len() - 1,
            sx.last() + b,
        ));
    }
}

/// Splitting a joined list gives the list back, when the list is not empty
/// and no value holds the separator.
pub proof fn law_split_join(parts: Seq<Seq<char>>, sep: char)
    requires
        parts.len() >= 1,
        forall|i: int| 0 <= i < parts.len() ==> !(#[trigger] parts[i]).contains(sep),
    ensures
        split(join(parts, sep), sep) == parts,
    decreases parts.len(),
{
    if parts.len() == 1 {
        lemma_split_append(Seq::empty(), parts[0], sep);
        assert(Seq::<char>::empty() + parts[0] == parts[0]);
        assert(Seq::<char>::empty() + parts[0] == parts[0]);
        assert(split(Seq::<char>::empty(), sep).update(0, Seq::<char>::empty() + parts[0]) =~= parts);
    } else {
        let init = parts.drop_last();
        assert forall|i: int| 0 <= i < init.len() implies !(#[trigger] init[i]).contains(sep) by {
            assert(init[i] == parts[i]);
        }
        law_split_join(init, sep);
        let a = join(init, sep).push(sep);
        assert(!parts.last().contains(sep)) by {
            assert(parts[parts.len() - 1] == parts.last());
        }
        lemma_split_append(a, parts.last(), sep);
        assert(a.drop_last() == join(init, sep));
        let sa = split(a, sep);
        assert(sa == init.push(Seq::empty()));
        assert(Seq::<char>::empty() + parts.last() == parts.last());
        assert(sa.update(sa.len() - 1, sa.last() + parts.last()) =~= parts);
    }
}

/// Reading back a list of integers written by `decimal_list` gives the same
/// integers, for every non-empty list.
pub proof fn law_int_list_roundtrip(ns: Seq<i64>)
    requires
        ns.len() >= 1,
    ensures
        parsed_list(split(join(decimals(ns), LIST_SEP), LIST_SEP)) == Some(ns),
{
    let ds = decimals(ns);
    assert forall|i: int| 0 <= i < ds.len() implies !(#[trigger] ds[i]).contains(LIST_SEP) by {
        lemma_decimal_avoids(ns[i] as int, LIST_SEP);
    }
    law_split_join(ds, LIST_SEP);
    assert forall|i: int| 0 <= i < ds.len() implies (#[trigger] parsed_i64(ds[i])) == Some(ns[i]) by {
        law_parse_decimal(ns[i]);
    }
    assert(Seq::new(ds.len(), |i: int| parsed_i64(ds[i])->0) =~= ns);
}

} // verus!
