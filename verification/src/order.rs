//! The orderings the catalog's listings use, and a sorting routine proved
//! against a deterministic specification, so that each listing's contents
//! and order are pinned exactly.

use vstd::prelude::*;
use vstd::multiset::Multiset;
use vstd::relations::sorted_by;
use crate::rom_library::Rom;
use crate::text::{lex_le, str_le, lemma_lex_le_total, lemma_lex_le_transitive,
    lemma_lex_le_reflexive};

verus! {

/// Which order a listing asks for.
pub enum SortOrder {
    /// Title ascending.
    Title,
    /// Play count descending, then title ascending.
    MostPlayed,
}

/// Title ascending.
pub open spec fn title_le(a: Rom, b: Rom) -> bool {
    lex_le(a.title@, b.title@)
}

/// Play count descending, ties broken by title ascending.
pub open spec fn played_le(a: Rom, b: Rom) -> bool {
    a.play_count > b.play_count || (a.play_count == b.play_count && lex_le(a.title@, b.title@))
}

/// The chosen order as a relation on records.
pub open spec fn ord_le(o: SortOrder, a: Rom, b: Rom) -> bool {
    match o {
        SortOrder::Title => title_le(a, b),
        SortOrder::MostPlayed => played_le(a, b),
    }
}

/// The chosen order as a first-class relation, for use with `sorted_by`.
pub open spec fn ord_fn(o: SortOrder) -> spec_fn(Rom, Rom) -> bool {
    |a: Rom, b: Rom| ord_le(o, a, b)
}

/// Both listing orders compare any two records.
pub proof fn lemma_ord_total(o: SortOrder, a: Rom, b: Rom)
    ensures
        ord_le(o, a, b) || ord_le(o, b, a),
{
    lemma_lex_le_total(a.title@, b.title@);
}

/// Both listing orders are transitive.
pub proof fn lemma_ord_transitive(o: SortOrder, a: Rom, b: Rom, c: Rom)
    requires
        ord_le(o, a, b),
        ord_le(o, b, c),
    ensures
        ord_le(o, a, c),
{
    if lex_le(a.title@, b.title@) && lex_le(b.title@, c.title@) {
        lemma_lex_le_transitive(a.title@, b.title@, c.title@);
    }
}

/// Decides the chosen order on two records.
pub fn rom_le(o: &SortOrder, a: &Rom, b: &Rom) -> (r: bool)
    ensures
        r == ord_le(*o, *a, *b),
{
    match o {
        SortOrder::Title => str_le(a.title.as_str(), b.title.as_str()),
        SortOrder::MostPlayed => {
            if a.play_count > b.play_count {
                true
            } else if a.play_count == b.play_count {
                str_le(a.title.as_str(), b.title.as_str())
            } else {
                false
            }
        },
    }
}

/// The given record placed immediately before the first element it precedes
/// or equals under the chosen order.
pub open spec fn insert_sorted(s: Seq<Rom>, x: Rom, o: SortOrder) -> Seq<Rom>
    decreases s.len(),
{
    if s.len() == 0 {
        seq![x]
    } else if ord_le(o, x, s[0]) {
        seq![x] + s
    } else {
        seq![s[0]] + insert_sorted(s.drop_first(), x, o)
    }
}

/// The sequence sorted under the chosen order: each element in turn, left to
/// right, inserted into the sorted prefix. Deterministic, so a contract
/// stated with it pins a listing completely.
pub open spec fn sort_with(s: Seq<Rom>, o: SortOrder) -> Seq<Rom>
    decreases s.len(),
{
    if s.len() == 0 {
        Seq::<Rom>::empty()
    } else {
        insert_sorted(sort_with(s.drop_last(), o), s.last(), o)
    }
}

/// Inserting preserves sortedness and adds exactly the given record.
pub proof fn lemma_insert_sorted_ensures(s: Seq<Rom>, x: Rom, o: SortOrder)
    requires
        sorted_by(s, ord_fn(o)),
    ensures
        sorted_by(insert_sorted(s, x, o), ord_fn(o)),
        insert_sorted(s, x, o).to_multiset() == s.to_multiset().insert(x),
        insert_sorted(s, x, o).len() == s.len() + 1,
    decreases s.len(),
{
    broadcast use vstd::seq_lib::group_to_multiset_ensures;

    if s.len() == 0 {
        assert(seq![x] =~= Seq::<Rom>::empty().push(x));
        assert(Seq::<Rom>::empty().to_multiset() =~= Multiset::<Rom>::empty());
    } else if ord_le(o, x, s[0]) {
        let r = seq![x] + s;
        assert forall|i: int, j: int| 0 <= i < j < r.len() implies ord_fn(o)(r[i], r[j]) by {
            if i == 0 {
                if j > 1 {
                    assert(ord_fn(o)(s[0], s[j - 1]));
                    lemma_ord_transitive(o, x, s[0], s[j - 1]);
                }
            } else {
                assert(ord_fn(o)(s[i - 1], s[j - 1]));
            }
        }
        assert(r =~= s.insert(0, x));
        vstd::seq_lib::to_multiset_insert(s, 0, x);
    } else {
        let rest = insert_sorted(s.drop_first(), x, o);
        assert(sorted_by(s.drop_first(), ord_fn(o))) by {
            assert forall|i: int, j: int|
                0 <= i < j < s.drop_first().len() implies ord_fn(o)(
                s.drop_first()[i],
                s.drop_first()[j],
            ) by {
                assert(ord_fn(o)(s[i + 1], s[j + 1]));
            }
        }
        lemma_insert_sorted_ensures(s.drop_first(), x, o);
        let r = seq![s[0]] + rest;
        assert(r == insert_sorted(s, x, o));
        lemma_ord_total(o, x, s[0]);
        assert forall|i: int, j: int| 0 <= i < j < r.len() implies ord_fn(o)(r[i], r[j]) by {
            if i > 0 {
                assert(ord_fn(o)(rest[i - 1], rest[j - 1]));
            } else {
                // s[0] precedes everything in rest: each element of rest is
                // either x (which follows s[0]) or an element of s.
                assert(rest.to_multiset().contains(rest[j - 1]));
                if rest[j - 1] == x {
                    assert(ord_fn(o)(s[0], x));
                } else {
                    assert(s.drop_first().to_multiset().contains(rest[j - 1]));
                    let k = choose|k: int|
                        0 <= k < s.drop_first().len() && s.drop_first()[k] == rest[j - 1];
                    assert(ord_fn(o)(s[0], s[k + 1]));
                }
            }
        }
        assert(r.to_multiset() =~= s.to_multiset().insert(x)) by {
            assert(s =~= seq![s[0]] + s.drop_first());
            vstd::seq_lib::lemma_multiset_commutative(seq![s[0]], rest);
            vstd::seq_lib::lemma_multiset_commutative(seq![s[0]], s.drop_first());
        }
    }
}

/// Sorting yields a sorted permutation of its input.
pub proof fn lemma_sort_with_ensures(s: Seq<Rom>, o: SortOrder)
    ensures
        sorted_by(sort_with(s, o), ord_fn(o)),
        sort_with(s, o).to_multiset() == s.to_multiset(),
        sort_with(s, o).len() == s.len(),
    decreases s.len(),
{
    broadcast use vstd::seq_lib::group_to_multiset_ensures;

    if s.len() > 0 {
        lemma_sort_with_ensures(s.drop_last(), o);
        lemma_insert_sorted_ensures(sort_with(s.drop_last(), o), s.last(), o);
        assert(s =~= s.drop_last().push(s.last()));
        assert(s.drop_last().push(s.last()).to_multiset() == s.drop_last().to_multiset().insert(
            s.last(),
        ));
    }
}

/// Every record of a sorted sequence comes from the input sequence.
pub proof fn lemma_sort_with_membership(s: Seq<Rom>, o: SortOrder, i: int)
    requires
        0 <= i < sort_with(s, o).len(),
    ensures
        s.contains(sort_with(s, o)[i]),
{
    broadcast use vstd::seq_lib::group_to_multiset_ensures;

    lemma_sort_with_ensures(s, o);
    assert(sort_with(s, o).contains(sort_with(s, o)[i]));
    assert(sort_with(s, o).to_multiset().contains(sort_with(s, o)[i]));
}

/// Where the first `idx` elements all precede the new record strictly and
/// the element at `idx` (if any) does not, insertion lands at `idx`.
proof fn lemma_insert_sorted_at(s: Seq<Rom>, x: Rom, o: SortOrder, idx: int)
    requires
        0 <= idx <= s.len(),
        forall|j: int| 0 <= j < idx ==> !ord_le(o, x, #[trigger] s[j]),
        idx < s.len() ==> ord_le(o, x, s[idx]),
    ensures
        insert_sorted(s, x, o) == s.insert(idx, x),
    decreases idx,
{
    if idx == 0 {
        if s.len() == 0 {
            assert(seq![x] =~= s.insert(0, x));
        } else {
            assert(seq![x] + s =~= s.insert(0, x));
        }
    } else {
        lemma_insert_sorted_at(s.drop_first(), x, o, idx - 1);
        assert(seq![s[0]] + s.drop_first().insert(idx - 1, x) =~= s.insert(idx, x));
    }
}

/// Inserts a record into a vector sorted under the chosen order.
fn insert_rom(v: &mut Vec<Rom>, x: Rom, o: &SortOrder)
    ensures
        final(v)@ == insert_sorted(old(v)@, x, *o),
{
    let n = v.len();
    let mut idx: usize = 0;
    while idx < n
        invariant
            n == v@.len(),
            idx <= n,
            v@ == old(v)@,
            forall|j: int| 0 <= j < idx ==> !ord_le(*o, x, #[trigger] v@[j]),
        ensures
            idx <= n,
            v@ == old(v)@,
            forall|j: int| 0 <= j < idx ==> !ord_le(*o, x, #[trigger] v@[j]),
            idx < n ==> ord_le(*o, x, v@[idx as int]),
        decreases n - idx,
    {
        if rom_le(o, &x, &v[idx]) {
            break ;
        }
        idx = idx + 1;
    }
    proof {
        lemma_insert_sorted_at(v@, x, *o, idx as int);
    }
    v.insert(idx, x);
}

/// Sorts the records under the chosen order.
pub fn sort_roms(v: Vec<Rom>, o: &SortOrder) -> (r: Vec<Rom>)
    ensures
        r@ == sort_with(v@, *o),
{
    let n = v.len();
    let mut out: Vec<Rom> = Vec::new();
    let mut i: usize = 0;
    proof {
        assert(v@.take(0) =~= Seq::<Rom>::empty());
    }
    while i < n
        invariant
            n == v@.len(),
            i <= n,
            out@ == sort_with(v@.take(i as int), *o),
        decreases n - i,
    {
        insert_rom(&mut out, v[i].clone(), o);
        proof {
            assert(v@.take(i + 1).drop_last() =~= v@.take(i as int));
            assert(v@.take(i + 1).last() == v@[i as int]);
        }
        i = i + 1;
    }
    proof {
        assert(v@.take(n as int) =~= v@);
    }
    out
}

} // verus!
