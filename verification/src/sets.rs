//! Insertion-ordered sets of integers and of texts, kept by the `indexmap` crate.
use vstd::prelude::*;

use indexmap::IndexSet;

verus! {

#[verifier::external_type_specification]
#[verifier::external_body]
#[verifier::reject_recursive_types(T)]
#[verifier::reject_recursive_types(S)]
pub struct ExIndexSet<T, S>(IndexSet<T, S>);

/// Items of a set, in insertion order.
pub uninterp spec fn index_set_items(s: IndexSet<u64>) -> Seq<u64>;

/// Items of `s` in order of first occurrence.
pub open spec fn dedup(s: Seq<u64>) -> Seq<u64>
    decreases s.len(),
{
    if s.len() == 0 {
        Seq::empty()
    } else if dedup(s.drop_last()).contains(s.last()) {
        dedup(s.drop_last())
    } else {
        dedup(s.drop_last()).push(s.last())
    }
}

/// `IndexSet::new` of the `indexmap` crate. Claimed: the new set holds no items.
#[verifier::external_body]
pub(crate) fn index_set_new() -> (s: IndexSet<u64>)
    ensures
        index_set_items(s) == Seq::<u64>::empty(),
{
    IndexSet::new()
}

/// `IndexSet::insert`. Claimed, as its documentation says: an item already held leaves the
/// set unchanged, another one is added after all held items.
#[verifier::external_body]
pub(crate) fn index_set_insert(s: &mut IndexSet<u64>, v: u64)
    ensures
        index_set_items(*final(s)) == if index_set_items(*old(s)).contains(v) {
            index_set_items(*old(s))
        } else {
            index_set_items(*old(s)).push(v)
        },
{
    s.insert(v);
}

/// `IndexSet::iter`, items copied out. Claimed: the items in insertion order.
#[verifier::external_body]
pub(crate) fn index_set_to_vec(s: &IndexSet<u64>) -> (r: Vec<u64>)
    ensures
        r@ == index_set_items(*s),
{
    s.iter().copied().collect()
}

/// Items of `values` in order of first occurrence, collected into an index set.
pub fn dedup_values(values: &Vec<u64>) -> (r: Vec<u64>)
    ensures
        r@ == dedup(values@),
{
    let mut s = index_set_new();
    let mut i: usize = 0;
    while i < values.len()
        invariant
            i <= values@.len(),
            index_set_items(s) == dedup(values@.subrange(0, i as int)),
        decreases values.len() - i,
    {
        assert(values@.subrange(0, i + 1).drop_last() =~= values@.subrange(0, i as int));
        index_set_insert(&mut s, values[i]);
        i = i + 1;
    }
    assert(values@.subrange(0, values@.len() as int) =~= values@);
    index_set_to_vec(&s)
}

/// Texts of a set of strings, in insertion order.
pub uninterp spec fn index_set_texts(s: IndexSet<String>) -> Seq<Seq<char>>;

/// Texts of `s` in order of first occurrence.
pub open spec fn dedup_texts(s: Seq<Seq<char>>) -> Seq<Seq<char>>
    decreases s.len(),
{
    if s.len() == 0 {
        Seq::empty()
    } else if dedup_texts(s.drop_last()).contains(s.last()) {
        dedup_texts(s.drop_last())
    } else {
        dedup_texts(s.drop_last()).push(s.last())
    }
}

/// `IndexSet::new`. Claimed: the new set holds no texts.
#[verifier::external_body]
fn text_set_new() -> (s: IndexSet<String>)
    ensures
        index_set_texts(s) == Seq::<Seq<char>>::empty(),
{
    IndexSet::new()
}

/// `IndexSet::insert`. Claimed, as its documentation says: a text already held leaves the
/// set unchanged, another one is added after all held texts (strings are equal exactly when
/// their texts are).
#[verifier::external_body]
fn text_set_insert(s: &mut IndexSet<String>, v: String)
    ensures
        index_set_texts(*final(s)) == if index_set_texts(*old(s)).contains(v@) {
            index_set_texts(*old(s))
        } else {
            index_set_texts(*old(s)).push(v@)
        },
{
    s.insert(v);
}

/// `IndexSet::iter`, texts cloned out. Claimed: the texts in insertion order.
#[verifier::external_body]
fn text_set_to_vec(s: &IndexSet<String>) -> (r: Vec<String>)
    ensures
        r@.map_values(|x: String| x@) == index_set_texts(*s),
{
    s.iter().cloned().collect()
}

/// Texts of `values` in order of first occurrence, collected into an index set.
pub fn dedup_strings(values: &Vec<String>) -> (r: Vec<String>)
    ensures
        r@.map_values(|x: String| x@) == dedup_texts(values@.map_values(|x: String| x@)),
{
    let ghost all = values@.map_values(|x: String| x@);
    let mut s = text_set_new();
    let mut i: usize = 0;
    while i < values.len()
        invariant
            i <= values@.len(),
            all == values@.map_values(|x: String| x@),
            index_set_texts(s) == dedup_texts(all.subrange(0, i as int)),
        decreases values.len() - i,
    {
        assert(all.subrange(0, i + 1).drop_last() =~= all.subrange(0, i as int));
        assert(all.subrange(0, i + 1).last() == values@[i as int]@);
        text_set_insert(&mut s, values[i].clone());
        i = i + 1;
    }
    assert(all.subrange(0, all.len() as int) =~= all);
    text_set_to_vec(&s)
}

} // verus!
