//! Query parameters of a request and sort orders.
use vstd::prelude::*;

use ordered_multimap::ListOrderedMultimap;

use crate::error::Error;
use crate::text::{chars_of, concat, string_of};
use crate::traits::{FromText, ToText};

verus! {

#[verifier::external_type_specification]
#[verifier::external_body]
#[verifier::reject_recursive_types(Key)]
#[verifier::reject_recursive_types(Value)]
#[verifier::reject_recursive_types(State)]
pub struct ExListOrderedMultimap<Key, Value, State>(ListOrderedMultimap<Key, Value, State>);

/// Key-value pairs of a multimap, in the order its iterator yields them.
pub uninterp spec fn multimap_pairs(m: ListOrderedMultimap<String, String>) -> Seq<(Seq<char>, Seq<char>)>;

/// Pairs left after dropping those with key `k`.
pub open spec fn without_key(pairs: Seq<(Seq<char>, Seq<char>)>, k: Seq<char>) -> Seq<(Seq<char>, Seq<char>)>
    decreases pairs.len(),
{
    if pairs.len() == 0 {
        pairs
    } else {
        let prev = without_key(pairs.drop_last(), k);
        if pairs.last().0 != k {
            prev.push(pairs.last())
        } else {
            prev
        }
    }
}

/// `ListOrderedMultimap::new` of the `ordered-multimap` crate. Claimed: the new map holds
/// no pairs.
#[verifier::external_body]
fn multimap_new() -> (m: ListOrderedMultimap<String, String>)
    ensures
        multimap_pairs(m) == Seq::<(Seq<char>, Seq<char>)>::empty(),
{
    ListOrderedMultimap::new()
}

/// `ListOrderedMultimap::append`. Claimed: the pair is added after all pairs already
/// held, which stay as they are (the crate pushes the value at the back of its value list).
#[verifier::external_body]
fn multimap_append(m: &mut ListOrderedMultimap<String, String>, key: String, value: String)
    ensures
        multimap_pairs(*final(m)) == multimap_pairs(*old(m)).push((key@, value@)),
{
    m.append(key, value);
}

/// `ListOrderedMultimap::insert`. Claimed: every pair with an equal key is dropped and the
/// new pair is added after the pairs that remain (the crate pushes the value at the back of
/// its value list and drains the earlier values of the key).
#[verifier::external_body]
fn multimap_insert(m: &mut ListOrderedMultimap<String, String>, key: String, value: String)
    ensures
        multimap_pairs(*final(m)) == without_key(multimap_pairs(*old(m)), key@).push((key@, value@)),
{
    m.insert(key, value);
}

/// `ListOrderedMultimap::iter`, each pair copied out. Claimed: the pairs in iteration order.
#[verifier::external_body]
fn multimap_iter(m: &ListOrderedMultimap<String, String>) -> (r: Vec<(String, String)>)
    ensures
        r@.map_values(|p: (String, String)| (p.0@, p.1@)) == multimap_pairs(*m),
{
    m.iter().map(|(k, v)| (k.clone(), v.clone())).collect()
}

/// Query parameters of a request: key-value pairs in insertion order; a key may repeat.
#[derive(Debug)]
pub struct Query(ListOrderedMultimap<String, String>);

impl View for Query {
    type V = Seq<(Seq<char>, Seq<char>)>;

    closed spec fn view(&self) -> Self::V {
        multimap_pairs(self.0)
    }
}

impl Query {
    /// An empty query.
    pub fn new() -> (q: Query)
        ensures
            q@ == Seq::<(Seq<char>, Seq<char>)>::empty(),
    {
        Query(multimap_new())
    }

    /// Appends a value to the list of values associated with the given key.
    pub fn append(&mut self, key: String, value: String)
        ensures
            final(self)@ == old(self)@.push((key@, value@)),
    {
        multimap_append(&mut self.0, key, value);
    }

    /// Inserts a value overriding entries associated with the given key.
    pub fn insert(&mut self, key: String, value: String)
        ensures
            final(self)@ == without_key(old(self)@, key@).push((key@, value@)),
    {
        multimap_insert(&mut self.0, key, value);
    }

    /// The key-value pairs in order.
    pub fn pairs(&self) -> (r: Vec<(String, String)>)
        ensures
            r@.map_values(|p: (String, String)| (p.0@, p.1@)) == self@,
    {
        multimap_iter(&self.0)
    }
}

/// Invertible search order sorting term.
#[derive(Debug)]
pub enum Order<T> {
    Ascending(T),
    Descending(T),
}

impl<T: FromText> FromText for Order<T> {
    open spec fn text_ok(s: Seq<char>) -> bool {
        if s.len() > 0 && (s[0] == '-' || s[0] == '+') {
            T::text_ok(s.subrange(1, s.len() as int))
        } else {
            T::text_ok(s)
        }
    }

    open spec fn text_value(s: Seq<char>, v: Order<T>) -> bool {
        if s.len() > 0 && s[0] == '-' {
            v matches Order::Descending(x) && T::text_value(s.subrange(1, s.len() as int), x)
        } else if s.len() > 0 && s[0] == '+' {
            v matches Order::Ascending(x) && T::text_value(s.subrange(1, s.len() as int), x)
        } else {
            v matches Order::Ascending(x) && T::text_value(s, x)
        }
    }

    open spec fn text_error(s: Seq<char>) -> Seq<char> {
        if s.len() > 0 && (s[0] == '-' || s[0] == '+') {
            "unknown field: "@ + s.subrange(1, s.len() as int)
        } else {
            "unknown field: "@ + s
        }
    }

    fn from_text(s: &str) -> (r: Result<Order<T>, String>) {
        let c = chars_of(s);
        if c.len() > 0 && (c[0] == '-' || c[0] == '+') {
            let rest = string_of(c.as_slice(), 1, c.len());
            match T::from_text(rest.as_str()) {
                Ok(v) => if c[0] == '-' {
                    Ok(Order::Descending(v))
                } else {
                    Ok(Order::Ascending(v))
                },
                Err(_) => Err(concat("unknown field: ", rest.as_str())),
            }
        } else {
            match T::from_text(s) {
                Ok(v) => Ok(Order::Ascending(v)),
                Err(_) => Err(concat("unknown field: ", s)),
            }
        }
    }
}

impl<T: FromText> Order<T> {
    /// Parses a sort order, mapping a failure to an invalid value error.
    pub fn try_from_str(s: &str) -> (r: Result<Order<T>, Error>)
        ensures
            r is Ok <==> Self::text_ok(s@),
            r matches Ok(v) ==> Self::text_value(s@, v),
            r matches Err(e) ==> e.is_invalid_value(Self::text_error(s@)),
    {
        match Self::from_text(s) {
            Ok(v) => Ok(v),
            Err(m) => Err(Error::InvalidValue(m)),
        }
    }
}

impl<T: ToText> ToText for Order<T> {
    open spec fn spec_text(&self) -> Seq<char> {
        match self {
            Order::Ascending(v) => v.spec_text(),
            Order::Descending(v) => "-"@ + v.spec_text(),
        }
    }

    fn to_text(&self) -> (s: String) {
        match self {
            Order::Ascending(v) => v.to_text(),
            Order::Descending(v) => concat("-", v.to_text().as_str()),
        }
    }
}


/// Values of a key among query pairs, in order.
pub open spec fn values_of(pairs: Seq<(Seq<char>, Seq<char>)>, k: Seq<char>) -> Seq<Seq<char>>
    decreases pairs.len(),
{
    if pairs.len() == 0 {
        Seq::empty()
    } else {
        let prev = values_of(pairs.drop_last(), k);
        if pairs.last().0 == k {
            prev.push(pairs.last().1)
        } else {
            prev
        }
    }
}

proof fn lemma_values_of_push(pairs: Seq<(Seq<char>, Seq<char>)>, p: (Seq<char>, Seq<char>), k: Seq<char>)
    ensures
        values_of(pairs.push(p), k) == if p.0 == k {
            values_of(pairs, k).push(p.1)
        } else {
            values_of(pairs, k)
        },
{
    assert(pairs.push(p).drop_last() =~= pairs);
}

proof fn lemma_values_without_key(pairs: Seq<(Seq<char>, Seq<char>)>, k: Seq<char>, k2: Seq<char>)
    ensures
        values_of(without_key(pairs, k), k2) == if k2 == k {
            Seq::<Seq<char>>::empty()
        } else {
            values_of(pairs, k2)
        },
    decreases pairs.len(),
{
    if pairs.len() > 0 {
        lemma_values_without_key(pairs.drop_last(), k, k2);
        if pairs.last().0 != k {
            lemma_values_of_push(without_key(pairs.drop_last(), k), pairs.last(), k2);
        }
    }
}

/// Reading a key after inserting a value for it gives exactly that value; other keys keep
/// their values.
pub proof fn lemma_insert_read(pairs: Seq<(Seq<char>, Seq<char>)>, k: Seq<char>, v: Seq<char>, other: Seq<char>)
    ensures
        values_of(without_key(pairs, k).push((k, v)), k) == seq![v],
        other != k ==> values_of(without_key(pairs, k).push((k, v)), other) == values_of(pairs, other),
{
    lemma_values_without_key(pairs, k, k);
    lemma_values_without_key(pairs, k, other);
    lemma_values_of_push(without_key(pairs, k), (k, v), k);
    lemma_values_of_push(without_key(pairs, k), (k, v), other);
    assert(Seq::<Seq<char>>::empty().push(v) =~= seq![v]);
}

/// Reading a key after appending a value for it gives its earlier values followed by the
/// new one; other keys keep their values.
pub proof fn lemma_append_read(pairs: Seq<(Seq<char>, Seq<char>)>, k: Seq<char>, v: Seq<char>, other: Seq<char>)
    ensures
        values_of(pairs.push((k, v)), k) == values_of(pairs, k).push(v),
        other != k ==> values_of(pairs.push((k, v)), other) == values_of(pairs, other),
{
    lemma_values_of_push(pairs, (k, v), k);
    lemma_values_of_push(pairs, (k, v), other);
}

} // verus!
