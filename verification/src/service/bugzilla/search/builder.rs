//! Construction of Bugzilla search queries: advanced field clauses numbered by a counter,
//! grouped with open and close parentheses and optionally negated.
use vstd::prelude::*;

use crate::query::{without_key, Query};
use crate::service::bugzilla::{spec_user_alias, Bugzilla};
use crate::text::{nat_digits, owned, push_char, u64_to_string};
use crate::traits::Api;

use crate::args::ExistsOrValues;
use crate::objects::{Range, RangeOp, RangeOrValue};
use crate::query::Order;
use crate::service::bugzilla::{BugField, FilterField};
use crate::sets::{dedup, dedup_values};
use crate::text::{chars_of, int_digits, join, seq_join, starts_with, str_eq, string_of};
use crate::time::TimeDeltaOrStatic;

use super::{
    change_field_api, invalid_change_field, invert_split, lemma_change_field_api, spec_order_api, ChangeField, Match,
    OrderField, StaticChangeField,
};
use crate::error::Error;
use crate::text::concat;
use crate::traits::{FromText, ToText};

verus! {

/// Query pairs in order.
pub type Pairs = Seq<(Seq<char>, Seq<char>)>;

/// Query pairs and the number of advanced clause slots used so far.
pub type QState = (Pairs, nat);

/// Key of an advanced clause slot: a letter followed by the slot number.
pub open spec fn qkey(c: char, n: nat) -> Seq<char> {
    seq![c] + nat_digits(n)
}

/// Pairs after setting `k` to `v`, dropping earlier values of `k`.
pub open spec fn sp_insert(q: Pairs, k: Seq<char>, v: Seq<char>) -> Pairs {
    without_key(q, k).push((k, v))
}

/// State after an advanced clause matching `field` against `value` with `op`.
pub open spec fn sp_field(st: QState, field: Seq<char>, op: Seq<char>, value: Seq<char>) -> QState {
    let n = st.1 + 1;
    (sp_insert(sp_insert(sp_insert(st.0, qkey('f', n), field), qkey('o', n), op), qkey('v', n), value), n)
}

/// State after a clause on whether `field` holds values.
pub open spec fn sp_exists(st: QState, field: Seq<char>, status: bool) -> QState {
    let n = st.1 + 1;
    (sp_insert(sp_insert(st.0, qkey('f', n), field), qkey('o', n), if status { "isnotempty"@ } else { "isempty"@ }), n)
}

/// State after opening a group joined by `op`.
pub open spec fn sp_open(st: QState, op: Seq<char>) -> QState {
    let n = st.1 + 1;
    (sp_insert(sp_insert(st.0, qkey('f', n), "OP"@), qkey('j', n), op), n)
}

/// State after closing a group.
pub open spec fn sp_close(st: QState) -> QState {
    let n = st.1 + 1;
    (sp_insert(st.0, qkey('f', n), "CP"@), n)
}

/// State after negating the last clause when `status` is set.
pub open spec fn sp_negate(st: QState, status: bool) -> QState {
    if status {
        (sp_insert(st.0, qkey('n', st.1), "1"@), st.1)
    } else {
        st
    }
}

/// Value matched by a match clause, with the user alias replaced when `alias` is set.
pub open spec fn match_value(user: Option<String>, m: Match, alias: bool) -> Seq<char> {
    if alias {
        spec_user_alias(user, m.value@)
    } else {
        m.value@
    }
}

/// State after a match clause on `field`.
pub open spec fn sp_match(st: QState, user: Option<String>, field: Seq<char>, m: Match, alias: bool) -> QState {
    sp_field(st, field, m.spec_op().spec_api_name(), match_value(user, m, alias))
}


/// State after match clauses on `field` for each of `ms`.
pub open spec fn sp_matches(st: QState, user: Option<String>, field: Seq<char>, ms: Seq<Match>, alias: bool) -> QState
    decreases ms.len(),
{
    if ms.len() == 0 {
        st
    } else {
        sp_match(sp_matches(st, user, field, ms.drop_last(), alias), user, field, ms.last(), alias)
    }
}

/// State after a group joined by `op` of match clauses on `field`.
pub open spec fn sp_group(st: QState, op: Seq<char>, user: Option<String>, field: Seq<char>, ms: Seq<Match>, alias: bool) -> QState {
    sp_close(sp_matches(sp_open(st, op), user, field, ms, alias))
}

/// State after an `AND` group of match clauses for each list of `ls`.
pub open spec fn sp_and_lists(st: QState, user: Option<String>, field: Seq<char>, ls: Seq<Vec<Match>>, alias: bool) -> QState
    decreases ls.len(),
{
    if ls.len() == 0 {
        st
    } else {
        sp_group(sp_and_lists(st, user, field, ls.drop_last(), alias), "AND"@, user, field, ls.last()@, alias)
    }
}

/// State after an `OR` group of `AND` groups, one for each list of `ls`.
pub open spec fn sp_or_lists(st: QState, user: Option<String>, field: Seq<char>, ls: Seq<Vec<Match>>, alias: bool) -> QState {
    sp_close(sp_and_lists(sp_open(st, "OR"@), user, field, ls, alias))
}

pub(crate) proof fn lemma_matches_prefix(st: QState, user: Option<String>, field: Seq<char>, ms: Seq<Match>, alias: bool, i: int)
    requires
        0 <= i <= ms.len(),
    ensures
        st.1 <= sp_matches(st, user, field, ms.subrange(0, i), alias).1 <= sp_matches(st, user, field, ms, alias).1,
    decreases ms.len(),
{
    if i < ms.len() {
        assert(ms.drop_last().subrange(0, i) =~= ms.subrange(0, i));
        lemma_matches_prefix(st, user, field, ms.drop_last(), alias, i);
    } else {
        assert(ms.subrange(0, i) =~= ms);
        if ms.len() > 0 {
            lemma_matches_prefix(st, user, field, ms.drop_last(), alias, 0);
            assert(ms.drop_last().subrange(0, 0) =~= ms.subrange(0, 0));
        }
    }
    assert(ms.subrange(0, 0) =~= Seq::<Match>::empty());
}

pub(crate) proof fn lemma_and_lists_prefix(st: QState, user: Option<String>, field: Seq<char>, ls: Seq<Vec<Match>>, alias: bool, i: int)
    requires
        0 <= i <= ls.len(),
    ensures
        st.1 <= sp_and_lists(st, user, field, ls.subrange(0, i), alias).1 <= sp_and_lists(st, user, field, ls, alias).1,
    decreases ls.len(),
{
    assert(ls.subrange(0, 0) =~= Seq::<Vec<Match>>::empty());
    if ls.len() > 0 {
        let prev = sp_and_lists(st, user, field, ls.drop_last(), alias);
        lemma_matches_prefix(sp_open(prev, "AND"@), user, field, ls.last()@, alias, 0);
        if i < ls.len() {
            assert(ls.drop_last().subrange(0, i) =~= ls.subrange(0, i));
            lemma_and_lists_prefix(st, user, field, ls.drop_last(), alias, i);
        } else {
            assert(ls.subrange(0, i) =~= ls);
            lemma_and_lists_prefix(st, user, field, ls.drop_last(), alias, 0);
            assert(ls.drop_last().subrange(0, 0) =~= ls.subrange(0, 0));
        }
    }
}


/// State after an `OR` group over existence flags and `AND` groups of match clauses; an
/// existence flag is a clause on `exists_field`, and with `inverted` an absent flag is a
/// negated presence clause.
pub open spec fn sp_eov_items(
    st: QState,
    user: Option<String>,
    field: Seq<char>,
    exists_field: Seq<char>,
    vs: Seq<ExistsOrValues<Match>>,
    alias: bool,
    inverted: bool,
) -> QState
    decreases vs.len(),
{
    if vs.len() == 0 {
        st
    } else {
        let prev = sp_eov_items(st, user, field, exists_field, vs.drop_last(), alias, inverted);
        match vs.last() {
            ExistsOrValues::Exists(b) => if inverted {
                sp_negate(sp_exists(prev, exists_field, true), !b)
            } else {
                sp_exists(prev, exists_field, b)
            },
            ExistsOrValues::Values(ms) => sp_group(prev, "AND"@, user, field, ms@, alias),
        }
    }
}

/// `OR` group of `sp_eov_items`.
pub open spec fn sp_eov(
    st: QState,
    user: Option<String>,
    field: Seq<char>,
    exists_field: Seq<char>,
    vs: Seq<ExistsOrValues<Match>>,
    alias: bool,
    inverted: bool,
) -> QState {
    sp_close(sp_eov_items(sp_open(st, "OR"@), user, field, exists_field, vs, alias, inverted))
}

pub(crate) proof fn lemma_eov_prefix(
    st: QState,
    user: Option<String>,
    field: Seq<char>,
    exists_field: Seq<char>,
    vs: Seq<ExistsOrValues<Match>>,
    alias: bool,
    inverted: bool,
    i: int,
)
    requires
        0 <= i <= vs.len(),
    ensures
        st.1 <= sp_eov_items(st, user, field, exists_field, vs.subrange(0, i), alias, inverted).1
            <= sp_eov_items(st, user, field, exists_field, vs, alias, inverted).1,
    decreases vs.len(),
{
    assert(vs.subrange(0, 0) =~= Seq::<ExistsOrValues<Match>>::empty());
    if vs.len() > 0 {
        let prev = sp_eov_items(st, user, field, exists_field, vs.drop_last(), alias, inverted);
        if let ExistsOrValues::Values(ms) = vs.last() {
            lemma_matches_prefix(sp_open(prev, "AND"@), user, field, ms@, alias, 0);
        }
        if i < vs.len() {
            assert(vs.drop_last().subrange(0, i) =~= vs.subrange(0, i));
            lemma_eov_prefix(st, user, field, exists_field, vs.drop_last(), alias, inverted, i);
        } else {
            assert(vs.subrange(0, i) =~= vs);
            lemma_eov_prefix(st, user, field, exists_field, vs.drop_last(), alias, inverted, 0);
            assert(vs.drop_last().subrange(0, 0) =~= vs.subrange(0, 0));
        }
    }
}

/// API operator name of a range operator.
pub open spec fn range_op_api<T>(op: RangeOp<T>) -> Seq<char> {
    match op {
        RangeOp::Less(_) => "lessthan"@,
        RangeOp::LessOrEqual(_) => "lessthaneq"@,
        RangeOp::Equal(_) => "equals"@,
        RangeOp::NotEqual(_) => "notequals"@,
        RangeOp::GreaterOrEqual(_) => "greaterthaneq"@,
        RangeOp::Greater(_) => "greaterthan"@,
    }
}

/// Bound of a range operator.
pub open spec fn range_op_value<T>(op: RangeOp<T>) -> T {
    match op {
        RangeOp::Less(v) => v,
        RangeOp::LessOrEqual(v) => v,
        RangeOp::Equal(v) => v,
        RangeOp::NotEqual(v) => v,
        RangeOp::GreaterOrEqual(v) => v,
        RangeOp::Greater(v) => v,
    }
}

/// State after a clause comparing `field` by a range operator.
pub open spec fn sp_range_op<T: Api>(st: QState, field: Seq<char>, op: RangeOp<T>) -> QState {
    sp_field(st, field, range_op_api(op), range_op_value(op).spec_api())
}

/// State after clauses bounding `field` to a range.
pub open spec fn sp_range<T: Api>(st: QState, field: Seq<char>, r: Range<T>) -> QState {
    match r {
        Range::Range(a, b) => sp_close(
            sp_field(sp_field(sp_open(st, "AND"@), field, "greaterthaneq"@, a.spec_api()), field, "lessthan"@, b.spec_api()),
        ),
        Range::Inclusive(a, b) => sp_close(
            sp_field(sp_field(sp_open(st, "AND"@), field, "greaterthaneq"@, a.spec_api()), field, "lessthaneq"@, b.spec_api()),
        ),
        Range::To(b) => sp_field(st, field, "lessthan"@, b.spec_api()),
        Range::ToInclusive(b) => sp_field(st, field, "lessthaneq"@, b.spec_api()),
        Range::From(a) => sp_field(st, field, "greaterthaneq"@, a.spec_api()),
        Range::Full => st,
    }
}

/// State after clauses matching `field` against a value (with `value_op`), a range
/// operator or a range.
pub open spec fn sp_rov<T: Api>(st: QState, field: Seq<char>, r: RangeOrValue<T>, value_op: Seq<char>) -> QState {
    match r {
        RangeOrValue::Value(v) => sp_field(st, field, value_op, v.spec_api()),
        RangeOrValue::RangeOp(op) => sp_range_op(st, field, op),
        RangeOrValue::Range(x) => sp_range(st, field, x),
    }
}

/// State after clauses matching a bug number field: a negative value excludes its absolute
/// value.
pub open spec fn sp_signed(st: QState, field: Seq<char>, r: RangeOrValue<i64>) -> QState {
    match r {
        RangeOrValue::Value(v) => if v >= 0 {
            sp_field(st, field, "equals"@, int_digits(v as int))
        } else {
            sp_field(st, field, "notequals"@, int_digits(-v))
        },
        RangeOrValue::RangeOp(op) => sp_range_op(st, field, op),
        RangeOrValue::Range(x) => sp_range(st, field, x),
    }
}

/// State after `sp_signed` clauses for each of `rs`.
pub open spec fn sp_signed_list(st: QState, field: Seq<char>, rs: Seq<RangeOrValue<i64>>) -> QState
    decreases rs.len(),
{
    if rs.len() == 0 {
        st
    } else {
        sp_signed(sp_signed_list(st, field, rs.drop_last()), field, rs.last())
    }
}

/// State after existence clauses on `exists_field` and `AND` groups of bug number clauses.
pub open spec fn sp_id_items(st: QState, field: Seq<char>, exists_field: Seq<char>, vs: Seq<ExistsOrValues<RangeOrValue<i64>>>) -> QState
    decreases vs.len(),
{
    if vs.len() == 0 {
        st
    } else {
        let prev = sp_id_items(st, field, exists_field, vs.drop_last());
        match vs.last() {
            ExistsOrValues::Exists(b) => sp_exists(prev, exists_field, b),
            ExistsOrValues::Values(rs) => sp_close(sp_signed_list(sp_open(prev, "AND"@), field, rs@)),
        }
    }
}

/// `OR` group of `sp_id_items`.
pub open spec fn sp_ids(st: QState, field: Seq<char>, exists_field: Seq<char>, vs: Seq<ExistsOrValues<RangeOrValue<i64>>>) -> QState {
    sp_close(sp_id_items(sp_open(st, "OR"@), field, exists_field, vs))
}

pub(crate) proof fn lemma_range_mono<T: Api>(st: QState, field: Seq<char>, r: Range<T>)
    ensures
        st.1 <= sp_range(st, field, r).1,
{
}

pub(crate) proof fn lemma_signed_list_prefix(st: QState, field: Seq<char>, rs: Seq<RangeOrValue<i64>>, i: int)
    requires
        0 <= i <= rs.len(),
    ensures
        st.1 <= sp_signed_list(st, field, rs.subrange(0, i)).1 <= sp_signed_list(st, field, rs).1,
    decreases rs.len(),
{
    assert(rs.subrange(0, 0) =~= Seq::<RangeOrValue<i64>>::empty());
    if rs.len() > 0 {
        if i < rs.len() {
            assert(rs.drop_last().subrange(0, i) =~= rs.subrange(0, i));
            lemma_signed_list_prefix(st, field, rs.drop_last(), i);
        } else {
            assert(rs.subrange(0, i) =~= rs);
            lemma_signed_list_prefix(st, field, rs.drop_last(), 0);
            assert(rs.drop_last().subrange(0, 0) =~= rs.subrange(0, 0));
        }
    }
}

pub(crate) proof fn lemma_id_items_prefix(st: QState, field: Seq<char>, exists_field: Seq<char>, vs: Seq<ExistsOrValues<RangeOrValue<i64>>>, i: int)
    requires
        0 <= i <= vs.len(),
    ensures
        st.1 <= sp_id_items(st, field, exists_field, vs.subrange(0, i)).1 <= sp_id_items(st, field, exists_field, vs).1,
    decreases vs.len(),
{
    assert(vs.subrange(0, 0) =~= Seq::<ExistsOrValues<RangeOrValue<i64>>>::empty());
    if vs.len() > 0 {
        let prev = sp_id_items(st, field, exists_field, vs.drop_last());
        if let ExistsOrValues::Values(rs) = vs.last() {
            lemma_signed_list_prefix(sp_open(prev, "AND"@), field, rs@, 0);
        }
        if i < vs.len() {
            assert(vs.drop_last().subrange(0, i) =~= vs.subrange(0, i));
            lemma_id_items_prefix(st, field, exists_field, vs.drop_last(), i);
        } else {
            assert(vs.subrange(0, i) =~= vs);
            lemma_id_items_prefix(st, field, exists_field, vs.drop_last(), 0);
            assert(vs.drop_last().subrange(0, 0) =~= vs.subrange(0, 0));
        }
    }
}

/// Whether a bug number can be negated; the most negative one cannot.
pub open spec fn signed_ok(r: RangeOrValue<i64>) -> bool {
    !(r matches RangeOrValue::Value(v) && v == i64::MIN)
}

/// Whether all bug numbers in a list of existence flags or values can be negated.
pub open spec fn ids_ok(vs: Seq<ExistsOrValues<RangeOrValue<i64>>>) -> bool {
    forall|i: int| 0 <= i < vs.len() ==> (#[trigger] vs[i] matches ExistsOrValues::Values(rs) ==> forall|j: int|
        0 <= j < rs@.len() ==> signed_ok(#[trigger] rs@[j]))
}

/// State after clauses for custom fields: existence flags and `AND` groups of match clauses
/// on the named fields.
pub open spec fn sp_custom_items(st: QState, user: Option<String>, items: Seq<(String, ExistsOrValues<Match>)>) -> QState
    decreases items.len(),
{
    if items.len() == 0 {
        st
    } else {
        let prev = sp_custom_items(st, user, items.drop_last());
        let (name, v) = items.last();
        match v {
            ExistsOrValues::Exists(b) => sp_exists(prev, name@, b),
            ExistsOrValues::Values(ms) => sp_group(prev, "AND"@, user, name@, ms@, false),
        }
    }
}

pub(crate) proof fn lemma_custom_prefix(st: QState, user: Option<String>, items: Seq<(String, ExistsOrValues<Match>)>, i: int)
    requires
        0 <= i <= items.len(),
    ensures
        st.1 <= sp_custom_items(st, user, items.subrange(0, i)).1 <= sp_custom_items(st, user, items).1,
    decreases items.len(),
{
    assert(items.subrange(0, 0) =~= Seq::<(String, ExistsOrValues<Match>)>::empty());
    if items.len() > 0 {
        let prev = sp_custom_items(st, user, items.drop_last());
        if let ExistsOrValues::Values(ms) = items.last().1 {
            lemma_matches_prefix(sp_open(prev, "AND"@), user, items.last().0@, ms@, false, 0);
        }
        if i < items.len() {
            assert(items.drop_last().subrange(0, i) =~= items.subrange(0, i));
            lemma_custom_prefix(st, user, items.drop_last(), i);
        } else {
            assert(items.subrange(0, i) =~= items);
            lemma_custom_prefix(st, user, items.drop_last(), 0);
            assert(items.drop_last().subrange(0, 0) =~= items.subrange(0, 0));
        }
    }
}

/// State after a status clause: `@open`, `@closed` and `@all` select status groups, a
/// leading `!` excludes a status, anything else selects it.
pub open spec fn sp_status(st: QState, v: Seq<char>) -> QState {
    if v == "@open"@ {
        (sp_insert(st.0, "bug_status"@, "__open__"@), st.1)
    } else if v == "@closed"@ {
        (sp_insert(st.0, "bug_status"@, "__closed__"@), st.1)
    } else if v == "@all"@ {
        (sp_insert(st.0, "bug_status"@, "__all__"@), st.1)
    } else if v.len() > 0 && v[0] == '!' {
        sp_field(st, "bug_status"@, "notequals"@, v.subrange(1, v.len() as int))
    } else {
        sp_field(st, "bug_status"@, "equals"@, v)
    }
}

/// State after status clauses for each of `vs`.
pub open spec fn sp_statuses(st: QState, vs: Seq<String>) -> QState
    decreases vs.len(),
{
    if vs.len() == 0 {
        st
    } else {
        sp_status(sp_statuses(st, vs.drop_last()), vs.last()@)
    }
}

pub(crate) proof fn lemma_statuses_prefix(st: QState, vs: Seq<String>, i: int)
    requires
        0 <= i <= vs.len(),
    ensures
        st.1 <= sp_statuses(st, vs.subrange(0, i)).1 <= sp_statuses(st, vs).1,
    decreases vs.len(),
{
    assert(vs.subrange(0, 0) =~= Seq::<String>::empty());
    if vs.len() > 0 {
        if i < vs.len() {
            assert(vs.drop_last().subrange(0, i) =~= vs.subrange(0, i));
            lemma_statuses_prefix(st, vs.drop_last(), i);
        } else {
            assert(vs.subrange(0, i) =~= vs);
            lemma_statuses_prefix(st, vs.drop_last(), 0);
            assert(vs.drop_last().subrange(0, 0) =~= vs.subrange(0, 0));
        }
    }
}

/// State after setting the sort order.
pub open spec fn sp_order(st: QState, os: Seq<Order<OrderField>>) -> QState {
    (sp_insert(st.0, "order"@, seq_join(os.map_values(|o: Order<OrderField>| spec_order_api(o)), ","@)), st.1)
}

/// Fields a search returns: the requested ones and the bug ID, each once, in order of
/// first request.
pub open spec fn included_fields(fs: Seq<FilterField>) -> Seq<u64> {
    dedup(fs.map_values(|f: FilterField| f.spec_code() as u64).push(FilterField::Bug(BugField::Id).spec_code() as u64))
}

/// API name of the field at a position of `FilterField::spec_all`.
pub open spec fn field_api_of_code(c: u64) -> Seq<char> {
    FilterField::spec_all()[c as int].spec_api_name()
}

/// State after setting the fields to return.
pub open spec fn sp_fields(st: QState, fs: Seq<FilterField>) -> QState {
    (sp_insert(st.0, "include_fields"@, seq_join(included_fields(fs).map_values(|c: u64| field_api_of_code(c)), ","@)), st.1)
}

pub(crate) proof fn lemma_dedup_within(s: Seq<u64>)
    ensures
        forall|k: int| 0 <= k < dedup(s).len() ==> s.contains(#[trigger] dedup(s)[k]),
    decreases s.len(),
{
    if s.len() > 0 {
        lemma_dedup_within(s.drop_last());
        assert forall|k: int| 0 <= k < dedup(s).len() implies s.contains(#[trigger] dedup(s)[k]) by {
            let d = dedup(s.drop_last());
            if k < d.len() {
                assert(dedup(s)[k] == d[k]);
                let w = choose|w: int| 0 <= w < s.drop_last().len() && s.drop_last()[w] == d[k];
                assert(s[w] == d[k]);
            } else {
                assert(dedup(s)[k] == s.last());
                assert(s[s.len() - 1] == s.last());
            }
        }
    }
}

/// State after match clauses on attachment descriptions and file names.
pub open spec fn sp_attachment_items(st: QState, ms: Seq<Match>) -> QState
    decreases ms.len(),
{
    if ms.len() == 0 {
        st
    } else {
        let prev = sp_attachment_items(st, ms.drop_last());
        let m = ms.last();
        sp_field(sp_field(prev, "attachments.description"@, m.spec_op().spec_api_name(), m.value@), "attachments.filename"@, m.spec_op().spec_api_name(), m.value@)
    }
}

/// `OR` group of `sp_attachment_items`.
pub open spec fn sp_attachments(st: QState, ms: Seq<Match>) -> QState {
    sp_close(sp_attachment_items(sp_open(st, "OR"@), ms))
}

pub(crate) proof fn lemma_attachment_prefix(st: QState, ms: Seq<Match>, i: int)
    requires
        0 <= i <= ms.len(),
    ensures
        st.1 <= sp_attachment_items(st, ms.subrange(0, i)).1 <= sp_attachment_items(st, ms).1,
    decreases ms.len(),
{
    assert(ms.subrange(0, 0) =~= Seq::<Match>::empty());
    if ms.len() > 0 {
        if i < ms.len() {
            assert(ms.drop_last().subrange(0, i) =~= ms.subrange(0, i));
            lemma_attachment_prefix(st, ms.drop_last(), i);
        } else {
            assert(ms.subrange(0, i) =~= ms);
            lemma_attachment_prefix(st, ms.drop_last(), 0);
            assert(ms.drop_last().subrange(0, 0) =~= ms.subrange(0, 0));
        }
    }
}


/// Whether a change target compares by equality, which change searches reject.
pub open spec fn is_equality_target(t: RangeOrValue<TimeDeltaOrStatic>) -> bool {
    t matches RangeOrValue::RangeOp(op) && (op is Equal || op is NotEqual)
}

/// Message for a change target that compares by equality.
pub open spec fn equality_target_error(t: RangeOrValue<TimeDeltaOrStatic>) -> Seq<char> {
    "equality operator invalid for change values: "@ + t.spec_text()
}

/// First error among change fields sharing a target: an unknown field name (after an
/// optional `!`), or a target that compares by equality.
pub open spec fn changed_fields_error(fs: Seq<String>, t: RangeOrValue<TimeDeltaOrStatic>) -> Option<Seq<char>>
    decreases fs.len(),
{
    if fs.len() == 0 {
        None
    } else {
        match changed_fields_error(fs.drop_last(), t) {
            Some(e) => Some(e),
            None => {
                let name = invert_split(fs.last()@).1;
                if change_field_api(name) is None {
                    Some(invalid_change_field(name))
                } else if is_equality_target(t) {
                    Some(equality_target_error(t))
                } else {
                    None
                }
            },
        }
    }
}

/// First error among changed-at entries.
pub open spec fn changed_error(values: Seq<(Vec<String>, RangeOrValue<TimeDeltaOrStatic>)>) -> Option<Seq<char>>
    decreases values.len(),
{
    if values.len() == 0 {
        None
    } else {
        match changed_error(values.drop_last()) {
            Some(e) => Some(e),
            None => changed_fields_error(values.last().0@, values.last().1),
        }
    }
}

/// First unknown field among change fields.
pub open spec fn fields_error(fs: Seq<String>) -> Option<Seq<char>>
    decreases fs.len(),
{
    if fs.len() == 0 {
        None
    } else {
        match fields_error(fs.drop_last()) {
            Some(e) => Some(e),
            None => if change_field_api(fs.last()@) is None {
                Some(invalid_change_field(fs.last()@))
            } else {
                None
            },
        }
    }
}

/// First unknown field among changed-by entries.
pub open spec fn changed_by_error(values: Seq<(Vec<String>, Vec<String>)>) -> Option<Seq<char>>
    decreases values.len(),
{
    if values.len() == 0 {
        None
    } else {
        match changed_by_error(values.drop_last()) {
            Some(e) => Some(e),
            None => fields_error(values.last().0@),
        }
    }
}

/// First unknown field among changed-from or changed-to entries.
pub open spec fn pairs_error(values: Seq<(String, String)>) -> Option<Seq<char>>
    decreases values.len(),
{
    if values.len() == 0 {
        None
    } else {
        match pairs_error(values.drop_last()) {
            Some(e) => Some(e),
            None => if change_field_api(values.last().0@) is None {
                Some(invalid_change_field(values.last().0@))
            } else {
                None
            },
        }
    }
}

/// State after clauses on when the field with API name `api` changed, negated when
/// `status` is set; a target comparing by equality adds nothing.
pub open spec fn sp_change_target(st: QState, api: Seq<char>, status: bool, t: RangeOrValue<TimeDeltaOrStatic>) -> QState {
    match t {
        RangeOrValue::Value(v) => sp_negate(sp_field(st, api, "changedafter"@, v.spec_value()), status),
        RangeOrValue::RangeOp(op) => match op {
            RangeOp::Less(v) => sp_negate(sp_field(st, api, "changedbefore"@, v.spec_value()), status),
            RangeOp::LessOrEqual(v) => sp_negate(sp_field(st, api, "changedbefore"@, v.spec_value()), status),
            RangeOp::Equal(_) => st,
            RangeOp::NotEqual(_) => st,
            RangeOp::GreaterOrEqual(v) => sp_negate(sp_field(st, api, "changedafter"@, v.spec_value()), status),
            RangeOp::Greater(v) => sp_negate(sp_field(st, api, "changedafter"@, v.spec_value()), status),
        },
        RangeOrValue::Range(r) => match r {
            Range::Range(a, b) => sp_negate(
                sp_field(sp_field(st, api, "changedafter"@, a.spec_value()), api, "changedbefore"@, b.spec_value()),
                status,
            ),
            Range::Inclusive(a, b) => sp_negate(
                sp_field(sp_field(st, api, "changedafter"@, a.spec_value()), api, "changedbefore"@, b.spec_value()),
                status,
            ),
            Range::To(b) => sp_negate(sp_field(st, api, "changedbefore"@, b.spec_value()), status),
            Range::ToInclusive(b) => sp_negate(sp_field(st, api, "changedbefore"@, b.spec_value()), status),
            Range::From(a) => sp_negate(sp_field(st, api, "changedafter"@, a.spec_value()), status),
            Range::Full => sp_negate(sp_field(st, api, "changedbefore"@, "now"@), status),
        },
    }
}

/// State after clauses on when the bug status changed, followed by the selection of closed
/// bugs.
pub open spec fn sp_closed(st: QState, t: RangeOrValue<TimeDeltaOrStatic>) -> QState {
    sp_status(sp_change_target(st, StaticChangeField::Status.spec_api_name(), false, t), "@closed"@)
}

/// State after change clauses for fields sharing a target; unknown fields add nothing.
pub open spec fn sp_changed_fields(st: QState, fs: Seq<String>, t: RangeOrValue<TimeDeltaOrStatic>) -> QState
    decreases fs.len(),
{
    if fs.len() == 0 {
        st
    } else {
        let prev = sp_changed_fields(st, fs.drop_last(), t);
        let (status, name) = invert_split(fs.last()@);
        match change_field_api(name) {
            Some(api) => sp_change_target(prev, api, status, t),
            None => prev,
        }
    }
}

/// State after change clauses for each changed-at entry.
pub open spec fn sp_changed(st: QState, values: Seq<(Vec<String>, RangeOrValue<TimeDeltaOrStatic>)>) -> QState
    decreases values.len(),
{
    if values.len() == 0 {
        st
    } else {
        sp_changed_fields(sp_changed(st, values.drop_last()), values.last().0@, values.last().1)
    }
}

/// State after clauses on who changed the field with API name `api`.
pub open spec fn sp_users(st: QState, user: Option<String>, api: Seq<char>, users: Seq<String>) -> QState
    decreases users.len(),
{
    if users.len() == 0 {
        st
    } else {
        sp_field(sp_users(st, user, api, users.drop_last()), api, "changedby"@, spec_user_alias(user, users.last()@))
    }
}

/// State after changed-by clauses for fields sharing a list of users.
pub open spec fn sp_changed_by_fields(st: QState, user: Option<String>, fs: Seq<String>, users: Seq<String>) -> QState
    decreases fs.len(),
{
    if fs.len() == 0 {
        st
    } else {
        let prev = sp_changed_by_fields(st, user, fs.drop_last(), users);
        match change_field_api(fs.last()@) {
            Some(api) => sp_users(prev, user, api, users),
            None => prev,
        }
    }
}

/// State after changed-by clauses for each entry.
pub open spec fn sp_changed_by(st: QState, user: Option<String>, values: Seq<(Vec<String>, Vec<String>)>) -> QState
    decreases values.len(),
{
    if values.len() == 0 {
        st
    } else {
        sp_changed_by_fields(sp_changed_by(st, user, values.drop_last()), user, values.last().0@, values.last().1@)
    }
}

/// State after clauses on the value a field changed from or to, by `op`.
pub open spec fn sp_changed_pairs(st: QState, values: Seq<(String, String)>, op: Seq<char>) -> QState
    decreases values.len(),
{
    if values.len() == 0 {
        st
    } else {
        let prev = sp_changed_pairs(st, values.drop_last(), op);
        match change_field_api(values.last().0@) {
            Some(api) => sp_field(prev, api, op, values.last().1@),
            None => prev,
        }
    }
}

pub(crate) proof fn lemma_changed_fields_prefix(st: QState, fs: Seq<String>, t: RangeOrValue<TimeDeltaOrStatic>, i: int)
    requires
        0 <= i <= fs.len(),
    ensures
        st.1 <= sp_changed_fields(st, fs.subrange(0, i), t).1 <= sp_changed_fields(st, fs, t).1,
    decreases fs.len(),
{
    assert(fs.subrange(0, 0) =~= Seq::<String>::empty());
    if fs.len() > 0 {
        if i < fs.len() {
            assert(fs.drop_last().subrange(0, i) =~= fs.subrange(0, i));
            lemma_changed_fields_prefix(st, fs.drop_last(), t, i);
        } else {
            assert(fs.subrange(0, i) =~= fs);
            lemma_changed_fields_prefix(st, fs.drop_last(), t, 0);
            assert(fs.drop_last().subrange(0, 0) =~= fs.subrange(0, 0));
        }
    }
}

pub(crate) proof fn lemma_changed_prefix(st: QState, values: Seq<(Vec<String>, RangeOrValue<TimeDeltaOrStatic>)>, i: int)
    requires
        0 <= i <= values.len(),
    ensures
        st.1 <= sp_changed(st, values.subrange(0, i)).1 <= sp_changed(st, values).1,
    decreases values.len(),
{
    assert(values.subrange(0, 0) =~= Seq::<(Vec<String>, RangeOrValue<TimeDeltaOrStatic>)>::empty());
    if values.len() > 0 {
        lemma_changed_fields_prefix(sp_changed(st, values.drop_last()), values.last().0@, values.last().1, 0);
        if i < values.len() {
            assert(values.drop_last().subrange(0, i) =~= values.subrange(0, i));
            lemma_changed_prefix(st, values.drop_last(), i);
        } else {
            assert(values.subrange(0, i) =~= values);
            lemma_changed_prefix(st, values.drop_last(), 0);
            assert(values.drop_last().subrange(0, 0) =~= values.subrange(0, 0));
        }
    }
}

pub(crate) proof fn lemma_users_prefix(st: QState, user: Option<String>, api: Seq<char>, us: Seq<String>, i: int)
    requires
        0 <= i <= us.len(),
    ensures
        st.1 <= sp_users(st, user, api, us.subrange(0, i)).1 <= sp_users(st, user, api, us).1,
    decreases us.len(),
{
    assert(us.subrange(0, 0) =~= Seq::<String>::empty());
    if us.len() > 0 {
        if i < us.len() {
            assert(us.drop_last().subrange(0, i) =~= us.subrange(0, i));
            lemma_users_prefix(st, user, api, us.drop_last(), i);
        } else {
            assert(us.subrange(0, i) =~= us);
            lemma_users_prefix(st, user, api, us.drop_last(), 0);
            assert(us.drop_last().subrange(0, 0) =~= us.subrange(0, 0));
        }
    }
}

pub(crate) proof fn lemma_changed_by_fields_prefix(st: QState, user: Option<String>, fs: Seq<String>, us: Seq<String>, i: int)
    requires
        0 <= i <= fs.len(),
    ensures
        st.1 <= sp_changed_by_fields(st, user, fs.subrange(0, i), us).1 <= sp_changed_by_fields(st, user, fs, us).1,
    decreases fs.len(),
{
    assert(fs.subrange(0, 0) =~= Seq::<String>::empty());
    if fs.len() > 0 {
        let prev = sp_changed_by_fields(st, user, fs.drop_last(), us);
        if let Some(api) = change_field_api(fs.last()@) {
            lemma_users_prefix(prev, user, api, us, 0);
        }
        if i < fs.len() {
            assert(fs.drop_last().subrange(0, i) =~= fs.subrange(0, i));
            lemma_changed_by_fields_prefix(st, user, fs.drop_last(), us, i);
        } else {
            assert(fs.subrange(0, i) =~= fs);
            lemma_changed_by_fields_prefix(st, user, fs.drop_last(), us, 0);
            assert(fs.drop_last().subrange(0, 0) =~= fs.subrange(0, 0));
        }
    }
}

pub(crate) proof fn lemma_changed_by_prefix(st: QState, user: Option<String>, values: Seq<(Vec<String>, Vec<String>)>, i: int)
    requires
        0 <= i <= values.len(),
    ensures
        st.1 <= sp_changed_by(st, user, values.subrange(0, i)).1 <= sp_changed_by(st, user, values).1,
    decreases values.len(),
{
    assert(values.subrange(0, 0) =~= Seq::<(Vec<String>, Vec<String>)>::empty());
    if values.len() > 0 {
        lemma_changed_by_fields_prefix(sp_changed_by(st, user, values.drop_last()), user, values.last().0@, values.last().1@, 0);
        if i < values.len() {
            assert(values.drop_last().subrange(0, i) =~= values.subrange(0, i));
            lemma_changed_by_prefix(st, user, values.drop_last(), i);
        } else {
            assert(values.subrange(0, i) =~= values);
            lemma_changed_by_prefix(st, user, values.drop_last(), 0);
            assert(values.drop_last().subrange(0, 0) =~= values.subrange(0, 0));
        }
    }
}

pub(crate) proof fn lemma_pairs_prefix(st: QState, values: Seq<(String, String)>, op: Seq<char>, i: int)
    requires
        0 <= i <= values.len(),
    ensures
        st.1 <= sp_changed_pairs(st, values.subrange(0, i), op).1 <= sp_changed_pairs(st, values, op).1,
    decreases values.len(),
{
    assert(values.subrange(0, 0) =~= Seq::<(String, String)>::empty());
    if values.len() > 0 {
        if i < values.len() {
            assert(values.drop_last().subrange(0, i) =~= values.subrange(0, i));
            lemma_pairs_prefix(st, values.drop_last(), op, i);
        } else {
            assert(values.subrange(0, i) =~= values);
            lemma_pairs_prefix(st, values.drop_last(), op, 0);
            assert(values.drop_last().subrange(0, 0) =~= values.subrange(0, 0));
        }
    }
}

pub(crate) proof fn lemma_changed_fields_error_prefix(fs: Seq<String>, t: RangeOrValue<TimeDeltaOrStatic>, j: int)
    requires
        0 <= j <= fs.len(),
        changed_fields_error(fs.subrange(0, j), t) is Some,
    ensures
        changed_fields_error(fs, t) == changed_fields_error(fs.subrange(0, j), t),
    decreases fs.len(),
{
    if j == fs.len() {
        assert(fs.subrange(0, j) =~= fs);
    } else {
        assert(fs.drop_last().subrange(0, j) =~= fs.subrange(0, j));
        lemma_changed_fields_error_prefix(fs.drop_last(), t, j);
    }
}

pub(crate) proof fn lemma_changed_error_prefix(values: Seq<(Vec<String>, RangeOrValue<TimeDeltaOrStatic>)>, j: int)
    requires
        0 <= j <= values.len(),
        changed_error(values.subrange(0, j)) is Some,
    ensures
        changed_error(values) == changed_error(values.subrange(0, j)),
    decreases values.len(),
{
    if j == values.len() {
        assert(values.subrange(0, j) =~= values);
    } else {
        assert(values.drop_last().subrange(0, j) =~= values.subrange(0, j));
        lemma_changed_error_prefix(values.drop_last(), j);
    }
}

pub(crate) proof fn lemma_fields_error_prefix(fs: Seq<String>, j: int)
    requires
        0 <= j <= fs.len(),
        fields_error(fs.subrange(0, j)) is Some,
    ensures
        fields_error(fs) == fields_error(fs.subrange(0, j)),
    decreases fs.len(),
{
    if j == fs.len() {
        assert(fs.subrange(0, j) =~= fs);
    } else {
        assert(fs.drop_last().subrange(0, j) =~= fs.subrange(0, j));
        lemma_fields_error_prefix(fs.drop_last(), j);
    }
}

pub(crate) proof fn lemma_changed_by_error_prefix(values: Seq<(Vec<String>, Vec<String>)>, j: int)
    requires
        0 <= j <= values.len(),
        changed_by_error(values.subrange(0, j)) is Some,
    ensures
        changed_by_error(values) == changed_by_error(values.subrange(0, j)),
    decreases values.len(),
{
    if j == values.len() {
        assert(values.subrange(0, j) =~= values);
    } else {
        assert(values.drop_last().subrange(0, j) =~= values.subrange(0, j));
        lemma_changed_by_error_prefix(values.drop_last(), j);
    }
}

pub(crate) proof fn lemma_pairs_error_prefix(values: Seq<(String, String)>, j: int)
    requires
        0 <= j <= values.len(),
        pairs_error(values.subrange(0, j)) is Some,
    ensures
        pairs_error(values) == pairs_error(values.subrange(0, j)),
    decreases values.len(),
{
    if j == values.len() {
        assert(values.subrange(0, j) =~= values);
    } else {
        assert(values.drop_last().subrange(0, j) =~= values.subrange(0, j));
        lemma_pairs_error_prefix(values.drop_last(), j);
    }
}

/// Construct a search query.
#[derive(Debug)]
pub struct QueryBuilder<'a> {
    service: &'a Bugzilla,
    query: Query,
    advanced_count: u64,
}

impl<'a> QueryBuilder<'a> {
    /// Query pairs and slot count.
    pub closed spec fn st(&self) -> QState {
        (self.query@, self.advanced_count as nat)
    }

    /// User the `@me` alias stands for.
    pub closed spec fn user(&self) -> Option<String> {
        self.service.config.auth.user
    }

    /// Number of slots used so far.
    pub fn count(&self) -> (r: u64)
        ensures
            r == self.st().1,
    {
        self.advanced_count
    }

    /// An empty query for a service.
    pub fn new(service: &'a Bugzilla) -> (r: QueryBuilder<'a>)
        ensures
            r.st() == (Seq::<(Seq<char>, Seq<char>)>::empty(), 0nat),
            r.user() == service.config.auth.user,
    {
        QueryBuilder { service, query: Query::new(), advanced_count: 0 }
    }

    /// The query built so far.
    pub fn into_query(self) -> (r: Query)
        ensures
            r@ == self.st().0,
    {
        self.query
    }

    /// Sets a plain key to a value, dropping earlier values of the key.
    pub fn insert(&mut self, key: String, value: String)
        ensures
            final(self).st() == (sp_insert(old(self).st().0, key@, value@), old(self).st().1),
            final(self).user() == old(self).user(),
    {
        self.query.insert(key, value);
    }

    fn slot_key(c: char, n: u64) -> (r: String)
        ensures
            r@ == qkey(c, n as nat),
    {
        let mut k = String::new();
        push_char(&mut k, c);
        let d = u64_to_string(n);
        k.append(d.as_str());
        k
    }

    /// Adds an advanced clause matching `field` against `value` with `op`.
    pub fn advanced_field(&mut self, field: &str, op: &str, value: &str)
        requires
            old(self).st().1 < u64::MAX,
        ensures
            final(self).st() == sp_field(old(self).st(), field@, op@, value@),
            final(self).user() == old(self).user(),
    {
        self.advanced_count = self.advanced_count + 1;
        let n = self.advanced_count;
        self.query.insert(Self::slot_key('f', n), owned(field));
        self.query.insert(Self::slot_key('o', n), owned(op));
        self.query.insert(Self::slot_key('v', n), owned(value));
    }

    /// Match bugs with conditionally existent array field values.
    pub fn field_exists(&mut self, field: &str, status: bool)
        requires
            old(self).st().1 < u64::MAX,
        ensures
            final(self).st() == sp_exists(old(self).st(), field@, status),
            final(self).user() == old(self).user(),
    {
        self.advanced_count = self.advanced_count + 1;
        let n = self.advanced_count;
        let status = if status { owned("isnotempty") } else { owned("isempty") };
        self.query.insert(Self::slot_key('f', n), owned(field));
        self.query.insert(Self::slot_key('o', n), status);
    }

    /// Match bugs with boolean field values.
    pub fn boolean(&mut self, field: &str, status: bool)
        requires
            old(self).st().1 < u64::MAX,
        ensures
            final(self).st() == sp_field(old(self).st(), field@, "equals"@, if status { "1"@ } else { "0"@ }),
            final(self).user() == old(self).user(),
    {
        let v = if status { owned("1") } else { owned("0") };
        self.advanced_field(field, "equals", v.as_str());
    }

    /// Opens a group of clauses joined by `op`.
    pub fn open(&mut self, op: &str)
        requires
            old(self).st().1 < u64::MAX,
        ensures
            final(self).st() == sp_open(old(self).st(), op@),
            final(self).user() == old(self).user(),
    {
        self.advanced_count = self.advanced_count + 1;
        let n = self.advanced_count;
        self.query.insert(Self::slot_key('f', n), owned("OP"));
        self.query.insert(Self::slot_key('j', n), owned(op));
    }

    /// Closes the innermost open group.
    pub fn close(&mut self)
        requires
            old(self).st().1 < u64::MAX,
        ensures
            final(self).st() == sp_close(old(self).st()),
            final(self).user() == old(self).user(),
    {
        self.advanced_count = self.advanced_count + 1;
        let n = self.advanced_count;
        self.query.insert(Self::slot_key('f', n), owned("CP"));
    }

    /// Negates the last clause when `status` is set.
    pub fn negate(&mut self, status: bool)
        ensures
            final(self).st() == sp_negate(old(self).st(), status),
            final(self).user() == old(self).user(),
    {
        if status {
            let n = self.advanced_count;
            self.query.insert(Self::slot_key('n', n), owned("1"));
        }
    }

    /// Substitute user alias for matching value.
    pub fn user_alias(&self, value: &str) -> (r: String)
        ensures
            r@ == spec_user_alias(self.user(), value@),
    {
        self.service.replace_user_alias(value)
    }

    /// Adds a match clause on `field`, replacing a user alias in the value when `alias` is set.
    pub fn match_field(&mut self, field: &str, m: &Match, alias: bool)
        requires
            old(self).st().1 < u64::MAX,
        ensures
            final(self).st() == sp_match(old(self).st(), old(self).user(), field@, *m, alias),
            final(self).user() == old(self).user(),
    {
        let value = if alias { self.user_alias(m.value.as_str()) } else { m.value.clone() };
        let op = m.op().api();
        self.advanced_field(field, op.as_str(), value.as_str());
    }

    /// Adds match clauses on `field` for each of `ms`.
    pub fn matches(&mut self, field: &str, ms: &Vec<Match>, alias: bool)
        requires
            sp_matches(old(self).st(), old(self).user(), field@, ms@, alias).1 <= u64::MAX,
        ensures
            final(self).st() == sp_matches(old(self).st(), old(self).user(), field@, ms@, alias),
            final(self).user() == old(self).user(),
    {
        let ghost st0 = self.st();
        let ghost user = self.user();
        let mut i: usize = 0;
        while i < ms.len()
            invariant
                i <= ms@.len(),
                self.user() == user,
                self.st() == sp_matches(st0, user, field@, ms@.subrange(0, i as int), alias),
                sp_matches(st0, user, field@, ms@, alias).1 <= u64::MAX,
            decreases ms.len() - i,
        {
            proof {
                lemma_matches_prefix(st0, user, field@, ms@, alias, i + 1);
                assert(ms@.subrange(0, i + 1).drop_last() =~= ms@.subrange(0, i as int));
            }
            self.match_field(field, &ms[i], alias);
            i = i + 1;
        }
        assert(ms@.subrange(0, ms@.len() as int) =~= ms@);
    }

    /// Adds a group joined by `op` of match clauses on `field`.
    pub fn group(&mut self, op: &str, field: &str, ms: &Vec<Match>, alias: bool)
        requires
            sp_group(old(self).st(), op@, old(self).user(), field@, ms@, alias).1 <= u64::MAX,
        ensures
            final(self).st() == sp_group(old(self).st(), op@, old(self).user(), field@, ms@, alias),
            final(self).user() == old(self).user(),
    {
        proof { lemma_matches_prefix(sp_open(self.st(), op@), self.user(), field@, ms@, alias, 0); }
        self.open(op);
        self.matches(field, ms, alias);
        self.close();
    }

    /// Adds an `AND` group of match clauses for each list of `ls`.
    pub fn and_lists(&mut self, field: &str, ls: &Vec<Vec<Match>>, alias: bool)
        requires
            sp_and_lists(old(self).st(), old(self).user(), field@, ls@, alias).1 <= u64::MAX,
        ensures
            final(self).st() == sp_and_lists(old(self).st(), old(self).user(), field@, ls@, alias),
            final(self).user() == old(self).user(),
    {
        let ghost st0 = self.st();
        let ghost user = self.user();
        let mut i: usize = 0;
        while i < ls.len()
            invariant
                i <= ls@.len(),
                self.user() == user,
                self.st() == sp_and_lists(st0, user, field@, ls@.subrange(0, i as int), alias),
                sp_and_lists(st0, user, field@, ls@, alias).1 <= u64::MAX,
            decreases ls.len() - i,
        {
            proof {
                lemma_and_lists_prefix(st0, user, field@, ls@, alias, i + 1);
                assert(ls@.subrange(0, i + 1).drop_last() =~= ls@.subrange(0, i as int));
            }
            self.group("AND", field, &ls[i], alias);
            i = i + 1;
        }
        assert(ls@.subrange(0, ls@.len() as int) =~= ls@);
    }

    /// Adds an `OR` group of `AND` groups, one for each list of `ls`.
    pub fn or_lists(&mut self, field: &str, ls: &Vec<Vec<Match>>, alias: bool)
        requires
            sp_or_lists(old(self).st(), old(self).user(), field@, ls@, alias).1 <= u64::MAX,
        ensures
            final(self).st() == sp_or_lists(old(self).st(), old(self).user(), field@, ls@, alias),
            final(self).user() == old(self).user(),
    {
        proof { lemma_and_lists_prefix(sp_open(self.st(), "OR"@), self.user(), field@, ls@, alias, 0); }
        self.open("OR");
        self.and_lists(field, ls, alias);
        self.close();
    }

    /// Adds an `OR` group over existence flags and `AND` groups of match clauses.
    pub fn eov(&mut self, field: &str, exists_field: &str, vs: &Vec<ExistsOrValues<Match>>, alias: bool, inverted: bool)
        requires
            sp_eov(old(self).st(), old(self).user(), field@, exists_field@, vs@, alias, inverted).1 <= u64::MAX,
        ensures
            final(self).st() == sp_eov(old(self).st(), old(self).user(), field@, exists_field@, vs@, alias, inverted),
            final(self).user() == old(self).user(),
    {
        let ghost user = self.user();
        proof { lemma_eov_prefix(sp_open(self.st(), "OR"@), user, field@, exists_field@, vs@, alias, inverted, 0); }
        self.open("OR");
        let ghost st0 = self.st();
        let mut i: usize = 0;
        while i < vs.len()
            invariant
                i <= vs@.len(),
                self.user() == user,
                self.st() == sp_eov_items(st0, user, field@, exists_field@, vs@.subrange(0, i as int), alias, inverted),
                sp_eov_items(st0, user, field@, exists_field@, vs@, alias, inverted).1 < u64::MAX,
            decreases vs.len() - i,
        {
            proof {
                lemma_eov_prefix(st0, user, field@, exists_field@, vs@, alias, inverted, i + 1);
                assert(vs@.subrange(0, i + 1).drop_last() =~= vs@.subrange(0, i as int));
            }
            match &vs[i] {
                ExistsOrValues::Exists(b) => {
                    if inverted {
                        self.field_exists(exists_field, true);
                        self.negate(!*b);
                    } else {
                        self.field_exists(exists_field, *b);
                    }
                },
                ExistsOrValues::Values(ms) => self.group("AND", field, ms, alias),
            }
            i = i + 1;
        }
        assert(vs@.subrange(0, vs@.len() as int) =~= vs@);
        self.close();
    }

    /// Adds a clause comparing `field` by a range operator.
    pub fn range_op<T: Api>(&mut self, field: &str, op: &RangeOp<T>)
        requires
            old(self).st().1 < u64::MAX,
        ensures
            final(self).st() == sp_range_op(old(self).st(), field@, *op),
            final(self).user() == old(self).user(),
    {
        match op {
            RangeOp::Less(v) => self.advanced_field(field, "lessthan", v.api().as_str()),
            RangeOp::LessOrEqual(v) => self.advanced_field(field, "lessthaneq", v.api().as_str()),
            RangeOp::Equal(v) => self.advanced_field(field, "equals", v.api().as_str()),
            RangeOp::NotEqual(v) => self.advanced_field(field, "notequals", v.api().as_str()),
            RangeOp::GreaterOrEqual(v) => self.advanced_field(field, "greaterthaneq", v.api().as_str()),
            RangeOp::Greater(v) => self.advanced_field(field, "greaterthan", v.api().as_str()),
        }
    }

    /// Adds clauses bounding `field` to a range.
    pub fn range<T: Api>(&mut self, field: &str, r: &Range<T>)
        requires
            sp_range(old(self).st(), field@, *r).1 <= u64::MAX,
        ensures
            final(self).st() == sp_range(old(self).st(), field@, *r),
            final(self).user() == old(self).user(),
    {
        match r {
            Range::Range(a, b) => {
                self.open("AND");
                self.advanced_field(field, "greaterthaneq", a.api().as_str());
                self.advanced_field(field, "lessthan", b.api().as_str());
                self.close();
            },
            Range::Inclusive(a, b) => {
                self.open("AND");
                self.advanced_field(field, "greaterthaneq", a.api().as_str());
                self.advanced_field(field, "lessthaneq", b.api().as_str());
                self.close();
            },
            Range::To(b) => self.advanced_field(field, "lessthan", b.api().as_str()),
            Range::ToInclusive(b) => self.advanced_field(field, "lessthaneq", b.api().as_str()),
            Range::From(a) => self.advanced_field(field, "greaterthaneq", a.api().as_str()),
            Range::Full => {},
        }
    }

    /// Adds clauses matching `field` against a value (with `value_op`), a range operator
    /// or a range.
    pub fn range_or_value<T: Api>(&mut self, field: &str, r: &RangeOrValue<T>, value_op: &str)
        requires
            sp_rov(old(self).st(), field@, *r, value_op@).1 <= u64::MAX,
        ensures
            final(self).st() == sp_rov(old(self).st(), field@, *r, value_op@),
            final(self).user() == old(self).user(),
    {
        match r {
            RangeOrValue::Value(v) => self.advanced_field(field, value_op, v.api().as_str()),
            RangeOrValue::RangeOp(op) => self.range_op(field, op),
            RangeOrValue::Range(x) => self.range(field, x),
        }
    }

    /// Adds clauses matching a bug number field; a negative value excludes its absolute value.
    pub fn signed(&mut self, field: &str, r: &RangeOrValue<i64>)
        requires
            signed_ok(*r),
            sp_signed(old(self).st(), field@, *r).1 <= u64::MAX,
        ensures
            final(self).st() == sp_signed(old(self).st(), field@, *r),
            final(self).user() == old(self).user(),
    {
        match r {
            RangeOrValue::Value(v) => {
                if *v >= 0 {
                    self.advanced_field(field, "equals", v.api().as_str());
                } else {
                    let a: i64 = -*v;
                    self.advanced_field(field, "notequals", a.api().as_str());
                }
            },
            RangeOrValue::RangeOp(op) => self.range_op(field, op),
            RangeOrValue::Range(x) => self.range(field, x),
        }
    }

    /// Adds an `OR` group over existence flags and `AND` groups of bug number clauses.
    pub fn ids(&mut self, field: &str, exists_field: &str, vs: &Vec<ExistsOrValues<RangeOrValue<i64>>>)
        requires
            ids_ok(vs@),
            sp_ids(old(self).st(), field@, exists_field@, vs@).1 <= u64::MAX,
        ensures
            final(self).st() == sp_ids(old(self).st(), field@, exists_field@, vs@),
            final(self).user() == old(self).user(),
    {
        let ghost user = self.user();
        proof { lemma_id_items_prefix(sp_open(self.st(), "OR"@), field@, exists_field@, vs@, 0); }
        self.open("OR");
        let ghost st0 = self.st();
        let mut i: usize = 0;
        while i < vs.len()
            invariant
                i <= vs@.len(),
                ids_ok(vs@),
                self.user() == user,
                self.st() == sp_id_items(st0, field@, exists_field@, vs@.subrange(0, i as int)),
                sp_id_items(st0, field@, exists_field@, vs@).1 < u64::MAX,
            decreases vs.len() - i,
        {
            proof {
                lemma_id_items_prefix(st0, field@, exists_field@, vs@, i + 1);
                assert(vs@.subrange(0, i + 1).drop_last() =~= vs@.subrange(0, i as int));
            }
            match &vs[i] {
                ExistsOrValues::Exists(b) => self.field_exists(exists_field, *b),
                ExistsOrValues::Values(rs) => {
                    assert(vs@[i as int] matches ExistsOrValues::Values(x) && x == *rs);
                    let ghost s1 = sp_open(self.st(), "AND"@);
                    proof { lemma_signed_list_prefix(s1, field@, rs@, 0); }
                    self.open("AND");
                    let mut j: usize = 0;
                    while j < rs.len()
                        invariant
                            j <= rs@.len(),
                            forall|k: int| 0 <= k < rs@.len() ==> signed_ok(#[trigger] rs@[k]),
                            self.user() == user,
                            self.st() == sp_signed_list(s1, field@, rs@.subrange(0, j as int)),
                            sp_signed_list(s1, field@, rs@).1 < u64::MAX,
                        decreases rs.len() - j,
                    {
                        proof {
                            lemma_signed_list_prefix(s1, field@, rs@, j + 1);
                            assert(rs@.subrange(0, j + 1).drop_last() =~= rs@.subrange(0, j as int));
                        }
                        self.signed(field, &rs[j]);
                        j = j + 1;
                    }
                    assert(rs@.subrange(0, rs@.len() as int) =~= rs@);
                    self.close();
                },
            }
            i = i + 1;
        }
        assert(vs@.subrange(0, vs@.len() as int) =~= vs@);
        self.close();
    }

    /// Adds an `OR` group of clauses for custom fields.
    pub fn custom_fields(&mut self, items: &Vec<(String, ExistsOrValues<Match>)>)
        requires
            sp_close(sp_custom_items(sp_open(old(self).st(), "OR"@), old(self).user(), items@)).1 <= u64::MAX,
        ensures
            final(self).st() == sp_close(sp_custom_items(sp_open(old(self).st(), "OR"@), old(self).user(), items@)),
            final(self).user() == old(self).user(),
    {
        let ghost user = self.user();
        proof { lemma_custom_prefix(sp_open(self.st(), "OR"@), user, items@, 0); }
        self.open("OR");
        let ghost st0 = self.st();
        let mut i: usize = 0;
        while i < items.len()
            invariant
                i <= items@.len(),
                self.user() == user,
                self.st() == sp_custom_items(st0, user, items@.subrange(0, i as int)),
                sp_custom_items(st0, user, items@).1 < u64::MAX,
            decreases items.len() - i,
        {
            proof {
                lemma_custom_prefix(st0, user, items@, i + 1);
                assert(items@.subrange(0, i + 1).drop_last() =~= items@.subrange(0, i as int));
            }
            let (name, v) = &items[i];
            match v {
                ExistsOrValues::Exists(b) => self.field_exists(name.as_str(), *b),
                ExistsOrValues::Values(ms) => self.group("AND", name.as_str(), ms, false),
            }
            i = i + 1;
        }
        assert(items@.subrange(0, items@.len() as int) =~= items@);
        self.close();
    }

    /// Adds a status clause.
    pub fn status(&mut self, value: &str)
        requires
            sp_status(old(self).st(), value@).1 <= u64::MAX,
        ensures
            final(self).st() == sp_status(old(self).st(), value@),
            final(self).user() == old(self).user(),
    {
        if str_eq(value, "@open") {
            self.insert(owned("bug_status"), owned("__open__"));
        } else if str_eq(value, "@closed") {
            self.insert(owned("bug_status"), owned("__closed__"));
        } else if str_eq(value, "@all") {
            self.insert(owned("bug_status"), owned("__all__"));
        } else {
            let c = chars_of(value);
            if c.len() > 0 && c[0] == '!' {
                let rest = string_of(c.as_slice(), 1, c.len());
                self.advanced_field("bug_status", "notequals", rest.as_str());
            } else {
                self.advanced_field("bug_status", "equals", value);
            }
        }
    }

    /// Adds an `OR` group of status clauses.
    pub fn statuses(&mut self, vs: &Vec<String>)
        requires
            sp_close(sp_statuses(sp_open(old(self).st(), "OR"@), vs@)).1 <= u64::MAX,
        ensures
            final(self).st() == sp_close(sp_statuses(sp_open(old(self).st(), "OR"@), vs@)),
            final(self).user() == old(self).user(),
    {
        proof { lemma_statuses_prefix(sp_open(self.st(), "OR"@), vs@, 0); }
        self.open("OR");
        let ghost st0 = self.st();
        let ghost user = self.user();
        let mut i: usize = 0;
        while i < vs.len()
            invariant
                i <= vs@.len(),
                self.user() == user,
                self.st() == sp_statuses(st0, vs@.subrange(0, i as int)),
                sp_statuses(st0, vs@).1 < u64::MAX,
            decreases vs.len() - i,
        {
            proof {
                lemma_statuses_prefix(st0, vs@, i + 1);
                assert(vs@.subrange(0, i + 1).drop_last() =~= vs@.subrange(0, i as int));
            }
            self.status(vs[i].as_str());
            i = i + 1;
        }
        assert(vs@.subrange(0, vs@.len() as int) =~= vs@);
        self.close();
    }

    /// Sets the sort order.
    pub fn order(&mut self, os: &Vec<Order<OrderField>>)
        ensures
            final(self).st() == sp_order(old(self).st(), os@),
            final(self).user() == old(self).user(),
    {
        let mut names: Vec<String> = Vec::new();
        let mut i: usize = 0;
        while i < os.len()
            invariant
                i <= os@.len(),
                names@.map_values(|x: String| x@) == os@.subrange(0, i as int).map_values(
                    |o: Order<OrderField>| spec_order_api(o),
                ),
            decreases os.len() - i,
        {
            let a = super::order_api(&os[i]);
            let ghost before = names@;
            names.push(a);
            assert(os@.subrange(0, i + 1) =~= os@.subrange(0, i as int).push(os@[i as int]));
            assert(names@.map_values(|x: String| x@) =~= before.map_values(|x: String| x@).push(a@));
            assert(names@.map_values(|x: String| x@) =~= os@.subrange(0, i + 1).map_values(
                |o: Order<OrderField>| spec_order_api(o),
            ));
            i = i + 1;
        }
        assert(os@.subrange(0, os@.len() as int) =~= os@);
        let v = join(&names, ",");
        self.insert(owned("order"), v);
    }

    /// Sets the fields to return; the bug ID is always included.
    pub fn fields(&mut self, fs: &Vec<FilterField>)
        ensures
            final(self).st() == sp_fields(old(self).st(), fs@),
            final(self).user() == old(self).user(),
    {
        let mut codes: Vec<u64> = Vec::new();
        let mut i: usize = 0;
        while i < fs.len()
            invariant
                i <= fs@.len(),
                codes@ == fs@.subrange(0, i as int).map_values(|f: FilterField| f.spec_code() as u64),
            decreases fs.len() - i,
        {
            codes.push(fs[i].code());
            assert(codes@ =~= fs@.subrange(0, i + 1).map_values(|f: FilterField| f.spec_code() as u64));
            i = i + 1;
        }
        assert(fs@.subrange(0, fs@.len() as int) =~= fs@);
        codes.push(FilterField::Bug(BugField::Id).code());
        let unique = dedup_values(&codes);
        proof { lemma_dedup_within(codes@); }
        let all = FilterField::iter();
        let mut names: Vec<String> = Vec::new();
        let mut j: usize = 0;
        while j < unique.len()
            invariant
                j <= unique@.len(),
                all@ == FilterField::spec_all(),
                forall|k: int| 0 <= k < unique@.len() ==> (#[trigger] unique@[k]) < all@.len(),
                names@.map_values(|x: String| x@) == unique@.subrange(0, j as int).map_values(
                    |c: u64| field_api_of_code(c),
                ),
            decreases unique.len() - j,
        {
            let c = unique[j];
            let a = all[c as usize].api_name();
            let ghost before = names@;
            names.push(a);
            assert(unique@.subrange(0, j + 1) =~= unique@.subrange(0, j as int).push(unique@[j as int]));
            assert(names@.map_values(|x: String| x@) =~= before.map_values(|x: String| x@).push(a@));
            assert(names@.map_values(|x: String| x@) =~= unique@.subrange(0, j + 1).map_values(
                |c: u64| field_api_of_code(c),
            ));
            j = j + 1;
        }
        assert(unique@.subrange(0, unique@.len() as int) =~= unique@);
        let v = join(&names, ",");
        self.insert(owned("include_fields"), v);
    }

    /// Adds an `OR` group of match clauses on attachment descriptions and file names.
    pub fn attachments(&mut self, ms: &Vec<Match>)
        requires
            sp_attachments(old(self).st(), ms@).1 <= u64::MAX,
        ensures
            final(self).st() == sp_attachments(old(self).st(), ms@),
            final(self).user() == old(self).user(),
    {
        proof { lemma_attachment_prefix(sp_open(self.st(), "OR"@), ms@, 0); }
        self.open("OR");
        let ghost st0 = self.st();
        let ghost user = self.user();
        let mut i: usize = 0;
        while i < ms.len()
            invariant
                i <= ms@.len(),
                self.user() == user,
                self.st() == sp_attachment_items(st0, ms@.subrange(0, i as int)),
                sp_attachment_items(st0, ms@).1 < u64::MAX,
            decreases ms.len() - i,
        {
            proof {
                lemma_attachment_prefix(st0, ms@, i + 1);
                assert(ms@.subrange(0, i + 1).drop_last() =~= ms@.subrange(0, i as int));
            }
            let m = &ms[i];
            let op = m.op().api();
            self.advanced_field("attachments.description", op.as_str(), m.value.as_str());
            self.advanced_field("attachments.filename", op.as_str(), m.value.as_str());
            i = i + 1;
        }
        assert(ms@.subrange(0, ms@.len() as int) =~= ms@);
        self.close();
    }

    /// Adds clauses on when the field with API name `api` changed, negated when `status`
    /// is set.
    fn change_target(&mut self, api: &str, status: bool, t: &RangeOrValue<TimeDeltaOrStatic>)
        requires
            sp_change_target(old(self).st(), api@, status, *t).1 <= u64::MAX,
        ensures
            final(self).st() == sp_change_target(old(self).st(), api@, status, *t),
            final(self).user() == old(self).user(),
    {
        match t {
            RangeOrValue::Value(v) => {
                self.advanced_field(api, "changedafter", v.api().as_str());
                self.negate(status);
            },
            RangeOrValue::RangeOp(op) => match op {
                RangeOp::Less(v) => {
                    self.advanced_field(api, "changedbefore", v.api().as_str());
                    self.negate(status);
                },
                RangeOp::LessOrEqual(v) => {
                    self.advanced_field(api, "changedbefore", v.api().as_str());
                    self.negate(status);
                },
                RangeOp::Equal(_) => {},
                RangeOp::NotEqual(_) => {},
                RangeOp::GreaterOrEqual(v) => {
                    self.advanced_field(api, "changedafter", v.api().as_str());
                    self.negate(status);
                },
                RangeOp::Greater(v) => {
                    self.advanced_field(api, "changedafter", v.api().as_str());
                    self.negate(status);
                },
            },
            RangeOrValue::Range(r) => match r {
                Range::Range(a, b) => {
                    self.advanced_field(api, "changedafter", a.api().as_str());
                    self.advanced_field(api, "changedbefore", b.api().as_str());
                    self.negate(status);
                },
                Range::Inclusive(a, b) => {
                    self.advanced_field(api, "changedafter", a.api().as_str());
                    self.advanced_field(api, "changedbefore", b.api().as_str());
                    self.negate(status);
                },
                Range::To(b) => {
                    self.advanced_field(api, "changedbefore", b.api().as_str());
                    self.negate(status);
                },
                Range::ToInclusive(b) => {
                    self.advanced_field(api, "changedbefore", b.api().as_str());
                    self.negate(status);
                },
                Range::From(a) => {
                    self.advanced_field(api, "changedafter", a.api().as_str());
                    self.negate(status);
                },
                Range::Full => {
                    let now = TimeDeltaOrStatic::now();
                    self.advanced_field(api, "changedbefore", now.api().as_str());
                    self.negate(status);
                },
            },
        }
    }

    /// Adds change clauses for each of `fs` with the shared target `t`; a field name may
    /// be inverted by a leading `!`. Stops at the first unknown field, or at once for a
    /// target that compares by equality.
    pub fn changed_fields(&mut self, fs: &Vec<String>, t: &RangeOrValue<TimeDeltaOrStatic>) -> (r: Result<(), Error>)
        requires
            sp_changed_fields(old(self).st(), fs@, *t).1 <= u64::MAX,
        ensures
            r is Ok <==> changed_fields_error(fs@, *t) is None,
            r is Ok ==> final(self).st() == sp_changed_fields(old(self).st(), fs@, *t),
            r matches Err(e) ==> changed_fields_error(fs@, *t) matches Some(m) && e.is_invalid_value(m),
            final(self).user() == old(self).user(),
    {
        let ghost st0 = self.st();
        let ghost user = self.user();
        let eq = match t {
            RangeOrValue::RangeOp(op) => match op {
                RangeOp::Equal(_) => true,
                RangeOp::NotEqual(_) => true,
                _ => false,
            },
            _ => false,
        };
        let mut i: usize = 0;
        while i < fs.len()
            invariant
                i <= fs@.len(),
                eq == is_equality_target(*t),
                self.user() == user,
                user == old(self).user(),
                self.st() == sp_changed_fields(st0, fs@.subrange(0, i as int), *t),
                changed_fields_error(fs@.subrange(0, i as int), *t) is None,
                sp_changed_fields(st0, fs@, *t).1 <= u64::MAX,
            decreases fs.len() - i,
        {
            proof {
                lemma_changed_fields_prefix(st0, fs@, *t, i + 1);
                assert(fs@.subrange(0, i + 1).drop_last() =~= fs@.subrange(0, i as int));
            }
            let (inv, field) = match ChangeField::invertable(fs[i].as_str()) {
                Ok(x) => x,
                Err(e) => {
                    proof { lemma_changed_fields_error_prefix(fs@, *t, i + 1); }
                    return Err(e);
                },
            };
            if eq {
                let m = concat("equality operator invalid for change values: ", t.to_text().as_str());
                proof { lemma_changed_fields_error_prefix(fs@, *t, i + 1); }
                return Err(Error::InvalidValue(m));
            }
            let api = field.api();
            self.change_target(api.as_str(), inv, t);
            i = i + 1;
        }
        assert(fs@.subrange(0, fs@.len() as int) =~= fs@);
        Ok(())
    }

    /// Adds change clauses for each changed-at entry, stopping at the first error.
    pub fn changed(&mut self, values: &Vec<(Vec<String>, RangeOrValue<TimeDeltaOrStatic>)>) -> (r: Result<(), Error>)
        requires
            sp_changed(old(self).st(), values@).1 <= u64::MAX,
        ensures
            r is Ok <==> changed_error(values@) is None,
            r is Ok ==> final(self).st() == sp_changed(old(self).st(), values@),
            r matches Err(e) ==> changed_error(values@) matches Some(m) && e.is_invalid_value(m),
            final(self).user() == old(self).user(),
    {
        let ghost st0 = self.st();
        let ghost user = self.user();
        let mut i: usize = 0;
        while i < values.len()
            invariant
                i <= values@.len(),
                self.user() == user,
                user == old(self).user(),
                self.st() == sp_changed(st0, values@.subrange(0, i as int)),
                changed_error(values@.subrange(0, i as int)) is None,
                sp_changed(st0, values@).1 <= u64::MAX,
            decreases values.len() - i,
        {
            proof {
                lemma_changed_prefix(st0, values@, i + 1);
                assert(values@.subrange(0, i + 1).drop_last() =~= values@.subrange(0, i as int));
            }
            let r = self.changed_fields(&values[i].0, &values[i].1);
            if r.is_err() {
                proof { lemma_changed_error_prefix(values@, i + 1); }
                return r;
            }
            i = i + 1;
        }
        assert(values@.subrange(0, values@.len() as int) =~= values@);
        Ok(())
    }

    /// Adds clauses on who changed the field with API name `api`, one for each user.
    fn changed_by_users(&mut self, api: &str, users: &Vec<String>)
        requires
            sp_users(old(self).st(), old(self).user(), api@, users@).1 <= u64::MAX,
        ensures
            final(self).st() == sp_users(old(self).st(), old(self).user(), api@, users@),
            final(self).user() == old(self).user(),
    {
        let ghost st0 = self.st();
        let ghost user = self.user();
        let mut i: usize = 0;
        while i < users.len()
            invariant
                i <= users@.len(),
                self.user() == user,
                user == old(self).user(),
                self.st() == sp_users(st0, user, api@, users@.subrange(0, i as int)),
                sp_users(st0, user, api@, users@).1 <= u64::MAX,
            decreases users.len() - i,
        {
            proof {
                lemma_users_prefix(st0, user, api@, users@, i + 1);
                assert(users@.subrange(0, i + 1).drop_last() =~= users@.subrange(0, i as int));
            }
            let u = self.user_alias(users[i].as_str());
            self.advanced_field(api, "changedby", u.as_str());
            i = i + 1;
        }
        assert(users@.subrange(0, users@.len() as int) =~= users@);
    }

    /// Adds changed-by clauses for each of `fs` and each of `users`, stopping at the
    /// first unknown field.
    pub fn changed_by_fields(&mut self, fs: &Vec<String>, users: &Vec<String>) -> (r: Result<(), Error>)
        requires
            sp_changed_by_fields(old(self).st(), old(self).user(), fs@, users@).1 <= u64::MAX,
        ensures
            r is Ok <==> fields_error(fs@) is None,
            r is Ok ==> final(self).st() == sp_changed_by_fields(old(self).st(), old(self).user(), fs@, users@),
            r matches Err(e) ==> fields_error(fs@) matches Some(m) && e.is_invalid_value(m),
            final(self).user() == old(self).user(),
    {
        let ghost st0 = self.st();
        let ghost user = self.user();
        let mut i: usize = 0;
        while i < fs.len()
            invariant
                i <= fs@.len(),
                self.user() == user,
                user == old(self).user(),
                self.st() == sp_changed_by_fields(st0, user, fs@.subrange(0, i as int), users@),
                fields_error(fs@.subrange(0, i as int)) is None,
                sp_changed_by_fields(st0, user, fs@, users@).1 <= u64::MAX,
            decreases fs.len() - i,
        {
            proof {
                lemma_changed_by_fields_prefix(st0, user, fs@, users@, i + 1);
                assert(fs@.subrange(0, i + 1).drop_last() =~= fs@.subrange(0, i as int));
            }
            let field = match ChangeField::from_text(fs[i].as_str()) {
                Ok(f) => f,
                Err(m) => {
                    proof { lemma_fields_error_prefix(fs@, i + 1); }
                    return Err(Error::InvalidValue(m));
                },
            };
            proof { lemma_change_field_api(fs@[i as int]@, field); }
            let api = field.api();
            self.changed_by_users(api.as_str(), users);
            i = i + 1;
        }
        assert(fs@.subrange(0, fs@.len() as int) =~= fs@);
        Ok(())
    }

    /// Adds changed-by clauses for each entry, stopping at the first error.
    pub fn changed_by(&mut self, values: &Vec<(Vec<String>, Vec<String>)>) -> (r: Result<(), Error>)
        requires
            sp_changed_by(old(self).st(), old(self).user(), values@).1 <= u64::MAX,
        ensures
            r is Ok <==> changed_by_error(values@) is None,
            r is Ok ==> final(self).st() == sp_changed_by(old(self).st(), old(self).user(), values@),
            r matches Err(e) ==> changed_by_error(values@) matches Some(m) && e.is_invalid_value(m),
            final(self).user() == old(self).user(),
    {
        let ghost st0 = self.st();
        let ghost user = self.user();
        let mut i: usize = 0;
        while i < values.len()
            invariant
                i <= values@.len(),
                self.user() == user,
                user == old(self).user(),
                self.st() == sp_changed_by(st0, user, values@.subrange(0, i as int)),
                changed_by_error(values@.subrange(0, i as int)) is None,
                sp_changed_by(st0, user, values@).1 <= u64::MAX,
            decreases values.len() - i,
        {
            proof {
                lemma_changed_by_prefix(st0, user, values@, i + 1);
                assert(values@.subrange(0, i + 1).drop_last() =~= values@.subrange(0, i as int));
            }
            let r = self.changed_by_fields(&values[i].0, &values[i].1);
            if r.is_err() {
                proof { lemma_changed_by_error_prefix(values@, i + 1); }
                return r;
            }
            i = i + 1;
        }
        assert(values@.subrange(0, values@.len() as int) =~= values@);
        Ok(())
    }

    /// Adds a clause on the value each field changed from or to (by `op`), stopping at
    /// the first unknown field.
    pub fn changed_pairs(&mut self, values: &Vec<(String, String)>, op: &str) -> (r: Result<(), Error>)
        requires
            sp_changed_pairs(old(self).st(), values@, op@).1 <= u64::MAX,
        ensures
            r is Ok <==> pairs_error(values@) is None,
            r is Ok ==> final(self).st() == sp_changed_pairs(old(self).st(), values@, op@),
            r matches Err(e) ==> pairs_error(values@) matches Some(m) && e.is_invalid_value(m),
            final(self).user() == old(self).user(),
    {
        let ghost st0 = self.st();
        let ghost user = self.user();
        let mut i: usize = 0;
        while i < values.len()
            invariant
                i <= values@.len(),
                self.user() == user,
                user == old(self).user(),
                self.st() == sp_changed_pairs(st0, values@.subrange(0, i as int), op@),
                pairs_error(values@.subrange(0, i as int)) is None,
                sp_changed_pairs(st0, values@, op@).1 <= u64::MAX,
            decreases values.len() - i,
        {
            proof {
                lemma_pairs_prefix(st0, values@, op@, i + 1);
                assert(values@.subrange(0, i + 1).drop_last() =~= values@.subrange(0, i as int));
            }
            let field = match ChangeField::from_text(values[i].0.as_str()) {
                Ok(f) => f,
                Err(m) => {
                    proof { lemma_pairs_error_prefix(values@, i + 1); }
                    return Err(Error::InvalidValue(m));
                },
            };
            proof { lemma_change_field_api(values@[i as int].0@, field); }
            let api = field.api();
            self.advanced_field(api.as_str(), op, values[i].1.as_str());
            i = i + 1;
        }
        assert(values@.subrange(0, values@.len() as int) =~= values@);
        Ok(())
    }

    /// Adds clauses on when the bug status changed, as `t` gives it, then selects closed
    /// bugs. A target comparing by equality is refused.
    pub fn closed(&mut self, t: &RangeOrValue<TimeDeltaOrStatic>) -> (r: Result<(), Error>)
        requires
            sp_closed(old(self).st(), *t).1 <= u64::MAX,
        ensures
            r is Ok <==> !is_equality_target(*t),
            r is Ok ==> final(self).st() == sp_closed(old(self).st(), *t),
            r matches Err(e) ==> e.is_invalid_value(equality_target_error(*t)),
            final(self).user() == old(self).user(),
    {
        let eq = match t {
            RangeOrValue::RangeOp(op) => match op {
                RangeOp::Equal(_) => true,
                RangeOp::NotEqual(_) => true,
                _ => false,
            },
            _ => false,
        };
        if eq {
            let m = concat("equality operator invalid for change values: ", t.to_text().as_str());
            return Err(Error::InvalidValue(m));
        }
        let api = StaticChangeField::Status.api();
        self.change_target(api.as_str(), false, t);
        self.status("@closed");
        Ok(())
    }
}

} // verus!
