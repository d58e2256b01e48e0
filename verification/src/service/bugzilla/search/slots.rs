//! The shape of the advanced clause slots of a search query: slots numbered from one up,
//! each with its field, joins only on group openings, negations only on plain clauses,
//! and group openings and closings balanced.
use vstd::prelude::*;

use crate::query::without_key;
use crate::text::{digit_char, nat_digits};

use crate::args::ExistsOrValues;
use crate::objects::{Range, RangeOp, RangeOrValue};
use crate::query::Order;
use crate::service::bugzilla::FilterField;
use crate::text::has_prefix;
use crate::time::TimeDeltaOrStatic;
use crate::traits::Api;

use super::builder::{
    qkey, sp_and_lists, sp_attachment_items, sp_attachments, sp_change_target, sp_changed, sp_changed_by,
    sp_changed_by_fields, sp_changed_fields, sp_changed_pairs, sp_close, sp_closed, sp_custom_items, sp_eov,
    sp_eov_items, sp_exists, sp_field, sp_fields, sp_group, sp_id_items, sp_ids, sp_insert, sp_match, sp_matches,
    sp_negate, sp_open, sp_or_lists, sp_order, sp_range, sp_range_op, sp_rov, sp_signed, sp_signed_list,
    sp_status, sp_statuses, sp_users, Pairs, QState,
};
use super::request::{
    default_fields, opt_bool, opt_eov, opt_group, opt_ids, opt_number, opt_or_lists, opt_rov, spec_encode,
    stage_attach, stage_base, stage_changes, stage_matches, stage_people, stage_text, stage_times, stage_values,
};
use super::{change_field_api, invert_split, ExistsField, Match, OrderField, Parameters, StaticChangeField};

verus! {

/// Value of the last pair with key `k`.
pub open spec fn lookup(q: Pairs, k: Seq<char>) -> Option<Seq<char>>
    decreases q.len(),
{
    if q.len() == 0 {
        None
    } else if q.last().0 == k {
        Some(q.last().1)
    } else {
        lookup(q.drop_last(), k)
    }
}

/// Letters that start the keys of advanced clause slots.
pub open spec fn slot_letter(c: char) -> bool {
    c == 'f' || c == 'o' || c == 'v' || c == 'j' || c == 'n'
}

/// Whether `k` is the key of some advanced clause slot.
pub open spec fn is_slot_key(k: Seq<char>) -> bool {
    exists|c: char, n: nat| slot_letter(c) && k == qkey(c, n)
}

/// Change of the group depth that a slot's field makes.
pub open spec fn depth_step(f: Option<Seq<char>>) -> int {
    if f == Some("OP"@) {
        1
    } else if f == Some("CP"@) {
        -1
    } else {
        0
    }
}

/// Number of groups left open after the first `m` slots.
pub open spec fn depth(q: Pairs, m: nat) -> int
    decreases m,
{
    if m == 0 {
        0
    } else {
        depth(q, (m - 1) as nat) + depth_step(lookup(q, qkey('f', m)))
    }
}

/// Whether no key occurs in two pairs.
pub open spec fn unique_keys(q: Pairs) -> bool {
    forall|i: int, j: int| 0 <= i < j < q.len() ==> (#[trigger] q[i]).0 != (#[trigger] q[j]).0
}

proof fn lemma_without_keys(q: Pairs, k: Seq<char>)
    ensures
        forall|i: int|
            0 <= i < without_key(q, k).len() ==> (#[trigger] without_key(q, k)[i]).0 != k && exists|j: int|
                0 <= j < q.len() && q[j] == without_key(q, k)[i],
        unique_keys(q) ==> unique_keys(without_key(q, k)),
    decreases q.len(),
{
    if q.len() > 0 {
        lemma_without_keys(q.drop_last(), k);
        let prev = without_key(q.drop_last(), k);
        let w = without_key(q, k);
        assert forall|i: int| 0 <= i < w.len() implies (#[trigger] w[i]).0 != k && exists|j: int|
            0 <= j < q.len() && q[j] == w[i] by {
            if i < prev.len() {
                assert(w[i] == prev[i]);
                let j = choose|j: int| 0 <= j < q.drop_last().len() && q.drop_last()[j] == prev[i];
                assert(q[j] == w[i]);
            } else {
                assert(w[i] == q.last());
                assert(q[q.len() - 1] == w[i]);
            }
        }
        if unique_keys(q) {
            assert(unique_keys(q.drop_last())) by {
                assert forall|i: int, j: int| 0 <= i < j < q.drop_last().len() implies (#[trigger] q.drop_last()[i]).0
                    != (#[trigger] q.drop_last()[j]).0 by {
                    assert(q.drop_last()[i] == q[i]);
                    assert(q.drop_last()[j] == q[j]);
                }
            }
            assert forall|i: int, j: int| 0 <= i < j < w.len() implies (#[trigger] w[i]).0 != (#[trigger] w[j]).0 by {
                if j < prev.len() {
                    assert(w[i] == prev[i]);
                    assert(w[j] == prev[j]);
                } else {
                    assert(w[j] == q.last());
                    assert(w[i] == prev[i]);
                    let m = choose|m: int| 0 <= m < q.drop_last().len() && q.drop_last()[m] == prev[i];
                    assert(q[m] == prev[i]);
                    assert(q[q.len() - 1] == q.last());
                }
            }
        }
    }
}

/// Setting a key keeps every key in one pair at most.
proof fn lemma_insert_unique(q: Pairs, k: Seq<char>, v: Seq<char>)
    requires
        unique_keys(q),
    ensures
        unique_keys(sp_insert(q, k, v)),
{
    lemma_without_keys(q, k);
    let w = without_key(q, k);
    let r = sp_insert(q, k, v);
    assert forall|i: int, j: int| 0 <= i < j < r.len() implies (#[trigger] r[i]).0 != (#[trigger] r[j]).0 by {
        assert(r[i] == w[i]);
        if j < w.len() {
            assert(r[j] == w[j]);
        }
    }
}

/// Whether no key of `st` occurs twice; the slots of `st` are numbered `1..=st.1`, each
/// with its field; joins stand on
/// group openings exactly; negations are `1` on plain clauses; and no prefix of the slots
/// closes more groups than it opened, `d` being left open.
pub open spec fn slots_ok(st: QState, d: int) -> bool {
    let q = st.0;
    &&& unique_keys(q)
    &&& forall|k: nat| 1 <= k <= st.1 ==> (#[trigger] lookup(q, qkey('f', k))) is Some
    &&& forall|c: char, k: nat|
        slot_letter(c) && (k == 0 || k > st.1) ==> (#[trigger] lookup(q, qkey(c, k))) is None
    &&& forall|k: nat|
        1 <= k <= st.1 ==> ((#[trigger] lookup(q, qkey('j', k))) is Some <==> lookup(q, qkey('f', k))
            == Some("OP"@))
    &&& forall|k: nat|
        (#[trigger] lookup(q, qkey('n', k))) is Some ==> lookup(q, qkey('n', k)) == Some("1"@)
            && lookup(q, qkey('f', k)) != Some("OP"@) && lookup(q, qkey('f', k)) != Some("CP"@)
    &&& forall|m: nat| m <= st.1 ==> #[trigger] depth(q, m) >= 0
    &&& depth(q, st.1) == d
}

proof fn lemma_digit_char_injective(a: nat, b: nat)
    requires
        a < 10,
        b < 10,
        digit_char(a) == digit_char(b),
    ensures
        a == b,
{
}

proof fn lemma_nat_digits_len(n: nat)
    ensures
        nat_digits(n).len() >= 1,
        n >= 10 ==> nat_digits(n).len() >= 2,
    decreases n,
{
    if n >= 10 {
        lemma_nat_digits_len(n / 10);
    }
}

/// Different numbers have different decimal renderings.
pub proof fn lemma_nat_digits_injective(a: nat, b: nat)
    requires
        nat_digits(a) == nat_digits(b),
    ensures
        a == b,
    decreases a,
{
    lemma_nat_digits_len(a);
    lemma_nat_digits_len(b);
    if a < 10 && b < 10 {
        assert(nat_digits(a) == seq![digit_char(a)]);
        assert(nat_digits(b) == seq![digit_char(b)]);
        assert(seq![digit_char(a)][0] == digit_char(a));
        assert(seq![digit_char(b)][0] == digit_char(b));
        assert(nat_digits(a)[0] == nat_digits(b)[0]);
        lemma_digit_char_injective(a, b);
    } else if a < 10 {
        lemma_nat_digits_len(b / 10);
    } else if b < 10 {
        lemma_nat_digits_len(a / 10);
    } else {
        let da = nat_digits(a);
        let db = nat_digits(b);
        assert(da.last() == digit_char(a % 10));
        assert(db.last() == digit_char(b % 10));
        lemma_digit_char_injective(a % 10, b % 10);
        assert(da.drop_last() =~= nat_digits(a / 10));
        assert(db.drop_last() =~= nat_digits(b / 10));
        lemma_nat_digits_injective(a / 10, b / 10);
    }
}

/// Slot keys name their letter and number.
pub proof fn lemma_qkey_injective(c: char, n: nat, d: char, m: nat)
    requires
        qkey(c, n) == qkey(d, m),
    ensures
        c == d,
        n == m,
{
    assert(qkey(c, n)[0] == c);
    assert(qkey(d, m)[0] == d);
    assert(qkey(c, n).drop_first() =~= nat_digits(n));
    assert(qkey(d, m).drop_first() =~= nat_digits(m));
    lemma_nat_digits_injective(n, m);
}

proof fn lemma_lookup_without(q: Pairs, k: Seq<char>, k2: Seq<char>)
    requires
        k2 != k,
    ensures
        lookup(without_key(q, k), k2) == lookup(q, k2),
    decreases q.len(),
{
    if q.len() > 0 {
        lemma_lookup_without(q.drop_last(), k, k2);
        if q.last().0 != k {
            assert(without_key(q, k).drop_last() =~= without_key(q.drop_last(), k));
        }
    }
}

/// Setting a key changes what that key reads and nothing else.
pub proof fn lemma_lookup_insert(q: Pairs, k: Seq<char>, v: Seq<char>, k2: Seq<char>)
    ensures
        lookup(sp_insert(q, k, v), k2) == if k2 == k {
            Some(v)
        } else {
            lookup(q, k2)
        },
{
    if k2 != k {
        lemma_lookup_without(q, k, k2);
        assert(sp_insert(q, k, v).drop_last() =~= without_key(q, k));
    }
}

proof fn lemma_depth_same(q: Pairs, r: Pairs, m: nat)
    requires
        forall|k: nat| 1 <= k <= m ==> lookup(r, qkey('f', k)) == lookup(q, qkey('f', k)),
    ensures
        depth(r, m) == depth(q, m),
    decreases m,
{
    if m > 0 {
        lemma_depth_same(q, r, (m - 1) as nat);
    }
}

/// Setting a key that is no slot key, or a key of a slot letter other than `f`, keeps the
/// fields of all slots.
proof fn lemma_insert_keeps_fields(q: Pairs, k: Seq<char>, v: Seq<char>)
    requires
        forall|n: nat| k != qkey('f', n),
    ensures
        forall|n: nat| #[trigger] lookup(sp_insert(q, k, v), qkey('f', n)) == lookup(q, qkey('f', n)),
{
    assert forall|n: nat| #[trigger] lookup(sp_insert(q, k, v), qkey('f', n)) == lookup(q, qkey('f', n)) by {
        lemma_lookup_insert(q, k, v, qkey('f', n));
    }
}


/// Whether a field name is neither a group opening nor a group closing.
pub open spec fn plain(field: Seq<char>) -> bool {
    field != "OP"@ && field != "CP"@
}

/// Whether a character is a decimal digit.
pub open spec fn is_digit(c: char) -> bool {
    '0' <= c <= '9'
}

proof fn lemma_nat_digits_digits(n: nat)
    ensures
        forall|i: int| 0 <= i < nat_digits(n).len() ==> is_digit(#[trigger] nat_digits(n)[i]),
    decreases n,
{
    lemma_nat_digits_len(n);
    if n < 10 {
        assert(nat_digits(n) == seq![digit_char(n)]);
        assert(is_digit(digit_char(n)));
    } else {
        lemma_nat_digits_digits(n / 10);
        let p = nat_digits(n / 10);
        assert(nat_digits(n) == p.push(digit_char(n % 10)));
        assert(is_digit(digit_char(n % 10)));
        assert forall|i: int| 0 <= i < nat_digits(n).len() implies is_digit(#[trigger] nat_digits(n)[i]) by {
            if i < p.len() {
                assert(nat_digits(n)[i] == p[i]);
            }
        }
    }
}

/// A key whose second character is no digit is the key of no slot.
pub proof fn lemma_not_slot_key(key: Seq<char>)
    requires
        key.len() >= 2,
        !is_digit(key[1]),
    ensures
        forall|c: char, n: nat| key != #[trigger] qkey(c, n),
{
    assert forall|c: char, n: nat| key != #[trigger] qkey(c, n) by {
        lemma_nat_digits_digits(n);
        lemma_nat_digits_len(n);
        if key == qkey(c, n) {
            assert(qkey(c, n)[1] == nat_digits(n)[0]);
        }
    }
}

/// Setting a slot key changes what that slot key reads and no other slot key.
proof fn lemma_insert_slot(q: Pairs, c0: char, k0: nat, v: Seq<char>)
    ensures
        forall|c: char, k: nat|
            #[trigger] lookup(sp_insert(q, qkey(c0, k0), v), qkey(c, k)) == if c == c0 && k == k0 {
                Some(v)
            } else {
                lookup(q, qkey(c, k))
            },
{
    assert forall|c: char, k: nat|
        #[trigger] lookup(sp_insert(q, qkey(c0, k0), v), qkey(c, k)) == if c == c0 && k == k0 {
            Some(v)
        } else {
            lookup(q, qkey(c, k))
        } by {
        lemma_lookup_insert(q, qkey(c0, k0), v, qkey(c, k));
        if qkey(c, k) == qkey(c0, k0) {
            lemma_qkey_injective(c, k, c0, k0);
        }
    }
}

/// Setting a key that is no slot key keeps the slots as they are.
pub proof fn lemma_insert_other_ok(st: QState, d: int, key: Seq<char>, v: Seq<char>)
    requires
        slots_ok(st, d),
        forall|c: char, n: nat| key != #[trigger] qkey(c, n),
    ensures
        slots_ok((sp_insert(st.0, key, v), st.1), d),
{
    let q = st.0;
    let r = sp_insert(q, key, v);
    lemma_insert_unique(q, key, v);
    assert forall|c: char, k: nat| #[trigger] lookup(r, qkey(c, k)) == lookup(q, qkey(c, k)) by {
        lemma_lookup_insert(q, key, v, qkey(c, k));
    }
    assert forall|m: nat| m <= st.1 implies #[trigger] depth(r, m) == depth(q, m) by {
        lemma_depth_same(q, r, m);
    }
}

/// A clause on a plain field takes the next slot and keeps the depth.
pub proof fn lemma_field_ok(st: QState, d: int, field: Seq<char>, op: Seq<char>, value: Seq<char>)
    requires
        slots_ok(st, d),
        plain(field),
    ensures
        slots_ok(sp_field(st, field, op, value), d),
        lookup(sp_field(st, field, op, value).0, qkey('f', st.1 + 1)) == Some(field),
        sp_field(st, field, op, value).1 == st.1 + 1,
{
    let n = st.1 + 1;
    let q = st.0;
    let q1 = sp_insert(q, qkey('f', n), field);
    let q2 = sp_insert(q1, qkey('o', n), op);
    let r = sp_insert(q2, qkey('v', n), value);
    lemma_insert_slot(q, 'f', n, field);
    lemma_insert_slot(q1, 'o', n, op);
    lemma_insert_slot(q2, 'v', n, value);
    lemma_insert_unique(q, qkey('f', n), field);
    lemma_insert_unique(q1, qkey('o', n), op);
    lemma_insert_unique(q2, qkey('v', n), value);
    assert forall|k: nat| 1 <= k <= st.1 implies lookup(r, qkey('f', k)) == lookup(q, qkey('f', k)) by {
        assert(lookup(q2, qkey('f', k)) == lookup(q1, qkey('f', k)));
    }
    assert forall|m: nat| m <= st.1 implies #[trigger] depth(r, m) == depth(q, m) by {
        lemma_depth_same(q, r, m);
    }
    assert(lookup(r, qkey('f', n)) == Some(field)) by {
        assert(lookup(q2, qkey('f', n)) == lookup(q1, qkey('f', n)));
    }
    assert(depth(r, n) == depth(r, st.1) + depth_step(lookup(r, qkey('f', n))));
    assert forall|m: nat| m <= n implies #[trigger] depth(r, m) >= 0 by {
        if m <= st.1 {
            assert(depth(r, m) == depth(q, m));
        }
    }
}

/// A clause on whether a plain field holds values takes the next slot and keeps the depth.
pub proof fn lemma_exists_ok(st: QState, d: int, field: Seq<char>, status: bool)
    requires
        slots_ok(st, d),
        plain(field),
    ensures
        slots_ok(sp_exists(st, field, status), d),
        lookup(sp_exists(st, field, status).0, qkey('f', st.1 + 1)) == Some(field),
        sp_exists(st, field, status).1 == st.1 + 1,
{
    let n = st.1 + 1;
    let q = st.0;
    let op = if status { "isnotempty"@ } else { "isempty"@ };
    let q1 = sp_insert(q, qkey('f', n), field);
    let r = sp_insert(q1, qkey('o', n), op);
    lemma_insert_slot(q, 'f', n, field);
    lemma_insert_slot(q1, 'o', n, op);
    lemma_insert_unique(q, qkey('f', n), field);
    lemma_insert_unique(q1, qkey('o', n), op);
    assert forall|m: nat| m <= st.1 implies #[trigger] depth(r, m) == depth(q, m) by {
        lemma_depth_same(q, r, m);
    }
    assert(depth(r, n) == depth(r, st.1) + depth_step(lookup(r, qkey('f', n))));
    assert forall|m: nat| m <= n implies #[trigger] depth(r, m) >= 0 by {
        if m <= st.1 {
            assert(depth(r, m) == depth(q, m));
        }
    }
}

/// Opening a group takes the next slot, joined by `op`, one group deeper.
pub proof fn lemma_open_ok(st: QState, d: int, op: Seq<char>)
    requires
        slots_ok(st, d),
    ensures
        slots_ok(sp_open(st, op), d + 1),
        sp_open(st, op).1 == st.1 + 1,
{
    let n = st.1 + 1;
    let q = st.0;
    let q1 = sp_insert(q, qkey('f', n), "OP"@);
    let r = sp_insert(q1, qkey('j', n), op);
    lemma_insert_slot(q, 'f', n, "OP"@);
    lemma_insert_slot(q1, 'j', n, op);
    lemma_insert_unique(q, qkey('f', n), "OP"@);
    lemma_insert_unique(q1, qkey('j', n), op);
    assert forall|m: nat| m <= st.1 implies #[trigger] depth(r, m) == depth(q, m) by {
        lemma_depth_same(q, r, m);
    }
    assert(depth(r, n) == depth(r, st.1) + depth_step(lookup(r, qkey('f', n))));
    assert forall|m: nat| m <= n implies #[trigger] depth(r, m) >= 0 by {
        if m <= st.1 {
            assert(depth(r, m) == depth(q, m));
        }
    }
}

/// Closing an open group takes the next slot, one group shallower.
pub proof fn lemma_close_ok(st: QState, d: int)
    requires
        slots_ok(st, d),
        d >= 1,
    ensures
        slots_ok(sp_close(st), d - 1),
        sp_close(st).1 == st.1 + 1,
{
    let n = st.1 + 1;
    let q = st.0;
    let r = sp_insert(q, qkey('f', n), "CP"@);
    reveal_strlit("OP");
    reveal_strlit("CP");
    assert("CP"@ != "OP"@) by {
        assert("CP"@[0] != "OP"@[0]);
    }
    lemma_insert_slot(q, 'f', n, "CP"@);
    lemma_insert_unique(q, qkey('f', n), "CP"@);
    assert forall|m: nat| m <= st.1 implies #[trigger] depth(r, m) == depth(q, m) by {
        lemma_depth_same(q, r, m);
    }
    assert(depth(r, n) == depth(r, st.1) + depth_step(lookup(r, qkey('f', n))));
    assert forall|m: nat| m <= n implies #[trigger] depth(r, m) >= 0 by {
        if m <= st.1 {
            assert(depth(r, m) == depth(q, m));
        }
    }
}

/// Negating the last slot, when it is a plain clause, keeps the slots' shape.
pub proof fn lemma_negate_ok(st: QState, d: int, field: Seq<char>, status: bool)
    requires
        slots_ok(st, d),
        plain(field),
        st.1 >= 1,
        lookup(st.0, qkey('f', st.1)) == Some(field),
    ensures
        slots_ok(sp_negate(st, status), d),
        sp_negate(st, status).1 == st.1,
        lookup(sp_negate(st, status).0, qkey('f', st.1)) == Some(field),
{
    if status {
        let q = st.0;
        let r = sp_insert(q, qkey('n', st.1), "1"@);
        lemma_insert_slot(q, 'n', st.1, "1"@);
        lemma_insert_unique(q, qkey('n', st.1), "1"@);
        assert forall|m: nat| m <= st.1 implies #[trigger] depth(r, m) == depth(q, m) by {
            lemma_depth_same(q, r, m);
        }
    }
}

/// The empty query has no slots.
pub proof fn lemma_empty_ok()
    ensures
        slots_ok((Seq::empty(), 0nat), 0),
{
    let q: Pairs = Seq::empty();
    assert forall|m: nat| m <= 0 implies #[trigger] depth(q, m) >= 0 by {
    }
}


/// A name of another length than the group markers is plain.
pub proof fn lemma_plain_len(s: Seq<char>)
    requires
        s.len() != 2,
    ensures
        plain(s),
{
    reveal_strlit("OP");
    reveal_strlit("CP");
}

/// Field names of the service's bug fields are plain.
pub proof fn lemma_exists_field_plain(f: ExistsField)
    ensures
        plain(f.spec_api_name()),
{
    reveal_strlit("OP");
    reveal_strlit("CP");
    reveal_strlit("alias");
    reveal_strlit("attachments.submitter");
    reveal_strlit("blocked");
    reveal_strlit("cc");
    reveal_strlit("dependson");
    reveal_strlit("setters.login_name");
    reveal_strlit("bug_group");
    reveal_strlit("keywords");
    reveal_strlit("qa_contact");
    reveal_strlit("tag");
    reveal_strlit("see_also");
    reveal_strlit("bug_file_loc");
    reveal_strlit("status_whiteboard");
    assert("cc"@[0] != "OP"@[0] && "cc"@[0] != "CP"@[0]);
}

/// Field names of the changes a search can ask about are plain.
pub proof fn lemma_change_api_plain(s: Seq<char>)
    ensures
        change_field_api(s) matches Some(api) ==> plain(api),
{
    reveal_strlit("cf_");
    reveal_strlit("OP");
    reveal_strlit("CP");
    if has_prefix(s, "cf_"@) {
        lemma_plain_len(s);
    } else if let Some(f) = StaticChangeField::spec_from_name(s) {
        reveal_strlit("alias");
        reveal_strlit("assigned_to");
        reveal_strlit("blocked");
        reveal_strlit("component");
        reveal_strlit("cc");
        reveal_strlit("deadline");
        reveal_strlit("dependson");
        reveal_strlit("flagtypes.name");
        reveal_strlit("keywords");
        reveal_strlit("op_sys");
        reveal_strlit("rep_platform");
        reveal_strlit("priority");
        reveal_strlit("product");
        reveal_strlit("qa_contact");
        reveal_strlit("reporter");
        reveal_strlit("resolution");
        reveal_strlit("see_also");
        reveal_strlit("bug_severity");
        reveal_strlit("bug_status");
        reveal_strlit("short_desc");
        reveal_strlit("target_milestone");
        reveal_strlit("bug_file_loc");
        reveal_strlit("version");
        reveal_strlit("votes");
        reveal_strlit("status_whiteboard");
        assert("cc"@[0] != "OP"@[0] && "cc"@[0] != "CP"@[0]);
    }
}

/// Match clauses on a plain field keep the depth.
pub proof fn lemma_matches_ok(st: QState, d: int, user: Option<String>, field: Seq<char>, ms: Seq<Match>, alias: bool)
    requires
        slots_ok(st, d),
        plain(field),
    ensures
        slots_ok(sp_matches(st, user, field, ms, alias), d),
    decreases ms.len(),
{
    if ms.len() > 0 {
        lemma_matches_ok(st, d, user, field, ms.drop_last(), alias);
        let prev = sp_matches(st, user, field, ms.drop_last(), alias);
        let m = ms.last();
        lemma_field_ok(prev, d, field, m.spec_op().spec_api_name(), super::builder::match_value(user, m, alias));
    }
}

/// A group of match clauses keeps the depth.
pub proof fn lemma_group_ok(st: QState, d: int, op: Seq<char>, user: Option<String>, field: Seq<char>, ms: Seq<Match>, alias: bool)
    requires
        slots_ok(st, d),
        plain(field),
    ensures
        slots_ok(sp_group(st, op, user, field, ms, alias), d),
{
    lemma_open_ok(st, d, op);
    lemma_matches_ok(sp_open(st, op), d + 1, user, field, ms, alias);
    lemma_close_ok(sp_matches(sp_open(st, op), user, field, ms, alias), d + 1);
}

/// `AND` groups of match clauses keep the depth.
pub proof fn lemma_and_lists_ok(st: QState, d: int, user: Option<String>, field: Seq<char>, ls: Seq<Vec<Match>>, alias: bool)
    requires
        slots_ok(st, d),
        plain(field),
    ensures
        slots_ok(sp_and_lists(st, user, field, ls, alias), d),
    decreases ls.len(),
{
    if ls.len() > 0 {
        lemma_and_lists_ok(st, d, user, field, ls.drop_last(), alias);
        lemma_group_ok(sp_and_lists(st, user, field, ls.drop_last(), alias), d, "AND"@, user, field, ls.last()@, alias);
    }
}

/// An `OR` group of `AND` groups keeps the depth.
pub proof fn lemma_or_lists_ok(st: QState, d: int, user: Option<String>, field: Seq<char>, ls: Seq<Vec<Match>>, alias: bool)
    requires
        slots_ok(st, d),
        plain(field),
    ensures
        slots_ok(sp_or_lists(st, user, field, ls, alias), d),
{
    lemma_open_ok(st, d, "OR"@);
    lemma_and_lists_ok(sp_open(st, "OR"@), d + 1, user, field, ls, alias);
    lemma_close_ok(sp_and_lists(sp_open(st, "OR"@), user, field, ls, alias), d + 1);
}

/// Existence and value clauses keep the depth.
pub proof fn lemma_eov_items_ok(
    st: QState,
    d: int,
    user: Option<String>,
    field: Seq<char>,
    exists_field: Seq<char>,
    vs: Seq<ExistsOrValues<Match>>,
    alias: bool,
    inverted: bool,
)
    requires
        slots_ok(st, d),
        plain(field),
        plain(exists_field),
    ensures
        slots_ok(sp_eov_items(st, user, field, exists_field, vs, alias, inverted), d),
    decreases vs.len(),
{
    if vs.len() > 0 {
        lemma_eov_items_ok(st, d, user, field, exists_field, vs.drop_last(), alias, inverted);
        let prev = sp_eov_items(st, user, field, exists_field, vs.drop_last(), alias, inverted);
        match vs.last() {
            ExistsOrValues::Exists(b) => {
                if inverted {
                    lemma_exists_ok(prev, d, exists_field, true);
                    lemma_negate_ok(sp_exists(prev, exists_field, true), d, exists_field, !b);
                } else {
                    lemma_exists_ok(prev, d, exists_field, b);
                }
            },
            ExistsOrValues::Values(ms) => {
                lemma_group_ok(prev, d, "AND"@, user, field, ms@, alias);
            },
        }
    }
}

/// An `OR` group of existence and value clauses keeps the depth.
pub proof fn lemma_eov_ok(
    st: QState,
    d: int,
    user: Option<String>,
    field: Seq<char>,
    exists_field: Seq<char>,
    vs: Seq<ExistsOrValues<Match>>,
    alias: bool,
    inverted: bool,
)
    requires
        slots_ok(st, d),
        plain(field),
        plain(exists_field),
    ensures
        slots_ok(sp_eov(st, user, field, exists_field, vs, alias, inverted), d),
{
    lemma_open_ok(st, d, "OR"@);
    lemma_eov_items_ok(sp_open(st, "OR"@), d + 1, user, field, exists_field, vs, alias, inverted);
    lemma_close_ok(sp_eov_items(sp_open(st, "OR"@), user, field, exists_field, vs, alias, inverted), d + 1);
}

/// A range clause keeps the depth.
pub proof fn lemma_range_ok<T: Api>(st: QState, d: int, field: Seq<char>, r: Range<T>)
    requires
        slots_ok(st, d),
        plain(field),
    ensures
        slots_ok(sp_range(st, field, r), d),
{
    match r {
        Range::Range(a, b) => {
            lemma_open_ok(st, d, "AND"@);
            let s1 = sp_open(st, "AND"@);
            lemma_field_ok(s1, d + 1, field, "greaterthaneq"@, a.spec_api());
            let s2 = sp_field(s1, field, "greaterthaneq"@, a.spec_api());
            lemma_field_ok(s2, d + 1, field, "lessthan"@, b.spec_api());
            lemma_close_ok(sp_field(s2, field, "lessthan"@, b.spec_api()), d + 1);
        },
        Range::Inclusive(a, b) => {
            lemma_open_ok(st, d, "AND"@);
            let s1 = sp_open(st, "AND"@);
            lemma_field_ok(s1, d + 1, field, "greaterthaneq"@, a.spec_api());
            let s2 = sp_field(s1, field, "greaterthaneq"@, a.spec_api());
            lemma_field_ok(s2, d + 1, field, "lessthaneq"@, b.spec_api());
            lemma_close_ok(sp_field(s2, field, "lessthaneq"@, b.spec_api()), d + 1);
        },
        Range::To(b) => lemma_field_ok(st, d, field, "lessthan"@, b.spec_api()),
        Range::ToInclusive(b) => lemma_field_ok(st, d, field, "lessthaneq"@, b.spec_api()),
        Range::From(a) => lemma_field_ok(st, d, field, "greaterthaneq"@, a.spec_api()),
        Range::Full => {},
    }
}

/// A range or value clause keeps the depth.
pub proof fn lemma_rov_ok<T: Api>(st: QState, d: int, field: Seq<char>, r: RangeOrValue<T>, value_op: Seq<char>)
    requires
        slots_ok(st, d),
        plain(field),
    ensures
        slots_ok(sp_rov(st, field, r, value_op), d),
{
    match r {
        RangeOrValue::Value(v) => lemma_field_ok(st, d, field, value_op, v.spec_api()),
        RangeOrValue::RangeOp(op) => lemma_field_ok(
            st,
            d,
            field,
            super::builder::range_op_api(op),
            super::builder::range_op_value(op).spec_api(),
        ),
        RangeOrValue::Range(x) => lemma_range_ok(st, d, field, x),
    }
}

/// A signed number clause keeps the depth.
pub proof fn lemma_signed_ok(st: QState, d: int, field: Seq<char>, r: RangeOrValue<i64>)
    requires
        slots_ok(st, d),
        plain(field),
    ensures
        slots_ok(sp_signed(st, field, r), d),
{
    match r {
        RangeOrValue::Value(v) => {
            if v >= 0 {
                lemma_field_ok(st, d, field, "equals"@, crate::text::int_digits(v as int));
            } else {
                lemma_field_ok(st, d, field, "notequals"@, crate::text::int_digits(-v));
            }
        },
        RangeOrValue::RangeOp(op) => lemma_field_ok(
            st,
            d,
            field,
            super::builder::range_op_api(op),
            super::builder::range_op_value(op).spec_api(),
        ),
        RangeOrValue::Range(x) => lemma_range_ok(st, d, field, x),
    }
}

/// Signed number clauses keep the depth.
pub proof fn lemma_signed_list_ok(st: QState, d: int, field: Seq<char>, rs: Seq<RangeOrValue<i64>>)
    requires
        slots_ok(st, d),
        plain(field),
    ensures
        slots_ok(sp_signed_list(st, field, rs), d),
    decreases rs.len(),
{
    if rs.len() > 0 {
        lemma_signed_list_ok(st, d, field, rs.drop_last());
        lemma_signed_ok(sp_signed_list(st, field, rs.drop_last()), d, field, rs.last());
    }
}

/// Bug number clauses keep the depth.
pub proof fn lemma_id_items_ok(
    st: QState,
    d: int,
    field: Seq<char>,
    exists_field: Seq<char>,
    vs: Seq<ExistsOrValues<RangeOrValue<i64>>>,
)
    requires
        slots_ok(st, d),
        plain(field),
        plain(exists_field),
    ensures
        slots_ok(sp_id_items(st, field, exists_field, vs), d),
    decreases vs.len(),
{
    if vs.len() > 0 {
        lemma_id_items_ok(st, d, field, exists_field, vs.drop_last());
        let prev = sp_id_items(st, field, exists_field, vs.drop_last());
        match vs.last() {
            ExistsOrValues::Exists(b) => lemma_exists_ok(prev, d, exists_field, b),
            ExistsOrValues::Values(rs) => {
                lemma_open_ok(prev, d, "AND"@);
                lemma_signed_list_ok(sp_open(prev, "AND"@), d + 1, field, rs@);
                lemma_close_ok(sp_signed_list(sp_open(prev, "AND"@), field, rs@), d + 1);
            },
        }
    }
}

/// An `OR` group of bug number clauses keeps the depth.
pub proof fn lemma_ids_ok(
    st: QState,
    d: int,
    field: Seq<char>,
    exists_field: Seq<char>,
    vs: Seq<ExistsOrValues<RangeOrValue<i64>>>,
)
    requires
        slots_ok(st, d),
        plain(field),
        plain(exists_field),
    ensures
        slots_ok(sp_ids(st, field, exists_field, vs), d),
{
    lemma_open_ok(st, d, "OR"@);
    lemma_id_items_ok(sp_open(st, "OR"@), d + 1, field, exists_field, vs);
    lemma_close_ok(sp_id_items(sp_open(st, "OR"@), field, exists_field, vs), d + 1);
}

/// Clauses on custom fields with plain names keep the depth.
pub proof fn lemma_custom_items_ok(st: QState, d: int, user: Option<String>, items: Seq<(String, ExistsOrValues<Match>)>)
    requires
        slots_ok(st, d),
        forall|i: int| 0 <= i < items.len() ==> plain((#[trigger] items[i]).0@),
    ensures
        slots_ok(sp_custom_items(st, user, items), d),
    decreases items.len(),
{
    if items.len() > 0 {
        assert(plain(items[items.len() - 1].0@));
        lemma_custom_items_ok(st, d, user, items.drop_last());
        let prev = sp_custom_items(st, user, items.drop_last());
        let (name, v) = items.last();
        match v {
            ExistsOrValues::Exists(b) => lemma_exists_ok(prev, d, name@, b),
            ExistsOrValues::Values(ms) => lemma_group_ok(prev, d, "AND"@, user, name@, ms@, false),
        }
    }
}

/// A status clause keeps the depth.
pub proof fn lemma_status_ok(st: QState, d: int, v: Seq<char>)
    requires
        slots_ok(st, d),
    ensures
        slots_ok(sp_status(st, v), d),
{
    reveal_strlit("bug_status");
    lemma_plain_len("bug_status"@);
    lemma_not_slot_key("bug_status"@);
    if v == "@open"@ {
        lemma_insert_other_ok(st, d, "bug_status"@, "__open__"@);
    } else if v == "@closed"@ {
        lemma_insert_other_ok(st, d, "bug_status"@, "__closed__"@);
    } else if v == "@all"@ {
        lemma_insert_other_ok(st, d, "bug_status"@, "__all__"@);
    } else if v.len() > 0 && v[0] == '!' {
        lemma_field_ok(st, d, "bug_status"@, "notequals"@, v.subrange(1, v.len() as int));
    } else {
        lemma_field_ok(st, d, "bug_status"@, "equals"@, v);
    }
}

/// Status clauses keep the depth.
pub proof fn lemma_statuses_ok(st: QState, d: int, vs: Seq<String>)
    requires
        slots_ok(st, d),
    ensures
        slots_ok(sp_statuses(st, vs), d),
    decreases vs.len(),
{
    if vs.len() > 0 {
        lemma_statuses_ok(st, d, vs.drop_last());
        lemma_status_ok(sp_statuses(st, vs.drop_last()), d, vs.last()@);
    }
}

/// The sort order keeps the slots.
pub proof fn lemma_order_ok(st: QState, d: int, os: Seq<Order<OrderField>>)
    requires
        slots_ok(st, d),
    ensures
        slots_ok(sp_order(st, os), d),
{
    reveal_strlit("order");
    lemma_not_slot_key("order"@);
    lemma_insert_other_ok(st, d, "order"@, sp_order(st, os).0.last().1);
    assert(sp_order(st, os).0 == sp_insert(st.0, "order"@, sp_order(st, os).0.last().1));
}

/// The requested fields keep the slots.
pub proof fn lemma_fields_ok(st: QState, d: int, fs: Seq<FilterField>)
    requires
        slots_ok(st, d),
    ensures
        slots_ok(sp_fields(st, fs), d),
{
    reveal_strlit("include_fields");
    lemma_not_slot_key("include_fields"@);
    lemma_insert_other_ok(st, d, "include_fields"@, sp_fields(st, fs).0.last().1);
    assert(sp_fields(st, fs).0 == sp_insert(st.0, "include_fields"@, sp_fields(st, fs).0.last().1));
}

/// Attachment text clauses keep the depth.
pub proof fn lemma_attachment_items_ok(st: QState, d: int, ms: Seq<Match>)
    requires
        slots_ok(st, d),
    ensures
        slots_ok(sp_attachment_items(st, ms), d),
    decreases ms.len(),
{
    if ms.len() > 0 {
        reveal_strlit("attachments.description");
        reveal_strlit("attachments.filename");
        lemma_plain_len("attachments.description"@);
        lemma_plain_len("attachments.filename"@);
        lemma_attachment_items_ok(st, d, ms.drop_last());
        let prev = sp_attachment_items(st, ms.drop_last());
        let m = ms.last();
        let op = m.spec_op().spec_api_name();
        lemma_field_ok(prev, d, "attachments.description"@, op, m.value@);
        lemma_field_ok(sp_field(prev, "attachments.description"@, op, m.value@), d, "attachments.filename"@, op, m.value@);
    }
}

/// An `OR` group of attachment text clauses keeps the depth.
pub proof fn lemma_attachments_ok(st: QState, d: int, ms: Seq<Match>)
    requires
        slots_ok(st, d),
    ensures
        slots_ok(sp_attachments(st, ms), d),
{
    lemma_open_ok(st, d, "OR"@);
    lemma_attachment_items_ok(sp_open(st, "OR"@), d + 1, ms);
    lemma_close_ok(sp_attachment_items(sp_open(st, "OR"@), ms), d + 1);
}

/// A change time clause keeps the depth.
pub proof fn lemma_change_target_ok(st: QState, d: int, api: Seq<char>, status: bool, t: RangeOrValue<TimeDeltaOrStatic>)
    requires
        slots_ok(st, d),
        plain(api),
    ensures
        slots_ok(sp_change_target(st, api, status, t), d),
{
    let after = "changedafter"@;
    let before = "changedbefore"@;
    match t {
        RangeOrValue::Value(v) => {
            lemma_field_ok(st, d, api, after, v.spec_value());
            lemma_negate_ok(sp_field(st, api, after, v.spec_value()), d, api, status);
        },
        RangeOrValue::RangeOp(op) => match op {
            RangeOp::Less(v) => {
                lemma_field_ok(st, d, api, before, v.spec_value());
                lemma_negate_ok(sp_field(st, api, before, v.spec_value()), d, api, status);
            },
            RangeOp::LessOrEqual(v) => {
                lemma_field_ok(st, d, api, before, v.spec_value());
                lemma_negate_ok(sp_field(st, api, before, v.spec_value()), d, api, status);
            },
            RangeOp::Equal(_) => {},
            RangeOp::NotEqual(_) => {},
            RangeOp::GreaterOrEqual(v) => {
                lemma_field_ok(st, d, api, after, v.spec_value());
                lemma_negate_ok(sp_field(st, api, after, v.spec_value()), d, api, status);
            },
            RangeOp::Greater(v) => {
                lemma_field_ok(st, d, api, after, v.spec_value());
                lemma_negate_ok(sp_field(st, api, after, v.spec_value()), d, api, status);
            },
        },
        RangeOrValue::Range(r) => match r {
            Range::Range(a, b) => {
                lemma_field_ok(st, d, api, after, a.spec_value());
                let s1 = sp_field(st, api, after, a.spec_value());
                lemma_field_ok(s1, d, api, before, b.spec_value());
                lemma_negate_ok(sp_field(s1, api, before, b.spec_value()), d, api, status);
            },
            Range::Inclusive(a, b) => {
                lemma_field_ok(st, d, api, after, a.spec_value());
                let s1 = sp_field(st, api, after, a.spec_value());
                lemma_field_ok(s1, d, api, before, b.spec_value());
                lemma_negate_ok(sp_field(s1, api, before, b.spec_value()), d, api, status);
            },
            Range::To(b) => {
                lemma_field_ok(st, d, api, before, b.spec_value());
                lemma_negate_ok(sp_field(st, api, before, b.spec_value()), d, api, status);
            },
            Range::ToInclusive(b) => {
                lemma_field_ok(st, d, api, before, b.spec_value());
                lemma_negate_ok(sp_field(st, api, before, b.spec_value()), d, api, status);
            },
            Range::From(a) => {
                lemma_field_ok(st, d, api, after, a.spec_value());
                lemma_negate_ok(sp_field(st, api, after, a.spec_value()), d, api, status);
            },
            Range::Full => {
                lemma_field_ok(st, d, api, before, "now"@);
                lemma_negate_ok(sp_field(st, api, before, "now"@), d, api, status);
            },
        },
    }
}

/// A closed-time clause keeps the depth.
pub proof fn lemma_closed_ok(st: QState, d: int, t: RangeOrValue<TimeDeltaOrStatic>)
    requires
        slots_ok(st, d),
    ensures
        slots_ok(sp_closed(st, t), d),
{
    reveal_strlit("bug_status");
    lemma_plain_len("bug_status"@);
    lemma_change_target_ok(st, d, StaticChangeField::Status.spec_api_name(), false, t);
    lemma_status_ok(sp_change_target(st, StaticChangeField::Status.spec_api_name(), false, t), d, "@closed"@);
}

/// Change time clauses on fields keep the depth.
pub proof fn lemma_changed_fields_ok(st: QState, d: int, fs: Seq<String>, t: RangeOrValue<TimeDeltaOrStatic>)
    requires
        slots_ok(st, d),
    ensures
        slots_ok(sp_changed_fields(st, fs, t), d),
    decreases fs.len(),
{
    if fs.len() > 0 {
        lemma_changed_fields_ok(st, d, fs.drop_last(), t);
        let prev = sp_changed_fields(st, fs.drop_last(), t);
        let (status, name) = invert_split(fs.last()@);
        lemma_change_api_plain(name);
        if let Some(api) = change_field_api(name) {
            lemma_change_target_ok(prev, d, api, status, t);
        }
    }
}

/// Change time clauses keep the depth.
pub proof fn lemma_changed_ok(st: QState, d: int, values: Seq<(Vec<String>, RangeOrValue<TimeDeltaOrStatic>)>)
    requires
        slots_ok(st, d),
    ensures
        slots_ok(sp_changed(st, values), d),
    decreases values.len(),
{
    if values.len() > 0 {
        lemma_changed_ok(st, d, values.drop_last());
        lemma_changed_fields_ok(sp_changed(st, values.drop_last()), d, values.last().0@, values.last().1);
    }
}

/// Changed-by clauses on a plain field keep the depth.
pub proof fn lemma_users_ok(st: QState, d: int, user: Option<String>, api: Seq<char>, users: Seq<String>)
    requires
        slots_ok(st, d),
        plain(api),
    ensures
        slots_ok(sp_users(st, user, api, users), d),
    decreases users.len(),
{
    if users.len() > 0 {
        lemma_users_ok(st, d, user, api, users.drop_last());
        lemma_field_ok(
            sp_users(st, user, api, users.drop_last()),
            d,
            api,
            "changedby"@,
            crate::service::bugzilla::spec_user_alias(user, users.last()@),
        );
    }
}

/// Changed-by clauses on fields keep the depth.
pub proof fn lemma_changed_by_fields_ok(st: QState, d: int, user: Option<String>, fs: Seq<String>, users: Seq<String>)
    requires
        slots_ok(st, d),
    ensures
        slots_ok(sp_changed_by_fields(st, user, fs, users), d),
    decreases fs.len(),
{
    if fs.len() > 0 {
        lemma_changed_by_fields_ok(st, d, user, fs.drop_last(), users);
        lemma_change_api_plain(fs.last()@);
        if let Some(api) = change_field_api(fs.last()@) {
            lemma_users_ok(sp_changed_by_fields(st, user, fs.drop_last(), users), d, user, api, users);
        }
    }
}

/// Changed-by clauses keep the depth.
pub proof fn lemma_changed_by_ok(st: QState, d: int, user: Option<String>, values: Seq<(Vec<String>, Vec<String>)>)
    requires
        slots_ok(st, d),
    ensures
        slots_ok(sp_changed_by(st, user, values), d),
    decreases values.len(),
{
    if values.len() > 0 {
        lemma_changed_by_ok(st, d, user, values.drop_last());
        lemma_changed_by_fields_ok(sp_changed_by(st, user, values.drop_last()), d, user, values.last().0@, values.last().1@);
    }
}

/// Changed-from and changed-to clauses keep the depth.
pub proof fn lemma_changed_pairs_ok(st: QState, d: int, values: Seq<(String, String)>, op: Seq<char>)
    requires
        slots_ok(st, d),
    ensures
        slots_ok(sp_changed_pairs(st, values, op), d),
    decreases values.len(),
{
    if values.len() > 0 {
        lemma_changed_pairs_ok(st, d, values.drop_last(), op);
        lemma_change_api_plain(values.last().0@);
        if let Some(api) = change_field_api(values.last().0@) {
            lemma_field_ok(sp_changed_pairs(st, values.drop_last(), op), d, api, op, values.last().1@);
        }
    }
}


/// Existence and value clauses on a plain field, when given, keep the depth.
pub proof fn lemma_opt_eov_ok(
    st: QState,
    d: int,
    user: Option<String>,
    v: Option<Vec<ExistsOrValues<Match>>>,
    field: Seq<char>,
    ef: ExistsField,
    alias: bool,
    inverted: bool,
)
    requires
        slots_ok(st, d),
        plain(field),
    ensures
        slots_ok(opt_eov(st, user, v, field, ef, alias, inverted), d),
{
    lemma_exists_field_plain(ef);
    if let Some(vs) = v {
        lemma_eov_ok(st, d, user, field, ef.spec_api_name(), vs@, alias, inverted);
    }
}

/// An `OR` group of `AND` groups on a plain field, when given, keeps the depth.
pub proof fn lemma_opt_or_lists_ok(st: QState, d: int, user: Option<String>, v: Option<Vec<Vec<Match>>>, field: Seq<char>, alias: bool)
    requires
        slots_ok(st, d),
        plain(field),
    ensures
        slots_ok(opt_or_lists(st, user, v, field, alias), d),
{
    if let Some(ls) = v {
        lemma_or_lists_ok(st, d, user, field, ls@, alias);
    }
}

/// A group of match clauses on a plain field, when given, keeps the depth.
pub proof fn lemma_opt_group_ok(st: QState, d: int, user: Option<String>, v: Option<Vec<Match>>, op: Seq<char>, field: Seq<char>)
    requires
        slots_ok(st, d),
        plain(field),
    ensures
        slots_ok(opt_group(st, user, v, op, field), d),
{
    if let Some(ms) = v {
        lemma_group_ok(st, d, op, user, field, ms@, false);
    }
}

/// A range or value clause on a plain field, when given, keeps the depth.
pub proof fn lemma_opt_rov_ok<T: Api>(st: QState, d: int, v: Option<RangeOrValue<T>>, field: Seq<char>, value_op: Seq<char>)
    requires
        slots_ok(st, d),
        plain(field),
    ensures
        slots_ok(opt_rov(st, v, field, value_op), d),
{
    if let Some(r) = v {
        lemma_rov_ok(st, d, field, r, value_op);
    }
}

/// A boolean clause on a plain field, when given, keeps the depth.
pub proof fn lemma_opt_bool_ok(st: QState, d: int, v: Option<bool>, field: Seq<char>)
    requires
        slots_ok(st, d),
        plain(field),
    ensures
        slots_ok(opt_bool(st, v, field), d),
{
    if let Some(b) = v {
        lemma_field_ok(st, d, field, "equals"@, if b { "1"@ } else { "0"@ });
    }
}

/// Bug number clauses on plain fields, when given, keep the depth.
pub proof fn lemma_opt_ids_ok(
    st: QState,
    d: int,
    v: Option<Vec<ExistsOrValues<RangeOrValue<i64>>>>,
    field: Seq<char>,
    exists_field: Seq<char>,
)
    requires
        slots_ok(st, d),
        plain(field),
        plain(exists_field),
    ensures
        slots_ok(opt_ids(st, v, field, exists_field), d),
{
    if let Some(vs) = v {
        lemma_ids_ok(st, d, field, exists_field, vs@);
    }
}

/// A number under a key that is no slot key, when given, keeps the slots.
pub proof fn lemma_opt_number_ok(st: QState, d: int, key: Seq<char>, v: Option<usize>)
    requires
        slots_ok(st, d),
        forall|c: char, n: nat| key != #[trigger] qkey(c, n),
    ensures
        slots_ok(opt_number(st, key, v), d),
{
    if let Some(n) = v {
        lemma_insert_other_ok(st, d, key, nat_digits(n as nat));
    }
}

/// The base stage keeps the depth.
pub proof fn lemma_stage_base_ok(st: QState, d: int, p: Parameters)
    requires
        slots_ok(st, d),
    ensures
        slots_ok(stage_base(st, p), d),
{
    let s1 = match p.status {
        Some(vs) => {
            lemma_open_ok(st, d, "OR"@);
            lemma_statuses_ok(sp_open(st, "OR"@), d + 1, vs@);
            lemma_close_ok(sp_statuses(sp_open(st, "OR"@), vs@), d + 1);
            sp_close(sp_statuses(sp_open(st, "OR"@), vs@))
        },
        None => {
            lemma_status_ok(st, d, "@open"@);
            sp_status(st, "@open"@)
        },
    };
    let s2 = match p.order {
        Some(os) => {
            lemma_order_ok(s1, d, os@);
            sp_order(s1, os@)
        },
        None => {
            lemma_order_ok(s1, d, seq![Order::Ascending(OrderField::Id)]);
            sp_order(s1, seq![Order::Ascending(OrderField::Id)])
        },
    };
    let s3 = match p.fields {
        Some(fs) => {
            lemma_fields_ok(s2, d, fs@);
            sp_fields(s2, fs@)
        },
        None => {
            lemma_fields_ok(s2, d, default_fields());
            sp_fields(s2, default_fields())
        },
    };
    reveal_strlit("limit");
    reveal_strlit("offset");
    lemma_not_slot_key("limit"@);
    lemma_not_slot_key("offset"@);
    lemma_opt_number_ok(s3, d, "limit"@, p.limit);
    lemma_opt_number_ok(opt_number(s3, "limit"@, p.limit), d, "offset"@, p.offset);
}

/// The stage of array field values keeps the depth.
pub proof fn lemma_stage_values_ok(st: QState, d: int, user: Option<String>, p: Parameters)
    requires
        slots_ok(st, d),
    ensures
        slots_ok(stage_values(st, user, p), d),
{
    reveal_strlit("alias");
    lemma_plain_len("alias"@);
    reveal_strlit("flagtypes.name");
    lemma_plain_len("flagtypes.name"@);
    reveal_strlit("bug_group");
    lemma_plain_len("bug_group"@);
    reveal_strlit("keywords");
    lemma_plain_len("keywords"@);
    reveal_strlit("see_also");
    lemma_plain_len("see_also"@);
    reveal_strlit("tag");
    lemma_plain_len("tag"@);
    reveal_strlit("whiteboard");
    lemma_plain_len("whiteboard"@);
    reveal_strlit("bug_file_loc");
    lemma_plain_len("bug_file_loc"@);
    let s1 = opt_eov(st, user, p.alias, "alias"@, ExistsField::Alias, false, true);
    lemma_opt_eov_ok(st, d, user, p.alias, "alias"@, ExistsField::Alias, false, true);
    match p.attachments {
        Some(ExistsOrValues::Exists(b)) => {
            lemma_exists_field_plain(ExistsField::Attachments);
            lemma_exists_ok(s1, d, ExistsField::Attachments.spec_api_name(), b);
        },
        Some(ExistsOrValues::Values(ms)) => lemma_attachments_ok(s1, d, ms@),
        None => {},
    }
    let s2 = match p.attachments {
        Some(ExistsOrValues::Exists(b)) => sp_exists(s1, ExistsField::Attachments.spec_api_name(), b),
        Some(ExistsOrValues::Values(ms)) => sp_attachments(s1, ms@),
        None => s1,
    };
    lemma_opt_eov_ok(s2, d, user, p.flags, "flagtypes.name"@, ExistsField::Flags, false, false);
    let s3 = opt_eov(s2, user, p.flags, "flagtypes.name"@, ExistsField::Flags, false, false);
    lemma_opt_eov_ok(s3, d, user, p.groups, "bug_group"@, ExistsField::Groups, false, false);
    let s4 = opt_eov(s3, user, p.groups, "bug_group"@, ExistsField::Groups, false, false);
    lemma_opt_eov_ok(s4, d, user, p.keywords, "keywords"@, ExistsField::Keywords, false, false);
    let s5 = opt_eov(s4, user, p.keywords, "keywords"@, ExistsField::Keywords, false, false);
    lemma_opt_eov_ok(s5, d, user, p.see_also, "see_also"@, ExistsField::SeeAlso, false, false);
    let s6 = opt_eov(s5, user, p.see_also, "see_also"@, ExistsField::SeeAlso, false, false);
    lemma_opt_eov_ok(s6, d, user, p.tags, "tag"@, ExistsField::Tags, false, false);
    let s7 = opt_eov(s6, user, p.tags, "tag"@, ExistsField::Tags, false, false);
    lemma_opt_eov_ok(s7, d, user, p.whiteboard, "whiteboard"@, ExistsField::Whiteboard, false, false);
    let s8 = opt_eov(s7, user, p.whiteboard, "whiteboard"@, ExistsField::Whiteboard, false, false);
    lemma_opt_eov_ok(s8, d, user, p.url, "bug_file_loc"@, ExistsField::Url, false, false);
}

/// The stage of change clauses keeps the depth.
pub proof fn lemma_stage_changes_ok(st: QState, d: int, user: Option<String>, p: Parameters)
    requires
        slots_ok(st, d),
    ensures
        slots_ok(stage_changes(st, user, p), d),
{
    let s1 = match p.changed {
        Some(v) => {
            lemma_changed_ok(st, d, v@);
            sp_changed(st, v@)
        },
        None => st,
    };
    let s2 = match p.changed_by {
        Some(v) => {
            lemma_changed_by_ok(s1, d, user, v@);
            sp_changed_by(s1, user, v@)
        },
        None => s1,
    };
    let s3 = match p.changed_from {
        Some(v) => {
            lemma_changed_pairs_ok(s2, d, v@, "changedfrom"@);
            sp_changed_pairs(s2, v@, "changedfrom"@)
        },
        None => s2,
    };
    if let Some(v) = p.changed_to {
        lemma_changed_pairs_ok(s3, d, v@, "changedto"@);
    }
}

/// The stage of people clauses keeps the depth.
pub proof fn lemma_stage_people_ok(st: QState, d: int, user: Option<String>, p: Parameters)
    requires
        slots_ok(st, d),
    ensures
        slots_ok(stage_people(st, user, p), d),
{
    reveal_strlit("longdescs.count");
    lemma_plain_len("longdescs.count"@);
    reveal_strlit("votes");
    lemma_plain_len("votes"@);
    reveal_strlit("assigned_to");
    lemma_plain_len("assigned_to"@);
    reveal_strlit("attachments.submitter");
    lemma_plain_len("attachments.submitter"@);
    reveal_strlit("commenter");
    lemma_plain_len("commenter"@);
    reveal_strlit("setters.login_name");
    lemma_plain_len("setters.login_name"@);
    reveal_strlit("qa_contact");
    lemma_plain_len("qa_contact"@);
    reveal_strlit("reporter");
    lemma_plain_len("reporter"@);
    reveal_strlit("cc");
    reveal_strlit("OP");
    reveal_strlit("CP");
    assert(plain("cc"@)) by {
        assert("cc"@[0] != "OP"@[0] && "cc"@[0] != "CP"@[0]);
    }
    lemma_opt_rov_ok(st, d, p.comments, "longdescs.count"@, "equals"@);
    let s1 = opt_rov(st, p.comments, "longdescs.count"@, "equals"@);
    lemma_opt_rov_ok(s1, d, p.votes, "votes"@, "equals"@);
    let s2 = opt_rov(s1, p.votes, "votes"@, "equals"@);
    lemma_opt_or_lists_ok(s2, d, user, p.assignee, "assigned_to"@, true);
    let s3 = opt_or_lists(s2, user, p.assignee, "assigned_to"@, true);
    lemma_opt_or_lists_ok(s3, d, user, p.attacher, "attachments.submitter"@, true);
    let s4 = opt_or_lists(s3, user, p.attacher, "attachments.submitter"@, true);
    lemma_opt_eov_ok(s4, d, user, p.cc, "cc"@, ExistsField::Cc, true, false);
    let s5 = opt_eov(s4, user, p.cc, "cc"@, ExistsField::Cc, true, false);
    lemma_opt_or_lists_ok(s5, d, user, p.commenter, "commenter"@, true);
    let s6 = opt_or_lists(s5, user, p.commenter, "commenter"@, true);
    lemma_opt_or_lists_ok(s6, d, user, p.flagger, "setters.login_name"@, true);
    let s7 = opt_or_lists(s6, user, p.flagger, "setters.login_name"@, true);
    lemma_opt_eov_ok(s7, d, user, p.qa, "qa_contact"@, ExistsField::Qa, false, false);
    let s8 = opt_eov(s7, user, p.qa, "qa_contact"@, ExistsField::Qa, false, false);
    lemma_opt_or_lists_ok(s8, d, user, p.reporter, "reporter"@, true);
}

/// The stage of text and bug number clauses keeps the depth.
pub proof fn lemma_stage_text_ok(st: QState, d: int, user: Option<String>, p: Parameters)
    requires
        slots_ok(st, d),
    ensures
        slots_ok(stage_text(st, user, p), d),
{
    reveal_strlit("longdesc");
    lemma_plain_len("longdesc"@);
    reveal_strlit("longdescs.isprivate");
    lemma_plain_len("longdescs.isprivate"@);
    reveal_strlit("comment_tag");
    lemma_plain_len("comment_tag"@);
    reveal_strlit("short_desc");
    lemma_plain_len("short_desc"@);
    reveal_strlit("blocked");
    lemma_plain_len("blocked"@);
    reveal_strlit("dependson");
    lemma_plain_len("dependson"@);
    reveal_strlit("bug_id");
    lemma_plain_len("bug_id"@);
    lemma_exists_field_plain(ExistsField::Blocks);
    lemma_exists_field_plain(ExistsField::Depends);
    lemma_opt_group_ok(st, d, user, p.comment, "AND"@, "longdesc"@);
    let s1 = opt_group(st, user, p.comment, "AND"@, "longdesc"@);
    lemma_opt_bool_ok(s1, d, p.comment_is_private, "longdescs.isprivate"@);
    let s2 = opt_bool(s1, p.comment_is_private, "longdescs.isprivate"@);
    lemma_opt_or_lists_ok(s2, d, user, p.comment_tag, "comment_tag"@, false);
    let s3 = opt_or_lists(s2, user, p.comment_tag, "comment_tag"@, false);
    lemma_opt_group_ok(s3, d, user, p.summary, "AND"@, "short_desc"@);
    let s4 = opt_group(s3, user, p.summary, "AND"@, "short_desc"@);
    lemma_opt_ids_ok(s4, d, p.blocks, "blocked"@, ExistsField::Blocks.spec_api_name());
    let s5 = opt_ids(s4, p.blocks, "blocked"@, ExistsField::Blocks.spec_api_name());
    lemma_opt_ids_ok(s5, d, p.depends, "dependson"@, ExistsField::Depends.spec_api_name());
    let s6 = opt_ids(s5, p.depends, "dependson"@, ExistsField::Depends.spec_api_name());
    lemma_opt_ids_ok(s6, d, p.ids, "bug_id"@, "bug_id"@);
}

/// The stage of value-list clauses keeps the depth.
pub proof fn lemma_stage_matches_ok(st: QState, d: int, user: Option<String>, p: Parameters)
    requires
        slots_ok(st, d),
    ensures
        slots_ok(stage_matches(st, user, p), d),
{
    reveal_strlit("priority");
    lemma_plain_len("priority"@);
    reveal_strlit("bug_severity");
    lemma_plain_len("bug_severity"@);
    reveal_strlit("version");
    lemma_plain_len("version"@);
    reveal_strlit("component");
    lemma_plain_len("component"@);
    reveal_strlit("product");
    lemma_plain_len("product"@);
    reveal_strlit("platform");
    lemma_plain_len("platform"@);
    reveal_strlit("op_sys");
    lemma_plain_len("op_sys"@);
    reveal_strlit("resolution");
    lemma_plain_len("resolution"@);
    reveal_strlit("target_milestone");
    lemma_plain_len("target_milestone"@);
    lemma_opt_group_ok(st, d, user, p.priority, "OR"@, "priority"@);
    let s1 = opt_group(st, user, p.priority, "OR"@, "priority"@);
    lemma_opt_group_ok(s1, d, user, p.severity, "OR"@, "bug_severity"@);
    let s2 = opt_group(s1, user, p.severity, "OR"@, "bug_severity"@);
    lemma_opt_group_ok(s2, d, user, p.version, "OR"@, "version"@);
    let s3 = opt_group(s2, user, p.version, "OR"@, "version"@);
    lemma_opt_group_ok(s3, d, user, p.component, "OR"@, "component"@);
    let s4 = opt_group(s3, user, p.component, "OR"@, "component"@);
    lemma_opt_group_ok(s4, d, user, p.product, "OR"@, "product"@);
    let s5 = opt_group(s4, user, p.product, "OR"@, "product"@);
    lemma_opt_group_ok(s5, d, user, p.platform, "OR"@, "platform"@);
    let s6 = opt_group(s5, user, p.platform, "OR"@, "platform"@);
    lemma_opt_group_ok(s6, d, user, p.os, "OR"@, "op_sys"@);
    let s7 = opt_group(s6, user, p.os, "OR"@, "op_sys"@);
    lemma_opt_group_ok(s7, d, user, p.resolution, "OR"@, "resolution"@);
    let s8 = opt_group(s7, user, p.resolution, "OR"@, "resolution"@);
    lemma_opt_group_ok(s8, d, user, p.target, "OR"@, "target_milestone"@);
}

/// Whether every custom field of the parameters has a plain name.
pub open spec fn custom_names_plain(p: Parameters) -> bool {
    p.custom_fields matches Some(items) ==> forall|i: int| 0 <= i < items@.len() ==> plain((#[trigger] items@[i]).0@)
}

/// The stage of time, quick search and custom field clauses keeps the depth.
pub proof fn lemma_stage_times_ok(st: QState, d: int, user: Option<String>, p: Parameters)
    requires
        slots_ok(st, d),
        custom_names_plain(p),
    ensures
        slots_ok(stage_times(st, user, p), d),
{
    reveal_strlit("creation_ts");
    lemma_plain_len("creation_ts"@);
    reveal_strlit("delta_ts");
    lemma_plain_len("delta_ts"@);
    lemma_opt_rov_ok(st, d, p.created, "creation_ts"@, "greaterthaneq"@);
    let s1 = opt_rov(st, p.created, "creation_ts"@, "greaterthaneq"@);
    lemma_opt_rov_ok(s1, d, p.updated, "delta_ts"@, "greaterthaneq"@);
    let s2 = opt_rov(s1, p.updated, "delta_ts"@, "greaterthaneq"@);
    let s3 = match p.closed {
        Some(t) => {
            lemma_closed_ok(s2, d, t);
            sp_closed(s2, t)
        },
        None => s2,
    };
    reveal_strlit("quicksearch");
    lemma_not_slot_key("quicksearch"@);
    let s4 = match p.quicksearch {
        Some(q) => {
            lemma_insert_other_ok(s3, d, "quicksearch"@, q@);
            (sp_insert(s3.0, "quicksearch"@, q@), s3.1)
        },
        None => s3,
    };
    if let Some(items) = p.custom_fields {
        lemma_open_ok(s4, d, "OR"@);
        lemma_custom_items_ok(sp_open(s4, "OR"@), d + 1, user, items@);
        lemma_close_ok(sp_custom_items(sp_open(s4, "OR"@), user, items@), d + 1);
    }
}

/// The stage of attachment clauses keeps the depth.
pub proof fn lemma_stage_attach_ok(st: QState, d: int, user: Option<String>, p: Parameters)
    requires
        slots_ok(st, d),
    ensures
        slots_ok(stage_attach(st, user, p), d),
{
    reveal_strlit("attachments.description");
    lemma_plain_len("attachments.description"@);
    reveal_strlit("attachments.filename");
    lemma_plain_len("attachments.filename"@);
    reveal_strlit("attachments.mimetype");
    lemma_plain_len("attachments.mimetype"@);
    reveal_strlit("attachments.isobsolete");
    lemma_plain_len("attachments.isobsolete"@);
    reveal_strlit("attachments.ispatch");
    lemma_plain_len("attachments.ispatch"@);
    reveal_strlit("attachments.isprivate");
    lemma_plain_len("attachments.isprivate"@);
    lemma_opt_or_lists_ok(st, d, user, p.attachment_description, "attachments.description"@, false);
    let s1 = opt_or_lists(st, user, p.attachment_description, "attachments.description"@, false);
    lemma_opt_or_lists_ok(s1, d, user, p.attachment_filename, "attachments.filename"@, false);
    let s2 = opt_or_lists(s1, user, p.attachment_filename, "attachments.filename"@, false);
    lemma_opt_or_lists_ok(s2, d, user, p.attachment_mime, "attachments.mimetype"@, false);
    let s3 = opt_or_lists(s2, user, p.attachment_mime, "attachments.mimetype"@, false);
    lemma_opt_bool_ok(s3, d, p.attachment_is_obsolete, "attachments.isobsolete"@);
    let s4 = opt_bool(s3, p.attachment_is_obsolete, "attachments.isobsolete"@);
    lemma_opt_bool_ok(s4, d, p.attachment_is_patch, "attachments.ispatch"@);
    let s5 = opt_bool(s4, p.attachment_is_patch, "attachments.ispatch"@);
    lemma_opt_bool_ok(s5, d, p.attachment_is_private, "attachments.isprivate"@);
}

/// The advanced clause slots of an encoded search: no key occurs twice; for `N` slots,
/// each slot `1..=N` has
/// its `f` key and no `f`, `o`, `v`, `j` or `n` key is numbered outside `1..=N`; a slot has
/// a join exactly when it opens a group; a negation is `1` and stands on a slot that
/// neither opens nor closes a group; and read in slot order, the group openings and
/// closings are balanced, no prefix closing more groups than it opened. This holds when
/// no custom field is named like a group marker.
pub proof fn lemma_encode_slots(user: Option<String>, p: Parameters)
    requires
        custom_names_plain(p),
    ensures
        slots_ok(spec_encode(user, p), 0),
{
    lemma_empty_ok();
    let s0: QState = (Seq::empty(), 0nat);
    lemma_stage_base_ok(s0, 0, p);
    let s1 = stage_base(s0, p);
    lemma_stage_values_ok(s1, 0, user, p);
    let s2 = stage_values(s1, user, p);
    lemma_stage_changes_ok(s2, 0, user, p);
    let s3 = stage_changes(s2, user, p);
    lemma_stage_people_ok(s3, 0, user, p);
    let s4 = stage_people(s3, user, p);
    lemma_stage_text_ok(s4, 0, user, p);
    let s5 = stage_text(s4, user, p);
    lemma_stage_matches_ok(s5, 0, user, p);
    let s6 = stage_matches(s5, user, p);
    lemma_stage_times_ok(s6, 0, user, p);
    let s7 = stage_times(s6, user, p);
    lemma_stage_attach_ok(s7, 0, user, p);
}


/// Whether `r` keeps the field, operator and value of every slot of `st` and has at least
/// as many slots.
pub open spec fn frames(st: QState, r: QState) -> bool {
    &&& st.1 <= r.1
    &&& forall|c: char, k: nat|
        (c == 'f' || c == 'o' || c == 'v') && 1 <= k <= st.1 ==> #[trigger] lookup(r.0, qkey(c, k)) == lookup(
            st.0,
            qkey(c, k),
        )
}

/// A clause takes the next slot, with its field, operator and value, and leaves earlier
/// slots as they are.
pub proof fn lemma_field_frames(st: QState, field: Seq<char>, op: Seq<char>, value: Seq<char>)
    ensures
        frames(st, sp_field(st, field, op, value)),
        lookup(sp_field(st, field, op, value).0, qkey('f', st.1 + 1)) == Some(field),
        lookup(sp_field(st, field, op, value).0, qkey('o', st.1 + 1)) == Some(op),
        lookup(sp_field(st, field, op, value).0, qkey('v', st.1 + 1)) == Some(value),
{
    let n = st.1 + 1;
    let q1 = sp_insert(st.0, qkey('f', n), field);
    let q2 = sp_insert(q1, qkey('o', n), op);
    lemma_insert_slot(st.0, 'f', n, field);
    lemma_insert_slot(q1, 'o', n, op);
    lemma_insert_slot(q2, 'v', n, value);
}

/// An existence clause takes the next slot and leaves earlier slots as they are.
pub proof fn lemma_exists_frames(st: QState, field: Seq<char>, status: bool)
    ensures
        frames(st, sp_exists(st, field, status)),
{
    let n = st.1 + 1;
    let op = if status { "isnotempty"@ } else { "isempty"@ };
    let q1 = sp_insert(st.0, qkey('f', n), field);
    lemma_insert_slot(st.0, 'f', n, field);
    lemma_insert_slot(q1, 'o', n, op);
}

/// Opening a group takes the next slot, with the group marker as its field, and leaves
/// earlier slots as they are.
pub proof fn lemma_open_frames(st: QState, op: Seq<char>)
    ensures
        frames(st, sp_open(st, op)),
        lookup(sp_open(st, op).0, qkey('f', st.1 + 1)) == Some("OP"@),
{
    let n = st.1 + 1;
    let q1 = sp_insert(st.0, qkey('f', n), "OP"@);
    lemma_insert_slot(st.0, 'f', n, "OP"@);
    lemma_insert_slot(q1, 'j', n, op);
}

/// Closing a group takes the next slot and leaves earlier slots as they are.
pub proof fn lemma_close_frames(st: QState)
    ensures
        frames(st, sp_close(st)),
{
    lemma_insert_slot(st.0, 'f', st.1 + 1, "CP"@);
}

/// Negating the last clause leaves the fields, operators and values of all slots as they
/// are.
pub proof fn lemma_negate_frames(st: QState, field: Seq<char>, status: bool)
    ensures
        frames(st, sp_negate(st, status)),
{
    if status {
        lemma_insert_slot(st.0, 'n', st.1, "1"@);
    }
}

/// Setting a key that is no slot key leaves every slot as it is.
pub proof fn lemma_insert_other_frames(st: QState, key: Seq<char>, v: Seq<char>)
    requires
        forall|c: char, n: nat| key != #[trigger] qkey(c, n),
    ensures
        frames(st, (sp_insert(st.0, key, v), st.1)),
{
    assert forall|c: char, k: nat| #[trigger] lookup(sp_insert(st.0, key, v), qkey(c, k)) == lookup(st.0, qkey(c, k)) by {
        lemma_lookup_insert(st.0, key, v, qkey(c, k));
    }
}

/// Match clauses on a field leave earlier slots as they are.
pub proof fn lemma_matches_frames(st: QState, user: Option<String>, field: Seq<char>, ms: Seq<Match>, alias: bool)
    ensures
        frames(st, sp_matches(st, user, field, ms, alias)),
    decreases ms.len(),
{
    if ms.len() > 0 {
        lemma_matches_frames(st, user, field, ms.drop_last(), alias);
        let prev = sp_matches(st, user, field, ms.drop_last(), alias);
        let m = ms.last();
        lemma_field_frames(prev, field, m.spec_op().spec_api_name(), super::builder::match_value(user, m, alias));
    }
}

/// A group of match clauses leaves earlier slots as they are.
pub proof fn lemma_group_frames(st: QState, op: Seq<char>, user: Option<String>, field: Seq<char>, ms: Seq<Match>, alias: bool)
    ensures
        frames(st, sp_group(st, op, user, field, ms, alias)),
{
    lemma_open_frames(st, op);
    lemma_matches_frames(sp_open(st, op), user, field, ms, alias);
    lemma_close_frames(sp_matches(sp_open(st, op), user, field, ms, alias));
}

/// `AND` groups of match clauses leave earlier slots as they are.
pub proof fn lemma_and_lists_frames(st: QState, user: Option<String>, field: Seq<char>, ls: Seq<Vec<Match>>, alias: bool)
    ensures
        frames(st, sp_and_lists(st, user, field, ls, alias)),
    decreases ls.len(),
{
    if ls.len() > 0 {
        lemma_and_lists_frames(st, user, field, ls.drop_last(), alias);
        lemma_group_frames(sp_and_lists(st, user, field, ls.drop_last(), alias), "AND"@, user, field, ls.last()@, alias);
    }
}

/// An `OR` group of `AND` groups leaves earlier slots as they are.
pub proof fn lemma_or_lists_frames(st: QState, user: Option<String>, field: Seq<char>, ls: Seq<Vec<Match>>, alias: bool)
    ensures
        frames(st, sp_or_lists(st, user, field, ls, alias)),
{
    lemma_open_frames(st, "OR"@);
    lemma_and_lists_frames(sp_open(st, "OR"@), user, field, ls, alias);
    lemma_close_frames(sp_and_lists(sp_open(st, "OR"@), user, field, ls, alias));
}

/// Existence and value clauses leave earlier slots as they are.
pub proof fn lemma_eov_items_frames(
    st: QState,
    user: Option<String>,
    field: Seq<char>,
    exists_field: Seq<char>,
    vs: Seq<ExistsOrValues<Match>>,
    alias: bool,
    inverted: bool,
)
    ensures
        frames(st, sp_eov_items(st, user, field, exists_field, vs, alias, inverted)),
    decreases vs.len(),
{
    if vs.len() > 0 {
        lemma_eov_items_frames(st, user, field, exists_field, vs.drop_last(), alias, inverted);
        let prev = sp_eov_items(st, user, field, exists_field, vs.drop_last(), alias, inverted);
        match vs.last() {
            ExistsOrValues::Exists(b) => {
                if inverted {
                    lemma_exists_frames(prev, exists_field, true);
                    lemma_negate_frames(sp_exists(prev, exists_field, true), exists_field, !b);
                } else {
                    lemma_exists_frames(prev, exists_field, b);
                }
            },
            ExistsOrValues::Values(ms) => {
                lemma_group_frames(prev, "AND"@, user, field, ms@, alias);
            },
        }
    }
}

/// An `OR` group of existence and value clauses leaves earlier slots as they are.
pub proof fn lemma_eov_frames(
    st: QState,
    user: Option<String>,
    field: Seq<char>,
    exists_field: Seq<char>,
    vs: Seq<ExistsOrValues<Match>>,
    alias: bool,
    inverted: bool,
)
    ensures
        frames(st, sp_eov(st, user, field, exists_field, vs, alias, inverted)),
{
    lemma_open_frames(st, "OR"@);
    lemma_eov_items_frames(sp_open(st, "OR"@), user, field, exists_field, vs, alias, inverted);
    lemma_close_frames(sp_eov_items(sp_open(st, "OR"@), user, field, exists_field, vs, alias, inverted));
}

/// A range clause leaves earlier slots as they are.
pub proof fn lemma_range_frames<T: Api>(st: QState, field: Seq<char>, r: Range<T>)
    ensures
        frames(st, sp_range(st, field, r)),
{
    match r {
        Range::Range(a, b) => {
            lemma_open_frames(st, "AND"@);
            let s1 = sp_open(st, "AND"@);
            lemma_field_frames(s1, field, "greaterthaneq"@, a.spec_api());
            let s2 = sp_field(s1, field, "greaterthaneq"@, a.spec_api());
            lemma_field_frames(s2, field, "lessthan"@, b.spec_api());
            lemma_close_frames(sp_field(s2, field, "lessthan"@, b.spec_api()));
        },
        Range::Inclusive(a, b) => {
            lemma_open_frames(st, "AND"@);
            let s1 = sp_open(st, "AND"@);
            lemma_field_frames(s1, field, "greaterthaneq"@, a.spec_api());
            let s2 = sp_field(s1, field, "greaterthaneq"@, a.spec_api());
            lemma_field_frames(s2, field, "lessthaneq"@, b.spec_api());
            lemma_close_frames(sp_field(s2, field, "lessthaneq"@, b.spec_api()));
        },
        Range::To(b) => lemma_field_frames(st, field, "lessthan"@, b.spec_api()),
        Range::ToInclusive(b) => lemma_field_frames(st, field, "lessthaneq"@, b.spec_api()),
        Range::From(a) => lemma_field_frames(st, field, "greaterthaneq"@, a.spec_api()),
        Range::Full => {},
    }
}

/// A range or value clause leaves earlier slots as they are.
pub proof fn lemma_rov_frames<T: Api>(st: QState, field: Seq<char>, r: RangeOrValue<T>, value_op: Seq<char>)
    ensures
        frames(st, sp_rov(st, field, r, value_op)),
{
    match r {
        RangeOrValue::Value(v) => lemma_field_frames(st, field, value_op, v.spec_api()),
        RangeOrValue::RangeOp(op) => lemma_field_frames(
            st,
            field,
            super::builder::range_op_api(op),
            super::builder::range_op_value(op).spec_api(),
        ),
        RangeOrValue::Range(x) => lemma_range_frames(st, field, x),
    }
}

/// A signed number clause leaves earlier slots as they are.
pub proof fn lemma_signed_frames(st: QState, field: Seq<char>, r: RangeOrValue<i64>)
    ensures
        frames(st, sp_signed(st, field, r)),
{
    match r {
        RangeOrValue::Value(v) => {
            if v >= 0 {
                lemma_field_frames(st, field, "equals"@, crate::text::int_digits(v as int));
            } else {
                lemma_field_frames(st, field, "notequals"@, crate::text::int_digits(-v));
            }
        },
        RangeOrValue::RangeOp(op) => lemma_field_frames(
            st,
            field,
            super::builder::range_op_api(op),
            super::builder::range_op_value(op).spec_api(),
        ),
        RangeOrValue::Range(x) => lemma_range_frames(st, field, x),
    }
}

/// Signed number clauses leave earlier slots as they are.
pub proof fn lemma_signed_list_frames(st: QState, field: Seq<char>, rs: Seq<RangeOrValue<i64>>)
    ensures
        frames(st, sp_signed_list(st, field, rs)),
    decreases rs.len(),
{
    if rs.len() > 0 {
        lemma_signed_list_frames(st, field, rs.drop_last());
        lemma_signed_frames(sp_signed_list(st, field, rs.drop_last()), field, rs.last());
    }
}

/// Bug number clauses leave earlier slots as they are.
pub proof fn lemma_id_items_frames(
    st: QState,
    field: Seq<char>,
    exists_field: Seq<char>,
    vs: Seq<ExistsOrValues<RangeOrValue<i64>>>,
)
    ensures
        frames(st, sp_id_items(st, field, exists_field, vs)),
    decreases vs.len(),
{
    if vs.len() > 0 {
        lemma_id_items_frames(st, field, exists_field, vs.drop_last());
        let prev = sp_id_items(st, field, exists_field, vs.drop_last());
        match vs.last() {
            ExistsOrValues::Exists(b) => lemma_exists_frames(prev, exists_field, b),
            ExistsOrValues::Values(rs) => {
                lemma_open_frames(prev, "AND"@);
                lemma_signed_list_frames(sp_open(prev, "AND"@), field, rs@);
                lemma_close_frames(sp_signed_list(sp_open(prev, "AND"@), field, rs@));
            },
        }
    }
}

/// An `OR` group of bug number clauses leaves earlier slots as they are.
pub proof fn lemma_ids_frames(
    st: QState,
    field: Seq<char>,
    exists_field: Seq<char>,
    vs: Seq<ExistsOrValues<RangeOrValue<i64>>>,
)
    ensures
        frames(st, sp_ids(st, field, exists_field, vs)),
{
    lemma_open_frames(st, "OR"@);
    lemma_id_items_frames(sp_open(st, "OR"@), field, exists_field, vs);
    lemma_close_frames(sp_id_items(sp_open(st, "OR"@), field, exists_field, vs));
}

/// Clauses on custom fields leave earlier slots as they are.
pub proof fn lemma_custom_items_frames(st: QState, user: Option<String>, items: Seq<(String, ExistsOrValues<Match>)>)
    ensures
        frames(st, sp_custom_items(st, user, items)),
    decreases items.len(),
{
    if items.len() > 0 {
        lemma_custom_items_frames(st, user, items.drop_last());
        let prev = sp_custom_items(st, user, items.drop_last());
        let (name, v) = items.last();
        match v {
            ExistsOrValues::Exists(b) => lemma_exists_frames(prev, name@, b),
            ExistsOrValues::Values(ms) => lemma_group_frames(prev, "AND"@, user, name@, ms@, false),
        }
    }
}

/// A status clause leaves earlier slots as they are.
pub proof fn lemma_status_frames(st: QState, v: Seq<char>)
    ensures
        frames(st, sp_status(st, v)),
{
    reveal_strlit("bug_status");
    lemma_not_slot_key("bug_status"@);
    if v == "@open"@ {
        lemma_insert_other_frames(st, "bug_status"@, "__open__"@);
    } else if v == "@closed"@ {
        lemma_insert_other_frames(st, "bug_status"@, "__closed__"@);
    } else if v == "@all"@ {
        lemma_insert_other_frames(st, "bug_status"@, "__all__"@);
    } else if v.len() > 0 && v[0] == '!' {
        lemma_field_frames(st, "bug_status"@, "notequals"@, v.subrange(1, v.len() as int));
    } else {
        lemma_field_frames(st, "bug_status"@, "equals"@, v);
    }
}

/// Status clauses leave earlier slots as they are.
pub proof fn lemma_statuses_frames(st: QState, vs: Seq<String>)
    ensures
        frames(st, sp_statuses(st, vs)),
    decreases vs.len(),
{
    if vs.len() > 0 {
        lemma_statuses_frames(st, vs.drop_last());
        lemma_status_frames(sp_statuses(st, vs.drop_last()), vs.last()@);
    }
}

/// The sort order leaves earlier slots as they are.
pub proof fn lemma_order_frames(st: QState, os: Seq<Order<OrderField>>)
    ensures
        frames(st, sp_order(st, os)),
{
    reveal_strlit("order");
    lemma_not_slot_key("order"@);
    lemma_insert_other_frames(st, "order"@, sp_order(st, os).0.last().1);
    assert(sp_order(st, os).0 == sp_insert(st.0, "order"@, sp_order(st, os).0.last().1));
}

/// The requested fields leave earlier slots as they are.
pub proof fn lemma_fields_frames(st: QState, fs: Seq<FilterField>)
    ensures
        frames(st, sp_fields(st, fs)),
{
    reveal_strlit("include_fields");
    lemma_not_slot_key("include_fields"@);
    lemma_insert_other_frames(st, "include_fields"@, sp_fields(st, fs).0.last().1);
    assert(sp_fields(st, fs).0 == sp_insert(st.0, "include_fields"@, sp_fields(st, fs).0.last().1));
}

/// Attachment text clauses leave earlier slots as they are.
pub proof fn lemma_attachment_items_frames(st: QState, ms: Seq<Match>)
    ensures
        frames(st, sp_attachment_items(st, ms)),
    decreases ms.len(),
{
    if ms.len() > 0 {
        lemma_attachment_items_frames(st, ms.drop_last());
        let prev = sp_attachment_items(st, ms.drop_last());
        let m = ms.last();
        let op = m.spec_op().spec_api_name();
        lemma_field_frames(prev, "attachments.description"@, op, m.value@);
        lemma_field_frames(sp_field(prev, "attachments.description"@, op, m.value@), "attachments.filename"@, op, m.value@);
    }
}

/// An `OR` group of attachment text clauses leaves earlier slots as they are.
pub proof fn lemma_attachments_frames(st: QState, ms: Seq<Match>)
    ensures
        frames(st, sp_attachments(st, ms)),
{
    lemma_open_frames(st, "OR"@);
    lemma_attachment_items_frames(sp_open(st, "OR"@), ms);
    lemma_close_frames(sp_attachment_items(sp_open(st, "OR"@), ms));
}

/// A change time clause leaves earlier slots as they are.
pub proof fn lemma_change_target_frames(st: QState, api: Seq<char>, status: bool, t: RangeOrValue<TimeDeltaOrStatic>)
    ensures
        frames(st, sp_change_target(st, api, status, t)),
{
    let after = "changedafter"@;
    let before = "changedbefore"@;
    match t {
        RangeOrValue::Value(v) => {
            lemma_field_frames(st, api, after, v.spec_value());
            lemma_negate_frames(sp_field(st, api, after, v.spec_value()), api, status);
        },
        RangeOrValue::RangeOp(op) => match op {
            RangeOp::Less(v) => {
                lemma_field_frames(st, api, before, v.spec_value());
                lemma_negate_frames(sp_field(st, api, before, v.spec_value()), api, status);
            },
            RangeOp::LessOrEqual(v) => {
                lemma_field_frames(st, api, before, v.spec_value());
                lemma_negate_frames(sp_field(st, api, before, v.spec_value()), api, status);
            },
            RangeOp::Equal(_) => {},
            RangeOp::NotEqual(_) => {},
            RangeOp::GreaterOrEqual(v) => {
                lemma_field_frames(st, api, after, v.spec_value());
                lemma_negate_frames(sp_field(st, api, after, v.spec_value()), api, status);
            },
            RangeOp::Greater(v) => {
                lemma_field_frames(st, api, after, v.spec_value());
                lemma_negate_frames(sp_field(st, api, after, v.spec_value()), api, status);
            },
        },
        RangeOrValue::Range(r) => match r {
            Range::Range(a, b) => {
                lemma_field_frames(st, api, after, a.spec_value());
                let s1 = sp_field(st, api, after, a.spec_value());
                lemma_field_frames(s1, api, before, b.spec_value());
                lemma_negate_frames(sp_field(s1, api, before, b.spec_value()), api, status);
            },
            Range::Inclusive(a, b) => {
                lemma_field_frames(st, api, after, a.spec_value());
                let s1 = sp_field(st, api, after, a.spec_value());
                lemma_field_frames(s1, api, before, b.spec_value());
                lemma_negate_frames(sp_field(s1, api, before, b.spec_value()), api, status);
            },
            Range::To(b) => {
                lemma_field_frames(st, api, before, b.spec_value());
                lemma_negate_frames(sp_field(st, api, before, b.spec_value()), api, status);
            },
            Range::ToInclusive(b) => {
                lemma_field_frames(st, api, before, b.spec_value());
                lemma_negate_frames(sp_field(st, api, before, b.spec_value()), api, status);
            },
            Range::From(a) => {
                lemma_field_frames(st, api, after, a.spec_value());
                lemma_negate_frames(sp_field(st, api, after, a.spec_value()), api, status);
            },
            Range::Full => {
                lemma_field_frames(st, api, before, "now"@);
                lemma_negate_frames(sp_field(st, api, before, "now"@), api, status);
            },
        },
    }
}

/// A closed-time clause leaves earlier slots as they are.
pub proof fn lemma_closed_frames(st: QState, t: RangeOrValue<TimeDeltaOrStatic>)
    ensures
        frames(st, sp_closed(st, t)),
{
    reveal_strlit("bug_status");
    lemma_change_target_frames(st, StaticChangeField::Status.spec_api_name(), false, t);
    lemma_status_frames(sp_change_target(st, StaticChangeField::Status.spec_api_name(), false, t), "@closed"@);
}

/// Change time clauses on fields leave earlier slots as they are.
pub proof fn lemma_changed_fields_frames(st: QState, fs: Seq<String>, t: RangeOrValue<TimeDeltaOrStatic>)
    ensures
        frames(st, sp_changed_fields(st, fs, t)),
    decreases fs.len(),
{
    if fs.len() > 0 {
        lemma_changed_fields_frames(st, fs.drop_last(), t);
        let prev = sp_changed_fields(st, fs.drop_last(), t);
        let (status, name) = invert_split(fs.last()@);
        if let Some(api) = change_field_api(name) {
            lemma_change_target_frames(prev, api, status, t);
        }
    }
}

/// Change time clauses leave earlier slots as they are.
pub proof fn lemma_changed_frames(st: QState, values: Seq<(Vec<String>, RangeOrValue<TimeDeltaOrStatic>)>)
    ensures
        frames(st, sp_changed(st, values)),
    decreases values.len(),
{
    if values.len() > 0 {
        lemma_changed_frames(st, values.drop_last());
        lemma_changed_fields_frames(sp_changed(st, values.drop_last()), values.last().0@, values.last().1);
    }
}

/// Changed-by clauses on a field leave earlier slots as they are.
pub proof fn lemma_users_frames(st: QState, user: Option<String>, api: Seq<char>, users: Seq<String>)
    ensures
        frames(st, sp_users(st, user, api, users)),
    decreases users.len(),
{
    if users.len() > 0 {
        lemma_users_frames(st, user, api, users.drop_last());
        lemma_field_frames(
            sp_users(st, user, api, users.drop_last()),
            api,
            "changedby"@,
            crate::service::bugzilla::spec_user_alias(user, users.last()@),
        );
    }
}

/// Changed-by clauses on fields leave earlier slots as they are.
pub proof fn lemma_changed_by_fields_frames(st: QState, user: Option<String>, fs: Seq<String>, users: Seq<String>)
    ensures
        frames(st, sp_changed_by_fields(st, user, fs, users)),
    decreases fs.len(),
{
    if fs.len() > 0 {
        lemma_changed_by_fields_frames(st, user, fs.drop_last(), users);
        if let Some(api) = change_field_api(fs.last()@) {
            lemma_users_frames(sp_changed_by_fields(st, user, fs.drop_last(), users), user, api, users);
        }
    }
}

/// Changed-by clauses leave earlier slots as they are.
pub proof fn lemma_changed_by_frames(st: QState, user: Option<String>, values: Seq<(Vec<String>, Vec<String>)>)
    ensures
        frames(st, sp_changed_by(st, user, values)),
    decreases values.len(),
{
    if values.len() > 0 {
        lemma_changed_by_frames(st, user, values.drop_last());
        lemma_changed_by_fields_frames(sp_changed_by(st, user, values.drop_last()), user, values.last().0@, values.last().1@);
    }
}

/// Changed-from and changed-to clauses leave earlier slots as they are.
pub proof fn lemma_changed_pairs_frames(st: QState, values: Seq<(String, String)>, op: Seq<char>)
    ensures
        frames(st, sp_changed_pairs(st, values, op)),
    decreases values.len(),
{
    if values.len() > 0 {
        lemma_changed_pairs_frames(st, values.drop_last(), op);
        if let Some(api) = change_field_api(values.last().0@) {
            lemma_field_frames(sp_changed_pairs(st, values.drop_last(), op), api, op, values.last().1@);
        }
    }
}


/// Existence and value clauses on a field, when given, leave earlier slots as they are.
pub proof fn lemma_opt_eov_frames(
    st: QState,
    user: Option<String>,
    v: Option<Vec<ExistsOrValues<Match>>>,
    field: Seq<char>,
    ef: ExistsField,
    alias: bool,
    inverted: bool,
)
    ensures
        frames(st, opt_eov(st, user, v, field, ef, alias, inverted)),
{
    if let Some(vs) = v {
        lemma_eov_frames(st, user, field, ef.spec_api_name(), vs@, alias, inverted);
    }
}

/// An `OR` group of `AND` groups on a field, when given, leaves earlier slots as they are.
pub proof fn lemma_opt_or_lists_frames(st: QState, user: Option<String>, v: Option<Vec<Vec<Match>>>, field: Seq<char>, alias: bool)
    ensures
        frames(st, opt_or_lists(st, user, v, field, alias)),
{
    if let Some(ls) = v {
        lemma_or_lists_frames(st, user, field, ls@, alias);
    }
}

/// A group of match clauses on a field, when given, leaves earlier slots as they are.
pub proof fn lemma_opt_group_frames(st: QState, user: Option<String>, v: Option<Vec<Match>>, op: Seq<char>, field: Seq<char>)
    ensures
        frames(st, opt_group(st, user, v, op, field)),
{
    if let Some(ms) = v {
        lemma_group_frames(st, op, user, field, ms@, false);
    }
}

/// A range or value clause on a field, when given, leaves earlier slots as they are.
pub proof fn lemma_opt_rov_frames<T: Api>(st: QState, v: Option<RangeOrValue<T>>, field: Seq<char>, value_op: Seq<char>)
    ensures
        frames(st, opt_rov(st, v, field, value_op)),
{
    if let Some(r) = v {
        lemma_rov_frames(st, field, r, value_op);
    }
}

/// A boolean clause on a field, when given, leaves earlier slots as they are.
pub proof fn lemma_opt_bool_frames(st: QState, v: Option<bool>, field: Seq<char>)
    ensures
        frames(st, opt_bool(st, v, field)),
{
    if let Some(b) = v {
        lemma_field_frames(st, field, "equals"@, if b { "1"@ } else { "0"@ });
    }
}

/// Bug number clauses on fields, when given, leave earlier slots as they are.
pub proof fn lemma_opt_ids_frames(
    st: QState,
    v: Option<Vec<ExistsOrValues<RangeOrValue<i64>>>>,
    field: Seq<char>,
    exists_field: Seq<char>,
)
    ensures
        frames(st, opt_ids(st, v, field, exists_field)),
{
    if let Some(vs) = v {
        lemma_ids_frames(st, field, exists_field, vs@);
    }
}

/// A number under a key that is no slot key, when given, leaves earlier slots as they are.
pub proof fn lemma_opt_number_frames(st: QState, key: Seq<char>, v: Option<usize>)
    requires
        forall|c: char, n: nat| key != #[trigger] qkey(c, n),
    ensures
        frames(st, opt_number(st, key, v)),
{
    if let Some(n) = v {
        lemma_insert_other_frames(st, key, nat_digits(n as nat));
    }
}

/// The base stage leaves earlier slots as they are.
pub proof fn lemma_stage_base_frames(st: QState, p: Parameters)
    ensures
        frames(st, stage_base(st, p)),
{
    let s1 = match p.status {
        Some(vs) => {
            lemma_open_frames(st, "OR"@);
            lemma_statuses_frames(sp_open(st, "OR"@), vs@);
            lemma_close_frames(sp_statuses(sp_open(st, "OR"@), vs@));
            sp_close(sp_statuses(sp_open(st, "OR"@), vs@))
        },
        None => {
            lemma_status_frames(st, "@open"@);
            sp_status(st, "@open"@)
        },
    };
    let s2 = match p.order {
        Some(os) => {
            lemma_order_frames(s1, os@);
            sp_order(s1, os@)
        },
        None => {
            lemma_order_frames(s1, seq![Order::Ascending(OrderField::Id)]);
            sp_order(s1, seq![Order::Ascending(OrderField::Id)])
        },
    };
    let s3 = match p.fields {
        Some(fs) => {
            lemma_fields_frames(s2, fs@);
            sp_fields(s2, fs@)
        },
        None => {
            lemma_fields_frames(s2, default_fields());
            sp_fields(s2, default_fields())
        },
    };
    reveal_strlit("limit");
    reveal_strlit("offset");
    lemma_not_slot_key("limit"@);
    lemma_not_slot_key("offset"@);
    lemma_opt_number_frames(s3, "limit"@, p.limit);
    lemma_opt_number_frames(opt_number(s3, "limit"@, p.limit), "offset"@, p.offset);
}

/// The stage of array field values leaves earlier slots as they are.
pub proof fn lemma_stage_values_frames(st: QState, user: Option<String>, p: Parameters)
    ensures
        frames(st, stage_values(st, user, p)),
{
    let s1 = opt_eov(st, user, p.alias, "alias"@, ExistsField::Alias, false, true);
    lemma_opt_eov_frames(st, user, p.alias, "alias"@, ExistsField::Alias, false, true);
    match p.attachments {
        Some(ExistsOrValues::Exists(b)) => {
            lemma_exists_frames(s1, ExistsField::Attachments.spec_api_name(), b);
        },
        Some(ExistsOrValues::Values(ms)) => lemma_attachments_frames(s1, ms@),
        None => {},
    }
    let s2 = match p.attachments {
        Some(ExistsOrValues::Exists(b)) => sp_exists(s1, ExistsField::Attachments.spec_api_name(), b),
        Some(ExistsOrValues::Values(ms)) => sp_attachments(s1, ms@),
        None => s1,
    };
    lemma_opt_eov_frames(s2, user, p.flags, "flagtypes.name"@, ExistsField::Flags, false, false);
    let s3 = opt_eov(s2, user, p.flags, "flagtypes.name"@, ExistsField::Flags, false, false);
    lemma_opt_eov_frames(s3, user, p.groups, "bug_group"@, ExistsField::Groups, false, false);
    let s4 = opt_eov(s3, user, p.groups, "bug_group"@, ExistsField::Groups, false, false);
    lemma_opt_eov_frames(s4, user, p.keywords, "keywords"@, ExistsField::Keywords, false, false);
    let s5 = opt_eov(s4, user, p.keywords, "keywords"@, ExistsField::Keywords, false, false);
    lemma_opt_eov_frames(s5, user, p.see_also, "see_also"@, ExistsField::SeeAlso, false, false);
    let s6 = opt_eov(s5, user, p.see_also, "see_also"@, ExistsField::SeeAlso, false, false);
    lemma_opt_eov_frames(s6, user, p.tags, "tag"@, ExistsField::Tags, false, false);
    let s7 = opt_eov(s6, user, p.tags, "tag"@, ExistsField::Tags, false, false);
    lemma_opt_eov_frames(s7, user, p.whiteboard, "whiteboard"@, ExistsField::Whiteboard, false, false);
    let s8 = opt_eov(s7, user, p.whiteboard, "whiteboard"@, ExistsField::Whiteboard, false, false);
    lemma_opt_eov_frames(s8, user, p.url, "bug_file_loc"@, ExistsField::Url, false, false);
}

/// The stage of change clauses leaves earlier slots as they are.
pub proof fn lemma_stage_changes_frames(st: QState, user: Option<String>, p: Parameters)
    ensures
        frames(st, stage_changes(st, user, p)),
{
    let s1 = match p.changed {
        Some(v) => {
            lemma_changed_frames(st, v@);
            sp_changed(st, v@)
        },
        None => st,
    };
    let s2 = match p.changed_by {
        Some(v) => {
            lemma_changed_by_frames(s1, user, v@);
            sp_changed_by(s1, user, v@)
        },
        None => s1,
    };
    let s3 = match p.changed_from {
        Some(v) => {
            lemma_changed_pairs_frames(s2, v@, "changedfrom"@);
            sp_changed_pairs(s2, v@, "changedfrom"@)
        },
        None => s2,
    };
    if let Some(v) = p.changed_to {
        lemma_changed_pairs_frames(s3, v@, "changedto"@);
    }
}

/// The stage of people clauses leaves earlier slots as they are.
pub proof fn lemma_stage_people_frames(st: QState, user: Option<String>, p: Parameters)
    ensures
        frames(st, stage_people(st, user, p)),
{
    lemma_opt_rov_frames(st, p.comments, "longdescs.count"@, "equals"@);
    let s1 = opt_rov(st, p.comments, "longdescs.count"@, "equals"@);
    lemma_opt_rov_frames(s1, p.votes, "votes"@, "equals"@);
    let s2 = opt_rov(s1, p.votes, "votes"@, "equals"@);
    lemma_opt_or_lists_frames(s2, user, p.assignee, "assigned_to"@, true);
    let s3 = opt_or_lists(s2, user, p.assignee, "assigned_to"@, true);
    lemma_opt_or_lists_frames(s3, user, p.attacher, "attachments.submitter"@, true);
    let s4 = opt_or_lists(s3, user, p.attacher, "attachments.submitter"@, true);
    lemma_opt_eov_frames(s4, user, p.cc, "cc"@, ExistsField::Cc, true, false);
    let s5 = opt_eov(s4, user, p.cc, "cc"@, ExistsField::Cc, true, false);
    lemma_opt_or_lists_frames(s5, user, p.commenter, "commenter"@, true);
    let s6 = opt_or_lists(s5, user, p.commenter, "commenter"@, true);
    lemma_opt_or_lists_frames(s6, user, p.flagger, "setters.login_name"@, true);
    let s7 = opt_or_lists(s6, user, p.flagger, "setters.login_name"@, true);
    lemma_opt_eov_frames(s7, user, p.qa, "qa_contact"@, ExistsField::Qa, false, false);
    let s8 = opt_eov(s7, user, p.qa, "qa_contact"@, ExistsField::Qa, false, false);
    lemma_opt_or_lists_frames(s8, user, p.reporter, "reporter"@, true);
}

/// The stage of text and bug number clauses leaves earlier slots as they are.
pub proof fn lemma_stage_text_frames(st: QState, user: Option<String>, p: Parameters)
    ensures
        frames(st, stage_text(st, user, p)),
{
    lemma_opt_group_frames(st, user, p.comment, "AND"@, "longdesc"@);
    let s1 = opt_group(st, user, p.comment, "AND"@, "longdesc"@);
    lemma_opt_bool_frames(s1, p.comment_is_private, "longdescs.isprivate"@);
    let s2 = opt_bool(s1, p.comment_is_private, "longdescs.isprivate"@);
    lemma_opt_or_lists_frames(s2, user, p.comment_tag, "comment_tag"@, false);
    let s3 = opt_or_lists(s2, user, p.comment_tag, "comment_tag"@, false);
    lemma_opt_group_frames(s3, user, p.summary, "AND"@, "short_desc"@);
    let s4 = opt_group(s3, user, p.summary, "AND"@, "short_desc"@);
    lemma_opt_ids_frames(s4, p.blocks, "blocked"@, ExistsField::Blocks.spec_api_name());
    let s5 = opt_ids(s4, p.blocks, "blocked"@, ExistsField::Blocks.spec_api_name());
    lemma_opt_ids_frames(s5, p.depends, "dependson"@, ExistsField::Depends.spec_api_name());
    let s6 = opt_ids(s5, p.depends, "dependson"@, ExistsField::Depends.spec_api_name());
    lemma_opt_ids_frames(s6, p.ids, "bug_id"@, "bug_id"@);
}

/// The stage of value-list clauses leaves earlier slots as they are.
pub proof fn lemma_stage_matches_frames(st: QState, user: Option<String>, p: Parameters)
    ensures
        frames(st, stage_matches(st, user, p)),
{
    lemma_opt_group_frames(st, user, p.priority, "OR"@, "priority"@);
    let s1 = opt_group(st, user, p.priority, "OR"@, "priority"@);
    lemma_opt_group_frames(s1, user, p.severity, "OR"@, "bug_severity"@);
    let s2 = opt_group(s1, user, p.severity, "OR"@, "bug_severity"@);
    lemma_opt_group_frames(s2, user, p.version, "OR"@, "version"@);
    let s3 = opt_group(s2, user, p.version, "OR"@, "version"@);
    lemma_opt_group_frames(s3, user, p.component, "OR"@, "component"@);
    let s4 = opt_group(s3, user, p.component, "OR"@, "component"@);
    lemma_opt_group_frames(s4, user, p.product, "OR"@, "product"@);
    let s5 = opt_group(s4, user, p.product, "OR"@, "product"@);
    lemma_opt_group_frames(s5, user, p.platform, "OR"@, "platform"@);
    let s6 = opt_group(s5, user, p.platform, "OR"@, "platform"@);
    lemma_opt_group_frames(s6, user, p.os, "OR"@, "op_sys"@);
    let s7 = opt_group(s6, user, p.os, "OR"@, "op_sys"@);
    lemma_opt_group_frames(s7, user, p.resolution, "OR"@, "resolution"@);
    let s8 = opt_group(s7, user, p.resolution, "OR"@, "resolution"@);
    lemma_opt_group_frames(s8, user, p.target, "OR"@, "target_milestone"@);
}

/// The stage of time, quick search and custom field clauses leaves earlier slots as they are.
pub proof fn lemma_stage_times_frames(st: QState, user: Option<String>, p: Parameters)
    ensures
        frames(st, stage_times(st, user, p)),
{
    lemma_opt_rov_frames(st, p.created, "creation_ts"@, "greaterthaneq"@);
    let s1 = opt_rov(st, p.created, "creation_ts"@, "greaterthaneq"@);
    lemma_opt_rov_frames(s1, p.updated, "delta_ts"@, "greaterthaneq"@);
    let s2 = opt_rov(s1, p.updated, "delta_ts"@, "greaterthaneq"@);
    let s3 = match p.closed {
        Some(t) => {
            lemma_closed_frames(s2, t);
            sp_closed(s2, t)
        },
        None => s2,
    };
    reveal_strlit("quicksearch");
    lemma_not_slot_key("quicksearch"@);
    let s4 = match p.quicksearch {
        Some(q) => {
            lemma_insert_other_frames(s3, "quicksearch"@, q@);
            (sp_insert(s3.0, "quicksearch"@, q@), s3.1)
        },
        None => s3,
    };
    if let Some(items) = p.custom_fields {
        lemma_open_frames(s4, "OR"@);
        lemma_custom_items_frames(sp_open(s4, "OR"@), user, items@);
        lemma_close_frames(sp_custom_items(sp_open(s4, "OR"@), user, items@));
    }
}

/// The stage of attachment clauses leaves earlier slots as they are.
pub proof fn lemma_stage_attach_frames(st: QState, user: Option<String>, p: Parameters)
    ensures
        frames(st, stage_attach(st, user, p)),
{
    lemma_opt_or_lists_frames(st, user, p.attachment_description, "attachments.description"@, false);
    let s1 = opt_or_lists(st, user, p.attachment_description, "attachments.description"@, false);
    lemma_opt_or_lists_frames(s1, user, p.attachment_filename, "attachments.filename"@, false);
    let s2 = opt_or_lists(s1, user, p.attachment_filename, "attachments.filename"@, false);
    lemma_opt_or_lists_frames(s2, user, p.attachment_mime, "attachments.mimetype"@, false);
    let s3 = opt_or_lists(s2, user, p.attachment_mime, "attachments.mimetype"@, false);
    lemma_opt_bool_frames(s3, p.attachment_is_obsolete, "attachments.isobsolete"@);
    let s4 = opt_bool(s3, p.attachment_is_obsolete, "attachments.isobsolete"@);
    lemma_opt_bool_frames(s4, p.attachment_is_patch, "attachments.ispatch"@);
    let s5 = opt_bool(s4, p.attachment_is_patch, "attachments.ispatch"@);
    lemma_opt_bool_frames(s5, p.attachment_is_private, "attachments.isprivate"@);
}


/// Whether some slot of `q` matches `field` with operator `op` against `value`.
pub open spec fn has_clause(q: Pairs, field: Seq<char>, op: Seq<char>, value: Seq<char>) -> bool {
    exists|k: nat|
        #![trigger lookup(q, qkey('f', k))]
        lookup(q, qkey('f', k)) == Some(field) && lookup(q, qkey('o', k)) == Some(op) && lookup(q, qkey('v', k))
            == Some(value)
}

/// A slot that a state has keeps its clause through everything that follows.
proof fn lemma_clause_kept(st: QState, r: QState, k: nat, field: Seq<char>, op: Seq<char>, value: Seq<char>)
    requires
        frames(st, r),
        1 <= k <= st.1,
        lookup(st.0, qkey('f', k)) == Some(field),
        lookup(st.0, qkey('o', k)) == Some(op),
        lookup(st.0, qkey('v', k)) == Some(value),
    ensures
        has_clause(r.0, field, op, value),
{
    assert(lookup(r.0, qkey('f', k)) == lookup(st.0, qkey('f', k)));
    assert(lookup(r.0, qkey('o', k)) == lookup(st.0, qkey('o', k)));
    assert(lookup(r.0, qkey('v', k)) == lookup(st.0, qkey('v', k)));
}

/// A group of value matches on `field` holds, for its first value, a clause on that field.
proof fn lemma_group_first_clause(st: QState, op: Seq<char>, user: Option<String>, field: Seq<char>, ms: Seq<Match>, alias: bool)
    requires
        ms.len() > 0,
    ensures
        ({
            let m = ms[0];
            let k = st.1 + 2;
            let r = sp_group(st, op, user, field, ms, alias);
            &&& 1 <= k <= r.1
            &&& lookup(r.0, qkey('f', k)) == Some(field)
            &&& lookup(r.0, qkey('o', k)) == Some(m.spec_op().spec_api_name())
            &&& lookup(r.0, qkey('v', k)) == Some(super::builder::match_value(user, m, alias))
        }),
{
    let s1 = sp_open(st, op);
    lemma_open_frames(st, op);
    let s2 = sp_match(s1, user, field, ms[0], alias);
    lemma_field_frames(s1, field, ms[0].spec_op().spec_api_name(), super::builder::match_value(user, ms[0], alias));
    assert(ms.subrange(1, ms.len() as int).len() == ms.len() - 1);
    lemma_matches_split(s1, user, field, ms, alias);
    lemma_matches_frames(s2, user, field, ms.subrange(1, ms.len() as int), alias);
    lemma_close_frames(sp_matches(s1, user, field, ms, alias));
}

/// Match clauses on a list run as a clause on its first value and then those on the rest.
proof fn lemma_matches_split(st: QState, user: Option<String>, field: Seq<char>, ms: Seq<Match>, alias: bool)
    requires
        ms.len() > 0,
    ensures
        sp_matches(st, user, field, ms, alias) == sp_matches(
            sp_match(st, user, field, ms[0], alias),
            user,
            field,
            ms.subrange(1, ms.len() as int),
            alias,
        ),
    decreases ms.len(),
{
    let s1 = sp_match(st, user, field, ms[0], alias);
    let rest = ms.subrange(1, ms.len() as int);
    if ms.len() == 1 {
        assert(ms.drop_last() =~= Seq::<Match>::empty());
        assert(rest =~= Seq::<Match>::empty());
        assert(sp_matches(st, user, field, ms.drop_last(), alias) == st);
        assert(ms.last() == ms[0]);
        assert(sp_matches(s1, user, field, rest, alias) == s1);
    } else {
        lemma_matches_split(st, user, field, ms.drop_last(), alias);
        assert(ms.drop_last()[0] == ms[0]);
        assert(ms.drop_last().subrange(1, ms.len() - 1) =~= rest.drop_last());
        assert(rest.last() == ms.last());
        assert(sp_matches(s1, user, field, rest, alias) == sp_match(
            sp_matches(s1, user, field, rest.drop_last(), alias),
            user,
            field,
            rest.last(),
            alias,
        ));
    }
}

/// `AND` groups over lists run as the group of the first list and then those of the rest.
proof fn lemma_and_lists_split(st: QState, user: Option<String>, field: Seq<char>, ls: Seq<Vec<Match>>, alias: bool)
    requires
        ls.len() > 0,
    ensures
        sp_and_lists(st, user, field, ls, alias) == sp_and_lists(
            sp_group(st, "AND"@, user, field, ls[0]@, alias),
            user,
            field,
            ls.subrange(1, ls.len() as int),
            alias,
        ),
    decreases ls.len(),
{
    let s1 = sp_group(st, "AND"@, user, field, ls[0]@, alias);
    let rest = ls.subrange(1, ls.len() as int);
    if ls.len() == 1 {
        assert(ls.drop_last() =~= Seq::<Vec<Match>>::empty());
        assert(rest =~= Seq::<Vec<Match>>::empty());
        assert(sp_and_lists(st, user, field, ls.drop_last(), alias) == st);
        assert(ls.last() == ls[0]);
        assert(sp_and_lists(s1, user, field, rest, alias) == s1);
    } else {
        lemma_and_lists_split(st, user, field, ls.drop_last(), alias);
        assert(ls.drop_last()[0] == ls[0]);
        assert(ls.drop_last().subrange(1, ls.len() - 1) =~= rest.drop_last());
        assert(rest.last() == ls.last());
        assert(sp_and_lists(s1, user, field, rest, alias) == sp_group(
            sp_and_lists(s1, user, field, rest.drop_last(), alias),
            "AND"@,
            user,
            field,
            rest.last()@,
            alias,
        ));
    }
}

/// An `OR` group of `AND` groups holds, for the first value of its first list, a clause on
/// its field.
proof fn lemma_or_lists_first_clause(st: QState, user: Option<String>, field: Seq<char>, ls: Seq<Vec<Match>>, alias: bool)
    requires
        ls.len() > 0,
        ls[0]@.len() > 0,
    ensures
        ({
            let m = ls[0]@[0];
            let k = st.1 + 3;
            let r = sp_or_lists(st, user, field, ls, alias);
            &&& 1 <= k <= r.1
            &&& lookup(r.0, qkey('f', k)) == Some(field)
            &&& lookup(r.0, qkey('o', k)) == Some(m.spec_op().spec_api_name())
            &&& lookup(r.0, qkey('v', k)) == Some(super::builder::match_value(user, m, alias))
        }),
{
    let s1 = sp_open(st, "OR"@);
    lemma_open_frames(st, "OR"@);
    let g = sp_group(s1, "AND"@, user, field, ls[0]@, alias);
    lemma_group_first_clause(s1, "AND"@, user, field, ls[0]@, alias);
    lemma_and_lists_split(s1, user, field, ls, alias);
    lemma_and_lists_frames(g, user, field, ls.subrange(1, ls.len() as int), alias);
    lemma_close_frames(sp_and_lists(s1, user, field, ls, alias));
}


/// Leaving earlier slots as they are carries over from step to step.
proof fn lemma_frames_trans(a: QState, b: QState, c: QState)
    requires
        frames(a, b),
        frames(b, c),
    ensures
        frames(a, c),
{
    assert forall|ch: char, k: nat| (ch == 'f' || ch == 'o' || ch == 'v') && 1 <= k <= a.1 implies #[trigger] lookup(
        c.0,
        qkey(ch, k),
    ) == lookup(a.0, qkey(ch, k)) by {
        assert(lookup(c.0, qkey(ch, k)) == lookup(b.0, qkey(ch, k)));
        assert(lookup(b.0, qkey(ch, k)) == lookup(a.0, qkey(ch, k)));
    }
}

/// A group of values asked for `field`, kept by all that follows, leaves a clause on that
/// field for its first value.
proof fn lemma_group_clause_kept(st: QState, r: QState, user: Option<String>, v: Option<Vec<Match>>, field: Seq<char>)
    requires
        frames(opt_group(st, user, v, "OR"@, field), r),
    ensures
        v matches Some(ms) ==> (ms@.len() > 0 ==> has_clause(r.0, field, ms@[0].spec_op().spec_api_name(), ms@[0].value@)),
{
    if let Some(ms) = v {
        if ms@.len() > 0 {
            lemma_group_first_clause(st, "OR"@, user, field, ms@, false);
            lemma_clause_kept(opt_group(st, user, v, "OR"@, field), r, st.1 + 2, field, ms@[0].spec_op().spec_api_name(), ms@[0].value@);
        }
    }
}

/// A search for values of the product, component, version, platform, operating system,
/// priority, severity, resolution or target milestone holds, for the first value asked,
/// a clause on that field's own name in the service (`product`, `component`, `version`,
/// `platform`, `op_sys`, `priority`, `bug_severity`, `resolution`, `target_milestone`)
/// with the value's operator and text.
pub proof fn lemma_encode_value_fields(user: Option<String>, p: Parameters)
    ensures
        p.priority matches Some(ms) ==> (ms@.len() > 0 ==> has_clause(spec_encode(user, p).0, "priority"@, ms@[0].spec_op().spec_api_name(), ms@[0].value@)),
        p.severity matches Some(ms) ==> (ms@.len() > 0 ==> has_clause(spec_encode(user, p).0, "bug_severity"@, ms@[0].spec_op().spec_api_name(), ms@[0].value@)),
        p.version matches Some(ms) ==> (ms@.len() > 0 ==> has_clause(spec_encode(user, p).0, "version"@, ms@[0].spec_op().spec_api_name(), ms@[0].value@)),
        p.component matches Some(ms) ==> (ms@.len() > 0 ==> has_clause(spec_encode(user, p).0, "component"@, ms@[0].spec_op().spec_api_name(), ms@[0].value@)),
        p.product matches Some(ms) ==> (ms@.len() > 0 ==> has_clause(spec_encode(user, p).0, "product"@, ms@[0].spec_op().spec_api_name(), ms@[0].value@)),
        p.platform matches Some(ms) ==> (ms@.len() > 0 ==> has_clause(spec_encode(user, p).0, "platform"@, ms@[0].spec_op().spec_api_name(), ms@[0].value@)),
        p.os matches Some(ms) ==> (ms@.len() > 0 ==> has_clause(spec_encode(user, p).0, "op_sys"@, ms@[0].spec_op().spec_api_name(), ms@[0].value@)),
        p.resolution matches Some(ms) ==> (ms@.len() > 0 ==> has_clause(spec_encode(user, p).0, "resolution"@, ms@[0].spec_op().spec_api_name(), ms@[0].value@)),
        p.target matches Some(ms) ==> (ms@.len() > 0 ==> has_clause(spec_encode(user, p).0, "target_milestone"@, ms@[0].spec_op().spec_api_name(), ms@[0].value@)),
{
    let s0: QState = (Seq::empty(), 0nat);
    let s5 = stage_text(stage_people(stage_changes(stage_values(stage_base(s0, p), user, p), user, p), user, p), user, p);
    let s6 = stage_matches(s5, user, p);
    let s7 = stage_times(s6, user, p);
    let s8 = stage_attach(s7, user, p);
    assert(s8 == spec_encode(user, p));
    lemma_stage_times_frames(s6, user, p);
    lemma_stage_attach_frames(s7, user, p);
    lemma_frames_trans(s6, s7, s8);
    let m1 = opt_group(s5, user, p.priority, "OR"@, "priority"@);
    let m2 = opt_group(m1, user, p.severity, "OR"@, "bug_severity"@);
    let m3 = opt_group(m2, user, p.version, "OR"@, "version"@);
    let m4 = opt_group(m3, user, p.component, "OR"@, "component"@);
    let m5 = opt_group(m4, user, p.product, "OR"@, "product"@);
    let m6 = opt_group(m5, user, p.platform, "OR"@, "platform"@);
    let m7 = opt_group(m6, user, p.os, "OR"@, "op_sys"@);
    let m8 = opt_group(m7, user, p.resolution, "OR"@, "resolution"@);
    assert(s6 == opt_group(m8, user, p.target, "OR"@, "target_milestone"@));
    lemma_group_clause_kept(m8, s8, user, p.target, "target_milestone"@);
    lemma_opt_group_frames(m8, user, p.target, "OR"@, "target_milestone"@);
    lemma_frames_trans(m8, s6, s8);
    lemma_group_clause_kept(m7, s8, user, p.resolution, "resolution"@);
    lemma_opt_group_frames(m7, user, p.resolution, "OR"@, "resolution"@);
    lemma_frames_trans(m7, m8, s8);
    lemma_group_clause_kept(m6, s8, user, p.os, "op_sys"@);
    lemma_opt_group_frames(m6, user, p.os, "OR"@, "op_sys"@);
    lemma_frames_trans(m6, m7, s8);
    lemma_group_clause_kept(m5, s8, user, p.platform, "platform"@);
    lemma_opt_group_frames(m5, user, p.platform, "OR"@, "platform"@);
    lemma_frames_trans(m5, m6, s8);
    lemma_group_clause_kept(m4, s8, user, p.product, "product"@);
    lemma_opt_group_frames(m4, user, p.product, "OR"@, "product"@);
    lemma_frames_trans(m4, m5, s8);
    lemma_group_clause_kept(m3, s8, user, p.component, "component"@);
    lemma_opt_group_frames(m3, user, p.component, "OR"@, "component"@);
    lemma_frames_trans(m3, m4, s8);
    lemma_group_clause_kept(m2, s8, user, p.version, "version"@);
    lemma_opt_group_frames(m2, user, p.version, "OR"@, "version"@);
    lemma_frames_trans(m2, m3, s8);
    lemma_group_clause_kept(m1, s8, user, p.severity, "bug_severity"@);
    lemma_opt_group_frames(m1, user, p.severity, "OR"@, "bug_severity"@);
    lemma_frames_trans(m1, m2, s8);
    lemma_group_clause_kept(s5, s8, user, p.priority, "priority"@);
}


/// The stages of an encoded search, in order, from the empty query.
pub open spec fn encode_stages(user: Option<String>, p: Parameters) -> Seq<QState> {
    let s0: QState = (Seq::empty(), 0nat);
    let s1 = stage_base(s0, p);
    let s2 = stage_values(s1, user, p);
    let s3 = stage_changes(s2, user, p);
    let s4 = stage_people(s3, user, p);
    let s5 = stage_text(s4, user, p);
    let s6 = stage_matches(s5, user, p);
    let s7 = stage_times(s6, user, p);
    let s8 = stage_attach(s7, user, p);
    seq![s0, s1, s2, s3, s4, s5, s6, s7, s8]
}

/// The stages after people, text, value lists and times leave earlier slots as they are.
proof fn lemma_tail_frames(user: Option<String>, p: Parameters)
    ensures
        encode_stages(user, p)[8] == spec_encode(user, p),
        frames(encode_stages(user, p)[4], encode_stages(user, p)[8]),
        frames(encode_stages(user, p)[5], encode_stages(user, p)[8]),
        frames(encode_stages(user, p)[7], encode_stages(user, p)[8]),
{
    let s = encode_stages(user, p);
    lemma_stage_attach_frames(s[7], user, p);
    lemma_stage_times_frames(s[6], user, p);
    lemma_frames_trans(s[6], s[7], s[8]);
    lemma_stage_matches_frames(s[5], user, p);
    lemma_frames_trans(s[5], s[6], s[8]);
    lemma_stage_text_frames(s[4], user, p);
    lemma_frames_trans(s[4], s[5], s[8]);
}

/// An `OR` group of `AND` groups asked for `field`, kept by all that follows, leaves a
/// clause on that field for the first value of its first list.
proof fn lemma_or_clause_kept(st: QState, r: QState, user: Option<String>, v: Option<Vec<Vec<Match>>>, field: Seq<char>, alias: bool)
    requires
        frames(opt_or_lists(st, user, v, field, alias), r),
    ensures
        v matches Some(ls) ==> (ls@.len() > 0 ==> (ls@[0]@.len() > 0 ==> has_clause(
            r.0,
            field,
            ls@[0]@[0].spec_op().spec_api_name(),
            super::builder::match_value(user, ls@[0]@[0], alias),
        ))),
{
    if let Some(ls) = v {
        if ls@.len() > 0 && ls@[0]@.len() > 0 {
            lemma_or_lists_first_clause(st, user, field, ls@, alias);
            let m = ls@[0]@[0];
            lemma_clause_kept(
                opt_or_lists(st, user, v, field, alias),
                r,
                st.1 + 3,
                field,
                m.spec_op().spec_api_name(),
                super::builder::match_value(user, m, alias),
            );
        }
    }
}

/// A group joined by `op` of values asked for `field`, kept by all that follows, leaves a
/// clause on that field for its first value.
proof fn lemma_and_group_clause_kept(st: QState, r: QState, user: Option<String>, v: Option<Vec<Match>>, op: Seq<char>, field: Seq<char>)
    requires
        frames(opt_group(st, user, v, op, field), r),
    ensures
        v matches Some(ms) ==> (ms@.len() > 0 ==> has_clause(r.0, field, ms@[0].spec_op().spec_api_name(), ms@[0].value@)),
{
    if let Some(ms) = v {
        if ms@.len() > 0 {
            lemma_group_first_clause(st, op, user, field, ms@, false);
            lemma_clause_kept(opt_group(st, user, v, op, field), r, st.1 + 2, field, ms@[0].spec_op().spec_api_name(), ms@[0].value@);
        }
    }
}

/// A single value asked for `field`, kept by all that follows, leaves a clause comparing
/// that field with the value.
proof fn lemma_value_clause_kept<T: Api>(st: QState, r: QState, v: Option<RangeOrValue<T>>, field: Seq<char>, value_op: Seq<char>)
    requires
        frames(opt_rov(st, v, field, value_op), r),
    ensures
        v matches Some(RangeOrValue::Value(x)) ==> has_clause(r.0, field, value_op, x.spec_api()),
{
    if let Some(RangeOrValue::Value(x)) = v {
        lemma_field_frames(st, field, value_op, x.spec_api());
        lemma_clause_kept(opt_rov(st, v, field, value_op), r, st.1 + 1, field, value_op, x.spec_api());
    }
}

/// A search for people (assignee, attacher, commenter, flag setter, reporter) holds, for
/// the first value of its first list, a clause on that role's field in the service
/// (`assigned_to`, `attachments.submitter`, `commenter`, `setters.login_name`, `reporter`)
/// with the value, `@me` standing for the user; and a search for a number of comments or
/// votes holds a clause comparing `longdescs.count` or `votes` with it.
pub proof fn lemma_encode_people_fields(user: Option<String>, p: Parameters)
    ensures
        p.assignee matches Some(ls) ==> (ls@.len() > 0 ==> (ls@[0]@.len() > 0 ==> has_clause(
            spec_encode(user, p).0,
            "assigned_to"@,
            ls@[0]@[0].spec_op().spec_api_name(),
            crate::service::bugzilla::spec_user_alias(user, ls@[0]@[0].value@),
        ))),
        p.attacher matches Some(ls) ==> (ls@.len() > 0 ==> (ls@[0]@.len() > 0 ==> has_clause(
            spec_encode(user, p).0,
            "attachments.submitter"@,
            ls@[0]@[0].spec_op().spec_api_name(),
            crate::service::bugzilla::spec_user_alias(user, ls@[0]@[0].value@),
        ))),
        p.commenter matches Some(ls) ==> (ls@.len() > 0 ==> (ls@[0]@.len() > 0 ==> has_clause(
            spec_encode(user, p).0,
            "commenter"@,
            ls@[0]@[0].spec_op().spec_api_name(),
            crate::service::bugzilla::spec_user_alias(user, ls@[0]@[0].value@),
        ))),
        p.flagger matches Some(ls) ==> (ls@.len() > 0 ==> (ls@[0]@.len() > 0 ==> has_clause(
            spec_encode(user, p).0,
            "setters.login_name"@,
            ls@[0]@[0].spec_op().spec_api_name(),
            crate::service::bugzilla::spec_user_alias(user, ls@[0]@[0].value@),
        ))),
        p.reporter matches Some(ls) ==> (ls@.len() > 0 ==> (ls@[0]@.len() > 0 ==> has_clause(
            spec_encode(user, p).0,
            "reporter"@,
            ls@[0]@[0].spec_op().spec_api_name(),
            crate::service::bugzilla::spec_user_alias(user, ls@[0]@[0].value@),
        ))),
        p.comments matches Some(RangeOrValue::Value(x)) ==> has_clause(spec_encode(user, p).0, "longdescs.count"@, "equals"@, x.spec_api()),
        p.votes matches Some(RangeOrValue::Value(x)) ==> has_clause(spec_encode(user, p).0, "votes"@, "equals"@, x.spec_api()),
{
    lemma_tail_frames(user, p);
    let s = encode_stages(user, p);
    let end = s[8];
    let st = s[3];
    let a1 = opt_rov(st, p.comments, "longdescs.count"@, "equals"@);
    let a2 = opt_rov(a1, p.votes, "votes"@, "equals"@);
    let a3 = opt_or_lists(a2, user, p.assignee, "assigned_to"@, true);
    let a4 = opt_or_lists(a3, user, p.attacher, "attachments.submitter"@, true);
    let a5 = opt_eov(a4, user, p.cc, "cc"@, ExistsField::Cc, true, false);
    let a6 = opt_or_lists(a5, user, p.commenter, "commenter"@, true);
    let a7 = opt_or_lists(a6, user, p.flagger, "setters.login_name"@, true);
    let a8 = opt_eov(a7, user, p.qa, "qa_contact"@, ExistsField::Qa, false, false);
    assert(s[4] == opt_or_lists(a8, user, p.reporter, "reporter"@, true));
    lemma_or_clause_kept(a8, end, user, p.reporter, "reporter"@, true);
    lemma_opt_or_lists_frames(a8, user, p.reporter, "reporter"@, true);
    lemma_frames_trans(a8, s[4], end);
    lemma_opt_eov_frames(a7, user, p.qa, "qa_contact"@, ExistsField::Qa, false, false);
    lemma_frames_trans(a7, a8, end);
    lemma_or_clause_kept(a6, end, user, p.flagger, "setters.login_name"@, true);
    lemma_opt_or_lists_frames(a6, user, p.flagger, "setters.login_name"@, true);
    lemma_frames_trans(a6, a7, end);
    lemma_or_clause_kept(a5, end, user, p.commenter, "commenter"@, true);
    lemma_opt_or_lists_frames(a5, user, p.commenter, "commenter"@, true);
    lemma_frames_trans(a5, a6, end);
    lemma_opt_eov_frames(a4, user, p.cc, "cc"@, ExistsField::Cc, true, false);
    lemma_frames_trans(a4, a5, end);
    lemma_or_clause_kept(a3, end, user, p.attacher, "attachments.submitter"@, true);
    lemma_opt_or_lists_frames(a3, user, p.attacher, "attachments.submitter"@, true);
    lemma_frames_trans(a3, a4, end);
    lemma_or_clause_kept(a2, end, user, p.assignee, "assigned_to"@, true);
    lemma_opt_or_lists_frames(a2, user, p.assignee, "assigned_to"@, true);
    lemma_frames_trans(a2, a3, end);
    lemma_value_clause_kept(a1, end, p.votes, "votes"@, "equals"@);
    lemma_opt_rov_frames(a1, p.votes, "votes"@, "equals"@);
    lemma_frames_trans(a1, a2, end);
    lemma_value_clause_kept(st, end, p.comments, "longdescs.count"@, "equals"@);
}

/// A search for comment text or summary text holds, for its first value, a clause on
/// `longdesc` or `short_desc`; one for comment tags holds, for the first value of its
/// first list, a clause on `comment_tag`; and searches for attachment descriptions, file
/// names and MIME types hold such a clause on `attachments.description`,
/// `attachments.filename` and `attachments.mimetype`.
pub proof fn lemma_encode_text_fields(user: Option<String>, p: Parameters)
    ensures
        p.comment matches Some(ms) ==> (ms@.len() > 0 ==> has_clause(spec_encode(user, p).0, "longdesc"@, ms@[0].spec_op().spec_api_name(), ms@[0].value@)),
        p.summary matches Some(ms) ==> (ms@.len() > 0 ==> has_clause(spec_encode(user, p).0, "short_desc"@, ms@[0].spec_op().spec_api_name(), ms@[0].value@)),
        p.comment_tag matches Some(ls) ==> (ls@.len() > 0 ==> (ls@[0]@.len() > 0 ==> has_clause(
            spec_encode(user, p).0,
            "comment_tag"@,
            ls@[0]@[0].spec_op().spec_api_name(),
            ls@[0]@[0].value@,
        ))),
        p.attachment_description matches Some(ls) ==> (ls@.len() > 0 ==> (ls@[0]@.len() > 0 ==> has_clause(
            spec_encode(user, p).0,
            "attachments.description"@,
            ls@[0]@[0].spec_op().spec_api_name(),
            ls@[0]@[0].value@,
        ))),
        p.attachment_filename matches Some(ls) ==> (ls@.len() > 0 ==> (ls@[0]@.len() > 0 ==> has_clause(
            spec_encode(user, p).0,
            "attachments.filename"@,
            ls@[0]@[0].spec_op().spec_api_name(),
            ls@[0]@[0].value@,
        ))),
        p.attachment_mime matches Some(ls) ==> (ls@.len() > 0 ==> (ls@[0]@.len() > 0 ==> has_clause(
            spec_encode(user, p).0,
            "attachments.mimetype"@,
            ls@[0]@[0].spec_op().spec_api_name(),
            ls@[0]@[0].value@,
        ))),
{
    lemma_tail_frames(user, p);
    let s = encode_stages(user, p);
    let end = s[8];
    let st = s[4];
    let b1 = opt_group(st, user, p.comment, "AND"@, "longdesc"@);
    let b2 = opt_bool(b1, p.comment_is_private, "longdescs.isprivate"@);
    let b3 = opt_or_lists(b2, user, p.comment_tag, "comment_tag"@, false);
    let b4 = opt_group(b3, user, p.summary, "AND"@, "short_desc"@);
    let b5 = opt_ids(b4, p.blocks, "blocked"@, ExistsField::Blocks.spec_api_name());
    let b6 = opt_ids(b5, p.depends, "dependson"@, ExistsField::Depends.spec_api_name());
    assert(s[5] == opt_ids(b6, p.ids, "bug_id"@, "bug_id"@));
    lemma_opt_ids_frames(b6, p.ids, "bug_id"@, "bug_id"@);
    lemma_frames_trans(b6, s[5], end);
    lemma_opt_ids_frames(b5, p.depends, "dependson"@, ExistsField::Depends.spec_api_name());
    lemma_frames_trans(b5, b6, end);
    lemma_opt_ids_frames(b4, p.blocks, "blocked"@, ExistsField::Blocks.spec_api_name());
    lemma_frames_trans(b4, b5, end);
    lemma_and_group_clause_kept(b3, end, user, p.summary, "AND"@, "short_desc"@);
    lemma_opt_group_frames(b3, user, p.summary, "AND"@, "short_desc"@);
    lemma_frames_trans(b3, b4, end);
    lemma_or_clause_kept(b2, end, user, p.comment_tag, "comment_tag"@, false);
    lemma_opt_or_lists_frames(b2, user, p.comment_tag, "comment_tag"@, false);
    lemma_frames_trans(b2, b3, end);
    lemma_opt_bool_frames(b1, p.comment_is_private, "longdescs.isprivate"@);
    lemma_frames_trans(b1, b2, end);
    lemma_and_group_clause_kept(st, end, user, p.comment, "AND"@, "longdesc"@);
    let t = s[7];
    let c1 = opt_or_lists(t, user, p.attachment_description, "attachments.description"@, false);
    let c2 = opt_or_lists(c1, user, p.attachment_filename, "attachments.filename"@, false);
    let c3 = opt_or_lists(c2, user, p.attachment_mime, "attachments.mimetype"@, false);
    let c4 = opt_bool(c3, p.attachment_is_obsolete, "attachments.isobsolete"@);
    let c5 = opt_bool(c4, p.attachment_is_patch, "attachments.ispatch"@);
    assert(end == opt_bool(c5, p.attachment_is_private, "attachments.isprivate"@));
    lemma_opt_bool_frames(c5, p.attachment_is_private, "attachments.isprivate"@);
    lemma_opt_bool_frames(c4, p.attachment_is_patch, "attachments.ispatch"@);
    lemma_frames_trans(c4, c5, end);
    lemma_opt_bool_frames(c3, p.attachment_is_obsolete, "attachments.isobsolete"@);
    lemma_frames_trans(c3, c4, end);
    lemma_or_clause_kept(c2, end, user, p.attachment_mime, "attachments.mimetype"@, false);
    lemma_opt_or_lists_frames(c2, user, p.attachment_mime, "attachments.mimetype"@, false);
    lemma_frames_trans(c2, c3, end);
    lemma_or_clause_kept(c1, end, user, p.attachment_filename, "attachments.filename"@, false);
    lemma_opt_or_lists_frames(c1, user, p.attachment_filename, "attachments.filename"@, false);
    lemma_frames_trans(c1, c2, end);
    lemma_or_clause_kept(t, end, user, p.attachment_description, "attachments.description"@, false);
}

} // verus!
