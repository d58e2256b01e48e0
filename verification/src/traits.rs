//! Behaviour shared by the library's value types.
use vstd::prelude::*;

use crate::numbers::{
    int_error_message, parse_i64, parse_u64, parse_usize, spec_int_error_message,
    spec_parse_signed, spec_parse_unsigned,
};
use crate::text::{int_digits, nat_digits, owned, push_char, u64_to_string};

verus! {

/// Rendering of a value in the form a service API expects.
pub trait Api {
    spec fn spec_api(&self) -> Seq<char>;

    fn api(&self) -> (s: String)
        ensures
            s@ == self.spec_api(),
    ;
}

/// Parsing of a value from its textual form.
pub trait FromText: Sized {
    /// Whether `s` is the text of some value.
    spec fn text_ok(s: Seq<char>) -> bool;

    /// Whether `v` is the value that `s` denotes.
    spec fn text_value(s: Seq<char>, v: Self) -> bool;

    /// Message describing why `s` is not the text of a value.
    spec fn text_error(s: Seq<char>) -> Seq<char>;

    fn from_text(s: &str) -> (r: Result<Self, String>)
        ensures
            r is Ok <==> Self::text_ok(s@),
            r matches Ok(v) ==> Self::text_value(s@, v),
            r matches Err(m) ==> m@ == Self::text_error(s@),
    ;
}

/// Textual form of a value.
pub trait ToText {
    spec fn spec_text(&self) -> Seq<char>;

    fn to_text(&self) -> (s: String)
        ensures
            s@ == self.spec_text(),
    ;
}

/// Equality of values.
pub trait SameValue {
    spec fn spec_same(&self, other: &Self) -> bool;

    fn same(&self, other: &Self) -> (r: bool)
        ensures
            r == self.spec_same(other),
    ;
}

/// Strict ordering of values.
pub trait Ordered: SameValue {
    spec fn spec_lt(&self, other: &Self) -> bool;

    fn lt(&self, other: &Self) -> (r: bool)
        ensures
            r == self.spec_lt(other),
    ;
}

/// A value parsed from text whose equality is an equivalence and whose text denotes a
/// single value up to that equality.
pub trait ParsedValue: FromText + SameValue {
    proof fn lemma_text_value_unique(s: Seq<char>, x: Self, y: Self)
        requires
            Self::text_value(s, x),
            Self::text_value(s, y),
        ensures
            x.spec_same(&y),
    ;

    proof fn lemma_same_symmetric(x: Self, y: Self)
        requires
            x.spec_same(&y),
        ensures
            y.spec_same(&x),
    ;

    proof fn lemma_same_transitive(x: Self, y: Self, z: Self)
        requires
            x.spec_same(&y),
            y.spec_same(&z),
        ensures
            x.spec_same(&z),
    ;
}

impl ParsedValue for u64 {
    proof fn lemma_text_value_unique(s: Seq<char>, x: Self, y: Self) {
    }

    proof fn lemma_same_symmetric(x: Self, y: Self) {
    }

    proof fn lemma_same_transitive(x: Self, y: Self, z: Self) {
    }
}

impl ParsedValue for i64 {
    proof fn lemma_text_value_unique(s: Seq<char>, x: Self, y: Self) {
    }

    proof fn lemma_same_symmetric(x: Self, y: Self) {
    }

    proof fn lemma_same_transitive(x: Self, y: Self, z: Self) {
    }
}

impl ParsedValue for usize {
    proof fn lemma_text_value_unique(s: Seq<char>, x: Self, y: Self) {
    }

    proof fn lemma_same_symmetric(x: Self, y: Self) {
    }

    proof fn lemma_same_transitive(x: Self, y: Self, z: Self) {
    }
}

/// Combination of an option with a fallback: a present value is kept, an absent one is
/// taken from `other`.
pub open spec fn spec_merge_option<T>(value: Option<T>, other: Option<T>) -> Option<T> {
    match value {
        Some(v) => Some(v),
        None => other,
    }
}

/// Merging settings: an absent fallback changes nothing, an absent value takes the
/// fallback, merging a value with itself changes nothing, and merging is associative, so
/// layered settings can be merged in any grouping.
pub proof fn lemma_merge_option_laws<T>(a: Option<T>, b: Option<T>, c: Option<T>)
    ensures
        spec_merge_option(a, None) == a,
        spec_merge_option(None, b) == b,
        spec_merge_option(a, a) == a,
        spec_merge_option(spec_merge_option(a, b), c) == spec_merge_option(a, spec_merge_option(b, c)),
{
}

/// Combination of an option with a fallback: a present value is kept, an absent one is
/// taken from `other`.
pub fn merge_option<T>(value: Option<T>, other: Option<T>) -> (r: Option<T>)
    ensures
        r == spec_merge_option(value, other),
{
    match value {
        Some(v) => Some(v),
        None => other,
    }
}

impl FromText for String {
    open spec fn text_ok(s: Seq<char>) -> bool {
        true
    }

    open spec fn text_value(s: Seq<char>, v: String) -> bool {
        v@ == s
    }

    open spec fn text_error(s: Seq<char>) -> Seq<char> {
        Seq::empty()
    }

    fn from_text(s: &str) -> (r: Result<String, String>) {
        Ok(owned(s))
    }
}

impl ToText for String {
    open spec fn spec_text(&self) -> Seq<char> {
        self@
    }

    fn to_text(&self) -> (s: String) {
        self.clone()
    }
}

impl Api for String {
    open spec fn spec_api(&self) -> Seq<char> {
        self@
    }

    fn api(&self) -> (s: String) {
        self.clone()
    }
}

impl SameValue for String {
    open spec fn spec_same(&self, other: &Self) -> bool {
        self@ == other@
    }

    fn same(&self, other: &Self) -> (r: bool) {
        *self == *other
    }
}

impl FromText for u64 {
    open spec fn text_ok(s: Seq<char>) -> bool {
        spec_parse_unsigned(s, u64::MAX as int) is Ok
    }

    open spec fn text_value(s: Seq<char>, v: u64) -> bool {
        spec_parse_unsigned(s, u64::MAX as int) == Ok::<int, crate::numbers::IntErrorKind>(v as int)
    }

    open spec fn text_error(s: Seq<char>) -> Seq<char> {
        match spec_parse_unsigned(s, u64::MAX as int) {
            Err(k) => spec_int_error_message(k),
            Ok(_) => Seq::empty(),
        }
    }

    fn from_text(s: &str) -> (r: Result<u64, String>) {
        match parse_u64(s) {
            Ok(v) => Ok(v),
            Err(k) => Err(int_error_message(k)),
        }
    }
}

impl FromText for i64 {
    open spec fn text_ok(s: Seq<char>) -> bool {
        spec_parse_signed(s, i64::MAX as int) is Ok
    }

    open spec fn text_value(s: Seq<char>, v: i64) -> bool {
        spec_parse_signed(s, i64::MAX as int) == Ok::<int, crate::numbers::IntErrorKind>(v as int)
    }

    open spec fn text_error(s: Seq<char>) -> Seq<char> {
        match spec_parse_signed(s, i64::MAX as int) {
            Err(k) => spec_int_error_message(k),
            Ok(_) => Seq::empty(),
        }
    }

    fn from_text(s: &str) -> (r: Result<i64, String>) {
        match parse_i64(s) {
            Ok(v) => Ok(v),
            Err(k) => Err(int_error_message(k)),
        }
    }
}

impl FromText for usize {
    open spec fn text_ok(s: Seq<char>) -> bool {
        spec_parse_unsigned(s, usize::MAX as int) is Ok
    }

    open spec fn text_value(s: Seq<char>, v: usize) -> bool {
        spec_parse_unsigned(s, usize::MAX as int) == Ok::<int, crate::numbers::IntErrorKind>(v as int)
    }

    open spec fn text_error(s: Seq<char>) -> Seq<char> {
        match spec_parse_unsigned(s, usize::MAX as int) {
            Err(k) => spec_int_error_message(k),
            Ok(_) => Seq::empty(),
        }
    }

    fn from_text(s: &str) -> (r: Result<usize, String>) {
        match parse_usize(s) {
            Ok(v) => Ok(v),
            Err(k) => Err(int_error_message(k)),
        }
    }
}

/// Decimal rendering of a signed integer.
pub fn i64_to_string(n: i64) -> (r: String)
    ensures
        r@ == int_digits(n as int),
{
    if n < 0 {
        let m: u64 = if n == i64::MIN { 9223372036854775808u64 } else { (-n) as u64 };
        let mut r = String::new();
        push_char(&mut r, '-');
        let d = u64_to_string(m);
        r.append(d.as_str());
        r
    } else {
        u64_to_string(n as u64)
    }
}

impl ToText for u64 {
    open spec fn spec_text(&self) -> Seq<char> {
        nat_digits(*self as nat)
    }

    fn to_text(&self) -> (s: String) {
        u64_to_string(*self)
    }
}

impl Api for u64 {
    open spec fn spec_api(&self) -> Seq<char> {
        nat_digits(*self as nat)
    }

    fn api(&self) -> (s: String) {
        u64_to_string(*self)
    }
}

impl ToText for usize {
    open spec fn spec_text(&self) -> Seq<char> {
        nat_digits(*self as nat)
    }

    fn to_text(&self) -> (s: String) {
        u64_to_string(*self as u64)
    }
}

impl Api for usize {
    open spec fn spec_api(&self) -> Seq<char> {
        nat_digits(*self as nat)
    }

    fn api(&self) -> (s: String) {
        u64_to_string(*self as u64)
    }
}

impl ToText for i64 {
    open spec fn spec_text(&self) -> Seq<char> {
        int_digits(*self as int)
    }

    fn to_text(&self) -> (s: String) {
        i64_to_string(*self)
    }
}

impl Api for i64 {
    open spec fn spec_api(&self) -> Seq<char> {
        int_digits(*self as int)
    }

    fn api(&self) -> (s: String) {
        i64_to_string(*self)
    }
}

impl SameValue for u64 {
    open spec fn spec_same(&self, other: &Self) -> bool {
        *self == *other
    }

    fn same(&self, other: &Self) -> (r: bool) {
        *self == *other
    }
}

impl Ordered for u64 {
    open spec fn spec_lt(&self, other: &Self) -> bool {
        *self < *other
    }

    fn lt(&self, other: &Self) -> (r: bool) {
        *self < *other
    }
}

impl SameValue for i64 {
    open spec fn spec_same(&self, other: &Self) -> bool {
        *self == *other
    }

    fn same(&self, other: &Self) -> (r: bool) {
        *self == *other
    }
}

impl Ordered for i64 {
    open spec fn spec_lt(&self, other: &Self) -> bool {
        *self < *other
    }

    fn lt(&self, other: &Self) -> (r: bool) {
        *self < *other
    }
}

impl SameValue for usize {
    open spec fn spec_same(&self, other: &Self) -> bool {
        *self == *other
    }

    fn same(&self, other: &Self) -> (r: bool) {
        *self == *other
    }
}

impl Ordered for usize {
    open spec fn spec_lt(&self, other: &Self) -> bool {
        *self < *other
    }

    fn lt(&self, other: &Self) -> (r: bool) {
        *self < *other
    }
}

/// Filtering a sequence with one more item keeps that item exactly when it passes.
pub(crate) proof fn lemma_filter_push<A>(s: Seq<A>, x: A, pred: spec_fn(A) -> bool)
    ensures
        s.push(x).filter(pred) == if pred(x) {
            s.filter(pred).push(x)
        } else {
            s.filter(pred)
        },
{
    reveal(Seq::filter);
    assert(s.push(x).drop_last() =~= s);
}

} // verus!
