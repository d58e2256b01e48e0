//! Value ranges, range operators and set changes used by requests.
use vstd::prelude::*;

pub mod bugzilla;
pub mod github;
pub mod redmine;

use base64::prelude::BASE64_STANDARD;
use base64::Engine;

use crate::error::Error;
use crate::text::{chars_of, concat, owned, split_once, split_once_chars};
use crate::traits::{FromText, Ordered, ParsedValue, SameValue, ToText};

verus! {

/// Outcome of decoding a text as standard Base64: the data, or the message of the error.
pub uninterp spec fn base64_decoded(s: Seq<char>) -> Result<Seq<u8>, Seq<char>>;

/// Standard Base64 encoding of data, with padding.
pub uninterp spec fn base64_encoded(data: Seq<u8>) -> Seq<char>;

/// Whether a text decodes as standard Base64 to the data.
pub open spec fn decodes_to(s: Seq<char>, data: Seq<u8>) -> bool {
    base64_decoded(s) == Ok::<Seq<u8>, Seq<char>>(data)
}

/// `Engine::decode` of the `base64` crate's standard engine, the error shown by its
/// `Display`. Claimed: the outcome is the name `base64_decoded` of the text.
#[verifier::external_body]
fn base64_decode(s: &str) -> (r: Result<Vec<u8>, String>)
    ensures
        match r {
            Ok(d) => base64_decoded(s@) == Ok::<Seq<u8>, Seq<char>>(d@),
            Err(e) => base64_decoded(s@) == Err::<Seq<u8>, Seq<char>>(e@),
        },
{
    match BASE64_STANDARD.decode(s) {
        Ok(d) => Ok(d),
        Err(e) => Err(e.to_string()),
    }
}

/// `Engine::encode` of the standard engine, which panics when the encoded length overflows
/// a `usize` (ruled out here by a bound on the data). Claimed: the text is the name
/// `base64_encoded` of the data, and decoding it with the same engine gives the data back.
#[verifier::external_body]
fn base64_encode(data: &[u8]) -> (r: String)
    requires
        data@.len() <= usize::MAX / 2,
    ensures
        r@ == base64_encoded(data@),
        decodes_to(r@, data@),
{
    BASE64_STANDARD.encode(data)
}

/// Raw binary data, exchanged as Base64 text.
#[derive(Debug)]
pub struct Base64(pub Vec<u8>);

/// Message for a text that is no Base64.
pub open spec fn base64_error_message(e: Seq<char>) -> Seq<char> {
    "failed decoding base64 data: "@ + e
}

impl Base64 {
    /// The data a Base64 text encodes.
    pub fn from_str(s: &str) -> (r: Result<Base64, Error>)
        ensures
            match base64_decoded(s@) {
                Ok(d) => r matches Ok(b) && b.0@ == d,
                Err(e) => r matches Err(x) && x.is_invalid_value(base64_error_message(e)),
            },
    {
        match base64_decode(s) {
            Ok(d) => Ok(Base64(d)),
            Err(e) => Err(Error::InvalidValue(concat("failed decoding base64 data: ", e.as_str()))),
        }
    }

    /// The Base64 text of the data; decoding it gives the data back.
    pub fn to_text(&self) -> (r: String)
        requires
            self.0@.len() <= usize::MAX / 2,
        ensures
            r@ == base64_encoded(self.0@),
            decodes_to(r@, self.0@),
    {
        base64_encode(self.0.as_slice())
    }

    /// Whether there is no data.
    pub fn is_empty(&self) -> (r: bool)
        ensures
            r == (self.0@.len() == 0),
    {
        self.0.len() == 0
    }
}

/// Symbols accepted as range operators.
pub open spec fn is_range_op_symbol(op: Seq<char>) -> bool {
    op == "<"@ || op == "<="@ || op == "="@ || op == "!="@ || op == ">="@ || op == ">"@
}

/// Whether `s` from position `k` on is a non-empty run of characters other than a
/// newline: what `.+$` matches there.
pub open spec fn dot_plus_to_end(s: Seq<char>, k: int) -> bool {
    0 <= k < s.len() && forall|i: int| k <= i < s.len() ==> s[i] != '\n'
}

/// `s` split into its first `k` characters and the rest.
pub open spec fn split_at(s: Seq<char>, k: int) -> (Seq<char>, Seq<char>) {
    (s.subrange(0, k), s.subrange(k, s.len() as int))
}

/// Operator and value groups that the pattern `^(?<op>[<>]=?|!?=)(?<value>.+)$` captures
/// in `s`, under leftmost-first matching: the first alternative is preferred, an optional
/// `=` or `!` is taken when the rest still matches, and the value runs to the end of the
/// text without a newline.
pub open spec fn range_op_captures(s: Seq<char>) -> Option<(Seq<char>, Seq<char>)> {
    if s.len() > 0 && (s[0] == '<' || s[0] == '>') {
        if s.len() > 1 && s[1] == '=' && dot_plus_to_end(s, 2) {
            Some(split_at(s, 2))
        } else if dot_plus_to_end(s, 1) {
            Some(split_at(s, 1))
        } else {
            None
        }
    } else if s.len() > 1 && s[0] == '!' && s[1] == '=' && dot_plus_to_end(s, 2) {
        Some(split_at(s, 2))
    } else if s.len() > 0 && s[0] == '=' && dot_plus_to_end(s, 1) {
        Some(split_at(s, 1))
    } else {
        None
    }
}

/// The operator group of a match is one of the six symbols and the value group is not
/// empty.
pub proof fn lemma_range_op_captures(s: Seq<char>)
    ensures
        range_op_captures(s) matches Some((op, v)) ==> is_range_op_symbol(op) && v.len() > 0,
{
    reveal_strlit("<");
    reveal_strlit("<=");
    reveal_strlit("=");
    reveal_strlit("!=");
    reveal_strlit(">=");
    reveal_strlit(">");
    if let Some((op, v)) = range_op_captures(s) {
        if op.len() == 1 {
            if s[0] == '<' {
                assert(op =~= "<"@);
            } else if s[0] == '>' {
                assert(op =~= ">"@);
            } else {
                assert(op =~= "="@);
            }
        } else {
            if s[0] == '<' {
                assert(op =~= "<="@);
            } else if s[0] == '>' {
                assert(op =~= ">="@);
            } else {
                assert(op =~= "!="@);
            }
        }
    }
}

/// Matches `s` against the pattern `^(?<op>[<>]=?|!?=)(?<value>.+)$` with the `regex`
/// crate and returns the two named groups. Claimed: the groups are those that
/// `range_op_captures` gives for the input, and there is a match exactly when it gives
/// some.
#[verifier::external_body]
fn range_op_regex_captures(s: &str) -> (r: Option<(String, String)>)
    ensures
        r matches Some((op, v)) ==> range_op_captures(s@) == Some((op@, v@)),
        r is None ==> range_op_captures(s@) is None,
{
    let re = regex::Regex::new(r"^(?<op>[<>]=?|!?=)(?<value>.+)$").unwrap();
    match re.captures(s) {
        Some(caps) => Some((caps["op"].to_string(), caps["value"].to_string())),
        None => None,
    }
}

/// Comparison of a value against a bound.
#[derive(Debug)]
pub enum RangeOp<T> {
    Less(T),
    LessOrEqual(T),
    Equal(T),
    NotEqual(T),
    GreaterOrEqual(T),
    Greater(T),
}

/// A value of `T` built from an operator symbol.
pub open spec fn range_op_of<T>(op: Seq<char>, v: T) -> RangeOp<T> {
    if op == "<"@ {
        RangeOp::Less(v)
    } else if op == "<="@ {
        RangeOp::LessOrEqual(v)
    } else if op == "="@ {
        RangeOp::Equal(v)
    } else if op == "!="@ {
        RangeOp::NotEqual(v)
    } else if op == ">="@ {
        RangeOp::GreaterOrEqual(v)
    } else {
        RangeOp::Greater(v)
    }
}

/// Message for a range bound that fails to parse.
pub open spec fn invalid_range_value(value: Seq<char>, e: Seq<char>) -> Seq<char> {
    "invalid range value: "@ + value + ": "@ + e
}

fn invalid_range_value_msg(value: &str, e: &str) -> (r: String)
    ensures
        r@ == invalid_range_value(value@, e@),
{
    let a = concat("invalid range value: ", value);
    let b = concat(a.as_str(), ": ");
    concat(b.as_str(), e)
}

impl<T: FromText> RangeOp<T> {
    /// Whether `v` is the value that the captured operator and value denote.
    pub open spec fn parts_value(op: Seq<char>, value: Seq<char>, v: RangeOp<T>) -> bool {
        match v {
            RangeOp::Less(x) => op == "<"@ && T::text_value(value, x),
            RangeOp::LessOrEqual(x) => op == "<="@ && T::text_value(value, x),
            RangeOp::Equal(x) => op == "="@ && T::text_value(value, x),
            RangeOp::NotEqual(x) => op == "!="@ && T::text_value(value, x),
            RangeOp::GreaterOrEqual(x) => op == ">="@ && T::text_value(value, x),
            RangeOp::Greater(x) => op == ">"@ && T::text_value(value, x),
        }
    }

    /// Builds a range operator from the operator and value groups of its text.
    pub fn from_parts(op: &str, value: &str) -> (r: Result<RangeOp<T>, Error>)
        requires
            is_range_op_symbol(op@),
        ensures
            r is Ok <==> T::text_ok(value@),
            r matches Ok(v) ==> Self::parts_value(op@, value@, v),
            r matches Err(e) ==> e.is_invalid_value(invalid_range_value(value@, T::text_error(value@))),
    {
        let v = match T::from_text(value) {
            Ok(v) => v,
            Err(e) => return Err(Error::InvalidValue(invalid_range_value_msg(value, e.as_str()))),
        };
        let o = chars_of(op);
        proof {
            reveal_strlit("<");
            reveal_strlit("<=");
            reveal_strlit("=");
            reveal_strlit("!=");
            reveal_strlit(">=");
            reveal_strlit(">");
        }
        if o.len() == 1 && o[0] == '<' {
            assert(o@ =~= "<"@);
            Ok(RangeOp::Less(v))
        } else if o.len() == 2 && o[0] == '<' {
            assert(o@ =~= "<="@);
            Ok(RangeOp::LessOrEqual(v))
        } else if o.len() == 1 && o[0] == '=' {
            assert(o@ =~= "="@);
            Ok(RangeOp::Equal(v))
        } else if o.len() == 2 && o[0] == '!' {
            assert(o@ =~= "!="@);
            Ok(RangeOp::NotEqual(v))
        } else if o.len() == 2 && o[0] == '>' {
            assert(o@ =~= ">="@);
            Ok(RangeOp::GreaterOrEqual(v))
        } else {
            assert(o@ =~= ">"@);
            Ok(RangeOp::Greater(v))
        }
    }
}

impl<T: FromText> FromText for RangeOp<T> {
    open spec fn text_ok(s: Seq<char>) -> bool {
        match range_op_captures(s) {
            Some((op, value)) => T::text_ok(value),
            None => false,
        }
    }

    open spec fn text_value(s: Seq<char>, v: RangeOp<T>) -> bool {
        match range_op_captures(s) {
            Some((op, value)) => Self::parts_value(op, value, v),
            None => false,
        }
    }

    open spec fn text_error(s: Seq<char>) -> Seq<char> {
        match range_op_captures(s) {
            Some((op, value)) => invalid_range_value(value, T::text_error(value)),
            None => "invalid range op: "@ + s,
        }
    }

    fn from_text(s: &str) -> (r: Result<RangeOp<T>, String>) {
        proof {
            lemma_range_op_captures(s@);
        }
        match range_op_regex_captures(s) {
            Some((op, value)) => match Self::from_parts(op.as_str(), value.as_str()) {
                Ok(v) => Ok(v),
                Err(Error::InvalidValue(m)) => Err(m),
                Err(_) => Err(String::new()),
            },
            None => Err(concat("invalid range op: ", s)),
        }
    }
}

impl<T: ToText> ToText for RangeOp<T> {
    open spec fn spec_text(&self) -> Seq<char> {
        match self {
            RangeOp::Less(v) => "<"@ + v.spec_text(),
            RangeOp::LessOrEqual(v) => "<="@ + v.spec_text(),
            RangeOp::Equal(v) => "="@ + v.spec_text(),
            RangeOp::NotEqual(v) => "!="@ + v.spec_text(),
            RangeOp::GreaterOrEqual(v) => ">="@ + v.spec_text(),
            RangeOp::Greater(v) => ">"@ + v.spec_text(),
        }
    }

    fn to_text(&self) -> (s: String) {
        match self {
            RangeOp::Less(v) => concat("<", v.to_text().as_str()),
            RangeOp::LessOrEqual(v) => concat("<=", v.to_text().as_str()),
            RangeOp::Equal(v) => concat("=", v.to_text().as_str()),
            RangeOp::NotEqual(v) => concat("!=", v.to_text().as_str()),
            RangeOp::GreaterOrEqual(v) => concat(">=", v.to_text().as_str()),
            RangeOp::Greater(v) => concat(">", v.to_text().as_str()),
        }
    }
}

impl<T: Ordered> RangeOp<T> {
    /// Whether `item` satisfies the comparison.
    pub open spec fn spec_matches(&self, item: &T) -> bool {
        match self {
            RangeOp::Less(v) => item.spec_lt(v),
            RangeOp::LessOrEqual(v) => item.spec_lt(v) || item.spec_same(v),
            RangeOp::Equal(v) => item.spec_same(v),
            RangeOp::NotEqual(v) => !item.spec_same(v),
            RangeOp::GreaterOrEqual(v) => v.spec_lt(item) || item.spec_same(v),
            RangeOp::Greater(v) => v.spec_lt(item),
        }
    }

    /// Whether `item` satisfies the comparison.
    pub fn matches(&self, item: &T) -> (r: bool)
        ensures
            r == self.spec_matches(item),
    {
        match self {
            RangeOp::Less(v) => item.lt(v),
            RangeOp::LessOrEqual(v) => item.lt(v) || item.same(v),
            RangeOp::Equal(v) => item.same(v),
            RangeOp::NotEqual(v) => !item.same(v),
            RangeOp::GreaterOrEqual(v) => v.lt(item) || item.same(v),
            RangeOp::Greater(v) => v.lt(item),
        }
    }
}

/// On numbers, each comparison holds of an item exactly as its symbol reads with the
/// item on the left: `<v` of items below `v`, `>v` of items above it, and so on; and each
/// comparison holds exactly where its opposite does not.
pub proof fn lemma_range_op_numbers(v: u64, item: u64)
    ensures
        RangeOp::Less(v).spec_matches(&item) <==> item < v,
        RangeOp::LessOrEqual(v).spec_matches(&item) <==> item <= v,
        RangeOp::Equal(v).spec_matches(&item) <==> item == v,
        RangeOp::NotEqual(v).spec_matches(&item) <==> item != v,
        RangeOp::GreaterOrEqual(v).spec_matches(&item) <==> item >= v,
        RangeOp::Greater(v).spec_matches(&item) <==> item > v,
        RangeOp::Less(v).spec_matches(&item) <==> !RangeOp::GreaterOrEqual(v).spec_matches(&item),
        RangeOp::Greater(v).spec_matches(&item) <==> !RangeOp::LessOrEqual(v).spec_matches(&item),
        RangeOp::Equal(v).spec_matches(&item) <==> !RangeOp::NotEqual(v).spec_matches(&item),
{
}

/// A range of values: `a..b`, `a..=b`, `..b`, `..=b`, `a..` or `..`.
#[derive(Debug)]
pub enum Range<T> {
    Range(T, T),
    Inclusive(T, T),
    To(T),
    ToInclusive(T),
    From(T),
    Full,
}

/// The bounds and the kind of separator of a range's text; the separator is `..=` when
/// the boolean is set.
pub open spec fn range_parts(s: Seq<char>) -> Option<(Seq<char>, bool, Seq<char>)> {
    match split_once(s, "..="@) {
        Some((a, b)) => Some((a, true, b)),
        None => match split_once(s, ".."@) {
            Some((a, b)) => Some((a, false, b)),
            None => None,
        },
    }
}

impl<T: ParsedValue> Range<T> {
    /// Whether a bound's text is absent or parses.
    pub open spec fn bound_ok(b: Seq<char>) -> bool {
        b.len() == 0 || T::text_ok(b)
    }

    /// Whether both bounds of an exclusive range denote the same value.
    pub open spec fn empty_bounds(a: Seq<char>, b: Seq<char>) -> bool {
        exists|x: T, y: T| T::text_value(a, x) && T::text_value(b, y) && x.spec_same(&y)
    }

    proof fn lemma_bounds_differ(a: Seq<char>, b: Seq<char>, x: T, y: T)
        requires
            T::text_value(a, x),
            T::text_value(b, y),
            !x.spec_same(&y),
        ensures
            !Self::empty_bounds(a, b),
    {
        if Self::empty_bounds(a, b) {
            let (x2, y2) = choose|x2: T, y2: T| T::text_value(a, x2) && T::text_value(b, y2) && x2.spec_same(&y2);
            T::lemma_text_value_unique(a, x, x2);
            T::lemma_text_value_unique(b, y2, y);
            T::lemma_same_transitive(x, x2, y2);
            T::lemma_same_transitive(x, y2, y);
        }
    }
}

impl<T: ParsedValue> FromText for Range<T> {
    open spec fn text_ok(s: Seq<char>) -> bool {
        match range_parts(s) {
            Some((a, incl, b)) => {
                &&& Self::bound_ok(a)
                &&& Self::bound_ok(b)
                &&& !(incl && b.len() == 0)
                &&& (!incl && a.len() > 0 && b.len() > 0 ==> !Self::empty_bounds(a, b))
            },
            None => false,
        }
    }

    open spec fn text_value(s: Seq<char>, v: Range<T>) -> bool {
        match range_parts(s) {
            Some((a, incl, b)) => match v {
                Range::Range(x, y) => !incl && T::text_value(a, x) && T::text_value(b, y),
                Range::Inclusive(x, y) => incl && T::text_value(a, x) && T::text_value(b, y),
                Range::To(y) => !incl && a.len() == 0 && T::text_value(b, y),
                Range::ToInclusive(y) => incl && a.len() == 0 && T::text_value(b, y),
                Range::From(x) => !incl && b.len() == 0 && T::text_value(a, x),
                Range::Full => !incl && a.len() == 0 && b.len() == 0,
            },
            None => false,
        }
    }

    open spec fn text_error(s: Seq<char>) -> Seq<char> {
        match range_parts(s) {
            Some((a, incl, b)) => if !Self::bound_ok(a) {
                invalid_range_value(a, T::text_error(a))
            } else if !Self::bound_ok(b) {
                invalid_range_value(b, T::text_error(b))
            } else if incl && b.len() == 0 {
                "invalid range: "@ + s
            } else {
                "empty range: "@ + s
            },
            None => "invalid range: "@ + s,
        }
    }

    fn from_text(s: &str) -> (r: Result<Range<T>, String>) {
        let c = chars_of(s);
        let incl_sep = chars_of("..=");
        let excl_sep = chars_of("..");
        let (start, incl, finish) = match split_once_chars(c.as_slice(), incl_sep.as_slice()) {
            Some((a, b)) => (a, true, b),
            None => match split_once_chars(c.as_slice(), excl_sep.as_slice()) {
                Some((a, b)) => (a, false, b),
                None => return Err(concat("invalid range: ", s)),
            },
        };
        assert(range_parts(s@) == Some((start@, incl, finish@)));
        let x: Option<T> = if !start.as_str().is_empty() {
            match T::from_text(start.as_str()) {
                Ok(v) => Some(v),
                Err(e) => return Err(invalid_range_value_msg(start.as_str(), e.as_str())),
            }
        } else {
            None
        };
        let y: Option<T> = if !finish.as_str().is_empty() {
            match T::from_text(finish.as_str()) {
                Ok(v) => Some(v),
                Err(e) => return Err(invalid_range_value_msg(finish.as_str(), e.as_str())),
            }
        } else {
            None
        };
        match (x, y, incl) {
            (Some(a), Some(b), false) => {
                if !a.same(&b) {
                    proof {
                        Self::lemma_bounds_differ(start@, finish@, a, b);
                    }
                    Ok(Range::Range(a, b))
                } else {
                    Err(concat("empty range: ", s))
                }
            },
            (Some(a), None, false) => Ok(Range::From(a)),
            (None, Some(b), false) => Ok(Range::To(b)),
            (None, None, false) => Ok(Range::Full),
            (Some(a), Some(b), true) => Ok(Range::Inclusive(a, b)),
            (None, Some(b), true) => Ok(Range::ToInclusive(b)),
            _ => Err(concat("invalid range: ", s)),
        }
    }
}

impl<T: ToText> ToText for Range<T> {
    open spec fn spec_text(&self) -> Seq<char> {
        match self {
            Range::Range(a, b) => a.spec_text() + ".."@ + b.spec_text(),
            Range::Inclusive(a, b) => a.spec_text() + "..="@ + b.spec_text(),
            Range::To(b) => ".."@ + b.spec_text(),
            Range::ToInclusive(b) => "..="@ + b.spec_text(),
            Range::From(a) => a.spec_text() + ".."@,
            Range::Full => ".."@,
        }
    }

    fn to_text(&self) -> (s: String) {
        match self {
            Range::Range(a, b) => {
                let x = concat(a.to_text().as_str(), "..");
                concat(x.as_str(), b.to_text().as_str())
            },
            Range::Inclusive(a, b) => {
                let x = concat(a.to_text().as_str(), "..=");
                concat(x.as_str(), b.to_text().as_str())
            },
            Range::To(b) => concat("..", b.to_text().as_str()),
            Range::ToInclusive(b) => concat("..=", b.to_text().as_str()),
            Range::From(a) => concat(a.to_text().as_str(), ".."),
            Range::Full => owned(".."),
        }
    }
}

impl<T: Ordered> Range<T> {
    /// Whether `item` lies in the range.
    pub open spec fn spec_contains(&self, item: &T) -> bool {
        match self {
            Range::Range(a, b) => (a.spec_lt(item) || item.spec_same(a)) && item.spec_lt(b),
            Range::Inclusive(a, b) => (a.spec_lt(item) || item.spec_same(a)) && (item.spec_lt(b)
                || item.spec_same(b)),
            Range::To(b) => item.spec_lt(b),
            Range::ToInclusive(b) => item.spec_lt(b) || item.spec_same(b),
            Range::From(a) => a.spec_lt(item) || item.spec_same(a),
            Range::Full => true,
        }
    }

    /// Whether `item` lies in the range.
    pub fn contains(&self, item: &T) -> (r: bool)
        ensures
            r == self.spec_contains(item),
    {
        match self {
            Range::Range(a, b) => (a.lt(item) || item.same(a)) && item.lt(b),
            Range::Inclusive(a, b) => (a.lt(item) || item.same(a)) && (item.lt(b) || item.same(b)),
            Range::To(b) => item.lt(b),
            Range::ToInclusive(b) => item.lt(b) || item.same(b),
            Range::From(a) => a.lt(item) || item.same(a),
            Range::Full => true,
        }
    }

    /// Whether `item` lies in the range.
    pub fn matches(&self, item: &T) -> (r: bool)
        ensures
            r == self.spec_contains(item),
    {
        self.contains(item)
    }
}

/// A single value, a comparison against a value, or a range of values.
#[derive(Debug)]
pub enum RangeOrValue<T> {
    Value(T),
    RangeOp(RangeOp<T>),
    Range(Range<T>),
}

impl<T: ParsedValue> FromText for RangeOrValue<T> {
    open spec fn text_ok(s: Seq<char>) -> bool {
        T::text_ok(s) || RangeOp::<T>::text_ok(s) || Range::<T>::text_ok(s)
    }

    open spec fn text_value(s: Seq<char>, v: RangeOrValue<T>) -> bool {
        if T::text_ok(s) {
            v matches RangeOrValue::Value(x) && T::text_value(s, x)
        } else if RangeOp::<T>::text_ok(s) {
            v matches RangeOrValue::RangeOp(x) && RangeOp::<T>::text_value(s, x)
        } else {
            v matches RangeOrValue::Range(x) && Range::<T>::text_value(s, x)
        }
    }

    open spec fn text_error(s: Seq<char>) -> Seq<char> {
        "invalid range or value: "@ + s
    }

    fn from_text(s: &str) -> (r: Result<RangeOrValue<T>, String>) {
        if let Ok(v) = T::from_text(s) {
            Ok(RangeOrValue::Value(v))
        } else if let Ok(v) = RangeOp::<T>::from_text(s) {
            Ok(RangeOrValue::RangeOp(v))
        } else if let Ok(v) = Range::<T>::from_text(s) {
            Ok(RangeOrValue::Range(v))
        } else {
            Err(concat("invalid range or value: ", s))
        }
    }
}

impl<T: ToText> ToText for RangeOrValue<T> {
    open spec fn spec_text(&self) -> Seq<char> {
        match self {
            RangeOrValue::Value(v) => v.spec_text(),
            RangeOrValue::RangeOp(v) => v.spec_text(),
            RangeOrValue::Range(v) => v.spec_text(),
        }
    }

    fn to_text(&self) -> (s: String) {
        match self {
            RangeOrValue::Value(v) => v.to_text(),
            RangeOrValue::RangeOp(v) => v.to_text(),
            RangeOrValue::Range(v) => v.to_text(),
        }
    }
}

impl<T: Ordered> RangeOrValue<T> {
    /// Whether `item` is the value, satisfies the comparison or lies in the range.
    pub open spec fn spec_matches(&self, item: &T) -> bool {
        match self {
            RangeOrValue::Value(v) => v.spec_same(item),
            RangeOrValue::RangeOp(v) => v.spec_matches(item),
            RangeOrValue::Range(v) => v.spec_contains(item),
        }
    }

    /// Whether `item` is the value, satisfies the comparison or lies in the range.
    pub fn matches(&self, item: &T) -> (r: bool)
        ensures
            r == self.spec_matches(item),
    {
        match self {
            RangeOrValue::Value(v) => v.same(item),
            RangeOrValue::RangeOp(v) => v.matches(item),
            RangeOrValue::Range(v) => v.contains(item),
        }
    }
}

/// On numbers, a range holds the items from its start, included, to its end, excluded
/// for `a..b` and `..b` and included for `a..=b` and `..=b`; a value holds itself alone;
/// and a comparison holds as its symbol reads.
pub proof fn lemma_range_or_value_numbers(r: RangeOrValue<u64>, item: u64)
    ensures
        r matches RangeOrValue::Value(v) ==> (r.spec_matches(&item) <==> item == v),
        r matches RangeOrValue::Range(Range::Range(a, b)) ==> (r.spec_matches(&item) <==> a <= item < b),
        r matches RangeOrValue::Range(Range::Inclusive(a, b)) ==> (r.spec_matches(&item) <==> a <= item <= b),
        r matches RangeOrValue::Range(Range::To(b)) ==> (r.spec_matches(&item) <==> item < b),
        r matches RangeOrValue::Range(Range::ToInclusive(b)) ==> (r.spec_matches(&item) <==> item <= b),
        r matches RangeOrValue::Range(Range::From(a)) ==> (r.spec_matches(&item) <==> a <= item),
        r matches RangeOrValue::Range(Range::Full) ==> r.spec_matches(&item),
        r matches RangeOrValue::RangeOp(RangeOp::Greater(v)) ==> (r.spec_matches(&item) <==> item > v),
        r matches RangeOrValue::RangeOp(RangeOp::GreaterOrEqual(v)) ==> (r.spec_matches(&item) <==> item >= v),
        r matches RangeOrValue::RangeOp(RangeOp::Less(v)) ==> (r.spec_matches(&item) <==> item < v),
        r matches RangeOrValue::RangeOp(RangeOp::LessOrEqual(v)) ==> (r.spec_matches(&item) <==> item <= v),
        r matches RangeOrValue::RangeOp(RangeOp::Equal(v)) ==> (r.spec_matches(&item) <==> item == v),
        r matches RangeOrValue::RangeOp(RangeOp::NotEqual(v)) ==> (r.spec_matches(&item) <==> item != v),
{
}

/// Change to a set-valued field: add, remove or set a value.
#[derive(Debug)]
pub enum SetChange<T> {
    Add(T),
    Remove(T),
    Assign(T),
}

impl<T: FromText> FromText for SetChange<T> {
    open spec fn text_ok(s: Seq<char>) -> bool {
        if s.len() > 0 && (s[0] == '+' || s[0] == '-') {
            T::text_ok(s.subrange(1, s.len() as int))
        } else {
            T::text_ok(s)
        }
    }

    open spec fn text_value(s: Seq<char>, v: SetChange<T>) -> bool {
        if s.len() > 0 && s[0] == '+' {
            v matches SetChange::Add(x) && T::text_value(s.subrange(1, s.len() as int), x)
        } else if s.len() > 0 && s[0] == '-' {
            v matches SetChange::Remove(x) && T::text_value(s.subrange(1, s.len() as int), x)
        } else {
            v matches SetChange::Assign(x) && T::text_value(s, x)
        }
    }

    open spec fn text_error(s: Seq<char>) -> Seq<char> {
        "failed parsing change: "@ + s
    }

    fn from_text(s: &str) -> (r: Result<SetChange<T>, String>) {
        let c = chars_of(s);
        if c.len() > 0 && (c[0] == '+' || c[0] == '-') {
            let rest = crate::text::string_of(c.as_slice(), 1, c.len());
            match T::from_text(rest.as_str()) {
                Ok(v) => if c[0] == '+' {
                    Ok(SetChange::Add(v))
                } else {
                    Ok(SetChange::Remove(v))
                },
                Err(_) => Err(concat("failed parsing change: ", s)),
            }
        } else {
            match T::from_text(s) {
                Ok(v) => Ok(SetChange::Assign(v)),
                Err(_) => Err(concat("failed parsing change: ", s)),
            }
        }
    }
}

impl<T: ToText> ToText for SetChange<T> {
    open spec fn spec_text(&self) -> Seq<char> {
        match self {
            SetChange::Add(v) => "+"@ + v.spec_text(),
            SetChange::Remove(v) => "-"@ + v.spec_text(),
            SetChange::Assign(v) => v.spec_text(),
        }
    }

    fn to_text(&self) -> (s: String) {
        match self {
            SetChange::Add(v) => concat("+", v.to_text().as_str()),
            SetChange::Remove(v) => concat("-", v.to_text().as_str()),
            SetChange::Assign(v) => v.to_text(),
        }
    }
}

/// Values of a list of set changes grouped by kind.
#[derive(Debug)]
pub struct SetChanges<T> {
    pub add: Option<Vec<T>>,
    pub remove: Option<Vec<T>>,
    pub set: Option<Vec<T>>,
}

/// Values of the changes of one sort, in order: additions for 0, removals for 1, assignments
/// for 2.
pub open spec fn changes_of_kind<T>(changes: Seq<SetChange<T>>, kind: int) -> Seq<T>
    decreases changes.len(),
{
    if changes.len() == 0 {
        Seq::empty()
    } else {
        let rest = changes_of_kind(changes.drop_last(), kind);
        match changes.last() {
            SetChange::Add(v) => if kind == 0 { rest.push(v) } else { rest },
            SetChange::Remove(v) => if kind == 1 { rest.push(v) } else { rest },
            SetChange::Assign(v) => if kind == 2 { rest.push(v) } else { rest },
        }
    }
}

/// Whether `sc` groups `changes` by kind: the added and removed values always, the set
/// values when there are any or when nothing is added or removed.
pub open spec fn grouped<T>(sc: SetChanges<T>, changes: Seq<SetChange<T>>) -> bool {
    &&& sc.add matches Some(a) && a@ == changes_of_kind(changes, 0)
    &&& sc.remove matches Some(a) && a@ == changes_of_kind(changes, 1)
    &&& (sc.set is Some <==> (changes_of_kind(changes, 2).len() > 0 || (changes_of_kind(changes, 0).len() == 0
        && changes_of_kind(changes, 1).len() == 0)))
    &&& (sc.set matches Some(a) ==> a@ == changes_of_kind(changes, 2))
}

impl<T> SetChanges<T> {
    /// Groups changes by kind; the set list is present when it is not empty or when
    /// nothing is added or removed.
    pub fn from_changes(changes: Vec<SetChange<T>>) -> (r: SetChanges<T>)
        ensures
            grouped(r, changes@),
            r.add matches Some(a) && a@ == changes_of_kind(changes@, 0),
            r.remove matches Some(a) && a@ == changes_of_kind(changes@, 1),
            r.set is Some <==> (changes_of_kind(changes@, 2).len() > 0 || (changes_of_kind(changes@, 0).len() == 0
                && changes_of_kind(changes@, 1).len() == 0)),
            r.set matches Some(a) ==> a@ == changes_of_kind(changes@, 2),
    {
        let ghost all = changes@;
        let mut add: Vec<T> = Vec::new();
        let mut remove: Vec<T> = Vec::new();
        let mut set: Vec<T> = Vec::new();
        let mut rest = changes;
        let ghost n = all.len();
        while rest.len() > 0
            invariant
                rest@.len() <= n,
                n == all.len(),
                rest@ == all.subrange(n - rest@.len(), n as int),
                add@ == changes_of_kind(all.subrange(0, n - rest@.len()), 0),
                remove@ == changes_of_kind(all.subrange(0, n - rest@.len()), 1),
                set@ == changes_of_kind(all.subrange(0, n - rest@.len()), 2),
            decreases rest.len(),
        {
            let ghost k = n - rest@.len();
            let c = rest.remove(0);
            assert(c == all[k]);
            assert(rest@ =~= all.subrange(n - rest@.len(), n as int));
            assert(all.subrange(0, k + 1).drop_last() =~= all.subrange(0, k));
            match c {
                SetChange::Add(v) => add.push(v),
                SetChange::Remove(v) => remove.push(v),
                SetChange::Assign(v) => set.push(v),
            }
        }
        assert(all.subrange(0, n as int) =~= all);
        let set = if set.len() > 0 || (add.len() == 0 && remove.len() == 0) {
            Some(set)
        } else {
            None
        };
        SetChanges { add: Some(add), remove: Some(remove), set }
    }
}

} // verus!
