//! Times used by search requests: the current time, a delta back from it, or a static date.
use vstd::prelude::*;

use crate::text::{chars_of, concat, owned};
use crate::traits::{Api, FromText, ParsedValue, SameValue, ToText};

verus! {

/// Whether `s` follows `shape`, where `d` in the shape stands for a decimal digit and every
/// other character for itself.
pub open spec fn has_shape(s: Seq<char>, shape: Seq<char>) -> bool {
    s.len() == shape.len() && forall|i: int| 0 <= i < s.len() ==>
        if shape[i] == 'd' { '0' <= #[trigger] s[i] && s[i] <= '9' } else { s[i] == shape[i] }
}

/// Whether `s` is a relative time: a count of units followed by one of `h`, `d`, `w`, `m`, `y`.
pub open spec fn is_delta(s: Seq<char>) -> bool {
    &&& s.len() >= 2
    &&& forall|i: int| 0 <= i < s.len() - 1 ==> '0' <= #[trigger] s[i] && s[i] <= '9'
    &&& (s.last() == 'h' || s.last() == 'd' || s.last() == 'w' || s.last() == 'm' || s.last() == 'y')
}

/// Whether `s` is a static date: a year, a month, a day or a UTC timestamp.
pub open spec fn is_static(s: Seq<char>) -> bool {
    has_shape(s, "dddd"@) || has_shape(s, "dddd-dd"@) || has_shape(s, "dddd-dd-dd"@)
        || has_shape(s, "dddd-dd-ddTdd:dd:ddZ"@)
}

/// Whether `s` denotes a time.
pub open spec fn is_time(s: Seq<char>) -> bool {
    s == "now"@ || is_delta(s) || is_static(s)
}

fn check_shape(s: &[char], shape: &str) -> (r: bool)
    ensures
        r == has_shape(s@, shape@),
{
    let p = chars_of(shape);
    if s.len() != p.len() {
        return false;
    }
    let mut i: usize = 0;
    while i < s.len()
        invariant
            s@.len() == p@.len(),
            p@ == shape@,
            i <= s@.len(),
            forall|k: int| 0 <= k < i ==> if p@[k] == 'd' { '0' <= #[trigger] s@[k] && s@[k] <= '9' } else {
                s@[k] == p@[k]
            },
        decreases s.len() - i,
    {
        let ok = if p[i] == 'd' { '0' <= s[i] && s[i] <= '9' } else { s[i] == p[i] };
        if !ok {
            return false;
        }
        i = i + 1;
    }
    true
}

fn check_delta(s: &[char]) -> (r: bool)
    ensures
        r == is_delta(s@),
{
    if s.len() < 2 {
        return false;
    }
    let mut i: usize = 0;
    while i < s.len() - 1
        invariant
            s@.len() >= 2,
            i <= s@.len() - 1,
            forall|k: int| 0 <= k < i ==> '0' <= #[trigger] s@[k] && s@[k] <= '9',
        decreases s.len() - 1 - i,
    {
        if !('0' <= s[i] && s[i] <= '9') {
            return false;
        }
        i = i + 1;
    }
    let u = s[s.len() - 1];
    u == 'h' || u == 'd' || u == 'w' || u == 'm' || u == 'y'
}

/// A time given as `now`, as a delta back from now or as a static date.
#[derive(Debug)]
pub struct TimeDeltaOrStatic {
    text: String,
}

impl TimeDeltaOrStatic {
    /// Text the time was given as.
    pub closed spec fn spec_value(&self) -> Seq<char> {
        self.text@
    }

    /// The current time.
    pub fn now() -> (r: TimeDeltaOrStatic)
        ensures
            r.spec_value() == "now"@,
    {
        TimeDeltaOrStatic { text: owned("now") }
    }
}

impl FromText for TimeDeltaOrStatic {
    open spec fn text_ok(s: Seq<char>) -> bool {
        is_time(s)
    }

    open spec fn text_value(s: Seq<char>, v: TimeDeltaOrStatic) -> bool {
        v.spec_value() == s
    }

    open spec fn text_error(s: Seq<char>) -> Seq<char> {
        "invalid time: "@ + s
    }

    fn from_text(s: &str) -> (r: Result<TimeDeltaOrStatic, String>) {
        let c = chars_of(s);
        let ok = check_shape(c.as_slice(), "now") || check_delta(c.as_slice()) || check_shape(
            c.as_slice(),
            "dddd",
        ) || check_shape(c.as_slice(), "dddd-dd") || check_shape(c.as_slice(), "dddd-dd-dd")
            || check_shape(c.as_slice(), "dddd-dd-ddTdd:dd:ddZ");
        proof {
            reveal_strlit("now");
            if has_shape(s@, "now"@) {
                assert(s@ =~= "now"@);
            }
            if s@ == "now"@ {
                assert(has_shape(s@, "now"@));
            }
        }
        if ok {
            Ok(TimeDeltaOrStatic { text: owned(s) })
        } else {
            Err(concat("invalid time: ", s))
        }
    }
}

impl ToText for TimeDeltaOrStatic {
    open spec fn spec_text(&self) -> Seq<char> {
        self.spec_value()
    }

    fn to_text(&self) -> (s: String) {
        self.text.clone()
    }
}

impl Api for TimeDeltaOrStatic {
    open spec fn spec_api(&self) -> Seq<char> {
        self.spec_value()
    }

    fn api(&self) -> (s: String) {
        self.text.clone()
    }
}

impl SameValue for TimeDeltaOrStatic {
    open spec fn spec_same(&self, other: &Self) -> bool {
        self.spec_value() == other.spec_value()
    }

    fn same(&self, other: &Self) -> (r: bool) {
        self.text == other.text
    }
}

impl ParsedValue for TimeDeltaOrStatic {
    proof fn lemma_text_value_unique(s: Seq<char>, x: Self, y: Self) {
    }

    proof fn lemma_same_symmetric(x: Self, y: Self) {
    }

    proof fn lemma_same_transitive(x: Self, y: Self, z: Self) {
    }
}

} // verus!
