//! Bug updates: the changes a service reports, and the preparation of update requests as
//! decisions taken between the reads the caller performs.
use vstd::prelude::*;

use crate::error::Error;
use crate::objects::{grouped, Range, SetChange, SetChanges};
use crate::service::bugzilla::{spec_user_alias, Bugzilla};
use crate::web::{join_url, url_join_result};
use crate::sets::{dedup, dedup_values};
use crate::text::{concat, join, nat_digits, owned, push_char, seq_join, split_char, split_on, str_eq};
use crate::objects::bugzilla::Flag;
use crate::traits::{lemma_filter_push, merge_option, spec_merge_option, FromText, ToText};

verus! {

/// Changes made to a field.
#[derive(Debug)]
pub struct FieldChange {
    pub added: Option<String>,
    pub removed: Option<String>,
}

impl FieldChange {
    /// Whether anything was added or removed.
    pub open spec fn valid(&self) -> bool {
        self.removed is Some || self.added is Some
    }

    /// Text of the change: the removed value, an arrow and the added value; a lone
    /// removed value after `-`, a lone added value after `+`.
    pub open spec fn spec_text(&self) -> Seq<char> {
        match (self.removed, self.added) {
            (Some(r), Some(a)) => r@ + " -> "@ + a@,
            (Some(r), None) => "-"@ + r@,
            (None, Some(a)) => "+"@ + a@,
            (None, None) => Seq::empty(),
        }
    }

    /// Text of the change.
    pub fn to_text(&self) -> (r: String)
        requires
            self.valid(),
        ensures
            r@ == self.spec_text(),
    {
        match (&self.removed, &self.added) {
            (Some(r), Some(a)) => {
                let x = concat(r.as_str(), " -> ");
                concat(x.as_str(), a.as_str())
            },
            (Some(r), None) => concat("-", r.as_str()),
            (None, Some(a)) => concat("+", a.as_str()),
            (None, None) => String::new(),
        }
    }
}

/// Changes made to a bug.
#[derive(Debug)]
pub struct BugChange {
    pub id: u64,
    pub comment: Option<String>,
    /// Changed fields by name, in the order the service lists them.
    pub changes: Vec<(String, FieldChange)>,
}

/// Lines of changed fields, each after a newline.
pub open spec fn field_changes_text(cs: Seq<(String, FieldChange)>) -> Seq<char>
    decreases cs.len(),
{
    if cs.len() == 0 {
        Seq::empty()
    } else {
        field_changes_text(cs.drop_last()) + "\n"@ + cs.last().0@ + ": "@ + cs.last().1.spec_text()
    }
}

impl BugChange {
    /// Whether every field change is valid.
    pub open spec fn valid(&self) -> bool {
        forall|i: int| 0 <= i < self.changes@.len() ==> (#[trigger] self.changes@[i]).1.valid()
    }

    /// Text of the changes: a heading naming the bug, the updated fields (or `None`), and
    /// the added comment when there is one.
    pub open spec fn spec_text(&self) -> Seq<char> {
        "=== Bug #"@ + nat_digits(self.id as nat) + " ===\n--- Updated fields ---"@ + (if self.changes@.len() > 0 {
            field_changes_text(self.changes@)
        } else {
            "\nNone"@
        }) + (match self.comment {
            Some(c) => "\n--- Added comment ---\n"@ + c@,
            None => Seq::empty(),
        })
    }

    /// Text of the changes.
    pub fn to_text(&self) -> (r: String)
        requires
            self.valid(),
        ensures
            r@ == self.spec_text(),
    {
        let mut t = concat("=== Bug #", crate::text::u64_to_string(self.id).as_str());
        t.append(" ===\n--- Updated fields ---");
        let ghost head = t@;
        if self.changes.len() > 0 {
            let mut i: usize = 0;
            while i < self.changes.len()
                invariant
                    i <= self.changes@.len(),
                    self.valid(),
                    t@ == head + field_changes_text(self.changes@.subrange(0, i as int)),
                decreases self.changes.len() - i,
            {
                let (name, change) = &self.changes[i];
                assert(self.changes@[i as int].1.valid());
                t.append("\n");
                t.append(name.as_str());
                t.append(": ");
                t.append(change.to_text().as_str());
                assert(self.changes@.subrange(0, i + 1).drop_last() =~= self.changes@.subrange(0, i as int));
                i = i + 1;
            }
            assert(self.changes@.subrange(0, self.changes@.len() as int) =~= self.changes@);
        } else {
            t.append("\nNone");
        }
        if let Some(c) = &self.comment {
            t.append("\n--- Added comment ---\n");
            t.append(c.as_str());
        }
        proof {
            reveal_strlit("");
        }
        t
    }
}

/// Tri-state boolean logic.
#[derive(Debug, PartialEq, Eq, Structural, Clone, Copy)]
pub enum TriBool {
    False,
    True,
    Unset,
}

impl TriBool {
    /// Name of the variant as given in arguments and shown to users.
    pub open spec fn spec_name(self) -> Seq<char> {
        match self {
            TriBool::False => "false"@,
            TriBool::True => "true"@,
            TriBool::Unset => "none"@,
        }
    }

    /// The first variant, in declaration order, with the given name.
    pub open spec fn spec_from_name(s: Seq<char>) -> Option<TriBool> {
        if s == "false"@ {
            Some(TriBool::False)
        } else if s == "true"@ {
            Some(TriBool::True)
        } else if s == "none"@ {
            Some(TriBool::Unset)
        } else {
            None
        }
    }

    /// All variants, in declaration order.
    pub open spec fn spec_all() -> Seq<TriBool> {
        seq![TriBool::False, TriBool::True, TriBool::Unset]
    }

    /// Position of the variant in declaration order.
    pub open spec fn spec_index(self) -> nat {
        match self {
            TriBool::False => 0,
            TriBool::True => 1,
            TriBool::Unset => 2,
        }
    }

    /// Position of the variant in declaration order.
    pub fn index(&self) -> (r: u64)
        ensures
            r == self.spec_index(),
    {
        match self {
            TriBool::False => 0,
            TriBool::True => 1,
            TriBool::Unset => 2,
        }
    }

    /// The variant at a position of the declaration order.
    pub proof fn lemma_index(self)
        ensures
            self.spec_index() < Self::spec_all().len(),
            Self::spec_all()[self.spec_index() as int] == self,
    {
    }

    /// All variants, in declaration order.
    pub fn all() -> (r: Vec<TriBool>)
        ensures
            r@ == Self::spec_all(),
    {
        let mut r = Vec::new();
        r.push(TriBool::False);
        r.push(TriBool::True);
        r.push(TriBool::Unset);
        assert(r@ =~= Self::spec_all());
        r
    }
}

impl FromText for TriBool {
    open spec fn text_ok(s: Seq<char>) -> bool {
        Self::spec_from_name(s) is Some
    }

    open spec fn text_value(s: Seq<char>, v: TriBool) -> bool {
        Self::spec_from_name(s) == Some(v)
    }

    open spec fn text_error(s: Seq<char>) -> Seq<char> {
        "Matching variant not found"@
    }

    fn from_text(s: &str) -> (r: Result<TriBool, String>) {
        if str_eq(s, "false") {
            return Ok(TriBool::False);
        }
        if str_eq(s, "true") {
            return Ok(TriBool::True);
        }
        if str_eq(s, "none") {
            return Ok(TriBool::Unset);
        }
        Err(owned("Matching variant not found"))
    }
}

impl TriBool {
    /// The name of a variant parses back to that variant.
    pub proof fn lemma_text_roundtrip(self)
        ensures
            Self::text_ok(self.spec_text()),
            Self::text_value(self.spec_text(), self),
    {
        reveal_strlit("false");
        reveal_strlit("true");
        reveal_strlit("none");
        match self {
            TriBool::False => {},
            TriBool::True => {
                assert("true"@.len() != "false"@.len());
            },
            TriBool::Unset => {
                assert("none"@.len() != "false"@.len());
                assert("none"@[0] != "true"@[0]);
            },
        }
    }
}

impl ToText for TriBool {
    open spec fn spec_text(&self) -> Seq<char> {
        self.spec_name()
    }

    fn to_text(&self) -> (s: String) {
        match self {
            TriBool::False => owned("false"),
            TriBool::True => owned("true"),
            TriBool::Unset => owned("none"),
        }
    }
}


impl TriBool {
    /// The optional boolean the value stands for.
    pub open spec fn spec_value(self) -> Option<bool> {
        match self {
            TriBool::False => Some(false),
            TriBool::True => Some(true),
            TriBool::Unset => None,
        }
    }

    /// The optional boolean the value stands for.
    pub fn value(&self) -> (r: Option<bool>)
        ensures
            r == self.spec_value(),
    {
        match self {
            TriBool::False => Some(false),
            TriBool::True => Some(true),
            TriBool::Unset => None,
        }
    }
}

/// A range of numbers, or a list of numbers each kept once in order of first appearance.
#[derive(Debug)]
pub enum RangeOrSet {
    Range(Range<u64>),
    Values(Vec<u64>),
}

/// Whether every piece is a number.
pub open spec fn pieces_parse(ps: Seq<Seq<char>>) -> bool {
    forall|i: int| 0 <= i < ps.len() ==> u64::text_ok(#[trigger] ps[i])
}

/// Numbers the pieces denote.
pub open spec fn pieces_values(ps: Seq<Seq<char>>) -> Seq<u64> {
    ps.map_values(|p: Seq<char>| choose|v: u64| u64::text_value(p, v))
}

/// The first piece that is no number.
pub open spec fn first_bad_piece(ps: Seq<Seq<char>>) -> Seq<char>
    decreases ps.len(),
{
    if ps.len() == 0 {
        Seq::empty()
    } else if !pieces_parse(ps.drop_last()) {
        first_bad_piece(ps.drop_last())
    } else {
        ps.last()
    }
}

impl FromText for RangeOrSet {
    open spec fn text_ok(s: Seq<char>) -> bool {
        Range::<u64>::text_ok(s) || pieces_parse(split_char(s, ','))
    }

    open spec fn text_value(s: Seq<char>, v: RangeOrSet) -> bool {
        if Range::<u64>::text_ok(s) {
            v matches RangeOrSet::Range(r) && Range::<u64>::text_value(s, r)
        } else {
            v matches RangeOrSet::Values(vs) && vs@ == dedup(pieces_values(split_char(s, ',')))
        }
    }

    open spec fn text_error(s: Seq<char>) -> Seq<char> {
        "invalid value: "@ + u64::text_error(first_bad_piece(split_char(s, ',')))
    }

    fn from_text(s: &str) -> (r: Result<RangeOrSet, String>) {
        let parsed = Range::<u64>::from_text(s);
        if let Ok(r) = parsed {
            return Ok(RangeOrSet::Range(r));
        }
        assert(!Range::<u64>::text_ok(s@));
        let pieces = split_on(s, ',');
        let ghost ps = split_char(s@, ',');
        let mut values: Vec<u64> = Vec::new();
        let mut i: usize = 0;
        while i < pieces.len()
            invariant
                i <= pieces@.len(),
                !Range::<u64>::text_ok(s@),
                ps == split_char(s@, ','),
                pieces@.len() == ps.len(),
                forall|j: int| 0 <= j < pieces@.len() ==> #[trigger] pieces@[j]@ == ps[j],
                pieces_parse(ps.subrange(0, i as int)),
                values@ == pieces_values(ps.subrange(0, i as int)),
            decreases pieces.len() - i,
        {
            let ghost prefix = ps.subrange(0, i + 1);
            assert(prefix.drop_last() =~= ps.subrange(0, i as int));
            match u64::from_text(pieces[i].as_str()) {
                Ok(v) => {
                    values.push(v);
                    assert(pieces_values(prefix) =~= pieces_values(ps.subrange(0, i as int)).push(v));
                },
                Err(m) => {
                    proof { lemma_first_bad_piece(ps, i as int); }
                    return Err(concat("invalid value: ", m.as_str()));
                },
            }
            i = i + 1;
        }
        assert(ps.subrange(0, ps.len() as int) =~= ps);
        Ok(RangeOrSet::Values(dedup_values(&values)))
    }
}

proof fn lemma_first_bad_piece(ps: Seq<Seq<char>>, i: int)
    requires
        0 <= i < ps.len(),
        pieces_parse(ps.subrange(0, i)),
        !u64::text_ok(ps[i]),
    ensures
        !pieces_parse(ps),
        first_bad_piece(ps) == ps[i],
    decreases ps.len(),
{
    if i < ps.len() - 1 {
        assert(ps.drop_last().subrange(0, i) =~= ps.subrange(0, i));
        assert(ps.drop_last()[i] == ps[i]);
        lemma_first_bad_piece(ps.drop_last(), i);
    } else {
        assert(ps.drop_last() =~= ps.subrange(0, i));
    }
}

/// Decimal texts of numbers.
pub open spec fn number_texts(v: Seq<u64>) -> Seq<Seq<char>> {
    v.map_values(|n: u64| nat_digits(n as nat))
}

impl ToText for RangeOrSet {
    open spec fn spec_text(&self) -> Seq<char> {
        match self {
            RangeOrSet::Range(r) => r.spec_text(),
            RangeOrSet::Values(vs) => seq_join(number_texts(vs@), ","@),
        }
    }

    fn to_text(&self) -> (s: String) {
        match self {
            RangeOrSet::Range(r) => r.to_text(),
            RangeOrSet::Values(vs) => {
                let mut texts: Vec<String> = Vec::new();
                let mut i: usize = 0;
                while i < vs.len()
                    invariant
                        i <= vs@.len(),
                        texts@.map_values(|x: String| x@) == number_texts(vs@.subrange(0, i as int)),
                    decreases vs.len() - i,
                {
                    let ghost before = texts@;
                    texts.push(crate::text::u64_to_string(vs[i]));
                    assert(texts@.map_values(|x: String| x@) =~= before.map_values(|x: String| x@).push(
                        nat_digits(vs@[i as int] as nat),
                    ));
                    assert(vs@.subrange(0, i + 1) =~= vs@.subrange(0, i as int).push(vs@[i as int]));
                    i = i + 1;
                }
                assert(vs@.subrange(0, vs@.len() as int) =~= vs@);
                join(&texts, ",")
            },
        }
    }
}

impl RangeOrSet {
    /// Whether a number is in the range or among the numbers.
    pub open spec fn spec_contains(&self, x: u64) -> bool {
        match self {
            RangeOrSet::Range(r) => r.spec_contains(&x),
            RangeOrSet::Values(vs) => vs@.contains(x),
        }
    }

    /// Whether a number is in the range or among the numbers.
    pub fn contains(&self, x: u64) -> (r: bool)
        ensures
            r == self.spec_contains(x),
    {
        match self {
            RangeOrSet::Range(r) => r.contains(&x),
            RangeOrSet::Values(vs) => {
                let mut i: usize = 0;
                let mut found = false;
                while i < vs.len() && !found
                    invariant
                        i <= vs@.len(),
                        found ==> vs@.contains(x),
                        !found ==> forall|j: int| 0 <= j < i ==> vs@[j] != x,
                    decreases vs.len() - i,
                {
                    if vs[i] == x {
                        assert(vs@[i as int] == x);
                        found = true;
                    }
                    i = i + 1;
                }
                found
            },
        }
    }
}


/// Bug update parameters.
#[derive(Debug)]
pub struct Parameters {
    pub alias: Option<Vec<SetChange<String>>>,
    pub assignee: Option<String>,
    pub blocks: Option<Vec<SetChange<u64>>>,
    pub cc: Option<Vec<SetChange<String>>>,
    pub comment: Option<String>,
    pub comment_from: Option<String>,
    pub comment_is_private: Option<bool>,
    pub comment_privacy: Option<(RangeOrSet, TriBool)>,
    pub component: Option<String>,
    pub depends: Option<Vec<SetChange<u64>>>,
    pub duplicate_of: Option<u64>,
    pub flags: Option<Vec<Flag>>,
    pub groups: Option<Vec<SetChange<String>>>,
    pub keywords: Option<Vec<SetChange<String>>>,
    pub os: Option<String>,
    pub platform: Option<String>,
    pub priority: Option<String>,
    pub product: Option<String>,
    pub qa: Option<String>,
    pub resolution: Option<String>,
    pub see_also: Option<Vec<SetChange<String>>>,
    pub severity: Option<String>,
    pub status: Option<String>,
    pub summary: Option<String>,
    pub target: Option<String>,
    pub url: Option<String>,
    pub version: Option<String>,
    pub whiteboard: Option<String>,
    pub custom_fields: Option<Vec<(String, String)>>,
}

impl Parameters {
    /// Parameters with nothing set.
    pub open spec fn spec_is_empty(&self) -> bool {
        self.alias is None && self.assignee is None && self.blocks is None && self.cc is None && self.comment is None && self.comment_from is None && self.comment_is_private is None && self.comment_privacy is None && self.component is None && self.depends is None && self.duplicate_of is None && self.flags is None && self.groups is None && self.keywords is None && self.os is None && self.platform is None && self.priority is None && self.product is None && self.qa is None && self.resolution is None && self.see_also is None && self.severity is None && self.status is None && self.summary is None && self.target is None && self.url is None && self.version is None && self.whiteboard is None && self.custom_fields is None
    }

    /// Parameters set in `self`, with those it lacks taken from `other`.
    pub open spec fn spec_merged(self, other: Parameters) -> Parameters {
        Parameters {
            alias: spec_merge_option(self.alias, other.alias),
            assignee: spec_merge_option(self.assignee, other.assignee),
            blocks: spec_merge_option(self.blocks, other.blocks),
            cc: spec_merge_option(self.cc, other.cc),
            comment: spec_merge_option(self.comment, other.comment),
            comment_from: spec_merge_option(self.comment_from, other.comment_from),
            comment_is_private: spec_merge_option(self.comment_is_private, other.comment_is_private),
            comment_privacy: spec_merge_option(self.comment_privacy, other.comment_privacy),
            component: spec_merge_option(self.component, other.component),
            depends: spec_merge_option(self.depends, other.depends),
            duplicate_of: spec_merge_option(self.duplicate_of, other.duplicate_of),
            flags: spec_merge_option(self.flags, other.flags),
            groups: spec_merge_option(self.groups, other.groups),
            keywords: spec_merge_option(self.keywords, other.keywords),
            os: spec_merge_option(self.os, other.os),
            platform: spec_merge_option(self.platform, other.platform),
            priority: spec_merge_option(self.priority, other.priority),
            product: spec_merge_option(self.product, other.product),
            qa: spec_merge_option(self.qa, other.qa),
            resolution: spec_merge_option(self.resolution, other.resolution),
            see_also: spec_merge_option(self.see_also, other.see_also),
            severity: spec_merge_option(self.severity, other.severity),
            status: spec_merge_option(self.status, other.status),
            summary: spec_merge_option(self.summary, other.summary),
            target: spec_merge_option(self.target, other.target),
            url: spec_merge_option(self.url, other.url),
            version: spec_merge_option(self.version, other.version),
            whiteboard: spec_merge_option(self.whiteboard, other.whiteboard),
            custom_fields: spec_merge_option(self.custom_fields, other.custom_fields),
        }
    }

    /// Parameters with nothing set.
    pub fn default() -> (r: Parameters)
        ensures
            r.spec_is_empty(),
    {
        Parameters {
            alias: None,
            assignee: None,
            blocks: None,
            cc: None,
            comment: None,
            comment_from: None,
            comment_is_private: None,
            comment_privacy: None,
            component: None,
            depends: None,
            duplicate_of: None,
            flags: None,
            groups: None,
            keywords: None,
            os: None,
            platform: None,
            priority: None,
            product: None,
            qa: None,
            resolution: None,
            see_also: None,
            severity: None,
            status: None,
            summary: None,
            target: None,
            url: None,
            version: None,
            whiteboard: None,
            custom_fields: None,
        }
    }

    /// Whether no parameter is set.
    pub fn is_empty(&self) -> (r: bool)
        ensures
            r == self.spec_is_empty(),
    {
        self.alias.is_none() && self.assignee.is_none() && self.blocks.is_none() && self.cc.is_none() && self.comment.is_none() && self.comment_from.is_none() && self.comment_is_private.is_none() && self.comment_privacy.is_none() && self.component.is_none() && self.depends.is_none() && self.duplicate_of.is_none() && self.flags.is_none() && self.groups.is_none() && self.keywords.is_none() && self.os.is_none() && self.platform.is_none() && self.priority.is_none() && self.product.is_none() && self.qa.is_none() && self.resolution.is_none() && self.see_also.is_none() && self.severity.is_none() && self.status.is_none() && self.summary.is_none() && self.target.is_none() && self.url.is_none() && self.version.is_none() && self.whiteboard.is_none() && self.custom_fields.is_none()
    }

    /// Fills the parameters that are not set from `other`.
    pub fn merge(&mut self, other: Parameters)
        ensures
            *final(self) == old(self).spec_merged(other),
    {
        let alias = merge_option(self.alias.take(), other.alias);
        let assignee = merge_option(self.assignee.take(), other.assignee);
        let blocks = merge_option(self.blocks.take(), other.blocks);
        let cc = merge_option(self.cc.take(), other.cc);
        let comment = merge_option(self.comment.take(), other.comment);
        let comment_from = merge_option(self.comment_from.take(), other.comment_from);
        let comment_is_private = merge_option(self.comment_is_private.take(), other.comment_is_private);
        let comment_privacy = merge_option(self.comment_privacy.take(), other.comment_privacy);
        let component = merge_option(self.component.take(), other.component);
        let depends = merge_option(self.depends.take(), other.depends);
        let duplicate_of = merge_option(self.duplicate_of.take(), other.duplicate_of);
        let flags = merge_option(self.flags.take(), other.flags);
        let groups = merge_option(self.groups.take(), other.groups);
        let keywords = merge_option(self.keywords.take(), other.keywords);
        let os = merge_option(self.os.take(), other.os);
        let platform = merge_option(self.platform.take(), other.platform);
        let priority = merge_option(self.priority.take(), other.priority);
        let product = merge_option(self.product.take(), other.product);
        let qa = merge_option(self.qa.take(), other.qa);
        let resolution = merge_option(self.resolution.take(), other.resolution);
        let see_also = merge_option(self.see_also.take(), other.see_also);
        let severity = merge_option(self.severity.take(), other.severity);
        let status = merge_option(self.status.take(), other.status);
        let summary = merge_option(self.summary.take(), other.summary);
        let target = merge_option(self.target.take(), other.target);
        let url = merge_option(self.url.take(), other.url);
        let version = merge_option(self.version.take(), other.version);
        let whiteboard = merge_option(self.whiteboard.take(), other.whiteboard);
        let custom_fields = merge_option(self.custom_fields.take(), other.custom_fields);
        *self = Parameters { alias, assignee, blocks, cc, comment, comment_from, comment_is_private, comment_privacy, component, depends, duplicate_of, flags, groups, keywords, os, platform, priority, product, qa, resolution, see_also, severity, status, summary, target, url, version, whiteboard, custom_fields };
    }
}


/// Values added and removed by a list of changes to a field without set semantics: a set
/// value counts as added.
#[derive(Debug)]
pub struct Changes<T> {
    pub add: Option<Vec<T>>,
    pub remove: Option<Vec<T>>,
}

/// How a value of a change is rewritten before submission.
#[derive(Debug, PartialEq, Eq, Structural, Clone, Copy)]
pub enum Rewrite {
    /// Kept as it is.
    Keep,
    /// A user alias replaced.
    User,
    /// A bug number turned into the bug's address.
    BugLink,
}

/// The address of bug `id` on the service at `base`.
pub open spec fn bug_url(base: Seq<char>, id: Seq<char>) -> Seq<char> {
    crate::text::trim_end_char(base, '/') + "/show_bug.cgi?id="@ + id
}

/// A value as submitted, for the service at `base` with `user` standing for `@me`.
pub open spec fn rewritten(how: Rewrite, user: Option<String>, base: Seq<char>, v: Seq<char>) -> Seq<char> {
    match how {
        Rewrite::Keep => v,
        Rewrite::User => spec_user_alias(user, v),
        Rewrite::BugLink => if u64::text_ok(v) {
            bug_url(base, nat_digits((choose|n: u64| u64::text_value(v, n)) as nat))
        } else {
            v
        },
    }
}

/// Values added by changes (set values included) or removed by them, in order.
pub open spec fn change_values(cs: Seq<SetChange<String>>, removed: bool) -> Seq<Seq<char>>
    decreases cs.len(),
{
    if cs.len() == 0 {
        Seq::empty()
    } else {
        let prev = change_values(cs.drop_last(), removed);
        match cs.last() {
            SetChange::Remove(v) => if removed {
                prev.push(v@)
            } else {
                prev
            },
            SetChange::Add(v) => if removed {
                prev
            } else {
                prev.push(v@)
            },
            SetChange::Assign(v) => if removed {
                prev
            } else {
                prev.push(v@)
            },
        }
    }
}

/// The value a change carries.
pub open spec fn change_value(c: SetChange<String>) -> Seq<char> {
    match c {
        SetChange::Add(v) => v@,
        SetChange::Remove(v) => v@,
        SetChange::Assign(v) => v@,
    }
}

/// Removed values are exactly the values of the removals, in order, and added values
/// exactly those of the other changes, in order.
pub proof fn lemma_change_values_split(cs: Seq<SetChange<String>>)
    ensures
        change_values(cs, true) == cs.filter(|c: SetChange<String>| c is Remove).map_values(
            |c: SetChange<String>| change_value(c),
        ),
        change_values(cs, false) == cs.filter(|c: SetChange<String>| !(c is Remove)).map_values(
            |c: SetChange<String>| change_value(c),
        ),
    decreases cs.len(),
{
    let rm = |c: SetChange<String>| c is Remove;
    let keep = |c: SetChange<String>| !(c is Remove);
    let val = |c: SetChange<String>| change_value(c);
    if cs.len() == 0 {
        reveal(Seq::filter);
        assert(cs.filter(rm) =~= Seq::<SetChange<String>>::empty());
        assert(cs.filter(keep) =~= Seq::<SetChange<String>>::empty());
        assert(cs.filter(rm).map_values(val) =~= Seq::<Seq<char>>::empty());
        assert(cs.filter(keep).map_values(val) =~= Seq::<Seq<char>>::empty());
    } else {
        let init = cs.drop_last();
        let x = cs.last();
        lemma_change_values_split(init);
        assert(init.push(x) =~= cs);
        lemma_filter_push(init, x, rm);
        lemma_filter_push(init, x, keep);
        if x is Remove {
            assert(cs.filter(rm).map_values(val) =~= init.filter(rm).map_values(val).push(val(x)));
            assert(cs.filter(keep) == init.filter(keep));
        } else {
            assert(cs.filter(keep).map_values(val) =~= init.filter(keep).map_values(val).push(val(x)));
            assert(cs.filter(rm) == init.filter(rm));
        }
    }
}

/// Built changes remove the values of the removals, rewritten, in order and no others, and
/// add the values of the additions and settings, rewritten, in order and no others; so each
/// removal's value lands in the remove list.
pub proof fn lemma_built_changes(c: Changes<String>, cs: Seq<SetChange<String>>, how: Rewrite, user: Option<String>, base: Seq<char>)
    requires
        is_changes(c, cs, how, user, base),
    ensures
        c.remove matches Some(r) && r@.map_values(|x: String| x@) == cs.filter(|c: SetChange<String>| c is Remove).map_values(
            |c: SetChange<String>| rewritten(how, user, base, change_value(c)),
        ),
        c.add matches Some(a) && a@.map_values(|x: String| x@) == cs.filter(|c: SetChange<String>| !(c is Remove)).map_values(
            |c: SetChange<String>| rewritten(how, user, base, change_value(c)),
        ),
        forall|i: int| 0 <= i < cs.len() && cs[i] is Remove ==> (c.remove matches Some(r) && r@.map_values(|x: String| x@).contains(
            rewritten(how, user, base, change_value(#[trigger] cs[i])),
        )),
{
    lemma_change_values_split(cs);
    let f = |v: Seq<char>| rewritten(how, user, base, v);
    let rm = |c: SetChange<String>| c is Remove;
    let keep = |c: SetChange<String>| !(c is Remove);
    let val = |c: SetChange<String>| change_value(c);
    let g = |c: SetChange<String>| rewritten(how, user, base, change_value(c));
    assert(cs.filter(rm).map_values(val).map_values(f) =~= cs.filter(rm).map_values(g));
    assert(cs.filter(keep).map_values(val).map_values(f) =~= cs.filter(keep).map_values(g));
    assert forall|i: int| 0 <= i < cs.len() && cs[i] is Remove implies (c.remove matches Some(r) && r@.map_values(
        |x: String| x@,
    ).contains(rewritten(how, user, base, change_value(#[trigger] cs[i])))) by {
        cs.lemma_filter_contains(rm, i);
        let fl = cs.filter(rm);
        let j = choose|j: int| 0 <= j < fl.len() && fl[j] == cs[i];
        assert(fl.map_values(g)[j] == g(cs[i]));
    }
}

/// Whether `c` holds the values of `cs` rewritten as `how` says.
pub open spec fn is_changes(c: Changes<String>, cs: Seq<SetChange<String>>, how: Rewrite, user: Option<String>, base: Seq<char>) -> bool {
    &&& c.add matches Some(a) && a@.map_values(|x: String| x@) == change_values(cs, false).map_values(
        |v: Seq<char>| rewritten(how, user, base, v),
    )
    &&& c.remove matches Some(a) && a@.map_values(|x: String| x@) == change_values(cs, true).map_values(
        |v: Seq<char>| rewritten(how, user, base, v),
    )
}

/// Comment added by an update.
#[derive(Debug)]
pub struct CommentBody {
    pub body: String,
    pub is_private: bool,
}

/// Parameters of an update request as submitted.
#[derive(Debug)]
pub struct RequestParameters {
    pub ids: Vec<String>,
    pub alias: Option<SetChanges<String>>,
    pub assigned_to: Option<String>,
    pub blocks: Option<SetChanges<u64>>,
    pub cc: Option<Changes<String>>,
    pub comment: Option<CommentBody>,
    /// Privacy to set, by comment ID.
    pub comment_is_private: Option<Vec<(u64, bool)>>,
    pub component: Option<String>,
    pub depends_on: Option<SetChanges<u64>>,
    pub dupe_of: Option<u64>,
    pub flags: Option<Vec<Flag>>,
    pub groups: Option<Changes<String>>,
    pub keywords: Option<SetChanges<String>>,
    pub op_sys: Option<String>,
    pub platform: Option<String>,
    pub priority: Option<String>,
    pub product: Option<String>,
    pub qa_contact: Option<String>,
    pub reset_assigned_to: Option<bool>,
    pub reset_qa_contact: Option<bool>,
    pub resolution: Option<String>,
    pub see_also: Option<Changes<String>>,
    pub severity: Option<String>,
    pub status: Option<String>,
    pub summary: Option<String>,
    pub target_milestone: Option<String>,
    pub url: Option<String>,
    pub version: Option<String>,
    pub whiteboard: Option<String>,
    pub custom_fields: Option<Vec<(String, String)>>,
}

/// Whether an optional list of changes was grouped by kind into `r`.
pub open spec fn opt_grouped<T>(r: Option<SetChanges<T>>, p: Option<Vec<SetChange<T>>>) -> bool {
    match p {
        Some(cs) => r matches Some(sc) && grouped(sc, cs@),
        None => r is None,
    }
}

/// Whether an optional list of changes was rewritten into `r`.
pub open spec fn opt_changes(r: Option<Changes<String>>, p: Option<Vec<SetChange<String>>>, how: Rewrite, user: Option<String>, base: Seq<char>) -> bool {
    match p {
        Some(cs) => r matches Some(c) && is_changes(c, cs@, how, user, base),
        None => r is None,
    }
}

/// Whether a person field was submitted: an empty value resets the field, another value
/// names the person, a user alias replaced.
pub open spec fn person_field(value: Option<String>, person: Option<String>, reset: Option<bool>, user: Option<String>) -> bool {
    match value {
        Some(v) => if v@.len() == 0 {
            reset == Some(true) && person is None
        } else {
            reset is None && (person matches Some(x) && x@ == spec_user_alias(user, v@))
        },
        None => reset is None && person is None,
    }
}

/// Whether `r` submits the parameters `p` for bugs `ids`, on the service at `base` with
/// `user` standing for `@me`, before a comment read from a file and comment privacy are
/// settled.
pub open spec fn is_base_request(r: RequestParameters, p: Parameters, ids: Vec<String>, user: Option<String>, base: Seq<char>) -> bool {
    &&& r.ids == ids
    &&& opt_grouped(r.alias, p.alias)
    &&& person_field(p.assignee, r.assigned_to, r.reset_assigned_to, user)
    &&& opt_grouped(r.blocks, p.blocks)
    &&& opt_changes(r.cc, p.cc, Rewrite::User, user, base)
    &&& (match p.comment {
        Some(c) => r.comment matches Some(b) && b.body == c && b.is_private == (p.comment_is_private == Some(true)),
        None => r.comment is None,
    })
    &&& r.comment_is_private is None
    &&& r.component == p.component
    &&& opt_grouped(r.depends_on, p.depends)
    &&& r.dupe_of == p.duplicate_of
    &&& r.flags == p.flags
    &&& opt_changes(r.groups, p.groups, Rewrite::Keep, user, base)
    &&& opt_grouped(r.keywords, p.keywords)
    &&& r.op_sys == p.os
    &&& r.platform == p.platform
    &&& r.priority == p.priority
    &&& r.product == p.product
    &&& person_field(p.qa, r.qa_contact, r.reset_qa_contact, user)
    &&& r.resolution == p.resolution
    &&& opt_changes(r.see_also, p.see_also, Rewrite::BugLink, user, base)
    &&& r.severity == p.severity
    &&& r.status == p.status
    &&& r.summary == p.summary
    &&& r.target_milestone == p.target
    &&& r.url == p.url
    &&& r.version == p.version
    &&& r.whiteboard == p.whiteboard
    &&& r.custom_fields == p.custom_fields
}

/// An update submits each single-valued field under its own name with the value asked for
/// it (component, operating system, platform, priority, product, resolution, severity,
/// status, summary, target milestone, URL, version, whiteboard, duplicate), for the bugs
/// asked for; a CC change removes, `@me` standing for the user, exactly the values asked
/// to be removed, in order.
pub proof fn lemma_update_fields(r: RequestParameters, p: Parameters, ids: Vec<String>, user: Option<String>, base: Seq<char>)
    requires
        is_base_request(r, p, ids, user, base),
    ensures
        r.ids == ids,
        r.component == p.component,
        r.op_sys == p.os,
        r.platform == p.platform,
        r.priority == p.priority,
        r.product == p.product,
        r.resolution == p.resolution,
        r.severity == p.severity,
        r.status == p.status,
        r.summary == p.summary,
        r.target_milestone == p.target,
        r.url == p.url,
        r.version == p.version,
        r.whiteboard == p.whiteboard,
        r.dupe_of == p.duplicate_of,
        p.cc matches Some(cs) ==> (r.cc matches Some(c) && c.remove matches Some(rm) && rm@.map_values(|x: String| x@)
            == cs@.filter(|c: SetChange<String>| c is Remove).map_values(
            |c: SetChange<String>| spec_user_alias(user, change_value(c)),
        )),
{
    if let Some(cs) = p.cc {
        let c = r.cc.unwrap();
        lemma_built_changes(c, cs@, Rewrite::User, user, base);
        let f = |c: SetChange<String>| rewritten(Rewrite::User, user, base, change_value(c));
        let g = |c: SetChange<String>| spec_user_alias(user, change_value(c));
        assert(cs@.filter(|c: SetChange<String>| c is Remove).map_values(f) =~= cs@.filter(
            |c: SetChange<String>| c is Remove,
        ).map_values(g));
    }
}

/// Position of the first entry with key `k`.
pub open spec fn first_key_index(m: Seq<(u64, bool)>, k: u64) -> Option<int>
    decreases m.len(),
{
    if m.len() == 0 {
        None
    } else {
        match first_key_index(m.drop_last(), k) {
            Some(i) => Some(i),
            None => if m.last().0 == k {
                Some(m.len() - 1)
            } else {
                None
            },
        }
    }
}

/// Entries with the value of key `k` set to `v`: an existing entry keeps its place.
pub open spec fn map_insert(m: Seq<(u64, bool)>, k: u64, v: bool) -> Seq<(u64, bool)> {
    match first_key_index(m, k) {
        Some(i) => m.update(i, (k, v)),
        None => m.push((k, v)),
    }
}

/// A comment as privacy changes see it.
#[derive(Debug, Clone, Copy)]
pub struct CommentInfo {
    pub id: u64,
    pub count: u64,
    pub is_private: bool,
}

/// Privacy to set for the comments whose number is selected: the given value, or else the
/// opposite of the comment's current privacy; none when no comment is selected.
pub open spec fn privacy_map(cs: Seq<CommentInfo>, sel: RangeOrSet, tri: TriBool) -> Option<Seq<(u64, bool)>>
    decreases cs.len(),
{
    if cs.len() == 0 {
        None
    } else {
        let prev = privacy_map(cs.drop_last(), sel, tri);
        let c = cs.last();
        if sel.spec_contains(c.count) {
            let v = match tri.spec_value() {
                Some(b) => b,
                None => !c.is_private,
            };
            Some(map_insert(
                match prev {
                    Some(m) => m,
                    None => Seq::empty(),
                },
                c.id,
                v,
            ))
        } else {
            prev
        }
    }
}

fn map_insert_exec(m: &mut Vec<(u64, bool)>, k: u64, v: bool)
    ensures
        final(m)@ == map_insert(old(m)@, k, v),
{
    let mut i: usize = 0;
    while i < m.len()
        invariant
            i <= m@.len(),
            m@ == old(m)@,
            first_key_index(m@.subrange(0, i as int), k) is None,
        decreases m.len() - i,
    {
        assert(m@.subrange(0, i + 1).drop_last() =~= m@.subrange(0, i as int));
        if m[i].0 == k {
            proof { lemma_first_key_prefix(m@, k, i + 1); }
            m.set(i, (k, v));
            return;
        }
        i = i + 1;
    }
    assert(m@.subrange(0, m@.len() as int) =~= m@);
    m.push((k, v));
}

proof fn lemma_first_key_prefix(m: Seq<(u64, bool)>, k: u64, j: int)
    requires
        0 <= j <= m.len(),
        first_key_index(m.subrange(0, j), k) is Some,
    ensures
        first_key_index(m, k) == first_key_index(m.subrange(0, j), k),
    decreases m.len(),
{
    if j == m.len() {
        assert(m.subrange(0, j) =~= m);
    } else {
        assert(m.drop_last().subrange(0, j) =~= m.subrange(0, j));
        lemma_first_key_prefix(m.drop_last(), k, j);
    }
}

/// Privacy to set for the selected comments.
pub fn comment_privacy(cs: &Vec<CommentInfo>, sel: &RangeOrSet, tri: TriBool) -> (r: Option<Vec<(u64, bool)>>)
    ensures
        match r {
            Some(m) => privacy_map(cs@, *sel, tri) == Some(m@),
            None => privacy_map(cs@, *sel, tri) is None,
        },
{
    let mut r: Option<Vec<(u64, bool)>> = None;
    let mut i: usize = 0;
    while i < cs.len()
        invariant
            i <= cs@.len(),
            match r {
                Some(m) => privacy_map(cs@.subrange(0, i as int), *sel, tri) == Some(m@),
                None => privacy_map(cs@.subrange(0, i as int), *sel, tri) is None,
            },
        decreases cs.len() - i,
    {
        let c = cs[i];
        assert(cs@.subrange(0, i + 1).drop_last() =~= cs@.subrange(0, i as int));
        if sel.contains(c.count) {
            let v = match tri.value() {
                Some(b) => b,
                None => !c.is_private,
            };
            let mut m = match r {
                Some(m) => m,
                None => Vec::new(),
            };
            map_insert_exec(&mut m, c.id, v);
            r = Some(m);
        }
        i = i + 1;
    }
    assert(cs@.subrange(0, cs@.len() as int) =~= cs@);
    r
}


/// A value of a change as submitted.
fn rewrite_value(service: &Bugzilla, how: Rewrite, v: &str) -> (r: String)
    ensures
        r@ == rewritten(how, service.config.auth.user, service.config.spec_base(), v@),
{
    match how {
        Rewrite::Keep => owned(v),
        Rewrite::User => service.replace_user_alias(v),
        Rewrite::BugLink => match u64::from_text(v) {
            Ok(n) => {
                proof {
                    let c = choose|m: u64| u64::text_value(v@, m);
                    assert(u64::text_value(v@, c));
                }
                service.item_url(crate::text::u64_to_string(n).as_str())
            },
            Err(_) => owned(v),
        },
    }
}

/// Values added and removed by changes, rewritten as `how` says.
fn build_changes(service: &Bugzilla, cs: &Vec<SetChange<String>>, how: Rewrite) -> (r: Changes<String>)
    ensures
        is_changes(r, cs@, how, service.config.auth.user, service.config.spec_base()),
{
    let ghost user = service.config.auth.user;
    let ghost base = service.config.spec_base();
    let ghost f = |v: Seq<char>| rewritten(how, user, base, v);
    let mut add: Vec<String> = Vec::new();
    let mut remove: Vec<String> = Vec::new();
    let mut i: usize = 0;
    while i < cs.len()
        invariant
            i <= cs@.len(),
            user == service.config.auth.user,
            base == service.config.spec_base(),
            f == (|v: Seq<char>| rewritten(how, user, base, v)),
            add@.map_values(|x: String| x@) == change_values(cs@.subrange(0, i as int), false).map_values(f),
            remove@.map_values(|x: String| x@) == change_values(cs@.subrange(0, i as int), true).map_values(f),
        decreases cs.len() - i,
    {
        let ghost pre = cs@.subrange(0, i as int);
        assert(cs@.subrange(0, i + 1).drop_last() =~= pre);
        assert(cs@.subrange(0, i + 1).last() == cs@[i as int]);
        let ghost a0 = add@;
        let ghost r0 = remove@;
        match &cs[i] {
            SetChange::Remove(v) => {
                let w = rewrite_value(service, how, v.as_str());
                remove.push(w);
                assert(remove@.map_values(|x: String| x@) =~= r0.map_values(|x: String| x@).push(w@));
                assert(change_values(cs@.subrange(0, i + 1), true).map_values(f) =~= change_values(pre, true).map_values(f).push(f(v@)));
            },
            SetChange::Add(v) => {
                let w = rewrite_value(service, how, v.as_str());
                add.push(w);
                assert(add@.map_values(|x: String| x@) =~= a0.map_values(|x: String| x@).push(w@));
                assert(change_values(cs@.subrange(0, i + 1), false).map_values(f) =~= change_values(pre, false).map_values(f).push(f(v@)));
            },
            SetChange::Assign(v) => {
                let w = rewrite_value(service, how, v.as_str());
                add.push(w);
                assert(add@.map_values(|x: String| x@) =~= a0.map_values(|x: String| x@).push(w@));
                assert(change_values(cs@.subrange(0, i + 1), false).map_values(f) =~= change_values(pre, false).map_values(f).push(f(v@)));
            },
        }
        i = i + 1;
    }
    assert(cs@.subrange(0, cs@.len() as int) =~= cs@);
    Changes { add: Some(add), remove: Some(remove) }
}

fn opt_build_changes(service: &Bugzilla, p: &Option<Vec<SetChange<String>>>, how: Rewrite) -> (r: Option<Changes<String>>)
    ensures
        opt_changes(r, *p, how, service.config.auth.user, service.config.spec_base()),
{
    match p {
        Some(cs) => Some(build_changes(service, cs, how)),
        None => None,
    }
}

fn opt_group<T>(p: Option<Vec<SetChange<T>>>) -> (r: Option<SetChanges<T>>)
    ensures
        opt_grouped(r, p),
{
    match p {
        Some(cs) => Some(SetChanges::from_changes(cs)),
        None => None,
    }
}

/// A person field as submitted: an empty value resets the field.
fn person(service: &Bugzilla, value: &Option<String>) -> (r: (Option<String>, Option<bool>))
    ensures
        person_field(*value, r.0, r.1, service.config.auth.user),
{
    match value {
        Some(v) => if v.as_str().is_empty() {
            (None, Some(true))
        } else {
            (Some(service.replace_user_alias(v.as_str())), None)
        },
        None => (None, None),
    }
}

/// Comment of a reported change: the comment that was sent, if any, else the one reported.
pub open spec fn reported_comment(sent: Option<CommentBody>, reported: Option<String>) -> Option<String> {
    match sent {
        Some(c) => Some(c.body),
        None => reported,
    }
}

/// Changes a service reports for an update, each with the comment that was sent, if any.
pub fn changes_with_comment(changes: Vec<BugChange>, comment: &Option<CommentBody>) -> (r: Vec<BugChange>)
    ensures
        r@.len() == changes@.len(),
        forall|i: int|
            0 <= i < r@.len() ==> #[trigger] r@[i].id == changes@[i].id && r@[i].changes == changes@[i].changes
                && r@[i].comment == reported_comment(*comment, changes@[i].comment),
{
    let ghost all = changes@;
    let mut rest = changes;
    let mut r: Vec<BugChange> = Vec::new();
    let n = rest.len();
    let mut k: usize = 0;
    while k < n
        invariant
            n == all.len(),
            k <= n,
            r@.len() == k,
            rest@ == all.subrange(k as int, n as int),
            forall|i: int|
                0 <= i < k ==> #[trigger] r@[i].id == all[i].id && r@[i].changes == all[i].changes
                    && r@[i].comment == reported_comment(*comment, all[i].comment),
        decreases n - k,
    {
        let c = rest.remove(0);
        proof {
            assert(c == all[k as int]);
            assert(rest@ =~= all.subrange(k + 1, n as int));
        }
        let BugChange { id, comment: own, changes: fields } = c;
        let text = match comment {
            Some(body) => Some(body.body.clone()),
            None => own,
        };
        let ghost before = r@;
        r.push(BugChange { id, comment: text, changes: fields });
        assert forall|i: int| 0 <= i < k + 1 implies #[trigger] r@[i].id == all[i].id && r@[i].changes
            == all[i].changes && r@[i].comment == reported_comment(*comment, all[i].comment) by {
            if i < k {
                assert(r@[i] == before[i]);
                assert(before[i].id == all[i].id);
            }
        }
        k = k + 1;
    }
    r
}

/// Bug update request.
#[derive(Debug)]
pub struct Request {
    pub service: Bugzilla,
    pub ids: Vec<String>,
    pub params: Parameters,
}

/// A prepared update waiting on a read: the parameters so far and what remains to settle.
#[derive(Debug)]
pub struct Update {
    pub params: RequestParameters,
    pub comment_from: Option<String>,
    pub comment_is_private: bool,
    pub privacy: Option<(RangeOrSet, TriBool)>,
}

/// Next step of preparing an update: a read the caller performs, the parameters to
/// submit, or a refusal.
#[derive(Debug)]
pub enum UpdateStep {
    /// Read the comment file at the path, then call `Update::comment_read`.
    ReadComment(Update, String),
    /// Fetch the comments of the bug, then call `Update::comments_fetched`.
    FetchComments(Update, String),
    /// The parameters to submit.
    Done(RequestParameters),
    /// The update is refused.
    Fail(Error),
}

/// Whether a step settles comment privacy for `u`: with privacy to change, the comments of
/// the only bug are fetched (several bugs are refused); without, the parameters are done.
pub open spec fn privacy_step(u: Update, r: UpdateStep) -> bool {
    match u.privacy {
        Some(_) => if u.params.ids@.len() > 1 {
            r matches UpdateStep::Fail(e) && e.is_invalid_value("can't toggle comment privacy for multiple bugs"@)
        } else {
            r matches UpdateStep::FetchComments(v, id) && v == u && u.params.ids@.len() == 1 && id@
                == u.params.ids@[0]@
        },
        None => r matches UpdateStep::Done(x) && x == u.params,
    }
}

impl Update {
    /// Path of the comment file, empty when there is none.
    pub open spec fn comment_path(self) -> Seq<char> {
        match self.comment_from {
            Some(p) => p@,
            None => Seq::empty(),
        }
    }

    /// The update with `body` as its comment.
    pub open spec fn with_comment(self, body: String) -> Update {
        Update {
            params: RequestParameters {
                comment: Some(CommentBody { body, is_private: self.comment_is_private }),
                ..self.params
            },
            ..self
        }
    }

    fn settle_privacy(self) -> (r: UpdateStep)
        requires
            self.params.ids@.len() > 0,
        ensures
            privacy_step(self, r),
    {
        if self.privacy.is_some() {
            if self.params.ids.len() > 1 {
                UpdateStep::Fail(Error::InvalidValue(owned("can't toggle comment privacy for multiple bugs")))
            } else {
                let id = self.params.ids[0].clone();
                UpdateStep::FetchComments(self, id)
            }
        } else {
            UpdateStep::Done(self.params)
        }
    }

    /// Takes the contents of the comment file, or the message of the failure to read it:
    /// an unreadable or blank file is refused, else its contents become the comment.
    pub fn comment_read(self, read: Result<String, String>) -> (r: UpdateStep)
        requires
            self.params.ids@.len() > 0,
        ensures
            match read {
                Err(m) => r matches UpdateStep::Fail(e) && e.is_invalid_value(
                    "failed reading comment file: "@ + self.comment_path() + ": "@ + m@,
                ),
                Ok(data) => if crate::text::spec_trim(data@).len() == 0 {
                    r matches UpdateStep::Fail(e) && e.is_invalid_value("empty comment file: "@ + self.comment_path())
                } else {
                    privacy_step(self.with_comment(data), r)
                },
            },
    {
        proof {
            reveal_strlit("");
        }
        let path = match &self.comment_from {
            Some(p) => p.clone(),
            None => String::new(),
        };
        match read {
            Err(m) => {
                let a = concat("failed reading comment file: ", path.as_str());
                let b = concat(a.as_str(), ": ");
                UpdateStep::Fail(Error::InvalidValue(concat(b.as_str(), m.as_str())))
            },
            Ok(data) => {
                let t = crate::text::trim(data.as_str());
                if t.as_str().is_empty() {
                    UpdateStep::Fail(Error::InvalidValue(concat("empty comment file: ", path.as_str())))
                } else {
                    let mut u = self;
                    u.params.comment = Some(CommentBody { body: data, is_private: u.comment_is_private });
                    u.settle_privacy()
                }
            },
        }
    }

    /// Takes the comments of the bug: the privacy of those selected is set.
    pub fn comments_fetched(self, fetched: Result<Vec<CommentInfo>, Error>) -> (r: UpdateStep)
        ensures
            match fetched {
                Err(e) => r == UpdateStep::Fail(e),
                Ok(cs) => r matches UpdateStep::Done(x) && x.ids == self.params.ids && x.comment == self.params.comment
                    && (match self.privacy {
                    Some((sel, tri)) => match privacy_map(cs@, sel, tri) {
                        Some(m) => x.comment_is_private matches Some(v) && v@ == m,
                        None => x.comment_is_private is None,
                    },
                    None => x.comment_is_private == self.params.comment_is_private,
                }),
            },
    {
        match fetched {
            Err(e) => UpdateStep::Fail(e),
            Ok(cs) => {
                let mut u = self;
                match &u.privacy {
                    Some((sel, tri)) => {
                        let m = comment_privacy(&cs, sel, *tri);
                        u.params.comment_is_private = m;
                    },
                    None => {},
                }
                UpdateStep::Done(u.params)
            },
        }
    }
}

impl Request {
    /// Whether `r` is the first step of preparing the update: the parameters as
    /// `is_base_request` says, then the comment file to read when a file but no comment is
    /// given, else the settling of comment privacy.
    pub open spec fn prepared(self, r: UpdateStep) -> bool {
        let user = self.service.config.auth.user;
        let base = self.service.config.spec_base();
        let p = self.params;
        if p.comment is None && p.comment_from is Some {
            r matches UpdateStep::ReadComment(u, path) && path@ == p.comment_from->0@ && is_base_request(
                u.params,
                p,
                self.ids,
                user,
                base,
            ) && u.privacy == p.comment_privacy && u.comment_from == p.comment_from && u.comment_is_private == (
            p.comment_is_private == Some(true))
        } else {
            match p.comment_privacy {
                Some(_) => if self.ids@.len() > 1 {
                    r matches UpdateStep::Fail(e) && e.is_invalid_value("can't toggle comment privacy for multiple bugs"@)
                } else {
                    r matches UpdateStep::FetchComments(u, id) && id@ == self.ids@[0]@ && is_base_request(
                        u.params,
                        p,
                        self.ids,
                        user,
                        base,
                    ) && u.privacy == p.comment_privacy
                },
                None => r matches UpdateStep::Done(x) && is_base_request(x, p, self.ids, user, base),
            }
        }
    }

    /// An update request for the given bugs, with no parameters set.
    pub fn new(service: Bugzilla, ids: Vec<String>) -> (r: Request)
        ensures
            r.service == service,
            r.ids == ids,
            r.params.spec_is_empty(),
    {
        Request { service, ids, params: Parameters::default() }
    }

    /// Address of the update: that of the first bug. No bug is an invalid request; an
    /// address the URL parser refuses is an invalid URL.
    pub fn url(&self) -> (r: Result<String, Error>)
        ensures
            self.ids@.len() == 0 ==> (r matches Err(e) && e.is_invalid_request("no IDs specified"@)),
            self.ids@.len() > 0 ==> match url_join_result(self.service.config.spec_base(), "rest/bug/"@ + self.ids@[0]@) {
                Ok(u) => r matches Ok(x) && x@ == u,
                Err(m) => r matches Err(Error::InvalidUrl(x)) && x@ == m,
            },
    {
        if self.ids.len() == 0 {
            return Err(Error::InvalidRequest(owned("no IDs specified")));
        }
        let path = concat("rest/bug/", self.ids[0].as_str());
        match join_url(self.service.config.base(), path.as_str()) {
            Ok(u) => Ok(u),
            Err(m) => Err(Error::InvalidUrl(m)),
        }
    }

    /// Prepares the parameters to submit: no bug is an invalid request and no parameter an
    /// empty-parameters error; a comment read from a file and comment privacy are settled
    /// in later steps.
    pub fn prepare(self) -> (r: UpdateStep)
        ensures
            self.ids@.len() == 0 ==> (r matches UpdateStep::Fail(e) && e.is_invalid_request("no IDs specified"@)),
            self.ids@.len() > 0 && self.params.spec_is_empty() ==> (r matches UpdateStep::Fail(e) && e is EmptyParams),
            self.ids@.len() > 0 && !self.params.spec_is_empty() ==> self.prepared(r),
    {
        if self.ids.len() == 0 {
            return UpdateStep::Fail(Error::InvalidRequest(owned("no IDs specified")));
        }
        if self.params.is_empty() {
            return UpdateStep::Fail(Error::EmptyParams);
        }
        let service = self.service;
        let p = self.params;
        let (assigned_to, reset_assigned_to) = person(&service, &p.assignee);
        let (qa_contact, reset_qa_contact) = person(&service, &p.qa);
        let cc = opt_build_changes(&service, &p.cc, Rewrite::User);
        let groups = opt_build_changes(&service, &p.groups, Rewrite::Keep);
        let see_also = opt_build_changes(&service, &p.see_also, Rewrite::BugLink);
        let comment_is_private = p.comment_is_private == Some(true);
        let comment = match p.comment {
            Some(c) => Some(CommentBody { body: c, is_private: comment_is_private }),
            None => None,
        };
        let needs_file = comment.is_none() && p.comment_from.is_some();
        let params = RequestParameters {
            ids: self.ids,
            alias: opt_group(p.alias),
            assigned_to,
            blocks: opt_group(p.blocks),
            cc,
            comment,
            comment_is_private: None,
            component: p.component,
            depends_on: opt_group(p.depends),
            dupe_of: p.duplicate_of,
            flags: p.flags,
            groups,
            keywords: opt_group(p.keywords),
            op_sys: p.os,
            platform: p.platform,
            priority: p.priority,
            product: p.product,
            qa_contact,
            reset_assigned_to,
            reset_qa_contact,
            resolution: p.resolution,
            see_also,
            severity: p.severity,
            status: p.status,
            summary: p.summary,
            target_milestone: p.target,
            url: p.url,
            version: p.version,
            whiteboard: p.whiteboard,
            custom_fields: p.custom_fields,
        };
        let u = Update { params, comment_from: p.comment_from, comment_is_private, privacy: p.comment_privacy };
        if needs_file {
            let path = match &u.comment_from {
                Some(x) => x.clone(),
                None => String::new(),
            };
            UpdateStep::ReadComment(u, path)
        } else {
            u.settle_privacy()
        }
    }
}

} // verus!
