//! Bugzilla objects: flags, attachments, comments, change events and bugs, and their
//! layout for a terminal.
use vstd::prelude::*;

use chrono::{DateTime, Utc};

use crate::error::Error;
use crate::text::{
    chars_of, concat, join, lines, nat_digits, owned, seq_join, split_once, split_once_chars, str_eq, string_of,
    spec_trim, text_lines, trim, u64_to_string, push_char,
};
use crate::service::bugzilla::{BugField, FilterField, GroupField};
use crate::output::{
    pad, pad_right,
    field_line, field_text, line, output_field, output_field_wrapped, repeat, repeat_char,
    spec_output_field, spec_output_field_wrapped, spec_truncate, spec_truncated_list,
    spec_wrapped_csv, truncate, truncated_list, wrap, wrap_value, wrapped_csv, wrapped_lines,
    wrapped_value, Layout, Render,
};
use crate::traits::{FromText, ToText};

verus! {

/// Status of a flag.
#[derive(Debug, PartialEq, Eq, Structural, Clone, Copy)]
pub enum FlagStatus {
    Granted,
    Denied,
    Requested,
    Remove,
}

impl FlagStatus {
    /// Name of the variant as given in arguments and shown to users.
    pub open spec fn spec_name(self) -> Seq<char> {
        match self {
            FlagStatus::Granted => "+"@,
            FlagStatus::Denied => "-"@,
            FlagStatus::Requested => "?"@,
            FlagStatus::Remove => "X"@,
        }
    }

    /// The first variant, in declaration order, with the given name.
    pub open spec fn spec_from_name(s: Seq<char>) -> Option<FlagStatus> {
        if s == "+"@ {
            Some(FlagStatus::Granted)
        } else if s == "-"@ {
            Some(FlagStatus::Denied)
        } else if s == "?"@ {
            Some(FlagStatus::Requested)
        } else if s == "X"@ {
            Some(FlagStatus::Remove)
        } else {
            None
        }
    }

    /// All variants, in declaration order.
    pub open spec fn spec_all() -> Seq<FlagStatus> {
        seq![FlagStatus::Granted, FlagStatus::Denied, FlagStatus::Requested, FlagStatus::Remove]
    }

    /// Position of the variant in declaration order.
    pub open spec fn spec_index(self) -> nat {
        match self {
            FlagStatus::Granted => 0,
            FlagStatus::Denied => 1,
            FlagStatus::Requested => 2,
            FlagStatus::Remove => 3,
        }
    }

    /// Position of the variant in declaration order.
    pub fn index(&self) -> (r: u64)
        ensures
            r == self.spec_index(),
    {
        match self {
            FlagStatus::Granted => 0,
            FlagStatus::Denied => 1,
            FlagStatus::Requested => 2,
            FlagStatus::Remove => 3,
        }
    }

    /// The variant at a position of the declaration order.
    pub proof fn lemma_index(self)
        ensures
            self.spec_index() < Self::spec_all().len(),
            Self::spec_all()[self.spec_index() as int] == self,
    {
    }

    /// All variants, in declaration order.
    pub fn all() -> (r: Vec<FlagStatus>)
        ensures
            r@ == Self::spec_all(),
    {
        let mut r = Vec::new();
        r.push(FlagStatus::Granted);
        r.push(FlagStatus::Denied);
        r.push(FlagStatus::Requested);
        r.push(FlagStatus::Remove);
        assert(r@ =~= Self::spec_all());
        r
    }
}

impl FromText for FlagStatus {
    open spec fn text_ok(s: Seq<char>) -> bool {
        Self::spec_from_name(s) is Some
    }

    open spec fn text_value(s: Seq<char>, v: FlagStatus) -> bool {
        Self::spec_from_name(s) == Some(v)
    }

    open spec fn text_error(s: Seq<char>) -> Seq<char> {
        "Matching variant not found"@
    }

    fn from_text(s: &str) -> (r: Result<FlagStatus, String>) {
        if str_eq(s, "+") {
            return Ok(FlagStatus::Granted);
        }
        if str_eq(s, "-") {
            return Ok(FlagStatus::Denied);
        }
        if str_eq(s, "?") {
            return Ok(FlagStatus::Requested);
        }
        if str_eq(s, "X") {
            return Ok(FlagStatus::Remove);
        }
        Err(owned("Matching variant not found"))
    }
}

impl FlagStatus {
    /// The name of a variant parses back to that variant.
    pub proof fn lemma_text_roundtrip(self)
        ensures
            Self::text_ok(self.spec_text()),
            Self::text_value(self.spec_text(), self),
    {
        reveal_strlit("+");
        reveal_strlit("-");
        reveal_strlit("?");
        reveal_strlit("X");
        match self {
            FlagStatus::Granted => {},
            FlagStatus::Denied => {
                assert("-"@[0] != "+"@[0]);
            },
            FlagStatus::Requested => {
                assert("?"@[0] != "+"@[0]);
                assert("?"@[0] != "-"@[0]);
            },
            FlagStatus::Remove => {
                assert("X"@[0] != "+"@[0]);
                assert("X"@[0] != "-"@[0]);
                assert("X"@[0] != "?"@[0]);
            },
        }
    }
}

impl ToText for FlagStatus {
    open spec fn spec_text(&self) -> Seq<char> {
        self.spec_name()
    }

    fn to_text(&self) -> (s: String) {
        match self {
            FlagStatus::Granted => owned("+"),
            FlagStatus::Denied => owned("-"),
            FlagStatus::Requested => owned("?"),
            FlagStatus::Remove => owned("X"),
        }
    }
}


/// A named flag and its status.
#[derive(Debug)]
pub struct Flag {
    pub name: String,
    pub status: FlagStatus,
}

/// Whether a flag text can be split before its last character without cutting a
/// character in two: it is empty or ends in a one-byte character.
pub open spec fn flag_text_splittable(s: Seq<char>) -> bool {
    s.len() > 0 ==> (s.last() as u32) < 0x80
}

/// Message for a flag text whose last character is no status.
pub open spec fn invalid_flag_status(status: Seq<char>) -> Seq<char> {
    "invalid flag status: "@ + status
}

impl Flag {
    /// Text of the flag: its name followed by its status.
    pub open spec fn spec_text(&self) -> Seq<char> {
        self.name@ + self.status.spec_name()
    }

    /// Parses a flag from its name followed by a status character.
    pub fn from_str(s: &str) -> (r: Result<Flag, Error>)
        requires
            flag_text_splittable(s@),
        ensures
            s@.len() == 0 ==> (r matches Err(e) && e.is_invalid_value("empty flag"@)),
            s@.len() > 0 ==> (match FlagStatus::spec_from_name(seq![s@.last()]) {
                Some(st) => r matches Ok(f) && f.name@ == s@.drop_last() && f.status == st,
                None => r matches Err(e) && e.is_invalid_value(invalid_flag_status(seq![s@.last()])),
            }),
    {
        let c = chars_of(s);
        if c.len() == 0 {
            return Err(Error::InvalidValue(owned("empty flag")));
        }
        let n = c.len() - 1;
        let name = string_of(c.as_slice(), 0, n);
        let status = string_of(c.as_slice(), n, c.len());
        assert(status@ =~= seq![s@.last()]);
        assert(name@ =~= s@.drop_last());
        match FlagStatus::from_text(status.as_str()) {
            Ok(st) => Ok(Flag { name, status: st }),
            Err(_) => Err(Error::InvalidValue(concat("invalid flag status: ", status.as_str()))),
        }
    }

    /// Text of the flag: its name followed by its status.
    pub fn to_text(&self) -> (r: String)
        ensures
            r@ == self.spec_text(),
    {
        let st = self.status.to_text();
        concat(self.name.as_str(), st.as_str())
    }
}


impl Flag {
    /// A copy of the flag.
    pub fn duplicate(&self) -> (r: Flag)
        ensures
            r.name@ == self.name@,
            r.status == self.status,
    {
        Flag { name: self.name.clone(), status: self.status }
    }
}

/// Names and statuses of a list of flags.
pub open spec fn flag_views(fs: Seq<Flag>) -> Seq<(Seq<char>, FlagStatus)> {
    fs.map_values(|f: Flag| (f.name@, f.status))
}

/// A copy of a list of flags.
pub fn duplicate_flags(fs: &Vec<Flag>) -> (r: Vec<Flag>)
    ensures
        flag_views(r@) == flag_views(fs@),
{
    let mut r: Vec<Flag> = Vec::new();
    let mut i: usize = 0;
    while i < fs.len()
        invariant
            i <= fs@.len(),
            flag_views(r@) == flag_views(fs@.subrange(0, i as int)),
        decreases fs.len() - i,
    {
        let f = fs[i].duplicate();
        let ghost before = r@;
        r.push(f);
        assert(flag_views(r@) =~= flag_views(before).push((f.name@, f.status)));
        assert(fs@.subrange(0, i + 1) =~= fs@.subrange(0, i as int).push(fs@[i as int]));
        assert(flag_views(fs@.subrange(0, i + 1)) =~= flag_views(fs@.subrange(0, i as int)).push(
            (fs@[i as int].name@, fs@[i as int].status),
        ));
        i = i + 1;
    }
    assert(fs@.subrange(0, fs@.len() as int) =~= fs@);
    r
}


/// Display text of the UTC time `secs` seconds and `nanos` nanoseconds after the Unix
/// epoch, when the time is representable.
pub uninterp spec fn datetime_text(secs: i64, nanos: u32) -> Option<Seq<char>>;

/// `DateTime::<Utc>::from_timestamp` followed by its `Display`. Claimed: the outcome is the
/// name `datetime_text` of the two parts.
#[verifier::external_body]
fn datetime_display(secs: i64, nanos: u32) -> (r: Option<String>)
    ensures
        match r {
            Some(t) => datetime_text(secs, nanos) == Some(t@),
            None => datetime_text(secs, nanos) is None,
        },
{
    match DateTime::<Utc>::from_timestamp(secs, nanos) {
        Some(d) => Some(d.to_string()),
        None => None,
    }
}

/// A point in time: seconds and nanoseconds after the Unix epoch, with its display text.
#[derive(Debug)]
pub struct Timestamp {
    secs: i64,
    nanos: u32,
    text: String,
}

impl Timestamp {
    /// Seconds after the epoch.
    pub closed spec fn spec_secs(&self) -> i64 {
        self.secs
    }

    /// Nanoseconds after the second.
    pub closed spec fn spec_nanos(&self) -> u32 {
        self.nanos
    }

    /// Display text.
    pub closed spec fn spec_text(&self) -> Seq<char> {
        self.text@
    }

    /// The time `secs` seconds and `nanos` nanoseconds after the epoch, when it is
    /// representable.
    pub fn from_parts(secs: i64, nanos: u32) -> (r: Option<Timestamp>)
        ensures
            match datetime_text(secs, nanos) {
                Some(t) => r matches Some(x) && x.spec_secs() == secs && x.spec_nanos() == nanos
                    && x.spec_text() == t,
                None => r is None,
            },
    {
        match datetime_display(secs, nanos) {
            Some(text) => Some(Timestamp { secs, nanos, text }),
            None => None,
        }
    }

    /// A copy of the time.
    pub fn duplicate(&self) -> (r: Timestamp)
        ensures
            r == *self,
    {
        Timestamp { secs: self.secs, nanos: self.nanos, text: self.text.clone() }
    }

    /// Display text.
    pub fn text(&self) -> (r: &str)
        ensures
            r@ == self.spec_text(),
    {
        self.text.as_str()
    }

    /// Whether the time is not later than another.
    pub open spec fn spec_le(&self, other: &Timestamp) -> bool {
        self.spec_secs() < other.spec_secs() || (self.spec_secs() == other.spec_secs()
            && self.spec_nanos() <= other.spec_nanos())
    }

    /// Whether the time is not later than another.
    pub fn le(&self, other: &Timestamp) -> (r: bool)
        ensures
            r == self.spec_le(other),
    {
        self.secs < other.secs || (self.secs == other.secs && self.nanos <= other.nanos)
    }
}

/// Size in bytes with a binary unit, as `humansize` formats it.
pub uninterp spec fn human_size_text(size: u64) -> Seq<char>;

/// `humansize::format_size` with the `BINARY` options. Claimed: the text is the name
/// `human_size_text` of the size.
#[verifier::external_body]
fn format_size(size: u64) -> (r: String)
    ensures
        r@ == human_size_text(size),
{
    humansize::format_size(size, humansize::BINARY)
}

/// A flag set on a bug or an attachment.
#[derive(Debug)]
pub struct BugFlag {
    pub flag: Flag,
    pub setter: String,
    pub created: Timestamp,
    pub updated: Timestamp,
}

/// A file attachment on a bug.
#[derive(Debug)]
pub struct Attachment {
    /// Unique attachment identifier.
    pub id: u64,
    /// Bug identifier the attachment is related to.
    pub bug_id: u64,
    /// File name of the attachment.
    pub file_name: String,
    /// Description of the attachment.
    pub summary: String,
    /// Size of the attachment in bytes.
    pub size: u64,
    /// Login identifier of the attachment's creator.
    pub creator: String,
    /// MIME type of the attachment.
    pub content_type: String,
    pub is_private: bool,
    pub is_obsolete: bool,
    pub is_patch: bool,
    /// Creation time of the attachment.
    pub created: Timestamp,
    /// Last update time of the attachment.
    pub updated: Timestamp,
    pub flags: Vec<BugFlag>,
    /// Attachment data.
    pub data: Vec<u8>,
}

impl Attachment {
    /// Size with a binary unit.
    pub fn human_size(&self) -> (r: String)
        ensures
            r@ == human_size_text(self.size),
    {
        format_size(self.size)
    }

    /// Return true if the attachment has no data, otherwise false.
    pub fn is_empty(&self) -> (r: bool)
        ensures
            r == (self.data@.len() == 0),
    {
        self.data.len() == 0
    }

    /// Return true if the attachment has been deleted, otherwise false.
    pub fn is_deleted(&self) -> (r: bool)
        ensures
            r == (self.size == 0),
    {
        self.size == 0
    }
}

/// A comment on a bug.
#[derive(Debug)]
pub struct Comment {
    /// Globally unique ID for the comment.
    pub id: u64,
    /// Bug ID the comment is on.
    pub bug_id: u64,
    /// Attachment ID related to the comment.
    pub attachment_id: Option<u64>,
    /// The number of the comment local to the bug: the description is 0, comments start
    /// at 1.
    pub count: usize,
    pub text: String,
    pub creator: String,
    pub created: Timestamp,
    pub is_private: bool,
    pub tags: Vec<String>,
}

/// Lines of a reply quoting a text: a heading naming the creator (the part of the address
/// before `@`) and the comment number, then each line of the text after `> `.
pub open spec fn reply_lines(creator: Seq<char>, count: nat, text: Seq<char>) -> Seq<Seq<char>> {
    let who = match split_once(creator, "@"@) {
        Some((a, _)) => a,
        None => creator,
    };
    seq!["(In reply to "@ + who + " from comment #"@ + nat_digits(count) + ")"@] + text_lines(text).map_values(
        |l: Seq<char>| "> "@ + l,
    )
}

impl Comment {
    /// Format a comment into a reply string.
    pub fn reply(&self) -> (r: String)
        ensures
            r@ == seq_join(reply_lines(self.creator@, self.count as nat, self.text@), "\n"@),
    {
        let c = chars_of(self.creator.as_str());
        let at = chars_of("@");
        let who = match split_once_chars(c.as_slice(), at.as_slice()) {
            Some((a, _)) => a,
            None => self.creator.clone(),
        };
        let a = concat("(In reply to ", who.as_str());
        let b = concat(a.as_str(), " from comment #");
        let count: u64 = self.count as u64;
        let d = concat(b.as_str(), u64_to_string(count).as_str());
        let head = concat(d.as_str(), ")");
        let ls = lines(self.text.as_str());
        let ghost quoted = text_lines(self.text@).map_values(|l: Seq<char>| "> "@ + l);
        let mut data: Vec<String> = Vec::new();
        data.push(head);
        let mut i: usize = 0;
        while i < ls.len()
            invariant
                i <= ls@.len(),
                ls@.map_values(|x: String| x@) == text_lines(self.text@),
                quoted == text_lines(self.text@).map_values(|l: Seq<char>| "> "@ + l),
                data@.len() == i + 1,
                data@[0]@ == head@,
                forall|j: int| 0 <= j < i ==> (#[trigger] data@[j + 1])@ == quoted[j],
            decreases ls.len() - i,
        {
            assert(ls@.map_values(|x: String| x@)[i as int] == ls@[i as int]@);
            let q = concat("> ", ls[i].as_str());
            data.push(q);
            assert(data@[i + 1]@ == quoted[i as int]);
            i = i + 1;
        }
        let ghost want = seq![head@] + quoted;
        let ghost got = data@.map_values(|x: String| x@);
        assert(ls@.map_values(|x: String| x@).len() == ls@.len());
        assert forall|k: int| 0 <= k < want.len() implies #[trigger] got[k] == want[k] by {
            if k > 0 {
                assert(data@[(k - 1) + 1]@ == quoted[k - 1]);
            }
        }
        assert(got =~= want);
        join(&data, "\n")
    }
}


/// A change made to a field.
#[derive(Debug)]
pub struct Change {
    pub field_name: String,
    pub removed: Option<String>,
    pub added: Option<String>,
    pub attachment_id: Option<u64>,
}

impl Render for Change {
    open spec fn renderable(&self) -> bool {
        self.removed is Some || self.added is Some
    }

    open spec fn spec_render(&self, out: Layout) -> Seq<char> {
        match (self.removed, self.added) {
            (Some(r), None) => line(self.field_name@ + ": -"@ + r@),
            (Some(r), Some(a)) => line(self.field_name@ + ": "@ + r@ + " -> "@ + a@),
            (None, Some(a)) => line(self.field_name@ + ": +"@ + a@),
            (None, None) => Seq::empty(),
        }
    }

    fn render(&self, out: Layout) -> (s: String) {
        let name = self.field_name.as_str();
        let mut t = match (&self.removed, &self.added) {
            (Some(r), None) => {
                let a = concat(name, ": -");
                concat(a.as_str(), r.as_str())
            },
            (Some(r), Some(x)) => {
                let a = concat(name, ": ");
                let b = concat(a.as_str(), r.as_str());
                let c = concat(b.as_str(), " -> ");
                concat(c.as_str(), x.as_str())
            },
            (None, Some(x)) => {
                let a = concat(name, ": +");
                concat(a.as_str(), x.as_str())
            },
            (None, None) => String::new(),
        };
        push_char(&mut t, '\n');
        t
    }
}

/// Texts of a list of changes.
pub open spec fn changes_text(cs: Seq<Change>, out: Layout) -> Seq<char>
    decreases cs.len(),
{
    if cs.len() == 0 {
        Seq::empty()
    } else {
        changes_text(cs.drop_last(), out) + cs.last().spec_render(out)
    }
}

/// Changes made to a bug at one time.
#[derive(Debug)]
pub struct Event {
    pub who: String,
    pub when: Timestamp,
    pub changes: Vec<Change>,
}

impl Render for Event {
    open spec fn renderable(&self) -> bool {
        forall|i: int| 0 <= i < self.changes@.len() ==> (#[trigger] self.changes@[i]).renderable()
    }

    open spec fn spec_render(&self, out: Layout) -> Seq<char> {
        if self.changes@.len() > 0 {
            line("Changes made by "@ + self.who@ + ", "@ + self.when.spec_text()) + line(
                repeat('-', out.width as nat),
            ) + changes_text(self.changes@, out)
        } else {
            Seq::empty()
        }
    }

    fn render(&self, out: Layout) -> (s: String) {
        if self.changes.len() == 0 {
            return String::new();
        }
        let a = concat("Changes made by ", self.who.as_str());
        let b = concat(a.as_str(), ", ");
        let mut t = concat(b.as_str(), self.when.text());
        push_char(&mut t, '\n');
        let sep = repeat_char('-', out.width);
        t.append(sep.as_str());
        push_char(&mut t, '\n');
        let ghost head = t@;
        let mut i: usize = 0;
        while i < self.changes.len()
            invariant
                i <= self.changes@.len(),
                self.renderable(),
                out.width >= 15,
                t@ == head + changes_text(self.changes@.subrange(0, i as int), out),
            decreases self.changes.len() - i,
        {
            let c = self.changes[i].render(out);
            t.append(c.as_str());
            assert(self.changes@.subrange(0, i + 1).drop_last() =~= self.changes@.subrange(0, i as int));
            i = i + 1;
        }
        assert(self.changes@.subrange(0, self.changes@.len() as int) =~= self.changes@);
        t
    }
}

/// First line of a comment: its number (or that it is the description), its tags, whether
/// it is private, its creator and time.
pub open spec fn comment_heading(c: Comment) -> Seq<char> {
    (if c.count != 0 {
        "Comment #"@ + nat_digits(c.count as nat)
    } else {
        "Description"@
    }) + (if c.tags@.len() > 0 {
        " ("@ + seq_join(c.tags@.map_values(|x: String| x@), ", "@) + ")"@
    } else {
        Seq::empty()
    }) + (if c.is_private {
        " (private)"@
    } else {
        Seq::empty()
    }) + " by "@ + c.creator@ + ", "@ + c.created.spec_text()
}

impl Render for Comment {
    open spec fn renderable(&self) -> bool {
        true
    }

    open spec fn spec_render(&self, out: Layout) -> Seq<char> {
        line(comment_heading(*self)) + line(repeat('-', out.width as nat)) + line(
            seq_join(wrapped_lines(spec_trim(self.text@), out.width as nat, ""@), "\n"@),
        )
    }

    fn render(&self, out: Layout) -> (s: String) {
        let mut t = if self.count != 0 {
            let n: u64 = self.count as u64;
            concat("Comment #", u64_to_string(n).as_str())
        } else {
            owned("Description")
        };
        let ghost h1 = t@;
        if self.tags.len() > 0 {
            t.append(" (");
            let tags = join(&self.tags, ", ");
            t.append(tags.as_str());
            t.append(")");
        }
        proof {
            reveal_strlit("");
        }
        assert(t@ == h1 + (if self.tags@.len() > 0 {
            " ("@ + seq_join(self.tags@.map_values(|x: String| x@), ", "@) + ")"@
        } else {
            Seq::<char>::empty()
        }));
        let ghost h2 = t@;
        if self.is_private {
            t.append(" (private)");
        }
        assert(t@ == h2 + (if self.is_private {
            " (private)"@
        } else {
            Seq::<char>::empty()
        }));
        t.append(" by ");
        t.append(self.creator.as_str());
        t.append(", ");
        t.append(self.created.text());
        assert(t@ == comment_heading(*self));
        push_char(&mut t, '\n');
        let sep = repeat_char('-', out.width);
        t.append(sep.as_str());
        push_char(&mut t, '\n');
        let body = trim(self.text.as_str());
        let ls = wrap(body.as_str(), out.width, "");
        let w = join(&ls, "\n");
        t.append(w.as_str());
        push_char(&mut t, '\n');
        t
    }
}

/// First line of an attachment: its ID, description and file name when they differ, and
/// whether it is obsolete or deleted.
pub open spec fn attachment_line(a: Attachment) -> Seq<char> {
    let deleted = if a.size == 0 {
        " (deleted)"@
    } else {
        Seq::empty()
    };
    if a.summary@ != a.file_name@ {
        nat_digits(a.id as nat) + ": "@ + a.summary@ + " ("@ + a.file_name@ + ")"@ + (if a.is_obsolete {
            " (obsolete)"@
        } else {
            Seq::empty()
        }) + deleted
    } else {
        nat_digits(a.id as nat) + ": "@ + a.summary@ + deleted
    }
}

/// Detail line of an attachment: patch or media type, size, creator and update time.
pub open spec fn attachment_detail(a: Attachment) -> Seq<char> {
    "  ("@ + (if a.is_patch {
        "patch"@
    } else {
        a.content_type@
    }) + ") "@ + human_size_text(a.size) + ", created by "@ + a.creator@ + ", "@ + a.updated.spec_text()
}

impl Render for Attachment {
    open spec fn renderable(&self) -> bool {
        true
    }

    open spec fn spec_render(&self, out: Layout) -> Seq<char> {
        line(spec_truncate(attachment_line(*self), out.width as nat)) + (if out.verbose {
            line(attachment_detail(*self))
        } else {
            Seq::empty()
        })
    }

    fn render(&self, out: Layout) -> (s: String) {
        proof {
            reveal_strlit("");
        }
        let deleted = if self.size == 0 {
            " (deleted)"
        } else {
            ""
        };
        let mut l = u64_to_string(self.id);
        l.append(": ");
        l.append(self.summary.as_str());
        if !str_eq(self.summary.as_str(), self.file_name.as_str()) {
            l.append(" (");
            l.append(self.file_name.as_str());
            l.append(")");
            let ghost h = l@;
            if self.is_obsolete {
                l.append(" (obsolete)");
            }
            assert(l@ == h + (if self.is_obsolete {
                " (obsolete)"@
            } else {
                Seq::<char>::empty()
            }));
        }
        l.append(deleted);
        assert(l@ == attachment_line(*self));
        let mut t = truncate(l.as_str(), out.width);
        push_char(&mut t, '\n');
        if out.verbose {
            let mut d = owned("  (");
            if self.is_patch {
                d.append("patch");
            } else {
                d.append(self.content_type.as_str());
            }
            d.append(") ");
            let size = self.human_size();
            d.append(size.as_str());
            d.append(", created by ");
            d.append(self.creator.as_str());
            d.append(", ");
            d.append(self.updated.text());
            assert(d@ == attachment_detail(*self));
            push_char(&mut d, '\n');
            t.append(d.as_str());
        }
        assert(t@ == self.spec_render(out));
        t
    }
}


/// A bug.
#[derive(Debug)]
pub struct Bug {
    pub id: u64,
    pub alias: Vec<String>,
    pub assigned_to: Option<String>,
    pub qa_contact: Option<String>,
    pub creator: Option<String>,
    pub created: Option<Timestamp>,
    pub updated: Option<Timestamp>,
    /// Deadline date, as text.
    pub deadline: Option<String>,
    pub summary: Option<String>,
    pub status: Option<String>,
    pub resolution: Option<String>,
    pub whiteboard: Option<String>,
    pub product: Option<String>,
    pub component: Option<String>,
    pub version: Option<String>,
    pub platform: Option<String>,
    pub op_sys: Option<String>,
    pub target: Option<String>,
    pub priority: Option<String>,
    pub severity: Option<String>,
    pub groups: Vec<String>,
    pub keywords: Vec<String>,
    pub cc: Vec<String>,
    pub blocks: Vec<u64>,
    pub depends_on: Vec<u64>,
    pub duplicate_of: Option<u64>,
    pub flags: Vec<BugFlag>,
    pub tags: Vec<String>,
    pub see_also: Vec<String>,
    pub url: Option<String>,
    pub custom_fields: Vec<(String, String)>,
    pub comments: Vec<Comment>,
    pub attachments: Vec<Attachment>,
    pub history: Vec<Event>,
}

/// A comment or a change event of a bug, by its position in the bug's list.
#[derive(Debug, PartialEq, Eq, Structural, Clone, Copy)]
pub enum BugUpdate {
    Comment(usize),
    Event(usize),
}

/// Whether an update names a comment or an event the bug has.
pub open spec fn valid_update(b: Bug, u: BugUpdate) -> bool {
    match u {
        BugUpdate::Comment(i) => i < b.comments@.len(),
        BugUpdate::Event(i) => i < b.history@.len(),
    }
}

/// Time of an update.
pub open spec fn update_time(b: Bug, u: BugUpdate) -> Timestamp {
    match u {
        BugUpdate::Comment(i) => b.comments@[i as int].created,
        BugUpdate::Event(i) => b.history@[i as int].when,
    }
}

/// Whether an update happened no later than another.
pub open spec fn update_le(b: Bug, u: BugUpdate, v: BugUpdate) -> bool {
    update_time(b, u).spec_le(&update_time(b, v))
}

/// Position at which an update goes into updates sorted by time: after every update that
/// happened no later.
pub open spec fn insert_pos(b: Bug, s: Seq<BugUpdate>, u: BugUpdate) -> nat
    decreases s.len(),
{
    if s.len() == 0 {
        0
    } else if update_le(b, s.last(), u) {
        s.len()
    } else {
        insert_pos(b, s.drop_last(), u)
    }
}

/// Updates sorted by time, keeping the given order among updates of the same time.
pub open spec fn sort_updates(b: Bug, us: Seq<BugUpdate>) -> Seq<BugUpdate>
    decreases us.len(),
{
    if us.len() == 0 {
        Seq::empty()
    } else {
        let s = sort_updates(b, us.drop_last());
        s.insert(insert_pos(b, s, us.last()) as int, us.last())
    }
}

/// Comments, then change events, in the order the bug lists them.
pub open spec fn chained_updates(b: Bug) -> Seq<BugUpdate> {
    Seq::new(b.comments@.len(), |i: int| BugUpdate::Comment(i as usize)) + Seq::new(
        b.history@.len(),
        |i: int| BugUpdate::Event(i as usize),
    )
}

/// Comments and change events of a bug, in order of occurrence.
pub open spec fn spec_updates(b: Bug) -> Seq<BugUpdate> {
    sort_updates(b, chained_updates(b))
}

proof fn lemma_insert_pos_bound(b: Bug, s: Seq<BugUpdate>, u: BugUpdate)
    ensures
        insert_pos(b, s, u) <= s.len(),
    decreases s.len(),
{
    if s.len() > 0 {
        lemma_insert_pos_bound(b, s.drop_last(), u);
    }
}

proof fn lemma_sort_updates_valid(b: Bug, us: Seq<BugUpdate>)
    requires
        forall|i: int| 0 <= i < us.len() ==> valid_update(b, #[trigger] us[i]),
    ensures
        sort_updates(b, us).len() == us.len(),
        forall|i: int| 0 <= i < us.len() ==> valid_update(b, #[trigger] sort_updates(b, us)[i]),
    decreases us.len(),
{
    if us.len() > 0 {
        lemma_sort_updates_valid(b, us.drop_last());
        let s = sort_updates(b, us.drop_last());
        lemma_insert_pos_bound(b, s, us.last());
        assert(valid_update(b, us[us.len() - 1]));
    }
}

impl Bug {
    /// Inserts an update into updates sorted by time, after every update that happened no
    /// later.
    fn insert_update(&self, out: &mut Vec<BugUpdate>, u: BugUpdate)
        requires
            valid_update(*self, u),
            forall|i: int| 0 <= i < old(out)@.len() ==> valid_update(*self, #[trigger] old(out)@[i]),
        ensures
            final(out)@ == old(out)@.insert(insert_pos(*self, old(out)@, u) as int, u),
    {
        let ghost s = out@;
        let mut p: usize = out.len();
        assert(s.subrange(0, p as int) =~= s);
        while p > 0 && !self.update_before(out[p - 1], u)
            invariant
                p <= s.len(),
                out@ == s,
                valid_update(*self, u),
                forall|i: int| 0 <= i < s.len() ==> valid_update(*self, #[trigger] s[i]),
                insert_pos(*self, s, u) == insert_pos(*self, s.subrange(0, p as int), u),
            decreases p,
        {
            proof {
                let t = s.subrange(0, p as int);
                assert(t.last() == s[p - 1]);
                assert(t.drop_last() =~= s.subrange(0, p - 1));
            }
            p = p - 1;
        }
        proof {
            let t = s.subrange(0, p as int);
            if p > 0 {
                assert(t.last() == s[p - 1]);
            } else {
                assert(t =~= Seq::<BugUpdate>::empty());
            }
            lemma_insert_pos_bound(*self, s, u);
        }
        out.insert(p, u);
    }

    /// Comments and change events in order of occurrence.
    pub fn updates(&self) -> (r: Vec<BugUpdate>)
        ensures
            r@ == spec_updates(*self),
    {
        let nc = self.comments.len();
        let nh = self.history.len();
        let ghost all = chained_updates(*self);
        assert(forall|i: int| 0 <= i < all.len() ==> valid_update(*self, #[trigger] all[i]));
        let mut out: Vec<BugUpdate> = Vec::new();
        let mut k: usize = 0;
        while k < nc
            invariant
                nc == self.comments@.len(),
                k <= nc,
                all == chained_updates(*self),
                forall|i: int| 0 <= i < all.len() ==> valid_update(*self, #[trigger] all[i]),
                out@ == sort_updates(*self, all.subrange(0, k as int)),
            decreases nc - k,
        {
            let u = BugUpdate::Comment(k);
            assert(u == all[k as int]);
            proof { lemma_sort_updates_valid(*self, all.subrange(0, k as int)); }
            self.insert_update(&mut out, u);
            assert(all.subrange(0, k + 1).drop_last() =~= all.subrange(0, k as int));
            k = k + 1;
        }
        let mut j: usize = 0;
        while j < nh
            invariant
                nc == self.comments@.len(),
                nh == self.history@.len(),
                j <= nh,
                all == chained_updates(*self),
                forall|i: int| 0 <= i < all.len() ==> valid_update(*self, #[trigger] all[i]),
                out@ == sort_updates(*self, all.subrange(0, nc + j)),
            decreases nh - j,
        {
            let u = BugUpdate::Event(j);
            assert(u == all[nc + j]);
            proof { lemma_sort_updates_valid(*self, all.subrange(0, nc + j)); }
            self.insert_update(&mut out, u);
            assert(all.subrange(0, nc + j + 1).drop_last() =~= all.subrange(0, nc + j));
            j = j + 1;
        }
        assert(all.subrange(0, nc + nh) =~= all);
        out
    }

    /// Whether one update happened no later than another.
    fn update_before(&self, u: BugUpdate, v: BugUpdate) -> (r: bool)
        ensures
            valid_update(*self, u) && valid_update(*self, v) ==> r == update_le(*self, u, v),
    {
        let a = match u {
            BugUpdate::Comment(i) => if i < self.comments.len() {
                &self.comments[i].created
            } else {
                return false;
            },
            BugUpdate::Event(i) => if i < self.history.len() {
                &self.history[i].when
            } else {
                return false;
            },
        };
        let b = match v {
            BugUpdate::Comment(i) => if i < self.comments.len() {
                &self.comments[i].created
            } else {
                return false;
            },
            BugUpdate::Event(i) => if i < self.history.len() {
                &self.history[i].when
            } else {
                return false;
            },
        };
        a.le(b)
    }
}


/// Text of an optional string.
pub open spec fn opt_view(o: Option<String>) -> Option<Seq<char>> {
    match o {
        Some(s) => Some(s@),
        None => None,
    }
}

/// Display text of an optional time.
pub open spec fn opt_time(o: Option<Timestamp>) -> Option<Seq<char>> {
    match o {
        Some(t) => Some(t.spec_text()),
        None => None,
    }
}

/// Texts of a list of strings.
pub open spec fn views(v: Seq<String>) -> Seq<Seq<char>> {
    v.map_values(|x: String| x@)
}

/// Decimal texts of a list of numbers.
pub open spec fn number_texts(v: Seq<u64>) -> Seq<Seq<char>> {
    v.map_values(|n: u64| nat_digits(n as nat))
}

/// Texts of a list of flags.
pub open spec fn flag_texts(v: Seq<BugFlag>) -> Seq<Seq<char>> {
    v.map_values(|f: BugFlag| f.flag.spec_text())
}

/// Lines of custom fields, values wrapped.
pub open spec fn custom_text(fs: Seq<(String, String)>, width: nat) -> Seq<char>
    decreases fs.len(),
{
    if fs.len() == 0 {
        Seq::empty()
    } else {
        custom_text(fs.drop_last(), width) + line(field_line(fs.last().0@, wrapped_value(fs.last().1@, width)))
    }
}

/// Rendered attachments.
pub open spec fn attachments_text(v: Seq<Attachment>, out: Layout) -> Seq<char>
    decreases v.len(),
{
    if v.len() == 0 {
        Seq::empty()
    } else {
        attachments_text(v.drop_last(), out) + v.last().spec_render(out)
    }
}

/// Rendered comment or change event.
pub open spec fn update_text(b: Bug, u: BugUpdate, out: Layout) -> Seq<char> {
    match u {
        BugUpdate::Comment(i) => b.comments@[i as int].spec_render(out),
        BugUpdate::Event(i) => b.history@[i as int].spec_render(out),
    }
}

/// Rendered updates, each after an empty line.
pub open spec fn updates_text(b: Bug, us: Seq<BugUpdate>, out: Layout) -> Seq<char>
    decreases us.len(),
{
    if us.len() == 0 {
        Seq::empty()
    } else {
        updates_text(b, us.drop_last(), out) + "\n"@ + update_text(b, us.last(), out)
    }
}

/// Lines of a bug's summary, people and times.
pub open spec fn bug_people_text(b: Bug, out: Layout) -> Seq<char> {
    spec_output_field_wrapped("Summary"@, opt_view(b.summary), out.width as nat)
        + spec_output_field("Assignee"@, opt_view(b.assigned_to), out)
        + spec_output_field("QA"@, opt_view(b.qa_contact), out)
        + spec_output_field("Creator"@, opt_view(b.creator), out)
        + spec_output_field("Created"@, opt_time(b.created), out)
        + spec_output_field("Updated"@, opt_time(b.updated), out)
        + spec_output_field("Deadline"@, opt_view(b.deadline), out)
}

/// Lines of a bug's status, resolution, duplicate, whiteboard, component, version and
/// target.
pub open spec fn bug_state_text(b: Bug, out: Layout) -> Seq<char> {
    spec_output_field("Status"@, opt_view(b.status), out)
        + spec_output_field("Resolution"@, opt_view(b.resolution), out)
        + spec_output_field("Duplicate of"@, match b.duplicate_of {
            Some(n) => Some(nat_digits(n as nat)),
            None => None,
        }, out)
        + spec_output_field("Whiteboard"@, opt_view(b.whiteboard), out)
        + spec_output_field("Component"@, opt_view(b.component), out)
        + spec_output_field("Version"@, opt_view(b.version), out)
        + spec_output_field("Target"@, opt_view(b.target), out)
}

/// Lines of a bug's product, platform, operating system, priority and severity.
pub open spec fn bug_product_text(b: Bug, out: Layout) -> Seq<char> {
    spec_output_field("Product"@, opt_view(b.product), out)
        + spec_output_field("Platform"@, opt_view(b.platform), out)
        + spec_output_field("OS"@, opt_view(b.op_sys), out)
        + spec_output_field("Priority"@, opt_view(b.priority), out)
        + spec_output_field("Severity"@, opt_view(b.severity), out)
}

/// Lines of the single-valued fields of a bug, from its summary to its severity.
pub open spec fn bug_fields_text(b: Bug, out: Layout) -> Seq<char> {
    bug_people_text(b, out) + bug_state_text(b, out) + bug_product_text(b, out)
}

/// Lines of a bug's ID, its list fields and its URL.
pub open spec fn bug_lists_text(b: Bug, out: Layout) -> Seq<char> {
    let w = out.width as nat;
    line(field_line("ID"@, nat_digits(b.id as nat)))
        + spec_wrapped_csv("Alias"@, views(b.alias@), w)
        + spec_wrapped_csv("Groups"@, views(b.groups@), w)
        + spec_wrapped_csv("Keywords"@, views(b.keywords@), w)
        + spec_wrapped_csv("CC"@, views(b.cc@), w)
        + spec_wrapped_csv("Flags"@, flag_texts(b.flags@), w)
        + spec_wrapped_csv("Tags"@, views(b.tags@), w)
        + spec_wrapped_csv("Blocks"@, number_texts(b.blocks@), w)
        + spec_wrapped_csv("Depends on"@, number_texts(b.depends_on@), w)
        + spec_output_field("URL"@, opt_view(b.url), out)
}

/// Lines of a bug's related links, custom fields and comment and change counts.
pub open spec fn bug_extra_text(b: Bug, out: Layout) -> Seq<char> {
    (if b.see_also@.len() > 0 {
        spec_truncated_list("See also"@, views(b.see_also@), out)
    } else {
        Seq::empty()
    }) + custom_text(b.custom_fields@, out.width as nat) + (if b.comments@.len() > 0 {
        line(field_line("Comments"@, nat_digits(b.comments@.len())))
    } else {
        Seq::empty()
    }) + (if b.history@.len() > 0 {
        line(field_line("Changes"@, nat_digits(b.history@.len())))
    } else {
        Seq::empty()
    })
}

/// A bug's attachment count and attachments, when it has any.
pub open spec fn bug_attachments_text(b: Bug, out: Layout) -> Seq<char> {
    if b.attachments@.len() > 0 {
        "\n"@ + line(field_line("Attachments"@, nat_digits(b.attachments@.len()))) + line(
            repeat('-', out.width as nat),
        ) + attachments_text(b.attachments@, out)
    } else {
        Seq::empty()
    }
}

fn opt_str(o: &Option<String>) -> (r: Option<&str>)
    ensures
        match r {
            Some(s) => opt_view(*o) == Some(s@),
            None => opt_view(*o) is None,
        },
{
    match o {
        Some(s) => Some(s.as_str()),
        None => None,
    }
}

fn opt_time_str(o: &Option<Timestamp>) -> (r: Option<&str>)
    ensures
        match r {
            Some(s) => opt_time(*o) == Some(s@),
            None => opt_time(*o) is None,
        },
{
    match o {
        Some(t) => Some(t.text()),
        None => None,
    }
}

fn number_strings(v: &Vec<u64>) -> (r: Vec<String>)
    ensures
        views(r@) == number_texts(v@),
{
    let mut r: Vec<String> = Vec::new();
    let mut i: usize = 0;
    while i < v.len()
        invariant
            i <= v@.len(),
            views(r@) == number_texts(v@.subrange(0, i as int)),
        decreases v.len() - i,
    {
        let ghost before = r@;
        r.push(u64_to_string(v[i]));
        assert(views(r@) =~= views(before).push(nat_digits(v@[i as int] as nat)));
        assert(v@.subrange(0, i + 1) =~= v@.subrange(0, i as int).push(v@[i as int]));
        i = i + 1;
    }
    assert(v@.subrange(0, v@.len() as int) =~= v@);
    r
}

fn flag_strings(v: &Vec<BugFlag>) -> (r: Vec<String>)
    ensures
        views(r@) == flag_texts(v@),
{
    let mut r: Vec<String> = Vec::new();
    let mut i: usize = 0;
    while i < v.len()
        invariant
            i <= v@.len(),
            views(r@) == flag_texts(v@.subrange(0, i as int)),
        decreases v.len() - i,
    {
        let ghost before = r@;
        r.push(v[i].flag.to_text());
        assert(views(r@) =~= views(before).push(v@[i as int].flag.spec_text()));
        assert(v@.subrange(0, i + 1) =~= v@.subrange(0, i as int).push(v@[i as int]));
        i = i + 1;
    }
    assert(v@.subrange(0, v@.len() as int) =~= v@);
    r
}

impl Bug {
    /// A bug with the given ID and nothing else set.
    pub fn new(id: u64) -> (r: Bug)
        ensures
            r.id == id,
            r.alias@.len() == 0 && r.groups@.len() == 0 && r.keywords@.len() == 0 && r.cc@.len() == 0,
            r.blocks@.len() == 0 && r.depends_on@.len() == 0 && r.flags@.len() == 0,
            r.tags@.len() == 0 && r.see_also@.len() == 0 && r.custom_fields@.len() == 0,
            r.comments@.len() == 0 && r.attachments@.len() == 0 && r.history@.len() == 0,
            r.assigned_to is None && r.qa_contact is None && r.creator is None && r.created is None,
            r.updated is None && r.deadline is None && r.summary is None && r.status is None,
            r.resolution is None && r.whiteboard is None && r.product is None && r.component is None,
            r.version is None && r.platform is None && r.op_sys is None && r.target is None,
            r.priority is None && r.severity is None && r.duplicate_of is None && r.url is None,
    {
        Bug {
            id,
            alias: Vec::new(),
            assigned_to: None,
            qa_contact: None,
            creator: None,
            created: None,
            updated: None,
            deadline: None,
            summary: None,
            status: None,
            resolution: None,
            whiteboard: None,
            product: None,
            component: None,
            version: None,
            platform: None,
            op_sys: None,
            target: None,
            priority: None,
            severity: None,
            groups: Vec::new(),
            keywords: Vec::new(),
            cc: Vec::new(),
            blocks: Vec::new(),
            depends_on: Vec::new(),
            duplicate_of: None,
            flags: Vec::new(),
            tags: Vec::new(),
            see_also: Vec::new(),
            url: None,
            custom_fields: Vec::new(),
            comments: Vec::new(),
            attachments: Vec::new(),
            history: Vec::new(),
        }
    }
}

impl Bug {
    fn people_text(&self, out: Layout) -> (r: String)
        requires
            out.width >= 15,
        ensures
            r@ == bug_people_text(*self, out),
    {
        let mut t = output_field_wrapped("Summary", opt_str(&self.summary), out.width);
        t.append(output_field("Assignee", opt_str(&self.assigned_to), out).as_str());
        t.append(output_field("QA", opt_str(&self.qa_contact), out).as_str());
        t.append(output_field("Creator", opt_str(&self.creator), out).as_str());
        t.append(output_field("Created", opt_time_str(&self.created), out).as_str());
        t.append(output_field("Updated", opt_time_str(&self.updated), out).as_str());
        t.append(output_field("Deadline", opt_str(&self.deadline), out).as_str());
        t
    }

    fn state_text(&self, out: Layout) -> (r: String)
        ensures
            r@ == bug_state_text(*self, out),
    {
        let mut t = output_field("Status", opt_str(&self.status), out);
        t.append(output_field("Resolution", opt_str(&self.resolution), out).as_str());
        let dup = match self.duplicate_of {
            Some(n) => Some(u64_to_string(n)),
            None => None,
        };
        t.append(output_field("Duplicate of", opt_str(&dup), out).as_str());
        t.append(output_field("Whiteboard", opt_str(&self.whiteboard), out).as_str());
        t.append(output_field("Component", opt_str(&self.component), out).as_str());
        t.append(output_field("Version", opt_str(&self.version), out).as_str());
        t.append(output_field("Target", opt_str(&self.target), out).as_str());
        t
    }

    fn product_text(&self, out: Layout) -> (r: String)
        ensures
            r@ == bug_product_text(*self, out),
    {
        let mut t = output_field("Product", opt_str(&self.product), out);
        t.append(output_field("Platform", opt_str(&self.platform), out).as_str());
        t.append(output_field("OS", opt_str(&self.op_sys), out).as_str());
        t.append(output_field("Priority", opt_str(&self.priority), out).as_str());
        t.append(output_field("Severity", opt_str(&self.severity), out).as_str());
        t
    }

    fn fields_text(&self, out: Layout) -> (r: String)
        requires
            out.width >= 15,
        ensures
            r@ == bug_fields_text(*self, out),
    {
        let mut t = self.people_text(out);
        t.append(self.state_text(out).as_str());
        t.append(self.product_text(out).as_str());
        t
    }

    fn lists_text(&self, out: Layout) -> (r: String)
        requires
            out.width >= 15,
        ensures
            r@ == bug_lists_text(*self, out),
    {
        let w = out.width;
        let mut t = field_text("ID", u64_to_string(self.id).as_str());
        push_char(&mut t, '\n');
        t.append(wrapped_csv("Alias", &self.alias, w).as_str());
        t.append(wrapped_csv("Groups", &self.groups, w).as_str());
        t.append(wrapped_csv("Keywords", &self.keywords, w).as_str());
        t.append(wrapped_csv("CC", &self.cc, w).as_str());
        t.append(wrapped_csv("Flags", &flag_strings(&self.flags), w).as_str());
        t.append(wrapped_csv("Tags", &self.tags, w).as_str());
        t.append(wrapped_csv("Blocks", &number_strings(&self.blocks), w).as_str());
        t.append(wrapped_csv("Depends on", &number_strings(&self.depends_on), w).as_str());
        t.append(output_field("URL", opt_str(&self.url), out).as_str());
        t
    }

    fn extra_text(&self, out: Layout) -> (r: String)
        requires
            out.width >= 15,
        ensures
            r@ == bug_extra_text(*self, out),
    {
        let mut t = if self.see_also.len() > 0 {
            truncated_list("See also", &self.see_also, out)
        } else {
            String::new()
        };
        let ghost head = t@;
        let mut i: usize = 0;
        while i < self.custom_fields.len()
            invariant
                i <= self.custom_fields@.len(),
                out.width >= 15,
                t@ == head + custom_text(self.custom_fields@.subrange(0, i as int), out.width as nat),
            decreases self.custom_fields.len() - i,
        {
            let (name, value) = &self.custom_fields[i];
            let v = wrap_value(value.as_str(), out.width);
            let mut l = field_text(name.as_str(), v.as_str());
            push_char(&mut l, '\n');
            t.append(l.as_str());
            assert(self.custom_fields@.subrange(0, i + 1).drop_last() =~= self.custom_fields@.subrange(0, i as int));
            i = i + 1;
        }
        assert(self.custom_fields@.subrange(0, self.custom_fields@.len() as int) =~= self.custom_fields@);
        if self.comments.len() > 0 {
            let n: u64 = self.comments.len() as u64;
            let mut l = field_text("Comments", u64_to_string(n).as_str());
            push_char(&mut l, '\n');
            t.append(l.as_str());
        }
        if self.history.len() > 0 {
            let n: u64 = self.history.len() as u64;
            let mut l = field_text("Changes", u64_to_string(n).as_str());
            push_char(&mut l, '\n');
            t.append(l.as_str());
        }
        t
    }

    fn attachments_part(&self, out: Layout) -> (r: String)
        requires
            out.width >= 15,
        ensures
            r@ == bug_attachments_text(*self, out),
    {
        if self.attachments.len() == 0 {
            return String::new();
        }
        let n: u64 = self.attachments.len() as u64;
        let mut t = owned("\n");
        t.append(field_text("Attachments", u64_to_string(n).as_str()).as_str());
        push_char(&mut t, '\n');
        t.append(repeat_char('-', out.width).as_str());
        push_char(&mut t, '\n');
        proof {
            reveal_strlit("\n");
        }
        let ghost head = t@;
        let mut i: usize = 0;
        while i < self.attachments.len()
            invariant
                i <= self.attachments@.len(),
                out.width >= 15,
                t@ == head + attachments_text(self.attachments@.subrange(0, i as int), out),
            decreases self.attachments.len() - i,
        {
            t.append(self.attachments[i].render(out).as_str());
            assert(self.attachments@.subrange(0, i + 1).drop_last() =~= self.attachments@.subrange(0, i as int));
            i = i + 1;
        }
        assert(self.attachments@.subrange(0, self.attachments@.len() as int) =~= self.attachments@);
        t
    }

    fn updates_part(&self, out: Layout) -> (r: String)
        requires
            out.width >= 15,
            self.renderable(),
        ensures
            r@ == updates_text(*self, spec_updates(*self), out),
    {
        let us = self.updates();
        proof {
            assert(forall|i: int| 0 <= i < chained_updates(*self).len() ==> valid_update(*self, #[trigger] chained_updates(*self)[i]));
            lemma_sort_updates_valid(*self, chained_updates(*self));
        }
        let mut t = String::new();
        let mut i: usize = 0;
        while i < us.len()
            invariant
                i <= us@.len(),
                us@ == spec_updates(*self),
                out.width >= 15,
                self.renderable(),
                forall|k: int| 0 <= k < us@.len() ==> valid_update(*self, #[trigger] us@[k]),
                t@ == updates_text(*self, us@.subrange(0, i as int), out),
            decreases us.len() - i,
        {
            proof {
                reveal_strlit("\n");
            }
            let ghost before = t@;
            push_char(&mut t, '\n');
            assert(t@ =~= before + "\n"@);
            let u = us[i];
            assert(valid_update(*self, us@[i as int]));
            let s = match u {
                BugUpdate::Comment(k) => self.comments[k].render(out),
                BugUpdate::Event(k) => {
                    assert(self.history@[k as int].renderable());
                    self.history[k].render(out)
                },
            };
            t.append(s.as_str());
            assert(us@.subrange(0, i + 1).drop_last() =~= us@.subrange(0, i as int));
            i = i + 1;
        }
        assert(us@.subrange(0, us@.len() as int) =~= us@);
        t
    }
}

impl Render for Bug {
    open spec fn renderable(&self) -> bool {
        forall|i: int| 0 <= i < self.history@.len() ==> (#[trigger] self.history@[i]).renderable()
    }

    open spec fn spec_render(&self, out: Layout) -> Seq<char> {
        bug_fields_text(*self, out) + bug_lists_text(*self, out) + bug_extra_text(*self, out)
            + bug_attachments_text(*self, out) + updates_text(*self, spec_updates(*self), out)
    }

    fn render(&self, out: Layout) -> (s: String) {
        let mut t = self.fields_text(out);
        t.append(self.lists_text(out).as_str());
        t.append(self.extra_text(out).as_str());
        t.append(self.attachments_part(out).as_str());
        t.append(self.updates_part(out).as_str());
        t
    }
}




/// Whether `s` occurs in `text` as a contiguous piece.
pub open spec fn has_segment(text: Seq<char>, s: Seq<char>) -> bool {
    exists|i: int| 0 <= i && i + s.len() <= text.len() && #[trigger] text.subrange(i, i + s.len()) == s
}

proof fn lemma_segment_self(s: Seq<char>)
    ensures
        has_segment(s, s),
{
    let i: int = 0;
    assert(s.subrange(i, i + s.len()) =~= s);
}

proof fn lemma_segment_left(a: Seq<char>, m: Seq<char>, s: Seq<char>)
    requires
        has_segment(m, s),
    ensures
        has_segment(a + m, s),
{
    let i = choose|i: int| 0 <= i && i + s.len() <= m.len() && #[trigger] m.subrange(i, i + s.len()) == s;
    assert((a + m).subrange(a.len() + i, a.len() + i + s.len()) =~= m.subrange(i, i + s.len()));
}

proof fn lemma_segment_right(m: Seq<char>, c: Seq<char>, s: Seq<char>)
    requires
        has_segment(m, s),
    ensures
        has_segment(m + c, s),
{
    let i = choose|i: int| 0 <= i && i + s.len() <= m.len() && #[trigger] m.subrange(i, i + s.len()) == s;
    assert((m + c).subrange(i, i + s.len()) =~= m.subrange(i, i + s.len()));
}

proof fn lemma_people_segments(b: Bug, out: Layout)
    ensures
        has_segment(bug_people_text(b, out), spec_output_field_wrapped("Summary"@, opt_view(b.summary), out.width as nat)),
        has_segment(bug_people_text(b, out), spec_output_field("Assignee"@, opt_view(b.assigned_to), out)),
        has_segment(bug_people_text(b, out), spec_output_field("QA"@, opt_view(b.qa_contact), out)),
        has_segment(bug_people_text(b, out), spec_output_field("Creator"@, opt_view(b.creator), out)),
        has_segment(bug_people_text(b, out), spec_output_field("Created"@, opt_time(b.created), out)),
        has_segment(bug_people_text(b, out), spec_output_field("Updated"@, opt_time(b.updated), out)),
        has_segment(bug_people_text(b, out), spec_output_field("Deadline"@, opt_view(b.deadline), out)),
{
    let x0 = spec_output_field_wrapped("Summary"@, opt_view(b.summary), out.width as nat);
    let x1 = spec_output_field("Assignee"@, opt_view(b.assigned_to), out);
    let x2 = spec_output_field("QA"@, opt_view(b.qa_contact), out);
    let x3 = spec_output_field("Creator"@, opt_view(b.creator), out);
    let x4 = spec_output_field("Created"@, opt_time(b.created), out);
    let x5 = spec_output_field("Updated"@, opt_time(b.updated), out);
    let x6 = spec_output_field("Deadline"@, opt_view(b.deadline), out);
    assert(bug_people_text(b, out) == x0 + x1 + x2 + x3 + x4 + x5 + x6);
    {
        lemma_segment_self(x0);
        lemma_segment_right(x0, x1, x0);
        lemma_segment_right(x0 + x1, x2, x0);
        lemma_segment_right(x0 + x1 + x2, x3, x0);
        lemma_segment_right(x0 + x1 + x2 + x3, x4, x0);
        lemma_segment_right(x0 + x1 + x2 + x3 + x4, x5, x0);
        lemma_segment_right(x0 + x1 + x2 + x3 + x4 + x5, x6, x0);
    }
    {
        lemma_segment_self(x1);
        lemma_segment_left(x0, x1, x1);
        lemma_segment_right(x0 + x1, x2, x1);
        lemma_segment_right(x0 + x1 + x2, x3, x1);
        lemma_segment_right(x0 + x1 + x2 + x3, x4, x1);
        lemma_segment_right(x0 + x1 + x2 + x3 + x4, x5, x1);
        lemma_segment_right(x0 + x1 + x2 + x3 + x4 + x5, x6, x1);
    }
    {
        lemma_segment_self(x2);
        lemma_segment_left(x0 + x1, x2, x2);
        lemma_segment_right(x0 + x1 + x2, x3, x2);
        lemma_segment_right(x0 + x1 + x2 + x3, x4, x2);
        lemma_segment_right(x0 + x1 + x2 + x3 + x4, x5, x2);
        lemma_segment_right(x0 + x1 + x2 + x3 + x4 + x5, x6, x2);
    }
    {
        lemma_segment_self(x3);
        lemma_segment_left(x0 + x1 + x2, x3, x3);
        lemma_segment_right(x0 + x1 + x2 + x3, x4, x3);
        lemma_segment_right(x0 + x1 + x2 + x3 + x4, x5, x3);
        lemma_segment_right(x0 + x1 + x2 + x3 + x4 + x5, x6, x3);
    }
    {
        lemma_segment_self(x4);
        lemma_segment_left(x0 + x1 + x2 + x3, x4, x4);
        lemma_segment_right(x0 + x1 + x2 + x3 + x4, x5, x4);
        lemma_segment_right(x0 + x1 + x2 + x3 + x4 + x5, x6, x4);
    }
    {
        lemma_segment_self(x5);
        lemma_segment_left(x0 + x1 + x2 + x3 + x4, x5, x5);
        lemma_segment_right(x0 + x1 + x2 + x3 + x4 + x5, x6, x5);
    }
    {
        lemma_segment_self(x6);
        lemma_segment_left(x0 + x1 + x2 + x3 + x4 + x5, x6, x6);
    }
}

proof fn lemma_state_segments(b: Bug, out: Layout)
    ensures
        has_segment(bug_state_text(b, out), spec_output_field("Status"@, opt_view(b.status), out)),
        has_segment(bug_state_text(b, out), spec_output_field("Resolution"@, opt_view(b.resolution), out)),
        has_segment(bug_state_text(b, out), spec_output_field("Duplicate of"@, match b.duplicate_of { Some(n) => Some(nat_digits(n as nat)), None => None }, out)),
        has_segment(bug_state_text(b, out), spec_output_field("Whiteboard"@, opt_view(b.whiteboard), out)),
        has_segment(bug_state_text(b, out), spec_output_field("Component"@, opt_view(b.component), out)),
        has_segment(bug_state_text(b, out), spec_output_field("Version"@, opt_view(b.version), out)),
        has_segment(bug_state_text(b, out), spec_output_field("Target"@, opt_view(b.target), out)),
{
    let x0 = spec_output_field("Status"@, opt_view(b.status), out);
    let x1 = spec_output_field("Resolution"@, opt_view(b.resolution), out);
    let x2 = spec_output_field("Duplicate of"@, match b.duplicate_of { Some(n) => Some(nat_digits(n as nat)), None => None }, out);
    let x3 = spec_output_field("Whiteboard"@, opt_view(b.whiteboard), out);
    let x4 = spec_output_field("Component"@, opt_view(b.component), out);
    let x5 = spec_output_field("Version"@, opt_view(b.version), out);
    let x6 = spec_output_field("Target"@, opt_view(b.target), out);
    assert(bug_state_text(b, out) == x0 + x1 + x2 + x3 + x4 + x5 + x6);
    {
        lemma_segment_self(x0);
        lemma_segment_right(x0, x1, x0);
        lemma_segment_right(x0 + x1, x2, x0);
        lemma_segment_right(x0 + x1 + x2, x3, x0);
        lemma_segment_right(x0 + x1 + x2 + x3, x4, x0);
        lemma_segment_right(x0 + x1 + x2 + x3 + x4, x5, x0);
        lemma_segment_right(x0 + x1 + x2 + x3 + x4 + x5, x6, x0);
    }
    {
        lemma_segment_self(x1);
        lemma_segment_left(x0, x1, x1);
        lemma_segment_right(x0 + x1, x2, x1);
        lemma_segment_right(x0 + x1 + x2, x3, x1);
        lemma_segment_right(x0 + x1 + x2 + x3, x4, x1);
        lemma_segment_right(x0 + x1 + x2 + x3 + x4, x5, x1);
        lemma_segment_right(x0 + x1 + x2 + x3 + x4 + x5, x6, x1);
    }
    {
        lemma_segment_self(x2);
        lemma_segment_left(x0 + x1, x2, x2);
        lemma_segment_right(x0 + x1 + x2, x3, x2);
        lemma_segment_right(x0 + x1 + x2 + x3, x4, x2);
        lemma_segment_right(x0 + x1 + x2 + x3 + x4, x5, x2);
        lemma_segment_right(x0 + x1 + x2 + x3 + x4 + x5, x6, x2);
    }
    {
        lemma_segment_self(x3);
        lemma_segment_left(x0 + x1 + x2, x3, x3);
        lemma_segment_right(x0 + x1 + x2 + x3, x4, x3);
        lemma_segment_right(x0 + x1 + x2 + x3 + x4, x5, x3);
        lemma_segment_right(x0 + x1 + x2 + x3 + x4 + x5, x6, x3);
    }
    {
        lemma_segment_self(x4);
        lemma_segment_left(x0 + x1 + x2 + x3, x4, x4);
        lemma_segment_right(x0 + x1 + x2 + x3 + x4, x5, x4);
        lemma_segment_right(x0 + x1 + x2 + x3 + x4 + x5, x6, x4);
    }
    {
        lemma_segment_self(x5);
        lemma_segment_left(x0 + x1 + x2 + x3 + x4, x5, x5);
        lemma_segment_right(x0 + x1 + x2 + x3 + x4 + x5, x6, x5);
    }
    {
        lemma_segment_self(x6);
        lemma_segment_left(x0 + x1 + x2 + x3 + x4 + x5, x6, x6);
    }
}

proof fn lemma_product_segments(b: Bug, out: Layout)
    ensures
        has_segment(bug_product_text(b, out), spec_output_field("Product"@, opt_view(b.product), out)),
        has_segment(bug_product_text(b, out), spec_output_field("Platform"@, opt_view(b.platform), out)),
        has_segment(bug_product_text(b, out), spec_output_field("OS"@, opt_view(b.op_sys), out)),
        has_segment(bug_product_text(b, out), spec_output_field("Priority"@, opt_view(b.priority), out)),
        has_segment(bug_product_text(b, out), spec_output_field("Severity"@, opt_view(b.severity), out)),
{
    let x0 = spec_output_field("Product"@, opt_view(b.product), out);
    let x1 = spec_output_field("Platform"@, opt_view(b.platform), out);
    let x2 = spec_output_field("OS"@, opt_view(b.op_sys), out);
    let x3 = spec_output_field("Priority"@, opt_view(b.priority), out);
    let x4 = spec_output_field("Severity"@, opt_view(b.severity), out);
    assert(bug_product_text(b, out) == x0 + x1 + x2 + x3 + x4);
    {
        lemma_segment_self(x0);
        lemma_segment_right(x0, x1, x0);
        lemma_segment_right(x0 + x1, x2, x0);
        lemma_segment_right(x0 + x1 + x2, x3, x0);
        lemma_segment_right(x0 + x1 + x2 + x3, x4, x0);
    }
    {
        lemma_segment_self(x1);
        lemma_segment_left(x0, x1, x1);
        lemma_segment_right(x0 + x1, x2, x1);
        lemma_segment_right(x0 + x1 + x2, x3, x1);
        lemma_segment_right(x0 + x1 + x2 + x3, x4, x1);
    }
    {
        lemma_segment_self(x2);
        lemma_segment_left(x0 + x1, x2, x2);
        lemma_segment_right(x0 + x1 + x2, x3, x2);
        lemma_segment_right(x0 + x1 + x2 + x3, x4, x2);
    }
    {
        lemma_segment_self(x3);
        lemma_segment_left(x0 + x1 + x2, x3, x3);
        lemma_segment_right(x0 + x1 + x2 + x3, x4, x3);
    }
    {
        lemma_segment_self(x4);
        lemma_segment_left(x0 + x1 + x2 + x3, x4, x4);
    }
}

/// A bug's rendering shows each of its single-valued fields on the line labelled with
/// that field's name: the assignee under `Assignee`, the QA contact under `QA`, the
/// creator under `Creator`, the deadline under `Deadline`, the status under `Status`, the
/// resolution under `Resolution`, the whiteboard under `Whiteboard`, the component under
/// `Component`, the version under `Version`, the target under `Target`, the product under
/// `Product`, the platform under `Platform`, the operating system under `OS`, the priority
/// under `Priority` and the severity under `Severity`, with the priority line directly
/// before the severity line.
pub proof fn lemma_bug_render_fields(b: Bug, out: Layout)
    ensures
        has_segment(b.spec_render(out), spec_output_field("Assignee"@, opt_view(b.assigned_to), out)),
        has_segment(b.spec_render(out), spec_output_field("QA"@, opt_view(b.qa_contact), out)),
        has_segment(b.spec_render(out), spec_output_field("Creator"@, opt_view(b.creator), out)),
        has_segment(b.spec_render(out), spec_output_field("Deadline"@, opt_view(b.deadline), out)),
        has_segment(b.spec_render(out), spec_output_field("Status"@, opt_view(b.status), out)),
        has_segment(b.spec_render(out), spec_output_field("Resolution"@, opt_view(b.resolution), out)),
        has_segment(b.spec_render(out), spec_output_field("Whiteboard"@, opt_view(b.whiteboard), out)),
        has_segment(b.spec_render(out), spec_output_field("Component"@, opt_view(b.component), out)),
        has_segment(b.spec_render(out), spec_output_field("Version"@, opt_view(b.version), out)),
        has_segment(b.spec_render(out), spec_output_field("Target"@, opt_view(b.target), out)),
        has_segment(b.spec_render(out), spec_output_field("Product"@, opt_view(b.product), out)),
        has_segment(b.spec_render(out), spec_output_field("Platform"@, opt_view(b.platform), out)),
        has_segment(b.spec_render(out), spec_output_field("OS"@, opt_view(b.op_sys), out)),
        has_segment(b.spec_render(out), spec_output_field("Priority"@, opt_view(b.priority), out)),
        has_segment(b.spec_render(out), spec_output_field("Severity"@, opt_view(b.severity), out)),
        has_segment(b.spec_render(out), spec_output_field("Priority"@, opt_view(b.priority), out) + spec_output_field(
            "Severity"@,
            opt_view(b.severity),
            out,
        )),
{
    lemma_people_segments(b, out);
    lemma_state_segments(b, out);
    lemma_product_segments(b, out);
    let pe = bug_people_text(b, out);
    let st = bug_state_text(b, out);
    let pr = bug_product_text(b, out);
    let p4 = spec_output_field("Priority"@, opt_view(b.priority), out);
    let p5 = spec_output_field("Severity"@, opt_view(b.severity), out);
    let head = spec_output_field("Product"@, opt_view(b.product), out) + spec_output_field("Platform"@, opt_view(b.platform), out)
        + spec_output_field("OS"@, opt_view(b.op_sys), out);
    assert(pr =~= head + (p4 + p5));
    lemma_segment_self(p4 + p5);
    lemma_segment_left(head, p4 + p5, p4 + p5);
    let fields = bug_fields_text(b, out);
    let l = bug_lists_text(b, out);
    let e = bug_extra_text(b, out);
    let a = bug_attachments_text(b, out);
    let u = updates_text(b, spec_updates(b), out);
    assert(b.spec_render(out) == fields + l + e + a + u);
    assert forall|s: Seq<char>| has_segment(pe, s) || has_segment(st, s) || has_segment(pr, s) implies #[trigger] has_segment(b.spec_render(out), s) by {
        if has_segment(pe, s) {
            lemma_segment_right(pe, st, s);
            lemma_segment_right(pe + st, pr, s);
        } else if has_segment(st, s) {
            lemma_segment_left(pe, st, s);
            lemma_segment_right(pe + st, pr, s);
        } else {
            lemma_segment_left(pe + st, pr, s);
        }
        lemma_segment_right(fields, l, s);
        lemma_segment_right(fields + l, e, s);
        lemma_segment_right(fields + l + e, a, s);
        lemma_segment_right(fields + l + e + a, u, s);
    }
    assert(has_segment(pr, p4 + p5));
}

/// Whether updates are in order of occurrence.
pub open spec fn updates_sorted(b: Bug, us: Seq<BugUpdate>) -> bool {
    forall|i: int, j: int| 0 <= i < j < us.len() ==> update_le(b, #[trigger] us[i], #[trigger] us[j])
}

proof fn lemma_insert_pos_order(b: Bug, s: Seq<BugUpdate>, u: BugUpdate)
    requires
        updates_sorted(b, s),
    ensures
        insert_pos(b, s, u) <= s.len(),
        forall|i: int| 0 <= i < insert_pos(b, s, u) ==> update_le(b, #[trigger] s[i], u),
        forall|i: int| insert_pos(b, s, u) <= i < s.len() ==> update_le(b, u, #[trigger] s[i]),
    decreases s.len(),
{
    if s.len() > 0 {
        let l = s.last();
        if update_le(b, l, u) {
            assert forall|i: int| 0 <= i < s.len() implies update_le(b, #[trigger] s[i], u) by {
                if i < s.len() - 1 {
                    assert(update_le(b, s[i], s[s.len() - 1]));
                }
            }
        } else {
            let d = s.drop_last();
            assert forall|i: int, j: int| 0 <= i < j < d.len() implies update_le(b, #[trigger] d[i], #[trigger] d[j]) by {
                assert(d[i] == s[i] && d[j] == s[j]);
            }
            lemma_insert_pos_order(b, d, u);
            assert forall|i: int| 0 <= i < insert_pos(b, s, u) implies update_le(b, #[trigger] s[i], u) by {
                assert(s[i] == d[i]);
            }
            assert forall|i: int| insert_pos(b, s, u) <= i < s.len() implies update_le(b, u, #[trigger] s[i]) by {
                if i < s.len() - 1 {
                    assert(s[i] == d[i]);
                }
            }
        }
    }
}

proof fn lemma_sort_updates_sorted(b: Bug, us: Seq<BugUpdate>)
    ensures
        updates_sorted(b, sort_updates(b, us)),
    decreases us.len(),
{
    if us.len() > 0 {
        let s = sort_updates(b, us.drop_last());
        lemma_sort_updates_sorted(b, us.drop_last());
        let u = us.last();
        lemma_insert_pos_order(b, s, u);
        let p = insert_pos(b, s, u) as int;
        let r = s.insert(p, u);
        assert forall|i: int, j: int| 0 <= i < j < r.len() implies update_le(b, #[trigger] r[i], #[trigger] r[j]) by {
            if j < p {
                assert(r[i] == s[i] && r[j] == s[j]);
            } else if j == p {
                assert(r[i] == s[i]);
            } else if i < p {
                assert(r[i] == s[i] && r[j] == s[j - 1]);
                assert(update_le(b, s[i], u) && update_le(b, u, s[j - 1]));
            } else if i == p {
                assert(r[j] == s[j - 1]);
            } else {
                assert(r[i] == s[i - 1] && r[j] == s[j - 1]);
            }
        }
    }
}

/// A bug's comments and change events come out in order of occurrence: no update is
/// followed by an earlier one.
pub proof fn lemma_updates_in_order(b: Bug)
    ensures
        updates_sorted(b, spec_updates(b)),
        spec_updates(b).len() == b.comments@.len() + b.history@.len(),
{
    lemma_sort_updates_sorted(b, chained_updates(b));
    assert(forall|i: int| 0 <= i < chained_updates(b).len() ==> valid_update(b, #[trigger] chained_updates(b)[i]));
    lemma_sort_updates_valid(b, chained_updates(b));
}

/// The text of a flag parses back to the flag: its name and its status.
pub proof fn lemma_flag_text_roundtrip(f: Flag)
    ensures
        flag_text_splittable(f.spec_text()),
        f.spec_text().len() > 0,
        f.spec_text().drop_last() == f.name@,
        FlagStatus::spec_from_name(seq![f.spec_text().last()]) == Some(f.status),
{
    reveal_strlit("+");
    reveal_strlit("-");
    reveal_strlit("?");
    reveal_strlit("X");
    assert("+"@ =~= seq!['+']);
    assert("-"@ =~= seq!['-']);
    assert("?"@ =~= seq!['?']);
    assert("X"@ =~= seq!['X']);
    let t = f.spec_text();
    let st = f.status.spec_name();
    assert(st.len() == 1);
    assert(t.drop_last() =~= f.name@);
    assert(t.last() == st[0]);
    assert(seq![t.last()] =~= st);
    if seq![t.last()] == "+"@ {
        assert(seq![t.last()][0] == '+');
    }
    if seq![t.last()] == "-"@ {
        assert(seq![t.last()][0] == '-');
    }
    if seq![t.last()] == "?"@ {
        assert(seq![t.last()][0] == '?');
    }
}


/// A string field value with an empty string taken as unset.
pub open spec fn spec_non_empty(o: Option<String>) -> Option<String> {
    match o {
        Some(s) => if s@.len() == 0 {
            None
        } else {
            Some(s)
        },
        None => None,
    }
}

/// Deserialize an empty string as None.
pub fn non_empty_str(o: Option<String>) -> (r: Option<String>)
    ensures
        r == spec_non_empty(o),
{
    match o {
        Some(s) => if s.as_str().is_empty() {
            None
        } else {
            Some(s)
        },
        None => None,
    }
}

/// Values services use for a field that is not set.
pub open spec fn is_unset_value(s: Seq<char>) -> bool {
    s == "unspecified"@ || s == "Unspecified"@ || s == "---"@ || s == "--"@ || s == "-"@
}

/// A string field value with an empty string or a common placeholder taken as unset.
pub fn unset_value_str(o: Option<String>) -> (r: Option<String>)
    ensures
        r == (match spec_non_empty(o) {
            Some(s) => if is_unset_value(s@) {
                None
            } else {
                Some(s)
            },
            None => None,
        }),
{
    match non_empty_str(o) {
        Some(s) => {
            let v = s.as_str();
            if str_eq(v, "unspecified") || str_eq(v, "Unspecified") || str_eq(v, "---") || str_eq(v, "--")
                || str_eq(v, "-") {
                None
            } else {
                Some(s)
            }
        },
        None => None,
    }
}

/// Text of an optional value in a search line: the value, or `None` when unset.
pub open spec fn or_none(o: Option<Seq<char>>) -> Seq<char> {
    match o {
        Some(s) => s,
        None => "None"@,
    }
}

fn or_none_text(o: Option<&str>) -> (r: String)
    ensures
        r@ == or_none(match o {
            Some(s) => Some(s@),
            None => None,
        }),
{
    match o {
        Some(s) => owned(s),
        None => owned("None"),
    }
}

/// Column of a bug field in a search line: lists joined by commas, unset values as
/// `None`, each padded to the field's width (times, the deadline and the summary are not).
pub open spec fn spec_search_column(b: Bug, f: BugField) -> Seq<char> {
    match f {
        BugField::Alias => pad(seq_join(views(b.alias@), ","@), 20),
        BugField::Assignee => pad(or_none(opt_view(b.assigned_to)), 20),
        BugField::Blocks => pad(seq_join(number_texts(b.blocks@), ","@), 20),
        BugField::Cc => pad(seq_join(views(b.cc@), ","@), 20),
        BugField::Component => pad(or_none(opt_view(b.component)), 20),
        BugField::Created => or_none(opt_time(b.created)),
        BugField::Creator => pad(or_none(opt_view(b.creator)), 20),
        BugField::Deadline => or_none(opt_view(b.deadline)),
        BugField::Depends => pad(seq_join(number_texts(b.depends_on@), ","@), 20),
        BugField::DuplicateOf => pad(
            or_none(
                match b.duplicate_of {
                    Some(n) => Some(nat_digits(n as nat)),
                    None => None,
                },
            ),
            9,
        ),
        BugField::Flags => pad(seq_join(flag_texts(b.flags@), ","@), 20),
        BugField::Id => pad(nat_digits(b.id as nat), 9),
        BugField::Keywords => pad(seq_join(views(b.keywords@), ","@), 20),
        BugField::Os => pad(or_none(opt_view(b.op_sys)), 20),
        BugField::Platform => pad(or_none(opt_view(b.platform)), 20),
        BugField::Priority => pad(or_none(opt_view(b.priority)), 12),
        BugField::Product => pad(or_none(opt_view(b.product)), 20),
        BugField::Qa => pad(or_none(opt_view(b.qa_contact)), 20),
        BugField::Resolution => pad(or_none(opt_view(b.resolution)), 20),
        BugField::SeeAlso => pad(seq_join(views(b.see_also@), ","@), 20),
        BugField::Severity => pad(or_none(opt_view(b.severity)), 12),
        BugField::Status => pad(or_none(opt_view(b.status)), 20),
        BugField::Summary => or_none(opt_view(b.summary)),
        BugField::Tags => pad(seq_join(views(b.tags@), ","@), 20),
        BugField::Target => pad(or_none(opt_view(b.target)), 20),
        BugField::Updated => or_none(opt_time(b.updated)),
        BugField::Url => pad(or_none(opt_view(b.url)), 20),
        BugField::Version => pad(or_none(opt_view(b.version)), 20),
        BugField::Whiteboard => pad(or_none(opt_view(b.whiteboard)), 20),
    }
}

/// Search line of a bug: a single field's column with surrounding whitespace removed, or
/// the columns of several fields separated by spaces.
pub open spec fn spec_search_line(b: Bug, fields: Seq<BugField>) -> Seq<char> {
    if fields.len() == 1 {
        spec_trim(spec_search_column(b, fields[0]))
    } else {
        seq_join(fields.map_values(|f: BugField| spec_search_column(b, f)), " "@)
    }
}

/// Bug fields among search fields, in order.
pub open spec fn bug_fields_of(fs: Seq<FilterField>) -> Seq<BugField>
    decreases fs.len(),
{
    if fs.len() == 0 {
        Seq::empty()
    } else {
        let prev = bug_fields_of(fs.drop_last());
        match fs.last() {
            FilterField::Bug(f) => prev.push(f),
            FilterField::Group(_) => prev,
        }
    }
}

/// Bug fields a search line shows for search fields: the bug fields among them; with none,
/// the ID and summary when all or the default fields were asked for, else the ID.
pub open spec fn shown_fields(fs: Seq<FilterField>) -> Seq<BugField> {
    if bug_fields_of(fs).len() > 0 {
        bug_fields_of(fs)
    } else if fs.contains(FilterField::Group(GroupField::All)) || fs.contains(
        FilterField::Group(GroupField::Default),
    ) {
        seq![BugField::Id, BugField::Summary]
    } else {
        seq![BugField::Id]
    }
}

fn join_numbers(v: &Vec<u64>) -> (r: String)
    ensures
        r@ == seq_join(number_texts(v@), ","@),
{
    let s = number_strings(v);
    join(&s, ",")
}

impl Bug {
    fn opt_column(o: &Option<String>, width: usize) -> (r: String)
        ensures
            r@ == pad(or_none(opt_view(*o)), width as nat),
    {
        let t = or_none_text(opt_str(o));
        pad_right(t.as_str(), width)
    }

    /// Column of a bug field in a search line.
    pub fn search_column(&self, field: BugField) -> (r: String)
        ensures
            r@ == spec_search_column(*self, field),
    {
        match field {
            BugField::Alias => pad_right(join(&self.alias, ",").as_str(), 20),
            BugField::Assignee => Self::opt_column(&self.assigned_to, 20),
            BugField::Blocks => pad_right(join_numbers(&self.blocks).as_str(), 20),
            BugField::Cc => pad_right(join(&self.cc, ",").as_str(), 20),
            BugField::Component => Self::opt_column(&self.component, 20),
            BugField::Created => or_none_text(opt_time_str(&self.created)),
            BugField::Creator => Self::opt_column(&self.creator, 20),
            BugField::Deadline => or_none_text(opt_str(&self.deadline)),
            BugField::Depends => pad_right(join_numbers(&self.depends_on).as_str(), 20),
            BugField::DuplicateOf => {
                let t = match self.duplicate_of {
                    Some(n) => u64_to_string(n),
                    None => owned("None"),
                };
                pad_right(t.as_str(), 9)
            },
            BugField::Flags => {
                let v = flag_strings(&self.flags);
                pad_right(join(&v, ",").as_str(), 20)
            },
            BugField::Id => pad_right(u64_to_string(self.id).as_str(), 9),
            BugField::Keywords => pad_right(join(&self.keywords, ",").as_str(), 20),
            BugField::Os => Self::opt_column(&self.op_sys, 20),
            BugField::Platform => Self::opt_column(&self.platform, 20),
            BugField::Priority => Self::opt_column(&self.priority, 12),
            BugField::Product => Self::opt_column(&self.product, 20),
            BugField::Qa => Self::opt_column(&self.qa_contact, 20),
            BugField::Resolution => Self::opt_column(&self.resolution, 20),
            BugField::SeeAlso => pad_right(join(&self.see_also, ",").as_str(), 20),
            BugField::Severity => Self::opt_column(&self.severity, 12),
            BugField::Status => Self::opt_column(&self.status, 20),
            BugField::Summary => or_none_text(opt_str(&self.summary)),
            BugField::Tags => pad_right(join(&self.tags, ",").as_str(), 20),
            BugField::Target => Self::opt_column(&self.target, 20),
            BugField::Updated => or_none_text(opt_time_str(&self.updated)),
            BugField::Url => Self::opt_column(&self.url, 20),
            BugField::Version => Self::opt_column(&self.version, 20),
            BugField::Whiteboard => Self::opt_column(&self.whiteboard, 20),
        }
    }

    /// Search line of the bug for the given fields; at least one field is needed.
    pub fn search_line(&self, fields: &Vec<BugField>) -> (r: String)
        requires
            fields.len() > 0,
        ensures
            r@ == spec_search_line(*self, fields@),
    {
        if fields.len() == 1 {
            let c = self.search_column(fields[0]);
            return trim(c.as_str());
        }
        let ghost cols = fields@.map_values(|f: BugField| spec_search_column(*self, f));
        let mut v: Vec<String> = Vec::new();
        let mut i: usize = 0;
        while i < fields.len()
            invariant
                i <= fields.len(),
                cols == fields@.map_values(|f: BugField| spec_search_column(*self, f)),
                views(v@) == cols.subrange(0, i as int),
            decreases fields.len() - i,
        {
            let ghost before = v@;
            v.push(self.search_column(fields[i]));
            assert(views(v@) =~= views(before).push(cols[i as int]));
            assert(cols.subrange(0, i + 1) =~= cols.subrange(0, i as int).push(cols[i as int]));
            i = i + 1;
        }
        assert(cols.subrange(0, cols.len() as int) =~= cols);
        join(&v, " ")
    }

    /// Search line of the bug for search fields: see `shown_fields`.
    pub fn search_line_filtered(&self, fields: &Vec<FilterField>) -> (r: String)
        ensures
            r@ == spec_search_line(*self, shown_fields(fields@)),
    {
        let mut bug_fields: Vec<BugField> = Vec::new();
        let mut all_or_default = false;
        let mut i: usize = 0;
        while i < fields.len()
            invariant
                i <= fields.len(),
                bug_fields@ == bug_fields_of(fields@.subrange(0, i as int)),
                all_or_default == (fields@.subrange(0, i as int).contains(FilterField::Group(GroupField::All))
                    || fields@.subrange(0, i as int).contains(FilterField::Group(GroupField::Default))),
            decreases fields.len() - i,
        {
            let ghost prefix = fields@.subrange(0, i + 1);
            assert(prefix.drop_last() =~= fields@.subrange(0, i as int));
            assert(prefix.last() == fields@[i as int]);
            proof {
                assert forall|g: FilterField| prefix.contains(g) <==> (fields@.subrange(0, i as int).contains(g)
                    || g == fields@[i as int]) by {
                    if prefix.contains(g) {
                        let k = choose|k: int| 0 <= k < prefix.len() && prefix[k] == g;
                        if k < i {
                            assert(fields@.subrange(0, i as int)[k] == g);
                        }
                    }
                    if fields@.subrange(0, i as int).contains(g) {
                        let k = choose|k: int| 0 <= k < i && fields@.subrange(0, i as int)[k] == g;
                        assert(prefix[k] == g);
                    }
                    if g == fields@[i as int] {
                        assert(prefix[i as int] == g);
                    }
                }
            }
            match fields[i] {
                FilterField::Bug(f) => bug_fields.push(f),
                FilterField::Group(g) => {
                    if g == GroupField::All || g == GroupField::Default {
                        all_or_default = true;
                    }
                },
            }
            i = i + 1;
        }
        assert(fields@.subrange(0, fields@.len() as int) =~= fields@);
        if bug_fields.len() > 0 {
            self.search_line(&bug_fields)
        } else if all_or_default {
            let mut v: Vec<BugField> = Vec::new();
            v.push(BugField::Id);
            v.push(BugField::Summary);
            assert(v@ =~= seq![BugField::Id, BugField::Summary]);
            self.search_line(&v)
        } else {
            let mut v: Vec<BugField> = Vec::new();
            v.push(BugField::Id);
            assert(v@ =~= seq![BugField::Id]);
            self.search_line(&v)
        }
    }
}

/// A bug field a service defines.
#[derive(Debug)]
pub struct BugzillaField {
    pub id: u64,
    pub kind: u64,
    pub is_custom: bool,
    pub name: String,
    pub display_name: String,
    pub is_mandatory: bool,
    pub values: Vec<BugzillaFieldValue>,
}

/// A value a bug field can take.
#[derive(Debug)]
pub struct BugzillaFieldValue {
    /// Name of the value; a null name is empty.
    pub name: String,
    pub sort_key: Option<u64>,
    pub description: Option<String>,
    pub is_open: Option<bool>,
}

/// Names of field values that are not empty, in order.
pub open spec fn value_names(vs: Seq<BugzillaFieldValue>) -> Seq<Seq<char>>
    decreases vs.len(),
{
    if vs.len() == 0 {
        Seq::empty()
    } else if vs.last().name@.len() > 0 {
        value_names(vs.drop_last()).push(vs.last().name@)
    } else {
        value_names(vs.drop_last())
    }
}

impl BugzillaField {
    /// Display text of the field: its name and display name, then its distinct non-empty
    /// value names in order of first occurrence when it has values.
    pub open spec fn spec_display(&self) -> Seq<char> {
        "Name: "@ + self.name@ + "\nDisplay name: "@ + self.display_name@ + if self.values@.len() > 0 {
            "\nValues: "@ + seq_join(crate::sets::dedup_texts(value_names(self.values@)), ", "@)
        } else {
            Seq::empty()
        }
    }

    /// Display text of the field.
    pub fn display(&self) -> (r: String)
        ensures
            r@ == self.spec_display(),
    {
        let a = concat("Name: ", self.name.as_str());
        let b = concat(a.as_str(), "\nDisplay name: ");
        let mut t = concat(b.as_str(), self.display_name.as_str());
        if self.values.len() > 0 {
            let mut names: Vec<String> = Vec::new();
            let mut i: usize = 0;
            while i < self.values.len()
                invariant
                    i <= self.values@.len(),
                    views(names@) == value_names(self.values@.subrange(0, i as int)),
                decreases self.values.len() - i,
            {
                let ghost before = views(names@);
                assert(self.values@.subrange(0, i + 1).drop_last() =~= self.values@.subrange(0, i as int));
                let n = &self.values[i].name;
                if n.unicode_len() > 0 {
                    names.push(n.clone());
                    assert(views(names@) =~= before.push(n@));
                }
                i = i + 1;
            }
            assert(self.values@.subrange(0, self.values@.len() as int) =~= self.values@);
            let distinct = crate::sets::dedup_strings(&names);
            let joined = join(&distinct, ", ");
            let tail = concat("\nValues: ", joined.as_str());
            t = concat(t.as_str(), tail.as_str());
        }
        t
    }
}

} // verus!
