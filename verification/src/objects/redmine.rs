//! Redmine objects: issues, their fields and comments, and their layout for a terminal.
use vstd::prelude::*;

use crate::objects::bugzilla::{or_none, views, Timestamp};
use crate::output::{
    field_line, field_text, line, output_field, output_field_wrapped, pad, pad_right, repeat,
    repeat_char, spec_output_field, spec_output_field_wrapped, spec_wrapped_csv, wrap, wrapped_csv,
    wrapped_lines, Layout, Render,
};
use crate::text::{
    concat, join, nat_digits, owned, push_char, seq_join, spec_trim, trim, u64_to_string,
};
use crate::traits::lemma_filter_push;

verus! {

/// A named value of an issue field such as its status or tracker.
#[derive(Debug)]
pub struct Field {
    pub id: u64,
    pub name: String,
}

/// A user.
#[derive(Debug)]
pub struct Person {
    pub id: u64,
    pub name: String,
}

/// Value of a custom field.
#[derive(Debug)]
pub enum CustomFieldValue {
    Text(String),
    Array(Vec<String>),
    Null,
}

/// A custom field of an issue.
#[derive(Debug)]
pub struct CustomField {
    pub id: u64,
    pub name: String,
    pub value: CustomFieldValue,
}

/// A comment on an issue.
#[derive(Debug)]
pub struct Comment {
    /// The number of the comment local to the issue: the description is 0, comments start
    /// at 1.
    pub count: u64,
    pub text: String,
    pub user: Person,
    pub created: Timestamp,
}

/// A Redmine issue.
#[derive(Debug)]
pub struct Issue {
    pub id: u64,
    pub assigned_to: Option<Person>,
    pub subject: Option<String>,
    pub status: Option<Field>,
    pub tracker: Option<Field>,
    pub priority: Option<Field>,
    pub author: Option<Person>,
    pub custom_fields: Option<Vec<CustomField>>,
    pub closed: Option<Timestamp>,
    pub created: Option<Timestamp>,
    pub updated: Option<Timestamp>,
    pub comments: Vec<Comment>,
}

/// An issue as the service sends it: the description apart, journal entries as comments.
#[derive(Debug)]
pub struct IssueRaw {
    pub id: u64,
    pub assigned_to: Option<Person>,
    pub subject: Option<String>,
    pub status: Option<Field>,
    pub tracker: Option<Field>,
    pub priority: Option<Field>,
    pub author: Option<Person>,
    pub custom_fields: Option<Vec<CustomField>>,
    pub closed_on: Option<Timestamp>,
    pub created_on: Option<Timestamp>,
    pub updated_on: Option<Timestamp>,
    pub description: Option<String>,
    pub journals: Vec<Comment>,
}

/// Whether a custom field holds a value: neither null, nor an empty list or text.
pub open spec fn has_value(f: CustomField) -> bool {
    match f.value {
        CustomFieldValue::Null => false,
        CustomFieldValue::Array(v) => v@.len() > 0,
        CustomFieldValue::Text(s) => s@.len() > 0,
    }
}

/// Custom fields with a value; none at all when no field has one.
pub open spec fn spec_skip_null_fields(fields: Option<Vec<CustomField>>) -> Option<Seq<CustomField>> {
    match fields {
        Some(v) => {
            let kept = v@.filter(|f: CustomField| has_value(f));
            if kept.len() > 0 {
                Some(kept)
            } else {
                None
            }
        },
        None => None,
    }
}

/// Custom fields with a value; none at all when no field has one.
pub fn skip_null_fields(fields: Option<Vec<CustomField>>) -> (r: Option<Vec<CustomField>>)
    ensures
        match spec_skip_null_fields(fields) {
            Some(s) => r matches Some(v) && v@ == s,
            None => r is None,
        },
{
    let values = match fields {
        Some(v) => v,
        None => return None,
    };
    let ghost all = values@;
    let ghost pred = |f: CustomField| has_value(f);
    let mut rest = values;
    let mut r: Vec<CustomField> = Vec::new();
    let mut k: usize = 0;
    let n = rest.len();
    proof {
        reveal(Seq::filter);
        assert(all.subrange(0, 0) =~= Seq::<CustomField>::empty());
    }
    while k < n
        invariant
            n == all.len(),
            k <= n,
            rest@ == all.subrange(k as int, n as int),
            r@ == all.subrange(0, k as int).filter(pred),
            pred == (|f: CustomField| has_value(f)),
        decreases n - k,
    {
        let f = rest.remove(0);
        proof {
            assert(f == all[k as int]);
            assert(all.subrange(0, k + 1) =~= all.subrange(0, k as int).push(f));
            lemma_filter_push(all.subrange(0, k as int), f, pred);
            assert(rest@ =~= all.subrange(k + 1, n as int));
        }
        let keep = match &f.value {
            CustomFieldValue::Null => false,
            CustomFieldValue::Array(v) => v.len() > 0,
            CustomFieldValue::Text(s) => s.unicode_len() > 0,
        };
        if keep {
            r.push(f);
        }
        k = k + 1;
    }
    assert(all.subrange(0, n as int) =~= all);
    if r.len() > 0 {
        Some(r)
    } else {
        None
    }
}

/// Journal entries with text, in order: the comments of an issue after its description.
pub open spec fn texted(js: Seq<Comment>) -> Seq<Comment>
    decreases js.len(),
{
    if js.len() == 0 {
        Seq::empty()
    } else if js.last().text@.len() > 0 {
        texted(js.drop_last()).push(js.last())
    } else {
        texted(js.drop_last())
    }
}

impl IssueRaw {
    /// Whether the issue can be converted: a description needs the issue's author and
    /// creation time, which the comment made of it carries.
    pub open spec fn convertible(&self) -> bool {
        self.description is Some ==> self.author is Some && self.created_on is Some
    }
}

/// Comment made of an issue's description: number 0, by the author, at the creation time.
pub open spec fn is_description(c: Comment, raw: IssueRaw) -> bool {
    &&& c.count == 0
    &&& c.text@ == raw.description->0@
    &&& c.user.id == raw.author->0.id && c.user.name@ == raw.author->0.name@
    &&& c.created == raw.created_on->0
}

impl Issue {
    /// The issue a service response describes: its description becomes comment 0, and the
    /// journal entries with text become the comments numbered from 1 on, in order.
    pub fn from_raw(raw: IssueRaw) -> (r: Issue)
        requires
            raw.convertible(),
            texted(raw.journals@).len() <= u64::MAX,
        ensures
            r.id == raw.id && r.assigned_to == raw.assigned_to && r.subject == raw.subject,
            r.status == raw.status && r.tracker == raw.tracker && r.priority == raw.priority,
            r.author == raw.author && r.custom_fields == raw.custom_fields,
            r.closed == raw.closed_on && r.created == raw.created_on && r.updated == raw.updated_on,
            ({
                let d: int = if raw.description is Some { 1 } else { 0 };
                let cs = texted(raw.journals@);
                &&& r.comments@.len() == d + cs.len()
                &&& raw.description is Some ==> is_description(r.comments@[0], raw)
                &&& forall|i: int| 0 <= i < cs.len() ==> {
                    let c = #[trigger] r.comments@[d + i];
                    c == Comment { count: (i + 1) as u64, ..cs[i] }
                }
            }),
    {
        let IssueRaw {
            id,
            assigned_to,
            subject,
            status,
            tracker,
            priority,
            author,
            custom_fields,
            closed_on,
            created_on,
            updated_on,
            description,
            journals,
        } = raw;
        let mut comments: Vec<Comment> = Vec::new();
        let mut count: u64 = 0;
        if let Some(text) = description {
            if let (Some(p), Some(t)) = (&author, &created_on) {
                let user = Person { id: p.id, name: p.name.clone() };
                comments.push(Comment { count, text, user, created: t.duplicate() });
            }
        }
        let ghost d: int = comments@.len() as int;
        let ghost all = journals@;
        let mut rest = journals;
        let n = rest.len();
        let mut k: usize = 0;
        while k < n
            invariant
                n == all.len(),
                k <= n,
                d == (if raw.description is Some { 1int } else { 0int }),
                raw.description is Some ==> is_description(comments@[0], raw),
                rest@ == all.subrange(k as int, n as int),
                count as int == texted(all.subrange(0, k as int)).len(),
                comments@.len() == d + count,
                texted(all).len() <= u64::MAX,
                all == raw.journals@,
                forall|i: int| 0 <= i < count ==> {
                    let c = #[trigger] comments@[d + i];
                    c == Comment { count: (i + 1) as u64, ..texted(all.subrange(0, k as int))[i] }
                },
            decreases n - k,
        {
            let c = rest.remove(0);
            let ghost prev = texted(all.subrange(0, k as int));
            proof {
                assert(c == all[k as int]);
                assert(all.subrange(0, k + 1).drop_last() =~= all.subrange(0, k as int));
                assert(rest@ =~= all.subrange(k + 1, n as int));
                lemma_texted_prefix(all, k as int + 1);
            }
            if c.text.unicode_len() > 0 {
                count = count + 1;
                let Comment { count: _, text, user, created } = c;
                comments.push(Comment { count, text, user, created });
                assert(texted(all.subrange(0, k + 1)) == prev.push(c));
            } else {
                assert(texted(all.subrange(0, k + 1)) == prev);
            }
            k = k + 1;
        }
        assert(all.subrange(0, n as int) =~= all);
        Issue {
            id,
            assigned_to,
            subject,
            status,
            tracker,
            priority,
            author,
            custom_fields,
            closed: closed_on,
            created: created_on,
            updated: updated_on,
            comments,
        }
    }
}

proof fn lemma_texted_prefix(s: Seq<Comment>, j: int)
    requires
        0 <= j <= s.len(),
    ensures
        texted(s.subrange(0, j)).len() <= texted(s).len(),
    decreases s.len() - j,
{
    if j < s.len() {
        lemma_texted_prefix(s, j + 1);
        assert(s.subrange(0, j + 1).drop_last() =~= s.subrange(0, j));
    } else {
        assert(s.subrange(0, j) =~= s);
    }
}

/// Name of an optional user.
pub open spec fn person_name(p: Option<Person>) -> Option<Seq<char>> {
    match p {
        Some(x) => Some(x.name@),
        None => None,
    }
}

/// Name of an optional field value.
pub open spec fn field_name(f: Option<Field>) -> Option<Seq<char>> {
    match f {
        Some(x) => Some(x.name@),
        None => None,
    }
}

/// Display text of an optional time.
pub open spec fn time_text(t: Option<Timestamp>) -> Option<Seq<char>> {
    match t {
        Some(x) => Some(x.spec_text()),
        None => None,
    }
}

fn person_str(p: &Option<Person>) -> (r: Option<&str>)
    ensures
        match r {
            Some(s) => person_name(*p) == Some(s@),
            None => person_name(*p) is None,
        },
{
    match p {
        Some(x) => Some(x.name.as_str()),
        None => None,
    }
}

fn field_str(f: &Option<Field>) -> (r: Option<&str>)
    ensures
        match r {
            Some(s) => field_name(*f) == Some(s@),
            None => field_name(*f) is None,
        },
{
    match f {
        Some(x) => Some(x.name.as_str()),
        None => None,
    }
}

fn time_str(t: &Option<Timestamp>) -> (r: Option<&str>)
    ensures
        match r {
            Some(s) => time_text(*t) == Some(s@),
            None => time_text(*t) is None,
        },
{
    match t {
        Some(x) => Some(x.text()),
        None => None,
    }
}

/// First line of a comment: its number, or that it is the description, its author and
/// time.
pub open spec fn comment_heading(c: Comment) -> Seq<char> {
    (if c.count != 0 {
        "Comment #"@ + nat_digits(c.count as nat) + " "@
    } else {
        "Description "@
    }) + "by "@ + c.user.name@ + ", "@ + c.created.spec_text()
}

impl Render for Comment {
    open spec fn renderable(&self) -> bool {
        true
    }

    open spec fn spec_render(&self, out: Layout) -> Seq<char> {
        line(comment_heading(*self)) + line(repeat('-', out.width as nat)) + line(
            seq_join(wrapped_lines(spec_trim(self.text@), out.width as nat, ""@), "\n"@),
        )
    }

    fn render(&self, out: Layout) -> (s: String) {
        let mut t = if self.count != 0 {
            let a = concat("Comment #", u64_to_string(self.count).as_str());
            concat(a.as_str(), " ")
        } else {
            owned("Description ")
        };
        t.append("by ");
        t.append(self.user.name.as_str());
        t.append(", ");
        t.append(self.created.text());
        push_char(&mut t, '\n');
        let sep = repeat_char('-', out.width);
        t.append(sep.as_str());
        push_char(&mut t, '\n');
        let body = trim(self.text.as_str());
        let ls = wrap(body.as_str(), out.width, "");
        let w = join(&ls, "\n");
        t.append(w.as_str());
        push_char(&mut t, '\n');
        t
    }
}

/// Lines of the custom fields that hold a value: a text as a field line, a list in
/// wrapped comma-separated format.
pub open spec fn custom_fields_text(fs: Seq<CustomField>, out: Layout) -> Seq<char>
    decreases fs.len(),
{
    if fs.len() == 0 {
        Seq::empty()
    } else {
        let f = fs.last();
        custom_fields_text(fs.drop_last(), out) + match f.value {
            CustomFieldValue::Text(v) => if v@.len() > 0 {
                spec_output_field(f.name@, Some(v@), out)
            } else {
                Seq::empty()
            },
            CustomFieldValue::Array(vs) => if vs@.len() > 0 {
                spec_wrapped_csv(f.name@, views(vs@), out.width as nat)
            } else {
                Seq::empty()
            },
            CustomFieldValue::Null => Seq::empty(),
        }
    }
}

/// Rendered comments, each after an empty line.
pub open spec fn comments_text(cs: Seq<Comment>, out: Layout) -> Seq<char>
    decreases cs.len(),
{
    if cs.len() == 0 {
        Seq::empty()
    } else {
        comments_text(cs.drop_last(), out).push('\n') + cs.last().spec_render(out)
    }
}

/// Field lines of an issue: subject, people, state and times, then its ID.
pub open spec fn issue_fields_text(i: Issue, out: Layout) -> Seq<char> {
    spec_output_field_wrapped("Subject"@, match i.subject {
        Some(s) => Some(s@),
        None => None,
    }, out.width as nat) + spec_output_field("Assignee"@, person_name(i.assigned_to), out)
        + spec_output_field("Reporter"@, person_name(i.author), out) + spec_output_field(
        "Status"@,
        field_name(i.status),
        out,
    ) + spec_output_field("Tracker"@, field_name(i.tracker), out) + spec_output_field(
        "Priority"@,
        field_name(i.priority),
        out,
    ) + spec_output_field("Closed"@, time_text(i.closed), out) + spec_output_field(
        "Created"@,
        time_text(i.created),
        out,
    ) + spec_output_field("Updated"@, time_text(i.updated), out) + line(
        field_line("ID"@, nat_digits(i.id as nat)),
    )
}

impl Issue {
    fn fields_text(&self, out: Layout) -> (r: String)
        requires
            out.width >= 15,
        ensures
            r@ == issue_fields_text(*self, out),
    {
        let subject = match &self.subject {
            Some(s) => Some(s.as_str()),
            None => None,
        };
        let mut t = output_field_wrapped("Subject", subject, out.width);
        t.append(output_field("Assignee", person_str(&self.assigned_to), out).as_str());
        t.append(output_field("Reporter", person_str(&self.author), out).as_str());
        t.append(output_field("Status", field_str(&self.status), out).as_str());
        t.append(output_field("Tracker", field_str(&self.tracker), out).as_str());
        t.append(output_field("Priority", field_str(&self.priority), out).as_str());
        t.append(output_field("Closed", time_str(&self.closed), out).as_str());
        t.append(output_field("Created", time_str(&self.created), out).as_str());
        t.append(output_field("Updated", time_str(&self.updated), out).as_str());
        let idl = field_text("ID", u64_to_string(self.id).as_str());
        t.append(idl.as_str());
        push_char(&mut t, '\n');
        t
    }

    fn custom_text(fs: &Vec<CustomField>, out: Layout) -> (r: String)
        requires
            out.width >= 15,
        ensures
            r@ == custom_fields_text(fs@, out),
    {
        let mut t = String::new();
        let mut i: usize = 0;
        while i < fs.len()
            invariant
                i <= fs@.len(),
                out.width >= 15,
                t@ == custom_fields_text(fs@.subrange(0, i as int), out),
            decreases fs.len() - i,
        {
            assert(fs@.subrange(0, i + 1).drop_last() =~= fs@.subrange(0, i as int));
            let f = &fs[i];
            match &f.value {
                CustomFieldValue::Text(v) => {
                    if v.unicode_len() > 0 {
                        t.append(output_field(f.name.as_str(), Some(v.as_str()), out).as_str());
                    }
                },
                CustomFieldValue::Array(vs) => {
                    if vs.len() > 0 {
                        t.append(wrapped_csv(f.name.as_str(), vs, out.width).as_str());
                    }
                },
                CustomFieldValue::Null => {},
            }
            i = i + 1;
        }
        assert(fs@.subrange(0, fs@.len() as int) =~= fs@);
        t
    }
}

impl Render for Issue {
    open spec fn renderable(&self) -> bool {
        true
    }

    open spec fn spec_render(&self, out: Layout) -> Seq<char> {
        issue_fields_text(*self, out) + (match self.custom_fields {
            Some(fs) => custom_fields_text(fs@, out),
            None => Seq::empty(),
        }) + (if self.comments@.len() > 0 {
            line(field_line("Comments"@, nat_digits(self.comments@.len())))
        } else {
            Seq::empty()
        }) + comments_text(self.comments@, out)
    }

    fn render(&self, out: Layout) -> (s: String) {
        let mut t = self.fields_text(out);
        if let Some(fs) = &self.custom_fields {
            t.append(Self::custom_text(fs, out).as_str());
        }
        let ghost h = t@;
        if self.comments.len() > 0 {
            let n: u64 = self.comments.len() as u64;
            let l = field_text("Comments", u64_to_string(n).as_str());
            t.append(l.as_str());
            push_char(&mut t, '\n');
        }
        let ghost h2 = t@;
        let mut i: usize = 0;
        while i < self.comments.len()
            invariant
                i <= self.comments@.len(),
                out.width >= 15,
                t@ == h2 + comments_text(self.comments@.subrange(0, i as int), out),
            decreases self.comments.len() - i,
        {
            assert(self.comments@.subrange(0, i + 1).drop_last() =~= self.comments@.subrange(0, i as int));
            push_char(&mut t, '\n');
            let c = self.comments[i].render(out);
            t.append(c.as_str());
            i = i + 1;
        }
        assert(self.comments@.subrange(0, self.comments@.len() as int) =~= self.comments@);
        t
    }
}

/// Issue fields a search line can show.
#[derive(Debug, PartialEq, Eq, Structural, Clone, Copy)]
pub enum IssueField {
    Id,
    Assignee,
    Subject,
    Status,
    Tracker,
    Priority,
    Author,
    Closed,
    Created,
    Updated,
}

/// Column of an issue field in a search line: unset values as `None`, padded to the
/// field's width (the subject and times are not).
pub open spec fn spec_issue_column(i: Issue, f: IssueField) -> Seq<char> {
    match f {
        IssueField::Id => pad(nat_digits(i.id as nat), 8),
        IssueField::Assignee => pad(or_none(person_name(i.assigned_to)), 20),
        IssueField::Subject => or_none(match i.subject {
            Some(s) => Some(s@),
            None => None,
        }),
        IssueField::Status => pad(or_none(field_name(i.status)), 20),
        IssueField::Tracker => pad(or_none(field_name(i.tracker)), 20),
        IssueField::Priority => pad(or_none(field_name(i.priority)), 20),
        IssueField::Author => pad(or_none(person_name(i.author)), 20),
        IssueField::Closed => or_none(time_text(i.closed)),
        IssueField::Created => or_none(time_text(i.created)),
        IssueField::Updated => or_none(time_text(i.updated)),
    }
}

/// Search line of an issue: a single field's column with surrounding whitespace removed,
/// or the columns of several fields separated by spaces.
pub open spec fn spec_issue_line(i: Issue, fields: Seq<IssueField>) -> Seq<char> {
    if fields.len() == 1 {
        spec_trim(spec_issue_column(i, fields[0]))
    } else {
        seq_join(fields.map_values(|f: IssueField| spec_issue_column(i, f)), " "@)
    }
}

fn or_none_str(o: Option<&str>) -> (r: String)
    ensures
        r@ == or_none(match o {
            Some(s) => Some(s@),
            None => None,
        }),
{
    match o {
        Some(s) => owned(s),
        None => owned("None"),
    }
}

impl Issue {
    /// Column of an issue field in a search line.
    pub fn search_column(&self, field: IssueField) -> (r: String)
        ensures
            r@ == spec_issue_column(*self, field),
    {
        match field {
            IssueField::Id => pad_right(u64_to_string(self.id).as_str(), 8),
            IssueField::Assignee => pad_right(or_none_str(person_str(&self.assigned_to)).as_str(), 20),
            IssueField::Subject => or_none_str(match &self.subject {
                Some(s) => Some(s.as_str()),
                None => None,
            }),
            IssueField::Status => pad_right(or_none_str(field_str(&self.status)).as_str(), 20),
            IssueField::Tracker => pad_right(or_none_str(field_str(&self.tracker)).as_str(), 20),
            IssueField::Priority => pad_right(or_none_str(field_str(&self.priority)).as_str(), 20),
            IssueField::Author => pad_right(or_none_str(person_str(&self.author)).as_str(), 20),
            IssueField::Closed => or_none_str(time_str(&self.closed)),
            IssueField::Created => or_none_str(time_str(&self.created)),
            IssueField::Updated => or_none_str(time_str(&self.updated)),
        }
    }

    /// Search line of the issue for the given fields; at least one field is needed.
    pub fn search_line(&self, fields: &Vec<IssueField>) -> (r: String)
        requires
            fields.len() > 0,
        ensures
            r@ == spec_issue_line(*self, fields@),
    {
        if fields.len() == 1 {
            let c = self.search_column(fields[0]);
            return trim(c.as_str());
        }
        let ghost cols = fields@.map_values(|f: IssueField| spec_issue_column(*self, f));
        let mut v: Vec<String> = Vec::new();
        let mut i: usize = 0;
        while i < fields.len()
            invariant
                i <= fields.len(),
                cols == fields@.map_values(|f: IssueField| spec_issue_column(*self, f)),
                views(v@) == cols.subrange(0, i as int),
            decreases fields.len() - i,
        {
            let ghost before = v@;
            v.push(self.search_column(fields[i]));
            assert(views(v@) =~= views(before).push(cols[i as int]));
            assert(cols.subrange(0, i + 1) =~= cols.subrange(0, i as int).push(cols[i as int]));
            i = i + 1;
        }
        assert(cols.subrange(0, cols.len() as int) =~= cols);
        join(&v, " ")
    }
}

} // verus!
