//! Bug search: parameters, value matching and the encoding of a search into query pairs.
use vstd::prelude::*;

use crate::args::ExistsOrValues;
use crate::error::Error;
use crate::objects::RangeOrValue;
use crate::query::Order;
use crate::text::{chars_of, concat, has_prefix, owned, split_once, split_once_chars, starts_with, str_eq, string_of};
use crate::time::TimeDeltaOrStatic;
use crate::traits::{merge_option, spec_merge_option, Api, FromText, ToText};

use super::FilterField;

pub mod builder;
pub mod request;
pub mod slots;

verus! {

/// Advanced field matching operators.
#[derive(Debug, PartialEq, Eq, Structural, Clone, Copy)]
pub enum MatchOp {
    /// Contains case-sensitive substring.
    CaseSubstring,
    /// Contains substring.
    Substring,
    /// Doesn't contain substring.
    NotSubstring,
    /// Equal to value.
    Equals,
    /// Not equal to value.
    NotEquals,
    /// Matches regular expression.
    Regexp,
    /// Doesn't match regular expression.
    NotRegexp,
}

impl MatchOp {
    /// Name of the variant as given in arguments and shown to users.
    pub open spec fn spec_name(self) -> Seq<char> {
        match self {
            MatchOp::CaseSubstring => "=~"@,
            MatchOp::Substring => "~~"@,
            MatchOp::NotSubstring => "!~"@,
            MatchOp::Equals => "=="@,
            MatchOp::NotEquals => "!="@,
            MatchOp::Regexp => "=*"@,
            MatchOp::NotRegexp => "!*"@,
        }
    }

    /// Name of the variant in the service API.
    pub open spec fn spec_api_name(self) -> Seq<char> {
        match self {
            MatchOp::CaseSubstring => "casesubstring"@,
            MatchOp::Substring => "substring"@,
            MatchOp::NotSubstring => "notsubstring"@,
            MatchOp::Equals => "equals"@,
            MatchOp::NotEquals => "notequals"@,
            MatchOp::Regexp => "regexp"@,
            MatchOp::NotRegexp => "notregexp"@,
        }
    }

    /// The first variant, in declaration order, with the given name.
    pub open spec fn spec_from_name(s: Seq<char>) -> Option<MatchOp> {
        if s == "=~"@ {
            Some(MatchOp::CaseSubstring)
        } else if s == "~~"@ {
            Some(MatchOp::Substring)
        } else if s == "!~"@ {
            Some(MatchOp::NotSubstring)
        } else if s == "=="@ {
            Some(MatchOp::Equals)
        } else if s == "!="@ {
            Some(MatchOp::NotEquals)
        } else if s == "=*"@ {
            Some(MatchOp::Regexp)
        } else if s == "!*"@ {
            Some(MatchOp::NotRegexp)
        } else {
            None
        }
    }

    /// All variants, in declaration order.
    pub open spec fn spec_all() -> Seq<MatchOp> {
        seq![MatchOp::CaseSubstring, MatchOp::Substring, MatchOp::NotSubstring, MatchOp::Equals, MatchOp::NotEquals, MatchOp::Regexp, MatchOp::NotRegexp]
    }

    /// Position of the variant in declaration order.
    pub open spec fn spec_index(self) -> nat {
        match self {
            MatchOp::CaseSubstring => 0,
            MatchOp::Substring => 1,
            MatchOp::NotSubstring => 2,
            MatchOp::Equals => 3,
            MatchOp::NotEquals => 4,
            MatchOp::Regexp => 5,
            MatchOp::NotRegexp => 6,
        }
    }

    /// Position of the variant in declaration order.
    pub fn index(&self) -> (r: u64)
        ensures
            r == self.spec_index(),
    {
        match self {
            MatchOp::CaseSubstring => 0,
            MatchOp::Substring => 1,
            MatchOp::NotSubstring => 2,
            MatchOp::Equals => 3,
            MatchOp::NotEquals => 4,
            MatchOp::Regexp => 5,
            MatchOp::NotRegexp => 6,
        }
    }

    /// The variant at a position of the declaration order.
    pub proof fn lemma_index(self)
        ensures
            self.spec_index() < Self::spec_all().len(),
            Self::spec_all()[self.spec_index() as int] == self,
    {
    }

    /// All variants, in declaration order.
    pub fn all() -> (r: Vec<MatchOp>)
        ensures
            r@ == Self::spec_all(),
    {
        let mut r = Vec::new();
        r.push(MatchOp::CaseSubstring);
        r.push(MatchOp::Substring);
        r.push(MatchOp::NotSubstring);
        r.push(MatchOp::Equals);
        r.push(MatchOp::NotEquals);
        r.push(MatchOp::Regexp);
        r.push(MatchOp::NotRegexp);
        assert(r@ =~= Self::spec_all());
        r
    }
}

impl FromText for MatchOp {
    open spec fn text_ok(s: Seq<char>) -> bool {
        Self::spec_from_name(s) is Some
    }

    open spec fn text_value(s: Seq<char>, v: MatchOp) -> bool {
        Self::spec_from_name(s) == Some(v)
    }

    open spec fn text_error(s: Seq<char>) -> Seq<char> {
        "Matching variant not found"@
    }

    fn from_text(s: &str) -> (r: Result<MatchOp, String>) {
        if str_eq(s, "=~") {
            return Ok(MatchOp::CaseSubstring);
        }
        if str_eq(s, "~~") {
            return Ok(MatchOp::Substring);
        }
        if str_eq(s, "!~") {
            return Ok(MatchOp::NotSubstring);
        }
        if str_eq(s, "==") {
            return Ok(MatchOp::Equals);
        }
        if str_eq(s, "!=") {
            return Ok(MatchOp::NotEquals);
        }
        if str_eq(s, "=*") {
            return Ok(MatchOp::Regexp);
        }
        if str_eq(s, "!*") {
            return Ok(MatchOp::NotRegexp);
        }
        Err(owned("Matching variant not found"))
    }
}

impl MatchOp {
    /// The name of a variant parses back to that variant.
    pub proof fn lemma_text_roundtrip(self)
        ensures
            Self::text_ok(self.spec_text()),
            Self::text_value(self.spec_text(), self),
    {
        reveal_strlit("=~");
        reveal_strlit("~~");
        reveal_strlit("!~");
        reveal_strlit("==");
        reveal_strlit("!=");
        reveal_strlit("=*");
        reveal_strlit("!*");
        match self {
            MatchOp::CaseSubstring => {},
            MatchOp::Substring => {
                assert("~~"@[0] != "=~"@[0]);
            },
            MatchOp::NotSubstring => {
                assert("!~"@[0] != "=~"@[0]);
                assert("!~"@[0] != "~~"@[0]);
            },
            MatchOp::Equals => {
                assert("=="@[1] != "=~"@[1]);
                assert("=="@[0] != "~~"@[0]);
                assert("=="@[0] != "!~"@[0]);
            },
            MatchOp::NotEquals => {
                assert("!="@[0] != "=~"@[0]);
                assert("!="@[0] != "~~"@[0]);
                assert("!="@[1] != "!~"@[1]);
                assert("!="@[0] != "=="@[0]);
            },
            MatchOp::Regexp => {
                assert("=*"@[1] != "=~"@[1]);
                assert("=*"@[0] != "~~"@[0]);
                assert("=*"@[0] != "!~"@[0]);
                assert("=*"@[1] != "=="@[1]);
                assert("=*"@[0] != "!="@[0]);
            },
            MatchOp::NotRegexp => {
                assert("!*"@[0] != "=~"@[0]);
                assert("!*"@[0] != "~~"@[0]);
                assert("!*"@[1] != "!~"@[1]);
                assert("!*"@[0] != "=="@[0]);
                assert("!*"@[1] != "!="@[1]);
                assert("!*"@[0] != "=*"@[0]);
            },
        }
    }
}

impl ToText for MatchOp {
    open spec fn spec_text(&self) -> Seq<char> {
        self.spec_name()
    }

    fn to_text(&self) -> (s: String) {
        match self {
            MatchOp::CaseSubstring => owned("=~"),
            MatchOp::Substring => owned("~~"),
            MatchOp::NotSubstring => owned("!~"),
            MatchOp::Equals => owned("=="),
            MatchOp::NotEquals => owned("!="),
            MatchOp::Regexp => owned("=*"),
            MatchOp::NotRegexp => owned("!*"),
        }
    }
}

impl Api for MatchOp {
    open spec fn spec_api(&self) -> Seq<char> {
        self.spec_api_name()
    }

    fn api(&self) -> (s: String) {
        match self {
            MatchOp::CaseSubstring => owned("casesubstring"),
            MatchOp::Substring => owned("substring"),
            MatchOp::NotSubstring => owned("notsubstring"),
            MatchOp::Equals => owned("equals"),
            MatchOp::NotEquals => owned("notequals"),
            MatchOp::Regexp => owned("regexp"),
            MatchOp::NotRegexp => owned("notregexp"),
        }
    }
}

/// Bug fields composed of value arrays.
#[derive(Debug, PartialEq, Eq, Structural, Clone, Copy)]
pub enum ExistsField {
    Alias,
    Attachments,
    Blocks,
    Cc,
    Depends,
    Flags,
    Groups,
    Keywords,
    Qa,
    Tags,
    SeeAlso,
    Url,
    Whiteboard,
}

impl ExistsField {
    /// Name of the variant as given in arguments and shown to users.
    pub open spec fn spec_name(self) -> Seq<char> {
        match self {
            ExistsField::Alias => "alias"@,
            ExistsField::Attachments => "attachments"@,
            ExistsField::Blocks => "blocks"@,
            ExistsField::Cc => "cc"@,
            ExistsField::Depends => "depends"@,
            ExistsField::Flags => "flags"@,
            ExistsField::Groups => "groups"@,
            ExistsField::Keywords => "keywords"@,
            ExistsField::Qa => "qa"@,
            ExistsField::Tags => "tags"@,
            ExistsField::SeeAlso => "see-also"@,
            ExistsField::Url => "url"@,
            ExistsField::Whiteboard => "whiteboard"@,
        }
    }

    /// Name of the variant in the service API.
    pub open spec fn spec_api_name(self) -> Seq<char> {
        match self {
            ExistsField::Alias => "alias"@,
            ExistsField::Attachments => "attachments.submitter"@,
            ExistsField::Blocks => "blocked"@,
            ExistsField::Cc => "cc"@,
            ExistsField::Depends => "dependson"@,
            ExistsField::Flags => "setters.login_name"@,
            ExistsField::Groups => "bug_group"@,
            ExistsField::Keywords => "keywords"@,
            ExistsField::Qa => "qa_contact"@,
            ExistsField::Tags => "tag"@,
            ExistsField::SeeAlso => "see_also"@,
            ExistsField::Url => "bug_file_loc"@,
            ExistsField::Whiteboard => "status_whiteboard"@,
        }
    }

    /// The first variant, in declaration order, with the given name.
    pub open spec fn spec_from_name(s: Seq<char>) -> Option<ExistsField> {
        if s == "alias"@ {
            Some(ExistsField::Alias)
        } else if s == "attachments"@ {
            Some(ExistsField::Attachments)
        } else if s == "blocks"@ {
            Some(ExistsField::Blocks)
        } else if s == "cc"@ {
            Some(ExistsField::Cc)
        } else if s == "depends"@ {
            Some(ExistsField::Depends)
        } else if s == "flags"@ {
            Some(ExistsField::Flags)
        } else if s == "groups"@ {
            Some(ExistsField::Groups)
        } else if s == "keywords"@ {
            Some(ExistsField::Keywords)
        } else if s == "qa"@ {
            Some(ExistsField::Qa)
        } else if s == "tags"@ {
            Some(ExistsField::Tags)
        } else if s == "see-also"@ {
            Some(ExistsField::SeeAlso)
        } else if s == "url"@ {
            Some(ExistsField::Url)
        } else if s == "whiteboard"@ {
            Some(ExistsField::Whiteboard)
        } else {
            None
        }
    }

    /// All variants, in declaration order.
    pub open spec fn spec_all() -> Seq<ExistsField> {
        seq![ExistsField::Alias, ExistsField::Attachments, ExistsField::Blocks, ExistsField::Cc, ExistsField::Depends, ExistsField::Flags, ExistsField::Groups, ExistsField::Keywords, ExistsField::Qa, ExistsField::Tags, ExistsField::SeeAlso, ExistsField::Url, ExistsField::Whiteboard]
    }

    /// Position of the variant in declaration order.
    pub open spec fn spec_index(self) -> nat {
        match self {
            ExistsField::Alias => 0,
            ExistsField::Attachments => 1,
            ExistsField::Blocks => 2,
            ExistsField::Cc => 3,
            ExistsField::Depends => 4,
            ExistsField::Flags => 5,
            ExistsField::Groups => 6,
            ExistsField::Keywords => 7,
            ExistsField::Qa => 8,
            ExistsField::Tags => 9,
            ExistsField::SeeAlso => 10,
            ExistsField::Url => 11,
            ExistsField::Whiteboard => 12,
        }
    }

    /// Position of the variant in declaration order.
    pub fn index(&self) -> (r: u64)
        ensures
            r == self.spec_index(),
    {
        match self {
            ExistsField::Alias => 0,
            ExistsField::Attachments => 1,
            ExistsField::Blocks => 2,
            ExistsField::Cc => 3,
            ExistsField::Depends => 4,
            ExistsField::Flags => 5,
            ExistsField::Groups => 6,
            ExistsField::Keywords => 7,
            ExistsField::Qa => 8,
            ExistsField::Tags => 9,
            ExistsField::SeeAlso => 10,
            ExistsField::Url => 11,
            ExistsField::Whiteboard => 12,
        }
    }

    /// The variant at a position of the declaration order.
    pub proof fn lemma_index(self)
        ensures
            self.spec_index() < Self::spec_all().len(),
            Self::spec_all()[self.spec_index() as int] == self,
    {
    }

    /// All variants, in declaration order.
    pub fn all() -> (r: Vec<ExistsField>)
        ensures
            r@ == Self::spec_all(),
    {
        let mut r = Vec::new();
        r.push(ExistsField::Alias);
        r.push(ExistsField::Attachments);
        r.push(ExistsField::Blocks);
        r.push(ExistsField::Cc);
        r.push(ExistsField::Depends);
        r.push(ExistsField::Flags);
        r.push(ExistsField::Groups);
        r.push(ExistsField::Keywords);
        r.push(ExistsField::Qa);
        r.push(ExistsField::Tags);
        r.push(ExistsField::SeeAlso);
        r.push(ExistsField::Url);
        r.push(ExistsField::Whiteboard);
        assert(r@ =~= Self::spec_all());
        r
    }
}

impl FromText for ExistsField {
    open spec fn text_ok(s: Seq<char>) -> bool {
        Self::spec_from_name(s) is Some
    }

    open spec fn text_value(s: Seq<char>, v: ExistsField) -> bool {
        Self::spec_from_name(s) == Some(v)
    }

    open spec fn text_error(s: Seq<char>) -> Seq<char> {
        "Matching variant not found"@
    }

    fn from_text(s: &str) -> (r: Result<ExistsField, String>) {
        if str_eq(s, "alias") {
            return Ok(ExistsField::Alias);
        }
        if str_eq(s, "attachments") {
            return Ok(ExistsField::Attachments);
        }
        if str_eq(s, "blocks") {
            return Ok(ExistsField::Blocks);
        }
        if str_eq(s, "cc") {
            return Ok(ExistsField::Cc);
        }
        if str_eq(s, "depends") {
            return Ok(ExistsField::Depends);
        }
        if str_eq(s, "flags") {
            return Ok(ExistsField::Flags);
        }
        if str_eq(s, "groups") {
            return Ok(ExistsField::Groups);
        }
        if str_eq(s, "keywords") {
            return Ok(ExistsField::Keywords);
        }
        if str_eq(s, "qa") {
            return Ok(ExistsField::Qa);
        }
        if str_eq(s, "tags") {
            return Ok(ExistsField::Tags);
        }
        if str_eq(s, "see-also") {
            return Ok(ExistsField::SeeAlso);
        }
        if str_eq(s, "url") {
            return Ok(ExistsField::Url);
        }
        if str_eq(s, "whiteboard") {
            return Ok(ExistsField::Whiteboard);
        }
        Err(owned("Matching variant not found"))
    }
}

impl ExistsField {
    /// The name of a variant parses back to that variant.
    pub proof fn lemma_text_roundtrip(self)
        ensures
            Self::text_ok(self.spec_text()),
            Self::text_value(self.spec_text(), self),
    {
        reveal_strlit("alias");
        reveal_strlit("attachments");
        reveal_strlit("blocks");
        reveal_strlit("cc");
        reveal_strlit("depends");
        reveal_strlit("flags");
        reveal_strlit("groups");
        reveal_strlit("keywords");
        reveal_strlit("qa");
        reveal_strlit("tags");
        reveal_strlit("see-also");
        reveal_strlit("url");
        reveal_strlit("whiteboard");
        match self {
            ExistsField::Alias => {},
            ExistsField::Attachments => {
                assert("attachments"@.len() != "alias"@.len());
            },
            ExistsField::Blocks => {
                assert("blocks"@.len() != "alias"@.len());
                assert("blocks"@.len() != "attachments"@.len());
            },
            ExistsField::Cc => {
                assert("cc"@.len() != "alias"@.len());
                assert("cc"@.len() != "attachments"@.len());
                assert("cc"@.len() != "blocks"@.len());
            },
            ExistsField::Depends => {
                assert("depends"@.len() != "alias"@.len());
                assert("depends"@.len() != "attachments"@.len());
                assert("depends"@.len() != "blocks"@.len());
                assert("depends"@.len() != "cc"@.len());
            },
            ExistsField::Flags => {
                assert("flags"@[0] != "alias"@[0]);
                assert("flags"@.len() != "attachments"@.len());
                assert("flags"@.len() != "blocks"@.len());
                assert("flags"@.len() != "cc"@.len());
                assert("flags"@.len() != "depends"@.len());
            },
            ExistsField::Groups => {
                assert("groups"@.len() != "alias"@.len());
                assert("groups"@.len() != "attachments"@.len());
                assert("groups"@[0] != "blocks"@[0]);
                assert("groups"@.len() != "cc"@.len());
                assert("groups"@.len() != "depends"@.len());
                assert("groups"@.len() != "flags"@.len());
            },
            ExistsField::Keywords => {
                assert("keywords"@.len() != "alias"@.len());
                assert("keywords"@.len() != "attachments"@.len());
                assert("keywords"@.len() != "blocks"@.len());
                assert("keywords"@.len() != "cc"@.len());
                assert("keywords"@.len() != "depends"@.len());
                assert("keywords"@.len() != "flags"@.len());
                assert("keywords"@.len() != "groups"@.len());
            },
            ExistsField::Qa => {
                assert("qa"@.len() != "alias"@.len());
                assert("qa"@.len() != "attachments"@.len());
                assert("qa"@.len() != "blocks"@.len());
                assert("qa"@[0] != "cc"@[0]);
                assert("qa"@.len() != "depends"@.len());
                assert("qa"@.len() != "flags"@.len());
                assert("qa"@.len() != "groups"@.len());
                assert("qa"@.len() != "keywords"@.len());
            },
            ExistsField::Tags => {
                assert("tags"@.len() != "alias"@.len());
                assert("tags"@.len() != "attachments"@.len());
                assert("tags"@.len() != "blocks"@.len());
                assert("tags"@.len() != "cc"@.len());
                assert("tags"@.len() != "depends"@.len());
                assert("tags"@.len() != "flags"@.len());
                assert("tags"@.len() != "groups"@.len());
                assert("tags"@.len() != "keywords"@.len());
                assert("tags"@.len() != "qa"@.len());
            },
            ExistsField::SeeAlso => {
                assert("see-also"@.len() != "alias"@.len());
                assert("see-also"@.len() != "attachments"@.len());
                assert("see-also"@.len() != "blocks"@.len());
                assert("see-also"@.len() != "cc"@.len());
                assert("see-also"@.len() != "depends"@.len());
                assert("see-also"@.len() != "flags"@.len());
                assert("see-also"@.len() != "groups"@.len());
                assert("see-also"@[0] != "keywords"@[0]);
                assert("see-also"@.len() != "qa"@.len());
                assert("see-also"@.len() != "tags"@.len());
            },
            ExistsField::Url => {
                assert("url"@.len() != "alias"@.len());
                assert("url"@.len() != "attachments"@.len());
                assert("url"@.len() != "blocks"@.len());
                assert("url"@.len() != "cc"@.len());
                assert("url"@.len() != "depends"@.len());
                assert("url"@.len() != "flags"@.len());
                assert("url"@.len() != "groups"@.len());
                assert("url"@.len() != "keywords"@.len());
                assert("url"@.len() != "qa"@.len());
                assert("url"@.len() != "tags"@.len());
                assert("url"@.len() != "see-also"@.len());
            },
            ExistsField::Whiteboard => {
                assert("whiteboard"@.len() != "alias"@.len());
                assert("whiteboard"@.len() != "attachments"@.len());
                assert("whiteboard"@.len() != "blocks"@.len());
                assert("whiteboard"@.len() != "cc"@.len());
                assert("whiteboard"@.len() != "depends"@.len());
                assert("whiteboard"@.len() != "flags"@.len());
                assert("whiteboard"@.len() != "groups"@.len());
                assert("whiteboard"@.len() != "keywords"@.len());
                assert("whiteboard"@.len() != "qa"@.len());
                assert("whiteboard"@.len() != "tags"@.len());
                assert("whiteboard"@.len() != "see-also"@.len());
                assert("whiteboard"@.len() != "url"@.len());
            },
        }
    }
}

impl ToText for ExistsField {
    open spec fn spec_text(&self) -> Seq<char> {
        self.spec_name()
    }

    fn to_text(&self) -> (s: String) {
        match self {
            ExistsField::Alias => owned("alias"),
            ExistsField::Attachments => owned("attachments"),
            ExistsField::Blocks => owned("blocks"),
            ExistsField::Cc => owned("cc"),
            ExistsField::Depends => owned("depends"),
            ExistsField::Flags => owned("flags"),
            ExistsField::Groups => owned("groups"),
            ExistsField::Keywords => owned("keywords"),
            ExistsField::Qa => owned("qa"),
            ExistsField::Tags => owned("tags"),
            ExistsField::SeeAlso => owned("see-also"),
            ExistsField::Url => owned("url"),
            ExistsField::Whiteboard => owned("whiteboard"),
        }
    }
}

impl Api for ExistsField {
    open spec fn spec_api(&self) -> Seq<char> {
        self.spec_api_name()
    }

    fn api(&self) -> (s: String) {
        match self {
            ExistsField::Alias => owned("alias"),
            ExistsField::Attachments => owned("attachments.submitter"),
            ExistsField::Blocks => owned("blocked"),
            ExistsField::Cc => owned("cc"),
            ExistsField::Depends => owned("dependson"),
            ExistsField::Flags => owned("setters.login_name"),
            ExistsField::Groups => owned("bug_group"),
            ExistsField::Keywords => owned("keywords"),
            ExistsField::Qa => owned("qa_contact"),
            ExistsField::Tags => owned("tag"),
            ExistsField::SeeAlso => owned("see_also"),
            ExistsField::Url => owned("bug_file_loc"),
            ExistsField::Whiteboard => owned("status_whiteboard"),
        }
    }
}

/// Valid search order sorting terms.
#[derive(Debug, PartialEq, Eq, Structural, Clone, Copy)]
pub enum OrderField {
    Alias,
    Assignee,
    Blocks,
    Comments,
    Component,
    Created,
    Deadline,
    Depends,
    Flags,
    Id,
    Keywords,
    LastVisit,
    Os,
    Platform,
    Priority,
    Product,
    Qa,
    Reporter,
    Resolution,
    Severity,
    Status,
    Summary,
    Tags,
    Target,
    Updated,
    Url,
    Version,
    Votes,
    Whiteboard,
}

impl OrderField {
    /// Name of the variant as given in arguments and shown to users.
    pub open spec fn spec_name(self) -> Seq<char> {
        match self {
            OrderField::Alias => "alias"@,
            OrderField::Assignee => "assignee"@,
            OrderField::Blocks => "blocks"@,
            OrderField::Comments => "comments"@,
            OrderField::Component => "component"@,
            OrderField::Created => "created"@,
            OrderField::Deadline => "deadline"@,
            OrderField::Depends => "depends"@,
            OrderField::Flags => "flags"@,
            OrderField::Id => "id"@,
            OrderField::Keywords => "keywords"@,
            OrderField::LastVisit => "last-visit"@,
            OrderField::Os => "os"@,
            OrderField::Platform => "platform"@,
            OrderField::Priority => "priority"@,
            OrderField::Product => "product"@,
            OrderField::Qa => "qa"@,
            OrderField::Reporter => "reporter"@,
            OrderField::Resolution => "resolution"@,
            OrderField::Severity => "severity"@,
            OrderField::Status => "status"@,
            OrderField::Summary => "summary"@,
            OrderField::Tags => "tags"@,
            OrderField::Target => "target"@,
            OrderField::Updated => "updated"@,
            OrderField::Url => "url"@,
            OrderField::Version => "version"@,
            OrderField::Votes => "votes"@,
            OrderField::Whiteboard => "whiteboard"@,
        }
    }

    /// Name of the variant in the service API.
    pub open spec fn spec_api_name(self) -> Seq<char> {
        match self {
            OrderField::Alias => "alias"@,
            OrderField::Assignee => "assigned_to"@,
            OrderField::Blocks => "blocked"@,
            OrderField::Comments => "longdescs.count"@,
            OrderField::Component => "component"@,
            OrderField::Created => "opendate"@,
            OrderField::Deadline => "deadline"@,
            OrderField::Depends => "dependson"@,
            OrderField::Flags => "flagtypes.name"@,
            OrderField::Id => "bug_id"@,
            OrderField::Keywords => "keywords"@,
            OrderField::LastVisit => "last_visit_ts"@,
            OrderField::Os => "op_sys"@,
            OrderField::Platform => "platform"@,
            OrderField::Priority => "priority"@,
            OrderField::Product => "product"@,
            OrderField::Qa => "qa_contact"@,
            OrderField::Reporter => "reporter"@,
            OrderField::Resolution => "resolution"@,
            OrderField::Severity => "bug_severity"@,
            OrderField::Status => "bug_status"@,
            OrderField::Summary => "short_desc"@,
            OrderField::Tags => "tag"@,
            OrderField::Target => "target_milestone"@,
            OrderField::Updated => "changeddate"@,
            OrderField::Url => "bug_file_loc"@,
            OrderField::Version => "version"@,
            OrderField::Votes => "votes"@,
            OrderField::Whiteboard => "status_whiteboard"@,
        }
    }

    /// The first variant, in declaration order, with the given name.
    pub open spec fn spec_from_name(s: Seq<char>) -> Option<OrderField> {
        if s == "alias"@ {
            Some(OrderField::Alias)
        } else if s == "assignee"@ {
            Some(OrderField::Assignee)
        } else if s == "blocks"@ {
            Some(OrderField::Blocks)
        } else if s == "comments"@ {
            Some(OrderField::Comments)
        } else if s == "component"@ {
            Some(OrderField::Component)
        } else if s == "created"@ {
            Some(OrderField::Created)
        } else if s == "deadline"@ {
            Some(OrderField::Deadline)
        } else if s == "depends"@ {
            Some(OrderField::Depends)
        } else if s == "flags"@ {
            Some(OrderField::Flags)
        } else if s == "id"@ {
            Some(OrderField::Id)
        } else if s == "keywords"@ {
            Some(OrderField::Keywords)
        } else if s == "last-visit"@ {
            Some(OrderField::LastVisit)
        } else if s == "os"@ {
            Some(OrderField::Os)
        } else if s == "platform"@ {
            Some(OrderField::Platform)
        } else if s == "priority"@ {
            Some(OrderField::Priority)
        } else if s == "product"@ {
            Some(OrderField::Product)
        } else if s == "qa"@ {
            Some(OrderField::Qa)
        } else if s == "reporter"@ {
            Some(OrderField::Reporter)
        } else if s == "resolution"@ {
            Some(OrderField::Resolution)
        } else if s == "severity"@ {
            Some(OrderField::Severity)
        } else if s == "status"@ {
            Some(OrderField::Status)
        } else if s == "summary"@ {
            Some(OrderField::Summary)
        } else if s == "tags"@ {
            Some(OrderField::Tags)
        } else if s == "target"@ {
            Some(OrderField::Target)
        } else if s == "updated"@ {
            Some(OrderField::Updated)
        } else if s == "url"@ {
            Some(OrderField::Url)
        } else if s == "version"@ {
            Some(OrderField::Version)
        } else if s == "votes"@ {
            Some(OrderField::Votes)
        } else if s == "whiteboard"@ {
            Some(OrderField::Whiteboard)
        } else {
            None
        }
    }

    /// All variants, in declaration order.
    pub open spec fn spec_all() -> Seq<OrderField> {
        seq![OrderField::Alias, OrderField::Assignee, OrderField::Blocks, OrderField::Comments, OrderField::Component, OrderField::Created, OrderField::Deadline, OrderField::Depends, OrderField::Flags, OrderField::Id, OrderField::Keywords, OrderField::LastVisit, OrderField::Os, OrderField::Platform, OrderField::Priority, OrderField::Product, OrderField::Qa, OrderField::Reporter, OrderField::Resolution, OrderField::Severity, OrderField::Status, OrderField::Summary, OrderField::Tags, OrderField::Target, OrderField::Updated, OrderField::Url, OrderField::Version, OrderField::Votes, OrderField::Whiteboard]
    }

    /// Position of the variant in declaration order.
    pub open spec fn spec_index(self) -> nat {
        match self {
            OrderField::Alias => 0,
            OrderField::Assignee => 1,
            OrderField::Blocks => 2,
            OrderField::Comments => 3,
            OrderField::Component => 4,
            OrderField::Created => 5,
            OrderField::Deadline => 6,
            OrderField::Depends => 7,
            OrderField::Flags => 8,
            OrderField::Id => 9,
            OrderField::Keywords => 10,
            OrderField::LastVisit => 11,
            OrderField::Os => 12,
            OrderField::Platform => 13,
            OrderField::Priority => 14,
            OrderField::Product => 15,
            OrderField::Qa => 16,
            OrderField::Reporter => 17,
            OrderField::Resolution => 18,
            OrderField::Severity => 19,
            OrderField::Status => 20,
            OrderField::Summary => 21,
            OrderField::Tags => 22,
            OrderField::Target => 23,
            OrderField::Updated => 24,
            OrderField::Url => 25,
            OrderField::Version => 26,
            OrderField::Votes => 27,
            OrderField::Whiteboard => 28,
        }
    }

    /// Position of the variant in declaration order.
    pub fn index(&self) -> (r: u64)
        ensures
            r == self.spec_index(),
    {
        match self {
            OrderField::Alias => 0,
            OrderField::Assignee => 1,
            OrderField::Blocks => 2,
            OrderField::Comments => 3,
            OrderField::Component => 4,
            OrderField::Created => 5,
            OrderField::Deadline => 6,
            OrderField::Depends => 7,
            OrderField::Flags => 8,
            OrderField::Id => 9,
            OrderField::Keywords => 10,
            OrderField::LastVisit => 11,
            OrderField::Os => 12,
            OrderField::Platform => 13,
            OrderField::Priority => 14,
            OrderField::Product => 15,
            OrderField::Qa => 16,
            OrderField::Reporter => 17,
            OrderField::Resolution => 18,
            OrderField::Severity => 19,
            OrderField::Status => 20,
            OrderField::Summary => 21,
            OrderField::Tags => 22,
            OrderField::Target => 23,
            OrderField::Updated => 24,
            OrderField::Url => 25,
            OrderField::Version => 26,
            OrderField::Votes => 27,
            OrderField::Whiteboard => 28,
        }
    }

    /// The variant at a position of the declaration order.
    pub proof fn lemma_index(self)
        ensures
            self.spec_index() < Self::spec_all().len(),
            Self::spec_all()[self.spec_index() as int] == self,
    {
    }

    /// All variants, in declaration order.
    pub fn all() -> (r: Vec<OrderField>)
        ensures
            r@ == Self::spec_all(),
    {
        let mut r = Vec::new();
        r.push(OrderField::Alias);
        r.push(OrderField::Assignee);
        r.push(OrderField::Blocks);
        r.push(OrderField::Comments);
        r.push(OrderField::Component);
        r.push(OrderField::Created);
        r.push(OrderField::Deadline);
        r.push(OrderField::Depends);
        r.push(OrderField::Flags);
        r.push(OrderField::Id);
        r.push(OrderField::Keywords);
        r.push(OrderField::LastVisit);
        r.push(OrderField::Os);
        r.push(OrderField::Platform);
        r.push(OrderField::Priority);
        r.push(OrderField::Product);
        r.push(OrderField::Qa);
        r.push(OrderField::Reporter);
        r.push(OrderField::Resolution);
        r.push(OrderField::Severity);
        r.push(OrderField::Status);
        r.push(OrderField::Summary);
        r.push(OrderField::Tags);
        r.push(OrderField::Target);
        r.push(OrderField::Updated);
        r.push(OrderField::Url);
        r.push(OrderField::Version);
        r.push(OrderField::Votes);
        r.push(OrderField::Whiteboard);
        assert(r@ =~= Self::spec_all());
        r
    }
}

impl FromText for OrderField {
    open spec fn text_ok(s: Seq<char>) -> bool {
        Self::spec_from_name(s) is Some
    }

    open spec fn text_value(s: Seq<char>, v: OrderField) -> bool {
        Self::spec_from_name(s) == Some(v)
    }

    open spec fn text_error(s: Seq<char>) -> Seq<char> {
        "Matching variant not found"@
    }

    fn from_text(s: &str) -> (r: Result<OrderField, String>) {
        if str_eq(s, "alias") {
            return Ok(OrderField::Alias);
        }
        if str_eq(s, "assignee") {
            return Ok(OrderField::Assignee);
        }
        if str_eq(s, "blocks") {
            return Ok(OrderField::Blocks);
        }
        if str_eq(s, "comments") {
            return Ok(OrderField::Comments);
        }
        if str_eq(s, "component") {
            return Ok(OrderField::Component);
        }
        if str_eq(s, "created") {
            return Ok(OrderField::Created);
        }
        if str_eq(s, "deadline") {
            return Ok(OrderField::Deadline);
        }
        if str_eq(s, "depends") {
            return Ok(OrderField::Depends);
        }
        if str_eq(s, "flags") {
            return Ok(OrderField::Flags);
        }
        if str_eq(s, "id") {
            return Ok(OrderField::Id);
        }
        if str_eq(s, "keywords") {
            return Ok(OrderField::Keywords);
        }
        if str_eq(s, "last-visit") {
            return Ok(OrderField::LastVisit);
        }
        if str_eq(s, "os") {
            return Ok(OrderField::Os);
        }
        if str_eq(s, "platform") {
            return Ok(OrderField::Platform);
        }
        if str_eq(s, "priority") {
            return Ok(OrderField::Priority);
        }
        if str_eq(s, "product") {
            return Ok(OrderField::Product);
        }
        if str_eq(s, "qa") {
            return Ok(OrderField::Qa);
        }
        if str_eq(s, "reporter") {
            return Ok(OrderField::Reporter);
        }
        if str_eq(s, "resolution") {
            return Ok(OrderField::Resolution);
        }
        if str_eq(s, "severity") {
            return Ok(OrderField::Severity);
        }
        if str_eq(s, "status") {
            return Ok(OrderField::Status);
        }
        if str_eq(s, "summary") {
            return Ok(OrderField::Summary);
        }
        if str_eq(s, "tags") {
            return Ok(OrderField::Tags);
        }
        if str_eq(s, "target") {
            return Ok(OrderField::Target);
        }
        if str_eq(s, "updated") {
            return Ok(OrderField::Updated);
        }
        if str_eq(s, "url") {
            return Ok(OrderField::Url);
        }
        if str_eq(s, "version") {
            return Ok(OrderField::Version);
        }
        if str_eq(s, "votes") {
            return Ok(OrderField::Votes);
        }
        if str_eq(s, "whiteboard") {
            return Ok(OrderField::Whiteboard);
        }
        Err(owned("Matching variant not found"))
    }
}

impl OrderField {
    /// The name of a variant parses back to that variant.
    pub proof fn lemma_text_roundtrip(self)
        ensures
            Self::text_ok(self.spec_text()),
            Self::text_value(self.spec_text(), self),
    {
        reveal_strlit("alias");
        reveal_strlit("assignee");
        reveal_strlit("blocks");
        reveal_strlit("comments");
        reveal_strlit("component");
        reveal_strlit("created");
        reveal_strlit("deadline");
        reveal_strlit("depends");
        reveal_strlit("flags");
        reveal_strlit("id");
        reveal_strlit("keywords");
        reveal_strlit("last-visit");
        reveal_strlit("os");
        reveal_strlit("platform");
        reveal_strlit("priority");
        reveal_strlit("product");
        reveal_strlit("qa");
        reveal_strlit("reporter");
        reveal_strlit("resolution");
        reveal_strlit("severity");
        reveal_strlit("status");
        reveal_strlit("summary");
        reveal_strlit("tags");
        reveal_strlit("target");
        reveal_strlit("updated");
        reveal_strlit("url");
        reveal_strlit("version");
        reveal_strlit("votes");
        reveal_strlit("whiteboard");
        match self {
            OrderField::Alias => {},
            OrderField::Assignee => {
                assert("assignee"@.len() != "alias"@.len());
            },
            OrderField::Blocks => {
                assert("blocks"@.len() != "alias"@.len());
                assert("blocks"@.len() != "assignee"@.len());
            },
            OrderField::Comments => {
                assert("comments"@.len() != "alias"@.len());
                assert("comments"@[0] != "assignee"@[0]);
                assert("comments"@.len() != "blocks"@.len());
            },
            OrderField::Component => {
                assert("component"@.len() != "alias"@.len());
                assert("component"@.len() != "assignee"@.len());
                assert("component"@.len() != "blocks"@.len());
                assert("component"@.len() != "comments"@.len());
            },
            OrderField::Created => {
                assert("created"@.len() != "alias"@.len());
                assert("created"@.len() != "assignee"@.len());
                assert("created"@.len() != "blocks"@.len());
                assert("created"@.len() != "comments"@.len());
                assert("created"@.len() != "component"@.len());
            },
            OrderField::Deadline => {
                assert("deadline"@.len() != "alias"@.len());
                assert("deadline"@[0] != "assignee"@[0]);
                assert("deadline"@.len() != "blocks"@.len());
                assert("deadline"@[0] != "comments"@[0]);
                assert("deadline"@.len() != "component"@.len());
                assert("deadline"@.len() != "created"@.len());
            },
            OrderField::Depends => {
                assert("depends"@.len() != "alias"@.len());
                assert("depends"@.len() != "assignee"@.len());
                assert("depends"@.len() != "blocks"@.len());
                assert("depends"@.len() != "comments"@.len());
                assert("depends"@.len() != "component"@.len());
                assert("depends"@[0] != "created"@[0]);
                assert("depends"@.len() != "deadline"@.len());
            },
            OrderField::Flags => {
                assert("flags"@[0] != "alias"@[0]);
                assert("flags"@.len() != "assignee"@.len());
                assert("flags"@.len() != "blocks"@.len());
                assert("flags"@.len() != "comments"@.len());
                assert("flags"@.len() != "component"@.len());
                assert("flags"@.len() != "created"@.len());
                assert("flags"@.len() != "deadline"@.len());
                assert("flags"@.len() != "depends"@.len());
            },
            OrderField::Id => {
                assert("id"@.len() != "alias"@.len());
                assert("id"@.len() != "assignee"@.len());
                assert("id"@.len() != "blocks"@.len());
                assert("id"@.len() != "comments"@.len());
                assert("id"@.len() != "component"@.len());
                assert("id"@.len() != "created"@.len());
                assert("id"@.len() != "deadline"@.len());
                assert("id"@.len() != "depends"@.len());
                assert("id"@.len() != "flags"@.len());
            },
            OrderField::Keywords => {
                assert("keywords"@.len() != "alias"@.len());
                assert("keywords"@[0] != "assignee"@[0]);
                assert("keywords"@.len() != "blocks"@.len());
                assert("keywords"@[0] != "comments"@[0]);
                assert("keywords"@.len() != "component"@.len());
                assert("keywords"@.len() != "created"@.len());
                assert("keywords"@[0] != "deadline"@[0]);
                assert("keywords"@.len() != "depends"@.len());
                assert("keywords"@.len() != "flags"@.len());
                assert("keywords"@.len() != "id"@.len());
            },
            OrderField::LastVisit => {
                assert("last-visit"@.len() != "alias"@.len());
                assert("last-visit"@.len() != "assignee"@.len());
                assert("last-visit"@.len() != "blocks"@.len());
                assert("last-visit"@.len() != "comments"@.len());
                assert("last-visit"@.len() != "component"@.len());
                assert("last-visit"@.len() != "created"@.len());
                assert("last-visit"@.len() != "deadline"@.len());
                assert("last-visit"@.len() != "depends"@.len());
                assert("last-visit"@.len() != "flags"@.len());
                assert("last-visit"@.len() != "id"@.len());
                assert("last-visit"@.len() != "keywords"@.len());
            },
            OrderField::Os => {
                assert("os"@.len() != "alias"@.len());
                assert("os"@.len() != "assignee"@.len());
                assert("os"@.len() != "blocks"@.len());
                assert("os"@.len() != "comments"@.len());
                assert("os"@.len() != "component"@.len());
                assert("os"@.len() != "created"@.len());
                assert("os"@.len() != "deadline"@.len());
                assert("os"@.len() != "depends"@.len());
                assert("os"@.len() != "flags"@.len());
                assert("os"@[0] != "id"@[0]);
                assert("os"@.len() != "keywords"@.len());
                assert("os"@.len() != "last-visit"@.len());
            },
            OrderField::Platform => {
                assert("platform"@.len() != "alias"@.len());
                assert("platform"@[0] != "assignee"@[0]);
                assert("platform"@.len() != "blocks"@.len());
                assert("platform"@[0] != "comments"@[0]);
                assert("platform"@.len() != "component"@.len());
                assert("platform"@.len() != "created"@.len());
                assert("platform"@[0] != "deadline"@[0]);
                assert("platform"@.len() != "depends"@.len());
                assert("platform"@.len() != "flags"@.len());
                assert("platform"@.len() != "id"@.len());
                assert("platform"@[0] != "keywords"@[0]);
                assert("platform"@.len() != "last-visit"@.len());
                assert("platform"@.len() != "os"@.len());
            },
            OrderField::Priority => {
                assert("priority"@.len() != "alias"@.len());
                assert("priority"@[0] != "assignee"@[0]);
                assert("priority"@.len() != "blocks"@.len());
                assert("priority"@[0] != "comments"@[0]);
                assert("priority"@.len() != "component"@.len());
                assert("priority"@.len() != "created"@.len());
                assert("priority"@[0] != "deadline"@[0]);
                assert("priority"@.len() != "depends"@.len());
                assert("priority"@.len() != "flags"@.len());
                assert("priority"@.len() != "id"@.len());
                assert("priority"@[0] != "keywords"@[0]);
                assert("priority"@.len() != "last-visit"@.len());
                assert("priority"@.len() != "os"@.len());
                assert("priority"@[1] != "platform"@[1]);
            },
            OrderField::Product => {
                assert("product"@.len() != "alias"@.len());
                assert("product"@.len() != "assignee"@.len());
                assert("product"@.len() != "blocks"@.len());
                assert("product"@.len() != "comments"@.len());
                assert("product"@.len() != "component"@.len());
                assert("product"@[0] != "created"@[0]);
                assert("product"@.len() != "deadline"@.len());
                assert("product"@[0] != "depends"@[0]);
                assert("product"@.len() != "flags"@.len());
                assert("product"@.len() != "id"@.len());
                assert("product"@.len() != "keywords"@.len());
                assert("product"@.len() != "last-visit"@.len());
                assert("product"@.len() != "os"@.len());
                assert("product"@.len() != "platform"@.len());
                assert("product"@.len() != "priority"@.len());
            },
            OrderField::Qa => {
                assert("qa"@.len() != "alias"@.len());
                assert("qa"@.len() != "assignee"@.len());
                assert("qa"@.len() != "blocks"@.len());
                assert("qa"@.len() != "comments"@.len());
                assert("qa"@.len() != "component"@.len());
                assert("qa"@.len() != "created"@.len());
                assert("qa"@.len() != "deadline"@.len());
                assert("qa"@.len() != "depends"@.len());
                assert("qa"@.len() != "flags"@.len());
                assert("qa"@[0] != "id"@[0]);
                assert("qa"@.len() != "keywords"@.len());
                assert("qa"@.len() != "last-visit"@.len());
                assert("qa"@[0] != "os"@[0]);
                assert("qa"@.len() != "platform"@.len());
                assert("qa"@.len() != "priority"@.len());
                assert("qa"@.len() != "product"@.len());
            },
            OrderField::Reporter => {
                assert("reporter"@.len() != "alias"@.len());
                assert("reporter"@[0] != "assignee"@[0]);
                assert("reporter"@.len() != "blocks"@.len());
                assert("reporter"@[0] != "comments"@[0]);
                assert("reporter"@.len() != "component"@.len());
                assert("reporter"@.len() != "created"@.len());
                assert("reporter"@[0] != "deadline"@[0]);
                assert("reporter"@.len() != "depends"@.len());
                assert("reporter"@.len() != "flags"@.len());
                assert("reporter"@.len() != "id"@.len());
                assert("reporter"@[0] != "keywords"@[0]);
                assert("reporter"@.len() != "last-visit"@.len());
                assert("reporter"@.len() != "os"@.len());
                assert("reporter"@[0] != "platform"@[0]);
                assert("reporter"@[0] != "priority"@[0]);
                assert("reporter"@.len() != "product"@.len());
                assert("reporter"@.len() != "qa"@.len());
            },
            OrderField::Resolution => {
                assert("resolution"@.len() != "alias"@.len());
                assert("resolution"@.len() != "assignee"@.len());
                assert("resolution"@.len() != "blocks"@.len());
                assert("resolution"@.len() != "comments"@.len());
                assert("resolution"@.len() != "component"@.len());
                assert("resolution"@.len() != "created"@.len());
                assert("resolution"@.len() != "deadline"@.len());
                assert("resolution"@.len() != "depends"@.len());
                assert("resolution"@.len() != "flags"@.len());
                assert("resolution"@.len() != "id"@.len());
                assert("resolution"@.len() != "keywords"@.len());
                assert("resolution"@[0] != "last-visit"@[0]);
                assert("resolution"@.len() != "os"@.len());
                assert("resolution"@.len() != "platform"@.len());
                assert("resolution"@.len() != "priority"@.len());
                assert("resolution"@.len() != "product"@.len());
                assert("resolution"@.len() != "qa"@.len());
                assert("resolution"@.len() != "reporter"@.len());
            },
            OrderField::Severity => {
                assert("severity"@.len() != "alias"@.len());
                assert("severity"@[0] != "assignee"@[0]);
                assert("severity"@.len() != "blocks"@.len());
                assert("severity"@[0] != "comments"@[0]);
                assert("severity"@.len() != "component"@.len());
                assert("severity"@.len() != "created"@.len());
                assert("severity"@[0] != "deadline"@[0]);
                assert("severity"@.len() != "depends"@.len());
                assert("severity"@.len() != "flags"@.len());
                assert("severity"@.len() != "id"@.len());
                assert("severity"@[0] != "keywords"@[0]);
                assert("severity"@.len() != "last-visit"@.len());
                assert("severity"@.len() != "os"@.len());
                assert("severity"@[0] != "platform"@[0]);
                assert("severity"@[0] != "priority"@[0]);
                assert("severity"@.len() != "product"@.len());
                assert("severity"@.len() != "qa"@.len());
                assert("severity"@[0] != "reporter"@[0]);
                assert("severity"@.len() != "resolution"@.len());
            },
            OrderField::Status => {
                assert("status"@.len() != "alias"@.len());
                assert("status"@.len() != "assignee"@.len());
                assert("status"@[0] != "blocks"@[0]);
                assert("status"@.len() != "comments"@.len());
                assert("status"@.len() != "component"@.len());
                assert("status"@.len() != "created"@.len());
                assert("status"@.len() != "deadline"@.len());
                assert("status"@.len() != "depends"@.len());
                assert("status"@.len() != "flags"@.len());
                assert("status"@.len() != "id"@.len());
                assert("status"@.len() != "keywords"@.len());
                assert("status"@.len() != "last-visit"@.len());
                assert("status"@.len() != "os"@.len());
                assert("status"@.len() != "platform"@.len());
                assert("status"@.len() != "priority"@.len());
                assert("status"@.len() != "product"@.len());
                assert("status"@.len() != "qa"@.len());
                assert("status"@.len() != "reporter"@.len());
                assert("status"@.len() != "resolution"@.len());
                assert("status"@.len() != "severity"@.len());
            },
            OrderField::Summary => {
                assert("summary"@.len() != "alias"@.len());
                assert("summary"@.len() != "assignee"@.len());
                assert("summary"@.len() != "blocks"@.len());
                assert("summary"@.len() != "comments"@.len());
                assert("summary"@.len() != "component"@.len());
                assert("summary"@[0] != "created"@[0]);
                assert("summary"@.len() != "deadline"@.len());
                assert("summary"@[0] != "depends"@[0]);
                assert("summary"@.len() != "flags"@.len());
                assert("summary"@.len() != "id"@.len());
                assert("summary"@.len() != "keywords"@.len());
                assert("summary"@.len() != "last-visit"@.len());
                assert("summary"@.len() != "os"@.len());
                assert("summary"@.len() != "platform"@.len());
                assert("summary"@.len() != "priority"@.len());
                assert("summary"@[0] != "product"@[0]);
                assert("summary"@.len() != "qa"@.len());
                assert("summary"@.len() != "reporter"@.len());
                assert("summary"@.len() != "resolution"@.len());
                assert("summary"@.len() != "severity"@.len());
                assert("summary"@.len() != "status"@.len());
            },
            OrderField::Tags => {
                assert("tags"@.len() != "alias"@.len());
                assert("tags"@.len() != "assignee"@.len());
                assert("tags"@.len() != "blocks"@.len());
                assert("tags"@.len() != "comments"@.len());
                assert("tags"@.len() != "component"@.len());
                assert("tags"@.len() != "created"@.len());
                assert("tags"@.len() != "deadline"@.len());
                assert("tags"@.len() != "depends"@.len());
                assert("tags"@.len() != "flags"@.len());
                assert("tags"@.len() != "id"@.len());
                assert("tags"@.len() != "keywords"@.len());
                assert("tags"@.len() != "last-visit"@.len());
                assert("tags"@.len() != "os"@.len());
                assert("tags"@.len() != "platform"@.len());
                assert("tags"@.len() != "priority"@.len());
                assert("tags"@.len() != "product"@.len());
                assert("tags"@.len() != "qa"@.len());
                assert("tags"@.len() != "reporter"@.len());
                assert("tags"@.len() != "resolution"@.len());
                assert("tags"@.len() != "severity"@.len());
                assert("tags"@.len() != "status"@.len());
                assert("tags"@.len() != "summary"@.len());
            },
            OrderField::Target => {
                assert("target"@.len() != "alias"@.len());
                assert("target"@.len() != "assignee"@.len());
                assert("target"@[0] != "blocks"@[0]);
                assert("target"@.len() != "comments"@.len());
                assert("target"@.len() != "component"@.len());
                assert("target"@.len() != "created"@.len());
                assert("target"@.len() != "deadline"@.len());
                assert("target"@.len() != "depends"@.len());
                assert("target"@.len() != "flags"@.len());
                assert("target"@.len() != "id"@.len());
                assert("target"@.len() != "keywords"@.len());
                assert("target"@.len() != "last-visit"@.len());
                assert("target"@.len() != "os"@.len());
                assert("target"@.len() != "platform"@.len());
                assert("target"@.len() != "priority"@.len());
                assert("target"@.len() != "product"@.len());
                assert("target"@.len() != "qa"@.len());
                assert("target"@.len() != "reporter"@.len());
                assert("target"@.len() != "resolution"@.len());
                assert("target"@.len() != "severity"@.len());
                assert("target"@[0] != "status"@[0]);
                assert("target"@.len() != "summary"@.len());
                assert("target"@.len() != "tags"@.len());
            },
            OrderField::Updated => {
                assert("updated"@.len() != "alias"@.len());
                assert("updated"@.len() != "assignee"@.len());
                assert("updated"@.len() != "blocks"@.len());
                assert("updated"@.len() != "comments"@.len());
                assert("updated"@.len() != "component"@.len());
                assert("updated"@[0] != "created"@[0]);
                assert("updated"@.len() != "deadline"@.len());
                assert("updated"@[0] != "depends"@[0]);
                assert("updated"@.len() != "flags"@.len());
                assert("updated"@.len() != "id"@.len());
                assert("updated"@.len() != "keywords"@.len());
                assert("updated"@.len() != "last-visit"@.len());
                assert("updated"@.len() != "os"@.len());
                assert("updated"@.len() != "platform"@.len());
                assert("updated"@.len() != "priority"@.len());
                assert("updated"@[0] != "product"@[0]);
                assert("updated"@.len() != "qa"@.len());
                assert("updated"@.len() != "reporter"@.len());
                assert("updated"@.len() != "resolution"@.len());
                assert("updated"@.len() != "severity"@.len());
                assert("updated"@.len() != "status"@.len());
                assert("updated"@[0] != "summary"@[0]);
                assert("updated"@.len() != "tags"@.len());
                assert("updated"@.len() != "target"@.len());
            },
            OrderField::Url => {
                assert("url"@.len() != "alias"@.len());
                assert("url"@.len() != "assignee"@.len());
                assert("url"@.len() != "blocks"@.len());
                assert("url"@.len() != "comments"@.len());
                assert("url"@.len() != "component"@.len());
                assert("url"@.len() != "created"@.len());
                assert("url"@.len() != "deadline"@.len());
                assert("url"@.len() != "depends"@.len());
                assert("url"@.len() != "flags"@.len());
                assert("url"@.len() != "id"@.len());
                assert("url"@.len() != "keywords"@.len());
                assert("url"@.len() != "last-visit"@.len());
                assert("url"@.len() != "os"@.len());
                assert("url"@.len() != "platform"@.len());
                assert("url"@.len() != "priority"@.len());
                assert("url"@.len() != "product"@.len());
                assert("url"@.len() != "qa"@.len());
                assert("url"@.len() != "reporter"@.len());
                assert("url"@.len() != "resolution"@.len());
                assert("url"@.len() != "severity"@.len());
                assert("url"@.len() != "status"@.len());
                assert("url"@.len() != "summary"@.len());
                assert("url"@.len() != "tags"@.len());
                assert("url"@.len() != "target"@.len());
                assert("url"@.len() != "updated"@.len());
            },
            OrderField::Version => {
                assert("version"@.len() != "alias"@.len());
                assert("version"@.len() != "assignee"@.len());
                assert("version"@.len() != "blocks"@.len());
                assert("version"@.len() != "comments"@.len());
                assert("version"@.len() != "component"@.len());
                assert("version"@[0] != "created"@[0]);
                assert("version"@.len() != "deadline"@.len());
                assert("version"@[0] != "depends"@[0]);
                assert("version"@.len() != "flags"@.len());
                assert("version"@.len() != "id"@.len());
                assert("version"@.len() != "keywords"@.len());
                assert("version"@.len() != "last-visit"@.len());
                assert("version"@.len() != "os"@.len());
                assert("version"@.len() != "platform"@.len());
                assert("version"@.len() != "priority"@.len());
                assert("version"@[0] != "product"@[0]);
                assert("version"@.len() != "qa"@.len());
                assert("version"@.len() != "reporter"@.len());
                assert("version"@.len() != "resolution"@.len());
                assert("version"@.len() != "severity"@.len());
                assert("version"@.len() != "status"@.len());
                assert("version"@[0] != "summary"@[0]);
                assert("version"@.len() != "tags"@.len());
                assert("version"@.len() != "target"@.len());
                assert("version"@[0] != "updated"@[0]);
                assert("version"@.len() != "url"@.len());
            },
            OrderField::Votes => {
                assert("votes"@[0] != "alias"@[0]);
                assert("votes"@.len() != "assignee"@.len());
                assert("votes"@.len() != "blocks"@.len());
                assert("votes"@.len() != "comments"@.len());
                assert("votes"@.len() != "component"@.len());
                assert("votes"@.len() != "created"@.len());
                assert("votes"@.len() != "deadline"@.len());
                assert("votes"@.len() != "depends"@.len());
                assert("votes"@[0] != "flags"@[0]);
                assert("votes"@.len() != "id"@.len());
                assert("votes"@.len() != "keywords"@.len());
                assert("votes"@.len() != "last-visit"@.len());
                assert("votes"@.len() != "os"@.len());
                assert("votes"@.len() != "platform"@.len());
                assert("votes"@.len() != "priority"@.len());
                assert("votes"@.len() != "product"@.len());
                assert("votes"@.len() != "qa"@.len());
                assert("votes"@.len() != "reporter"@.len());
                assert("votes"@.len() != "resolution"@.len());
                assert("votes"@.len() != "severity"@.len());
                assert("votes"@.len() != "status"@.len());
                assert("votes"@.len() != "summary"@.len());
                assert("votes"@.len() != "tags"@.len());
                assert("votes"@.len() != "target"@.len());
                assert("votes"@.len() != "updated"@.len());
                assert("votes"@.len() != "url"@.len());
                assert("votes"@.len() != "version"@.len());
            },
            OrderField::Whiteboard => {
                assert("whiteboard"@.len() != "alias"@.len());
                assert("whiteboard"@.len() != "assignee"@.len());
                assert("whiteboard"@.len() != "blocks"@.len());
                assert("whiteboard"@.len() != "comments"@.len());
                assert("whiteboard"@.len() != "component"@.len());
                assert("whiteboard"@.len() != "created"@.len());
                assert("whiteboard"@.len() != "deadline"@.len());
                assert("whiteboard"@.len() != "depends"@.len());
                assert("whiteboard"@.len() != "flags"@.len());
                assert("whiteboard"@.len() != "id"@.len());
                assert("whiteboard"@.len() != "keywords"@.len());
                assert("whiteboard"@[0] != "last-visit"@[0]);
                assert("whiteboard"@.len() != "os"@.len());
                assert("whiteboard"@.len() != "platform"@.len());
                assert("whiteboard"@.len() != "priority"@.len());
                assert("whiteboard"@.len() != "product"@.len());
                assert("whiteboard"@.len() != "qa"@.len());
                assert("whiteboard"@.len() != "reporter"@.len());
                assert("whiteboard"@[0] != "resolution"@[0]);
                assert("whiteboard"@.len() != "severity"@.len());
                assert("whiteboard"@.len() != "status"@.len());
                assert("whiteboard"@.len() != "summary"@.len());
                assert("whiteboard"@.len() != "tags"@.len());
                assert("whiteboard"@.len() != "target"@.len());
                assert("whiteboard"@.len() != "updated"@.len());
                assert("whiteboard"@.len() != "url"@.len());
                assert("whiteboard"@.len() != "version"@.len());
                assert("whiteboard"@.len() != "votes"@.len());
            },
        }
    }
}

impl ToText for OrderField {
    open spec fn spec_text(&self) -> Seq<char> {
        self.spec_name()
    }

    fn to_text(&self) -> (s: String) {
        match self {
            OrderField::Alias => owned("alias"),
            OrderField::Assignee => owned("assignee"),
            OrderField::Blocks => owned("blocks"),
            OrderField::Comments => owned("comments"),
            OrderField::Component => owned("component"),
            OrderField::Created => owned("created"),
            OrderField::Deadline => owned("deadline"),
            OrderField::Depends => owned("depends"),
            OrderField::Flags => owned("flags"),
            OrderField::Id => owned("id"),
            OrderField::Keywords => owned("keywords"),
            OrderField::LastVisit => owned("last-visit"),
            OrderField::Os => owned("os"),
            OrderField::Platform => owned("platform"),
            OrderField::Priority => owned("priority"),
            OrderField::Product => owned("product"),
            OrderField::Qa => owned("qa"),
            OrderField::Reporter => owned("reporter"),
            OrderField::Resolution => owned("resolution"),
            OrderField::Severity => owned("severity"),
            OrderField::Status => owned("status"),
            OrderField::Summary => owned("summary"),
            OrderField::Tags => owned("tags"),
            OrderField::Target => owned("target"),
            OrderField::Updated => owned("updated"),
            OrderField::Url => owned("url"),
            OrderField::Version => owned("version"),
            OrderField::Votes => owned("votes"),
            OrderField::Whiteboard => owned("whiteboard"),
        }
    }
}

impl Api for OrderField {
    open spec fn spec_api(&self) -> Seq<char> {
        self.spec_api_name()
    }

    fn api(&self) -> (s: String) {
        match self {
            OrderField::Alias => owned("alias"),
            OrderField::Assignee => owned("assigned_to"),
            OrderField::Blocks => owned("blocked"),
            OrderField::Comments => owned("longdescs.count"),
            OrderField::Component => owned("component"),
            OrderField::Created => owned("opendate"),
            OrderField::Deadline => owned("deadline"),
            OrderField::Depends => owned("dependson"),
            OrderField::Flags => owned("flagtypes.name"),
            OrderField::Id => owned("bug_id"),
            OrderField::Keywords => owned("keywords"),
            OrderField::LastVisit => owned("last_visit_ts"),
            OrderField::Os => owned("op_sys"),
            OrderField::Platform => owned("platform"),
            OrderField::Priority => owned("priority"),
            OrderField::Product => owned("product"),
            OrderField::Qa => owned("qa_contact"),
            OrderField::Reporter => owned("reporter"),
            OrderField::Resolution => owned("resolution"),
            OrderField::Severity => owned("bug_severity"),
            OrderField::Status => owned("bug_status"),
            OrderField::Summary => owned("short_desc"),
            OrderField::Tags => owned("tag"),
            OrderField::Target => owned("target_milestone"),
            OrderField::Updated => owned("changeddate"),
            OrderField::Url => owned("bug_file_loc"),
            OrderField::Version => owned("version"),
            OrderField::Votes => owned("votes"),
            OrderField::Whiteboard => owned("status_whiteboard"),
        }
    }
}

/// Valid static change fields.
#[derive(Debug, PartialEq, Eq, Structural, Clone, Copy)]
pub enum StaticChangeField {
    Alias,
    Assignee,
    Blocks,
    Component,
    Cc,
    Deadline,
    Depends,
    Flags,
    Keywords,
    Os,
    Platform,
    Priority,
    Product,
    Qa,
    Reporter,
    Resolution,
    SeeAlso,
    Severity,
    Status,
    Summary,
    Target,
    Url,
    Version,
    Votes,
    Whiteboard,
}

impl StaticChangeField {
    /// Name of the variant as given in arguments and shown to users.
    pub open spec fn spec_name(self) -> Seq<char> {
        match self {
            StaticChangeField::Alias => "alias"@,
            StaticChangeField::Assignee => "assignee"@,
            StaticChangeField::Blocks => "blocks"@,
            StaticChangeField::Component => "component"@,
            StaticChangeField::Cc => "cc"@,
            StaticChangeField::Deadline => "deadline"@,
            StaticChangeField::Depends => "depends"@,
            StaticChangeField::Flags => "flags"@,
            StaticChangeField::Keywords => "keywords"@,
            StaticChangeField::Os => "os"@,
            StaticChangeField::Platform => "platform"@,
            StaticChangeField::Priority => "priority"@,
            StaticChangeField::Product => "product"@,
            StaticChangeField::Qa => "qa"@,
            StaticChangeField::Reporter => "reporter"@,
            StaticChangeField::Resolution => "resolution"@,
            StaticChangeField::SeeAlso => "see-also"@,
            StaticChangeField::Severity => "severity"@,
            StaticChangeField::Status => "status"@,
            StaticChangeField::Summary => "summary"@,
            StaticChangeField::Target => "target"@,
            StaticChangeField::Url => "url"@,
            StaticChangeField::Version => "version"@,
            StaticChangeField::Votes => "votes"@,
            StaticChangeField::Whiteboard => "whiteboard"@,
        }
    }

    /// Name of the variant in the service API.
    pub open spec fn spec_api_name(self) -> Seq<char> {
        match self {
            StaticChangeField::Alias => "alias"@,
            StaticChangeField::Assignee => "assigned_to"@,
            StaticChangeField::Blocks => "blocked"@,
            StaticChangeField::Component => "component"@,
            StaticChangeField::Cc => "cc"@,
            StaticChangeField::Deadline => "deadline"@,
            StaticChangeField::Depends => "dependson"@,
            StaticChangeField::Flags => "flagtypes.name"@,
            StaticChangeField::Keywords => "keywords"@,
            StaticChangeField::Os => "op_sys"@,
            StaticChangeField::Platform => "rep_platform"@,
            StaticChangeField::Priority => "priority"@,
            StaticChangeField::Product => "product"@,
            StaticChangeField::Qa => "qa_contact"@,
            StaticChangeField::Reporter => "reporter"@,
            StaticChangeField::Resolution => "resolution"@,
            StaticChangeField::SeeAlso => "see_also"@,
            StaticChangeField::Severity => "bug_severity"@,
            StaticChangeField::Status => "bug_status"@,
            StaticChangeField::Summary => "short_desc"@,
            StaticChangeField::Target => "target_milestone"@,
            StaticChangeField::Url => "bug_file_loc"@,
            StaticChangeField::Version => "version"@,
            StaticChangeField::Votes => "votes"@,
            StaticChangeField::Whiteboard => "status_whiteboard"@,
        }
    }

    /// The first variant, in declaration order, with the given name.
    pub open spec fn spec_from_name(s: Seq<char>) -> Option<StaticChangeField> {
        if s == "alias"@ {
            Some(StaticChangeField::Alias)
        } else if s == "assignee"@ {
            Some(StaticChangeField::Assignee)
        } else if s == "blocks"@ {
            Some(StaticChangeField::Blocks)
        } else if s == "component"@ {
            Some(StaticChangeField::Component)
        } else if s == "cc"@ {
            Some(StaticChangeField::Cc)
        } else if s == "deadline"@ {
            Some(StaticChangeField::Deadline)
        } else if s == "depends"@ {
            Some(StaticChangeField::Depends)
        } else if s == "flags"@ {
            Some(StaticChangeField::Flags)
        } else if s == "keywords"@ {
            Some(StaticChangeField::Keywords)
        } else if s == "os"@ {
            Some(StaticChangeField::Os)
        } else if s == "platform"@ {
            Some(StaticChangeField::Platform)
        } else if s == "priority"@ {
            Some(StaticChangeField::Priority)
        } else if s == "product"@ {
            Some(StaticChangeField::Product)
        } else if s == "qa"@ {
            Some(StaticChangeField::Qa)
        } else if s == "reporter"@ {
            Some(StaticChangeField::Reporter)
        } else if s == "resolution"@ {
            Some(StaticChangeField::Resolution)
        } else if s == "see-also"@ {
            Some(StaticChangeField::SeeAlso)
        } else if s == "severity"@ {
            Some(StaticChangeField::Severity)
        } else if s == "status"@ {
            Some(StaticChangeField::Status)
        } else if s == "summary"@ {
            Some(StaticChangeField::Summary)
        } else if s == "target"@ {
            Some(StaticChangeField::Target)
        } else if s == "url"@ {
            Some(StaticChangeField::Url)
        } else if s == "version"@ {
            Some(StaticChangeField::Version)
        } else if s == "votes"@ {
            Some(StaticChangeField::Votes)
        } else if s == "whiteboard"@ {
            Some(StaticChangeField::Whiteboard)
        } else {
            None
        }
    }

    /// All variants, in declaration order.
    pub open spec fn spec_all() -> Seq<StaticChangeField> {
        seq![StaticChangeField::Alias, StaticChangeField::Assignee, StaticChangeField::Blocks, StaticChangeField::Component, StaticChangeField::Cc, StaticChangeField::Deadline, StaticChangeField::Depends, StaticChangeField::Flags, StaticChangeField::Keywords, StaticChangeField::Os, StaticChangeField::Platform, StaticChangeField::Priority, StaticChangeField::Product, StaticChangeField::Qa, StaticChangeField::Reporter, StaticChangeField::Resolution, StaticChangeField::SeeAlso, StaticChangeField::Severity, StaticChangeField::Status, StaticChangeField::Summary, StaticChangeField::Target, StaticChangeField::Url, StaticChangeField::Version, StaticChangeField::Votes, StaticChangeField::Whiteboard]
    }

    /// Position of the variant in declaration order.
    pub open spec fn spec_index(self) -> nat {
        match self {
            StaticChangeField::Alias => 0,
            StaticChangeField::Assignee => 1,
            StaticChangeField::Blocks => 2,
            StaticChangeField::Component => 3,
            StaticChangeField::Cc => 4,
            StaticChangeField::Deadline => 5,
            StaticChangeField::Depends => 6,
            StaticChangeField::Flags => 7,
            StaticChangeField::Keywords => 8,
            StaticChangeField::Os => 9,
            StaticChangeField::Platform => 10,
            StaticChangeField::Priority => 11,
            StaticChangeField::Product => 12,
            StaticChangeField::Qa => 13,
            StaticChangeField::Reporter => 14,
            StaticChangeField::Resolution => 15,
            StaticChangeField::SeeAlso => 16,
            StaticChangeField::Severity => 17,
            StaticChangeField::Status => 18,
            StaticChangeField::Summary => 19,
            StaticChangeField::Target => 20,
            StaticChangeField::Url => 21,
            StaticChangeField::Version => 22,
            StaticChangeField::Votes => 23,
            StaticChangeField::Whiteboard => 24,
        }
    }

    /// Position of the variant in declaration order.
    pub fn index(&self) -> (r: u64)
        ensures
            r == self.spec_index(),
    {
        match self {
            StaticChangeField::Alias => 0,
            StaticChangeField::Assignee => 1,
            StaticChangeField::Blocks => 2,
            StaticChangeField::Component => 3,
            StaticChangeField::Cc => 4,
            StaticChangeField::Deadline => 5,
            StaticChangeField::Depends => 6,
            StaticChangeField::Flags => 7,
            StaticChangeField::Keywords => 8,
            StaticChangeField::Os => 9,
            StaticChangeField::Platform => 10,
            StaticChangeField::Priority => 11,
            StaticChangeField::Product => 12,
            StaticChangeField::Qa => 13,
            StaticChangeField::Reporter => 14,
            StaticChangeField::Resolution => 15,
            StaticChangeField::SeeAlso => 16,
            StaticChangeField::Severity => 17,
            StaticChangeField::Status => 18,
            StaticChangeField::Summary => 19,
            StaticChangeField::Target => 20,
            StaticChangeField::Url => 21,
            StaticChangeField::Version => 22,
            StaticChangeField::Votes => 23,
            StaticChangeField::Whiteboard => 24,
        }
    }

    /// The variant at a position of the declaration order.
    pub proof fn lemma_index(self)
        ensures
            self.spec_index() < Self::spec_all().len(),
            Self::spec_all()[self.spec_index() as int] == self,
    {
    }

    /// All variants, in declaration order.
    pub fn all() -> (r: Vec<StaticChangeField>)
        ensures
            r@ == Self::spec_all(),
    {
        let mut r = Vec::new();
        r.push(StaticChangeField::Alias);
        r.push(StaticChangeField::Assignee);
        r.push(StaticChangeField::Blocks);
        r.push(StaticChangeField::Component);
        r.push(StaticChangeField::Cc);
        r.push(StaticChangeField::Deadline);
        r.push(StaticChangeField::Depends);
        r.push(StaticChangeField::Flags);
        r.push(StaticChangeField::Keywords);
        r.push(StaticChangeField::Os);
        r.push(StaticChangeField::Platform);
        r.push(StaticChangeField::Priority);
        r.push(StaticChangeField::Product);
        r.push(StaticChangeField::Qa);
        r.push(StaticChangeField::Reporter);
        r.push(StaticChangeField::Resolution);
        r.push(StaticChangeField::SeeAlso);
        r.push(StaticChangeField::Severity);
        r.push(StaticChangeField::Status);
        r.push(StaticChangeField::Summary);
        r.push(StaticChangeField::Target);
        r.push(StaticChangeField::Url);
        r.push(StaticChangeField::Version);
        r.push(StaticChangeField::Votes);
        r.push(StaticChangeField::Whiteboard);
        assert(r@ =~= Self::spec_all());
        r
    }
}

impl FromText for StaticChangeField {
    open spec fn text_ok(s: Seq<char>) -> bool {
        Self::spec_from_name(s) is Some
    }

    open spec fn text_value(s: Seq<char>, v: StaticChangeField) -> bool {
        Self::spec_from_name(s) == Some(v)
    }

    open spec fn text_error(s: Seq<char>) -> Seq<char> {
        "Matching variant not found"@
    }

    fn from_text(s: &str) -> (r: Result<StaticChangeField, String>) {
        if str_eq(s, "alias") {
            return Ok(StaticChangeField::Alias);
        }
        if str_eq(s, "assignee") {
            return Ok(StaticChangeField::Assignee);
        }
        if str_eq(s, "blocks") {
            return Ok(StaticChangeField::Blocks);
        }
        if str_eq(s, "component") {
            return Ok(StaticChangeField::Component);
        }
        if str_eq(s, "cc") {
            return Ok(StaticChangeField::Cc);
        }
        if str_eq(s, "deadline") {
            return Ok(StaticChangeField::Deadline);
        }
        if str_eq(s, "depends") {
            return Ok(StaticChangeField::Depends);
        }
        if str_eq(s, "flags") {
            return Ok(StaticChangeField::Flags);
        }
        if str_eq(s, "keywords") {
            return Ok(StaticChangeField::Keywords);
        }
        if str_eq(s, "os") {
            return Ok(StaticChangeField::Os);
        }
        if str_eq(s, "platform") {
            return Ok(StaticChangeField::Platform);
        }
        if str_eq(s, "priority") {
            return Ok(StaticChangeField::Priority);
        }
        if str_eq(s, "product") {
            return Ok(StaticChangeField::Product);
        }
        if str_eq(s, "qa") {
            return Ok(StaticChangeField::Qa);
        }
        if str_eq(s, "reporter") {
            return Ok(StaticChangeField::Reporter);
        }
        if str_eq(s, "resolution") {
            return Ok(StaticChangeField::Resolution);
        }
        if str_eq(s, "see-also") {
            return Ok(StaticChangeField::SeeAlso);
        }
        if str_eq(s, "severity") {
            return Ok(StaticChangeField::Severity);
        }
        if str_eq(s, "status") {
            return Ok(StaticChangeField::Status);
        }
        if str_eq(s, "summary") {
            return Ok(StaticChangeField::Summary);
        }
        if str_eq(s, "target") {
            return Ok(StaticChangeField::Target);
        }
        if str_eq(s, "url") {
            return Ok(StaticChangeField::Url);
        }
        if str_eq(s, "version") {
            return Ok(StaticChangeField::Version);
        }
        if str_eq(s, "votes") {
            return Ok(StaticChangeField::Votes);
        }
        if str_eq(s, "whiteboard") {
            return Ok(StaticChangeField::Whiteboard);
        }
        Err(owned("Matching variant not found"))
    }
}

impl StaticChangeField {
    /// The name of a variant parses back to that variant.
    pub proof fn lemma_text_roundtrip(self)
        ensures
            Self::text_ok(self.spec_text()),
            Self::text_value(self.spec_text(), self),
    {
        reveal_strlit("alias");
        reveal_strlit("assignee");
        reveal_strlit("blocks");
        reveal_strlit("component");
        reveal_strlit("cc");
        reveal_strlit("deadline");
        reveal_strlit("depends");
        reveal_strlit("flags");
        reveal_strlit("keywords");
        reveal_strlit("os");
        reveal_strlit("platform");
        reveal_strlit("priority");
        reveal_strlit("product");
        reveal_strlit("qa");
        reveal_strlit("reporter");
        reveal_strlit("resolution");
        reveal_strlit("see-also");
        reveal_strlit("severity");
        reveal_strlit("status");
        reveal_strlit("summary");
        reveal_strlit("target");
        reveal_strlit("url");
        reveal_strlit("version");
        reveal_strlit("votes");
        reveal_strlit("whiteboard");
        match self {
            StaticChangeField::Alias => {},
            StaticChangeField::Assignee => {
                assert("assignee"@.len() != "alias"@.len());
            },
            StaticChangeField::Blocks => {
                assert("blocks"@.len() != "alias"@.len());
                assert("blocks"@.len() != "assignee"@.len());
            },
            StaticChangeField::Component => {
                assert("component"@.len() != "alias"@.len());
                assert("component"@.len() != "assignee"@.len());
                assert("component"@.len() != "blocks"@.len());
            },
            StaticChangeField::Cc => {
                assert("cc"@.len() != "alias"@.len());
                assert("cc"@.len() != "assignee"@.len());
                assert("cc"@.len() != "blocks"@.len());
                assert("cc"@.len() != "component"@.len());
            },
            StaticChangeField::Deadline => {
                assert("deadline"@.len() != "alias"@.len());
                assert("deadline"@[0] != "assignee"@[0]);
                assert("deadline"@.len() != "blocks"@.len());
                assert("deadline"@.len() != "component"@.len());
                assert("deadline"@.len() != "cc"@.len());
            },
            StaticChangeField::Depends => {
                assert("depends"@.len() != "alias"@.len());
                assert("depends"@.len() != "assignee"@.len());
                assert("depends"@.len() != "blocks"@.len());
                assert("depends"@.len() != "component"@.len());
                assert("depends"@.len() != "cc"@.len());
                assert("depends"@.len() != "deadline"@.len());
            },
            StaticChangeField::Flags => {
                assert("flags"@[0] != "alias"@[0]);
                assert("flags"@.len() != "assignee"@.len());
                assert("flags"@.len() != "blocks"@.len());
                assert("flags"@.len() != "component"@.len());
                assert("flags"@.len() != "cc"@.len());
                assert("flags"@.len() != "deadline"@.len());
                assert("flags"@.len() != "depends"@.len());
            },
            StaticChangeField::Keywords => {
                assert("keywords"@.len() != "alias"@.len());
                assert("keywords"@[0] != "assignee"@[0]);
                assert("keywords"@.len() != "blocks"@.len());
                assert("keywords"@.len() != "component"@.len());
                assert("keywords"@.len() != "cc"@.len());
                assert("keywords"@[0] != "deadline"@[0]);
                assert("keywords"@.len() != "depends"@.len());
                assert("keywords"@.len() != "flags"@.len());
            },
            StaticChangeField::Os => {
                assert("os"@.len() != "alias"@.len());
                assert("os"@.len() != "assignee"@.len());
                assert("os"@.len() != "blocks"@.len());
                assert("os"@.len() != "component"@.len());
                assert("os"@[0] != "cc"@[0]);
                assert("os"@.len() != "deadline"@.len());
                assert("os"@.len() != "depends"@.len());
                assert("os"@.len() != "flags"@.len());
                assert("os"@.len() != "keywords"@.len());
            },
            StaticChangeField::Platform => {
                assert("platform"@.len() != "alias"@.len());
                assert("platform"@[0] != "assignee"@[0]);
                assert("platform"@.len() != "blocks"@.len());
                assert("platform"@.len() != "component"@.len());
                assert("platform"@.len() != "cc"@.len());
                assert("platform"@[0] != "deadline"@[0]);
                assert("platform"@.len() != "depends"@.len());
                assert("platform"@.len() != "flags"@.len());
                assert("platform"@[0] != "keywords"@[0]);
                assert("platform"@.len() != "os"@.len());
            },
            StaticChangeField::Priority => {
                assert("priority"@.len() != "alias"@.len());
                assert("priority"@[0] != "assignee"@[0]);
                assert("priority"@.len() != "blocks"@.len());
                assert("priority"@.len() != "component"@.len());
                assert("priority"@.len() != "cc"@.len());
                assert("priority"@[0] != "deadline"@[0]);
                assert("priority"@.len() != "depends"@.len());
                assert("priority"@.len() != "flags"@.len());
                assert("priority"@[0] != "keywords"@[0]);
                assert("priority"@.len() != "os"@.len());
                assert("priority"@[1] != "platform"@[1]);
            },
            StaticChangeField::Product => {
                assert("product"@.len() != "alias"@.len());
                assert("product"@.len() != "assignee"@.len());
                assert("product"@.len() != "blocks"@.len());
                assert("product"@.len() != "component"@.len());
                assert("product"@.len() != "cc"@.len());
                assert("product"@.len() != "deadline"@.len());
                assert("product"@[0] != "depends"@[0]);
                assert("product"@.len() != "flags"@.len());
                assert("product"@.len() != "keywords"@.len());
                assert("product"@.len() != "os"@.len());
                assert("product"@.len() != "platform"@.len());
                assert("product"@.len() != "priority"@.len());
            },
            StaticChangeField::Qa => {
                assert("qa"@.len() != "alias"@.len());
                assert("qa"@.len() != "assignee"@.len());
                assert("qa"@.len() != "blocks"@.len());
                assert("qa"@.len() != "component"@.len());
                assert("qa"@[0] != "cc"@[0]);
                assert("qa"@.len() != "deadline"@.len());
                assert("qa"@.len() != "depends"@.len());
                assert("qa"@.len() != "flags"@.len());
                assert("qa"@.len() != "keywords"@.len());
                assert("qa"@[0] != "os"@[0]);
                assert("qa"@.len() != "platform"@.len());
                assert("qa"@.len() != "priority"@.len());
                assert("qa"@.len() != "product"@.len());
            },
            StaticChangeField::Reporter => {
                assert("reporter"@.len() != "alias"@.len());
                assert("reporter"@[0] != "assignee"@[0]);
                assert("reporter"@.len() != "blocks"@.len());
                assert("reporter"@.len() != "component"@.len());
                assert("reporter"@.len() != "cc"@.len());
                assert("reporter"@[0] != "deadline"@[0]);
                assert("reporter"@.len() != "depends"@.len());
                assert("reporter"@.len() != "flags"@.len());
                assert("reporter"@[0] != "keywords"@[0]);
                assert("reporter"@.len() != "os"@.len());
                assert("reporter"@[0] != "platform"@[0]);
                assert("reporter"@[0] != "priority"@[0]);
                assert("reporter"@.len() != "product"@.len());
                assert("reporter"@.len() != "qa"@.len());
            },
            StaticChangeField::Resolution => {
                assert("resolution"@.len() != "alias"@.len());
                assert("resolution"@.len() != "assignee"@.len());
                assert("resolution"@.len() != "blocks"@.len());
                assert("resolution"@.len() != "component"@.len());
                assert("resolution"@.len() != "cc"@.len());
                assert("resolution"@.len() != "deadline"@.len());
                assert("resolution"@.len() != "depends"@.len());
                assert("resolution"@.len() != "flags"@.len());
                assert("resolution"@.len() != "keywords"@.len());
                assert("resolution"@.len() != "os"@.len());
                assert("resolution"@.len() != "platform"@.len());
                assert("resolution"@.len() != "priority"@.len());
                assert("resolution"@.len() != "product"@.len());
                assert("resolution"@.len() != "qa"@.len());
                assert("resolution"@.len() != "reporter"@.len());
            },
            StaticChangeField::SeeAlso => {
                assert("see-also"@.len() != "alias"@.len());
                assert("see-also"@[0] != "assignee"@[0]);
                assert("see-also"@.len() != "blocks"@.len());
                assert("see-also"@.len() != "component"@.len());
                assert("see-also"@.len() != "cc"@.len());
                assert("see-also"@[0] != "deadline"@[0]);
                assert("see-also"@.len() != "depends"@.len());
                assert("see-also"@.len() != "flags"@.len());
                assert("see-also"@[0] != "keywords"@[0]);
                assert("see-also"@.len() != "os"@.len());
                assert("see-also"@[0] != "platform"@[0]);
                assert("see-also"@[0] != "priority"@[0]);
                assert("see-also"@.len() != "product"@.len());
                assert("see-also"@.len() != "qa"@.len());
                assert("see-also"@[0] != "reporter"@[0]);
                assert("see-also"@.len() != "resolution"@.len());
            },
            StaticChangeField::Severity => {
                assert("severity"@.len() != "alias"@.len());
                assert("severity"@[0] != "assignee"@[0]);
                assert("severity"@.len() != "blocks"@.len());
                assert("severity"@.len() != "component"@.len());
                assert("severity"@.len() != "cc"@.len());
                assert("severity"@[0] != "deadline"@[0]);
                assert("severity"@.len() != "depends"@.len());
                assert("severity"@.len() != "flags"@.len());
                assert("severity"@[0] != "keywords"@[0]);
                assert("severity"@.len() != "os"@.len());
                assert("severity"@[0] != "platform"@[0]);
                assert("severity"@[0] != "priority"@[0]);
                assert("severity"@.len() != "product"@.len());
                assert("severity"@.len() != "qa"@.len());
                assert("severity"@[0] != "reporter"@[0]);
                assert("severity"@.len() != "resolution"@.len());
                assert("severity"@[2] != "see-also"@[2]);
            },
            StaticChangeField::Status => {
                assert("status"@.len() != "alias"@.len());
                assert("status"@.len() != "assignee"@.len());
                assert("status"@[0] != "blocks"@[0]);
                assert("status"@.len() != "component"@.len());
                assert("status"@.len() != "cc"@.len());
                assert("status"@.len() != "deadline"@.len());
                assert("status"@.len() != "depends"@.len());
                assert("status"@.len() != "flags"@.len());
                assert("status"@.len() != "keywords"@.len());
                assert("status"@.len() != "os"@.len());
                assert("status"@.len() != "platform"@.len());
                assert("status"@.len() != "priority"@.len());
                assert("status"@.len() != "product"@.len());
                assert("status"@.len() != "qa"@.len());
                assert("status"@.len() != "reporter"@.len());
                assert("status"@.len() != "resolution"@.len());
                assert("status"@.len() != "see-also"@.len());
                assert("status"@.len() != "severity"@.len());
            },
            StaticChangeField::Summary => {
                assert("summary"@.len() != "alias"@.len());
                assert("summary"@.len() != "assignee"@.len());
                assert("summary"@.len() != "blocks"@.len());
                assert("summary"@.len() != "component"@.len());
                assert("summary"@.len() != "cc"@.len());
                assert("summary"@.len() != "deadline"@.len());
                assert("summary"@[0] != "depends"@[0]);
                assert("summary"@.len() != "flags"@.len());
                assert("summary"@.len() != "keywords"@.len());
                assert("summary"@.len() != "os"@.len());
                assert("summary"@.len() != "platform"@.len());
                assert("summary"@.len() != "priority"@.len());
                assert("summary"@[0] != "product"@[0]);
                assert("summary"@.len() != "qa"@.len());
                assert("summary"@.len() != "reporter"@.len());
                assert("summary"@.len() != "resolution"@.len());
                assert("summary"@.len() != "see-also"@.len());
                assert("summary"@.len() != "severity"@.len());
                assert("summary"@.len() != "status"@.len());
            },
            StaticChangeField::Target => {
                assert("target"@.len() != "alias"@.len());
                assert("target"@.len() != "assignee"@.len());
                assert("target"@[0] != "blocks"@[0]);
                assert("target"@.len() != "component"@.len());
                assert("target"@.len() != "cc"@.len());
                assert("target"@.len() != "deadline"@.len());
                assert("target"@.len() != "depends"@.len());
                assert("target"@.len() != "flags"@.len());
                assert("target"@.len() != "keywords"@.len());
                assert("target"@.len() != "os"@.len());
                assert("target"@.len() != "platform"@.len());
                assert("target"@.len() != "priority"@.len());
                assert("target"@.len() != "product"@.len());
                assert("target"@.len() != "qa"@.len());
                assert("target"@.len() != "reporter"@.len());
                assert("target"@.len() != "resolution"@.len());
                assert("target"@.len() != "see-also"@.len());
                assert("target"@.len() != "severity"@.len());
                assert("target"@[0] != "status"@[0]);
                assert("target"@.len() != "summary"@.len());
            },
            StaticChangeField::Url => {
                assert("url"@.len() != "alias"@.len());
                assert("url"@.len() != "assignee"@.len());
                assert("url"@.len() != "blocks"@.len());
                assert("url"@.len() != "component"@.len());
                assert("url"@.len() != "cc"@.len());
                assert("url"@.len() != "deadline"@.len());
                assert("url"@.len() != "depends"@.len());
                assert("url"@.len() != "flags"@.len());
                assert("url"@.len() != "keywords"@.len());
                assert("url"@.len() != "os"@.len());
                assert("url"@.len() != "platform"@.len());
                assert("url"@.len() != "priority"@.len());
                assert("url"@.len() != "product"@.len());
                assert("url"@.len() != "qa"@.len());
                assert("url"@.len() != "reporter"@.len());
                assert("url"@.len() != "resolution"@.len());
                assert("url"@.len() != "see-also"@.len());
                assert("url"@.len() != "severity"@.len());
                assert("url"@.len() != "status"@.len());
                assert("url"@.len() != "summary"@.len());
                assert("url"@.len() != "target"@.len());
            },
            StaticChangeField::Version => {
                assert("version"@.len() != "alias"@.len());
                assert("version"@.len() != "assignee"@.len());
                assert("version"@.len() != "blocks"@.len());
                assert("version"@.len() != "component"@.len());
                assert("version"@.len() != "cc"@.len());
                assert("version"@.len() != "deadline"@.len());
                assert("version"@[0] != "depends"@[0]);
                assert("version"@.len() != "flags"@.len());
                assert("version"@.len() != "keywords"@.len());
                assert("version"@.len() != "os"@.len());
                assert("version"@.len() != "platform"@.len());
                assert("version"@.len() != "priority"@.len());
                assert("version"@[0] != "product"@[0]);
                assert("version"@.len() != "qa"@.len());
                assert("version"@.len() != "reporter"@.len());
                assert("version"@.len() != "resolution"@.len());
                assert("version"@.len() != "see-also"@.len());
                assert("version"@.len() != "severity"@.len());
                assert("version"@.len() != "status"@.len());
                assert("version"@[0] != "summary"@[0]);
                assert("version"@.len() != "target"@.len());
                assert("version"@.len() != "url"@.len());
            },
            StaticChangeField::Votes => {
                assert("votes"@[0] != "alias"@[0]);
                assert("votes"@.len() != "assignee"@.len());
                assert("votes"@.len() != "blocks"@.len());
                assert("votes"@.len() != "component"@.len());
                assert("votes"@.len() != "cc"@.len());
                assert("votes"@.len() != "deadline"@.len());
                assert("votes"@.len() != "depends"@.len());
                assert("votes"@[0] != "flags"@[0]);
                assert("votes"@.len() != "keywords"@.len());
                assert("votes"@.len() != "os"@.len());
                assert("votes"@.len() != "platform"@.len());
                assert("votes"@.len() != "priority"@.len());
                assert("votes"@.len() != "product"@.len());
                assert("votes"@.len() != "qa"@.len());
                assert("votes"@.len() != "reporter"@.len());
                assert("votes"@.len() != "resolution"@.len());
                assert("votes"@.len() != "see-also"@.len());
                assert("votes"@.len() != "severity"@.len());
                assert("votes"@.len() != "status"@.len());
                assert("votes"@.len() != "summary"@.len());
                assert("votes"@.len() != "target"@.len());
                assert("votes"@.len() != "url"@.len());
                assert("votes"@.len() != "version"@.len());
            },
            StaticChangeField::Whiteboard => {
                assert("whiteboard"@.len() != "alias"@.len());
                assert("whiteboard"@.len() != "assignee"@.len());
                assert("whiteboard"@.len() != "blocks"@.len());
                assert("whiteboard"@.len() != "component"@.len());
                assert("whiteboard"@.len() != "cc"@.len());
                assert("whiteboard"@.len() != "deadline"@.len());
                assert("whiteboard"@.len() != "depends"@.len());
                assert("whiteboard"@.len() != "flags"@.len());
                assert("whiteboard"@.len() != "keywords"@.len());
                assert("whiteboard"@.len() != "os"@.len());
                assert("whiteboard"@.len() != "platform"@.len());
                assert("whiteboard"@.len() != "priority"@.len());
                assert("whiteboard"@.len() != "product"@.len());
                assert("whiteboard"@.len() != "qa"@.len());
                assert("whiteboard"@.len() != "reporter"@.len());
                assert("whiteboard"@[0] != "resolution"@[0]);
                assert("whiteboard"@.len() != "see-also"@.len());
                assert("whiteboard"@.len() != "severity"@.len());
                assert("whiteboard"@.len() != "status"@.len());
                assert("whiteboard"@.len() != "summary"@.len());
                assert("whiteboard"@.len() != "target"@.len());
                assert("whiteboard"@.len() != "url"@.len());
                assert("whiteboard"@.len() != "version"@.len());
                assert("whiteboard"@.len() != "votes"@.len());
            },
        }
    }
}

impl ToText for StaticChangeField {
    open spec fn spec_text(&self) -> Seq<char> {
        self.spec_name()
    }

    fn to_text(&self) -> (s: String) {
        match self {
            StaticChangeField::Alias => owned("alias"),
            StaticChangeField::Assignee => owned("assignee"),
            StaticChangeField::Blocks => owned("blocks"),
            StaticChangeField::Component => owned("component"),
            StaticChangeField::Cc => owned("cc"),
            StaticChangeField::Deadline => owned("deadline"),
            StaticChangeField::Depends => owned("depends"),
            StaticChangeField::Flags => owned("flags"),
            StaticChangeField::Keywords => owned("keywords"),
            StaticChangeField::Os => owned("os"),
            StaticChangeField::Platform => owned("platform"),
            StaticChangeField::Priority => owned("priority"),
            StaticChangeField::Product => owned("product"),
            StaticChangeField::Qa => owned("qa"),
            StaticChangeField::Reporter => owned("reporter"),
            StaticChangeField::Resolution => owned("resolution"),
            StaticChangeField::SeeAlso => owned("see-also"),
            StaticChangeField::Severity => owned("severity"),
            StaticChangeField::Status => owned("status"),
            StaticChangeField::Summary => owned("summary"),
            StaticChangeField::Target => owned("target"),
            StaticChangeField::Url => owned("url"),
            StaticChangeField::Version => owned("version"),
            StaticChangeField::Votes => owned("votes"),
            StaticChangeField::Whiteboard => owned("whiteboard"),
        }
    }
}

impl Api for StaticChangeField {
    open spec fn spec_api(&self) -> Seq<char> {
        self.spec_api_name()
    }

    fn api(&self) -> (s: String) {
        match self {
            StaticChangeField::Alias => owned("alias"),
            StaticChangeField::Assignee => owned("assigned_to"),
            StaticChangeField::Blocks => owned("blocked"),
            StaticChangeField::Component => owned("component"),
            StaticChangeField::Cc => owned("cc"),
            StaticChangeField::Deadline => owned("deadline"),
            StaticChangeField::Depends => owned("dependson"),
            StaticChangeField::Flags => owned("flagtypes.name"),
            StaticChangeField::Keywords => owned("keywords"),
            StaticChangeField::Os => owned("op_sys"),
            StaticChangeField::Platform => owned("rep_platform"),
            StaticChangeField::Priority => owned("priority"),
            StaticChangeField::Product => owned("product"),
            StaticChangeField::Qa => owned("qa_contact"),
            StaticChangeField::Reporter => owned("reporter"),
            StaticChangeField::Resolution => owned("resolution"),
            StaticChangeField::SeeAlso => owned("see_also"),
            StaticChangeField::Severity => owned("bug_severity"),
            StaticChangeField::Status => owned("bug_status"),
            StaticChangeField::Summary => owned("short_desc"),
            StaticChangeField::Target => owned("target_milestone"),
            StaticChangeField::Url => owned("bug_file_loc"),
            StaticChangeField::Version => owned("version"),
            StaticChangeField::Votes => owned("votes"),
            StaticChangeField::Whiteboard => owned("status_whiteboard"),
        }
    }
}

impl MatchOp {
    /// The default operator: substring matching.
    pub fn default() -> (r: MatchOp)
        ensures
            r == MatchOp::Substring,
    {
        MatchOp::Substring
    }
}

/// Advanced field match: an optional operator and the value to match.
#[derive(Debug)]
pub struct Match {
    pub op: Option<MatchOp>,
    pub value: String,
}

impl Match {
    /// Operator used for matching, substring matching when none is given.
    pub open spec fn spec_op(&self) -> MatchOp {
        match self.op {
            Some(op) => op,
            None => MatchOp::Substring,
        }
    }

    /// Operator used for matching, substring matching when none is given.
    pub fn op(&self) -> (r: MatchOp)
        ensures
            r == self.spec_op(),
    {
        match self.op {
            Some(op) => op,
            None => MatchOp::default(),
        }
    }

    /// Parses a match: an operator and a space before the value, or just the value.
    pub fn from_str(s: &str) -> (r: Match)
        ensures
            Self::text_value(s@, r),
    {
        match Self::from_text(s) {
            Ok(m) => m,
            Err(_) => Match { op: None, value: owned(s) },
        }
    }

    /// Copy of the match.
    pub fn duplicate(&self) -> (r: Match)
        ensures
            r.op == self.op && r.value@ == self.value@,
    {
        Match { op: self.op, value: self.value.clone() }
    }
}

impl FromText for Match {
    open spec fn text_ok(s: Seq<char>) -> bool {
        true
    }

    open spec fn text_value(s: Seq<char>, v: Match) -> bool {
        match split_once(s, " "@) {
            Some((a, b)) => if MatchOp::text_ok(a) {
                v.op == MatchOp::spec_from_name(a) && v.value@ == b
            } else {
                v.op is None && v.value@ == s
            },
            None => v.op is None && v.value@ == s,
        }
    }

    open spec fn text_error(s: Seq<char>) -> Seq<char> {
        Seq::empty()
    }

    fn from_text(s: &str) -> (r: Result<Match, String>) {
        let c = chars_of(s);
        let sp = chars_of(" ");
        match split_once_chars(c.as_slice(), sp.as_slice()) {
            Some((a, b)) => match MatchOp::from_text(a.as_str()) {
                Ok(op) => Ok(Match { op: Some(op), value: b }),
                Err(_) => Ok(Match { op: None, value: owned(s) }),
            },
            None => Ok(Match { op: None, value: owned(s) }),
        }
    }
}

impl ToText for Match {
    open spec fn spec_text(&self) -> Seq<char> {
        match self.op {
            Some(op) => op.spec_name() + " "@ + self.value@,
            None => self.value@,
        }
    }

    fn to_text(&self) -> (s: String) {
        match self.op {
            Some(op) => {
                let a = concat(op.to_text().as_str(), " ");
                concat(a.as_str(), self.value.as_str())
            },
            None => self.value.clone(),
        }
    }
}

impl Api for Match {
    open spec fn spec_api(&self) -> Seq<char> {
        self.value@
    }

    fn api(&self) -> (s: String) {
        self.value.clone()
    }
}

/// Valid change fields: a static field or a custom one named with a `cf_` prefix.
#[derive(Debug)]
pub enum ChangeField {
    Static(StaticChangeField),
    Custom(String),
}

/// API name of the change field named `s`, if it names one.
pub open spec fn change_field_api(s: Seq<char>) -> Option<Seq<char>> {
    if has_prefix(s, "cf_"@) {
        Some(s)
    } else {
        match StaticChangeField::spec_from_name(s) {
            Some(f) => Some(f.spec_api_name()),
            None => None,
        }
    }
}

/// Message for a name that is not a change field.
pub open spec fn invalid_change_field(s: Seq<char>) -> Seq<char> {
    "invalid change field: "@ + s
}

impl FromText for ChangeField {
    open spec fn text_ok(s: Seq<char>) -> bool {
        change_field_api(s) is Some
    }

    open spec fn text_value(s: Seq<char>, v: ChangeField) -> bool {
        if has_prefix(s, "cf_"@) {
            v matches ChangeField::Custom(x) && x@ == s
        } else {
            v matches ChangeField::Static(f) && StaticChangeField::spec_from_name(s) == Some(f)
        }
    }

    open spec fn text_error(s: Seq<char>) -> Seq<char> {
        invalid_change_field(s)
    }

    fn from_text(s: &str) -> (r: Result<ChangeField, String>) {
        let c = chars_of(s);
        let p = chars_of("cf_");
        if starts_with(c.as_slice(), p.as_slice()) {
            Ok(ChangeField::Custom(owned(s)))
        } else {
            match StaticChangeField::from_text(s) {
                Ok(f) => Ok(ChangeField::Static(f)),
                Err(_) => Err(concat("invalid change field: ", s)),
            }
        }
    }
}

impl Api for ChangeField {
    open spec fn spec_api(&self) -> Seq<char> {
        match self {
            ChangeField::Static(f) => f.spec_api_name(),
            ChangeField::Custom(x) => x@,
        }
    }

    fn api(&self) -> (s: String) {
        match self {
            ChangeField::Static(f) => f.api(),
            ChangeField::Custom(x) => x.clone(),
        }
    }
}

/// A field name and whether it is inverted by a leading `!`.
pub open spec fn invert_split(s: Seq<char>) -> (bool, Seq<char>) {
    if s.len() > 0 && s[0] == '!' {
        (true, s.subrange(1, s.len() as int))
    } else {
        (false, s)
    }
}

pub(crate) proof fn lemma_change_field_api(s: Seq<char>, f: ChangeField)
    requires
        ChangeField::text_value(s, f),
    ensures
        change_field_api(s) == Some(f.spec_api()),
{
}

impl ChangeField {
    /// Parse invertable values, prefixing a field name with `!` inverts a query.
    pub fn invertable(field: &str) -> (r: Result<(bool, ChangeField), Error>)
        ensures
            r is Ok <==> change_field_api(invert_split(field@).1) is Some,
            r matches Ok((inv, f)) ==> inv == invert_split(field@).0 && change_field_api(
                invert_split(field@).1,
            ) == Some(f.spec_api()) && <ChangeField as FromText>::text_value(
                invert_split(field@).1,
                f,
            ),
            r matches Err(e) ==> e.is_invalid_value(invalid_change_field(invert_split(field@).1)),
    {
        let c = chars_of(field);
        let (inv, name) = if c.len() > 0 && c[0] == '!' {
            (true, string_of(c.as_slice(), 1, c.len()))
        } else {
            (false, owned(field))
        };
        match ChangeField::from_text(name.as_str()) {
            Ok(f) => {
                proof { lemma_change_field_api(name@, f); }
                Ok((inv, f))
            },
            Err(m) => Err(Error::InvalidValue(m)),
        }
    }
}

/// API form of a sort order on a field.
pub open spec fn spec_order_api(o: Order<OrderField>) -> Seq<char> {
    match o {
        Order::Ascending(f) => f.spec_api_name() + " ASC"@,
        Order::Descending(f) => f.spec_api_name() + " DESC"@,
    }
}

/// API form of a sort order on a field.
pub fn order_api(o: &Order<OrderField>) -> (s: String)
    ensures
        s@ == spec_order_api(*o),
{
    match o {
        Order::Ascending(f) => concat(f.api().as_str(), " ASC"),
        Order::Descending(f) => concat(f.api().as_str(), " DESC"),
    }
}

impl Api for Order<OrderField> {
    open spec fn spec_api(&self) -> Seq<char> {
        spec_order_api(*self)
    }

    fn api(&self) -> (s: String) {
        match self {
            Order::Ascending(f) => concat(f.api().as_str(), " ASC"),
            Order::Descending(f) => concat(f.api().as_str(), " DESC"),
        }
    }
}

/// Bug search parameters.
#[derive(Debug)]
pub struct Parameters {
    pub alias: Option<Vec<ExistsOrValues<Match>>>,
    pub attachments: Option<ExistsOrValues<Match>>,
    pub flags: Option<Vec<ExistsOrValues<Match>>>,
    pub groups: Option<Vec<ExistsOrValues<Match>>>,
    pub keywords: Option<Vec<ExistsOrValues<Match>>>,
    pub see_also: Option<Vec<ExistsOrValues<Match>>>,
    pub tags: Option<Vec<ExistsOrValues<Match>>>,
    pub whiteboard: Option<Vec<ExistsOrValues<Match>>>,
    pub url: Option<Vec<ExistsOrValues<Match>>>,
    pub attachment_description: Option<Vec<Vec<Match>>>,
    pub attachment_filename: Option<Vec<Vec<Match>>>,
    pub attachment_mime: Option<Vec<Vec<Match>>>,
    pub attachment_is_obsolete: Option<bool>,
    pub attachment_is_patch: Option<bool>,
    pub attachment_is_private: Option<bool>,
    pub changed: Option<Vec<(Vec<String>, RangeOrValue<TimeDeltaOrStatic>)>>,
    pub changed_by: Option<Vec<(Vec<String>, Vec<String>)>>,
    pub changed_from: Option<Vec<(String, String)>>,
    pub changed_to: Option<Vec<(String, String)>>,
    pub assignee: Option<Vec<Vec<Match>>>,
    pub attacher: Option<Vec<Vec<Match>>>,
    pub cc: Option<Vec<ExistsOrValues<Match>>>,
    pub commenter: Option<Vec<Vec<Match>>>,
    pub flagger: Option<Vec<Vec<Match>>>,
    pub qa: Option<Vec<ExistsOrValues<Match>>>,
    pub reporter: Option<Vec<Vec<Match>>>,
    pub fields: Option<Vec<FilterField>>,
    pub limit: Option<usize>,
    pub offset: Option<usize>,
    pub order: Option<Vec<Order<OrderField>>>,
    pub paged: Option<bool>,
    pub created: Option<RangeOrValue<TimeDeltaOrStatic>>,
    pub updated: Option<RangeOrValue<TimeDeltaOrStatic>>,
    pub closed: Option<RangeOrValue<TimeDeltaOrStatic>>,
    pub comment: Option<Vec<Match>>,
    pub comment_is_private: Option<bool>,
    pub comment_tag: Option<Vec<Vec<Match>>>,
    pub blocks: Option<Vec<ExistsOrValues<RangeOrValue<i64>>>>,
    pub depends: Option<Vec<ExistsOrValues<RangeOrValue<i64>>>>,
    pub ids: Option<Vec<ExistsOrValues<RangeOrValue<i64>>>>,
    pub priority: Option<Vec<Match>>,
    pub severity: Option<Vec<Match>>,
    pub version: Option<Vec<Match>>,
    pub component: Option<Vec<Match>>,
    pub product: Option<Vec<Match>>,
    pub platform: Option<Vec<Match>>,
    pub os: Option<Vec<Match>>,
    pub resolution: Option<Vec<Match>>,
    pub status: Option<Vec<String>>,
    pub target: Option<Vec<Match>>,
    pub comments: Option<RangeOrValue<u64>>,
    pub votes: Option<RangeOrValue<u64>>,
    pub summary: Option<Vec<Match>>,
    pub quicksearch: Option<String>,
    pub custom_fields: Option<Vec<(String, ExistsOrValues<Match>)>>,
}

impl Parameters {
    /// Parameters set in `self`, with those it lacks taken from `other`.
    pub open spec fn spec_merged(self, other: Parameters) -> Parameters {
        Parameters {
            alias: spec_merge_option(self.alias, other.alias),
            attachments: spec_merge_option(self.attachments, other.attachments),
            flags: spec_merge_option(self.flags, other.flags),
            groups: spec_merge_option(self.groups, other.groups),
            keywords: spec_merge_option(self.keywords, other.keywords),
            see_also: spec_merge_option(self.see_also, other.see_also),
            tags: spec_merge_option(self.tags, other.tags),
            whiteboard: spec_merge_option(self.whiteboard, other.whiteboard),
            url: spec_merge_option(self.url, other.url),
            attachment_description: spec_merge_option(self.attachment_description, other.attachment_description),
            attachment_filename: spec_merge_option(self.attachment_filename, other.attachment_filename),
            attachment_mime: spec_merge_option(self.attachment_mime, other.attachment_mime),
            attachment_is_obsolete: spec_merge_option(self.attachment_is_obsolete, other.attachment_is_obsolete),
            attachment_is_patch: spec_merge_option(self.attachment_is_patch, other.attachment_is_patch),
            attachment_is_private: spec_merge_option(self.attachment_is_private, other.attachment_is_private),
            changed: spec_merge_option(self.changed, other.changed),
            changed_by: spec_merge_option(self.changed_by, other.changed_by),
            changed_from: spec_merge_option(self.changed_from, other.changed_from),
            changed_to: spec_merge_option(self.changed_to, other.changed_to),
            assignee: spec_merge_option(self.assignee, other.assignee),
            attacher: spec_merge_option(self.attacher, other.attacher),
            cc: spec_merge_option(self.cc, other.cc),
            commenter: spec_merge_option(self.commenter, other.commenter),
            flagger: spec_merge_option(self.flagger, other.flagger),
            qa: spec_merge_option(self.qa, other.qa),
            reporter: spec_merge_option(self.reporter, other.reporter),
            fields: spec_merge_option(self.fields, other.fields),
            limit: spec_merge_option(self.limit, other.limit),
            offset: spec_merge_option(self.offset, other.offset),
            order: spec_merge_option(self.order, other.order),
            paged: spec_merge_option(self.paged, other.paged),
            created: spec_merge_option(self.created, other.created),
            updated: spec_merge_option(self.updated, other.updated),
            closed: spec_merge_option(self.closed, other.closed),
            comment: spec_merge_option(self.comment, other.comment),
            comment_is_private: spec_merge_option(self.comment_is_private, other.comment_is_private),
            comment_tag: spec_merge_option(self.comment_tag, other.comment_tag),
            blocks: spec_merge_option(self.blocks, other.blocks),
            depends: spec_merge_option(self.depends, other.depends),
            ids: spec_merge_option(self.ids, other.ids),
            priority: spec_merge_option(self.priority, other.priority),
            severity: spec_merge_option(self.severity, other.severity),
            version: spec_merge_option(self.version, other.version),
            component: spec_merge_option(self.component, other.component),
            product: spec_merge_option(self.product, other.product),
            platform: spec_merge_option(self.platform, other.platform),
            os: spec_merge_option(self.os, other.os),
            resolution: spec_merge_option(self.resolution, other.resolution),
            status: spec_merge_option(self.status, other.status),
            target: spec_merge_option(self.target, other.target),
            comments: spec_merge_option(self.comments, other.comments),
            votes: spec_merge_option(self.votes, other.votes),
            summary: spec_merge_option(self.summary, other.summary),
            quicksearch: spec_merge_option(self.quicksearch, other.quicksearch),
            custom_fields: spec_merge_option(self.custom_fields, other.custom_fields),
        }
    }

    /// Parameters with nothing set.
    pub open spec fn spec_is_empty(&self) -> bool {
        self.alias is None
        && self.attachments is None
        && self.flags is None
        && self.groups is None
        && self.keywords is None
        && self.see_also is None
        && self.tags is None
        && self.whiteboard is None
        && self.url is None
        && self.attachment_description is None
        && self.attachment_filename is None
        && self.attachment_mime is None
        && self.attachment_is_obsolete is None
        && self.attachment_is_patch is None
        && self.attachment_is_private is None
        && self.changed is None
        && self.changed_by is None
        && self.changed_from is None
        && self.changed_to is None
        && self.assignee is None
        && self.attacher is None
        && self.cc is None
        && self.commenter is None
        && self.flagger is None
        && self.qa is None
        && self.reporter is None
        && self.fields is None
        && self.limit is None
        && self.offset is None
        && self.order is None
        && self.paged is None
        && self.created is None
        && self.updated is None
        && self.closed is None
        && self.comment is None
        && self.comment_is_private is None
        && self.comment_tag is None
        && self.blocks is None
        && self.depends is None
        && self.ids is None
        && self.priority is None
        && self.severity is None
        && self.version is None
        && self.component is None
        && self.product is None
        && self.platform is None
        && self.os is None
        && self.resolution is None
        && self.status is None
        && self.target is None
        && self.comments is None
        && self.votes is None
        && self.summary is None
        && self.quicksearch is None
        && self.custom_fields is None
    }

    /// Parameters with nothing set.
    pub fn default() -> (r: Parameters)
        ensures
            r.spec_is_empty(),
    {
        Parameters {
            alias: None,
            attachments: None,
            flags: None,
            groups: None,
            keywords: None,
            see_also: None,
            tags: None,
            whiteboard: None,
            url: None,
            attachment_description: None,
            attachment_filename: None,
            attachment_mime: None,
            attachment_is_obsolete: None,
            attachment_is_patch: None,
            attachment_is_private: None,
            changed: None,
            changed_by: None,
            changed_from: None,
            changed_to: None,
            assignee: None,
            attacher: None,
            cc: None,
            commenter: None,
            flagger: None,
            qa: None,
            reporter: None,
            fields: None,
            limit: None,
            offset: None,
            order: None,
            paged: None,
            created: None,
            updated: None,
            closed: None,
            comment: None,
            comment_is_private: None,
            comment_tag: None,
            blocks: None,
            depends: None,
            ids: None,
            priority: None,
            severity: None,
            version: None,
            component: None,
            product: None,
            platform: None,
            os: None,
            resolution: None,
            status: None,
            target: None,
            comments: None,
            votes: None,
            summary: None,
            quicksearch: None,
            custom_fields: None,
        }
    }

    /// Fills the parameters that are not set from `other`.
    pub fn merge(&mut self, other: Parameters)
        ensures
            *final(self) == old(self).spec_merged(other),
            final(self).alias == spec_merge_option(old(self).alias, other.alias),
            final(self).attachments == spec_merge_option(old(self).attachments, other.attachments),
            final(self).flags == spec_merge_option(old(self).flags, other.flags),
            final(self).groups == spec_merge_option(old(self).groups, other.groups),
            final(self).keywords == spec_merge_option(old(self).keywords, other.keywords),
            final(self).see_also == spec_merge_option(old(self).see_also, other.see_also),
            final(self).tags == spec_merge_option(old(self).tags, other.tags),
            final(self).whiteboard == spec_merge_option(old(self).whiteboard, other.whiteboard),
            final(self).url == spec_merge_option(old(self).url, other.url),
            final(self).attachment_description == spec_merge_option(old(self).attachment_description, other.attachment_description),
            final(self).attachment_filename == spec_merge_option(old(self).attachment_filename, other.attachment_filename),
            final(self).attachment_mime == spec_merge_option(old(self).attachment_mime, other.attachment_mime),
            final(self).attachment_is_obsolete == spec_merge_option(old(self).attachment_is_obsolete, other.attachment_is_obsolete),
            final(self).attachment_is_patch == spec_merge_option(old(self).attachment_is_patch, other.attachment_is_patch),
            final(self).attachment_is_private == spec_merge_option(old(self).attachment_is_private, other.attachment_is_private),
            final(self).changed == spec_merge_option(old(self).changed, other.changed),
            final(self).changed_by == spec_merge_option(old(self).changed_by, other.changed_by),
            final(self).changed_from == spec_merge_option(old(self).changed_from, other.changed_from),
            final(self).changed_to == spec_merge_option(old(self).changed_to, other.changed_to),
            final(self).assignee == spec_merge_option(old(self).assignee, other.assignee),
            final(self).attacher == spec_merge_option(old(self).attacher, other.attacher),
            final(self).cc == spec_merge_option(old(self).cc, other.cc),
            final(self).commenter == spec_merge_option(old(self).commenter, other.commenter),
            final(self).flagger == spec_merge_option(old(self).flagger, other.flagger),
            final(self).qa == spec_merge_option(old(self).qa, other.qa),
            final(self).reporter == spec_merge_option(old(self).reporter, other.reporter),
            final(self).fields == spec_merge_option(old(self).fields, other.fields),
            final(self).limit == spec_merge_option(old(self).limit, other.limit),
            final(self).offset == spec_merge_option(old(self).offset, other.offset),
            final(self).order == spec_merge_option(old(self).order, other.order),
            final(self).paged == spec_merge_option(old(self).paged, other.paged),
            final(self).created == spec_merge_option(old(self).created, other.created),
            final(self).updated == spec_merge_option(old(self).updated, other.updated),
            final(self).closed == spec_merge_option(old(self).closed, other.closed),
            final(self).comment == spec_merge_option(old(self).comment, other.comment),
            final(self).comment_is_private == spec_merge_option(old(self).comment_is_private, other.comment_is_private),
            final(self).comment_tag == spec_merge_option(old(self).comment_tag, other.comment_tag),
            final(self).blocks == spec_merge_option(old(self).blocks, other.blocks),
            final(self).depends == spec_merge_option(old(self).depends, other.depends),
            final(self).ids == spec_merge_option(old(self).ids, other.ids),
            final(self).priority == spec_merge_option(old(self).priority, other.priority),
            final(self).severity == spec_merge_option(old(self).severity, other.severity),
            final(self).version == spec_merge_option(old(self).version, other.version),
            final(self).component == spec_merge_option(old(self).component, other.component),
            final(self).product == spec_merge_option(old(self).product, other.product),
            final(self).platform == spec_merge_option(old(self).platform, other.platform),
            final(self).os == spec_merge_option(old(self).os, other.os),
            final(self).resolution == spec_merge_option(old(self).resolution, other.resolution),
            final(self).status == spec_merge_option(old(self).status, other.status),
            final(self).target == spec_merge_option(old(self).target, other.target),
            final(self).comments == spec_merge_option(old(self).comments, other.comments),
            final(self).votes == spec_merge_option(old(self).votes, other.votes),
            final(self).summary == spec_merge_option(old(self).summary, other.summary),
            final(self).quicksearch == spec_merge_option(old(self).quicksearch, other.quicksearch),
            final(self).custom_fields == spec_merge_option(old(self).custom_fields, other.custom_fields),
    {
        let Parameters {
            alias,
            attachments,
            flags,
            groups,
            keywords,
            see_also,
            tags,
            whiteboard,
            url,
            attachment_description,
            attachment_filename,
            attachment_mime,
            attachment_is_obsolete,
            attachment_is_patch,
            attachment_is_private,
            changed,
            changed_by,
            changed_from,
            changed_to,
            assignee,
            attacher,
            cc,
            commenter,
            flagger,
            qa,
            reporter,
            fields,
            limit,
            offset,
            order,
            paged,
            created,
            updated,
            closed,
            comment,
            comment_is_private,
            comment_tag,
            blocks,
            depends,
            ids,
            priority,
            severity,
            version,
            component,
            product,
            platform,
            os,
            resolution,
            status,
            target,
            comments,
            votes,
            summary,
            quicksearch,
            custom_fields,
        } = other;
        self.alias = merge_option(self.alias.take(), alias);
        self.attachments = merge_option(self.attachments.take(), attachments);
        self.flags = merge_option(self.flags.take(), flags);
        self.groups = merge_option(self.groups.take(), groups);
        self.keywords = merge_option(self.keywords.take(), keywords);
        self.see_also = merge_option(self.see_also.take(), see_also);
        self.tags = merge_option(self.tags.take(), tags);
        self.whiteboard = merge_option(self.whiteboard.take(), whiteboard);
        self.url = merge_option(self.url.take(), url);
        self.attachment_description = merge_option(self.attachment_description.take(), attachment_description);
        self.attachment_filename = merge_option(self.attachment_filename.take(), attachment_filename);
        self.attachment_mime = merge_option(self.attachment_mime.take(), attachment_mime);
        self.attachment_is_obsolete = merge_option(self.attachment_is_obsolete.take(), attachment_is_obsolete);
        self.attachment_is_patch = merge_option(self.attachment_is_patch.take(), attachment_is_patch);
        self.attachment_is_private = merge_option(self.attachment_is_private.take(), attachment_is_private);
        self.changed = merge_option(self.changed.take(), changed);
        self.changed_by = merge_option(self.changed_by.take(), changed_by);
        self.changed_from = merge_option(self.changed_from.take(), changed_from);
        self.changed_to = merge_option(self.changed_to.take(), changed_to);
        self.assignee = merge_option(self.assignee.take(), assignee);
        self.attacher = merge_option(self.attacher.take(), attacher);
        self.cc = merge_option(self.cc.take(), cc);
        self.commenter = merge_option(self.commenter.take(), commenter);
        self.flagger = merge_option(self.flagger.take(), flagger);
        self.qa = merge_option(self.qa.take(), qa);
        self.reporter = merge_option(self.reporter.take(), reporter);
        self.fields = merge_option(self.fields.take(), fields);
        self.limit = merge_option(self.limit.take(), limit);
        self.offset = merge_option(self.offset.take(), offset);
        self.order = merge_option(self.order.take(), order);
        self.paged = merge_option(self.paged.take(), paged);
        self.created = merge_option(self.created.take(), created);
        self.updated = merge_option(self.updated.take(), updated);
        self.closed = merge_option(self.closed.take(), closed);
        self.comment = merge_option(self.comment.take(), comment);
        self.comment_is_private = merge_option(self.comment_is_private.take(), comment_is_private);
        self.comment_tag = merge_option(self.comment_tag.take(), comment_tag);
        self.blocks = merge_option(self.blocks.take(), blocks);
        self.depends = merge_option(self.depends.take(), depends);
        self.ids = merge_option(self.ids.take(), ids);
        self.priority = merge_option(self.priority.take(), priority);
        self.severity = merge_option(self.severity.take(), severity);
        self.version = merge_option(self.version.take(), version);
        self.component = merge_option(self.component.take(), component);
        self.product = merge_option(self.product.take(), product);
        self.platform = merge_option(self.platform.take(), platform);
        self.os = merge_option(self.os.take(), os);
        self.resolution = merge_option(self.resolution.take(), resolution);
        self.status = merge_option(self.status.take(), status);
        self.target = merge_option(self.target.take(), target);
        self.comments = merge_option(self.comments.take(), comments);
        self.votes = merge_option(self.votes.take(), votes);
        self.summary = merge_option(self.summary.take(), summary);
        self.quicksearch = merge_option(self.quicksearch.take(), quicksearch);
        self.custom_fields = merge_option(self.custom_fields.take(), custom_fields);
    }
}










/// Merging parameters with nothing set changes nothing, on either side.
pub proof fn lemma_merge_empty(p: Parameters, e: Parameters)
    requires
        e.spec_is_empty(),
    ensures
        p.spec_merged(e) == p,
        e.spec_merged(p) == p,
{
}

/// Merging parameters into themselves changes nothing.
pub proof fn lemma_merge_idempotent(p: Parameters)
    ensures
        p.spec_merged(p) == p,
{
}

/// Merging is associative: filling from `q` then from `r` is filling from `q` filled
/// from `r`.
pub proof fn lemma_merge_associative(p: Parameters, q: Parameters, r: Parameters)
    ensures
        p.spec_merged(q).spec_merged(r) == p.spec_merged(q.spec_merged(r)),
{
}

} // verus!
