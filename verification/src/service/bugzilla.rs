//! Bugzilla service description: connection config, authentication and bug fields.
use vstd::prelude::*;

use crate::error::Error;
use crate::service::ClientParameters;
use crate::text::{concat, dup_text, owned, str_eq, trim_end_char, trim_end_matches};
use crate::traits::spec_merge_option;
use crate::traits::{Api, FromText, ToText};
use crate::web::{join_url, pair_views, parse_url, url_join_result, url_parse_result, url_query_result, with_query_pairs};

pub mod search;
pub mod attachment;
pub mod update;
pub mod create;
pub mod comment;
pub mod history;
pub mod user;
pub mod fields;
pub mod version;
pub mod get;

verus! {

/// Groups of bug fields.
#[derive(Debug, PartialEq, Eq, Structural, Clone, Copy)]
pub enum GroupField {
    /// All possible fields
    All,
    /// All default fields
    Default,
    /// All extra fields
    Extra,
    /// All custom fields
    Custom,
}

impl GroupField {
    /// Name of the variant as given in arguments and shown to users.
    pub open spec fn spec_name(self) -> Seq<char> {
        match self {
            GroupField::All => "all"@,
            GroupField::Default => "default"@,
            GroupField::Extra => "extra"@,
            GroupField::Custom => "custom"@,
        }
    }

    /// Name of the variant in the service API.
    pub open spec fn spec_api_name(self) -> Seq<char> {
        match self {
            GroupField::All => "_all"@,
            GroupField::Default => "_default"@,
            GroupField::Extra => "_extra"@,
            GroupField::Custom => "_custom"@,
        }
    }

    /// The first variant, in declaration order, with the given name.
    pub open spec fn spec_from_name(s: Seq<char>) -> Option<GroupField> {
        if s == "all"@ {
            Some(GroupField::All)
        } else if s == "default"@ {
            Some(GroupField::Default)
        } else if s == "extra"@ {
            Some(GroupField::Extra)
        } else if s == "custom"@ {
            Some(GroupField::Custom)
        } else {
            None
        }
    }

    /// All variants, in declaration order.
    pub open spec fn spec_all() -> Seq<GroupField> {
        seq![GroupField::All, GroupField::Default, GroupField::Extra, GroupField::Custom]
    }

    /// Position of the variant in declaration order.
    pub open spec fn spec_index(self) -> nat {
        match self {
            GroupField::All => 0,
            GroupField::Default => 1,
            GroupField::Extra => 2,
            GroupField::Custom => 3,
        }
    }

    /// Position of the variant in declaration order.
    pub fn index(&self) -> (r: u64)
        ensures
            r == self.spec_index(),
    {
        match self {
            GroupField::All => 0,
            GroupField::Default => 1,
            GroupField::Extra => 2,
            GroupField::Custom => 3,
        }
    }

    /// The variant at a position of the declaration order.
    pub proof fn lemma_index(self)
        ensures
            self.spec_index() < Self::spec_all().len(),
            Self::spec_all()[self.spec_index() as int] == self,
    {
    }

    /// All variants, in declaration order.
    pub fn all() -> (r: Vec<GroupField>)
        ensures
            r@ == Self::spec_all(),
    {
        let mut r = Vec::new();
        r.push(GroupField::All);
        r.push(GroupField::Default);
        r.push(GroupField::Extra);
        r.push(GroupField::Custom);
        assert(r@ =~= Self::spec_all());
        r
    }
}

impl FromText for GroupField {
    open spec fn text_ok(s: Seq<char>) -> bool {
        Self::spec_from_name(s) is Some
    }

    open spec fn text_value(s: Seq<char>, v: GroupField) -> bool {
        Self::spec_from_name(s) == Some(v)
    }

    open spec fn text_error(s: Seq<char>) -> Seq<char> {
        "Matching variant not found"@
    }

    fn from_text(s: &str) -> (r: Result<GroupField, String>) {
        if str_eq(s, "all") {
            return Ok(GroupField::All);
        }
        if str_eq(s, "default") {
            return Ok(GroupField::Default);
        }
        if str_eq(s, "extra") {
            return Ok(GroupField::Extra);
        }
        if str_eq(s, "custom") {
            return Ok(GroupField::Custom);
        }
        Err(owned("Matching variant not found"))
    }
}

impl GroupField {
    /// The name of a variant parses back to that variant.
    pub proof fn lemma_text_roundtrip(self)
        ensures
            Self::text_ok(self.spec_text()),
            Self::text_value(self.spec_text(), self),
    {
        reveal_strlit("all");
        reveal_strlit("default");
        reveal_strlit("extra");
        reveal_strlit("custom");
        match self {
            GroupField::All => {},
            GroupField::Default => {
                assert("default"@.len() != "all"@.len());
            },
            GroupField::Extra => {
                assert("extra"@.len() != "all"@.len());
                assert("extra"@.len() != "default"@.len());
            },
            GroupField::Custom => {
                assert("custom"@.len() != "all"@.len());
                assert("custom"@.len() != "default"@.len());
                assert("custom"@.len() != "extra"@.len());
            },
        }
    }
}

impl ToText for GroupField {
    open spec fn spec_text(&self) -> Seq<char> {
        self.spec_name()
    }

    fn to_text(&self) -> (s: String) {
        match self {
            GroupField::All => owned("all"),
            GroupField::Default => owned("default"),
            GroupField::Extra => owned("extra"),
            GroupField::Custom => owned("custom"),
        }
    }
}

impl Api for GroupField {
    open spec fn spec_api(&self) -> Seq<char> {
        self.spec_api_name()
    }

    fn api(&self) -> (s: String) {
        match self {
            GroupField::All => owned("_all"),
            GroupField::Default => owned("_default"),
            GroupField::Extra => owned("_extra"),
            GroupField::Custom => owned("_custom"),
        }
    }
}

/// Bug fields that can be requested.
#[derive(Debug, PartialEq, Eq, Structural, Clone, Copy)]
pub enum BugField {
    /// Unique aliases for the bug.
    Alias,
    /// User the bug is assigned to.
    Assignee,
    /// Bugs that are blocked by this bug.
    Blocks,
    /// Users in the CC list.
    Cc,
    /// Name of the bug component.
    Component,
    /// Time when the bug was created.
    Created,
    /// User who created the bug.
    Creator,
    /// Bug completion date.
    Deadline,
    /// Dependencies of the bug.
    Depends,
    /// Bug ID that this bug is a duplicate of.
    DuplicateOf,
    Flags,
    Id,
    Keywords,
    Os,
    Platform,
    Priority,
    Product,
    /// User who is the QA contact.
    Qa,
    Resolution,
    /// URLs to external trackers.
    SeeAlso,
    Severity,
    Status,
    Summary,
    Tags,
    Target,
    /// Time when the bug was last updated.
    Updated,
    /// URL related to the bug.
    Url,
    Version,
    Whiteboard,
}

impl BugField {
    /// Name of the variant as given in arguments and shown to users.
    pub open spec fn spec_name(self) -> Seq<char> {
        match self {
            BugField::Alias => "alias"@,
            BugField::Assignee => "assignee"@,
            BugField::Blocks => "blocks"@,
            BugField::Cc => "cc"@,
            BugField::Component => "component"@,
            BugField::Created => "created"@,
            BugField::Creator => "creator"@,
            BugField::Deadline => "deadline"@,
            BugField::Depends => "depends"@,
            BugField::DuplicateOf => "duplicate-of"@,
            BugField::Flags => "flags"@,
            BugField::Id => "id"@,
            BugField::Keywords => "keywords"@,
            BugField::Os => "os"@,
            BugField::Platform => "platform"@,
            BugField::Priority => "priority"@,
            BugField::Product => "product"@,
            BugField::Qa => "qa"@,
            BugField::Resolution => "resolution"@,
            BugField::SeeAlso => "see-also"@,
            BugField::Severity => "severity"@,
            BugField::Status => "status"@,
            BugField::Summary => "summary"@,
            BugField::Tags => "tags"@,
            BugField::Target => "target"@,
            BugField::Updated => "updated"@,
            BugField::Url => "url"@,
            BugField::Version => "version"@,
            BugField::Whiteboard => "whiteboard"@,
        }
    }

    /// Name of the variant in the service API.
    pub open spec fn spec_api_name(self) -> Seq<char> {
        match self {
            BugField::Alias => "alias"@,
            BugField::Assignee => "assigned_to"@,
            BugField::Blocks => "blocks"@,
            BugField::Cc => "cc"@,
            BugField::Component => "component"@,
            BugField::Created => "creation_time"@,
            BugField::Creator => "creator"@,
            BugField::Deadline => "deadline"@,
            BugField::Depends => "depends_on"@,
            BugField::DuplicateOf => "dupe_of"@,
            BugField::Flags => "flags"@,
            BugField::Id => "id"@,
            BugField::Keywords => "keywords"@,
            BugField::Os => "op_sys"@,
            BugField::Platform => "platform"@,
            BugField::Priority => "priority"@,
            BugField::Product => "product"@,
            BugField::Qa => "qa_contact"@,
            BugField::Resolution => "resolution"@,
            BugField::SeeAlso => "see_also"@,
            BugField::Severity => "severity"@,
            BugField::Status => "status"@,
            BugField::Summary => "summary"@,
            BugField::Tags => "tags"@,
            BugField::Target => "target_milestone"@,
            BugField::Updated => "last_change_time"@,
            BugField::Url => "url"@,
            BugField::Version => "version"@,
            BugField::Whiteboard => "whiteboard"@,
        }
    }

    /// The first variant, in declaration order, with the given name.
    pub open spec fn spec_from_name(s: Seq<char>) -> Option<BugField> {
        if s == "alias"@ {
            Some(BugField::Alias)
        } else if s == "assignee"@ {
            Some(BugField::Assignee)
        } else if s == "blocks"@ {
            Some(BugField::Blocks)
        } else if s == "cc"@ {
            Some(BugField::Cc)
        } else if s == "component"@ {
            Some(BugField::Component)
        } else if s == "created"@ {
            Some(BugField::Created)
        } else if s == "creator"@ {
            Some(BugField::Creator)
        } else if s == "deadline"@ {
            Some(BugField::Deadline)
        } else if s == "depends"@ {
            Some(BugField::Depends)
        } else if s == "duplicate-of"@ {
            Some(BugField::DuplicateOf)
        } else if s == "flags"@ {
            Some(BugField::Flags)
        } else if s == "id"@ {
            Some(BugField::Id)
        } else if s == "keywords"@ {
            Some(BugField::Keywords)
        } else if s == "os"@ {
            Some(BugField::Os)
        } else if s == "platform"@ {
            Some(BugField::Platform)
        } else if s == "priority"@ {
            Some(BugField::Priority)
        } else if s == "product"@ {
            Some(BugField::Product)
        } else if s == "qa"@ {
            Some(BugField::Qa)
        } else if s == "resolution"@ {
            Some(BugField::Resolution)
        } else if s == "see-also"@ {
            Some(BugField::SeeAlso)
        } else if s == "severity"@ {
            Some(BugField::Severity)
        } else if s == "status"@ {
            Some(BugField::Status)
        } else if s == "summary"@ {
            Some(BugField::Summary)
        } else if s == "tags"@ {
            Some(BugField::Tags)
        } else if s == "target"@ {
            Some(BugField::Target)
        } else if s == "updated"@ {
            Some(BugField::Updated)
        } else if s == "url"@ {
            Some(BugField::Url)
        } else if s == "version"@ {
            Some(BugField::Version)
        } else if s == "whiteboard"@ {
            Some(BugField::Whiteboard)
        } else {
            None
        }
    }

    /// All variants, in declaration order.
    pub open spec fn spec_all() -> Seq<BugField> {
        seq![BugField::Alias, BugField::Assignee, BugField::Blocks, BugField::Cc, BugField::Component, BugField::Created, BugField::Creator, BugField::Deadline, BugField::Depends, BugField::DuplicateOf, BugField::Flags, BugField::Id, BugField::Keywords, BugField::Os, BugField::Platform, BugField::Priority, BugField::Product, BugField::Qa, BugField::Resolution, BugField::SeeAlso, BugField::Severity, BugField::Status, BugField::Summary, BugField::Tags, BugField::Target, BugField::Updated, BugField::Url, BugField::Version, BugField::Whiteboard]
    }

    /// Position of the variant in declaration order.
    pub open spec fn spec_index(self) -> nat {
        match self {
            BugField::Alias => 0,
            BugField::Assignee => 1,
            BugField::Blocks => 2,
            BugField::Cc => 3,
            BugField::Component => 4,
            BugField::Created => 5,
            BugField::Creator => 6,
            BugField::Deadline => 7,
            BugField::Depends => 8,
            BugField::DuplicateOf => 9,
            BugField::Flags => 10,
            BugField::Id => 11,
            BugField::Keywords => 12,
            BugField::Os => 13,
            BugField::Platform => 14,
            BugField::Priority => 15,
            BugField::Product => 16,
            BugField::Qa => 17,
            BugField::Resolution => 18,
            BugField::SeeAlso => 19,
            BugField::Severity => 20,
            BugField::Status => 21,
            BugField::Summary => 22,
            BugField::Tags => 23,
            BugField::Target => 24,
            BugField::Updated => 25,
            BugField::Url => 26,
            BugField::Version => 27,
            BugField::Whiteboard => 28,
        }
    }

    /// Position of the variant in declaration order.
    pub fn index(&self) -> (r: u64)
        ensures
            r == self.spec_index(),
    {
        match self {
            BugField::Alias => 0,
            BugField::Assignee => 1,
            BugField::Blocks => 2,
            BugField::Cc => 3,
            BugField::Component => 4,
            BugField::Created => 5,
            BugField::Creator => 6,
            BugField::Deadline => 7,
            BugField::Depends => 8,
            BugField::DuplicateOf => 9,
            BugField::Flags => 10,
            BugField::Id => 11,
            BugField::Keywords => 12,
            BugField::Os => 13,
            BugField::Platform => 14,
            BugField::Priority => 15,
            BugField::Product => 16,
            BugField::Qa => 17,
            BugField::Resolution => 18,
            BugField::SeeAlso => 19,
            BugField::Severity => 20,
            BugField::Status => 21,
            BugField::Summary => 22,
            BugField::Tags => 23,
            BugField::Target => 24,
            BugField::Updated => 25,
            BugField::Url => 26,
            BugField::Version => 27,
            BugField::Whiteboard => 28,
        }
    }

    /// The variant at a position of the declaration order.
    pub proof fn lemma_index(self)
        ensures
            self.spec_index() < Self::spec_all().len(),
            Self::spec_all()[self.spec_index() as int] == self,
    {
    }

    /// All variants, in declaration order.
    pub fn all() -> (r: Vec<BugField>)
        ensures
            r@ == Self::spec_all(),
    {
        let mut r = Vec::new();
        r.push(BugField::Alias);
        r.push(BugField::Assignee);
        r.push(BugField::Blocks);
        r.push(BugField::Cc);
        r.push(BugField::Component);
        r.push(BugField::Created);
        r.push(BugField::Creator);
        r.push(BugField::Deadline);
        r.push(BugField::Depends);
        r.push(BugField::DuplicateOf);
        r.push(BugField::Flags);
        r.push(BugField::Id);
        r.push(BugField::Keywords);
        r.push(BugField::Os);
        r.push(BugField::Platform);
        r.push(BugField::Priority);
        r.push(BugField::Product);
        r.push(BugField::Qa);
        r.push(BugField::Resolution);
        r.push(BugField::SeeAlso);
        r.push(BugField::Severity);
        r.push(BugField::Status);
        r.push(BugField::Summary);
        r.push(BugField::Tags);
        r.push(BugField::Target);
        r.push(BugField::Updated);
        r.push(BugField::Url);
        r.push(BugField::Version);
        r.push(BugField::Whiteboard);
        assert(r@ =~= Self::spec_all());
        r
    }
}

impl FromText for BugField {
    open spec fn text_ok(s: Seq<char>) -> bool {
        Self::spec_from_name(s) is Some
    }

    open spec fn text_value(s: Seq<char>, v: BugField) -> bool {
        Self::spec_from_name(s) == Some(v)
    }

    open spec fn text_error(s: Seq<char>) -> Seq<char> {
        "Matching variant not found"@
    }

    fn from_text(s: &str) -> (r: Result<BugField, String>) {
        if str_eq(s, "alias") {
            return Ok(BugField::Alias);
        }
        if str_eq(s, "assignee") {
            return Ok(BugField::Assignee);
        }
        if str_eq(s, "blocks") {
            return Ok(BugField::Blocks);
        }
        if str_eq(s, "cc") {
            return Ok(BugField::Cc);
        }
        if str_eq(s, "component") {
            return Ok(BugField::Component);
        }
        if str_eq(s, "created") {
            return Ok(BugField::Created);
        }
        if str_eq(s, "creator") {
            return Ok(BugField::Creator);
        }
        if str_eq(s, "deadline") {
            return Ok(BugField::Deadline);
        }
        if str_eq(s, "depends") {
            return Ok(BugField::Depends);
        }
        if str_eq(s, "duplicate-of") {
            return Ok(BugField::DuplicateOf);
        }
        if str_eq(s, "flags") {
            return Ok(BugField::Flags);
        }
        if str_eq(s, "id") {
            return Ok(BugField::Id);
        }
        if str_eq(s, "keywords") {
            return Ok(BugField::Keywords);
        }
        if str_eq(s, "os") {
            return Ok(BugField::Os);
        }
        if str_eq(s, "platform") {
            return Ok(BugField::Platform);
        }
        if str_eq(s, "priority") {
            return Ok(BugField::Priority);
        }
        if str_eq(s, "product") {
            return Ok(BugField::Product);
        }
        if str_eq(s, "qa") {
            return Ok(BugField::Qa);
        }
        if str_eq(s, "resolution") {
            return Ok(BugField::Resolution);
        }
        if str_eq(s, "see-also") {
            return Ok(BugField::SeeAlso);
        }
        if str_eq(s, "severity") {
            return Ok(BugField::Severity);
        }
        if str_eq(s, "status") {
            return Ok(BugField::Status);
        }
        if str_eq(s, "summary") {
            return Ok(BugField::Summary);
        }
        if str_eq(s, "tags") {
            return Ok(BugField::Tags);
        }
        if str_eq(s, "target") {
            return Ok(BugField::Target);
        }
        if str_eq(s, "updated") {
            return Ok(BugField::Updated);
        }
        if str_eq(s, "url") {
            return Ok(BugField::Url);
        }
        if str_eq(s, "version") {
            return Ok(BugField::Version);
        }
        if str_eq(s, "whiteboard") {
            return Ok(BugField::Whiteboard);
        }
        Err(owned("Matching variant not found"))
    }
}

impl BugField {
    /// The name of a variant parses back to that variant.
    pub proof fn lemma_text_roundtrip(self)
        ensures
            Self::text_ok(self.spec_text()),
            Self::text_value(self.spec_text(), self),
    {
        reveal_strlit("alias");
        reveal_strlit("assignee");
        reveal_strlit("blocks");
        reveal_strlit("cc");
        reveal_strlit("component");
        reveal_strlit("created");
        reveal_strlit("creator");
        reveal_strlit("deadline");
        reveal_strlit("depends");
        reveal_strlit("duplicate-of");
        reveal_strlit("flags");
        reveal_strlit("id");
        reveal_strlit("keywords");
        reveal_strlit("os");
        reveal_strlit("platform");
        reveal_strlit("priority");
        reveal_strlit("product");
        reveal_strlit("qa");
        reveal_strlit("resolution");
        reveal_strlit("see-also");
        reveal_strlit("severity");
        reveal_strlit("status");
        reveal_strlit("summary");
        reveal_strlit("tags");
        reveal_strlit("target");
        reveal_strlit("updated");
        reveal_strlit("url");
        reveal_strlit("version");
        reveal_strlit("whiteboard");
        match self {
            BugField::Alias => {},
            BugField::Assignee => {
                assert("assignee"@.len() != "alias"@.len());
            },
            BugField::Blocks => {
                assert("blocks"@.len() != "alias"@.len());
                assert("blocks"@.len() != "assignee"@.len());
            },
            BugField::Cc => {
                assert("cc"@.len() != "alias"@.len());
                assert("cc"@.len() != "assignee"@.len());
                assert("cc"@.len() != "blocks"@.len());
            },
            BugField::Component => {
                assert("component"@.len() != "alias"@.len());
                assert("component"@.len() != "assignee"@.len());
                assert("component"@.len() != "blocks"@.len());
                assert("component"@.len() != "cc"@.len());
            },
            BugField::Created => {
                assert("created"@.len() != "alias"@.len());
                assert("created"@.len() != "assignee"@.len());
                assert("created"@.len() != "blocks"@.len());
                assert("created"@.len() != "cc"@.len());
                assert("created"@.len() != "component"@.len());
            },
            BugField::Creator => {
                assert("creator"@.len() != "alias"@.len());
                assert("creator"@.len() != "assignee"@.len());
                assert("creator"@.len() != "blocks"@.len());
                assert("creator"@.len() != "cc"@.len());
                assert("creator"@.len() != "component"@.len());
                assert("creator"@[5] != "created"@[5]);
            },
            BugField::Deadline => {
                assert("deadline"@.len() != "alias"@.len());
                assert("deadline"@[0] != "assignee"@[0]);
                assert("deadline"@.len() != "blocks"@.len());
                assert("deadline"@.len() != "cc"@.len());
                assert("deadline"@.len() != "component"@.len());
                assert("deadline"@.len() != "created"@.len());
                assert("deadline"@.len() != "creator"@.len());
            },
            BugField::Depends => {
                assert("depends"@.len() != "alias"@.len());
                assert("depends"@.len() != "assignee"@.len());
                assert("depends"@.len() != "blocks"@.len());
                assert("depends"@.len() != "cc"@.len());
                assert("depends"@.len() != "component"@.len());
                assert("depends"@[0] != "created"@[0]);
                assert("depends"@[0] != "creator"@[0]);
                assert("depends"@.len() != "deadline"@.len());
            },
            BugField::DuplicateOf => {
                assert("duplicate-of"@.len() != "alias"@.len());
                assert("duplicate-of"@.len() != "assignee"@.len());
                assert("duplicate-of"@.len() != "blocks"@.len());
                assert("duplicate-of"@.len() != "cc"@.len());
                assert("duplicate-of"@.len() != "component"@.len());
                assert("duplicate-of"@.len() != "created"@.len());
                assert("duplicate-of"@.len() != "creator"@.len());
                assert("duplicate-of"@.len() != "deadline"@.len());
                assert("duplicate-of"@.len() != "depends"@.len());
            },
            BugField::Flags => {
                assert("flags"@[0] != "alias"@[0]);
                assert("flags"@.len() != "assignee"@.len());
                assert("flags"@.len() != "blocks"@.len());
                assert("flags"@.len() != "cc"@.len());
                assert("flags"@.len() != "component"@.len());
                assert("flags"@.len() != "created"@.len());
                assert("flags"@.len() != "creator"@.len());
                assert("flags"@.len() != "deadline"@.len());
                assert("flags"@.len() != "depends"@.len());
                assert("flags"@.len() != "duplicate-of"@.len());
            },
            BugField::Id => {
                assert("id"@.len() != "alias"@.len());
                assert("id"@.len() != "assignee"@.len());
                assert("id"@.len() != "blocks"@.len());
                assert("id"@[0] != "cc"@[0]);
                assert("id"@.len() != "component"@.len());
                assert("id"@.len() != "created"@.len());
                assert("id"@.len() != "creator"@.len());
                assert("id"@.len() != "deadline"@.len());
                assert("id"@.len() != "depends"@.len());
                assert("id"@.len() != "duplicate-of"@.len());
                assert("id"@.len() != "flags"@.len());
            },
            BugField::Keywords => {
                assert("keywords"@.len() != "alias"@.len());
                assert("keywords"@[0] != "assignee"@[0]);
                assert("keywords"@.len() != "blocks"@.len());
                assert("keywords"@.len() != "cc"@.len());
                assert("keywords"@.len() != "component"@.len());
                assert("keywords"@.len() != "created"@.len());
                assert("keywords"@.len() != "creator"@.len());
                assert("keywords"@[0] != "deadline"@[0]);
                assert("keywords"@.len() != "depends"@.len());
                assert("keywords"@.len() != "duplicate-of"@.len());
                assert("keywords"@.len() != "flags"@.len());
                assert("keywords"@.len() != "id"@.len());
            },
            BugField::Os => {
                assert("os"@.len() != "alias"@.len());
                assert("os"@.len() != "assignee"@.len());
                assert("os"@.len() != "blocks"@.len());
                assert("os"@[0] != "cc"@[0]);
                assert("os"@.len() != "component"@.len());
                assert("os"@.len() != "created"@.len());
                assert("os"@.len() != "creator"@.len());
                assert("os"@.len() != "deadline"@.len());
                assert("os"@.len() != "depends"@.len());
                assert("os"@.len() != "duplicate-of"@.len());
                assert("os"@.len() != "flags"@.len());
                assert("os"@[0] != "id"@[0]);
                assert("os"@.len() != "keywords"@.len());
            },
            BugField::Platform => {
                assert("platform"@.len() != "alias"@.len());
                assert("platform"@[0] != "assignee"@[0]);
                assert("platform"@.len() != "blocks"@.len());
                assert("platform"@.len() != "cc"@.len());
                assert("platform"@.len() != "component"@.len());
                assert("platform"@.len() != "created"@.len());
                assert("platform"@.len() != "creator"@.len());
                assert("platform"@[0] != "deadline"@[0]);
                assert("platform"@.len() != "depends"@.len());
                assert("platform"@.len() != "duplicate-of"@.len());
                assert("platform"@.len() != "flags"@.len());
                assert("platform"@.len() != "id"@.len());
                assert("platform"@[0] != "keywords"@[0]);
                assert("platform"@.len() != "os"@.len());
            },
            BugField::Priority => {
                assert("priority"@.len() != "alias"@.len());
                assert("priority"@[0] != "assignee"@[0]);
                assert("priority"@.len() != "blocks"@.len());
                assert("priority"@.len() != "cc"@.len());
                assert("priority"@.len() != "component"@.len());
                assert("priority"@.len() != "created"@.len());
                assert("priority"@.len() != "creator"@.len());
                assert("priority"@[0] != "deadline"@[0]);
                assert("priority"@.len() != "depends"@.len());
                assert("priority"@.len() != "duplicate-of"@.len());
                assert("priority"@.len() != "flags"@.len());
                assert("priority"@.len() != "id"@.len());
                assert("priority"@[0] != "keywords"@[0]);
                assert("priority"@.len() != "os"@.len());
                assert("priority"@[1] != "platform"@[1]);
            },
            BugField::Product => {
                assert("product"@.len() != "alias"@.len());
                assert("product"@.len() != "assignee"@.len());
                assert("product"@.len() != "blocks"@.len());
                assert("product"@.len() != "cc"@.len());
                assert("product"@.len() != "component"@.len());
                assert("product"@[0] != "created"@[0]);
                assert("product"@[0] != "creator"@[0]);
                assert("product"@.len() != "deadline"@.len());
                assert("product"@[0] != "depends"@[0]);
                assert("product"@.len() != "duplicate-of"@.len());
                assert("product"@.len() != "flags"@.len());
                assert("product"@.len() != "id"@.len());
                assert("product"@.len() != "keywords"@.len());
                assert("product"@.len() != "os"@.len());
                assert("product"@.len() != "platform"@.len());
                assert("product"@.len() != "priority"@.len());
            },
            BugField::Qa => {
                assert("qa"@.len() != "alias"@.len());
                assert("qa"@.len() != "assignee"@.len());
                assert("qa"@.len() != "blocks"@.len());
                assert("qa"@[0] != "cc"@[0]);
                assert("qa"@.len() != "component"@.len());
                assert("qa"@.len() != "created"@.len());
                assert("qa"@.len() != "creator"@.len());
                assert("qa"@.len() != "deadline"@.len());
                assert("qa"@.len() != "depends"@.len());
                assert("qa"@.len() != "duplicate-of"@.len());
                assert("qa"@.len() != "flags"@.len());
                assert("qa"@[0] != "id"@[0]);
                assert("qa"@.len() != "keywords"@.len());
                assert("qa"@[0] != "os"@[0]);
                assert("qa"@.len() != "platform"@.len());
                assert("qa"@.len() != "priority"@.len());
                assert("qa"@.len() != "product"@.len());
            },
            BugField::Resolution => {
                assert("resolution"@.len() != "alias"@.len());
                assert("resolution"@.len() != "assignee"@.len());
                assert("resolution"@.len() != "blocks"@.len());
                assert("resolution"@.len() != "cc"@.len());
                assert("resolution"@.len() != "component"@.len());
                assert("resolution"@.len() != "created"@.len());
                assert("resolution"@.len() != "creator"@.len());
                assert("resolution"@.len() != "deadline"@.len());
                assert("resolution"@.len() != "depends"@.len());
                assert("resolution"@.len() != "duplicate-of"@.len());
                assert("resolution"@.len() != "flags"@.len());
                assert("resolution"@.len() != "id"@.len());
                assert("resolution"@.len() != "keywords"@.len());
                assert("resolution"@.len() != "os"@.len());
                assert("resolution"@.len() != "platform"@.len());
                assert("resolution"@.len() != "priority"@.len());
                assert("resolution"@.len() != "product"@.len());
                assert("resolution"@.len() != "qa"@.len());
            },
            BugField::SeeAlso => {
                assert("see-also"@.len() != "alias"@.len());
                assert("see-also"@[0] != "assignee"@[0]);
                assert("see-also"@.len() != "blocks"@.len());
                assert("see-also"@.len() != "cc"@.len());
                assert("see-also"@.len() != "component"@.len());
                assert("see-also"@.len() != "created"@.len());
                assert("see-also"@.len() != "creator"@.len());
                assert("see-also"@[0] != "deadline"@[0]);
                assert("see-also"@.len() != "depends"@.len());
                assert("see-also"@.len() != "duplicate-of"@.len());
                assert("see-also"@.len() != "flags"@.len());
                assert("see-also"@.len() != "id"@.len());
                assert("see-also"@[0] != "keywords"@[0]);
                assert("see-also"@.len() != "os"@.len());
                assert("see-also"@[0] != "platform"@[0]);
                assert("see-also"@[0] != "priority"@[0]);
                assert("see-also"@.len() != "product"@.len());
                assert("see-also"@.len() != "qa"@.len());
                assert("see-also"@.len() != "resolution"@.len());
            },
            BugField::Severity => {
                assert("severity"@.len() != "alias"@.len());
                assert("severity"@[0] != "assignee"@[0]);
                assert("severity"@.len() != "blocks"@.len());
                assert("severity"@.len() != "cc"@.len());
                assert("severity"@.len() != "component"@.len());
                assert("severity"@.len() != "created"@.len());
                assert("severity"@.len() != "creator"@.len());
                assert("severity"@[0] != "deadline"@[0]);
                assert("severity"@.len() != "depends"@.len());
                assert("severity"@.len() != "duplicate-of"@.len());
                assert("severity"@.len() != "flags"@.len());
                assert("severity"@.len() != "id"@.len());
                assert("severity"@[0] != "keywords"@[0]);
                assert("severity"@.len() != "os"@.len());
                assert("severity"@[0] != "platform"@[0]);
                assert("severity"@[0] != "priority"@[0]);
                assert("severity"@.len() != "product"@.len());
                assert("severity"@.len() != "qa"@.len());
                assert("severity"@.len() != "resolution"@.len());
                assert("severity"@[2] != "see-also"@[2]);
            },
            BugField::Status => {
                assert("status"@.len() != "alias"@.len());
                assert("status"@.len() != "assignee"@.len());
                assert("status"@[0] != "blocks"@[0]);
                assert("status"@.len() != "cc"@.len());
                assert("status"@.len() != "component"@.len());
                assert("status"@.len() != "created"@.len());
                assert("status"@.len() != "creator"@.len());
                assert("status"@.len() != "deadline"@.len());
                assert("status"@.len() != "depends"@.len());
                assert("status"@.len() != "duplicate-of"@.len());
                assert("status"@.len() != "flags"@.len());
                assert("status"@.len() != "id"@.len());
                assert("status"@.len() != "keywords"@.len());
                assert("status"@.len() != "os"@.len());
                assert("status"@.len() != "platform"@.len());
                assert("status"@.len() != "priority"@.len());
                assert("status"@.len() != "product"@.len());
                assert("status"@.len() != "qa"@.len());
                assert("status"@.len() != "resolution"@.len());
                assert("status"@.len() != "see-also"@.len());
                assert("status"@.len() != "severity"@.len());
            },
            BugField::Summary => {
                assert("summary"@.len() != "alias"@.len());
                assert("summary"@.len() != "assignee"@.len());
                assert("summary"@.len() != "blocks"@.len());
                assert("summary"@.len() != "cc"@.len());
                assert("summary"@.len() != "component"@.len());
                assert("summary"@[0] != "created"@[0]);
                assert("summary"@[0] != "creator"@[0]);
                assert("summary"@.len() != "deadline"@.len());
                assert("summary"@[0] != "depends"@[0]);
                assert("summary"@.len() != "duplicate-of"@.len());
                assert("summary"@.len() != "flags"@.len());
                assert("summary"@.len() != "id"@.len());
                assert("summary"@.len() != "keywords"@.len());
                assert("summary"@.len() != "os"@.len());
                assert("summary"@.len() != "platform"@.len());
                assert("summary"@.len() != "priority"@.len());
                assert("summary"@[0] != "product"@[0]);
                assert("summary"@.len() != "qa"@.len());
                assert("summary"@.len() != "resolution"@.len());
                assert("summary"@.len() != "see-also"@.len());
                assert("summary"@.len() != "severity"@.len());
                assert("summary"@.len() != "status"@.len());
            },
            BugField::Tags => {
                assert("tags"@.len() != "alias"@.len());
                assert("tags"@.len() != "assignee"@.len());
                assert("tags"@.len() != "blocks"@.len());
                assert("tags"@.len() != "cc"@.len());
                assert("tags"@.len() != "component"@.len());
                assert("tags"@.len() != "created"@.len());
                assert("tags"@.len() != "creator"@.len());
                assert("tags"@.len() != "deadline"@.len());
                assert("tags"@.len() != "depends"@.len());
                assert("tags"@.len() != "duplicate-of"@.len());
                assert("tags"@.len() != "flags"@.len());
                assert("tags"@.len() != "id"@.len());
                assert("tags"@.len() != "keywords"@.len());
                assert("tags"@.len() != "os"@.len());
                assert("tags"@.len() != "platform"@.len());
                assert("tags"@.len() != "priority"@.len());
                assert("tags"@.len() != "product"@.len());
                assert("tags"@.len() != "qa"@.len());
                assert("tags"@.len() != "resolution"@.len());
                assert("tags"@.len() != "see-also"@.len());
                assert("tags"@.len() != "severity"@.len());
                assert("tags"@.len() != "status"@.len());
                assert("tags"@.len() != "summary"@.len());
            },
            BugField::Target => {
                assert("target"@.len() != "alias"@.len());
                assert("target"@.len() != "assignee"@.len());
                assert("target"@[0] != "blocks"@[0]);
                assert("target"@.len() != "cc"@.len());
                assert("target"@.len() != "component"@.len());
                assert("target"@.len() != "created"@.len());
                assert("target"@.len() != "creator"@.len());
                assert("target"@.len() != "deadline"@.len());
                assert("target"@.len() != "depends"@.len());
                assert("target"@.len() != "duplicate-of"@.len());
                assert("target"@.len() != "flags"@.len());
                assert("target"@.len() != "id"@.len());
                assert("target"@.len() != "keywords"@.len());
                assert("target"@.len() != "os"@.len());
                assert("target"@.len() != "platform"@.len());
                assert("target"@.len() != "priority"@.len());
                assert("target"@.len() != "product"@.len());
                assert("target"@.len() != "qa"@.len());
                assert("target"@.len() != "resolution"@.len());
                assert("target"@.len() != "see-also"@.len());
                assert("target"@.len() != "severity"@.len());
                assert("target"@[0] != "status"@[0]);
                assert("target"@.len() != "summary"@.len());
                assert("target"@.len() != "tags"@.len());
            },
            BugField::Updated => {
                assert("updated"@.len() != "alias"@.len());
                assert("updated"@.len() != "assignee"@.len());
                assert("updated"@.len() != "blocks"@.len());
                assert("updated"@.len() != "cc"@.len());
                assert("updated"@.len() != "component"@.len());
                assert("updated"@[0] != "created"@[0]);
                assert("updated"@[0] != "creator"@[0]);
                assert("updated"@.len() != "deadline"@.len());
                assert("updated"@[0] != "depends"@[0]);
                assert("updated"@.len() != "duplicate-of"@.len());
                assert("updated"@.len() != "flags"@.len());
                assert("updated"@.len() != "id"@.len());
                assert("updated"@.len() != "keywords"@.len());
                assert("updated"@.len() != "os"@.len());
                assert("updated"@.len() != "platform"@.len());
                assert("updated"@.len() != "priority"@.len());
                assert("updated"@[0] != "product"@[0]);
                assert("updated"@.len() != "qa"@.len());
                assert("updated"@.len() != "resolution"@.len());
                assert("updated"@.len() != "see-also"@.len());
                assert("updated"@.len() != "severity"@.len());
                assert("updated"@.len() != "status"@.len());
                assert("updated"@[0] != "summary"@[0]);
                assert("updated"@.len() != "tags"@.len());
                assert("updated"@.len() != "target"@.len());
            },
            BugField::Url => {
                assert("url"@.len() != "alias"@.len());
                assert("url"@.len() != "assignee"@.len());
                assert("url"@.len() != "blocks"@.len());
                assert("url"@.len() != "cc"@.len());
                assert("url"@.len() != "component"@.len());
                assert("url"@.len() != "created"@.len());
                assert("url"@.len() != "creator"@.len());
                assert("url"@.len() != "deadline"@.len());
                assert("url"@.len() != "depends"@.len());
                assert("url"@.len() != "duplicate-of"@.len());
                assert("url"@.len() != "flags"@.len());
                assert("url"@.len() != "id"@.len());
                assert("url"@.len() != "keywords"@.len());
                assert("url"@.len() != "os"@.len());
                assert("url"@.len() != "platform"@.len());
                assert("url"@.len() != "priority"@.len());
                assert("url"@.len() != "product"@.len());
                assert("url"@.len() != "qa"@.len());
                assert("url"@.len() != "resolution"@.len());
                assert("url"@.len() != "see-also"@.len());
                assert("url"@.len() != "severity"@.len());
                assert("url"@.len() != "status"@.len());
                assert("url"@.len() != "summary"@.len());
                assert("url"@.len() != "tags"@.len());
                assert("url"@.len() != "target"@.len());
                assert("url"@.len() != "updated"@.len());
            },
            BugField::Version => {
                assert("version"@.len() != "alias"@.len());
                assert("version"@.len() != "assignee"@.len());
                assert("version"@.len() != "blocks"@.len());
                assert("version"@.len() != "cc"@.len());
                assert("version"@.len() != "component"@.len());
                assert("version"@[0] != "created"@[0]);
                assert("version"@[0] != "creator"@[0]);
                assert("version"@.len() != "deadline"@.len());
                assert("version"@[0] != "depends"@[0]);
                assert("version"@.len() != "duplicate-of"@.len());
                assert("version"@.len() != "flags"@.len());
                assert("version"@.len() != "id"@.len());
                assert("version"@.len() != "keywords"@.len());
                assert("version"@.len() != "os"@.len());
                assert("version"@.len() != "platform"@.len());
                assert("version"@.len() != "priority"@.len());
                assert("version"@[0] != "product"@[0]);
                assert("version"@.len() != "qa"@.len());
                assert("version"@.len() != "resolution"@.len());
                assert("version"@.len() != "see-also"@.len());
                assert("version"@.len() != "severity"@.len());
                assert("version"@.len() != "status"@.len());
                assert("version"@[0] != "summary"@[0]);
                assert("version"@.len() != "tags"@.len());
                assert("version"@.len() != "target"@.len());
                assert("version"@[0] != "updated"@[0]);
                assert("version"@.len() != "url"@.len());
            },
            BugField::Whiteboard => {
                assert("whiteboard"@.len() != "alias"@.len());
                assert("whiteboard"@.len() != "assignee"@.len());
                assert("whiteboard"@.len() != "blocks"@.len());
                assert("whiteboard"@.len() != "cc"@.len());
                assert("whiteboard"@.len() != "component"@.len());
                assert("whiteboard"@.len() != "created"@.len());
                assert("whiteboard"@.len() != "creator"@.len());
                assert("whiteboard"@.len() != "deadline"@.len());
                assert("whiteboard"@.len() != "depends"@.len());
                assert("whiteboard"@.len() != "duplicate-of"@.len());
                assert("whiteboard"@.len() != "flags"@.len());
                assert("whiteboard"@.len() != "id"@.len());
                assert("whiteboard"@.len() != "keywords"@.len());
                assert("whiteboard"@.len() != "os"@.len());
                assert("whiteboard"@.len() != "platform"@.len());
                assert("whiteboard"@.len() != "priority"@.len());
                assert("whiteboard"@.len() != "product"@.len());
                assert("whiteboard"@.len() != "qa"@.len());
                assert("whiteboard"@[0] != "resolution"@[0]);
                assert("whiteboard"@.len() != "see-also"@.len());
                assert("whiteboard"@.len() != "severity"@.len());
                assert("whiteboard"@.len() != "status"@.len());
                assert("whiteboard"@.len() != "summary"@.len());
                assert("whiteboard"@.len() != "tags"@.len());
                assert("whiteboard"@.len() != "target"@.len());
                assert("whiteboard"@.len() != "updated"@.len());
                assert("whiteboard"@.len() != "url"@.len());
                assert("whiteboard"@.len() != "version"@.len());
            },
        }
    }
}

impl ToText for BugField {
    open spec fn spec_text(&self) -> Seq<char> {
        self.spec_name()
    }

    fn to_text(&self) -> (s: String) {
        match self {
            BugField::Alias => owned("alias"),
            BugField::Assignee => owned("assignee"),
            BugField::Blocks => owned("blocks"),
            BugField::Cc => owned("cc"),
            BugField::Component => owned("component"),
            BugField::Created => owned("created"),
            BugField::Creator => owned("creator"),
            BugField::Deadline => owned("deadline"),
            BugField::Depends => owned("depends"),
            BugField::DuplicateOf => owned("duplicate-of"),
            BugField::Flags => owned("flags"),
            BugField::Id => owned("id"),
            BugField::Keywords => owned("keywords"),
            BugField::Os => owned("os"),
            BugField::Platform => owned("platform"),
            BugField::Priority => owned("priority"),
            BugField::Product => owned("product"),
            BugField::Qa => owned("qa"),
            BugField::Resolution => owned("resolution"),
            BugField::SeeAlso => owned("see-also"),
            BugField::Severity => owned("severity"),
            BugField::Status => owned("status"),
            BugField::Summary => owned("summary"),
            BugField::Tags => owned("tags"),
            BugField::Target => owned("target"),
            BugField::Updated => owned("updated"),
            BugField::Url => owned("url"),
            BugField::Version => owned("version"),
            BugField::Whiteboard => owned("whiteboard"),
        }
    }
}

impl Api for BugField {
    open spec fn spec_api(&self) -> Seq<char> {
        self.spec_api_name()
    }

    fn api(&self) -> (s: String) {
        match self {
            BugField::Alias => owned("alias"),
            BugField::Assignee => owned("assigned_to"),
            BugField::Blocks => owned("blocks"),
            BugField::Cc => owned("cc"),
            BugField::Component => owned("component"),
            BugField::Created => owned("creation_time"),
            BugField::Creator => owned("creator"),
            BugField::Deadline => owned("deadline"),
            BugField::Depends => owned("depends_on"),
            BugField::DuplicateOf => owned("dupe_of"),
            BugField::Flags => owned("flags"),
            BugField::Id => owned("id"),
            BugField::Keywords => owned("keywords"),
            BugField::Os => owned("op_sys"),
            BugField::Platform => owned("platform"),
            BugField::Priority => owned("priority"),
            BugField::Product => owned("product"),
            BugField::Qa => owned("qa_contact"),
            BugField::Resolution => owned("resolution"),
            BugField::SeeAlso => owned("see_also"),
            BugField::Severity => owned("severity"),
            BugField::Status => owned("status"),
            BugField::Summary => owned("summary"),
            BugField::Tags => owned("tags"),
            BugField::Target => owned("target_milestone"),
            BugField::Updated => owned("last_change_time"),
            BugField::Url => owned("url"),
            BugField::Version => owned("version"),
            BugField::Whiteboard => owned("whiteboard"),
        }
    }
}

/// Fields a search can return: a single bug field or a group of them.
#[derive(Debug, PartialEq, Eq, Structural, Clone, Copy)]
pub enum FilterField {
    Bug(BugField),
    Group(GroupField),
}

impl FilterField {
    /// All filter fields: the bug fields, then the groups.
    pub open spec fn spec_all() -> Seq<FilterField> {
        BugField::spec_all().map_values(|f: BugField| FilterField::Bug(f)) + GroupField::spec_all().map_values(
            |g: GroupField| FilterField::Group(g),
        )
    }

    /// All filter fields: the bug fields, then the groups.
    pub fn iter() -> (r: Vec<FilterField>)
        ensures
            r@ == Self::spec_all(),
    {
        let bugs = BugField::all();
        let groups = GroupField::all();
        let mut r: Vec<FilterField> = Vec::new();
        let mut i: usize = 0;
        while i < bugs.len()
            invariant
                bugs@ == BugField::spec_all(),
                i <= bugs@.len(),
                r@ == bugs@.subrange(0, i as int).map_values(|f: BugField| FilterField::Bug(f)),
            decreases bugs.len() - i,
        {
            r.push(FilterField::Bug(bugs[i]));
            assert(bugs@.subrange(0, i + 1) =~= bugs@.subrange(0, i as int).push(bugs@[i as int]));
            i = i + 1;
        }
        assert(bugs@.subrange(0, bugs@.len() as int) =~= bugs@);
        let ghost first = r@;
        let mut j: usize = 0;
        while j < groups.len()
            invariant
                groups@ == GroupField::spec_all(),
                j <= groups@.len(),
                r@ == first + groups@.subrange(0, j as int).map_values(|g: GroupField| FilterField::Group(g)),
            decreases groups.len() - j,
        {
            r.push(FilterField::Group(groups[j]));
            assert(groups@.subrange(0, j + 1) =~= groups@.subrange(0, j as int).push(groups@[j as int]));
            j = j + 1;
        }
        assert(groups@.subrange(0, groups@.len() as int) =~= groups@);
        assert(r@ =~= Self::spec_all());
        r
    }
}

impl FilterField {
    /// Position of the field in the order of `spec_all`.
    pub open spec fn spec_code(self) -> nat {
        match self {
            FilterField::Bug(f) => f.spec_index(),
            FilterField::Group(g) => 29 + g.spec_index(),
        }
    }

    /// Position of the field in the order of `iter`.
    pub fn code(&self) -> (r: u64)
        ensures
            r == self.spec_code(),
    {
        match self {
            FilterField::Bug(f) => f.index(),
            FilterField::Group(g) => 29 + g.index(),
        }
    }

    /// The field at its position in the order of `spec_all`.
    pub proof fn lemma_code(self)
        ensures
            self.spec_code() < Self::spec_all().len(),
            Self::spec_all()[self.spec_code() as int] == self,
    {
        let bugs = BugField::spec_all().map_values(|f: BugField| FilterField::Bug(f));
        let groups = GroupField::spec_all().map_values(|g: GroupField| FilterField::Group(g));
        assert(bugs.len() == 29);
        match self {
            FilterField::Bug(f) => {
                f.lemma_index();
                assert(Self::spec_all()[self.spec_code() as int] == bugs[f.spec_index() as int]);
            },
            FilterField::Group(g) => {
                g.lemma_index();
                assert(Self::spec_all()[self.spec_code() as int] == groups[g.spec_index() as int]);
            },
        }
    }
}

impl FromText for FilterField {
    open spec fn text_ok(s: Seq<char>) -> bool {
        BugField::text_ok(s) || GroupField::text_ok(s)
    }

    open spec fn text_value(s: Seq<char>, v: FilterField) -> bool {
        if BugField::text_ok(s) {
            v matches FilterField::Bug(f) && BugField::text_value(s, f)
        } else {
            v matches FilterField::Group(g) && GroupField::text_value(s, g)
        }
    }

    open spec fn text_error(s: Seq<char>) -> Seq<char> {
        "invalid filter field: "@ + s
    }

    fn from_text(s: &str) -> (r: Result<FilterField, String>) {
        if let Ok(f) = BugField::from_text(s) {
            Ok(FilterField::Bug(f))
        } else if let Ok(g) = GroupField::from_text(s) {
            Ok(FilterField::Group(g))
        } else {
            Err(concat("invalid filter field: ", s))
        }
    }
}

impl ToText for FilterField {
    open spec fn spec_text(&self) -> Seq<char> {
        match self {
            FilterField::Bug(f) => f.spec_name(),
            FilterField::Group(g) => g.spec_name(),
        }
    }

    fn to_text(&self) -> (s: String) {
        match self {
            FilterField::Bug(f) => f.to_text(),
            FilterField::Group(g) => g.to_text(),
        }
    }
}

/// No group name is also the name of a bug field.
proof fn lemma_group_name_not_bug_field(g: GroupField)
    ensures
        BugField::spec_from_name(g.spec_name()) is None,
{
    reveal_strlit("alias");
    reveal_strlit("assignee");
    reveal_strlit("blocks");
    reveal_strlit("cc");
    reveal_strlit("component");
    reveal_strlit("created");
    reveal_strlit("creator");
    reveal_strlit("deadline");
    reveal_strlit("depends");
    reveal_strlit("duplicate-of");
    reveal_strlit("flags");
    reveal_strlit("id");
    reveal_strlit("keywords");
    reveal_strlit("os");
    reveal_strlit("platform");
    reveal_strlit("priority");
    reveal_strlit("product");
    reveal_strlit("qa");
    reveal_strlit("resolution");
    reveal_strlit("see-also");
    reveal_strlit("severity");
    reveal_strlit("status");
    reveal_strlit("summary");
    reveal_strlit("tags");
    reveal_strlit("target");
    reveal_strlit("updated");
    reveal_strlit("url");
    reveal_strlit("version");
    reveal_strlit("whiteboard");
    reveal_strlit("all");
    reveal_strlit("default");
    reveal_strlit("extra");
    reveal_strlit("custom");
    match g {
        GroupField::All => {
            assert("all"@.len() != "alias"@.len());
            assert("all"@.len() != "assignee"@.len());
            assert("all"@.len() != "blocks"@.len());
            assert("all"@.len() != "cc"@.len());
            assert("all"@.len() != "component"@.len());
            assert("all"@.len() != "created"@.len());
            assert("all"@.len() != "creator"@.len());
            assert("all"@.len() != "deadline"@.len());
            assert("all"@.len() != "depends"@.len());
            assert("all"@.len() != "duplicate-of"@.len());
            assert("all"@.len() != "flags"@.len());
            assert("all"@.len() != "id"@.len());
            assert("all"@.len() != "keywords"@.len());
            assert("all"@.len() != "os"@.len());
            assert("all"@.len() != "platform"@.len());
            assert("all"@.len() != "priority"@.len());
            assert("all"@.len() != "product"@.len());
            assert("all"@.len() != "qa"@.len());
            assert("all"@.len() != "resolution"@.len());
            assert("all"@.len() != "see-also"@.len());
            assert("all"@.len() != "severity"@.len());
            assert("all"@.len() != "status"@.len());
            assert("all"@.len() != "summary"@.len());
            assert("all"@.len() != "tags"@.len());
            assert("all"@.len() != "target"@.len());
            assert("all"@.len() != "updated"@.len());
            assert("all"@[0] != "url"@[0]);
            assert("all"@.len() != "version"@.len());
            assert("all"@.len() != "whiteboard"@.len());
        },
        GroupField::Default => {
            assert("default"@.len() != "alias"@.len());
            assert("default"@.len() != "assignee"@.len());
            assert("default"@.len() != "blocks"@.len());
            assert("default"@.len() != "cc"@.len());
            assert("default"@.len() != "component"@.len());
            assert("default"@[0] != "created"@[0]);
            assert("default"@[0] != "creator"@[0]);
            assert("default"@.len() != "deadline"@.len());
            assert("default"@[2] != "depends"@[2]);
            assert("default"@.len() != "duplicate-of"@.len());
            assert("default"@.len() != "flags"@.len());
            assert("default"@.len() != "id"@.len());
            assert("default"@.len() != "keywords"@.len());
            assert("default"@.len() != "os"@.len());
            assert("default"@.len() != "platform"@.len());
            assert("default"@.len() != "priority"@.len());
            assert("default"@[0] != "product"@[0]);
            assert("default"@.len() != "qa"@.len());
            assert("default"@.len() != "resolution"@.len());
            assert("default"@.len() != "see-also"@.len());
            assert("default"@.len() != "severity"@.len());
            assert("default"@.len() != "status"@.len());
            assert("default"@[0] != "summary"@[0]);
            assert("default"@.len() != "tags"@.len());
            assert("default"@.len() != "target"@.len());
            assert("default"@[0] != "updated"@[0]);
            assert("default"@.len() != "url"@.len());
            assert("default"@[0] != "version"@[0]);
            assert("default"@.len() != "whiteboard"@.len());
        },
        GroupField::Extra => {
            assert("extra"@[0] != "alias"@[0]);
            assert("extra"@.len() != "assignee"@.len());
            assert("extra"@.len() != "blocks"@.len());
            assert("extra"@.len() != "cc"@.len());
            assert("extra"@.len() != "component"@.len());
            assert("extra"@.len() != "created"@.len());
            assert("extra"@.len() != "creator"@.len());
            assert("extra"@.len() != "deadline"@.len());
            assert("extra"@.len() != "depends"@.len());
            assert("extra"@.len() != "duplicate-of"@.len());
            assert("extra"@[0] != "flags"@[0]);
            assert("extra"@.len() != "id"@.len());
            assert("extra"@.len() != "keywords"@.len());
            assert("extra"@.len() != "os"@.len());
            assert("extra"@.len() != "platform"@.len());
            assert("extra"@.len() != "priority"@.len());
            assert("extra"@.len() != "product"@.len());
            assert("extra"@.len() != "qa"@.len());
            assert("extra"@.len() != "resolution"@.len());
            assert("extra"@.len() != "see-also"@.len());
            assert("extra"@.len() != "severity"@.len());
            assert("extra"@.len() != "status"@.len());
            assert("extra"@.len() != "summary"@.len());
            assert("extra"@.len() != "tags"@.len());
            assert("extra"@.len() != "target"@.len());
            assert("extra"@.len() != "updated"@.len());
            assert("extra"@.len() != "url"@.len());
            assert("extra"@.len() != "version"@.len());
            assert("extra"@.len() != "whiteboard"@.len());
        },
        GroupField::Custom => {
            assert("custom"@.len() != "alias"@.len());
            assert("custom"@.len() != "assignee"@.len());
            assert("custom"@[0] != "blocks"@[0]);
            assert("custom"@.len() != "cc"@.len());
            assert("custom"@.len() != "component"@.len());
            assert("custom"@.len() != "created"@.len());
            assert("custom"@.len() != "creator"@.len());
            assert("custom"@.len() != "deadline"@.len());
            assert("custom"@.len() != "depends"@.len());
            assert("custom"@.len() != "duplicate-of"@.len());
            assert("custom"@.len() != "flags"@.len());
            assert("custom"@.len() != "id"@.len());
            assert("custom"@.len() != "keywords"@.len());
            assert("custom"@.len() != "os"@.len());
            assert("custom"@.len() != "platform"@.len());
            assert("custom"@.len() != "priority"@.len());
            assert("custom"@.len() != "product"@.len());
            assert("custom"@.len() != "qa"@.len());
            assert("custom"@.len() != "resolution"@.len());
            assert("custom"@.len() != "see-also"@.len());
            assert("custom"@.len() != "severity"@.len());
            assert("custom"@[0] != "status"@[0]);
            assert("custom"@.len() != "summary"@.len());
            assert("custom"@.len() != "tags"@.len());
            assert("custom"@[0] != "target"@[0]);
            assert("custom"@.len() != "updated"@.len());
            assert("custom"@.len() != "url"@.len());
            assert("custom"@.len() != "version"@.len());
            assert("custom"@.len() != "whiteboard"@.len());
        },
    }
}

impl FilterField {
    /// Parses a filter field from the name of a bug field or of a group of them.
    pub fn from_str(s: &str) -> (r: Result<FilterField, Error>)
        ensures
            r is Ok <==> Self::text_ok(s@),
            r matches Ok(v) ==> Self::text_value(s@, v),
            r matches Err(e) ==> e.is_invalid_value("invalid filter field: "@ + s@),
    {
        match Self::from_text(s) {
            Ok(v) => Ok(v),
            Err(m) => Err(Error::InvalidValue(m)),
        }
    }

    /// The name of a filter field parses back to that field and to no other, so `from_str`
    /// of the text of a filter field gives that field back.
    pub proof fn lemma_text_roundtrip(self)
        ensures
            Self::text_ok(self.spec_text()),
            Self::text_value(self.spec_text(), self),
            forall|v: FilterField| Self::text_value(self.spec_text(), v) ==> v == self,
    {
        match self {
            FilterField::Bug(f) => f.lemma_text_roundtrip(),
            FilterField::Group(g) => {
                g.lemma_text_roundtrip();
                lemma_group_name_not_bug_field(g);
            },
        }
    }
}

impl FilterField {
    /// Name of the field in the service API.
    pub open spec fn spec_api_name(self) -> Seq<char> {
        match self {
            FilterField::Bug(f) => f.spec_api_name(),
            FilterField::Group(g) => g.spec_api_name(),
        }
    }
}

impl FilterField {
    /// Name of the field in the service API.
    pub fn api_name(&self) -> (s: String)
        ensures
            s@ == self.spec_api_name(),
    {
        match self {
            FilterField::Bug(f) => f.api(),
            FilterField::Group(g) => g.api(),
        }
    }
}

impl Api for FilterField {
    open spec fn spec_api(&self) -> Seq<char> {
        self.spec_api_name()
    }

    fn api(&self) -> (s: String) {
        match self {
            FilterField::Bug(f) => f.api(),
            FilterField::Group(g) => g.api(),
        }
    }
}

/// Bugzilla authentication information.
#[derive(Debug)]
pub struct Authentication {
    /// API key
    pub key: Option<String>,
    pub user: Option<String>,
    pub password: Option<String>,
}

/// Return the default size of bugzilla's max search results.
pub fn default_max_search_results() -> (r: usize)
    ensures
        r == 10000,
{
    10000
}

/// Bugzilla service config.
#[derive(Debug)]
pub struct Config {
    /// Serialized base URL of the service.
    pub base: String,
    pub name: String,
    pub auth: Authentication,
    pub client: ClientParameters,
    /// Maximum number of results that can be returned by a search request.
    pub max_search_results: usize,
}

/// Message for a base URL that fails to parse.
pub open spec fn invalid_base_message(base: Seq<char>, e: Seq<char>) -> Seq<char> {
    "invalid URL: "@ + base + ": "@ + e
}

impl Config {
    /// Serialized base URL of the service.
    pub open spec fn spec_base(&self) -> Seq<char> {
        self.base@
    }

    /// Serialized base URL of the service.
    pub fn base(&self) -> (r: &str)
        ensures
            r@ == self.spec_base(),
    {
        self.base.as_str()
    }

    /// Builds a config from a base URL with trailing slashes removed and the outcome of
    /// parsing it with one slash appended.
    pub fn from_parsed(base: &str, parsed: Result<String, String>) -> (r: Result<Config, Error>)
        ensures
            match parsed {
                Ok(u) => r matches Ok(c) && c.spec_base() == u@ && c.name@ == Seq::<char>::empty()
                    && c.auth.key is None && c.auth.user is None && c.auth.password is None
                    && c.max_search_results == 10000 && c.client.certificate is None
                    && c.client.concurrent is None && c.client.insecure is None
                    && c.client.proxy is None && c.client.timeout is None,
                Err(e) => r matches Err(x) && x.is_invalid_value(invalid_base_message(base@, e@)),
            },
    {
        match parsed {
            Ok(u) => Ok(Config {
                base: u,
                name: String::new(),
                auth: Authentication { key: None, user: None, password: None },
                client: ClientParameters::default(),
                max_search_results: default_max_search_results(),
            }),
            Err(e) => {
                let a = concat("invalid URL: ", base);
                let b = concat(a.as_str(), ": ");
                Err(Error::InvalidValue(concat(b.as_str(), e.as_str())))
            },
        }
    }

    /// Create a new Bugzilla service config.
    pub fn new(base: &str) -> (r: Result<Config, Error>)
        ensures
            match url_parse_result(trim_end_char(base@, '/') + seq!['/']) {
                Ok(u) => r matches Ok(c) && c.spec_base() == u && c.name@ == Seq::<char>::empty()
                    && c.auth.key is None && c.auth.user is None && c.auth.password is None
                    && c.max_search_results == 10000,
                Err(e) => r matches Err(x) && x.is_invalid_value(
                    invalid_base_message(trim_end_char(base@, '/'), e),
                ),
            },
    {
        let trimmed = trim_end_matches(base, '/');
        let mut with_slash = trimmed.clone();
        crate::text::push_char(&mut with_slash, '/');
        assert(with_slash@ =~= trim_end_char(base@, '/') + seq!['/']);
        let parsed = parse_url(with_slash.as_str());
        Self::from_parsed(trimmed.as_str(), parsed)
    }
}

/// A Bugzilla service: its config, the HTTP client being kept by the caller.
#[derive(Debug)]
pub struct Bugzilla {
    pub config: Config,
}

/// Value substituted for a user alias: `@me` becomes the configured user when there is one.
pub open spec fn spec_user_alias(user: Option<String>, value: Seq<char>) -> Seq<char> {
    if value == "@me"@ && user is Some {
        user->0@
    } else {
        value
    }
}

/// Message of the authentication error.
pub open spec fn auth_pairs(auth: Authentication, required: bool) -> Option<Seq<(Seq<char>, Seq<char>)>> {
    match (auth.key, auth.user, auth.password) {
        (Some(key), _, _) => Some(seq![("Bugzilla_api_key"@, key@)]),
        (None, Some(user), Some(pass)) => Some(seq![("Bugzilla_login"@, user@), ("Bugzilla_password"@, pass@)]),
        _ => if !required {
            Some(Seq::empty())
        } else {
            None
        },
    }
}

impl Bugzilla {
    /// Create a new service using a given base URL.
    pub fn new(base: &str) -> (r: Result<Bugzilla, Error>)
        ensures
            match url_parse_result(trim_end_char(base@, '/') + seq!['/']) {
                Ok(u) => r matches Ok(b) && b.config.spec_base() == u,
                Err(e) => r matches Err(x) && x.is_invalid_value(
                    invalid_base_message(trim_end_char(base@, '/'), e),
                ),
            },
    {
        match Config::new(base) {
            Ok(config) => Ok(Bugzilla { config }),
            Err(e) => Err(e),
        }
    }

    /// Return the website URL for an item ID.
    pub fn item_url(&self, id: &str) -> (r: String)
        ensures
            r@ == trim_end_char(self.config.spec_base(), '/') + "/show_bug.cgi?id="@ + id@,
    {
        let base = trim_end_matches(self.config.base(), '/');
        let a = concat(base.as_str(), "/show_bug.cgi?id=");
        concat(a.as_str(), id)
    }

    /// Substitute user alias for matching value.
    pub fn replace_user_alias(&self, value: &str) -> (r: String)
        ensures
            r@ == spec_user_alias(self.config.auth.user, value@),
    {
        if str_eq(value, "@me") {
            match &self.config.auth.user {
                Some(u) => u.clone(),
                None => owned(value),
            }
        } else {
            owned(value)
        }
    }

    /// Query parameters that authenticate a request: the API key if set, else the user and
    /// password if both are set; without credentials a request that requires them fails.
    pub fn auth_params(&self, required: bool) -> (r: Result<Vec<(String, String)>, Error>)
        ensures
            match auth_pairs(self.config.auth, required) {
                Some(p) => r matches Ok(v) && v@.map_values(|x: (String, String)| (x.0@, x.1@)) == p,
                None => r matches Err(Error::Auth),
            },
    {
        let auth = &self.config.auth;
        let mut v: Vec<(String, String)> = Vec::new();
        if let Some(key) = &auth.key {
            v.push((owned("Bugzilla_api_key"), key.clone()));
            assert(v@.map_values(|x: (String, String)| (x.0@, x.1@)) =~= seq![("Bugzilla_api_key"@, key@)]);
            Ok(v)
        } else if let (Some(user), Some(pass)) = (&auth.user, &auth.password) {
            v.push((owned("Bugzilla_login"), user.clone()));
            v.push((owned("Bugzilla_password"), pass.clone()));
            assert(v@.map_values(|x: (String, String)| (x.0@, x.1@)) =~= seq![
                ("Bugzilla_login"@, user@),
                ("Bugzilla_password"@, pass@),
            ]);
            Ok(v)
        } else if !required {
            assert(v@.map_values(|x: (String, String)| (x.0@, x.1@)) =~= Seq::<(Seq<char>, Seq<char>)>::empty());
            Ok(v)
        } else {
            Err(Error::Auth)
        }
    }
}

/// Address of a request: `path` joined to the base URL `base`, then `pairs` appended to its
/// query when there are any; a failure carries the URL error's message.
pub open spec fn spec_request_url(base: Seq<char>, path: Seq<char>, pairs: Seq<(Seq<char>, Seq<char>)>) -> Result<Seq<char>, Seq<char>> {
    match url_join_result(base, path) {
        Err(e) => Err(e),
        Ok(u) => if pairs.len() == 0 {
            Ok(u)
        } else {
            url_query_result(u, pairs)
        },
    }
}

/// Whether `r` is the outcome `u` of building a request address, URL errors becoming
/// invalid-URL errors.
pub open spec fn url_outcome(r: Result<String, Error>, u: Result<Seq<char>, Seq<char>>) -> bool {
    match u {
        Ok(x) => r matches Ok(s) && s@ == x,
        Err(e) => r matches Err(Error::InvalidUrl(m)) && m@ == e,
    }
}

/// Query pairs naming the bugs after the first of `ids`, each under `key`.
pub open spec fn rest_id_pairs(key: Seq<char>, ids: Seq<Seq<char>>) -> Seq<(Seq<char>, Seq<char>)> {
    ids.drop_first().map_values(|id: Seq<char>| (key, id))
}

/// Message of a request given no IDs.
pub open spec fn no_ids_message() -> Seq<char> {
    "no IDs specified"@
}

/// The error of a request given no IDs.
pub fn no_ids_error() -> (e: Error)
    ensures
        e.is_invalid_request(no_ids_message()),
{
    Error::InvalidRequest(owned("no IDs specified"))
}

/// Pairs `(key, id)` for the IDs after the first.
pub fn id_pairs(key: &str, ids: &Vec<String>) -> (r: Vec<(String, String)>)
    requires
        ids.len() > 0,
    ensures
        pair_views(r@) == rest_id_pairs(key@, crate::objects::bugzilla::views(ids@)),
{
    let mut r: Vec<(String, String)> = Vec::new();
    let mut i: usize = 1;
    let ghost all = crate::objects::bugzilla::views(ids@);
    while i < ids.len()
        invariant
            1 <= i <= ids.len(),
            all == crate::objects::bugzilla::views(ids@),
            pair_views(r@) == all.subrange(1, i as int).map_values(|id: Seq<char>| (key@, id)),
        decreases ids.len() - i,
    {
        let k = owned(key);
        let id = ids[i].clone();
        let ghost before = r@;
        r.push((k, id));
        proof {
            assert(all[i as int] == ids@[i as int]@);
            assert(r@ == before.push((k, id)));
            assert(pair_views(r@) =~= pair_views(before).push((key@, all[i as int])));
            assert(all.subrange(1, i + 1) =~= all.subrange(1, i as int).push(all[i as int]));
            assert(pair_views(r@) =~= all.subrange(1, i + 1).map_values(|id: Seq<char>| (key@, id)));
        }
        i = i + 1;
    }
    assert(all.subrange(1, ids@.len() as int) =~= all.drop_first());
    r
}

/// Builder of a Bugzilla service from a config.
#[derive(Debug)]
pub struct ServiceBuilder {
    pub config: Config,
}

impl ServiceBuilder {
    /// Set the name of the service.
    pub fn name(self, value: &str) -> (r: ServiceBuilder)
        ensures
            r.config == (Config { name: r.config.name, ..self.config }),
            r.config.name@ == value@,
    {
        let ServiceBuilder { mut config } = self;
        config.name = owned(value);
        ServiceBuilder { config }
    }

    /// Set the client parameters for the service: those set in `value` are kept, the others
    /// come from the config.
    pub fn client(self, value: ClientParameters) -> (r: ServiceBuilder)
        ensures
            r.config == (Config { client: r.config.client, ..self.config }),
            r.config.client.certificate == spec_merge_option(self.config.client.certificate, value.certificate),
            r.config.client.concurrent == spec_merge_option(self.config.client.concurrent, value.concurrent),
            r.config.client.insecure == spec_merge_option(self.config.client.insecure, value.insecure),
            r.config.client.proxy == spec_merge_option(self.config.client.proxy, value.proxy),
            r.config.client.timeout == spec_merge_option(self.config.client.timeout, value.timeout),
    {
        let ServiceBuilder { mut config } = self;
        config.client.merge(value);
        ServiceBuilder { config }
    }

    /// Set the user for the service.
    pub fn user(self, value: &str) -> (r: ServiceBuilder)
        ensures
            r.config == (Config { auth: r.config.auth, ..self.config }),
            r.config.auth.key == self.config.auth.key,
            r.config.auth.password == self.config.auth.password,
            r.config.auth.user matches Some(u) && u@ == value@,
    {
        let ServiceBuilder { mut config } = self;
        config.auth.user = Some(owned(value));
        ServiceBuilder { config }
    }

    /// Set the user's password for the service.
    pub fn password(self, value: &str) -> (r: ServiceBuilder)
        ensures
            r.config == (Config { auth: r.config.auth, ..self.config }),
            r.config.auth.key == self.config.auth.key,
            r.config.auth.user == self.config.auth.user,
            r.config.auth.password matches Some(p) && p@ == value@,
    {
        let ServiceBuilder { mut config } = self;
        config.auth.password = Some(owned(value));
        ServiceBuilder { config }
    }

    /// The service with the built config.
    pub fn build(self) -> (r: Bugzilla)
        ensures
            r.config == self.config,
    {
        Bugzilla { config: self.config }
    }
}

impl Bugzilla {
    /// A builder for a service using a given base URL.
    pub fn builder(base: &str) -> (r: Result<ServiceBuilder, Error>)
        ensures
            match url_parse_result(trim_end_char(base@, '/') + seq!['/']) {
                Ok(u) => r matches Ok(b) && b.config.spec_base() == u && b.config.name@ == Seq::<char>::empty()
                    && b.config.auth.key is None && b.config.auth.user is None
                    && b.config.auth.password is None && b.config.max_search_results == 10000,
                Err(e) => r matches Err(x) && x.is_invalid_value(
                    invalid_base_message(trim_end_char(base@, '/'), e),
                ),
            },
    {
        match Config::new(base) {
            Ok(config) => Ok(ServiceBuilder { config }),
            Err(e) => Err(e),
        }
    }

    /// A copy of the service.
    pub fn duplicate(&self) -> (r: Bugzilla)
        ensures
            r == *self,
    {
        let c = &self.config;
        Bugzilla {
            config: Config {
                base: c.base.clone(),
                name: c.name.clone(),
                auth: Authentication {
                    key: dup_text(&c.auth.key),
                    user: dup_text(&c.auth.user),
                    password: dup_text(&c.auth.password),
                },
                client: c.client.duplicate(),
                max_search_results: c.max_search_results,
            },
        }
    }

    /// A request to add attachments to the bugs `ids`.
    pub fn attachment_create(&self, ids: Vec<String>) -> (r: attachment::create::Request)
        ensures
            r.service == *self && r.ids == ids && r.attachments@.len() == 0,
    {
        attachment::create::Request::new(self.duplicate(), ids)
    }

    /// A request for the attachments `ids`.
    pub fn attachment_get(&self, ids: Vec<u64>) -> (r: attachment::get::Request)
        ensures
            r.service == *self && r.ids == ids && r.data,
    {
        attachment::get::Request::new(self.duplicate(), ids)
    }

    /// A request for the attachments of the bugs `ids`.
    pub fn attachment_get_item(&self, ids: Vec<String>) -> (r: attachment::get_item::Request)
        ensures
            r.service == *self && r.ids == ids && r.data,
    {
        attachment::get_item::Request::new(self.duplicate(), ids)
    }

    /// A request that searches for attachments.
    pub fn attachment_search(&self) -> (r: attachment::search::Request)
        ensures
            r.service == *self && r.params.spec_is_empty(),
    {
        attachment::search::Request::new(self.duplicate())
    }

    /// A request that updates the attachments `ids`.
    pub fn attachment_update(&self, ids: Vec<u64>) -> (r: attachment::update::Request)
        ensures
            r.service == *self && r.ids == ids && r.params.spec_is_empty(),
    {
        attachment::update::Request::new(self.duplicate(), ids)
    }

    /// A request for the comments of the bugs `ids`.
    pub fn comment(&self, ids: Vec<String>) -> (r: comment::Request)
        ensures
            r.service == *self && r.ids == ids,
            r.params.attachment is None && r.params.created_after is None && r.params.creator is None,
    {
        comment::Request::new(self.duplicate(), ids)
    }

    /// A request that tags comments of the bugs `ids`.
    pub fn comment_tag(&self, ids: Vec<String>) -> (r: comment::tag::Request)
        ensures
            r.service == *self && r.ids == ids && r.params.spec_is_empty(),
    {
        comment::tag::Request::new(self.duplicate(), ids)
    }

    /// A request that creates a bug.
    pub fn create(&self) -> (r: create::Request)
        ensures
            r.service == *self && r.params.spec_is_empty(),
    {
        create::Request::new(self.duplicate())
    }

    /// A request for the bug fields of the service.
    pub fn fields(&self) -> (r: fields::Request)
        ensures
            r.service == *self,
    {
        fields::Request::new(self.duplicate())
    }

    /// A request for the bugs `ids`.
    pub fn get(&self, ids: Vec<String>) -> (r: get::Request)
        ensures
            r.service == *self && r.ids == ids,
            r.attachments is None && r.comments is None && r.history is None,
    {
        get::Request::new(self.duplicate(), ids)
    }

    /// A request for the history of the bugs `ids`.
    pub fn history(&self, ids: Vec<String>) -> (r: history::Request)
        ensures
            r.service == *self && r.ids == ids,
            r.params.created_after is None && r.params.creator is None,
    {
        history::Request::new(self.duplicate(), ids)
    }

    /// A request that searches for bugs.
    pub fn search(&self) -> (r: search::request::Request)
        ensures
            r.service == *self && r.params.spec_is_empty(),
    {
        search::request::Request::new(self.duplicate())
    }

    /// A request that updates the bugs `ids`.
    pub fn update(&self, ids: Vec<String>) -> (r: update::Request)
        ensures
            r.service == *self && r.ids == ids && r.params.spec_is_empty(),
    {
        update::Request::new(self.duplicate(), ids)
    }

    /// A request for the version of the service.
    pub fn version(&self) -> (r: version::Request)
        ensures
            r.service == *self,
    {
        version::Request::new(self.duplicate())
    }

    /// A request that creates users for `emails`.
    pub fn user_create(&self, emails: Vec<String>) -> (r: user::create::Request)
        ensures
            r.service == *self && r.emails == emails && r.name is None && r.password is None,
    {
        user::create::Request::new(self.duplicate(), emails)
    }

    /// A request that looks up the users `ids`.
    pub fn user_get(&self, ids: Vec<String>) -> (r: user::get::Request)
        ensures
            r.service == *self && r.ids == ids && r.groups@.len() == 0 && r.disabled is None,
    {
        user::get::Request::new(self.duplicate(), ids)
    }

    /// A request that updates the users `ids`.
    pub fn user_update(&self, ids: Vec<String>) -> (r: user::update::Request)
        ensures
            r.service == *self && r.ids == ids && r.params.spec_is_empty(),
    {
        user::update::Request::new(self.duplicate(), ids)
    }
}

impl Bugzilla {
    /// A request address with the authentication query pairs appended: no credentials
    /// where they are required is an authentication error.
    pub fn authenticated_url(&self, url: &str, required: bool) -> (r: Result<String, Error>)
        ensures
            match auth_pairs(self.config.auth, required) {
                None => r matches Err(Error::Auth),
                Some(p) => if p.len() == 0 {
                    r matches Ok(u) && u@ == url@
                } else {
                    url_outcome(r, url_query_result(url@, p))
                },
            },
    {
        let pairs = match self.auth_params(required) {
            Ok(p) => p,
            Err(e) => return Err(e),
        };
        if pairs.len() == 0 {
            Ok(owned(url))
        } else {
            match with_query_pairs(url, &pairs) {
                Ok(u) => Ok(u),
                Err(e) => Err(Error::InvalidUrl(e)),
            }
        }
    }

    /// Address of a request: `path` joined to the base URL, then `pairs` appended to its
    /// query when there are any.
    pub fn request_url(&self, path: &str, pairs: Vec<(String, String)>) -> (r: Result<String, Error>)
        ensures
            url_outcome(r, spec_request_url(self.config.spec_base(), path@, pair_views(pairs@))),
    {
        let u = match join_url(self.config.base(), path) {
            Ok(u) => u,
            Err(e) => return Err(Error::InvalidUrl(e)),
        };
        if pairs.len() == 0 {
            Ok(u)
        } else {
            match with_query_pairs(u.as_str(), &pairs) {
                Ok(x) => Ok(x),
                Err(e) => Err(Error::InvalidUrl(e)),
            }
        }
    }
}

} // verus!
