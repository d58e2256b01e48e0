//! Bug search requests: search parameters encoded as query pairs.
use vstd::prelude::*;

use crate::args::ExistsOrValues;
use crate::error::Error;
use crate::objects::{RangeOp, RangeOrValue};
use crate::query::{Order, Query};
use crate::service::bugzilla::{BugField, Bugzilla, FilterField};
use crate::text::{nat_digits, owned, u64_to_string};
use crate::time::TimeDeltaOrStatic;
use crate::traits::Api;
use crate::web::{join_url, url_join_result, url_query_result, with_query_pairs};

use super::builder::{
    changed_by_error, changed_error, equality_target_error, ids_ok, is_equality_target,
    lemma_and_lists_prefix, lemma_attachment_prefix, lemma_changed_by_prefix,
    lemma_changed_prefix, lemma_custom_prefix, lemma_eov_prefix, lemma_id_items_prefix,
    lemma_matches_prefix, lemma_pairs_prefix, lemma_range_mono, lemma_statuses_prefix,
    pairs_error, sp_and_lists, sp_attachments, sp_changed, sp_changed_by, sp_changed_pairs,
    sp_close, sp_closed, sp_custom_items, sp_eov, sp_exists, sp_field, sp_fields, sp_group,
    sp_ids, sp_insert, sp_open, sp_order, sp_rov, sp_status, sp_statuses, QState, QueryBuilder,
};
use super::slots::{custom_names_plain, lemma_encode_slots, slots_ok};
use super::{ExistsField, Match, OrderField, Parameters};

verus! {

/// State after an optional `OR` group over existence flags on `ef` and `AND` groups of
/// match clauses on `field`.
pub open spec fn opt_eov(
    st: QState,
    user: Option<String>,
    v: Option<Vec<ExistsOrValues<Match>>>,
    field: Seq<char>,
    ef: ExistsField,
    alias: bool,
    inverted: bool,
) -> QState {
    match v {
        Some(vs) => sp_eov(st, user, field, ef.spec_api_name(), vs@, alias, inverted),
        None => st,
    }
}

/// State after an optional `OR` group of `AND` groups of match clauses on `field`.
pub open spec fn opt_or_lists(st: QState, user: Option<String>, v: Option<Vec<Vec<Match>>>, field: Seq<char>, alias: bool) -> QState {
    match v {
        Some(ls) => sp_close(sp_and_lists(sp_open(st, "OR"@), user, field, ls@, alias)),
        None => st,
    }
}

/// State after an optional group joined by `op` of match clauses on `field`.
pub open spec fn opt_group(st: QState, user: Option<String>, v: Option<Vec<Match>>, op: Seq<char>, field: Seq<char>) -> QState {
    match v {
        Some(ms) => sp_group(st, op, user, field, ms@, false),
        None => st,
    }
}

/// State after optional clauses matching `field` against a value, a range operator or a
/// range.
pub open spec fn opt_rov<T: Api>(st: QState, v: Option<RangeOrValue<T>>, field: Seq<char>, value_op: Seq<char>) -> QState {
    match v {
        Some(r) => sp_rov(st, field, r, value_op),
        None => st,
    }
}

/// State after an optional boolean clause on `field`.
pub open spec fn opt_bool(st: QState, v: Option<bool>, field: Seq<char>) -> QState {
    match v {
        Some(b) => sp_field(st, field, "equals"@, if b { "1"@ } else { "0"@ }),
        None => st,
    }
}

/// State after an optional `OR` group over existence flags and bug number clauses.
pub open spec fn opt_ids(st: QState, v: Option<Vec<ExistsOrValues<RangeOrValue<i64>>>>, field: Seq<char>, exists_field: Seq<char>) -> QState {
    match v {
        Some(vs) => sp_ids(st, field, exists_field, vs@),
        None => st,
    }
}

/// State after optionally setting `key` to a number.
pub open spec fn opt_number(st: QState, key: Seq<char>, v: Option<usize>) -> QState {
    match v {
        Some(n) => (sp_insert(st.0, key, nat_digits(n as nat)), st.1),
        None => st,
    }
}

/// Fields requested when none are given: the bug ID and summary.
pub open spec fn default_fields() -> Seq<FilterField> {
    seq![FilterField::Bug(BugField::Id), FilterField::Bug(BugField::Summary)]
}

/// State after the status selection (open bugs when none is given), the sort order
/// (ascending ID when none is given), the fields to return, and the limit and offset.
pub open spec fn stage_base(st: QState, p: Parameters) -> QState {
    let s1 = match p.status {
        Some(vs) => sp_close(sp_statuses(sp_open(st, "OR"@), vs@)),
        None => sp_status(st, "@open"@),
    };
    let s2 = match p.order {
        Some(os) => sp_order(s1, os@),
        None => sp_order(s1, seq![Order::Ascending(OrderField::Id)]),
    };
    let s3 = match p.fields {
        Some(fs) => sp_fields(s2, fs@),
        None => sp_fields(s2, default_fields()),
    };
    opt_number(opt_number(s3, "limit"@, p.limit), "offset"@, p.offset)
}

/// State after the clauses on array fields: alias, attachments, flags, groups, keywords,
/// related links, tags, whiteboard and URL.
pub open spec fn stage_values(st: QState, user: Option<String>, p: Parameters) -> QState {
    let s1 = opt_eov(st, user, p.alias, "alias"@, ExistsField::Alias, false, true);
    let s2 = match p.attachments {
        Some(ExistsOrValues::Exists(b)) => sp_exists(s1, ExistsField::Attachments.spec_api_name(), b),
        Some(ExistsOrValues::Values(ms)) => sp_attachments(s1, ms@),
        None => s1,
    };
    let s3 = opt_eov(s2, user, p.flags, "flagtypes.name"@, ExistsField::Flags, false, false);
    let s4 = opt_eov(s3, user, p.groups, "bug_group"@, ExistsField::Groups, false, false);
    let s5 = opt_eov(s4, user, p.keywords, "keywords"@, ExistsField::Keywords, false, false);
    let s6 = opt_eov(s5, user, p.see_also, "see_also"@, ExistsField::SeeAlso, false, false);
    let s7 = opt_eov(s6, user, p.tags, "tag"@, ExistsField::Tags, false, false);
    let s8 = opt_eov(s7, user, p.whiteboard, "whiteboard"@, ExistsField::Whiteboard, false, false);
    opt_eov(s8, user, p.url, "bug_file_loc"@, ExistsField::Url, false, false)
}

/// State after the clauses on field changes: when, by whom, from and to which values.
pub open spec fn stage_changes(st: QState, user: Option<String>, p: Parameters) -> QState {
    let s1 = match p.changed {
        Some(v) => sp_changed(st, v@),
        None => st,
    };
    let s2 = match p.changed_by {
        Some(v) => sp_changed_by(s1, user, v@),
        None => s1,
    };
    let s3 = match p.changed_from {
        Some(v) => sp_changed_pairs(s2, v@, "changedfrom"@),
        None => s2,
    };
    match p.changed_to {
        Some(v) => sp_changed_pairs(s3, v@, "changedto"@),
        None => s3,
    }
}

/// First error among the change parameters.
pub open spec fn changes_error(p: Parameters) -> Option<Seq<char>> {
    let e1 = match p.changed {
        Some(v) => changed_error(v@),
        None => None,
    };
    let e2 = match p.changed_by {
        Some(v) => changed_by_error(v@),
        None => None,
    };
    let e3 = match p.changed_from {
        Some(v) => pairs_error(v@),
        None => None,
    };
    let e4 = match p.changed_to {
        Some(v) => pairs_error(v@),
        None => None,
    };
    if e1 is Some {
        e1
    } else if e2 is Some {
        e2
    } else if e3 is Some {
        e3
    } else {
        e4
    }
}

/// State after the clauses on comment and vote counts and on people.
pub open spec fn stage_people(st: QState, user: Option<String>, p: Parameters) -> QState {
    let s1 = opt_rov(st, p.comments, "longdescs.count"@, "equals"@);
    let s2 = opt_rov(s1, p.votes, "votes"@, "equals"@);
    let s3 = opt_or_lists(s2, user, p.assignee, "assigned_to"@, true);
    let s4 = opt_or_lists(s3, user, p.attacher, "attachments.submitter"@, true);
    let s5 = opt_eov(s4, user, p.cc, "cc"@, ExistsField::Cc, true, false);
    let s6 = opt_or_lists(s5, user, p.commenter, "commenter"@, true);
    let s7 = opt_or_lists(s6, user, p.flagger, "setters.login_name"@, true);
    let s8 = opt_eov(s7, user, p.qa, "qa_contact"@, ExistsField::Qa, false, false);
    opt_or_lists(s8, user, p.reporter, "reporter"@, true)
}

/// State after the clauses on comments, summary and bug numbers.
pub open spec fn stage_text(st: QState, user: Option<String>, p: Parameters) -> QState {
    let s1 = opt_group(st, user, p.comment, "AND"@, "longdesc"@);
    let s2 = opt_bool(s1, p.comment_is_private, "longdescs.isprivate"@);
    let s3 = opt_or_lists(s2, user, p.comment_tag, "comment_tag"@, false);
    let s4 = opt_group(s3, user, p.summary, "AND"@, "short_desc"@);
    let s5 = opt_ids(s4, p.blocks, "blocked"@, ExistsField::Blocks.spec_api_name());
    let s6 = opt_ids(s5, p.depends, "dependson"@, ExistsField::Depends.spec_api_name());
    opt_ids(s6, p.ids, "bug_id"@, "bug_id"@)
}

/// State after the `OR` groups on single-valued fields.
pub open spec fn stage_matches(st: QState, user: Option<String>, p: Parameters) -> QState {
    let s1 = opt_group(st, user, p.priority, "OR"@, "priority"@);
    let s2 = opt_group(s1, user, p.severity, "OR"@, "bug_severity"@);
    let s3 = opt_group(s2, user, p.version, "OR"@, "version"@);
    let s4 = opt_group(s3, user, p.component, "OR"@, "component"@);
    let s5 = opt_group(s4, user, p.product, "OR"@, "product"@);
    let s6 = opt_group(s5, user, p.platform, "OR"@, "platform"@);
    let s7 = opt_group(s6, user, p.os, "OR"@, "op_sys"@);
    let s8 = opt_group(s7, user, p.resolution, "OR"@, "resolution"@);
    opt_group(s8, user, p.target, "OR"@, "target_milestone"@)
}

/// State after the clauses on creation, update and closing times, the quick search and
/// the custom fields.
pub open spec fn stage_times(st: QState, user: Option<String>, p: Parameters) -> QState {
    let s1 = opt_rov(st, p.created, "creation_ts"@, "greaterthaneq"@);
    let s2 = opt_rov(s1, p.updated, "delta_ts"@, "greaterthaneq"@);
    let s3 = match p.closed {
        Some(t) => sp_closed(s2, t),
        None => s2,
    };
    let s4 = match p.quicksearch {
        Some(q) => (sp_insert(s3.0, "quicksearch"@, q@), s3.1),
        None => s3,
    };
    match p.custom_fields {
        Some(items) => sp_close(sp_custom_items(sp_open(s4, "OR"@), user, items@)),
        None => s4,
    }
}

/// Error for a closing time that compares by equality.
pub open spec fn closed_error(p: Parameters) -> Option<Seq<char>> {
    match p.closed {
        Some(t) => if is_equality_target(t) {
            Some(equality_target_error(t))
        } else {
            None
        },
        None => None,
    }
}

/// State after the clauses on attachment descriptions, file names, media types and flags.
pub open spec fn stage_attach(st: QState, user: Option<String>, p: Parameters) -> QState {
    let s1 = opt_or_lists(st, user, p.attachment_description, "attachments.description"@, false);
    let s2 = opt_or_lists(s1, user, p.attachment_filename, "attachments.filename"@, false);
    let s3 = opt_or_lists(s2, user, p.attachment_mime, "attachments.mimetype"@, false);
    let s4 = opt_bool(s3, p.attachment_is_obsolete, "attachments.isobsolete"@);
    let s5 = opt_bool(s4, p.attachment_is_patch, "attachments.ispatch"@);
    opt_bool(s5, p.attachment_is_private, "attachments.isprivate"@)
}

/// Query pairs and slot count of the encoded search, for the user that `@me` stands for.
pub open spec fn spec_encode(user: Option<String>, p: Parameters) -> QState {
    let s0: QState = (Seq::empty(), 0nat);
    let s1 = stage_base(s0, p);
    let s2 = stage_values(s1, user, p);
    let s3 = stage_changes(s2, user, p);
    let s4 = stage_people(s3, user, p);
    let s5 = stage_text(s4, user, p);
    let s6 = stage_matches(s5, user, p);
    let s7 = stage_times(s6, user, p);
    stage_attach(s7, user, p)
}

/// First error of the search parameters: a change on an unknown field or a change time
/// compared by equality.
pub open spec fn encode_error(p: Parameters) -> Option<Seq<char>> {
    if changes_error(p) is Some {
        changes_error(p)
    } else {
        closed_error(p)
    }
}

/// Whether every bug number in the parameters can be negated.
pub open spec fn params_ids_ok(p: Parameters) -> bool {
    &&& (p.blocks matches Some(v) ==> ids_ok(v@))
    &&& (p.depends matches Some(v) ==> ids_ok(v@))
    &&& (p.ids matches Some(v) ==> ids_ok(v@))
}

proof fn lemma_opt_eov_mono(
    st: QState,
    user: Option<String>,
    v: Option<Vec<ExistsOrValues<Match>>>,
    field: Seq<char>,
    ef: ExistsField,
    alias: bool,
    inverted: bool,
)
    ensures
        st.1 <= opt_eov(st, user, v, field, ef, alias, inverted).1,
{
    if let Some(vs) = v {
        lemma_eov_prefix(sp_open(st, "OR"@), user, field, ef.spec_api_name(), vs@, alias, inverted, 0);
    }
}

proof fn lemma_opt_or_lists_mono(st: QState, user: Option<String>, v: Option<Vec<Vec<Match>>>, field: Seq<char>, alias: bool)
    ensures
        st.1 <= opt_or_lists(st, user, v, field, alias).1,
{
    if let Some(ls) = v {
        lemma_and_lists_prefix(sp_open(st, "OR"@), user, field, ls@, alias, 0);
    }
}

proof fn lemma_opt_group_mono(st: QState, user: Option<String>, v: Option<Vec<Match>>, op: Seq<char>, field: Seq<char>)
    ensures
        st.1 <= opt_group(st, user, v, op, field).1,
{
    if let Some(ms) = v {
        lemma_matches_prefix(sp_open(st, op), user, field, ms@, false, 0);
    }
}

proof fn lemma_opt_rov_mono<T: Api>(st: QState, v: Option<RangeOrValue<T>>, field: Seq<char>, value_op: Seq<char>)
    ensures
        st.1 <= opt_rov(st, v, field, value_op).1,
{
    if let Some(RangeOrValue::Range(r)) = v {
        lemma_range_mono(st, field, r);
    }
}

proof fn lemma_opt_ids_mono(st: QState, v: Option<Vec<ExistsOrValues<RangeOrValue<i64>>>>, field: Seq<char>, exists_field: Seq<char>)
    ensures
        st.1 <= opt_ids(st, v, field, exists_field).1,
{
    if let Some(vs) = v {
        lemma_id_items_prefix(sp_open(st, "OR"@), field, exists_field, vs@, 0);
    }
}

proof fn lemma_stage_values_mono(st: QState, user: Option<String>, p: Parameters)
    ensures
        st.1 <= stage_values(st, user, p).1,
{
    let s1 = opt_eov(st, user, p.alias, "alias"@, ExistsField::Alias, false, true);
    lemma_opt_eov_mono(st, user, p.alias, "alias"@, ExistsField::Alias, false, true);
    let s2 = match p.attachments {
        Some(ExistsOrValues::Exists(b)) => sp_exists(s1, ExistsField::Attachments.spec_api_name(), b),
        Some(ExistsOrValues::Values(ms)) => sp_attachments(s1, ms@),
        None => s1,
    };
    if let Some(ExistsOrValues::Values(ms)) = p.attachments {
        lemma_attachment_prefix(sp_open(s1, "OR"@), ms@, 0);
    }
    let s3 = opt_eov(s2, user, p.flags, "flagtypes.name"@, ExistsField::Flags, false, false);
    lemma_opt_eov_mono(s2, user, p.flags, "flagtypes.name"@, ExistsField::Flags, false, false);
    let s4 = opt_eov(s3, user, p.groups, "bug_group"@, ExistsField::Groups, false, false);
    lemma_opt_eov_mono(s3, user, p.groups, "bug_group"@, ExistsField::Groups, false, false);
    let s5 = opt_eov(s4, user, p.keywords, "keywords"@, ExistsField::Keywords, false, false);
    lemma_opt_eov_mono(s4, user, p.keywords, "keywords"@, ExistsField::Keywords, false, false);
    let s6 = opt_eov(s5, user, p.see_also, "see_also"@, ExistsField::SeeAlso, false, false);
    lemma_opt_eov_mono(s5, user, p.see_also, "see_also"@, ExistsField::SeeAlso, false, false);
    let s7 = opt_eov(s6, user, p.tags, "tag"@, ExistsField::Tags, false, false);
    lemma_opt_eov_mono(s6, user, p.tags, "tag"@, ExistsField::Tags, false, false);
    let s8 = opt_eov(s7, user, p.whiteboard, "whiteboard"@, ExistsField::Whiteboard, false, false);
    lemma_opt_eov_mono(s7, user, p.whiteboard, "whiteboard"@, ExistsField::Whiteboard, false, false);
    lemma_opt_eov_mono(s8, user, p.url, "bug_file_loc"@, ExistsField::Url, false, false);
}

proof fn lemma_stage_changes_mono(st: QState, user: Option<String>, p: Parameters)
    ensures
        st.1 <= stage_changes(st, user, p).1,
{
    let s1 = match p.changed {
        Some(v) => sp_changed(st, v@),
        None => st,
    };
    if let Some(v) = p.changed {
        lemma_changed_prefix(st, v@, 0);
    }
    let s2 = match p.changed_by {
        Some(v) => sp_changed_by(s1, user, v@),
        None => s1,
    };
    if let Some(v) = p.changed_by {
        lemma_changed_by_prefix(s1, user, v@, 0);
    }
    let s3 = match p.changed_from {
        Some(v) => sp_changed_pairs(s2, v@, "changedfrom"@),
        None => s2,
    };
    if let Some(v) = p.changed_from {
        lemma_pairs_prefix(s2, v@, "changedfrom"@, 0);
    }
    if let Some(v) = p.changed_to {
        lemma_pairs_prefix(s3, v@, "changedto"@, 0);
    }
}

proof fn lemma_stage_people_mono(st: QState, user: Option<String>, p: Parameters)
    ensures
        st.1 <= stage_people(st, user, p).1,
{
    let s1 = opt_rov(st, p.comments, "longdescs.count"@, "equals"@);
    lemma_opt_rov_mono(st, p.comments, "longdescs.count"@, "equals"@);
    let s2 = opt_rov(s1, p.votes, "votes"@, "equals"@);
    lemma_opt_rov_mono(s1, p.votes, "votes"@, "equals"@);
    let s3 = opt_or_lists(s2, user, p.assignee, "assigned_to"@, true);
    lemma_opt_or_lists_mono(s2, user, p.assignee, "assigned_to"@, true);
    let s4 = opt_or_lists(s3, user, p.attacher, "attachments.submitter"@, true);
    lemma_opt_or_lists_mono(s3, user, p.attacher, "attachments.submitter"@, true);
    let s5 = opt_eov(s4, user, p.cc, "cc"@, ExistsField::Cc, true, false);
    lemma_opt_eov_mono(s4, user, p.cc, "cc"@, ExistsField::Cc, true, false);
    let s6 = opt_or_lists(s5, user, p.commenter, "commenter"@, true);
    lemma_opt_or_lists_mono(s5, user, p.commenter, "commenter"@, true);
    let s7 = opt_or_lists(s6, user, p.flagger, "setters.login_name"@, true);
    lemma_opt_or_lists_mono(s6, user, p.flagger, "setters.login_name"@, true);
    let s8 = opt_eov(s7, user, p.qa, "qa_contact"@, ExistsField::Qa, false, false);
    lemma_opt_eov_mono(s7, user, p.qa, "qa_contact"@, ExistsField::Qa, false, false);
    lemma_opt_or_lists_mono(s8, user, p.reporter, "reporter"@, true);
}

proof fn lemma_stage_text_mono(st: QState, user: Option<String>, p: Parameters)
    ensures
        st.1 <= stage_text(st, user, p).1,
{
    let s1 = opt_group(st, user, p.comment, "AND"@, "longdesc"@);
    lemma_opt_group_mono(st, user, p.comment, "AND"@, "longdesc"@);
    let s2 = opt_bool(s1, p.comment_is_private, "longdescs.isprivate"@);
    let s3 = opt_or_lists(s2, user, p.comment_tag, "comment_tag"@, false);
    lemma_opt_or_lists_mono(s2, user, p.comment_tag, "comment_tag"@, false);
    let s4 = opt_group(s3, user, p.summary, "AND"@, "short_desc"@);
    lemma_opt_group_mono(s3, user, p.summary, "AND"@, "short_desc"@);
    let s5 = opt_ids(s4, p.blocks, "blocked"@, ExistsField::Blocks.spec_api_name());
    lemma_opt_ids_mono(s4, p.blocks, "blocked"@, ExistsField::Blocks.spec_api_name());
    let s6 = opt_ids(s5, p.depends, "dependson"@, ExistsField::Depends.spec_api_name());
    lemma_opt_ids_mono(s5, p.depends, "dependson"@, ExistsField::Depends.spec_api_name());
    lemma_opt_ids_mono(s6, p.ids, "bug_id"@, "bug_id"@);
}

proof fn lemma_stage_matches_mono(st: QState, user: Option<String>, p: Parameters)
    ensures
        st.1 <= stage_matches(st, user, p).1,
{
    let s1 = opt_group(st, user, p.priority, "OR"@, "priority"@);
    lemma_opt_group_mono(st, user, p.priority, "OR"@, "priority"@);
    let s2 = opt_group(s1, user, p.severity, "OR"@, "bug_severity"@);
    lemma_opt_group_mono(s1, user, p.severity, "OR"@, "bug_severity"@);
    let s3 = opt_group(s2, user, p.version, "OR"@, "version"@);
    lemma_opt_group_mono(s2, user, p.version, "OR"@, "version"@);
    let s4 = opt_group(s3, user, p.component, "OR"@, "component"@);
    lemma_opt_group_mono(s3, user, p.component, "OR"@, "component"@);
    let s5 = opt_group(s4, user, p.product, "OR"@, "product"@);
    lemma_opt_group_mono(s4, user, p.product, "OR"@, "product"@);
    let s6 = opt_group(s5, user, p.platform, "OR"@, "platform"@);
    lemma_opt_group_mono(s5, user, p.platform, "OR"@, "platform"@);
    let s7 = opt_group(s6, user, p.os, "OR"@, "op_sys"@);
    lemma_opt_group_mono(s6, user, p.os, "OR"@, "op_sys"@);
    let s8 = opt_group(s7, user, p.resolution, "OR"@, "resolution"@);
    lemma_opt_group_mono(s7, user, p.resolution, "OR"@, "resolution"@);
    lemma_opt_group_mono(s8, user, p.target, "OR"@, "target_milestone"@);
}

proof fn lemma_stage_times_mono(st: QState, user: Option<String>, p: Parameters)
    ensures
        st.1 <= stage_times(st, user, p).1,
{
    let s1 = opt_rov(st, p.created, "creation_ts"@, "greaterthaneq"@);
    lemma_opt_rov_mono(st, p.created, "creation_ts"@, "greaterthaneq"@);
    let s2 = opt_rov(s1, p.updated, "delta_ts"@, "greaterthaneq"@);
    lemma_opt_rov_mono(s1, p.updated, "delta_ts"@, "greaterthaneq"@);
    let s3 = match p.closed {
        Some(t) => sp_closed(s2, t),
        None => s2,
    };
    let s4 = match p.quicksearch {
        Some(q) => (sp_insert(s3.0, "quicksearch"@, q@), s3.1),
        None => s3,
    };
    if let Some(items) = p.custom_fields {
        lemma_custom_prefix(sp_open(s4, "OR"@), user, items@, 0);
    }
}

proof fn lemma_stage_attach_mono(st: QState, user: Option<String>, p: Parameters)
    ensures
        st.1 <= stage_attach(st, user, p).1,
{
    let s1 = opt_or_lists(st, user, p.attachment_description, "attachments.description"@, false);
    lemma_opt_or_lists_mono(st, user, p.attachment_description, "attachments.description"@, false);
    let s2 = opt_or_lists(s1, user, p.attachment_filename, "attachments.filename"@, false);
    lemma_opt_or_lists_mono(s1, user, p.attachment_filename, "attachments.filename"@, false);
    lemma_opt_or_lists_mono(s2, user, p.attachment_mime, "attachments.mimetype"@, false);
}


fn add_eov(
    q: &mut QueryBuilder,
    v: &Option<Vec<ExistsOrValues<Match>>>,
    field: &str,
    ef: ExistsField,
    alias: bool,
    inverted: bool,
)
    requires
        opt_eov(old(q).st(), old(q).user(), *v, field@, ef, alias, inverted).1 <= u64::MAX,
    ensures
        final(q).st() == opt_eov(old(q).st(), old(q).user(), *v, field@, ef, alias, inverted),
        final(q).user() == old(q).user(),
{
    if let Some(vs) = v {
        let e = ef.api();
        q.eov(field, e.as_str(), vs, alias, inverted);
    }
}

fn add_or_lists(q: &mut QueryBuilder, v: &Option<Vec<Vec<Match>>>, field: &str, alias: bool)
    requires
        opt_or_lists(old(q).st(), old(q).user(), *v, field@, alias).1 <= u64::MAX,
    ensures
        final(q).st() == opt_or_lists(old(q).st(), old(q).user(), *v, field@, alias),
        final(q).user() == old(q).user(),
{
    if let Some(ls) = v {
        q.or_lists(field, ls, alias);
    }
}

fn add_group(q: &mut QueryBuilder, v: &Option<Vec<Match>>, op: &str, field: &str)
    requires
        opt_group(old(q).st(), old(q).user(), *v, op@, field@).1 <= u64::MAX,
    ensures
        final(q).st() == opt_group(old(q).st(), old(q).user(), *v, op@, field@),
        final(q).user() == old(q).user(),
{
    if let Some(ms) = v {
        q.group(op, field, ms, false);
    }
}

fn add_rov<T: Api>(q: &mut QueryBuilder, v: &Option<RangeOrValue<T>>, field: &str, value_op: &str)
    requires
        opt_rov(old(q).st(), *v, field@, value_op@).1 <= u64::MAX,
    ensures
        final(q).st() == opt_rov(old(q).st(), *v, field@, value_op@),
        final(q).user() == old(q).user(),
{
    if let Some(r) = v {
        q.range_or_value(field, r, value_op);
    }
}

fn add_bool(q: &mut QueryBuilder, v: &Option<bool>, field: &str)
    requires
        opt_bool(old(q).st(), *v, field@).1 <= u64::MAX,
    ensures
        final(q).st() == opt_bool(old(q).st(), *v, field@),
        final(q).user() == old(q).user(),
{
    if let Some(b) = v {
        q.boolean(field, *b);
    }
}

fn add_ids(q: &mut QueryBuilder, v: &Option<Vec<ExistsOrValues<RangeOrValue<i64>>>>, field: &str, exists_field: &str)
    requires
        v matches Some(vs) ==> ids_ok(vs@),
        opt_ids(old(q).st(), *v, field@, exists_field@).1 <= u64::MAX,
    ensures
        final(q).st() == opt_ids(old(q).st(), *v, field@, exists_field@),
        final(q).user() == old(q).user(),
{
    if let Some(vs) = v {
        q.ids(field, exists_field, vs);
    }
}

fn add_number(q: &mut QueryBuilder, key: &str, v: &Option<usize>)
    ensures
        final(q).st() == opt_number(old(q).st(), key@, *v),
        final(q).user() == old(q).user(),
{
    if let Some(n) = v {
        let n64: u64 = *n as u64;
        q.insert(owned(key), u64_to_string(n64));
    }
}

fn encode_base(q: &mut QueryBuilder, p: &Parameters)
    requires
        stage_base(old(q).st(), *p).1 <= u64::MAX,
    ensures
        final(q).st() == stage_base(old(q).st(), *p),
        final(q).user() == old(q).user(),
{
    match &p.status {
        Some(vs) => q.statuses(vs),
        None => q.status("@open"),
    }
    match &p.order {
        Some(os) => q.order(os),
        None => {
            let os = vec![Order::Ascending(OrderField::Id)];
            q.order(&os);
        },
    }
    match &p.fields {
        Some(fs) => q.fields(fs),
        None => {
            let fs = vec![FilterField::Bug(BugField::Id), FilterField::Bug(BugField::Summary)];
            assert(fs@ =~= default_fields());
            q.fields(&fs);
        },
    }
    add_number(q, "limit", &p.limit);
    add_number(q, "offset", &p.offset);
}

fn encode_values(q: &mut QueryBuilder, p: &Parameters)
    requires
        stage_values(old(q).st(), old(q).user(), *p).1 <= u64::MAX,
    ensures
        final(q).st() == stage_values(old(q).st(), old(q).user(), *p),
        final(q).user() == old(q).user(),
{
    let ghost user = q.user();
    let ghost p0 = *p;
    let ghost s0 = q.st();
    let ghost s1 = opt_eov(s0, user, p0.alias, "alias"@, ExistsField::Alias, false, true);
    let ghost s2 = match p0.attachments {
        Some(ExistsOrValues::Exists(b)) => sp_exists(s1, ExistsField::Attachments.spec_api_name(), b),
        Some(ExistsOrValues::Values(ms)) => sp_attachments(s1, ms@),
        None => s1,
    };
    let ghost s3 = opt_eov(s2, user, p0.flags, "flagtypes.name"@, ExistsField::Flags, false, false);
    let ghost s4 = opt_eov(s3, user, p0.groups, "bug_group"@, ExistsField::Groups, false, false);
    let ghost s5 = opt_eov(s4, user, p0.keywords, "keywords"@, ExistsField::Keywords, false, false);
    let ghost s6 = opt_eov(s5, user, p0.see_also, "see_also"@, ExistsField::SeeAlso, false, false);
    let ghost s7 = opt_eov(s6, user, p0.tags, "tag"@, ExistsField::Tags, false, false);
    let ghost s8 = opt_eov(s7, user, p0.whiteboard, "whiteboard"@, ExistsField::Whiteboard, false, false);
    proof {
        if let Some(ExistsOrValues::Values(ms)) = p0.attachments {
            lemma_attachment_prefix(sp_open(s1, "OR"@), ms@, 0);
        }
        lemma_opt_eov_mono(s2, user, p0.flags, "flagtypes.name"@, ExistsField::Flags, false, false);
        lemma_opt_eov_mono(s3, user, p0.groups, "bug_group"@, ExistsField::Groups, false, false);
        lemma_opt_eov_mono(s4, user, p0.keywords, "keywords"@, ExistsField::Keywords, false, false);
        lemma_opt_eov_mono(s5, user, p0.see_also, "see_also"@, ExistsField::SeeAlso, false, false);
        lemma_opt_eov_mono(s6, user, p0.tags, "tag"@, ExistsField::Tags, false, false);
        lemma_opt_eov_mono(s7, user, p0.whiteboard, "whiteboard"@, ExistsField::Whiteboard, false, false);
        lemma_opt_eov_mono(s8, user, p0.url, "bug_file_loc"@, ExistsField::Url, false, false);
    }
    add_eov(q, &p.alias, "alias", ExistsField::Alias, false, true);
    match &p.attachments {
        Some(ExistsOrValues::Exists(b)) => {
            let e = ExistsField::Attachments.api();
            q.field_exists(e.as_str(), *b);
        },
        Some(ExistsOrValues::Values(ms)) => q.attachments(ms),
        None => {},
    }
    add_eov(q, &p.flags, "flagtypes.name", ExistsField::Flags, false, false);
    add_eov(q, &p.groups, "bug_group", ExistsField::Groups, false, false);
    add_eov(q, &p.keywords, "keywords", ExistsField::Keywords, false, false);
    add_eov(q, &p.see_also, "see_also", ExistsField::SeeAlso, false, false);
    add_eov(q, &p.tags, "tag", ExistsField::Tags, false, false);
    add_eov(q, &p.whiteboard, "whiteboard", ExistsField::Whiteboard, false, false);
    add_eov(q, &p.url, "bug_file_loc", ExistsField::Url, false, false);
}

fn encode_changes(q: &mut QueryBuilder, p: &Parameters) -> (r: Result<(), Error>)
    requires
        stage_changes(old(q).st(), old(q).user(), *p).1 <= u64::MAX,
    ensures
        r is Ok <==> changes_error(*p) is None,
        r is Ok ==> final(q).st() == stage_changes(old(q).st(), old(q).user(), *p),
        r matches Err(e) ==> changes_error(*p) matches Some(m) && e.is_invalid_value(m),
        final(q).user() == old(q).user(),
{
    let ghost user = q.user();
    let ghost p0 = *p;
    let ghost s0 = q.st();
    let ghost s1 = match p0.changed {
        Some(v) => sp_changed(s0, v@),
        None => s0,
    };
    let ghost s2 = match p0.changed_by {
        Some(v) => sp_changed_by(s1, user, v@),
        None => s1,
    };
    let ghost s3 = match p0.changed_from {
        Some(v) => sp_changed_pairs(s2, v@, "changedfrom"@),
        None => s2,
    };
    proof {
        if let Some(v) = p0.changed_by {
            lemma_changed_by_prefix(s1, user, v@, 0);
        }
        if let Some(v) = p0.changed_from {
            lemma_pairs_prefix(s2, v@, "changedfrom"@, 0);
        }
        if let Some(v) = p0.changed_to {
            lemma_pairs_prefix(s3, v@, "changedto"@, 0);
        }
    }
    if let Some(v) = &p.changed {
        let r = q.changed(v);
        if r.is_err() {
            return r;
        }
    }
    if let Some(v) = &p.changed_by {
        let r = q.changed_by(v);
        if r.is_err() {
            return r;
        }
    }
    if let Some(v) = &p.changed_from {
        let r = q.changed_pairs(v, "changedfrom");
        if r.is_err() {
            return r;
        }
    }
    if let Some(v) = &p.changed_to {
        let r = q.changed_pairs(v, "changedto");
        if r.is_err() {
            return r;
        }
    }
    Ok(())
}

fn encode_people(q: &mut QueryBuilder, p: &Parameters)
    requires
        stage_people(old(q).st(), old(q).user(), *p).1 <= u64::MAX,
    ensures
        final(q).st() == stage_people(old(q).st(), old(q).user(), *p),
        final(q).user() == old(q).user(),
{
    let ghost user = q.user();
    let ghost p0 = *p;
    let ghost s0 = q.st();
    let ghost s1 = opt_rov(s0, p0.comments, "longdescs.count"@, "equals"@);
    let ghost s2 = opt_rov(s1, p0.votes, "votes"@, "equals"@);
    let ghost s3 = opt_or_lists(s2, user, p0.assignee, "assigned_to"@, true);
    let ghost s4 = opt_or_lists(s3, user, p0.attacher, "attachments.submitter"@, true);
    let ghost s5 = opt_eov(s4, user, p0.cc, "cc"@, ExistsField::Cc, true, false);
    let ghost s6 = opt_or_lists(s5, user, p0.commenter, "commenter"@, true);
    let ghost s7 = opt_or_lists(s6, user, p0.flagger, "setters.login_name"@, true);
    let ghost s8 = opt_eov(s7, user, p0.qa, "qa_contact"@, ExistsField::Qa, false, false);
    proof {
        lemma_opt_rov_mono(s1, p0.votes, "votes"@, "equals"@);
        lemma_opt_or_lists_mono(s2, user, p0.assignee, "assigned_to"@, true);
        lemma_opt_or_lists_mono(s3, user, p0.attacher, "attachments.submitter"@, true);
        lemma_opt_eov_mono(s4, user, p0.cc, "cc"@, ExistsField::Cc, true, false);
        lemma_opt_or_lists_mono(s5, user, p0.commenter, "commenter"@, true);
        lemma_opt_or_lists_mono(s6, user, p0.flagger, "setters.login_name"@, true);
        lemma_opt_eov_mono(s7, user, p0.qa, "qa_contact"@, ExistsField::Qa, false, false);
        lemma_opt_or_lists_mono(s8, user, p0.reporter, "reporter"@, true);
    }
    add_rov(q, &p.comments, "longdescs.count", "equals");
    add_rov(q, &p.votes, "votes", "equals");
    add_or_lists(q, &p.assignee, "assigned_to", true);
    add_or_lists(q, &p.attacher, "attachments.submitter", true);
    add_eov(q, &p.cc, "cc", ExistsField::Cc, true, false);
    add_or_lists(q, &p.commenter, "commenter", true);
    add_or_lists(q, &p.flagger, "setters.login_name", true);
    add_eov(q, &p.qa, "qa_contact", ExistsField::Qa, false, false);
    add_or_lists(q, &p.reporter, "reporter", true);
}

fn encode_text(q: &mut QueryBuilder, p: &Parameters)
    requires
        params_ids_ok(*p),
        stage_text(old(q).st(), old(q).user(), *p).1 <= u64::MAX,
    ensures
        final(q).st() == stage_text(old(q).st(), old(q).user(), *p),
        final(q).user() == old(q).user(),
{
    let ghost user = q.user();
    let ghost p0 = *p;
    let ghost s0 = q.st();
    let ghost s1 = opt_group(s0, user, p0.comment, "AND"@, "longdesc"@);
    let ghost s2 = opt_bool(s1, p0.comment_is_private, "longdescs.isprivate"@);
    let ghost s3 = opt_or_lists(s2, user, p0.comment_tag, "comment_tag"@, false);
    let ghost s4 = opt_group(s3, user, p0.summary, "AND"@, "short_desc"@);
    let ghost s5 = opt_ids(s4, p0.blocks, "blocked"@, ExistsField::Blocks.spec_api_name());
    let ghost s6 = opt_ids(s5, p0.depends, "dependson"@, ExistsField::Depends.spec_api_name());
    proof {
        lemma_opt_or_lists_mono(s2, user, p0.comment_tag, "comment_tag"@, false);
        lemma_opt_group_mono(s3, user, p0.summary, "AND"@, "short_desc"@);
        lemma_opt_ids_mono(s4, p0.blocks, "blocked"@, ExistsField::Blocks.spec_api_name());
        lemma_opt_ids_mono(s5, p0.depends, "dependson"@, ExistsField::Depends.spec_api_name());
        lemma_opt_ids_mono(s6, p0.ids, "bug_id"@, "bug_id"@);
    }
    add_group(q, &p.comment, "AND", "longdesc");
    add_bool(q, &p.comment_is_private, "longdescs.isprivate");
    add_or_lists(q, &p.comment_tag, "comment_tag", false);
    add_group(q, &p.summary, "AND", "short_desc");
    let blocked = ExistsField::Blocks.api();
    add_ids(q, &p.blocks, "blocked", blocked.as_str());
    let dependson = ExistsField::Depends.api();
    add_ids(q, &p.depends, "dependson", dependson.as_str());
    add_ids(q, &p.ids, "bug_id", "bug_id");
}

fn encode_matches(q: &mut QueryBuilder, p: &Parameters)
    requires
        stage_matches(old(q).st(), old(q).user(), *p).1 <= u64::MAX,
    ensures
        final(q).st() == stage_matches(old(q).st(), old(q).user(), *p),
        final(q).user() == old(q).user(),
{
    let ghost user = q.user();
    let ghost p0 = *p;
    let ghost s0 = q.st();
    let ghost s1 = opt_group(s0, user, p0.priority, "OR"@, "priority"@);
    let ghost s2 = opt_group(s1, user, p0.severity, "OR"@, "bug_severity"@);
    let ghost s3 = opt_group(s2, user, p0.version, "OR"@, "version"@);
    let ghost s4 = opt_group(s3, user, p0.component, "OR"@, "component"@);
    let ghost s5 = opt_group(s4, user, p0.product, "OR"@, "product"@);
    let ghost s6 = opt_group(s5, user, p0.platform, "OR"@, "platform"@);
    let ghost s7 = opt_group(s6, user, p0.os, "OR"@, "op_sys"@);
    let ghost s8 = opt_group(s7, user, p0.resolution, "OR"@, "resolution"@);
    proof {
        lemma_opt_group_mono(s1, user, p0.severity, "OR"@, "bug_severity"@);
        lemma_opt_group_mono(s2, user, p0.version, "OR"@, "version"@);
        lemma_opt_group_mono(s3, user, p0.component, "OR"@, "component"@);
        lemma_opt_group_mono(s4, user, p0.product, "OR"@, "product"@);
        lemma_opt_group_mono(s5, user, p0.platform, "OR"@, "platform"@);
        lemma_opt_group_mono(s6, user, p0.os, "OR"@, "op_sys"@);
        lemma_opt_group_mono(s7, user, p0.resolution, "OR"@, "resolution"@);
        lemma_opt_group_mono(s8, user, p0.target, "OR"@, "target_milestone"@);
    }
    add_group(q, &p.priority, "OR", "priority");
    add_group(q, &p.severity, "OR", "bug_severity");
    add_group(q, &p.version, "OR", "version");
    add_group(q, &p.component, "OR", "component");
    add_group(q, &p.product, "OR", "product");
    add_group(q, &p.platform, "OR", "platform");
    add_group(q, &p.os, "OR", "op_sys");
    add_group(q, &p.resolution, "OR", "resolution");
    add_group(q, &p.target, "OR", "target_milestone");
}

fn encode_times(q: &mut QueryBuilder, p: &Parameters) -> (r: Result<(), Error>)
    requires
        stage_times(old(q).st(), old(q).user(), *p).1 <= u64::MAX,
    ensures
        r is Ok <==> closed_error(*p) is None,
        r is Ok ==> final(q).st() == stage_times(old(q).st(), old(q).user(), *p),
        r matches Err(e) ==> closed_error(*p) matches Some(m) && e.is_invalid_value(m),
        final(q).user() == old(q).user(),
{
    let ghost user = q.user();
    let ghost p0 = *p;
    let ghost s0 = q.st();
    let ghost s1 = opt_rov(s0, p0.created, "creation_ts"@, "greaterthaneq"@);
    let ghost s2 = opt_rov(s1, p0.updated, "delta_ts"@, "greaterthaneq"@);
    let ghost s3 = match p0.closed {
        Some(t) => sp_closed(s2, t),
        None => s2,
    };
    let ghost s4 = match p0.quicksearch {
        Some(x) => (sp_insert(s3.0, "quicksearch"@, x@), s3.1),
        None => s3,
    };
    proof {
        lemma_opt_rov_mono(s1, p0.updated, "delta_ts"@, "greaterthaneq"@);
        if let Some(items) = p0.custom_fields {
            lemma_custom_prefix(sp_open(s4, "OR"@), user, items@, 0);
        }
    }
    add_rov(q, &p.created, "creation_ts", "greaterthaneq");
    add_rov(q, &p.updated, "delta_ts", "greaterthaneq");
    if let Some(t) = &p.closed {
        let r = q.closed(t);
        if r.is_err() {
            return r;
        }
    }
    if let Some(x) = &p.quicksearch {
        q.insert(owned("quicksearch"), x.clone());
    }
    if let Some(items) = &p.custom_fields {
        q.custom_fields(items);
    }
    Ok(())
}

fn encode_attach(q: &mut QueryBuilder, p: &Parameters)
    requires
        stage_attach(old(q).st(), old(q).user(), *p).1 <= u64::MAX,
    ensures
        final(q).st() == stage_attach(old(q).st(), old(q).user(), *p),
        final(q).user() == old(q).user(),
{
    let ghost user = q.user();
    let ghost p0 = *p;
    let ghost s0 = q.st();
    let ghost s1 = opt_or_lists(s0, user, p0.attachment_description, "attachments.description"@, false);
    let ghost s2 = opt_or_lists(s1, user, p0.attachment_filename, "attachments.filename"@, false);
    let ghost s3 = opt_or_lists(s2, user, p0.attachment_mime, "attachments.mimetype"@, false);
    proof {
        lemma_opt_or_lists_mono(s1, user, p0.attachment_filename, "attachments.filename"@, false);
        lemma_opt_or_lists_mono(s2, user, p0.attachment_mime, "attachments.mimetype"@, false);
    }
    add_or_lists(q, &p.attachment_description, "attachments.description", false);
    add_or_lists(q, &p.attachment_filename, "attachments.filename", false);
    add_or_lists(q, &p.attachment_mime, "attachments.mimetype", false);
    add_bool(q, &p.attachment_is_obsolete, "attachments.isobsolete");
    add_bool(q, &p.attachment_is_patch, "attachments.ispatch");
    add_bool(q, &p.attachment_is_private, "attachments.isprivate");
}

/// Bug search request.
#[derive(Debug)]
pub struct Request {
    pub service: Bugzilla,
    pub params: Parameters,
}

impl Request {
    /// A search request on a service, with no parameters set.
    pub fn new(service: Bugzilla) -> (r: Request)
        ensures
            r.service == service,
            r.params.spec_is_empty(),
    {
        Request { service, params: Parameters::default() }
    }

    /// User that the `@me` alias stands for in this request.
    pub open spec fn spec_user(&self) -> Option<String> {
        self.service.config.auth.user
    }

    /// Encode the search parameters as query pairs. Open bugs are selected, results
    /// sorted by ascending ID and only bug IDs and summaries returned unless the parameters
    /// say otherwise; a change on an unknown field, or a change time compared by equality,
    /// is refused. When no custom field is named `OP` or `CP`, the advanced clause slots of
    /// the query are numbered from one up without gaps and their groups are balanced (see
    /// `slots_ok`).
    pub fn encode(&self) -> (r: Result<Query, Error>)
        requires
            params_ids_ok(self.params),
            spec_encode(self.spec_user(), self.params).1 <= u64::MAX,
        ensures
            r is Ok <==> encode_error(self.params) is None,
            r matches Ok(q) ==> q@ == spec_encode(self.spec_user(), self.params).0,
            r matches Err(e) ==> encode_error(self.params) matches Some(m) && e.is_invalid_value(m),
            custom_names_plain(self.params) ==> (r matches Ok(q) ==> slots_ok(
                (q@, spec_encode(self.spec_user(), self.params).1),
                0,
            )),
    {
        proof {
            if custom_names_plain(self.params) {
                lemma_encode_slots(self.spec_user(), self.params);
            }
        }
        let ghost user = self.spec_user();
        let ghost p = self.params;
        let ghost s0: QState = (Seq::empty(), 0nat);
        let ghost s1 = stage_base(s0, p);
        let ghost s2 = stage_values(s1, user, p);
        let ghost s3 = stage_changes(s2, user, p);
        let ghost s4 = stage_people(s3, user, p);
        let ghost s5 = stage_text(s4, user, p);
        let ghost s6 = stage_matches(s5, user, p);
        let ghost s7 = stage_times(s6, user, p);
        proof {
            lemma_stage_values_mono(s1, user, p);
            lemma_stage_changes_mono(s2, user, p);
            lemma_stage_people_mono(s3, user, p);
            lemma_stage_text_mono(s4, user, p);
            lemma_stage_matches_mono(s5, user, p);
            lemma_stage_times_mono(s6, user, p);
            lemma_stage_attach_mono(s7, user, p);
        }
        let mut q = QueryBuilder::new(&self.service);
        encode_base(&mut q, &self.params);
        encode_values(&mut q, &self.params);
        if let Err(e) = encode_changes(&mut q, &self.params) {
            return Err(e);
        }
        encode_people(&mut q, &self.params);
        encode_text(&mut q, &self.params);
        encode_matches(&mut q, &self.params);
        if let Err(e) = encode_times(&mut q, &self.params) {
            return Err(e);
        }
        encode_attach(&mut q, &self.params);
        Ok(q.into_query())
    }

    /// Website URL listing the bugs the search finds: `buglist.cgi` under the base URL,
    /// with the encoded search as its query.
    pub fn search_url(&self) -> (r: Result<String, Error>)
        requires
            params_ids_ok(self.params),
            spec_encode(self.spec_user(), self.params).1 <= u64::MAX,
        ensures
            match url_join_result(self.service.config.spec_base(), "buglist.cgi"@) {
                Err(e) => r matches Err(Error::InvalidUrl(m)) && m@ == e,
                Ok(u) => match encode_error(self.params) {
                    Some(m) => r matches Err(x) && x.is_invalid_value(m),
                    None => match url_query_result(u, spec_encode(self.spec_user(), self.params).0) {
                        Ok(s) => r matches Ok(x) && x@ == s,
                        Err(e) => r matches Err(Error::InvalidUrl(m)) && m@ == e,
                    },
                },
            },
    {
        let base = match join_url(self.service.config.base(), "buglist.cgi") {
            Ok(u) => u,
            Err(e) => return Err(Error::InvalidUrl(e)),
        };
        let query = match self.encode() {
            Ok(q) => q,
            Err(e) => return Err(e),
        };
        let pairs = query.pairs();
        match with_query_pairs(base.as_str(), &pairs) {
            Ok(u) => Ok(u),
            Err(e) => Err(Error::InvalidUrl(e)),
        }
    }

    /// Limit and offset for paged searching: when paging is asked for, or no limit is set,
    /// a missing limit becomes the service's maximum number of search results and a missing
    /// offset becomes 0, and the page size is the limit; otherwise the search is not paged.
    pub fn paged(&mut self) -> (r: Option<usize>)
        ensures
            final(self).service == old(self).service,
            if old(self).params.paged == Some(true) || old(self).params.limit is None {
                &&& final(self).params == (Parameters {
                    limit: final(self).params.limit,
                    offset: final(self).params.offset,
                    ..old(self).params
                })
                &&& final(self).params.limit == Some(match old(self).params.limit {
                    Some(l) => l,
                    None => old(self).service.config.max_search_results,
                })
                &&& final(self).params.offset == Some(match old(self).params.offset {
                    Some(o) => o,
                    None => 0usize,
                })
                &&& r == final(self).params.limit
            } else {
                &&& *final(self) == *old(self)
                &&& r is None
            },
    {
        let wanted = match self.params.paged {
            Some(b) => b,
            None => false,
        };
        if wanted || self.params.limit.is_none() {
            if self.params.limit.is_none() {
                self.params.limit = Some(self.service.config.max_search_results);
            }
            if self.params.offset.is_none() {
                self.params.offset = Some(0);
            }
            self.params.limit
        } else {
            None
        }
    }

    /// The request for the page after this one, `paged` results further on (from 0 when
    /// no offset is set), or none when that offset would not fit in a `usize`.
    pub fn next_page(self, paged: usize) -> (r: Option<Request>)
        ensures
            ({
                let o: int = match self.params.offset {
                    Some(o) => o as int,
                    None => 0,
                };
                if o + paged <= usize::MAX {
                    r matches Some(n) && n.service == self.service && n.params == (Parameters {
                        offset: Some((o + paged) as usize),
                        ..self.params
                    })
                } else {
                    r is None
                }
            }),
    {
        let Request { service, mut params } = self;
        match next_offset(params.offset, paged) {
            Some(o) => {
                params.offset = Some(o);
                Some(Request { service, params })
            },
            None => None,
        }
    }

    /// Adds an alias condition: existence, or values to match.
    pub fn alias(self, value: ExistsOrValues<Match>) -> (r: Request)
        ensures
            r.service == self.service,
            r.params == (Parameters { alias: r.params.alias, ..self.params }),
            r.params.alias matches Some(v) && v@ == items(self.params.alias).push(value),
    {
        let Request { service, mut params } = self;
        params.alias = push_item(params.alias, value);
        Request { service, params }
    }

    /// Adds a flag condition: existence, or values to match.
    pub fn flags(self, value: ExistsOrValues<Match>) -> (r: Request)
        ensures
            r.service == self.service,
            r.params == (Parameters { flags: r.params.flags, ..self.params }),
            r.params.flags matches Some(v) && v@ == items(self.params.flags).push(value),
    {
        let Request { service, mut params } = self;
        params.flags = push_item(params.flags, value);
        Request { service, params }
    }

    /// Adds a group condition: existence, or values to match.
    pub fn groups(self, value: ExistsOrValues<Match>) -> (r: Request)
        ensures
            r.service == self.service,
            r.params == (Parameters { groups: r.params.groups, ..self.params }),
            r.params.groups matches Some(v) && v@ == items(self.params.groups).push(value),
    {
        let Request { service, mut params } = self;
        params.groups = push_item(params.groups, value);
        Request { service, params }
    }

    /// Adds a keyword condition: existence, or values to match.
    pub fn keywords(self, value: ExistsOrValues<Match>) -> (r: Request)
        ensures
            r.service == self.service,
            r.params == (Parameters { keywords: r.params.keywords, ..self.params }),
            r.params.keywords matches Some(v) && v@ == items(self.params.keywords).push(value),
    {
        let Request { service, mut params } = self;
        params.keywords = push_item(params.keywords, value);
        Request { service, params }
    }

    /// Adds a see-also condition: existence, or values to match.
    pub fn see_also(self, value: ExistsOrValues<Match>) -> (r: Request)
        ensures
            r.service == self.service,
            r.params == (Parameters { see_also: r.params.see_also, ..self.params }),
            r.params.see_also matches Some(v) && v@ == items(self.params.see_also).push(value),
    {
        let Request { service, mut params } = self;
        params.see_also = push_item(params.see_also, value);
        Request { service, params }
    }

    /// Adds a personal tag condition: existence, or values to match.
    pub fn tags(self, value: ExistsOrValues<Match>) -> (r: Request)
        ensures
            r.service == self.service,
            r.params == (Parameters { tags: r.params.tags, ..self.params }),
            r.params.tags matches Some(v) && v@ == items(self.params.tags).push(value),
    {
        let Request { service, mut params } = self;
        params.tags = push_item(params.tags, value);
        Request { service, params }
    }

    /// Adds a whiteboard condition: existence, or values to match.
    pub fn whiteboard(self, value: ExistsOrValues<Match>) -> (r: Request)
        ensures
            r.service == self.service,
            r.params == (Parameters { whiteboard: r.params.whiteboard, ..self.params }),
            r.params.whiteboard matches Some(v) && v@ == items(self.params.whiteboard).push(value),
    {
        let Request { service, mut params } = self;
        params.whiteboard = push_item(params.whiteboard, value);
        Request { service, params }
    }

    /// Adds a URL condition: existence, or values to match.
    pub fn url(self, value: ExistsOrValues<Match>) -> (r: Request)
        ensures
            r.service == self.service,
            r.params == (Parameters { url: r.params.url, ..self.params }),
            r.params.url matches Some(v) && v@ == items(self.params.url).push(value),
    {
        let Request { service, mut params } = self;
        params.url = push_item(params.url, value);
        Request { service, params }
    }

    /// Sets the attachment condition: existence, or descriptions to match.
    pub fn attachments(self, value: ExistsOrValues<Match>) -> (r: Request)
        ensures
            r.service == self.service,
            r.params == (Parameters { attachments: Some(value), ..self.params }),
    {
        let Request { service, mut params } = self;
        params.attachments = Some(value);
        Request { service, params }
    }

    /// Adds a group of assignees, one of which must match.
    pub fn assignee(self, value: Vec<Match>) -> (r: Request)
        ensures
            r.service == self.service,
            r.params == (Parameters { assignee: r.params.assignee, ..self.params }),
            r.params.assignee matches Some(v) && v@ == items(self.params.assignee).push(value),
    {
        let Request { service, mut params } = self;
        params.assignee = push_item(params.assignee, value);
        Request { service, params }
    }

    /// Adds a group of attachers, one of which must match.
    pub fn attacher(self, value: Vec<Match>) -> (r: Request)
        ensures
            r.service == self.service,
            r.params == (Parameters { attacher: r.params.attacher, ..self.params }),
            r.params.attacher matches Some(v) && v@ == items(self.params.attacher).push(value),
    {
        let Request { service, mut params } = self;
        params.attacher = push_item(params.attacher, value);
        Request { service, params }
    }

    /// Adds a group of commenters, one of which must match.
    pub fn commenter(self, value: Vec<Match>) -> (r: Request)
        ensures
            r.service == self.service,
            r.params == (Parameters { commenter: r.params.commenter, ..self.params }),
            r.params.commenter matches Some(v) && v@ == items(self.params.commenter).push(value),
    {
        let Request { service, mut params } = self;
        params.commenter = push_item(params.commenter, value);
        Request { service, params }
    }

    /// Adds a group of flag setters, one of which must match.
    pub fn flagger(self, value: Vec<Match>) -> (r: Request)
        ensures
            r.service == self.service,
            r.params == (Parameters { flagger: r.params.flagger, ..self.params }),
            r.params.flagger matches Some(v) && v@ == items(self.params.flagger).push(value),
    {
        let Request { service, mut params } = self;
        params.flagger = push_item(params.flagger, value);
        Request { service, params }
    }

    /// Adds a group of reporters, one of which must match.
    pub fn reporter(self, value: Vec<Match>) -> (r: Request)
        ensures
            r.service == self.service,
            r.params == (Parameters { reporter: r.params.reporter, ..self.params }),
            r.params.reporter matches Some(v) && v@ == items(self.params.reporter).push(value),
    {
        let Request { service, mut params } = self;
        params.reporter = push_item(params.reporter, value);
        Request { service, params }
    }

    /// Adds a CC condition: existence, or users to match.
    pub fn cc(self, value: ExistsOrValues<Match>) -> (r: Request)
        ensures
            r.service == self.service,
            r.params == (Parameters { cc: r.params.cc, ..self.params }),
            r.params.cc matches Some(v) && v@ == items(self.params.cc).push(value),
    {
        let Request { service, mut params } = self;
        params.cc = push_item(params.cc, value);
        Request { service, params }
    }

    /// Adds a QA contact condition: existence, or users to match.
    pub fn qa(self, value: ExistsOrValues<Match>) -> (r: Request)
        ensures
            r.service == self.service,
            r.params == (Parameters { qa: r.params.qa, ..self.params }),
            r.params.qa matches Some(v) && v@ == items(self.params.qa).push(value),
    {
        let Request { service, mut params } = self;
        params.qa = push_item(params.qa, value);
        Request { service, params }
    }

    /// Adds a blocks condition: existence, or IDs and ranges to match.
    pub fn blocks(self, value: ExistsOrValues<RangeOrValue<i64>>) -> (r: Request)
        ensures
            r.service == self.service,
            r.params == (Parameters { blocks: r.params.blocks, ..self.params }),
            r.params.blocks matches Some(v) && v@ == items(self.params.blocks).push(value),
    {
        let Request { service, mut params } = self;
        params.blocks = push_item(params.blocks, value);
        Request { service, params }
    }

    /// Adds a depends condition: existence, or IDs and ranges to match.
    pub fn depends(self, value: ExistsOrValues<RangeOrValue<i64>>) -> (r: Request)
        ensures
            r.service == self.service,
            r.params == (Parameters { depends: r.params.depends, ..self.params }),
            r.params.depends matches Some(v) && v@ == items(self.params.depends).push(value),
    {
        let Request { service, mut params } = self;
        params.depends = push_item(params.depends, value);
        Request { service, params }
    }

    /// Adds a condition on bug IDs: existence, or IDs and ranges to match.
    pub fn ids(self, value: ExistsOrValues<RangeOrValue<i64>>) -> (r: Request)
        ensures
            r.service == self.service,
            r.params == (Parameters { ids: r.params.ids, ..self.params }),
            r.params.ids matches Some(v) && v@ == items(self.params.ids).push(value),
    {
        let Request { service, mut params } = self;
        params.ids = push_item(params.ids, value);
        Request { service, params }
    }

    /// Sets the sort order.
    pub fn order(self, value: Vec<Order<OrderField>>) -> (r: Request)
        ensures
            r.service == self.service,
            r.params == (Parameters { order: Some(value), ..self.params }),
    {
        let Request { service, mut params } = self;
        params.order = Some(value);
        Request { service, params }
    }

    /// Sets the fields returned.
    pub fn fields(self, value: Vec<FilterField>) -> (r: Request)
        ensures
            r.service == self.service,
            r.params == (Parameters { fields: Some(value), ..self.params }),
    {
        let Request { service, mut params } = self;
        params.fields = Some(value);
        Request { service, params }
    }

    /// Sets the statuses to match.
    pub fn status(self, value: Vec<String>) -> (r: Request)
        ensures
            r.service == self.service,
            r.params == (Parameters { status: Some(value), ..self.params }),
    {
        let Request { service, mut params } = self;
        params.status = Some(value);
        Request { service, params }
    }

    /// Sets the summary terms to match.
    pub fn summary(self, value: Vec<Match>) -> (r: Request)
        ensures
            r.service == self.service,
            r.params == (Parameters { summary: Some(value), ..self.params }),
    {
        let Request { service, mut params } = self;
        params.summary = Some(value);
        Request { service, params }
    }

    /// Sets the creation time condition.
    pub fn created(self, value: RangeOrValue<TimeDeltaOrStatic>) -> (r: Request)
        ensures
            r.service == self.service,
            r.params == (Parameters { created: Some(value), ..self.params }),
    {
        let Request { service, mut params } = self;
        params.created = Some(value);
        Request { service, params }
    }

    /// Sets the last update time condition.
    pub fn updated(self, value: RangeOrValue<TimeDeltaOrStatic>) -> (r: Request)
        ensures
            r.service == self.service,
            r.params == (Parameters { updated: Some(value), ..self.params }),
    {
        let Request { service, mut params } = self;
        params.updated = Some(value);
        Request { service, params }
    }

    /// Sets the closing time condition.
    pub fn closed(self, value: RangeOrValue<TimeDeltaOrStatic>) -> (r: Request)
        ensures
            r.service == self.service,
            r.params == (Parameters { closed: Some(value), ..self.params }),
    {
        let Request { service, mut params } = self;
        params.closed = Some(value);
        Request { service, params }
    }

    /// Sets the maximum number of results.
    pub fn limit(self, value: usize) -> (r: Request)
        ensures
            r.service == self.service,
            r.params == (Parameters { limit: Some(value), ..self.params }),
    {
        let Request { service, mut params } = self;
        params.limit = Some(value);
        Request { service, params }
    }

    /// Sets the number of results skipped.
    pub fn offset(self, value: usize) -> (r: Request)
        ensures
            r.service == self.service,
            r.params == (Parameters { offset: Some(value), ..self.params }),
    {
        let Request { service, mut params } = self;
        params.offset = Some(value);
        Request { service, params }
    }

    /// Sets the quicksearch text.
    pub fn quicksearch(self, value: String) -> (r: Request)
        ensures
            r.service == self.service,
            r.params == (Parameters { quicksearch: Some(value), ..self.params }),
    {
        let Request { service, mut params } = self;
        params.quicksearch = Some(value);
        Request { service, params }
    }

    /// Adds a condition that `field` changed before now.
    pub fn changed(self, field: &str) -> (r: Request)
        ensures
            r.service == self.service,
            r.params == (Parameters { changed: r.params.changed, ..self.params }),
            r.params.changed matches Some(v) && v@.drop_last() == items(self.params.changed)
                && v@.len() == items(self.params.changed).len() + 1
                && v@.last().0@.map_values(|f: String| f@) == seq![field@]
                && (v@.last().1 matches RangeOrValue::RangeOp(RangeOp::Less(t))
                && t.spec_value() == "now"@),
    {
        let now = RangeOrValue::RangeOp(RangeOp::Less(TimeDeltaOrStatic::now()));
        self.changed_at(field, now)
    }

    /// Adds a condition that `field` changed at times matching `value`.
    pub fn changed_at(self, field: &str, value: RangeOrValue<TimeDeltaOrStatic>) -> (r: Request)
        ensures
            r.service == self.service,
            r.params == (Parameters { changed: r.params.changed, ..self.params }),
            r.params.changed matches Some(v) && v@.drop_last() == items(self.params.changed)
                && v@.len() == items(self.params.changed).len() + 1
                && v@.last().0@.map_values(|f: String| f@) == seq![field@]
                && v@.last().1 == value,
    {
        let Request { service, mut params } = self;
        let mut fields: Vec<String> = Vec::new();
        fields.push(owned(field));
        assert(fields@.map_values(|f: String| f@) =~= seq![field@]);
        let ghost before = items(params.changed);
        params.changed = push_item(params.changed, (fields, value));
        proof {
            let v = params.changed->0@;
            assert(v.drop_last() =~= before);
        }
        Request { service, params }
    }

    /// Adds a condition that `field` was changed by one of `values`.
    pub fn changed_by(self, field: &str, values: Vec<String>) -> (r: Request)
        ensures
            r.service == self.service,
            r.params == (Parameters { changed_by: r.params.changed_by, ..self.params }),
            r.params.changed_by matches Some(v) && v@.drop_last() == items(self.params.changed_by)
                && v@.len() == items(self.params.changed_by).len() + 1
                && v@.last().0@.map_values(|f: String| f@) == seq![field@]
                && v@.last().1 == values,
    {
        let Request { service, mut params } = self;
        let mut fields: Vec<String> = Vec::new();
        fields.push(owned(field));
        assert(fields@.map_values(|f: String| f@) =~= seq![field@]);
        let ghost before = items(params.changed_by);
        params.changed_by = push_item(params.changed_by, (fields, values));
        proof {
            let v = params.changed_by->0@;
            assert(v.drop_last() =~= before);
        }
        Request { service, params }
    }

    /// Adds a condition that `field` changed from `value`.
    pub fn changed_from(self, field: &str, value: &str) -> (r: Request)
        ensures
            r.service == self.service,
            r.params == (Parameters { changed_from: r.params.changed_from, ..self.params }),
            r.params.changed_from matches Some(v) && v@.drop_last() == items(self.params.changed_from)
                && v@.len() == items(self.params.changed_from).len() + 1
                && v@.last().0@ == field@ && v@.last().1@ == value@,
    {
        let Request { service, mut params } = self;
        let ghost before = items(params.changed_from);
        params.changed_from = push_item(params.changed_from, (owned(field), owned(value)));
        proof {
            let v = params.changed_from->0@;
            assert(v.drop_last() =~= before);
        }
        Request { service, params }
    }

    /// Adds a condition that `field` changed to `value`.
    pub fn changed_to(self, field: &str, value: &str) -> (r: Request)
        ensures
            r.service == self.service,
            r.params == (Parameters { changed_to: r.params.changed_to, ..self.params }),
            r.params.changed_to matches Some(v) && v@.drop_last() == items(self.params.changed_to)
                && v@.len() == items(self.params.changed_to).len() + 1
                && v@.last().0@ == field@ && v@.last().1@ == value@,
    {
        let Request { service, mut params } = self;
        let ghost before = items(params.changed_to);
        params.changed_to = push_item(params.changed_to, (owned(field), owned(value)));
        proof {
            let v = params.changed_to->0@;
            assert(v.drop_last() =~= before);
        }
        Request { service, params }
    }

}

fn values_signed(rs: &Vec<RangeOrValue<i64>>) -> (r: bool)
    ensures
        r == (forall|j: int| 0 <= j < rs@.len() ==> super::builder::signed_ok(#[trigger] rs@[j])),
{
    let mut j: usize = 0;
    while j < rs.len()
        invariant
            j <= rs@.len(),
            forall|m: int| 0 <= m < j ==> super::builder::signed_ok(#[trigger] rs@[m]),
        decreases rs.len() - j,
    {
        if let RangeOrValue::Value(x) = &rs[j] {
            if *x == i64::MIN {
                assert(!super::builder::signed_ok(rs@[j as int]));
                return false;
            }
        }
        j = j + 1;
    }
    true
}

fn ids_valid(v: &Option<Vec<ExistsOrValues<RangeOrValue<i64>>>>) -> (r: bool)
    ensures
        r == (v matches Some(x) ==> super::builder::ids_ok(x@)),
{
    let vs = match v {
        Some(x) => x,
        None => return true,
    };
    let mut i: usize = 0;
    while i < vs.len()
        invariant
            *v == Some(*vs),
            i <= vs@.len(),
            forall|k: int| 0 <= k < i ==> (#[trigger] vs@[k] matches ExistsOrValues::Values(rs) ==> forall|j: int|
                0 <= j < rs@.len() ==> super::builder::signed_ok(#[trigger] rs@[j])),
        decreases vs.len() - i,
    {
        match &vs[i] {
            ExistsOrValues::Values(rs) => {
                if !values_signed(rs) {
                    proof {
                        let j = choose|j: int| 0 <= j < rs@.len() && !super::builder::signed_ok(#[trigger] rs@[j]);
                        assert(vs@[i as int] == ExistsOrValues::Values(*rs));
                        assert(!super::builder::signed_ok(rs@[j]));
                    }
                    return false;
                }
            },
            ExistsOrValues::Exists(_) => {},
        }
        i = i + 1;
    }
    true
}

/// Whether every bug number in the parameters can be negated, as encoding requires.
pub fn params_ids_valid(p: &Parameters) -> (r: bool)
    ensures
        r == params_ids_ok(*p),
{
    ids_valid(&p.blocks) && ids_valid(&p.depends) && ids_valid(&p.ids)
}

/// Items of an optional list.
pub open spec fn items<T>(o: Option<Vec<T>>) -> Seq<T> {
    match o {
        Some(v) => v@,
        None => Seq::empty(),
    }
}

/// An optional list with one more item at its end; a missing list becomes a new one.
fn push_item<T>(o: Option<Vec<T>>, x: T) -> (r: Option<Vec<T>>)
    ensures
        r matches Some(v) && v@ == items(o).push(x),
{
    match o {
        Some(v) => {
            let mut v = v;
            v.push(x);
            Some(v)
        },
        None => {
            let mut v = Vec::new();
            v.push(x);
            assert(v@ =~= Seq::<T>::empty().push(x));
            Some(v)
        },
    }
}

/// Offset of the page after one at `offset` (0 when unset) with `paged` results per page,
/// or nothing where it would not fit in a `usize`.
pub fn next_offset(offset: Option<usize>, paged: usize) -> (r: Option<usize>)
    ensures
        ({
            let o: int = match offset {
                Some(o) => o as int,
                None => 0,
            };
            if o + paged <= usize::MAX {
                r == Some((o + paged) as usize)
            } else {
                r is None
            }
        }),
{
    let o = match offset {
        Some(o) => o,
        None => 0,
    };
    o.checked_add(paged)
}

} // verus!
