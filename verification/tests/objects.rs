use bugbite::objects::bugzilla::{
    Attachment, Bug, BugFlag, BugUpdate, BugzillaField, BugzillaFieldValue, Change, Comment, Event, Flag,
    FlagStatus, Timestamp,
};
use bugbite::objects::{Base64, RangeOp, RangeOrValue, SetChange, SetChanges};
use bugbite::output::{render_width, Layout, Render};
use bugbite::service::bugzilla::{BugField, FilterField, GroupField};
use bugbite::traits::{FromText, ToText};
use bugbite::error::Error;

fn time(secs: i64) -> Timestamp {
    Timestamp::from_parts(secs, 0).unwrap()
}

fn layout() -> Layout {
    Layout { width: 90, verbose: false }
}

fn comment(count: usize, creator: &str, secs: i64, text: &str) -> Comment {
    Comment {
        id: count as u64,
        bug_id: 1,
        attachment_id: None,
        count,
        text: text.to_string(),
        creator: creator.to_string(),
        created: time(secs),
        is_private: false,
        tags: vec![],
    }
}

#[test]
fn base64_roundtrip() {
    let b = Base64::from_str("YnVnYml0ZQo=").unwrap();
    assert_eq!(b.0, b"bugbite\n".to_vec());
    assert_eq!(b.to_text(), "YnVnYml0ZQo=");
    let again = Base64::from_str(&Base64(vec![0, 255, 7]).to_text()).unwrap();
    assert_eq!(again.0, vec![0, 255, 7]);
    assert!(Base64(vec![]).is_empty());
    match Base64::from_str("***") {
        Err(Error::InvalidValue(m)) => assert!(m.starts_with("failed decoding base64 data: ")),
        other => panic!("unexpected: {other:?}"),
    }
}

#[test]
fn flag_roundtrip() {
    for text in ["flag1+", "flag2-", "flag3?"] {
        let flag = Flag::from_str(text).unwrap();
        assert_eq!(flag.to_text(), text);
    }
    let flag = Flag::from_str("review?").unwrap();
    assert_eq!(flag.name, "review");
    assert!(matches!(flag.status, FlagStatus::Requested));
    assert!(Flag::from_str("review").is_err());
}

#[test]
fn range_matches() {
    let r: RangeOrValue<u64> = RangeOrValue::from_text("<10").unwrap();
    assert!(matches!(r, RangeOrValue::RangeOp(RangeOp::Less(10))));
    assert!(r.matches(&9));
    assert!(!r.matches(&10));
    let r: RangeOrValue<u64> = RangeOrValue::from_text("10..20").unwrap();
    assert!(r.matches(&10));
    assert!(!r.matches(&20));
    assert_eq!(r.to_text(), "10..20");
    let r: RangeOrValue<u64> = RangeOrValue::from_text("10..=20").unwrap();
    assert!(r.matches(&20));
    let r: RangeOrValue<u64> = RangeOrValue::from_text("5").unwrap();
    assert!(r.matches(&5));
    assert!(!r.matches(&6));
    assert!(RangeOrValue::<u64>::from_text("x").is_err());
}

#[test]
fn set_changes_grouped() {
    let changes = vec![
        SetChange::Add("a".to_string()),
        SetChange::Remove("b".to_string()),
        SetChange::Add("c".to_string()),
    ];
    let c = SetChanges::from_changes(changes);
    assert_eq!(c.add.unwrap(), vec!["a".to_string(), "c".to_string()]);
    assert_eq!(c.remove.unwrap(), vec!["b".to_string()]);
    assert!(c.set.is_none());
    let c = SetChanges::<String>::from_changes(vec![]);
    assert_eq!(c.set.unwrap().len(), 0);
}

#[test]
fn timestamp_text() {
    assert_eq!(time(1708331702).text(), "2024-02-19 08:35:02 UTC");
    assert!(time(1).le(&time(2)));
    assert!(!time(2).le(&time(1)));
}

#[test]
fn attachment_size() {
    let a = Attachment {
        id: 21,
        bug_id: 1,
        file_name: "test.txt".to_string(),
        summary: "test.txt".to_string(),
        size: 1024,
        creator: "person".to_string(),
        content_type: "text/plain".to_string(),
        is_private: false,
        is_obsolete: false,
        is_patch: false,
        created: time(1708331702),
        updated: time(1708331702),
        flags: vec![],
        data: b"bugbite\n".to_vec(),
    };
    assert_eq!(a.human_size(), "1 KiB");
    assert!(!a.is_empty());
    assert!(!a.is_deleted());
}

#[test]
fn bug_updates_in_order() {
    let mut bug = Bug::new(1);
    bug.comments = vec![comment(0, "a", 10, "first"), comment(1, "b", 30, "third")];
    bug.history = vec![Event {
        who: "c".to_string(),
        when: time(20),
        changes: vec![Change {
            field_name: "status".to_string(),
            removed: Some("NEW".to_string()),
            added: Some("FIXED".to_string()),
            attachment_id: None,
        }],
    }];
    let updates = bug.updates();
    assert_eq!(updates, vec![BugUpdate::Comment(0), BugUpdate::Event(0), BugUpdate::Comment(1)]);
}

#[test]
fn comment_render() {
    let c = comment(2, "user@domain.com", 1708331702, "  some text  ");
    let out = c.render(Layout { width: 20, verbose: false });
    assert_eq!(
        out,
        "Comment #2 by user@domain.com, 2024-02-19 08:35:02 UTC\n--------------------\nsome text\n"
    );
    assert_eq!(c.reply(), "(In reply to user from comment #2)\n>   some text  ");
}

#[test]
fn bug_search_lines() {
    let mut bug = Bug::new(12);
    bug.summary = Some("a summary".to_string());
    bug.alias = vec!["a1".to_string(), "a2".to_string()];
    assert_eq!(bug.search_line(&vec![BugField::Id]), "12");
    assert_eq!(bug.search_line(&vec![BugField::Assignee]), "None");
    assert_eq!(bug.search_line(&vec![BugField::Id, BugField::Summary]), format!("{:<9} {}", 12, "a summary"));
    assert_eq!(bug.search_line(&vec![BugField::Alias, BugField::Id]), format!("{:<20} {:<9}", "a1,a2", 12));
    assert_eq!(
        bug.search_line_filtered(&vec![FilterField::Group(GroupField::Default)]),
        format!("{:<9} {}", 12, "a summary")
    );
    assert_eq!(bug.search_line_filtered(&vec![FilterField::Group(GroupField::Extra)]), "12");
    assert_eq!(bug.search_line_filtered(&vec![FilterField::Bug(BugField::Summary)]), "a summary");
}

#[test]
fn bug_render_fields() {
    let mut bug = Bug::new(12);
    bug.summary = Some("a summary".to_string());
    bug.status = Some("NEW".to_string());
    let out = bug.render(layout());
    assert!(out.starts_with("Summary      : a summary\n"));
    assert!(out.contains("Status       : NEW\n"));
    assert!(out.contains("ID           : 12\n"));
    assert_eq!(render_width(true, 60), 60);
    assert_eq!(render_width(true, 120), 90);
    assert_eq!(render_width(false, 60), 90);
}

#[test]
fn bugzilla_field_display() {
    let value = |n: &str| BugzillaFieldValue { name: n.to_string(), sort_key: None, description: None, is_open: None };
    let field = BugzillaField {
        id: 1,
        kind: 2,
        is_custom: false,
        name: "bug_status".to_string(),
        display_name: "Status".to_string(),
        is_mandatory: true,
        values: vec![value(""), value("NEW"), value("FIXED"), value("NEW")],
    };
    assert_eq!(field.display(), "Name: bug_status\nDisplay name: Status\nValues: NEW, FIXED");
    let field = BugzillaField { values: vec![], ..field };
    assert_eq!(field.display(), "Name: bug_status\nDisplay name: Status");
}

#[test]
fn bug_flag_list() {
    let mut bug = Bug::new(1);
    bug.flags = vec![BugFlag {
        flag: Flag::from_str("review+").unwrap(),
        setter: "user".to_string(),
        created: time(0),
        updated: time(0),
    }];
    assert_eq!(bug.search_line(&vec![BugField::Flags]), "review+");
}

#[test]
fn range_op_symbols() {
    assert!(matches!(RangeOp::<u64>::from_text("<10"), Ok(RangeOp::Less(10))));
    assert!(matches!(RangeOp::<u64>::from_text("<=10"), Ok(RangeOp::LessOrEqual(10))));
    assert!(matches!(RangeOp::<u64>::from_text("=3"), Ok(RangeOp::Equal(3))));
    assert!(matches!(RangeOp::<u64>::from_text("!=3"), Ok(RangeOp::NotEqual(3))));
    assert!(matches!(RangeOp::<u64>::from_text(">=3"), Ok(RangeOp::GreaterOrEqual(3))));
    assert!(matches!(RangeOp::<u64>::from_text(">3"), Ok(RangeOp::Greater(3))));
    assert_eq!(RangeOp::<u64>::from_text("<").unwrap_err(), "invalid range op: <");
    assert_eq!(RangeOp::<u64>::from_text("3\n").unwrap_err(), "invalid range op: 3\n");
    assert!(RangeOp::<u64>::from_text("<=").unwrap_err().starts_with("invalid range value: =: "));
}
