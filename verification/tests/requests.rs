use bugbite::error::Error;
use bugbite::service::bugzilla::attachment::update::Parameters as AttachmentUpdate;
use bugbite::service::bugzilla::get::assemble;
use bugbite::service::bugzilla::Bugzilla;
use bugbite::objects::bugzilla::Bug;
use bugbite::time::TimeDeltaOrStatic;
use bugbite::traits::FromText;

fn service() -> Bugzilla {
    Bugzilla::new("https://bugs.test").unwrap()
}

fn ids(v: &[&str]) -> Vec<String> {
    v.iter().map(|s| s.to_string()).collect()
}

fn no_ids(r: Result<String, Error>) {
    match r {
        Err(Error::InvalidRequest(m)) => assert_eq!(m, "no IDs specified"),
        other => panic!("expected a no-IDs error, got {other:?}"),
    }
}

#[test]
fn comment_request() {
    let s = service();
    no_ids(s.comment(vec![]).url());
    assert_eq!(s.comment(ids(&["1"])).url().unwrap(), "https://bugs.test/rest/bug/1/comment");
    let time = TimeDeltaOrStatic::from_text("2020").unwrap();
    let r = s.comment(ids(&["1", "2"])).created_after(time);
    assert_eq!(r.url().unwrap(), "https://bugs.test/rest/bug/1/comment?ids=2&new_since=2020");
}

#[test]
fn history_request() {
    let s = service();
    no_ids(s.history(vec![]).url());
    let mut r = s.history(ids(&["1", "2", "3"]));
    assert_eq!(r.url().unwrap(), "https://bugs.test/rest/bug/1/history?ids=2&ids=3");
    r.created_after(TimeDeltaOrStatic::from_text("1d").unwrap());
    r.creator("user1".to_string());
    assert_eq!(r.url().unwrap(), "https://bugs.test/rest/bug/1/history?ids=2&ids=3&new_since=1d");
}

#[test]
fn get_item_request() {
    let s = service();
    no_ids(s.attachment_get_item(vec![]).url());
    let r = s.attachment_get_item(ids(&["12345", "23456", "34567"]));
    assert_eq!(r.url().unwrap(), "https://bugs.test/rest/bug/12345/attachment?ids=23456&ids=34567");
    let r = r.data(false);
    assert_eq!(
        r.url().unwrap(),
        "https://bugs.test/rest/bug/12345/attachment?ids=23456&ids=34567&exclude_fields=data"
    );
    assert!(r.keeps(true));
    assert!(r.keeps(false));
    assert!(!r.data(true).keeps(true));
}

#[test]
fn get_request() {
    let s = service();
    no_ids(s.attachment_get(vec![]).url());
    let r = s.attachment_get(vec![123, 321]);
    assert_eq!(r.url().unwrap(), "https://bugs.test/rest/bug/attachment/123?attachment_ids=321");
    match r.check(1, true, false) {
        Err(Error::InvalidValue(m)) => assert_eq!(m, "nonexistent attachment: 1"),
        other => panic!("unexpected: {other:?}"),
    }
    match r.check(21, false, true) {
        Err(Error::InvalidValue(m)) => assert_eq!(m, "deleted attachment: 21"),
        other => panic!("unexpected: {other:?}"),
    }
    assert!(r.check(21, false, false).is_ok());
    let r = r.data(false);
    assert!(r.check(21, false, true).is_ok());
    assert_eq!(
        r.url().unwrap(),
        "https://bugs.test/rest/bug/attachment/123?attachment_ids=321&exclude_fields=data"
    );
}

#[test]
fn update_request() {
    let s = service();
    let r = s.attachment_update(vec![]);
    match r.url() {
        Err(Error::InvalidRequest(m)) => assert_eq!(m, "no IDs specified"),
        other => panic!("unexpected: {other:?}"),
    }
    assert!(matches!(s.attachment_update(vec![1]).encode(), Err(Error::EmptyParams)));
    let mut r = s.attachment_update(vec![1, 2]);
    assert_eq!(r.url().unwrap(), "https://bugs.test/rest/bug/attachment/1");
    r.params = AttachmentUpdate::default();
    r.params.patch = Some(true);
    r.params.name = Some("fix.patch".to_string());
    let p = r.encode().unwrap();
    assert_eq!(p.ids, vec![1, 2]);
    assert_eq!(p.file_name.as_deref(), Some("fix.patch"));
    assert_eq!(p.is_patch, Some(true));
    assert_eq!(p.summary, None);
}

#[test]
fn bug_get_request() {
    let s = service();
    no_ids(s.get(vec![]).url());
    let r = s.get(ids(&["1", "2"]));
    assert_eq!(
        r.url().unwrap(),
        "https://bugs.test/rest/bug/1?ids=2&include_fields=_default%2Ctags&exclude_fields=update_token"
    );
    let r = r.attachments(true).comments(true).history(false);
    assert!(!r.attachments.as_ref().unwrap().data);
    assert_eq!(r.comments.as_ref().unwrap().ids, ids(&["1", "2"]));
    assert!(r.history.is_none());
}

#[test]
fn bug_get_assemble() {
    let bugs = vec![Bug::new(1), Bug::new(2)];
    let history = vec![vec![]];
    let bugs = assemble(bugs, vec![], vec![], history);
    assert_eq!(bugs.len(), 2);
    assert_eq!(bugs[0].id, 1);
    assert_eq!(bugs[1].id, 2);
    assert!(bugs[1].history.is_empty());
}

#[test]
fn fields_and_version_request() {
    let s = service();
    assert_eq!(s.fields().url().unwrap(), "https://bugs.test/rest/field/bug");
    assert_eq!(s.version().url().unwrap(), "https://bugs.test/rest/version");
}

#[test]
fn user_get_request() {
    let s = service();
    no_ids(s.user_get(vec![]).url());
    let r = s
        .user_get(ids(&["123", "user@domain.com", "user"]))
        .groups(ids(&["5", "admin"]))
        .disabled(true);
    assert_eq!(
        r.url().unwrap(),
        "https://bugs.test/rest/user?ids=123&names=user%40domain.com&match=user&group_ids=5&groups=admin&include_disabled=true"
    );
}

#[test]
fn user_update_request() {
    let s = service();
    no_ids(s.user_update(vec![]).url());
    assert!(matches!(s.user_update(ids(&["1"])).encode(), Err(Error::EmptyParams)));
    let mut r = s.user_update(ids(&["12", "user@domain.com", "34", "+5"]));
    assert_eq!(r.url().unwrap(), "https://bugs.test/rest/user/12");
    r.params.email_enabled = Some(false);
    let p = r.encode().unwrap();
    assert_eq!(p.ids, vec![12, 34, 5]);
    assert_eq!(p.names, ids(&["user@domain.com"]));
    assert_eq!(p.email_enabled, Some(false));
}

#[test]
fn user_create_request() {
    let s = service();
    match s.user_create(vec![]).users() {
        Err(Error::InvalidRequest(m)) => assert_eq!(m, "no emails specified"),
        other => panic!("unexpected: {other:?}"),
    }
    let r = s.user_create(ids(&["user@domain.com"])).name(Some("A User".to_string()));
    assert_eq!(r.url().unwrap(), "https://bugs.test/rest/user");
    let users = r.users().unwrap();
    assert_eq!(users.len(), 1);
    assert_eq!(users[0].email, "user@domain.com");
    assert_eq!(users[0].name.as_deref(), Some("A User"));
    assert_eq!(users[0].password, None);
}

#[test]
fn create_request() {
    let mut service = service();
    service.config.auth.user = Some("user".to_string());
    service.config.auth.password = Some("pass".to_string());

    // missing required fields without defaults
    match service.create().encode() {
        Err(Error::InvalidRequest(m)) => {
            assert_eq!(m, "missing required fields: component, description, product, summary")
        }
        other => panic!("unexpected: {other:?}"),
    }

    // empty required fields
    match service.create().os("").description("a").summary("b").encode() {
        Err(Error::InvalidRequest(m)) => assert_eq!(m, "missing required fields: component, os, product"),
        other => panic!("unexpected: {other:?}"),
    }

    // defaults fill the remaining required fields
    let p = service
        .create()
        .component("TestComponent")
        .product("TestProduct")
        .description("description")
        .summary("summary")
        .assignee("@me")
        .encode()
        .unwrap();
    assert_eq!(p.op_sys, "All");
    assert_eq!(p.platform, "All");
    assert_eq!(p.priority, "Normal");
    assert_eq!(p.severity, "normal");
    assert_eq!(p.version, "unspecified");
    assert_eq!(p.assigned_to.as_deref(), Some("user"));
}

#[test]
fn service_builder() {
    let b = Bugzilla::builder("https://bugs.test///").unwrap().name("test").user("u").password("p");
    let s = b.build();
    assert_eq!(s.config.base, "https://bugs.test/");
    assert_eq!(s.config.name, "test");
    assert_eq!(s.config.auth.user.as_deref(), Some("u"));
    assert_eq!(s.item_url("12"), "https://bugs.test/show_bug.cgi?id=12");
    match Bugzilla::new("not a url") {
        Err(Error::InvalidValue(m)) => assert!(m.starts_with("invalid URL: not a url: ")),
        other => panic!("unexpected: {other:?}"),
    }
}
