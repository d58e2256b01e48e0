use bugbite::client::builder;
use bugbite::config::{connection_name, Config, ServiceConfig};
use bugbite::service::bugzilla::attachment::create::{mime_type_of, tarball_name, tarball_result, Compression, ToolOutcome};
use bugbite::service::bugzilla::{BugField, FilterField, GroupField};
use bugbite::traits::{FromText, ToText};
use bugbite::error::{Error, HttpStatus};
use bugbite::objects::bugzilla::{Comment, Event, Timestamp};
use bugbite::objects::github::Issue as GithubIssue;
use bugbite::objects::redmine::{
    skip_null_fields, CustomField, CustomFieldValue, Issue, IssueField, IssueRaw, Person,
};
use bugbite::output::{found_output, search_output, truncate};
use bugbite::query::Query;
use bugbite::service::bugzilla::{comment, history, Bugzilla};
use bugbite::service::{ClientParameters, ServiceKind};
use bugbite::text::{last_lines, str_contains, trim};

fn time(secs: i64) -> Timestamp {
    Timestamp::from_parts(secs, 0).unwrap()
}

fn note(text: &str) -> bugbite::objects::redmine::Comment {
    bugbite::objects::redmine::Comment {
        count: 0,
        text: text.to_string(),
        user: Person { id: 2, name: "user2".to_string() },
        created: time(100),
    }
}

#[test]
fn redmine_issue_comments() {
    let raw = IssueRaw {
        id: 7,
        assigned_to: None,
        subject: Some("subject".to_string()),
        status: None,
        tracker: None,
        priority: None,
        author: Some(Person { id: 1, name: "user1".to_string() }),
        custom_fields: None,
        closed_on: None,
        created_on: Some(time(50)),
        updated_on: None,
        description: Some("the description".to_string()),
        journals: vec![note("first"), note(""), note("second")],
    };
    let issue = Issue::from_raw(raw);
    assert_eq!(issue.comments.len(), 3);
    assert_eq!(issue.comments[0].count, 0);
    assert_eq!(issue.comments[0].text, "the description");
    assert_eq!(issue.comments[0].user.name, "user1");
    assert_eq!(issue.comments[1].count, 1);
    assert_eq!(issue.comments[1].text, "first");
    assert_eq!(issue.comments[2].count, 2);
    assert_eq!(issue.comments[2].text, "second");
    assert_eq!(issue.search_line(&vec![IssueField::Id]), "7");
    assert_eq!(issue.search_line(&vec![IssueField::Id, IssueField::Subject]), format!("{:<8} {}", 7, "subject"));
    assert_eq!(issue.search_line(&vec![IssueField::Status]), "None");
}

#[test]
fn redmine_custom_fields() {
    let field = |name: &str, value: CustomFieldValue| CustomField { id: 1, name: name.to_string(), value };
    let fields = vec![
        field("a", CustomFieldValue::Null),
        field("b", CustomFieldValue::Text(String::new())),
        field("c", CustomFieldValue::Text("x".to_string())),
        field("d", CustomFieldValue::Array(vec![])),
    ];
    let kept = skip_null_fields(Some(fields)).unwrap();
    assert_eq!(kept.len(), 1);
    assert_eq!(kept[0].name, "c");
    assert!(skip_null_fields(Some(vec![field("a", CustomFieldValue::Null)])).is_none());
    assert!(skip_null_fields(None).is_none());
}

#[test]
fn github_issue() {
    let issue = GithubIssue { id: "42".to_string(), title: None };
    assert_eq!(issue.search_display(), "42");
    assert_eq!(issue.display(), "ID: 42\n");
}

#[test]
fn comment_filter() {
    let service = Bugzilla::new("https://bugs.test").unwrap();
    let c = |attachment: Option<u64>, creator: &str| Comment {
        id: 1,
        bug_id: 1,
        attachment_id: attachment,
        count: 1,
        text: String::new(),
        creator: creator.to_string(),
        created: time(0),
        is_private: false,
        tags: vec![],
    };
    let r = service.comment(vec!["1".to_string()]).creator("user1".to_string());
    let kept = r.params.filter_all(vec![c(None, "user1@a"), c(None, "user2@a"), c(Some(3), "user1@b")]);
    assert_eq!(kept.len(), 2);
    let r = r.attachment(true);
    let kept = r.params.filter_all(vec![c(None, "user1@a"), c(Some(3), "user1@b")]);
    assert_eq!(kept.len(), 1);
    assert_eq!(kept[0].attachment_id, Some(3));
    let mut p = comment::Parameters::default();
    p.attachment = Some(false);
    assert!(p.filter(&c(None, "x")));
}

#[test]
fn history_filter() {
    let event = |who: &str| Event { who: who.to_string(), when: time(0), changes: vec![] };
    let mut p = history::Parameters::default();
    assert_eq!(p.filter_all(vec![event("user1"), event("user2")]).len(), 2);
    p.creator = Some("user1".to_string());
    let kept = p.filter_all(vec![event("user1"), event("user2"), event("user12")]);
    assert_eq!(kept.len(), 2);
    assert_eq!(kept[1].who, "user12");
}

#[test]
fn text_helpers() {
    assert!(str_contains("user1@domain", "1@d"));
    assert!(!str_contains("user", "users"));
    assert!(str_contains("anything", ""));
    assert_eq!(trim("  a b \n"), "a b");
    assert_eq!(last_lines("a\nb\nc\n", 2), "b\nc");
}

#[test]
fn query_read_after_write() {
    let mut q = Query::new();
    q.append("a".to_string(), "1".to_string());
    q.append("b".to_string(), "2".to_string());
    q.append("a".to_string(), "3".to_string());
    q.insert("a".to_string(), "4".to_string());
    assert_eq!(q.pairs(), vec![("b".to_string(), "2".to_string()), ("a".to_string(), "4".to_string())]);
}

#[test]
fn client_settings() {
    let p = ClientParameters::default();
    let s = p.settings().unwrap();
    assert!(!s.insecure);
    assert_eq!(s.pool_max_idle, 3);
    assert_eq!(s.timeout, 30000);
    let mut p = ClientParameters::default();
    p.concurrent = Some(8);
    p.proxy = Some("not a url".to_string());
    match p.settings() {
        Err(Error::InvalidValue(m)) => assert!(m.starts_with("invalid proxy URL: ")),
        other => panic!("unexpected: {other:?}"),
    }
    let b = builder();
    assert_eq!(b.timeout, 30);
    assert!(!b.insecure);
    let b = b.insecure(true).timeout(5);
    assert_eq!((b.timeout, b.insecure), (5, true));
}

#[test]
fn config_select() {
    let gentoo = ServiceConfig::new(ServiceKind::Bugzilla, "https://bugs.gentoo.org").unwrap();
    let config = Config {
        default_connection: Some("gentoo".to_string()),
        client: ClientParameters::default(),
        services: vec![("gentoo".to_string(), gentoo)],
    };
    assert_eq!(config.default_service(), Some(ServiceKind::Bugzilla));
    let (name, c) = config.select(ServiceKind::Bugzilla, None).unwrap();
    assert_eq!(name, "gentoo");
    assert_eq!(c.kind(), ServiceKind::Bugzilla);
    match config.select(ServiceKind::Github, Some("gentoo")) {
        Err(Error::InvalidValue(m)) => assert_eq!(m, "invalid service type: bugzilla"),
        other => panic!("unexpected: {other:?}"),
    }
    match config.select(ServiceKind::Bugzilla, Some("nonexistent")) {
        Err(Error::InvalidValue(m)) => assert_eq!(m, "unknown connection: nonexistent"),
        other => panic!("unexpected: {other:?}"),
    }
    let (name, c) = config.select(ServiceKind::Github, Some("https://github.com/pkgcraft/bugbite")).unwrap();
    assert_eq!(name, "https://github.com/pkgcraft/bugbite");
    assert_eq!(c.kind(), ServiceKind::Github);
    let empty = Config { default_connection: None, client: ClientParameters::default(), services: vec![] };
    match empty.select(ServiceKind::Bugzilla, None) {
        Err(Error::InvalidValue(m)) => assert_eq!(m, "no connection specified"),
        other => panic!("unexpected: {other:?}"),
    }
}

#[test]
fn search_output_lines() {
    assert_eq!(search_output("", 90), "");
    assert_eq!(search_output("12 summary", 90), "12 summary\n");
    assert_eq!(search_output("abcdef", 3), "abc\n");
    assert_eq!(found_output(3, true), " * 3 found\n");
    assert_eq!(found_output(3, false), "");
    assert_eq!(found_output(0, true), "");
}

#[test]
fn connections_sorted_and_replaced() {
    let new = |base: &str| ServiceConfig::new(ServiceKind::Bugzilla, base).unwrap();
    let mut config = Config { default_connection: None, client: ClientParameters::default(), services: vec![] };
    config.insert_connection("zeta".to_string(), new("https://z.test"));
    config.insert_connection("alpha".to_string(), new("https://a.test"));
    config.insert_connection("Beta".to_string(), new("https://b.test"));
    config.insert_connection("zeta".to_string(), new("https://z2.test"));
    assert_eq!(config.services.len(), 3);
    config.sort_connections();
    let names: Vec<&str> = config.services.iter().map(|(n, _)| n.as_str()).collect();
    assert_eq!(names, vec!["Beta", "alpha", "zeta"]);
    match &config.services[2].1 {
        ServiceConfig::Bugzilla(c) => assert_eq!(c.base, "https://z2.test/"),
        other => panic!("unexpected: {other:?}"),
    }
    assert_eq!(connection_name("  gentoo \n", "x.toml").unwrap(), "gentoo");
    match connection_name("  ", "x.toml") {
        Err(Error::InvalidValue(m)) => assert_eq!(m, "invalid connection name: x.toml"),
        other => panic!("unexpected: {other:?}"),
    }
    let b = config.bugzilla_builder(Some("alpha")).unwrap();
    assert_eq!(b.config.base, "https://a.test/");
}

#[test]
fn attachment_tools() {
    assert_eq!(Compression::Zstd.target_name("log.txt"), "log.txt.zstd");
    assert_eq!(tarball_name("dir"), "dir.tar");
    assert_eq!(Compression::Gz.result("/a/b", "b.gz".to_string(), ToolOutcome::Succeeded).unwrap(), "b.gz");
    match Compression::Gz.result("/a/b", "b.gz".to_string(), ToolOutcome::NotFound) {
        Err(Error::InvalidValue(m)) => assert_eq!(m, "failed compressing file: /a/b: gzip not available"),
        other => panic!("unexpected: {other:?}"),
    }
    match tarball_result("/t/dir.tar", "tar", "dir.tar".to_string(), ToolOutcome::Failed) {
        Err(Error::InvalidValue(m)) => assert_eq!(m, "failed creating tarball: /t/dir.tar"),
        other => panic!("unexpected: {other:?}"),
    }
    assert_eq!(mime_type_of(Some("text/x-diff".to_string()), b"diff"), "text/x-diff");
    assert_eq!(mime_type_of(None, b"plain words"), "text/plain");
    assert_eq!(mime_type_of(None, &[0xff, 0xfe, 0x00, 0x81]), "application/octet-stream");
    let png = [0x89, b'P', b'N', b'G', 0x0D, 0x0A, 0x1A, 0x0A, 0, 0, 0, 0];
    assert_eq!(mime_type_of(None, &png), "image/png");
}

#[test]
fn authenticated_urls() {
    let mut service = Bugzilla::new("https://bugs.test").unwrap();
    let url = service.fields().url().unwrap();
    assert_eq!(service.authenticated_url(&url, false).unwrap(), url);
    assert!(matches!(service.authenticated_url(&url, true), Err(Error::Auth)));
    service.config.auth.key = Some("KEY".to_string());
    assert_eq!(
        service.authenticated_url(&url, true).unwrap(),
        "https://bugs.test/rest/field/bug?Bugzilla_api_key=KEY"
    );
}

#[test]
fn field_names_roundtrip() {
    for f in BugField::all() {
        assert_eq!(BugField::from_text(&f.to_text()).unwrap(), f);
        assert_eq!(FilterField::from_text(&f.to_text()).unwrap(), FilterField::Bug(f));
    }
    for g in GroupField::all() {
        assert_eq!(GroupField::from_text(&g.to_text()).unwrap(), g);
        assert_eq!(FilterField::from_text(&g.to_text()).unwrap(), FilterField::Group(g));
    }
    for f in FilterField::iter() {
        assert_eq!(FilterField::from_text(&f.to_text()).unwrap(), f);
        assert_eq!(FilterField::from_str(&f.to_text()).unwrap(), f);
    }
    match FilterField::from_str("bogus") {
        Err(Error::InvalidValue(m)) => assert_eq!(m, "invalid filter field: bogus"),
        other => panic!("unexpected: {other:?}"),
    }
    assert!(BugField::from_text("nonexistent").is_err());
    assert_eq!(FilterField::from_text("nonexistent").unwrap_err(), "invalid filter field: nonexistent");
}

#[test]
fn client_parameters_merge() {
    let mut a = ClientParameters::default();
    a.timeout = Some(5000);
    let mut b = ClientParameters::default();
    b.timeout = Some(9000);
    b.concurrent = Some(2);
    a.merge(b);
    assert_eq!(a.timeout, Some(5000));
    assert_eq!(a.concurrent, Some(2));
    assert_eq!(a.proxy, None);
}

#[test]
fn truncate_to_width_in_graphemes() {
    assert_eq!(truncate("abc", 5), "abc");
    assert_eq!(truncate("héllo", 5), "héllo");
    assert_eq!(truncate("héllo world", 5), "héllo");
    assert_eq!(truncate("e\u{301}tude", 4), "e\u{301}tud");
}

#[test]
fn wrapped_csv_narrow_empty() {
    assert_eq!(bugbite::output::wrapped_csv("Alias", &vec![], 3), "");
    assert_eq!(bugbite::output::wrapped_csv("Alias", &vec!["a".to_string()], 20), "Alias        : a\n");
}

#[test]
fn http_error_message_carries_status_text() {
    assert_eq!(Error::Http(HttpStatus::new(404).unwrap()).message(), "client request failed (404 Not Found)");
    assert_eq!(Error::Http(HttpStatus::new(500).unwrap()).message(), "client request failed (500 Internal Server Error)");
    assert_eq!(Error::Http(HttpStatus::new(599).unwrap()).message(), "client request failed (599 <unknown status code>)");
    assert!(HttpStatus::new(99).is_none());
    assert!(HttpStatus::new(1000).is_none());
    assert_eq!(HttpStatus::new(200).unwrap().code(), 200);
}
