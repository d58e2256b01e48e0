use bugbite::args::ExistsOrValues;
use bugbite::service::bugzilla::search::{ChangeField, StaticChangeField};
use bugbite::error::Error;
use bugbite::objects::{RangeOp, RangeOrValue};
use bugbite::service::bugzilla::search::request::{next_offset, Request};
use bugbite::service::bugzilla::Bugzilla;
use bugbite::time::TimeDeltaOrStatic;
use bugbite::traits::FromText;

fn pairs(r: &Request) -> Vec<(String, String)> {
    r.encode().unwrap().pairs()
}

fn owned(v: &[(&str, &str)]) -> Vec<(String, String)> {
    v.iter().map(|(k, v)| (k.to_string(), v.to_string())).collect()
}

#[test]
fn encode_defaults() {
    let service = Bugzilla::new("https://bugs.test").unwrap();
    let request = Request::new(service);
    assert_eq!(
        pairs(&request),
        owned(&[("bug_status", "__open__"), ("order", "bug_id ASC"), ("include_fields", "id,summary")])
    );
}

#[test]
fn encode_changed_equality_refused() {
    let service = Bugzilla::new("https://bugs.test").unwrap();
    let mut request = Request::new(service);
    let time = TimeDeltaOrStatic::from_text("2020").unwrap();
    request.params.changed = Some(vec![(vec!["status".to_string()], RangeOrValue::RangeOp(RangeOp::Equal(time)))]);
    match request.encode() {
        Err(Error::InvalidValue(m)) => assert_eq!(m, "equality operator invalid for change values: =2020"),
        _ => panic!("expected an invalid value error"),
    }
}

#[test]
fn search_setters_and_url() {
    let service = Bugzilla::new("https://bugs.test").unwrap();
    let request = service.search().limit(5).quicksearch("crash".to_string());
    assert_eq!(request.params.limit, Some(5));
    assert_eq!(
        pairs(&request),
        owned(&[
            ("bug_status", "__open__"),
            ("order", "bug_id ASC"),
            ("include_fields", "id,summary"),
            ("limit", "5"),
            ("quicksearch", "crash"),
        ])
    );
    let url = request.search_url().unwrap();
    assert!(url.starts_with("https://bugs.test/buglist.cgi?bug_status=__open__&order=bug_id+ASC"));
    assert_eq!(next_offset(None, 10), Some(10));
    assert_eq!(next_offset(Some(20), 10), Some(30));
    assert_eq!(next_offset(Some(usize::MAX), 1), None);
}

#[test]
fn search_paged() {
    let service = Bugzilla::new("https://bugs.test").unwrap();
    let mut request = service.search();
    assert_eq!(request.paged(), Some(10000));
    assert_eq!(request.params.offset, Some(0));
    let mut request = service.search().limit(50);
    assert_eq!(request.paged(), None);
    assert_eq!(request.params.offset, None);
    let mut request = service.search().limit(50);
    request.params.paged = Some(true);
    assert_eq!(request.paged(), Some(50));
    assert_eq!(request.params.offset, Some(0));
}

#[test]
fn search_changed() {
    let service = Bugzilla::new("https://bugs.test").unwrap();
    let request = service.search().changed("status");
    let changed = request.params.changed.as_ref().unwrap();
    assert_eq!(changed.len(), 1);
    assert_eq!(changed[0].0, vec!["status".to_string()]);
    let request = request.changed_to("status", "RESOLVED").changed_by("status", vec!["user1".to_string()]);
    assert_eq!(request.params.changed_to.as_ref().unwrap()[0], ("status".to_string(), "RESOLVED".to_string()));
    assert_eq!(request.params.changed_by.as_ref().unwrap()[0].1, vec!["user1".to_string()]);
}

#[test]
fn change_field_invertable() {
    assert!(matches!(
        ChangeField::invertable("!status"),
        Ok((true, ChangeField::Static(StaticChangeField::Status)))
    ));
    assert!(matches!(
        ChangeField::invertable("see-also"),
        Ok((false, ChangeField::Static(StaticChangeField::SeeAlso)))
    ));
    match ChangeField::invertable("!cf_foo") {
        Ok((true, ChangeField::Custom(x))) => assert_eq!(x, "cf_foo"),
        other => panic!("unexpected: {other:?}"),
    }
    match ChangeField::invertable("!bogus") {
        Err(Error::InvalidValue(m)) => assert_eq!(m, "invalid change field: bogus"),
        other => panic!("unexpected: {other:?}"),
    }
    assert!(ChangeField::invertable("!!status").is_err());
}

fn check_slots(q: &[(String, String)]) {
    let get = |k: &str| q.iter().rev().find(|(key, _)| key == k).map(|(_, v)| v.clone());
    let n = q.iter().filter(|(k, _)| k.starts_with('f') && k[1..].chars().all(|c| c.is_ascii_digit()) && k.len() > 1).count();
    for (i, (a, _)) in q.iter().enumerate() {
        assert!(q[i + 1..].iter().all(|(b, _)| a != b));
    }
    let mut depth: i64 = 0;
    for k in 1..=n {
        let f = get(&format!("f{k}")).expect("every slot has a field");
        assert_eq!(get(&format!("j{k}")).is_some(), f == "OP");
        if let Some(neg) = get(&format!("n{k}")) {
            assert_eq!(neg, "1");
            assert!(f != "OP" && f != "CP");
        }
        if f == "OP" {
            depth += 1;
        } else if f == "CP" {
            depth -= 1;
        }
        assert!(depth >= 0);
    }
    assert_eq!(depth, 0);
    for c in ['f', 'o', 'v', 'j', 'n'] {
        assert!(get(&format!("{c}0")).is_none());
        assert!(get(&format!("{c}{}", n + 1)).is_none());
    }
}

#[test]
fn encode_slots_numbered_and_balanced() {
    let service = Bugzilla::new("https://bugs.test").unwrap();
    let mut request = Request::new(service);
    request.params.status = Some(vec!["!fixed".to_string(), "new".to_string()]);
    request.params.alias = Some(vec![ExistsOrValues::Exists(false)]);
    request.params.votes = Some(RangeOrValue::RangeOp(RangeOp::Less(3)));
    let q = pairs(&request);
    check_slots(&q);
    assert!(q.iter().any(|(k, v)| k == "f1" && v == "OP"));
    assert!(q.iter().any(|(k, v)| k.starts_with('n') && v == "1"));
}

#[test]
fn search_next_page() {
    let service = Bugzilla::new("https://bugs.test").unwrap();
    let mut request = service.search().limit(50);
    request.params.paged = Some(true);
    assert_eq!(request.paged(), Some(50));
    let next = request.next_page(50).unwrap();
    assert_eq!(next.params.offset, Some(50));
    assert_eq!(next.params.limit, Some(50));
    let next = next.next_page(50).unwrap();
    assert_eq!(next.params.offset, Some(100));
    let fresh = service.search();
    assert_eq!(fresh.next_page(7).unwrap().params.offset, Some(7));
    let mut last = service.search();
    last.params.offset = Some(usize::MAX - 1);
    assert!(last.next_page(2).is_none());
}
