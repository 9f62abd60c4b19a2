use felix_dns::{DomainMap, Ipv4};

#[test]
fn test_exact_and_wildcard() {
    let mut dm = DomainMap::new();
    dm.set("foo.dev", Ipv4::new(127, 0, 0, 1));
    dm.set("*.example.com", Ipv4::new(10, 0, 0, 42));

    // exact match
    assert_eq!(dm.resolve("foo.dev"), Some(Ipv4::new(127, 0, 0, 1)));

    // wildcard match
    assert_eq!(dm.resolve("api.example.com"), Some(Ipv4::new(10, 0, 0, 42)));
    assert_eq!(dm.resolve("deep.sub.example.com"), Some(Ipv4::new(10, 0, 0, 42)));

    // not found
    assert_eq!(dm.resolve("unknown.test"), None);
}

#[test]
fn test_remove() {
    let mut dm = DomainMap::new();
    dm.set("foo.dev", Ipv4::new(127, 0, 0, 1));
    assert!(dm.resolve("foo.dev").is_some());

    dm.remove("foo.dev");
    assert!(dm.resolve("foo.dev").is_none());
}

#[test]
fn test_list() {
    let mut dm = DomainMap::new();
    dm.set("foo.dev", Ipv4::new(127, 0, 0, 1));
    assert!(dm.resolve("foo.dev").is_some());

    assert_eq!(dm.list(), vec![("foo.dev".to_string(), Ipv4::new(127, 0, 0, 1))]);
}

#[test]
fn test_set_and_resolve() {
    let mut dm = DomainMap::new();
    dm.set("foo.dev", Ipv4::new(127, 0, 0, 1));
    assert!(dm.resolve("foo.dev").is_some());
}

#[test]
fn test_set_and_resolve_wildcard() {
    let mut dm = DomainMap::new();
    dm.set("*.dev", Ipv4::new(127, 0, 0, 1));
    assert!(dm.resolve("foo.dev").is_some());
}

#[test]
fn trailing_dot_and_case_variants_resolve() {
    let mut dm = DomainMap::new();
    dm.set("foo.dev", Ipv4::new(127, 0, 0, 1));
    assert_eq!(dm.resolve("foo.dev."), Some(Ipv4::new(127, 0, 0, 1)));
    assert_eq!(dm.resolve("FOO.DEV"), Some(Ipv4::new(127, 0, 0, 1)));
    assert_eq!(dm.resolve("Foo.Dev."), Some(Ipv4::new(127, 0, 0, 1)));

    dm.set("BAR.Example", Ipv4::new(10, 1, 1, 1));
    assert_eq!(dm.resolve("bar.example"), Some(Ipv4::new(10, 1, 1, 1)));
}

#[test]
fn wildcard_requires_a_leading_label() {
    let mut dm = DomainMap::new();
    dm.set("*.example.com", Ipv4::new(10, 0, 0, 42));
    assert_eq!(dm.resolve("example.com"), None);
    assert_eq!(dm.resolve("api.example.com"), Some(Ipv4::new(10, 0, 0, 42)));
    assert_eq!(dm.resolve("a.b.example.com"), Some(Ipv4::new(10, 0, 0, 42)));
}

#[test]
fn removing_a_never_inserted_name_is_a_no_op() {
    let mut dm = DomainMap::new();
    dm.remove("ghost.test");
    assert_eq!(dm.resolve("ghost.test"), None);

    dm.set("foo.dev", Ipv4::new(127, 0, 0, 1));
    dm.remove("ghost.test");
    assert_eq!(dm.resolve("foo.dev"), Some(Ipv4::new(127, 0, 0, 1)));
    assert_eq!(dm.list().len(), 1);
}

#[test]
fn overwriting_a_name_keeps_one_entry() {
    let mut dm = DomainMap::new();
    dm.set("foo.dev", Ipv4::new(127, 0, 0, 1));
    dm.set("FOO.dev.", Ipv4::new(10, 0, 0, 2));
    assert_eq!(dm.resolve("foo.dev"), Some(Ipv4::new(10, 0, 0, 2)));
    assert_eq!(dm.list().len(), 1);
}

#[test]
fn list_returns_each_inserted_pair_once() {
    let mut dm = DomainMap::new();
    dm.set("a.dev", Ipv4::new(1, 1, 1, 1));
    dm.set("b.dev", Ipv4::new(2, 2, 2, 2));
    dm.set("c.dev", Ipv4::new(3, 3, 3, 3));
    let mut listed = dm.list();
    listed.sort();
    assert_eq!(
        listed,
        vec![
            ("a.dev".to_string(), Ipv4::new(1, 1, 1, 1)),
            ("b.dev".to_string(), Ipv4::new(2, 2, 2, 2)),
            ("c.dev".to_string(), Ipv4::new(3, 3, 3, 3)),
        ]
    );
}
