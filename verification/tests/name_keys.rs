use felix_dns::name::{normalize, resolve_candidates};
use felix_dns::{DomainMap, Ipv4};

#[test]
fn normalize_lowercases_and_strips_one_dot() {
    assert_eq!(normalize("FOO.Dev."), "foo.dev");
    assert_eq!(normalize("foo.dev"), "foo.dev");
    assert_eq!(normalize("x.."), "x.");
    assert_eq!(normalize("."), "");
    assert_eq!(normalize(""), "");
    assert_eq!(normalize("*.Example.COM"), "*.example.com");
}

#[test]
fn candidates_probe_exact_then_suffixes() {
    assert_eq!(
        resolve_candidates("a.b.c.d"),
        vec!["a.b.c.d", "*.b.c.d", "*.c.d", "*.d"]
    );
}

#[test]
fn candidates_of_a_single_label_are_exact_only() {
    assert_eq!(resolve_candidates("localhost"), vec!["localhost"]);
}

#[test]
fn candidate_probe_order_matches_resolve() {
    // probing the candidate keys in order, as the persistent backend does,
    // returns exactly what the in-memory lookup returns
    let mut dm = DomainMap::new();
    dm.set("*.test.dev", Ipv4::new(10, 0, 0, 1));
    dm.set("api.test.dev", Ipv4::new(10, 0, 0, 2));
    for q in ["api.test.dev", "x.api.test.dev", "other.dev", "API.test.dev.", "test.dev"] {
        let by_candidates = resolve_candidates(q).iter().find_map(|k| dm.get_exact(k));
        assert_eq!(by_candidates, dm.resolve(q), "query {:?}", q);
    }
}

#[test]
fn candidates_use_the_query_as_written() {
    assert_eq!(
        resolve_candidates("A.B.dev."),
        vec!["a.b.dev", "*.B.dev.", "*.dev.", "*."]
    );
}
