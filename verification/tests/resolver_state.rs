use felix_dns::{Ipv4, ResolverState, UpstreamAddr};

fn upstream() -> UpstreamAddr {
    UpstreamAddr { ip: Ipv4::new(8, 8, 8, 8), port: 53 }
}

#[test]
fn state_flags_and_upstream_roundtrip() {
    let mut state = ResolverState::new(upstream());
    assert!(state.enabled());
    state.set_enabled(false);
    assert!(!state.enabled());
    state.set_enabled(true);
    assert!(state.enabled());

    assert_eq!(state.upstream(), upstream());
    let other = UpstreamAddr { ip: Ipv4::new(1, 1, 1, 1), port: 5353 };
    state.set_upstream(other);
    assert_eq!(state.upstream(), other);
}

#[test]
fn in_memory_state_adds_and_resolves() {
    let mut state = ResolverState::new(upstream());
    assert!(state.has_memory_backend());
    state.add_domain_sync("test.local", Ipv4::new(127, 0, 0, 1));
    assert_eq!(state.resolve_sync("test.local"), Some(Ipv4::new(127, 0, 0, 1)));
    assert_eq!(state.resolve_sync("TEST.LOCAL."), Some(Ipv4::new(127, 0, 0, 1)));
    assert_eq!(state.resolve_sync("other.local"), None);
}

#[test]
fn persistent_state_rejects_sync_calls() {
    let mut state = ResolverState::new_persistent(upstream());
    assert!(!state.has_memory_backend());
    state.add_domain_sync("test.local", Ipv4::new(127, 0, 0, 1));
    assert_eq!(state.resolve_sync("test.local"), None);
    assert!(state.enabled());
    assert_eq!(state.upstream(), upstream());
}
