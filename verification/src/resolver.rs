//! Resolver state: one storage backend fixed at construction, an `enabled`
//! flag, and the upstream forwarding address.
//!
//! The backend is a closed choice between the in-memory table and the
//! persistent table, so every operation dispatches exhaustively.  The
//! persistent table itself lives behind the storage engine and is driven
//! asynchronously by the caller; the synchronous operations here act on the
//! in-memory table and treat a call against the persistent backend as a
//! usage error: they change nothing and report no data.

use vstd::prelude::*;
use crate::domain_map::{DomainMap, lookup_spec};
use crate::ip::Ipv4;

verus! {

/// The socket address of the upstream resolver: an IPv4 host and a port.
#[derive(Clone, Copy, PartialEq, Eq, Structural, Debug)]
pub struct UpstreamAddr {
    pub ip: Ipv4,
    pub port: u16,
}

/// The storage backend behind a resolver state.  The in-memory variant owns
/// its table; the persistent variant's table lives behind the storage engine
/// and is reached asynchronously, so it carries no data here.
pub enum DomainStorage {
    InMemory(DomainMap),
    Persistent,
}

/// Shared resolver state: the active storage backend, the enabled flag, and
/// the upstream address.
pub struct ResolverState {
    enabled: bool,
    upstream: UpstreamAddr,
    storage: DomainStorage,
}

impl ResolverState {
    /// The enabled flag, as contracts speak of it.
    pub closed spec fn enabled_spec(self) -> bool {
        self.enabled
    }

    /// The upstream address, as contracts speak of it.
    pub closed spec fn upstream_spec(self) -> UpstreamAddr {
        self.upstream
    }

    /// The storage backend, as contracts speak of it.
    pub closed spec fn storage_spec(self) -> DomainStorage {
        self.storage
    }

    /// Whether the backend is the in-memory table.
    pub open spec fn is_in_memory(self) -> bool {
        self.storage_spec() is InMemory
    }

    /// The in-memory table's map, when that is the backend.
    pub open spec fn table(self) -> Map<Seq<char>, Ipv4> {
        self.storage_spec()->InMemory_0@
    }

    /// Well-formedness: an in-memory table has pairwise-distinct keys.
    pub open spec fn wf(self) -> bool {
        self.storage_spec() matches DomainStorage::InMemory(m) ==> m.wf()
    }

    /// A fresh state over an empty in-memory table, enabled, forwarding to
    /// `upstream`.
    pub fn new(upstream: UpstreamAddr) -> (r: ResolverState)
        ensures
            r.wf(),
            r.is_in_memory(),
            r.table() == Map::<Seq<char>, Ipv4>::empty(),
            r.enabled_spec(),
            r.upstream_spec() == upstream,
    {
        ResolverState {
            enabled: true,
            upstream,
            storage: DomainStorage::InMemory(DomainMap::new()),
        }
    }

    /// A fresh state over the persistent backend, enabled, forwarding to
    /// `upstream`.  The durable table itself is opened by the caller.
    pub fn new_persistent(upstream: UpstreamAddr) -> (r: ResolverState)
        ensures
            r.wf(),
            !r.is_in_memory(),
            r.enabled_spec(),
            r.upstream_spec() == upstream,
    {
        ResolverState { enabled: true, upstream, storage: DomainStorage::Persistent }
    }

    /// The enabled flag.  It is stored and read but deliberately not yet
    /// consulted by the query-handling path; turning it into a gate there is
    /// a future, explicit change.
    pub fn enabled(&self) -> (r: bool)
        ensures
            r == self.enabled_spec(),
    {
        self.enabled
    }

    pub fn set_enabled(&mut self, v: bool)
        ensures
            final(self).enabled_spec() == v,
            final(self).upstream_spec() == old(self).upstream_spec(),
            final(self).storage_spec() == old(self).storage_spec(),
    {
        self.enabled = v;
    }

    pub fn upstream(&self) -> (r: UpstreamAddr)
        ensures
            r == self.upstream_spec(),
    {
        self.upstream
    }

    pub fn set_upstream(&mut self, addr: UpstreamAddr)
        ensures
            final(self).upstream_spec() == addr,
            final(self).enabled_spec() == old(self).enabled_spec(),
            final(self).storage_spec() == old(self).storage_spec(),
    {
        self.upstream = addr;
    }

    /// Whether the backend is the in-memory table, for callers that must
    /// choose between the synchronous path and driving the persistent store.
    pub fn has_memory_backend(&self) -> (r: bool)
        ensures
            r == self.is_in_memory(),
    {
        match self.storage {
            DomainStorage::InMemory(_) => true,
            DomainStorage::Persistent => false,
        }
    }

    /// Stores a mapping without suspending.  Against the persistent backend
    /// this is a usage error: the state is left unchanged and the caller
    /// should report it.
    pub fn add_domain_sync(&mut self, domain: &str, ip: Ipv4)
        requires
            old(self).wf(),
        ensures
            final(self).wf(),
            final(self).enabled_spec() == old(self).enabled_spec(),
            final(self).upstream_spec() == old(self).upstream_spec(),
            final(self).is_in_memory() == old(self).is_in_memory(),
            old(self).is_in_memory() ==> final(self).table() == old(self).table().insert(
                crate::name::norm_seq(domain@),
                ip,
            ),
            !old(self).is_in_memory() ==> final(self).storage_spec() == old(self).storage_spec(),
    {
        match &mut self.storage {
            DomainStorage::InMemory(m) => {
                m.set(domain, ip);
            },
            DomainStorage::Persistent => {},
        }
    }

    /// Resolves without suspending.  Against the persistent backend this is
    /// a usage error: no data is reported.
    pub fn resolve_sync(&self, qname: &str) -> (r: Option<Ipv4>)
        requires
            self.wf(),
        ensures
            self.is_in_memory() ==> r == lookup_spec(self.table(), qname@),
            !self.is_in_memory() ==> r is None,
    {
        match &self.storage {
            DomainStorage::InMemory(m) => m.resolve(qname),
            DomainStorage::Persistent => None,
        }
    }
}

} // verus!
