//! The in-memory domain table: a mapping from normalized domain name to an
//! IPv4 address, with exact and wildcard-suffix lookup.
//!
//! The table is held as a vector of entries with pairwise-distinct keys; its
//! view is the finite map those entries stand for.  `set` and `remove`
//! normalize the name they are given; `resolve` first probes the normalized
//! query exactly and then the wildcard key of each suffix of the query as
//! written, most specific first.

use vstd::prelude::*;
use vstd::string::*;
use crate::ip::Ipv4;
use crate::name::{norm_seq, normalize, wild_key};

verus! {

/// The map a sequence of entries stands for, later entries overriding
/// earlier ones.
pub open spec fn seq_to_map(s: Seq<(Seq<char>, Ipv4)>) -> Map<Seq<char>, Ipv4>
    decreases s.len(),
{
    if s.len() == 0 {
        Map::empty()
    } else {
        seq_to_map(s.drop_last()).insert(s.last().0, s.last().1)
    }
}

/// No two entries share a key.
pub open spec fn unique_keys(s: Seq<(Seq<char>, Ipv4)>) -> bool {
    forall|i: int, j: int| 0 <= i < j < s.len() ==> s[i].0 != s[j].0
}

/// What a plain equality probe of the map returns.
pub open spec fn map_get(m: Map<Seq<char>, Ipv4>, k: Seq<char>) -> Option<Ipv4> {
    if m.contains_key(k) {
        Some(m[k])
    } else {
        None
    }
}

/// The wildcard phase of a lookup: scan the query's dots from position `i`
/// on and return the value of the first wildcard key present in the map.
pub open spec fn wild_search(m: Map<Seq<char>, Ipv4>, q: Seq<char>, i: int) -> Option<Ipv4>
    decreases q.len() - i,
{
    if i < 0 || i >= q.len() {
        None
    } else if q[i] == '.' && m.contains_key(wild_key(q.skip(i + 1))) {
        Some(m[wild_key(q.skip(i + 1))])
    } else {
        wild_search(m, q, i + 1)
    }
}

/// What resolving `q` against the table `m` returns: the exact normalized
/// match if present, else the first wildcard-suffix match, else nothing.
pub open spec fn lookup_spec(m: Map<Seq<char>, Ipv4>, q: Seq<char>) -> Option<Ipv4> {
    if m.contains_key(norm_seq(q)) {
        Some(m[norm_seq(q)])
    } else {
        wild_search(m, q, 0)
    }
}

/// The value of the first key of `keys` that is present in `m`.
pub open spec fn first_match(m: Map<Seq<char>, Ipv4>, keys: Seq<Seq<char>>) -> Option<Ipv4>
    decreases keys.len(),
{
    if keys.len() == 0 {
        None
    } else if m.contains_key(keys[0]) {
        Some(m[keys[0]])
    } else {
        first_match(m, keys.drop_first())
    }
}

proof fn lemma_seq_to_map_contains(s: Seq<(Seq<char>, Ipv4)>, k: Seq<char>)
    ensures
        seq_to_map(s).contains_key(k) <==> exists|i: int| 0 <= i < s.len() && s[i].0 == k,
    decreases s.len(),
{
    if s.len() > 0 {
        lemma_seq_to_map_contains(s.drop_last(), k);
        if s.last().0 == k {
            assert(s[s.len() - 1].0 == k);
        } else {
            if seq_to_map(s).contains_key(k) {
                let i = choose|i: int| 0 <= i < s.drop_last().len() && s.drop_last()[i].0 == k;
                assert(s[i].0 == k);
            }
            if exists|i: int| 0 <= i < s.len() && s[i].0 == k {
                let i = choose|i: int| 0 <= i < s.len() && s[i].0 == k;
                assert(i < s.len() - 1);
                assert(s.drop_last()[i].0 == k);
            }
        }
    }
}

proof fn lemma_seq_to_map_index(s: Seq<(Seq<char>, Ipv4)>, i: int)
    requires
        unique_keys(s),
        0 <= i < s.len(),
    ensures
        seq_to_map(s).contains_key(s[i].0),
        seq_to_map(s)[s[i].0] == s[i].1,
    decreases s.len(),
{
    if i == s.len() - 1 {
    } else {
        assert(s[i].0 != s.last().0);
        assert(unique_keys(s.drop_last()));
        assert(s.drop_last()[i] == s[i]);
        lemma_seq_to_map_index(s.drop_last(), i);
    }
}

proof fn lemma_seq_to_map_update(s: Seq<(Seq<char>, Ipv4)>, i: int, v: Ipv4)
    requires
        unique_keys(s),
        0 <= i < s.len(),
    ensures
        seq_to_map(s.update(i, (s[i].0, v))) == seq_to_map(s).insert(s[i].0, v),
    decreases s.len(),
{
    let t = s.update(i, (s[i].0, v));
    if i == s.len() - 1 {
        assert(t.drop_last() =~= s.drop_last());
        assert(seq_to_map(t) =~= seq_to_map(s).insert(s[i].0, v));
    } else {
        assert(t.drop_last() =~= s.drop_last().update(i, (s[i].0, v)));
        assert(unique_keys(s.drop_last()));
        assert(s.drop_last()[i] == s[i]);
        lemma_seq_to_map_update(s.drop_last(), i, v);
        assert(s[i].0 != s.last().0);
        assert(t.last() == s.last());
        assert(seq_to_map(t) =~= seq_to_map(s).insert(s[i].0, v));
    }
}

proof fn lemma_seq_to_map_remove(s: Seq<(Seq<char>, Ipv4)>, i: int)
    requires
        unique_keys(s),
        0 <= i < s.len(),
    ensures
        seq_to_map(s.remove(i)) == seq_to_map(s).remove(s[i].0),
    decreases s.len(),
{
    if i == s.len() - 1 {
        assert(s.remove(i) =~= s.drop_last());
        lemma_seq_to_map_contains(s.drop_last(), s[i].0);
        assert(forall|j: int| 0 <= j < s.drop_last().len() ==> s.drop_last()[j] == s[j]);
        assert(!seq_to_map(s.drop_last()).contains_key(s[i].0));
        assert(seq_to_map(s.drop_last()) =~= seq_to_map(s).remove(s[i].0));
    } else {
        assert(s.remove(i).drop_last() =~= s.drop_last().remove(i));
        assert(unique_keys(s.drop_last()));
        assert(s.drop_last()[i] == s[i]);
        lemma_seq_to_map_remove(s.drop_last(), i);
        assert(s[i].0 != s.last().0);
        assert(s.remove(i).last() == s.last());
        assert(seq_to_map(s.remove(i)) =~= seq_to_map(s).remove(s[i].0));
    }
}

proof fn lemma_seq_to_map_dom_len(s: Seq<(Seq<char>, Ipv4)>)
    requires
        unique_keys(s),
    ensures
        seq_to_map(s).dom().finite(),
        seq_to_map(s).dom().len() == s.len(),
    decreases s.len(),
{
    if s.len() == 0 {
        assert(seq_to_map(s).dom() =~= Set::<Seq<char>>::empty());
    } else {
        assert(unique_keys(s.drop_last()));
        lemma_seq_to_map_dom_len(s.drop_last());
        lemma_seq_to_map_contains(s.drop_last(), s.last().0);
        assert(forall|j: int| 0 <= j < s.drop_last().len() ==> s.drop_last()[j] == s[j]);
        assert(!seq_to_map(s.drop_last()).contains_key(s.last().0));
        assert(seq_to_map(s).dom() =~= seq_to_map(s.drop_last()).dom().insert(s.last().0));
    }
}

/// The in-memory domain table.
pub struct DomainMap {
    entries: Vec<(String, Ipv4)>,
}

impl View for DomainMap {
    type V = Map<Seq<char>, Ipv4>;

    closed spec fn view(&self) -> Map<Seq<char>, Ipv4> {
        seq_to_map(self.kv())
    }
}

impl DomainMap {
    /// The table's entries as key/value pairs of plain values, in storage
    /// order.
    pub closed spec fn kv(self) -> Seq<(Seq<char>, Ipv4)> {
        self.entries@.map_values(|p: (String, Ipv4)| (p.0@, p.1))
    }

    /// Well-formedness: no two entries share a key.
    pub closed spec fn wf(self) -> bool {
        unique_keys(self.kv())
    }

    /// An empty table.
    pub fn new() -> (r: DomainMap)
        ensures
            r.wf(),
            r@ == Map::<Seq<char>, Ipv4>::empty(),
            r.kv() == Seq::<(Seq<char>, Ipv4)>::empty(),
    {
        let r = DomainMap { entries: Vec::new() };
        proof {
            assert(r.kv() =~= Seq::<(Seq<char>, Ipv4)>::empty());
        }
        r
    }

    /// The position of the entry whose key equals `key`, if any.
    fn find(&self, key: &String) -> (r: Option<usize>)
        requires
            self.wf(),
        ensures
            match r {
                Some(i) => i < self.kv().len() && self.kv()[i as int].0 == key@
                    && self@.contains_key(key@) && self@[key@] == self.kv()[i as int].1,
                None => !self@.contains_key(key@),
            },
    {
        let n = self.entries.len();
        let mut i: usize = 0;
        while i < n
            invariant
                self.wf(),
                i <= n,
                n == self.entries@.len(),
                forall|j: int| 0 <= j < i ==> self.kv()[j].0 != key@,
            decreases n - i,
        {
            if self.entries[i].0 == *key {
                proof {
                    lemma_seq_to_map_index(self.kv(), i as int);
                }
                return Some(i);
            }
            i = i + 1;
        }
        proof {
            lemma_seq_to_map_contains(self.kv(), key@);
        }
        None
    }

    /// The address stored under exactly the key `key`, without any
    /// normalization or wildcard matching.
    pub fn get_exact(&self, key: &String) -> (r: Option<Ipv4>)
        requires
            self.wf(),
        ensures
            r == map_get(self@, key@),
    {
        match self.find(key) {
            Some(i) => Some(self.entries[i].1),
            None => None,
        }
    }

    /// Stores or overwrites the mapping for the normalized form of `domain`.
    pub fn set(&mut self, domain: &str, ip: Ipv4)
        requires
            old(self).wf(),
        ensures
            final(self).wf(),
            final(self)@ == old(self)@.insert(norm_seq(domain@), ip),
    {
        let key = normalize(domain);
        match self.find(&key) {
            Some(i) => {
                proof {
                    lemma_seq_to_map_update(self.kv(), i as int, ip);
                }
                self.entries[i] = (key, ip);
                proof {
                    assert(self.kv() =~= old(self).kv().update(i as int, (norm_seq(domain@), ip)));
                }
            },
            None => {
                proof {
                    lemma_seq_to_map_contains(self.kv(), key@);
                }
                self.entries.push((key, ip));
                proof {
                    assert(self.kv() =~= old(self).kv().push((norm_seq(domain@), ip)));
                    assert(self.kv().drop_last() =~= old(self).kv());
                    assert(forall|x: int, y: int|
                        0 <= x < y < self.kv().len() ==> self.kv()[x].0 != self.kv()[y].0);
                }
            },
        }
    }

    /// Deletes the mapping for the normalized form of `domain`; removing an
    /// absent name leaves the table unchanged.
    pub fn remove(&mut self, domain: &str)
        requires
            old(self).wf(),
        ensures
            final(self).wf(),
            final(self)@ == old(self)@.remove(norm_seq(domain@)),
    {
        let key = normalize(domain);
        match self.find(&key) {
            Some(i) => {
                proof {
                    lemma_seq_to_map_remove(self.kv(), i as int);
                }
                self.entries.remove(i);
                proof {
                    assert(self.kv() =~= old(self).kv().remove(i as int));
                    assert(forall|x: int, y: int|
                        0 <= x < y < self.kv().len() ==> self.kv()[x].0 != self.kv()[y].0);
                }
            },
            None => {
                proof {
                    assert(self@ =~= old(self)@.remove(norm_seq(domain@)));
                }
            },
        }
    }

    /// Resolves a query: the exact normalized match if present, else the
    /// first wildcard-suffix match of the query as written, else nothing.
    pub fn resolve(&self, qname: &str) -> (r: Option<Ipv4>)
        requires
            self.wf(),
        ensures
            r == lookup_spec(self@, qname@),
    {
        let lc = normalize(qname);
        if let Some(ip) = self.get_exact(&lc) {
            return Some(ip);
        }
        let n = qname.unicode_len();
        let mut j: usize = 0;
        while j < n
            invariant
                self.wf(),
                j <= n,
                n == qname@.len(),
                !self@.contains_key(norm_seq(qname@)),
                wild_search(self@, qname@, 0) == wild_search(self@, qname@, j as int),
            decreases n - j,
        {
            if qname.get_char(j) == '.' {
                let mut w = String::from_str("*.");
                proof {
                    reveal_strlit("*.");
                    assert(w@ =~= seq!['*', '.']);
                }
                let suffix = qname.substring_char(j + 1, n);
                w.append(suffix);
                assert(w@ == wild_key(qname@.skip(j + 1)));
                if let Some(ip) = self.get_exact(&w) {
                    return Some(ip);
                }
            }
            j = j + 1;
        }
        None
    }

    /// A snapshot of all current entries; each stored pair appears exactly
    /// once, in no significant order.
    pub fn list(&self) -> (r: Vec<(String, Ipv4)>)
        requires
            self.wf(),
        ensures
            r@.map_values(|p: (String, Ipv4)| (p.0@, p.1)) == self.kv(),
            r@.len() == self@.dom().len(),
            forall|i: int| 0 <= i < r@.len() ==> #[trigger] self@.contains_pair(r@[i].0@, r@[i].1),
            forall|k: Seq<char>| self@.contains_key(k)
                ==> exists|i: int| 0 <= i < r@.len() && r@[i].0@ == k,
            forall|i: int, j: int| 0 <= i < j < r@.len() ==> r@[i].0@ != r@[j].0@,
    {
        let n = self.entries.len();
        let mut out: Vec<(String, Ipv4)> = Vec::new();
        let mut i: usize = 0;
        while i < n
            invariant
                self.wf(),
                i <= n,
                n == self.entries@.len(),
                out@.map_values(|p: (String, Ipv4)| (p.0@, p.1)) == self.kv().take(i as int),
            decreases n - i,
        {
            let name = self.entries[i].0.clone();
            let ip = self.entries[i].1;
            let ghost prev = out@;
            proof {
                assert((name@, ip) == self.kv()[i as int]);
            }
            out.push((name, ip));
            proof {
                assert(out@.map_values(|p: (String, Ipv4)| (p.0@, p.1)) =~= prev.map_values(
                    |p: (String, Ipv4)| (p.0@, p.1),
                ).push(self.kv()[i as int]));
                assert(self.kv().take(i as int).push(self.kv()[i as int]) =~= self.kv().take(
                    i + 1,
                ));
            }
            i = i + 1;
        }
        proof {
            assert(out@.map_values(|p: (String, Ipv4)| (p.0@, p.1)) =~= self.kv());
            lemma_seq_to_map_dom_len(self.kv());
            assert forall|i: int| 0 <= i < out@.len() implies #[trigger] self@.contains_pair(
                out@[i].0@,
                out@[i].1,
            ) by {
                lemma_seq_to_map_index(self.kv(), i);
                assert(self.kv()[i] == (out@[i].0@, out@[i].1));
            }
            assert forall|k: Seq<char>| self@.contains_key(k) implies exists|i: int|
                0 <= i < out@.len() && out@[i].0@ == k by {
                lemma_seq_to_map_contains(self.kv(), k);
                let i = choose|i: int| 0 <= i < self.kv().len() && self.kv()[i].0 == k;
                assert(out@[i].0@ == k);
            }
            assert forall|i: int, j: int| 0 <= i < j < out@.len() implies out@[i].0@
                != out@[j].0@ by {
                assert(out@.map_values(|p: (String, Ipv4)| (p.0@, p.1))[i] == self.kv()[i]);
                assert(out@.map_values(|p: (String, Ipv4)| (p.0@, p.1))[j] == self.kv()[j]);
                assert(self.kv()[i].0 != self.kv()[j].0);
            }
        }
        out
    }
}

} // verus!
