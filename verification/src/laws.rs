//! The table's laws: what resolving promises across calls.
//!
//! Each proof function here states one property of the lookup semantics
//! that the executable operations are contracted against: storing then
//! resolving, trailing-dot and case invariance, wildcard-suffix matching,
//! removal, and the equivalence of the candidate-key probe order used by
//! the persistent backend with the in-memory lookup.

use vstd::prelude::*;
use crate::domain_map::{first_match, lookup_spec, wild_search};
use crate::ip::Ipv4;
use crate::name::{
    lookup_candidates, lower_char, lower_seq, norm_seq, strip_dot, wild_candidates_from, wild_key,
};

verus! {

broadcast use vstd::utf8::char_is_scalar, vstd::utf8::char_u32_cast;

/// Lower-casing touches no separator: a character lower-cases to `'.'`
/// exactly when it is `'.'`.
proof fn lemma_lower_char_dot(c: char)
    ensures
        (lower_char(c) == '.') <==> (c == '.'),
{
    if 'A' <= c && c <= 'Z' {
        assert(65 <= c as u32 && c as u32 <= 90);
        assert(lower_char(c) as u32 == c as u32 + 32);
        assert(lower_char(c) != '.');
        assert(c != '.');
    }
}

/// Lower-casing and trailing-dot stripping commute.
proof fn lemma_norm_strip_lower(s: Seq<char>)
    ensures
        norm_seq(s) == strip_dot(lower_seq(s)),
{
    if s.len() > 0 {
        assert(lower_seq(s).last() == lower_char(s.last()));
        lemma_lower_char_dot(s.last());
        if s.last() == '.' {
            assert(lower_seq(s.drop_last()) =~= lower_seq(s).drop_last());
        }
    }
}

/// The wildcard phase of a lookup finds nothing in the empty table.
proof fn lemma_wild_search_empty(q: Seq<char>, i: int)
    ensures
        wild_search(Map::<Seq<char>, Ipv4>::empty(), q, i) is None,
    decreases q.len() - i,
{
    if 0 <= i < q.len() {
        lemma_wild_search_empty(q, i + 1);
    }
}

/// Storing a name and resolving it again returns the stored address; so
/// does resolving the name with one trailing dot added, provided the stored
/// name did not itself end in a dot.
pub proof fn lemma_set_then_resolve(m: Map<Seq<char>, Ipv4>, name: Seq<char>, ip: Ipv4)
    ensures
        lookup_spec(m.insert(norm_seq(name), ip), name) == Some(ip),
        (name.len() == 0 || name.last() != '.') ==> lookup_spec(
            m.insert(norm_seq(name), ip),
            name.push('.'),
        ) == Some(ip),
{
    if name.len() == 0 || name.last() != '.' {
        assert(strip_dot(name.push('.')) =~= name);
        assert(strip_dot(name) =~= name);
        assert(norm_seq(name.push('.')) == norm_seq(name));
    }
}

/// Case-insensitivity: a stored name resolves under every spelling whose
/// lower-cased characters are the same.
pub proof fn lemma_resolve_case_insensitive(
    m: Map<Seq<char>, Ipv4>,
    name: Seq<char>,
    q: Seq<char>,
    ip: Ipv4,
)
    requires
        lower_seq(q) == lower_seq(name),
    ensures
        lookup_spec(m.insert(norm_seq(name), ip), q) == Some(ip),
{
    lemma_norm_strip_lower(q);
    lemma_norm_strip_lower(name);
}

/// In a table holding one wildcard entry `"*." + s`, no wildcard candidate
/// of the bare suffix `s` matches: each is shorter than the stored key.
proof fn lemma_wild_search_bare_suffix(s: Seq<char>, ip: Ipv4, i: int)
    ensures
        wild_search(Map::<Seq<char>, Ipv4>::empty().insert(wild_key(s), ip), s, i) is None,
    decreases s.len() - i,
{
    let m = Map::<Seq<char>, Ipv4>::empty().insert(wild_key(s), ip);
    if 0 <= i < s.len() {
        assert(wild_key(s.skip(i + 1)).len() < wild_key(s).len());
        lemma_wild_search_bare_suffix(s, ip, i + 1);
    }
}

/// In a table holding one wildcard entry `"*." + s`, the wildcard scan of
/// `p + "." + s` hits at the separator in front of `s` and at no earlier
/// dot: every earlier candidate is longer than the stored key.
proof fn lemma_wild_search_with_prefix(s: Seq<char>, p: Seq<char>, ip: Ipv4, i: int)
    requires
        0 <= i <= p.len(),
    ensures
        wild_search(
            Map::<Seq<char>, Ipv4>::empty().insert(wild_key(s), ip),
            p + seq!['.'] + s,
            i,
        ) == Some(ip),
    decreases p.len() - i,
{
    let m = Map::<Seq<char>, Ipv4>::empty().insert(wild_key(s), ip);
    let q = p + seq!['.'] + s;
    if i == p.len() {
        assert(q[i] == '.');
        assert(q.skip(i + 1) =~= s);
    } else {
        if q[i] == '.' {
            assert(wild_key(q.skip(i + 1)).len() > wild_key(s).len());
        }
        lemma_wild_search_with_prefix(s, p, ip, i + 1);
    }
}

/// Wildcard-suffix matching: a table holding exactly the wildcard entry
/// `"*." + s` (for a lower-case suffix with no trailing dot) resolves
/// `p + "." + s` to the stored address for every prefix `p`, while the bare
/// suffix `s`, with no label in front of the wildcard position, does not
/// resolve.
pub proof fn lemma_wildcard_suffix(s: Seq<char>, p: Seq<char>, ip: Ipv4)
    requires
        s.len() > 0,
        lower_seq(s) == s,
        s.last() != '.',
    ensures
        lookup_spec(
            Map::<Seq<char>, Ipv4>::empty().insert(norm_seq(wild_key(s)), ip),
            p + seq!['.'] + s,
        ) == Some(ip),
        lookup_spec(Map::<Seq<char>, Ipv4>::empty().insert(norm_seq(wild_key(s)), ip), s)
            is None,
{
    assert(wild_key(s).last() == s.last());
    assert(strip_dot(wild_key(s)) =~= wild_key(s));
    assert(lower_seq(wild_key(s)) =~= wild_key(s)) by {
        assert forall|j: int| 0 <= j < wild_key(s).len() implies lower_char(wild_key(s)[j])
            == wild_key(s)[j] by {
            if j >= 2 {
                assert(wild_key(s)[j] == s[j - 2]);
                assert(lower_seq(s)[j - 2] == lower_char(s[j - 2]));
            }
        }
    }
    assert(norm_seq(wild_key(s)) == wild_key(s));
    let m = Map::<Seq<char>, Ipv4>::empty().insert(wild_key(s), ip);
    lemma_wild_search_with_prefix(s, p, ip, 0);
    lemma_wild_search_bare_suffix(s, ip, 0);
    assert(norm_seq(s) == s) by {
        assert(strip_dot(s) =~= s);
        assert(lower_seq(s) == s);
    }
    assert(!m.contains_key(norm_seq(s)));
}

/// Removing a stored name takes its mapping away: the empty table resolves
/// nothing, and in particular a table reduced to empty by `remove` reports
/// every query as not found.
pub proof fn lemma_remove_then_resolve(name: Seq<char>, ip: Ipv4, q: Seq<char>)
    ensures
        lookup_spec(Map::<Seq<char>, Ipv4>::empty(), q) is None,
        lookup_spec(
            Map::<Seq<char>, Ipv4>::empty().insert(norm_seq(name), ip).remove(norm_seq(name)),
            q,
        ) is None,
{
    lemma_wild_search_empty(q, 0);
    assert(Map::<Seq<char>, Ipv4>::empty().insert(norm_seq(name), ip).remove(norm_seq(name))
        =~= Map::<Seq<char>, Ipv4>::empty());
}

proof fn lemma_first_match_wild(m: Map<Seq<char>, Ipv4>, q: Seq<char>, i: int)
    ensures
        first_match(m, wild_candidates_from(q, i)) == wild_search(m, q, i),
    decreases q.len() - i,
{
    if 0 <= i < q.len() {
        lemma_first_match_wild(m, q, i + 1);
        if q[i] == '.' {
            let rest = wild_candidates_from(q, i + 1);
            assert((seq![wild_key(q.skip(i + 1))] + rest).drop_first() =~= rest);
        }
    }
}

/// Probing the lookup candidates in order is resolving: the first candidate
/// key present in the table carries exactly the resolved address.  The
/// persistent backend, which asks its storage for each candidate in turn,
/// therefore resolves as the in-memory table does.
pub proof fn lemma_candidates_give_lookup(m: Map<Seq<char>, Ipv4>, q: Seq<char>)
    ensures
        first_match(m, lookup_candidates(q)) == lookup_spec(m, q),
{
    lemma_first_match_wild(m, q, 0);
    assert((seq![norm_seq(q)] + wild_candidates_from(q, 0)).drop_first() =~= wild_candidates_from(
        q,
        0,
    ));
}

} // verus!
