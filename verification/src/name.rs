//! Domain-name normalization and wildcard lookup keys.
//!
//! A domain name is compared on its normalized form: every ASCII upper-case
//! letter lowered and one trailing separator dot stripped.  A stored key whose
//! first label is a literal `*` matches any query whose remaining labels equal
//! the key's suffix; the candidate wildcard keys of a query are built from the
//! query as written, one per separator dot, most specific first.

use vstd::prelude::*;
use vstd::string::*;

verus! {

/// ASCII lower-casing of one character; other characters are unchanged.
pub open spec fn lower_char(c: char) -> char {
    if 'A' <= c && c <= 'Z' {
        (((c as u32) + 32) as u8) as char
    } else {
        c
    }
}

/// ASCII lower-casing of a whole name.
pub open spec fn lower_seq(s: Seq<char>) -> Seq<char> {
    s.map_values(|c: char| lower_char(c))
}

/// One trailing separator dot removed, if present.
pub open spec fn strip_dot(s: Seq<char>) -> Seq<char> {
    if s.len() > 0 && s.last() == '.' {
        s.drop_last()
    } else {
        s
    }
}

/// The normalized form of a name: lower-cased, one trailing dot stripped.
pub open spec fn norm_seq(s: Seq<char>) -> Seq<char> {
    lower_seq(strip_dot(s))
}

/// The wildcard table key that covers a suffix: `"*." + suffix`.
pub open spec fn wild_key(suffix: Seq<char>) -> Seq<char> {
    seq!['*', '.'] + suffix
}

/// The wildcard keys that a query's dots from position `i` on give rise to,
/// most specific suffix first: one key `"*." + q[j+1..]` per dot position
/// `j >= i`, in increasing order of `j`.
pub open spec fn wild_candidates_from(q: Seq<char>, i: int) -> Seq<Seq<char>>
    decreases q.len() - i,
{
    if i < 0 || i >= q.len() {
        Seq::empty()
    } else if q[i] == '.' {
        seq![wild_key(q.skip(i + 1))] + wild_candidates_from(q, i + 1)
    } else {
        wild_candidates_from(q, i + 1)
    }
}

/// Every key a lookup of `q` probes, in order: the normalized query itself,
/// then the wildcard key of each suffix of the query as written.
pub open spec fn lookup_candidates(q: Seq<char>) -> Seq<Seq<char>> {
    seq![norm_seq(q)] + wild_candidates_from(q, 0)
}

fn lower_char_exec(c: char) -> (r: char)
    ensures
        r == lower_char(c),
{
    if 'A' <= c && c <= 'Z' {
        (((c as u32) + 32) as u8) as char
    } else {
        c
    }
}

/// Relies on `String::push` of std: it appends the given character to the
/// end of the string.
#[verifier::external_body]
fn push_char(s: &mut String, c: char)
    ensures
        final(s)@ == old(s)@.push(c),
{
    s.push(c);
}

/// The normalized form of a name, as stored and as looked up: lower-cased,
/// with one trailing dot stripped.
pub fn normalize(name: &str) -> (r: String)
    ensures
        r@ == norm_seq(name@),
{
    let n = name.unicode_len();
    let end = if n > 0 && name.get_char(n - 1) == '.' {
        n - 1
    } else {
        n
    };
    assert(name@.take(end as int) == strip_dot(name@));
    let mut out = String::new();
    let mut i: usize = 0;
    while i < end
        invariant
            i <= end,
            end <= name@.len(),
            out@ == lower_seq(name@.take(end as int)).take(i as int),
        decreases end - i,
    {
        let c = lower_char_exec(name.get_char(i));
        push_char(&mut out, c);
        assert(lower_seq(name@.take(end as int)).take(i + 1) == lower_seq(
            name@.take(end as int),
        ).take(i as int).push(c));
        i = i + 1;
    }
    assert(out@ == lower_seq(strip_dot(name@))) by {
        assert(lower_seq(name@.take(end as int)).take(end as int) == lower_seq(
            name@.take(end as int),
        ));
    }
    out
}

/// The keys a lookup of `qname` probes, in order: first the normalized query,
/// then one wildcard key per dot of the query as written, most specific
/// suffix first.  The persistent backend asks its storage for each of these
/// in turn and takes the first hit.
pub fn resolve_candidates(qname: &str) -> (r: Vec<String>)
    ensures
        r@.map_values(|s: String| s@) == lookup_candidates(qname@),
{
    let mut out: Vec<String> = Vec::new();
    out.push(normalize(qname));
    let n = qname.unicode_len();
    let mut j: usize = 0;
    while j < n
        invariant
            j <= n,
            n == qname@.len(),
            out@.map_values(|s: String| s@) + wild_candidates_from(qname@, j as int)
                == lookup_candidates(qname@),
        decreases n - j,
    {
        if qname.get_char(j) == '.' {
            let mut w = String::from_str("*.");
            proof {
                reveal_strlit("*.");
                assert(w@ =~= seq!['*', '.']);
            }
            let suffix = qname.substring_char(j + 1, n);
            w.append(suffix);
            assert(w@ == wild_key(qname@.skip(j + 1)));
            out.push(w);
        }
        assert(out@.map_values(|s: String| s@) + wild_candidates_from(qname@, j + 1)
            == lookup_candidates(qname@)) by {
            assert(wild_candidates_from(qname@, j as int) == (if qname@[j as int] == '.' {
                seq![wild_key(qname@.skip(j + 1))] + wild_candidates_from(qname@, j + 1)
            } else {
                wild_candidates_from(qname@, j + 1)
            }));
        }
        j = j + 1;
    }
    assert(out@.map_values(|s: String| s@) =~= lookup_candidates(qname@));
    out
}

} // verus!
