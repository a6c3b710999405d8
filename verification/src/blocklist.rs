//! Path blocklist matcher.
//!
//! A request path is blocked when, after stripping one leading `/`, it is
//! exactly one of the blocked folder entries or lies strictly below one
//! (the entry followed by `/`). An entry that is merely a string prefix of
//! a path component does not block it: entry `priv` does not block
//! `/private`.

use vstd::prelude::*;

verus! {

/// The request path with exactly one leading `/` removed, if present.
pub open spec fn normalize(p: Seq<char>) -> Seq<char> {
    if p.len() > 0 && p[0] == '/' {
        p.subrange(1, p.len() as int)
    } else {
        p
    }
}

/// An already-normalized path `n` matches a blocked entry `e` when it is
/// `e` itself or starts with `e` followed by a `/`.
pub open spec fn match_normalized(n: Seq<char>, e: Seq<char>) -> bool {
    n == e || (n.len() > e.len() && n.subrange(0, e.len() as int) == e && n[e.len() as int] == '/')
}

/// A raw request path `p` matches a blocked entry `e`.
pub open spec fn entry_matches(p: Seq<char>, e: Seq<char>) -> bool {
    match_normalized(normalize(p), e)
}

/// A path is blocked when some entry of the blocklist matches it;
/// the order of the entries is irrelevant.
pub open spec fn spec_is_blocked(p: Seq<char>, blocked: Seq<Seq<char>>) -> bool {
    exists|i: int| 0 <= i < blocked.len() && entry_matches(p, blocked[i])
}

/// A normalized path matches an entry exactly when it equals the entry or
/// starts with the entry extended by `/`; this restates `match_normalized`
/// in terms of a prefix of length `e.len() as int + 1`.
pub proof fn lemma_match_is_extended_prefix(n: Seq<char>, e: Seq<char>)
    ensures
        match_normalized(n, e) <==> (n == e || (n.len() >= e.len() as int + 1 && n.subrange(
            0,
            e.len() as int + 1,
        ) == e.push('/'))),
{
    if n.len() > e.len() && n.subrange(0, e.len() as int) == e && n[e.len() as int] == '/' {
        assert(n.subrange(0, e.len() as int + 1) =~= e.push('/'));
    }
    if n.len() >= e.len() as int + 1 && n.subrange(0, e.len() as int + 1) == e.push('/') {
        assert(n.subrange(0, e.len() as int) =~= n.subrange(0, e.len() as int + 1).subrange(
            0,
            e.len() as int,
        ));
        assert(n.subrange(0, e.len() as int) =~= e);
        assert(n[e.len() as int] == n.subrange(0, e.len() as int + 1)[e.len() as int]);
    }
}

/// The order of the blocklist entries never affects the result: two
/// blocklists holding the same entries block the same paths, since any one
/// match suffices.
pub proof fn lemma_blocklist_order_irrelevant(
    p: Seq<char>,
    b1: Seq<Seq<char>>,
    b2: Seq<Seq<char>>,
)
    requires
        forall|e: Seq<char>| b1.contains(e) <==> b2.contains(e),
    ensures
        spec_is_blocked(p, b1) == spec_is_blocked(p, b2),
{
    if spec_is_blocked(p, b1) {
        let i = choose|i: int| 0 <= i < b1.len() && entry_matches(p, b1[i]);
        assert(b1.contains(b1[i]));
        let j = choose|j: int| 0 <= j < b2.len() && b2[j] == b1[i];
        assert(entry_matches(p, b2[j]));
    }
    if spec_is_blocked(p, b2) {
        let i = choose|i: int| 0 <= i < b2.len() && entry_matches(p, b2[i]);
        assert(b2.contains(b2[i]));
        let j = choose|j: int| 0 <= j < b1.len() && b1[j] == b2[i];
        assert(entry_matches(p, b1[j]));
    }
}

/// Whether the already-normalized path `n` equals `e` or starts with
/// `e` followed by `/`.
fn folder_matches(n: &str, e: &str) -> (r: bool)
    ensures
        r == match_normalized(n@, e@),
{
    let nlen = n.unicode_len();
    let elen = e.unicode_len();
    if nlen < elen {
        return false;
    }
    let mut j: usize = 0;
    while j < elen
        invariant
            j <= elen,
            elen == e@.len(),
            nlen == n@.len(),
            elen <= nlen,
            forall|k: int| 0 <= k < j ==> n@[k] == e@[k],
        decreases elen - j,
    {
        if n.get_char(j) != e.get_char(j) {
            assert(!match_normalized(n@, e@)) by {
                assert(n@[j as int] != e@[j as int]);
                if n@ == e@ {
                    assert(n@[j as int] == e@[j as int]);
                }
                if n@.subrange(0, e@.len() as int) == e@ {
                    assert(n@.subrange(0, e@.len() as int)[j as int] == n@[j as int]);
                }
            }
            return false;
        }
        j += 1;
    }
    if nlen == elen {
        assert(n@ =~= e@);
        true
    } else {
        assert(n@.subrange(0, e@.len() as int) =~= e@);
        assert(n@ != e@);
        let c = n.get_char(elen);
        c == '/'
    }
}

/// Whether the request path `path` falls under one of the folders in
/// `blocked_folders`: after stripping one leading `/`, the path equals an
/// entry or starts with an entry followed by `/`. An empty blocklist blocks
/// nothing; an empty-string entry blocks every path.
pub fn is_path_blocked(path: &str, blocked_folders: &[String]) -> (r: bool)
    ensures
        r == spec_is_blocked(path@, blocked_folders.deep_view()),
{
    let plen = path.unicode_len();
    let normalized: &str = if plen > 0 && path.get_char(0) == '/' {
        path.substring_char(1, plen)
    } else {
        path
    };
    assert(normalized@ == normalize(path@));
    let n = blocked_folders.len();
    let mut i: usize = 0;
    while i < n
        invariant
            i <= n,
            n == blocked_folders.deep_view().len(),
            normalized@ == normalize(path@),
            forall|j: int|
                0 <= j < i ==> !entry_matches(path@, blocked_folders.deep_view()[j]),
        decreases n - i,
    {
        assert(blocked_folders.deep_view()[i as int] == blocked_folders@[i as int]@);
        if folder_matches(normalized, blocked_folders[i].as_str()) {
            return true;
        }
        i += 1;
    }
    false
}

} // verus!
