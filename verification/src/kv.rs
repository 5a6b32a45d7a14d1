//! A keyed store kept as a vector of entries sorted by key in strictly
//! ascending lexicographic order. Sortedness makes keys unique, lookup
//! deterministic, and cursor-based range scans a matter of slicing; the
//! message store and the test-run store are both instances of it.

use vstd::prelude::*;

use crate::order::{lex_lt, lemma_lex_connex, lemma_lex_irrefl, lemma_lex_trans, key_lt};

verus! {

/// The store invariant: keys strictly ascend, so every key occurs once.
pub open spec fn keys_sorted<V>(s: Seq<(String, V)>) -> bool {
    forall|i: int, j: int| 0 <= i < j < s.len() ==> lex_lt(s[i].0@, s[j].0@)
}

/// The value stored under a key, if any.
pub open spec fn lookup<V>(s: Seq<(String, V)>, k: Seq<char>) -> Option<V>
    decreases s.len(),
{
    if s.len() == 0 {
        None
    } else if s[0].0@ == k {
        Some(s[0].1)
    } else {
        lookup(s.drop_first(), k)
    }
}

/// The number of leading entries whose key is below `k`; in a sorted store,
/// the position where `k` lives or would be inserted.
pub open spec fn lb_idx<V>(s: Seq<(String, V)>, k: Seq<char>) -> int
    decreases s.len(),
{
    if s.len() == 0 {
        0
    } else if lex_lt(s[0].0@, k) {
        1 + lb_idx(s.drop_first(), k)
    } else {
        0
    }
}

/// The number of leading entries whose key is at or below `k`; in a sorted
/// store, the position of the first key strictly above the cursor `k`.
pub open spec fn cut_idx<V>(s: Seq<(String, V)>, k: Seq<char>) -> int
    decreases s.len(),
{
    if s.len() == 0 {
        0
    } else if !lex_lt(k, s[0].0@) {
        1 + cut_idx(s.drop_first(), k)
    } else {
        0
    }
}

/// The store after binding `key` to `val`: an overwrite in place when the
/// key is present, an insertion at its sorted position when it is not.
pub open spec fn upsert<V>(s: Seq<(String, V)>, key: String, val: V) -> Seq<(String, V)> {
    let p = lb_idx(s, key@);
    if p < s.len() && s[p].0@ == key@ {
        s.update(p, (key, val))
    } else {
        s.insert(p, (key, val))
    }
}

/// The store after unbinding `k`: one entry fewer when the key is present,
/// unchanged when it is not.
pub open spec fn removed<V>(s: Seq<(String, V)>, k: Seq<char>) -> Seq<(String, V)> {
    let p = lb_idx(s, k);
    if p < s.len() && s[p].0@ == k {
        s.remove(p)
    } else {
        s
    }
}

proof fn lemma_sorted_tail<V>(s: Seq<(String, V)>)
    requires
        keys_sorted(s),
        s.len() > 0,
    ensures
        keys_sorted(s.drop_first()),
{
    assert forall|i: int, j: int|
        0 <= i < j < s.drop_first().len() implies lex_lt(
        s.drop_first()[i].0@,
        s.drop_first()[j].0@,
    ) by {
        assert(s.drop_first()[i] == s[i + 1]);
        assert(s.drop_first()[j] == s[j + 1]);
    }
}

/// In a sorted store, `lb_idx` splits the keys into those below `k` and
/// those not below it.
pub proof fn lemma_lb_props<V>(s: Seq<(String, V)>, k: Seq<char>)
    requires
        keys_sorted(s),
    ensures
        0 <= lb_idx(s, k) <= s.len(),
        forall|j: int| 0 <= j < lb_idx(s, k) ==> lex_lt(s[j].0@, k),
        forall|j: int| lb_idx(s, k) <= j < s.len() ==> !lex_lt(s[j].0@, k),
    decreases s.len(),
{
    if s.len() > 0 {
        lemma_sorted_tail(s);
        lemma_lb_props(s.drop_first(), k);
        let t = s.drop_first();
        if lex_lt(s[0].0@, k) {
            assert forall|j: int| 0 <= j < lb_idx(s, k) implies lex_lt(s[j].0@, k) by {
                if j > 0 {
                    assert(t[j - 1] == s[j]);
                }
            }
            assert forall|j: int| lb_idx(s, k) <= j < s.len() implies !lex_lt(s[j].0@, k) by {
                assert(t[j - 1] == s[j]);
            }
        } else {
            assert forall|j: int| 0 <= j < s.len() implies !lex_lt(s[j].0@, k) by {
                if j > 0 {
                    if lex_lt(s[j].0@, k) {
                        lemma_lex_trans(s[0].0@, s[j].0@, k);
                    }
                }
            }
        }
    }
}

/// `lb_idx` is the only split point: whatever index separates the keys
/// below `k` from the rest equals it.
pub proof fn lemma_lb_eq<V>(s: Seq<(String, V)>, k: Seq<char>, p: int)
    requires
        keys_sorted(s),
        0 <= p <= s.len(),
        forall|j: int| 0 <= j < p ==> lex_lt(s[j].0@, k),
        p < s.len() ==> !lex_lt(s[p].0@, k),
    ensures
        lb_idx(s, k) == p,
{
    lemma_lb_props(s, k);
    let lb = lb_idx(s, k);
    if lb < p {
        assert(lex_lt(s[lb].0@, k));
    }
    if lb > p {
        assert(lex_lt(s[p].0@, k));
    }
}

/// In a sorted store, `cut_idx` splits the keys into those at or below the
/// cursor `k` and those strictly above it.
pub proof fn lemma_cut_props<V>(s: Seq<(String, V)>, k: Seq<char>)
    requires
        keys_sorted(s),
    ensures
        0 <= cut_idx(s, k) <= s.len(),
        forall|j: int| 0 <= j < cut_idx(s, k) ==> !lex_lt(k, s[j].0@),
        forall|j: int| cut_idx(s, k) <= j < s.len() ==> lex_lt(k, s[j].0@),
    decreases s.len(),
{
    if s.len() > 0 {
        lemma_sorted_tail(s);
        lemma_cut_props(s.drop_first(), k);
        let t = s.drop_first();
        if !lex_lt(k, s[0].0@) {
            assert forall|j: int| 0 <= j < cut_idx(s, k) implies !lex_lt(k, s[j].0@) by {
                if j > 0 {
                    assert(t[j - 1] == s[j]);
                }
            }
            assert forall|j: int| cut_idx(s, k) <= j < s.len() implies lex_lt(k, s[j].0@) by {
                assert(t[j - 1] == s[j]);
            }
        } else {
            assert forall|j: int| 0 <= j < s.len() implies lex_lt(k, s[j].0@) by {
                if j > 0 {
                    lemma_lex_trans(k, s[0].0@, s[j].0@);
                }
            }
        }
    }
}

/// `cut_idx` is the only split point for a cursor.
pub proof fn lemma_cut_eq<V>(s: Seq<(String, V)>, k: Seq<char>, p: int)
    requires
        keys_sorted(s),
        0 <= p <= s.len(),
        forall|j: int| 0 <= j < p ==> !lex_lt(k, s[j].0@),
        p < s.len() ==> lex_lt(k, s[p].0@),
    ensures
        cut_idx(s, k) == p,
{
    lemma_cut_props(s, k);
    let c = cut_idx(s, k);
    if c < p {
        assert(!lex_lt(k, s[c].0@));
    }
    if c > p {
        assert(lex_lt(k, s[p].0@));
    }
}

/// Continuing a scan from the key of entry `m` starts at entry `m + 1`:
/// consecutive pages meet with no overlap and no gap.
pub proof fn lemma_cut_at<V>(s: Seq<(String, V)>, m: int)
    requires
        keys_sorted(s),
        0 <= m < s.len(),
    ensures
        cut_idx(s, s[m].0@) == m + 1,
{
    let k = s[m].0@;
    assert forall|j: int| 0 <= j < m + 1 implies !lex_lt(k, s[j].0@) by {
        if j < m {
            if lex_lt(k, s[j].0@) {
                lemma_lex_trans(s[j].0@, k, s[j].0@);
                lemma_lex_irrefl(s[j].0@);
            }
        } else {
            lemma_lex_irrefl(k);
        }
    }
    lemma_cut_eq(s, k, m + 1);
}

/// The entry at a key equal to `k` is what `lookup` returns.
pub proof fn lemma_lookup_at<V>(s: Seq<(String, V)>, k: Seq<char>, i: int)
    requires
        keys_sorted(s),
        0 <= i < s.len(),
        s[i].0@ == k,
    ensures
        lookup(s, k) == Some(s[i].1),
    decreases s.len(),
{
    if i == 0 {
    } else {
        if s[0].0@ == k {
            lemma_lex_irrefl(k);
        }
        lemma_sorted_tail(s);
        assert(s.drop_first()[i - 1] == s[i]);
        lemma_lookup_at(s.drop_first(), k, i - 1);
    }
}

/// A key under which nothing is stored looks up to `None`.
pub proof fn lemma_lookup_absent<V>(s: Seq<(String, V)>, k: Seq<char>)
    requires
        forall|i: int| 0 <= i < s.len() ==> s[i].0@ != k,
    ensures
        lookup(s, k) is None,
    decreases s.len(),
{
    if s.len() > 0 {
        assert forall|i: int| 0 <= i < s.drop_first().len() implies s.drop_first()[i].0@ != k by {
            assert(s.drop_first()[i] == s[i + 1]);
        }
        lemma_lookup_absent(s.drop_first(), k);
    }
}

/// `lookup` answered through the split point: the key sits at `lb_idx` or
/// nowhere.
pub proof fn lemma_lookup_lb<V>(s: Seq<(String, V)>, k: Seq<char>)
    requires
        keys_sorted(s),
    ensures
        lookup(s, k) == if lb_idx(s, k) < s.len() && s[lb_idx(s, k)].0@ == k {
            Some(s[lb_idx(s, k)].1)
        } else {
            None
        },
{
    lemma_lb_props(s, k);
    let p = lb_idx(s, k);
    if p < s.len() && s[p].0@ == k {
        lemma_lookup_at(s, k, p);
    } else {
        assert forall|i: int| 0 <= i < s.len() implies s[i].0@ != k by {
            if i < p {
                if s[i].0@ == k {
                    lemma_lex_irrefl(k);
                }
            } else if i > p {
                if s[i].0@ == k {
                    assert(lex_lt(s[p].0@, s[i].0@));
                }
            }
        }
        lemma_lookup_absent(s, k);
    }
}

/// A successful lookup names an entry.
pub proof fn lemma_lookup_some_inv<V>(s: Seq<(String, V)>, k: Seq<char>)
    requires
        lookup(s, k) is Some,
    ensures
        exists|i: int|
            0 <= i < s.len() && (#[trigger] s[i]).0@ == k && lookup(s, k) == Some(s[i].1),
    decreases s.len(),
{
    if s[0].0@ == k {
        assert(s[0].0@ == k && lookup(s, k) == Some(s[0].1));
    } else {
        lemma_lookup_some_inv(s.drop_first(), k);
        let i = choose|i: int|
            0 <= i < s.drop_first().len() && (#[trigger] s.drop_first()[i]).0@ == k && lookup(
                s.drop_first(),
                k,
            ) == Some(s.drop_first()[i].1);
        assert(s[i + 1] == s.drop_first()[i]);
        assert(s[i + 1].0@ == k && lookup(s, k) == Some(s[i + 1].1));
    }
}

/// A failed lookup means no entry carries the key.
pub proof fn lemma_lookup_none_inv<V>(s: Seq<(String, V)>, k: Seq<char>)
    requires
        keys_sorted(s),
        lookup(s, k) is None,
    ensures
        forall|i: int| 0 <= i < s.len() ==> (#[trigger] s[i]).0@ != k,
{
    assert forall|i: int| 0 <= i < s.len() implies (#[trigger] s[i]).0@ != k by {
        if s[i].0@ == k {
            lemma_lookup_at(s, k, i);
        }
    }
}

/// Decides whether two keys are equal, through the order.
pub fn key_eq(a: &str, b: &str) -> (r: bool)
    ensures
        r == (a@ == b@),
{
    let below = key_lt(a, b);
    let above = key_lt(b, a);
    proof {
        if a@ == b@ {
            lemma_lex_irrefl(a@);
        } else {
            lemma_lex_connex(a@, b@);
        }
    }
    !below && !above
}

/// Finds the split point of a key: the index of the first entry whose key
/// is not below it.
pub fn find_lb<V>(v: &Vec<(String, V)>, key: &str) -> (r: usize)
    requires
        keys_sorted(v@),
    ensures
        r == lb_idx(v@, key@),
{
    let n: usize = v.len();
    let mut i: usize = 0;
    while i < n
        invariant
            n == v@.len(),
            0 <= i <= n,
            keys_sorted(v@),
            forall|j: int| 0 <= j < i ==> lex_lt(v@[j].0@, key@),
        decreases n - i,
    {
        let p = &v[i];
        if !key_lt(p.0.as_str(), key) {
            proof {
                lemma_lb_eq(v@, key@, i as int);
            }
            return i;
        }
        i += 1;
    }
    proof {
        lemma_lb_eq(v@, key@, n as int);
    }
    n
}

/// Finds where a scan continuing after the cursor `key` starts: the index
/// of the first entry whose key is strictly above it.
pub fn find_cut<V>(v: &Vec<(String, V)>, key: &str) -> (r: usize)
    requires
        keys_sorted(v@),
    ensures
        r == cut_idx(v@, key@),
{
    let n: usize = v.len();
    let mut i: usize = 0;
    while i < n
        invariant
            n == v@.len(),
            0 <= i <= n,
            keys_sorted(v@),
            forall|j: int| 0 <= j < i ==> !lex_lt(key@, v@[j].0@),
        decreases n - i,
    {
        let p = &v[i];
        if key_lt(key, p.0.as_str()) {
            proof {
                lemma_cut_eq(v@, key@, i as int);
            }
            return i;
        }
        i += 1;
    }
    proof {
        lemma_cut_eq(v@, key@, n as int);
    }
    n
}

/// Returns the value stored under a key, if any.
pub fn kv_get<'a, V>(v: &'a Vec<(String, V)>, key: &str) -> (r: Option<&'a V>)
    requires
        keys_sorted(v@),
    ensures
        match r {
            Some(val) => lookup(v@, key@) == Some(*val),
            None => lookup(v@, key@) is None,
        },
{
    let i = find_lb(v, key);
    proof {
        lemma_lookup_lb(v@, key@);
    }
    if i < v.len() {
        let p = &v[i];
        if key_eq(p.0.as_str(), key) {
            return Some(&p.1);
        }
    }
    None
}

/// Binds `key` to `val`, overwriting any value already stored under it and
/// keeping the entries sorted.
pub fn kv_upsert<V>(v: &mut Vec<(String, V)>, key: String, val: V)
    requires
        keys_sorted(old(v)@),
    ensures
        keys_sorted(final(v)@),
        final(v)@ == upsert(old(v)@, key, val),
        lookup(final(v)@, key@) == Some(val),
        forall|k: Seq<char>| k != key@ ==> lookup(final(v)@, k) == lookup(old(v)@, k),
{
    let i = find_lb(v, key.as_str());
    proof {
        lemma_lb_props(v@, key@);
    }
    let ghost s0 = v@;
    let mut matched = false;
    if i < v.len() {
        let p = &v[i];
        if key_eq(p.0.as_str(), key.as_str()) {
            matched = true;
        }
    }
    if matched {
        v.remove(i);
        v.insert(i, (key, val));
        proof {
            assert(v@ =~= s0.update(i as int, (key, val)));
            assert forall|a: int, b: int| 0 <= a < b < v@.len() implies lex_lt(
                v@[a].0@,
                v@[b].0@,
            ) by {
                assert(s0[i as int].0@ == key@);
                assert(v@[a].0@ == s0[a].0@);
                assert(v@[b].0@ == s0[b].0@);
            }
            lemma_lookup_at(v@, key@, i as int);
            assert forall|k: Seq<char>| k != key@ implies lookup(v@, k) == lookup(s0, k) by {
                if lookup(s0, k) is Some {
                    lemma_lookup_some_inv(s0, k);
                    let w = choose|w: int|
                        0 <= w < s0.len() && (#[trigger] s0[w]).0@ == k && lookup(s0, k) == Some(
                            s0[w].1,
                        );
                    assert(w != i as int);
                    assert(v@[w] == s0[w]);
                    lemma_lookup_at(v@, k, w);
                } else {
                    lemma_lookup_none_inv(s0, k);
                    assert forall|j: int| 0 <= j < v@.len() implies (#[trigger] v@[j]).0@
                        != k by {
                        if j != i as int {
                            assert(v@[j] == s0[j]);
                        }
                    }
                    lemma_lookup_absent(v@, k);
                }
            }
        }
    } else {
        v.insert(i, (key, val));
        proof {
            assert forall|a: int, b: int| 0 <= a < b < v@.len() implies lex_lt(
                v@[a].0@,
                v@[b].0@,
            ) by {
                let n0 = s0.len() as int;
                if a < i && b == i {
                    assert(v@[a] == s0[a]);
                } else if a == i && b > i {
                    assert(v@[b] == s0[b - 1]);
                    let kb = s0[b - 1].0@;
                    assert(!lex_lt(kb, key@));
                    if kb == key@ {
                        if b - 1 > i {
                            assert(lex_lt(s0[i as int].0@, kb));
                        }
                        assert(false);
                    }
                    lemma_lex_connex(key@, kb);
                } else if a < i && b > i {
                    assert(v@[a] == s0[a]);
                    assert(v@[b] == s0[b - 1]);
                } else if b < i {
                    assert(v@[a] == s0[a]);
                    assert(v@[b] == s0[b]);
                } else if a > i {
                    assert(v@[a] == s0[a - 1]);
                    assert(v@[b] == s0[b - 1]);
                }
            }
            lemma_lookup_at(v@, key@, i as int);
            assert forall|k: Seq<char>| k != key@ implies lookup(v@, k) == lookup(s0, k) by {
                if lookup(s0, k) is Some {
                    lemma_lookup_some_inv(s0, k);
                    let w = choose|w: int|
                        0 <= w < s0.len() && (#[trigger] s0[w]).0@ == k && lookup(s0, k) == Some(
                            s0[w].1,
                        );
                    if w < i as int {
                        assert(v@[w] == s0[w]);
                        lemma_lookup_at(v@, k, w);
                    } else {
                        assert(v@[w + 1] == s0[w]);
                        lemma_lookup_at(v@, k, w + 1);
                    }
                } else {
                    lemma_lookup_none_inv(s0, k);
                    assert forall|j: int| 0 <= j < v@.len() implies (#[trigger] v@[j]).0@
                        != k by {
                        if j < i as int {
                            assert(v@[j] == s0[j]);
                        } else if j > i as int {
                            assert(v@[j] == s0[j - 1]);
                        }
                    }
                    lemma_lookup_absent(v@, k);
                }
            }
        }
    }
}

/// Unbinds a key; a no-op when nothing is stored under it.
pub fn kv_remove<V>(v: &mut Vec<(String, V)>, key: &str)
    requires
        keys_sorted(old(v)@),
    ensures
        keys_sorted(final(v)@),
        final(v)@ == removed(old(v)@, key@),
        lookup(final(v)@, key@) is None,
        forall|k: Seq<char>| k != key@ ==> lookup(final(v)@, k) == lookup(old(v)@, k),
{
    let i = find_lb(v, key);
    proof {
        lemma_lb_props(v@, key@);
    }
    let ghost s0 = v@;
    let mut matched = false;
    if i < v.len() {
        let p = &v[i];
        if key_eq(p.0.as_str(), key) {
            matched = true;
        }
    }
    if matched {
        v.remove(i);
        proof {
            assert(v@ =~= s0.remove(i as int));
            assert forall|a: int, b: int| 0 <= a < b < v@.len() implies lex_lt(
                v@[a].0@,
                v@[b].0@,
            ) by {
                if b < i {
                    assert(v@[a] == s0[a]);
                    assert(v@[b] == s0[b]);
                } else if a < i {
                    assert(v@[a] == s0[a]);
                    assert(v@[b] == s0[b + 1]);
                } else {
                    assert(v@[a] == s0[a + 1]);
                    assert(v@[b] == s0[b + 1]);
                }
            }
            assert forall|j: int| 0 <= j < v@.len() implies v@[j].0@ != key@ by {
                if j < i {
                    assert(v@[j] == s0[j]);
                    if v@[j].0@ == key@ {
                        lemma_lex_irrefl(key@);
                    }
                } else {
                    assert(v@[j] == s0[j + 1]);
                    if v@[j].0@ == key@ {
                        assert(lex_lt(s0[i as int].0@, s0[j + 1].0@));
                    }
                }
            }
            lemma_lookup_absent(v@, key@);
            assert forall|k: Seq<char>| k != key@ implies lookup(v@, k) == lookup(s0, k) by {
                if lookup(s0, k) is Some {
                    lemma_lookup_some_inv(s0, k);
                    let w = choose|w: int|
                        0 <= w < s0.len() && (#[trigger] s0[w]).0@ == k && lookup(s0, k) == Some(
                            s0[w].1,
                        );
                    assert(w != i as int);
                    if w < i as int {
                        assert(v@[w] == s0[w]);
                        lemma_lookup_at(v@, k, w);
                    } else {
                        assert(v@[w - 1] == s0[w]);
                        lemma_lookup_at(v@, k, w - 1);
                    }
                } else {
                    lemma_lookup_none_inv(s0, k);
                    assert forall|j: int| 0 <= j < v@.len() implies (#[trigger] v@[j]).0@
                        != k by {
                        if j < i as int {
                            assert(v@[j] == s0[j]);
                        } else {
                            assert(v@[j] == s0[j + 1]);
                        }
                    }
                    lemma_lookup_absent(v@, k);
                }
            }
        }
    } else {
        proof {
            assert forall|j: int| 0 <= j < v@.len() implies v@[j].0@ != key@ by {
                if j < i {
                    if v@[j].0@ == key@ {
                        lemma_lex_irrefl(key@);
                    }
                } else if j > i {
                    if v@[j].0@ == key@ {
                        assert(lex_lt(s0[i as int].0@, s0[j].0@));
                    }
                }
            }
            lemma_lookup_absent(v@, key@);
        }
    }
}

} // verus!
