//! Sort keys and a stable sort.
//!
//! A sort key is a sequence of integers compared lexicographically. Text is
//! encoded as its character codes followed by `-1`, which sits below every
//! character, so a key built from several fields orders exactly as the tuple
//! of those fields does (strings by code point, shorter prefixes first).
use vstd::prelude::*;

verus! {

/// Strict lexicographic order on integer sequences.
pub open spec fn lex_lt(a: Seq<i64>, b: Seq<i64>) -> bool
    decreases a.len(),
{
    if a.len() == 0 {
        b.len() > 0
    } else if b.len() == 0 {
        false
    } else if a[0] < b[0] {
        true
    } else if a[0] == b[0] {
        lex_lt(a.drop_first(), b.drop_first())
    } else {
        false
    }
}

/// `a <= b` in the lexicographic order.
pub open spec fn lex_le(a: Seq<i64>, b: Seq<i64>) -> bool {
    !lex_lt(b, a)
}

/// The key part for a text: its character codes, then a terminator below all of them.
pub open spec fn text_key(s: Seq<char>) -> Seq<i64> {
    s.map_values(|c: char| c as i64).push(-1i64)
}

/// No key is below itself.
pub proof fn lemma_lex_irreflexive(a: Seq<i64>)
    ensures
        !lex_lt(a, a),
    decreases a.len(),
{
    if a.len() > 0 {
        lemma_lex_irreflexive(a.drop_first());
    }
}

/// The key order is transitive.
pub proof fn lemma_lex_transitive(a: Seq<i64>, b: Seq<i64>, c: Seq<i64>)
    requires
        lex_lt(a, b),
        lex_lt(b, c),
    ensures
        lex_lt(a, c),
    decreases a.len(),
{
    if a.len() > 0 && b.len() > 0 && c.len() > 0 {
        if a[0] == b[0] && b[0] == c[0] {
            lemma_lex_transitive(a.drop_first(), b.drop_first(), c.drop_first());
        }
    }
}

/// Any two keys are comparable.
pub proof fn lemma_lex_total(a: Seq<i64>, b: Seq<i64>)
    ensures
        lex_lt(a, b) || lex_lt(b, a) || a == b,
    decreases a.len(),
{
    if a.len() > 0 && b.len() > 0 && a[0] == b[0] {
        lemma_lex_total(a.drop_first(), b.drop_first());
        if a.drop_first() == b.drop_first() {
            assert(a =~= seq![a[0]] + a.drop_first());
            assert(b =~= seq![b[0]] + b.drop_first());
        }
    } else if a.len() == 0 && b.len() == 0 {
        assert(a =~= b);
    }
}

/// Below then at-most gives below.
pub proof fn lemma_lex_lt_le_trans(a: Seq<i64>, b: Seq<i64>, c: Seq<i64>)
    requires
        lex_lt(a, b),
        lex_le(b, c),
    ensures
        lex_lt(a, c),
{
    lemma_lex_total(b, c);
    if b != c {
        lemma_lex_transitive(a, b, c);
    }
}

/// At-most is transitive.
pub proof fn lemma_lex_le_trans(a: Seq<i64>, b: Seq<i64>, c: Seq<i64>)
    requires
        lex_le(a, b),
        lex_le(b, c),
    ensures
        lex_le(a, c),
{
    if lex_lt(c, a) {
        lemma_lex_total(a, b);
        if a != b {
            lemma_lex_lt_le_trans(c, a, b);
        }
    }
}

/// Compares two keys: true iff `a` is strictly below `b`.
pub fn key_less(a: &Vec<i64>, b: &Vec<i64>) -> (r: bool)
    ensures
        r == lex_lt(a@, b@),
{
    let mut i: usize = 0;
    assert(a@.skip(0) =~= a@);
    assert(b@.skip(0) =~= b@);
    while i < a.len() && i < b.len() && a[i] == b[i]
        invariant
            i <= a.len(),
            i <= b.len(),
            lex_lt(a@, b@) == lex_lt(a@.skip(i as int), b@.skip(i as int)),
        decreases a.len() - i,
    {
        assert(a@.skip(i as int).drop_first() =~= a@.skip(i + 1));
        assert(b@.skip(i as int).drop_first() =~= b@.skip(i + 1));
        i = i + 1;
    }
    if i == a.len() {
        i < b.len()
    } else if i == b.len() {
        false
    } else {
        a[i] < b[i]
    }
}

/// Appends the text key of `s` (its character codes and the terminator) to `key`.
pub fn push_text_key(key: &mut Vec<i64>, s: &Vec<char>)
    ensures
        final(key)@ == old(key)@ + text_key(s@),
{
    let mut i: usize = 0;
    while i < s.len()
        invariant
            i <= s.len(),
            key@ == old(key)@ + s@.take(i as int).map_values(|c: char| c as i64),
        decreases s.len() - i,
    {
        let c = s[i];
        key.push(c as i64);
        assert(s@.take(i + 1).map_values(|c: char| c as i64) =~= s@.take(i as int).map_values(
            |c: char| c as i64,
        ).push(c as i64));
        i = i + 1;
    }
    key.push(-1);
    assert(s@.take(s.len() as int) =~= s@);
    assert(old(key)@ + text_key(s@) =~= old(key)@ + s@.map_values(|c: char| c as i64) + seq![
        -1i64,
    ]);
}

/// `p` lists each index in `0..n` exactly once.
pub open spec fn is_permutation(p: Seq<usize>, n: nat) -> bool {
    &&& p.len() == n
    &&& forall|i: int| 0 <= i < p.len() ==> (#[trigger] p[i]) < n
    &&& forall|i: int, j: int| 0 <= i < j < p.len() ==> p[i] != p[j]
}

/// `p` visits `keys` in non-decreasing key order, and items with equal keys in
/// their input order: `p` is the order a stable sort by these keys produces.
pub open spec fn is_stable_order(p: Seq<usize>, keys: Seq<Seq<i64>>) -> bool {
    &&& is_permutation(p, keys.len())
    &&& forall|i: int, j: int|
        0 <= i < j < p.len() ==> lex_le(#[trigger] keys[p[i] as int], #[trigger] keys[p[j] as int])
    &&& forall|i: int, j: int|
        0 <= i < j < p.len() && keys[p[i] as int] == keys[p[j] as int] ==> #[trigger] p[i]
            < #[trigger] p[j]
}

/// The values of a list of keys.
pub open spec fn key_views(keys: Seq<Vec<i64>>) -> Seq<Seq<i64>> {
    keys.map_values(|k: Vec<i64>| k@)
}

/// Sorted order of the first `n` keys (the loop state of `stable_order`).
spec fn partial_order_ok(p: Seq<usize>, keys: Seq<Vec<i64>>, n: int) -> bool {
    &&& p.len() == n
    &&& forall|i: int| 0 <= i < p.len() ==> (#[trigger] p[i]) < n
    &&& forall|i: int, j: int| 0 <= i < j < p.len() ==> p[i] != p[j]
    &&& forall|i: int, j: int|
        0 <= i < j < p.len() ==> lex_le(
            #[trigger] keys[p[i] as int]@,
            #[trigger] keys[p[j] as int]@,
        )
    &&& forall|i: int, j: int|
        0 <= i < j < p.len() && keys[p[i] as int]@ == keys[p[j] as int]@ ==> #[trigger] p[i]
            < #[trigger] p[j]
}

/// The first position in `order` whose key is strictly above `keys[x]`
/// (binary search; everything before it is at most `keys[x]`).
fn upper_bound(keys: &Vec<Vec<i64>>, order: &Vec<usize>, x: usize) -> (pos: usize)
    requires
        x < keys.len(),
        partial_order_ok(order@, keys@, order.len() as int),
        order.len() <= keys.len(),
    ensures
        pos <= order.len(),
        forall|j: int|
            0 <= j < pos ==> lex_le(#[trigger] keys@[order@[j] as int]@, keys@[x as int]@),
        forall|j: int|
            pos <= j < order.len() ==> lex_lt(
                keys@[x as int]@,
                #[trigger] keys@[order@[j] as int]@,
            ),
{
    let mut lo: usize = 0;
    let mut hi: usize = order.len();
    while lo < hi
        invariant
            x < keys.len(),
            partial_order_ok(order@, keys@, order.len() as int),
            order.len() <= keys.len(),
            lo <= hi <= order.len(),
            forall|j: int|
                0 <= j < lo ==> lex_le(#[trigger] keys@[order@[j] as int]@, keys@[x as int]@),
            forall|j: int|
                hi <= j < order.len() ==> lex_lt(
                    keys@[x as int]@,
                    #[trigger] keys@[order@[j] as int]@,
                ),
        decreases hi - lo,
    {
        let mid = lo + (hi - lo) / 2;
        let m = order[mid];
        if key_less(&keys[x], &keys[m]) {
            proof {
                assert forall|j: int| mid <= j < order.len() implies lex_lt(
                    keys@[x as int]@,
                    #[trigger] keys@[order@[j] as int]@,
                ) by {
                    if j > mid {
                        assert(lex_le(keys@[order@[mid as int] as int]@, keys@[order@[j] as int]@));
                        lemma_lex_lt_le_trans(
                            keys@[x as int]@,
                            keys@[order@[mid as int] as int]@,
                            keys@[order@[j] as int]@,
                        );
                    }
                }
            }
            hi = mid;
        } else {
            proof {
                assert forall|j: int| 0 <= j < mid + 1 implies lex_le(
                    #[trigger] keys@[order@[j] as int]@,
                    keys@[x as int]@,
                ) by {
                    if j < mid {
                        assert(lex_le(keys@[order@[j] as int]@, keys@[order@[mid as int] as int]@));
                        lemma_lex_le_trans(
                            keys@[order@[j] as int]@,
                            keys@[order@[mid as int] as int]@,
                            keys@[x as int]@,
                        );
                    }
                }
            }
            lo = mid + 1;
        }
    }
    lo
}

/// The order in which a stable sort by `keys` visits the items: a permutation
/// of the indices, non-decreasing by key, ties kept in input order.
pub fn stable_order(keys: &Vec<Vec<i64>>) -> (p: Vec<usize>)
    ensures
        is_stable_order(p@, key_views(keys@)),
{
    let mut order: Vec<usize> = Vec::new();
    let mut x: usize = 0;
    while x < keys.len()
        invariant
            x <= keys.len(),
            partial_order_ok(order@, keys@, x as int),
        decreases keys.len() - x,
    {
        let pos = upper_bound(keys, &order, x);
        let ghost old_order = order@;
        order.insert(pos, x);
        proof {
            let o = order@;
            assert(o == old_order.insert(pos as int, x));
            assert forall|i: int| 0 <= i < o.len() implies (#[trigger] o[i]) < x + 1 by {
                if i < pos {
                    assert(o[i] == old_order[i]);
                } else if i > pos {
                    assert(o[i] == old_order[i - 1]);
                }
            }
            assert forall|i: int, j: int| 0 <= i < j < o.len() implies o[i] != o[j] by {
                if i < pos && j < pos {
                    assert(o[i] == old_order[i] && o[j] == old_order[j]);
                } else if i < pos && j == pos {
                    assert(o[i] == old_order[i]);
                } else if i < pos && j > pos {
                    assert(o[i] == old_order[i] && o[j] == old_order[j - 1]);
                } else if i == pos {
                    assert(o[j] == old_order[j - 1]);
                } else {
                    assert(o[i] == old_order[i - 1] && o[j] == old_order[j - 1]);
                }
            }
            assert forall|i: int, j: int| 0 <= i < j < o.len() implies lex_le(
                #[trigger] keys@[o[i] as int]@,
                #[trigger] keys@[o[j] as int]@,
            ) && (keys@[o[i] as int]@ == keys@[o[j] as int]@ ==> o[i] < o[j]) by {
                if i < pos && j < pos {
                    assert(o[i] == old_order[i] && o[j] == old_order[j]);
                } else if i < pos && j == pos {
                    assert(o[i] == old_order[i]);
                } else if i < pos && j > pos {
                    assert(o[i] == old_order[i] && o[j] == old_order[j - 1]);
                    assert(lex_le(keys@[old_order[i] as int]@, keys@[x as int]@));
                    assert(lex_lt(keys@[x as int]@, keys@[old_order[j - 1] as int]@));
                    lemma_lex_irreflexive(keys@[x as int]@);
                    if lex_lt(keys@[old_order[j - 1] as int]@, keys@[old_order[i] as int]@) {
                        lemma_lex_transitive(
                            keys@[x as int]@,
                            keys@[old_order[j - 1] as int]@,
                            keys@[old_order[i] as int]@,
                        );
                    }
                } else if i == pos {
                    assert(o[j] == old_order[j - 1]);
                    assert(lex_lt(keys@[x as int]@, keys@[old_order[j - 1] as int]@));
                    lemma_lex_irreflexive(keys@[x as int]@);
                    if lex_lt(keys@[old_order[j - 1] as int]@, keys@[x as int]@) {
                        lemma_lex_transitive(
                            keys@[x as int]@,
                            keys@[old_order[j - 1] as int]@,
                            keys@[x as int]@,
                        );
                    }
                } else {
                    assert(o[i] == old_order[i - 1] && o[j] == old_order[j - 1]);
                }
            }
        }
        x = x + 1;
    }
    proof {
        let kv = key_views(keys@);
        assert forall|i: int, j: int| 0 <= i < j < order@.len() implies lex_le(
            #[trigger] kv[order@[i] as int],
            #[trigger] kv[order@[j] as int],
        ) && (kv[order@[i] as int] == kv[order@[j] as int] ==> order@[i] < order@[j]) by {
            assert(lex_le(keys@[order@[i] as int]@, keys@[order@[j] as int]@));
        }
    }
    order
}

} // verus!
