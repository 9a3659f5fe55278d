//! Putting entries in order by a two-part key, keeping entries with equal
//! keys in the order they came in.

use vstd::prelude::*;

verus! {

/// `a` is smaller than `b`: by the first part, or by the second where the
/// first parts are equal.
pub open spec fn key_below(a: (u64, u64), b: (u64, u64)) -> bool {
    a.0 < b.0 || (a.0 == b.0 && a.1 < b.1)
}

/// The key `a` has its place before the key `b`: below it in rising order,
/// above it in falling order.
pub open spec fn key_first(a: (u64, u64), b: (u64, u64), falling: bool) -> bool {
    if falling {
        key_below(b, a)
    } else {
        key_below(a, b)
    }
}

/// The entry at position `a` of `keys` has its place before the one at `b`:
/// by its key, or by having come in first where the keys are equal.
pub open spec fn comes_first(keys: Seq<(u64, u64)>, a: int, b: int, falling: bool) -> bool {
    key_first(keys[a], keys[b], falling) || (keys[a] == keys[b] && a < b)
}

/// `order` lists the first `count` positions of `keys`, each once, so that
/// each has its place before all that follow it.
pub open spec fn is_ordering(keys: Seq<(u64, u64)>, order: Seq<usize>, count: int, falling: bool)
    -> bool {
    &&& order.len() == count
    &&& forall|i: int| 0 <= i < order.len() ==> order[i] < count
    &&& forall|v: usize| v < count ==> order.contains(v)
    &&& forall|i: int, j: int|
        0 <= i < j < order.len() ==> comes_first(keys, order[i] as int, order[j] as int, falling)
}

/// Whether key `a` has its place before key `b`.
fn precedes(a: (u64, u64), b: (u64, u64), falling: bool) -> (first: bool)
    ensures
        first == key_first(a, b, falling),
{
    if falling {
        b.0 < a.0 || (b.0 == a.0 && b.1 < a.1)
    } else {
        a.0 < b.0 || (a.0 == b.0 && a.1 < b.1)
    }
}

/// Puts the positions of `keys` in order: rising by key, or falling where
/// `falling` is set, and by position among equal keys.
pub fn sort_order(keys: &Vec<(u64, u64)>, falling: bool) -> (order: Vec<usize>)
    ensures
        is_ordering(keys@, order@, keys@.len() as int, falling),
{
    let mut order: Vec<usize> = Vec::new();
    let mut k: usize = 0;
    while k < keys.len()
        invariant
            k <= keys.len(),
            is_ordering(keys@, order@, k as int, falling),
        decreases keys.len() - k,
    {
        let mut p: usize = order.len();
        while p > 0 && precedes(keys[k], keys[order[p - 1]], falling)
            invariant
                p <= order.len(),
                k < keys.len(),
                is_ordering(keys@, order@, k as int, falling),
                forall|j: int|
                    p <= j < order.len() ==> key_first(
                        keys@[k as int],
                        keys@[order@[j] as int],
                        falling,
                    ),
            decreases p,
        {
            p -= 1;
        }
        let ghost before = order@;
        order.insert(p, k);
        proof {
            let after = order@;
            assert forall|i: int| 0 <= i < after.len() implies after[i] < k + 1 by {
                if i < p {
                    assert(after[i] == before[i]);
                } else if i > p {
                    assert(after[i] == before[i - 1]);
                }
            }
            assert forall|v: usize| v < k + 1 implies after.contains(v) by {
                if v == k {
                    assert(after[p as int] == v);
                } else {
                    assert(before.contains(v));
                    let at = choose|i: int| 0 <= i < before.len() && before[i] == v;
                    if at < p {
                        assert(after[at] == v);
                    } else {
                        assert(after[at + 1] == v);
                    }
                }
            }
            assert forall|i: int, j: int| 0 <= i < j < after.len() implies comes_first(
                keys@,
                after[i] as int,
                after[j] as int,
                falling,
            ) by {
                if j < p {
                    assert(after[i] == before[i] && after[j] == before[j]);
                } else if i > p {
                    assert(after[i] == before[i - 1] && after[j] == before[j - 1]);
                } else if i == p {
                    assert(after[j] == before[j - 1]);
                } else if j == p {
                    assert(after[i] == before[i]);
                    assert(before[i] < k);
                    if i < p - 1 {
                        assert(comes_first(keys@, before[i] as int, before[p - 1] as int, falling));
                    }
                } else {
                    assert(after[i] == before[i] && after[j] == before[j - 1]);
                }
            }
        }
        k += 1;
    }
    order
}

/// Two orderings of the same keys agree on their first `upto` places.
proof fn lemma_orderings_agree(
    keys: Seq<(u64, u64)>,
    first: Seq<usize>,
    second: Seq<usize>,
    count: int,
    falling: bool,
    upto: int,
)
    requires
        is_ordering(keys, first, count, falling),
        is_ordering(keys, second, count, falling),
        0 <= upto <= count,
    ensures
        forall|i: int| 0 <= i < upto ==> first[i] == second[i],
    decreases upto,
{
    if upto > 0 {
        lemma_orderings_agree(keys, first, second, count, falling, upto - 1);
        let k = upto - 1;
        let a = first[k];
        let b = second[k];
        if a != b {
            assert(first.contains(b));
            let at_b = choose|i: int| 0 <= i < first.len() && first[i] == b;
            if at_b < k {
                assert(second[at_b] == b);
                assert(comes_first(keys, second[at_b] as int, second[k] as int, falling));
            }
            assert(comes_first(keys, first[k] as int, first[at_b] as int, falling));
            assert(second.contains(a));
            let at_a = choose|i: int| 0 <= i < second.len() && second[i] == a;
            if at_a < k {
                assert(first[at_a] == a);
                assert(comes_first(keys, first[at_a] as int, first[k] as int, falling));
            }
            assert(comes_first(keys, second[k] as int, second[at_a] as int, falling));
        }
    }
}

/// The keys have one ordering only: the order of entries with different keys
/// is decided by the keys, that of entries with equal keys by their places.
pub proof fn lemma_ordering_is_unique(
    keys: Seq<(u64, u64)>,
    first: Seq<usize>,
    second: Seq<usize>,
    count: int,
    falling: bool,
)
    requires
        is_ordering(keys, first, count, falling),
        is_ordering(keys, second, count, falling),
    ensures
        first == second,
{
    lemma_orderings_agree(keys, first, second, count, falling, count);
    assert(first =~= second);
}

} // verus!
