//! Bookkeeping of the consumers of one stream: after a write round the
//! consumers whose write failed leave the list, the others keep their order.

use vstd::prelude::*;

verus! {

/// The elements of `s` whose index is not marked, in their order.
pub open spec fn keep_unmarked<T>(s: Seq<T>, marked: Set<int>) -> Seq<T>
    decreases s.len(),
{
    if s.len() == 0 {
        Seq::empty()
    } else {
        let head = keep_unmarked(s.drop_last(), marked);
        if marked.contains(s.len() - 1) {
            head
        } else {
            head.push(s.last())
        }
    }
}

/// The indices that `positions` lists from place `from` on.
pub open spec fn marks_from(positions: Seq<usize>, from: int) -> Set<int> {
    Set::new(|i: int| exists|j: int| from <= j < positions.len() && positions[j] == i)
}

/// The indices that `positions` lists.
pub open spec fn marks(positions: Seq<usize>) -> Set<int> {
    marks_from(positions, 0)
}

/// Whether `positions` rises strictly and stays below `len`.
pub open spec fn rising_below(positions: Seq<usize>, len: int) -> bool {
    &&& forall|i: int, j: int| 0 <= i < j < positions.len() ==> positions[i] < positions[j]
    &&& forall|i: int| 0 <= i < positions.len() ==> positions[i] < len
}

/// Where no index below the length is marked, everything is kept.
pub proof fn lemma_keep_all<T>(s: Seq<T>, marked: Set<int>)
    requires
        forall|i: int| 0 <= i < s.len() ==> !marked.contains(i),
    ensures
        keep_unmarked(s, marked) == s,
    decreases s.len(),
{
    if s.len() > 0 {
        lemma_keep_all(s.drop_last(), marked);
        assert(s.drop_last().push(s.last()) =~= s);
    }
}

/// Marking one more index, below all marked ones, removes the element at
/// that index from what was kept.
pub proof fn lemma_mark_below<T>(s: Seq<T>, marked: Set<int>, p: int)
    requires
        0 <= p < s.len(),
        forall|m: int| marked.contains(m) ==> m > p,
    ensures
        keep_unmarked(s, marked).len() > p,
        keep_unmarked(s, marked.insert(p)) == keep_unmarked(s, marked).remove(p),
    decreases s.len(),
{
    let head = s.drop_last();
    let last = s.len() - 1;
    if last == p {
        lemma_keep_all(head, marked);
        lemma_keep_all(head, marked.insert(p));
        assert(keep_unmarked(s, marked) =~= head.push(s.last()));
        assert(head.push(s.last()).remove(p) =~= head);
    } else {
        lemma_mark_below(head, marked, p);
        let kept = keep_unmarked(head, marked);
        if !marked.contains(last) {
            assert(kept.remove(p).push(s.last()) =~= kept.push(s.last()).remove(p));
        }
    }
}

/// Every element that is kept stood at an unmarked index, and every
/// element at an unmarked index is kept.
pub proof fn lemma_keep_members<T>(s: Seq<T>, marked: Set<int>, x: T)
    ensures
        keep_unmarked(s, marked).contains(x) <==> exists|i: int|
            0 <= i < s.len() && !marked.contains(i) && s[i] == x,
    decreases s.len(),
{
    let kept = keep_unmarked(s, marked);
    if s.len() > 0 {
        let head = s.drop_last();
        let last = s.len() - 1;
        lemma_keep_members(head, marked, x);
        let kh = keep_unmarked(head, marked);
        if kept.contains(x) {
            let k = choose|k: int| 0 <= k < kept.len() && kept[k] == x;
            if !marked.contains(last) && k == kh.len() {
                assert(s[last] == x);
            } else {
                assert(kh[k] == x);
                assert(kh.contains(x));
                let i = choose|i: int| 0 <= i < head.len() && !marked.contains(i) && head[i] == x;
                assert(s[i] == x);
            }
        }
        if exists|i: int| 0 <= i < s.len() && !marked.contains(i) && s[i] == x {
            let i = choose|i: int| 0 <= i < s.len() && !marked.contains(i) && s[i] == x;
            if i == last {
                assert(kept[kept.len() - 1] == x);
            } else {
                assert(head[i] == x);
                assert(kh.contains(x));
                let k = choose|k: int| 0 <= k < kh.len() && kh[k] == x;
                assert(kept[k] == x);
            }
        }
    }
}

/// Whether `positions` rises strictly and stays below `len`.
pub fn is_rising_below(positions: &Vec<usize>, len: usize) -> (r: bool)
    ensures
        r == rising_below(positions@, len as int),
{
    let mut i: usize = 0;
    while i < positions.len()
        invariant
            i <= positions.len(),
            forall|a: int| 0 <= a < i ==> positions@[a] < len,
            forall|a: int| 0 <= a < i - 1 ==> positions@[a] < #[trigger] positions@[a + 1],
        decreases positions.len() - i,
    {
        if positions[i] >= len {
            return false;
        }
        if i > 0 && positions[i - 1] >= positions[i] {
            return false;
        }
        i = i + 1;
    }
    proof {
        assert forall|a: int, b: int| 0 <= a < b < positions@.len() implies positions@[a]
            < positions@[b] by {
            lemma_rising(positions@, a, b);
        }
    }
    true
}

/// In a list in which each element is below the next, each is below all
/// later ones.
pub proof fn lemma_rising(positions: Seq<usize>, a: int, b: int)
    requires
        0 <= a < b < positions.len(),
        forall|k: int| 0 <= k < positions.len() - 1 ==> positions[k] < #[trigger] positions[k + 1],
    ensures
        positions[a] < positions[b],
    decreases b - a,
{
    if a + 1 < b {
        lemma_rising(positions, a, b - 1);
    }
    assert(positions[b - 1] < positions[(b - 1) + 1]);
}

/// Removes the elements at `positions`, going from the highest position
/// down so that the positions still to go stay valid.
pub fn remove_positions<T>(v: &mut Vec<T>, positions: &Vec<usize>)
    requires
        rising_below(positions@, old(v)@.len() as int),
    ensures
        final(v)@ == keep_unmarked(old(v)@, marks(positions@)),
{
    let mut k: usize = positions.len();
    proof {
        lemma_keep_all(v@, marks_from(positions@, k as int));
    }
    while k > 0
        invariant
            k <= positions.len(),
            rising_below(positions@, old(v)@.len() as int),
            v@ == keep_unmarked(old(v)@, marks_from(positions@, k as int)),
        decreases k,
    {
        k = k - 1;
        let p: usize = positions[k];
        proof {
            let above = marks_from(positions@, k + 1);
            assert forall|m: int| above.contains(m) implies m > p by {
                let j = choose|j: int| k + 1 <= j < positions@.len() && positions@[j] == m;
                assert(positions@[k as int] < positions@[j]);
            }
            lemma_mark_below(old(v)@, above, p as int);
            assert(above.insert(p as int) =~= marks_from(positions@, k as int)) by {
                assert forall|i: int| above.insert(p as int).contains(i) implies marks_from(
                    positions@,
                    k as int,
                ).contains(i) by {
                    if i == p {
                        assert(positions@[k as int] == i);
                    } else {
                        let j = choose|j: int| k + 1 <= j < positions@.len() && positions@[j] == i;
                        assert(k <= j < positions@.len() && positions@[j] == i);
                    }
                }
                assert forall|i: int| marks_from(positions@, k as int).contains(
                    i,
                ) implies above.insert(p as int).contains(i) by {
                    let j = choose|j: int| k <= j < positions@.len() && positions@[j] == i;
                    if j != k {
                        assert(k + 1 <= j < positions@.len() && positions@[j] == i);
                    }
                }
            }
        }
        v.remove(p);
    }
}

} // verus!
