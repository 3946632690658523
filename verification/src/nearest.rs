//! Choosing the nearest hit of a linear scan.
//!
//! Every surface of a list answers a ray with a miss, `None`, or with a hit at
//! some distance along the ray.

use crate::interval::less;
use crate::interval::Distance;
use vstd::prelude::*;

verus! {

/// Whether a hit at `new` displaces the hit held at `held`: only when both
/// distances are ordered and the new one is strictly smaller.
pub open spec fn displaces(new: Distance, held: Distance) -> bool {
    less(new, held)
}

/// The index that a scan holds after the first `n` candidates: the first hit,
/// displaced by each later hit that is strictly nearer than the one held.
pub open spec fn held_after(candidates: Seq<Option<Distance>>, n: nat) -> Option<int>
    decreases n,
{
    if n == 0 {
        None
    } else {
        let before = held_after(candidates, (n - 1) as nat);
        match candidates[n - 1] {
            None => before,
            Some(last) => match before {
                None => Some(n - 1),
                Some(i) => if displaces(last, candidates[i].unwrap()) {
                    Some(n - 1)
                } else {
                    before
                },
            },
        }
    }
}

/// Whether every hit among the first `n` candidates has an ordered distance.
pub open spec fn all_ordered(candidates: Seq<Option<Distance>>, n: nat) -> bool {
    forall|j: int| 0 <= j < n ==> #[trigger] candidates[j] != Some(Distance::Unordered)
}

/// The key of the hit that the surface `j` answered with, if it did and the
/// distance is ordered.
pub open spec fn key_at(candidates: Seq<Option<Distance>>, j: int) -> Option<i64> {
    match candidates[j] {
        Some(Distance::At(key)) => Some(key),
        _ => None,
    }
}

/// Whether `i` is the first of the nearest hits among the first `n` candidates.
pub open spec fn is_first_nearest(candidates: Seq<Option<Distance>>, n: nat, i: int) -> bool {
    &&& 0 <= i < n
    &&& key_at(candidates, i) is Some
    &&& forall|j: int|
        0 <= j < n && #[trigger] key_at(candidates, j) is Some ==> key_at(candidates, i).unwrap()
            <= key_at(candidates, j).unwrap()
    &&& forall|j: int|
        0 <= j < i && #[trigger] key_at(candidates, j) is Some ==> key_at(candidates, i).unwrap()
            < key_at(candidates, j).unwrap()
}

/// What a scan holds is a hit of the list, and it holds one as soon as there is one.
pub proof fn lemma_held_is_a_hit(candidates: Seq<Option<Distance>>, n: nat)
    requires
        n <= candidates.len(),
    ensures
        match held_after(candidates, n) {
            Some(i) => 0 <= i < n && candidates[i] is Some,
            None => forall|j: int| 0 <= j < n ==> #[trigger] candidates[j] is None,
        },
    decreases n,
{
    if n > 0 {
        lemma_held_is_a_hit(candidates, (n - 1) as nat);
    }
}

/// Where every distance is ordered, a scan holds the first of the nearest hits.
pub proof fn lemma_held_is_first_nearest(candidates: Seq<Option<Distance>>, n: nat)
    requires
        n <= candidates.len(),
        all_ordered(candidates, n),
    ensures
        match held_after(candidates, n) {
            Some(i) => is_first_nearest(candidates, n, i),
            None => forall|j: int| 0 <= j < n ==> #[trigger] candidates[j] is None,
        },
    decreases n,
{
    if n > 0 {
        lemma_held_is_first_nearest(candidates, (n - 1) as nat);
        lemma_held_is_a_hit(candidates, (n - 1) as nat);
    }
}

/// The index of the hit that wins a linear scan, or `None` where every surface
/// was missed. Among equally near hits the first wins; a hit whose distance is
/// unordered neither displaces the hit held nor is displaced by a later one.
pub fn nearest(candidates: &Vec<Option<Distance>>) -> (winner: Option<usize>)
    ensures
        winner matches Some(i) ==> held_after(candidates@, candidates@.len()) == Some(i as int),
        winner is None ==> held_after(candidates@, candidates@.len()) is None,
        winner matches Some(i) ==> i < candidates@.len() && candidates@[i as int] is Some,
        winner is None <==> forall|j: int|
            0 <= j < candidates@.len() ==> #[trigger] candidates@[j] is None,
        all_ordered(candidates@, candidates@.len()) ==> (winner matches Some(i)
            ==> is_first_nearest(candidates@, candidates@.len(), i as int)),
{
    let mut held: Option<usize> = None;
    let mut n: usize = 0;
    while n < candidates.len()
        invariant
            n <= candidates@.len(),
            held matches Some(i) ==> held_after(candidates@, n as nat) == Some(i as int),
            held is None ==> held_after(candidates@, n as nat) is None,
            held matches Some(i) ==> i < n,
        decreases candidates@.len() - n,
    {
        proof {
            lemma_held_is_a_hit(candidates@, n as nat);
        }
        match candidates[n] {
            None => {},
            Some(last) => {
                match held {
                    None => {
                        held = Some(n);
                    },
                    Some(i) => {
                        if last.is_less(candidates[i].unwrap()) {
                            held = Some(n);
                        }
                    },
                }
            },
        }
        n = n + 1;
    }
    proof {
        lemma_held_is_a_hit(candidates@, candidates@.len());
        if all_ordered(candidates@, candidates@.len()) {
            lemma_held_is_first_nearest(candidates@, candidates@.len());
        }
    }
    held
}

} // verus!
