use vstd::prelude::*;

verus! {

/// Number of features the arena agent reads from a game state.
pub const OBSERVATION_SPACE: usize = 14;

/// The feature slot that a piece of food adds its pull to, given the signs
/// of its score, of `dx + dy` and of `dx - dy` (`dx`, `dy` its offset from
/// the player). The two lines `x + y = 0` and `x - y = 0` cut the arena
/// around the player into four groups, each with its own slot: food with a
/// positive score uses slots 0 to 3, garbage slots 6 to 9, in the order
/// (`+`, `+`), (`+`, `-`), (`-`, `-`), (`-`, `+`) of the two signs.
pub open spec fn slot_for(score_positive: bool, sum_positive: bool, diff_positive: bool) -> int {
    let base = if score_positive { 0int } else { 6int };
    if sum_positive && diff_positive {
        base
    } else if sum_positive && !diff_positive {
        base + 1
    } else if !sum_positive && !diff_positive {
        base + 2
    } else {
        base + 3
    }
}

/// The feature slot that a piece of food adds its pull to; see [`slot_for`].
pub fn food_slot(score_positive: bool, sum_positive: bool, diff_positive: bool) -> (slot: usize)
    ensures
        slot == slot_for(score_positive, sum_positive, diff_positive),
        score_positive ==> slot < 4,
        !score_positive ==> 6 <= slot < 10,
{
    let base: usize = if score_positive { 0 } else { 6 };
    if sum_positive && diff_positive {
        base
    } else if sum_positive && !diff_positive {
        base + 1
    } else if !sum_positive && !diff_positive {
        base + 2
    } else {
        base + 3
    }
}

/// Food in different groups feeds different slots: the slot determines the
/// food's kind and the signs of both sums.
pub proof fn lemma_slots_distinct(s1: bool, a1: bool, b1: bool, s2: bool, a2: bool, b2: bool)
    ensures
        slot_for(s1, a1, b1) == slot_for(s2, a2, b2) ==> s1 == s2 && a1 == a2 && b1 == b2,
        0 <= slot_for(s1, a1, b1) < OBSERVATION_SPACE,
{
}

/// Whether position `i` of `candidates` is the first of those with the
/// `wanted` sign whose key is least among them.
pub open spec fn is_first_nearest(candidates: Seq<(bool, i32)>, wanted: bool, i: int) -> bool {
    &&& 0 <= i < candidates.len()
    &&& candidates[i].0 == wanted
    &&& forall|j: int|
        0 <= j < candidates.len() && candidates[j].0 == wanted ==> candidates[i].1 <= #[trigger] candidates[j].1
    &&& forall|j: int|
        0 <= j < i && candidates[j].0 == wanted ==> candidates[i].1 < #[trigger] candidates[j].1
}

/// Among the pieces of food whose score sign is `wanted`, the position of the
/// nearest one: `candidates` holds, for every piece, whether its score is
/// positive and its distance key. Of several equally near, the first is
/// chosen; `None` when no piece has the wanted sign.
pub fn first_nearest(candidates: &Vec<(bool, i32)>, wanted: bool) -> (found: Option<usize>)
    ensures
        found matches Some(i) ==> is_first_nearest(candidates@, wanted, i as int),
        found is None <==> forall|j: int|
            0 <= j < candidates@.len() ==> #[trigger] candidates@[j].0 != wanted,
{
    let mut best: Option<usize> = None;
    let mut k: usize = 0;
    while k < candidates.len()
        invariant
            k <= candidates@.len(),
            best matches Some(i) ==> i < k && is_first_nearest(candidates@.take(k as int), wanted, i as int),
            best is None ==> forall|j: int| 0 <= j < k ==> #[trigger] candidates@[j].0 != wanted,
        decreases candidates@.len() - k,
    {
        let (sign, key) = candidates[k];
        if sign == wanted {
            match best {
                None => {
                    best = Some(k);
                },
                Some(i) => {
                    let (_, best_key) = candidates[i];
                    if key < best_key {
                        best = Some(k);
                    }
                },
            }
        }
        proof {
            let t = candidates@.take(k as int + 1);
            assert(candidates@.take(k as int) =~= t.take(k as int));
            assert(forall|j: int| 0 <= j < k ==> t[j] == candidates@.take(k as int)[j]);
        }
        k = k + 1;
    }
    proof {
        assert(candidates@.take(k as int) =~= candidates@);
    }
    best
}

} // verus!
