//! Fresh identifiers from a counter: the next id after the counter that is
//! not in use, skipping ids that are and wrapping around at the top.

use std::collections::HashMap;
use vstd::prelude::*;
use vstd::set_lib::lemma_len_subset;

verus! {

/// The number of ids that lie between `counter + 1` and `id` when counting
/// upward from `counter + 1` and wrapping around at the top. The id right
/// after the counter has distance zero; the counter itself is the farthest.
pub open spec fn distance(counter: u64, id: u64) -> int {
    if id > counter {
        id - counter - 1
    } else {
        id + 0x1_0000_0000_0000_0000 - counter - 1
    }
}

/// The id at a given distance from the counter.
pub open spec fn id_at(counter: u64, steps: int) -> u64 {
    if counter + 1 + steps < 0x1_0000_0000_0000_0000 {
        (counter + 1 + steps) as u64
    } else {
        (counter + 1 + steps - 0x1_0000_0000_0000_0000) as u64
    }
}

/// `id` is unused, and every id nearer to the counter is in use.
pub open spec fn is_next_unused(counter: u64, used: Set<u64>, id: u64) -> bool {
    &&& !used.contains(id)
    &&& forall|other: u64|
        distance(counter, other) < distance(counter, id) ==> #[trigger] used.contains(other)
}

/// The first unused id after the counter.
pub open spec fn next_unused(counter: u64, used: Set<u64>) -> u64 {
    choose|id: u64| is_next_unused(counter, used, id)
}

/// The ids within a given distance of the counter.
pub open spec fn nearest(counter: u64, count: int) -> Set<u64> {
    Set::new(|id: u64| distance(counter, id) < count)
}

/// There are exactly `count` ids within distance `count` of the counter.
pub proof fn lemma_nearest_len(counter: u64, count: int)
    requires
        0 <= count <= 0x1_0000_0000_0000_0000,
    ensures
        nearest(counter, count).finite(),
        nearest(counter, count).len() == count,
    decreases count,
{
    if count == 0 {
        assert(nearest(counter, count) =~= Set::<u64>::empty());
    } else {
        lemma_nearest_len(counter, count - 1);
        let last = id_at(counter, count - 1);
        assert(distance(counter, last) == count - 1);
        assert(nearest(counter, count) =~= nearest(counter, count - 1).insert(last));
    }
}

/// If all of the `count` ids nearest to the counter are in use, then at least
/// `count` ids are in use.
pub proof fn lemma_used_at_least(counter: u64, used: Set<u64>, count: int)
    requires
        used.finite(),
        0 <= count <= 0x1_0000_0000_0000_0000,
        forall|id: u64| distance(counter, id) < count ==> #[trigger] used.contains(id),
    ensures
        count <= used.len(),
{
    lemma_nearest_len(counter, count);
    assert(nearest(counter, count).subset_of(used));
    lemma_len_subset(nearest(counter, count), used);
}

/// At most one id is the first unused one.
pub proof fn lemma_next_unused_unique(counter: u64, used: Set<u64>, a: u64, b: u64)
    requires
        is_next_unused(counter, used, a),
        is_next_unused(counter, used, b),
    ensures
        a == b,
{
    if distance(counter, a) < distance(counter, b) {
        assert(used.contains(a));
    } else if distance(counter, b) < distance(counter, a) {
        assert(used.contains(b));
    }
}

proof fn lemma_scan(counter: u64, used: Set<u64>, steps: int)
    requires
        used.finite(),
        used.len() < 0x1_0000_0000_0000_0000,
        0 <= steps <= 0x1_0000_0000_0000_0000,
        forall|id: u64| distance(counter, id) < steps ==> #[trigger] used.contains(id),
    ensures
        exists|id: u64| is_next_unused(counter, used, id),
    decreases 0x1_0000_0000_0000_0000 - steps,
{
    lemma_used_at_least(counter, used, steps);
    let candidate = id_at(counter, steps);
    assert(distance(counter, candidate) == steps);
    if !used.contains(candidate) {
        assert(is_next_unused(counter, used, candidate));
    } else {
        assert forall|id: u64| distance(counter, id) < steps + 1 implies #[trigger] used.contains(
            id,
        ) by {
            if distance(counter, id) == steps {
                assert(id == candidate);
            }
        }
        lemma_scan(counter, used, steps + 1);
    }
}

/// While fewer ids are in use than there are ids, a first unused id exists:
/// it is unused, and all ids nearer to the counter are in use.
pub proof fn lemma_next_unused(counter: u64, used: Set<u64>)
    requires
        used.finite(),
        used.len() < 0x1_0000_0000_0000_0000,
    ensures
        is_next_unused(counter, used, next_unused(counter, used)),
        !used.contains(next_unused(counter, used)),
{
    lemma_scan(counter, used, 0);
}

/// The id that follows `id`, with zero after the largest.
fn successor(id: u64) -> (r: u64)
    ensures
        r == id_at(id, 0),
{
    if id == u64::MAX {
        0
    } else {
        id + 1
    }
}

/// The first id after `counter` that is not a key of `taken`.
pub fn generate_unique_id<V>(counter: u64, taken: &HashMap<u64, V>) -> (id: u64)
    ensures
        id == next_unused(counter, taken@.dom()),
        is_next_unused(counter, taken@.dom(), id),
        !taken@.contains_key(id),
{
    broadcast use vstd::std_specs::hash::group_hash_axioms;

    let mut candidate = successor(counter);
    while taken.contains_key(&candidate)
        invariant
            forall|id: u64|
                distance(counter, id) < distance(counter, candidate) ==> #[trigger] taken@.dom().contains(
                    id,
                ),
        decreases 0x1_0000_0000_0000_0000 - distance(counter, candidate),
    {
        proof {
            let steps = distance(counter, candidate);
            assert forall|id: u64| distance(counter, id) < steps + 1 implies #[trigger] taken@.dom().contains(
            id) by {
                if distance(counter, id) == steps {
                    assert(id == candidate);
                }
            }
            lemma_used_at_least(counter, taken@.dom(), steps + 1);
            assert(taken@.dom().len() == vstd::std_specs::hash::spec_hash_map_len(taken));
        }
        candidate = successor(candidate);
    }
    proof {
        assert(is_next_unused(counter, taken@.dom(), candidate));
        lemma_next_unused_unique(
            counter,
            taken@.dom(),
            candidate,
            next_unused(counter, taken@.dom()),
        );
    }
    candidate
}

} // verus!
