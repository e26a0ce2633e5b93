//! Play queue utilities: shuffling while keeping the current track first.
use vstd::prelude::*;
use crate::api::Track;
use rand::rngs::ThreadRng;
use rand::seq::SliceRandom;

verus! {

#[verifier::external_type_specification]
#[verifier::external_body]
pub struct ExThreadRng(ThreadRng);

/// `rand::rng`: the thread-local random number generator. Nothing is claimed
/// of its state.
#[verifier::external_body]
fn thread_rng() -> ThreadRng {
    rand::rng()
}

/// `SliceRandom::shuffle` on the items of a vector: the items end up in an
/// order picked at random, so only that the result is a rearrangement of the
/// same items (same length, same multiset) is claimed.
#[verifier::external_body]
fn shuffle_items<T>(items: &mut Vec<T>, rng: &mut ThreadRng)
    ensures
        final(items)@.len() == old(items)@.len(),
        final(items)@.to_multiset() == old(items)@.to_multiset(),
{
    items.shuffle(rng);
}

/// Shuffle the queue while keeping the currently playing track at the front.
/// Returns the new index of the current track: 0 after a shuffle, or
/// `current_index` unchanged when the queue has at most one track.
pub fn shuffle(queue: &mut Vec<Track>, current_index: usize) -> (new_index: usize)
    ensures
        old(queue)@.len() <= 1 ==> new_index == current_index && final(queue)@ == old(queue)@,
        old(queue)@.len() > 1 ==> {
            &&& new_index == 0
            &&& final(queue)@.len() == old(queue)@.len()
            &&& final(queue)@.to_multiset() == old(queue)@.to_multiset()
            &&& current_index < old(queue)@.len() ==> final(queue)@[0] == old(queue)@[current_index as int]
            &&& current_index >= old(queue)@.len() ==> final(queue)@[0] == old(queue)@[0]
        },
{
    broadcast use vstd::seq_lib::group_to_multiset_ensures;
    broadcast use vstd::multiset::group_multiset_axioms;
    if queue.len() <= 1 {
        return current_index;
    }
    let ghost before = queue@;
    if current_index < queue.len() {
        let first = queue[0].clone();
        let current = queue[current_index].clone();
        queue.set(0, current);
        queue.set(current_index, first);
        proof {
            let s1 = before.update(0, before[current_index as int]);
            assert(queue@ == s1.update(current_index as int, before[0]));
            assert(s1.to_multiset() == before.to_multiset().insert(before[current_index as int]).remove(before[0]));
            assert(queue@.to_multiset() =~= before.to_multiset());
        }
    }
    let ghost swapped = queue@;
    let mut rest = queue.split_off(1);
    let mut rng = thread_rng();
    shuffle_items(&mut rest, &mut rng);
    let ghost head = queue@;
    let ghost shuffled = rest@;
    queue.append(&mut rest);
    proof {
        vstd::seq_lib::lemma_multiset_commutative(head, shuffled);
        vstd::seq_lib::lemma_multiset_commutative(swapped.subrange(0, 1), swapped.subrange(1, swapped.len() as int));
        assert(swapped =~= swapped.subrange(0, 1) + swapped.subrange(1, swapped.len() as int));
        assert(queue@ == head + shuffled);
        assert(queue@[0] == swapped[0]);
    }
    0
}

/// Index of the next track of a queue of `len` tracks: one further, unless
/// the current track is the last (or the queue is shorter), in which case
/// the index stays.
pub fn next_index(index: usize, len: usize) -> (r: usize)
    ensures
        index + 1 < len ==> r == index + 1,
        index + 1 >= len ==> r == index,
{
    if index < len && len - index > 1 {
        index + 1
    } else {
        index
    }
}

/// Index of the previous track: one back, or 0 at the start.
pub fn previous_index(index: usize) -> (r: usize)
    ensures
        index > 0 ==> r == index - 1,
        index == 0 ==> r == 0,
{
    if index > 0 {
        index - 1
    } else {
        0
    }
}

/// The loop-mode code that follows `code` (0 off, 1 one track, 2 the
/// queue): 0 to 1 to 2, and any other code back to 0.
pub fn next_loop_code(code: u8) -> (r: u8)
    ensures
        code == 0 ==> r == 1,
        code == 1 ==> r == 2,
        code >= 2 ==> r == 0,
{
    if code == 0 {
        1
    } else if code == 1 {
        2
    } else {
        0
    }
}

} // verus!
