//! The order in which queued commands are drawn.
//!
//! Commands are drawn by ascending layer, and commands of one layer in the
//! order in which they were queued. This module says what that means for a
//! sequence of layers (the layer of the first command queued, of the second,
//! and so on), shows that exactly one order meets it, and computes it by
//! merging.

use vstd::prelude::*;

verus! {

/// Whether the command queued at `a` is drawn before the one queued at `b`:
/// it lies on a lower layer, or on the same layer and was queued earlier.
pub open spec fn draws_before(layers: Seq<usize>, a: int, b: int) -> bool {
    layers[a] < layers[b] || (layers[a] == layers[b] && a < b)
}

/// Whether the command queued at `queued` occurs in `order`.
pub open spec fn has_turn(order: Seq<usize>, queued: int) -> bool {
    exists|k: int| 0 <= k < order.len() && #[trigger] order[k] == queued
}

/// Whether `run` lists the commands queued at `from` up to, not including,
/// `to` in the order in which they are drawn among themselves.
///
/// Every one of these commands occurs in it, and each entry is drawn before
/// all entries behind it.
pub open spec fn is_run_order(layers: Seq<usize>, from: int, to: int, run: Seq<usize>) -> bool {
    &&& run.len() == to - from
    &&& forall|k: int| 0 <= k < run.len() ==> from <= (#[trigger] run[k]) < to
    &&& forall|i: int| from <= i < to ==> #[trigger] has_turn(run, i)
    &&& forall|j: int, k: int|
        0 <= j < k < run.len()
            ==> draws_before(layers, #[trigger] run[j] as int, #[trigger] run[k] as int)
}

/// Whether `order` lists the commands in the order in which they are drawn:
/// `order[k]` is the place in the queue of the command drawn as number `k`.
///
/// Every queued command occurs in it, and each entry is drawn before all
/// entries behind it.
pub open spec fn is_draw_order(layers: Seq<usize>, order: Seq<usize>) -> bool {
    is_run_order(layers, 0, layers.len() as int, order)
}

/// The place in `order` at which a command of layer `layer` goes that was
/// queued after all those listed in `order`: behind the last one that is not
/// on a higher layer.
pub open spec fn slot_for(layers: Seq<usize>, order: Seq<usize>, layer: usize) -> int
    decreases order.len(),
{
    if order.len() > 0 && layers[order.last() as int] > layer {
        slot_for(layers, order.drop_last(), layer)
    } else {
        order.len() as int
    }
}

/// The order in which commands with these layers are drawn.
///
/// It is the order of all but the last command queued, with that last command
/// put into its place ([`slot_for`]). [`lemma_draw_order`] shows that it is a
/// draw order, and [`lemma_draw_order_is_unique`] that there is no other.
pub open spec fn draw_order(layers: Seq<usize>) -> Seq<usize>
    decreases layers.len(),
{
    if layers.len() == 0 {
        Seq::empty()
    } else {
        let earlier = draw_order(layers.drop_last());
        earlier.insert(slot_for(layers, earlier, layers.last()), (layers.len() - 1) as usize)
    }
}

/// The place of the command queued at `queued` in `order`.
pub open spec fn turn_of(order: Seq<usize>, queued: int) -> int {
    choose|k: int| 0 <= k < order.len() && #[trigger] order[k] == queued
}

/// A command that has a turn keeps it when another is listed behind.
pub proof fn lemma_push_keeps_turns(run: Seq<usize>, next: usize, queued: int)
    requires
        has_turn(run, queued),
    ensures
        has_turn(run.push(next), queued),
{
    let k = choose|k: int| 0 <= k < run.len() && #[trigger] run[k] == queued;
    assert(run.push(next)[k] == queued);
}

/// The command listed last has a turn.
pub proof fn lemma_pushed_has_turn(run: Seq<usize>, next: usize)
    ensures
        has_turn(run.push(next), next as int),
{
    assert(run.push(next)[run.len() as int] == next);
}

/// [`slot_for`] lies in `order` or right behind it; everything from it on is
/// on a higher layer than `layer`, and what stands right before it is not.
pub proof fn lemma_slot_for(layers: Seq<usize>, order: Seq<usize>, layer: usize)
    ensures
        0 <= slot_for(layers, order, layer) <= order.len(),
        forall|k: int|
            slot_for(layers, order, layer) <= k < order.len()
                ==> layers[#[trigger] order[k] as int] > layer,
        slot_for(layers, order, layer) > 0
            ==> layers[order[slot_for(layers, order, layer) - 1] as int] <= layer,
    decreases order.len(),
{
    if order.len() > 0 && layers[order.last() as int] > layer {
        let front = order.drop_last();
        let slot = slot_for(layers, order, layer);
        lemma_slot_for(layers, front, layer);
        assert forall|k: int| slot <= k < order.len() implies
            layers[#[trigger] order[k] as int] > layer
        by {
            if k < front.len() {
                assert(front[k] == order[k]);
            }
        }
        if slot > 0 {
            assert(front[slot - 1] == order[slot - 1]);
        }
    }
}

/// Putting the command queued last into its slot turns a draw order of the
/// commands before it into a draw order of all.
pub proof fn lemma_insert_keeps_draw_order(layers: Seq<usize>, earlier: Seq<usize>)
    requires
        0 < layers.len() <= usize::MAX + 1,
        is_draw_order(layers.drop_last(), earlier),
    ensures
        is_draw_order(
            layers,
            earlier.insert(slot_for(layers, earlier, layers.last()), (layers.len() - 1) as usize),
        ),
{
    let before = layers.drop_last();
    let last = (layers.len() - 1) as usize;
    let slot = slot_for(layers, earlier, layers.last());
    let order = earlier.insert(slot, last);
    lemma_slot_for(layers, earlier, layers.last());
    earlier.insert_ensures(slot, last);
    assert forall|k: int| 0 <= k < earlier.len() implies
        layers[#[trigger] earlier[k] as int] == before[earlier[k] as int]
    by {}
    assert forall|k: int| 0 <= k < slot implies
        layers[#[trigger] earlier[k] as int] <= layers.last()
    by {
        if k < slot - 1 {
            assert(draws_before(before, earlier[k] as int, earlier[slot - 1] as int));
        }
    }
    assert forall|k: int| 0 <= k < order.len() implies (#[trigger] order[k]) < layers.len() by {
        if k < slot {
            assert(order[k] == earlier[k]);
        } else if k > slot {
            assert(order[k] == earlier[k - 1]);
        }
    }
    assert forall|i: int| 0 <= i < layers.len() implies #[trigger] has_turn(order, i) by {
        if i == last {
            assert(order[slot] == i);
        } else {
            assert(has_turn(earlier, i));
            let k = choose|k: int| 0 <= k < earlier.len() && #[trigger] earlier[k] == i;
            if k < slot {
                assert(order[k] == i);
            } else {
                assert(order[k + 1] == i);
            }
        }
    }
    assert forall|j: int, k: int| 0 <= j < k < order.len() implies
        draws_before(layers, #[trigger] order[j] as int, #[trigger] order[k] as int)
    by {
        let from_j = if j < slot { j } else { j - 1 };
        let from_k = if k < slot { k } else { k - 1 };
        if j != slot && k != slot {
            assert(order[j] == earlier[from_j]);
            assert(order[k] == earlier[from_k]);
            assert(draws_before(before, earlier[from_j] as int, earlier[from_k] as int));
        } else if k == slot {
            assert(order[j] == earlier[j]);
        } else {
            assert(order[k] == earlier[k - 1]);
        }
    }
}

/// [`draw_order`] is a draw order: it lists every command once, lower layers
/// first, and the commands of one layer as they were queued.
pub proof fn lemma_draw_order(layers: Seq<usize>)
    requires
        layers.len() <= usize::MAX + 1,
    ensures
        is_draw_order(layers, draw_order(layers)),
    decreases layers.len(),
{
    if layers.len() > 0 {
        lemma_draw_order(layers.drop_last());
        lemma_insert_keeps_draw_order(layers, draw_order(layers.drop_last()));
    }
}

/// No two commands share a turn: a draw order lists each command once.
pub proof fn lemma_draw_order_lists_once(layers: Seq<usize>, order: Seq<usize>)
    requires
        is_draw_order(layers, order),
    ensures
        order.no_duplicates(),
{
    assert forall|j: int, k: int|
        0 <= j < order.len() && 0 <= k < order.len() && j != k implies order[j] != order[k] by {
        if j < k {
            assert(draws_before(layers, order[j] as int, order[k] as int));
        } else {
            assert(draws_before(layers, order[k] as int, order[j] as int));
        }
    }
}

/// Where two draw orders agree before turn `k`, the entry of the first at
/// turn `k` is not drawn before the entry of the second.
proof fn lemma_orders_cannot_part(layers: Seq<usize>, a: Seq<usize>, b: Seq<usize>, k: int)
    requires
        is_draw_order(layers, a),
        is_draw_order(layers, b),
        0 <= k < layers.len(),
        forall|j: int| 0 <= j < k ==> a[j] == b[j],
    ensures
        !draws_before(layers, a[k] as int, b[k] as int),
{
    assert(has_turn(b, a[k] as int));
    let m = choose|m: int| 0 <= m < b.len() && #[trigger] b[m] == a[k] as int;
    if m < k {
        assert(a[m] == b[m]);
        assert(draws_before(layers, a[m] as int, a[k] as int));
    } else if m > k {
        assert(draws_before(layers, b[k] as int, b[m] as int));
    }
}

/// Two draw orders of the same commands agree at every turn.
proof fn lemma_orders_agree(layers: Seq<usize>, a: Seq<usize>, b: Seq<usize>, k: int)
    requires
        is_draw_order(layers, a),
        is_draw_order(layers, b),
        0 <= k < layers.len(),
    ensures
        a[k] == b[k],
    decreases k,
{
    assert forall|j: int| 0 <= j < k implies a[j] == b[j] by {
        lemma_orders_agree(layers, a, b, j);
    }
    lemma_orders_cannot_part(layers, a, b, k);
    lemma_orders_cannot_part(layers, b, a, k);
}

/// The draw order is settled by the layers alone: any order that meets
/// [`is_draw_order`] is [`draw_order`].
pub proof fn lemma_draw_order_is_unique(layers: Seq<usize>, order: Seq<usize>)
    requires
        is_draw_order(layers, order),
    ensures
        order == draw_order(layers),
{
    if layers.len() > 0 {
        assert(has_turn(order, layers.len() - 1));
    }
    lemma_draw_order(layers);
    assert forall|k: int| 0 <= k < order.len() implies order[k] == draw_order(layers)[k] by {
        lemma_orders_agree(layers, order, draw_order(layers), k);
    }
    assert(order =~= draw_order(layers));
}

/// Every queued command has a turn, and that turn is its own.
pub proof fn lemma_turn_of(layers: Seq<usize>, order: Seq<usize>, queued: int)
    requires
        is_draw_order(layers, order),
        0 <= queued < layers.len(),
    ensures
        0 <= turn_of(order, queued) < order.len(),
        order[turn_of(order, queued)] == queued,
        forall|k: int| 0 <= k < order.len() && order[k] == queued ==> k == turn_of(order, queued),
{
    assert(has_turn(order, queued));
    lemma_draw_order_lists_once(layers, order);
}

/// Layers decide the turn: of two queued commands, the one on the lower layer
/// is drawn first, and of two on the same layer the one queued first.
pub proof fn lemma_lower_layer_draws_first(
    layers: Seq<usize>,
    order: Seq<usize>,
    first: int,
    second: int,
)
    requires
        is_draw_order(layers, order),
        0 <= first < layers.len(),
        0 <= second < layers.len(),
        layers[first] < layers[second] || (layers[first] == layers[second] && first < second),
    ensures
        turn_of(order, first) < turn_of(order, second),
{
    lemma_turn_of(layers, order, first);
    lemma_turn_of(layers, order, second);
    let j = turn_of(order, first);
    let k = turn_of(order, second);
    if k < j {
        assert(draws_before(layers, order[k] as int, order[j] as int));
    }
}

/// The order in which commands with these layers are drawn: entry `k` is the
/// place in the queue of the command that is drawn as number `k`.
///
/// The order is found by merging, in a number of comparisons that grows with
/// the number of commands times its logarithm.
pub fn order_of(layers: &Vec<usize>) -> (order: Vec<usize>)
    ensures
        order@ == draw_order(layers@),
        is_draw_order(layers@, order@),
{
    let order = run_order(layers, 0, layers.len());
    proof {
        lemma_draw_order_is_unique(layers@, order@);
    }
    order
}

/// The order in which the commands queued at `from` up to, not including,
/// `to` are drawn among themselves: the orders of the first and of the second
/// half of them, merged.
fn run_order(layers: &Vec<usize>, from: usize, to: usize) -> (run: Vec<usize>)
    requires
        from <= to <= layers@.len(),
    ensures
        is_run_order(layers@, from as int, to as int, run@),
    decreases to - from,
{
    if to - from < 2 {
        let mut run: Vec<usize> = Vec::new();
        if from < to {
            run.push(from);
            proof {
                lemma_pushed_has_turn(Seq::<usize>::empty(), from);
            }
        }
        run
    } else {
        let middle = from + (to - from) / 2;
        let first = run_order(layers, from, middle);
        let second = run_order(layers, middle, to);
        merged(layers, &first, &second, Ghost(from as int), Ghost(middle as int), Ghost(to as int))
    }
}

/// Two runs that follow each other in the queue, as one run: the next entry
/// is always the first of what is left of either run, and that of the first
/// run unless it lies on a higher layer than the other.
fn merged(
    layers: &Vec<usize>,
    first: &Vec<usize>,
    second: &Vec<usize>,
    Ghost(from): Ghost<int>,
    Ghost(middle): Ghost<int>,
    Ghost(to): Ghost<int>,
) -> (run: Vec<usize>)
    requires
        0 <= from <= middle <= to <= layers@.len(),
        is_run_order(layers@, from, middle, first@),
        is_run_order(layers@, middle, to, second@),
    ensures
        is_run_order(layers@, from, to, run@),
{
    let mut run: Vec<usize> = Vec::new();
    let mut taken: usize = 0;
    let mut other: usize = 0;
    while taken < first.len() || other < second.len()
        invariant
            0 <= from <= middle <= to <= layers@.len(),
            is_run_order(layers@, from, middle, first@),
            is_run_order(layers@, middle, to, second@),
            taken <= first.len(),
            other <= second.len(),
            run.len() == taken + other,
            forall|k: int| 0 <= k < run.len() ==> from <= (#[trigger] run[k]) < to,
            forall|i: int| 0 <= i < taken ==> has_turn(run@, #[trigger] first[i] as int),
            forall|i: int| 0 <= i < other ==> has_turn(run@, #[trigger] second[i] as int),
            forall|j: int, k: int|
                0 <= j < k < run.len()
                    ==> draws_before(layers@, #[trigger] run[j] as int, #[trigger] run[k] as int),
            forall|k: int|
                0 <= k < run.len() && taken < first.len()
                    ==> draws_before(layers@, #[trigger] run[k] as int, first[taken as int] as int),
            forall|k: int|
                0 <= k < run.len() && other < second.len()
                    ==> draws_before(
                    layers@,
                    #[trigger] run[k] as int,
                    second[other as int] as int,
                ),
        decreases first.len() - taken + second.len() - other,
    {
        let ghost before = run@;
        let from_first = if other >= second.len() {
            true
        } else if taken >= first.len() {
            false
        } else {
            layers[first[taken]] <= layers[second[other]]
        };
        let next = if from_first {
            first[taken]
        } else {
            second[other]
        };
        proof {
            assert forall|k: int| 0 <= k < before.len() implies
                draws_before(layers@, #[trigger] before[k] as int, next as int)
            by {}
            if from_first && taken + 1 < first.len() {
                assert(draws_before(layers@, first[taken as int] as int, first[taken + 1] as int));
            }
            if !from_first && other + 1 < second.len() {
                assert(draws_before(
                    layers@,
                    second[other as int] as int,
                    second[other + 1] as int,
                ));
            }
            assert forall|i: int| 0 <= i < taken implies
                has_turn(before.push(next), #[trigger] first[i] as int)
            by {
                lemma_push_keeps_turns(before, next, first[i] as int);
            }
            assert forall|i: int| 0 <= i < other implies
                has_turn(before.push(next), #[trigger] second[i] as int)
            by {
                lemma_push_keeps_turns(before, next, second[i] as int);
            }
            lemma_pushed_has_turn(before, next);
        }
        run.push(next);
        if from_first {
            taken += 1;
        } else {
            other += 1;
        }
    }
    proof {
        assert forall|i: int| from <= i < to implies #[trigger] has_turn(run@, i) by {
            if i < middle {
                assert(has_turn(first@, i));
                let k = choose|k: int| 0 <= k < first@.len() && #[trigger] first@[k] == i;
                assert(has_turn(run@, first[k] as int));
            } else {
                assert(has_turn(second@, i));
                let k = choose|k: int| 0 <= k < second@.len() && #[trigger] second@[k] == i;
                assert(has_turn(run@, second[k] as int));
            }
        }
    }
    run
}

} // verus!
