use vstd::prelude::*;

use crate::vector::Vector2;
use crate::world::{Body, World, advanced, net_pull, pull_trace, stepped, sum_step};

verus! {

/// Adding bodies one at a time to an empty collection, with no clearing in
/// between, leaves exactly as many live bodies as were added.
///
/// `states[k]` is the live collection after `k` additions; the `k`-th
/// addition appends `added[k]`, as `World::add_body` does.
pub proof fn lemma_count_conserved<T>(states: Seq<Seq<Body<T>>>, added: Seq<Body<T>>)
    requires
        states.len() == added.len() + 1,
        states[0].len() == 0,
        forall|k: int| 0 <= k < added.len() ==> #[trigger] states[k + 1] == states[k].push(added[k]),
    ensures
        states.last().len() == added.len(),
    decreases added.len(),
{
    if added.len() > 0 {
        let n = added.len() - 1;
        let fewer = states.drop_last();
        let first = added.drop_last();
        assert forall|k: int| 0 <= k < first.len() implies #[trigger] fewer[k + 1] == fewer[k].push(
            first[k],
        ) by {
            assert(states[k + 1] == states[k].push(added[k]));
        }
        lemma_count_conserved(fewer, first);
        assert(states[n + 1] == states[n].push(added[n]));
    }
}

/// A snapshot of the live bodies `s`, kept through any number of changes
/// that leave the snapshot alone, gives back `s` on reset.
///
/// `snapshots[0]` is the snapshot that `World::save_state` took of `s`; each
/// later entry is the snapshot after one more change (an addition, a step,
/// an adjustment), and `restored` is what `World::reset` makes live.
pub proof fn lemma_snapshot_round_trip<T>(
    s: Seq<Body<T>>,
    snapshots: Seq<Seq<Body<T>>>,
    restored: Seq<Body<T>>,
)
    requires
        snapshots.len() >= 1,
        snapshots[0] == s,
        forall|k: int| 0 <= k < snapshots.len() - 1 ==> #[trigger] snapshots[k + 1] == snapshots[k],
        restored == snapshots.last(),
    ensures
        restored == s,
    decreases snapshots.len(),
{
    if snapshots.len() > 1 {
        let n = snapshots.len() - 1;
        let fewer = snapshots.drop_last();
        assert forall|k: int| 0 <= k < fewer.len() - 1 implies #[trigger] fewer[k + 1]
            == fewer[k] by {
            assert(snapshots[k + 1] == snapshots[k]);
        }
        lemma_snapshot_round_trip(s, fewer, fewer.last());
        let k = n - 1;
        assert(snapshots[k + 1] == snapshots[k]);
    }
}

/// Clearing keeps the identifier source: the identifier of the next body
/// added is above that of every body held before, live or in the snapshot.
///
/// `cleared` is `before` after `World::clear`, and `id` what the next
/// `World::add_body` on it returns.
pub proof fn lemma_fresh_after_clear<T: Copy>(before: World<T>, cleared: World<T>, id: u16)
    requires
        before.wf(),
        cleared.ids == before.ids,
        id as nat == cleared.ids.issued(),
    ensures
        forall|i: int| 0 <= i < before.bodies@.len() ==> (#[trigger] before.bodies@[i]).id < id,
        forall|i: int|
            0 <= i < before.initial_bodies@.len() ==> (#[trigger] before.initial_bodies@[i]).id < id,
{
}

/// With at most one body, no body is pulled: its net pull is `(zero, zero)`.
pub proof fn lemma_lone_body_unpulled<
    T,
    F: Fn(Body<T>, Body<T>) -> Vector2<T>,
    G: Fn(T, T) -> T,
>(pull: F, plus: G, zero: T, s: Seq<Body<T>>, acc: Vector2<T>)
    requires
        s.len() <= 1,
        net_pull(pull, plus, zero, s, 0, acc),
    ensures
        acc == (Vector2 { x: zero, y: zero }),
{
    let trace = choose|trace: Seq<Vector2<T>>|
        #[trigger] pull_trace(pull, plus, zero, s, 0, trace) && trace.last() == acc;
    if s.len() == 1 {
        let j: int = 0;
        assert(sum_step(pull, plus, s, 0, j, trace[j], trace[j + 1]));
    }
}

/// A step on at most one body at rest leaves every body as it was, wherever
/// adding `zero` gives back what it was added to. (A lone body that moves
/// goes on moving: the step keeps its velocity, not its position.)
///
/// `after[i]` is body `i` of `before` after `World::update`.
pub proof fn lemma_lone_body_step<
    T,
    F: Fn(Body<T>, Body<T>) -> Vector2<T>,
    G: Fn(T, T) -> T,
>(pull: F, plus: G, zero: T, before: Seq<Body<T>>, after: Seq<Body<T>>)
    requires
        before.len() <= 1,
        after.len() == before.len(),
        forall|i: int|
            0 <= i < before.len() ==> (#[trigger] before[i]).velocity == (Vector2 { x: zero, y: zero }),
        forall|i: int| 0 <= i < before.len() ==> stepped(pull, plus, zero, before, i, #[trigger] after[i]),
        forall|v: T, r: T| #[trigger] plus.ensures((v, zero), r) ==> r == v,
    ensures
        after == before,
{
    if before.len() == 1 {
        assert(stepped(pull, plus, zero, before, 0, after[0]));
        let acc = choose|acc: Vector2<T>|
            #[trigger] net_pull(pull, plus, zero, before, 0, acc) && advanced(plus, before[0], acc, after[0]);
        lemma_lone_body_unpulled(pull, plus, zero, before, acc);
        assert(plus.ensures((before[0].velocity.x, zero), after[0].velocity.x));
        assert(plus.ensures((before[0].velocity.y, zero), after[0].velocity.y));
        assert(plus.ensures((before[0].position.x, zero), after[0].position.x));
        assert(plus.ensures((before[0].position.y, zero), after[0].position.y));
        assert(after[0] == before[0]);
    }
    assert(after =~= before);
}

} // verus!
