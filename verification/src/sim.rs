//! The per-frame step over the whole grid: every node is advanced against
//! one and the same already-advanced attractor position.
//!
//! The attractor itself is advanced first (`Point::update`); the bearings
//! in `dirs` are then taken against its new position, so no node observes a
//! stale attractor.

use vstd::prelude::*;

use crate::math::COORD_LIMIT;
use crate::node::{Dir, Node, spec_update_node};
use crate::rng::ColorRng;

verus! {

/// The generator state after the first `i` nodes of a frame have been
/// advanced from state `s0`: nodes beyond the flash distance leave the
/// state alone, the others draw three channels.
pub open spec fn spec_rng_after(
    ns: Seq<Node>,
    tx: int,
    ty: int,
    dirs: Seq<Dir>,
    s0: int,
    i: int,
) -> int
    decreases i,
{
    if i <= 0 {
        s0
    } else {
        spec_update_node(ns[i - 1], tx, ty, dirs[i - 1], spec_rng_after(ns, tx, ty, dirs, s0, i - 1)).1
    }
}

/// Advances every node of the grid against the attractor position
/// (tx, ty). All nodes observe the same position; node `i` takes bearing
/// `dirs[i]`, and the color generator is threaded through the nodes in
/// order, so each node's outcome is exactly `spec_update_node` at the
/// generator state left by its predecessors.
pub fn step_nodes(nodes: &mut Vec<Node>, tx: i64, ty: i64, dirs: &Vec<Dir>, rng: &mut ColorRng)
    requires
        forall|i: int| 0 <= i < old(nodes)@.len() ==> (#[trigger] old(nodes)@[i]).wf(),
        dirs@.len() == old(nodes)@.len(),
        forall|i: int| 0 <= i < dirs@.len() ==> (#[trigger] dirs@[i]).wf(),
        -COORD_LIMIT <= tx <= COORD_LIMIT,
        -COORD_LIMIT <= ty <= COORD_LIMIT,
        old(rng).wf(),
    ensures
        final(nodes)@.len() == old(nodes)@.len(),
        forall|i: int| 0 <= i < final(nodes)@.len() ==> #[trigger] final(nodes)@[i]
            == spec_update_node(
                old(nodes)@[i],
                tx as int,
                ty as int,
                dirs@[i],
                spec_rng_after(old(nodes)@, tx as int, ty as int, dirs@, old(rng).state as int, i),
            ).0,
        forall|i: int| 0 <= i < final(nodes)@.len() ==> (#[trigger] final(nodes)@[i]).wf(),
        final(rng).state as int == spec_rng_after(
            old(nodes)@,
            tx as int,
            ty as int,
            dirs@,
            old(rng).state as int,
            old(nodes)@.len() as int,
        ),
        final(rng).wf(),
{
    let n = nodes.len();
    let mut i: usize = 0;
    while i < n
        invariant
            n == old(nodes)@.len(),
            nodes@.len() == n,
            dirs@.len() == n,
            forall|j: int| 0 <= j < n ==> (#[trigger] old(nodes)@[j]).wf(),
            forall|j: int| 0 <= j < dirs@.len() ==> (#[trigger] dirs@[j]).wf(),
            -COORD_LIMIT <= tx <= COORD_LIMIT,
            -COORD_LIMIT <= ty <= COORD_LIMIT,
            i <= n,
            forall|j: int| i <= j < n ==> #[trigger] nodes@[j] == old(nodes)@[j],
            forall|j: int| 0 <= j < i ==> #[trigger] nodes@[j]
                == spec_update_node(
                    old(nodes)@[j],
                    tx as int,
                    ty as int,
                    dirs@[j],
                    spec_rng_after(old(nodes)@, tx as int, ty as int, dirs@, old(rng).state as int, j),
                ).0,
            forall|j: int| 0 <= j < i ==> (#[trigger] nodes@[j]).wf(),
            rng.state as int == spec_rng_after(
                old(nodes)@,
                tx as int,
                ty as int,
                dirs@,
                old(rng).state as int,
                i as int,
            ),
            rng.wf(),
        decreases n - i,
    {
        let dir = dirs[i];
        nodes[i].update(tx, ty, dir, rng);
        i = i + 1;
    }
}

} // verus!
