//! Changes to the set of enemies that wait for the end of the tick.
//!
//! While a tick runs, no enemy joins or leaves: the wave spawner and the
//! contact check only say what should happen. The queued changes are
//! applied together once the tick's work is done, so nothing in a tick
//! sees a list that is half changed.

use vstd::prelude::*;
use crate::arena::Point;
use crate::enemy::{spawning, Enemy};

verus! {

/// What one tick has queued.
#[derive(Debug, PartialEq, Eq)]
pub struct PendingChanges {
    /// Positions in the enemy list of the enemies to remove, lowest first.
    pub despawns: Vec<usize>,
    /// Where to create new enemies, in the order they were accepted.
    pub spawns: Vec<Point>,
}

/// Each entry is larger than the one before it.
pub open spec fn increasing(indices: Seq<usize>) -> bool {
    forall|i: int, j: int| 0 <= i < j < indices.len() ==> indices[i] < indices[j]
}

/// `enemies` less those whose position in it is listed in `indices`; the
/// rest keep their order.
pub open spec fn without(enemies: Seq<Enemy>, indices: Seq<usize>) -> Seq<Enemy>
    decreases enemies.len(),
{
    if enemies.len() == 0 {
        enemies
    } else {
        let rest = without(enemies.drop_last(), indices);
        if indices.contains((enemies.len() - 1) as usize) {
            rest
        } else {
            rest.push(enemies.last())
        }
    }
}

impl PendingChanges {
    /// The enemies to remove are listed lowest first, each once.
    pub open spec fn wf(&self) -> bool {
        increasing(self.despawns@)
    }

    /// The enemy list once these changes are applied to `enemies`: the
    /// listed enemies are gone, and a fresh enemy stands at the end for
    /// each spawn.
    pub open spec fn applied_to(&self, enemies: Seq<Enemy>) -> Seq<Enemy> {
        without(enemies, self.despawns@) + self.spawns@.map_values(spawning())
    }

    /// Nothing queued.
    pub fn new() -> (p: PendingChanges)
        ensures
            p.despawns@.len() == 0,
            p.spawns@.len() == 0,
            p.wf(),
    {
        PendingChanges { despawns: Vec::new(), spawns: Vec::new() }
    }
}

/// Applies the queued changes to the enemy list.
pub fn apply_pending(enemies: &mut Vec<Enemy>, pending: &PendingChanges)
    requires
        pending.wf(),
    ensures
        final(enemies)@ == pending.applied_to(old(enemies)@),
{
    let mut kept: Vec<Enemy> = Vec::new();
    let mut next: usize = 0;
    let n: usize = enemies.len();
    let listed: usize = pending.despawns.len();
    for i in 0..n
        invariant
            enemies@ == old(enemies)@,
            n == enemies@.len(),
            listed == pending.despawns@.len(),
            increasing(pending.despawns@),
            next <= listed,
            forall|j: int| 0 <= j < next ==> pending.despawns@[j] < i,
            forall|j: int| next <= j < listed ==> pending.despawns@[j] >= i,
            kept@ == without(enemies@.take(i as int), pending.despawns@),
    {
        proof {
            assert(enemies@.take(i + 1).drop_last() =~= enemies@.take(i as int));
        }
        if next < listed && pending.despawns[next] == i {
            assert(pending.despawns@.contains(i));
            next += 1;
        } else {
            assert(!pending.despawns@.contains(i)) by {
                if pending.despawns@.contains(i) {
                    let j = choose|j: int| 0 <= j < listed && pending.despawns@[j] == i;
                    assert(j >= next);
                    assert(j > next ==> pending.despawns@[next as int] < pending.despawns@[j]);
                }
            }
            kept.push(enemies[i]);
        }
    }
    assert(enemies@.take(n as int) =~= enemies@);
    let ghost survivors = kept@;
    let m: usize = pending.spawns.len();
    for j in 0..m
        invariant
            m == pending.spawns@.len(),
            kept@ == survivors + pending.spawns@.take(j as int).map_values(spawning()),
    {
        kept.push(Enemy::spawn(pending.spawns[j]));
    }
    assert(pending.spawns@.take(m as int) =~= pending.spawns@);
    *enemies = kept;
}

} // verus!
