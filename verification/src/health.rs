//! Hit points, and the test for a lost game.

use vstd::prelude::*;
use crate::state::GameState;

verus! {

/// The hit points of an actor.
///
/// The counter is signed: damage beyond what is left takes it below zero
/// instead of wrapping, and "no health left" is `hit_points <= 0`.
#[derive(Clone, Copy, Debug, PartialEq, Eq, Structural)]
pub struct Health {
    pub hit_points: i64,
}

impl Health {
    /// The health left after `hits` hits of `per_hit` points each. The
    /// subtraction is exact unless it would leave the range of `i64`, where
    /// it stops at the lowest value.
    pub open spec fn after_hits(self, hits: nat, per_hit: nat) -> Health {
        let exact = self.hit_points - hits * per_hit;
        Health { hit_points: if exact < i64::MIN { i64::MIN } else { exact as i64 } }
    }

    /// No health left.
    pub open spec fn depleted(self) -> bool {
        self.hit_points <= 0
    }

    /// Health of `hit_points` points.
    pub fn new(hit_points: i64) -> (h: Health)
        ensures
            h == (Health { hit_points }),
    {
        Health { hit_points }
    }

    /// Whether no health is left.
    pub fn is_depleted(&self) -> (b: bool)
        ensures
            b == self.depleted(),
    {
        self.hit_points <= 0
    }

    /// Subtracts `hits * per_hit` in one step.
    pub fn take_hits(&mut self, hits: usize, per_hit: u32)
        ensures
            *final(self) == old(self).after_hits(hits as nat, per_hit as nat),
    {
        let h: u128 = hits as u128;
        let p: u128 = per_hit as u128;
        assert(h * p <= 0xffff_ffff_ffff_ffff * 0xffff_ffff) by (nonlinear_arith)
            requires
                h <= 0xffff_ffff_ffff_ffff,
                p <= 0xffff_ffff,
        ;
        let exact: i128 = self.hit_points as i128 - (h * p) as i128;
        if exact < i64::MIN as i128 {
            self.hit_points = i64::MIN;
        } else {
            self.hit_points = exact as i64;
        }
    }
}

/// The transition that the player's health calls for: to `GameLost` once no
/// health is left, none before.
pub open spec fn loss_of(health: Health) -> Option<GameState> {
    if health.depleted() {
        Some(GameState::GameLost)
    } else {
        None
    }
}

/// Checks, once per tick, whether the player has lost.
pub fn check_player_loss(health: &Health) -> (next: Option<GameState>)
    ensures
        next == loss_of(*health),
{
    if health.is_depleted() {
        Some(GameState::GameLost)
    } else {
        None
    }
}

/// While nothing leaves the range of `i64`, `n` hits lower the health by
/// exactly `n * per_hit`.
pub proof fn lemma_hits_add_up(health: Health, hits: nat, per_hit: nat)
    requires
        health.hit_points - hits * per_hit >= i64::MIN,
    ensures
        health.after_hits(hits, per_hit).hit_points == health.hit_points - hits * per_hit,
{
}

} // verus!
