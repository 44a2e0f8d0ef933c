//! Enemies: how they home in on the player, where a wave may put them, and
//! what their contact costs the player.

use vstd::prelude::*;
use crate::arena::{abs_diff, between, clamped, Point, BOTTOM_WALL, LEFT_WALL, NANOS_PER_SECOND, RIGHT_WALL, TOP_WALL, UNIT};
use crate::health::Health;
use crate::pending::{increasing, without};
use crate::player::{Player, PLAYER_SIZE};
use crate::random::random_coordinate;
use crate::timer::WaveTimer;

verus! {

/// The radius of an enemy's disc.
pub const ENEMY_SIZE: i32 = 10 * UNIT;

/// The share of the remaining distance that an enemy closes per second, in
/// thousandths: one half.
pub const ENEMY_SPEED_PER_MILLE: u64 = 500;

/// An elapsed time, weighted by the speed, at which one step covers the
/// whole remaining distance.
pub const HOMING_SCALE: u64 = 1000 * NANOS_PER_SECOND;

/// The longest tick that does not carry an enemy past its target.
pub const HOMING_MAX_NANOS: u64 = 2 * NANOS_PER_SECOND;

/// The health an enemy is created with.
pub const ENEMY_INITIAL_HIT_POINTS: i64 = 100;

/// How many places a wave tries.
pub const ENEMY_SPAWN_PER_INTERVAL: u32 = 25;

/// A wave puts no enemy this close to the player, or closer.
pub const ENEMY_MIN_SPAWN_DISTANCE: i32 = 100 * UNIT;

/// The period of the wave timer.
pub const ENEMY_SPAWN_INTERVAL_SECONDS: u32 = 1;

/// What one enemy's contact costs the player.
pub const ENEMY_DAMAGE: u32 = 10;

/// An enemy: where it is, and its health, which nothing yet takes from.
#[derive(Clone, Copy, Debug, PartialEq, Eq, Structural)]
pub struct Enemy {
    pub position: Point,
    pub health: Health,
}

impl Enemy {
    /// A fresh enemy at `at`.
    pub open spec fn spawned_at(at: Point) -> Enemy {
        Enemy { position: at, health: Health { hit_points: ENEMY_INITIAL_HIT_POINTS } }
    }

    /// This enemy after one tick of homing on `target`.
    pub open spec fn homed_toward(self, target: Point, elapsed: u64) -> Enemy {
        Enemy { position: homed(self.position, target, elapsed), health: self.health }
    }

    /// Creates an enemy at `at`, in full health.
    pub fn spawn(at: Point) -> (e: Enemy)
        ensures
            e == Enemy::spawned_at(at),
    {
        Enemy { position: at, health: Health { hit_points: ENEMY_INITIAL_HIT_POINTS } }
    }

    /// Moves this enemy for one tick of homing on `target`.
    pub fn home_toward(&mut self, target: &Point, elapsed: u64)
        ensures
            *final(self) == old(self).homed_toward(*target, elapsed),
    {
        let x: i32 = home_coordinate(self.position.x, target.x, elapsed);
        let y: i32 = home_coordinate(self.position.y, target.y, elapsed);
        self.position = Point { x, y };
    }
}

/// How far an enemy moves along one axis when it is `offset` away from its
/// target: the share `elapsed * speed` of the offset, rounded up to a whole
/// coordinate step. The step shrinks as the enemy closes in, and rounding up
/// keeps it from stalling short of the target.
pub open spec fn homing_step(offset: nat, elapsed: u64) -> nat {
    ((offset * (elapsed * ENEMY_SPEED_PER_MILLE) + (HOMING_SCALE - 1)) / (HOMING_SCALE as int)) as nat
}

/// One coordinate after a tick of homing, held inside the range of `i32`.
pub open spec fn homed_coordinate(c: i32, target: i32, elapsed: u64) -> i32 {
    let raw = if target >= c {
        c + homing_step((target - c) as nat, elapsed)
    } else {
        c - homing_step((c - target) as nat, elapsed)
    };
    clamped(raw, i32::MIN as int, i32::MAX as int) as i32
}

/// A position after a tick of homing on `target`.
pub open spec fn homed(position: Point, target: Point, elapsed: u64) -> Point {
    Point {
        x: homed_coordinate(position.x, target.x, elapsed),
        y: homed_coordinate(position.y, target.y, elapsed),
    }
}

/// `homed_toward` as a function of the enemy alone.
pub open spec fn homing(target: Point, elapsed: u64) -> spec_fn(Enemy) -> Enemy {
    |e: Enemy| e.homed_toward(target, elapsed)
}

/// The position after one tick of homing for each entry of `ticks`, in order.
pub open spec fn chased(start: Point, target: Point, ticks: Seq<u64>) -> Point
    decreases ticks.len(),
{
    if ticks.len() == 0 {
        start
    } else {
        chased(homed(start, target, ticks[0]), target, ticks.drop_first())
    }
}

fn home_coordinate(c: i32, target: i32, elapsed: u64) -> (r: i32)
    ensures
        r == homed_coordinate(c, target, elapsed),
{
    let offset: u128 = abs_diff(c, target) as u128;
    let speed: u128 = ENEMY_SPEED_PER_MILLE as u128;
    assert(elapsed as u128 * speed == elapsed * 500) by (nonlinear_arith)
        requires
            speed == 500,
    ;
    let weight: u128 = elapsed as u128 * speed;
    assert(offset * weight <= 0xffff_ffff * (0xffff_ffff_ffff_ffff * 500)) by (nonlinear_arith)
        requires
            offset <= 0xffff_ffff,
            weight <= 0xffff_ffff_ffff_ffff * 500,
    ;
    let step: u128 = (offset * weight + (HOMING_SCALE as u128 - 1)) / (HOMING_SCALE as u128);
    let raw: i128 = if target >= c {
        c as i128 + step as i128
    } else {
        c as i128 - step as i128
    };
    if raw < i32::MIN as i128 {
        i32::MIN
    } else if raw > i32::MAX as i128 {
        i32::MAX
    } else {
        raw as i32
    }
}

/// Moves every enemy for one tick of homing on the player.
pub fn move_enemy(enemies: &mut Vec<Enemy>, player_position: &Point, elapsed: u64)
    ensures
        final(enemies)@ == old(enemies)@.map_values(homing(*player_position, elapsed)),
{
    let n: usize = enemies.len();
    for i in 0..n
        invariant
            enemies@.len() == n,
            old(enemies)@.len() == n,
            forall|j: int| 0 <= j < i ==> enemies@[j] == old(enemies)@[j].homed_toward(*player_position, elapsed),
            forall|j: int| i <= j < n ==> enemies@[j] == old(enemies)@[j],
    {
        let mut enemy: Enemy = enemies[i];
        enemy.home_toward(player_position, elapsed);
        enemies[i] = enemy;
    }
}

/// A step never exceeds the offset while the tick is no longer than
/// `HOMING_MAX_NANOS`, and it is at least one coordinate step when there
/// is an offset to close and time has passed.
pub proof fn lemma_homing_step_bounds(offset: nat, elapsed: u64)
    ensures
        elapsed <= HOMING_MAX_NANOS ==> homing_step(offset, elapsed) <= offset,
        offset > 0 && elapsed > 0 ==> homing_step(offset, elapsed) >= 1,
        offset == 0 ==> homing_step(offset, elapsed) == 0,
        elapsed == 0 ==> homing_step(offset, elapsed) == 0,
{
    let weight: int = elapsed * ENEMY_SPEED_PER_MILLE;
    let scale: int = HOMING_SCALE as int;
    if elapsed <= HOMING_MAX_NANOS {
        assert(offset * weight <= offset * scale) by (nonlinear_arith)
            requires
                0 <= weight <= scale,
        ;
    }
    if offset > 0 && elapsed > 0 {
        assert(offset * weight >= 1) by (nonlinear_arith)
            requires
                offset >= 1,
                weight >= 1,
        ;
    }
    if offset == 0 || elapsed == 0 {
        assert(offset * weight == 0) by (nonlinear_arith)
            requires
                offset == 0 || weight == 0,
        ;
    }
}

/// A tick of at most `HOMING_MAX_NANOS` leaves each coordinate between
/// where it was and the target's: the enemy does not overshoot, and its
/// distance to the target does not grow.
pub proof fn lemma_homing_never_overshoots(position: Point, target: Point, elapsed: u64)
    requires
        elapsed <= HOMING_MAX_NANOS,
    ensures
        between(homed(position, target, elapsed).x as int, position.x as int, target.x as int),
        between(homed(position, target, elapsed).y as int, position.y as int, target.y as int),
        homed(position, target, elapsed).dist_sq(target) <= position.dist_sq(target),
        elapsed == 0 ==> homed(position, target, elapsed) == position,
{
    let h = homed(position, target, elapsed);
    lemma_coordinate_closes(position.x, target.x, elapsed);
    lemma_coordinate_closes(position.y, target.y, elapsed);
    lemma_square_of_closer(h.x - target.x, position.x - target.x);
    lemma_square_of_closer(h.y - target.y, position.y - target.y);
}

/// A tick that takes time, and at most `HOMING_MAX_NANOS`, brings an enemy
/// that is not yet at its target strictly closer to it.
pub proof fn lemma_homing_gets_closer(position: Point, target: Point, elapsed: u64)
    requires
        0 < elapsed <= HOMING_MAX_NANOS,
        position != target,
    ensures
        homed(position, target, elapsed).dist_sq(target) < position.dist_sq(target),
{
    let h = homed(position, target, elapsed);
    lemma_coordinate_closes(position.x, target.x, elapsed);
    lemma_coordinate_closes(position.y, target.y, elapsed);
    lemma_square_of_closer(h.x - target.x, position.x - target.x);
    lemma_square_of_closer(h.y - target.y, position.y - target.y);
}

/// An enemy at its target stays there, whatever the tick.
pub proof fn lemma_homing_rests_at_target(target: Point, elapsed: u64)
    ensures
        homed(target, target, elapsed) == target,
{
    lemma_homing_step_bounds(0, elapsed);
}

/// Homing on a target inside the arena keeps an enemy inside the arena,
/// while no tick is longer than `HOMING_MAX_NANOS`.
pub proof fn lemma_homing_stays_in_arena(position: Point, target: Point, elapsed: u64)
    requires
        elapsed <= HOMING_MAX_NANOS,
        position.in_arena(),
        target.in_arena(),
    ensures
        homed(position, target, elapsed).in_arena(),
{
    lemma_homing_never_overshoots(position, target, elapsed);
}

/// Over any run of ticks of at most `HOMING_MAX_NANOS` each, towards a
/// target that stays put, the distance never grows from one tick to the
/// next.
pub proof fn lemma_chase_never_recedes(start: Point, target: Point, ticks: Seq<u64>, next: u64)
    requires
        forall|i: int| 0 <= i < ticks.len() ==> (#[trigger] ticks[i]) <= HOMING_MAX_NANOS,
        next <= HOMING_MAX_NANOS,
    ensures
        chased(start, target, ticks.push(next)).dist_sq(target) <= chased(start, target, ticks).dist_sq(target),
    decreases ticks.len(),
{
    if ticks.len() == 0 {
        assert(ticks.push(next).drop_first() =~= ticks);
        assert(chased(homed(start, target, next), target, ticks) == homed(start, target, next));
        lemma_homing_never_overshoots(start, target, next);
    } else {
        assert(ticks.push(next).drop_first() =~= ticks.drop_first().push(next));
        lemma_chase_never_recedes(homed(start, target, ticks[0]), target, ticks.drop_first(), next);
    }
}

/// Towards a target that stays put, an enemy arrives: after as many ticks
/// as the larger of its two offsets counts coordinate steps, each tick
/// taking time and at most `HOMING_MAX_NANOS`, it is at the target.
pub proof fn lemma_chase_arrives(start: Point, target: Point, ticks: Seq<u64>)
    requires
        forall|i: int| 0 <= i < ticks.len() ==> 0 < (#[trigger] ticks[i]) && ticks[i] <= HOMING_MAX_NANOS,
        between(start.x as int, target.x - ticks.len(), target.x + ticks.len()),
        between(start.y as int, target.y - ticks.len(), target.y + ticks.len()),
    ensures
        chased(start, target, ticks) == target,
    decreases ticks.len(),
{
    if ticks.len() > 0 {
        lemma_coordinate_closes(start.x, target.x, ticks[0]);
        lemma_coordinate_closes(start.y, target.y, ticks[0]);
        lemma_chase_arrives(homed(start, target, ticks[0]), target, ticks.drop_first());
    }
}

proof fn lemma_coordinate_closes(c: i32, target: i32, elapsed: u64)
    requires
        elapsed <= HOMING_MAX_NANOS,
    ensures
        between(homed_coordinate(c, target, elapsed) as int, c as int, target as int),
        elapsed > 0 && c != target ==> homed_coordinate(c, target, elapsed) != c,
        elapsed == 0 ==> homed_coordinate(c, target, elapsed) == c,
{
    if target >= c {
        lemma_homing_step_bounds((target - c) as nat, elapsed);
    } else {
        lemma_homing_step_bounds((c - target) as nat, elapsed);
    }
}

proof fn lemma_square_of_closer(near: int, far: int)
    requires
        between(near, 0, far),
    ensures
        near * near <= far * far,
        near != far ==> near * near < far * far,
{
    assert(near * near <= far * far && (near != far ==> near * near < far * far)) by (nonlinear_arith)
        requires
            (0 <= near <= far) || (far <= near <= 0),
    ;
}

/// A wave keeps a candidate only if it is farther from the player than
/// `ENEMY_MIN_SPAWN_DISTANCE`.
pub open spec fn spawn_accepted(player: Point, candidate: Point) -> bool {
    candidate.dist_sq(player) > ENEMY_MIN_SPAWN_DISTANCE * ENEMY_MIN_SPAWN_DISTANCE
}

/// `spawn_accepted` as a function of the candidate alone.
pub open spec fn accepting(player: Point) -> spec_fn(Point) -> bool {
    |candidate: Point| spawn_accepted(player, candidate)
}

/// `Enemy::spawned_at` as a function value.
pub open spec fn spawning() -> spec_fn(Point) -> Enemy {
    |at: Point| Enemy::spawned_at(at)
}

/// The places where a tick of `elapsed` creates enemies, given the
/// candidates of its wave: none unless the tick runs the wave timer out;
/// else each candidate that is accepted, and no other, in order.
pub open spec fn wave_spawns(timer: WaveTimer, elapsed: u64, player: Point, candidates: Seq<Point>) -> Seq<Point> {
    if timer.fires(elapsed) {
        candidates.filter(accepting(player))
    } else {
        Seq::empty()
    }
}

/// Draws the candidates of one wave: `ENEMY_SPAWN_PER_INTERVAL` points,
/// each somewhere in the arena.
pub fn draw_spawn_candidates() -> (candidates: Vec<Point>)
    ensures
        candidates@.len() == ENEMY_SPAWN_PER_INTERVAL,
        forall|i: int| 0 <= i < candidates@.len() ==> (#[trigger] candidates@[i]).in_arena(),
{
    let mut candidates: Vec<Point> = Vec::new();
    for n in 0..ENEMY_SPAWN_PER_INTERVAL
        invariant
            candidates@.len() == n,
            forall|i: int| 0 <= i < candidates@.len() ==> (#[trigger] candidates@[i]).in_arena(),
    {
        let x: i32 = random_coordinate(LEFT_WALL, RIGHT_WALL);
        let y: i32 = random_coordinate(BOTTOM_WALL, TOP_WALL);
        candidates.push(Point { x, y });
    }
    candidates
}

/// Picks from `candidates` the places where enemies may appear.
pub fn accept_spawns(player_position: &Point, candidates: &Vec<Point>) -> (spawns: Vec<Point>)
    ensures
        spawns@ == candidates@.filter(accepting(*player_position)),
{
    let mut spawns: Vec<Point> = Vec::new();
    let n: usize = candidates.len();
    proof {
        reveal(Seq::filter);
        assert(candidates@.take(0) =~= Seq::<Point>::empty());
    }
    for i in 0..n
        invariant
            n == candidates@.len(),
            spawns@ == candidates@.take(i as int).filter(accepting(*player_position)),
    {
        proof {
            broadcast use Seq::lemma_filter_push;

            assert(candidates@.take(i + 1) =~= candidates@.take(i as int).push(candidates@[i as int]));
        }
        let candidate: Point = candidates[i];
        if candidate.is_beyond(player_position, ENEMY_MIN_SPAWN_DISTANCE as u32) {
            spawns.push(candidate);
        }
    }
    assert(candidates@.take(n as int) =~= candidates@);
    spawns
}

/// Advances the wave timer and, when it runs out, turns the wave's
/// candidates into the places where enemies will be created. A candidate
/// that is too close to the player is dropped and not replaced, so a wave
/// may bring fewer enemies than it has candidates.
pub fn spawn_enemy(
    wave_timer: &mut WaveTimer,
    elapsed: u64,
    player_position: &Point,
    candidates: &Vec<Point>,
) -> (spawns: Vec<Point>)
    requires
        old(wave_timer).wf(),
    ensures
        *final(wave_timer) == old(wave_timer).ticked(elapsed),
        final(wave_timer).wf(),
        spawns@ == wave_spawns(*old(wave_timer), elapsed, *player_position, candidates@),
{
    if wave_timer.tick(elapsed) {
        accept_spawns(player_position, candidates)
    } else {
        Vec::new()
    }
}

/// What a wave creates. Every place it picks was a candidate farther from
/// the player than `ENEMY_MIN_SPAWN_DISTANCE`, so no candidate at that
/// distance or closer gets an enemy; when the timer runs out, every
/// candidate beyond that distance is picked; and when it does not, nothing
/// is picked. The enemy created for a place stands exactly there.
pub proof fn lemma_wave_spawns(timer: WaveTimer, elapsed: u64, player: Point, candidates: Seq<Point>)
    ensures
        forall|k: int|
            0 <= k < wave_spawns(timer, elapsed, player, candidates).len() ==> {
                let place = #[trigger] wave_spawns(timer, elapsed, player, candidates)[k];
                &&& spawn_accepted(player, place)
                &&& candidates.contains(place)
                &&& Enemy::spawned_at(place).position == place
            },
        timer.fires(elapsed) ==> forall|i: int|
            0 <= i < candidates.len() && spawn_accepted(player, #[trigger] candidates[i]) ==> wave_spawns(
                timer,
                elapsed,
                player,
                candidates,
            ).contains(candidates[i]),
        !timer.fires(elapsed) ==> wave_spawns(timer, elapsed, player, candidates).len() == 0,
{
    let picked = candidates.filter(accepting(player));
    assert forall|k: int| 0 <= k < picked.len() implies spawn_accepted(player, #[trigger] picked[k])
        && candidates.contains(picked[k]) by {
        candidates.lemma_filter_pred(accepting(player), k);
        assert(picked.contains(picked[k]));
        candidates.lemma_filter_contains_rev(accepting(player), picked[k]);
    }
    assert forall|i: int| 0 <= i < candidates.len() && spawn_accepted(player, #[trigger] candidates[i]) implies picked.contains(
        candidates[i],
    ) by {
        candidates.lemma_filter_contains(accepting(player), i);
    }
}

/// An enemy touches the player when it is closer to it than `PLAYER_SIZE`.
pub open spec fn in_contact(enemy: Point, player: Point) -> bool {
    enemy.dist_sq(player) < PLAYER_SIZE * PLAYER_SIZE
}

/// `in_contact` as a function of the enemy alone.
pub open spec fn touching(player: Point) -> spec_fn(Enemy) -> bool {
    |e: Enemy| in_contact(e.position, player)
}

/// The opposite of `touching`.
pub open spec fn clear_of(player: Point) -> spec_fn(Enemy) -> bool {
    |e: Enemy| !in_contact(e.position, player)
}

/// The positions in `enemies` of those that touch the player, lowest first.
pub open spec fn contact_indices(enemies: Seq<Enemy>, player: Point) -> Seq<usize>
    decreases enemies.len(),
{
    if enemies.len() == 0 {
        Seq::empty()
    } else {
        let rest = contact_indices(enemies.drop_last(), player);
        if in_contact(enemies.last().position, player) {
            rest.push((enemies.len() - 1) as usize)
        } else {
            rest
        }
    }
}

/// Finds every enemy that touches the player and charges the player for
/// all of them at once: the result lists them for removal, and the
/// player's health drops by `ENEMY_DAMAGE` for each, in one subtraction.
pub fn enemy_damage_player(enemies: &Vec<Enemy>, player: &mut Player) -> (despawns: Vec<usize>)
    ensures
        despawns@ == contact_indices(enemies@, old(player).position),
        despawns@.len() == enemies@.filter(touching(old(player).position)).len(),
        increasing(despawns@),
        without(enemies@, despawns@) == enemies@.filter(clear_of(old(player).position)),
        final(player).position == old(player).position,
        final(player).health == old(player).health.after_hits(despawns@.len(), ENEMY_DAMAGE as nat),
{
    let mut despawns: Vec<usize> = Vec::new();
    let n: usize = enemies.len();
    for i in 0..n
        invariant
            n == enemies@.len(),
            *player == *old(player),
            despawns@ == contact_indices(enemies@.take(i as int), player.position),
    {
        proof {
            assert(enemies@.take(i + 1).drop_last() =~= enemies@.take(i as int));
        }
        if enemies[i].position.is_within(&player.position, PLAYER_SIZE as u32) {
            despawns.push(i);
        }
    }
    proof {
        assert(enemies@.take(n as int) =~= enemies@);
        lemma_contacts(enemies@, player.position);
    }
    player.health.take_hits(despawns.len(), ENEMY_DAMAGE);
    despawns
}

/// The list of contacts is in increasing order, names exactly the enemies
/// that touch the player, and counts them; removing the listed enemies
/// leaves exactly those that do not touch the player.
pub proof fn lemma_contacts(enemies: Seq<Enemy>, player: Point)
    requires
        enemies.len() <= usize::MAX,
    ensures
        increasing(contact_indices(enemies, player)),
        forall|v: usize| #[trigger]
            contact_indices(enemies, player).contains(v) <==> v < enemies.len() && in_contact(
                enemies[v as int].position,
                player,
            ),
        contact_indices(enemies, player).len() == enemies.filter(touching(player)).len(),
        without(enemies, contact_indices(enemies, player)) == enemies.filter(clear_of(player)),
    decreases enemies.len(),
{
    reveal(Seq::filter);
    let all = contact_indices(enemies, player);
    if enemies.len() > 0 {
        let front = enemies.drop_last();
        let rest = contact_indices(front, player);
        let last = (enemies.len() - 1) as usize;
        lemma_contacts(front, player);
        lemma_without_ignores_later(front, rest, last);
        if in_contact(enemies.last().position, player) {
            assert(all == rest.push(last));
            assert(all[rest.len() as int] == last);
            assert forall|v: usize| #[trigger] all.contains(v) <==> rest.contains(v) || v == last by {
                if rest.contains(v) {
                    let k = choose|k: int| 0 <= k < rest.len() && rest[k] == v;
                    assert(all[k] == v);
                }
            }
            assert forall|i: int, j: int| 0 <= i < j < all.len() implies all[i] < all[j] by {
                if j == rest.len() {
                    assert(rest.contains(rest[i]));
                }
            }
        } else {
            assert(all == rest);
        }
        assert forall|v: usize| #[trigger]
            all.contains(v) <==> v < enemies.len() && in_contact(enemies[v as int].position, player) by {
            if v < front.len() {
                assert(front[v as int] == enemies[v as int]);
            }
        }
    } else {
        assert forall|v: usize| !(#[trigger] all.contains(v)) by {}
    }
}

/// Every enemy either touches the player or does not: the two groups
/// add up to the whole list.
pub proof fn lemma_contacts_split(enemies: Seq<Enemy>, player: Point)
    ensures
        enemies.filter(touching(player)).len() + enemies.filter(clear_of(player)).len() == enemies.len(),
    decreases enemies.len(),
{
    reveal(Seq::filter);
    if enemies.len() > 0 {
        lemma_contacts_split(enemies.drop_last(), player);
    }
}

/// An index at or past the end of the list makes no difference to what
/// is removed from it.
proof fn lemma_without_ignores_later(enemies: Seq<Enemy>, indices: Seq<usize>, later: usize)
    requires
        later >= enemies.len(),
    ensures
        without(enemies, indices.push(later)) == without(enemies, indices),
    decreases enemies.len(),
{
    if enemies.len() > 0 {
        lemma_without_ignores_later(enemies.drop_last(), indices, later);
        let i = (enemies.len() - 1) as usize;
        let grown = indices.push(later);
        if indices.contains(i) {
            let k = choose|k: int| 0 <= k < indices.len() && indices[k] == i;
            assert(grown[k] == i);
        }
        if grown.contains(i) {
            let k = choose|k: int| 0 <= k < grown.len() && grown[k] == i;
            assert(k < indices.len());
            assert(indices[k] == i);
        }
    }
}

} // verus!
