//! The player: where it starts and how the keys move it.

use vstd::prelude::*;
use crate::arena::{clamped, Point, BOTTOM_WALL, LEFT_WALL, NANOS_PER_SECOND, RIGHT_WALL, TOP_WALL, UNIT};
use crate::health::Health;

verus! {

/// Half the player's size: how far its centre stays from every wall.
pub const PLAYER_HALF_SIZE: i32 = 10 * UNIT;

/// The radius of the player's disc, and the reach of its contact with enemies.
pub const PLAYER_SIZE: i32 = 2 * PLAYER_HALF_SIZE;

/// Coordinate steps per second along one axis.
pub const PLAYER_SPEED: i32 = 500 * UNIT;

/// The health a player starts a game with.
pub const PLAYER_INITIAL_HIT_POINTS: i64 = 100;

/// Where a player starts a game.
pub const PLAYER_START_X: i32 = -200 * UNIT;

pub const PLAYER_START_Y: i32 = 0;

/// The least and the largest coordinates that the player's centre can
/// have: half its size away from each wall.
pub const PLAYER_MIN_X: i32 = LEFT_WALL + PLAYER_HALF_SIZE;

pub const PLAYER_MAX_X: i32 = RIGHT_WALL - PLAYER_HALF_SIZE;

pub const PLAYER_MIN_Y: i32 = BOTTOM_WALL + PLAYER_HALF_SIZE;

pub const PLAYER_MAX_Y: i32 = TOP_WALL - PLAYER_HALF_SIZE;

/// Which of the four direction keys are held down.
#[derive(Clone, Copy, Debug, PartialEq, Eq, Structural)]
pub struct MoveInput {
    pub left: bool,
    pub right: bool,
    pub down: bool,
    pub up: bool,
}

impl MoveInput {
    /// The direction along x: opposite keys cancel.
    pub open spec fn dx(self) -> int {
        (if self.right { 1int } else { 0 }) - (if self.left { 1int } else { 0 })
    }

    /// The direction along y: opposite keys cancel.
    pub open spec fn dy(self) -> int {
        (if self.up { 1int } else { 0 }) - (if self.down { 1int } else { 0 })
    }

    /// The direction along x: 1 to the right, -1 to the left, 0 for none.
    pub fn direction_x(&self) -> (d: i8)
        ensures
            d == self.dx(),
    {
        let plus: i8 = if self.right { 1 } else { 0 };
        let minus: i8 = if self.left { 1 } else { 0 };
        plus - minus
    }

    /// The direction along y: 1 upwards, -1 downwards, 0 for none.
    pub fn direction_y(&self) -> (d: i8)
        ensures
            d == self.dy(),
    {
        let plus: i8 = if self.up { 1 } else { 0 };
        let minus: i8 = if self.down { 1 } else { 0 };
        plus - minus
    }
}

/// The player: where it is, and its health.
#[derive(Clone, Copy, Debug, PartialEq, Eq, Structural)]
pub struct Player {
    pub position: Point,
    pub health: Health,
}

/// How far the player gets along one axis in `elapsed` nanoseconds, rounded
/// down to a whole coordinate step.
pub open spec fn travel(elapsed: u64) -> int {
    (PLAYER_SPEED * elapsed) / (NANOS_PER_SECOND as int)
}

/// The part of the arena that the player's centre can reach.
pub open spec fn in_bounds(p: Point) -> bool {
    PLAYER_MIN_X <= p.x <= PLAYER_MAX_X && PLAYER_MIN_Y <= p.y <= PLAYER_MAX_Y
}

/// Where the keys take the player: each axis moves by its direction times
/// the distance travelled and is then held inside the bounds. The axes are
/// independent, so a diagonal is faster than a straight line.
pub open spec fn moved(position: Point, input: MoveInput, elapsed: u64) -> Point {
    Point {
        x: clamped(position.x + input.dx() * travel(elapsed), PLAYER_MIN_X as int, PLAYER_MAX_X as int) as i32,
        y: clamped(position.y + input.dy() * travel(elapsed), PLAYER_MIN_Y as int, PLAYER_MAX_Y as int) as i32,
    }
}

/// Whatever the keys and however long the tick, the player stays inside the
/// bounds, wherever it started.
pub proof fn lemma_moved_stays_in_bounds(position: Point, input: MoveInput, elapsed: u64)
    ensures
        in_bounds(moved(position, input, elapsed)),
{
}

/// The player as a game begins: at the start position, in full health.
pub open spec fn fresh_player() -> Player {
    Player {
        position: Point { x: PLAYER_START_X, y: PLAYER_START_Y },
        health: Health { hit_points: PLAYER_INITIAL_HIT_POINTS },
    }
}

/// Creates the player for a new game.
pub fn spawn_player() -> (player: Player)
    ensures
        player == fresh_player(),
        in_bounds(player.position),
{
    Player {
        position: Point { x: PLAYER_START_X, y: PLAYER_START_Y },
        health: Health { hit_points: PLAYER_INITIAL_HIT_POINTS },
    }
}

fn moved_coordinate(c: i32, direction: i8, distance: u64, low: i32, high: i32) -> (r: i32)
    requires
        -1 <= direction <= 1,
        low <= high,
    ensures
        r == clamped(c + direction * distance, low as int, high as int),
{
    let raw: i128 = if direction > 0 {
        c as i128 + distance as i128
    } else if direction < 0 {
        c as i128 - distance as i128
    } else {
        c as i128
    };
    assert(raw == c + direction * distance) by (nonlinear_arith)
        requires
            direction == 1 || direction == 0 || direction == -1,
            raw == (if direction > 0 {
                c + distance
            } else if direction < 0 {
                c - distance
            } else {
                c as int
            }),
    ;
    if raw < low as i128 {
        low
    } else if raw > high as i128 {
        high
    } else {
        raw as i32
    }
}

/// Moves the player for one tick. Whatever the keys and the elapsed time,
/// the player ends inside the bounds.
pub fn move_player(player: &mut Player, input: &MoveInput, elapsed: u64)
    ensures
        final(player).position == moved(old(player).position, *input, elapsed),
        final(player).health == old(player).health,
        in_bounds(final(player).position),
{
    let speed: u128 = PLAYER_SPEED as u128;
    let time: u128 = elapsed as u128;
    assert(speed * time == 500_000 * time) by (nonlinear_arith)
        requires
            speed == 500_000,
    ;
    let covered: u128 = speed * time / (NANOS_PER_SECOND as u128);
    assert(covered == travel(elapsed));
    let distance: u64 = covered as u64;
    let x: i32 = moved_coordinate(player.position.x, input.direction_x(), distance, PLAYER_MIN_X, PLAYER_MAX_X);
    let y: i32 = moved_coordinate(player.position.y, input.direction_y(), distance, PLAYER_MIN_Y, PLAYER_MAX_Y);
    player.position = Point { x, y };
}

} // verus!
