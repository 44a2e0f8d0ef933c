//! The session: everything a running game owns, and the rules that take it
//! from one tick to the next.

use vstd::prelude::*;
use crate::arena::{Point, NANOS_PER_SECOND};
use crate::enemy::{
    clear_of, contact_indices, draw_spawn_candidates, enemy_damage_player, homing, in_contact,
    lemma_contacts_split, lemma_homing_stays_in_arena, lemma_wave_spawns, move_enemy, spawn_accepted,
    spawn_enemy, spawning, touching, wave_spawns, Enemy, ENEMY_DAMAGE, ENEMY_MIN_SPAWN_DISTANCE,
    ENEMY_SPAWN_INTERVAL_SECONDS, ENEMY_SPAWN_PER_INTERVAL, HOMING_MAX_NANOS,
};
use crate::health::{check_player_loss, loss_of, Health};
use crate::pending::{apply_pending, PendingChanges};
use crate::player::{
    fresh_player, in_bounds, move_player, moved, spawn_player, MoveInput, Player, PLAYER_MAX_X, PLAYER_MAX_Y,
    PLAYER_MIN_X, PLAYER_MIN_Y, PLAYER_SIZE,
};
use crate::state::GameState;
use crate::timer::WaveTimer;

verus! {

/// A colour by its red, green and blue parts.
#[derive(Clone, Copy, Debug, PartialEq, Eq, Structural)]
pub struct Rgb {
    pub red: u8,
    pub green: u8,
    pub blue: u8,
}

/// The screen that announces how a game ended: a coloured box with a text
/// on it.
#[derive(Clone, Copy, Debug, PartialEq, Eq, Structural)]
pub enum EndScreen {
    Won,
    Lost,
}

impl EndScreen {
    /// The announcement on this screen.
    pub open spec fn text_of(self) -> Seq<char> {
        match self {
            EndScreen::Won => "You win! \nPress any key to return to the menu."@,
            EndScreen::Lost => "Game Over! You lost.\nPress any key to return to the menu."@,
        }
    }

    /// The colour of the box on this screen.
    pub open spec fn box_color_of(self) -> Rgb {
        match self {
            EndScreen::Won => Rgb { red: 2, green: 97, blue: 27 },
            EndScreen::Lost => Rgb { red: 61, green: 7, blue: 7 },
        }
    }

    /// The announcement.
    pub fn text(&self) -> (text: &'static str)
        ensures
            text@ == self.text_of(),
    {
        match self {
            EndScreen::Won => "You win! \nPress any key to return to the menu.",
            EndScreen::Lost => "Game Over! You lost.\nPress any key to return to the menu.",
        }
    }

    /// The colour of the box behind the text.
    pub fn box_color(&self) -> (color: Rgb)
        ensures
            color == self.box_color_of(),
    {
        match self {
            EndScreen::Won => Rgb { red: 2, green: 97, blue: 27 },
            EndScreen::Lost => Rgb { red: 61, green: 7, blue: 7 },
        }
    }
}

/// The end screen that belongs to a state: one for each of the two end
/// states, none for any other.
pub open spec fn end_screen_of(state: GameState) -> Option<EndScreen> {
    match state {
        GameState::GameWon => Some(EndScreen::Won),
        GameState::GameLost => Some(EndScreen::Lost),
        _ => None,
    }
}

/// Chooses the end screen to put up on entering `state`.
pub fn end_game(state: GameState) -> (screen: Option<EndScreen>)
    ensures
        screen == end_screen_of(state),
{
    match state {
        GameState::GameWon => Some(EndScreen::Won),
        GameState::GameLost => Some(EndScreen::Lost),
        _ => None,
    }
}

/// The transition that a tick on an end screen calls for: back to the menu
/// if any key was pressed, none otherwise and none in any other state.
pub open spec fn restart_of(state: GameState, any_key: bool) -> Option<GameState> {
    if state.is_end() && any_key {
        Some(GameState::Menu)
    } else {
        None
    }
}

/// Waits on an end screen for a key.
pub fn listen_for_restart(state: GameState, any_key: bool) -> (next: Option<GameState>)
    ensures
        next == restart_of(state, any_key),
{
    if state.is_end_screen() && any_key {
        Some(GameState::Menu)
    } else {
        None
    }
}

/// What the outside world contributes to one tick.
#[derive(Clone, Copy, Debug, PartialEq, Eq, Structural)]
pub struct TickInput {
    /// The direction keys that are held down.
    pub movement: MoveInput,
    /// Whether any key was pressed since the last tick.
    pub any_key: bool,
    /// The time since the last tick, in nanoseconds.
    pub elapsed: u64,
}

/// A game session: the state of the game and all that lives in it.
pub struct Session {
    state: GameState,
    player: Option<Player>,
    enemies: Vec<Enemy>,
    wave_timer: WaveTimer,
    overlay: Option<EndScreen>,
}

/// A session as a mathematical value.
pub struct SessionView {
    pub state: GameState,
    pub player: Option<Player>,
    pub enemies: Seq<Enemy>,
    pub wave_timer: WaveTimer,
    pub overlay: Option<EndScreen>,
}

/// A wave's worth of candidates: as many as a wave tries, all in the arena.
pub open spec fn is_wave(candidates: Seq<Point>) -> bool {
    &&& candidates.len() == ENEMY_SPAWN_PER_INTERVAL
    &&& forall|i: int| 0 <= i < candidates.len() ==> (#[trigger] candidates[i]).in_arena()
}

impl SessionView {
    /// What holds of every session: there is a player exactly while the
    /// game is being played, it is inside the bounds and has health left;
    /// and an end screen is up exactly in the two end states, the one that
    /// belongs to the state.
    pub open spec fn valid(self) -> bool {
        &&& self.wave_timer.wf()
        &&& (self.player is Some <==> self.state == GameState::Game)
        &&& (self.player matches Some(p) ==> in_bounds(p.position) && !p.health.depleted())
        &&& self.overlay == end_screen_of(self.state)
    }

    /// The session after a change of state. Entering the state it is in
    /// changes nothing. Otherwise the player exists from here on exactly if
    /// the new state is `Game`, and is then a fresh one; the end screen of
    /// the old state, if any, is gone and that of the new one, if any, is
    /// up. Enemies and the wave timer carry over.
    pub open spec fn entered(self, next: GameState) -> SessionView {
        if next == self.state {
            self
        } else {
            SessionView {
                state: next,
                player: if next == GameState::Game {
                    Some(fresh_player())
                } else {
                    None
                },
                enemies: self.enemies,
                wave_timer: self.wave_timer,
                overlay: end_screen_of(next),
            }
        }
    }

    /// Where the player is once it has moved in this tick.
    pub open spec fn position_after(self, input: TickInput) -> Point
        recommends
            self.player is Some,
    {
        moved(self.player.unwrap().position, input.movement, input.elapsed)
    }

    /// The enemies once each has homed in on the player's new position.
    pub open spec fn homed_enemies(self, input: TickInput) -> Seq<Enemy> {
        self.enemies.map_values(homing(self.position_after(input), input.elapsed))
    }

    /// How many enemies touch the player in this tick, after both have
    /// moved.
    pub open spec fn hits(self, input: TickInput) -> nat {
        self.homed_enemies(input).filter(touching(self.position_after(input))).len()
    }

    /// The player's health once all contacts of this tick are charged.
    pub open spec fn health_after(self, input: TickInput) -> Health
        recommends
            self.player is Some,
    {
        self.player.unwrap().health.after_hits(self.hits(input), ENEMY_DAMAGE as nat)
    }

    /// The enemies that this tick removes, by their place in the list.
    pub open spec fn despawns(self, input: TickInput) -> Seq<usize> {
        contact_indices(self.homed_enemies(input), self.position_after(input))
    }

    /// The places where this tick creates enemies.
    pub open spec fn spawns(self, input: TickInput, candidates: Seq<Point>) -> Seq<Point> {
        wave_spawns(self.wave_timer, input.elapsed, self.position_after(input), candidates)
    }

    /// The enemies at the end of this tick: those that do not touch the
    /// player, moved, and behind them the new ones.
    pub open spec fn enemies_after(self, input: TickInput, candidates: Seq<Point>) -> Seq<Enemy> {
        self.homed_enemies(input).filter(clear_of(self.position_after(input))) + self.spawns(
            input,
            candidates,
        ).map_values(spawning())
    }

    /// One tick of play. In order: the player moves; the enemies home in
    /// on where it now is; the wave timer advances and its wave, if one is
    /// due, picks its places; contacts are counted and charged; the enemies
    /// in contact leave and the new ones join; and if the player has no
    /// health left, the game is lost.
    pub open spec fn played(self, input: TickInput, candidates: Seq<Point>) -> SessionView
        recommends
            self.player is Some,
    {
        let health = self.health_after(input);
        let after = SessionView {
            state: GameState::Game,
            player: Some(Player { position: self.position_after(input), health }),
            enemies: self.enemies_after(input, candidates),
            wave_timer: self.wave_timer.ticked(input.elapsed),
            overlay: None,
        };
        match loss_of(health) {
            Some(next) => after.entered(next),
            None => after,
        }
    }

    /// One tick in whatever state the session is in: play in `Game`; on an
    /// end screen, back to the menu if a key was pressed; else nothing.
    pub open spec fn ticked(self, input: TickInput, candidates: Seq<Point>) -> SessionView {
        if self.state == GameState::Game {
            self.played(input, candidates)
        } else {
            match restart_of(self.state, input.any_key) {
                Some(next) => self.entered(next),
                None => self,
            }
        }
    }

    /// The enemies that a tick removes: none outside play.
    pub open spec fn tick_despawns(self, input: TickInput) -> Seq<usize> {
        if self.state == GameState::Game {
            self.despawns(input)
        } else {
            Seq::empty()
        }
    }

    /// The places where a tick creates enemies: none outside play.
    pub open spec fn tick_spawns(self, input: TickInput, candidates: Seq<Point>) -> Seq<Point> {
        if self.state == GameState::Game {
            self.spawns(input, candidates)
        } else {
            Seq::empty()
        }
    }
}

/// Entering a state keeps a session valid.
pub proof fn lemma_entered_stays_valid(s: SessionView, next: GameState)
    requires
        s.valid(),
    ensures
        s.entered(next).valid(),
{
}

/// A tick keeps a session valid: in particular the player, while there is
/// one, is inside the bounds and has health left at the end of every tick.
pub proof fn lemma_ticked_stays_valid(s: SessionView, input: TickInput, candidates: Seq<Point>)
    requires
        s.valid(),
    ensures
        s.ticked(input, candidates).valid(),
{
}

/// The contacts of one tick are settled in that tick. Where `n` enemies
/// touch the player, its health drops by `n * ENEMY_DAMAGE` in one step
/// (exactly, as long as the result fits `i64`), all `n` leave the list, and
/// no enemy that is left touches the player.
pub proof fn lemma_contacts_settled(s: SessionView, input: TickInput, candidates: Seq<Point>)
    requires
        s.valid(),
        s.state == GameState::Game,
    ensures
        s.player.unwrap().health.hit_points - s.hits(input) * ENEMY_DAMAGE >= i64::MIN
            ==> s.health_after(input).hit_points == s.player.unwrap().health.hit_points - s.hits(input)
            * ENEMY_DAMAGE,
        s.enemies_after(input, candidates).len() == s.enemies.len() - s.hits(input) + s.spawns(
            input,
            candidates,
        ).len(),
        forall|k: int|
            0 <= k < s.enemies_after(input, candidates).len() ==> !in_contact(
                (#[trigger] s.enemies_after(input, candidates)[k]).position,
                s.position_after(input),
            ),
{
    let position = s.position_after(input);
    let homed = s.homed_enemies(input);
    let left = homed.filter(clear_of(position));
    let spawns = s.spawns(input, candidates);
    let after = s.enemies_after(input, candidates);
    lemma_contacts_split(homed, position);
    lemma_wave_spawns(s.wave_timer, input.elapsed, position, candidates);
    assert forall|k: int| 0 <= k < after.len() implies !in_contact((#[trigger] after[k]).position, position) by {
        if k < left.len() {
            homed.lemma_filter_pred(clear_of(position), k);
        } else {
            let place = spawns[k - left.len()];
            assert(after[k] == Enemy::spawned_at(place));
            assert(spawn_accepted(position, place));
            lemma_accepted_is_clear(position, place);
        }
    }
}

/// Enemies stay in the arena: if all of them are in it, the candidates of
/// the wave are, and the tick is no longer than `HOMING_MAX_NANOS`, then
/// all are in it at the end of the tick.
pub proof fn lemma_enemies_stay_in_arena(s: SessionView, input: TickInput, candidates: Seq<Point>)
    requires
        s.valid(),
        s.state == GameState::Game,
        forall|i: int| 0 <= i < s.enemies.len() ==> (#[trigger] s.enemies[i]).position.in_arena(),
        forall|i: int| 0 <= i < candidates.len() ==> (#[trigger] candidates[i]).in_arena(),
        input.elapsed <= HOMING_MAX_NANOS,
    ensures
        forall|k: int|
            0 <= k < s.enemies_after(input, candidates).len() ==> (#[trigger] s.enemies_after(
                input,
                candidates,
            )[k]).position.in_arena(),
{
    let position = s.position_after(input);
    let homed = s.homed_enemies(input);
    let left = homed.filter(clear_of(position));
    let spawns = s.spawns(input, candidates);
    let after = s.enemies_after(input, candidates);
    lemma_wave_spawns(s.wave_timer, input.elapsed, position, candidates);
    assert forall|k: int| 0 <= k < after.len() implies (#[trigger] after[k]).position.in_arena() by {
        if k < left.len() {
            assert(left.contains(left[k]));
            homed.lemma_filter_contains_rev(clear_of(position), left[k]);
            let j = choose|j: int| 0 <= j < homed.len() && homed[j] == left[k];
            lemma_homing_stays_in_arena(s.enemies[j].position, position, input.elapsed);
        } else {
            let place = spawns[k - left.len()];
            assert(after[k] == Enemy::spawned_at(place));
            assert(candidates.contains(place));
        }
    }
}

/// A place that a wave accepts is out of the player's reach.
proof fn lemma_accepted_is_clear(player: Point, place: Point)
    requires
        spawn_accepted(player, place),
    ensures
        !in_contact(place, player),
{
    assert(PLAYER_SIZE * PLAYER_SIZE <= ENEMY_MIN_SPAWN_DISTANCE * ENEMY_MIN_SPAWN_DISTANCE) by (nonlinear_arith)
        requires
            PLAYER_SIZE == 20_000,
            ENEMY_MIN_SPAWN_DISTANCE == 100_000,
    ;
}

/// A tick of play that leaves the player without health ends in the state
/// `GameLost`, with the end screen for a lost game up and no player; any
/// other tick of play ends in `Game`, with no end screen.
pub proof fn lemma_loss_ends_play(s: SessionView, input: TickInput, candidates: Seq<Point>)
    requires
        s.valid(),
        s.state == GameState::Game,
    ensures
        ({
            let after = s.ticked(input, candidates);
            if s.health_after(input).depleted() {
                &&& after.state == GameState::GameLost
                &&& after.overlay == Some(EndScreen::Lost)
                &&& after.player is None
            } else {
                &&& after.state == GameState::Game
                &&& after.overlay is None
                &&& after.player == Some(
                    Player { position: s.position_after(input), health: s.health_after(input) },
                )
            }
        }),
{
}

/// On an end screen, a tick with a key pressed takes the end screen down
/// and leads to the menu, and a tick without one changes nothing.
pub proof fn lemma_key_dismisses_end_screen(s: SessionView, input: TickInput, candidates: Seq<Point>)
    requires
        s.valid(),
        s.state.is_end(),
    ensures
        ({
            let after = s.ticked(input, candidates);
            if input.any_key {
                &&& after.state == GameState::Menu
                &&& after.overlay is None
                &&& after.player is None
                &&& after.enemies == s.enemies
                &&& after.wave_timer == s.wave_timer
            } else {
                after == s
            }
        }),
{
}

/// Outside play and off the end screens, a tick changes nothing, keys or
/// no keys: once an end screen is dismissed, it is not dismissed again.
pub proof fn lemma_idle_tick_changes_nothing(s: SessionView, input: TickInput, candidates: Seq<Point>)
    requires
        s.state != GameState::Game,
        !s.state.is_end(),
    ensures
        s.ticked(input, candidates) == s,
        s.tick_despawns(input).len() == 0,
        s.tick_spawns(input, candidates).len() == 0,
{
}

impl View for Session {
    type V = SessionView;

    closed spec fn view(&self) -> SessionView {
        SessionView {
            state: self.state,
            player: self.player,
            enemies: self.enemies@,
            wave_timer: self.wave_timer,
            overlay: self.overlay,
        }
    }
}

impl Session {
    /// A session on the splash screen: no player, no enemies, the wave
    /// timer at the start of its period.
    pub fn new() -> (s: Session)
        ensures
            s@.valid(),
            s@.state == GameState::Splash,
            s@.player is None,
            s@.enemies.len() == 0,
            s@.wave_timer == (WaveTimer {
                period: (ENEMY_SPAWN_INTERVAL_SECONDS * NANOS_PER_SECOND) as u64,
                elapsed: 0,
                finished: false,
            }),
            s@.overlay is None,
    {
        Session {
            state: GameState::Splash,
            player: None,
            enemies: Vec::new(),
            wave_timer: WaveTimer::new(ENEMY_SPAWN_INTERVAL_SECONDS as u64 * NANOS_PER_SECOND),
            overlay: None,
        }
    }

    /// Whether the session is as every session should be. Every session
    /// that this library hands out is, and stays so under every function of
    /// the library.
    pub fn is_valid(&self) -> (valid: bool)
        ensures
            valid == self@.valid(),
    {
        let timer_ok: bool = 0 < self.wave_timer.period && self.wave_timer.elapsed < self.wave_timer.period;
        let player_ok: bool = match self.player {
            Some(p) => self.state == GameState::Game && PLAYER_MIN_X <= p.position.x && p.position.x
                <= PLAYER_MAX_X && PLAYER_MIN_Y <= p.position.y && p.position.y <= PLAYER_MAX_Y
                && !p.health.is_depleted(),
            None => self.state != GameState::Game,
        };
        timer_ok && player_ok && self.overlay == end_game(self.state)
    }

    /// The state of the game.
    pub fn state(&self) -> (state: GameState)
        ensures
            state == self@.state,
    {
        self.state
    }

    /// The player, while there is one.
    pub fn player(&self) -> (player: Option<Player>)
        ensures
            player == self@.player,
    {
        self.player
    }

    /// The enemies, oldest first.
    pub fn enemies(&self) -> (enemies: &Vec<Enemy>)
        ensures
            enemies@ == self@.enemies,
    {
        &self.enemies
    }

    /// The timer that paces the waves.
    pub fn wave_timer(&self) -> (timer: WaveTimer)
        ensures
            timer == self@.wave_timer,
    {
        self.wave_timer
    }

    /// The end screen, while one is up.
    pub fn overlay(&self) -> (overlay: Option<EndScreen>)
        ensures
            overlay == self@.overlay,
    {
        self.overlay
    }

    /// Changes the state, for a cause outside the session (the splash
    /// screen is over, a game is chosen in the menu, the game is paused)
    /// or inside it.
    pub fn enter(&mut self, next: GameState)
        ensures
            final(self)@ == old(self)@.entered(next),
            old(self)@.valid() ==> final(self)@.valid(),
    {
        if next != self.state {
            self.state = next;
            self.player = if next == GameState::Game {
                Some(spawn_player())
            } else {
                None
            };
            self.overlay = end_game(next);
        }
    }

    /// Runs one tick with the given candidates for its wave. The result
    /// lists the enemies that the tick has removed and the places where it
    /// has created new ones.
    pub fn tick_with(&mut self, input: &TickInput, candidates: &Vec<Point>) -> (changes: PendingChanges)
        requires
            old(self)@.valid(),
        ensures
            final(self)@ == old(self)@.ticked(*input, candidates@),
            final(self)@.valid(),
            changes.despawns@ == old(self)@.tick_despawns(*input),
            changes.spawns@ == old(self)@.tick_spawns(*input, candidates@),
            changes.wf(),
    {
        if self.state == GameState::Game {
            let mut player: Player = self.player.unwrap();
            move_player(&mut player, &input.movement, input.elapsed);
            move_enemy(&mut self.enemies, &player.position, input.elapsed);
            let spawns: Vec<Point> = spawn_enemy(&mut self.wave_timer, input.elapsed, &player.position, candidates);
            let despawns: Vec<usize> = enemy_damage_player(&self.enemies, &mut player);
            let changes = PendingChanges { despawns, spawns };
            apply_pending(&mut self.enemies, &changes);
            self.player = Some(player);
            if let Some(next) = check_player_loss(&player.health) {
                self.enter(next);
            }
            changes
        } else {
            if let Some(next) = listen_for_restart(self.state, input.any_key) {
                self.enter(next);
            }
            PendingChanges::new()
        }
    }

    /// Runs one tick. When the tick is one of play and runs the wave timer
    /// out, the candidates of the wave are drawn at random.
    pub fn tick(&mut self, input: &TickInput) -> (changes: PendingChanges)
        requires
            old(self)@.valid(),
        ensures
            final(self)@.valid(),
            changes.wf(),
            changes.despawns@ == old(self)@.tick_despawns(*input),
            exists|candidates: Seq<Point>|
                {
                    &&& is_wave(candidates)
                    &&& final(self)@ == #[trigger] old(self)@.ticked(*input, candidates)
                    &&& changes.spawns@ == old(self)@.tick_spawns(*input, candidates)
                },
    {
        if self.state == GameState::Game && self.wave_timer.will_fire(input.elapsed) {
            let candidates: Vec<Point> = draw_spawn_candidates();
            self.tick_with(input, &candidates)
        } else {
            let ghost unused: Seq<Point> = Seq::new(ENEMY_SPAWN_PER_INTERVAL as nat, |i: int| Point { x: 0, y: 0 });
            let candidates: Vec<Point> = Vec::new();
            proof {
                assert(is_wave(unused));
                assert(old(self)@.ticked(*input, unused) == old(self)@.ticked(*input, candidates@));
                assert(old(self)@.tick_spawns(*input, unused) == old(self)@.tick_spawns(*input, candidates@));
            }
            self.tick_with(input, &candidates)
        }
    }
}

} // verus!
