use survival_arena::arena::{Point, BOTTOM_WALL, LEFT_WALL, RIGHT_WALL, TOP_WALL};
use survival_arena::enemy::Enemy;
use survival_arena::game::{end_game, listen_for_restart, EndScreen, Rgb, Session, TickInput};
use survival_arena::player::{spawn_player, MoveInput};
use survival_arena::state::GameState;
use survival_arena::timer::WaveTimer;

const SECOND: u64 = 1_000_000_000;

const ALL_STATES: [GameState; 6] = [
    GameState::Splash,
    GameState::Menu,
    GameState::Game,
    GameState::Pause,
    GameState::GameLost,
    GameState::GameWon,
];

fn no_keys() -> MoveInput {
    MoveInput { left: false, right: false, down: false, up: false }
}

fn idle(elapsed: u64) -> TickInput {
    TickInput { movement: no_keys(), any_key: false, elapsed }
}

fn key(elapsed: u64) -> TickInput {
    TickInput { movement: no_keys(), any_key: true, elapsed }
}

fn playing() -> Session {
    let mut s = Session::new();
    s.enter(GameState::Menu);
    s.enter(GameState::Game);
    s
}

/// A session in which `n` enemies have just come into contact with the
/// player, who has not moved from the start. The tick that brings them
/// into contact has not run yet.
fn session_with_enemies_about_to_touch(n: usize) -> Session {
    let mut s = playing();
    let wave = vec![Point::new(-50_000, 0); n];
    let changes = s.tick_with(&idle(SECOND), &wave);
    assert_eq!(changes.spawns.len(), n);
    s.tick_with(&idle(SECOND), &Vec::new());
    s.tick_with(&idle(SECOND), &Vec::new());
    assert_eq!(s.enemies(), &vec![Enemy::spawn(Point::new(-162_500, 0)); n]);
    s
}

#[test]
fn the_game_starts_on_the_splash_screen() {
    assert_eq!(GameState::default(), GameState::Splash);
    let s = Session::new();
    assert_eq!(s.state(), GameState::Splash);
    assert_eq!(s.player(), None);
    assert!(s.enemies().is_empty());
    assert_eq!(s.overlay(), None);
    assert_eq!(s.wave_timer(), WaveTimer { period: SECOND, elapsed: 0, finished: false });
}

#[test]
fn only_the_two_end_states_are_end_screens() {
    for state in ALL_STATES {
        let expected = state == GameState::GameLost || state == GameState::GameWon;
        assert_eq!(state.is_end_screen(), expected);
    }
}

#[test]
fn end_screens_say_how_the_game_ended() {
    assert_eq!(end_game(GameState::GameWon), Some(EndScreen::Won));
    assert_eq!(end_game(GameState::GameLost), Some(EndScreen::Lost));
    for state in [GameState::Splash, GameState::Menu, GameState::Game, GameState::Pause] {
        assert_eq!(end_game(state), None);
    }
    assert_eq!(EndScreen::Won.text(), "You win! \nPress any key to return to the menu.");
    assert_eq!(EndScreen::Lost.text(), "Game Over! You lost.\nPress any key to return to the menu.");
    assert_eq!(EndScreen::Won.box_color(), Rgb { red: 2, green: 97, blue: 27 });
    assert_eq!(EndScreen::Lost.box_color(), Rgb { red: 61, green: 7, blue: 7 });
}

#[test]
fn a_key_on_an_end_screen_asks_for_the_menu() {
    for state in ALL_STATES {
        assert_eq!(listen_for_restart(state, false), None);
        let expected = if state.is_end_screen() { Some(GameState::Menu) } else { None };
        assert_eq!(listen_for_restart(state, true), expected);
    }
}

#[test]
fn entering_the_game_creates_the_player() {
    let mut s = Session::new();
    s.enter(GameState::Menu);
    assert_eq!(s.state(), GameState::Menu);
    assert_eq!(s.player(), None);
    s.enter(GameState::Game);
    assert_eq!(s.state(), GameState::Game);
    assert_eq!(s.player(), Some(spawn_player()));
    assert_eq!(s.overlay(), None);
}

#[test]
fn leaving_the_game_removes_the_player() {
    for next in [GameState::Splash, GameState::Menu, GameState::Pause, GameState::GameLost, GameState::GameWon] {
        let mut s = playing();
        s.enter(next);
        assert_eq!(s.state(), next);
        assert_eq!(s.player(), None);
        assert_eq!(s.overlay(), end_game(next));
    }
}

#[test]
fn entering_the_state_one_is_in_changes_nothing() {
    let mut s = playing();
    let input = TickInput { movement: MoveInput { left: false, right: true, down: false, up: false }, any_key: false, elapsed: SECOND / 10 };
    s.tick_with(&input, &vec![Point::new(300_000, 0)]);
    let player = s.player();
    s.enter(GameState::Game);
    assert_eq!(s.player(), player);
    assert_eq!(s.player().unwrap().position, Point::new(-150_000, 0));
}

#[test]
fn end_screen_is_up_exactly_in_the_end_states() {
    let mut s = Session::new();
    for next in [
        GameState::Menu,
        GameState::GameWon,
        GameState::GameLost,
        GameState::GameLost,
        GameState::Game,
        GameState::GameWon,
        GameState::Pause,
        GameState::Splash,
    ] {
        s.enter(next);
        assert_eq!(s.overlay(), end_game(next));
        assert_eq!(s.player().is_some(), next == GameState::Game);
    }
}

#[test]
fn ticks_outside_play_change_nothing() {
    for state in [GameState::Splash, GameState::Menu, GameState::Pause] {
        let mut s = Session::new();
        s.enter(state);
        for input in [idle(SECOND), key(SECOND), key(0), idle(u64::MAX)] {
            let changes = s.tick_with(&input, &vec![Point::new(300_000, 0)]);
            assert!(changes.despawns.is_empty() && changes.spawns.is_empty());
            let changes = s.tick(&input);
            assert!(changes.despawns.is_empty() && changes.spawns.is_empty());
            assert_eq!(s.state(), state);
            assert_eq!(s.player(), None);
            assert!(s.enemies().is_empty());
            assert_eq!(s.overlay(), None);
            assert_eq!(s.wave_timer(), WaveTimer { period: SECOND, elapsed: 0, finished: false });
        }
    }
}

#[test]
fn a_tick_of_play_moves_the_player_and_runs_the_timer() {
    let mut s = playing();
    let input = TickInput {
        movement: MoveInput { left: true, right: false, down: false, up: true },
        any_key: true,
        elapsed: SECOND / 4,
    };
    let changes = s.tick_with(&input, &vec![Point::new(300_000, 0)]);
    assert!(changes.despawns.is_empty() && changes.spawns.is_empty());
    assert_eq!(s.state(), GameState::Game);
    let player = s.player().unwrap();
    assert_eq!(player.position, Point::new(-325_000, 125_000));
    assert_eq!(player.health.hit_points, 100);
    assert_eq!(s.wave_timer(), WaveTimer { period: SECOND, elapsed: SECOND / 4, finished: false });
    assert!(s.enemies().is_empty());
}

#[test]
fn a_wave_spawns_exactly_the_accepted_candidates() {
    let mut s = playing();
    let wave = vec![
        Point::new(-100_000, 0),
        Point::new(0, 0),
        Point::new(-200_000, 99_999),
        Point::new(-200_000, -100_001),
        Point::new(-300_000, 0),
        Point::new(449_999, -300_000),
    ];
    let changes = s.tick_with(&idle(SECOND), &wave);
    let accepted = vec![Point::new(0, 0), Point::new(-200_000, -100_001), Point::new(449_999, -300_000)];
    assert_eq!(changes.spawns, accepted);
    assert!(changes.despawns.is_empty());
    assert_eq!(
        s.enemies(),
        &vec![
            Enemy::spawn(Point::new(0, 0)),
            Enemy::spawn(Point::new(-200_000, -100_001)),
            Enemy::spawn(Point::new(449_999, -300_000)),
        ]
    );
}

#[test]
fn the_minimum_distance_is_taken_from_where_the_player_has_moved_to() {
    let mut s = playing();
    let input = TickInput {
        movement: MoveInput { left: false, right: true, down: false, up: false },
        any_key: false,
        elapsed: SECOND,
    };
    let wave = vec![Point::new(300_000, 0), Point::new(-200_000, 0), Point::new(400_000, 0), Point::new(300_000, 100_001)];
    let changes = s.tick_with(&input, &wave);
    assert_eq!(s.player().unwrap().position, Point::new(300_000, 0));
    assert_eq!(changes.spawns, vec![Point::new(-200_000, 0), Point::new(300_000, 100_001)]);
}

#[test]
fn enemies_home_in_on_the_player_tick_by_tick() {
    let mut s = playing();
    s.tick_with(&idle(SECOND), &vec![Point::new(200_000, 100_000)]);
    assert_eq!(s.enemies(), &vec![Enemy::spawn(Point::new(200_000, 100_000))]);
    s.tick_with(&idle(SECOND), &Vec::new());
    assert_eq!(s.enemies(), &vec![Enemy::spawn(Point::new(0, 50_000))]);
    s.tick_with(&idle(SECOND / 2), &Vec::new());
    assert_eq!(s.enemies(), &vec![Enemy::spawn(Point::new(-50_000, 37_500))]);
}

#[test]
fn contacts_are_charged_and_removed_in_the_same_tick() {
    let mut s = session_with_enemies_about_to_touch(3);
    let changes = s.tick_with(&idle(SECOND), &vec![Point::new(300_000, 0)]);
    assert_eq!(changes.despawns, vec![0, 1, 2]);
    assert_eq!(changes.spawns, vec![Point::new(300_000, 0)]);
    assert_eq!(s.state(), GameState::Game);
    assert_eq!(s.player().unwrap().health.hit_points, 70);
    assert_eq!(s.enemies(), &vec![Enemy::spawn(Point::new(300_000, 0))]);
    assert_eq!(s.overlay(), None);
}

#[test]
fn enemies_out_of_reach_stay_and_keep_their_order() {
    let mut s = playing();
    let wave = vec![Point::new(300_000, 0), Point::new(-50_000, 0), Point::new(0, 250_000), Point::new(-350_000, 0)];
    s.tick_with(&idle(SECOND), &wave);
    s.tick_with(&idle(SECOND), &Vec::new());
    s.tick_with(&idle(SECOND), &Vec::new());
    let changes = s.tick_with(&idle(SECOND), &Vec::new());
    assert_eq!(changes.despawns, vec![1, 3]);
    assert_eq!(
        s.enemies(),
        &vec![Enemy::spawn(Point::new(-137_500, 0)), Enemy::spawn(Point::new(-175_000, 31_250))]
    );
    assert_eq!(s.player().unwrap().health.hit_points, 80);
}

#[test]
fn losing_the_last_health_ends_the_game() {
    let mut s = session_with_enemies_about_to_touch(10);
    let changes = s.tick_with(&idle(SECOND), &Vec::new());
    assert_eq!(changes.despawns, (0..10).collect::<Vec<usize>>());
    assert_eq!(s.state(), GameState::GameLost);
    assert_eq!(s.overlay(), Some(EndScreen::Lost));
    assert_eq!(s.player(), None);
    assert!(s.enemies().is_empty());
}

#[test]
fn one_health_point_left_is_not_a_loss() {
    let mut s = session_with_enemies_about_to_touch(9);
    s.tick_with(&idle(SECOND), &Vec::new());
    assert_eq!(s.state(), GameState::Game);
    assert_eq!(s.player().unwrap().health.hit_points, 10);
    assert_eq!(s.overlay(), None);
}

#[test]
fn damage_beyond_the_health_left_is_a_loss_too() {
    let mut s = session_with_enemies_about_to_touch(13);
    s.tick_with(&idle(SECOND), &Vec::new());
    assert_eq!(s.state(), GameState::GameLost);
    assert_eq!(s.overlay(), Some(EndScreen::Lost));
}

#[test]
fn an_idle_tick_leaves_the_end_screen_up() {
    let mut s = session_with_enemies_about_to_touch(10);
    s.tick_with(&idle(SECOND), &Vec::new());
    let timer = s.wave_timer();
    for _ in 0..3 {
        let changes = s.tick_with(&idle(SECOND), &vec![Point::new(300_000, 0)]);
        assert!(changes.despawns.is_empty() && changes.spawns.is_empty());
        assert_eq!(s.state(), GameState::GameLost);
        assert_eq!(s.overlay(), Some(EndScreen::Lost));
        assert_eq!(s.wave_timer(), timer);
    }
}

#[test]
fn any_key_dismisses_the_end_screen_once() {
    for end in [GameState::GameLost, GameState::GameWon] {
        let mut s = playing();
        s.tick_with(&idle(SECOND), &vec![Point::new(300_000, 0)]);
        s.enter(end);
        assert_eq!(s.overlay(), end_game(end));
        let changes = s.tick(&key(SECOND));
        assert!(changes.despawns.is_empty() && changes.spawns.is_empty());
        assert_eq!(s.state(), GameState::Menu);
        assert_eq!(s.overlay(), None);
        assert_eq!(s.player(), None);
        assert_eq!(s.enemies(), &vec![Enemy::spawn(Point::new(300_000, 0))]);
        for input in [idle(SECOND), key(SECOND), idle(0)] {
            s.tick(&input);
            assert_eq!(s.state(), GameState::Menu);
            assert_eq!(s.overlay(), None);
        }
    }
}

#[test]
fn a_new_game_starts_with_a_fresh_player() {
    let mut s = session_with_enemies_about_to_touch(10);
    s.tick_with(&idle(SECOND), &vec![Point::new(300_000, 0)]);
    assert_eq!(s.state(), GameState::GameLost);
    s.tick_with(&key(SECOND), &Vec::new());
    s.enter(GameState::Game);
    assert_eq!(s.player(), Some(spawn_player()));
    assert_eq!(s.enemies(), &vec![Enemy::spawn(Point::new(300_000, 0))]);
}

#[test]
fn a_random_wave_keeps_its_distance_and_stays_in_the_arena() {
    for _ in 0..20 {
        let mut s = playing();
        let changes = s.tick(&idle(SECOND));
        assert!(changes.despawns.is_empty());
        assert!(changes.spawns.len() <= 25);
        assert_eq!(s.enemies().len(), changes.spawns.len());
        let player = s.player().unwrap().position;
        assert_eq!(player, Point::new(-200_000, 0));
        for (enemy, place) in s.enemies().iter().zip(changes.spawns.iter()) {
            assert_eq!(*enemy, Enemy::spawn(*place));
            assert!(place.is_beyond(&player, 100_000));
            assert!(LEFT_WALL <= place.x && place.x < RIGHT_WALL);
            assert!(BOTTOM_WALL <= place.y && place.y < TOP_WALL);
        }
    }
}

#[test]
fn random_waves_do_spawn_enemies() {
    let mut s = playing();
    let mut spawned = 0;
    for _ in 0..4 {
        spawned += s.tick(&idle(SECOND)).spawns.len();
    }
    assert!(spawned > 0);
    assert!(s.enemies().len() <= spawned);
}

#[test]
fn no_random_wave_before_the_timer_runs_out() {
    let mut s = playing();
    for _ in 0..63 {
        let changes = s.tick(&idle(15_625_000));
        assert!(changes.spawns.is_empty());
    }
    assert!(s.enemies().is_empty());
    assert_eq!(s.wave_timer().elapsed, 63 * 15_625_000);
    s.tick(&idle(15_625_000));
    assert!(s.wave_timer().finished);
    assert_eq!(s.wave_timer().elapsed, 0);
}

#[test]
fn a_session_stays_valid_through_a_whole_game() {
    let mut s = Session::new();
    assert!(s.is_valid());
    for next in [GameState::Menu, GameState::Pause, GameState::GameWon, GameState::Game] {
        s.enter(next);
        assert!(s.is_valid());
    }
    let right = TickInput {
        movement: MoveInput { left: false, right: true, down: true, up: false },
        any_key: true,
        elapsed: 250_000_000,
    };
    while s.state() == GameState::Game {
        s.tick(&right);
        assert!(s.is_valid());
        if let Some(player) = s.player() {
            assert!(player.health.hit_points > 0);
            assert!(-440_000 <= player.position.x && player.position.x <= 440_000);
            assert!(-290_000 <= player.position.y && player.position.y <= 290_000);
        }
    }
    assert_eq!(s.state(), GameState::GameLost);
    assert_eq!(s.overlay(), Some(EndScreen::Lost));
    s.tick(&right);
    assert!(s.is_valid());
    assert_eq!(s.state(), GameState::Menu);
}
