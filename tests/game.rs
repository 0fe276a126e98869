use chess_clock::button::{ButtonEvent, Color};
use chess_clock::game::{Game, GameStatus};
use chess_clock::player::{DEFAULT_TURN_MILLIS, MAX_TURN_MILLIS};

const ALL_EVENTS: [ButtonEvent; 6] = [
    ButtonEvent::Pressed(Color::Red),
    ButtonEvent::Held(Color::Red),
    ButtonEvent::Pressed(Color::Yellow),
    ButtonEvent::Held(Color::Yellow),
    ButtonEvent::Pressed(Color::Blue),
    ButtonEvent::Held(Color::Blue),
];

fn snapshot(g: &Game) -> (GameStatus, i64, bool, Option<u64>, i64, bool, Option<u64>) {
    (
        g.phase,
        g.red_player.millis_left,
        g.red_player.is_active,
        g.red_player.time_activated,
        g.blue_player.millis_left,
        g.blue_player.is_active,
        g.blue_player.time_activated,
    )
}

fn paused_game() -> Game {
    let mut g = Game::new();
    g.handle_event(ButtonEvent::Pressed(Color::Yellow), 0);
    g
}

fn active_game_blue_running() -> Game {
    let mut g = paused_game();
    g.handle_event(ButtonEvent::Pressed(Color::Red), 1000);
    g
}

fn one_running(g: &Game) -> bool {
    match g.phase {
        GameStatus::Active => g.red_player.is_active != g.blue_player.is_active,
        _ => !g.red_player.is_active && !g.blue_player.is_active,
    }
}

#[test]
fn end_to_end_scenario() {
    let mut g = Game::new();
    assert_eq!(g.phase, GameStatus::PreGame);
    assert_eq!(g.red_player.formatted_time(0), "10:00");
    assert_eq!(g.blue_player.formatted_time(0), "10:00");

    g.handle_event(ButtonEvent::Held(Color::Red), 0);
    assert_eq!(g.red_player.formatted_time(0), "05:00");

    g.handle_event(ButtonEvent::Pressed(Color::Yellow), 0);
    assert_eq!(g.phase, GameStatus::Paused);
    assert!(g.yellow_led_on());

    g.handle_event(ButtonEvent::Pressed(Color::Red), 10000);
    assert_eq!(g.phase, GameStatus::Active);
    assert!(g.blue_player.is_active);
    assert!(!g.red_player.is_active);
    assert!(!g.yellow_led_on());

    g.handle_event(ButtonEvent::Pressed(Color::Blue), 13000);
    assert_eq!(g.blue_player.formatted_time(13000), "09:57");
    assert_eq!(g.blue_player.millis_left, DEFAULT_TURN_MILLIS - 3000);
    assert!(!g.blue_player.is_active);
    assert!(g.red_player.is_active);
    assert_eq!(g.red_player.formatted_time(13000), "05:00");
    assert_eq!(g.display_string(13000), "05:00      09:57");

    g.handle_event(ButtonEvent::Held(Color::Yellow), 14000);
    assert_eq!(g.phase, GameStatus::PreGame);
    assert_eq!(g.red_player.millis_left, DEFAULT_TURN_MILLIS);
    assert_eq!(g.blue_player.millis_left, DEFAULT_TURN_MILLIS);
    assert!(!g.red_player.is_active && !g.blue_player.is_active);
    assert_eq!(g.display_string(20000), "10:00      10:00");
}

#[test]
fn pregame_cells() {
    let mut g = Game::new();
    g.handle_event(ButtonEvent::Pressed(Color::Red), 0);
    assert_eq!(g.red_player.millis_left, DEFAULT_TURN_MILLIS - 60000);
    g.handle_event(ButtonEvent::Held(Color::Blue), 0);
    assert_eq!(g.blue_player.millis_left, DEFAULT_TURN_MILLIS - 300000);
    g.handle_event(ButtonEvent::Pressed(Color::Blue), 0);
    assert_eq!(g.blue_player.millis_left, DEFAULT_TURN_MILLIS - 360000);
    g.handle_event(ButtonEvent::Held(Color::Red), 0);
    assert_eq!(g.red_player.millis_left, DEFAULT_TURN_MILLIS - 360000);
    assert_eq!(g.phase, GameStatus::PreGame);

    let before = snapshot(&g);
    g.handle_event(ButtonEvent::Held(Color::Yellow), 0);
    assert_eq!(snapshot(&g), before);

    g.handle_event(ButtonEvent::Pressed(Color::Yellow), 0);
    assert_eq!(g.phase, GameStatus::Paused);
    assert_eq!(g.red_player.millis_left, DEFAULT_TURN_MILLIS - 360000);
}

#[test]
fn pregame_decrement_wraps() {
    let mut g = Game::new();
    g.handle_event(ButtonEvent::Held(Color::Red), 0);
    g.handle_event(ButtonEvent::Held(Color::Red), 0);
    assert_eq!(g.red_player.millis_left, 999);
    g.handle_event(ButtonEvent::Pressed(Color::Red), 0);
    assert_eq!(g.red_player.millis_left, MAX_TURN_MILLIS);
}

#[test]
fn paused_cells() {
    let mut g = paused_game();
    g.handle_event(ButtonEvent::Pressed(Color::Red), 500);
    assert_eq!(g.phase, GameStatus::Active);
    assert!(g.blue_player.is_active);
    assert_eq!(g.blue_player.time_activated, Some(500));

    let mut g = paused_game();
    g.handle_event(ButtonEvent::Pressed(Color::Blue), 700);
    assert_eq!(g.phase, GameStatus::Active);
    assert!(g.red_player.is_active);
    assert_eq!(g.red_player.time_activated, Some(700));

    for ev in [
        ButtonEvent::Held(Color::Red),
        ButtonEvent::Held(Color::Blue),
        ButtonEvent::Pressed(Color::Yellow),
    ] {
        let mut g = paused_game();
        let before = snapshot(&g);
        g.handle_event(ev, 900);
        assert_eq!(snapshot(&g), before);
    }

    let mut g = paused_game();
    g.handle_event(ButtonEvent::Held(Color::Yellow), 900);
    assert_eq!(g.phase, GameStatus::PreGame);
    assert!(!g.yellow_led_on());
}

#[test]
fn active_cells() {
    let mut g = active_game_blue_running();
    g.handle_event(ButtonEvent::Pressed(Color::Blue), 3000);
    assert!(g.red_player.is_active);
    assert!(!g.blue_player.is_active);
    assert_eq!(g.blue_player.millis_left, DEFAULT_TURN_MILLIS - 2000);
    g.handle_event(ButtonEvent::Pressed(Color::Red), 4500);
    assert!(g.blue_player.is_active);
    assert_eq!(g.red_player.millis_left, DEFAULT_TURN_MILLIS - 1500);
    assert_eq!(g.phase, GameStatus::Active);

    // pressing the button of the player whose clock is stopped changes nothing
    let mut g = active_game_blue_running();
    let before = snapshot(&g);
    g.handle_event(ButtonEvent::Pressed(Color::Red), 2000);
    assert_eq!(snapshot(&g), before);

    for ev in [ButtonEvent::Held(Color::Red), ButtonEvent::Held(Color::Blue)] {
        let mut g = active_game_blue_running();
        let before = snapshot(&g);
        g.handle_event(ev, 2000);
        assert_eq!(snapshot(&g), before);
    }

    let mut g = active_game_blue_running();
    g.handle_event(ButtonEvent::Pressed(Color::Yellow), 6000);
    assert_eq!(g.phase, GameStatus::Paused);
    assert!(!g.red_player.is_active && !g.blue_player.is_active);
    assert_eq!(g.blue_player.millis_left, DEFAULT_TURN_MILLIS - 5000);
    assert!(g.yellow_led_on());

    let mut g = active_game_blue_running();
    g.handle_event(ButtonEvent::Held(Color::Yellow), 6000);
    assert_eq!(g.phase, GameStatus::PreGame);
    assert_eq!(g.blue_player.millis_left, DEFAULT_TURN_MILLIS);
}

#[test]
fn resume_after_pause_continues_charging() {
    let mut g = active_game_blue_running();
    g.handle_event(ButtonEvent::Pressed(Color::Yellow), 3000);
    assert_eq!(g.blue_player.millis_left, DEFAULT_TURN_MILLIS - 2000);
    g.handle_event(ButtonEvent::Pressed(Color::Red), 50000);
    assert!(g.blue_player.is_active);
    g.handle_event(ButtonEvent::Pressed(Color::Blue), 51000);
    assert_eq!(g.blue_player.millis_left, DEFAULT_TURN_MILLIS - 3000);
    assert!(g.red_player.is_active);
}

#[test]
fn reset_and_ticks() {
    let mut g = active_game_blue_running();
    assert!(g.needs_tick());
    g.blue_player.end_turn(2000);
    g.reset();
    assert_eq!(g.phase, GameStatus::PreGame);
    assert!(!g.needs_tick());
    assert_eq!(g.red_player.millis_left, DEFAULT_TURN_MILLIS);
}

#[test]
fn every_event_sequence_keeps_one_clock_running() {
    let mut g = Game::new();
    let mut now: u64 = 0;
    let mut seed: u32 = 12345;
    for _ in 0..2000 {
        seed = seed.wrapping_mul(1103515245).wrapping_add(12345);
        let ev = ALL_EVENTS[((seed >> 16) % 6) as usize];
        now += ((seed >> 8) % 2000) as u64;
        g.handle_event(ev, now);
        assert!(one_running(&g));
        assert!(g.red_player.millis_left <= MAX_TURN_MILLIS);
        assert!(g.blue_player.millis_left <= MAX_TURN_MILLIS);
        assert_eq!(g.yellow_led_on(), g.phase == GameStatus::Paused);
    }
}

#[test]
fn game_settles_when_both_clocks_do() {
    let g = active_game_blue_running();
    assert!(g.settles_at(1000));
    assert!(!g.settles_at(999));
    assert!(Game::new().settles_at(0));
}
