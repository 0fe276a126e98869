//! The game controller: phase state machine over two player clocks.
use vstd::prelude::*;
use crate::button::{ButtonEvent, Color};
use crate::display::{status_line, status_text};
use crate::player::Player;

verus! {

/// Interval at which the display is refreshed while a turn runs, in ms.
pub const TICK_MILLIS: u64 = 100;

#[derive(PartialEq, Eq, Structural, Clone, Copy, Debug)]
pub enum GameStatus {
    PreGame,
    Active,
    Paused,
}

/// Overall game state.
pub struct Game {
    pub phase: GameStatus,
    pub red_player: Player,
    pub blue_player: Player,
}

impl Game {
    /// Both clocks are well formed; no turn runs outside the active phase,
    /// and in it exactly one does.
    pub open spec fn wf(&self) -> bool {
        &&& self.red_player.wf()
        &&& self.blue_player.wf()
        &&& self.phase == GameStatus::Active ==> self.red_player.is_active
            != self.blue_player.is_active
        &&& self.phase != GameStatus::Active ==> !self.red_player.is_active
            && !self.blue_player.is_active
    }

    pub open spec fn can_settle(&self, now: u64) -> bool {
        self.red_player.can_settle(now) && self.blue_player.can_settle(now)
    }

    pub open spec fn fresh() -> Game {
        Game { phase: GameStatus::PreGame, red_player: Player::fresh(), blue_player: Player::fresh() }
    }

    /// The transition table: the game after event `ev` arrives at `now`.
    pub open spec fn after(self, ev: ButtonEvent, now: u64) -> Game {
        match self.phase {
            GameStatus::PreGame => match ev {
                ButtonEvent::Pressed(Color::Red) => Game {
                    red_player: self.red_player.decremented(1),
                    ..self
                },
                ButtonEvent::Held(Color::Red) => Game {
                    red_player: self.red_player.decremented(5),
                    ..self
                },
                ButtonEvent::Pressed(Color::Blue) => Game {
                    blue_player: self.blue_player.decremented(1),
                    ..self
                },
                ButtonEvent::Held(Color::Blue) => Game {
                    blue_player: self.blue_player.decremented(5),
                    ..self
                },
                ButtonEvent::Pressed(Color::Yellow) => Game { phase: GameStatus::Paused, ..self },
                ButtonEvent::Held(Color::Yellow) => self,
            },
            GameStatus::Paused => match ev {
                ButtonEvent::Pressed(Color::Red) => Game {
                    phase: GameStatus::Active,
                    blue_player: self.blue_player.started(now),
                    ..self
                },
                ButtonEvent::Pressed(Color::Blue) => Game {
                    phase: GameStatus::Active,
                    red_player: self.red_player.started(now),
                    ..self
                },
                ButtonEvent::Held(Color::Yellow) => Game::fresh(),
                _ => self,
            },
            GameStatus::Active => match ev {
                ButtonEvent::Pressed(Color::Red) => Game {
                    red_player: self.red_player.ended(now),
                    blue_player: self.blue_player.started(now),
                    ..self
                },
                ButtonEvent::Pressed(Color::Blue) => Game {
                    red_player: self.red_player.started(now),
                    blue_player: self.blue_player.ended(now),
                    ..self
                },
                ButtonEvent::Pressed(Color::Yellow) => Game {
                    phase: GameStatus::Paused,
                    red_player: self.red_player.ended(now),
                    blue_player: self.blue_player.ended(now),
                },
                ButtonEvent::Held(Color::Yellow) => Game::fresh(),
                _ => self,
            },
        }
    }

    pub fn new() -> (r: Game)
        ensures
            r == Game::fresh(),
            r.wf(),
    {
        Game { phase: GameStatus::PreGame, red_player: Player::new(), blue_player: Player::new() }
    }

    /// Resets all state to begin a new game.
    pub fn reset(&mut self)
        ensures
            *final(self) == Game::fresh(),
            final(self).wf(),
    {
        self.phase = GameStatus::PreGame;
        self.red_player.reset();
        self.blue_player.reset();
    }

    /// Whether both clocks can be read at `now`.
    pub fn settles_at(&self, now: u64) -> (r: bool)
        ensures
            r == self.can_settle(now),
    {
        self.red_player.settles_at(now) && self.blue_player.settles_at(now)
    }

    /// Applies one button event that arrived at clock reading `now`.
    pub fn handle_event(&mut self, ev: ButtonEvent, now: u64)
        requires
            old(self).wf(),
            old(self).can_settle(now),
        ensures
            *final(self) == old(self).after(ev, now),
            final(self).wf(),
    {
        match self.phase {
            GameStatus::PreGame => match ev {
                ButtonEvent::Pressed(Color::Red) => self.red_player.decrement_time(1),
                ButtonEvent::Held(Color::Red) => self.red_player.decrement_time(5),
                ButtonEvent::Pressed(Color::Blue) => self.blue_player.decrement_time(1),
                ButtonEvent::Held(Color::Blue) => self.blue_player.decrement_time(5),
                ButtonEvent::Pressed(Color::Yellow) => self.phase = GameStatus::Paused,
                ButtonEvent::Held(Color::Yellow) => {},
            },
            GameStatus::Paused => match ev {
                ButtonEvent::Pressed(Color::Red) => {
                    self.blue_player.start_turn(now);
                    self.phase = GameStatus::Active;
                },
                ButtonEvent::Pressed(Color::Blue) => {
                    self.red_player.start_turn(now);
                    self.phase = GameStatus::Active;
                },
                ButtonEvent::Held(Color::Yellow) => self.reset(),
                _ => {},
            },
            GameStatus::Active => match ev {
                ButtonEvent::Pressed(Color::Red) => {
                    self.red_player.end_turn(now);
                    self.blue_player.start_turn(now);
                },
                ButtonEvent::Pressed(Color::Blue) => {
                    self.blue_player.end_turn(now);
                    self.red_player.start_turn(now);
                },
                ButtonEvent::Pressed(Color::Yellow) => {
                    self.red_player.end_turn(now);
                    self.blue_player.end_turn(now);
                    self.phase = GameStatus::Paused;
                },
                ButtonEvent::Held(Color::Yellow) => {
                    self.red_player.end_turn(now);
                    self.blue_player.end_turn(now);
                    self.reset();
                },
                _ => {},
            },
        }
    }

    /// Whether the Yellow LED is lit: exactly while the game is paused.
    pub fn yellow_led_on(&self) -> (r: bool)
        ensures
            r == (self.phase == GameStatus::Paused),
    {
        self.phase == GameStatus::Paused
    }

    /// Whether the display must also be refreshed on a tick, without input:
    /// exactly while a turn runs.
    pub fn needs_tick(&self) -> (r: bool)
        ensures
            r == (self.phase == GameStatus::Active),
    {
        self.phase == GameStatus::Active
    }

    /// The display's second row at clock reading `now`.
    pub fn display_string(&self, now: u64) -> (r: String)
        requires
            self.can_settle(now),
        ensures
            r@ == status_text(
                self.red_player.remaining_at(now),
                self.blue_player.remaining_at(now),
            ),
    {
        status_line(self.red_player.remaining_now(now), self.blue_player.remaining_now(now))
    }
}

/// Whatever event arrives, a well-formed game stays well formed: in the
/// active phase at most one clock runs, and in the other phases none.
pub proof fn lemma_at_most_one_running(g: Game, ev: ButtonEvent, now: u64)
    requires
        g.wf(),
        g.can_settle(now),
    ensures
        g.after(ev, now).wf(),
        g.after(ev, now).phase == GameStatus::Active ==> !(g.after(ev, now).red_player.is_active
            && g.after(ev, now).blue_player.is_active),
        g.after(ev, now).phase != GameStatus::Active ==> !g.after(ev, now).red_player.is_active
            && !g.after(ev, now).blue_player.is_active,
{
}

/// The game after the timed events in order.
pub open spec fn replay(g: Game, events: Seq<(ButtonEvent, u64)>) -> Game
    decreases events.len(),
{
    if events.len() == 0 {
        g
    } else {
        replay(g, events.drop_last()).after(events.last().0, events.last().1)
    }
}

/// Each event's time is one at which the game it meets can settle its clocks.
pub open spec fn settles_along(g: Game, events: Seq<(ButtonEvent, u64)>) -> bool
    decreases events.len(),
{
    events.len() == 0 || (settles_along(g, events.drop_last()) && replay(
        g,
        events.drop_last(),
    ).can_settle(events.last().1))
}

/// In every state reached from a new game, at most one clock runs while the
/// game is active, and none in the other phases.
pub proof fn lemma_reachable_at_most_one_running(events: Seq<(ButtonEvent, u64)>)
    requires
        settles_along(Game::fresh(), events),
    ensures
        replay(Game::fresh(), events).wf(),
        replay(Game::fresh(), events).phase == GameStatus::Active ==> !(replay(
            Game::fresh(),
            events,
        ).red_player.is_active && replay(Game::fresh(), events).blue_player.is_active),
    decreases events.len(),
{
    if events.len() > 0 {
        lemma_reachable_at_most_one_running(events.drop_last());
        lemma_at_most_one_running(
            replay(Game::fresh(), events.drop_last()),
            events.last().0,
            events.last().1,
        );
    }
}

} // verus!
