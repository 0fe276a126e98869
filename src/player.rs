//! Per-player countdown: remaining time in signed milliseconds (negative is
//! overtime), and the instant at which the running turn began.
use vstd::prelude::*;
use crate::display::{format_time, time_text};

verus! {

/// Milliseconds in one minute.
pub const MINS_TO_MILLIS: i64 = 60 * 1000;

/// Allowance of a new game; offset by 999 ms so that the display, which
/// truncates to whole seconds, starts on the full minute.
pub const DEFAULT_TURN_MILLIS: i64 = 10 * MINS_TO_MILLIS + 999;

/// Largest allowance that pre-game selection offers.
pub const MAX_TURN_MILLIS: i64 = 30 * MINS_TO_MILLIS;

/// One player's clock. The player's LED is lit exactly while `is_active`.
pub struct Player {
    pub millis_left: i64,
    pub is_active: bool,
    /// Clock reading (ms) at which the running turn began.
    pub time_activated: Option<u64>,
}

impl Player {
    /// Well-formed: a turn instant is recorded exactly while the turn runs,
    /// and the remaining time never exceeds the largest allowance.
    pub open spec fn wf(&self) -> bool {
        &&& self.is_active <==> self.time_activated is Some
        &&& self.millis_left <= MAX_TURN_MILLIS
    }

    /// The player of a new game.
    pub open spec fn fresh() -> Player {
        Player { millis_left: DEFAULT_TURN_MILLIS, is_active: false, time_activated: None }
    }

    /// Remaining time at clock reading `now`, counting the running turn.
    pub open spec fn remaining_at(&self, now: u64) -> int {
        match self.time_activated {
            Some(t) => self.millis_left - (now - t),
            None => self.millis_left as int,
        }
    }

    /// `now` is not before the turn began, and the remaining time at `now`
    /// fits in an `i64`.
    pub open spec fn can_settle(&self, now: u64) -> bool {
        match self.time_activated {
            Some(t) => t <= now && self.millis_left - (now - t) >= i64::MIN,
            None => true,
        }
    }

    pub open spec fn started(self, now: u64) -> Player {
        if self.is_active {
            self
        } else {
            Player { is_active: true, time_activated: Some(now), ..self }
        }
    }

    pub open spec fn ended(self, now: u64) -> Player {
        if self.is_active {
            Player {
                millis_left: self.remaining_at(now) as i64,
                is_active: false,
                time_activated: None,
            }
        } else {
            self
        }
    }

    /// The allowance after taking `mins` minutes off it: reduced when it
    /// exceeds that amount, else rotated round to the largest allowance.
    pub open spec fn decremented(self, mins: u32) -> Player {
        if self.millis_left > mins * MINS_TO_MILLIS {
            Player { millis_left: (self.millis_left - mins * MINS_TO_MILLIS) as i64, ..self }
        } else {
            Player { millis_left: MAX_TURN_MILLIS, ..self }
        }
    }

    pub fn new() -> (r: Player)
        ensures
            r == Player::fresh(),
            r.wf(),
    {
        Player { millis_left: DEFAULT_TURN_MILLIS, is_active: false, time_activated: None }
    }

    /// Reduces the allowance by `mins` minutes during pre-game selection,
    /// rotating to the largest allowance when it would not stay above zero.
    pub fn decrement_time(&mut self, mins: u32)
        requires
            old(self).wf(),
        ensures
            *final(self) == old(self).decremented(mins),
            final(self).wf(),
            final(self).millis_left <= MAX_TURN_MILLIS,
            old(self).millis_left <= mins * MINS_TO_MILLIS ==> final(self).millis_left
                == MAX_TURN_MILLIS,
            old(self).millis_left > mins * MINS_TO_MILLIS ==> final(self).millis_left
                == old(self).millis_left - mins * MINS_TO_MILLIS,
    {
        let millis: i64 = mins as i64 * MINS_TO_MILLIS;
        if self.millis_left > millis {
            self.millis_left = self.millis_left - millis;
        } else {
            self.millis_left = MAX_TURN_MILLIS;
        }
    }

    /// Whether the clock can be read at `now`: not before the running turn
    /// began, and with the remaining time still in range.
    pub fn settles_at(&self, now: u64) -> (r: bool)
        ensures
            r == self.can_settle(now),
    {
        match self.time_activated {
            Some(t) => t <= now && self.millis_left as i128 - (now - t) as i128 >= i64::MIN as i128,
            None => true,
        }
    }

    /// Remaining time at clock reading `now`, without changing anything.
    pub fn remaining_now(&self, now: u64) -> (r: i64)
        requires
            self.can_settle(now),
        ensures
            r == self.remaining_at(now),
    {
        match self.time_activated {
            Some(t) => (self.millis_left as i128 - (now - t) as i128) as i64,
            None => self.millis_left,
        }
    }

    /// Remaining time at `now` as `[-]MM:SS`.
    pub fn formatted_time(&self, now: u64) -> (r: String)
        requires
            self.can_settle(now),
        ensures
            r@ == time_text(self.remaining_at(now)),
    {
        format_time(self.remaining_now(now))
    }

    /// Starts the player's turn at `now`; nothing happens if it runs already.
    pub fn start_turn(&mut self, now: u64)
        requires
            old(self).wf(),
        ensures
            *final(self) == old(self).started(now),
            final(self).wf(),
    {
        if !self.is_active {
            self.is_active = true;
            self.time_activated = Some(now);
        }
    }

    /// Ends the player's turn at `now`, charging the time it ran; nothing
    /// happens if no turn runs.
    pub fn end_turn(&mut self, now: u64)
        requires
            old(self).wf(),
            old(self).can_settle(now),
        ensures
            *final(self) == old(self).ended(now),
            final(self).wf(),
    {
        if self.is_active {
            self.is_active = false;
            if let Some(t) = self.time_activated {
                self.millis_left = (self.millis_left as i128 - (now - t) as i128) as i64;
                self.time_activated = None;
            }
        }
    }

    /// Restores the state of a new game.
    pub fn reset(&mut self)
        ensures
            *final(self) == Player::fresh(),
    {
        self.millis_left = DEFAULT_TURN_MILLIS;
        self.is_active = false;
        self.time_activated = None;
    }

    /// Whether the player's LED is lit.
    pub fn led_on(&self) -> (r: bool)
        ensures
            r == self.is_active,
    {
        self.is_active
    }
}

/// Ending a turn keeps the remaining time where it stood: read at the same
/// instant, it is the same before and after, and from then on it stays fixed.
pub proof fn lemma_end_turn_settles(p: Player, now: u64, later: u64)
    requires
        p.wf(),
        p.can_settle(now),
    ensures
        p.ended(now).remaining_at(now) == p.remaining_at(now),
        p.ended(now).remaining_at(later) == p.remaining_at(now),
        !p.ended(now).is_active,
{
}

/// A turn that starts at `start` and ends at `end` takes exactly the elapsed
/// time `end - start` off the remaining time, for any elapsed time, zero
/// included.
pub proof fn lemma_turn_charges_elapsed(p: Player, start: u64, end: u64)
    requires
        p.wf(),
        !p.is_active,
        start <= end,
        p.millis_left - (end - start) >= i64::MIN,
    ensures
        p.started(start).can_settle(end),
        p.started(start).ended(end).remaining_at(end) == p.remaining_at(start) - (end - start),
        p.started(start).ended(end).remaining_at(end) == p.started(start).remaining_at(end),
{
}

/// Pre-game selection never leaves the allowance above the largest one, and
/// rotates round to it exactly when the allowance was at most `mins` minutes.
pub proof fn lemma_decrement_bounded(p: Player, mins: u32)
    requires
        p.wf(),
    ensures
        p.decremented(mins).millis_left <= MAX_TURN_MILLIS,
        p.decremented(mins).wf(),
        (p.millis_left <= mins * MINS_TO_MILLIS) ==> p.decremented(mins).millis_left
            == MAX_TURN_MILLIS,
        (p.millis_left > mins * MINS_TO_MILLIS) ==> p.decremented(mins).millis_left
            == p.millis_left - mins * MINS_TO_MILLIS,
{
}

} // verus!
