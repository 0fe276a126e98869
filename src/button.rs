//! Buttons and their debounced monitors. A monitor turns the edges and timer
//! expiries of one input line into `Pressed` and `Held` events.
use vstd::prelude::*;

verus! {

/// Quiet period after each edge before the line is trusted, in ms.
pub const DEBOUNCE_DELAY_MILLIS: u64 = 20;

/// How long a contact must stay closed to count as held, in ms; also the
/// repeat interval of `Held` while it stays closed.
pub const HOLD_TIME_MILLIS: u64 = 1000;

/// A button and its LED. Red and Blue stand for the players; Yellow
/// pauses, resumes and resets.
#[derive(PartialEq, Eq, Structural, Clone, Copy, Debug)]
pub enum Color {
    Red,
    Yellow,
    Blue,
}

#[derive(PartialEq, Eq, Structural, Clone, Copy, Debug)]
pub enum ButtonEvent {
    Pressed(Color),
    Held(Color),
}

#[derive(PartialEq, Eq, Structural, Clone, Copy, Debug)]
pub enum MonitorState {
    /// Waiting for the contact to close.
    Idle,
    /// Contact closed; letting the bounce settle.
    SettlingPress,
    /// Settled closed; a release now is a press, a timeout a hold.
    Racing,
    /// Held at least once; repeating `Held` until the contact opens.
    Holding,
    /// Contact opened; letting the bounce settle.
    SettlingRelease,
}

/// What the monitor observed.
#[derive(PartialEq, Eq, Structural, Clone, Copy, Debug)]
pub enum LineInput {
    Closed,
    Opened,
    DebounceElapsed,
    HoldElapsed,
}

/// What the monitor waits for next.
#[derive(PartialEq, Eq, Structural, Clone, Copy, Debug)]
pub enum MonitorAction {
    /// Wait until the line is closed.
    WaitClosed,
    /// Sleep for the debounce period.
    Debounce,
    /// Wait until the line is open or the hold time elapses, whichever first.
    WaitOpenOrHold,
}

pub open spec fn action_of(s: MonitorState) -> MonitorAction {
    match s {
        MonitorState::Idle => MonitorAction::WaitClosed,
        MonitorState::SettlingPress => MonitorAction::Debounce,
        MonitorState::SettlingRelease => MonitorAction::Debounce,
        MonitorState::Racing => MonitorAction::WaitOpenOrHold,
        MonitorState::Holding => MonitorAction::WaitOpenOrHold,
    }
}

/// One transition: the next state and the event emitted, if any. Inputs
/// that the state does not wait for change nothing.
pub open spec fn step(s: MonitorState, c: Color, i: LineInput) -> (MonitorState, Option<ButtonEvent>) {
    match (s, i) {
        (MonitorState::Idle, LineInput::Closed) => (MonitorState::SettlingPress, None),
        (MonitorState::SettlingPress, LineInput::DebounceElapsed) => (MonitorState::Racing, None),
        (MonitorState::Racing, LineInput::Opened) => (
            MonitorState::SettlingRelease,
            Some(ButtonEvent::Pressed(c)),
        ),
        (MonitorState::Racing, LineInput::HoldElapsed) => (
            MonitorState::Holding,
            Some(ButtonEvent::Held(c)),
        ),
        (MonitorState::Holding, LineInput::Opened) => (MonitorState::SettlingRelease, None),
        (MonitorState::Holding, LineInput::HoldElapsed) => (
            MonitorState::Holding,
            Some(ButtonEvent::Held(c)),
        ),
        (MonitorState::SettlingRelease, LineInput::DebounceElapsed) => (MonitorState::Idle, None),
        _ => (s, None),
    }
}

/// The state reached from `s` after the inputs in order.
pub open spec fn run(s: MonitorState, c: Color, inputs: Seq<LineInput>) -> MonitorState
    decreases inputs.len(),
{
    if inputs.len() == 0 {
        s
    } else {
        step(run(s, c, inputs.drop_last()), c, inputs.last()).0
    }
}

/// The event emitted on the input at index `k`, starting from `Idle`.
pub open spec fn emitted_at(c: Color, inputs: Seq<LineInput>, k: int) -> Option<ButtonEvent> {
    step(run(MonitorState::Idle, c, inputs.take(k)), c, inputs[k]).1
}

/// Debounce state machine of one button.
pub struct ButtonMonitor {
    pub color: Color,
    pub state: MonitorState,
}

impl ButtonMonitor {
    pub fn new(color: Color) -> (r: ButtonMonitor)
        ensures
            r.color == color,
            r.state == MonitorState::Idle,
    {
        ButtonMonitor { color, state: MonitorState::Idle }
    }

    /// What to wait for next.
    pub fn action(&self) -> (r: MonitorAction)
        ensures
            r == action_of(self.state),
    {
        match self.state {
            MonitorState::Idle => MonitorAction::WaitClosed,
            MonitorState::SettlingPress => MonitorAction::Debounce,
            MonitorState::SettlingRelease => MonitorAction::Debounce,
            MonitorState::Racing => MonitorAction::WaitOpenOrHold,
            MonitorState::Holding => MonitorAction::WaitOpenOrHold,
        }
    }

    /// Takes in what was observed and returns the event to send, if any.
    pub fn on_input(&mut self, input: LineInput) -> (r: Option<ButtonEvent>)
        ensures
            final(self).color == old(self).color,
            (final(self).state, r) == step(old(self).state, old(self).color, input),
    {
        let c = self.color;
        match (self.state, input) {
            (MonitorState::Idle, LineInput::Closed) => {
                self.state = MonitorState::SettlingPress;
                None
            },
            (MonitorState::SettlingPress, LineInput::DebounceElapsed) => {
                self.state = MonitorState::Racing;
                None
            },
            (MonitorState::Racing, LineInput::Opened) => {
                self.state = MonitorState::SettlingRelease;
                Some(ButtonEvent::Pressed(c))
            },
            (MonitorState::Racing, LineInput::HoldElapsed) => {
                self.state = MonitorState::Holding;
                Some(ButtonEvent::Held(c))
            },
            (MonitorState::Holding, LineInput::Opened) => {
                self.state = MonitorState::SettlingRelease;
                None
            },
            (MonitorState::Holding, LineInput::HoldElapsed) => Some(ButtonEvent::Held(c)),
            (MonitorState::SettlingRelease, LineInput::DebounceElapsed) => {
                self.state = MonitorState::Idle;
                None
            },
            _ => None,
        }
    }
}

proof fn lemma_busy_after_close(c: Color, inputs: Seq<LineInput>, k: int)
    requires
        0 <= k <= inputs.len(),
    ensures
        run(MonitorState::Idle, c, inputs.take(k)) != MonitorState::Idle ==> exists|j: int|
            0 <= j < k && inputs[j] == LineInput::Closed,
    decreases k,
{
    if k > 0 {
        lemma_busy_after_close(c, inputs, k - 1);
        assert(inputs.take(k).drop_last() =~= inputs.take(k - 1));
        assert(inputs.take(k).last() == inputs[k - 1]);
    } else {
        assert(inputs.take(k).len() == 0);
    }
}

/// A monitor started idle emits `Pressed` only on the opening of the line,
/// and only after it has seen the line close: no press is ever emitted
/// without a closed-then-open transition of its own button.
pub proof fn lemma_press_needs_release(c: Color, inputs: Seq<LineInput>, k: int)
    requires
        0 <= k < inputs.len(),
        emitted_at(c, inputs, k) is Some,
        emitted_at(c, inputs, k)->0 is Pressed,
    ensures
        inputs[k] == LineInput::Opened,
        emitted_at(c, inputs, k) == Some(ButtonEvent::Pressed(c)),
        exists|j: int| 0 <= j < k && inputs[j] == LineInput::Closed,
{
    lemma_busy_after_close(c, inputs, k);
}

/// States in which no press can come without a new closing of the contact;
/// with `holding_ok`, also the repeating state of a hold.
pub open spec fn released(s: MonitorState, holding_ok: bool) -> bool {
    s == MonitorState::Idle || s == MonitorState::SettlingRelease || (holding_ok && s
        == MonitorState::Holding)
}

proof fn lemma_stays_released(
    c: Color,
    inputs: Seq<LineInput>,
    k1: int,
    k2: int,
    holding_ok: bool,
)
    requires
        0 <= k1 <= k2 <= inputs.len(),
        released(run(MonitorState::Idle, c, inputs.take(k1)), holding_ok),
        forall|j: int| k1 <= j < k2 ==> inputs[j] != LineInput::Closed,
    ensures
        released(run(MonitorState::Idle, c, inputs.take(k2)), holding_ok),
    decreases k2 - k1,
{
    if k2 > k1 {
        lemma_stays_released(c, inputs, k1, k2 - 1, holding_ok);
        assert(inputs.take(k2).drop_last() =~= inputs.take(k2 - 1));
        assert(inputs.take(k2).last() == inputs[k2 - 1]);
    }
}

/// A press and a hold never come from the same closing of the contact:
/// between a `Pressed` and a `Held` of a monitor, in either order, the line
/// closed again.
pub proof fn lemma_press_and_hold_apart(c: Color, inputs: Seq<LineInput>, k1: int, k2: int)
    requires
        0 <= k1 < k2 < inputs.len(),
        emitted_at(c, inputs, k1) is Some,
        emitted_at(c, inputs, k2) is Some,
        (emitted_at(c, inputs, k1)->0 is Pressed) != (emitted_at(c, inputs, k2)->0 is Pressed),
    ensures
        exists|j: int| k1 < j < k2 && inputs[j] == LineInput::Closed,
{
    let held_first = emitted_at(c, inputs, k1)->0 is Held;
    assert(inputs.take(k1 + 1).drop_last() =~= inputs.take(k1));
    assert(inputs.take(k1 + 1).last() == inputs[k1]);
    assert(released(run(MonitorState::Idle, c, inputs.take(k1 + 1)), held_first));
    if !(exists|j: int| k1 < j < k2 && inputs[j] == LineInput::Closed) {
        lemma_stays_released(c, inputs, k1 + 1, k2, held_first);
    }
}

} // verus!
