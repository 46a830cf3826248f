//! State machine of the application: its states, the events that drive it
//! and the transitions between them.

use vstd::prelude::*;

use crate::button::{ButtonMessage, PressType};

verus! {

/// State machine possible states
#[derive(Debug, Clone, Copy, PartialEq, Eq, Structural)]
pub enum State {
    /// Startup - Initial state
    Startup,
    /// Device is idle
    Idle,
    /// Device is processing something
    Processing,
    /// Device is in an error state
    Error,
}

/// State machine possible events
#[derive(Debug, Clone, Copy, PartialEq, Eq, Structural)]
pub enum Event {
    /// Initial startup
    PowerOn,
    /// System ready
    Ready,
    /// Nothing has happened
    Nothing,
    /// Button press event is a short press
    ButtonPressShortRelease,
    /// Button press event is a long press
    ButtonPressLongRelease,
    /// Button press event is a long hold
    ButtonPressLongHold,
    /// Error has occurred
    Error,
}

/// The state that handling `event` in `state` leads to.
pub open spec fn transition(state: State, event: Event) -> State {
    match (state, event) {
        (State::Startup, Event::Ready) => State::Idle,
        (State::Idle, Event::ButtonPressShortRelease) => State::Processing,
        (State::Idle, Event::ButtonPressLongRelease) => State::Processing,
        (State::Idle, Event::ButtonPressLongHold) => State::Processing,
        (State::Processing, Event::Nothing) => State::Idle,
        (_, Event::Error) => State::Error,
        _ => state,
    }
}

/// True when the machine halts on `event` in `state`: in the error state
/// every event other than another error stops the device.
pub open spec fn halts_on(state: State, event: Event) -> bool {
    state == State::Error && event != Event::Error
}

/// The event that a (possibly missing) button press type stands for.
pub open spec fn event_for_press(press: Option<PressType>) -> Event {
    match press {
        None => Event::Nothing,
        Some(PressType::ShortRelease) => Event::ButtonPressShortRelease,
        Some(PressType::LongRelease) => Event::ButtonPressLongRelease,
        Some(PressType::LongHold) => Event::ButtonPressLongHold,
    }
}

/// The event that a (possibly missing) button message stands for.
pub open spec fn event_for_message(message: Option<ButtonMessage>) -> Event {
    match message {
        None => event_for_press(None),
        Some(m) => event_for_press(Some(m.press_type)),
    }
}

/// The state reached by handling, from `state`, the events that a sequence
/// of button polls gives (one poll per loop round).
pub open spec fn run_polls(state: State, polls: Seq<Option<PressType>>) -> State
    decreases polls.len(),
{
    if polls.len() == 0 {
        state
    } else {
        transition(run_polls(state, polls.drop_last()), event_for_press(polls.last()))
    }
}

/// The application state machine.
pub struct StateMachine {
    /// Current state of the state machine: [`State`]
    pub current_state: State,
    /// Latest event: [`Event`]
    pub latest_event: Event,
}

impl StateMachine {
    /// Constructor
    pub fn new(current_state: State, latest_event: Event) -> (sm: Self)
        ensures
            sm.current_state == current_state,
            sm.latest_event == latest_event,
    {
        StateMachine { current_state, latest_event }
    }

    /// Handle events and transition between states in state machine
    ///
    /// * `event` - Event to handle
    ///
    /// In the error state only another error event may be handled: any
    /// other event stops the device.
    pub fn handle_event(&mut self, event: Event)
        requires
            !halts_on(old(self).current_state, event),
        ensures
            final(self).current_state == transition(old(self).current_state, event),
            final(self).latest_event == event,
    {
        self.latest_event = event;
        match (self.current_state, event) {
            (State::Startup, Event::PowerOn) => {},
            (State::Startup, Event::Ready) => {
                self.current_state = State::Idle;
            },
            (State::Idle, Event::ButtonPressShortRelease) => {
                self.current_state = State::Processing;
            },
            (State::Idle, Event::ButtonPressLongRelease) => {
                self.current_state = State::Processing;
            },
            (State::Idle, Event::ButtonPressLongHold) => {
                self.current_state = State::Processing;
            },
            (State::Processing, Event::Nothing) => {
                self.current_state = State::Idle;
            },
            (_, Event::Error) => {
                self.current_state = State::Error;
            },
            _ => {},
        }
    }

    /// Get the current event from the button message polled this round
    /// (`None` when no message was waiting).
    pub fn get_current_event(&self, button_message: Option<ButtonMessage>) -> (event: Event)
        ensures
            event == event_for_message(button_message),
    {
        match button_message {
            None => {},
            Some(message) => match message.press_type {
                PressType::ShortRelease => {
                    return Event::ButtonPressShortRelease;
                },
                PressType::LongRelease => {
                    return Event::ButtonPressLongRelease;
                },
                PressType::LongHold => {
                    return Event::ButtonPressLongHold;
                },
            },
        }
        Event::Nothing
    }

    /// Check for any system error conditions
    /// Return `true` if an error is detected
    pub fn check_for_errors(&self) -> (error: bool)
        ensures
            !error,
    {
        false
    }
}

/// An error event always leads to the error state, whatever the state was,
/// and the error state is left by no event: every other event halts it.
pub proof fn lemma_error_is_final(state: State, event: Event)
    ensures
        transition(state, Event::Error) == State::Error,
        state == State::Error && !halts_on(state, event) ==> transition(state, event)
            == State::Error,
{
}

/// Once the machine has left the startup state it never returns to it.
pub proof fn lemma_startup_never_reentered(state: State, event: Event)
    requires
        state != State::Startup,
    ensures
        transition(state, event) != State::Startup,
{
}

/// In the startup state only `Ready` (to idle) and `Error` change the state.
pub proof fn lemma_startup_waits_for_ready(event: Event)
    requires
        event != Event::Ready,
        event != Event::Error,
    ensures
        transition(State::Startup, event) == State::Startup,
{
}

/// Polling the button never produces a power-on, ready or error event.
pub proof fn lemma_polled_events_are_button_or_nothing(press: Option<PressType>)
    ensures
        event_for_press(press) != Event::PowerOn,
        event_for_press(press) != Event::Ready,
        event_for_press(press) != Event::Error,
{
}

/// After startup the main loop never halts: from idle or processing, any
/// sequence of button polls keeps the machine in idle or processing, and
/// no poll is one it halts on.
pub proof fn lemma_main_loop_stays_operational(state: State, polls: Seq<Option<PressType>>)
    requires
        state == State::Idle || state == State::Processing,
    ensures
        run_polls(state, polls) == State::Idle || run_polls(state, polls) == State::Processing,
        forall|i: int|
            0 <= i < polls.len() ==> !halts_on(
                run_polls(state, polls.take(i)),
                event_for_press(#[trigger] polls[i]),
            ),
    decreases polls.len(),
{
    if polls.len() > 0 {
        let prefix = polls.drop_last();
        lemma_main_loop_stays_operational(state, prefix);
        assert forall|i: int| 0 <= i < polls.len() implies !halts_on(
            run_polls(state, polls.take(i)),
            event_for_press(#[trigger] polls[i]),
        ) by {
            if i < polls.len() - 1 {
                assert(polls.take(i) =~= prefix.take(i));
                assert(polls[i] == prefix[i]);
            } else {
                assert(polls.take(i) =~= prefix);
            }
        }
    }
}

/// A short, long or held press in the idle state starts processing, and
/// the next poll without a message returns the machine to idle.
pub proof fn lemma_press_is_processed_then_idle(press: PressType)
    ensures
        transition(State::Idle, event_for_press(Some(press))) == State::Processing,
        transition(State::Processing, event_for_press(None)) == State::Idle,
{
}

/// Whether `event` reports a button press (short release, long release or
/// long hold).
pub open spec fn is_press_event(event: Event) -> bool {
    ||| event == Event::ButtonPressShortRelease
    ||| event == Event::ButtonPressLongRelease
    ||| event == Event::ButtonPressLongHold
}

/// The whole transition table. Exactly these pairs change the state:
/// startup and ready (to idle), idle and a press (to processing),
/// processing and nothing (to idle), and any state with an error (to the
/// error state). Every other pair leaves the state as it is; in particular
/// a press while processing changes nothing.
pub proof fn lemma_transition_table(state: State, event: Event)
    ensures
        state == State::Startup && event == Event::Ready ==> transition(state, event) == State::Idle,
        state == State::Idle && is_press_event(event) ==> transition(state, event) == State::Processing,
        state == State::Processing && event == Event::Nothing ==> transition(state, event) == State::Idle,
        event == Event::Error ==> transition(state, event) == State::Error,
        transition(state, event) != state ==> {
            ||| state == State::Startup && event == Event::Ready
            ||| state == State::Idle && is_press_event(event)
            ||| state == State::Processing && event == Event::Nothing
            ||| event == Event::Error
        },
        state == State::Processing && is_press_event(event) ==> transition(state, event)
            == State::Processing,
{
}

/// The machine halts exactly on a non-error event in the error state.
pub proof fn lemma_halts_only_in_error_state(state: State, event: Event)
    ensures
        halts_on(state, event) <==> (state == State::Error && event != Event::Error),
{
}

/// Each polled button message gives the event of its press type, and no
/// message gives `Nothing`.
pub proof fn lemma_message_events(message: Option<ButtonMessage>)
    ensures
        message is None ==> event_for_message(message) == Event::Nothing,
        message matches Some(m) && m.press_type == PressType::ShortRelease ==> event_for_message(message)
            == Event::ButtonPressShortRelease,
        message matches Some(m) && m.press_type == PressType::LongRelease ==> event_for_message(message)
            == Event::ButtonPressLongRelease,
        message matches Some(m) && m.press_type == PressType::LongHold ==> event_for_message(message)
            == Event::ButtonPressLongHold,
{
}

} // verus!
