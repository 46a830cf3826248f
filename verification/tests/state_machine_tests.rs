use big_button::button::{ButtonMessage, PressType};
use big_button::state_machine::{Event, State, StateMachine};

fn message(press_type: PressType) -> ButtonMessage {
    ButtonMessage { id: 0, timestamp_start: 10, timestamp_end: 20, press_type }
}

#[test]
fn new_keeps_state_and_event() {
    let sm = StateMachine::new(State::Startup, Event::PowerOn);
    assert_eq!(sm.current_state, State::Startup);
    assert_eq!(sm.latest_event, Event::PowerOn);
}

#[test]
fn startup_sequence_reaches_idle() {
    let mut sm = StateMachine::new(State::Startup, Event::PowerOn);
    sm.handle_event(Event::PowerOn);
    assert_eq!(sm.current_state, State::Startup);
    sm.handle_event(Event::Ready);
    assert_eq!(sm.current_state, State::Idle);
    assert_eq!(sm.latest_event, Event::Ready);
}

#[test]
fn startup_ignores_button_events() {
    let mut sm = StateMachine::new(State::Startup, Event::PowerOn);
    sm.handle_event(Event::ButtonPressShortRelease);
    sm.handle_event(Event::Nothing);
    assert_eq!(sm.current_state, State::Startup);
}

#[test]
fn idle_press_goes_processing_then_idle() {
    for event in [Event::ButtonPressShortRelease, Event::ButtonPressLongRelease, Event::ButtonPressLongHold] {
        let mut sm = StateMachine::new(State::Idle, Event::PowerOn);
        sm.handle_event(event);
        assert_eq!(sm.current_state, State::Processing);
        sm.handle_event(Event::Nothing);
        assert_eq!(sm.current_state, State::Idle);
    }
}

#[test]
fn processing_ignores_presses() {
    let mut sm = StateMachine::new(State::Processing, Event::PowerOn);
    sm.handle_event(Event::ButtonPressLongHold);
    assert_eq!(sm.current_state, State::Processing);
}

#[test]
fn idle_ignores_nothing() {
    let mut sm = StateMachine::new(State::Idle, Event::PowerOn);
    sm.handle_event(Event::Nothing);
    assert_eq!(sm.current_state, State::Idle);
}

#[test]
fn error_event_from_every_state() {
    for state in [State::Startup, State::Idle, State::Processing, State::Error] {
        let mut sm = StateMachine::new(state, Event::PowerOn);
        sm.handle_event(Event::Error);
        assert_eq!(sm.current_state, State::Error);
    }
}

#[test]
fn current_event_from_messages() {
    let sm = StateMachine::new(State::Idle, Event::PowerOn);
    assert_eq!(sm.get_current_event(None), Event::Nothing);
    assert_eq!(sm.get_current_event(Some(message(PressType::ShortRelease))), Event::ButtonPressShortRelease);
    assert_eq!(sm.get_current_event(Some(message(PressType::LongRelease))), Event::ButtonPressLongRelease);
    assert_eq!(sm.get_current_event(Some(message(PressType::LongHold))), Event::ButtonPressLongHold);
}

#[test]
fn no_errors_detected() {
    let sm = StateMachine::new(State::Idle, Event::PowerOn);
    assert!(!sm.check_for_errors());
}

#[test]
fn main_loop_never_leaves_idle_and_processing() {
    let mut sm = StateMachine::new(State::Startup, Event::PowerOn);
    sm.handle_event(Event::PowerOn);
    sm.handle_event(Event::Ready);
    let polls = [
        None,
        Some(message(PressType::ShortRelease)),
        Some(message(PressType::LongHold)),
        None,
        None,
        Some(message(PressType::LongRelease)),
        None,
    ];
    let expected = [
        State::Idle,
        State::Processing,
        State::Processing,
        State::Idle,
        State::Idle,
        State::Processing,
        State::Idle,
    ];
    for (poll, want) in polls.iter().zip(expected.iter()) {
        let event = sm.get_current_event(*poll);
        sm.handle_event(event);
        assert_eq!(sm.current_state, *want);
    }
}

#[test]
fn startup_is_never_reentered() {
    let events = [
        Event::PowerOn,
        Event::Ready,
        Event::Nothing,
        Event::ButtonPressShortRelease,
        Event::ButtonPressLongRelease,
        Event::ButtonPressLongHold,
    ];
    for state in [State::Idle, State::Processing] {
        for event in events {
            let mut sm = StateMachine::new(state, Event::PowerOn);
            sm.handle_event(event);
            assert_ne!(sm.current_state, State::Startup);
        }
    }
}

#[test]
fn error_state_accepts_error_event() {
    let mut sm = StateMachine::new(State::Error, Event::Error);
    sm.handle_event(Event::Error);
    assert_eq!(sm.current_state, State::Error);
}

#[test]
fn latest_event_is_the_one_handled() {
    let mut sm = StateMachine::new(State::Idle, Event::PowerOn);
    sm.handle_event(Event::Nothing);
    assert_eq!(sm.latest_event, Event::Nothing);
    sm.handle_event(Event::ButtonPressLongHold);
    assert_eq!(sm.latest_event, Event::ButtonPressLongHold);
    assert_eq!(sm.current_state, State::Processing);
}
