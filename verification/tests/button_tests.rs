use big_button::button::monitor::{
    debounce_high_to_low_settled, debounce_low_to_high_settled, MonitorPhase, PressMonitor,
};
use big_button::button::{Button, ButtonMessage, PressType};
use big_button::gpio::Level;

fn button(id: u8) -> Button<&'static str, u32> {
    Button::new([(id, "pin15")], Ok::<u32, ()>(7)).unwrap()
}

#[test]
fn new_takes_publisher() {
    let b = button(3);
    assert_eq!(b.item_info[0].0, 3);
    assert_eq!(b.item_info[0].1, "pin15");
    assert_eq!(b.button_pubsub_publisher, 7);
}

#[test]
fn new_fails_without_publisher() {
    let r: Result<Button<&'static str, u32>, &'static str> = Button::new([(0, "pin15")], Err("maximum publishers"));
    assert_eq!(r.err(), Some("maximum publishers"));
}

#[test]
fn get_ids_lists_ids() {
    assert_eq!(button(0).get_ids(), [0]);
    assert_eq!(button(9).get_ids(), [9]);
}

#[test]
fn button_check_ids_cases() {
    let b = button(0);
    assert!(b.check_ids(&[]));
    assert!(b.check_ids(&[0]));
    assert!(b.check_ids(&[0, 0]));
    assert!(!b.check_ids(&[1]));
    assert!(!b.check_ids(&[0, 1]));
}

#[test]
fn find_item_cases() {
    let b = button(4);
    assert_eq!(b.find_item(4), Some(0));
    assert_eq!(b.find_item(5), None);
}

#[test]
fn monitor_press_unknown_id() {
    assert_eq!(button(0).monitor_press(2), None);
}

#[test]
fn monitor_press_publishes_after_release() {
    let mut m = button(0).monitor_press(0).unwrap();
    assert_eq!(m, PressMonitor { id: 0, phase: MonitorPhase::AwaitingPress });
    assert!(m.on_edge_settled(1_000).is_none());
    assert_eq!(m.phase, MonitorPhase::AwaitingRelease { pressed_at: 1_000 });
    let msg = m.on_edge_settled(1_250).unwrap();
    assert_eq!(msg.id, 0);
    assert_eq!(msg.timestamp_start, 1_000);
    assert_eq!(msg.timestamp_end, 1_250);
    assert_eq!(msg.press_type, PressType::ShortRelease);
    assert_eq!(msg.press_duration_ticks(), 250);
    assert_eq!(m.phase, MonitorPhase::AwaitingPress);
    assert!(m.on_edge_settled(2_000).is_none());
    let second = m.on_edge_settled(2_000).unwrap();
    assert_eq!(second.press_duration_ticks(), 0);
}

#[test]
fn press_duration() {
    let msg = ButtonMessage { id: 1, timestamp_start: 5, timestamp_end: 42, press_type: PressType::LongHold };
    assert_eq!(msg.press_duration_ticks(), 37);
}

#[test]
fn debounce_decisions() {
    assert!(debounce_high_to_low_settled(Level::High, Level::Low, true));
    assert!(!debounce_high_to_low_settled(Level::High, Level::Low, false));
    assert!(!debounce_high_to_low_settled(Level::Low, Level::Low, true));
    assert!(debounce_low_to_high_settled(Level::Low, Level::High, true));
    assert!(!debounce_low_to_high_settled(Level::Low, Level::High, false));
    assert!(!debounce_low_to_high_settled(Level::High, Level::High, true));
}

#[test]
fn monitor_keeps_button_id() {
    let mut m = button(6).monitor_press(6).unwrap();
    m.on_edge_settled(3);
    assert_eq!(m.id, 6);
    let msg = m.on_edge_settled(9).unwrap();
    assert_eq!(msg.id, 6);
    assert_eq!(m.id, 6);
}
