use big_button::gpio::{ids_contain, Level};
use big_button::led::{Led, LedMessage};

fn leds() -> Led {
    Led::new([
        (0, Level::Low),
        (1, Level::Low),
        (2, Level::Low),
        (3, Level::Low),
        (4, Level::Low),
        (5, Level::Low),
        (6, Level::Low),
        (7, Level::Low),
    ])
}

fn levels(led: &Led) -> Vec<Level> {
    led.item_info.iter().map(|(_, l)| *l).collect()
}

#[test]
fn get_ids_in_order() {
    assert_eq!(leds().get_ids(), [0, 1, 2, 3, 4, 5, 6, 7]);
}

#[test]
fn led_check_ids_cases() {
    let led = leds();
    assert!(led.check_ids(&[]));
    assert!(led.check_ids(&[7, 0, 3]));
    assert!(!led.check_ids(&[8]));
    assert!(!led.check_ids(&[1, 9]));
}

#[test]
fn get_handle_by_id_cases() {
    let mut led = leds();
    led.set_status(&[5], true);
    assert_eq!(led.get_handle_by_id(5), Some(&Level::High));
    assert_eq!(led.get_handle_by_id(4), Some(&Level::Low));
    assert_eq!(led.get_handle_by_id(8), None);
}

#[test]
fn get_handle_by_id_first_of_duplicates() {
    let mut info = leds().item_info;
    info[6] = (2, Level::High);
    let led = Led::new(info);
    assert_eq!(led.get_handle_by_id(2), Some(&Level::Low));
}

#[test]
fn set_status_empty_sets_all() {
    let mut led = leds();
    led.set_status(&[], true);
    assert_eq!(levels(&led), vec![Level::High; 8]);
    led.set_status(&[], false);
    assert_eq!(levels(&led), vec![Level::Low; 8]);
}

#[test]
fn set_status_only_named() {
    let mut led = leds();
    led.set_status(&[1, 3, 42], true);
    assert_eq!(
        levels(&led),
        vec![Level::Low, Level::High, Level::Low, Level::High, Level::Low, Level::Low, Level::Low, Level::Low]
    );
    led.set_status(&[3], false);
    assert_eq!(led.get_handle_by_id(3), Some(&Level::Low));
    assert_eq!(led.get_handle_by_id(1), Some(&Level::High));
    assert_eq!(led.get_ids(), [0, 1, 2, 3, 4, 5, 6, 7]);
}

#[test]
fn set_status_twice_same_as_once() {
    let mut once = leds();
    once.set_status(&[2, 4], true);
    let mut twice = leds();
    twice.set_status(&[2, 4], true);
    twice.set_status(&[2, 4], true);
    assert_eq!(levels(&once), levels(&twice));
}

#[test]
fn handle_message_sets_state() {
    static IDS: [u8; 2] = [0, 7];
    let mut led = leds();
    led.handle_message(LedMessage::SetState { ids: &IDS, state: true });
    assert_eq!(led.get_handle_by_id(0), Some(&Level::High));
    assert_eq!(led.get_handle_by_id(7), Some(&Level::High));
    assert_eq!(led.get_handle_by_id(1), Some(&Level::Low));
}

#[test]
fn ids_contain_cases() {
    assert!(ids_contain(&[1, 2, 3], 3));
    assert!(!ids_contain(&[1, 2, 3], 4));
    assert!(!ids_contain(&[], 0));
}

#[test]
fn last_status_set_wins() {
    let mut led = leds();
    led.set_status(&[3, 6], true);
    led.set_status(&[3, 6], false);
    assert_eq!(levels(&led), levels(&leds()));
}
