use glonax::cli::{j1939_address, node_address};
use glonax::ctl;
use glonax::signal::encoder::{Encoder, Normalize};
use glonax::state::EcuState;
use glonax::cli::string_to_bool;
use glonax::util::OnOffExt;

#[test]
fn on_off_words() {
    assert_eq!(true.as_on_off_str(), "on");
    assert_eq!(false.as_on_off_str(), "off");
}

#[test]
fn answers() {
    for word in ["yes", "true", "on", "1", "YES", " True ", "On\n"] {
        assert_eq!(string_to_bool(word), Ok(true), "{}", word);
    }
    for word in ["no", "false", "off", "0", "NO", "\tFalse", "OFF "] {
        assert_eq!(string_to_bool(word), Ok(false), "{}", word);
    }
    for word in ["", "y", "2", "maybe", "o n"] {
        assert_eq!(string_to_bool(word), Err(()), "{}", word);
    }
}

#[test]
fn switch_words() {
    assert_eq!(ctl::string_to_bool("on"), Some(true));
    assert_eq!(ctl::string_to_bool("TRUE"), Some(true));
    assert_eq!(ctl::string_to_bool("Off"), Some(false));
    assert_eq!(ctl::string_to_bool("false"), Some(false));
    assert_eq!(ctl::string_to_bool("yes"), None);
    assert_eq!(ctl::string_to_bool(" on"), None);
}

#[test]
fn ecu_lock_unlock() {
    let mut state = EcuState::default();
    assert!(!state.is_locked());
    state.set_position(2, 1234);
    assert_eq!(state.position(2), 1234);
    state.lock();
    assert!(state.is_locked());
    for actuator in 0..8 {
        assert_eq!(state.speed(actuator), 0);
    }
    assert_eq!(state.position(2), 1234);
    state.unlock();
    assert!(!state.is_locked());
    assert_eq!(state.position(2), 1234);
}

#[test]
fn normalize_clamps() {
    let range = 100u64..200;
    assert_eq!(range.normalize(50), 0);
    assert_eq!(range.normalize(100), 0);
    assert_eq!(range.normalize(150), 50);
    assert_eq!(range.normalize(200), 100);
    assert_eq!(range.normalize(500), 100);
}

#[test]
fn encoder_scales() {
    let encoder = Encoder::new(0u64..1000, 0u64..10_000);
    assert_eq!(encoder.scale(0), 0);
    assert_eq!(encoder.scale(1), 10);
    assert_eq!(encoder.scale(500), 5_000);
    assert_eq!(encoder.scale(1000), 10_000);
    assert_eq!(encoder.scale(2000), 10_000);
    assert_eq!(encoder.scale_to(3000, 400), 1200);

    // Whole units of the domain per unit of the source range.
    let encoder = Encoder::new(0u64..3, 0u64..10);
    assert_eq!(encoder.scale(3), 9);
}

#[test]
fn encoder_factor_is_whole_units() {
    // The factor is computed first, in whole units of the target width.
    assert_eq!(Encoder::new(0u64..1000, 0u64..10).scale(500), 0);
    // The start of the target range plays no part.
    let shifted = Encoder::new(0u64..8, 10u64..26);
    assert_eq!(shifted.scale(6), 12);
    assert_eq!(shifted.scale(0), 0);
    assert_eq!(Encoder::new(5u64..15, 0u64..20).scale(3), 0);
}

#[test]
fn hex_addresses() {
    assert_eq!(j1939_address("0x1F".to_string()).ok(), Some(0x1F));
    assert_eq!(j1939_address("1f".to_string()).ok(), Some(0x1F));
    assert_eq!(j1939_address("0xfb".to_string()).ok(), Some(0xFB));
    assert_eq!(j1939_address("0x0x10".to_string()).ok(), Some(0x10));
    assert_eq!(j1939_address("00".to_string()).ok(), Some(0));
    assert_eq!(j1939_address("+a".to_string()).ok(), Some(10));
    assert_eq!(j1939_address("ff".to_string()).ok(), Some(255));
    assert!(j1939_address("100".to_string()).is_err());
    assert!(j1939_address("0x".to_string()).is_err());
    assert!(j1939_address("".to_string()).is_err());
    assert!(j1939_address("0X1f".to_string()).is_err());
    assert!(j1939_address(" 1f".to_string()).is_err());
    assert!(j1939_address("g".to_string()).is_err());
    assert_eq!(node_address("0x4A".to_string()).ok(), Some(0x4A));
    assert!(node_address("-1".to_string()).is_err());
}

#[test]
fn answers_ignore_unicode_white_space() {
    assert_eq!(string_to_bool("\u{3000}Yes\t\n"), Ok(true));
    assert_eq!(string_to_bool("\u{a0}off\u{2009}"), Ok(false));
    assert_eq!(string_to_bool("o n"), Err(()));
}
