//! Configuration parsing and keyboard state transitions.

use sprite_engine::config::{parse_bool, Config};
use sprite_engine::input::{Input, InputKey};

#[test]
fn parse_bool_accepts_case_insensitive_literals() {
    assert!(parse_bool("true"));
    assert!(parse_bool("True"));
    assert!(parse_bool("TRUE"));
    assert!(parse_bool("1"));
    assert!(!parse_bool("false"));
    assert!(!parse_bool("FaLsE"));
    assert!(!parse_bool("0"));
}

#[test]
fn config_defaults_developer_mode_off() {
    assert!(!Config::new(None).developer_mode());
    assert!(Config::new(Some("true")).developer_mode());
    assert!(!Config::new(Some("0")).developer_mode());
}

#[test]
fn handle_event_tracks_movement_keys() {
    let mut input = Input::new();
    assert!(input.handle_event(InputKey::W, true));
    assert!(input.to_read_only().is_up_pressed());
    assert!(!input.to_read_only().is_down_pressed());

    assert!(input.handle_event(InputKey::Left, true));
    assert!(input.to_read_only().is_left_pressed());
    assert!(input.to_read_only().is_up_pressed());

    assert!(input.handle_event(InputKey::W, false));
    assert!(!input.to_read_only().is_up_pressed());
    assert!(input.to_read_only().is_left_pressed());

    assert!(input.handle_event(InputKey::S, true));
    assert!(input.to_read_only().is_down_pressed());
    assert!(input.handle_event(InputKey::Right, true));
    assert!(input.to_read_only().is_right_pressed());
}

#[test]
fn unrecognized_keys_are_not_handled() {
    let mut input = Input::new();
    assert!(!input.handle_event(InputKey::Other, true));
    let snapshot = input.to_read_only();
    assert!(!snapshot.is_up_pressed());
    assert!(!snapshot.is_down_pressed());
    assert!(!snapshot.is_left_pressed());
    assert!(!snapshot.is_right_pressed());
}
