use keypad::engine::event_loop;
use keypad::engine::handle_press;
use keypad::gamepad::ButtonState;
use keypad::gamepad::EventRecord;
use keypad::gamepad::LeftStickAction;
use keypad::gamepad::GamepadButton;
use keypad::gamepad::GamepadFd;
use keypad::gamepad::StickAxisState;
use keypad::gamepad::ABS_Y;
use keypad::gamepad::BTN_A;
use keypad::gamepad::EV_ABS;
use keypad::gamepad::EV_KEY;
use keypad::gamepad::EV_SYN;
use keypad::gamepad::KEY_ENTER;
use keypad::gamepad::KEY_S;
use keypad::gamepad::KEY_SPACE;
use keypad::gamepad::KEY_W;

fn key_record(key: i32, value: i32) -> EventRecord {
    EventRecord { kind: EV_KEY, code: key as u16, value }
}

#[test]
fn scenario_press_w_drives_vertical_low() {
    let mut pad = GamepadFd::new(3);
    let out = handle_press(&key_record(KEY_W, 1), &mut pad);
    assert_eq!(
        out,
        Some(EventRecord { kind: EV_ABS, code: ABS_Y, value: i16::MIN as i32 })
    );
}

#[test]
fn scenario_opposite_press_cancels_to_zero() {
    let mut pad = GamepadFd::new(3);
    handle_press(&key_record(KEY_W, 1), &mut pad);
    // S pressed while W is still logically held: Low meets High, cancels.
    let out = handle_press(&key_record(KEY_S, 1), &mut pad);
    assert_eq!(out, Some(EventRecord { kind: EV_ABS, code: ABS_Y, value: 0 }));
}

#[test]
fn scenario_release_goes_neutral_from_any_state() {
    for presses in [vec![], vec![KEY_W], vec![KEY_S], vec![KEY_W, KEY_S]] {
        let mut pad = GamepadFd::new(3);
        for key in presses {
            handle_press(&key_record(key, 1), &mut pad);
        }
        let out = handle_press(&key_record(KEY_W, 0), &mut pad);
        assert_eq!(out, Some(EventRecord { kind: EV_ABS, code: ABS_Y, value: 0 }));
    }
}

#[test]
fn scenario_aliased_buttons_emit_identical_records() {
    let mut pad = GamepadFd::new(3);
    let first = handle_press(&key_record(KEY_SPACE, 1), &mut pad);
    let second = handle_press(&key_record(KEY_ENTER, 1), &mut pad);
    let expected = EventRecord { kind: EV_KEY, code: BTN_A, value: 1 };
    // Both records are emitted and identical: no deduplication.
    assert_eq!(first, Some(expected));
    assert_eq!(second, Some(expected));
}

#[test]
fn non_key_records_are_ignored() {
    let mut pad = GamepadFd::new(3);
    let out = handle_press(&EventRecord { kind: EV_SYN, code: 0, value: 0 }, &mut pad);
    assert_eq!(out, None);
    let out = handle_press(&EventRecord { kind: EV_ABS, code: 0, value: 77 }, &mut pad);
    assert_eq!(out, None);
}

#[test]
fn unmapped_keys_are_silently_ignored() {
    let mut pad = GamepadFd::new(3);
    assert_eq!(handle_press(&key_record(999, 1), &mut pad), None);
    assert_eq!(handle_press(&key_record(0, 0), &mut pad), None);
}

#[test]
fn stick_repeats_are_not_forwarded() {
    let mut pad = GamepadFd::new(3);
    handle_press(&key_record(KEY_W, 1), &mut pad);
    assert_eq!(handle_press(&key_record(KEY_W, 2), &mut pad), None);
}

#[test]
fn drain_cycle_emits_one_trailing_sync() {
    let mut pad = GamepadFd::new(3);
    let batch = vec![
        key_record(KEY_W, 1),                            // vertical Low
        key_record(999, 1),                              // unmapped, dropped
        key_record(KEY_SPACE, 1),                        // button A press
        EventRecord { kind: EV_ABS, code: 0, value: 9 }, // not a key record
        key_record(KEY_S, 1),                            // cancels vertical
    ];
    let out = event_loop(&batch, &mut pad);
    assert_eq!(
        out,
        vec![
            EventRecord { kind: EV_ABS, code: ABS_Y, value: i16::MIN as i32 },
            EventRecord { kind: EV_KEY, code: BTN_A, value: 1 },
            EventRecord { kind: EV_ABS, code: ABS_Y, value: 0 },
            EventRecord { kind: EV_SYN, code: 0, value: 0 },
        ]
    );
    // Exactly one sync marker, and it comes last.
    assert_eq!(out.iter().filter(|r| r.kind == EV_SYN).count(), 1);
    assert_eq!(out.last().unwrap().kind, EV_SYN);
}

#[test]
fn empty_drain_cycle_still_syncs_once() {
    let mut pad = GamepadFd::new(3);
    let out = event_loop(&vec![], &mut pad);
    assert_eq!(out, vec![EventRecord { kind: EV_SYN, code: 0, value: 0 }]);
}

#[test]
fn sink_starts_neutral_and_keeps_its_descriptor() {
    let pad = GamepadFd::new(42);
    assert_eq!(pad.fd(), 42);
    let mut pad = pad;
    // A fresh sink reports zero for a neutral-directive release.
    let out = handle_press(&key_record(KEY_W, 0), &mut pad);
    assert_eq!(out, Some(EventRecord { kind: EV_ABS, code: ABS_Y, value: 0 }));
    assert_eq!(pad.fd(), 42);
}

#[test]
fn button_actions_do_not_move_the_stick() {
    let mut pad = GamepadFd::new(3);
    handle_press(&key_record(KEY_W, 1), &mut pad);
    let rec = pad.button_action(GamepadButton::B, ButtonState::Release);
    assert_eq!(rec, EventRecord { kind: EV_KEY, code: 0x131, value: 0 });
    // The vertical axis still holds Low: a release of W reports the
    // cancellation from Low, not from Neutral.
    let out = handle_press(&key_record(KEY_S, 1), &mut pad);
    assert_eq!(out, Some(EventRecord { kind: EV_ABS, code: ABS_Y, value: 0 }));
}

#[test]
fn stick_action_reports_the_new_level() {
    let mut pad = GamepadFd::new(3);
    let rec = pad.stick_action(LeftStickAction::X(StickAxisState::High));
    assert_eq!(
        rec,
        EventRecord { kind: EV_ABS, code: keypad::gamepad::ABS_X, value: i16::MAX as i32 }
    );
    let rec = pad.stick_action(LeftStickAction::X(StickAxisState::Low));
    assert_eq!(rec, EventRecord { kind: EV_ABS, code: keypad::gamepad::ABS_X, value: 0 });
}

#[test]
fn keyboard_handle_carries_its_descriptor() {
    let kb = keypad::keyboard::KeyboardFd::new(7);
    assert_eq!(kb.fd(), 7);
}
