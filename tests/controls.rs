use dj_turntable::{handle_message, on_midi, ControlMessage, CueAction, Turntable};

#[test]
fn jog_touch_catches_and_releases() {
    let mut t = Turntable::new();
    assert_eq!(on_midi(&[0x90, 54, 127], &mut t, 0), None);
    assert!(t.is_vinyl_locked());
    assert_eq!(t.vinyl_speed(), 0);
    assert_eq!(on_midi(&[0x90, 54, 0], &mut t, 0), None);
    assert!(!t.is_vinyl_locked());
    assert_eq!(t.vinyl_speed(), 1_000_000);
}

#[test]
fn touch_on_another_channel_counts() {
    let mut t = Turntable::new();
    on_midi(&[0x93, 54, 127], &mut t, 0);
    assert!(t.is_vinyl_locked());
}

#[test]
fn play_button_toggles() {
    let mut t = Turntable::new();
    on_midi(&[0x90, 11, 127], &mut t, 0);
    assert!(!t.is_playing());
    on_midi(&[0x90, 11, 0], &mut t, 0);
    assert!(!t.is_playing());
    on_midi(&[0x90, 11, 127], &mut t, 0);
    assert!(t.is_playing());
}

#[test]
fn cue_button_captures_then_seeks() {
    let mut t = Turntable::new();
    on_midi(&[0x90, 54, 127], &mut t, 0);
    assert_eq!(on_midi(&[0x90, 12, 127], &mut t, 2_500_000), Some(CueAction::Captured(2_500_000)));
    on_midi(&[0x90, 54, 0], &mut t, 0);
    assert_eq!(on_midi(&[0x90, 12, 127], &mut t, 9_000_000), Some(CueAction::SeekTo(2_500_000)));
}

#[test]
fn tempo_fader_maps_range() {
    let mut t = Turntable::new();
    on_midi(&[0xB0, 0, 0], &mut t, 0);
    assert_eq!(t.tempo(), 920_000);
    on_midi(&[0xB0, 0, 127], &mut t, 0);
    assert_eq!(t.tempo(), 1_080_000);
    on_midi(&[0xB0, 0, 64], &mut t, 0);
    assert_eq!(t.tempo(), 1_000_629);
}

#[test]
fn fine_tempo_nudges() {
    let mut t = Turntable::new();
    on_midi(&[0xB0, 32, 127], &mut t, 0);
    assert_eq!(t.tempo(), 1_001_000);
    on_midi(&[0xB0, 32, 64], &mut t, 0);
    assert_eq!(t.tempo(), 1_001_503);
}

#[test]
fn fine_tempo_saturates() {
    let mut t = Turntable::new();
    t.set_tempo(i64::MAX - 10);
    on_midi(&[0xB0, 32, 127], &mut t, 0);
    assert_eq!(t.tempo(), i64::MAX);
}

#[test]
fn jog_wheel_sends_impulses() {
    let mut t = Turntable::new();
    on_midi(&[0xB0, 34, 65], &mut t, 0);
    on_midi(&[0xB0, 34, 65], &mut t, 0);
    on_midi(&[0xB0, 34, 63], &mut t, 0);
    on_midi(&[0xB0, 34, 64], &mut t, 0);
    assert_eq!(t.cumulative_impulse(), 1);
}

#[test]
fn controller_on_other_channel_ignored() {
    let mut t = Turntable::new();
    on_midi(&[0xB1, 0, 0], &mut t, 0);
    on_midi(&[0xB1, 34, 65], &mut t, 0);
    assert_eq!(t.tempo(), 1_000_000);
    assert_eq!(t.cumulative_impulse(), 0);
}

#[test]
fn malformed_messages_dropped() {
    let mut t = Turntable::new();
    assert_eq!(on_midi(&[], &mut t, 0), None);
    assert_eq!(on_midi(&[0x90, 54], &mut t, 0), None);
    assert_eq!(on_midi(&[0x90, 54, 0xFF], &mut t, 0), None);
    assert_eq!(on_midi(&[0x80, 54, 127], &mut t, 0), None);
    assert!(!t.is_vinyl_locked());
    assert!(t.is_playing());
}

#[test]
fn handle_message_direct() {
    let mut t = Turntable::new();
    let m = ControlMessage::Controller { channel: 0, controller: 34, value: 63 };
    assert_eq!(handle_message(m, &mut t, 0), None);
    assert_eq!(t.cumulative_impulse(), -1);
    let n = ControlMessage::NoteOn { channel: 0, key: 12, vel: 127 };
    assert_eq!(handle_message(n, &mut t, 7), Some(CueAction::SeekTo(0)));
    assert_eq!(handle_message(ControlMessage::Other, &mut t, 7), None);
}
