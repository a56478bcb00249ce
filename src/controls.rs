//! The mapping from a DJ controller's MIDI messages to turntable events.
//!
//! The jog wheel's touch sensor catches and releases the vinyl, its rotation
//! sends impulses, two buttons toggle play and cue, and the tempo fader with
//! its fine control sets the tempo.
use crate::fixed::{map_range, map_range_spec};
use midly::{live::LiveEvent, MidiMessage};
use crate::turntable::{CueAction, Turntable, TurntableState};
use vstd::prelude::*;

verus! {

/// Note of the jog wheel's touch sensor.
pub const JOG_TOUCH_KEY: u8 = 54;

/// Note of the play button.
pub const PLAY_KEY: u8 = 11;

/// Note of the cue button.
pub const CUE_KEY: u8 = 12;

/// Velocity of a press.
pub const PRESSED: u8 = 127;

/// Velocity of a release.
pub const RELEASED: u8 = 0;

/// Controller of the tempo fader.
pub const TEMPO_FADER: u8 = 0;

/// Controller of the fine tempo control.
pub const FINE_TEMPO: u8 = 32;

/// Controller of the jog wheel's rotation.
pub const JOG_WHEEL: u8 = 34;

/// Jog wheel value of one step forward.
pub const JOG_FORWARD: u8 = 65;

/// Jog wheel value of one step backward.
pub const JOG_BACKWARD: u8 = 63;

/// Largest value of a controller.
pub const CONTROLLER_MAX: i64 = 127;

/// Tempo at the fader's low end (0.92).
pub const TEMPO_LOW: i64 = 920_000;

/// Tempo at the fader's high end (1.08).
pub const TEMPO_HIGH: i64 = 1_080_000;

/// Largest tempo nudge of the fine control (0.001).
pub const FINE_TEMPO_MAX: i64 = 1_000;

/// A MIDI message, as far as the turntable reads it.
#[derive(PartialEq, Eq, Structural, Debug, Clone, Copy)]
pub enum ControlMessage {
    NoteOn { channel: u8, key: u8, vel: u8 },
    Controller { channel: u8, controller: u8, value: u8 },
    /// Any other message, or bytes that are no message.
    Other,
}

/// The message that the bytes `b` of one live MIDI event hold: a note-on or
/// controller change has a status byte `0x9n` or `0xBn` for channel `n`,
/// then two data bytes below `0x80`.
pub open spec fn control_message_of(b: Seq<u8>) -> ControlMessage {
    if b.len() >= 3 && b[1] < 0x80 && b[2] < 0x80 && 0x90 <= b[0] <= 0x9F {
        ControlMessage::NoteOn { channel: (b[0] - 0x90) as u8, key: b[1], vel: b[2] }
    } else if b.len() >= 3 && b[1] < 0x80 && b[2] < 0x80 && 0xB0 <= b[0] <= 0xBF {
        ControlMessage::Controller { channel: (b[0] - 0xB0) as u8, controller: b[1], value: b[2] }
    } else {
        ControlMessage::Other
    }
}

/// Relies on midly::live::LiveEvent::parse: a status byte `0x80..=0xEF` is a
/// channel message whose data bytes are those before the first byte above
/// `0x7F`, two of them for a note-on (`0x9n`) or a controller change
/// (`0xBn`); too few is an error. Any other status is no channel message.
#[verifier::external_body]
fn decode_message(bytes: &[u8]) -> (r: ControlMessage)
    ensures
        r == control_message_of(bytes@),
{
    match LiveEvent::parse(bytes) {
        Ok(LiveEvent::Midi { channel, message: MidiMessage::NoteOn { key, vel } }) =>
            ControlMessage::NoteOn { channel: channel.as_int(), key: key.as_int(), vel: vel.as_int() },
        Ok(LiveEvent::Midi { channel, message: MidiMessage::Controller { controller, value } }) =>
            ControlMessage::Controller { channel: channel.as_int(), controller: controller.as_int(), value: value.as_int() },
        _ => ControlMessage::Other,
    }
}

/// The tempo that the fader sets at `value`.
pub open spec fn fader_tempo(value: u8) -> int {
    map_range_spec(value as int, 0, CONTROLLER_MAX as int, TEMPO_LOW as int, TEMPO_HIGH as int)
}

/// `tempo` raised by the fine control at `value`, held at `i64::MAX`.
pub open spec fn nudged_tempo(tempo: i64, value: u8) -> i64 {
    let t = tempo + map_range_spec(value as int, 0, CONTROLLER_MAX as int, 0, FINE_TEMPO_MAX as int);
    if t > i64::MAX {
        i64::MAX
    } else {
        t as i64
    }
}

/// The state after `msg`, with the audio sink at `position`. Controller
/// values above 127, which no MIDI message carries, change nothing.
pub open spec fn handled(s: TurntableState, msg: ControlMessage, position: i64) -> TurntableState {
    match msg {
        ControlMessage::NoteOn { channel, key, vel } => {
            if key == JOG_TOUCH_KEY && vel == RELEASED {
                s.released()
            } else if key == JOG_TOUCH_KEY && vel == PRESSED {
                s.caught()
            } else if key == PLAY_KEY && vel == PRESSED {
                s.toggled()
            } else if key == CUE_KEY && vel == PRESSED {
                s.cued(position)
            } else {
                s
            }
        },
        ControlMessage::Controller { channel, controller, value } => {
            if channel != 0 || value > CONTROLLER_MAX {
                s
            } else if controller == TEMPO_FADER {
                s.with_tempo(fader_tempo(value) as i64)
            } else if controller == FINE_TEMPO {
                s.with_tempo(nudged_tempo(s.tempo, value))
            } else if controller == JOG_WHEEL && value == JOG_FORWARD {
                s.clockwise()
            } else if controller == JOG_WHEEL && value == JOG_BACKWARD {
                s.counterclockwise()
            } else {
                s
            }
        },
        ControlMessage::Other => s,
    }
}

/// What `msg` asks of the audio sink at `position`: a cue action where it
/// presses the cue button, else nothing.
pub open spec fn handled_action(s: TurntableState, msg: ControlMessage, position: i64) -> Option<
    CueAction,
> {
    match msg {
        ControlMessage::NoteOn { channel, key, vel } => {
            if key == CUE_KEY && vel == PRESSED {
                Some(s.cue_action(position))
            } else {
                None
            }
        },
        _ => None,
    }
}

/// Applies one decoded message to the turntable. `position` is the audio
/// sink's current position, read by the caller; a cue press returns what to
/// do with it.
pub fn handle_message(msg: ControlMessage, turntable: &mut Turntable, position: i64) -> (r: Option<
    CueAction,
>)
    ensures
        final(turntable)@ == handled(old(turntable)@, msg, position),
        r == handled_action(old(turntable)@, msg, position),
{
    match msg {
        ControlMessage::NoteOn { channel, key, vel } => {
            if key == JOG_TOUCH_KEY && vel == RELEASED {
                turntable.release_vinyl();
            } else if key == JOG_TOUCH_KEY && vel == PRESSED {
                turntable.catch_vinyl();
            } else if key == PLAY_KEY && vel == PRESSED {
                turntable.toggle_play();
            } else if key == CUE_KEY && vel == PRESSED {
                return Some(turntable.cue(position));
            }
            None
        },
        ControlMessage::Controller { channel, controller, value } => {
            if channel != 0 || value as i64 > CONTROLLER_MAX {
                return None;
            }
            if controller == TEMPO_FADER {
                let tempo: i64 = map_range(value as i64, 0, CONTROLLER_MAX, TEMPO_LOW, TEMPO_HIGH);
                turntable.set_tempo(tempo);
            } else if controller == FINE_TEMPO {
                let nudge: i64 = map_range(value as i64, 0, CONTROLLER_MAX, 0, FINE_TEMPO_MAX);
                let tempo: i64 = turntable.tempo();
                let t: i64 = if tempo > i64::MAX - nudge {
                    i64::MAX
                } else {
                    tempo + nudge
                };
                turntable.set_tempo(t);
            } else if controller == JOG_WHEEL && value == JOG_FORWARD {
                turntable.impulse_vinyl_clockwise();
            } else if controller == JOG_WHEEL && value == JOG_BACKWARD {
                turntable.impulse_vinyl_counterclockwise();
            }
            None
        },
        ControlMessage::Other => None,
    }
}

/// Decodes the bytes of one live MIDI event and applies it to the turntable;
/// bytes that are no message the turntable reads are dropped.
pub fn on_midi(event: &[u8], turntable: &mut Turntable, position: i64) -> (r: Option<CueAction>)
    ensures
        final(turntable)@ == handled(old(turntable)@, control_message_of(event@), position),
        r == handled_action(old(turntable)@, control_message_of(event@), position),
{
    let msg: ControlMessage = decode_message(event);
    handle_message(msg, turntable, position)
}

} // verus!
