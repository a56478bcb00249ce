//! A vinyl turntable simulation: hand contact, rotational impulses, tempo and
//! transport combine, tick by tick, into one playback speed.
mod controls;
mod fixed;
pub mod laws;
mod turntable;

pub use controls::{handle_message, on_midi, ControlMessage};
pub use fixed::{lerp, map_range, rotation_speed_of, MICROS_PER_SECOND, SCALE};
pub use turntable::{CueAction, Turntable, TurntableState, DEFAULT_TORQUE, IMPULSES_PER_ROTATION};
