//! The turntable's physical-motion state machine.
//!
//! Events (hand contact, impulses, transport, tempo, cue) change the state;
//! `tick` advances the simulation by the time elapsed since the previous tick
//! and yields the speed to hand to the audio sink.
//!
//! The audio sink and the clock stay with the caller: `cue` takes the sink's
//! current position and says what to do with it, `tick` takes the current
//! time in microseconds of a monotonic clock and returns the new speed.
use crate::fixed::{lerp, lerp_spec, rotation_speed, rotation_speed_of, SCALE};
use vstd::prelude::*;

verus! {

/// Impulses that make one full rotation of the vinyl.
pub const IMPULSES_PER_ROTATION: u64 = 500;

/// Share of the remaining distance to the target speed covered by one tick
/// (0.3).
pub const DEFAULT_TORQUE: i64 = 300_000;

/// What `cue` asks of the audio sink.
#[derive(PartialEq, Eq, Structural, Debug, Clone, Copy)]
pub enum CueAction {
    /// The vinyl was held: the sink's position was stored as the cue point.
    Captured(i64),
    /// The vinyl was free: the sink is to seek to the stored cue point.
    SeekTo(i64),
}

impl CueAction {
    pub open spec fn spec_position(self) -> i64 {
        match self {
            CueAction::Captured(p) => p,
            CueAction::SeekTo(p) => p,
        }
    }

    /// The cue point that the action carries.
    pub fn position(&self) -> (r: i64)
        ensures
            r == self.spec_position(),
    {
        match self {
            CueAction::Captured(p) => *p,
            CueAction::SeekTo(p) => *p,
        }
    }
}

/// The state of a turntable, as contracts speak of it.
pub struct TurntableState {
    pub tempo: i64,
    pub vinyl_speed: i64,
    pub vinyl_lock: bool,
    pub speed: i64,
    pub torque: i64,
    pub impulses_per_rotation: u64,
    pub cumulative_impulse: i64,
    pub last_tick_timestamp: u64,
    pub play: bool,
    pub cue: i64,
}

impl TurntableState {
    /// Torque in `(0, 1]`, at least one impulse per rotation.
    pub open spec fn wf(self) -> bool {
        0 < self.torque <= SCALE && self.impulses_per_rotation > 0
    }

    /// A hand touches the vinyl: it is held, and stands still.
    pub open spec fn caught(self) -> TurntableState {
        TurntableState { vinyl_lock: true, vinyl_speed: 0, ..self }
    }

    /// The hand leaves the vinyl: it is free, and turns at the tempo.
    pub open spec fn released(self) -> TurntableState {
        TurntableState { vinyl_lock: false, vinyl_speed: self.tempo, ..self }
    }

    /// One impulse forward, held at `i64::MAX`.
    pub open spec fn clockwise(self) -> TurntableState {
        TurntableState {
            cumulative_impulse: if self.cumulative_impulse < i64::MAX {
                (self.cumulative_impulse + 1) as i64
            } else {
                self.cumulative_impulse
            },
            ..self
        }
    }

    /// One impulse backward, held at `i64::MIN`.
    pub open spec fn counterclockwise(self) -> TurntableState {
        TurntableState {
            cumulative_impulse: if self.cumulative_impulse > i64::MIN {
                (self.cumulative_impulse - 1) as i64
            } else {
                self.cumulative_impulse
            },
            ..self
        }
    }

    pub open spec fn toggled(self) -> TurntableState {
        TurntableState { play: !self.play, ..self }
    }

    pub open spec fn with_tempo(self, tempo: i64) -> TurntableState {
        TurntableState { tempo, ..self }
    }

    /// Speed that a free vinyl moves toward: the tempo while playing, else 0.
    pub open spec fn target(self) -> i64 {
        if self.play {
            self.tempo
        } else {
            0
        }
    }

    /// The vinyl speed after a tick at `now`: the speed of the impulses
    /// gathered since the last tick, or the old vinyl speed where no time has
    /// passed.
    pub open spec fn next_vinyl_speed(self, now: u64) -> i64 {
        if now > self.last_tick_timestamp {
            rotation_speed(
                self.cumulative_impulse as int,
                self.impulses_per_rotation as int,
                now - self.last_tick_timestamp,
            ) as i64
        } else {
            self.vinyl_speed
        }
    }

    /// The output speed after a tick at `now`: the vinyl speed while held,
    /// else one step of `torque` from the speed toward the target.
    pub open spec fn next_speed(self, now: u64) -> i64 {
        if self.vinyl_lock {
            self.next_vinyl_speed(now)
        } else {
            lerp_spec(self.speed as int, self.target() as int, self.torque as int) as i64
        }
    }

    /// The state after a tick at `now`.
    pub open spec fn ticked(self, now: u64) -> TurntableState {
        TurntableState {
            vinyl_speed: self.next_vinyl_speed(now),
            speed: self.next_speed(now),
            cumulative_impulse: 0,
            last_tick_timestamp: if now > self.last_tick_timestamp {
                now
            } else {
                self.last_tick_timestamp
            },
            ..self
        }
    }

    /// What `cue` returns when the sink stands at `position`.
    pub open spec fn cue_action(self, position: i64) -> CueAction {
        if self.vinyl_lock {
            CueAction::Captured(position)
        } else {
            CueAction::SeekTo(self.cue)
        }
    }

    /// The state after `cue` when the sink stands at `position`.
    pub open spec fn cued(self, position: i64) -> TurntableState {
        if self.vinyl_lock {
            TurntableState { cue: position, ..self }
        } else {
            self
        }
    }
}

/// A simulated turntable.
pub struct Turntable {
    tempo: i64,
    vinyl_speed: i64,
    vinyl_lock: bool,
    speed: i64,
    torque: i64,
    impulses_per_rotation: u64,
    cumulative_impulse: i64,
    last_tick_timestamp: u64,
    play: bool,
    cue: i64,
}

impl View for Turntable {
    type V = TurntableState;

    closed spec fn view(&self) -> TurntableState {
        TurntableState {
            tempo: self.tempo,
            vinyl_speed: self.vinyl_speed,
            vinyl_lock: self.vinyl_lock,
            speed: self.speed,
            torque: self.torque,
            impulses_per_rotation: self.impulses_per_rotation,
            cumulative_impulse: self.cumulative_impulse,
            last_tick_timestamp: self.last_tick_timestamp,
            play: self.play,
            cue: self.cue,
        }
    }
}

impl Turntable {
    /// Torque in `(0, 1]`, at least one impulse per rotation.
    #[verifier::type_invariant]
    spec fn inv(&self) -> bool {
        self@.wf()
    }

    /// A turntable at rest on its defaults: tempo and speed 1.0, torque 0.3,
    /// 500 impulses per rotation, playing, free, cue point 0, last tick at
    /// time 0.
    pub fn new() -> (r: Turntable)
        ensures
            r@ == (TurntableState {
                tempo: SCALE,
                vinyl_speed: SCALE,
                vinyl_lock: false,
                speed: SCALE,
                torque: DEFAULT_TORQUE,
                impulses_per_rotation: IMPULSES_PER_ROTATION,
                cumulative_impulse: 0,
                last_tick_timestamp: 0,
                play: true,
                cue: 0,
            }),
            r@.wf(),
    {
        Turntable {
            tempo: SCALE,
            vinyl_speed: SCALE,
            vinyl_lock: false,
            speed: SCALE,
            torque: DEFAULT_TORQUE,
            impulses_per_rotation: IMPULSES_PER_ROTATION,
            cumulative_impulse: 0,
            last_tick_timestamp: 0,
            play: true,
            cue: 0,
        }
    }

    pub fn catch_vinyl(&mut self)
        ensures
            final(self)@ == old(self)@.caught(),
            final(self)@.vinyl_lock,
            final(self)@.vinyl_speed == 0,
    {
        proof {
            use_type_invariant(&*self);
        }
        self.vinyl_speed = 0;
        self.vinyl_lock = true;
    }

    pub fn release_vinyl(&mut self)
        ensures
            final(self)@ == old(self)@.released(),
            !final(self)@.vinyl_lock,
            final(self)@.vinyl_speed == old(self)@.tempo,
    {
        proof {
            use_type_invariant(&*self);
        }
        self.vinyl_speed = self.tempo;
        self.vinyl_lock = false;
    }

    pub fn impulse_vinyl_clockwise(&mut self)
        ensures
            final(self)@ == old(self)@.clockwise(),
    {
        proof {
            use_type_invariant(&*self);
        }
        if self.cumulative_impulse < i64::MAX {
            self.cumulative_impulse = self.cumulative_impulse + 1;
        }
    }

    pub fn impulse_vinyl_counterclockwise(&mut self)
        ensures
            final(self)@ == old(self)@.counterclockwise(),
    {
        proof {
            use_type_invariant(&*self);
        }
        if self.cumulative_impulse > i64::MIN {
            self.cumulative_impulse = self.cumulative_impulse - 1;
        }
    }

    pub fn toggle_play(&mut self)
        ensures
            final(self)@ == old(self)@.toggled(),
    {
        proof {
            use_type_invariant(&*self);
        }
        self.play = !self.play;
    }

    /// Sets the tempo, unclamped.
    pub fn set_tempo(&mut self, tempo: i64)
        ensures
            final(self)@ == old(self)@.with_tempo(tempo),
    {
        proof {
            use_type_invariant(&*self);
        }
        self.tempo = tempo;
    }

    /// With the vinyl held, stores the sink's `position` as the cue point;
    /// with it free, asks the sink to seek to the cue point. Either way the
    /// action carries the cue point.
    pub fn cue(&mut self, position: i64) -> (r: CueAction)
        ensures
            final(self)@ == old(self)@.cued(position),
            r == old(self)@.cue_action(position),
            r.spec_position() == final(self)@.cue,
    {
        proof {
            use_type_invariant(&*self);
        }
        if self.vinyl_lock {
            self.cue = position;
            return CueAction::Captured(self.cue);
        }
        CueAction::SeekTo(self.cue)
    }

    /// Advances the simulation to `now` (microseconds) and returns the speed
    /// to hand to the audio sink. Impulses gathered since the last tick are
    /// consumed. Where no time has passed since the last tick, the vinyl speed
    /// is left as it was rather than divided by zero; a clock that went back
    /// leaves the last tick's time as it was.
    pub fn tick(&mut self, now: u64) -> (r: i64)
        ensures
            final(self)@ == old(self)@.ticked(now),
            r == final(self)@.speed,
            final(self)@.cumulative_impulse == 0,
            final(self)@.last_tick_timestamp >= old(self)@.last_tick_timestamp,
            final(self)@.last_tick_timestamp >= now,
    {
        proof {
            use_type_invariant(&*self);
        }
        if now > self.last_tick_timestamp {
            let dt: u64 = now - self.last_tick_timestamp;
            self.vinyl_speed = rotation_speed_of(self.cumulative_impulse, self.impulses_per_rotation, dt);
            self.last_tick_timestamp = now;
        }
        if self.vinyl_lock {
            self.speed = self.vinyl_speed;
        } else {
            let target: i64 = if self.play {
                self.tempo
            } else {
                0
            };
            self.speed = lerp(self.speed, target, self.torque);
        }
        self.cumulative_impulse = 0;
        self.speed
    }

    pub fn tempo(&self) -> (r: i64)
        ensures
            r == self@.tempo,
    {
        self.tempo
    }

    pub fn speed(&self) -> (r: i64)
        ensures
            r == self@.speed,
    {
        self.speed
    }

    pub fn vinyl_speed(&self) -> (r: i64)
        ensures
            r == self@.vinyl_speed,
    {
        self.vinyl_speed
    }

    pub fn is_vinyl_locked(&self) -> (r: bool)
        ensures
            r == self@.vinyl_lock,
    {
        self.vinyl_lock
    }

    /// The torque, in `(0, 1]`.
    pub fn torque(&self) -> (r: i64)
        ensures
            r == self@.torque,
            0 < r <= SCALE,
    {
        proof {
            use_type_invariant(self);
        }
        self.torque
    }

    /// Impulses to one rotation, at least one.
    pub fn impulses_per_rotation(&self) -> (r: u64)
        ensures
            r == self@.impulses_per_rotation,
            r > 0,
    {
        proof {
            use_type_invariant(self);
        }
        self.impulses_per_rotation
    }

    pub fn cumulative_impulse(&self) -> (r: i64)
        ensures
            r == self@.cumulative_impulse,
    {
        self.cumulative_impulse
    }

    pub fn last_tick_timestamp(&self) -> (r: u64)
        ensures
            r == self@.last_tick_timestamp,
    {
        self.last_tick_timestamp
    }

    pub fn is_playing(&self) -> (r: bool)
        ensures
            r == self@.play,
    {
        self.play
    }

    pub fn cue_point(&self) -> (r: i64)
        ensures
            r == self@.cue,
    {
        self.cue
    }
}

} // verus!
