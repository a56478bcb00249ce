//! Laws that relate the turntable's operations to one another.
use crate::fixed::{abs, lerp_spec, trunc_div, SCALE};
use crate::turntable::{CueAction, TurntableState};
use vstd::prelude::*;

verus! {

/// `s` after `n` clockwise impulses.
pub open spec fn clockwise_times(s: TurntableState, n: nat) -> TurntableState
    decreases n,
{
    if n == 0 {
        s
    } else {
        clockwise_times(s, (n - 1) as nat).clockwise()
    }
}

/// `s` after `n` counterclockwise impulses.
pub open spec fn counterclockwise_times(s: TurntableState, n: nat) -> TurntableState
    decreases n,
{
    if n == 0 {
        s
    } else {
        counterclockwise_times(s, (n - 1) as nat).counterclockwise()
    }
}

/// Catching the vinyl holds it still; releasing it afterwards frees it at the
/// tempo.
pub proof fn lemma_catch_then_release(s: TurntableState)
    ensures
        s.caught().vinyl_lock,
        s.caught().vinyl_speed == 0,
        !s.caught().released().vinyl_lock,
        s.caught().released().vinyl_speed == s.tempo,
{
}

proof fn lemma_clockwise_times(s: TurntableState, n: nat)
    requires
        s.cumulative_impulse + n <= i64::MAX,
    ensures
        clockwise_times(s, n).cumulative_impulse == s.cumulative_impulse + n,
    decreases n,
{
    if n > 0 {
        lemma_clockwise_times(s, (n - 1) as nat);
    }
}

proof fn lemma_counterclockwise_times(s: TurntableState, m: nat)
    requires
        s.cumulative_impulse - m >= i64::MIN,
    ensures
        counterclockwise_times(s, m).cumulative_impulse == s.cumulative_impulse - m,
    decreases m,
{
    if m > 0 {
        lemma_counterclockwise_times(s, (m - 1) as nat);
    }
}

/// `n` clockwise impulses and then `m` counterclockwise ones add `n - m` to
/// the impulses gathered, so long as the count stays within `i64`.
pub proof fn lemma_impulse_accumulation(s: TurntableState, n: nat, m: nat)
    requires
        s.cumulative_impulse + n <= i64::MAX,
        s.cumulative_impulse + n - m >= i64::MIN,
    ensures
        counterclockwise_times(clockwise_times(s, n), m).cumulative_impulse
            == s.cumulative_impulse + n - m,
{
    lemma_clockwise_times(s, n);
    lemma_counterclockwise_times(clockwise_times(s, n), m);
}

/// Every tick leaves no impulse gathered, held or free.
pub proof fn lemma_tick_consumes_impulses(s: TurntableState, now: u64)
    ensures
        s.ticked(now).cumulative_impulse == 0,
{
}

/// While held, a tick drives the speed directly by the vinyl speed.
pub proof fn lemma_direct_drive(s: TurntableState, now: u64)
    requires
        s.vinyl_lock,
    ensures
        s.ticked(now).speed == s.ticked(now).vinyl_speed,
{
}

/// While free and paused, a tick scales the speed by `1 - torque`, up to the
/// rounding of one fixed-point unit; exactly where `speed * torque` is a
/// whole number of units.
pub proof fn lemma_paused_decay(s: TurntableState, now: u64)
    requires
        s.wf(),
        !s.vinyl_lock,
        !s.play,
    ensures
        abs(s.ticked(now).speed * SCALE - s.speed * (SCALE - s.torque)) < SCALE,
        (s.speed * s.torque) % (SCALE as int) == 0 ==> s.ticked(now).speed * SCALE == s.speed * (
        SCALE - s.torque),
{
    let a = s.speed as int;
    let t = s.torque as int;
    let x = (0 - a) * t;
    let q = trunc_div(x, SCALE as int);
    let r = lerp_spec(a, 0, t);
    assert(r == a + q);
    // The result stays between the speed and 0, so the cast keeps it.
    assert(abs(x) <= abs(a) * SCALE) by (nonlinear_arith)
        requires
            x == (0 - a) * t,
            0 < t <= SCALE,
    ;
    assert(abs(q) <= abs(a) && (a >= 0 ==> q <= 0) && (a <= 0 ==> q >= 0)) by (nonlinear_arith)
        requires
            q == trunc_div(x, SCALE as int),
            abs(x) <= abs(a) * SCALE,
            x == (0 - a) * t,
            0 < t,
    ;
    assert(s.ticked(now).speed == r);
    assert(abs(r * SCALE - a * (SCALE - t)) < SCALE && (a * t % (SCALE as int) == 0 ==> r * SCALE == a
        * (SCALE - t))) by (nonlinear_arith)
        requires
            r == a + q,
            q == trunc_div(x, SCALE as int),
            x == (0 - a) * t,
    ;
}

/// Cueing while held stores the sink's position `p`; releasing and cueing
/// again seeks the sink back to `p`, whatever position it stands at then.
pub proof fn lemma_cue_round_trip(s: TurntableState, p: i64, q: i64)
    requires
        s.vinyl_lock,
    ensures
        s.cue_action(p) == CueAction::Captured(p),
        s.cued(p).cue == p,
        s.cued(p).released().cue_action(q) == CueAction::SeekTo(p),
        s.cued(p).released().cued(q).cue == p,
{
}

/// Toggling play twice gives back the state.
pub proof fn lemma_toggle_play_twice(s: TurntableState)
    ensures
        s.toggled().toggled() == s,
{
}

/// The time of the last tick never goes back, and it is the tick's time
/// where that time is not earlier.
pub proof fn lemma_tick_timestamp_monotonic(s: TurntableState, now: u64)
    ensures
        s.ticked(now).last_tick_timestamp >= s.last_tick_timestamp,
        now >= s.last_tick_timestamp ==> s.ticked(now).last_tick_timestamp == now,
{
}

} // verus!
