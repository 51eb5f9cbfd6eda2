//! What holds of the turntable's motion over one frame or many.
use vstd::prelude::*;
use crate::action::{can_capture, find_id, first_capturable, hover_set};
use crate::fixed::{lemma_trunc_div_bound, trunc_div};
use crate::input::InputEvent;
use crate::turntable::{
    decay, motion_step, scroll_rotation, scroll_total, shade_matches, Motion, TurntableSettings,
    FULL,
};

verus! {

/// The motion after `n` frames that all see the snapshot `s`.
pub open spec fn run(
    m: Motion,
    dt: int,
    s: Seq<InputEvent>,
    settings: TurntableSettings,
    n: nat,
) -> Motion
    decreases n,
{
    if n == 0 {
        m
    } else {
        motion_step(run(m, dt, s, settings, (n - 1) as nat), dt, s, settings)
    }
}

/// The momentum after `n` frames of decay.
pub open spec fn decay_iter(m: int, n: nat) -> int
    decreases n,
{
    if n == 0 {
        m
    } else {
        decay(decay_iter(m, (n - 1) as nat))
    }
}

/// `b` to the power `n`.
pub open spec fn power(b: int, n: nat) -> int
    decreases n,
{
    if n == 0 {
        1
    } else {
        b * power(b, (n - 1) as nat)
    }
}

/// The scroll rotation of one frame with the snapshot `s`.
pub open spec fn frame_scroll(s: Seq<InputEvent>, settings: TurntableSettings) -> int {
    scroll_rotation(scroll_total(hover_set(s)), settings.scroll_multiplier as int)
}

proof fn lemma_none_capturable(s: Seq<InputEvent>, settings: TurntableSettings)
    requires
        forall|i: int| 0 <= i < s.len() ==> !can_capture(#[trigger] s[i], settings),
    ensures
        first_capturable(s, settings) is None,
    decreases s.len(),
{
    if s.len() > 0 {
        lemma_none_capturable(s.drop_last(), settings);
        assert(!can_capture(s[s.len() - 1], settings));
    }
}

/// With nothing captured, an idle frame decays the momentum, applies the
/// scroll of the hovering pointers and coasts on the decayed momentum; the
/// drag angle stays clear and no drag rotation is applied.
pub proof fn idle_frame(m: Motion, dt: int, s: Seq<InputEvent>, settings: TurntableSettings)
    requires
        m.actor is None,
        m.prev_angle is None,
        forall|i: int| 0 <= i < s.len() ==> !can_capture(#[trigger] s[i], settings),
    ensures
        motion_step(m, dt, s, settings).actor is None,
        motion_step(m, dt, s, settings).prev_angle is None,
        motion_step(m, dt, s, settings).momentum == decay(m.momentum),
        motion_step(m, dt, s, settings).rotation == m.rotation + frame_scroll(s, settings)
            + trunc_div(decay(m.momentum), dt),
{
    lemma_none_capturable(s, settings);
}

/// With no momentum and nothing to capture, every frame turns the turntable
/// by the same scroll rotation: after `n` frames the rotation has moved by
/// `n` times the scroll rotation of one frame.
pub proof fn scroll_accumulates(
    m: Motion,
    dt: int,
    s: Seq<InputEvent>,
    settings: TurntableSettings,
    n: nat,
)
    requires
        dt > 0,
        m.actor is None,
        m.prev_angle is None,
        m.momentum == 0,
        forall|i: int| 0 <= i < s.len() ==> !can_capture(#[trigger] s[i], settings),
    ensures
        run(m, dt, s, settings, n).rotation == m.rotation + n * frame_scroll(s, settings),
        run(m, dt, s, settings, n).momentum == 0,
        run(m, dt, s, settings, n).actor is None,
        run(m, dt, s, settings, n).prev_angle is None,
    decreases n,
{
    if n > 0 {
        let k = (n - 1) as nat;
        scroll_accumulates(m, dt, s, settings, k);
        let p = run(m, dt, s, settings, k);
        idle_frame(p, dt, s, settings);
        assert(decay(0) == 0);
        assert(trunc_div(0, dt) == 0);
        assert(m.rotation + k * frame_scroll(s, settings) + frame_scroll(s, settings) == m.rotation
            + n * frame_scroll(s, settings)) by (nonlinear_arith)
            requires
                k + 1 == n,
        ;
    }
}

/// While nothing is captured, the momentum after `n` frames is the starting
/// momentum decayed `n` times, and each frame coasts by the decayed momentum
/// divided by the frame time.
pub proof fn momentum_decays(
    m: Motion,
    dt: int,
    s: Seq<InputEvent>,
    settings: TurntableSettings,
    n: nat,
)
    requires
        m.actor is None,
        m.prev_angle is None,
        forall|i: int| 0 <= i < s.len() ==> !can_capture(#[trigger] s[i], settings),
    ensures
        run(m, dt, s, settings, n).momentum == decay_iter(m.momentum, n),
        run(m, dt, s, settings, n).actor is None,
        run(m, dt, s, settings, n).prev_angle is None,
        run(m, dt, s, settings, n + 1).rotation == run(m, dt, s, settings, n).rotation
            + frame_scroll(s, settings) + trunc_div(decay_iter(m.momentum, n + 1), dt),
    decreases n,
{
    if n > 0 {
        momentum_decays(m, dt, s, settings, (n - 1) as nat);
        idle_frame(run(m, dt, s, settings, (n - 1) as nat), dt, s, settings);
    }
    idle_frame(run(m, dt, s, settings, n), dt, s, settings);
}

/// Each decay keeps at most 49/50 of the momentum's magnitude, so after `n`
/// frames it is at most `0.98^n` of where it started.
pub proof fn decay_bound(m: int, n: nat)
    ensures
        m >= 0 ==> 0 <= power(50, n) * decay_iter(m, n) <= power(49, n) * m,
        m < 0 ==> power(49, n) * m <= power(50, n) * decay_iter(m, n) <= 0,
    decreases n,
{
    if n > 0 {
        let k = (n - 1) as nat;
        decay_bound(m, k);
        let a = decay_iter(m, k);
        let d = decay(a);
        lemma_trunc_div_bound(a * 49, 50);
        lemma_power_positive(50, k);
        lemma_power_positive(49, k);
        let p50 = power(50, k);
        let p49 = power(49, k);
        if m >= 0 {
            assert(0 <= a) by (nonlinear_arith)
                requires
                    0 <= p50 * a,
                    p50 > 0,
            ;
            assert(0 <= 50 * p50 * d <= 49 * p49 * m) by (nonlinear_arith)
                requires
                    0 <= p50 * a <= p49 * m,
                    0 <= d,
                    50 * d <= a * 49,
                    p50 > 0,
                    p49 > 0,
                    0 <= a,
            ;
        } else {
            assert(a <= 0) by (nonlinear_arith)
                requires
                    p50 * a <= 0,
                    p50 > 0,
            ;
            assert(49 * p49 * m <= 50 * p50 * d <= 0) by (nonlinear_arith)
                requires
                    p49 * m <= p50 * a <= 0,
                    d <= 0,
                    a * 49 <= 50 * d,
                    p50 > 0,
                    p49 > 0,
                    a <= 0,
            ;
        }
        assert(power(50, n) == 50 * p50);
        assert(power(49, n) == 49 * p49);
        assert(power(50, n) * d == 50 * p50 * d) by (nonlinear_arith)
            requires
                power(50, n) == 50 * p50,
        ;
        assert(power(49, n) * m == 49 * p49 * m) by (nonlinear_arith)
            requires
                power(49, n) == 49 * p49,
        ;
    }
}

proof fn lemma_power_positive(b: int, n: nat)
    requires
        b > 0,
    ensures
        power(b, n) > 0,
    decreases n,
{
    if n > 0 {
        lemma_power_positive(b, (n - 1) as nat);
        assert(b * power(b, (n - 1) as nat) > 0) by (nonlinear_arith)
            requires
                b > 0,
                power(b, (n - 1) as nat) > 0,
        ;
    }
}

/// While the same input stays captured with a drag angle on record, a frame
/// turns the turntable by the raw difference of the azimuths (previous minus
/// current, with no unwrapping at the seam), sets the momentum to that
/// difference times the frame time, and records the new azimuth.
pub proof fn drag_tracks_azimuth(
    m: Motion,
    dt: int,
    s: Seq<InputEvent>,
    settings: TurntableSettings,
    a: InputEvent,
    now: InputEvent,
    prev: int,
)
    requires
        m.actor == Some(a),
        m.prev_angle == Some(prev),
        find_id(s, a.id) == Some(now),
        !(now.kind is Pointer),
    ensures
        motion_step(m, dt, s, settings).rotation == m.rotation + frame_scroll(s, settings) + (prev
            - now.azimuth),
        motion_step(m, dt, s, settings).momentum == (prev - now.azimuth) * dt,
        motion_step(m, dt, s, settings).prev_angle == Some(now.azimuth as int),
        motion_step(m, dt, s, settings).actor == Some(now),
{
}

/// When the captured input leaves the snapshot, the frame releases it and
/// clears the drag angle, applies no drag rotation and coasts instead.
pub proof fn stop_clears_drag(m: Motion, dt: int, s: Seq<InputEvent>, settings: TurntableSettings, a: InputEvent)
    requires
        m.actor == Some(a),
        find_id(s, a.id) is None,
    ensures
        motion_step(m, dt, s, settings).actor is None,
        motion_step(m, dt, s, settings).prev_angle is None,
        motion_step(m, dt, s, settings).momentum == decay(m.momentum),
        motion_step(m, dt, s, settings).rotation == m.rotation + frame_scroll(s, settings)
            + trunc_div(decay(m.momentum), dt),
{
}

/// A contact at the grip point leaves it black; none within 0.05 m, or no
/// contact at all, leaves it white.
pub proof fn shade_extremes(v: int, sq: u128)
    ensures
        shade_matches(v, Some(0u128)) ==> v == 0,
        sq >= 2_500_000_000 && shade_matches(v, Some(sq)) ==> v == FULL,
        shade_matches(v, None) ==> v == FULL,
{
    if shade_matches(v, Some(0u128)) {
        assert(v * v <= 0);
        assert(v == 0) by (nonlinear_arith)
            requires
                v * v <= 0,
        ;
    }
    if sq >= 2_500_000_000 && shade_matches(v, Some(sq)) && v != FULL {
        assert(400 * sq < (v + 1) * (v + 1));
        assert(v + 1 <= FULL);
        assert((v + 1) * (v + 1) <= 1_000_000_000_000) by (nonlinear_arith)
            requires
                0 <= v + 1 <= 1_000_000,
        ;
    }
}

} // verus!
