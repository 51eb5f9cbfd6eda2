//! The turntable: settings, grip geometry, rotation with momentum, and the
//! proximity shading of the grip.
use vstd::prelude::*;
use crate::action::{
    capture_step, find_id, first_capturable, hover_set, CaptureAction, HoverAction,
};
use crate::fixed::{div_toward_zero, isqrt, lemma_trunc_div_bound, trunc_div};
use crate::input::{angle_of, interact_angle, interact_proximity, is_nearest, InputEvent, Point3, PI_MICRO};

verus! {

/// Most inputs a frame's snapshot may hold.
pub const MAX_INPUTS: usize = 65536;

/// Bound on the magnitude of the rotation before a frame.
pub const ROTATION_LIMIT: i64 = 0x4000_0000_0000_0000;

/// Bound on the magnitude of the angular momentum: a full turn of drag
/// within the longest frame.
pub const MAX_MOMENTUM: i64 = 26_986_078_378_401_870;

/// Full shading intensity (white), in millionths.
pub const FULL: u32 = 1_000_000;

/// Construction settings. Lengths in micrometres; `scroll_multiplier` in
/// microradians per whole unit of scroll.
#[derive(Clone, Copy, Debug, PartialEq, Eq, Structural)]
pub struct TurntableSettings {
    pub line_count: u32,
    pub line_thickness: i32,
    pub height: i32,
    pub inner_radius: i32,
    pub scroll_multiplier: i32,
}

/// One vertex of a grip line, with its grey level in millionths.
#[derive(Clone, Copy, Debug, PartialEq, Eq, Structural)]
pub struct GripPoint {
    pub position: Point3,
    pub thickness: i32,
    pub intensity: u32,
}

/// The motion state that one frame advances.
pub struct Motion {
    pub rotation: int,
    pub momentum: int,
    pub prev_angle: Option<int>,
    pub actor: Option<InputEvent>,
}

/// Per-frame momentum decay: a factor of 0.98, rounded toward zero.
pub open spec fn decay(m: int) -> int {
    trunc_div(m * 49, 50)
}

/// Sum of both scroll axes over the inputs.
pub open spec fn scroll_total(s: Seq<InputEvent>) -> int
    decreases s.len(),
{
    if s.len() == 0 {
        0
    } else {
        scroll_total(s.drop_last()) + s.last().scroll_x + s.last().scroll_y
    }
}

/// Rotation applied for a scroll total (in millionths) and multiplier.
pub open spec fn scroll_rotation(total: int, multiplier: int) -> int {
    -trunc_div(total * multiplier, 1_000_000)
}

/// One frame of motion: decay the momentum, apply the hovering scroll, track
/// the drag of the capture actor, clear the drag angle when the actor stops,
/// and coast on the momentum while nothing is captured.
pub open spec fn motion_step(
    m: Motion,
    dt: int,
    s: Seq<InputEvent>,
    settings: TurntableSettings,
) -> Motion {
    let m1 = decay(m.momentum);
    let r1 = m.rotation + scroll_rotation(scroll_total(hover_set(s)), settings.scroll_multiplier as int);
    let (actor, stopped) = capture_step(m.actor, s, settings);
    let angle = match actor {
        Some(a) => angle_of(a),
        None => None,
    };
    let (r2, m2, p2) = match angle {
        Some(g) => match m.prev_angle {
            Some(p) => (r1 + (p - g), (p - g) * dt, Some(g)),
            None => (r1, m1, Some(g)),
        },
        None => (r1, m1, m.prev_angle),
    };
    let p3 = if stopped {
        None
    } else {
        p2
    };
    let r3 = if actor is None {
        r2 + trunc_div(m2, dt)
    } else {
        r2
    };
    Motion { rotation: r3, momentum: m2, prev_angle: p3, actor }
}

/// A snapshot the engine accepts: bounded in size, with azimuths in range.
pub open spec fn valid_inputs(s: Seq<InputEvent>) -> bool {
    &&& s.len() <= MAX_INPUTS
    &&& forall|i: int| 0 <= i < s.len() ==> -PI_MICRO <= #[trigger] s[i].azimuth <= PI_MICRO
}

/// The grip geometry built from settings and one unit direction per line,
/// `(sin, cos)` in millionths: line `i` runs from the inner ring at height 0
/// to the outer ring at depth `height`.
pub open spec fn grip_point_spec(settings: TurntableSettings, dir: (i32, i32), outer: bool) -> GripPoint {
    let r = if outer {
        settings.inner_radius + settings.height
    } else {
        settings.inner_radius as int
    };
    GripPoint {
        position: Point3 {
            x: trunc_div(dir.0 * r, 1_000_000) as i32,
            y: if outer {
                -settings.height
            } else {
                0
            } as i32,
            z: trunc_div(dir.1 * r, 1_000_000) as i32,
        },
        thickness: settings.line_thickness,
        intensity: FULL,
    }
}

/// Settings from which grip geometry can be built.
pub open spec fn valid_settings(settings: TurntableSettings) -> bool {
    &&& 0 <= settings.height
    &&& 0 <= settings.inner_radius
    &&& settings.inner_radius + settings.height <= i32::MAX
}

/// The grey level for a nearest squared distance `d` (micrometres squared):
/// the distance divided by 0.05 m, clamped to `[0, FULL]`; `FULL` when there
/// is no contact at all.
pub open spec fn shade_matches(v: int, d: Option<u128>) -> bool {
    match d {
        None => v == FULL,
        Some(sq) => {
            &&& 0 <= v <= FULL
            &&& v * v <= 400 * sq
            &&& (v == FULL || 400 * sq < (v + 1) * (v + 1))
        },
    }
}

/// `v` is the grey level of `target` for the snapshot `s`.
pub open spec fn shaded(v: int, s: Seq<InputEvent>, target: Point3) -> bool {
    exists|d: Option<u128>| #[trigger] is_nearest(d, s, target) && shade_matches(v, d)
}

/// The grey level for a nearest squared distance.
pub fn shade(d: Option<u128>) -> (r: u32)
    ensures
        shade_matches(r as int, d),
{
    match d {
        None => FULL,
        Some(sq) => {
            if sq >= 2_500_000_000 {
                assert(FULL * FULL <= 400 * sq);
                FULL
            } else {
                let v = isqrt((400 * sq) as u64);
                assert(v <= FULL) by (nonlinear_arith)
                    requires
                        v * v <= 400 * sq,
                        400 * sq < 1_000_000_000_000,
                ;
                v as u32
            }
        },
    }
}

fn scale(c: i32, r: i64) -> (p: i32)
    requires
        -1_000_000 <= c <= 1_000_000,
        0 <= r <= i32::MAX,
    ensures
        p == trunc_div(c * r, 1_000_000),
{
    assert(-1_000_000 * r <= c * r <= 1_000_000 * r) by (nonlinear_arith)
        requires
            -1_000_000 <= c <= 1_000_000,
            0 <= r,
    ;
    let prod: i128 = c as i128 * r as i128;
    let q = div_toward_zero(prod, 1_000_000);
    proof {
        lemma_trunc_div_bound(prod as int, 1_000_000);
    }
    q as i32
}

/// The turntable's state.
pub struct Turntable {
    pub settings: TurntableSettings,
    pub grip: Vec<GripPoint>,
    pub hover: HoverAction,
    pub touch: CaptureAction,
    pub angular_momentum: i64,
    pub prev_angle: Option<i32>,
    pub rotation: i64,
}

impl TurntableSettings {
    /// The grip geometry: two points per line, inner then outer, all white.
    pub fn grip_lines(&self, directions: &Vec<(i32, i32)>) -> (r: Vec<GripPoint>)
        requires
            valid_settings(*self),
            directions@.len() == self.line_count,
            forall|i: int|
                0 <= i < directions@.len() ==> -1_000_000 <= (#[trigger] directions@[i]).0
                    <= 1_000_000 && -1_000_000 <= directions@[i].1 <= 1_000_000,
        ensures
            r@.len() == 2 * self.line_count,
            forall|i: int|
                0 <= i < self.line_count ==> r@[2 * i] == grip_point_spec(
                    *self,
                    #[trigger] directions@[i],
                    false,
                ) && r@[2 * i + 1] == grip_point_spec(*self, directions@[i], true),
    {
        let inner: i64 = self.inner_radius as i64;
        let outer: i64 = self.inner_radius as i64 + self.height as i64;
        let mut r: Vec<GripPoint> = Vec::new();
        let mut i: usize = 0;
        while i < directions.len()
            invariant
                i <= directions@.len(),
                directions@.len() == self.line_count,
                valid_settings(*self),
                inner == self.inner_radius,
                outer == self.inner_radius + self.height,
                forall|k: int|
                    0 <= k < directions@.len() ==> -1_000_000 <= (#[trigger] directions@[k]).0
                        <= 1_000_000 && -1_000_000 <= directions@[k].1 <= 1_000_000,
                r@.len() == 2 * i,
                forall|k: int|
                    0 <= k < i ==> r@[2 * k] == grip_point_spec(
                        *self,
                        #[trigger] directions@[k],
                        false,
                    ) && r@[2 * k + 1] == grip_point_spec(*self, directions@[k], true),
            decreases directions@.len() - i,
        {
            let (s, c) = directions[i];
            let a = GripPoint {
                position: Point3 { x: scale(s, inner), y: 0, z: scale(c, inner) },
                thickness: self.line_thickness,
                intensity: FULL,
            };
            let b = GripPoint {
                position: Point3 { x: scale(s, outer), y: -self.height, z: scale(c, outer) },
                thickness: self.line_thickness,
                intensity: FULL,
            };
            r.push(a);
            r.push(b);
            i = i + 1;
        }
        r
    }
}

proof fn lemma_hover_set_len(s: Seq<InputEvent>)
    ensures
        hover_set(s).len() <= s.len(),
    decreases s.len(),
{
    if s.len() > 0 {
        lemma_hover_set_len(s.drop_last());
    }
}

proof fn lemma_found_in(s: Seq<InputEvent>, id: u64, settings: TurntableSettings)
    ensures
        find_id(s, id) matches Some(e) ==> exists|i: int| 0 <= i < s.len() && s[i] == e,
        first_capturable(s, settings) matches Some(e) ==> exists|i: int|
            0 <= i < s.len() && s[i] == e,
    decreases s.len(),
{
    if s.len() > 0 {
        let t = s.drop_last();
        lemma_found_in(t, id, settings);
        if let Some(e) = find_id(t, id) {
            let i = choose|i: int| 0 <= i < t.len() && t[i] == e;
            assert(s[i] == e);
        }
        if let Some(e) = first_capturable(t, settings) {
            let i = choose|i: int| 0 <= i < t.len() && t[i] == e;
            assert(s[i] == e);
        }
    }
}

fn scroll_sum(inputs: &Vec<InputEvent>) -> (r: i64)
    requires
        inputs@.len() <= MAX_INPUTS,
    ensures
        r == scroll_total(inputs@),
        -inputs@.len() * 0x1_0000_0000 <= r <= inputs@.len() * 0x1_0000_0000,
{
    let mut sum: i64 = 0;
    let mut i: usize = 0;
    while i < inputs.len()
        invariant
            i <= inputs@.len() <= MAX_INPUTS,
            sum == scroll_total(inputs@.subrange(0, i as int)),
            -i * 0x1_0000_0000 <= sum <= i * 0x1_0000_0000,
        decreases inputs@.len() - i,
    {
        assert(inputs@.subrange(0, i + 1).drop_last() =~= inputs@.subrange(0, i as int));
        sum = sum + inputs[i].scroll_x as i64 + inputs[i].scroll_y as i64;
        i = i + 1;
    }
    assert(inputs@.subrange(0, i as int) =~= inputs@);
    sum
}

/// The momentum after one frame's decay.
pub fn decayed(m: i64) -> (r: i64)
    requires
        -MAX_MOMENTUM <= m <= MAX_MOMENTUM,
    ensures
        r == decay(m as int),
        0 <= m ==> 0 <= r <= m,
        m < 0 ==> m <= r <= 0,
{
    let q = div_toward_zero(m as i128 * 49, 50);
    proof {
        lemma_trunc_div_bound(m * 49, 50);
    }
    q as i64
}

/// The rotation for a scroll total and multiplier.
pub fn scroll_angle(total: i64, multiplier: i32) -> (r: i64)
    requires
        -0x1_0000_0000_0000 <= total <= 0x1_0000_0000_0000,
    ensures
        r == scroll_rotation(total as int, multiplier as int),
        -0x1000_0000_0000_0000 <= r <= 0x1000_0000_0000_0000,
{
    assert(-0x8000_0000_0000_0000_0000 <= total * multiplier <= 0x8000_0000_0000_0000_0000)
        by (nonlinear_arith)
        requires
            -0x1_0000_0000_0000 <= total <= 0x1_0000_0000_0000,
            -0x8000_0000 <= multiplier < 0x8000_0000,
    ;
    let q = div_toward_zero(total as i128 * multiplier as i128, 1_000_000);
    proof {
        lemma_trunc_div_bound(total * multiplier, 1_000_000);
    }
    -(q as i64)
}

impl Turntable {
    /// The motion state of the turntable.
    pub open spec fn motion(&self) -> Motion {
        Motion {
            rotation: self.rotation as int,
            momentum: self.angular_momentum as int,
            prev_angle: match self.prev_angle {
                Some(p) => Some(p as int),
                None => None,
            },
            actor: self.touch.actor,
        }
    }

    /// The turntable's invariant: the grip keeps two points per line, the
    /// momentum stays bounded, and a drag angle is held only while capturing.
    pub open spec fn wf(&self) -> bool {
        &&& self.grip@.len() == 2 * self.settings.line_count
        &&& -MAX_MOMENTUM <= self.angular_momentum <= MAX_MOMENTUM
        &&& self.prev_angle is Some ==> self.touch.actor is Some
        &&& self.prev_angle matches Some(p) ==> -PI_MICRO <= p <= PI_MICRO
    }

    /// A turntable at rest, with its grip built from one unit direction
    /// `(sin, cos)` per line (in millionths).
    pub fn create(settings: TurntableSettings, directions: &Vec<(i32, i32)>) -> (r: Turntable)
        requires
            valid_settings(settings),
            directions@.len() == settings.line_count,
            forall|i: int|
                0 <= i < directions@.len() ==> -1_000_000 <= (#[trigger] directions@[i]).0
                    <= 1_000_000 && -1_000_000 <= directions@[i].1 <= 1_000_000,
        ensures
            r.wf(),
            r.settings == settings,
            r.rotation == 0,
            r.angular_momentum == 0,
            r.prev_angle is None,
            r.touch.actor is None,
            !r.touch.stopped,
            r.hover.acting@.len() == 0,
            forall|i: int|
                0 <= i < settings.line_count ==> r.grip@[2 * i] == grip_point_spec(
                    settings,
                    #[trigger] directions@[i],
                    false,
                ) && r.grip@[2 * i + 1] == grip_point_spec(settings, directions@[i], true),
    {
        let grip = settings.grip_lines(directions);
        Turntable {
            settings,
            grip,
            hover: HoverAction::new(),
            touch: CaptureAction::new(),
            angular_momentum: 0,
            prev_angle: None,
            rotation: 0,
        }
    }

    /// The total scroll, both axes, of the inputs that hover this frame.
    pub fn scroll(&self) -> (r: i64)
        requires
            self.hover.acting@.len() <= MAX_INPUTS,
        ensures
            r == scroll_total(self.hover.acting@),
            -self.hover.acting@.len() * 0x1_0000_0000 <= r <= self.hover.acting@.len()
                * 0x1_0000_0000,
    {
        scroll_sum(self.hover.currently_acting())
    }

    /// Adds `angle` to the rotation.
    pub fn rotate(&mut self, angle: i64)
        requires
            i64::MIN <= old(self).rotation + angle <= i64::MAX,
        ensures
            final(self).rotation == old(self).rotation + angle,
            final(self).settings == old(self).settings,
            final(self).grip == old(self).grip,
            final(self).hover == old(self).hover,
            final(self).touch == old(self).touch,
            final(self).angular_momentum == old(self).angular_momentum,
            final(self).prev_angle == old(self).prev_angle,
    {
        self.rotation = self.rotation + angle;
    }

    /// Advances one frame lasting `dt` microseconds, with the frame's snapshot.
    pub fn update(&mut self, dt: u32, inputs: &Vec<InputEvent>)
        requires
            old(self).wf(),
            dt > 0,
            valid_inputs(inputs@),
            -ROTATION_LIMIT <= old(self).rotation <= ROTATION_LIMIT,
        ensures
            final(self).wf(),
            final(self).motion() == motion_step(
                old(self).motion(),
                dt as int,
                inputs@,
                old(self).settings,
            ),
            final(self).hover.acting@ == hover_set(inputs@),
            final(self).touch.stopped == capture_step(
                old(self).touch.actor,
                inputs@,
                old(self).settings,
            ).1,
            final(self).settings == old(self).settings,
            final(self).grip == old(self).grip,
    {
        let settings = self.settings;
        self.angular_momentum = decayed(self.angular_momentum);
        self.hover.update(inputs);
        self.touch.update(inputs, &settings);
        proof {
            lemma_hover_set_len(inputs@);
            if let Some(a) = old(self).touch.actor {
                lemma_found_in(inputs@, a.id, settings);
            } else {
                lemma_found_in(inputs@, 0, settings);
            }
            if let Some(e) = self.touch.actor {
                let i = choose|i: int| 0 <= i < inputs@.len() && inputs@[i] == e;
                assert(-PI_MICRO <= inputs@[i].azimuth <= PI_MICRO);
            }
        }
        let total = self.scroll();
        let delta = scroll_angle(total, settings.scroll_multiplier);
        self.rotate(delta);
        match self.touch.actor() {
            Some(actor) => match interact_angle(&actor) {
                Some(angle) => {
                    match self.prev_angle {
                        Some(prev) => {
                            let d: i64 = prev as i64 - angle as i64;
                            assert(-MAX_MOMENTUM <= d * dt <= MAX_MOMENTUM) by (nonlinear_arith)
                                requires
                                    -2 * PI_MICRO <= d <= 2 * PI_MICRO,
                                    0 < dt <= u32::MAX,
                            ;
                            self.angular_momentum = d * dt as i64;
                            self.rotate(d);
                        },
                        None => {},
                    }
                    self.prev_angle = Some(angle);
                },
                None => {},
            },
            None => {},
        }
        if self.touch.actor_stopped() {
            self.prev_angle = None;
        }
        if !self.touch.actor_acting() {
            let c = div_toward_zero(self.angular_momentum as i128, dt as i128);
            proof {
                lemma_trunc_div_bound(self.angular_momentum as int, dt as int);
            }
            self.rotate(c as i64);
        }
    }

    /// Recolours every grip point by its distance to the nearest contact of
    /// the snapshot. `positions` holds the grip points as placed by the
    /// current rotation.
    pub fn recolor(&mut self, positions: &Vec<Point3>, inputs: &Vec<InputEvent>)
        requires
            old(self).wf(),
            positions@.len() == old(self).grip@.len(),
        ensures
            final(self).wf(),
            final(self).grip@.len() == old(self).grip@.len(),
            forall|i: int|
                0 <= i < old(self).grip@.len() ==> {
                    &&& (#[trigger] final(self).grip@[i]).position == old(self).grip@[i].position
                    &&& final(self).grip@[i].thickness == old(self).grip@[i].thickness
                    &&& shaded(final(self).grip@[i].intensity as int, inputs@, positions@[i])
                },
            final(self).settings == old(self).settings,
            final(self).motion() == old(self).motion(),
            final(self).hover == old(self).hover,
            final(self).touch == old(self).touch,
    {
        let mut grip: Vec<GripPoint> = Vec::new();
        let mut i: usize = 0;
        while i < self.grip.len()
            invariant
                i <= self.grip@.len(),
                positions@.len() == self.grip@.len(),
                grip@.len() == i,
                forall|k: int|
                    0 <= k < i ==> {
                        &&& (#[trigger] grip@[k]).position == self.grip@[k].position
                        &&& grip@[k].thickness == self.grip@[k].thickness
                        &&& shaded(grip@[k].intensity as int, inputs@, positions@[k])
                    },
            decreases self.grip@.len() - i,
        {
            let d = interact_proximity(inputs, positions[i]);
            let v = shade(d);
            let old_point = self.grip[i];
            grip.push(GripPoint { position: old_point.position, thickness: old_point.thickness, intensity: v });
            i = i + 1;
        }
        self.grip = grip;
    }
}

} // verus!
