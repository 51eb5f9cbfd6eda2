//! The two input actions: hover (every pointer inside the field) and capture
//! (at most one grabbing input at a time).
use vstd::prelude::*;
use crate::input::{contacts, interact_points, InputEvent, InputKind, Point3};
use crate::turntable::TurntableSettings;

verus! {

/// A pointer inside the capture volume hovers.
pub open spec fn is_hover(e: InputEvent) -> bool {
    e.kind is Pointer && e.distance < 0
}

/// The hovering inputs of a snapshot, in snapshot order.
pub open spec fn hover_set(s: Seq<InputEvent>) -> Seq<InputEvent>
    decreases s.len(),
{
    if s.len() == 0 {
        seq![]
    } else if is_hover(s.last()) {
        hover_set(s.drop_last()).push(s.last())
    } else {
        hover_set(s.drop_last())
    }
}

/// A contact point lies beneath the ring's outward-sloping ramp:
/// `p.y + height < hypot(p.x, p.z) - inner_radius`.
pub open spec fn under_ramp(p: Point3, settings: TurntableSettings) -> bool {
    let a = p.y + settings.height + settings.inner_radius;
    a < 0 || a * a < p.x * p.x + p.z * p.z
}

/// An input that may start a capture: inside the volume, with some contact
/// point beneath the ramp.
pub open spec fn can_capture(e: InputEvent, settings: TurntableSettings) -> bool {
    &&& e.distance < 0
    &&& exists|i: int|
        0 <= i < contacts(e.kind).len() && under_ramp(#[trigger] contacts(e.kind)[i], settings)
}

/// The first input of the snapshot that may start a capture.
pub open spec fn first_capturable(s: Seq<InputEvent>, settings: TurntableSettings) -> Option<
    InputEvent,
>
    decreases s.len(),
{
    if s.len() == 0 {
        None
    } else {
        match first_capturable(s.drop_last(), settings) {
            Some(e) => Some(e),
            None => if can_capture(s.last(), settings) {
                Some(s.last())
            } else {
                None
            },
        }
    }
}

/// The first input of the snapshot with the given id.
pub open spec fn find_id(s: Seq<InputEvent>, id: u64) -> Option<InputEvent>
    decreases s.len(),
{
    if s.len() == 0 {
        None
    } else {
        match find_id(s.drop_last(), id) {
            Some(e) => Some(e),
            None => if s.last().id == id {
                Some(s.last())
            } else {
                None
            },
        }
    }
}

/// One step of the capture machine: the new actor and whether the old one
/// stopped. A captured input stays the actor, refreshed from the snapshot,
/// while its id is present; when it is absent the machine goes idle. An idle
/// machine captures the first input that may be captured.
pub open spec fn capture_step(
    actor: Option<InputEvent>,
    s: Seq<InputEvent>,
    settings: TurntableSettings,
) -> (Option<InputEvent>, bool) {
    match actor {
        Some(a) => match find_id(s, a.id) {
            Some(n) => (Some(n), false),
            None => (None, true),
        },
        None => (first_capturable(s, settings), false),
    }
}

fn ramp_test(p: Point3, settings: &TurntableSettings) -> (r: bool)
    ensures
        r == under_ramp(p, *settings),
{
    let a: i128 = p.y as i128 + settings.height as i128 + settings.inner_radius as i128;
    if a < 0 {
        true
    } else {
        let x: i128 = p.x as i128;
        let z: i128 = p.z as i128;
        assert(0 <= a * a <= 0x10_0000_0000_0000_0000) by (nonlinear_arith)
            requires
                0 <= a <= 0x4_0000_0000,
        ;
        assert(0 <= x * x <= 0x1_0000_0000_0000_0000) by (nonlinear_arith)
            requires
                -0x1_0000_0000 <= x <= 0x1_0000_0000,
        ;
        assert(0 <= z * z <= 0x1_0000_0000_0000_0000) by (nonlinear_arith)
            requires
                -0x1_0000_0000 <= z <= 0x1_0000_0000,
        ;
        a * a < x * x + z * z
    }
}

/// Whether an input may start a capture.
pub fn capture_condition(input: &InputEvent, settings: &TurntableSettings) -> (r: bool)
    ensures
        r == can_capture(*input, *settings),
{
    let pts = interact_points(input);
    let mut found = false;
    let mut i: usize = 0;
    while i < pts.len()
        invariant
            i <= pts.len(),
            pts@ == contacts(input.kind),
            found <==> exists|k: int| 0 <= k < i && under_ramp(#[trigger] pts@[k], *settings),
        decreases pts.len() - i,
    {
        if ramp_test(pts[i], settings) {
            found = true;
        }
        i = i + 1;
    }
    found && input.distance < 0
}

/// Tracks every input that currently hovers.
pub struct HoverAction {
    pub acting: Vec<InputEvent>,
}

impl HoverAction {
    pub fn new() -> (r: HoverAction)
        ensures
            r.acting@.len() == 0,
    {
        HoverAction { acting: Vec::new() }
    }

    /// Recomputes the hovering set from the frame's snapshot.
    pub fn update(&mut self, inputs: &Vec<InputEvent>)
        ensures
            final(self).acting@ == hover_set(inputs@),
    {
        let mut acting: Vec<InputEvent> = Vec::new();
        let mut i: usize = 0;
        while i < inputs.len()
            invariant
                i <= inputs.len(),
                acting@ == hover_set(inputs@.subrange(0, i as int)),
            decreases inputs.len() - i,
        {
            assert(inputs@.subrange(0, i + 1).drop_last() =~= inputs@.subrange(0, i as int));
            let e = inputs[i];
            let hovers = match e.kind {
                InputKind::Pointer => e.distance < 0,
                _ => false,
            };
            if hovers {
                acting.push(e);
            }
            i = i + 1;
        }
        assert(inputs@.subrange(0, i as int) =~= inputs@);
        self.acting = acting;
    }

    /// The inputs that hover this frame.
    pub fn currently_acting(&self) -> (r: &Vec<InputEvent>)
        ensures
            r == &self.acting,
    {
        &self.acting
    }
}

/// Tracks the single input that holds the turntable, if any.
pub struct CaptureAction {
    pub actor: Option<InputEvent>,
    pub stopped: bool,
}

fn find_by_id(inputs: &Vec<InputEvent>, id: u64) -> (r: Option<InputEvent>)
    ensures
        r == find_id(inputs@, id),
{
    let mut found: Option<InputEvent> = None;
    let mut i: usize = 0;
    while i < inputs.len()
        invariant
            i <= inputs.len(),
            found == find_id(inputs@.subrange(0, i as int), id),
        decreases inputs.len() - i,
    {
        assert(inputs@.subrange(0, i + 1).drop_last() =~= inputs@.subrange(0, i as int));
        if found.is_none() && inputs[i].id == id {
            found = Some(inputs[i]);
        }
        i = i + 1;
    }
    assert(inputs@.subrange(0, i as int) =~= inputs@);
    found
}

fn find_capturable(inputs: &Vec<InputEvent>, settings: &TurntableSettings) -> (r: Option<
    InputEvent,
>)
    ensures
        r == first_capturable(inputs@, *settings),
{
    let mut found: Option<InputEvent> = None;
    let mut i: usize = 0;
    while i < inputs.len()
        invariant
            i <= inputs.len(),
            found == first_capturable(inputs@.subrange(0, i as int), *settings),
        decreases inputs.len() - i,
    {
        assert(inputs@.subrange(0, i + 1).drop_last() =~= inputs@.subrange(0, i as int));
        if found.is_none() && capture_condition(&inputs[i], settings) {
            found = Some(inputs[i]);
        }
        i = i + 1;
    }
    assert(inputs@.subrange(0, i as int) =~= inputs@);
    found
}

impl CaptureAction {
    pub fn new() -> (r: CaptureAction)
        ensures
            r.actor is None,
            !r.stopped,
    {
        CaptureAction { actor: None, stopped: false }
    }

    /// Advances the capture machine by one frame.
    pub fn update(&mut self, inputs: &Vec<InputEvent>, settings: &TurntableSettings)
        ensures
            (final(self).actor, final(self).stopped) == capture_step(
                old(self).actor,
                inputs@,
                *settings,
            ),
    {
        match self.actor {
            Some(a) => match find_by_id(inputs, a.id) {
                Some(n) => {
                    self.actor = Some(n);
                    self.stopped = false;
                },
                None => {
                    self.actor = None;
                    self.stopped = true;
                },
            },
            None => {
                self.actor = find_capturable(inputs, settings);
                self.stopped = false;
            },
        }
    }

    /// The current actor, if the machine is capturing.
    pub fn actor(&self) -> (r: Option<InputEvent>)
        ensures
            r == self.actor,
    {
        self.actor
    }

    /// Whether an input holds the turntable now.
    pub fn actor_acting(&self) -> (r: bool)
        ensures
            r == self.actor is Some,
    {
        self.actor.is_some()
    }

    /// Whether the actor of the previous frame went away in this one.
    pub fn actor_stopped(&self) -> (r: bool)
        ensures
            r == self.stopped,
    {
        self.stopped
    }
}

} // verus!
