//! Input classification: the representative point, the contact points and the
//! azimuth of one input, and the nearest contact of a whole snapshot.
use vstd::prelude::*;
use crate::fixed::trunc_div;

verus! {

/// Largest magnitude of an azimuth: pi in microradians.
pub const PI_MICRO: i32 = 3_141_593;

/// A point in micrometres.
#[derive(Clone, Copy, Debug, PartialEq, Eq, Structural)]
pub struct Point3 {
    pub x: i32,
    pub y: i32,
    pub z: i32,
}

/// What kind of device an input comes from, with its tip positions.
#[derive(Clone, Copy, Debug, PartialEq, Eq, Structural)]
pub enum InputKind {
    Pointer,
    Tip { origin: Point3 },
    Hand { thumb: Point3, index: Point3, middle: Point3, ring: Point3, little: Point3 },
}

/// One input of a frame's snapshot.
///
/// `id` names the input method and stays the same from frame to frame.
/// `distance` is the signed distance to the capture volume (negative inside).
/// `scroll_x` and `scroll_y` are the continuous scroll in millionths.
/// `azimuth` is `atan2(z, x)` of the representative point in microradians,
/// computed by the host; it is ignored for pointers.
#[derive(Clone, Copy, Debug, PartialEq, Eq, Structural)]
pub struct InputEvent {
    pub id: u64,
    pub kind: InputKind,
    pub distance: i32,
    pub scroll_x: i32,
    pub scroll_y: i32,
    pub azimuth: i32,
}

/// The contact points of an input: five fingertips, one tip, or none.
pub open spec fn contacts(k: InputKind) -> Seq<Point3> {
    match k {
        InputKind::Pointer => seq![],
        InputKind::Tip { origin } => seq![origin],
        InputKind::Hand { thumb, index, middle, ring, little } => seq![
            thumb,
            index,
            middle,
            ring,
            little,
        ],
    }
}

/// Midpoint of two coordinates, rounded toward zero.
pub open spec fn mid(a: int, b: int) -> int {
    trunc_div(a + b, 2)
}

/// The representative point: the thumb and index midpoint of a hand, the
/// origin of a tip, nothing for a pointer.
pub open spec fn point_of(k: InputKind) -> Option<Point3> {
    match k {
        InputKind::Pointer => None,
        InputKind::Tip { origin } => Some(origin),
        InputKind::Hand { thumb, index, .. } => Some(
            Point3 {
                x: mid(thumb.x as int, index.x as int) as i32,
                y: mid(thumb.y as int, index.y as int) as i32,
                z: mid(thumb.z as int, index.z as int) as i32,
            },
        ),
    }
}

/// The azimuth of an input, present exactly when it has a representative point.
pub open spec fn angle_of(e: InputEvent) -> Option<int> {
    match e.kind {
        InputKind::Pointer => None,
        _ => Some(e.azimuth as int),
    }
}

/// Squared Euclidean distance between two points.
pub open spec fn dist_sq(p: Point3, q: Point3) -> int {
    (p.x - q.x) * (p.x - q.x) + (p.y - q.y) * (p.y - q.y) + (p.z - q.z) * (p.z - q.z)
}

/// All contact points of a snapshot, input by input.
pub open spec fn all_contacts(s: Seq<InputEvent>) -> Seq<Point3>
    decreases s.len(),
{
    if s.len() == 0 {
        seq![]
    } else {
        all_contacts(s.drop_last()) + contacts(s.last().kind)
    }
}

/// `d` is the squared distance from `target` to the nearest contact point of
/// the snapshot, or none when it has no contact point.
pub open spec fn is_nearest(d: Option<u128>, s: Seq<InputEvent>, target: Point3) -> bool {
    &&& d is None <==> all_contacts(s).len() == 0
    &&& d matches Some(v) ==> {
        &&& exists|i: int|
            0 <= i < all_contacts(s).len() && v == dist_sq(#[trigger] all_contacts(s)[i], target)
        &&& forall|i: int|
            0 <= i < all_contacts(s).len() ==> v <= dist_sq(#[trigger] all_contacts(s)[i], target)
    }
}

fn midpoint(a: i32, b: i32) -> (r: i32)
    ensures
        r == mid(a as int, b as int),
{
    let s: i64 = a as i64 + b as i64;
    if s >= 0 {
        (s / 2) as i32
    } else {
        -((-s) / 2) as i32
    }
}

/// The representative point of an input.
pub fn interact_point(input: &InputEvent) -> (r: Option<Point3>)
    ensures
        r == point_of(input.kind),
{
    match input.kind {
        InputKind::Hand { thumb, index, .. } => Some(
            Point3 {
                x: midpoint(thumb.x, index.x),
                y: midpoint(thumb.y, index.y),
                z: midpoint(thumb.z, index.z),
            },
        ),
        InputKind::Tip { origin } => Some(origin),
        InputKind::Pointer => None,
    }
}

/// The contact points of an input.
pub fn interact_points(input: &InputEvent) -> (r: Vec<Point3>)
    ensures
        r@ == contacts(input.kind),
{
    match input.kind {
        InputKind::Hand { thumb, index, middle, ring, little } => {
            let r = vec![thumb, index, middle, ring, little];
            assert(r@ =~= contacts(input.kind));
            r
        },
        InputKind::Tip { origin } => {
            let r = vec![origin];
            assert(r@ =~= contacts(input.kind));
            r
        },
        InputKind::Pointer => {
            let r = Vec::new();
            assert(r@ =~= contacts(input.kind));
            r
        },
    }
}

/// The azimuth of an input around the vertical axis; none for a pointer.
pub fn interact_angle(input: &InputEvent) -> (r: Option<i32>)
    ensures
        r matches Some(a) ==> angle_of(*input) == Some(a as int),
        r is None <==> angle_of(*input) is None,
{
    match interact_point(input) {
        Some(_) => Some(input.azimuth),
        None => None,
    }
}

fn distance_sq(p: Point3, q: Point3) -> (r: u128)
    ensures
        r == dist_sq(p, q),
{
    let dx: i64 = p.x as i64 - q.x as i64;
    let dy: i64 = p.y as i64 - q.y as i64;
    let dz: i64 = p.z as i64 - q.z as i64;
    assert(0 <= dx * dx <= 0x1_0000_0000_0000_0000) by (nonlinear_arith)
        requires
            -0x1_0000_0000 <= dx <= 0x1_0000_0000,
    ;
    assert(0 <= dy * dy <= 0x1_0000_0000_0000_0000) by (nonlinear_arith)
        requires
            -0x1_0000_0000 <= dy <= 0x1_0000_0000,
    ;
    assert(0 <= dz * dz <= 0x1_0000_0000_0000_0000) by (nonlinear_arith)
        requires
            -0x1_0000_0000 <= dz <= 0x1_0000_0000,
    ;
    let sx: u128 = ((dx as i128) * (dx as i128)) as u128;
    let sy: u128 = ((dy as i128) * (dy as i128)) as u128;
    let sz: u128 = ((dz as i128) * (dz as i128)) as u128;
    sx + sy + sz
}

/// The squared distance from `target` to the nearest contact point of any
/// input in the snapshot; none when the snapshot has no contact point (the
/// distance is then infinite).
pub fn interact_proximity(inputs: &Vec<InputEvent>, target: Point3) -> (r: Option<u128>)
    ensures
        is_nearest(r, inputs@, target),
{
    let mut best: Option<u128> = None;
    let mut i: usize = 0;
    while i < inputs.len()
        invariant
            i <= inputs.len(),
            best is None <==> all_contacts(inputs@.subrange(0, i as int)).len() == 0,
            best matches Some(d) ==> {
                &&& exists|k: int|
                    0 <= k < all_contacts(inputs@.subrange(0, i as int)).len() && d == dist_sq(
                        #[trigger] all_contacts(inputs@.subrange(0, i as int))[k],
                        target,
                    )
                &&& forall|k: int|
                    0 <= k < all_contacts(inputs@.subrange(0, i as int)).len() ==> d <= dist_sq(
                        #[trigger] all_contacts(inputs@.subrange(0, i as int))[k],
                        target,
                    )
            },
        decreases inputs.len() - i,
    {
        let ghost before = all_contacts(inputs@.subrange(0, i as int));
        let pts = interact_points(&inputs[i]);
        assert(inputs@.subrange(0, i + 1).drop_last() =~= inputs@.subrange(0, i as int));
        let ghost after = all_contacts(inputs@.subrange(0, i + 1));
        assert(after == before + pts@);
        assert(before + pts@.subrange(0, 0) =~= before);
        let mut j: usize = 0;
        while j < pts.len()
            invariant
                i < inputs.len(),
                j <= pts.len(),
                after == before + pts@,
                best is None <==> (before + pts@.subrange(0, j as int)).len() == 0,
                best matches Some(d) ==> {
                    &&& exists|k: int|
                        0 <= k < (before + pts@.subrange(0, j as int)).len() && d == dist_sq(
                            #[trigger] (before + pts@.subrange(0, j as int))[k],
                            target,
                        )
                    &&& forall|k: int|
                        0 <= k < (before + pts@.subrange(0, j as int)).len() ==> d <= dist_sq(
                            #[trigger] (before + pts@.subrange(0, j as int))[k],
                            target,
                        )
                },
            decreases pts.len() - j,
        {
            let ghost cur = before + pts@.subrange(0, j as int);
            let ghost next = before + pts@.subrange(0, j + 1);
            assert(next =~= cur.push(pts@[j as int]));
            let d = distance_sq(pts[j], target);
            match best {
                Some(b) => {
                    if d < b {
                        best = Some(d);
                        assert(next[cur.len() as int] == pts@[j as int]);
                        assert forall|k: int| 0 <= k < next.len() implies d <= dist_sq(
                            #[trigger] next[k],
                            target,
                        ) by {
                            if k < cur.len() {
                                assert(next[k] == cur[k]);
                            }
                        }
                    } else {
                        let ghost w = choose|k: int|
                            0 <= k < cur.len() && b == dist_sq(#[trigger] cur[k], target);
                        assert(next[w] == cur[w]);
                        assert forall|k: int| 0 <= k < next.len() implies b <= dist_sq(
                            #[trigger] next[k],
                            target,
                        ) by {
                            if k < cur.len() {
                                assert(next[k] == cur[k]);
                            }
                        }
                    }
                },
                None => {
                    best = Some(d);
                    assert(cur.len() == 0);
                    assert(next[0] == pts@[j as int]);
                },
            }
            j = j + 1;
        }
        assert(before + pts@.subrange(0, j as int) =~= after);
        i = i + 1;
    }
    assert(inputs@.subrange(0, i as int) =~= inputs@);
    best
}

} // verus!
