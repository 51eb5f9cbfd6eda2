use turntable::action::{capture_condition, CaptureAction, HoverAction};
use turntable::fixed::{div_toward_zero, isqrt};
use turntable::input::{interact_angle, interact_point, interact_points, interact_proximity, InputEvent, InputKind, Point3};
use turntable::turntable::{decayed, scroll_angle, shade, GripPoint, Turntable, TurntableSettings, FULL};

const DT: u32 = 16_667;

fn settings(line_count: u32) -> TurntableSettings {
    TurntableSettings {
        line_count,
        line_thickness: 2_000,
        height: 30_000,
        inner_radius: 100_000,
        scroll_multiplier: 174_533,
    }
}

fn pt(x: i32, y: i32, z: i32) -> Point3 {
    Point3 { x, y, z }
}

fn pointer(id: u64, distance: i32, scroll_x: i32, scroll_y: i32) -> InputEvent {
    InputEvent { id, kind: InputKind::Pointer, distance, scroll_x, scroll_y, azimuth: 0 }
}

fn tip(id: u64, origin: Point3, distance: i32, azimuth: i32) -> InputEvent {
    InputEvent { id, kind: InputKind::Tip { origin }, distance, scroll_x: 0, scroll_y: 0, azimuth }
}

fn hand(id: u64, tips: [Point3; 5]) -> InputEvent {
    InputEvent {
        id,
        kind: InputKind::Hand { thumb: tips[0], index: tips[1], middle: tips[2], ring: tips[3], little: tips[4] },
        distance: -1,
        scroll_x: 0,
        scroll_y: 0,
        azimuth: 0,
    }
}

fn table() -> Turntable {
    Turntable::create(settings(0), &Vec::new())
}

// A tip below the ramp, at radius 120 mm and 40 mm under the ring.
fn grabbing_tip(azimuth: i32) -> InputEvent {
    tip(7, pt(120_000, -40_000, 0), -1, azimuth)
}

#[test]
fn scroll_turns_by_multiplier_each_frame() {
    let mut t = table();
    let inputs = vec![pointer(1, -5, 1_000_000, 0)];
    for n in 1..=5i64 {
        t.update(DT, &inputs);
        assert_eq!(t.rotation, -174_533 * n);
        assert_eq!(t.angular_momentum, 0);
    }
}

#[test]
fn scroll_outside_field_is_ignored() {
    let mut t = table();
    t.update(DT, &vec![pointer(1, 5, 1_000_000, 0)]);
    assert_eq!(t.rotation, 0);
    assert!(t.hover.currently_acting().is_empty());
}

#[test]
fn scroll_sums_both_axes_and_all_pointers() {
    let mut t = table();
    t.update(DT, &vec![pointer(1, -1, 500_000, 250_000), pointer(2, -1, 250_000, 0)]);
    assert_eq!(t.rotation, -174_533);
    assert_eq!(t.hover.currently_acting().len(), 2);
    assert_eq!(t.scroll(), 1_000_000);
}

#[test]
fn drag_tracks_azimuth_difference() {
    let mut t = table();
    t.update(DT, &vec![grabbing_tip(200_000)]);
    assert_eq!(t.rotation, 0);
    assert_eq!(t.prev_angle, Some(200_000));
    assert!(t.touch.actor_acting());
    t.update(DT, &vec![grabbing_tip(500_000)]);
    assert_eq!(t.rotation, -300_000);
    assert_eq!(t.angular_momentum, -300_000 * DT as i64);
    assert_eq!(t.prev_angle, Some(500_000));
}

#[test]
fn wraparound_applies_raw_delta() {
    let mut t = table();
    t.update(DT, &vec![grabbing_tip(3_130_000)]);
    t.update(DT, &vec![grabbing_tip(-3_130_000)]);
    assert_eq!(t.rotation, 6_260_000);
    assert_eq!(t.angular_momentum, 6_260_000 * DT as i64);
}

#[test]
fn release_clears_drag_angle_and_coasts() {
    let mut t = table();
    t.update(DT, &vec![grabbing_tip(200_000)]);
    t.update(DT, &vec![grabbing_tip(500_000)]);
    assert_eq!(t.angular_momentum, -5_000_100_000);
    t.update(DT, &Vec::new());
    assert!(t.touch.actor_stopped());
    assert!(!t.touch.actor_acting());
    assert_eq!(t.prev_angle, None);
    assert_eq!(t.angular_momentum, -4_900_098_000);
    assert_eq!(t.rotation, -300_000 - 294_000);
    t.update(DT, &Vec::new());
    assert!(!t.touch.actor_stopped());
    assert_eq!(t.prev_angle, None);
    assert_eq!(t.angular_momentum, -4_802_096_040);
    assert_eq!(t.rotation, -300_000 - 294_000 - 288_120);
}

#[test]
fn momentum_decays_by_two_percent_per_frame() {
    let mut m: i64 = 1_000_000_000;
    for _ in 0..10 {
        let next = decayed(m);
        assert_eq!(next, m * 49 / 50);
        m = next;
    }
    assert_eq!(decayed(-1_000), -980);
    assert_eq!(decayed(-1), 0);
    assert!((m as f64 - 1e9 * 0.98f64.powi(10)).abs() < 10.0);
}

#[test]
fn pointer_never_captures() {
    let mut t = table();
    t.update(DT, &vec![pointer(1, -1, 0, 0)]);
    assert!(!t.touch.actor_acting());
    assert_eq!(t.prev_angle, None);
}

#[test]
fn capture_needs_point_under_ramp_and_inside() {
    let s = settings(0);
    assert!(capture_condition(&grabbing_tip(0), &s));
    // Inside the field, but above the ramp.
    assert!(!capture_condition(&tip(1, pt(120_000, 0, 0), -1, 0), &s));
    // Under the ramp, but outside the field.
    assert!(!capture_condition(&tip(1, pt(120_000, -40_000, 0), 1, 0), &s));
    // One finger below the ramp is enough.
    let high = pt(0, 50_000, 0);
    assert!(capture_condition(&hand(2, [high, high, high, high, pt(0, -40_000, 125_000)]), &s));
    assert!(!capture_condition(&hand(2, [high; 5]), &s));
}

#[test]
fn capture_keeps_first_actor_until_it_leaves() {
    let s = settings(0);
    let mut c = CaptureAction::new();
    let a = tip(1, pt(120_000, -40_000, 0), -1, 10);
    let b = tip(2, pt(0, -40_000, 120_000), -1, 20);
    c.update(&vec![a, b], &s);
    assert_eq!(c.actor().map(|e| e.id), Some(1));
    // The actor stays, refreshed from the snapshot, even off the ramp.
    let moved = tip(1, pt(0, 90_000, 0), 3, 30);
    c.update(&vec![b, moved], &s);
    assert_eq!(c.actor(), Some(moved));
    assert!(!c.actor_stopped());
    c.update(&vec![b], &s);
    assert_eq!(c.actor(), None);
    assert!(c.actor_stopped());
    c.update(&vec![b], &s);
    assert_eq!(c.actor().map(|e| e.id), Some(2));
    assert!(!c.actor_stopped());
}

#[test]
fn hover_tracks_inside_pointers_only() {
    let mut h = HoverAction::new();
    h.update(&vec![pointer(1, -1, 0, 0), pointer(2, 0, 0, 0), grabbing_tip(0), pointer(3, -9, 0, 0)]);
    let ids: Vec<u64> = h.currently_acting().iter().map(|e| e.id).collect();
    assert_eq!(ids, vec![1, 3]);
}

#[test]
fn classifier_points_and_angles() {
    let h = hand(1, [pt(1, 2, 3), pt(3, 4, -6), pt(9, 9, 9), pt(8, 8, 8), pt(7, 7, 7)]);
    assert_eq!(interact_point(&h), Some(pt(2, 3, -1)));
    assert_eq!(interact_points(&h).len(), 5);
    assert_eq!(interact_points(&grabbing_tip(0)), vec![pt(120_000, -40_000, 0)]);
    assert!(interact_points(&pointer(1, 0, 0, 0)).is_empty());
    assert_eq!(interact_point(&pointer(1, 0, 0, 0)), None);
    assert_eq!(interact_angle(&pointer(1, 0, 0, 0)), None);
    assert_eq!(interact_angle(&grabbing_tip(1_234)), Some(1_234));
}

#[test]
fn proximity_is_nearest_contact() {
    let target = pt(0, 0, 0);
    assert_eq!(interact_proximity(&Vec::new(), target), None);
    assert_eq!(interact_proximity(&vec![pointer(1, -1, 0, 0)], target), None);
    let inputs = vec![tip(1, pt(3, 4, 0), 0, 0), hand(2, [pt(10, 0, 0), pt(0, 2, 0), pt(9, 9, 9), pt(5, 5, 5), pt(6, 6, 6)])];
    assert_eq!(interact_proximity(&inputs, target), Some(4));
}

#[test]
fn shading_maps_distance_to_grey() {
    assert_eq!(shade(Some(0)), 0);
    assert_eq!(shade(Some(2_500_000_000)), FULL);
    assert_eq!(shade(Some(10_000_000_000)), FULL);
    // 25 mm is half of 50 mm.
    assert_eq!(shade(Some(625_000_000)), 500_000);
    // No contact at all: infinite distance, clamped to white.
    assert_eq!(shade(None), FULL);
}

#[test]
fn recolor_shades_each_grip_point() {
    let mut t = Turntable::create(settings(1), &vec![(0, 1_000_000)]);
    assert_eq!(t.grip.len(), 2);
    let positions = vec![pt(0, 0, 100_000), pt(0, -30_000, 130_000)];
    t.recolor(&positions, &vec![tip(1, pt(0, 0, 100_000), 0, 0)]);
    assert_eq!(t.grip[0].intensity, 0);
    // About 42.4 mm away: 42.4 / 50 of full.
    assert_eq!(t.grip[1].intensity, 848_528);
    t.recolor(&positions, &vec![tip(1, pt(0, 0, 110_000), 0, 0)]);
    assert_eq!(t.grip[0].intensity, 200_000);
    t.recolor(&positions, &vec![tip(1, pt(0, 0, 200_000), 0, 0)]);
    assert_eq!(t.grip[0].intensity, FULL);
    assert_eq!(t.grip[1].intensity, FULL);
    t.recolor(&positions, &Vec::new());
    assert_eq!(t.grip[0].intensity, FULL);
    assert_eq!(t.grip[1].position, pt(0, -30_000, 130_000));
}

#[test]
fn grip_lines_from_directions() {
    let s = settings(2);
    let lines = s.grip_lines(&vec![(0, 1_000_000), (1_000_000, 0)]);
    let white = |position: Point3| GripPoint { position, thickness: 2_000, intensity: FULL };
    assert_eq!(
        lines,
        vec![
            white(pt(0, 0, 100_000)),
            white(pt(0, -30_000, 130_000)),
            white(pt(100_000, 0, 0)),
            white(pt(130_000, -30_000, 0)),
        ]
    );
    let half = s.grip_lines(&vec![(-500_000, 866_025), (0, -1_000_000)]);
    assert_eq!(half[0].position, pt(-50_000, 0, 86_602));
    assert_eq!(half[3].position, pt(0, -30_000, -130_000));
}

#[test]
fn zero_lines_make_an_empty_grip() {
    let mut t = Turntable::create(settings(0), &Vec::new());
    assert!(t.grip.is_empty());
    t.update(DT, &vec![grabbing_tip(5)]);
    t.recolor(&Vec::new(), &vec![grabbing_tip(5)]);
    assert!(t.grip.is_empty());
}

#[test]
fn rotate_adds_angle() {
    let mut t = table();
    t.rotate(1_500);
    t.rotate(-500);
    assert_eq!(t.rotation, 1_000);
}

#[test]
fn fixed_point_helpers() {
    assert_eq!(div_toward_zero(-7, 2), -3);
    assert_eq!(div_toward_zero(7, 2), 3);
    assert_eq!(isqrt(0), 0);
    assert_eq!(isqrt(15), 3);
    assert_eq!(isqrt(16), 4);
    assert_eq!(isqrt(999_999_999_999), 999_999);
    assert_eq!(scroll_angle(1_000_000, 174_533), -174_533);
    assert_eq!(scroll_angle(-1, 174_533), 0);
}
