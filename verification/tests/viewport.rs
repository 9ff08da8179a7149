use shader_viewport::interaction::{handle_event, InteractionMode, PointerEvent, TransformDelta};
use shader_viewport::scene::Scene;
use shader_viewport::transform::{
    Bounds, Transform, COORD_LIMIT, ZOOM_DEFAULT_FIFTHS, ZOOM_MAX_FIFTHS, ZOOM_MIN_FIFTHS,
};

fn default_bounds() -> Bounds {
    Bounds { x: 0, y: 0, width: 800, height: 600 }
}

#[test]
fn scale_positive_and_strictly_decreasing_over_range() {
    let mut previous: Option<i64> = None;
    let mut zoom = ZOOM_MIN_FIFTHS;
    while zoom <= ZOOM_MAX_FIFTHS {
        let t = Transform { center_x: 0, center_y: 0, zoom_fifths: zoom };
        let s = t.scale();
        assert!(s > 0);
        if let Some(p) = previous {
            assert!(s < p, "scale must strictly shrink from zoom {} on", zoom - 1);
        }
        previous = Some(s);
        zoom += 1;
    }
}

#[test]
fn scale_known_values() {
    let lowest = Transform { center_x: 0, center_y: 0, zoom_fifths: ZOOM_MIN_FIFTHS };
    assert_eq!(lowest.scale(), 65536 * 1024);
    let level_zero = Transform { center_x: 0, center_y: 0, zoom_fifths: 0 };
    assert_eq!(level_zero.scale(), 65536 * 32);
    let default_zoom = Transform { center_x: 0, center_y: 0, zoom_fifths: ZOOM_DEFAULT_FIFTHS };
    assert_eq!(default_zoom.scale(), 1048576);
    let highest = Transform { center_x: 0, center_y: 0, zoom_fifths: ZOOM_MAX_FIFTHS };
    assert_eq!(highest.scale(), 65536);
}

#[test]
fn pan_moves_center_by_twice_delta_times_scale() {
    let mut t = Transform::start();
    t.apply_pan(10, -5);
    assert_eq!(t.center_x, -2 * 10 * 1048576);
    assert_eq!(t.center_y, 2 * 5 * 1048576);
    assert_eq!(t.zoom_fifths, ZOOM_DEFAULT_FIFTHS);
}

#[test]
fn pan_of_zero_never_changes_center() {
    let mut t = Transform { center_x: 123456789, center_y: -987654321, zoom_fifths: -7 };
    let before = t;
    t.apply_pan(0, 0);
    assert_eq!(t, before);
}

#[test]
fn zoom_clamps_at_both_bounds_however_often() {
    let mut t = Transform::start();
    let b = default_bounds();
    for _ in 0..10 {
        t.apply_zoom(100, 100, b, 1000);
        assert!(t.zoom_fifths <= ZOOM_MAX_FIFTHS);
    }
    assert_eq!(t.zoom_fifths, ZOOM_MAX_FIFTHS);
    let center_at_max = (t.center_x, t.center_y);
    t.apply_zoom(100, 100, b, 3);
    assert_eq!(t.zoom_fifths, ZOOM_MAX_FIFTHS);
    assert_eq!((t.center_x, t.center_y), center_at_max);
    for _ in 0..10 {
        t.apply_zoom(100, 100, b, -1000);
        assert!(t.zoom_fifths >= ZOOM_MIN_FIFTHS);
    }
    assert_eq!(t.zoom_fifths, ZOOM_MIN_FIFTHS);
    let center_at_min = (t.center_x, t.center_y);
    t.apply_zoom(100, 100, b, -1);
    assert_eq!(t.zoom_fifths, ZOOM_MIN_FIFTHS);
    assert_eq!((t.center_x, t.center_y), center_at_min);
}

#[test]
fn wheel_at_bounds_center_scenario() {
    // Default zoom level 1.0 and center (0, 0); one wheel tick up at the
    // cursor (400, 300), the center of an 800x600 viewport: the zoom level
    // rises by 0.2 (one fifth) and the center moves by
    // (cursor - bounds_center) * (previous_scale - new_scale) * 2 == 0.
    let mut scene = Scene::new();
    assert_eq!(scene.transform.zoom_fifths, ZOOM_DEFAULT_FIFTHS);
    let b = default_bounds();
    let captured = scene.handle_event(
        PointerEvent::Wheel { delta_y: 1 },
        b,
        Some((400, 300)),
    );
    assert!(captured);
    assert_eq!(scene.transform.zoom_fifths, ZOOM_DEFAULT_FIFTHS + 1);
    assert_eq!(scene.transform.center_x, 0);
    assert_eq!(scene.transform.center_y, 0);
}

#[test]
fn wheel_off_center_shifts_center_toward_cursor() {
    // Same scenario, cursor at (600, 300): the doubled cursor offset is
    // (400, 0) and the scale drops from 1048576 to 912832, so the center
    // moves by 400 * (1048576 - 912832) on the x axis only.
    let mut scene = Scene::new();
    let b = default_bounds();
    let captured = scene.handle_event(
        PointerEvent::Wheel { delta_y: 1 },
        b,
        Some((600, 300)),
    );
    assert!(captured);
    assert_eq!(scene.transform.zoom_fifths, ZOOM_DEFAULT_FIFTHS + 1);
    assert_eq!(scene.transform.center_x, 400 * (1048576 - 912832));
    assert_eq!(scene.transform.center_y, 0);
}

#[test]
fn zoom_keeps_world_point_under_cursor() {
    let b = default_bounds();
    let cursor = (600, 200);
    let mut t = Transform::start();
    let before = t.world_point(cursor.0, cursor.1, b);
    t.apply_zoom(cursor.0, cursor.1, b, 1);
    let after = t.world_point(cursor.0, cursor.1, b);
    assert_eq!(before, after);
    // Also across a partially clamping step.
    let mut u = Transform { center_x: 5000, center_y: -3000, zoom_fifths: ZOOM_MAX_FIFTHS - 2 };
    let before = u.world_point(cursor.0, cursor.1, b);
    u.apply_zoom(cursor.0, cursor.1, b, 7);
    assert_eq!(u.zoom_fifths, ZOOM_MAX_FIFTHS);
    let after = u.world_point(cursor.0, cursor.1, b);
    assert_eq!(before, after);
}

#[test]
fn world_point_maps_bounds_center_to_center() {
    let t = Transform { center_x: 777, center_y: -9, zoom_fifths: 0 };
    let b = default_bounds();
    assert_eq!(t.world_point(400, 300, b), (777, -9));
    assert_eq!(t.world_point(500, 300, b), (777 + 65536 * 32 * 200, -9));
}

#[test]
fn release_without_prior_press_stays_idle_uncaptured() {
    let b = default_bounds();
    let (mode, captured, delta) = handle_event(
        InteractionMode::Idle,
        PointerEvent::ReleasePrimary,
        b,
        Some((10, 10)),
    );
    assert_eq!(mode, InteractionMode::Idle);
    assert!(!captured);
    assert_eq!(delta, None);
}

#[test]
fn drag_move_to_anchor_emits_zero_pan_and_keeps_dragging() {
    let b = default_bounds();
    let dragging = InteractionMode::Dragging { x: 120, y: 80 };
    let (mode, captured, delta) = handle_event(
        dragging,
        PointerEvent::Moved { x: 120, y: 80 },
        b,
        Some((120, 80)),
    );
    assert_eq!(mode, dragging);
    assert!(captured);
    assert_eq!(delta, Some(TransformDelta::Pan { dx: 0, dy: 0 }));
}

#[test]
fn press_inside_starts_drag_and_move_emits_pan() {
    let b = default_bounds();
    let (mode, captured, delta) = handle_event(
        InteractionMode::Idle,
        PointerEvent::PressPrimary,
        b,
        Some((100, 50)),
    );
    assert_eq!(mode, InteractionMode::Dragging { x: 100, y: 50 });
    assert!(captured);
    assert_eq!(delta, None);
    let (mode, captured, delta) = handle_event(
        mode,
        PointerEvent::Moved { x: 130, y: 45 },
        b,
        Some((130, 45)),
    );
    assert_eq!(mode, InteractionMode::Dragging { x: 130, y: 45 });
    assert!(captured);
    assert_eq!(delta, Some(TransformDelta::Pan { dx: 30, dy: -5 }));
    let (mode, captured, delta) = handle_event(mode, PointerEvent::ReleasePrimary, b, None);
    assert_eq!(mode, InteractionMode::Idle);
    assert!(captured);
    assert_eq!(delta, None);
}

#[test]
fn press_outside_bounds_is_ignored() {
    let b = default_bounds();
    let (mode, captured, delta) = handle_event(
        InteractionMode::Idle,
        PointerEvent::PressPrimary,
        b,
        Some((900, 50)),
    );
    assert_eq!(mode, InteractionMode::Idle);
    assert!(!captured);
    assert_eq!(delta, None);
    let (mode, captured, delta) = handle_event(
        InteractionMode::Idle,
        PointerEvent::Wheel { delta_y: 1 },
        b,
        None,
    );
    assert_eq!(mode, InteractionMode::Idle);
    assert!(!captured);
    assert_eq!(delta, None);
}

#[test]
fn drag_through_scene_pans_with_current_scale() {
    let mut scene = Scene::new();
    let b = default_bounds();
    assert!(scene.handle_event(PointerEvent::PressPrimary, b, Some((100, 100))));
    assert!(scene.handle_event(PointerEvent::Moved { x: 110, y: 100 }, b, Some((110, 100))));
    assert_eq!(scene.transform.center_x, -2 * 10 * 1048576);
    assert_eq!(scene.transform.center_y, 0);
    assert!(scene.handle_event(PointerEvent::ReleasePrimary, b, Some((110, 100))));
    assert_eq!(scene.mode, InteractionMode::Idle);
}

#[test]
fn scene_new_and_set_image_path() {
    let mut scene = Scene::new();
    assert_eq!(scene.image_path, None);
    assert_eq!(scene.image_seq, 0);
    assert_eq!(scene.mode, InteractionMode::Idle);
    scene.set_image_path(String::from("first.png"));
    assert_eq!(scene.image_path.as_deref(), Some("first.png"));
    assert_eq!(scene.image_seq, 1);
    scene.set_image_path(String::from("second.png"));
    assert_eq!(scene.image_path.as_deref(), Some("second.png"));
    assert_eq!(scene.image_seq, 2);
}

#[test]
fn draw_snapshots_the_scene() {
    let mut scene = Scene::new();
    scene.set_image_path(String::from("picture.png"));
    let b = Bounds { x: 5, y: 6, width: 300, height: 200 };
    let prim = scene.draw(Some((10, 10)), b);
    assert_eq!(prim.bounds, b);
    assert_eq!(prim.transform, scene.transform);
    assert_eq!(prim.image_path.as_deref(), Some("picture.png"));
    assert_eq!(prim.image_seq, 1);
}

#[test]
fn coordinates_at_the_limit_are_accepted() {
    let b = Bounds { x: -COORD_LIMIT, y: -COORD_LIMIT, width: COORD_LIMIT, height: COORD_LIMIT };
    let mut t = Transform { center_x: 0, center_y: 0, zoom_fifths: ZOOM_MIN_FIFTHS };
    t.apply_zoom(-COORD_LIMIT, -COORD_LIMIT, b, 1);
    assert_eq!(t.zoom_fifths, ZOOM_MIN_FIFTHS + 1);
    t.apply_pan(2 * COORD_LIMIT, -2 * COORD_LIMIT);
    let (mode, captured, _) = handle_event(
        InteractionMode::Idle,
        PointerEvent::PressPrimary,
        b,
        Some((-COORD_LIMIT, -COORD_LIMIT)),
    );
    assert_eq!(mode, InteractionMode::Dragging { x: -COORD_LIMIT, y: -COORD_LIMIT });
    assert!(captured);
}

#[test]
fn press_while_dragging_is_ignored() {
    let b = default_bounds();
    let dragging = InteractionMode::Dragging { x: 10, y: 10 };
    let (mode, captured, delta) = handle_event(
        dragging,
        PointerEvent::PressPrimary,
        b,
        Some((50, 50)),
    );
    assert_eq!(mode, dragging);
    assert!(!captured);
    assert_eq!(delta, None);
}

#[test]
fn wheel_while_dragging_keeps_the_drag() {
    let b = default_bounds();
    let dragging = InteractionMode::Dragging { x: 10, y: 10 };
    let (mode, captured, delta) = handle_event(
        dragging,
        PointerEvent::Wheel { delta_y: -2 },
        b,
        Some((50, 50)),
    );
    assert_eq!(mode, dragging);
    assert!(captured);
    assert_eq!(
        delta,
        Some(TransformDelta::Zoom { cursor_x: 50, cursor_y: 50, bounds: b, delta_y: -2 })
    );
}
