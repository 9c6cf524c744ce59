use bevy_dragndrop::hit::{is_in_bounds, Extent, HitArea, ImageSize, Point, Pointer};

fn at(sx: i64, sy: i64, wx: i64, wy: i64) -> Pointer {
    Pointer { screen: Point { x: sx, y: sy }, world: Point { x: wx, y: wy } }
}

fn node(cx: i64, cy: i64, w: i64, h: i64) -> HitArea {
    HitArea { center: Point { x: cx, y: cy }, extent: Extent::Node { width: w, height: h } }
}

#[test]
fn node_box_is_closed_and_centered() {
    let a = node(100, 50, 20, 10);
    assert!(is_in_bounds(&a, &at(100, 50, 0, 0)));
    assert!(is_in_bounds(&a, &at(90, 45, 0, 0)));
    assert!(is_in_bounds(&a, &at(110, 55, 0, 0)));
    assert!(!is_in_bounds(&a, &at(111, 50, 0, 0)));
    assert!(!is_in_bounds(&a, &at(100, 44, 0, 0)));
}

#[test]
fn node_is_tested_against_screen_position() {
    let a = node(0, 0, 10, 10);
    assert!(!is_in_bounds(&a, &at(100, 100, 0, 0)));
    assert!(is_in_bounds(&a, &at(0, 0, 100, 100)));
}

#[test]
fn odd_sizes_reach_half_a_unit() {
    let a = node(0, 0, 3, 3);
    assert!(is_in_bounds(&a, &at(1, -1, 0, 0)));
    assert!(!is_in_bounds(&a, &at(2, 0, 0, 0)));
}

#[test]
fn object_is_tested_against_world_position() {
    let a = HitArea { center: Point { x: -5, y: 5 }, extent: Extent::Object { scale_x: 4, scale_y: 2 } };
    assert!(is_in_bounds(&a, &at(1000, 1000, -7, 6)));
    assert!(!is_in_bounds(&a, &at(-5, 5, -8, 5)));
    assert!(!is_in_bounds(&a, &at(-5, 5, -5, 7)));
}

#[test]
fn sprite_is_scaled_by_image_size() {
    let img = ImageSize { width: 32, height: 16 };
    let a = HitArea {
        center: Point { x: 0, y: 0 },
        extent: Extent::Sprite { scale_x: 2, scale_y: 1, image: Some(img) },
    };
    assert!(is_in_bounds(&a, &at(0, 0, 32, 8)));
    assert!(!is_in_bounds(&a, &at(0, 0, 33, 0)));
    assert!(!is_in_bounds(&a, &at(0, 0, 0, 9)));
}

#[test]
fn unloaded_sprite_is_never_hit() {
    let a = HitArea {
        center: Point { x: 0, y: 0 },
        extent: Extent::Sprite { scale_x: 1, scale_y: 1, image: None },
    };
    assert!(!is_in_bounds(&a, &at(0, 0, 0, 0)));
}

#[test]
fn negative_size_holds_nothing() {
    let a = node(0, 0, -2, 10);
    assert!(!is_in_bounds(&a, &at(0, 0, 0, 0)));
}

#[test]
fn extreme_coordinates_do_not_overflow() {
    let a = HitArea {
        center: Point { x: i64::MAX, y: i64::MIN },
        extent: Extent::Sprite { scale_x: i64::MAX, scale_y: i64::MAX, image: Some(ImageSize { width: u32::MAX, height: u32::MAX }) },
    };
    assert!(is_in_bounds(&a, &at(0, 0, i64::MIN, i64::MAX)));
    let b = node(i64::MIN, i64::MIN, 0, 0);
    assert!(!is_in_bounds(&b, &at(i64::MAX, i64::MAX, 0, 0)));
}

#[test]
fn hit_test_repeats_identically() {
    let a = node(10, 10, 6, 6);
    let p = at(12, 13, 0, 0);
    let first = is_in_bounds(&a, &p);
    for _ in 0..5 {
        assert_eq!(is_in_bounds(&a, &p), first);
    }
    let q = at(14, 10, 0, 0);
    let miss = is_in_bounds(&a, &q);
    assert!(!miss);
    assert_eq!(is_in_bounds(&a, &q), miss);
}
