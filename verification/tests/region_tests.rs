use mouse_recorder::region::{compute_patch_around_point, compute_region_around_point};

#[test]
fn region_is_centred_on_the_anchor() {
    assert_eq!(compute_region_around_point(1920, 1080, 960, 540, 600), Some((660, 240, 600, 600)));
}

#[test]
fn region_is_moved_onto_the_screen() {
    assert_eq!(compute_region_around_point(1920, 1080, 10, 1075, 600), Some((0, 480, 600, 600)));
    assert_eq!(compute_region_around_point(1920, 1080, 5000, -40, 600), Some((1320, 0, 600, 600)));
}

#[test]
fn region_is_never_smaller_than_a_hundred() {
    assert_eq!(compute_region_around_point(800, 600, 400, 300, 10), Some((350, 250, 100, 100)));
    assert_eq!(compute_region_around_point(800, 600, 400, 300, 101), Some((350, 250, 101, 101)));
}

#[test]
fn no_region_without_a_screen_or_on_a_screen_too_small() {
    assert_eq!(compute_region_around_point(0, 600, 1, 1, 100), None);
    assert_eq!(compute_region_around_point(800, -1, 1, 1, 100), None);
    assert_eq!(compute_region_around_point(800, 600, 400, 300, 601), None);
    assert_eq!(compute_region_around_point(800, 600, 400, 300, u32::MAX), None);
    assert_eq!(compute_region_around_point(800, 600, 400, 300, 600), Some((100, 0, 600, 600)));
}

#[test]
fn region_takes_extreme_anchors() {
    assert_eq!(compute_region_around_point(i32::MAX, i32::MAX, i32::MIN, i32::MAX, 100), Some((0, 2147483547, 100, 100)));
}

#[test]
fn patch_is_centred_and_moved_onto_the_screen() {
    assert_eq!(compute_patch_around_point(1920, 1080, 100, 200, 64), Some((68, 168, 64)));
    assert_eq!(compute_patch_around_point(1920, 1080, 0, 1079, 64), Some((0, 1016, 64)));
    assert_eq!(compute_patch_around_point(1920, 1080, 100, 200, 3), Some((92, 192, 16)));
    assert_eq!(compute_patch_around_point(10, 10, 5, 5, 16), None);
    assert_eq!(compute_patch_around_point(0, 0, 5, 5, 16), None);
    assert_eq!(compute_patch_around_point(1920, 1080, i32::MIN, i32::MAX, 64), Some((0, 1016, 64)));
}
