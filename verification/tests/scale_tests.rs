use image_viewer::error::ViewError;
use image_viewer::scale::{compute_scale, window_size, Occupancy, MIN_SIZE};

fn four_fifths() -> Occupancy {
    Occupancy::new(4, 5).unwrap()
}

#[test]
fn large_image_is_shrunk_by_the_larger_axis_factor() {
    let scale = compute_scale(4000, 3000, Some((1920, 1080)), four_fifths());
    assert_eq!(scale, Ok(4));
}

#[test]
fn horizontal_factor_wins_where_it_is_larger() {
    // target box 1536 x 864: ceil(4000 / 1536) = 3, ceil(800 / 864) -> 1
    assert_eq!(compute_scale(4000, 800, Some((1920, 1080)), four_fifths()), Ok(3));
}

#[test]
fn small_image_keeps_its_size() {
    assert_eq!(compute_scale(100, 100, Some((1920, 1080)), four_fifths()), Ok(1));
}

#[test]
fn image_that_equals_the_target_box_is_not_shrunk() {
    assert_eq!(compute_scale(1536, 864, Some((1920, 1080)), four_fifths()), Ok(1));
}

#[test]
fn one_pixel_over_the_target_box_halves_the_image() {
    assert_eq!(compute_scale(1537, 864, Some((1920, 1080)), four_fifths()), Ok(2));
    assert_eq!(compute_scale(1536, 865, Some((1920, 1080)), four_fifths()), Ok(2));
}

#[test]
fn exact_multiple_of_the_target_is_not_rounded_up() {
    assert_eq!(compute_scale(3072, 10, Some((1920, 1080)), four_fifths()), Ok(2));
    assert_eq!(compute_scale(3073, 10, Some((1920, 1080)), four_fifths()), Ok(3));
}

#[test]
fn empty_image_has_scale_one() {
    assert_eq!(compute_scale(0, 0, Some((1920, 1080)), four_fifths()), Ok(1));
}

#[test]
fn target_of_a_fraction_of_a_pixel_is_not_rounded() {
    // target 1/3 of a pixel on each axis: an image of 2 needs a factor of 6
    let third = Occupancy::new(1, 3).unwrap();
    assert_eq!(compute_scale(2, 1, Some((1, 1)), third), Ok(6));
}

#[test]
fn largest_inputs_do_not_overflow() {
    let tiny = Occupancy::new(1, u32::MAX).unwrap();
    let max = u32::MAX as u64;
    assert_eq!(compute_scale(u32::MAX, u32::MAX, Some((1, 1)), tiny), Ok(max * max));
}

#[test]
fn missing_screen_is_no_primary_display() {
    assert_eq!(compute_scale(4000, 3000, None, four_fifths()), Err(ViewError::NoPrimaryDisplay));
}

#[test]
fn screen_without_extent_is_no_primary_display() {
    assert_eq!(
        compute_scale(4000, 3000, Some((0, 1080)), four_fifths()),
        Err(ViewError::NoPrimaryDisplay)
    );
    assert_eq!(
        compute_scale(4000, 3000, Some((1920, 0)), four_fifths()),
        Err(ViewError::NoPrimaryDisplay)
    );
}

#[test]
fn scale_does_not_fall_as_the_image_grows() {
    let mut last: u64 = 0;
    let mut side: u32 = 0;
    while side <= 10_000 {
        let scale = compute_scale(side, side / 2, Some((1920, 1080)), four_fifths()).unwrap();
        assert!(scale >= last);
        assert!(scale >= 1);
        last = scale;
        side += 97;
    }
    assert_eq!(last, 7);
}

#[test]
fn scale_is_the_least_factor_that_fits() {
    let scale = compute_scale(5000, 2000, Some((1280, 720)), four_fifths()).unwrap();
    // the target box is 1024 x 576
    assert_eq!(scale, 5);
    assert!(5000 <= scale * 1024 && 2000 <= scale * 576);
    assert!(5000 > (scale - 1) * 1024);
}

#[test]
fn occupancy_is_a_fraction_above_zero_and_at_most_one() {
    assert!(Occupancy::new(4, 5).is_some());
    assert!(Occupancy::new(5, 5).is_some());
    assert!(Occupancy::new(0, 5).is_none());
    assert!(Occupancy::new(6, 5).is_none());
    assert!(Occupancy::new(0, 0).is_none());
}

#[test]
fn window_takes_the_shrunk_image_size() {
    assert_eq!(window_size(4000, 3000, 4), (1000, 750));
    assert_eq!(window_size(1000, 800, 1), (1000, 800));
}

#[test]
fn window_is_never_smaller_than_the_minimum() {
    assert_eq!(MIN_SIZE, 300);
    assert_eq!(window_size(100, 100, 1), (300, 300));
    assert_eq!(window_size(400, 10_000, 12), (300, 833));
    assert_eq!(window_size(0, 0, 1), (300, 300));
    assert_eq!(window_size(u32::MAX, 299, 1), (u32::MAX, 300));
}
