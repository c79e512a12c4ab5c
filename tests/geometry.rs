use pwwwd::cli::ResizeOption;
use pwwwd::geometry::{quad_extent, QuadExtent};

fn ext(x_num: u64, x_den: u64, y_num: u64, y_den: u64) -> Option<QuadExtent> {
    Some(QuadExtent { x_num, x_den, y_num, y_den })
}

#[test]
fn no_resize_keeps_pixel_scale() {
    assert_eq!(quad_extent((1920, 1080), (960, 540), ResizeOption::No), ext(960, 1920, 540, 1080));
}

#[test]
fn stretch_spans_surface() {
    assert_eq!(quad_extent((1920, 1080), (10, 700), ResizeOption::Stretch), ext(1, 1, 1, 1));
}

#[test]
fn crop_covers_surface() {
    // A square image on a wide surface: x spans, y overflows by 16/9.
    assert_eq!(
        quad_extent((1920, 1080), (1000, 1000), ResizeOption::Crop),
        ext(1, 1, 1920 * 1000, 1000 * 1080)
    );
    // A wide image on a square surface: y spans, x overflows.
    assert_eq!(
        quad_extent((1000, 1000), (2000, 1000), ResizeOption::Crop),
        ext(2000 * 1000, 1000 * 1000, 1, 1)
    );
}

#[test]
fn fit_stays_inside_surface() {
    // A square image on a wide surface: y spans, x shrinks to 9/16.
    assert_eq!(
        quad_extent((1920, 1080), (1000, 1000), ResizeOption::Fit),
        ext(1000 * 1080, 1000 * 1920, 1, 1)
    );
    // Same aspect ratio: exactly the surface.
    let e = quad_extent((1920, 1080), (3840, 2160), ResizeOption::Fit).unwrap();
    assert_eq!(e.x_num, e.x_den);
    assert_eq!((e.y_num, e.y_den), (1, 1));
}

#[test]
fn zero_side_gives_none() {
    assert_eq!(quad_extent((0, 1080), (10, 10), ResizeOption::Fit), None);
    assert_eq!(quad_extent((1920, 1080), (10, 0), ResizeOption::No), None);
}
