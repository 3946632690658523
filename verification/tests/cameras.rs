use pathtracer::camera::AspectRatio;
use pathtracer::camera::Background;
use pathtracer::camera::Camera;
use pathtracer::decimal::Decimal;
use pathtracer::film::Rgb8;
use pathtracer::triple::Triple;

fn camera(width: u32, ratio: (u32, u32), defocus: i64, focus: i64) -> Camera {
    Camera::new(
        width,
        AspectRatio { width: ratio.0, height: ratio.1 },
        100,
        50,
        Background::Gradient,
        Decimal::from_int(20),
        Triple::ints(13, 2, 3),
        Triple::ints(0, 0, 0),
        Triple::ints(0, 1, 0),
        Decimal::from_units(defocus),
        Decimal::from_units(focus),
    )
}

#[test]
fn height_follows_from_width_and_ratio() {
    assert_eq!(camera(400, (16, 9), 0, 0).image_height, 225);
    assert_eq!(camera(1920, (16, 9), 0, 0).image_height, 1080);
    assert_eq!(camera(400, (1, 1), 0, 0).image_height, 400);
    assert_eq!(camera(100, (3, 1), 0, 0).image_height, 33);
    assert_eq!(camera(2, (1, 1), 0, 0).image_height, 2);
    for width in 1u32..3000 {
        let expected = ((width as f64 / (16.0 / 9.0)) as u32).max(1);
        assert_eq!(camera(width, (16, 9), 0, 0).image_height, expected);
    }
}

#[test]
fn height_is_never_zero() {
    assert_eq!(camera(1, (16, 9), 0, 0).image_height, 1);
    assert_eq!(camera(0, (16, 9), 0, 0).image_height, 1);
    assert_eq!(camera(10, (1000, 1), 0, 0).image_height, 1);
    assert_eq!(camera(10, (u32::MAX, 1), 0, 0).image_height, 1);
    assert_eq!(camera(10, (1, 0), 0, 0).image_height, 1);
}

#[test]
fn height_stops_at_the_largest_u32() {
    assert_eq!(camera(u32::MAX, (1, 2), 0, 0).image_height, u32::MAX);
    assert_eq!(camera(u32::MAX, (1, u32::MAX), 0, 0).image_height, u32::MAX);
    assert_eq!(camera(u32::MAX, (1, 1), 0, 0).image_height, u32::MAX);
    assert_eq!(camera(u32::MAX, (2, 1), 0, 0).image_height, u32::MAX / 2);
}

#[test]
fn non_positive_focus_distance_becomes_one() {
    assert_eq!(camera(400, (16, 9), 0, 0).focus_dist.units, 10_000);
    assert_eq!(camera(400, (16, 9), 0, -25_000).focus_dist.units, 10_000);
    assert_eq!(camera(400, (16, 9), 0, 1).focus_dist.units, 1);
    assert_eq!(camera(400, (16, 9), 0, 100_000).focus_dist.units, 100_000);
}

#[test]
fn the_lens_is_used_only_for_a_positive_angle() {
    assert!(!camera(400, (16, 9), 0, 0).uses_defocus());
    assert!(!camera(400, (16, 9), -6_000, 0).uses_defocus());
    assert!(camera(400, (16, 9), 2_000, 100_000).uses_defocus());
    assert!(camera(400, (16, 9), 1, 100_000).uses_defocus());
}

#[test]
fn camera_keeps_the_rest_as_given() {
    let c = camera(400, (16, 9), 2_000, 100_000);
    assert_eq!(c.image_width, 400);
    assert_eq!(c.aspect_ratio, AspectRatio { width: 16, height: 9 });
    assert_eq!(c.samples_per_pixel, 100);
    assert_eq!(c.max_depth, 50);
    assert_eq!(c.background, Background::Gradient);
    assert_eq!(c.vfov.units, 200_000);
    assert_eq!(c.look_from, Triple::ints(13, 2, 3));
    assert_eq!(c.look_at, Triple::ints(0, 0, 0));
    assert_eq!(c.vup, Triple::ints(0, 1, 0));
    assert_eq!(c.defocus_angle.units, 2_000);
}

#[test]
fn pixel_count_is_width_times_height() {
    assert_eq!(camera(400, (16, 9), 0, 0).pixel_count(), 90_000);
    assert_eq!(camera(2, (1, 1), 0, 0).pixel_count(), 4);
    assert_eq!(camera(0, (1, 1), 0, 0).pixel_count(), 0);
    assert_eq!(
        camera(u32::MAX, (1, 1), 0, 0).pixel_count(),
        (u32::MAX as u64) * (u32::MAX as u64)
    );
}

#[test]
fn a_camera_renders_its_pixels_row_by_row() {
    let c = camera(2, (1, 1), 0, 0);
    let pixels: Vec<Rgb8> = (0u8..4).map(|k| Rgb8 { r: k, g: 10 + k, b: 20 + k }).collect();
    let film = c.render(&pixels).unwrap();
    assert_eq!((film.width(), film.height()), (2, 2));
    assert_eq!(film.into_bytes(), vec![0, 10, 20, 1, 11, 21, 2, 12, 22, 3, 13, 23]);
    assert!(c.render(&pixels[..3].to_vec()).is_none());
    assert!(camera(3, (1, 1), 0, 0).render(&pixels).is_none());
}
