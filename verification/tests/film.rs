use pathtracer::film::develop;
use pathtracer::film::pixel_index;
use pathtracer::film::pixel_position;
use pathtracer::film::progress_report;
use pathtracer::film::Rgb8;

fn px(r: u8, g: u8, b: u8) -> Rgb8 {
    Rgb8 { r, g, b }
}

#[test]
fn a_two_by_two_render_fills_four_pixels() {
    let pixels = vec![px(1, 2, 3), px(4, 5, 6), px(7, 8, 9), px(10, 11, 12)];
    let film = develop(2, 2, &pixels).unwrap();
    assert_eq!(film.width(), 2);
    assert_eq!(film.height(), 2);
    assert_eq!(film.into_bytes(), vec![1, 2, 3, 4, 5, 6, 7, 8, 9, 10, 11, 12]);
}

#[test]
fn pixels_are_laid_out_row_by_row() {
    let pixels: Vec<Rgb8> = (0u8..6).map(|k| px(k, 100 + k, 200 + k)).collect();
    let film = develop(3, 2, &pixels).unwrap();
    assert_eq!((film.width(), film.height()), (3, 2));
    let bytes = film.into_bytes();
    assert_eq!(bytes.len(), 18);
    let image = image::RgbImage::from_raw(3, 2, bytes).unwrap();
    for y in 0u32..2 {
        for x in 0u32..3 {
            let k = (y * 3 + x) as u8;
            assert_eq!(image.get_pixel(x, y).0, [k, 100 + k, 200 + k]);
        }
    }
    let tall = develop(2, 3, &pixels).unwrap();
    assert_eq!((tall.width(), tall.height()), (2, 3));
    let image = image::RgbImage::from_raw(2, 3, tall.into_bytes()).unwrap();
    assert_eq!(image.get_pixel(1, 0).0, [1, 101, 201]);
    assert_eq!(image.get_pixel(0, 1).0, [2, 102, 202]);
    assert_eq!(image.get_pixel(1, 2).0, [5, 105, 205]);
}

#[test]
fn a_wrong_count_of_pixels_is_refused() {
    let pixels = vec![px(1, 2, 3); 5];
    assert!(develop(2, 2, &pixels).is_none());
    assert!(develop(3, 2, &pixels).is_none());
    assert!(develop(0, 0, &pixels).is_none());
    assert!(develop(5, 1, &pixels).is_some());
    assert!(develop(1, 5, &pixels).is_some());
    assert!(develop(u32::MAX, u32::MAX, &pixels).is_none());
}

#[test]
fn an_empty_raster_has_no_bytes() {
    let none: Vec<Rgb8> = Vec::new();
    let film = develop(0, 0, &none).unwrap();
    assert_eq!((film.width(), film.height()), (0, 0));
    assert!(film.into_bytes().is_empty());
    let flat = develop(7, 0, &none).unwrap();
    assert_eq!((flat.width(), flat.height()), (7, 0));
    let thin = develop(0, 7, &none).unwrap();
    assert_eq!((thin.width(), thin.height()), (0, 7));
    assert!(thin.into_bytes().is_empty());
}

#[test]
fn positions_count_row_by_row() {
    assert_eq!(pixel_position(0, 400), (0, 0));
    assert_eq!(pixel_position(399, 400), (399, 0));
    assert_eq!(pixel_position(400, 400), (0, 1));
    assert_eq!(pixel_position(89_999, 400), (399, 224));
    assert_eq!(pixel_position(5, 1), (0, 5));
    assert_eq!(pixel_index(0, 0, 400), 0);
    assert_eq!(pixel_index(399, 224, 400), 89_999);
    assert_eq!(pixel_index(0, 1, 400), 400);
    assert_eq!(pixel_index(u32::MAX - 1, u32::MAX, u32::MAX), (u32::MAX as u64) * (u32::MAX as u64) + (u32::MAX as u64) - 1);
}

#[test]
fn position_and_index_undo_each_other() {
    for width in 1u32..9 {
        for index in 0u64..100 {
            let (x, y) = pixel_position(index, width);
            assert!(x < width);
            assert_eq!(pixel_index(x, y, width), index);
        }
    }
}

#[test]
fn progress_is_reported_at_every_tenth() {
    assert_eq!(progress_report(0, 90_000), Some(0));
    assert_eq!(progress_report(9_000, 90_000), Some(10));
    assert_eq!(progress_report(45_000, 90_000), Some(50));
    assert_eq!(progress_report(90_000, 90_000), Some(100));
    assert_eq!(progress_report(9_001, 90_000), None);
    assert_eq!(progress_report(10, 90_000), None);
    assert_eq!(progress_report(3, 15), Some(20));
    assert_eq!(progress_report(10, 10), Some(100));
}

#[test]
fn small_images_report_no_progress() {
    for done in 0u64..10 {
        assert_eq!(progress_report(done, 4), None);
        assert_eq!(progress_report(done, 9), None);
        assert_eq!(progress_report(done, 0), None);
    }
}
