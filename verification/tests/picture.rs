use pathtracer::film::Rgb8;
use pathtracer::picture::diagnostic_colour;
use pathtracer::picture::first_found;
use pathtracer::picture::search_paths;
use pathtracer::picture::ImageTexture;
use pathtracer::picture::Texel;
use pathtracer::triple::Triple;

fn gradient(width: u32, height: u32) -> image::DynamicImage {
    let mut buffer = image::RgbImage::new(width, height);
    for y in 0..height {
        for x in 0..width {
            buffer.put_pixel(x, y, image::Rgb([x as u8, y as u8, (10 * x + y) as u8]));
        }
    }
    image::DynamicImage::ImageRgb8(buffer)
}

fn srgb(r: u8, g: u8, b: u8) -> Texel {
    Texel::Srgb(Rgb8 { r, g, b })
}

#[test]
fn a_texel_is_the_pixel_at_its_column_and_row() {
    let texture = ImageTexture::from_image(gradient(4, 3));
    assert_eq!((texture.width(), texture.height()), (4, 3));
    assert!(!texture.is_missing());
    assert_eq!(texture.texel(0, 0), srgb(0, 0, 0));
    assert_eq!(texture.texel(3, 0), srgb(3, 0, 30));
    assert_eq!(texture.texel(0, 2), srgb(0, 2, 2));
    assert_eq!(texture.texel(2, 1), srgb(2, 1, 21));
    assert_eq!(texture.texel(3, 2), srgb(3, 2, 32));
}

#[test]
fn an_index_past_the_edge_reads_the_edge() {
    let texture = ImageTexture::from_image(gradient(4, 3));
    assert_eq!(texture.texel(4, 0), srgb(3, 0, 30));
    assert_eq!(texture.texel(0, 3), srgb(0, 2, 2));
    assert_eq!(texture.texel(4, 3), srgb(3, 2, 32));
    assert_eq!(texture.texel(u32::MAX, u32::MAX), srgb(3, 2, 32));
}

#[test]
fn a_missing_image_gives_the_diagnostic_colour() {
    let texture = ImageTexture::missing();
    assert!(texture.is_missing());
    assert_eq!((texture.width(), texture.height()), (0, 0));
    assert_eq!(texture.texel(0, 0), Texel::Diagnostic);
    assert_eq!(texture.texel(7, 9), Texel::Diagnostic);
    let flat = ImageTexture::from_image(image::DynamicImage::new_rgb8(5, 0));
    assert!(flat.is_missing());
    assert_eq!(flat.texel(0, 0), Texel::Diagnostic);
    let thin = ImageTexture::from_image(image::DynamicImage::new_rgb8(0, 5));
    assert!(thin.is_missing());
    assert_eq!(thin.texel(0, 0), Texel::Diagnostic);
    assert_eq!(diagnostic_colour(), Triple::ints(0, 1, 1));
}

#[test]
fn grey_images_read_as_three_equal_channels() {
    let mut buffer = image::GrayImage::new(2, 1);
    buffer.put_pixel(1, 0, image::Luma([200]));
    let texture = ImageTexture::from_image(image::DynamicImage::ImageLuma8(buffer));
    assert_eq!(texture.texel(0, 0), srgb(0, 0, 0));
    assert_eq!(texture.texel(1, 0), srgb(200, 200, 200));
}

#[test]
fn a_file_is_looked_for_in_seven_places() {
    assert_eq!(
        search_paths("earthmap.jpg"),
        vec![
            "earthmap.jpg",
            "./earthmap.jpg",
            "textures/earthmap.jpg",
            "../textures/earthmap.jpg",
            "../../textures/earthmap.jpg",
            "../../../textures/earthmap.jpg",
            "../../../../textures/earthmap.jpg",
        ]
    );
    assert_eq!(search_paths("")[2], "textures/");
}

#[test]
fn the_first_place_that_exists_is_taken() {
    assert_eq!(first_found(&vec![false, false, true, false, true]), Some(2));
    assert_eq!(first_found(&vec![true, true]), Some(0));
    assert_eq!(first_found(&vec![false, false, false]), None);
    assert_eq!(first_found(&vec![]), None);
}
