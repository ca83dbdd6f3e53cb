//! The image buffer itself: construction, layout, cloning, and pixel
//! access.

use alphablend::harness::generate_images;
use alphablend::pixel::Pixel;
use alphablend::raster::Image;

#[test]
fn generated_images_hold_their_fills() {
    let (bg, fg) =
        generate_images(3, 2, Pixel::new(101, 102, 103, 255), Pixel::new(10, 217, 100, 200))
            .unwrap();
    assert_eq!(bg.width(), 3);
    assert_eq!(bg.height(), 2);
    assert_eq!(bg.bytes().len(), 24);
    assert_eq!(fg.bytes().len(), 24);
    for y in 0..2 {
        for x in 0..3 {
            assert_eq!(bg.get_pixel(x, y).unwrap(), Pixel::new(101, 102, 103, 255));
            assert_eq!(fg.get_pixel(x, y).unwrap(), Pixel::new(10, 217, 100, 200));
        }
    }
}

#[test]
fn byte_layout_is_interleaved_rgba_row_major() {
    let mut img = Image::new(2, 2, Pixel::new(0, 0, 0, 0)).unwrap();
    assert!(img.set_pixel(1, 0, Pixel::new(1, 2, 3, 4)));
    assert!(img.set_pixel(0, 1, Pixel::new(5, 6, 7, 8)));
    assert_eq!(
        img.bytes().as_slice(),
        &[0, 0, 0, 0, 1, 2, 3, 4, 5, 6, 7, 8, 0, 0, 0, 0]
    );
}

#[test]
fn get_and_set_pixel_respect_bounds() {
    let mut img = Image::new(2, 3, Pixel::new(9, 9, 9, 9)).unwrap();
    assert!(img.get_pixel(1, 2).is_some());
    assert!(img.get_pixel(2, 0).is_none());
    assert!(img.get_pixel(0, 3).is_none());
    assert!(!img.set_pixel(2, 0, Pixel::new(1, 1, 1, 1)));
    assert_eq!(img.get_pixel(0, 0).unwrap(), Pixel::new(9, 9, 9, 9));
}

#[test]
fn duplicate_is_independent() {
    let mut original = Image::new(2, 1, Pixel::new(1, 2, 3, 4)).unwrap();
    let copy = original.duplicate();
    assert_eq!(copy.bytes(), original.bytes());
    assert!(original.set_pixel(0, 0, Pixel::new(200, 200, 200, 200)));
    assert_eq!(copy.get_pixel(0, 0).unwrap(), Pixel::new(1, 2, 3, 4));
    assert_eq!(original.get_pixel(0, 0).unwrap(), Pixel::new(200, 200, 200, 200));
}

#[test]
fn from_bytes_checks_length() {
    assert!(Image::from_bytes(2, 1, vec![0u8; 8]).is_some());
    assert!(Image::from_bytes(2, 1, vec![0u8; 7]).is_none());
    assert!(Image::from_bytes(2, 1, vec![0u8; 9]).is_none());
    let img = Image::from_bytes(1, 1, vec![10, 20, 30, 40]).unwrap();
    assert_eq!(img.get_pixel(0, 0).unwrap(), Pixel::new(10, 20, 30, 40));
}

#[test]
fn into_bytes_round_trips() {
    let img = Image::from_bytes(1, 2, vec![1, 2, 3, 4, 5, 6, 7, 8]).unwrap();
    assert_eq!(img.into_bytes(), vec![1, 2, 3, 4, 5, 6, 7, 8]);
}

#[test]
fn pixel_constructors() {
    assert_eq!(Pixel::new(1, 2, 3, 4), Pixel { r: 1, g: 2, b: 3, a: 4 });
    assert_eq!(Pixel::opaque(1, 2, 3), Pixel::new(1, 2, 3, 255));
}
