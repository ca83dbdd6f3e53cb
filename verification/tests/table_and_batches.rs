//! The lookup table's boundary behavior and the batch/scalar equivalence of
//! the lane backends on buffers whose pixel count is not a multiple of the
//! batch width.

use alphablend::backend::Backend;
use alphablend::backend::Capabilities;
use alphablend::harness::run_backend;
use alphablend::pixel::Pixel;
use alphablend::raster::Image;
use alphablend::table::UnmultiplyTable;
use alphablend::vector::composite_vector_narrow;
use alphablend::vector::composite_vector_wide;

#[test]
fn table_denominator_255_is_identity() {
    let table = UnmultiplyTable::new();
    for x in 0..=255u8 {
        assert_eq!(table.unmultiply(x, 255), x);
    }
}

#[test]
fn table_concrete_entries() {
    let table = UnmultiplyTable::new();
    // round(255 * 100 / 200) rounds half up.
    assert_eq!(table.unmultiply(100, 200), 128);
    // A numerator above the denominator clamps at the channel maximum.
    assert_eq!(table.unmultiply(255, 1), 255);
    // A zero numerator unmultiplies to zero whatever the denominator.
    assert_eq!(table.unmultiply(0, 17), 0);
    assert_eq!(table.unmultiply(128, 255), 128);
}

/// A small image whose pixels all differ, so a misplaced batch shows up.
fn varied_images(width: u32, height: u32) -> (Image, Image) {
    let mut bg = Image::new(width, height, Pixel::new(0, 0, 0, 255)).unwrap();
    let mut fg = Image::new(width, height, Pixel::new(0, 0, 0, 0)).unwrap();
    let mut i: u32 = 0;
    for y in 0..height {
        for x in 0..width {
            let v = (i * 37 % 256) as u8;
            assert!(bg.set_pixel(x, y, Pixel::new(v, 255 - v, v.wrapping_mul(3), 255)));
            assert!(fg.set_pixel(
                x,
                y,
                Pixel::new(255 - v, v, v.wrapping_add(91), v.wrapping_mul(7))
            ));
            i += 1;
        }
    }
    (bg, fg)
}

#[test]
fn batch_equals_scalar_on_odd_pixel_count() {
    // Five pixels: not a multiple of either batch width, so both lane
    // backends finish with their scalar remainder loop.
    let (bg, fg) = varied_images(5, 1);
    let table = UnmultiplyTable::new();
    let caps = Capabilities::new(true, true);
    let scalar = run_backend(Backend::OpaqueFast, caps, &table, &bg, &fg).unwrap();
    let narrow = run_backend(Backend::VectorNarrow, caps, &table, &bg, &fg).unwrap();
    let wide = run_backend(Backend::VectorWide, caps, &table, &bg, &fg).unwrap();
    assert_eq!(narrow.bytes(), scalar.bytes());
    assert_eq!(wide.bytes(), scalar.bytes());
}

#[test]
fn batch_equals_scalar_across_sizes() {
    let table = UnmultiplyTable::new();
    let caps = Capabilities::new(true, true);
    for (w, h) in [(1u32, 1u32), (2, 1), (3, 1), (7, 1), (4, 2), (3, 3), (6, 5)] {
        let (bg, fg) = varied_images(w, h);
        let scalar = run_backend(Backend::OpaqueFast, caps, &table, &bg, &fg).unwrap();
        let narrow = run_backend(Backend::VectorNarrow, caps, &table, &bg, &fg).unwrap();
        let wide = run_backend(Backend::VectorWide, caps, &table, &bg, &fg).unwrap();
        assert_eq!(narrow.bytes(), scalar.bytes(), "narrow mismatch at {}x{}", w, h);
        assert_eq!(wide.bytes(), scalar.bytes(), "wide mismatch at {}x{}", w, h);
    }
}

#[test]
fn direct_vector_entry_points_match() {
    let (bg, fg) = varied_images(7, 1);
    let table = UnmultiplyTable::new();
    let caps = Capabilities::new(true, true);
    let scalar = run_backend(Backend::OpaqueFast, caps, &table, &bg, &fg).unwrap();
    let mut narrow = bg.duplicate();
    composite_vector_narrow(&mut narrow, &fg).unwrap();
    let mut wide = bg.duplicate();
    composite_vector_wide(&mut wide, &fg).unwrap();
    assert_eq!(narrow.bytes(), scalar.bytes());
    assert_eq!(wide.bytes(), scalar.bytes());
}

#[test]
fn empty_image_composites_to_empty() {
    let bg = Image::new(0, 3, Pixel::new(1, 2, 3, 255)).unwrap();
    let fg = Image::new(0, 3, Pixel::new(4, 5, 6, 7)).unwrap();
    let table = UnmultiplyTable::new();
    let caps = Capabilities::new(true, true);
    for backend in [
        Backend::FloatReference,
        Backend::FixedPoint,
        Backend::OpaqueFast,
        Backend::VectorNarrow,
        Backend::VectorWide,
    ] {
        let out = run_backend(backend, caps, &table, &bg, &fg).unwrap();
        assert!(out.bytes().is_empty());
        assert!(out.get_pixel(0, 0).is_none());
    }
}
