//! Per-backend behavior on concrete pixel data: the canonical scenario, the
//! identity and replacement corners, the error paths, and tolerance sweeps
//! against the reference backend.

use alphablend::backend::Backend;
use alphablend::backend::BlendError;
use alphablend::backend::Capabilities;
use alphablend::fixed::composite_fixed;
use alphablend::harness::composite;
use alphablend::harness::generate_images;
use alphablend::harness::run_backend;
use alphablend::opaque::composite_opaque;
use alphablend::pixel::Pixel;
use alphablend::raster::Image;
use alphablend::reference::composite_reference;
use alphablend::reference::reference_blend_pixel;
use alphablend::table::UnmultiplyTable;

fn all_caps() -> Capabilities {
    Capabilities::new(true, true)
}

fn scenario_images() -> (Image, Image) {
    generate_images(1, 1, Pixel::new(101, 102, 103, 255), Pixel::new(10, 217, 100, 200)).unwrap()
}

fn first_pixel(img: &Image) -> Pixel {
    img.get_pixel(0, 0).unwrap()
}

#[test]
fn concrete_scenario_reference() {
    let (bg, fg) = scenario_images();
    let table = UnmultiplyTable::new();
    let out = run_backend(Backend::FloatReference, all_caps(), &table, &bg, &fg).unwrap();
    assert_eq!(first_pixel(&out), Pixel::new(29, 192, 100, 255));
}

#[test]
fn concrete_scenario_fixed() {
    let (bg, fg) = scenario_images();
    let table = UnmultiplyTable::new();
    let out = run_backend(Backend::FixedPoint, all_caps(), &table, &bg, &fg).unwrap();
    assert_eq!(first_pixel(&out), Pixel::new(28, 192, 100, 255));
}

#[test]
fn concrete_scenario_opaque_fast() {
    let (bg, fg) = scenario_images();
    let table = UnmultiplyTable::new();
    let out = run_backend(Backend::OpaqueFast, all_caps(), &table, &bg, &fg).unwrap();
    assert_eq!(first_pixel(&out), Pixel::new(29, 191, 100, 255));
}

#[test]
fn concrete_scenario_vector_backends_match_fast_path() {
    let (bg, fg) = scenario_images();
    let table = UnmultiplyTable::new();
    let narrow = run_backend(Backend::VectorNarrow, all_caps(), &table, &bg, &fg).unwrap();
    let wide = run_backend(Backend::VectorWide, all_caps(), &table, &bg, &fg).unwrap();
    assert_eq!(first_pixel(&narrow), Pixel::new(29, 191, 100, 255));
    assert_eq!(first_pixel(&wide), Pixel::new(29, 191, 100, 255));
}

#[test]
fn concrete_scenario_all_backends_within_tolerance() {
    let (bg, fg) = scenario_images();
    let table = UnmultiplyTable::new();
    let expected = [29i32, 192, 100, 255];
    for backend in [
        Backend::FloatReference,
        Backend::FixedPoint,
        Backend::OpaqueFast,
        Backend::VectorNarrow,
        Backend::VectorWide,
    ] {
        let out = run_backend(backend, all_caps(), &table, &bg, &fg).unwrap();
        let p = first_pixel(&out);
        let got = [p.r as i32, p.g as i32, p.b as i32, p.a as i32];
        for c in 0..4 {
            assert!(
                (got[c] - expected[c]).abs() <= 2,
                "backend {:?} channel {} off: {} vs {}",
                backend,
                c,
                got[c],
                expected[c]
            );
        }
    }
}

#[test]
fn translucent_background_reference() {
    let (bg, fg) =
        generate_images(1, 1, Pixel::new(40, 60, 80, 128), Pixel::new(200, 100, 0, 64)).unwrap();
    let table = UnmultiplyTable::new();
    let out = run_backend(Backend::FloatReference, all_caps(), &table, &bg, &fg).unwrap();
    assert_eq!(first_pixel(&out), Pixel::new(104, 76, 47, 159));
}

#[test]
fn translucent_background_fixed() {
    let (bg, fg) =
        generate_images(1, 1, Pixel::new(40, 60, 80, 128), Pixel::new(200, 100, 0, 64)).unwrap();
    let table = UnmultiplyTable::new();
    let out = run_backend(Backend::FixedPoint, all_caps(), &table, &bg, &fg).unwrap();
    assert_eq!(first_pixel(&out), Pixel::new(102, 75, 46, 160));
}

#[test]
fn transparent_foreground_keeps_background_reference() {
    // Identity holds exactly for the reference, even over a translucent
    // background.
    let (bg, fg) =
        generate_images(2, 2, Pixel::new(40, 60, 80, 128), Pixel::new(9, 9, 9, 0)).unwrap();
    let table = UnmultiplyTable::new();
    let out = run_backend(Backend::FloatReference, all_caps(), &table, &bg, &fg).unwrap();
    assert_eq!(out.bytes(), bg.bytes());
}

#[test]
fn transparent_foreground_keeps_background_fixed() {
    let (bg, fg) =
        generate_images(2, 2, Pixel::new(101, 102, 103, 255), Pixel::new(9, 9, 9, 0)).unwrap();
    let table = UnmultiplyTable::new();
    let out = run_backend(Backend::FixedPoint, all_caps(), &table, &bg, &fg).unwrap();
    assert_eq!(out.bytes(), bg.bytes());
}

#[test]
fn transparent_foreground_keeps_background_within_tolerance_fast_path() {
    let (bg, fg) =
        generate_images(1, 1, Pixel::new(101, 102, 103, 255), Pixel::new(9, 9, 9, 0)).unwrap();
    let table = UnmultiplyTable::new();
    for backend in [Backend::OpaqueFast, Backend::VectorNarrow, Backend::VectorWide] {
        let out = run_backend(backend, all_caps(), &table, &bg, &fg).unwrap();
        let p = first_pixel(&out);
        assert!((p.r as i32 - 101).abs() <= 2);
        assert!((p.g as i32 - 102).abs() <= 2);
        assert!((p.b as i32 - 103).abs() <= 2);
        assert_eq!(p.a, 255);
    }
}

#[test]
fn fully_transparent_pair_left_unchanged() {
    // Both inputs fully transparent: the degenerate case. The policy is to
    // leave the destination unchanged, not to divide by zero.
    let (bg, fg) = generate_images(2, 1, Pixel::new(7, 8, 9, 0), Pixel::new(1, 2, 3, 0)).unwrap();
    let table = UnmultiplyTable::new();
    for backend in [Backend::FloatReference, Backend::FixedPoint] {
        let out = run_backend(backend, all_caps(), &table, &bg, &fg).unwrap();
        assert_eq!(out.bytes(), bg.bytes());
    }
}

#[test]
fn opaque_foreground_replaces_background_exactly() {
    let (bg, fg) =
        generate_images(2, 2, Pixel::new(40, 60, 80, 128), Pixel::new(200, 100, 0, 255)).unwrap();
    let table = UnmultiplyTable::new();
    for backend in [Backend::FloatReference, Backend::FixedPoint] {
        let out = run_backend(backend, all_caps(), &table, &bg, &fg).unwrap();
        assert_eq!(out.bytes(), fg.bytes());
    }
}

#[test]
fn opaque_foreground_replaces_background_within_tolerance_fast_path() {
    let (bg, fg) =
        generate_images(1, 1, Pixel::new(40, 60, 80, 255), Pixel::new(200, 100, 3, 255)).unwrap();
    let table = UnmultiplyTable::new();
    for backend in [Backend::OpaqueFast, Backend::VectorNarrow, Backend::VectorWide] {
        let out = run_backend(backend, all_caps(), &table, &bg, &fg).unwrap();
        let p = first_pixel(&out);
        assert!((p.r as i32 - 200).abs() <= 2);
        assert!((p.g as i32 - 100).abs() <= 2);
        assert!((p.b as i32 - 3).abs() <= 2);
        assert_eq!(p.a, 255);
    }
}

#[test]
fn dimension_mismatch_detected_before_work() {
    let bg = Image::new(2, 2, Pixel::new(1, 2, 3, 255)).unwrap();
    let fg = Image::new(1, 1, Pixel::new(4, 5, 6, 255)).unwrap();
    let table = UnmultiplyTable::new();
    let snapshot = bg.bytes().clone();
    for backend in [
        Backend::FloatReference,
        Backend::FixedPoint,
        Backend::OpaqueFast,
        Backend::VectorNarrow,
        Backend::VectorWide,
    ] {
        let r = run_backend(backend, all_caps(), &table, &bg, &fg);
        assert_eq!(r.unwrap_err(), BlendError::DimensionMismatch);
    }
    assert_eq!(bg.bytes(), &snapshot);
}

#[test]
fn missing_vector_extension_reports_unsupported() {
    let (bg, fg) = scenario_images();
    let table = UnmultiplyTable::new();
    let none = Capabilities::none();
    for backend in [Backend::VectorNarrow, Backend::VectorWide] {
        let r = run_backend(backend, none, &table, &bg, &fg);
        assert_eq!(r.unwrap_err(), BlendError::Unsupported);
    }
    let narrow_only = Capabilities::new(true, false);
    assert!(run_backend(Backend::VectorNarrow, narrow_only, &table, &bg, &fg).is_ok());
    assert_eq!(
        run_backend(Backend::VectorWide, narrow_only, &table, &bg, &fg).unwrap_err(),
        BlendError::Unsupported
    );
}

#[test]
fn device_offload_reports_unsupported() {
    let (bg, fg) = scenario_images();
    let table = UnmultiplyTable::new();
    let r = run_backend(Backend::DeviceOffload, all_caps(), &table, &bg, &fg);
    assert_eq!(r.unwrap_err(), BlendError::Unsupported);
}

#[test]
fn composite_mutates_in_place() {
    let (bg, fg) = scenario_images();
    let table = UnmultiplyTable::new();
    let mut dst = bg.duplicate();
    composite(Backend::FloatReference, all_caps(), &table, &mut dst, &fg).unwrap();
    assert_eq!(first_pixel(&dst), Pixel::new(29, 192, 100, 255));
    // The original background is untouched: the clone is the isolation.
    assert_eq!(first_pixel(&bg), Pixel::new(101, 102, 103, 255));
}

#[test]
fn backend_entry_points_match_dispatch() {
    let (bg, fg) = scenario_images();
    let table = UnmultiplyTable::new();

    let mut a = bg.duplicate();
    composite_reference(&mut a, &fg).unwrap();
    assert_eq!(first_pixel(&a), Pixel::new(29, 192, 100, 255));

    let mut b = bg.duplicate();
    composite_fixed(&table, &mut b, &fg).unwrap();
    assert_eq!(first_pixel(&b), Pixel::new(28, 192, 100, 255));

    let mut c = bg.duplicate();
    composite_opaque(&mut c, &fg).unwrap();
    assert_eq!(first_pixel(&c), Pixel::new(29, 191, 100, 255));

    let p = reference_blend_pixel(Pixel::new(101, 102, 103, 255), Pixel::new(10, 217, 100, 200));
    assert_eq!(p, Pixel::new(29, 192, 100, 255));
}

#[test]
fn oracle_agreement_sweep_opaque_background() {
    // Over an opaque background every backend stays within two units of the
    // reference on every color channel, and alphas match exactly.
    let table = UnmultiplyTable::new();
    let caps = all_caps();
    for a in 0..=255u8 {
        for sd in (0..=255u8).step_by(15) {
            let bg = Image::new(1, 1, Pixel::new(sd, 255 - sd, 7, 255)).unwrap();
            let fg = Image::new(1, 1, Pixel::new(255 - sd, sd, 250, a)).unwrap();
            let oracle =
                first_pixel(&run_backend(Backend::FloatReference, caps, &table, &bg, &fg).unwrap());
            for backend in [
                Backend::FixedPoint,
                Backend::OpaqueFast,
                Backend::VectorNarrow,
                Backend::VectorWide,
            ] {
                let p = first_pixel(&run_backend(backend, caps, &table, &bg, &fg).unwrap());
                assert!((p.r as i32 - oracle.r as i32).abs() <= 2);
                assert!((p.g as i32 - oracle.g as i32).abs() <= 2);
                assert!((p.b as i32 - oracle.b as i32).abs() <= 2);
                assert_eq!(p.a, oracle.a);
            }
        }
    }
}

#[test]
fn opaque_fast_matches_fixed_point_sweep() {
    // The fast-path shortcut against the full fixed-point formula, over an
    // opaque background: within two units, output alpha exactly 255.
    let table = UnmultiplyTable::new();
    let caps = all_caps();
    for a in 0..=255u8 {
        for sd in (0..=255u8).step_by(15) {
            let bg = Image::new(1, 1, Pixel::new(sd, 255 - sd, 128, 255)).unwrap();
            let fg = Image::new(1, 1, Pixel::new(255 - sd, sd, 33, a)).unwrap();
            let fast =
                first_pixel(&run_backend(Backend::OpaqueFast, caps, &table, &bg, &fg).unwrap());
            let fix = first_pixel(&run_backend(Backend::FixedPoint, caps, &table, &bg, &fg).unwrap());
            assert!((fast.r as i32 - fix.r as i32).abs() <= 2);
            assert!((fast.g as i32 - fix.g as i32).abs() <= 2);
            assert!((fast.b as i32 - fix.b as i32).abs() <= 2);
            assert_eq!(fast.a, 255);
            assert_eq!(fix.a, 255);
        }
    }
}

#[test]
fn float_formula_agrees_with_reference_backend() {
    // The normalized floating-point rendition of the formula (the form the
    // reference is usually written in) against the library's exact integer
    // evaluation: within one unit on every channel.
    let float_blend = |bg: Pixel, fg: Pixel| -> Pixel {
        let m = 255.0f32;
        let (bgr, bgg, bgb, bga) =
            (bg.r as f32 / m, bg.g as f32 / m, bg.b as f32 / m, bg.a as f32 / m);
        let (fgr, fgg, fgb, fga) =
            (fg.r as f32 / m, fg.g as f32 / m, fg.b as f32 / m, fg.a as f32 / m);
        let alpha_final = bga + fga - bga * fga;
        if alpha_final == 0.0 {
            return bg;
        }
        let (bgrp, bggp, bgbp) = (bgr * bga, bgg * bga, bgb * bga);
        let (fgrp, fggp, fgbp) = (fgr * fga, fgg * fga, fgb * fga);
        let (or_, og, ob) = (
            (fgrp + bgrp * (1.0 - fga)) / alpha_final,
            (fggp + bggp * (1.0 - fga)) / alpha_final,
            (fgbp + bgbp * (1.0 - fga)) / alpha_final,
        );
        Pixel::new(
            (m * or_) as u8,
            (m * og) as u8,
            (m * ob) as u8,
            (m * alpha_final) as u8,
        )
    };
    let table = UnmultiplyTable::new();
    let caps = all_caps();
    for a in (0..=255u8).step_by(3) {
        for da in [0u8, 1, 64, 128, 254, 255] {
            for sd in (0..=255u8).step_by(17) {
                let bgp = Pixel::new(sd, 255 - sd, 101, da);
                let fgp = Pixel::new(255 - sd, sd, 7, a);
                let bg = Image::new(1, 1, bgp).unwrap();
                let fg = Image::new(1, 1, fgp).unwrap();
                let exact = first_pixel(
                    &run_backend(Backend::FloatReference, caps, &table, &bg, &fg).unwrap(),
                );
                let float = float_blend(bgp, fgp);
                assert!((exact.r as i32 - float.r as i32).abs() <= 1);
                assert!((exact.g as i32 - float.g as i32).abs() <= 1);
                assert!((exact.b as i32 - float.b as i32).abs() <= 1);
                assert!((exact.a as i32 - float.a as i32).abs() <= 1);
            }
        }
    }
}
