use imprev::quantize::rgb_to_256_color;

#[test]
fn gray_below_ramp_maps_to_cube_black() {
    assert_eq!(rgb_to_256_color(0, 0, 0), 16);
    assert_eq!(rgb_to_256_color(5, 5, 5), 16);
    assert_eq!(rgb_to_256_color(7, 7, 7), 16);
}

#[test]
fn gray_above_ramp_maps_to_cube_white() {
    assert_eq!(rgb_to_256_color(249, 249, 249), 231);
    assert_eq!(rgb_to_256_color(255, 255, 255), 231);
}

#[test]
fn gray_ramp_representative_values() {
    assert_eq!(rgb_to_256_color(16, 16, 16), 232);
    assert_eq!(rgb_to_256_color(128, 128, 128), 243);
    assert_eq!(rgb_to_256_color(240, 240, 240), 255);
}

#[test]
fn gray_ramp_endpoints() {
    assert_eq!(rgb_to_256_color(8, 8, 8), 232);
    assert_eq!(rgb_to_256_color(248, 248, 248), 255);
}

#[test]
fn gray_ramp_within_range_and_monotone() {
    let mut prev: u8 = 232;
    for v in 8..=248u8 {
        let idx = rgb_to_256_color(v, v, v);
        assert!((232..=255).contains(&idx));
        assert!(idx >= prev);
        prev = idx;
    }
}

#[test]
fn gray_ramp_is_not_collapsed() {
    assert_ne!(
        rgb_to_256_color(16, 16, 16),
        rgb_to_256_color(240, 240, 240)
    );
}

#[test]
fn cube_pure_red_is_196() {
    assert_eq!(rgb_to_256_color(255, 0, 0), 196);
}

#[test]
fn cube_exact_values() {
    assert_eq!(rgb_to_256_color(0, 255, 0), 46);
    assert_eq!(rgb_to_256_color(0, 0, 255), 21);
    assert_eq!(rgb_to_256_color(255, 255, 0), 226);
    assert_eq!(rgb_to_256_color(100, 50, 200), 55);
}

#[test]
fn cube_range_over_non_gray_samples() {
    for r in (0..=255u8).step_by(5) {
        for g in (0..=255u8).step_by(7) {
            let b = r.wrapping_add(13);
            if !(r == g && g == b) {
                let idx = rgb_to_256_color(r, g, b);
                assert!((16..=231).contains(&idx));
            }
        }
    }
}

#[test]
fn quantizer_is_reproducible() {
    for v in [0u8, 8, 100, 200, 255] {
        assert_eq!(rgb_to_256_color(v, 3, 250), rgb_to_256_color(v, 3, 250));
        assert_eq!(rgb_to_256_color(v, v, v), rgb_to_256_color(v, v, v));
    }
}
