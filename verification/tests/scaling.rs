//! Placement of a source image in a target, mode by mode.

use pixel_compositor::error::RenderError;
use pixel_compositor::scaling::{
    calculate_scaled_dimensions, compute_placement, Placement, ScaleMode,
};

// ---- Fit ----

#[test]
fn test_fit_16_9_buffer_to_16_9_window() {
    // 1920x1080 buffer to 1920x1080 window - exact fit
    let (offset_x, offset_y, scaled_w, scaled_h) =
        calculate_scaled_dimensions(1920, 1080, 1920, 1080, ScaleMode::Fit).unwrap();
    assert_eq!(offset_x, 0);
    assert_eq!(offset_y, 0);
    assert_eq!(scaled_w, 1920);
    assert_eq!(scaled_h, 1080);
}

#[test]
fn test_fit_16_9_buffer_to_4_3_window() {
    // 1920x1080 (16:9) buffer to 800x600 (4:3) window
    // Should letterbox (black bars top/bottom)
    let (offset_x, offset_y, scaled_w, scaled_h) =
        calculate_scaled_dimensions(1920, 1080, 800, 600, ScaleMode::Fit).unwrap();
    // Scale is limited by width: 800/1920 = 0.4167
    // Scaled height: 1080 * 0.4167 = 450
    assert_eq!(scaled_w, 800);
    assert_eq!(scaled_h, 450);
    assert_eq!(offset_x, 0);
    assert_eq!(offset_y, 75); // (600 - 450) / 2
}

#[test]
fn test_fit_4_3_buffer_to_16_9_window() {
    // 800x600 (4:3) buffer to 1920x1080 (16:9) window
    // Should pillarbox (black bars left/right)
    let (offset_x, offset_y, scaled_w, scaled_h) =
        calculate_scaled_dimensions(800, 600, 1920, 1080, ScaleMode::Fit).unwrap();
    // Scale is limited by height: 1080/600 = 1.8
    // Scaled width: 800 * 1.8 = 1440
    assert_eq!(scaled_w, 1440);
    assert_eq!(scaled_h, 1080);
    assert_eq!(offset_x, 240); // (1920 - 1440) / 2
    assert_eq!(offset_y, 0);
}

#[test]
fn test_fit_buffer_larger_than_window() {
    // 3840x2160 buffer to 1920x1080 window
    let (offset_x, offset_y, scaled_w, scaled_h) =
        calculate_scaled_dimensions(3840, 2160, 1920, 1080, ScaleMode::Fit).unwrap();
    assert_eq!(scaled_w, 1920);
    assert_eq!(scaled_h, 1080);
    assert_eq!(offset_x, 0);
    assert_eq!(offset_y, 0);
}

#[test]
fn test_fit_buffer_smaller_than_window() {
    // 320x240 buffer to 1920x1080 window
    let (offset_x, offset_y, scaled_w, scaled_h) =
        calculate_scaled_dimensions(320, 240, 1920, 1080, ScaleMode::Fit).unwrap();
    // Scale limited by height: 1080/240 = 4.5
    // Scaled width: 320 * 4.5 = 1440
    assert_eq!(scaled_w, 1440);
    assert_eq!(scaled_h, 1080);
    assert_eq!(offset_x, 240);
    assert_eq!(offset_y, 0);
}

#[test]
fn test_fit_1_1_aspect_ratio() {
    // 512x512 buffer to 1024x768 window
    let (offset_x, offset_y, scaled_w, scaled_h) =
        calculate_scaled_dimensions(512, 512, 1024, 768, ScaleMode::Fit).unwrap();
    // Scale limited by height: 768/512 = 1.5
    assert_eq!(scaled_w, 768);
    assert_eq!(scaled_h, 768);
    assert_eq!(offset_x, 128); // (1024 - 768) / 2
    assert_eq!(offset_y, 0);
}

#[test]
fn test_fit_21_9_ultrawide() {
    // 2560x1080 (21:9) buffer to 1920x1080 (16:9) window
    let (offset_x, offset_y, scaled_w, scaled_h) =
        calculate_scaled_dimensions(2560, 1080, 1920, 1080, ScaleMode::Fit).unwrap();
    // Scale limited by height: 1080/1080 = 1
    assert_eq!(scaled_w, 1920);
    assert_eq!(scaled_h, 810); // 1080 * (1920/2560)
    assert_eq!(offset_x, 0);
    assert_eq!(offset_y, 135); // (1080 - 810) / 2
}

// ---- Fill ----

#[test]
fn test_fill_16_9_buffer_to_16_9_window() {
    // 1920x1080 buffer to 1920x1080 window - exact fit
    let (offset_x, offset_y, scaled_w, scaled_h) =
        calculate_scaled_dimensions(1920, 1080, 1920, 1080, ScaleMode::Fill).unwrap();
    assert_eq!(offset_x, 0);
    assert_eq!(offset_y, 0);
    assert_eq!(scaled_w, 1920);
    assert_eq!(scaled_h, 1080);
}

#[test]
fn test_fill_16_9_buffer_to_4_3_window() {
    // 1920x1080 (16:9) buffer to 800x600 (4:3) window
    // Should fill width, crop height
    let (offset_x, offset_y, scaled_w, scaled_h) =
        calculate_scaled_dimensions(1920, 1080, 800, 600, ScaleMode::Fill).unwrap();
    // Scale is max of the two: max(800/1920, 600/1080) = max(0.4167, 0.5556) = 0.5556
    // 1920 * 0.5556 = 1066.67, truncated to 1066
    assert_eq!(scaled_w, 1066);
    assert_eq!(scaled_h, 600);
    // offset_x uses saturating_sub: 800.saturating_sub(1066) = 0, /2 = 0
    assert_eq!(offset_x, 0);
    assert_eq!(offset_y, 0);
}

#[test]
fn test_fill_4_3_buffer_to_16_9_window() {
    // 800x600 (4:3) buffer to 1920x1080 (16:9) window
    // Should fill height, crop width
    let (offset_x, offset_y, scaled_w, scaled_h) =
        calculate_scaled_dimensions(800, 600, 1920, 1080, ScaleMode::Fill).unwrap();
    // Scale is max: max(1920/800, 1080/600) = max(2.4, 1.8) = 2.4
    assert_eq!(scaled_w, 1920);
    assert_eq!(scaled_h, 1440); // 600 * 2.4
    assert_eq!(offset_x, 0);
    // offset_y uses saturating_sub: 1080.saturating_sub(1440) = 0
    assert_eq!(offset_y, 0);
}

// ---- Integer ----

#[test]
fn test_integer_exact_double() {
    // 640x480 buffer to 1280x960 window - exactly 2x
    let (offset_x, offset_y, scaled_w, scaled_h) =
        calculate_scaled_dimensions(640, 480, 1280, 960, ScaleMode::Integer).unwrap();
    assert_eq!(scaled_w, 1280);
    assert_eq!(scaled_h, 960);
    assert_eq!(offset_x, 0);
    assert_eq!(offset_y, 0);
}

#[test]
fn test_integer_partial_scale() {
    // 320x240 buffer to 800x600 window
    // Scale x = 2.5, Scale y = 2.5, floor = 2
    let (offset_x, offset_y, scaled_w, scaled_h) =
        calculate_scaled_dimensions(320, 240, 800, 600, ScaleMode::Integer).unwrap();
    assert_eq!(scaled_w, 640); // 320 * 2
    assert_eq!(scaled_h, 480); // 240 * 2
    assert_eq!(offset_x, 80); // (800 - 640) / 2
    assert_eq!(offset_y, 60); // (600 - 480) / 2
}

#[test]
fn test_integer_minimum_scale_one() {
    // Very large buffer to small window - scale should be at least 1
    let (offset_x, offset_y, scaled_w, scaled_h) =
        calculate_scaled_dimensions(3840, 2160, 640, 480, ScaleMode::Integer).unwrap();
    // Scale would be < 1, so it clamps to 1
    assert_eq!(scaled_w, 3840);
    assert_eq!(scaled_h, 2160);
    assert_eq!(offset_x, 0); // saturating_sub
    assert_eq!(offset_y, 0); // saturating_sub
}

#[test]
fn test_integer_3x_scale() {
    // 256x224 buffer (SNES resolution) to 1024x768 window
    // Scale x = 4.0, Scale y = 3.43, floor = 3
    let (offset_x, offset_y, scaled_w, scaled_h) =
        calculate_scaled_dimensions(256, 224, 1024, 768, ScaleMode::Integer).unwrap();
    assert_eq!(scaled_w, 768); // 256 * 3
    assert_eq!(scaled_h, 672); // 224 * 3
    assert_eq!(offset_x, 128); // (1024 - 768) / 2
    assert_eq!(offset_y, 48); // (768 - 672) / 2
}

// ---- Unscaled ----

#[test]
fn test_none_exact_size() {
    // Same size - no offset
    let (offset_x, offset_y, scaled_w, scaled_h) =
        calculate_scaled_dimensions(800, 600, 800, 600, ScaleMode::Unscaled).unwrap();
    assert_eq!(scaled_w, 800);
    assert_eq!(scaled_h, 600);
    assert_eq!(offset_x, 0);
    assert_eq!(offset_y, 0);
}

#[test]
fn test_none_centered() {
    // Smaller buffer centered in larger window
    let (offset_x, offset_y, scaled_w, scaled_h) =
        calculate_scaled_dimensions(640, 480, 800, 600, ScaleMode::Unscaled).unwrap();
    assert_eq!(scaled_w, 640);
    assert_eq!(scaled_h, 480);
    assert_eq!(offset_x, 80); // (800 - 640) / 2
    assert_eq!(offset_y, 60); // (600 - 480) / 2
}

#[test]
fn test_none_buffer_larger_than_window() {
    // Larger buffer - should use saturating_sub
    let (offset_x, offset_y, scaled_w, scaled_h) =
        calculate_scaled_dimensions(1920, 1080, 800, 600, ScaleMode::Unscaled).unwrap();
    assert_eq!(scaled_w, 1920);
    assert_eq!(scaled_h, 1080);
    assert_eq!(offset_x, 0); // saturating_sub
    assert_eq!(offset_y, 0); // saturating_sub
}

// ---- Stretch ----

#[test]
fn test_stretch_exact() {
    let (offset_x, offset_y, scaled_w, scaled_h) =
        calculate_scaled_dimensions(800, 600, 800, 600, ScaleMode::Stretch).unwrap();
    assert_eq!(scaled_w, 800);
    assert_eq!(scaled_h, 600);
    assert_eq!(offset_x, 0);
    assert_eq!(offset_y, 0);
}

#[test]
fn test_stretch_different_aspect() {
    // 4:3 buffer stretched to 16:9 window
    let (offset_x, offset_y, scaled_w, scaled_h) =
        calculate_scaled_dimensions(800, 600, 1920, 1080, ScaleMode::Stretch).unwrap();
    assert_eq!(scaled_w, 1920);
    assert_eq!(scaled_h, 1080);
    assert_eq!(offset_x, 0);
    assert_eq!(offset_y, 0);
}

// ---- Edge Cases ----

#[test]
fn test_zero_dimensions() {
    // Zero buffer dimensions: Fit would have to divide by zero
    let result = calculate_scaled_dimensions(0, 0, 800, 600, ScaleMode::Fit);
    assert_eq!(result, Err(RenderError::InvalidInput));
}

#[test]
fn test_zero_window_dimensions() {
    // Zero window dimensions
    let (offset_x, offset_y, scaled_w, scaled_h) =
        calculate_scaled_dimensions(800, 600, 0, 0, ScaleMode::Fit).unwrap();
    assert_eq!(scaled_w, 0);
    assert_eq!(scaled_h, 0);
    assert_eq!(offset_x, 0);
    assert_eq!(offset_y, 0);
}

#[test]
fn test_very_small_dimensions() {
    // 1x1 pixel
    let (offset_x, offset_y, scaled_w, scaled_h) =
        calculate_scaled_dimensions(1, 1, 100, 100, ScaleMode::Fit).unwrap();
    assert_eq!(scaled_w, 100);
    assert_eq!(scaled_h, 100);
    assert_eq!(offset_x, 0);
    assert_eq!(offset_y, 0);
}

#[test]
fn test_very_large_dimensions() {
    // 8K buffer to 4K window
    let (offset_x, offset_y, scaled_w, scaled_h) =
        calculate_scaled_dimensions(7680, 4320, 3840, 2160, ScaleMode::Fit).unwrap();
    assert_eq!(scaled_w, 3840);
    assert_eq!(scaled_h, 2160);
    assert_eq!(offset_x, 0);
    assert_eq!(offset_y, 0);
}

#[test]
fn test_extreme_aspect_ratio() {
    // Very wide buffer
    let (offset_x, offset_y, scaled_w, scaled_h) =
        calculate_scaled_dimensions(10000, 100, 800, 600, ScaleMode::Fit).unwrap();
    // Scale limited by width: 800/10000 = 0.08
    assert_eq!(scaled_w, 800);
    assert_eq!(scaled_h, 8); // 100 * 0.08
    assert_eq!(offset_x, 0);
    assert_eq!(offset_y, 296); // (600 - 8) / 2
}

#[test]
fn test_tall_aspect_ratio() {
    // Very tall buffer
    let (offset_x, offset_y, scaled_w, scaled_h) =
        calculate_scaled_dimensions(100, 10000, 800, 600, ScaleMode::Fit).unwrap();
    // Scale limited by height: 600/10000 = 0.06
    assert_eq!(scaled_w, 6); // 100 * 0.06
    assert_eq!(scaled_h, 600);
    assert_eq!(offset_x, 397); // (800 - 6) / 2
    assert_eq!(offset_y, 0);
}

// ---- Placements and refusals ----

#[test]
fn placement_of_wide_source_in_narrow_target() {
    let p = compute_placement(1920, 1080, 800, 600, ScaleMode::Fit).unwrap();
    assert_eq!(p, Placement { offset_x: 0, offset_y: 75, width: 800, height: 450 });
}

#[test]
fn placement_of_fill_exceeds_the_target() {
    let p = compute_placement(800, 600, 1920, 1080, ScaleMode::Fill).unwrap();
    assert_eq!(p, Placement { offset_x: 0, offset_y: 0, width: 1920, height: 1440 });
}

#[test]
fn placement_of_integer_uses_factor_two() {
    let p = compute_placement(320, 240, 800, 600, ScaleMode::Integer).unwrap();
    assert_eq!(p, Placement { offset_x: 80, offset_y: 60, width: 640, height: 480 });
}

#[test]
fn ratio_modes_refuse_a_source_without_area() {
    for mode in [ScaleMode::Fit, ScaleMode::Fill, ScaleMode::Integer] {
        assert_eq!(compute_placement(0, 600, 800, 600, mode), Err(RenderError::InvalidInput));
        assert_eq!(compute_placement(800, 0, 800, 600, mode), Err(RenderError::InvalidInput));
        assert_eq!(compute_placement(0, 0, 800, 600, mode), Err(RenderError::InvalidInput));
        assert_eq!(compute_placement(0, 0, 0, 0, mode), Err(RenderError::InvalidInput));
    }
}

#[test]
fn other_modes_accept_a_source_without_area() {
    assert_eq!(
        compute_placement(0, 0, 800, 600, ScaleMode::Stretch),
        Ok(Placement { offset_x: 0, offset_y: 0, width: 800, height: 600 })
    );
    assert_eq!(
        compute_placement(0, 0, 800, 600, ScaleMode::Unscaled),
        Ok(Placement { offset_x: 400, offset_y: 300, width: 0, height: 0 })
    );
    assert_eq!(
        compute_placement(0, 10, 800, 600, ScaleMode::Unscaled),
        Ok(Placement { offset_x: 400, offset_y: 295, width: 0, height: 10 })
    );
}

#[test]
fn target_without_area_is_no_error() {
    assert_eq!(
        compute_placement(800, 600, 0, 0, ScaleMode::Fit),
        Ok(Placement { offset_x: 0, offset_y: 0, width: 0, height: 0 })
    );
    assert_eq!(
        compute_placement(800, 600, 0, 0, ScaleMode::Stretch),
        Ok(Placement { offset_x: 0, offset_y: 0, width: 0, height: 0 })
    );
    // a target that is only flat still centres what is left
    assert_eq!(
        compute_placement(800, 600, 0, 600, ScaleMode::Fit),
        Ok(Placement { offset_x: 0, offset_y: 300, width: 0, height: 0 })
    );
    // Fill, Integer and Unscaled keep their size and are pinned to the origin
    assert_eq!(
        compute_placement(800, 600, 0, 0, ScaleMode::Integer),
        Ok(Placement { offset_x: 0, offset_y: 0, width: 800, height: 600 })
    );
    assert_eq!(
        compute_placement(800, 600, 0, 0, ScaleMode::Unscaled),
        Ok(Placement { offset_x: 0, offset_y: 0, width: 800, height: 600 })
    );
    assert_eq!(
        compute_placement(800, 600, 0, 0, ScaleMode::Fill),
        Ok(Placement { offset_x: 0, offset_y: 0, width: 0, height: 0 })
    );
}

#[test]
fn tuple_form_agrees_with_the_placement() {
    let cases = [
        (1920, 1080, 800, 600),
        (800, 600, 1920, 1080),
        (320, 240, 800, 600),
        (7, 3, 5, 2),
        (1, 1, 1, 1),
        (3, 5, 1000, 1),
    ];
    let modes = [
        ScaleMode::Stretch,
        ScaleMode::Fit,
        ScaleMode::Fill,
        ScaleMode::Integer,
        ScaleMode::Unscaled,
    ];
    for (sw, sh, tw, th) in cases {
        for mode in modes {
            let (x, y, w, h) = calculate_scaled_dimensions(sw, sh, tw, th, mode).unwrap();
            let p = compute_placement(sw, sh, tw, th, mode).unwrap();
            assert_eq!(p, Placement { offset_x: x, offset_y: y, width: w, height: h });
        }
    }
}

// ---- What holds of every input, on chosen values ----

#[test]
fn fit_never_exceeds_the_target_and_touches_one_side() {
    for sw in 1..12u32 {
        for sh in 1..12u32 {
            for tw in 1..12u32 {
                for th in 1..12u32 {
                    let (_, _, w, h) = calculate_scaled_dimensions(sw, sh, tw, th, ScaleMode::Fit).unwrap();
                    assert!(w <= tw && h <= th);
                    assert!(w == tw || h == th);
                }
            }
        }
    }
    // ratios that binary fractions cannot hold
    assert_eq!(calculate_scaled_dimensions(49, 49, 1, 1, ScaleMode::Fit), Ok((0, 0, 1, 1)));
    assert_eq!(calculate_scaled_dimensions(3, 7, 1, 5, ScaleMode::Fit), Ok((0, 1, 1, 2)));
    let max = u32::MAX;
    assert_eq!(calculate_scaled_dimensions(max, max, max, max, ScaleMode::Fit), Ok((0, 0, max, max)));
    assert_eq!(calculate_scaled_dimensions(max, 1, 1, max, ScaleMode::Fit), Ok((0, max / 2, 1, 0)));
}

#[test]
fn stretch_ignores_the_source() {
    for (sw, sh) in [(0, 0), (1, 1), (800, 600), (u32::MAX, 1), (3, 100_000)] {
        assert_eq!(
            calculate_scaled_dimensions(sw, sh, 640, 480, ScaleMode::Stretch),
            Ok((0, 0, 640, 480))
        );
        assert_eq!(
            calculate_scaled_dimensions(sw, sh, u32::MAX, 0, ScaleMode::Stretch),
            Ok((0, 0, u32::MAX, 0))
        );
    }
}

#[test]
fn integer_scales_by_a_whole_factor() {
    for sw in 1..10u32 {
        for sh in 1..10u32 {
            for tw in 0..40u32 {
                for th in 0..40u32 {
                    let (_, _, w, h) =
                        calculate_scaled_dimensions(sw, sh, tw, th, ScaleMode::Integer).unwrap();
                    assert_eq!(w % sw, 0);
                    let factor = w / sw;
                    assert!(factor >= 1);
                    assert_eq!(w, sw * factor);
                    assert_eq!(h, sh * factor);
                    assert_eq!(factor, (tw / sw).min(th / sh).max(1));
                }
            }
        }
    }
}

#[test]
fn fill_covers_the_target() {
    for sw in 1..10u32 {
        for sh in 1..10u32 {
            for tw in 0..12u32 {
                for th in 0..12u32 {
                    let (x, y, w, h) = calculate_scaled_dimensions(sw, sh, tw, th, ScaleMode::Fill).unwrap();
                    assert!(w >= tw && h >= th);
                    assert!(w == tw || h == th);
                    assert_eq!((x, y), (0, 0));
                }
            }
        }
    }
}

#[test]
fn fill_takes_the_floor() {
    // scale 5/3: 7 * 5/3 = 11.67
    assert_eq!(calculate_scaled_dimensions(7, 3, 10, 5, ScaleMode::Fill), Ok((0, 0, 11, 5)));
    // scale 15/7 is the larger ratio: 3 * 5/7 would be too small
    assert_eq!(calculate_scaled_dimensions(7, 3, 5, 2, ScaleMode::Fill), Ok((0, 0, 5, 2)));
}

#[test]
fn fill_saturates_at_the_largest_length() {
    let max = u32::MAX;
    assert_eq!(calculate_scaled_dimensions(1, 2, max, 1, ScaleMode::Fill), Ok((0, 0, max, max)));
    assert_eq!(calculate_scaled_dimensions(2, 1, 1, max, ScaleMode::Fill), Ok((0, 0, max, max)));
    assert_eq!(calculate_scaled_dimensions(1, 1, max, 1, ScaleMode::Fill), Ok((0, 0, max, max)));
}

#[test]
fn fit_takes_the_floor() {
    // scale 2/3: 5 * 2/3 = 3.33
    assert_eq!(calculate_scaled_dimensions(3, 5, 2, 100, ScaleMode::Fit), Ok((0, 48, 2, 3)));
    // scale 1/3: 2 * 1/3 = 0.67
    assert_eq!(calculate_scaled_dimensions(3, 2, 1, 9, ScaleMode::Fit), Ok((0, 4, 1, 0)));
}

#[test]
fn offsets_halve_the_free_space_rounding_down() {
    assert_eq!(calculate_scaled_dimensions(4, 4, 9, 7, ScaleMode::Unscaled), Ok((2, 1, 4, 4)));
    assert_eq!(calculate_scaled_dimensions(4, 4, 5, 4, ScaleMode::Unscaled), Ok((0, 0, 4, 4)));
    assert_eq!(calculate_scaled_dimensions(4, 9, 3, 20, ScaleMode::Unscaled), Ok((0, 5, 4, 9)));
}

#[test]
fn ratio_modes_never_divide_by_zero() {
    for mode in [ScaleMode::Fit, ScaleMode::Fill, ScaleMode::Integer] {
        for (sw, sh) in [(0, 5), (5, 0), (0, 0)] {
            for (tw, th) in [(800, 600), (0, 0), (0, 7)] {
                assert_eq!(
                    calculate_scaled_dimensions(sw, sh, tw, th, mode),
                    Err(RenderError::InvalidInput)
                );
            }
        }
    }
    assert_eq!(
        calculate_scaled_dimensions(0, 0, 800, 600, ScaleMode::Stretch),
        Ok((0, 0, 800, 600))
    );
    assert_eq!(
        calculate_scaled_dimensions(0, 0, 800, 600, ScaleMode::Unscaled),
        Ok((400, 300, 0, 0))
    );
}
