use led_panel::effects::{led_frame, repeating_rgbycm, Rgb};

const RED: Rgb = Rgb { r: 255, g: 0, b: 0 };
const GREEN: Rgb = Rgb { r: 0, g: 255, b: 0 };
const BLUE: Rgb = Rgb { r: 0, g: 0, b: 255 };
const YELLOW: Rgb = Rgb { r: 255, g: 255, b: 0 };
const CYAN: Rgb = Rgb { r: 0, g: 255, b: 255 };
const MAGENTA: Rgb = Rgb { r: 255, g: 0, b: 255 };

/// Five colors with no rotation: the first five palette entries in order.
#[test]
fn five_leds_offset_zero() {
    assert_eq!(repeating_rgbycm(5, 0), vec![RED, GREEN, BLUE, YELLOW, CYAN]);
}

/// Five colors rotated by two positions.
#[test]
fn five_leds_offset_two() {
    assert_eq!(repeating_rgbycm(5, 2), vec![BLUE, YELLOW, CYAN, MAGENTA, RED]);
}

/// Past six elements the palette repeats.
#[test]
fn palette_repeats_past_six() {
    let leds = repeating_rgbycm(8, 0);
    assert_eq!(leds[5], MAGENTA);
    assert_eq!(leds[6], RED);
    assert_eq!(leds[7], GREEN);
}

/// Any offset is valid; it counts modulo the palette length.
#[test]
fn large_offset_wraps() {
    // 255 mod 6 == 3, so the sequence starts at yellow.
    assert_eq!(repeating_rgbycm(2, 255), vec![YELLOW, CYAN]);
    // A full palette turn changes nothing.
    assert_eq!(repeating_rgbycm(4, 6), repeating_rgbycm(4, 0));
}

/// A zero-length frame is valid.
#[test]
fn empty_frame() {
    assert_eq!(repeating_rgbycm(0, 3), vec![]);
    assert_eq!(led_frame(0, 3, 128), vec![]);
}

/// Full brightness keeps every channel: c * 256 / 256 == c.
#[test]
fn full_brightness_keeps_colors() {
    assert_eq!(led_frame(5, 2, 255), repeating_rgbycm(5, 2));
}

/// Zero brightness clears every channel: c * 1 / 256 == 0.
#[test]
fn zero_brightness_blacks_out() {
    let frame = led_frame(3, 0, 0);
    assert_eq!(frame, vec![Rgb { r: 0, g: 0, b: 0 }; 3]);
}

/// Intermediate brightness scales each channel to c * (b + 1) / 256.
#[test]
fn half_brightness_scales_channels() {
    // 255 * 128 / 256 == 127, so lit channels drop to 127.
    let frame = led_frame(2, 0, 127);
    assert_eq!(frame, vec![Rgb { r: 127, g: 0, b: 0 }, Rgb { r: 0, g: 127, b: 0 }]);
    // The default brightness 32: 255 * 33 / 256 == 32.
    let dim = led_frame(1, 2, 32);
    assert_eq!(dim, vec![Rgb { r: 0, g: 0, b: 32 }]);
}
