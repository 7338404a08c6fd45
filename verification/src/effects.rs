//! Deterministic color-sequence generator and brightness scaling.
//!
//! A frame of pixel colors is a pure function of its length and the phase
//! offset: element `i` is entry `(i + offset) mod 6` of a fixed six-color
//! cycle (red, green, blue, yellow, cyan, magenta). Scaling by the shared
//! brightness setting is done by `smart_leds` and reproduced here only as
//! a contract.

use vstd::arithmetic::div_mod::{
    lemma_fundamental_div_mod, lemma_mod_multiples_vanish, lemma_small_mod,
};
use vstd::prelude::*;

verus! {

/// One pixel color as an RGB triplet.
#[derive(Clone, Copy, PartialEq, Eq, Structural, Debug)]
pub struct Rgb {
    pub r: u8,
    pub g: u8,
    pub b: u8,
}

/// Entry `k` of the fixed six-color cycle, for `0 <= k < 6`: red, green,
/// blue, yellow, cyan, magenta.
pub open spec fn palette(k: int) -> Rgb {
    if k == 0 {
        Rgb { r: 255, g: 0, b: 0 }
    } else if k == 1 {
        Rgb { r: 0, g: 255, b: 0 }
    } else if k == 2 {
        Rgb { r: 0, g: 0, b: 255 }
    } else if k == 3 {
        Rgb { r: 255, g: 255, b: 0 }
    } else if k == 4 {
        Rgb { r: 0, g: 255, b: 255 }
    } else {
        Rgb { r: 255, g: 0, b: 255 }
    }
}

/// Entry `k` of the palette cycle.
fn palette_color(k: usize) -> (c: Rgb)
    requires
        k < 6,
    ensures
        c == palette(k as int),
{
    if k == 0 {
        Rgb { r: 255, g: 0, b: 0 }
    } else if k == 1 {
        Rgb { r: 0, g: 255, b: 0 }
    } else if k == 2 {
        Rgb { r: 0, g: 0, b: 255 }
    } else if k == 3 {
        Rgb { r: 255, g: 255, b: 0 }
    } else if k == 4 {
        Rgb { r: 0, g: 255, b: 255 }
    } else {
        Rgb { r: 255, g: 0, b: 255 }
    }
}

/// A frame of `n` colors drawn from the repeating palette, rotated by
/// `offset`: element `i` is palette entry `(i + offset) mod 6`. Any length
/// and any offset are valid; the generator never fails.
pub fn repeating_rgbycm(n: usize, offset: u8) -> (leds: Vec<Rgb>)
    ensures
        leds@.len() == n,
        forall|i: int| 0 <= i < n ==> leds@[i] == palette((i + offset) % 6),
{
    let mut leds: Vec<Rgb> = Vec::new();
    let mut idx: usize = (offset as usize) % 6;
    let mut i: usize = 0;
    while i < n
        invariant
            i <= n,
            leds@.len() == i,
            idx == (i + offset) % 6,
            forall|j: int| 0 <= j < i ==> leds@[j] == palette((j + offset) % 6),
        decreases n - i,
    {
        leds.push(palette_color(idx));
        proof {
            let x = i + offset;
            lemma_fundamental_div_mod(x, 6);
            let q = x / 6;
            lemma_mod_multiples_vanish(q, idx + 1, 6);
            if idx < 5 {
                lemma_small_mod((idx + 1) as nat, 6);
            } else {
                lemma_mod_multiples_vanish(q + 1, 0, 6);
            }
        }
        idx = if idx == 5 {
            0
        } else {
            idx + 1
        };
        i = i + 1;
    }
    leds
}

/// One channel after brightness scaling: `c * (b + 1) / 256`. Scaling by
/// 255 keeps the channel; scaling by 0 clears it.
pub open spec fn scale_channel(c: u8, b: u8) -> u8 {
    ((c * (b + 1)) / 256) as u8
}

/// One color after brightness scaling, channel by channel.
pub open spec fn scale_rgb(c: Rgb, b: u8) -> Rgb {
    Rgb { r: scale_channel(c.r, b), g: scale_channel(c.g, b), b: scale_channel(c.b, b) }
}

/// Relies on `smart_leds::brightness`: the `Brightness` iterator maps each
/// color's channel `c` to `c * (brightness + 1) / 256` and keeps length
/// and order.
#[verifier::external_body]
fn scale_colors(leds: &Vec<Rgb>, brightness: u8) -> (scaled: Vec<Rgb>)
    ensures
        scaled@.len() == leds@.len(),
        forall|i: int| 0 <= i < leds@.len() ==> scaled@[i] == scale_rgb(leds@[i], brightness),
{
    smart_leds::brightness(
        leds.iter().map(|c| smart_leds::RGB8 { r: c.r, g: c.g, b: c.b }),
        brightness,
    ).map(|c| Rgb { r: c.r, g: c.g, b: c.b }).collect()
}

/// The frame handed to the pixel bus each tick: the rotated palette
/// sequence, scaled by the shared brightness setting.
pub fn led_frame(n: usize, offset: u8, brightness: u8) -> (frame: Vec<Rgb>)
    ensures
        frame@.len() == n,
        forall|i: int| 0 <= i < n ==> frame@[i] == scale_rgb(
            palette((i + offset) % 6),
            brightness,
        ),
{
    let leds = repeating_rgbycm(n, offset);
    scale_colors(&leds, brightness)
}

} // verus!
