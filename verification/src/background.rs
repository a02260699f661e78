//! The scrolling layers behind the game.
use vstd::prelude::*;
use crate::math::{clamp_i64, saturate};
use crate::movement::GAME_SPEED;

verus! {

/// Width of the picture that a layer repeats.
pub const IMG_SIZE_X: i64 = 1_920_000;

/// Height of the picture that a layer repeats.
pub const IMG_SIZE_Y: i64 = 1_080_000;

/// Width of the window.
pub const WINDOW_WIDTH: i64 = 1_280_000;

/// A layer of the background: a picture repeated over a width that grows as
/// the game scrolls.
#[derive(Clone, Copy, Debug, PartialEq, Eq, Structural)]
pub struct Layer {
    /// Width over which the picture is repeated.
    pub current_size_x: i64,
    /// Speed of the layer, in thousandths of twice the speed of the ground.
    pub speed_scale: u32,
}

impl Layer {
    /// The layer `dt` milliseconds later: wider by what it scrolled, and cut
    /// back by whole pictures once it is twice as wide as a picture and the
    /// window together.
    pub open spec fn scrolled(self, dt: u32) -> Layer {
        let grown = clamp_i64(
            self.current_size_x + (self.speed_scale * 2 * GAME_SPEED * dt) / 1000,
        );
        Layer {
            current_size_x: if grown >= 2 * (IMG_SIZE_X + WINDOW_WIDTH) {
                (grown % (IMG_SIZE_X as int) + IMG_SIZE_X) as i64
            } else {
                grown as i64
            },
            speed_scale: self.speed_scale,
        }
    }
}

/// Scrolls a layer for `dt` milliseconds.
pub fn scroll_background(layer: &mut Layer, dt: u32)
    ensures
        *final(layer) == old(layer).scrolled(dt),
{
    let pace: i128 = (layer.speed_scale as i128) * ((2 * GAME_SPEED) as i128);
    assert(0 <= pace * dt <= 0x1_0000_0000_0000_0000_0000) by (nonlinear_arith)
        requires
            0 <= pace <= 0x1000_0000_0000,
            0 <= dt <= 0x1_0000_0000,
    ;
    assert(pace * dt == layer.speed_scale * 2 * GAME_SPEED * dt) by (nonlinear_arith)
        requires
            pace == layer.speed_scale * (2 * GAME_SPEED),
    ;
    let step: i128 = pace * (dt as i128) / 1000;
    let grown: i64 = saturate(layer.current_size_x as i128 + step);
    if grown >= 2 * (IMG_SIZE_X + WINDOW_WIDTH) {
        layer.current_size_x = grown % IMG_SIZE_X + IMG_SIZE_X;
    } else {
        layer.current_size_x = grown;
    }
}

} // verus!
