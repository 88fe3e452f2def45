//! Texts strewn over the surface at random, each in a font drawn at random.

use vstd::prelude::*;
use rand::rngs::StdRng;
use crate::fonts::{FontSize, FONT_COUNT};
use crate::random::next_u32;

verus! {

/// The font that a draw of 32 bits picks: the one at the position of the
/// draw modulo [`FONT_COUNT`].
pub fn font_for(draw: u32) -> (font: FontSize)
    ensures
        font.slot() == draw % (FONT_COUNT as u32),
        FontSize::at((draw % (FONT_COUNT as u32)) as int) == Some(font),
{
    match FontSize::from_index((draw % 10) as usize) {
        Some(font) => font,
        None => FontSize::Size4x6,
    }
}

/// The place on a surface that two draws of 32 bits pick: each draw modulo
/// the side it runs along. A surface without width or height has no place.
pub fn place(draw_x: u32, draw_y: u32, width: u32, height: u32) -> (spot: Option<(u32, u32)>)
    ensures
        match spot {
            Some((x, y)) => width > 0 && height > 0 && x == draw_x % width && y == draw_y
                % height,
            None => width == 0 || height == 0,
        },
{
    if width == 0 || height == 0 {
        None
    } else {
        Some((draw_x % width, draw_y % height))
    }
}

/// Draws a font: [`font_for`] one draw of 32 bits. Any font may come.
pub fn random_font(rng: &mut StdRng) -> FontSize {
    font_for(next_u32(rng))
}

/// Draws a place on a surface of the given size: first how far from the
/// left edge, then how far from the top. Nothing is drawn for a surface
/// without width or height.
pub fn random_place(rng: &mut StdRng, width: u32, height: u32) -> (spot: Option<(u32, u32)>)
    ensures
        match spot {
            Some((x, y)) => x < width && y < height,
            None => width == 0 || height == 0,
        },
{
    if width == 0 || height == 0 {
        return None;
    }
    let draw_x: u32 = next_u32(rng);
    let draw_y: u32 = next_u32(rng);
    place(draw_x, draw_y, width, height)
}

} // verus!
