//! The draw calls that put text on screen.
//!
//! A glyph is drawn as a quad of two triangles, six vertices in all. The
//! vertex stage reads no vertex buffer: it finds the glyph and the corner
//! of the quad from the number of the vertex alone.

use vstd::prelude::*;
use crate::bytes::{append_word, append_zeros, word_bytes, zeros};
use crate::fonts::FontSize;
use crate::payload::PayloadEntry;
use crate::registry::{binding_for, FontBinding, Fonts, FontsView};

verus! {

/// Number of vertices that draw one glyph.
pub const VERTICES_PER_GLYPH: u32 = 6;

/// Size in bytes of the block of per-draw state.
pub const DRAW_STATE_SIZE: usize = 32;

/// The glyph that a vertex belongs to.
pub open spec fn glyph_of(vertex: int) -> int {
    vertex / 6
}

/// The corner of its glyph's quad that a vertex is.
pub open spec fn corner_of(vertex: int) -> int {
    vertex % 6
}

/// The glyph that a vertex belongs to.
pub fn glyph_index(vertex: u32) -> (glyph: u32)
    ensures
        glyph == glyph_of(vertex as int),
{
    vertex / VERTICES_PER_GLYPH
}

/// The corner of its glyph's quad that a vertex is.
pub fn corner_index(vertex: u32) -> (corner: u32)
    ensures
        corner == corner_of(vertex as int),
        corner < VERTICES_PER_GLYPH,
{
    vertex % VERTICES_PER_GLYPH
}

/// The number of vertices that draw `glyphs` glyphs, or `None` where it is
/// more than a draw call counts.
pub fn vertex_count(glyphs: u32) -> (vertices: Option<u32>)
    ensures
        match vertices {
            Some(vertices) => vertices == 6 * glyphs,
            None => 6 * glyphs > u32::MAX,
        },
{
    glyphs.checked_mul(VERTICES_PER_GLYPH)
}

/// A vertex is the corner `corner_of` of the glyph `glyph_of` and of no
/// other: glyph and corner give the vertex back, and the vertices of a draw
/// of `glyphs` glyphs are those of its glyphs.
pub proof fn lemma_vertex_mapping(vertex: int, glyphs: int)
    requires
        0 <= vertex,
    ensures
        0 <= corner_of(vertex) < 6,
        0 <= glyph_of(vertex),
        vertex == 6 * glyph_of(vertex) + corner_of(vertex),
        vertex < 6 * glyphs <==> glyph_of(vertex) < glyphs,
{
}

/// Glyph `glyph` and corner `corner` belong to one vertex only.
pub proof fn lemma_vertex_unique(glyph: int, corner: int)
    requires
        0 <= glyph,
        0 <= corner < 6,
    ensures
        glyph_of(6 * glyph + corner) == glyph,
        corner_of(6 * glyph + corner) == corner,
{
}

/// How one text is drawn. The colour and the place are 32-bit floats, held
/// as their bits: they are handed on and never computed with.
#[derive(Clone, Copy, PartialEq, Eq, Debug, Structural)]
pub struct TextStyle {
    pub font: FontSize,
    pub red: u32,
    pub green: u32,
    pub blue: u32,
    pub alpha: u32,
    /// Distance of the text from the left edge, in pixels.
    pub x: u32,
    /// Distance of the text from the top edge, in pixels.
    pub y: u32,
}

/// The block of per-draw state: the colour in bytes 0 to 15, the place in
/// bytes 16 to 23, the word of the payload at which the text begins in
/// bytes 24 to 27, and four zero bytes that bring the block to its size.
pub open spec fn draw_state_bytes(style: TextStyle, offset: u32) -> Seq<u8> {
    word_bytes(style.red) + word_bytes(style.green) + word_bytes(style.blue) + word_bytes(
        style.alpha,
    ) + word_bytes(style.x) + word_bytes(style.y) + word_bytes(offset) + zeros(4)
}

/// Writes the block of per-draw state, field by field.
pub fn draw_state(style: &TextStyle, offset: u32) -> (block: Vec<u8>)
    ensures
        block@ == draw_state_bytes(*style, offset),
        block@.len() == DRAW_STATE_SIZE,
{
    let mut block: Vec<u8> = Vec::new();
    append_word(&mut block, style.red);
    append_word(&mut block, style.green);
    append_word(&mut block, style.blue);
    append_word(&mut block, style.alpha);
    append_word(&mut block, style.x);
    append_word(&mut block, style.y);
    append_word(&mut block, offset);
    append_zeros(&mut block, 4);
    block
}

/// The bytes of a uniform that holds two 32-bit floats, given as their
/// bits: the first in bytes 0 to 3, the second in bytes 4 to 7. The size of
/// the viewport and the size of a glyph cell are such uniforms.
pub open spec fn pair_bytes(first: u32, second: u32) -> Seq<u8> {
    word_bytes(first) + word_bytes(second)
}

/// Writes a uniform that holds two 32-bit floats.
pub fn uniform_pair(first: u32, second: u32) -> (block: Vec<u8>)
    ensures
        block@ == pair_bytes(first, second),
        block@.len() == 8,
{
    let mut block: Vec<u8> = Vec::new();
    append_word(&mut block, first);
    append_word(&mut block, second);
    block
}

/// One draw call: the font to select, the per-draw state to upload, and the
/// number of vertices to draw, from vertex 0 on, in one instance.
#[derive(Clone, PartialEq, Eq, Debug)]
pub struct DrawCall {
    pub binding: FontBinding,
    pub constants: Vec<u8>,
    pub vertices: u32,
}

/// What a draw call holds.
pub struct DrawView {
    pub binding: FontBinding,
    pub constants: Seq<u8>,
    pub vertices: nat,
}

impl View for DrawCall {
    type V = DrawView;

    open spec fn view(&self) -> DrawView {
        DrawView {
            binding: self.binding,
            constants: self.constants@,
            vertices: self.vertices as nat,
        }
    }
}

/// Why a text cannot be drawn.
#[derive(Clone, Copy, PartialEq, Eq, Debug, Structural)]
pub enum DrawError {
    /// The font of the text was not loaded.
    NotLoaded,
    /// The text has more glyphs than one draw call has vertices for.
    TooManyGlyphs,
}

/// The draw call of a text with the given style that lies at `entry` in the
/// payload, or the reason why there is none.
pub open spec fn draw_of(fonts: FontsView, style: TextStyle, entry: PayloadEntry) -> Result<
    DrawView,
    DrawError,
> {
    if style.font.slot() >= fonts.fonts.len() {
        Err(DrawError::NotLoaded)
    } else if 6 * entry.length > u32::MAX {
        Err(DrawError::TooManyGlyphs)
    } else {
        Ok(
            DrawView {
                binding: binding_for(fonts.policy, style.font.slot()),
                constants: draw_state_bytes(style, entry.offset),
                vertices: (6 * entry.length) as nat,
            },
        )
    }
}

/// The draw call of one text: it selects the text's font, carries the
/// text's colour, its place and the word at which it begins, and draws six
/// vertices for each of its glyphs.
pub fn draw_text(fonts: &Fonts, style: &TextStyle, entry: PayloadEntry) -> (result: Result<
    DrawCall,
    DrawError,
>)
    ensures
        match result {
            Ok(call) => draw_of(fonts@, *style, entry) == Ok::<DrawView, DrawError>(call@),
            Err(cause) => draw_of(fonts@, *style, entry) == Err::<DrawView, DrawError>(cause),
        },
{
    let binding = match fonts.select(style.font) {
        Ok(binding) => binding,
        Err(_) => {
            return Err(DrawError::NotLoaded);
        },
    };
    let vertices = match vertex_count(entry.length) {
        Some(vertices) => vertices,
        None => {
            return Err(DrawError::TooManyGlyphs);
        },
    };
    Ok(DrawCall { binding, constants: draw_state(style, entry.offset), vertices })
}

/// Why the texts cannot be drawn.
#[derive(Clone, Copy, PartialEq, Eq, Debug, Structural)]
pub enum DispatchError {
    /// There is not one payload entry for each style.
    Mismatch,
    /// The text at `index` cannot be drawn; those before it can.
    Text { index: usize, cause: DrawError },
}

/// The draw calls of a frame of texts: one for each text, in the order of
/// the texts. Text `i` is drawn in style `i` and lies at entry `i` of the
/// payload.
pub fn dispatch(fonts: &Fonts, styles: &Vec<TextStyle>, entries: &Vec<PayloadEntry>) -> (result:
    Result<Vec<DrawCall>, DispatchError>)
    ensures
        match result {
            Ok(calls) => {
                &&& styles@.len() == entries@.len()
                &&& calls@.len() == styles@.len()
                &&& forall|i: int|
                    0 <= i < calls@.len() ==> draw_of(fonts@, styles@[i], entries@[i]) == Ok::<
                        DrawView,
                        DrawError,
                    >((#[trigger] calls@[i])@)
            },
            Err(DispatchError::Mismatch) => styles@.len() != entries@.len(),
            Err(DispatchError::Text { index, cause }) => {
                &&& styles@.len() == entries@.len()
                &&& index < styles@.len()
                &&& draw_of(fonts@, styles@[index as int], entries@[index as int]) == Err::<
                    DrawView,
                    DrawError,
                >(cause)
                &&& forall|i: int|
                    0 <= i < index ==> (#[trigger] draw_of(fonts@, styles@[i], entries@[i])).is_ok()
            },
        },
{
    if styles.len() != entries.len() {
        return Err(DispatchError::Mismatch);
    }
    let mut calls: Vec<DrawCall> = Vec::new();
    let mut index: usize = 0;
    while index < styles.len()
        invariant
            styles@.len() == entries@.len(),
            index <= styles@.len(),
            calls@.len() == index,
            forall|i: int|
                0 <= i < index ==> draw_of(fonts@, styles@[i], entries@[i]) == Ok::<
                    DrawView,
                    DrawError,
                >((#[trigger] calls@[i])@),
        decreases styles@.len() - index,
    {
        match draw_text(fonts, &styles[index], entries[index]) {
            Ok(call) => {
                calls.push(call);
            },
            Err(cause) => {
                assert forall|i: int| 0 <= i < index implies (#[trigger] draw_of(
                    fonts@,
                    styles@[i],
                    entries@[i],
                )).is_ok() by {
                    assert(draw_of(fonts@, styles@[i], entries@[i]) == Ok::<DrawView, DrawError>(
                        calls@[i]@,
                    ));
                }
                return Err(DispatchError::Text { index, cause });
            },
        }
        index += 1;
    }
    Ok(calls)
}

} // verus!
