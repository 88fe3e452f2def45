//! Font sheets and the fonts loaded from them.

use vstd::prelude::*;
use crate::registry::{within_budget, BindingPolicy, Fonts};

verus! {

/// Number of glyph cells along each axis of a font sheet.
pub const GRID: u32 = 16;

/// Number of fonts that [`FontSize`] names.
pub const FONT_COUNT: usize = 10;

/// Selects one of the loaded fonts. The variants stand in load order: the
/// first variant selects the sheet that was loaded first.
#[derive(Clone, Copy, PartialEq, Eq, Debug, Structural)]
pub enum FontSize {
    Size4x6,
    Size6x8,
    Size6x10,
    Size8x12,
    Size8x14,
    Size8x15,
    Size8x16,
    Size12x20,
    Size16x24,
    Size24x36,
}

impl FontSize {
    /// Position of the selected font in load order.
    pub open spec fn slot(self) -> nat {
        match self {
            FontSize::Size4x6 => 0,
            FontSize::Size6x8 => 1,
            FontSize::Size6x10 => 2,
            FontSize::Size8x12 => 3,
            FontSize::Size8x14 => 4,
            FontSize::Size8x15 => 5,
            FontSize::Size8x16 => 6,
            FontSize::Size12x20 => 7,
            FontSize::Size16x24 => 8,
            FontSize::Size24x36 => 9,
        }
    }

    /// The selector of the font at position `slot` in load order, if there
    /// is one.
    pub open spec fn at(slot: int) -> Option<FontSize> {
        if slot == 0 {
            Some(FontSize::Size4x6)
        } else if slot == 1 {
            Some(FontSize::Size6x8)
        } else if slot == 2 {
            Some(FontSize::Size6x10)
        } else if slot == 3 {
            Some(FontSize::Size8x12)
        } else if slot == 4 {
            Some(FontSize::Size8x14)
        } else if slot == 5 {
            Some(FontSize::Size8x15)
        } else if slot == 6 {
            Some(FontSize::Size8x16)
        } else if slot == 7 {
            Some(FontSize::Size12x20)
        } else if slot == 8 {
            Some(FontSize::Size16x24)
        } else if slot == 9 {
            Some(FontSize::Size24x36)
        } else {
            None
        }
    }

    /// Position of the selected font in load order, as an index into the
    /// font collection.
    pub fn index(self) -> (i: usize)
        ensures
            i == self.slot(),
            i < FONT_COUNT,
    {
        match self {
            FontSize::Size4x6 => 0,
            FontSize::Size6x8 => 1,
            FontSize::Size6x10 => 2,
            FontSize::Size8x12 => 3,
            FontSize::Size8x14 => 4,
            FontSize::Size8x15 => 5,
            FontSize::Size8x16 => 6,
            FontSize::Size12x20 => 7,
            FontSize::Size16x24 => 8,
            FontSize::Size24x36 => 9,
        }
    }

    /// The selector whose font stands at `index` in load order; `None` for
    /// an index that no selector names.
    pub fn from_index(index: usize) -> (size: Option<FontSize>)
        ensures
            size == FontSize::at(index as int),
            size.is_some() <==> index < FONT_COUNT,
    {
        match index {
            0 => Some(FontSize::Size4x6),
            1 => Some(FontSize::Size6x8),
            2 => Some(FontSize::Size6x10),
            3 => Some(FontSize::Size8x12),
            4 => Some(FontSize::Size8x14),
            5 => Some(FontSize::Size8x15),
            6 => Some(FontSize::Size8x16),
            7 => Some(FontSize::Size12x20),
            8 => Some(FontSize::Size16x24),
            9 => Some(FontSize::Size24x36),
            _ => None,
        }
    }

    /// Every selector names a position below [`FONT_COUNT`], and looking
    /// that position up gives the selector back.
    pub proof fn lemma_slot_round_trip(self)
        ensures
            self.slot() < FONT_COUNT,
            FontSize::at(self.slot() as int) == Some(self),
    {
    }

    /// Every position below [`FONT_COUNT`] is named by exactly one selector.
    pub proof fn lemma_at_round_trip(slot: int)
        ensures
            FontSize::at(slot) matches Some(size) ==> size.slot() == slot,
            FontSize::at(slot).is_some() <==> 0 <= slot < FONT_COUNT,
    {
    }
}

/// A decoded font sheet: its size in pixels and its pixels as RGBA8, four
/// bytes a pixel, row by row from the top.
#[derive(Clone, PartialEq, Eq, Debug)]
pub struct RawSheet {
    pub width: u32,
    pub height: u32,
    pub pixels: Vec<u8>,
}

/// What a decoded sheet holds.
pub struct SheetView {
    pub width: nat,
    pub height: nat,
    pub pixels: Seq<u8>,
}

impl View for RawSheet {
    type V = SheetView;

    open spec fn view(&self) -> SheetView {
        SheetView { width: self.width as nat, height: self.height as nat, pixels: self.pixels@ }
    }
}

impl SheetView {
    /// Both sides are a whole number of glyph cells.
    pub open spec fn on_grid(self) -> bool {
        self.width % (GRID as nat) == 0 && self.height % (GRID as nat) == 0
    }

    /// There are four bytes for every pixel and no others.
    pub open spec fn complete(self) -> bool {
        self.pixels.len() == 4 * self.width * self.height
    }
}

/// Why a sheet was not accepted as a font.
#[derive(Clone, Copy, PartialEq, Eq, Debug, Structural)]
pub enum SheetError {
    /// The bytes are no image that the decoder reads.
    Undecodable,
    /// A side of the sheet is no multiple of [`GRID`].
    BadGrid,
    /// The pixel bytes are not four for each pixel of the sheet.
    PixelCount,
}

/// One loaded font: a sheet that holds [`GRID`] by [`GRID`] glyph cells of
/// equal size.
#[derive(Clone, PartialEq, Eq, Debug)]
pub struct Font {
    /// Width of a glyph cell, in pixels.
    pub width: u32,
    /// Height of a glyph cell, in pixels.
    pub height: u32,
    /// The sheet that the cells are cut from.
    pub sheet: RawSheet,
}

/// What a font holds.
pub struct FontView {
    pub width: nat,
    pub height: nat,
    pub sheet: SheetView,
}

impl View for Font {
    type V = FontView;

    open spec fn view(&self) -> FontView {
        FontView { width: self.width as nat, height: self.height as nat, sheet: self.sheet@ }
    }
}

impl FontView {
    /// The sheet is cut into [`GRID`] columns and [`GRID`] rows, the cell's
    /// width taken from the sheet's width and its height from the sheet's
    /// height, and every pixel of the sheet is there.
    pub open spec fn wf(self) -> bool {
        &&& self.sheet.width == GRID * self.width
        &&& self.sheet.height == GRID * self.height
        &&& self.sheet.complete()
    }
}

/// The font that a sheet on the grid is cut into.
pub open spec fn font_of(sheet: SheetView) -> FontView {
    FontView {
        width: sheet.width / (GRID as nat),
        height: sheet.height / (GRID as nat),
        sheet,
    }
}

/// What loading makes of a decoding: the font, or the reason why there is
/// none. A sheet off the grid is refused before its pixels are counted.
pub open spec fn sheet_outcome(decoded: Option<SheetView>) -> Result<FontView, SheetError> {
    match decoded {
        None => Err(SheetError::Undecodable),
        Some(sheet) => if !sheet.on_grid() {
            Err(SheetError::BadGrid)
        } else if !sheet.complete() {
            Err(SheetError::PixelCount)
        } else {
            Ok(font_of(sheet))
        },
    }
}

/// A sheet is accepted exactly when it was decoded, lies on the grid and has
/// all its pixels; the font it then gives is well formed, with the cell's
/// width the sheet's width over [`GRID`] and the cell's height the sheet's
/// height over [`GRID`].
pub proof fn lemma_accepted_sheet(decoded: Option<SheetView>)
    ensures
        sheet_outcome(decoded).is_ok() <==> decoded.is_some() && decoded.unwrap().on_grid()
            && decoded.unwrap().complete(),
        sheet_outcome(decoded) matches Ok(font) ==> {
            &&& decoded == Some(font.sheet)
            &&& font.sheet.width % (GRID as nat) == 0
            &&& font.sheet.height % (GRID as nat) == 0
            &&& font.width == font.sheet.width / (GRID as nat)
            &&& font.height == font.sheet.height / (GRID as nat)
            &&& font.wf()
        },
{
}

/// How the texels of a texture are stored.
#[derive(Clone, Copy, PartialEq, Eq, Debug, Structural)]
pub enum TextureFormat {
    /// Red, green, blue and alpha, eight bits each, read as they are.
    Rgba8Unorm,
    /// Red, green, blue and alpha, eight bits each, the colours converted
    /// from sRGB when a texel is read.
    Rgba8UnormSrgb,
}

/// The texture that a font sheet is uploaded to.
#[derive(Clone, Copy, PartialEq, Eq, Debug, Structural)]
pub struct TexturePlan {
    pub width: u32,
    pub height: u32,
    pub depth_or_array_layers: u32,
    pub mip_level_count: u32,
    pub sample_count: u32,
    pub format: TextureFormat,
    /// Whether a shader may sample the texture.
    pub texture_binding: bool,
    /// Whether a shader may write to the texture.
    pub storage_binding: bool,
    /// Whether the texture may be rendered to.
    pub render_attachment: bool,
}

/// The texture of a sheet: two-dimensional and of the sheet's size, one
/// layer, one mip level, one sample, sRGB, and only ever sampled.
pub open spec fn sheet_texture(width: u32, height: u32) -> TexturePlan {
    TexturePlan {
        width,
        height,
        depth_or_array_layers: 1,
        mip_level_count: 1,
        sample_count: 1,
        format: TextureFormat::Rgba8UnormSrgb,
        texture_binding: true,
        storage_binding: false,
        render_attachment: false,
    }
}

/// Whether `len` bytes are four for each pixel of a sheet of the given size.
fn pixel_count_matches(width: u32, height: u32, len: usize) -> (ok: bool)
    ensures
        ok == (len == 4 * width * height),
{
    assert(width * height <= 0xffff_ffff * 0xffff_ffff) by (nonlinear_arith)
        requires
            0 <= width <= 0xffff_ffff,
            0 <= height <= 0xffff_ffff,
    ;
    let pixels: u64 = (width as u64) * (height as u64);
    let expected: u128 = 4 * (pixels as u128);
    assert(expected == 4 * width * height) by (nonlinear_arith)
        requires
            expected == 4 * pixels,
            pixels == width * height,
    ;
    len as u128 == expected
}

impl Font {
    /// See [`FontView::wf`].
    pub open spec fn wf(&self) -> bool {
        self@.wf()
    }

    /// Cuts a decoded sheet into glyph cells. The sheet is accepted when
    /// both of its sides are multiples of [`GRID`] and its pixels are all
    /// there; the cell's height is the sheet's height over [`GRID`], not
    /// its width over [`GRID`].
    pub fn from_sheet(sheet: RawSheet) -> (result: Result<Font, SheetError>)
        ensures
            match result {
                Ok(font) => sheet_outcome(Some(sheet@)) == Ok::<FontView, SheetError>(font@)
                    && font.wf(),
                Err(cause) => sheet_outcome(Some(sheet@)) == Err::<FontView, SheetError>(cause),
            },
    {
        if sheet.width % GRID != 0 || sheet.height % GRID != 0 {
            return Err(SheetError::BadGrid);
        }
        if !pixel_count_matches(sheet.width, sheet.height, sheet.pixels.len()) {
            return Err(SheetError::PixelCount);
        }
        Ok(Font { width: sheet.width / GRID, height: sheet.height / GRID, sheet })
    }

    /// The texture that the font's sheet is uploaded to.
    pub fn texture_plan(&self) -> (plan: TexturePlan)
        ensures
            plan == sheet_texture(self.sheet.width, self.sheet.height),
    {
        TexturePlan {
            width: self.sheet.width,
            height: self.sheet.height,
            depth_or_array_layers: 1,
            mip_level_count: 1,
            sample_count: 1,
            format: TextureFormat::Rgba8UnormSrgb,
            texture_binding: true,
            storage_binding: false,
            render_attachment: false,
        }
    }
}

/// The error of the `image` crate's decoders.
#[verifier::external_type_specification]
#[verifier::external_body]
pub struct ExImageError(image::ImageError);

/// What decoding a sheet's bytes gives: the sheet, or `None` where the
/// bytes are no image that the decoder reads.
pub uninterp spec fn decoded_sheet(bytes: Seq<u8>) -> Option<SheetView>;

/// Decodes an image with `image::load_from_memory`, reads its size with
/// `GenericImageView::dimensions` and its pixels with
/// `DynamicImage::to_rgba8`. The contract claims that the outcome depends on
/// the bytes alone, and that a decoded sheet comes with four bytes for each
/// of its pixels: `to_rgba8` allocates a buffer of exactly that size.
#[verifier::external_body]
fn decode_rgba8(bytes: &[u8]) -> (result: Result<RawSheet, image::ImageError>)
    ensures
        match result {
            Ok(sheet) => decoded_sheet(bytes@) == Some(sheet@) && sheet@.complete(),
            Err(_) => decoded_sheet(bytes@).is_none(),
        },
{
    let decoded = image::load_from_memory(bytes)?;
    let (width, height) = image::GenericImageView::dimensions(&decoded);
    Ok(RawSheet { width, height, pixels: decoded.to_rgba8().into_raw() })
}

/// Loads one font from the bytes of its sheet.
pub fn load_sheet(bytes: &[u8]) -> (result: Result<Font, SheetError>)
    ensures
        match result {
            Ok(font) => sheet_outcome(decoded_sheet(bytes@)) == Ok::<FontView, SheetError>(font@)
                && font.wf(),
            Err(cause) => sheet_outcome(decoded_sheet(bytes@)) == Err::<FontView, SheetError>(
                cause,
            ),
        },
{
    match decode_rgba8(bytes) {
        Ok(sheet) => Font::from_sheet(sheet),
        Err(_) => Err(SheetError::Undecodable),
    }
}

/// Why the fonts were not loaded.
#[derive(Clone, Copy, PartialEq, Eq, Debug, Structural)]
pub enum LoadError {
    /// There are more sheets than the device binds textures in one group.
    BindingBudget,
    /// The sheet at `index` was not accepted; the sheets before it were.
    Sheet { index: usize, cause: SheetError },
}

/// Loads every font of `font_data`, one sheet each, and builds their
/// registry. The sheets are loaded in the order given, which becomes the
/// order of [`FontSize`]. Nothing is loaded when the sheets are more than
/// the policy admits; otherwise loading stops at the first sheet that is
/// not accepted.
pub fn load_fonts(font_data: &Vec<Vec<u8>>, policy: BindingPolicy) -> (result: Result<
    Fonts,
    LoadError,
>)
    ensures
        match result {
            Ok(registry) => {
                &&& within_budget(policy, font_data@.len())
                &&& registry@.policy == policy
                &&& registry@.fonts.len() == font_data@.len()
                &&& forall|i: int|
                    0 <= i < font_data@.len() ==> sheet_outcome(
                        decoded_sheet(#[trigger] font_data@[i]@),
                    ) == Ok::<FontView, SheetError>(registry@.fonts[i])
                &&& forall|i: int|
                    0 <= i < font_data@.len() ==> (#[trigger] registry@.fonts[i]).wf()
            },
            Err(LoadError::BindingBudget) => !within_budget(policy, font_data@.len()),
            Err(LoadError::Sheet { index, cause }) => {
                &&& within_budget(policy, font_data@.len())
                &&& index < font_data@.len()
                &&& sheet_outcome(decoded_sheet(font_data@[index as int]@)) == Err::<
                    FontView,
                    SheetError,
                >(cause)
                &&& forall|i: int|
                    0 <= i < index ==> sheet_outcome(
                        decoded_sheet(#[trigger] font_data@[i]@),
                    ).is_ok()
            },
        },
{
    match policy {
        BindingPolicy::PerFont => {},
        BindingPolicy::Combined { max_textures } => {
            if font_data.len() > max_textures as usize {
                return Err(LoadError::BindingBudget);
            }
        },
    }
    let mut fonts: Vec<Font> = Vec::new();
    let mut index: usize = 0;
    while index < font_data.len()
        invariant
            within_budget(policy, font_data@.len()),
            index <= font_data@.len(),
            fonts@.len() == index,
            forall|i: int|
                0 <= i < index ==> sheet_outcome(decoded_sheet(#[trigger] font_data@[i]@))
                    == Ok::<FontView, SheetError>(fonts@[i]@),
            forall|i: int| 0 <= i < index ==> (#[trigger] fonts@[i]).wf(),
        decreases font_data@.len() - index,
    {
        match load_sheet(font_data[index].as_slice()) {
            Ok(font) => {
                fonts.push(font);
            },
            Err(cause) => {
                return Err(LoadError::Sheet { index, cause });
            },
        }
        index += 1;
    }
    match Fonts::new(fonts, policy) {
        Ok(registry) => Ok(registry),
        Err(_) => Err(LoadError::BindingBudget),
    }
}

} // verus!
