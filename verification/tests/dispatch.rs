use bitmap_text::dispatch::{
    corner_index, dispatch, draw_state, draw_text, glyph_index, uniform_pair, vertex_count,
    DispatchError, DrawCall, DrawError, TextStyle, DRAW_STATE_SIZE, VERTICES_PER_GLYPH,
};
use bitmap_text::fonts::{Font, FontSize, RawSheet};
use bitmap_text::payload::{pack, PayloadEntry};
use bitmap_text::registry::{BindingPolicy, FontBinding, Fonts};

fn registry(count: usize, policy: BindingPolicy) -> Fonts {
    let fonts: Vec<Font> = (0..count)
        .map(|_| {
            Font::from_sheet(RawSheet { width: 16, height: 16, pixels: vec![0u8; 1024] }).unwrap()
        })
        .collect();
    Fonts::new(fonts, policy).unwrap()
}

fn style(font: FontSize, rgba: [f32; 4], x: f32, y: f32) -> TextStyle {
    TextStyle {
        font,
        red: rgba[0].to_bits(),
        green: rgba[1].to_bits(),
        blue: rgba[2].to_bits(),
        alpha: rgba[3].to_bits(),
        x: x.to_bits(),
        y: y.to_bits(),
    }
}

fn block(rgba: [f32; 4], x: f32, y: f32, offset: u32) -> Vec<u8> {
    let mut bytes: Vec<u8> = Vec::new();
    for value in rgba {
        bytes.extend_from_slice(&value.to_le_bytes());
    }
    bytes.extend_from_slice(&x.to_le_bytes());
    bytes.extend_from_slice(&y.to_le_bytes());
    bytes.extend_from_slice(&offset.to_le_bytes());
    bytes.extend_from_slice(&[0u8; 4]);
    bytes
}

#[test]
fn glyph_takes_six_vertices() {
    assert_eq!(VERTICES_PER_GLYPH, 6);
    assert_eq!(vertex_count(0), Some(0));
    assert_eq!(vertex_count(1), Some(6));
    assert_eq!(vertex_count(11), Some(66));
    assert_eq!(vertex_count(715_827_882), Some(4_294_967_292));
    assert_eq!(vertex_count(715_827_883), None);
    assert_eq!(vertex_count(u32::MAX), None);
}

#[test]
fn vertex_names_its_glyph_and_corner() {
    let expected = [
        (0u32, 0u32, 0u32),
        (1, 0, 1),
        (5, 0, 5),
        (6, 1, 0),
        (7, 1, 1),
        (11, 1, 5),
        (12, 2, 0),
        (65, 10, 5),
        (u32::MAX, 715_827_882, 3),
    ];
    for (vertex, glyph, corner) in expected {
        assert_eq!(glyph_index(vertex), glyph);
        assert_eq!(corner_index(vertex), corner);
    }
    for vertex in 0..600u32 {
        assert!(corner_index(vertex) < 6);
        assert_eq!(6 * glyph_index(vertex) + corner_index(vertex), vertex);
        assert_eq!(vertex < vertex_count(11).unwrap(), glyph_index(vertex) < 11);
    }
}

#[test]
fn draw_state_is_colour_place_offset_padding() {
    assert_eq!(DRAW_STATE_SIZE, 32);
    let text = style(FontSize::Size4x6, [1.0, 0.5, 0.25, 1.0], 100.0, 200.0);
    let bytes = draw_state(&text, 7);
    assert_eq!(bytes.len(), 32);
    assert_eq!(bytes, block([1.0, 0.5, 0.25, 1.0], 100.0, 200.0, 7));
    assert_eq!(&bytes[0..4], &[0x00, 0x00, 0x80, 0x3f]);
    assert_eq!(&bytes[4..8], &[0x00, 0x00, 0x00, 0x3f]);
    assert_eq!(&bytes[16..20], &[0x00, 0x00, 0xc8, 0x42]);
    assert_eq!(&bytes[24..28], &[7, 0, 0, 0]);
    assert_eq!(&bytes[28..32], &[0, 0, 0, 0]);
}

#[test]
fn draw_state_writes_each_word_least_byte_first() {
    let text = TextStyle {
        font: FontSize::Size8x16,
        red: 0x0403_0201,
        green: 0x0807_0605,
        blue: 0x0c0b_0a09,
        alpha: 0x100f_0e0d,
        x: 0x1413_1211,
        y: 0x1817_1615,
    };
    let bytes = draw_state(&text, 0x1c1b_1a19);
    let mut expected: Vec<u8> = (1..=28).collect();
    expected.extend_from_slice(&[0, 0, 0, 0]);
    assert_eq!(bytes, expected);
    let extremes = TextStyle { red: u32::MAX, green: 0, blue: 255, alpha: 256, ..text };
    let bytes = draw_state(&extremes, u32::MAX);
    assert_eq!(&bytes[0..16], &[255, 255, 255, 255, 0, 0, 0, 0, 255, 0, 0, 0, 0, 1, 0, 0]);
    assert_eq!(&bytes[24..32], &[255, 255, 255, 255, 0, 0, 0, 0]);
}

#[test]
fn uniform_pair_is_two_words() {
    let viewport = uniform_pair(1440.0f32.to_bits(), 900.0f32.to_bits());
    let mut expected = 1440.0f32.to_le_bytes().to_vec();
    expected.extend_from_slice(&900.0f32.to_le_bytes());
    assert_eq!(viewport, expected);
    assert_eq!(viewport.len(), 8);
    assert_eq!(uniform_pair(0x0403_0201, 0x0807_0605), vec![1, 2, 3, 4, 5, 6, 7, 8]);
}

#[test]
fn text_is_drawn_with_six_vertices_a_glyph() {
    let fonts = registry(10, BindingPolicy::PerFont);
    let text = style(FontSize::Size8x12, [0.0, 1.0, 0.0, 1.0], 3.0, 4.0);
    let call = draw_text(&fonts, &text, PayloadEntry { offset: 9, length: 11 }).unwrap();
    assert_eq!(
        call,
        DrawCall {
            binding: FontBinding { group: 3, texture: 0 },
            constants: block([0.0, 1.0, 0.0, 1.0], 3.0, 4.0, 9),
            vertices: 66,
        }
    );
    let none = draw_text(&fonts, &text, PayloadEntry { offset: 0, length: 0 }).unwrap();
    assert_eq!(none.vertices, 0);
}

#[test]
fn draw_selects_the_font_under_either_policy() {
    let text = style(FontSize::Size6x8, [1.0; 4], 0.0, 0.0);
    let entry = PayloadEntry { offset: 0, length: 1 };
    let per_font = registry(2, BindingPolicy::PerFont);
    assert_eq!(
        draw_text(&per_font, &text, entry).unwrap().binding,
        FontBinding { group: 1, texture: 0 }
    );
    let combined = registry(2, BindingPolicy::Combined { max_textures: 4 });
    assert_eq!(
        draw_text(&combined, &text, entry).unwrap().binding,
        FontBinding { group: 0, texture: 1 }
    );
}

#[test]
fn text_in_a_font_not_loaded_is_not_drawn() {
    let fonts = registry(2, BindingPolicy::PerFont);
    let text = style(FontSize::Size6x10, [1.0; 4], 0.0, 0.0);
    let entry = PayloadEntry { offset: 0, length: 1 };
    assert_eq!(draw_text(&fonts, &text, entry), Err(DrawError::NotLoaded));
    let long = PayloadEntry { offset: 0, length: u32::MAX };
    assert_eq!(draw_text(&fonts, &text, long), Err(DrawError::NotLoaded));
}

#[test]
fn text_of_too_many_glyphs_is_not_drawn() {
    let fonts = registry(1, BindingPolicy::PerFont);
    let text = style(FontSize::Size4x6, [1.0; 4], 0.0, 0.0);
    let longest = PayloadEntry { offset: 0, length: 715_827_882 };
    assert_eq!(draw_text(&fonts, &text, longest).unwrap().vertices, 4_294_967_292);
    let too_long = PayloadEntry { offset: 0, length: 715_827_883 };
    assert_eq!(draw_text(&fonts, &text, too_long), Err(DrawError::TooManyGlyphs));
}

#[test]
fn frame_of_texts_is_drawn_in_order() {
    let fonts = registry(10, BindingPolicy::PerFont);
    let texts: Vec<Vec<u8>> = vec![b"hi".to_vec(), b"world".to_vec(), b"Hello world".to_vec()];
    let styles = vec![
        style(FontSize::Size24x36, [1.0, 0.0, 0.0, 1.0], 10.0, 20.0),
        style(FontSize::Size4x6, [0.0, 1.0, 0.0, 0.5], 30.0, 40.0),
        style(FontSize::Size8x16, [0.0, 0.0, 1.0, 0.25], 50.0, 60.0),
    ];
    let packed = pack(&texts, 1024).unwrap();
    let calls = dispatch(&fonts, &styles, &packed.entries).unwrap();
    assert_eq!(
        calls,
        vec![
            DrawCall {
                binding: FontBinding { group: 9, texture: 0 },
                constants: block([1.0, 0.0, 0.0, 1.0], 10.0, 20.0, 0),
                vertices: 12,
            },
            DrawCall {
                binding: FontBinding { group: 0, texture: 0 },
                constants: block([0.0, 1.0, 0.0, 0.5], 30.0, 40.0, 1),
                vertices: 30,
            },
            DrawCall {
                binding: FontBinding { group: 6, texture: 0 },
                constants: block([0.0, 0.0, 1.0, 0.25], 50.0, 60.0, 3),
                vertices: 66,
            },
        ]
    );
}

#[test]
fn frame_without_texts_has_no_draws() {
    let fonts = registry(1, BindingPolicy::PerFont);
    assert_eq!(dispatch(&fonts, &Vec::new(), &Vec::new()), Ok(Vec::new()));
}

#[test]
fn styles_and_entries_must_pair_up() {
    let fonts = registry(1, BindingPolicy::PerFont);
    let styles = vec![style(FontSize::Size4x6, [1.0; 4], 0.0, 0.0)];
    assert_eq!(dispatch(&fonts, &styles, &Vec::new()), Err(DispatchError::Mismatch));
    let entries = vec![PayloadEntry { offset: 0, length: 1 }; 2];
    assert_eq!(dispatch(&fonts, &styles, &entries), Err(DispatchError::Mismatch));
    assert_eq!(dispatch(&fonts, &Vec::new(), &entries), Err(DispatchError::Mismatch));
}

#[test]
fn dispatch_stops_at_the_first_text_it_cannot_draw() {
    let fonts = registry(2, BindingPolicy::Combined { max_textures: 2 });
    let styles = vec![
        style(FontSize::Size4x6, [1.0; 4], 0.0, 0.0),
        style(FontSize::Size6x8, [1.0; 4], 0.0, 0.0),
        style(FontSize::Size6x10, [1.0; 4], 0.0, 0.0),
        style(FontSize::Size4x6, [1.0; 4], 0.0, 0.0),
    ];
    let entries = vec![
        PayloadEntry { offset: 0, length: 4 },
        PayloadEntry { offset: 1, length: 4 },
        PayloadEntry { offset: 2, length: 4 },
        PayloadEntry { offset: 3, length: u32::MAX },
    ];
    assert_eq!(
        dispatch(&fonts, &styles, &entries),
        Err(DispatchError::Text { index: 2, cause: DrawError::NotLoaded })
    );
    let styles = vec![styles[0], styles[1], styles[3], styles[2]];
    let entries = vec![entries[0], entries[1], entries[3], entries[2]];
    assert_eq!(
        dispatch(&fonts, &styles, &entries),
        Err(DispatchError::Text { index: 2, cause: DrawError::TooManyGlyphs })
    );
}
