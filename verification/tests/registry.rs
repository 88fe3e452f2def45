use bitmap_text::fonts::{Font, FontSize, RawSheet};
use bitmap_text::registry::{
    build_combined_layout, build_frame_layout, build_per_font_layout, sampler_plan, AddressMode,
    BindGroupEntry, BindingKind, BindingPolicy, FilterMode, FontBinding, Fonts, LayoutEntry,
    RegistryError, Resource, Stage, CELL_UNIFORM_SIZE, VIEWPORT_UNIFORM_SIZE,
};

fn font(cell_width: u32, cell_height: u32) -> Font {
    let width = 16 * cell_width;
    let height = 16 * cell_height;
    let pixels = vec![cell_width as u8; 4 * width as usize * height as usize];
    Font::from_sheet(RawSheet { width, height, pixels }).unwrap()
}

fn three_fonts() -> Vec<Font> {
    vec![font(4, 6), font(6, 8), font(6, 10)]
}

#[test]
fn sampler_clamps_and_filters_as_a_bitmap_font_needs() {
    let plan = sampler_plan();
    assert_eq!(plan.address_mode_u, AddressMode::ClampToEdge);
    assert_eq!(plan.address_mode_v, AddressMode::ClampToEdge);
    assert_eq!(plan.address_mode_w, AddressMode::ClampToEdge);
    assert_eq!(plan.mag_filter, FilterMode::Linear);
    assert_eq!(plan.min_filter, FilterMode::Nearest);
    assert_eq!(plan.mipmap_filter, FilterMode::Nearest);
}

#[test]
fn per_font_layout_is_texture_sampler_cell_size() {
    assert_eq!(CELL_UNIFORM_SIZE, 8);
    let layout = build_per_font_layout();
    assert_eq!(
        layout,
        vec![
            LayoutEntry { binding: 0, visibility: Stage::Fragment, kind: BindingKind::Texture },
            LayoutEntry { binding: 1, visibility: Stage::Fragment, kind: BindingKind::Sampler },
            LayoutEntry {
                binding: 2,
                visibility: Stage::Vertex,
                kind: BindingKind::Uniform { min_size: 8 },
            },
        ]
    );
}

#[test]
fn combined_layout_has_a_binding_more_than_fonts() {
    for fonts in [0u32, 1, 3, 10, 16] {
        let layout = build_combined_layout(fonts);
        assert_eq!(layout.len(), fonts as usize + 1);
        for slot in 0..fonts {
            assert_eq!(
                layout[slot as usize],
                LayoutEntry { binding: slot, visibility: Stage::Fragment, kind: BindingKind::Texture }
            );
        }
        assert_eq!(
            layout[fonts as usize],
            LayoutEntry { binding: fonts, visibility: Stage::Fragment, kind: BindingKind::Sampler }
        );
    }
}

#[test]
fn frame_layout_is_payload_and_viewport() {
    assert_eq!(VIEWPORT_UNIFORM_SIZE, 8);
    assert_eq!(
        build_frame_layout(1024 * 1024, false),
        vec![
            LayoutEntry {
                binding: 0,
                visibility: Stage::Vertex,
                kind: BindingKind::Storage { min_size: 1024 * 1024, dynamic: false },
            },
            LayoutEntry {
                binding: 1,
                visibility: Stage::Vertex,
                kind: BindingKind::Uniform { min_size: 8 },
            },
        ]
    );
    let dynamic = build_frame_layout(256, true);
    assert_eq!(dynamic[0].kind, BindingKind::Storage { min_size: 256, dynamic: true });
}

#[test]
fn registry_keeps_the_fonts_in_load_order() {
    let fonts = Fonts::new(three_fonts(), BindingPolicy::PerFont).unwrap();
    assert_eq!(fonts.len(), 3);
    assert_eq!(fonts.fonts(), &three_fonts());
    assert_eq!(fonts.policy(), BindingPolicy::PerFont);
    assert_eq!(fonts.bind_group_layout(), &build_per_font_layout());
}

#[test]
fn selector_yields_the_font_loaded_at_its_position() {
    for policy in [BindingPolicy::PerFont, BindingPolicy::Combined { max_textures: 8 }] {
        let fonts = Fonts::new(three_fonts(), policy).unwrap();
        let first = fonts.get(FontSize::Size4x6).unwrap();
        assert_eq!((first.width, first.height), (4, 6));
        let second = fonts.get(FontSize::Size6x8).unwrap();
        assert_eq!((second.width, second.height), (6, 8));
        let third = fonts.get(FontSize::Size6x10).unwrap();
        assert_eq!((third.width, third.height), (6, 10));
        assert_eq!(fonts.font(1).unwrap(), second);
    }
}

#[test]
fn font_beyond_the_loaded_set_is_refused() {
    for policy in [BindingPolicy::PerFont, BindingPolicy::Combined { max_textures: 8 }] {
        let fonts = Fonts::new(three_fonts(), policy).unwrap();
        assert_eq!(fonts.font(2).map(|f| f.width), Ok(6));
        assert_eq!(fonts.font(3).unwrap_err(), RegistryError::NotLoaded);
        assert_eq!(fonts.font(10).unwrap_err(), RegistryError::NotLoaded);
        assert_eq!(fonts.font(usize::MAX).unwrap_err(), RegistryError::NotLoaded);
        assert_eq!(fonts.get(FontSize::Size8x12).unwrap_err(), RegistryError::NotLoaded);
        assert_eq!(fonts.get(FontSize::Size24x36).unwrap_err(), RegistryError::NotLoaded);
        assert_eq!(fonts.select(FontSize::Size8x12), Err(RegistryError::NotLoaded));
        assert_eq!(fonts.select(FontSize::Size24x36), Err(RegistryError::NotLoaded));
    }
    let none = Fonts::new(Vec::new(), BindingPolicy::PerFont).unwrap();
    assert_eq!(none.font(0).unwrap_err(), RegistryError::NotLoaded);
    assert_eq!(none.select(FontSize::Size4x6), Err(RegistryError::NotLoaded));
}

#[test]
fn per_font_policy_selects_by_bind_group() {
    let fonts = Fonts::new(three_fonts(), BindingPolicy::PerFont).unwrap();
    assert_eq!(fonts.select(FontSize::Size4x6), Ok(FontBinding { group: 0, texture: 0 }));
    assert_eq!(fonts.select(FontSize::Size6x8), Ok(FontBinding { group: 1, texture: 0 }));
    assert_eq!(fonts.select(FontSize::Size6x10), Ok(FontBinding { group: 2, texture: 0 }));
}

#[test]
fn combined_policy_selects_by_texture_slot() {
    let fonts = Fonts::new(three_fonts(), BindingPolicy::Combined { max_textures: 3 }).unwrap();
    assert_eq!(fonts.select(FontSize::Size4x6), Ok(FontBinding { group: 0, texture: 0 }));
    assert_eq!(fonts.select(FontSize::Size6x8), Ok(FontBinding { group: 0, texture: 1 }));
    assert_eq!(fonts.select(FontSize::Size6x10), Ok(FontBinding { group: 0, texture: 2 }));
}

#[test]
fn per_font_policy_has_a_bind_group_for_each_font() {
    let fonts = Fonts::new(three_fonts(), BindingPolicy::PerFont).unwrap();
    let groups = fonts.bind_groups();
    assert_eq!(groups.len(), 3);
    for (position, group) in groups.iter().enumerate() {
        assert_eq!(
            group,
            &vec![
                BindGroupEntry { binding: 0, resource: Resource::FontTexture { font: position } },
                BindGroupEntry { binding: 1, resource: Resource::Sampler },
                BindGroupEntry { binding: 2, resource: Resource::CellSize { font: position } },
            ]
        );
    }
    assert_ne!(groups[0], groups[1]);
    assert_ne!(groups[1], groups[2]);
    assert_ne!(groups[0], groups[2]);
    assert_eq!(fonts.bind_group_layout().len(), 3);
}

#[test]
fn combined_policy_has_one_bind_group_of_fonts_and_sampler() {
    let fonts = Fonts::new(three_fonts(), BindingPolicy::Combined { max_textures: 16 }).unwrap();
    assert_eq!(fonts.bind_group_layout(), &build_combined_layout(3));
    assert_eq!(fonts.bind_group_layout().len(), 3 + 1);
    let groups = fonts.bind_groups();
    assert_eq!(groups.len(), 1);
    assert_eq!(
        groups[0],
        vec![
            BindGroupEntry { binding: 0, resource: Resource::FontTexture { font: 0 } },
            BindGroupEntry { binding: 1, resource: Resource::FontTexture { font: 1 } },
            BindGroupEntry { binding: 2, resource: Resource::FontTexture { font: 2 } },
            BindGroupEntry { binding: 3, resource: Resource::Sampler },
        ]
    );
}

#[test]
fn registry_without_fonts_still_binds_the_sampler() {
    let fonts = Fonts::new(Vec::new(), BindingPolicy::Combined { max_textures: 0 }).unwrap();
    assert_eq!(
        fonts.bind_groups(),
        vec![vec![BindGroupEntry { binding: 0, resource: Resource::Sampler }]]
    );
    let fonts = Fonts::new(Vec::new(), BindingPolicy::PerFont).unwrap();
    assert_eq!(fonts.bind_groups(), Vec::<Vec<BindGroupEntry>>::new());
}

#[test]
fn combined_policy_refuses_more_fonts_than_the_device_binds() {
    let error = Fonts::new(three_fonts(), BindingPolicy::Combined { max_textures: 2 }).unwrap_err();
    assert_eq!(error, RegistryError::BindingBudget);
    let error = Fonts::new(three_fonts(), BindingPolicy::Combined { max_textures: 0 }).unwrap_err();
    assert_eq!(error, RegistryError::BindingBudget);
    assert!(Fonts::new(three_fonts(), BindingPolicy::Combined { max_textures: 3 }).is_ok());
    assert!(Fonts::new(three_fonts(), BindingPolicy::Combined { max_textures: u32::MAX }).is_ok());
}

#[test]
fn per_font_policy_has_no_budget() {
    let many: Vec<Font> = (0..40).map(|_| font(1, 1)).collect();
    let fonts = Fonts::new(many, BindingPolicy::PerFont).unwrap();
    assert_eq!(fonts.len(), 40);
    assert_eq!(fonts.bind_groups().len(), 40);
}
