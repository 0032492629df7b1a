use webgl_resources::constants::{FLOAT, HALF_FLOAT, RGB, RGBA};
use webgl_resources::textures::TextureCapabilityTable;
use webgl_resources::webgl_extensions::ext_constants::{RGB32F, RGBA16F, RGBA32F};

const UNSIGNED_BYTE: u32 = 0x1401;

#[test]
fn floating_point_texels_start_disabled() {
    let table = TextureCapabilityTable::new();
    assert!(!table.is_tex_type_enabled(FLOAT));
    assert!(!table.is_tex_type_enabled(HALF_FLOAT));
    assert!(table.is_tex_type_enabled(UNSIGNED_BYTE));
    assert!(!table.is_filterable(FLOAT));
    assert!(!table.is_filterable(HALF_FLOAT));
    assert!(table.is_filterable(UNSIGNED_BYTE));
}

#[test]
fn enabling_one_type_leaves_the_other() {
    let mut table = TextureCapabilityTable::new();
    table.enable_tex_type(FLOAT);
    assert!(table.is_tex_type_enabled(FLOAT));
    assert!(!table.is_tex_type_enabled(HALF_FLOAT));
    assert!(!table.is_filterable(FLOAT));
    table.enable_filterable_tex_type(HALF_FLOAT);
    assert!(table.is_filterable(HALF_FLOAT));
    assert!(!table.is_filterable(FLOAT));
    assert!(!table.is_tex_type_enabled(HALF_FLOAT));
    // Enabling again, or enabling what was never disabled, changes nothing.
    table.enable_tex_type(FLOAT);
    table.enable_tex_type(UNSIGNED_BYTE);
    assert!(table.is_tex_type_enabled(FLOAT));
    assert!(table.is_tex_type_enabled(UNSIGNED_BYTE));
}

#[test]
fn effective_format_defaults_to_source_format() {
    let table = TextureCapabilityTable::new();
    assert_eq!(table.get_effective_tex_internal_format(RGBA, FLOAT), RGBA);
    assert_eq!(table.get_effective_tex_internal_format(0, 0), 0);
    assert_eq!(table.get_effective_tex_internal_format(u32::MAX, u32::MAX), u32::MAX);
}

#[test]
fn effective_format_is_per_pair_and_last_write_wins() {
    let mut table = TextureCapabilityTable::new();
    table.add_effective_tex_internal_format(RGBA, FLOAT, RGBA32F);
    assert_eq!(table.get_effective_tex_internal_format(RGBA, FLOAT), RGBA32F);
    assert_eq!(table.get_effective_tex_internal_format(RGB, FLOAT), RGB);
    assert_eq!(table.get_effective_tex_internal_format(RGBA, HALF_FLOAT), RGBA);
    assert_eq!(table.get_effective_tex_internal_format(FLOAT, RGBA), FLOAT);
    table.add_effective_tex_internal_format(RGB, FLOAT, RGB32F);
    table.add_effective_tex_internal_format(RGBA, FLOAT, RGBA16F);
    assert_eq!(table.get_effective_tex_internal_format(RGBA, FLOAT), RGBA16F);
    assert_eq!(table.get_effective_tex_internal_format(RGB, FLOAT), RGB32F);
}

#[test]
fn effective_format_keys_do_not_collide() {
    let mut table = TextureCapabilityTable::new();
    table.add_effective_tex_internal_format(1, 0, 100);
    table.add_effective_tex_internal_format(0, 1, 200);
    table.add_effective_tex_internal_format(u32::MAX, 0, 300);
    table.add_effective_tex_internal_format(0, u32::MAX, 400);
    table.add_effective_tex_internal_format(u32::MAX, u32::MAX, 500);
    assert_eq!(table.get_effective_tex_internal_format(1, 0), 100);
    assert_eq!(table.get_effective_tex_internal_format(0, 1), 200);
    assert_eq!(table.get_effective_tex_internal_format(u32::MAX, 0), 300);
    assert_eq!(table.get_effective_tex_internal_format(0, u32::MAX), 400);
    assert_eq!(table.get_effective_tex_internal_format(u32::MAX, u32::MAX), 500);
    assert_eq!(table.get_effective_tex_internal_format(0, 0), 0);
    assert_eq!(table.get_effective_tex_internal_format(1, 1), 1);
}
