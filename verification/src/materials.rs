//! The material table: eight named surface descriptions, five of them
//! backed by procedural textures, built once at startup. Colors and
//! scalar parameters are per-mille integers (1000 = 1.0).

use vstd::prelude::*;

use crate::texture::{make_image, texture_matches, PatternRule, Texture};

verus! {

/// An RGBA color in per-mille (1000 = 1.0).
#[derive(Clone, Copy, Debug, PartialEq, Eq, Structural)]
pub struct Color {
    pub r: u16,
    pub g: u16,
    pub b: u16,
    pub a: u16,
}

/// How a material's alpha channel is treated.
#[derive(Clone, Copy, Debug, PartialEq, Eq, Structural)]
pub enum AlphaMode {
    Opaque,
    Blend,
}

/// One surface description: base color, optional texture handle (an index
/// into the texture list built beside the table), and per-mille surface
/// parameters.
#[derive(Clone, Copy, Debug, PartialEq, Eq, Structural)]
pub struct MaterialDesc {
    pub base_color: Color,
    pub texture: Option<usize>,
    pub roughness_pm: u16,
    pub metallic_pm: u16,
    pub reflectance_pm: u16,
    pub alpha_mode: AlphaMode,
    pub emissive: Color,
}

/// The eight materials of the diorama.
#[derive(Clone, Copy, Debug, PartialEq, Eq, Structural)]
pub struct Materials {
    pub grass: MaterialDesc,
    pub wood: MaterialDesc,
    pub stone: MaterialDesc,
    pub glass: MaterialDesc,
    pub water: MaterialDesc,
    pub metal: MaterialDesc,
    pub lantern_glass: MaterialDesc,
    pub sky: MaterialDesc,
}

/// A fully black, fully opaque color: the emissive default.
pub open spec fn black() -> Color {
    Color { r: 0, g: 0, b: 0, a: 1000 }
}

/// Texture handle of each textured material, as an index into the texture
/// list that `add_materials` builds.
pub const TEX_GRASS: usize = 0;

pub const TEX_WOOD: usize = 1;

pub const TEX_STONE: usize = 2;

pub const TEX_WATER: usize = 3;

pub const TEX_METAL: usize = 4;

/// The fixed material table.
pub open spec fn materials_table() -> Materials {
    Materials {
        grass: MaterialDesc {
            base_color: Color { r: 180, g: 550, b: 250, a: 1000 },
            texture: Some(TEX_GRASS),
            roughness_pm: 900,
            metallic_pm: 0,
            reflectance_pm: 20,
            alpha_mode: AlphaMode::Opaque,
            emissive: black(),
        },
        wood: MaterialDesc {
            base_color: Color { r: 430, g: 280, b: 160, a: 1000 },
            texture: Some(TEX_WOOD),
            roughness_pm: 800,
            metallic_pm: 0,
            reflectance_pm: 40,
            alpha_mode: AlphaMode::Opaque,
            emissive: black(),
        },
        stone: MaterialDesc {
            base_color: Color { r: 500, g: 500, b: 500, a: 1000 },
            texture: Some(TEX_STONE),
            roughness_pm: 950,
            metallic_pm: 0,
            reflectance_pm: 30,
            alpha_mode: AlphaMode::Opaque,
            emissive: black(),
        },
        glass: MaterialDesc {
            base_color: Color { r: 800, g: 950, b: 1000, a: 200 },
            texture: None,
            roughness_pm: 20,
            metallic_pm: 0,
            reflectance_pm: 80,
            alpha_mode: AlphaMode::Blend,
            emissive: black(),
        },
        water: MaterialDesc {
            base_color: Color { r: 200, g: 500, b: 1000, a: 400 },
            texture: Some(TEX_WATER),
            roughness_pm: 30,
            metallic_pm: 0,
            reflectance_pm: 200,
            alpha_mode: AlphaMode::Blend,
            emissive: black(),
        },
        metal: MaterialDesc {
            base_color: Color { r: 800, g: 820, b: 850, a: 1000 },
            texture: Some(TEX_METAL),
            roughness_pm: 150,
            metallic_pm: 950,
            reflectance_pm: 500,
            alpha_mode: AlphaMode::Opaque,
            emissive: black(),
        },
        lantern_glass: MaterialDesc {
            base_color: Color { r: 1000, g: 950, b: 800, a: 350 },
            texture: None,
            roughness_pm: 50,
            metallic_pm: 0,
            reflectance_pm: 500,
            alpha_mode: AlphaMode::Blend,
            emissive: Color { r: 300, g: 270, b: 180, a: 1000 },
        },
        sky: MaterialDesc {
            base_color: Color { r: 520, g: 750, b: 950, a: 1000 },
            texture: None,
            roughness_pm: 1000,
            metallic_pm: 0,
            reflectance_pm: 0,
            alpha_mode: AlphaMode::Opaque,
            emissive: black(),
        },
    }
}

/// Builds the five procedural textures and the material table; the same
/// call always yields the same table and the same pixel buffers.
pub fn add_materials() -> (out: (Vec<Texture>, Materials))
    ensures
        out.1 == materials_table(),
        out.0@.len() == 5,
        texture_matches(out.0@[TEX_GRASS as int], PatternRule::Grass, 128, 128),
        texture_matches(out.0@[TEX_WOOD as int], PatternRule::Wood, 128, 128),
        texture_matches(out.0@[TEX_STONE as int], PatternRule::Stone, 128, 128),
        texture_matches(out.0@[TEX_WATER as int], PatternRule::Water, 128, 128),
        texture_matches(out.0@[TEX_METAL as int], PatternRule::Metal, 64, 64),
{
    let mut textures: Vec<Texture> = Vec::new();
    textures.push(make_image(PatternRule::Grass, 128, 128));
    textures.push(make_image(PatternRule::Wood, 128, 128));
    textures.push(make_image(PatternRule::Stone, 128, 128));
    textures.push(make_image(PatternRule::Water, 128, 128));
    textures.push(make_image(PatternRule::Metal, 64, 64));
    let materials = Materials {
        grass: MaterialDesc {
            base_color: Color { r: 180, g: 550, b: 250, a: 1000 },
            texture: Some(TEX_GRASS),
            roughness_pm: 900,
            metallic_pm: 0,
            reflectance_pm: 20,
            alpha_mode: AlphaMode::Opaque,
            emissive: Color { r: 0, g: 0, b: 0, a: 1000 },
        },
        wood: MaterialDesc {
            base_color: Color { r: 430, g: 280, b: 160, a: 1000 },
            texture: Some(TEX_WOOD),
            roughness_pm: 800,
            metallic_pm: 0,
            reflectance_pm: 40,
            alpha_mode: AlphaMode::Opaque,
            emissive: Color { r: 0, g: 0, b: 0, a: 1000 },
        },
        stone: MaterialDesc {
            base_color: Color { r: 500, g: 500, b: 500, a: 1000 },
            texture: Some(TEX_STONE),
            roughness_pm: 950,
            metallic_pm: 0,
            reflectance_pm: 30,
            alpha_mode: AlphaMode::Opaque,
            emissive: Color { r: 0, g: 0, b: 0, a: 1000 },
        },
        glass: MaterialDesc {
            base_color: Color { r: 800, g: 950, b: 1000, a: 200 },
            texture: None,
            roughness_pm: 20,
            metallic_pm: 0,
            reflectance_pm: 80,
            alpha_mode: AlphaMode::Blend,
            emissive: Color { r: 0, g: 0, b: 0, a: 1000 },
        },
        water: MaterialDesc {
            base_color: Color { r: 200, g: 500, b: 1000, a: 400 },
            texture: Some(TEX_WATER),
            roughness_pm: 30,
            metallic_pm: 0,
            reflectance_pm: 200,
            alpha_mode: AlphaMode::Blend,
            emissive: Color { r: 0, g: 0, b: 0, a: 1000 },
        },
        metal: MaterialDesc {
            base_color: Color { r: 800, g: 820, b: 850, a: 1000 },
            texture: Some(TEX_METAL),
            roughness_pm: 150,
            metallic_pm: 950,
            reflectance_pm: 500,
            alpha_mode: AlphaMode::Opaque,
            emissive: Color { r: 0, g: 0, b: 0, a: 1000 },
        },
        lantern_glass: MaterialDesc {
            base_color: Color { r: 1000, g: 950, b: 800, a: 350 },
            texture: None,
            roughness_pm: 50,
            metallic_pm: 0,
            reflectance_pm: 500,
            alpha_mode: AlphaMode::Blend,
            emissive: Color { r: 300, g: 270, b: 180, a: 1000 },
        },
        sky: MaterialDesc {
            base_color: Color { r: 520, g: 750, b: 950, a: 1000 },
            texture: None,
            roughness_pm: 1000,
            metallic_pm: 0,
            reflectance_pm: 0,
            alpha_mode: AlphaMode::Opaque,
            emissive: Color { r: 0, g: 0, b: 0, a: 1000 },
        },
    };
    (textures, materials)
}

} // verus!
