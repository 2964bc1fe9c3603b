use jardin::materials::{add_materials, AlphaMode};
use jardin::player::Keys;
use jardin::scene::{rotate_diorama, setup_scene, DioramaRoot, MaterialKind, NodeKind,
    SCENE_NODE_COUNT};
use jardin::texture::{make_image, pixel_at, PatternRule};

fn held(f: impl Fn(&mut Keys)) -> Keys {
    let mut k = Keys::none();
    f(&mut k);
    k
}

#[test]
fn rotate_left_rate_is_exact() {
    let mut root = DioramaRoot { yaw_urad: 0 };
    let left = held(|k| k.rotate_left = true);
    // 0.8 radians per second, held for one second.
    rotate_diorama(&mut root, &left, 1_000);
    assert_eq!(root.yaw_urad, 800_000);
    rotate_diorama(&mut root, &left, 250);
    assert_eq!(root.yaw_urad, 800_000 + 200_000);
}

#[test]
fn rotate_right_subtracts() {
    let mut root = DioramaRoot { yaw_urad: 0 };
    let right = held(|k| k.rotate_right = true);
    rotate_diorama(&mut root, &right, 500);
    assert_eq!(root.yaw_urad, -400_000);
}

#[test]
fn both_rotate_keys_cancel() {
    let mut root = DioramaRoot { yaw_urad: 12_345 };
    let both = held(|k| {
        k.rotate_left = true;
        k.rotate_right = true;
    });
    rotate_diorama(&mut root, &both, 1_000);
    assert_eq!(root.yaw_urad, 12_345);
}

#[test]
fn released_keys_freeze_yaw() {
    let mut root = DioramaRoot { yaw_urad: -777 };
    let none = Keys::none();
    rotate_diorama(&mut root, &none, 1_000);
    assert_eq!(root.yaw_urad, -777);
}

#[test]
fn scene_builder_is_deterministic() {
    let a = setup_scene();
    let b = setup_scene();
    assert_eq!(a.nodes.len(), SCENE_NODE_COUNT);
    assert_eq!(a.nodes.len(), b.nodes.len());
    for j in 0..a.nodes.len() {
        assert_eq!(a.nodes[j], b.nodes[j]);
    }
}

#[test]
fn scene_catalog_counts_and_parents() {
    let s = setup_scene();
    assert_eq!(s.nodes.len(), 99);
    // the root is a bare group with no parent; the sun is the only other
    // unparented node; everything else hangs from the root.
    assert!(matches!(s.nodes[0].kind, NodeKind::Group));
    assert_eq!(s.nodes[0].parent, None);
    assert_eq!(s.nodes[98].parent, None);
    assert!(matches!(s.nodes[98].kind, NodeKind::DirectionalLight { illuminance: 26_000, shadows: true }));
    for j in 1..98 {
        assert_eq!(s.nodes[j].parent, Some(0));
    }
    let stones = s
        .nodes
        .iter()
        .filter(|n| matches!(n.kind, NodeKind::Mesh { material: MaterialKind::Stone, .. }))
        .count();
    // 62 path stones, 4 pond borders and 5 rocks are stone.
    assert_eq!(stones, 71);
}

#[test]
fn scene_key_transforms() {
    let s = setup_scene();
    // the pond slab: 6 x 0.2 x 4 units centered at (-6, 0.1, -3).
    let pond = &s.nodes[64];
    assert_eq!(pond.transform.translation.x, -6_000);
    assert_eq!(pond.transform.translation.y, 100);
    assert_eq!(pond.transform.translation.z, -3_000);
    assert_eq!(pond.transform.scale.x, 6_000);
    assert_eq!(pond.transform.scale.y, 200);
    assert_eq!(pond.transform.scale.z, 4_000);
    // the lantern's point light at (2.8, 1.35, -2.5) with range 14.
    let light = &s.nodes[96];
    assert!(matches!(light.kind, NodeKind::PointLight { intensity: 1400, range: 14_000, shadows: true }));
    assert_eq!(light.transform.translation.x, 2_800);
    assert_eq!(light.transform.translation.y, 1_350);
    assert_eq!(light.transform.translation.z, -2_500);
    // the sky dome is an inverted sphere.
    assert_eq!(s.nodes[97].transform.scale.x, -1_000);
    // path rows are 1.2 units apart: the first row sits at z = -18.
    assert_eq!(s.nodes[2].transform.translation.z, -18_000);
    assert_eq!(s.nodes[3].transform.translation.z, -18_000);
    assert_eq!(s.nodes[4].transform.translation.z, -16_800);
}

#[test]
fn texture_rules_are_deterministic() {
    for rule in [
        PatternRule::Grass,
        PatternRule::Wood,
        PatternRule::Stone,
        PatternRule::Water,
        PatternRule::Metal,
    ] {
        let a = pixel_at(&rule, 5, 7);
        let b = pixel_at(&rule, 5, 7);
        assert_eq!(a, b);
    }
}

#[test]
fn grass_checkerboard_cells() {
    let light = pixel_at(&PatternRule::Grass, 0, 0);
    assert_eq!((light.r, light.g, light.b, light.a), (46, 140, 64, 255));
    let dark = pixel_at(&PatternRule::Grass, 16, 0);
    assert_eq!((dark.r, dark.g, dark.b, dark.a), (38, 120, 56, 255));
    let light_again = pixel_at(&PatternRule::Grass, 16, 16);
    assert_eq!(light_again, light);
}

#[test]
fn stone_hash_fixed_values() {
    let p = pixel_at(&PatternRule::Stone, 0, 0);
    assert_eq!((p.r, p.g, p.b, p.a), (136, 136, 136, 255));
    let q = pixel_at(&PatternRule::Stone, 1, 0);
    assert_eq!(q.r, 157);
    let r = pixel_at(&PatternRule::Stone, 5, 7);
    assert_eq!(r.r, 123);
}

#[test]
fn wood_and_water_and_metal_values() {
    let w = pixel_at(&PatternRule::Wood, 0, 0);
    assert_eq!((w.r, w.g, w.b, w.a), (130, 86, 53, 255));
    let a = pixel_at(&PatternRule::Water, 0, 0);
    assert_eq!((a.r, a.g, a.b, a.a), (40, 142, 217, 160));
    let m0 = pixel_at(&PatternRule::Metal, 0, 3);
    assert_eq!((m0.r, m0.a), (200, 255));
    let m1 = pixel_at(&PatternRule::Metal, 1, 3);
    assert_eq!(m1.r, 196);
    let m8 = pixel_at(&PatternRule::Metal, 8, 3);
    assert_eq!(m8.r, 200);
}

#[test]
fn make_image_is_row_major() {
    let t = make_image(PatternRule::Grass, 32, 32);
    assert_eq!(t.width, 32);
    assert_eq!(t.height, 32);
    assert_eq!(t.data.len(), 32 * 32 * 4);
    for (x, y) in [(0u32, 0u32), (17, 3), (31, 31)] {
        let p = pixel_at(&PatternRule::Grass, x, y);
        let base = ((y * 32 + x) * 4) as usize;
        assert_eq!(t.data[base], p.r);
        assert_eq!(t.data[base + 1], p.g);
        assert_eq!(t.data[base + 2], p.b);
        assert_eq!(t.data[base + 3], p.a);
    }
}

#[test]
fn material_table_values() {
    let (textures, mats) = add_materials();
    assert_eq!(textures.len(), 5);
    assert_eq!(textures[0].width, 128);
    assert_eq!(textures[4].width, 64);
    assert_eq!(mats.grass.base_color.g, 550);
    assert_eq!(mats.grass.texture, Some(0));
    assert_eq!(mats.grass.roughness_pm, 900);
    assert!(matches!(mats.glass.alpha_mode, AlphaMode::Blend));
    assert_eq!(mats.glass.texture, None);
    assert_eq!(mats.metal.metallic_pm, 950);
    assert_eq!(mats.water.base_color.a, 400);
    assert_eq!(mats.lantern_glass.emissive.r, 300);
    assert!(matches!(mats.sky.alpha_mode, AlphaMode::Opaque));
}
