//! The diorama root and the scene rotator: while the rotate-left key is
//! held the root yaw grows at a fixed rate, while rotate-right is held it
//! shrinks at the same rate, and when both or neither are held nothing
//! moves. Yaw is stored in microradians so the integration over a frame
//! time in milliseconds is an exact product.

use vstd::prelude::*;

use crate::player::{div_trunc, div_trunc_spec, key_val, lemma_mul_bound, Keys, DT_MAX};
use crate::trig::{sin_milli, sin_milli_spec};

verus! {

/// Rotation rate of the diorama root, in microradians per millisecond
/// (0.8 radians per second).
pub const ROT_RATE_URAD_PER_MS: i64 = 800;

/// Largest root yaw magnitude, in microradians, at which another rotation
/// step is admitted without risking machine overflow.
pub const ROOT_YAW_ABS_MAX: i64 = 0x2000_0000_0000_0000;

/// The single root transform every scene object hangs from; its yaw, in
/// microradians, accumulates across frames and is never reset.
#[derive(Clone, Copy, Debug, PartialEq, Eq, Structural)]
pub struct DioramaRoot {
    pub yaw_urad: i64,
}

/// The net signed rotation rate asked for by the held keys, in
/// microradians per millisecond: +800 for rotate-left alone, -800 for
/// rotate-right alone, 0 when both or neither are held.
pub open spec fn rot_rate(keys: Keys) -> int {
    ROT_RATE_URAD_PER_MS * (key_val(keys.rotate_left) - key_val(keys.rotate_right))
}

/// One frame of the scene rotator: the root yaw grows by the net rate
/// times the elapsed milliseconds, exactly; a zero net rate touches
/// nothing.
pub fn rotate_diorama(root: &mut DioramaRoot, keys: &Keys, dt_ms: i64)
    requires
        0 <= dt_ms <= DT_MAX,
        -ROOT_YAW_ABS_MAX <= old(root).yaw_urad <= ROOT_YAW_ABS_MAX,
    ensures
        final(root).yaw_urad == old(root).yaw_urad + rot_rate(*keys) * dt_ms,
{
    let mut net: i64 = 0;
    if keys.rotate_left {
        net = net + ROT_RATE_URAD_PER_MS;
    }
    if keys.rotate_right {
        net = net - ROT_RATE_URAD_PER_MS;
    }
    if net == 0 {
        proof {
            assert(rot_rate(*keys) * dt_ms == 0) by (nonlinear_arith)
                requires
                    rot_rate(*keys) == 0,
            ;
        }
        return ;
    }
    proof {
        lemma_mul_bound(net as int, ROT_RATE_URAD_PER_MS as int, dt_ms as int, DT_MAX as int);
    }
    root.yaw_urad = root.yaw_urad + net * dt_ms;
}

/// The root yaw after folding the rotator over a whole run of frames, each
/// a pair of the keys held and the frame time in milliseconds.
pub open spec fn root_yaw_after(y0: int, frames: Seq<(Keys, int)>) -> int
    decreases frames.len(),
{
    if frames.len() == 0 {
        y0
    } else {
        root_yaw_after(y0, frames.drop_last()) + rot_rate(frames.last().0) * frames.last().1
    }
}

/// The total frame time of a run, in milliseconds.
pub open spec fn total_time(frames: Seq<(Keys, int)>) -> int
    decreases frames.len(),
{
    if frames.len() == 0 {
        0
    } else {
        total_time(frames.drop_last()) + frames.last().1
    }
}

/// Holding only rotate-left for a whole run turns the root by exactly
/// +800 microradians (0.8 radians per second) per millisecond of total
/// frame time, whatever the frame boundaries.
pub proof fn lemma_rotate_left_rate(y0: int, frames: Seq<(Keys, int)>)
    requires
        forall|i: int|
            0 <= i < frames.len() ==> #[trigger] frames[i].0.rotate_left
                && !frames[i].0.rotate_right,
    ensures
        root_yaw_after(y0, frames) == y0 + 800 * total_time(frames),
    decreases frames.len(),
{
    if frames.len() > 0 {
        lemma_rotate_left_rate(y0, frames.drop_last());
        assert(frames.last() == frames[frames.len() - 1]);
        assert(rot_rate(frames.last().0) == 800);
        assert(800 * (total_time(frames.drop_last()) + frames.last().1) == 800 * total_time(
            frames.drop_last(),
        ) + 800 * frames.last().1) by (nonlinear_arith);
    }
}

/// A frame whose keys hold both rotate keys, or neither, changes nothing:
/// opposite rates cancel, and released keys freeze the yaw at its last
/// value.
pub proof fn lemma_rotate_balanced_frozen(y0: int, frames: Seq<(Keys, int)>)
    requires
        forall|i: int|
            0 <= i < frames.len() ==> #[trigger] frames[i].0.rotate_left
                == frames[i].0.rotate_right,
    ensures
        root_yaw_after(y0, frames) == y0,
    decreases frames.len(),
{
    if frames.len() > 0 {
        lemma_rotate_balanced_frozen(y0, frames.drop_last());
        assert(frames.last() == frames[frames.len() - 1]);
        assert(rot_rate(frames.last().0) == 0);
        assert(rot_rate(frames.last().0) * frames.last().1 == 0) by (nonlinear_arith)
            requires
                rot_rate(frames.last().0) == 0,
        ;
    }
}

/// A 3D vector in milliunits (or milliradians for rotations).
#[derive(Clone, Copy, Debug, PartialEq, Eq, Structural)]
pub struct Vec3Milli {
    pub x: i64,
    pub y: i64,
    pub z: i64,
}

/// A local transform: translation in milliunits, rotation as XYZ Euler
/// angles in milliradians, scale in per-mille.
#[derive(Clone, Copy, Debug, PartialEq, Eq, Structural)]
pub struct Transform {
    pub translation: Vec3Milli,
    pub rotation_mrad: Vec3Milli,
    pub scale: Vec3Milli,
}

/// The primitive meshes the catalog places; lengths in milliunits.
#[derive(Clone, Copy, Debug, PartialEq, Eq, Structural)]
pub enum MeshShape {
    Plane { size: i64, subdivisions: u32 },
    Cube { size: i64 },
    Cylinder { radius: i64, height: i64, resolution: u32, segments: u32 },
    UvSphere { radius: i64, sectors: u32, stacks: u32 },
}

/// The material a scene object refers to, by its name in the table.
#[derive(Clone, Copy, Debug, PartialEq, Eq, Structural)]
pub enum MaterialKind {
    Grass,
    Wood,
    Stone,
    Glass,
    Water,
    Metal,
    LanternGlass,
    Sky,
}

/// What a scene node is: the bare group at the root, a mesh with a
/// material, or one of the two lights (intensity and illuminance as the
/// host engine counts them, range in milliunits).
#[derive(Clone, Copy, Debug, PartialEq, Eq, Structural)]
pub enum NodeKind {
    Group,
    Mesh { shape: MeshShape, material: MaterialKind },
    PointLight { intensity: u32, range: i64, shadows: bool },
    DirectionalLight { illuminance: u32, shadows: bool },
}

/// One object of the scene: its kind, its local transform, and its parent
/// by index into the arena (the diorama root for nearly everything).
#[derive(Clone, Copy, Debug, PartialEq, Eq, Structural)]
pub struct Node {
    pub kind: NodeKind,
    pub transform: Transform,
    pub parent: Option<usize>,
}

/// The whole object arena: index 0 is the diorama root.
pub struct Scene {
    pub nodes: Vec<Node>,
}

/// How many nodes the catalog holds: the root, the ground, 62 path
/// stones, the pond and its 4 borders, 4 trees of 4 parts, 5 rocks, the
/// 3-piece gate, the 4-piece lantern, the sky dome and the sun.
pub const SCENE_NODE_COUNT: usize = 99;

/// The identity rotation and unit scale around a translation.
pub open spec fn plain_xform(tx: i64, ty: i64, tz: i64) -> Transform {
    Transform {
        translation: Vec3Milli { x: tx, y: ty, z: tz },
        rotation_mrad: Vec3Milli { x: 0, y: 0, z: 0 },
        scale: Vec3Milli { x: 1000, y: 1000, z: 1000 },
    }
}

/// A mesh node parented to the root, with no rotation.
pub open spec fn mesh_node(
    shape: MeshShape,
    material: MaterialKind,
    tx: i64,
    ty: i64,
    tz: i64,
    sx: i64,
    sy: i64,
    sz: i64,
) -> Node {
    Node {
        kind: NodeKind::Mesh { shape, material },
        transform: Transform {
            translation: Vec3Milli { x: tx, y: ty, z: tz },
            rotation_mrad: Vec3Milli { x: 0, y: 0, z: 0 },
            scale: Vec3Milli { x: sx, y: sy, z: sz },
        },
        parent: Some(0),
    }
}

/// Builds a mesh node parented to the root, with no rotation.
pub fn mk_mesh_node(
    shape: MeshShape,
    material: MaterialKind,
    tx: i64,
    ty: i64,
    tz: i64,
    sx: i64,
    sy: i64,
    sz: i64,
) -> (n: Node)
    ensures
        n == mesh_node(shape, material, tx, ty, tz, sx, sy, sz),
{
    Node {
        kind: NodeKind::Mesh { shape, material },
        transform: Transform {
            translation: Vec3Milli { x: tx, y: ty, z: tz },
            rotation_mrad: Vec3Milli { x: 0, y: 0, z: 0 },
            scale: Vec3Milli { x: sx, y: sy, z: sz },
        },
        parent: Some(0),
    }
}

/// The lateral offset of a path stone, in milliunits: the side picks
/// ±0.7 units, and a small sine of the row index curves the path.
pub open spec fn path_x_spec(j: int) -> int {
    let i = (j - 2) / 2 - 15;
    let side = (j - 2) % 2;
    (if side == 0 {
        -700int
    } else {
        700int
    }) + div_trunc_spec(sin_milli_spec(i * 50) * 300, 1000)
}

/// The forward position of a path stone, in milliunits: rows 1.2 units
/// apart.
pub open spec fn path_z_spec(j: int) -> int {
    ((j - 2) / 2 - 15) * 1200
}

/// The four pond border slabs: offset and size of each, in milliunits.
pub open spec fn border_params(b: int) -> (int, int, int, int) {
    if b == 0 {
        (0, -2150, 6300, 300)
    } else if b == 1 {
        (0, 2150, 6300, 300)
    } else if b == 2 {
        (-3150, 0, 300, 4300)
    } else {
        (3150, 0, 300, 4300)
    }
}

/// Where each of the four trees stands, in milliunits.
pub open spec fn tree_pos(t: int) -> (int, int) {
    if t == 0 {
        (6000, -6000)
    } else if t == 1 {
        (10000, 2000)
    } else if t == 2 {
        (-10000, 6000)
    } else {
        (0, -10000)
    }
}

/// Height and scale of each of the three crown spheres of a tree.
pub open spec fn crown_params(k: int) -> (int, int) {
    if k == 0 {
        (2200, 1800)
    } else if k == 1 {
        (3000, 1400)
    } else {
        (3600, 1100)
    }
}

/// Position and size of each of the five decorative rocks, in
/// milliunits.
pub open spec fn rock_params(r: int) -> (int, int, int) {
    if r == 0 {
        (-3000, 4000, 600)
    } else if r == 1 {
        (-4500, 5200, 900)
    } else if r == 2 {
        (-2000, 3200, 400)
    } else if r == 3 {
        (3000, -2000, 700)
    } else {
        (5000, -4000, 500)
    }
}

/// One path stone: a flattened stone cube on the curved double row.
pub open spec fn path_stone_node(j: int) -> Node {
    mesh_node(
        MeshShape::Cube { size: 1000 },
        MaterialKind::Stone,
        path_x_spec(j) as i64,
        50,
        path_z_spec(j) as i64,
        1200,
        100,
        800,
    )
}

/// One tree part: the trunk cylinder or one of three crown spheres.
pub open spec fn tree_node(j: int) -> Node {
    let t = (j - 69) / 4;
    let k = (j - 69) % 4;
    let (px, pz) = tree_pos(t);
    if k == 0 {
        mesh_node(
            MeshShape::Cylinder { radius: 250, height: 2000, resolution: 20, segments: 1 },
            MaterialKind::Wood,
            px as i64,
            1000,
            pz as i64,
            1000,
            1000,
            1000,
        )
    } else {
        let (dy, s) = crown_params(k - 1);
        mesh_node(
            MeshShape::UvSphere { radius: 500, sectors: 16, stacks: 10 },
            MaterialKind::Grass,
            px as i64,
            dy as i64,
            pz as i64,
            s as i64,
            s as i64,
            s as i64,
        )
    }
}

/// One decorative rock: a squashed, slightly rotated sphere.
pub open spec fn rock_node(j: int) -> Node {
    let (rx, rz, s) = rock_params(j - 85);
    Node {
        kind: NodeKind::Mesh {
            shape: MeshShape::UvSphere { radius: 500, sectors: 16, stacks: 10 },
            material: MaterialKind::Stone,
        },
        transform: Transform {
            translation: Vec3Milli { x: rx as i64, y: (s / 2) as i64, z: rz as i64 },
            rotation_mrad: Vec3Milli { x: 200, y: 400, z: 100 },
            scale: Vec3Milli { x: ((s * 14) / 10) as i64, y: s as i64, z: s as i64 },
        },
        parent: Some(0),
    }
}

/// One pond border slab.
pub open spec fn border_node(j: int) -> Node {
    let (dx, dz, sx, sz) = border_params(j - 65);
    mesh_node(
        MeshShape::Cube { size: 1000 },
        MaterialKind::Stone,
        (-6000 + dx) as i64,
        500,
        (-3000 + dz) as i64,
        sx as i64,
        400,
        sz as i64,
    )
}

/// The node at each index of the catalog: the root group first, then the
/// ground, the path, the pond and borders, the trees, the rocks, the
/// gate, the lantern with its light, the sky dome, and last the sun,
/// which is fixed in the world and not parented to the root.
pub open spec fn scene_node(j: int) -> Node {
    if j == 0 {
        Node { kind: NodeKind::Group, transform: plain_xform(0, 0, 0), parent: None }
    } else if j == 1 {
        mesh_node(
            MeshShape::Plane { size: 60_000, subdivisions: 1 },
            MaterialKind::Grass,
            0,
            0,
            0,
            1000,
            1000,
            1000,
        )
    } else if j < 64 {
        path_stone_node(j)
    } else if j == 64 {
        mesh_node(
            MeshShape::Cube { size: 1000 },
            MaterialKind::Water,
            -6000i64,
            100,
            -3000i64,
            6000,
            200,
            4000,
        )
    } else if j < 69 {
        border_node(j)
    } else if j < 85 {
        tree_node(j)
    } else if j < 90 {
        rock_node(j)
    } else if j == 90 {
        mesh_node(MeshShape::Cube { size: 1000 }, MaterialKind::Wood, -1200i64, 1500, -8000i64, 300, 3000, 300)
    } else if j == 91 {
        mesh_node(MeshShape::Cube { size: 1000 }, MaterialKind::Wood, 1200, 1500, -8000i64, 300, 3000, 300)
    } else if j == 92 {
        mesh_node(MeshShape::Cube { size: 1000 }, MaterialKind::Wood, 0, 3200, -8000i64, 3200, 300, 500)
    } else if j == 93 {
        mesh_node(MeshShape::Cube { size: 1000 }, MaterialKind::Wood, 2800, 500, -2500i64, 300, 1000, 300)
    } else if j == 94 {
        mesh_node(MeshShape::Cube { size: 1000 }, MaterialKind::Metal, 2800, 1050, -2500i64, 400, 50, 400)
    } else if j == 95 {
        mesh_node(
            MeshShape::Cube { size: 1000 },
            MaterialKind::LanternGlass,
            2800,
            1350,
            -2500i64,
            800,
            800,
            800,
        )
    } else if j == 96 {
        Node {
            kind: NodeKind::PointLight { intensity: 1400, range: 14_000, shadows: true },
            transform: plain_xform(2800, 1350, -2500i64),
            parent: Some(0),
        }
    } else if j == 97 {
        Node {
            kind: NodeKind::Mesh {
                shape: MeshShape::UvSphere { radius: 200_000, sectors: 32, stacks: 16 },
                material: MaterialKind::Sky,
            },
            transform: Transform {
                translation: Vec3Milli { x: 0, y: 0, z: 0 },
                rotation_mrad: Vec3Milli { x: 0, y: 0, z: 0 },
                scale: Vec3Milli { x: -1000i64, y: 1000, z: 1000 },
            },
            parent: Some(0),
        }
    } else {
        Node {
            kind: NodeKind::DirectionalLight { illuminance: 26_000, shadows: true },
            transform: Transform {
                translation: Vec3Milli { x: 0, y: 0, z: 0 },
                rotation_mrad: Vec3Milli { x: -1000i64, y: 700, z: 0 },
                scale: Vec3Milli { x: 1000, y: 1000, z: 1000 },
            },
            parent: None,
        }
    }
}

/// A node sequence is exactly the fixed catalog.
pub open spec fn is_catalog(s: Seq<Node>) -> bool {
    &&& s.len() == SCENE_NODE_COUNT
    &&& forall|j: int| 0 <= j < s.len() ==> s[j] == #[trigger] scene_node(j)
}

/// Builds the catalog node at index `j`.
fn build_node(j: usize) -> (n: Node)
    requires
        j < SCENE_NODE_COUNT,
    ensures
        n == scene_node(j as int),
{
    if j == 0 {
        Node {
            kind: NodeKind::Group,
            transform: Transform {
                translation: Vec3Milli { x: 0, y: 0, z: 0 },
                rotation_mrad: Vec3Milli { x: 0, y: 0, z: 0 },
                scale: Vec3Milli { x: 1000, y: 1000, z: 1000 },
            },
            parent: None,
        }
    } else if j == 1 {
        mk_mesh_node(
            MeshShape::Plane { size: 60_000, subdivisions: 1 },
            MaterialKind::Grass,
            0,
            0,
            0,
            1000,
            1000,
            1000,
        )
    } else if j < 64 {
        let rel: usize = j - 2;
        let i: i64 = (rel / 2) as i64 - 15;
        let side: usize = rel % 2;
        let s: i64 = sin_milli(i * 50);
        let off: i64 = div_trunc(s * 300, 1000);
        let base: i64 = if side == 0 {
            -700
        } else {
            700
        };
        mk_mesh_node(
            MeshShape::Cube { size: 1000 },
            MaterialKind::Stone,
            base + off,
            50,
            i * 1200,
            1200,
            100,
            800,
        )
    } else if j == 64 {
        mk_mesh_node(
            MeshShape::Cube { size: 1000 },
            MaterialKind::Water,
            -6000,
            100,
            -3000,
            6000,
            200,
            4000,
        )
    } else if j < 69 {
        let b: usize = j - 65;
        let (dx, dz, sx, sz): (i64, i64, i64, i64) = if b == 0 {
            (0, -2150, 6300, 300)
        } else if b == 1 {
            (0, 2150, 6300, 300)
        } else if b == 2 {
            (-3150, 0, 300, 4300)
        } else {
            (3150, 0, 300, 4300)
        };
        mk_mesh_node(
            MeshShape::Cube { size: 1000 },
            MaterialKind::Stone,
            -6000 + dx,
            500,
            -3000 + dz,
            sx,
            400,
            sz,
        )
    } else if j < 85 {
        let rel: usize = j - 69;
        let t: usize = rel / 4;
        let k: usize = rel % 4;
        let (px, pz): (i64, i64) = if t == 0 {
            (6000, -6000)
        } else if t == 1 {
            (10000, 2000)
        } else if t == 2 {
            (-10000, 6000)
        } else {
            (0, -10000)
        };
        if k == 0 {
            mk_mesh_node(
                MeshShape::Cylinder { radius: 250, height: 2000, resolution: 20, segments: 1 },
                MaterialKind::Wood,
                px,
                1000,
                pz,
                1000,
                1000,
                1000,
            )
        } else {
            let (dy, sc): (i64, i64) = if k == 1 {
                (2200, 1800)
            } else if k == 2 {
                (3000, 1400)
            } else {
                (3600, 1100)
            };
            mk_mesh_node(
                MeshShape::UvSphere { radius: 500, sectors: 16, stacks: 10 },
                MaterialKind::Grass,
                px,
                dy,
                pz,
                sc,
                sc,
                sc,
            )
        }
    } else if j < 90 {
        let r: usize = j - 85;
        let (rx, rz, s): (i64, i64, i64) = if r == 0 {
            (-3000, 4000, 600)
        } else if r == 1 {
            (-4500, 5200, 900)
        } else if r == 2 {
            (-2000, 3200, 400)
        } else if r == 3 {
            (3000, -2000, 700)
        } else {
            (5000, -4000, 500)
        };
        Node {
            kind: NodeKind::Mesh {
                shape: MeshShape::UvSphere { radius: 500, sectors: 16, stacks: 10 },
                material: MaterialKind::Stone,
            },
            transform: Transform {
                translation: Vec3Milli { x: rx, y: s / 2, z: rz },
                rotation_mrad: Vec3Milli { x: 200, y: 400, z: 100 },
                scale: Vec3Milli { x: (s * 14) / 10, y: s, z: s },
            },
            parent: Some(0),
        }
    } else if j == 90 {
        mk_mesh_node(MeshShape::Cube { size: 1000 }, MaterialKind::Wood, -1200, 1500, -8000, 300, 3000, 300)
    } else if j == 91 {
        mk_mesh_node(MeshShape::Cube { size: 1000 }, MaterialKind::Wood, 1200, 1500, -8000, 300, 3000, 300)
    } else if j == 92 {
        mk_mesh_node(MeshShape::Cube { size: 1000 }, MaterialKind::Wood, 0, 3200, -8000, 3200, 300, 500)
    } else if j == 93 {
        mk_mesh_node(MeshShape::Cube { size: 1000 }, MaterialKind::Wood, 2800, 500, -2500, 300, 1000, 300)
    } else if j == 94 {
        mk_mesh_node(MeshShape::Cube { size: 1000 }, MaterialKind::Metal, 2800, 1050, -2500, 400, 50, 400)
    } else if j == 95 {
        mk_mesh_node(
            MeshShape::Cube { size: 1000 },
            MaterialKind::LanternGlass,
            2800,
            1350,
            -2500,
            800,
            800,
            800,
        )
    } else if j == 96 {
        Node {
            kind: NodeKind::PointLight { intensity: 1400, range: 14_000, shadows: true },
            transform: Transform {
                translation: Vec3Milli { x: 2800, y: 1350, z: -2500 },
                rotation_mrad: Vec3Milli { x: 0, y: 0, z: 0 },
                scale: Vec3Milli { x: 1000, y: 1000, z: 1000 },
            },
            parent: Some(0),
        }
    } else if j == 97 {
        Node {
            kind: NodeKind::Mesh {
                shape: MeshShape::UvSphere { radius: 200_000, sectors: 32, stacks: 16 },
                material: MaterialKind::Sky,
            },
            transform: Transform {
                translation: Vec3Milli { x: 0, y: 0, z: 0 },
                rotation_mrad: Vec3Milli { x: 0, y: 0, z: 0 },
                scale: Vec3Milli { x: -1000, y: 1000, z: 1000 },
            },
            parent: Some(0),
        }
    } else {
        Node {
            kind: NodeKind::DirectionalLight { illuminance: 26_000, shadows: true },
            transform: Transform {
                translation: Vec3Milli { x: 0, y: 0, z: 0 },
                rotation_mrad: Vec3Milli { x: -1000, y: 700, z: 0 },
                scale: Vec3Milli { x: 1000, y: 1000, z: 1000 },
            },
            parent: None,
        }
    }
}

/// Builds the whole fixed catalog under the diorama root: the same call
/// always yields the same arena, node for node.
pub fn setup_scene() -> (scene: Scene)
    ensures
        is_catalog(scene.nodes@),
{
    let mut nodes: Vec<Node> = Vec::new();
    let mut j: usize = 0;
    while j < SCENE_NODE_COUNT
        invariant
            0 <= j <= SCENE_NODE_COUNT,
            nodes@.len() == j,
            forall|k: int| 0 <= k < j ==> nodes@[k] == #[trigger] scene_node(k),
        decreases SCENE_NODE_COUNT - j,
    {
        let n = build_node(j);
        nodes.push(n);
        j = j + 1;
    }
    Scene { nodes }
}

/// The Scene Builder is deterministic: any two arenas that are the
/// catalog are the same arena, node for node — building twice yields
/// structurally identical counts, transforms and parent links.
pub proof fn lemma_scene_builder_deterministic(a: Seq<Node>, b: Seq<Node>)
    requires
        is_catalog(a),
        is_catalog(b),
    ensures
        a == b,
{
    assert forall|i: int| 0 <= i < a.len() implies a[i] == b[i] by {
        assert(a[i] == scene_node(i));
        assert(b[i] == scene_node(i));
    }
    assert(a =~= b);
}

} // verus!
