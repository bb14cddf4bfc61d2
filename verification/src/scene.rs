//! The static demo scene and the camera motion, as plain data.
//!
//! The underlying engine stores transforms, meshes and lights as
//! floating-point values that this crate cannot reason about, so the scene is
//! modelled here in exact integer units: lengths and translations in
//! thousandths of a world unit (`milli`), fixed orientations in thousandths
//! of a degree (`millideg`), and the camera's accumulated yaw in millionths
//! of a radian (`microrad`). A host converts these to the engine's own types
//! when it spawns the entities.

use vstd::prelude::*;

verus! {

/// An sRGB color with 8-bit channels.
#[derive(PartialEq, Eq, Structural, Clone, Copy, Debug)]
pub struct Srgb {
    pub red: u8,
    pub green: u8,
    pub blue: u8,
}

/// A point or extent in world space, in thousandths of a world unit.
#[derive(PartialEq, Eq, Structural, Clone, Copy, Debug)]
pub struct Vec3Milli {
    pub x: i64,
    pub y: i64,
    pub z: i64,
}

/// A world-space axis.
#[derive(PartialEq, Eq, Structural, Clone, Copy, Debug)]
pub enum Axis {
    X,
    Y,
    Z,
}

/// A rotation about one axis, in thousandths of a degree.
#[derive(PartialEq, Eq, Structural, Clone, Copy, Debug)]
pub struct RotationMillideg {
    pub axis: Axis,
    pub millideg: i64,
}

/// One entity of the static scene.
#[derive(PartialEq, Eq, Structural, Clone, Copy, Debug)]
pub enum SceneObject {
    /// A cuboid mesh with a solid color, placed at `translation`.
    Cube { size: Vec3Milli, color: Srgb, translation: Vec3Milli },
    /// A ground plane of `size_x` by `size_z` with a solid color, at the origin.
    Plane { size_x: i64, size_z: i64, color: Srgb },
    /// A directional light with a fixed orientation.
    Light { shadows_enabled: bool, translation: Vec3Milli, rotation: RotationMillideg },
}

/// The unit cube: one world unit on each side, half a unit above the origin.
pub open spec fn cube_object() -> SceneObject {
    SceneObject::Cube {
        size: Vec3Milli { x: 1000, y: 1000, z: 1000 },
        color: Srgb { red: 124, green: 144, blue: 255 },
        translation: Vec3Milli { x: 0, y: 500, z: 0 },
    }
}

/// The ground plane: five by five world units.
pub open spec fn plane_object() -> SceneObject {
    SceneObject::Plane { size_x: 5000, size_z: 5000, color: Srgb { red: 60, green: 130, blue: 60 } }
}

/// The directional light: two units up, tilted a quarter turn down about X,
/// with shadows enabled.
pub open spec fn light_object() -> SceneObject {
    SceneObject::Light {
        shadows_enabled: true,
        translation: Vec3Milli { x: 0, y: 2000, z: 0 },
        rotation: RotationMillideg { axis: Axis::X, millideg: -45000i64 },
    }
}

/// The whole static scene, in spawn order.
pub open spec fn scene_spec() -> Seq<SceneObject> {
    seq![cube_object(), plane_object(), light_object()]
}

/// Builds the static scene: one cube, one ground plane, one directional
/// light, each with the fixed values of [`scene_spec`].
pub fn setup_scene() -> (scene: Vec<SceneObject>)
    ensures
        scene@ == scene_spec(),
{
    let mut scene: Vec<SceneObject> = Vec::new();
    scene.push(SceneObject::Cube {
        size: Vec3Milli { x: 1000, y: 1000, z: 1000 },
        color: Srgb { red: 124, green: 144, blue: 255 },
        translation: Vec3Milli { x: 0, y: 500, z: 0 },
    });
    scene.push(SceneObject::Plane {
        size_x: 5000,
        size_z: 5000,
        color: Srgb { red: 60, green: 130, blue: 60 },
    });
    scene.push(SceneObject::Light {
        shadows_enabled: true,
        translation: Vec3Milli { x: 0, y: 2000, z: 0 },
        rotation: RotationMillideg { axis: Axis::X, millideg: -45000 },
    });
    proof {
        assert(scene@ =~= scene_spec());
    }
    scene
}

/// The object is a cube.
pub open spec fn is_cube(o: SceneObject) -> bool {
    o is Cube
}

/// The object is a plane.
pub open spec fn is_plane(o: SceneObject) -> bool {
    o is Plane
}

/// The object is a light.
pub open spec fn is_light(o: SceneObject) -> bool {
    o is Light
}

/// How many cubes the sequence holds.
pub open spec fn count_cubes(s: Seq<SceneObject>) -> int
    decreases s.len(),
{
    if s.len() == 0 {
        0
    } else {
        count_cubes(s.drop_last()) + if is_cube(s.last()) {
            1int
        } else {
            0int
        }
    }
}

/// How many planes the sequence holds.
pub open spec fn count_planes(s: Seq<SceneObject>) -> int
    decreases s.len(),
{
    if s.len() == 0 {
        0
    } else {
        count_planes(s.drop_last()) + if is_plane(s.last()) {
            1int
        } else {
            0int
        }
    }
}

/// How many lights the sequence holds.
pub open spec fn count_lights(s: Seq<SceneObject>) -> int
    decreases s.len(),
{
    if s.len() == 0 {
        0
    } else {
        count_lights(s.drop_last()) + if is_light(s.last()) {
            1int
        } else {
            0int
        }
    }
}

/// Law: the static scene holds exactly one cube, one plane and one light.
pub proof fn lemma_scene_counts()
    ensures
        count_cubes(scene_spec()) == 1,
        count_planes(scene_spec()) == 1,
        count_lights(scene_spec()) == 1,
{
    let s3 = scene_spec();
    let s2 = s3.drop_last();
    let s1 = s2.drop_last();
    let s0 = s1.drop_last();
    assert(s0 =~= Seq::<SceneObject>::empty());
    assert(count_cubes(s0) == 0);
    assert(count_planes(s0) == 0);
    assert(count_lights(s0) == 0);
    assert(s1.last() == cube_object());
    assert(s2.last() == plane_object());
    assert(s3.last() == light_object());
    assert(count_cubes(s1) == 1 && count_planes(s1) == 0 && count_lights(s1) == 0);
    assert(count_cubes(s2) == 1 && count_planes(s2) == 1 && count_lights(s2) == 0);
    assert(count_cubes(s3) == 1 && count_planes(s3) == 1 && count_lights(s3) == 1);
}

/// The camera's accumulated yaw about the world Y axis, in millionths of a
/// radian.
#[derive(PartialEq, Eq, Structural, Clone, Copy, Debug)]
pub struct CameraYaw {
    pub microrad: u64,
}

/// The yaw the camera gains over one frame: half a radian per second, so
/// half a microradian per microsecond of elapsed time, rounded down.
pub open spec fn rotation_step_microrad(delta_micros: u64) -> int {
    delta_micros as int / 2
}

/// Advances the camera's yaw about the world origin by half a radian per
/// elapsed second, the per-frame camera rotation of the demo scene.
pub fn rotate_camera(yaw: &mut CameraYaw, delta_micros: u64)
    requires
        old(yaw).microrad + rotation_step_microrad(delta_micros) <= u64::MAX,
    ensures
        final(yaw).microrad == old(yaw).microrad + rotation_step_microrad(delta_micros),
{
    yaw.microrad = yaw.microrad + delta_micros / 2;
}

} // verus!
