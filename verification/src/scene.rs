use vstd::prelude::*;
use crate::material::{LambertMaterial, LightMaterial, MaterialSettings};
use crate::vec3::Vec3Bits;

verus! {

/// Bit pattern of 4/5: x component of the light's spawn position.
pub const LIGHT_START_X: u32 = 0x3F4CCCCD;
/// Bit pattern of 1: y component of the light's spawn position.
pub const LIGHT_START_Y: u32 = 0x3F800000;
/// Bit pattern of 1/2: z component of the light's spawn position.
pub const LIGHT_START_Z: u32 = 0x3F000000;
/// Bit pattern of 1/2: the cube sits half a unit above the origin.
pub const CUBE_POS_Y: u32 = 0x3F000000;
/// Bit pattern of -2: x component of the camera position.
pub const CAMERA_POS_X: u32 = 0xC0000000;
/// Bit pattern of 5/2: y component of the camera position.
pub const CAMERA_POS_Y: u32 = 0x40200000;
/// Bit pattern of 5: z component of the camera position.
pub const CAMERA_POS_Z: u32 = 0x40A00000;
/// Bit pattern of 1/10: radius of the light-visualization sphere.
pub const MARKER_RADIUS: u32 = 0x3DCCCCCD;

/// Zero-size marker singling out the entity whose transform is the
/// light's world-space position.
#[derive(Clone, Copy, PartialEq, Eq, Debug)]
pub struct Light;

/// Placement of an entity. Only the translation matters here: the one
/// rotation the scene fixes (the camera's) never feeds back into any
/// rule modelled in this library.
#[derive(Clone, Copy, PartialEq, Eq, Debug)]
pub struct Transform {
    pub translation: Vec3Bits,
}

/// The mesh assets this scene allocates.
#[derive(Clone, Copy, PartialEq, Eq, Debug)]
pub enum Mesh {
    /// A unit cube.
    Cuboid,
    /// A sphere; the radius is an IEEE-754 single-precision bit pattern.
    Sphere { radius: u32 },
}

/// One live entity: the components this scene can attach to it. Mesh
/// and material components are handles (indices) into the owning
/// world's asset tables.
#[derive(Clone, Copy, PartialEq, Eq, Debug)]
pub struct Entity {
    pub mesh: Option<usize>,
    pub lambert_material: Option<usize>,
    pub light_material: Option<usize>,
    pub point_light: bool,
    pub camera: bool,
    pub light_tag: Option<Light>,
    pub transform: Transform,
}

/// The tables the host engine owns for this scene: the mesh assets, one
/// table per material type, and the live entities.
pub struct World {
    pub meshes: Vec<Mesh>,
    pub lambert_materials: Vec<LambertMaterial>,
    pub light_materials: Vec<LightMaterial>,
    pub entities: Vec<Entity>,
}

/// The components that the bootstrap guarantees and the per-frame rule
/// select entities by.
pub enum Component {
    LightTag,
    Lambert,
    Marker,
    PointLight,
    Camera,
}

/// Whether entity `e` carries component `c`.
pub open spec fn has_component(e: Entity, c: Component) -> bool {
    match c {
        Component::LightTag => e.light_tag is Some,
        Component::Lambert => e.lambert_material is Some,
        Component::Marker => e.light_material is Some,
        Component::PointLight => e.point_light,
        Component::Camera => e.camera,
    }
}

/// How many entities of `s` carry component `c`.
pub open spec fn count_with(s: Seq<Entity>, c: Component) -> nat
    decreases s.len(),
{
    if s.len() == 0 {
        0
    } else {
        count_with(s.drop_last(), c) + (if has_component(s.last(), c) {
            1nat
        } else {
            0nat
        })
    }
}

/// How many entities of `s` carry the light tag.
pub open spec fn count_tagged(s: Seq<Entity>) -> nat {
    count_with(s, Component::LightTag)
}

/// Translation of the last tagged entity of `s`; the value is only
/// meaningful when exactly one entity carries the tag.
pub open spec fn light_translation(s: Seq<Entity>) -> Vec3Bits
    decreases s.len(),
{
    if s.len() == 0 {
        Vec3Bits { x: 0, y: 0, z: 0 }
    } else if has_component(s.last(), Component::LightTag) {
        s.last().transform.translation
    } else {
        light_translation(s.drop_last())
    }
}

/// The light's spawn position, shared by the marker entity's transform
/// and the Lambert material's initial `light_pos`.
pub open spec fn initial_light_pos() -> Vec3Bits {
    Vec3Bits { x: LIGHT_START_X, y: LIGHT_START_Y, z: LIGHT_START_Z }
}

/// The cube entity as bootstrap spawns it: cube mesh, Lambert material,
/// raised half a unit above the origin. `mesh` and `material` are the
/// handles the two allocations returned.
pub open spec fn cube_entity(mesh: usize, material: usize) -> Entity {
    Entity {
        mesh: Some(mesh),
        lambert_material: Some(material),
        light_material: None,
        point_light: false,
        camera: false,
        light_tag: None,
        transform: Transform { translation: Vec3Bits { x: 0, y: CUBE_POS_Y, z: 0 } },
    }
}

/// The point-light entity as bootstrap spawns it: engine-default light
/// parameters, transform left at the origin.
pub open spec fn point_light_entity() -> Entity {
    Entity {
        mesh: None,
        lambert_material: None,
        light_material: None,
        point_light: true,
        camera: false,
        light_tag: None,
        transform: Transform { translation: Vec3Bits { x: 0, y: 0, z: 0 } },
    }
}

/// The camera entity as bootstrap spawns it, at its fixed position
/// looking at the origin.
pub open spec fn camera_entity() -> Entity {
    Entity {
        mesh: None,
        lambert_material: None,
        light_material: None,
        point_light: false,
        camera: true,
        light_tag: None,
        transform: Transform {
            translation: Vec3Bits { x: CAMERA_POS_X, y: CAMERA_POS_Y, z: CAMERA_POS_Z },
        },
    }
}

/// The light-visualization entity as bootstrap spawns it: small sphere,
/// marker material, the light tag, and a transform at the light's spawn
/// position.
pub open spec fn light_marker_entity(mesh: usize, material: usize) -> Entity {
    Entity {
        mesh: Some(mesh),
        lambert_material: None,
        light_material: Some(material),
        point_light: false,
        camera: false,
        light_tag: Some(Light),
        transform: Transform { translation: initial_light_pos() },
    }
}

/// Appending an entity raises each component count by one exactly when
/// the entity carries that component.
pub proof fn lemma_count_with_push(s: Seq<Entity>, e: Entity)
    ensures
        forall|c: Component| #[trigger] count_with(s.push(e), c) == count_with(s, c) + (if has_component(e, c) {
            1nat
        } else {
            0nat
        }),
{
    assert(s.push(e).drop_last() =~= s);
}

/// An entity that carries component `c` makes that component's count
/// positive.
pub proof fn lemma_count_with_positive(s: Seq<Entity>, c: Component, i: int)
    requires
        0 <= i < s.len(),
        has_component(s[i], c),
    ensures
        count_with(s, c) >= 1,
    decreases s.len(),
{
    if i == s.len() - 1 {
    } else {
        assert(s.drop_last()[i] == s[i]);
        lemma_count_with_positive(s.drop_last(), c, i);
    }
}

/// If exactly one entity carries the light tag, the synchronized
/// position is that entity's translation: `light_translation` picks the
/// tagged entity, wherever it sits in the table.
pub proof fn lemma_light_translation_of_single(s: Seq<Entity>, i: int)
    requires
        count_tagged(s) == 1,
        0 <= i < s.len(),
        has_component(s[i], Component::LightTag),
    ensures
        light_translation(s) == s[i].transform.translation,
    decreases s.len(),
{
    if i == s.len() - 1 {
    } else {
        assert(s.drop_last()[i] == s[i]);
        if has_component(s.last(), Component::LightTag) {
            lemma_count_with_positive(s.drop_last(), Component::LightTag, i);
            assert(false);
        }
        lemma_light_translation_of_single(s.drop_last(), i);
    }
}

impl World {
    /// An empty world: no meshes, no materials, no entities.
    pub fn new() -> (w: World)
        ensures
            w.meshes@.len() == 0,
            w.lambert_materials@.len() == 0,
            w.light_materials@.len() == 0,
            w.entities@.len() == 0,
    {
        World {
            meshes: Vec::new(),
            lambert_materials: Vec::new(),
            light_materials: Vec::new(),
            entities: Vec::new(),
        }
    }
}

/// First bootstrap step: allocates the cube mesh and a Lambert material
/// whose `color` is the externally configured one and whose `light_pos`
/// is the light's spawn position, then spawns the cube, a point light
/// with engine-default parameters, and the fixed camera.
pub fn setup(world: &mut World, settings: &MaterialSettings)
    ensures
        final(world).meshes@ == old(world).meshes@.push(Mesh::Cuboid),
        final(world).lambert_materials@ == old(world).lambert_materials@.push(
            (LambertMaterial { color: settings.color, light_pos: initial_light_pos() }),
        ),
        final(world).light_materials@ == old(world).light_materials@,
        final(world).entities@ == old(world).entities@.push(
            cube_entity(old(world).meshes.len(), old(world).lambert_materials.len()),
        ).push(point_light_entity()).push(camera_entity()),
{
    let cube_mesh = world.meshes.len();
    world.meshes.push(Mesh::Cuboid);
    let cube_material = world.lambert_materials.len();
    world.lambert_materials.push(LambertMaterial {
        color: settings.color,
        light_pos: Vec3Bits { x: LIGHT_START_X, y: LIGHT_START_Y, z: LIGHT_START_Z },
    });
    world.entities.push(Entity {
        mesh: Some(cube_mesh),
        lambert_material: Some(cube_material),
        light_material: None,
        point_light: false,
        camera: false,
        light_tag: None,
        transform: Transform { translation: Vec3Bits { x: 0, y: CUBE_POS_Y, z: 0 } },
    });
    world.entities.push(Entity {
        mesh: None,
        lambert_material: None,
        light_material: None,
        point_light: true,
        camera: false,
        light_tag: None,
        transform: Transform { translation: Vec3Bits { x: 0, y: 0, z: 0 } },
    });
    world.entities.push(Entity {
        mesh: None,
        lambert_material: None,
        light_material: None,
        point_light: false,
        camera: true,
        light_tag: None,
        transform: Transform {
            translation: Vec3Bits { x: CAMERA_POS_X, y: CAMERA_POS_Y, z: CAMERA_POS_Z },
        },
    });
}

/// Second bootstrap step: allocates the small sphere mesh and a marker
/// material, then spawns the light-visualization entity carrying the
/// light tag, placed at the light's spawn position.
pub fn spawn_light(world: &mut World)
    ensures
        final(world).meshes@ == old(world).meshes@.push((Mesh::Sphere { radius: MARKER_RADIUS })),
        final(world).lambert_materials@ == old(world).lambert_materials@,
        final(world).light_materials@ == old(world).light_materials@.push((LightMaterial {})),
        final(world).entities@ == old(world).entities@.push(
            light_marker_entity(old(world).meshes.len(), old(world).light_materials.len()),
        ),
{
    let marker_mesh = world.meshes.len();
    world.meshes.push(Mesh::Sphere { radius: MARKER_RADIUS });
    let marker_material = world.light_materials.len();
    world.light_materials.push(LightMaterial {});
    world.entities.push(Entity {
        mesh: Some(marker_mesh),
        lambert_material: None,
        light_material: Some(marker_material),
        point_light: false,
        camera: false,
        light_tag: Some(Light),
        transform: Transform {
            translation: Vec3Bits { x: LIGHT_START_X, y: LIGHT_START_Y, z: LIGHT_START_Z },
        },
    });
}

/// How many entities of `s` are cubes (carry a Lambert material).
pub open spec fn count_cubes(s: Seq<Entity>) -> nat {
    count_with(s, Component::Lambert)
}

/// How many entities of `s` are light-visualization markers (carry a
/// marker material).
pub open spec fn count_light_markers(s: Seq<Entity>) -> nat {
    count_with(s, Component::Marker)
}

/// How many entities of `s` are point lights.
pub open spec fn count_point_lights(s: Seq<Entity>) -> nat {
    count_with(s, Component::PointLight)
}

/// How many entities of `s` are cameras.
pub open spec fn count_cameras(s: Seq<Entity>) -> nat {
    count_with(s, Component::Camera)
}

/// Runs the two bootstrap steps on a fresh world and guarantees the
/// initial scene as a whole: exactly one cube, one light-visualization
/// marker, one point light and one camera exist; the single Lambert
/// material carries the configured colour bit-for-bit; and its
/// `light_pos` agrees with the tagged marker entity's translation, both
/// being the light's spawn position.
pub fn bootstrap(world: &mut World, settings: &MaterialSettings)
    requires
        old(world).meshes@.len() == 0,
        old(world).lambert_materials@.len() == 0,
        old(world).light_materials@.len() == 0,
        old(world).entities@.len() == 0,
    ensures
        final(world).meshes@ == seq![Mesh::Cuboid, (Mesh::Sphere { radius: MARKER_RADIUS })],
        final(world).lambert_materials@ == seq![
            (LambertMaterial { color: settings.color, light_pos: initial_light_pos() }),
        ],
        final(world).light_materials@ == seq![(LightMaterial {})],
        final(world).entities@ == seq![
            cube_entity(0, 0),
            point_light_entity(),
            camera_entity(),
            light_marker_entity(1, 0),
        ],
        final(world).lambert_materials@[0].color == settings.color,
        final(world).lambert_materials@[0].light_pos == initial_light_pos(),
        count_tagged(final(world).entities@) == 1,
        light_translation(final(world).entities@) == initial_light_pos(),
        count_cubes(final(world).entities@) == 1,
        count_light_markers(final(world).entities@) == 1,
        count_point_lights(final(world).entities@) == 1,
        count_cameras(final(world).entities@) == 1,
{
    setup(world, settings);
    spawn_light(world);
    proof {
        let s0 = old(world).entities@;
        let e1 = cube_entity(0, 0);
        let e2 = point_light_entity();
        let e3 = camera_entity();
        let e4 = light_marker_entity(1, 0);
        let s1 = s0.push(e1);
        let s2 = s1.push(e2);
        let s3 = s2.push(e3);
        let s4 = s3.push(e4);
        assert(world.entities@ == s4);
        assert(s4 =~= seq![e1, e2, e3, e4]);
        assert forall|c: Component| count_with(s0, c) == 0 by {
            assert(s0.len() == 0);
        }
        lemma_count_with_push(s0, e1);
        lemma_count_with_push(s1, e2);
        lemma_count_with_push(s2, e3);
        lemma_count_with_push(s3, e4);
        assert(world.meshes@ =~= seq![Mesh::Cuboid, (Mesh::Sphere { radius: MARKER_RADIUS })]);
        assert(world.lambert_materials@ =~= seq![
            (LambertMaterial { color: settings.color, light_pos: initial_light_pos() }),
        ]);
        assert(world.light_materials@ =~= seq![(LightMaterial {})]);
    }
}

/// Looks the light entity up, as a single-result query: returns the
/// tagged entity's translation exactly when one entity carries the
/// light tag, and nothing when zero or several do.
pub fn single_tagged_translation(entities: &Vec<Entity>) -> (r: Option<Vec3Bits>)
    ensures
        r is Some <==> count_tagged(entities@) == 1,
        count_tagged(entities@) == 1 ==> r == Some(light_translation(entities@)),
{
    let ghost all = entities@;
    let mut found: Option<Vec3Bits> = None;
    let mut count: usize = 0;
    let mut i: usize = 0;
    while i < entities.len()
        invariant
            entities@ == all,
            i <= all.len(),
            count <= i,
            count as nat == count_tagged(all.take(i as int)),
            count >= 1 ==> found == Some(light_translation(all.take(i as int))),
        decreases all.len() - i,
    {
        proof {
            assert(all.take(i as int + 1).drop_last() =~= all.take(i as int));
            assert(all.take(i as int + 1).last() == all[i as int]);
        }
        let e = entities[i];
        if e.light_tag.is_some() {
            found = Some(e.transform.translation);
            count = count + 1;
        }
        i = i + 1;
    }
    proof {
        assert(all.take(all.len() as int) =~= all);
    }
    if count == 1 {
        found
    } else {
        None
    }
}

/// Per-frame synchronization: when exactly one entity carries the light
/// tag, its translation is written into `light_pos` of every live
/// Lambert material, colours untouched; when zero or several carry it,
/// the frame is a no-op and every material keeps its prior value.
/// Nothing else in the world changes either way.
pub fn set_light_pos(world: &mut World)
    ensures
        final(world).meshes@ == old(world).meshes@,
        final(world).light_materials@ == old(world).light_materials@,
        final(world).entities@ == old(world).entities@,
        final(world).lambert_materials@.len() == old(world).lambert_materials@.len(),
        count_tagged(old(world).entities@) == 1 ==> forall|k: int|
            0 <= k < old(world).lambert_materials@.len()
                ==> final(world).lambert_materials@[k] == (LambertMaterial {
                color: old(world).lambert_materials@[k].color,
                light_pos: light_translation(old(world).entities@),
            }),
        count_tagged(old(world).entities@) != 1 ==> final(world).lambert_materials@ == old(
            world,
        ).lambert_materials@,
{
    let looked_up = single_tagged_translation(&world.entities);
    if let Some(t) = looked_up {
        let mut j: usize = 0;
        while j < world.lambert_materials.len()
            invariant
                world.lambert_materials@.len() == old(world).lambert_materials@.len(),
                j <= world.lambert_materials@.len(),
                world.meshes@ == old(world).meshes@,
                world.light_materials@ == old(world).light_materials@,
                world.entities@ == old(world).entities@,
                t == light_translation(old(world).entities@),
                forall|k: int|
                    0 <= k < j ==> world.lambert_materials@[k] == (LambertMaterial {
                        color: old(world).lambert_materials@[k].color,
                        light_pos: t,
                    }),
                forall|k: int|
                    j <= k < world.lambert_materials@.len() ==> world.lambert_materials@[k] == old(
                        world,
                    ).lambert_materials@[k],
            decreases world.lambert_materials@.len() - j,
        {
            let c = world.lambert_materials[j].color;
            world.lambert_materials[j] = LambertMaterial { color: c, light_pos: t };
            j = j + 1;
        }
    }
}

} // verus!
