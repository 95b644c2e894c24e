use lambert_scene::material::{LambertMaterial, MaterialSettings};
use lambert_scene::scene::{
    bootstrap, set_light_pos, setup, single_tagged_translation, spawn_light, Mesh, World,
    CAMERA_POS_X, CAMERA_POS_Y, CAMERA_POS_Z, CUBE_POS_Y, LIGHT_START_X, LIGHT_START_Y,
    LIGHT_START_Z, MARKER_RADIUS,
};
use lambert_scene::vec3::Vec3Bits;

fn vec3_of(x: f32, y: f32, z: f32) -> Vec3Bits {
    Vec3Bits::new(x.to_bits(), y.to_bits(), z.to_bits())
}

fn booted(color: Vec3Bits) -> World {
    let mut world = World::new();
    bootstrap(&mut world, &MaterialSettings { color });
    world
}

fn light_entity_index(world: &World) -> Option<usize> {
    world.entities.iter().position(|e| e.light_tag.is_some())
}

#[test]
fn constants_encode_scene_positions() {
    assert_eq!(LIGHT_START_X, 0.8f32.to_bits());
    assert_eq!(LIGHT_START_Y, 1.0f32.to_bits());
    assert_eq!(LIGHT_START_Z, 0.5f32.to_bits());
    assert_eq!(CUBE_POS_Y, 0.5f32.to_bits());
    assert_eq!(CAMERA_POS_X, (-2.0f32).to_bits());
    assert_eq!(CAMERA_POS_Y, 2.5f32.to_bits());
    assert_eq!(CAMERA_POS_Z, 5.0f32.to_bits());
    assert_eq!(MARKER_RADIUS, 0.1f32.to_bits());
}

#[test]
fn world_new_empty() {
    let world = World::new();
    assert_eq!(world.meshes.len(), 0);
    assert_eq!(world.lambert_materials.len(), 0);
    assert_eq!(world.light_materials.len(), 0);
    assert_eq!(world.entities.len(), 0);
}

#[test]
fn bootstrap_initial_consistency() {
    let world = booted(vec3_of(0.4, 0.6, 0.9));
    let light = &world.entities[light_entity_index(&world).unwrap()];
    assert_eq!(world.lambert_materials.len(), 1);
    assert_eq!(world.lambert_materials[0].light_pos, light.transform.translation);
    assert_eq!(world.lambert_materials[0].light_pos, vec3_of(0.8, 1.0, 0.5));
}

#[test]
fn bootstrap_red_cube() {
    let world = booted(vec3_of(1.0, 0.0, 0.0));
    assert_eq!(world.lambert_materials.len(), 1);
    assert_eq!(world.lambert_materials[0].color, vec3_of(1.0, 0.0, 0.0));
    assert_eq!(world.lambert_materials[0].light_pos, vec3_of(0.8, 1.0, 0.5));
}

#[test]
fn bootstrap_cardinality() {
    let world = booted(vec3_of(0.2, 0.2, 0.2));
    assert_eq!(world.entities.len(), 4);
    let cubes = world.entities.iter().filter(|e| e.lambert_material.is_some()).count();
    let markers = world.entities.iter().filter(|e| e.light_material.is_some()).count();
    let point_lights = world.entities.iter().filter(|e| e.point_light).count();
    let cameras = world.entities.iter().filter(|e| e.camera).count();
    assert_eq!(cubes, 1);
    assert_eq!(markers, 1);
    assert_eq!(point_lights, 1);
    assert_eq!(cameras, 1);
}

#[test]
fn color_passthrough_exact() {
    let raw = Vec3Bits::new(0xDEADBEEF, 0x00000001, 0x7FC00000);
    let world = booted(raw);
    assert_eq!(world.lambert_materials[0].color, raw);
}

#[test]
fn bootstrap_tables_and_handles() {
    let mut world = World::new();
    setup(&mut world, &MaterialSettings { color: vec3_of(0.3, 0.3, 0.3) });
    spawn_light(&mut world);
    assert_eq!(world.meshes.len(), 2);
    assert_eq!(world.meshes[0], Mesh::Cuboid);
    assert_eq!(world.meshes[1], Mesh::Sphere { radius: 0.1f32.to_bits() });
    assert_eq!(world.light_materials.len(), 1);
    let cube = &world.entities[0];
    assert_eq!(cube.mesh, Some(0));
    assert_eq!(cube.lambert_material, Some(0));
    assert!(cube.light_tag.is_none());
    let marker = &world.entities[3];
    assert_eq!(marker.mesh, Some(1));
    assert_eq!(marker.light_material, Some(0));
    assert!(marker.light_tag.is_some());
}

#[test]
fn bootstrap_fixed_transforms() {
    let world = booted(vec3_of(0.5, 0.5, 0.5));
    let cube = &world.entities[0];
    let point_light = &world.entities[1];
    let camera = &world.entities[2];
    assert_eq!(cube.transform.translation, vec3_of(0.0, 0.5, 0.0));
    assert!(point_light.point_light);
    assert_eq!(point_light.transform.translation, vec3_of(0.0, 0.0, 0.0));
    assert!(camera.camera);
    assert_eq!(camera.transform.translation, vec3_of(-2.0, 2.5, 5.0));
}

#[test]
fn sync_moves_light() {
    let mut world = booted(vec3_of(0.7, 0.1, 0.1));
    let i = light_entity_index(&world).unwrap();
    world.entities[i].transform.translation = vec3_of(2.0, 2.0, 2.0);
    set_light_pos(&mut world);
    for material in &world.lambert_materials {
        assert_eq!(material.light_pos, vec3_of(2.0, 2.0, 2.0));
    }
}

#[test]
fn sync_updates_every_material() {
    let mut world = booted(vec3_of(0.9, 0.9, 0.1));
    world.lambert_materials.push(LambertMaterial {
        color: vec3_of(0.1, 0.2, 0.3),
        light_pos: vec3_of(0.0, 0.0, 0.0),
    });
    let i = light_entity_index(&world).unwrap();
    world.entities[i].transform.translation = vec3_of(-1.0, 4.0, 0.25);
    set_light_pos(&mut world);
    assert_eq!(world.lambert_materials.len(), 2);
    assert_eq!(world.lambert_materials[0].light_pos, vec3_of(-1.0, 4.0, 0.25));
    assert_eq!(world.lambert_materials[1].light_pos, vec3_of(-1.0, 4.0, 0.25));
    assert_eq!(world.lambert_materials[0].color, vec3_of(0.9, 0.9, 0.1));
    assert_eq!(world.lambert_materials[1].color, vec3_of(0.1, 0.2, 0.3));
}

#[test]
fn sync_no_tag_is_noop() {
    let mut world = booted(vec3_of(0.6, 0.4, 0.2));
    let i = light_entity_index(&world).unwrap();
    world.entities[i].light_tag = None;
    world.entities[i].transform.translation = vec3_of(9.0, 9.0, 9.0);
    set_light_pos(&mut world);
    assert_eq!(world.lambert_materials[0].light_pos, vec3_of(0.8, 1.0, 0.5));
    assert_eq!(world.lambert_materials[0].color, vec3_of(0.6, 0.4, 0.2));
}

#[test]
fn sync_two_tags_is_noop() {
    let mut world = booted(vec3_of(0.6, 0.4, 0.2));
    let i = light_entity_index(&world).unwrap();
    let mut second = world.entities[i];
    second.transform.translation = vec3_of(3.0, 3.0, 3.0);
    world.entities.push(second);
    set_light_pos(&mut world);
    assert_eq!(world.lambert_materials[0].light_pos, vec3_of(0.8, 1.0, 0.5));
}

#[test]
fn single_light_lookup() {
    let mut world = booted(vec3_of(0.5, 0.5, 0.5));
    let i = light_entity_index(&world).unwrap();
    assert_eq!(
        single_tagged_translation(&world.entities),
        Some(world.entities[i].transform.translation)
    );
    let tagged = world.entities[i];
    world.entities.push(tagged);
    assert_eq!(single_tagged_translation(&world.entities), None);
    world.entities.pop();
    world.entities[i].light_tag = None;
    assert_eq!(single_tagged_translation(&world.entities), None);
}

#[test]
fn shader_paths() {
    assert_eq!(
        lambert_scene::material::LambertMaterial::fragment_shader(),
        "shaders/lambert_material.wgsl"
    );
    assert_eq!(
        lambert_scene::material::LambertMaterial::vertex_shader(),
        "shaders/lambert_material.wgsl"
    );
    assert_eq!(lambert_scene::material::LightMaterial::fragment_shader(), "shaders/light.wgsl");
}
