use pathtracer::accel::{blas_geometries, instance_infos, instance_table, triangle_geometries, InstanceEntry};
use pathtracer::scene::{Asset, LightSource, LoadError, MaterialSource, Mesh, MeshSource, Scene, SlotSource};
use pathtracer::texture::{load_batches, same_float, upload_layout, ColorBits, RgbaBits, Texture};
use pathtracer::uniforms::{Index, InstanceInfo, VertexOffset};

fn plain_material() -> MaterialSource {
    MaterialSource {
        albedo: SlotSource::Absent,
        roughness: SlotSource::Absent,
        specular: SlotSource::Absent,
        metallic: SlotSource::Absent,
        emissive: SlotSource::Absent,
        sheen: SlotSource::Absent,
        normal: SlotSource::Absent,
        transmission: SlotSource::Absent,
        ior: SlotSource::Absent,
        clearcoat_thickness: None,
        clearcoat_roughness: None,
        anisotropy: None,
        anisotropy_rotation: None,
    }
}

fn grey(v: f32) -> ColorBits {
    ColorBits { r: v.to_bits(), g: v.to_bits(), b: v.to_bits() }
}

fn mesh(vertex_count: u32, indices: Vec<u32>, material_id: Option<u32>) -> MeshSource {
    MeshSource { vertex_count, indices, material_id }
}

fn new_scene() -> Scene {
    Scene::new("res/envmap.exr".to_string())
}

#[test]
fn uniform_constructors_keep_their_value() {
    assert_eq!(Index::new(7).index, 7);
    assert_eq!(VertexOffset::new(12).offset, 12);
    assert_eq!(InstanceInfo::new(30).index_offset, 30);
}

#[test]
fn new_scene_has_placeholders_envmap_and_default_material() {
    let s = new_scene();
    assert_eq!(s.textures.len(), 10);
    assert_eq!(s.materials.len(), 1);
    assert_eq!(s.materials[0].emissive_texture_idx, 4);
    assert_eq!(s.materials[0].ior_texture_idx, 8);
    assert_eq!(s.textures[4].color, Some(RgbaBits { r: 0, g: 0, b: 0, a: 1.0f32.to_bits() }));
    assert_eq!(s.textures[1].scalar, Some(0.99f32.to_bits()));
    assert_eq!(s.textures[9].path, Some("res/envmap.exr".to_string()));
    assert_eq!(s.pending_batches(), vec![(0, 10)]);
}

#[test]
fn equal_constant_albedo_shares_one_texture() {
    let mut s = new_scene();
    let mut a = plain_material();
    a.albedo = SlotSource::Color(grey(0.2));
    let mut b = plain_material();
    b.albedo = SlotSource::Color(grey(0.2));
    let asset = Asset { materials: vec![a, b], meshes: vec![] };
    assert_eq!(s.load_obj(&asset), Ok(()));
    assert_eq!(s.textures.len(), 11);
    assert_eq!(s.materials.len(), 3);
    assert_eq!(s.materials[1].albedo_texture_idx, 10);
    assert_eq!(s.materials[2].albedo_texture_idx, 10);
    assert_eq!(
        s.textures[10].color,
        Some(RgbaBits { r: 0.2f32.to_bits(), g: 0.2f32.to_bits(), b: 0.2f32.to_bits(), a: 1.0f32.to_bits() })
    );
}

#[test]
fn constants_equal_to_placeholders_reuse_them() {
    let mut s = new_scene();
    let mut m = plain_material();
    m.roughness = SlotSource::Scalar(0.99f32.to_bits());
    m.metallic = SlotSource::Scalar((-0.0f32).to_bits());
    m.specular = SlotSource::Color(grey(0.5));
    // A black albedo matches the metallic placeholder, registered as [0, 0, 0, 1].
    m.albedo = SlotSource::Color(grey(0.0));
    m.ior = SlotSource::Scalar(1.5f32.to_bits());
    let r = s.add_material(m);
    assert_eq!(r, 1);
    let mat = s.materials[1];
    assert_eq!(mat.roughness_texture_idx, 1);
    assert_eq!(mat.metallic_texture_idx, 3);
    assert_eq!(mat.specular_texture_idx, 2);
    assert_eq!(mat.albedo_texture_idx, 3);
    assert_eq!(mat.ior_texture_idx, 10);
    assert_eq!(s.textures.len(), 11);
    assert_eq!(s.textures[10].scalar, Some(1.5f32.to_bits()));
}

#[test]
fn file_slots_always_register_a_new_texture() {
    let mut s = new_scene();
    let mut m = plain_material();
    m.albedo = SlotSource::File("res/a.png".to_string());
    m.normal = SlotSource::File("res/a.png".to_string());
    s.add_material(m);
    assert_eq!(s.materials[1].albedo_texture_idx, 10);
    assert_eq!(s.materials[1].normal_texture_idx, 11);
    assert_eq!(s.textures[11].path, Some("res/a.png".to_string()));
    assert_eq!(s.textures.len(), 12);
}

#[test]
fn zero_emission_keeps_the_emissive_placeholder() {
    let mut s = new_scene();
    let mut m = plain_material();
    m.emissive = SlotSource::Color(ColorBits { r: (-0.0f32).to_bits(), g: 0, b: 0 });
    m.transmission = SlotSource::Color(grey(0.0));
    s.add_material(m);
    assert_eq!(s.materials[1].emissive_texture_idx, 4);
    // Transmission has no such rule: black matches the metallic placeholder.
    assert_eq!(s.materials[1].transmission_texture_idx, 3);
    assert_eq!(s.textures.len(), 10);
}

#[test]
fn scalar_parameters_default_to_zero() {
    let mut s = new_scene();
    let mut m = plain_material();
    m.anisotropy = Some(0.25f32.to_bits());
    s.add_material(m);
    assert_eq!(s.materials[1].anisotropy, 0.25f32.to_bits());
    assert_eq!(s.materials[1].clearcoat_thickness, 0);
}

#[test]
fn meshes_are_renumbered_into_shared_tables() {
    let mut s = new_scene();
    let asset = Asset {
        materials: vec![plain_material(), plain_material()],
        meshes: vec![mesh(3, vec![0, 1, 2], Some(1)), mesh(4, vec![0, 1, 2, 2, 3, 0], None)],
    };
    assert_eq!(s.load_obj(&asset), Ok(()));
    assert_eq!(s.vertex_count, 7);
    assert_eq!(
        s.meshes,
        vec![
            Mesh { vertex_offset: 0, vertex_count: 3, index_offset: 0, index_count: 3, material_index: 2 },
            Mesh { vertex_offset: 3, vertex_count: 4, index_offset: 3, index_count: 6, material_index: 1 },
        ]
    );
    let idx: Vec<u32> = s.indices.iter().map(|i| i.index).collect();
    assert_eq!(idx, vec![0, 1, 2, 3, 4, 5, 5, 6, 3]);
}

#[test]
fn incomplete_triangle_is_refused() {
    let mut s = new_scene();
    let asset = Asset { materials: vec![plain_material()], meshes: vec![mesh(3, vec![0, 1, 2, 0], None)] };
    assert_eq!(s.load_obj(&asset), Err(LoadError::IncompleteTriangle));
}

#[test]
fn index_past_the_mesh_is_refused() {
    let mut s = new_scene();
    let asset = Asset { materials: vec![plain_material()], meshes: vec![mesh(3, vec![0, 1, 3], None)] };
    assert_eq!(s.load_obj(&asset), Err(LoadError::IndexOutOfRange));
    assert_eq!(s.meshes.len(), 0);
}

#[test]
fn unknown_material_is_refused() {
    let mut s = new_scene();
    let asset = Asset { materials: vec![], meshes: vec![mesh(3, vec![0, 1, 2], None)] };
    assert_eq!(s.load_obj(&asset), Err(LoadError::UnknownMaterial));
    let asset = Asset { materials: vec![plain_material()], meshes: vec![mesh(3, vec![0, 1, 2], Some(1))] };
    assert_eq!(s.load_obj(&asset), Err(LoadError::UnknownMaterial));
}

#[test]
fn vertex_table_overflow_is_refused() {
    let mut s = new_scene();
    let asset = Asset {
        materials: vec![plain_material()],
        meshes: vec![mesh(u32::MAX, vec![], None), mesh(1, vec![], None)],
    };
    assert_eq!(s.load_obj(&asset), Err(LoadError::TooLarge));
    assert_eq!(s.meshes.len(), 1);
}

#[test]
fn scene_without_emitters_gets_one_degenerate_light() {
    let mut s = new_scene();
    assert_eq!(s.light_sources(), vec![LightSource::Degenerate]);
    let asset = Asset { materials: vec![plain_material()], meshes: vec![mesh(3, vec![0, 1, 2], None)] };
    assert_eq!(s.load_obj(&asset), Ok(()));
    assert_eq!(s.light_sources(), vec![LightSource::Degenerate]);
}

#[test]
fn emissive_triangles_become_lights() {
    let mut s = new_scene();
    let mut lamp = plain_material();
    lamp.emissive = SlotSource::Color(grey(4.0));
    let asset = Asset {
        materials: vec![plain_material(), lamp],
        meshes: vec![mesh(3, vec![0, 1, 2], Some(0)), mesh(4, vec![0, 1, 2, 1, 2, 3], Some(1))],
    };
    assert_eq!(s.load_obj(&asset), Ok(()));
    assert_eq!(s.materials[2].emissive_texture_idx, 10);
    assert_eq!(s.material_at_index(0), 1);
    assert_eq!(s.material_at_index(4), 2);
    assert_eq!(s.light_sources(), vec![LightSource::Emitter(3, 4, 5), LightSource::Emitter(4, 5, 6)]);
}

#[test]
fn one_geometry_descriptor_per_triangle() {
    let m = Mesh { vertex_offset: 0, vertex_count: 9, index_offset: 6, index_count: 9, material_index: 0 };
    assert_eq!(triangle_geometries(&m), vec![6, 9, 12]);
    let empty = Mesh { vertex_offset: 0, vertex_count: 0, index_offset: 3, index_count: 0, material_index: 0 };
    assert_eq!(triangle_geometries(&empty), Vec::<u32>::new());
}

#[test]
fn blas_and_instance_tables_follow_the_meshes() {
    let mut s = new_scene();
    let asset = Asset {
        materials: vec![plain_material(), plain_material()],
        meshes: vec![mesh(3, vec![0, 1, 2], Some(1)), mesh(4, vec![0, 1, 2, 2, 3, 0], None)],
    };
    s.load_obj(&asset).unwrap();
    assert_eq!(blas_geometries(&s), vec![vec![0], vec![3, 6]]);
    let total: usize = blas_geometries(&s).iter().map(|g| g.len()).sum();
    assert_eq!(total, s.indices.len() / 3);
    assert_eq!(
        instance_table(&s.meshes),
        vec![
            InstanceEntry { blas_index: 0, custom_index: 2, mask: 0xff },
            InstanceEntry { blas_index: 1, custom_index: 1, mask: 0xff },
        ]
    );
    assert_eq!(instance_infos(&s.meshes), vec![InstanceInfo::new(0), InstanceInfo::new(3)]);
}

#[test]
fn textures_load_in_batches_of_thirty_two() {
    assert_eq!(load_batches(0, 70), vec![(0, 32), (32, 64), (64, 70)]);
    assert_eq!(load_batches(10, 10), Vec::<(usize, usize)>::new());
    assert_eq!(load_batches(0, 32), vec![(0, 32)]);
    let mut s = new_scene();
    s.mark_resident();
    assert_eq!(s.pending_batches(), Vec::<(usize, usize)>::new());
    let mut m = plain_material();
    m.albedo = SlotSource::File("res/b.png".to_string());
    s.add_material(m);
    assert_eq!(s.pending_batches(), vec![(10, 11)]);
}

#[test]
fn float_equality_follows_ieee() {
    assert!(same_float(0.0f32.to_bits(), (-0.0f32).to_bits()));
    assert!(same_float(0.2f32.to_bits(), 0.2f32.to_bits()));
    assert!(!same_float(f32::NAN.to_bits(), f32::NAN.to_bits()));
    assert!(!same_float(1.0f32.to_bits(), 0.5f32.to_bits()));
    assert!(same_float(f32::INFINITY.to_bits(), f32::INFINITY.to_bits()));
}

#[test]
fn nan_constants_are_never_shared() {
    let mut s = new_scene();
    let mut m = plain_material();
    m.roughness = SlotSource::Scalar(f32::NAN.to_bits());
    m.sheen = SlotSource::Scalar(f32::NAN.to_bits());
    s.add_material(m);
    assert_eq!(s.materials[1].roughness_texture_idx, 10);
    assert_eq!(s.materials[1].sheen_texture_idx, 11);
}

#[test]
fn texture_constructors_record_their_constant() {
    let half = 0.5f32.to_bits();
    let s = Texture::from_scalar(half);
    assert_eq!(s.scalar, Some(half));
    assert_eq!(s.color, Some(RgbaBits { r: half, g: 0, b: 0, a: 1.0f32.to_bits() }));
    let c = Texture::from_color(RgbaBits { r: half, g: half, b: half, a: half });
    assert_eq!(c.scalar, None);
    assert_eq!(c.path, None);
    let f = Texture::from_file_scalar("res/r.png".to_string());
    assert_eq!(f.path, Some("res/r.png".to_string()));
    assert_eq!(f.color, None);
    assert_eq!(Texture::from_file_rgba("x.exr".to_string()).path, Some("x.exr".to_string()));
}

#[test]
fn upload_layout_compresses_whole_blocks_only() {
    assert_eq!(upload_layout(1024, 512, false), (true, 4096));
    assert_eq!(upload_layout(1024, 512, true), (false, 16384));
    assert_eq!(upload_layout(1, 1, false), (false, 16));
    assert_eq!(upload_layout(6, 8, false), (false, 96));
}
