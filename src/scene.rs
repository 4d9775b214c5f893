use vstd::prelude::*;

use crate::texture::{
    ColorBits, is_nan_bits, ConstKey, RgbaBits, Texture, find_constant, find_match, is_zero_bits,
    key_entry, file_entry, color_entry, scalar_entry, opaque, lemma_find_match_bounds,
    lemma_find_match_push, lemma_find_match_prefix, entry_matches,
    key_texture, zero_bits, load_batches, load_batches_spec, ONE_BITS, HALF_BITS, ROUGHNESS_DEFAULT_BITS,
};
use crate::uniforms::Index;

verus! {

/// The placeholder textures registered when a scene store is made, one per
/// material slot, in slot order.
pub const ALBEDO_DEFAULT: u32 = 0;
pub const ROUGHNESS_DEFAULT: u32 = 1;
pub const SPECULAR_DEFAULT: u32 = 2;
pub const METALLIC_DEFAULT: u32 = 3;
/// A material whose emissive slot is this placeholder does not emit light.
pub const EMISSIVE_DEFAULT: u32 = 4;
pub const SHEEN_DEFAULT: u32 = 5;
pub const NORMAL_DEFAULT: u32 = 6;
pub const TRANSMISSION_DEFAULT: u32 = 7;
pub const IOR_DEFAULT: u32 = 8;
/// Number of placeholder textures.
pub const PLACEHOLDERS: usize = 9;
/// Where the environment map is registered.
pub const ENVMAP_TEXTURE: u32 = 9;

/// A contiguous slice of the scene's shared vertex and index tables.
#[derive(Debug, Clone, Copy, PartialEq, Eq, Structural)]
pub struct Mesh {
    pub vertex_offset: u32,
    pub vertex_count: u32,
    pub index_offset: u32,
    pub index_count: u32,
    pub material_index: u32,
}

/// A material: one texture index per slot, and four scalar parameters held
/// as the bit patterns of single-precision values.
#[derive(Debug, Clone, Copy, PartialEq, Eq, Structural)]
pub struct Material {
    pub albedo_texture_idx: u32,
    pub roughness_texture_idx: u32,
    pub metallic_texture_idx: u32,
    pub emissive_texture_idx: u32,
    pub specular_texture_idx: u32,
    pub sheen_texture_idx: u32,
    pub clearcoat_thickness: u32,
    pub clearcoat_roughness: u32,
    pub anisotropy: u32,
    pub anisotropy_rotation: u32,
    pub normal_texture_idx: u32,
    pub transmission_texture_idx: u32,
    pub ior_texture_idx: u32,
}

/// What an asset gives for one material slot.
#[derive(Debug, Clone)]
pub enum SlotSource {
    /// Nothing: the slot keeps its placeholder.
    Absent,
    /// An image file, already resolved against the asset's directory.
    File(String),
    /// A constant scalar (bit pattern).
    Scalar(u32),
    /// A constant color (bit patterns).
    Color(ColorBits),
}

/// One material of a parsed asset.
#[derive(Debug, Clone)]
pub struct MaterialSource {
    pub albedo: SlotSource,
    pub roughness: SlotSource,
    pub specular: SlotSource,
    pub metallic: SlotSource,
    pub emissive: SlotSource,
    pub sheen: SlotSource,
    pub normal: SlotSource,
    pub transmission: SlotSource,
    pub ior: SlotSource,
    pub clearcoat_thickness: Option<u32>,
    pub clearcoat_roughness: Option<u32>,
    pub anisotropy: Option<u32>,
    pub anisotropy_rotation: Option<u32>,
}

/// One mesh of a parsed asset: its vertex count, its indices (numbered
/// within the mesh) and its material among the asset's materials.
#[derive(Debug, Clone)]
pub struct MeshSource {
    pub vertex_count: u32,
    pub indices: Vec<u32>,
    pub material_id: Option<u32>,
}

/// A parsed asset.
#[derive(Debug, Clone)]
pub struct Asset {
    pub materials: Vec<MaterialSource>,
    pub meshes: Vec<MeshSource>,
}

/// Why an asset cannot be loaded.
#[derive(Debug, Clone, Copy, PartialEq, Eq, Structural)]
pub enum LoadError {
    /// The texture or material table would outgrow 32-bit indexing.
    TooManyMaterials,
    /// A mesh's index count is not a multiple of three.
    IncompleteTriangle,
    /// A mesh's index names a vertex the mesh does not have.
    IndexOutOfRange,
    /// The vertex or index table would outgrow 32-bit indexing.
    TooLarge,
    /// A mesh names a material the asset does not have.
    UnknownMaterial,
}

/// The scene store: flat vertex-count, index, material, mesh and texture
/// tables. Vertex attributes live beside it, in the same order.
pub struct Scene {
    pub meshes: Vec<Mesh>,
    pub indices: Vec<Index>,
    pub vertex_count: u32,
    pub materials: Vec<Material>,
    pub textures: Vec<Texture>,
    /// Textures `0 .. resident_textures` are GPU-resident; the rest are
    /// deferred.
    pub resident_textures: usize,
}

/// The mathematical value of a scene store.
pub struct SceneView {
    pub meshes: Seq<Mesh>,
    pub indices: Seq<Index>,
    pub vertex_count: u32,
    pub materials: Seq<Material>,
    pub textures: Seq<Texture>,
    pub resident_textures: usize,
}

impl View for Scene {
    type V = SceneView;

    open spec fn view(&self) -> SceneView {
        SceneView {
            meshes: self.meshes@,
            indices: self.indices@,
            vertex_count: self.vertex_count,
            materials: self.materials@,
            textures: self.textures@,
            resident_textures: self.resident_textures,
        }
    }
}

pub open spec fn black() -> RgbaBits {
    RgbaBits { r: 0, g: 0, b: 0, a: ONE_BITS }
}

/// The nine placeholder textures.
pub open spec fn placeholders() -> Seq<Texture> {
    seq![
        color_entry(RgbaBits { r: ONE_BITS, g: ONE_BITS, b: ONE_BITS, a: ONE_BITS }),
        scalar_entry(ROUGHNESS_DEFAULT_BITS),
        color_entry(RgbaBits { r: HALF_BITS, g: HALF_BITS, b: HALF_BITS, a: ONE_BITS }),
        scalar_entry(0),
        color_entry(black()),
        scalar_entry(0),
        color_entry(RgbaBits { r: HALF_BITS, g: HALF_BITS, b: ONE_BITS, a: ONE_BITS }),
        scalar_entry(0),
        scalar_entry(ONE_BITS),
    ]
}

/// The material every slot of which is its placeholder.
pub open spec fn default_material() -> Material {
    Material {
        albedo_texture_idx: ALBEDO_DEFAULT,
        roughness_texture_idx: ROUGHNESS_DEFAULT,
        metallic_texture_idx: METALLIC_DEFAULT,
        emissive_texture_idx: EMISSIVE_DEFAULT,
        specular_texture_idx: SPECULAR_DEFAULT,
        sheen_texture_idx: SHEEN_DEFAULT,
        clearcoat_thickness: 0,
        clearcoat_roughness: 0,
        anisotropy: 0,
        anisotropy_rotation: 0,
        normal_texture_idx: NORMAL_DEFAULT,
        transmission_texture_idx: TRANSMISSION_DEFAULT,
        ior_texture_idx: IOR_DEFAULT,
    }
}

pub open spec fn material_in_range(m: Material, n: nat) -> bool {
    &&& m.albedo_texture_idx < n
    &&& m.roughness_texture_idx < n
    &&& m.metallic_texture_idx < n
    &&& m.emissive_texture_idx < n
    &&& m.specular_texture_idx < n
    &&& m.sheen_texture_idx < n
    &&& m.normal_texture_idx < n
    &&& m.transmission_texture_idx < n
    &&& m.ior_texture_idx < n
}

pub open spec fn mesh_in_range(m: Mesh, v: SceneView) -> bool {
    &&& m.index_offset + m.index_count <= v.indices.len()
    &&& m.index_count % 3 == 0
    &&& m.vertex_offset + m.vertex_count <= v.vertex_count
    &&& m.material_index < v.materials.len()
}

impl SceneView {
    /// Well-formedness: every table index points into its table, indices
    /// come in whole triangles, the placeholders stand first, and every
    /// count fits 32-bit indexing.
    pub open spec fn wf(self) -> bool {
        &&& self.textures.len() >= PLACEHOLDERS
        &&& self.textures[EMISSIVE_DEFAULT as int] == color_entry(black())
        &&& self.textures.len() <= u32::MAX
        &&& 1 <= self.materials.len() <= u32::MAX
        &&& forall|i: int| 0 <= i < self.materials.len()
            ==> material_in_range(#[trigger] self.materials[i], self.textures.len())
        &&& self.indices.len() % 3 == 0
        &&& self.indices.len() <= u32::MAX
        &&& forall|i: int| 0 <= i < self.indices.len()
            ==> (#[trigger] self.indices[i]).index < self.vertex_count
        &&& self.meshes.len() <= u32::MAX
        &&& forall|i: int| 0 <= i < self.meshes.len() ==> mesh_in_range(#[trigger] self.meshes[i], self)
        &&& self.resident_textures <= self.textures.len()
    }
}

/// The registry after constant `k` is looked up, and the texture that
/// holds it: the first match, or a new entry at the end.
pub open spec fn resolve_const(texs: Seq<Texture>, k: ConstKey) -> (Seq<Texture>, u32) {
    match find_match(texs, k) {
        Some(i) => (texs, i as u32),
        None => (texs.push(key_entry(k)), texs.len() as u32),
    }
}

/// The registry after one slot is resolved, and the slot's texture. An
/// all-zero emissive color counts as no emission, and so as absent.
pub open spec fn resolve_slot(texs: Seq<Texture>, src: SlotSource, default: u32, emissive: bool) -> (Seq<Texture>, u32) {
    match src {
        SlotSource::Absent => (texs, default),
        SlotSource::File(p) => (texs.push(file_entry(p)), texs.len() as u32),
        SlotSource::Scalar(s) => resolve_const(texs, ConstKey::Scalar(s)),
        SlotSource::Color(c) => if emissive && is_zero_bits(c.r) && is_zero_bits(c.g) && is_zero_bits(c.b) {
            (texs, default)
        } else {
            resolve_const(texs, ConstKey::Color(opaque(c)))
        },
    }
}

pub open spec fn unwrap_or_zero(x: Option<u32>) -> u32 {
    match x {
        Some(v) => v,
        None => 0,
    }
}

/// The registry after a material is added, and the material: its slots
/// are resolved in the order albedo, roughness, specular, metallic,
/// emissive, sheen, normal, transmission, index of refraction.
pub open spec fn material_after(texs: Seq<Texture>, m: MaterialSource) -> (Seq<Texture>, Material) {
    let r1 = resolve_slot(texs, m.albedo, ALBEDO_DEFAULT, false);
    let r2 = resolve_slot(r1.0, m.roughness, ROUGHNESS_DEFAULT, false);
    let r3 = resolve_slot(r2.0, m.specular, SPECULAR_DEFAULT, false);
    let r4 = resolve_slot(r3.0, m.metallic, METALLIC_DEFAULT, false);
    let r5 = resolve_slot(r4.0, m.emissive, EMISSIVE_DEFAULT, true);
    let r6 = resolve_slot(r5.0, m.sheen, SHEEN_DEFAULT, false);
    let r7 = resolve_slot(r6.0, m.normal, NORMAL_DEFAULT, false);
    let r8 = resolve_slot(r7.0, m.transmission, TRANSMISSION_DEFAULT, false);
    let r9 = resolve_slot(r8.0, m.ior, IOR_DEFAULT, false);
    (r9.0, Material {
        albedo_texture_idx: r1.1,
        roughness_texture_idx: r2.1,
        metallic_texture_idx: r4.1,
        emissive_texture_idx: r5.1,
        specular_texture_idx: r3.1,
        sheen_texture_idx: r6.1,
        clearcoat_thickness: unwrap_or_zero(m.clearcoat_thickness),
        clearcoat_roughness: unwrap_or_zero(m.clearcoat_roughness),
        anisotropy: unwrap_or_zero(m.anisotropy),
        anisotropy_rotation: unwrap_or_zero(m.anisotropy_rotation),
        normal_texture_idx: r7.1,
        transmission_texture_idx: r8.1,
        ior_texture_idx: r9.1,
    })
}

pub proof fn lemma_resolve_slot(texs: Seq<Texture>, src: SlotSource, default: u32, emissive: bool)
    requires
        default < texs.len(),
    ensures
        texs.len() <= resolve_slot(texs, src, default, emissive).0.len() <= texs.len() + 1,
        resolve_slot(texs, src, default, emissive).0.subrange(0, texs.len() as int) == texs,
        resolve_slot(texs, src, default, emissive).1 < resolve_slot(texs, src, default, emissive).0.len(),
        texs.len() < u32::MAX ==> resolve_slot(texs, src, default, emissive).1 as int
            <= texs.len(),
{
    let r = resolve_slot(texs, src, default, emissive);
    match src {
        SlotSource::Scalar(s) => lemma_find_match_bounds(texs, ConstKey::Scalar(s)),
        SlotSource::Color(c) => lemma_find_match_bounds(texs, ConstKey::Color(opaque(c))),
        _ => {},
    }
    if r.0.len() > texs.len() {
        assert(r.0.subrange(0, texs.len() as int) =~= texs);
    } else {
        assert(r.0.subrange(0, texs.len() as int) =~= texs);
    }
}

pub proof fn lemma_material_after(texs: Seq<Texture>, m: MaterialSource)
    requires
        texs.len() >= PLACEHOLDERS,
    ensures
        texs.len() <= material_after(texs, m).0.len() <= texs.len() + 9,
        material_after(texs, m).0.subrange(0, texs.len() as int) == texs,
        material_in_range(material_after(texs, m).1, material_after(texs, m).0.len()),
{
    let r1 = resolve_slot(texs, m.albedo, ALBEDO_DEFAULT, false);
    let r2 = resolve_slot(r1.0, m.roughness, ROUGHNESS_DEFAULT, false);
    let r3 = resolve_slot(r2.0, m.specular, SPECULAR_DEFAULT, false);
    let r4 = resolve_slot(r3.0, m.metallic, METALLIC_DEFAULT, false);
    let r5 = resolve_slot(r4.0, m.emissive, EMISSIVE_DEFAULT, true);
    let r6 = resolve_slot(r5.0, m.sheen, SHEEN_DEFAULT, false);
    let r7 = resolve_slot(r6.0, m.normal, NORMAL_DEFAULT, false);
    let r8 = resolve_slot(r7.0, m.transmission, TRANSMISSION_DEFAULT, false);
    lemma_resolve_slot(texs, m.albedo, ALBEDO_DEFAULT, false);
    lemma_resolve_slot(r1.0, m.roughness, ROUGHNESS_DEFAULT, false);
    lemma_resolve_slot(r2.0, m.specular, SPECULAR_DEFAULT, false);
    lemma_resolve_slot(r3.0, m.metallic, METALLIC_DEFAULT, false);
    lemma_resolve_slot(r4.0, m.emissive, EMISSIVE_DEFAULT, true);
    lemma_resolve_slot(r5.0, m.sheen, SHEEN_DEFAULT, false);
    lemma_resolve_slot(r6.0, m.normal, NORMAL_DEFAULT, false);
    lemma_resolve_slot(r7.0, m.transmission, TRANSMISSION_DEFAULT, false);
    lemma_resolve_slot(r8.0, m.ior, IOR_DEFAULT, false);
    let r9 = resolve_slot(r8.0, m.ior, IOR_DEFAULT, false);
    assert(r9.0.subrange(0, texs.len() as int) =~= texs) by {
        assert(r9.0.subrange(0, texs.len() as int) =~= r8.0.subrange(0, texs.len() as int));
        assert(r8.0.subrange(0, texs.len() as int) =~= r7.0.subrange(0, texs.len() as int));
        assert(r7.0.subrange(0, texs.len() as int) =~= r6.0.subrange(0, texs.len() as int));
        assert(r6.0.subrange(0, texs.len() as int) =~= r5.0.subrange(0, texs.len() as int));
        assert(r5.0.subrange(0, texs.len() as int) =~= r4.0.subrange(0, texs.len() as int));
        assert(r4.0.subrange(0, texs.len() as int) =~= r3.0.subrange(0, texs.len() as int));
        assert(r3.0.subrange(0, texs.len() as int) =~= r2.0.subrange(0, texs.len() as int));
        assert(r2.0.subrange(0, texs.len() as int) =~= r1.0.subrange(0, texs.len() as int));
    }
}

/// The scene after a material is appended.
pub open spec fn add_material_spec(v: SceneView, m: MaterialSource) -> SceneView {
    SceneView {
        textures: material_after(v.textures, m).0,
        materials: v.materials.push(material_after(v.textures, m).1),
        ..v
    }
}

/// Looks a constant up in the registry, registering it if it is new.
fn resolve_const_into(texs: &mut Vec<Texture>, k: ConstKey) -> (r: u32)
    requires
        old(texs).len() < u32::MAX,
    ensures
        (final(texs)@, r) == resolve_const(old(texs)@, k),
{
    proof {
        lemma_find_match_bounds(texs@, k);
    }
    match find_constant(texs, k) {
        Some(i) => i as u32,
        None => {
            let n = texs.len() as u32;
            texs.push(key_texture(k));
            n
        },
    }
}

/// Resolves one material slot against the registry.
fn resolve_into(texs: &mut Vec<Texture>, src: SlotSource, default: u32, emissive: bool) -> (r: u32)
    requires
        old(texs).len() < u32::MAX,
    ensures
        (final(texs)@, r) == resolve_slot(old(texs)@, src, default, emissive),
{
    match src {
        SlotSource::Absent => default,
        SlotSource::File(p) => {
            let n = texs.len() as u32;
            texs.push(Texture::from_file_rgba(p));
            n
        },
        SlotSource::Scalar(s) => resolve_const_into(texs, ConstKey::Scalar(s)),
        SlotSource::Color(c) => {
            if emissive && zero_bits(c.r) && zero_bits(c.g) && zero_bits(c.b) {
                default
            } else {
                resolve_const_into(texs, ConstKey::Color(RgbaBits { r: c.r, g: c.g, b: c.b, a: ONE_BITS }))
            }
        },
    }
}

fn or_zero(x: Option<u32>) -> (r: u32)
    ensures
        r == unwrap_or_zero(x),
{
    match x {
        Some(v) => v,
        None => 0,
    }
}

impl Scene {
    /// A scene store with the nine placeholder textures, the environment
    /// map as a deferred file texture after them, and the default material.
    pub fn new(envmap: String) -> (s: Scene)
        ensures
            s@.wf(),
            s@.textures == placeholders().push(file_entry(envmap)),
            s@.textures[ENVMAP_TEXTURE as int] == file_entry(envmap),
            s@.materials == seq![default_material()],
            s@.meshes.len() == 0,
            s@.indices.len() == 0,
            s@.vertex_count == 0,
            s@.resident_textures == 0,
    {
        let mut textures: Vec<Texture> = Vec::new();
        textures.push(Texture::from_color(RgbaBits { r: ONE_BITS, g: ONE_BITS, b: ONE_BITS, a: ONE_BITS }));
        textures.push(Texture::from_scalar(ROUGHNESS_DEFAULT_BITS));
        textures.push(Texture::from_color(RgbaBits { r: HALF_BITS, g: HALF_BITS, b: HALF_BITS, a: ONE_BITS }));
        textures.push(Texture::from_scalar(0));
        textures.push(Texture::from_color(RgbaBits { r: 0, g: 0, b: 0, a: ONE_BITS }));
        textures.push(Texture::from_scalar(0));
        textures.push(Texture::from_color(RgbaBits { r: HALF_BITS, g: HALF_BITS, b: ONE_BITS, a: ONE_BITS }));
        textures.push(Texture::from_scalar(0));
        textures.push(Texture::from_scalar(ONE_BITS));
        textures.push(Texture::from_file_rgba(envmap));
        let mut materials: Vec<Material> = Vec::new();
        materials.push(Material {
            albedo_texture_idx: ALBEDO_DEFAULT,
            roughness_texture_idx: ROUGHNESS_DEFAULT,
            metallic_texture_idx: METALLIC_DEFAULT,
            emissive_texture_idx: EMISSIVE_DEFAULT,
            specular_texture_idx: SPECULAR_DEFAULT,
            sheen_texture_idx: SHEEN_DEFAULT,
            clearcoat_thickness: 0,
            clearcoat_roughness: 0,
            anisotropy: 0,
            anisotropy_rotation: 0,
            normal_texture_idx: NORMAL_DEFAULT,
            transmission_texture_idx: TRANSMISSION_DEFAULT,
            ior_texture_idx: IOR_DEFAULT,
        });
        let s = Scene {
            meshes: Vec::new(),
            indices: Vec::new(),
            vertex_count: 0,
            materials,
            textures,
            resident_textures: 0,
        };
        assert(s@.textures =~= placeholders().push(file_entry(envmap)));
        assert(s@.materials =~= seq![default_material()]);
        s
    }

    /// Appends a material, resolving each slot against the texture
    /// registry; returns its index.
    pub fn add_material(&mut self, m: MaterialSource) -> (r: u32)
        requires
            old(self)@.wf(),
            old(self).textures.len() + 9 <= u32::MAX,
            old(self).materials.len() < u32::MAX,
        ensures
            final(self)@.wf(),
            r == old(self).materials.len(),
            final(self)@ == add_material_spec(old(self)@, m),
    {
        proof {
            lemma_material_after(self.textures@, m);
            lemma_resolve_slot(self.textures@, m.albedo, ALBEDO_DEFAULT, false);
        }
        let ghost t0 = self.textures@;
        let ghost r1 = resolve_slot(t0, m.albedo, ALBEDO_DEFAULT, false);
        let ghost r2 = resolve_slot(r1.0, m.roughness, ROUGHNESS_DEFAULT, false);
        let ghost r3 = resolve_slot(r2.0, m.specular, SPECULAR_DEFAULT, false);
        let ghost r4 = resolve_slot(r3.0, m.metallic, METALLIC_DEFAULT, false);
        let ghost r5 = resolve_slot(r4.0, m.emissive, EMISSIVE_DEFAULT, true);
        let ghost r6 = resolve_slot(r5.0, m.sheen, SHEEN_DEFAULT, false);
        let ghost r7 = resolve_slot(r6.0, m.normal, NORMAL_DEFAULT, false);
        let ghost r8 = resolve_slot(r7.0, m.transmission, TRANSMISSION_DEFAULT, false);
        proof {
            lemma_resolve_slot(r1.0, m.roughness, ROUGHNESS_DEFAULT, false);
            lemma_resolve_slot(r2.0, m.specular, SPECULAR_DEFAULT, false);
            lemma_resolve_slot(r3.0, m.metallic, METALLIC_DEFAULT, false);
            lemma_resolve_slot(r4.0, m.emissive, EMISSIVE_DEFAULT, true);
            lemma_resolve_slot(r5.0, m.sheen, SHEEN_DEFAULT, false);
            lemma_resolve_slot(r6.0, m.normal, NORMAL_DEFAULT, false);
            lemma_resolve_slot(r7.0, m.transmission, TRANSMISSION_DEFAULT, false);
        }
        let MaterialSource {
            albedo, roughness, specular, metallic, emissive, sheen, normal, transmission, ior,
            clearcoat_thickness, clearcoat_roughness, anisotropy, anisotropy_rotation,
        } = m;
        let a = resolve_into(&mut self.textures, albedo, ALBEDO_DEFAULT, false);
        let ro = resolve_into(&mut self.textures, roughness, ROUGHNESS_DEFAULT, false);
        let sp = resolve_into(&mut self.textures, specular, SPECULAR_DEFAULT, false);
        let me = resolve_into(&mut self.textures, metallic, METALLIC_DEFAULT, false);
        let em = resolve_into(&mut self.textures, emissive, EMISSIVE_DEFAULT, true);
        let sh = resolve_into(&mut self.textures, sheen, SHEEN_DEFAULT, false);
        let no = resolve_into(&mut self.textures, normal, NORMAL_DEFAULT, false);
        let tr = resolve_into(&mut self.textures, transmission, TRANSMISSION_DEFAULT, false);
        let io = resolve_into(&mut self.textures, ior, IOR_DEFAULT, false);
        let mat = Material {
            albedo_texture_idx: a,
            roughness_texture_idx: ro,
            metallic_texture_idx: me,
            emissive_texture_idx: em,
            specular_texture_idx: sp,
            sheen_texture_idx: sh,
            clearcoat_thickness: or_zero(clearcoat_thickness),
            clearcoat_roughness: or_zero(clearcoat_roughness),
            anisotropy: or_zero(anisotropy),
            anisotropy_rotation: or_zero(anisotropy_rotation),
            normal_texture_idx: no,
            transmission_texture_idx: tr,
            ior_texture_idx: io,
        };
        let r = self.materials.len() as u32;
        self.materials.push(mat);
        proof {
            let v = self@;
            assert(v.textures[EMISSIVE_DEFAULT as int] == t0[EMISSIVE_DEFAULT as int]) by {
                assert(v.textures.subrange(0, t0.len() as int)[EMISSIVE_DEFAULT as int] == v.textures[EMISSIVE_DEFAULT as int]);
            }
            assert forall|i: int| 0 <= i < v.materials.len()
                implies material_in_range(#[trigger] v.materials[i], v.textures.len()) by {
                if i < v.materials.len() - 1 {
                    assert(v.materials[i] == old(self)@.materials[i]);
                }
            }
            assert forall|i: int| 0 <= i < v.meshes.len() implies mesh_in_range(#[trigger] v.meshes[i], v) by {
                assert(mesh_in_range(old(self)@.meshes[i], old(self)@));
            }
            assert forall|i: int| 0 <= i < v.indices.len() implies (#[trigger] v.indices[i]).index < v.vertex_count by {
                assert(old(self)@.indices[i].index < old(self)@.vertex_count);
            }
        }
        r
    }
}

/// The material a mesh source names, among the materials that start at
/// `base`.
pub open spec fn source_material(src: MeshSource, base: nat) -> int {
    base + unwrap_or_zero(src.material_id)
}

/// Why a mesh cannot be appended to `v`, if it cannot.
pub open spec fn mesh_error(v: SceneView, src: MeshSource, base: nat) -> Option<LoadError> {
    if src.indices.len() % 3 != 0 {
        Some(LoadError::IncompleteTriangle)
    } else if exists|j: int| 0 <= j < src.indices.len() && #[trigger] src.indices@[j] >= src.vertex_count {
        Some(LoadError::IndexOutOfRange)
    } else if v.vertex_count + src.vertex_count > u32::MAX || v.indices.len() + src.indices.len() > u32::MAX
        || v.meshes.len() >= u32::MAX {
        Some(LoadError::TooLarge)
    } else if source_material(src, base) >= v.materials.len() {
        Some(LoadError::UnknownMaterial)
    } else {
        None
    }
}

/// A mesh's indices renumbered into the scene-wide vertex table.
pub open spec fn shifted(idx: Seq<u32>, offset: u32) -> Seq<Index> {
    Seq::new(idx.len(), |j: int| Index { index: (idx[j] + offset) as u32 })
}

/// The scene after a mesh is appended: its vertices and indices go after
/// those already there.
pub open spec fn add_mesh_spec(v: SceneView, src: MeshSource, base: nat) -> SceneView {
    SceneView {
        meshes: v.meshes.push(Mesh {
            vertex_offset: v.vertex_count,
            vertex_count: src.vertex_count,
            index_offset: v.indices.len() as u32,
            index_count: src.indices.len() as u32,
            material_index: source_material(src, base) as u32,
        }),
        indices: v.indices + shifted(src.indices@, v.vertex_count),
        vertex_count: (v.vertex_count + src.vertex_count) as u32,
        ..v
    }
}

/// The scene after materials are appended in order.
pub open spec fn materials_after(v: SceneView, ms: Seq<MaterialSource>) -> SceneView
    decreases ms.len(),
{
    if ms.len() == 0 {
        v
    } else {
        add_material_spec(materials_after(v, ms.drop_last()), ms.last())
    }
}

/// The scene after meshes are appended in order, or the first mesh's error.
pub open spec fn meshes_after(v: SceneView, ms: Seq<MeshSource>, base: nat) -> Result<SceneView, LoadError>
    decreases ms.len(),
{
    if ms.len() == 0 {
        Ok(v)
    } else {
        match meshes_after(v, ms.drop_last(), base) {
            Ok(w) => match mesh_error(w, ms.last(), base) {
                Some(e) => Err(e),
                None => Ok(add_mesh_spec(w, ms.last(), base)),
            },
            Err(e) => Err(e),
        }
    }
}

/// Room for `n` more materials: each adds at most nine textures.
pub open spec fn materials_fit(v: SceneView, n: nat) -> bool {
    v.textures.len() + 9 * n <= u32::MAX && v.materials.len() + n <= u32::MAX
}

/// The scene after an asset is loaded: its materials, then its meshes,
/// whose material numbers count from the asset's first material.
pub open spec fn load_spec(v: SceneView, mats: Seq<MaterialSource>, meshes: Seq<MeshSource>) -> Result<SceneView, LoadError> {
    if !materials_fit(v, mats.len()) {
        Err(LoadError::TooManyMaterials)
    } else {
        meshes_after(materials_after(v, mats), meshes, v.materials.len())
    }
}

pub proof fn lemma_meshes_after_error(v: SceneView, ms: Seq<MeshSource>, base: nat, n: int)
    requires
        0 <= n <= ms.len(),
        meshes_after(v, ms.subrange(0, n), base) is Err,
    ensures
        meshes_after(v, ms, base) == meshes_after(v, ms.subrange(0, n), base),
    decreases ms.len(),
{
    if n == ms.len() {
        assert(ms.subrange(0, n) =~= ms);
    } else {
        assert(ms.drop_last().subrange(0, n) =~= ms.subrange(0, n));
        lemma_meshes_after_error(v, ms.drop_last(), base, n);
    }
}

fn copy_slot(s: &SlotSource) -> (r: SlotSource)
    ensures
        r == *s,
{
    match s {
        SlotSource::Absent => SlotSource::Absent,
        SlotSource::File(p) => SlotSource::File(p.clone()),
        SlotSource::Scalar(v) => SlotSource::Scalar(*v),
        SlotSource::Color(c) => SlotSource::Color(*c),
    }
}

fn copy_material_source(m: &MaterialSource) -> (r: MaterialSource)
    ensures
        r == *m,
{
    MaterialSource {
        albedo: copy_slot(&m.albedo),
        roughness: copy_slot(&m.roughness),
        specular: copy_slot(&m.specular),
        metallic: copy_slot(&m.metallic),
        emissive: copy_slot(&m.emissive),
        sheen: copy_slot(&m.sheen),
        normal: copy_slot(&m.normal),
        transmission: copy_slot(&m.transmission),
        ior: copy_slot(&m.ior),
        clearcoat_thickness: m.clearcoat_thickness,
        clearcoat_roughness: m.clearcoat_roughness,
        anisotropy: m.anisotropy,
        anisotropy_rotation: m.anisotropy_rotation,
    }
}

impl Scene {
    /// Appends a mesh, renumbering its indices into the scene-wide vertex
    /// table. Fails, leaving the scene as it was, on a malformed mesh.
    pub fn add_mesh(&mut self, src: &MeshSource, material_base: u32) -> (r: Result<(), LoadError>)
        requires
            old(self)@.wf(),
        ensures
            final(self)@.wf(),
            match r {
                Ok(()) => mesh_error(old(self)@, *src, material_base as nat) is None
                    && final(self)@ == add_mesh_spec(old(self)@, *src, material_base as nat),
                Err(e) => mesh_error(old(self)@, *src, material_base as nat) == Some(e)
                    && final(self)@ == old(self)@,
            },
    {
        let n = src.indices.len();
        if n % 3 != 0 {
            return Err(LoadError::IncompleteTriangle);
        }
        let mut j: usize = 0;
        while j < n
            invariant
                n == src.indices.len(),
                n % 3 == 0,
                j <= n,
                self@ == old(self)@,
                self@.wf(),
                forall|k: int| 0 <= k < j ==> src.indices@[k] < src.vertex_count,
            decreases n - j,
        {
            if src.indices[j] >= src.vertex_count {
                return Err(LoadError::IndexOutOfRange);
            }
            j = j + 1;
        }
        if self.vertex_count as u64 + src.vertex_count as u64 > u32::MAX as u64
            || n > u32::MAX as usize - self.indices.len()
            || self.meshes.len() >= u32::MAX as usize {
            return Err(LoadError::TooLarge);
        }
        let id: u32 = match src.material_id {
            Some(x) => x,
            None => 0,
        };
        let mat = material_base as u64 + id as u64;
        if mat >= self.materials.len() as u64 {
            return Err(LoadError::UnknownMaterial);
        }
        let ghost v0 = self@;
        let index_offset = self.indices.len() as u32;
        let offset = self.vertex_count;
        let mut k: usize = 0;
        while k < n
            invariant
                n == src.indices.len(),
                k <= n,
                offset == v0.vertex_count,
                index_offset == v0.indices.len(),
                self@ == (SceneView { indices: v0.indices + shifted(src.indices@.subrange(0, k as int), offset), ..v0 }),
                forall|q: int| 0 <= q < n ==> src.indices@[q] < src.vertex_count,
                v0.vertex_count + src.vertex_count <= u32::MAX,
            decreases n - k,
        {
            let x = src.indices[k];
            self.indices.push(Index::new(x + offset));
            proof {
                assert(shifted(src.indices@.subrange(0, k as int + 1), offset)
                    =~= shifted(src.indices@.subrange(0, k as int), offset).push(Index { index: (x + offset) as u32 }));
            }
            k = k + 1;
        }
        assert(src.indices@.subrange(0, n as int) =~= src.indices@);
        self.meshes.push(Mesh {
            vertex_offset: offset,
            vertex_count: src.vertex_count,
            index_offset,
            index_count: n as u32,
            material_index: mat as u32,
        });
        self.vertex_count = offset + src.vertex_count;
        proof {
            let v = self@;
            assert(v == add_mesh_spec(v0, *src, material_base as nat));
            assert forall|i: int| 0 <= i < v.indices.len() implies (#[trigger] v.indices[i]).index < v.vertex_count by {
                if i < v0.indices.len() {
                    assert(v0.indices[i].index < v0.vertex_count);
                } else {
                    assert(src.indices@[i - v0.indices.len()] < src.vertex_count);
                }
            }
            assert forall|i: int| 0 <= i < v.meshes.len() implies mesh_in_range(#[trigger] v.meshes[i], v) by {
                if i < v0.meshes.len() {
                    assert(mesh_in_range(v0.meshes[i], v0));
                }
            }
            assert forall|i: int| 0 <= i < v.materials.len()
                implies material_in_range(#[trigger] v.materials[i], v.textures.len()) by {
                assert(material_in_range(v0.materials[i], v0.textures.len()));
            }
        }
        Ok(())
    }

    /// Loads a parsed asset: appends its materials, then its meshes. Fails
    /// when the material or texture table would outgrow 32-bit indexing
    /// (scene unchanged), or at the first mesh that cannot be appended (a
    /// load error is fatal: the scene is then still well formed but holds
    /// part of the asset).
    pub fn load_obj(&mut self, asset: &Asset) -> (r: Result<(), LoadError>)
        requires
            old(self)@.wf(),
        ensures
            final(self)@.wf(),
            match r {
                Ok(()) => load_spec(old(self)@, asset.materials@, asset.meshes@) == Ok::<SceneView, LoadError>(final(self)@),
                Err(e) => load_spec(old(self)@, asset.materials@, asset.meshes@) == Err::<SceneView, LoadError>(e),
            },
    {
        let n = asset.materials.len();
        let room = (u32::MAX as usize - self.textures.len()) / 9;
        if n > room || n > u32::MAX as usize - self.materials.len() {
            proof {
                if n > room {
                    let t = self.textures.len() as int;
                    assert(t + 9 * n > u32::MAX) by (nonlinear_arith)
                        requires
                            n > room,
                            room == (u32::MAX - t) / 9,
                            t <= u32::MAX;
                }
            }
            return Err(LoadError::TooManyMaterials);
        }
        proof {
            let t = self.textures.len() as int;
            assert(t + 9 * n <= u32::MAX) by (nonlinear_arith)
                requires
                    n <= room,
                    room == (u32::MAX - t) / 9,
                    t <= u32::MAX;
        }
        let ghost v0 = self@;
        let base = self.materials.len() as u32;
        let mut i: usize = 0;
        while i < n
            invariant
                n == asset.materials.len(),
                i <= n,
                self@.wf(),
                self@ == materials_after(v0, asset.materials@.subrange(0, i as int)),
                self.textures.len() + 9 * (n - i) <= u32::MAX,
                self.materials.len() + (n - i) <= u32::MAX,
            decreases n - i,
        {
            let m = copy_material_source(&asset.materials[i]);
            proof {
                lemma_material_after(self.textures@, m);
                assert(asset.materials@.subrange(0, i as int + 1).drop_last() =~= asset.materials@.subrange(0, i as int));
            }
            self.add_material(m);
            i = i + 1;
        }
        assert(asset.materials@.subrange(0, n as int) =~= asset.materials@);
        let ghost v1 = self@;
        assert(meshes_after(v1, asset.meshes@.subrange(0, 0), base as nat) == Ok::<SceneView, LoadError>(self@));
        let nm = asset.meshes.len();
        let mut j: usize = 0;
        while j < nm
            invariant
                nm == asset.meshes.len(),
                j <= nm,
                self@.wf(),
                base == v0.materials.len(),
                v0 == old(self)@,
                materials_fit(v0, asset.materials.len() as nat),
                v1 == materials_after(v0, asset.materials@),
                meshes_after(v1, asset.meshes@.subrange(0, j as int), base as nat) == Ok::<SceneView, LoadError>(self@),
            decreases nm - j,
        {
            proof {
                assert(asset.meshes@.subrange(0, j as int + 1).drop_last() =~= asset.meshes@.subrange(0, j as int));
            }
            match self.add_mesh(&asset.meshes[j], base) {
                Ok(()) => {},
                Err(e) => {
                    proof {
                        assert(meshes_after(v1, asset.meshes@.subrange(0, j as int + 1), base as nat)
                            == Err::<SceneView, LoadError>(e));
                        lemma_meshes_after_error(v1, asset.meshes@, base as nat, j as int + 1);
                    }
                    return Err(e);
                },
            }
            j = j + 1;
        }
        assert(asset.meshes@.subrange(0, nm as int) =~= asset.meshes@);
        Ok(())
    }
}

/// One entry of the lights buffer: an emissive triangle, by the numbers of
/// its three vertices, or the all-zero triangle that stands in when the
/// scene has none.
#[derive(Debug, Clone, Copy, PartialEq, Eq, Structural)]
pub enum LightSource {
    Emitter(u32, u32, u32),
    Degenerate,
}

pub open spec fn mesh_holds(m: Mesh, pos: int) -> bool {
    m.index_offset <= pos < m.index_offset + m.index_count
}

/// The material of the index at `pos`: that of the first mesh whose index
/// range holds it, or the default material.
pub open spec fn material_at(meshes: Seq<Mesh>, pos: int) -> u32
    decreases meshes.len(),
{
    if meshes.len() == 0 {
        0
    } else if mesh_holds(meshes[0], pos) {
        meshes[0].material_index
    } else {
        material_at(meshes.subrange(1, meshes.len() as int), pos)
    }
}

/// Triangle `t` (indices `3t .. 3t + 3`) has an emissive material: one
/// whose emissive slot is not the emissive placeholder.
pub open spec fn emitting(v: SceneView, t: int) -> bool {
    v.materials[material_at(v.meshes, 3 * t) as int].emissive_texture_idx != EMISSIVE_DEFAULT
}

pub open spec fn emitter_of(v: SceneView, t: int) -> LightSource {
    LightSource::Emitter(v.indices[3 * t].index, v.indices[3 * t + 1].index, v.indices[3 * t + 2].index)
}

/// The emissive triangles among the first `n`, in order.
pub open spec fn emitters(v: SceneView, n: nat) -> Seq<LightSource>
    decreases n,
{
    if n == 0 {
        Seq::empty()
    } else if emitting(v, n - 1) {
        emitters(v, (n - 1) as nat).push(emitter_of(v, n - 1))
    } else {
        emitters(v, (n - 1) as nat)
    }
}

/// The lights buffer: every emissive triangle, or the degenerate one alone.
pub open spec fn light_list(v: SceneView) -> Seq<LightSource> {
    let e = emitters(v, (v.indices.len() / 3) as nat);
    if e.len() == 0 {
        seq![LightSource::Degenerate]
    } else {
        e
    }
}

proof fn lemma_material_at_in_range(v: SceneView, meshes: Seq<Mesh>, pos: int)
    requires
        v.wf(),
        forall|i: int| 0 <= i < meshes.len() ==> mesh_in_range(#[trigger] meshes[i], v),
    ensures
        material_at(meshes, pos) < v.materials.len(),
    decreases meshes.len(),
{
    if meshes.len() > 0 {
        assert(mesh_in_range(meshes[0], v));
        let rest = meshes.subrange(1, meshes.len() as int);
        assert forall|i: int| 0 <= i < rest.len() implies mesh_in_range(#[trigger] rest[i], v) by {
            assert(rest[i] == meshes[i + 1]);
        }
        lemma_material_at_in_range(v, rest, pos);
    }
}

proof fn lemma_no_emitters(v: SceneView, n: nat)
    requires
        forall|t: int| 0 <= t < n ==> !emitting(v, t),
    ensures
        emitters(v, n).len() == 0,
    decreases n,
{
    if n > 0 {
        lemma_no_emitters(v, (n - 1) as nat);
    }
}

/// The lights buffer is never empty; and when no material of the scene
/// emits, it holds exactly the degenerate triangle.
pub proof fn lemma_lights_never_empty(v: SceneView)
    requires
        v.wf(),
    ensures
        light_list(v).len() >= 1,
        (forall|i: int| 0 <= i < v.materials.len()
            ==> (#[trigger] v.materials[i]).emissive_texture_idx == EMISSIVE_DEFAULT)
            ==> light_list(v) == seq![LightSource::Degenerate],
{
    if forall|i: int| 0 <= i < v.materials.len()
        ==> (#[trigger] v.materials[i]).emissive_texture_idx == EMISSIVE_DEFAULT {
        let n = (v.indices.len() / 3) as nat;
        assert forall|t: int| 0 <= t < n implies !emitting(v, t) by {
            lemma_material_at_in_range(v, v.meshes, 3 * t);
        }
        lemma_no_emitters(v, n);
    }
}

impl Scene {
    /// The material of the index at `pos`.
    pub fn material_at_index(&self, pos: u32) -> (r: u32)
        requires
            self@.wf(),
        ensures
            r == material_at(self@.meshes, pos as int),
            r < self@.materials.len(),
    {
        proof {
            lemma_material_at_in_range(self@, self@.meshes, pos as int);
        }
        assert(self@.meshes.subrange(0, self@.meshes.len() as int) =~= self@.meshes);
        let mut k: usize = 0;
        while k < self.meshes.len()
            invariant
                k <= self.meshes.len(),
                material_at(self@.meshes, pos as int) < self@.materials.len(),
                material_at(self@.meshes, pos as int)
                    == material_at(self@.meshes.subrange(k as int, self@.meshes.len() as int), pos as int),
            decreases self.meshes.len() - k,
        {
            let m = self.meshes[k];
            let ghost rest = self@.meshes.subrange(k as int, self@.meshes.len() as int);
            assert(rest[0] == m);
            if m.index_offset as u64 <= pos as u64 && (pos as u64) < m.index_offset as u64 + m.index_count as u64 {
                return m.material_index;
            }
            assert(rest.subrange(1, rest.len() as int) =~= self@.meshes.subrange(k + 1, self@.meshes.len() as int));
            k = k + 1;
        }
        0
    }

    /// The lights buffer's contents: the emissive triangles in index order,
    /// or the degenerate triangle alone when there are none.
    pub fn light_sources(&self) -> (r: Vec<LightSource>)
        requires
            self@.wf(),
        ensures
            r@ == light_list(self@),
            r@.len() >= 1,
    {
        proof {
            lemma_lights_never_empty(self@);
        }
        let n = self.indices.len() / 3;
        let mut r: Vec<LightSource> = Vec::new();
        let mut t: usize = 0;
        while t < n
            invariant
                self@.wf(),
                n == self@.indices.len() / 3,
                t <= n,
                r@ == emitters(self@, t as nat),
            decreases n - t,
        {
            let mat = self.material_at_index((3 * t) as u32);
            if self.materials[mat as usize].emissive_texture_idx != EMISSIVE_DEFAULT {
                r.push(LightSource::Emitter(
                    self.indices[3 * t].index,
                    self.indices[3 * t + 1].index,
                    self.indices[3 * t + 2].index,
                ));
            }
            t = t + 1;
        }
        if r.len() == 0 {
            r.push(LightSource::Degenerate);
            assert(r@ =~= seq![LightSource::Degenerate]);
        }
        r
    }
}

/// Everything a material's first slot registered is still there, in
/// place, once the whole material is resolved.
proof fn lemma_material_keeps_albedo(texs: Seq<Texture>, m: MaterialSource)
    requires
        texs.len() >= PLACEHOLDERS,
    ensures
        ({
            let r1 = resolve_slot(texs, m.albedo, ALBEDO_DEFAULT, false);
            &&& r1.0.len() <= material_after(texs, m).0.len()
            &&& material_after(texs, m).0.subrange(0, r1.0.len() as int) == r1.0
        }),
{
    let r1 = resolve_slot(texs, m.albedo, ALBEDO_DEFAULT, false);
    let r2 = resolve_slot(r1.0, m.roughness, ROUGHNESS_DEFAULT, false);
    let r3 = resolve_slot(r2.0, m.specular, SPECULAR_DEFAULT, false);
    let r4 = resolve_slot(r3.0, m.metallic, METALLIC_DEFAULT, false);
    let r5 = resolve_slot(r4.0, m.emissive, EMISSIVE_DEFAULT, true);
    let r6 = resolve_slot(r5.0, m.sheen, SHEEN_DEFAULT, false);
    let r7 = resolve_slot(r6.0, m.normal, NORMAL_DEFAULT, false);
    let r8 = resolve_slot(r7.0, m.transmission, TRANSMISSION_DEFAULT, false);
    let r9 = resolve_slot(r8.0, m.ior, IOR_DEFAULT, false);
    lemma_resolve_slot(texs, m.albedo, ALBEDO_DEFAULT, false);
    lemma_resolve_slot(r1.0, m.roughness, ROUGHNESS_DEFAULT, false);
    lemma_resolve_slot(r2.0, m.specular, SPECULAR_DEFAULT, false);
    lemma_resolve_slot(r3.0, m.metallic, METALLIC_DEFAULT, false);
    lemma_resolve_slot(r4.0, m.emissive, EMISSIVE_DEFAULT, true);
    lemma_resolve_slot(r5.0, m.sheen, SHEEN_DEFAULT, false);
    lemma_resolve_slot(r6.0, m.normal, NORMAL_DEFAULT, false);
    lemma_resolve_slot(r7.0, m.transmission, TRANSMISSION_DEFAULT, false);
    lemma_resolve_slot(r8.0, m.ior, IOR_DEFAULT, false);
    let k = r1.0.len() as int;
    assert(r9.0.subrange(0, k) =~= r1.0) by {
        assert(r9.0.subrange(0, k) =~= r8.0.subrange(0, k));
        assert(r8.0.subrange(0, k) =~= r7.0.subrange(0, k));
        assert(r7.0.subrange(0, k) =~= r6.0.subrange(0, k));
        assert(r6.0.subrange(0, k) =~= r5.0.subrange(0, k));
        assert(r5.0.subrange(0, k) =~= r4.0.subrange(0, k));
        assert(r4.0.subrange(0, k) =~= r3.0.subrange(0, k));
        assert(r3.0.subrange(0, k) =~= r2.0.subrange(0, k));
    }
}

/// A constant color that is not NaN in any channel matches the entry it is
/// registered as.
proof fn lemma_color_self_match(c: ColorBits)
    requires
        !is_nan_bits(c.r) && !is_nan_bits(c.g) && !is_nan_bits(c.b),
    ensures
        entry_matches(key_entry(ConstKey::Color(opaque(c))), ConstKey::Color(opaque(c))),
{
    assert(!((0x3f80_0000u32 & 0x7f80_0000u32) == 0x7f80_0000u32 && (0x3f80_0000u32 & 0x007f_ffffu32) != 0))
        by (bit_vector);
}

/// Texture deduplication: two materials whose albedo is the same constant
/// color (no channel NaN), loaded one after the other, reference one and
/// the same texture, and later lookups of that color find it too.
pub proof fn lemma_shared_albedo(texs: Seq<Texture>, m1: MaterialSource, m2: MaterialSource, c: ColorBits)
    requires
        texs.len() >= PLACEHOLDERS,
        texs.len() + 18 <= u32::MAX,
        m1.albedo == SlotSource::Color(c),
        m2.albedo == SlotSource::Color(c),
        !is_nan_bits(c.r) && !is_nan_bits(c.g) && !is_nan_bits(c.b),
    ensures
        ({
            let (t1, a) = material_after(texs, m1);
            let (t2, b) = material_after(t1, m2);
            &&& a.albedo_texture_idx == b.albedo_texture_idx
            &&& find_match(t2, ConstKey::Color(opaque(c))) == Some(a.albedo_texture_idx as int)
        }),
{
    let key = ConstKey::Color(opaque(c));
    let r1 = resolve_slot(texs, m1.albedo, ALBEDO_DEFAULT, false);
    lemma_find_match_bounds(texs, key);
    lemma_color_self_match(c);
    lemma_find_match_push(texs, key, key_entry(key));
    assert(find_match(r1.0, key) == Some(r1.1 as int));
    lemma_material_keeps_albedo(texs, m1);
    lemma_material_after(texs, m1);
    let t1 = material_after(texs, m1).0;
    lemma_find_match_prefix(t1, key, r1.0.len() as int);
    assert(find_match(t1, key) == Some(r1.1 as int));
    let s1 = resolve_slot(t1, m2.albedo, ALBEDO_DEFAULT, false);
    assert(s1 == (t1, r1.1));
    lemma_material_keeps_albedo(t1, m2);
    let t2 = material_after(t1, m2).0;
    lemma_find_match_prefix(t2, key, t1.len() as int);
}

impl Scene {
    /// The batches in which the deferred textures are to be made resident.
    pub fn pending_batches(&self) -> (r: Vec<(usize, usize)>)
        requires
            self@.wf(),
        ensures
            r@ == load_batches_spec(self.resident_textures as nat, self.textures.len() as nat),
    {
        load_batches(self.resident_textures, self.textures.len())
    }

    /// Records that every registered texture is now resident.
    pub fn mark_resident(&mut self)
        requires
            old(self)@.wf(),
        ensures
            final(self)@.wf(),
            final(self)@ == (SceneView { resident_textures: old(self).textures.len(), ..old(self)@ }),
    {
        self.resident_textures = self.textures.len();
        proof {
            let v = self@;
            let v0 = old(self)@;
            assert forall|i: int| 0 <= i < v.meshes.len() implies mesh_in_range(#[trigger] v.meshes[i], v) by {
                assert(mesh_in_range(v0.meshes[i], v0));
            }
        }
    }
}

} // verus!
