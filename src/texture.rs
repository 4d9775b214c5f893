use vstd::prelude::*;

verus! {

/// Bit pattern of the single-precision value 1.0.
pub const ONE_BITS: u32 = 0x3f80_0000;

/// Bit pattern of the single-precision value 0.5.
pub const HALF_BITS: u32 = 0x3f00_0000;

/// Bit pattern of the single-precision value 0.99 (nearest representable).
pub const ROUGHNESS_DEFAULT_BITS: u32 = 0x3f7d_70a4;

/// Textures are made GPU-resident in batches of this many, one worker each.
pub const LOAD_BATCH: usize = 32;

/// A single-precision value, held as its IEEE-754 bit pattern, is NaN.
pub open spec fn is_nan_bits(a: u32) -> bool {
    (a & 0x7f80_0000u32) == 0x7f80_0000u32 && (a & 0x007f_ffffu32) != 0
}

/// A single-precision value, held as its bit pattern, is +0.0 or -0.0.
pub open spec fn is_zero_bits(a: u32) -> bool {
    (a & 0x7fff_ffffu32) == 0
}

/// IEEE-754 equality of two single-precision values given by their bit
/// patterns: NaN equals nothing, and the two zeros are equal.
pub open spec fn float_eq(a: u32, b: u32) -> bool {
    !is_nan_bits(a) && !is_nan_bits(b) && (a == b || (is_zero_bits(a) && is_zero_bits(b)))
}

pub fn same_float(a: u32, b: u32) -> (r: bool)
    ensures
        r == float_eq(a, b),
{
    let a_nan = (a & 0x7f80_0000u32) == 0x7f80_0000u32 && (a & 0x007f_ffffu32) != 0;
    let b_nan = (b & 0x7f80_0000u32) == 0x7f80_0000u32 && (b & 0x007f_ffffu32) != 0;
    !a_nan && !b_nan && (a == b || ((a & 0x7fff_ffffu32) == 0 && (b & 0x7fff_ffffu32) == 0))
}

/// An RGB color, each channel the bit pattern of a single-precision value.
#[derive(Debug, Clone, Copy, PartialEq, Eq, Structural)]
pub struct ColorBits {
    pub r: u32,
    pub g: u32,
    pub b: u32,
}

/// An RGBA color, each channel the bit pattern of a single-precision value.
#[derive(Debug, Clone, Copy, PartialEq, Eq, Structural)]
pub struct RgbaBits {
    pub r: u32,
    pub g: u32,
    pub b: u32,
    pub a: u32,
}

pub open spec fn rgba_eq(x: RgbaBits, y: RgbaBits) -> bool {
    float_eq(x.r, y.r) && float_eq(x.g, y.g) && float_eq(x.b, y.b) && float_eq(x.a, y.a)
}

/// The opaque RGBA color of an RGB color.
pub open spec fn opaque(c: ColorBits) -> RgbaBits {
    RgbaBits { r: c.r, g: c.g, b: c.b, a: ONE_BITS }
}

/// One registered texture: a constant color, a constant scalar (which is
/// also registered as the color `[s, 0, 0, 1]`), or an image file that is
/// read when the texture is made resident.
#[derive(Debug, Clone)]
pub struct Texture {
    pub color: Option<RgbaBits>,
    pub scalar: Option<u32>,
    pub path: Option<String>,
}

/// The value a constant texture is looked up by.
#[derive(Debug, Clone, Copy, PartialEq, Eq, Structural)]
pub enum ConstKey {
    Scalar(u32),
    Color(RgbaBits),
}

pub open spec fn color_entry(c: RgbaBits) -> Texture {
    Texture { color: Some(c), scalar: None, path: None }
}

pub open spec fn scalar_entry(s: u32) -> Texture {
    Texture { color: Some(RgbaBits { r: s, g: 0, b: 0, a: ONE_BITS }), scalar: Some(s), path: None }
}

pub open spec fn file_entry(p: String) -> Texture {
    Texture { color: None, scalar: None, path: Some(p) }
}

/// The entry that a constant of the given key is registered as.
pub open spec fn key_entry(k: ConstKey) -> Texture {
    match k {
        ConstKey::Scalar(s) => scalar_entry(s),
        ConstKey::Color(c) => color_entry(c),
    }
}

/// A registered texture holds the constant that `k` asks for.
pub open spec fn entry_matches(e: Texture, k: ConstKey) -> bool {
    match k {
        ConstKey::Scalar(v) => e.scalar is Some && float_eq(e.scalar->0, v),
        ConstKey::Color(c) => e.color is Some && rgba_eq(e.color->0, c),
    }
}

/// The first registered texture that holds the constant `k`, if any.
pub open spec fn find_match(texs: Seq<Texture>, k: ConstKey) -> Option<int>
    decreases texs.len(),
{
    if texs.len() == 0 {
        None
    } else {
        match find_match(texs.drop_last(), k) {
            Some(i) => Some(i),
            None => if entry_matches(texs.last(), k) {
                Some(texs.len() - 1)
            } else {
                None
            },
        }
    }
}

pub proof fn lemma_find_match_bounds(texs: Seq<Texture>, k: ConstKey)
    ensures
        find_match(texs, k) matches Some(i) ==> 0 <= i < texs.len() && entry_matches(texs[i], k),
        find_match(texs, k) is None ==> forall|j: int| 0 <= j < texs.len() ==> !entry_matches(#[trigger] texs[j], k),
    decreases texs.len(),
{
    if texs.len() > 0 {
        lemma_find_match_bounds(texs.drop_last(), k);
        assert forall|j: int| 0 <= j < texs.len() - 1 implies #[trigger] texs[j] == texs.drop_last()[j] by {}
    }
}

/// A prefix that already holds a match decides the search.
pub proof fn lemma_find_match_prefix(texs: Seq<Texture>, k: ConstKey, n: int)
    requires
        0 <= n <= texs.len(),
        find_match(texs.subrange(0, n), k) is Some,
    ensures
        find_match(texs, k) == find_match(texs.subrange(0, n), k),
    decreases texs.len(),
{
    if n == texs.len() {
        assert(texs.subrange(0, n) =~= texs);
    } else {
        assert(texs.drop_last().subrange(0, n) =~= texs.subrange(0, n));
        lemma_find_match_prefix(texs.drop_last(), k, n);
    }
}

/// Appending an entry that holds `k` to a registry without one makes it
/// the match.
pub proof fn lemma_find_match_push(texs: Seq<Texture>, k: ConstKey, e: Texture)
    ensures
        find_match(texs, k) is Some ==> find_match(texs.push(e), k) == find_match(texs, k),
        find_match(texs, k) is None && entry_matches(e, k) ==> find_match(texs.push(e), k) == Some(texs.len() as int),
        find_match(texs, k) is None && !entry_matches(e, k) ==> find_match(texs.push(e), k) is None,
{
    assert(texs.push(e).drop_last() =~= texs);
}

pub fn entry_matches_exec(e: &Texture, k: ConstKey) -> (r: bool)
    ensures
        r == entry_matches(*e, k),
{
    match k {
        ConstKey::Scalar(v) => match e.scalar {
            Some(s) => same_float(s, v),
            None => false,
        },
        ConstKey::Color(c) => match e.color {
            Some(x) => same_float(x.r, c.r) && same_float(x.g, c.g) && same_float(x.b, c.b)
                && same_float(x.a, c.a),
            None => false,
        },
    }
}

impl Texture {
    /// A constant color texture.
    pub fn from_color(c: RgbaBits) -> (r: Texture)
        ensures
            r == color_entry(c),
    {
        Texture { color: Some(c), scalar: None, path: None }
    }

    /// A constant scalar texture; its color is `[s, 0, 0, 1]`.
    pub fn from_scalar(s: u32) -> (r: Texture)
        ensures
            r == scalar_entry(s),
    {
        Texture { color: Some(RgbaBits { r: s, g: 0, b: 0, a: ONE_BITS }), scalar: Some(s), path: None }
    }

    /// A deferred texture read from an image file.
    pub fn from_file_rgba(p: String) -> (r: Texture)
        ensures
            r == file_entry(p),
    {
        Texture { color: None, scalar: None, path: Some(p) }
    }

    /// A deferred single-channel texture read from an image file; it is
    /// registered as any other file texture.
    pub fn from_file_scalar(p: String) -> (r: Texture)
        ensures
            r == file_entry(p),
    {
        Texture { color: None, scalar: None, path: Some(p) }
    }
}

pub fn key_texture(k: ConstKey) -> (r: Texture)
    ensures
        r == key_entry(k),
{
    match k {
        ConstKey::Scalar(s) => Texture::from_scalar(s),
        ConstKey::Color(c) => Texture::from_color(c),
    }
}

pub fn zero_bits(a: u32) -> (r: bool)
    ensures
        r == is_zero_bits(a),
{
    (a & 0x7fff_ffffu32) == 0
}

/// Looks a constant up in the registry: the first texture that holds it.
pub fn find_constant(texs: &Vec<Texture>, k: ConstKey) -> (r: Option<usize>)
    ensures
        r matches Some(i) ==> find_match(texs@, k) == Some(i as int),
        r is None ==> find_match(texs@, k) is None,
{
    let mut i: usize = 0;
    while i < texs.len()
        invariant
            i <= texs.len(),
            find_match(texs@.subrange(0, i as int), k) is None,
        decreases texs.len() - i,
    {
        let hit = entry_matches_exec(&texs[i], k);
        assert(texs@.subrange(0, i as int + 1).drop_last() =~= texs@.subrange(0, i as int));
        if hit {
            proof {
                lemma_find_match_prefix(texs@, k, i as int + 1);
            }
            return Some(i);
        }
        i = i + 1;
    }
    assert(texs@.subrange(0, i as int) =~= texs@);
    None
}

/// The batches `[start, end)` in which the textures `first .. count` are made
/// resident: consecutive, each of `LOAD_BATCH` textures but the last.
pub open spec fn load_batches_spec(first: nat, count: nat) -> Seq<(usize, usize)>
    decreases count - first,
{
    if first >= count {
        Seq::empty()
    } else if count - first <= LOAD_BATCH {
        seq![(first as usize, count as usize)]
    } else {
        seq![(first as usize, (first + LOAD_BATCH) as usize)].add(
            load_batches_spec((first + LOAD_BATCH) as nat, count),
        )
    }
}

/// Splits the textures `first .. count` into load batches.
pub fn load_batches(first: usize, count: usize) -> (r: Vec<(usize, usize)>)
    ensures
        r@ == load_batches_spec(first as nat, count as nat),
{
    let mut r: Vec<(usize, usize)> = Vec::new();
    let mut start: usize = first;
    while start < count
        invariant
            first <= start || count <= first,
            start >= first,
            r@.add(load_batches_spec(start as nat, count as nat)) == load_batches_spec(first as nat, count as nat),
        decreases count - start,
    {
        let end: usize = if count - start <= LOAD_BATCH { count } else { start + LOAD_BATCH };
        let ghost before = r@;
        r.push((start, end));
        proof {
            if count - start <= LOAD_BATCH {
                assert(load_batches_spec(end as nat, count as nat) == Seq::<(usize, usize)>::empty());
            }
            assert(r@.add(load_batches_spec(end as nat, count as nat)) =~= before.add(
                load_batches_spec(start as nat, count as nat),
            ));
        }
        start = end;
    }
    assert(r@.add(load_batches_spec(start as nat, count as nat)) =~= r@);
    r
}

/// How an image of the given size is uploaded: block-compressed (4x4
/// blocks of 16 bytes) when both sides are multiples of four and it is not
/// high dynamic range, else as four 32-bit channels per pixel; and the bytes
/// of one row of the upload.
pub fn upload_layout(width: u32, height: u32, high_dynamic_range: bool) -> (r: (bool, u64))
    ensures
        r.0 == (width % 4 == 0 && height % 4 == 0 && !high_dynamic_range),
        r.0 ==> r.1 == 16 * (width / 4),
        !r.0 ==> r.1 == 16 * width,
{
    let compressed = width % 4 == 0 && height % 4 == 0 && !high_dynamic_range;
    if compressed {
        (true, 16 * (width / 4) as u64)
    } else {
        (false, 16 * width as u64)
    }
}

} // verus!
