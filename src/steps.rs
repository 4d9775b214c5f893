use vstd::prelude::*;

verus! {

/// Side of the square tile one trace workgroup covers.
pub const WORKGROUP_DIM: u32 = 25;

/// Bytes of one pixel of the accumulation image: four 32-bit channels.
pub const PIXEL_BYTES: u64 = 16;

/// Row alignment that buffer-to-image copies require.
pub const COPY_ROW_ALIGN: u64 = 256;

pub open spec fn ceil_div(a: nat, b: nat) -> nat
    recommends
        b > 0,
{
    ((a + b - 1) / b as int) as nat
}

/// Workgroups of the trace kernel: `ceil(width / T) x ceil(height / T)`.
pub fn workgroup_count(width: u32, height: u32) -> (r: (u32, u32))
    ensures
        r.0 == ceil_div(width as nat, WORKGROUP_DIM as nat),
        r.1 == ceil_div(height as nat, WORKGROUP_DIM as nat),
{
    let x = width / WORKGROUP_DIM + if width % WORKGROUP_DIM != 0 { 1u32 } else { 0u32 };
    let y = height / WORKGROUP_DIM + if height % WORKGROUP_DIM != 0 { 1u32 } else { 0u32 };
    (x, y)
}

/// Bytes of one row of the shared denoise buffer: the image row rounded up
/// to the copy alignment.
pub open spec fn padded_row(width: nat) -> nat {
    ceil_div(width * PIXEL_BYTES as nat, COPY_ROW_ALIGN as nat) * COPY_ROW_ALIGN as nat
}

pub fn padded_bytes_per_row(width: u32) -> (r: u64)
    ensures
        r == padded_row(width as nat),
        r >= width * PIXEL_BYTES,
        r % COPY_ROW_ALIGN == 0,
{
    let row = width as u64 * PIXEL_BYTES;
    let blocks = row / COPY_ROW_ALIGN + if row % COPY_ROW_ALIGN != 0 { 1u64 } else { 0u64 };
    assert(blocks * 256 >= row && (blocks * 256) % 256 == 0) by (nonlinear_arith)
        requires
            blocks == row / 256 + if row % 256 != 0 { 1int } else { 0int },
            row >= 0;
    blocks * COPY_ROW_ALIGN
}

/// Bytes of the shared denoise buffer for an image of the given size, or
/// `None` where that does not fit 64 bits.
pub fn shared_buffer_size(width: u32, height: u32) -> (r: Option<u64>)
    ensures
        r == (if padded_row(width as nat) * height <= u64::MAX {
            Some((padded_row(width as nat) * height) as u64)
        } else {
            None::<u64>
        }),
{
    let row = padded_bytes_per_row(width);
    row.checked_mul(height as u64)
}

/// Where the trace step stands: it has bound nothing yet, it holds the
/// static bind set, or it has dispatched with it.
#[derive(Debug, Clone, Copy, PartialEq, Eq, Structural)]
pub enum TracePhase {
    Uninitialized,
    StaticResourcesBound,
    Dispatching,
}

/// The static bind set the trace step holds: the resources it was built
/// with (its identity), and the scene and output image it was built for.
#[derive(Debug, Clone, Copy, PartialEq, Eq, Structural)]
pub struct StaticBinding {
    pub id: u64,
    pub scene_version: u64,
    pub output_version: u64,
}

/// Bookkeeping of the trace step's bind sets.
#[derive(Debug, Clone, Copy, PartialEq, Eq, Structural)]
pub struct TraceStep {
    pub phase: TracePhase,
    pub binding: Option<StaticBinding>,
    /// Identity the next built bind set gets.
    pub next_id: u64,
}

/// The bind set is current for this scene and output image.
pub open spec fn binding_current(b: Option<StaticBinding>, scene_version: u64, output_version: u64) -> bool {
    b matches Some(s) && s.scene_version == scene_version && s.output_version == output_version
}

/// The trace step after `prepare_static_resources`: unchanged when its bind
/// set is current, else holding a new one.
pub open spec fn prepare_spec(t: TraceStep, scene_version: u64, output_version: u64) -> TraceStep {
    if binding_current(t.binding, scene_version, output_version) {
        t
    } else {
        TraceStep {
            phase: TracePhase::StaticResourcesBound,
            binding: Some(StaticBinding { id: t.next_id, scene_version, output_version }),
            next_id: (t.next_id + 1) as u64,
        }
    }
}

impl TraceStep {
    pub open spec fn wf(self) -> bool {
        &&& (self.phase == TracePhase::Uninitialized) == (self.binding is None)
        &&& self.binding matches Some(b) ==> b.id < self.next_id
    }

    pub fn new() -> (r: TraceStep)
        ensures
            r.wf(),
            r.phase == TracePhase::Uninitialized,
            r.binding is None,
            r.next_id == 0,
    {
        TraceStep { phase: TracePhase::Uninitialized, binding: None, next_id: 0 }
    }

    /// Builds the static bind set unless the one held is current for this
    /// scene and output image; returns whether it built one.
    pub fn prepare_static_resources(&mut self, scene_version: u64, output_version: u64) -> (rebuilt: bool)
        requires
            old(self).wf(),
            old(self).next_id < u64::MAX,
        ensures
            final(self).wf(),
            *final(self) == prepare_spec(*old(self), scene_version, output_version),
            rebuilt == !binding_current(old(self).binding, scene_version, output_version),
    {
        let current = match self.binding {
            Some(b) => b.scene_version == scene_version && b.output_version == output_version,
            None => false,
        };
        if current {
            false
        } else {
            self.binding = Some(StaticBinding { id: self.next_id, scene_version, output_version });
            self.next_id = self.next_id + 1;
            self.phase = TracePhase::StaticResourcesBound;
            true
        }
    }

    /// Records a dispatch with the bind set held.
    pub fn dispatch(&mut self)
        requires
            old(self).wf(),
            old(self).binding is Some,
        ensures
            final(self).wf(),
            *final(self) == (TraceStep { phase: TracePhase::Dispatching, ..*old(self) }),
    {
        self.phase = TracePhase::Dispatching;
    }
}

/// Preparing twice with no change between builds once at most: the second
/// call keeps the same bind set, with the same resources.
pub proof fn lemma_prepare_idempotent(t: TraceStep, scene_version: u64, output_version: u64)
    ensures
        binding_current(prepare_spec(t, scene_version, output_version).binding, scene_version, output_version),
        prepare_spec(prepare_spec(t, scene_version, output_version), scene_version, output_version)
            == prepare_spec(t, scene_version, output_version),
{
}

} // verus!
