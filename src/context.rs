use vstd::prelude::*;

verus! {

/// One queue family the physical device offers.
#[derive(Debug, Clone, Copy, PartialEq, Eq, Structural)]
pub struct QueueFamily {
    pub compute: bool,
    pub graphics: bool,
    pub queue_count: u32,
}

/// A family that can hold both the trace queue and the display queue.
pub open spec fn fits_two_queues(f: QueueFamily) -> bool {
    f.compute && f.graphics && f.queue_count >= 2
}

/// The family both queues are taken from: the last one that can compute
/// and draw and offers two queues. `None` means the device cannot run the
/// two-queue pipeline.
pub fn choose_queue_family(families: &Vec<QueueFamily>) -> (r: Option<usize>)
    ensures
        r matches Some(i) ==> i < families@.len() && fits_two_queues(families@[i as int])
            && forall|j: int| i < j < families@.len() ==> !fits_two_queues(#[trigger] families@[j]),
        r is None ==> forall|j: int| 0 <= j < families@.len() ==> !fits_two_queues(#[trigger] families@[j]),
{
    let mut i: usize = families.len();
    while i > 0
        invariant
            i <= families@.len(),
            forall|j: int| i <= j < families@.len() ==> !fits_two_queues(#[trigger] families@[j]),
        decreases i,
    {
        let f = families[i - 1];
        if f.compute && f.graphics && f.queue_count >= 2 {
            return Some(i - 1);
        }
        i = i - 1;
    }
    None
}

/// The render steps whose resources depend on the output size.
#[derive(Debug, Clone, Copy, PartialEq, Eq, Structural)]
pub enum StepKind {
    Trace,
    Reprojection,
    Denoise,
    Composite,
}

/// What a resize asks of the caller: wait for both queues to drain, then
/// reallocate the shared images at the new size and rebuild each listed
/// step's size-dependent resources once.
#[derive(Debug, Clone)]
pub struct ResizePlan {
    pub width: u32,
    pub height: u32,
    pub rebuild: Vec<StepKind>,
}

/// The size of the presentation surface and of every image that follows it.
#[derive(Debug, Clone, Copy, PartialEq, Eq, Structural)]
pub struct Targets {
    pub width: u32,
    pub height: u32,
    /// Bumped whenever the output images are reallocated.
    pub output_version: u64,
}

pub open spec fn all_steps() -> Seq<StepKind> {
    seq![StepKind::Trace, StepKind::Reprojection, StepKind::Denoise, StepKind::Composite]
}

impl Targets {
    pub fn new(width: u32, height: u32) -> (r: Targets)
        ensures
            r == (Targets { width, height, output_version: 0 }),
    {
        Targets { width, height, output_version: 0 }
    }

    /// A resize to a zero-sized surface is no resize; any other reallocates
    /// the outputs and has every step rebuild once.
    pub fn resize(&mut self, width: u32, height: u32) -> (r: Option<ResizePlan>)
        requires
            old(self).output_version < u64::MAX,
        ensures
            width == 0 || height == 0 ==> r is None && *final(self) == *old(self),
            width > 0 && height > 0 ==> (r matches Some(p) && p.width == width && p.height == height
                && p.rebuild@ == all_steps()),
            width > 0 && height > 0 ==> *final(self) == (Targets {
                width,
                height,
                output_version: (old(self).output_version + 1) as u64,
            }),
    {
        if width == 0 || height == 0 {
            return None;
        }
        self.width = width;
        self.height = height;
        self.output_version = self.output_version + 1;
        let mut rebuild: Vec<StepKind> = Vec::new();
        rebuild.push(StepKind::Trace);
        rebuild.push(StepKind::Reprojection);
        rebuild.push(StepKind::Denoise);
        rebuild.push(StepKind::Composite);
        assert(rebuild@ =~= all_steps());
        Some(ResizePlan { width, height, rebuild })
    }
}

} // verus!
