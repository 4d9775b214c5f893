use vstd::prelude::*;

verus! {

/// The pipeline controller's state across display ticks.
#[derive(Debug, Clone, Copy, PartialEq, Eq, Structural)]
pub struct Controller {
    /// The camera's progressive sample counter.
    pub frame: u32,
    /// Trace dispatches issued so far.
    pub dispatched: u64,
    /// Generation of the latest completed trace result: the number of
    /// dispatches that had finished when it was taken.
    pub latest_real: u64,
    /// Whether the denoise step runs before each new trace dispatch.
    pub denoise: bool,
}

/// What one display tick does. Every tick also runs exactly one
/// reprojection dispatch, then the composite step, then presents.
#[derive(Debug, Clone, Copy, PartialEq, Eq, Structural)]
pub struct TickPlan {
    pub run_denoise: bool,
    /// Copy the current camera into the previous-camera snapshot.
    pub snapshot_camera: bool,
    pub dispatch_trace: bool,
    /// The camera frame counter the trace step is given.
    pub frame: u32,
    /// Generation of the real frame the reprojection reads.
    pub reproject_source: u64,
}

/// One tick: a busy trace queue changes nothing and dispatches nothing; an
/// idle one means the last dispatch has finished, so its result becomes
/// the real frame, and a new dispatch goes out with the next frame number.
pub open spec fn tick_spec(c: Controller, trace_idle: bool) -> (Controller, TickPlan) {
    if trace_idle {
        let n = Controller {
            frame: ((c.frame + 1) % 0x1_0000_0000) as u32,
            dispatched: (c.dispatched + 1) as u64,
            latest_real: c.dispatched,
            denoise: c.denoise,
        };
        (n, TickPlan {
            run_denoise: c.denoise,
            snapshot_camera: true,
            dispatch_trace: true,
            frame: n.frame,
            reproject_source: n.latest_real,
        })
    } else {
        (c, TickPlan {
            run_denoise: false,
            snapshot_camera: false,
            dispatch_trace: false,
            frame: c.frame,
            reproject_source: c.latest_real,
        })
    }
}

/// A run of ticks, one per poll result, and the plans they give.
pub open spec fn run_spec(c: Controller, polls: Seq<bool>) -> (Controller, Seq<TickPlan>)
    decreases polls.len(),
{
    if polls.len() == 0 {
        (c, Seq::empty())
    } else {
        let (d, plans) = run_spec(c, polls.drop_last());
        let (e, p) = tick_spec(d, polls.last());
        (e, plans.push(p))
    }
}

pub open spec fn idle_count(polls: Seq<bool>) -> nat
    decreases polls.len(),
{
    if polls.len() == 0 {
        0
    } else {
        idle_count(polls.drop_last()) + if polls.last() { 1nat } else { 0nat }
    }
}

impl Controller {
    /// The real frame is the result of the dispatch before the one in
    /// flight, or the cleared image before any dispatch: the display queue
    /// never reads what the trace queue may still be writing.
    pub open spec fn wf(self) -> bool {
        (self.dispatched == 0 && self.latest_real == 0) || self.latest_real + 1 == self.dispatched
    }

    pub fn new(denoise: bool) -> (r: Controller)
        ensures
            r.wf(),
            r == (Controller { frame: 0, dispatched: 0, latest_real: 0, denoise }),
    {
        Controller { frame: 0, dispatched: 0, latest_real: 0, denoise }
    }

    /// Decides one display tick from a non-blocking poll of the trace queue.
    pub fn tick(&mut self, trace_idle: bool) -> (r: TickPlan)
        requires
            old(self).dispatched < u64::MAX,
        ensures
            (*final(self), r) == tick_spec(*old(self), trace_idle),
            old(self).wf() ==> final(self).wf(),
    {
        if !trace_idle {
            return TickPlan {
                run_denoise: false,
                snapshot_camera: false,
                dispatch_trace: false,
                frame: self.frame,
                reproject_source: self.latest_real,
            };
        }
        self.frame = self.frame.wrapping_add(1);
        self.latest_real = self.dispatched;
        self.dispatched = self.dispatched + 1;
        TickPlan {
            run_denoise: self.denoise,
            snapshot_camera: true,
            dispatch_trace: true,
            frame: self.frame,
            reproject_source: self.latest_real,
        }
    }
}

/// Every tick reprojects from a generation that no dispatch in flight
/// writes: the one before the newest dispatch.
pub proof fn lemma_reads_finished_frame(c: Controller, trace_idle: bool)
    requires
        c.wf(),
        c.dispatched < u64::MAX,
    ensures
        tick_spec(c, trace_idle).0.wf(),
        tick_spec(c, trace_idle).0.dispatched > 0 ==> tick_spec(c, trace_idle).1.reproject_source
            < tick_spec(c, trace_idle).0.dispatched,
{
}

/// The frame counter moves exactly on ticks that dispatch: by one when the
/// trace step dispatches, not at all when the tick is skipped.
pub proof fn lemma_frame_follows_dispatch(c: Controller, trace_idle: bool)
    requires
        c.frame < u32::MAX,
    ensures
        tick_spec(c, trace_idle).1.dispatch_trace ==> tick_spec(c, trace_idle).0.frame == c.frame + 1,
        !tick_spec(c, trace_idle).1.dispatch_trace ==> tick_spec(c, trace_idle).0.frame == c.frame,
        tick_spec(c, trace_idle).1.dispatch_trace == trace_idle,
{
}

/// Over any run of ticks the frame counter advances by the number of ticks
/// that dispatched, and by nothing else.
pub proof fn lemma_run_frame_count(c: Controller, polls: Seq<bool>)
    requires
        c.frame + polls.len() <= u32::MAX,
    ensures
        run_spec(c, polls).0.frame == c.frame + idle_count(polls),
        idle_count(polls) <= polls.len(),
    decreases polls.len(),
{
    if polls.len() > 0 {
        lemma_run_frame_count(c, polls.drop_last());
    }
}

/// While the trace queue stays busy, nothing is dispatched, the controller
/// does not change, and every tick reprojects from the same real frame.
pub proof fn lemma_busy_run_holds(c: Controller, polls: Seq<bool>)
    requires
        forall|i: int| 0 <= i < polls.len() ==> !polls[i],
    ensures
        run_spec(c, polls).0 == c,
        run_spec(c, polls).1.len() == polls.len(),
        forall|i: int| 0 <= i < polls.len() ==> !(#[trigger] run_spec(c, polls).1[i]).dispatch_trace
            && run_spec(c, polls).1[i].reproject_source == c.latest_real
            && run_spec(c, polls).1[i].frame == c.frame,
    decreases polls.len(),
{
    if polls.len() > 0 {
        let prefix = polls.drop_last();
        assert forall|i: int| 0 <= i < prefix.len() implies !prefix[i] by {
            assert(prefix[i] == polls[i]);
        }
        lemma_busy_run_holds(c, prefix);
        let plans = run_spec(c, polls).1;
        assert forall|i: int| 0 <= i < polls.len() implies !(#[trigger] plans[i]).dispatch_trace
            && plans[i].reproject_source == c.latest_real && plans[i].frame == c.frame by {
            if i < polls.len() - 1 {
                assert(plans[i] == run_spec(c, prefix).1[i]);
            }
        }
    }
}

/// Why the presentation surface could not hand out an image this tick.
#[derive(Debug, Clone, Copy, PartialEq, Eq, Structural)]
pub enum SurfaceFault {
    Timeout,
    Outdated,
    Lost,
    OutOfMemory,
    Other,
}

/// What the run loop does about a surface fault.
#[derive(Debug, Clone, Copy, PartialEq, Eq, Structural)]
pub enum FaultAction {
    /// Skip this tick's presentation and try again on the next.
    SkipTick,
    /// End the run loop.
    Stop,
}

/// A lost surface or exhausted memory ends the run; any other fault is
/// transient.
pub fn fault_action(f: SurfaceFault) -> (r: FaultAction)
    ensures
        r == (if f == SurfaceFault::Lost || f == SurfaceFault::OutOfMemory {
            FaultAction::Stop
        } else {
            FaultAction::SkipTick
        }),
{
    match f {
        SurfaceFault::Lost => FaultAction::Stop,
        SurfaceFault::OutOfMemory => FaultAction::Stop,
        _ => FaultAction::SkipTick,
    }
}

} // verus!
