use pathtracer::accel::{blas_geometries, instance_table};
use pathtracer::context::{choose_queue_family, QueueFamily, StepKind, Targets};
use pathtracer::controller::{fault_action, Controller, FaultAction, SurfaceFault, TickPlan};
use pathtracer::scene::{Asset, LightSource, Scene};
use pathtracer::steps::{padded_bytes_per_row, shared_buffer_size, workgroup_count, TracePhase, TraceStep};

#[test]
fn workgroups_cover_the_image() {
    assert_eq!(workgroup_count(800, 600), (32, 24));
    assert_eq!(workgroup_count(25, 25), (1, 1));
    assert_eq!(workgroup_count(26, 0), (2, 0));
    assert_eq!(workgroup_count(641, 479), (26, 20));
}

#[test]
fn denoise_rows_are_padded_to_copy_alignment() {
    assert_eq!(padded_bytes_per_row(800), 12800);
    assert_eq!(padded_bytes_per_row(10), 256);
    assert_eq!(padded_bytes_per_row(17), 512);
    assert_eq!(padded_bytes_per_row(0), 0);
    assert_eq!(shared_buffer_size(10, 2), Some(512));
    assert_eq!(shared_buffer_size(800, 600), Some(12800 * 600));
    assert_eq!(shared_buffer_size(u32::MAX, u32::MAX), None);
}

#[test]
fn frame_advances_only_when_tracing() {
    let mut c = Controller::new(false);
    let p = c.tick(true);
    assert!(p.dispatch_trace);
    assert_eq!(c.frame, 1);
    let p = c.tick(false);
    assert!(!p.dispatch_trace);
    assert_eq!(c.frame, 1);
    let p = c.tick(true);
    assert!(p.dispatch_trace && p.snapshot_camera);
    assert_eq!(p.frame, 2);
    assert_eq!(c.frame, 2);
}

#[test]
fn frame_counter_wraps() {
    let mut c = Controller { frame: u32::MAX, dispatched: 0, latest_real: 0, denoise: false };
    let p = c.tick(true);
    assert_eq!(p.frame, 0);
}

#[test]
fn denoise_runs_before_each_dispatch_when_enabled() {
    let mut c = Controller::new(true);
    assert!(c.tick(true).run_denoise);
    assert!(!c.tick(false).run_denoise);
}

#[test]
fn static_resources_are_built_once() {
    let mut t = TraceStep::new();
    assert_eq!(t.phase, TracePhase::Uninitialized);
    assert!(t.prepare_static_resources(0, 0));
    let first = t.binding;
    assert!(!t.prepare_static_resources(0, 0));
    assert_eq!(t.binding, first);
    assert_eq!(t.phase, TracePhase::StaticResourcesBound);
    t.dispatch();
    assert_eq!(t.phase, TracePhase::Dispatching);
    assert!(!t.prepare_static_resources(0, 0));
    assert_eq!(t.phase, TracePhase::Dispatching);
    assert!(t.prepare_static_resources(1, 0));
    assert_ne!(t.binding.unwrap().id, first.unwrap().id);
}

#[test]
fn empty_scene_still_presents() {
    let mut s = Scene::new("res/envmap.exr".to_string());
    assert_eq!(s.load_obj(&Asset { materials: vec![], meshes: vec![] }), Ok(()));
    assert_eq!(s.light_sources(), vec![LightSource::Degenerate]);
    assert!(blas_geometries(&s).is_empty());
    assert!(instance_table(&s.meshes).is_empty());
    let mut t = TraceStep::new();
    let mut c = Controller::new(false);
    let p = c.tick(true);
    assert!(p.dispatch_trace);
    assert!(t.prepare_static_resources(0, 0));
    t.dispatch();
    assert_eq!(p.reproject_source, 0);
    assert_eq!(workgroup_count(800, 600), (32, 24));
}

#[test]
fn resize_to_zero_is_ignored_then_rebuilds_once() {
    let mut targets = Targets::new(800, 600);
    let mut t = TraceStep::new();
    assert!(t.prepare_static_resources(0, targets.output_version));
    assert!(targets.resize(0, 0).is_none());
    assert_eq!(targets, Targets::new(800, 600));
    assert!(!t.prepare_static_resources(0, targets.output_version));
    let plan = targets.resize(640, 480).unwrap();
    assert_eq!((plan.width, plan.height), (640, 480));
    assert_eq!(plan.rebuild, vec![StepKind::Trace, StepKind::Reprojection, StepKind::Denoise, StepKind::Composite]);
    assert_eq!((targets.width, targets.height), (640, 480));
    assert!(t.prepare_static_resources(0, targets.output_version));
    assert!(!t.prepare_static_resources(0, targets.output_version));
    assert!(targets.resize(640, 0).is_none());
}

#[test]
fn busy_trace_queue_repeats_the_last_good_frame() {
    let mut c = Controller::new(false);
    c.tick(true);
    c.tick(true);
    let before = c;
    let mut plans: Vec<TickPlan> = Vec::new();
    for _ in 0..5 {
        plans.push(c.tick(false));
    }
    assert_eq!(c, before);
    for p in &plans {
        assert!(!p.dispatch_trace);
        assert_eq!(p.reproject_source, 1);
        assert_eq!(p.frame, 2);
    }
    let p = c.tick(true);
    assert!(p.dispatch_trace);
    assert_eq!(p.reproject_source, 2);
}

#[test]
fn lost_surface_stops_other_faults_skip() {
    assert_eq!(fault_action(SurfaceFault::Lost), FaultAction::Stop);
    assert_eq!(fault_action(SurfaceFault::OutOfMemory), FaultAction::Stop);
    assert_eq!(fault_action(SurfaceFault::Timeout), FaultAction::SkipTick);
    assert_eq!(fault_action(SurfaceFault::Outdated), FaultAction::SkipTick);
    assert_eq!(fault_action(SurfaceFault::Other), FaultAction::SkipTick);
}

#[test]
fn both_queues_come_from_the_last_fitting_family() {
    let fam = |compute, graphics, queue_count| QueueFamily { compute, graphics, queue_count };
    assert_eq!(choose_queue_family(&vec![fam(true, true, 16), fam(true, false, 2), fam(true, true, 2)]), Some(2));
    assert_eq!(choose_queue_family(&vec![fam(true, true, 16), fam(true, true, 1)]), Some(0));
    assert_eq!(choose_queue_family(&vec![fam(true, true, 1), fam(false, true, 4)]), None);
    assert_eq!(choose_queue_family(&vec![]), None);
}
