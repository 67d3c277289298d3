//! Tests of the engine context's entry points.

use physics_core::context::{
    EngineContext, FrameAction, FrameOutcome, Phase, SurfaceProbe, TickPlan,
};
use physics_core::grid::GridLayout;
use physics_core::scalar::{Scalar, Vec3};
use physics_core::scheduler::{Throughput, DEFAULT_FRAME_INTERVAL_MS};
use physics_core::surface::{
    AcquireError, DeviceCaps, InitError, PixelFormat, Platform, PresentMode, SurfaceConfig,
};
use physics_core::world::{BodyMotion, EngineState, StepRequest};

fn scalar(value: f32) -> Scalar {
    Scalar::from_bits(value.to_bits())
}

fn value(scalar: Scalar) -> f32 {
    f32::from_bits(scalar.to_bits())
}

fn layout(per_row: u32) -> GridLayout {
    let axis = (0..per_row)
        .map(|i| {
            let n = per_row as f32;
            scalar((i as f32 / n) * 2.0 - 1.0 + (1.0 / n))
        })
        .collect();
    GridLayout::from_axis(axis).unwrap()
}

fn context(platform: Platform) -> EngineContext {
    EngineContext::new(platform, layout(10), DEFAULT_FRAME_INTERVAL_MS)
}

fn device(max_dimension: u32) -> SurfaceProbe {
    SurfaceProbe::Available(DeviceCaps {
        formats: vec![PixelFormat::Bgra8Unorm, PixelFormat::Bgra8UnormSrgb],
        max_dimension,
    })
}

fn fall(context: &EngineContext, by: f32) -> Vec<BodyMotion> {
    context
        .world()
        .unwrap()
        .dynamic_bodies()
        .iter()
        .map(|sample| BodyMotion {
            translation: Vec3 {
                x: sample.translation.x,
                y: scalar(value(sample.translation.y) - by),
                z: sample.translation.z,
            },
            rotation: sample.rotation,
            linvel: Vec3 { x: scalar(0.0), y: scalar(-by), z: scalar(0.0) },
        })
        .collect()
}

#[test]
fn new_context_is_uninitialized() {
    let ctx = context(Platform::Native);
    assert_eq!(ctx.phase(), Phase::Uninitialized);
    assert!(!ctx.is_initialized());
    assert_eq!(ctx.surface(), None);
    assert!(ctx.world().is_none());
    assert_eq!(ctx.scheduler().interval_ms, 16);
}

#[test]
fn cold_start() {
    let mut ctx = context(Platform::Native);
    let result = ctx.initialize(device(8192), 1024, 768, 0);
    assert_eq!(
        result,
        Ok(Some(SurfaceConfig {
            width: 1024,
            height: 768,
            format: PixelFormat::Bgra8UnormSrgb,
            present_mode: PresentMode::Fifo,
            max_dimension: 8192,
        }))
    );
    assert_eq!(ctx.phase(), Phase::Ready);
    assert!(ctx.is_initialized());
    assert_eq!(ctx.surface(), result.unwrap());
    assert_eq!(ctx.world().unwrap().dynamic_count(), 100);
    let info = ctx.get_info();
    assert!(!info.is_empty());
    assert_eq!(info, "Hello from Rust wgpu core!");
}

#[test]
fn info_is_there_before_initialization() {
    let ctx = context(Platform::Native);
    assert_eq!(ctx.get_info(), "Hello from Rust wgpu core!");
}

#[test]
fn initialize_clamps_the_requested_size() {
    let mut ctx = context(Platform::Native);
    let config = ctx.initialize(device(2048), 4000, 3000, 0).unwrap().unwrap();
    assert_eq!((config.width, config.height), (2048, 2048));
    assert_eq!(config.max_dimension, 2048);
}

#[test]
fn failed_initialize_retains_nothing() {
    for error in [
        InitError::SurfaceCreation,
        InitError::AdapterSelection,
        InitError::DeviceCreation,
    ] {
        let mut ctx = context(Platform::Native);
        assert_eq!(ctx.initialize(SurfaceProbe::Failed(error), 1024, 768, 5), Err(error));
        assert_eq!(ctx.phase(), Phase::Uninitialized);
        assert_eq!(ctx.surface(), None);
        assert!(ctx.world().is_none());
        // The caller may try again with another handle.
        assert!(ctx.initialize(device(8192), 1024, 768, 9).is_ok());
        assert_eq!(ctx.phase(), Phase::Ready);
    }
}

#[test]
fn failed_initialize_keeps_a_ready_context() {
    let mut ctx = context(Platform::Native);
    let config = ctx.initialize(device(8192), 1024, 768, 0).unwrap();
    let report = fall(&ctx, 0.5);
    assert!(ctx.apply_motion(&report));
    let bodies = ctx.world().unwrap().bodies().clone();
    assert_eq!(
        ctx.initialize(SurfaceProbe::Failed(InitError::DeviceCreation), 10, 10, 99),
        Err(InitError::DeviceCreation)
    );
    assert_eq!(ctx.phase(), Phase::Ready);
    assert_eq!(ctx.surface(), config);
    assert_eq!(ctx.world().unwrap().bodies(), &bodies);
    assert_eq!(ctx.scheduler().last_frame_ms, 0);
}

#[test]
fn browser_without_formats_cannot_initialize() {
    let mut ctx = context(Platform::Web);
    let probe = SurfaceProbe::Available(DeviceCaps { formats: Vec::new(), max_dimension: 4096 });
    assert_eq!(ctx.initialize(probe, 800, 600, 0), Err(InitError::NoSurfaceFormat));
    assert_eq!(ctx.phase(), Phase::Uninitialized);
}

#[test]
fn browser_initialize_uses_auto_vsync() {
    let mut ctx = context(Platform::Web);
    let config = ctx.initialize(device(4096), 800, 600, 0).unwrap().unwrap();
    assert_eq!(config.present_mode, PresentMode::AutoVsync);
    assert_eq!(config.format, PixelFormat::Bgra8UnormSrgb);
}

#[test]
fn headless_initialize() {
    let mut ctx = context(Platform::Native);
    assert_eq!(ctx.initialize(SurfaceProbe::Absent, 1024, 768, 0), Ok(None));
    assert_eq!(ctx.phase(), Phase::Headless);
    assert!(ctx.is_initialized());
    assert_eq!(ctx.surface(), None);
    // Rendering does nothing.
    let scheduler = ctx.scheduler();
    assert!(ctx.begin_frame(1000).is_none());
    assert_eq!(ctx.end_frame(FrameOutcome::Presented, 1001), FrameAction::Idle);
    assert_eq!(ctx.resize(640, 480), None);
    assert_eq!(ctx.scheduler(), scheduler);
    assert_eq!(ctx.phase(), Phase::Headless);
    // Physics still runs.
    assert_eq!(
        ctx.update(scalar(0.016)),
        Some(StepRequest {
            dt: scalar(0.016),
            time_scale: scalar(1.0),
            gravity: Vec3 { x: scalar(0.0), y: scalar(-9.81), z: scalar(0.0) },
        })
    );
    let before = ctx.world().unwrap().bodies().clone();
    let report = fall(&ctx, 0.01);
    assert!(ctx.apply_motion(&report));
    assert_ne!(ctx.world().unwrap().bodies(), &before);
    assert_eq!(ctx.instances().unwrap().len(), 100);
}

#[test]
fn uninitialized_context_ignores_every_call() {
    let mut ctx = context(Platform::Native);
    assert_eq!(ctx.update(scalar(0.016)), None);
    assert!(!ctx.apply_motion(&Vec::new()));
    assert!(ctx.begin_frame(1_000_000).is_none());
    assert_eq!(ctx.end_frame(FrameOutcome::Presented, 1_000_000), FrameAction::Idle);
    assert_eq!(
        ctx.end_frame(FrameOutcome::AcquireFailed(AcquireError::Lost), 1_000_000),
        FrameAction::Idle
    );
    assert_eq!(ctx.resize(640, 480), None);
    ctx.set_gravity_y(scalar(5.0));
    ctx.set_time_scale(scalar(2.0));
    ctx.set_paused(true);
    ctx.reset_simulation();
    assert_eq!(
        ctx.tick(1_000_000, scalar(0.016)),
        TickPlan { render: false, step: None }
    );
    assert!(ctx.instances().is_none());
    assert_eq!(ctx.phase(), Phase::Uninitialized);
    assert_eq!(ctx.surface(), None);
    assert!(ctx.world().is_none());
    assert_eq!(ctx.scheduler().last_frame_ms, 0);
    assert_eq!(ctx.scheduler().frames_in_window, 0);
}

#[test]
fn shutdown_is_idempotent() {
    let mut ctx = context(Platform::Native);
    ctx.initialize(device(8192), 1024, 768, 0).unwrap();
    assert!(ctx.shutdown());
    assert_eq!(ctx.phase(), Phase::Uninitialized);
    assert_eq!(ctx.surface(), None);
    assert!(ctx.world().is_none());
    assert!(!ctx.shutdown());
    assert_eq!(ctx.phase(), Phase::Uninitialized);
    assert_eq!(ctx.surface(), None);
    assert!(ctx.world().is_none());
}

#[test]
fn shutdown_from_every_phase() {
    let mut fresh = context(Platform::Native);
    assert!(!fresh.shutdown());
    assert_eq!(fresh.phase(), Phase::Uninitialized);

    let mut headless = context(Platform::Native);
    headless.initialize(SurfaceProbe::Absent, 1, 1, 0).unwrap();
    assert!(!headless.shutdown());
    assert_eq!(headless.phase(), Phase::Uninitialized);
    assert!(headless.world().is_none());

    let mut degraded = context(Platform::Native);
    degraded.initialize(device(8192), 1024, 768, 0).unwrap();
    degraded.end_frame(FrameOutcome::AcquireFailed(AcquireError::Lost), 20);
    assert_eq!(degraded.phase(), Phase::Degraded);
    assert!(!degraded.shutdown());
    assert_eq!(degraded.phase(), Phase::Uninitialized);
}

#[test]
fn degraded_recovery() {
    let mut ctx = context(Platform::Native);
    ctx.initialize(device(8192), 1024, 768, 0).unwrap();
    assert!(ctx.begin_frame(16).is_some());
    assert_eq!(
        ctx.end_frame(FrameOutcome::AcquireFailed(AcquireError::Lost), 17),
        FrameAction::ReleaseSurface
    );
    assert_eq!(ctx.phase(), Phase::Degraded);
    assert!(!ctx.is_initialized());
    assert_eq!(ctx.surface(), None);
    assert!(ctx.world().is_none());
    // The next render does nothing, and neither do update and resize.
    assert!(ctx.begin_frame(1000).is_none());
    assert_eq!(ctx.end_frame(FrameOutcome::Presented, 1001), FrameAction::Idle);
    assert_eq!(ctx.update(scalar(0.016)), None);
    assert_eq!(ctx.resize(640, 480), None);
    assert_eq!(ctx.phase(), Phase::Degraded);
    // A new handle restores the context.
    let config = ctx.initialize(device(4096), 800, 600, 2000).unwrap().unwrap();
    assert_eq!((config.width, config.height), (800, 600));
    assert_eq!(ctx.phase(), Phase::Ready);
    assert!(ctx.begin_frame(2016).is_some());
}

#[test]
fn out_of_memory_degrades_too() {
    let mut ctx = context(Platform::Native);
    ctx.initialize(device(8192), 1024, 768, 0).unwrap();
    assert_eq!(
        ctx.end_frame(FrameOutcome::AcquireFailed(AcquireError::OutOfMemory), 17),
        FrameAction::ReleaseSurface
    );
    assert_eq!(ctx.phase(), Phase::Degraded);
}

#[test]
fn timeout_reconfigures_and_goes_on() {
    let mut ctx = context(Platform::Native);
    let config = ctx.initialize(device(8192), 1024, 768, 0).unwrap().unwrap();
    assert!(ctx.begin_frame(16).is_some());
    let scheduler = ctx.scheduler();
    assert_eq!(
        ctx.end_frame(FrameOutcome::AcquireFailed(AcquireError::Timeout), 17),
        FrameAction::Reconfigure(config)
    );
    assert_eq!(ctx.phase(), Phase::Ready);
    assert_eq!(ctx.surface(), Some(config));
    assert_eq!(ctx.scheduler(), scheduler);
    assert!(ctx.begin_frame(32).is_some());
}

#[test]
fn presentation_fault_reconfigures_and_goes_on() {
    let mut ctx = context(Platform::Native);
    let config = ctx.initialize(device(8192), 1024, 768, 0).unwrap().unwrap();
    assert!(ctx.begin_frame(16).is_some());
    assert_eq!(
        ctx.end_frame(FrameOutcome::PresentFaulted, 17),
        FrameAction::Reconfigure(config)
    );
    assert_eq!(ctx.phase(), Phase::Ready);
    assert_eq!(ctx.scheduler().frames_in_window, 0);
    assert!(ctx.begin_frame(32).is_some());
}

#[test]
fn other_acquisition_failures_skip_the_frame() {
    for error in [AcquireError::Outdated, AcquireError::Other] {
        let mut ctx = context(Platform::Native);
        let config = ctx.initialize(device(8192), 1024, 768, 0).unwrap();
        assert_eq!(
            ctx.end_frame(FrameOutcome::AcquireFailed(error), 17),
            FrameAction::Skip
        );
        assert_eq!(ctx.phase(), Phase::Ready);
        assert_eq!(ctx.surface(), config);
    }
}

#[test]
fn render_is_paced() {
    let mut ctx = context(Platform::Native);
    ctx.initialize(device(8192), 1024, 768, 100).unwrap();
    assert!(ctx.begin_frame(100).is_none());
    assert!(ctx.begin_frame(115).is_none());
    assert_eq!(ctx.scheduler().last_frame_ms, 100);
    let records = ctx.begin_frame(116).unwrap();
    assert_eq!(records.len(), 100);
    assert_eq!(ctx.scheduler().last_frame_ms, 116);
    assert!(ctx.begin_frame(131).is_none());
    assert!(ctx.begin_frame(132).is_some());
}

#[test]
fn skipped_render_does_not_skip_the_step() {
    let mut ctx = context(Platform::Native);
    ctx.initialize(device(8192), 1024, 768, 100).unwrap();
    assert!(ctx.begin_frame(101).is_none());
    assert!(ctx.update(scalar(0.001)).is_some());
    let report = fall(&ctx, 0.25);
    assert!(ctx.apply_motion(&report));
    let records = ctx.begin_frame(116).unwrap();
    assert_eq!(records[0].position.y, report[0].translation.y);
}

#[test]
fn presented_frames_are_counted() {
    let mut ctx = context(Platform::Native);
    ctx.initialize(device(8192), 1024, 768, 0).unwrap();
    assert_eq!(
        ctx.end_frame(FrameOutcome::Presented, 16),
        FrameAction::Presented(None)
    );
    assert_eq!(
        ctx.end_frame(FrameOutcome::Presented, 32),
        FrameAction::Presented(None)
    );
    assert_eq!(ctx.scheduler().frames_in_window, 2);
    assert_eq!(
        ctx.end_frame(FrameOutcome::Presented, 1000),
        FrameAction::Presented(Some(Throughput { frames: 3, elapsed_ms: 1000 }))
    );
    assert_eq!(ctx.scheduler().frames_in_window, 0);
    assert_eq!(ctx.scheduler().window_start_ms, 1000);
}

#[test]
fn resize_clamps_in_a_ready_context() {
    let mut ctx = context(Platform::Native);
    ctx.initialize(device(2048), 1024, 768, 0).unwrap();
    let config = ctx.resize(5000, 600).unwrap();
    assert_eq!((config.width, config.height), (2048, 600));
    assert_eq!(ctx.surface(), Some(config));
    let config = ctx.resize(300, 2049).unwrap();
    assert_eq!((config.width, config.height), (300, 2048));
    assert_eq!(ctx.surface(), Some(config));
}

#[test]
fn resize_with_a_zero_side_is_ignored() {
    let mut ctx = context(Platform::Native);
    let before = ctx.initialize(device(2048), 1024, 768, 0).unwrap();
    assert_eq!(ctx.resize(0, 600), None);
    assert_eq!(ctx.resize(800, 0), None);
    assert_eq!(ctx.surface(), before);
}

#[test]
fn pause_stops_the_steps() {
    let mut ctx = context(Platform::Native);
    ctx.initialize(SurfaceProbe::Absent, 0, 0, 0).unwrap();
    ctx.set_paused(true);
    let before = ctx.world().unwrap().bodies().clone();
    for _ in 0..5 {
        assert_eq!(ctx.update(scalar(0.016)), None);
        let report = fall(&ctx, 0.1);
        assert!(!ctx.apply_motion(&report));
    }
    assert_eq!(ctx.world().unwrap().bodies(), &before);
    ctx.set_paused(false);
    assert!(ctx.update(scalar(0.016)).is_some());
}

#[test]
fn setters_take_effect_with_the_next_step() {
    let mut ctx = context(Platform::Native);
    ctx.initialize(SurfaceProbe::Absent, 0, 0, 0).unwrap();
    ctx.set_gravity_y(scalar(20.0));
    ctx.set_time_scale(scalar(0.5));
    let request = ctx.update(scalar(0.1)).unwrap();
    assert_eq!(value(request.gravity.x), 0.0);
    assert_eq!(value(request.gravity.y), -20.0);
    assert_eq!(value(request.gravity.z), 0.0);
    assert_eq!(value(request.time_scale), 0.5);
    assert_eq!(value(request.dt), 0.1);
}

#[test]
fn reset_simulation_puts_the_bodies_back() {
    let mut ctx = context(Platform::Native);
    ctx.initialize(SurfaceProbe::Absent, 0, 0, 0).unwrap();
    let fresh = ctx.world().unwrap().bodies().clone();
    let report = fall(&ctx, 0.3);
    assert!(ctx.apply_motion(&report));
    ctx.set_paused(true);
    ctx.set_gravity_y(scalar(1.0));
    ctx.reset_simulation();
    assert_eq!(ctx.world().unwrap().bodies(), &fresh);
    assert_eq!(ctx.world().unwrap().state(), EngineState::new());
    assert_eq!(ctx.instances().unwrap().len(), 100);
    assert_eq!(ctx.phase(), Phase::Headless);
}

#[test]
fn fused_tick_is_skipped_whole() {
    let mut ctx = context(Platform::Native);
    ctx.initialize(device(8192), 1024, 768, 100).unwrap();
    let scheduler = ctx.scheduler();
    assert_eq!(
        ctx.tick(110, scalar(0.01)),
        TickPlan { render: false, step: None }
    );
    assert_eq!(ctx.scheduler(), scheduler);
    let plan = ctx.tick(116, scalar(0.016));
    assert!(plan.render);
    assert_eq!(plan.step, ctx.update(scalar(0.016)));
    assert!(plan.step.is_some());
    assert_eq!(ctx.scheduler().last_frame_ms, 116);
}

#[test]
fn fused_tick_of_a_paused_world_still_renders() {
    let mut ctx = context(Platform::Native);
    ctx.initialize(device(8192), 1024, 768, 100).unwrap();
    ctx.set_paused(true);
    assert_eq!(
        ctx.tick(116, scalar(0.016)),
        TickPlan { render: true, step: None }
    );
}

#[test]
fn headless_tick_steps_and_never_renders() {
    let mut ctx = context(Platform::Native);
    ctx.initialize(SurfaceProbe::Absent, 0, 0, 100).unwrap();
    let plan = ctx.tick(100, scalar(0.016));
    assert!(!plan.render);
    assert!(plan.step.is_some());
    assert_eq!(ctx.scheduler().last_frame_ms, 100);
}

#[test]
fn reinitialize_replaces_surface_and_world() {
    let mut ctx = context(Platform::Native);
    ctx.initialize(device(8192), 1024, 768, 0).unwrap();
    let fresh = ctx.world().unwrap().bodies().clone();
    let report = fall(&ctx, 0.3);
    assert!(ctx.apply_motion(&report));
    ctx.end_frame(FrameOutcome::Presented, 16);
    let config = ctx.initialize(device(1000), 1200, 900, 500).unwrap().unwrap();
    assert_eq!((config.width, config.height), (1000, 900));
    assert_eq!(ctx.world().unwrap().bodies(), &fresh);
    assert_eq!(ctx.scheduler().last_frame_ms, 500);
    assert_eq!(ctx.scheduler().frames_in_window, 0);
    assert_eq!(ctx.scheduler().interval_ms, 16);
}
