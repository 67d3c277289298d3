//! The engine context: the one value a host holds, and the state machine
//! behind every entry point.
//!
//! The context decides; the host acts. Each entry point takes what the host
//! has observed (a probed window handle, the clock, the outcome of a frame)
//! and returns what the host has to do next. A context that is not
//! initialized answers every call but `initialize` by doing nothing.
//!
//! Phases: `Uninitialized` goes to `Ready` by a successful `initialize`, or
//! to `Headless` by one without a window. `Ready` falls to `Degraded` when
//! the surface is lost for good, and comes back by `initialize`. `shutdown`
//! leads to `Uninitialized` from anywhere. Initializing and shutting down
//! take no longer than the call that does them, so no other call ever finds
//! the context halfway: it is found in one of the four phases, with surface
//! and world there or absent as the phase says.

use vstd::prelude::*;
use crate::grid::GridLayout;
use crate::instance::{InstanceRecord, instances_of, sync};
use crate::scalar::Scalar;
use crate::scheduler::{FrameScheduler, Throughput};
use crate::surface::{
    AcquireError,
    DeviceCaps,
    InitError,
    Platform,
    Recovery,
    SurfaceConfig,
    classify,
    recovery_for,
};
use crate::world::{BodyMotion, PhysicsWorld, StepRequest, WorldView, lemma_fresh_wf, lemma_moved_wf};

verus! {

/// Where the context stands in its life.
#[derive(Clone, Copy, Debug, PartialEq, Eq, Structural)]
pub enum Phase {
    /// No surface, no world.
    Uninitialized,
    /// Surface and world are there; frames are drawn.
    Ready,
    /// The world is there and runs; there is no surface, and rendering does
    /// nothing.
    Headless,
    /// The surface was lost for good. Nothing runs until `initialize` is
    /// called again.
    Degraded,
}

/// What the host found when it tried to set up a surface on the window
/// handle it was given.
#[derive(Debug)]
pub enum SurfaceProbe {
    /// There was no handle.
    Absent,
    /// Surface, adapter or device could not be had.
    Failed(InitError),
    /// All three are there, and the device reports this.
    Available(DeviceCaps),
}

/// How the host's attempt to draw and present a frame ended.
#[derive(Clone, Copy, Debug, PartialEq, Eq, Structural)]
pub enum FrameOutcome {
    /// No frame target could be acquired.
    AcquireFailed(AcquireError),
    /// The frame was drawn, but presenting it faulted.
    PresentFaulted,
    /// The frame was drawn and presented.
    Presented,
}

/// What the host has to do after a frame.
#[derive(Clone, Copy, Debug, PartialEq, Eq)]
pub enum FrameAction {
    /// Nothing: the context was not rendering.
    Idle,
    /// Release every GPU resource; the context is degraded.
    ReleaseSurface,
    /// Configure the surface again with this configuration.
    Reconfigure(SurfaceConfig),
    /// Nothing: this frame is left out.
    Skip,
    /// Nothing; the throughput is given where a window has closed.
    Presented(Option<Throughput>),
}

/// What a fused tick asks of the host.
#[derive(Clone, Copy, Debug, PartialEq, Eq)]
pub struct TickPlan {
    /// Whether to draw and present a frame after stepping.
    pub render: bool,
    /// The step to integrate first, if one is due.
    pub step: Option<StepRequest>,
}

/// The text that `get_info` returns.
pub open spec fn info_text() -> Seq<char> {
    "Hello from Rust wgpu core!"@
}

/// The context as a value.
pub struct ContextView {
    pub platform: Platform,
    /// The axis of the layout that every reset uses.
    pub layout: Seq<Scalar>,
    pub phase: Phase,
    pub surface: Option<SurfaceConfig>,
    pub world: Option<WorldView>,
    pub scheduler: FrameScheduler,
}

impl ContextView {
    /// The invariant. Surface and world are there or absent as the phase
    /// says, and what is there is well-formed.
    pub open spec fn wf(self) -> bool {
        &&& GridLayout::valid_side(self.layout.len() as int)
        &&& match self.phase {
            Phase::Uninitialized => self.surface.is_none() && self.world.is_none(),
            Phase::Degraded => self.surface.is_none() && self.world.is_none(),
            Phase::Headless => self.surface.is_none() && self.world.is_some(),
            Phase::Ready => self.surface.is_some() && self.world.is_some(),
        }
        &&& (self.surface matches Some(config) ==> config.wf())
        &&& (self.world matches Some(world) ==> world.wf() && world.axis == self.layout)
    }

    /// The context before the first `initialize`.
    pub open spec fn initial(platform: Platform, layout: Seq<Scalar>, interval_ms: u64)
        -> ContextView {
        ContextView {
            platform,
            layout,
            phase: Phase::Uninitialized,
            surface: None,
            world: None,
            scheduler: FrameScheduler::started(0, interval_ms),
        }
    }

    /// Whether the world runs: the context is ready or headless.
    pub open spec fn running(self) -> bool {
        self.phase == Phase::Ready || self.phase == Phase::Headless
    }

    /// The configuration that `initialize` settles on, if the probe found a
    /// device and a format can be had.
    pub open spec fn init_config(self, probe: SurfaceProbe, width: u32, height: u32) -> Option<
        SurfaceConfig,
    > {
        match probe {
            SurfaceProbe::Available(caps) => SurfaceConfig::negotiated(
                self.platform,
                caps.formats@,
                caps.max_dimension,
                width,
                height,
            ),
            _ => None,
        }
    }

    /// What `initialize` answers: no configuration for a headless start, the
    /// surface's configuration where there is a device, or the reason for
    /// the failure.
    pub open spec fn init_result(self, probe: SurfaceProbe, width: u32, height: u32) -> Result<
        Option<SurfaceConfig>,
        InitError,
    > {
        match probe {
            SurfaceProbe::Absent => Ok(None),
            SurfaceProbe::Failed(error) => Err(error),
            SurfaceProbe::Available(caps) => match self.init_config(probe, width, height) {
                Some(config) => Ok(Some(config)),
                None => Err(InitError::NoSurfaceFormat),
            },
        }
    }

    /// The context after `initialize`. A failure changes nothing. A success
    /// replaces surface and world: the world is freshly reset, the surface
    /// is as negotiated or, headless, absent, and pacing starts at `now_ms`.
    pub open spec fn initialized(self, probe: SurfaceProbe, width: u32, height: u32, now_ms: u64)
        -> ContextView {
        match self.init_result(probe, width, height) {
            Ok(surface) => ContextView {
                phase: if surface.is_some() {
                    Phase::Ready
                } else {
                    Phase::Headless
                },
                surface,
                world: Some(WorldView::fresh(self.layout)),
                scheduler: FrameScheduler::started(now_ms, self.scheduler.interval_ms),
                ..self
            },
            Err(_) => self,
        }
    }

    /// What `update` answers: the step that is due, if the world runs and is
    /// not paused.
    pub open spec fn update_request(self, dt: Scalar) -> Option<StepRequest> {
        match self.world {
            Some(world) => world.step_request(dt),
            None => None,
        }
    }

    /// Whether a motion report is taken.
    pub open spec fn accepts_motion(self, motions: Seq<BodyMotion>) -> bool {
        match self.world {
            Some(world) => world.accepts_motion(motions),
            None => false,
        }
    }

    /// The context after a motion report.
    pub open spec fn moved(self, motions: Seq<BodyMotion>) -> ContextView {
        match self.world {
            Some(world) => ContextView { world: Some(world.moved(motions)), ..self },
            None => self,
        }
    }

    /// Whether a frame is rendered at `now_ms`: the context is ready and
    /// the pacing lets the frame through.
    pub open spec fn renders(self, now_ms: u64) -> bool {
        self.phase == Phase::Ready && self.scheduler.due(now_ms)
    }

    /// The records that a frame begun at `now_ms` draws, if one is rendered.
    pub open spec fn frame_instances(self, now_ms: u64) -> Option<Seq<InstanceRecord>> {
        if self.renders(now_ms) {
            Some(instances_of(self.world.unwrap().bodies))
        } else {
            None
        }
    }

    /// The context after a frame was asked for at `now_ms`: only the time
    /// of the last frame changes, and only if the frame is rendered.
    pub open spec fn frame_begun(self, now_ms: u64) -> ContextView {
        if self.renders(now_ms) {
            ContextView { scheduler: self.scheduler.after_request(now_ms), ..self }
        } else {
            self
        }
    }

    /// What the host has to do after a frame ended with `outcome`.
    pub open spec fn frame_action(self, outcome: FrameOutcome, now_ms: u64) -> FrameAction {
        if self.phase != Phase::Ready {
            FrameAction::Idle
        } else {
            match outcome {
                FrameOutcome::AcquireFailed(error) => match recovery_for(error) {
                    Recovery::ReleaseSurface => FrameAction::ReleaseSurface,
                    Recovery::Reconfigure => FrameAction::Reconfigure(self.surface.unwrap()),
                    Recovery::SkipFrame => FrameAction::Skip,
                },
                FrameOutcome::PresentFaulted => FrameAction::Reconfigure(self.surface.unwrap()),
                FrameOutcome::Presented => FrameAction::Presented(self.scheduler.sample(now_ms)),
            }
        }
    }

    /// Whether `outcome` ends the surface's life.
    pub open spec fn is_fatal(outcome: FrameOutcome) -> bool {
        outcome matches FrameOutcome::AcquireFailed(error) && recovery_for(error)
            == Recovery::ReleaseSurface
    }

    /// The context after a frame ended with `outcome`. A fatal outcome
    /// degrades a ready context and empties it; a presented frame is
    /// counted; everything else leaves the context as it was.
    pub open spec fn frame_ended(self, outcome: FrameOutcome, now_ms: u64) -> ContextView {
        if self.phase != Phase::Ready {
            self
        } else if Self::is_fatal(outcome) {
            ContextView { phase: Phase::Degraded, surface: None, world: None, ..self }
        } else if outcome == FrameOutcome::Presented {
            ContextView { scheduler: self.scheduler.presented(now_ms), ..self }
        } else {
            self
        }
    }

    /// The configuration to apply after a resize, if one is carried out: the
    /// context is ready and neither side is zero.
    pub open spec fn resize_config(self, width: u32, height: u32) -> Option<SurfaceConfig> {
        if self.phase == Phase::Ready && SurfaceConfig::accepts_resize(width, height) {
            Some(self.surface.unwrap().resized(width, height))
        } else {
            None
        }
    }

    /// The context after a resize.
    pub open spec fn resized(self, width: u32, height: u32) -> ContextView {
        match self.resize_config(width, height) {
            Some(config) => ContextView { surface: Some(config), ..self },
            None => self,
        }
    }

    /// The context after `shutdown`: uninitialized and empty.
    pub open spec fn shut_down(self) -> ContextView {
        ContextView { phase: Phase::Uninitialized, surface: None, world: None, ..self }
    }

    /// The context with gravity of the given magnitude down the y axis.
    pub open spec fn with_gravity_y(self, magnitude: Scalar) -> ContextView {
        match self.world {
            Some(world) => ContextView { world: Some(world.with_gravity_y(magnitude)), ..self },
            None => self,
        }
    }

    /// The context with another time scale.
    pub open spec fn with_time_scale(self, time_scale: Scalar) -> ContextView {
        match self.world {
            Some(world) => ContextView { world: Some(world.with_time_scale(time_scale)), ..self },
            None => self,
        }
    }

    /// The context with the world paused or running.
    pub open spec fn with_paused(self, paused: bool) -> ContextView {
        match self.world {
            Some(world) => ContextView { world: Some(world.with_paused(paused)), ..self },
            None => self,
        }
    }

    /// The context after the simulation was reset.
    pub open spec fn simulation_reset(self) -> ContextView {
        match self.world {
            Some(world) => ContextView { world: Some(WorldView::fresh(self.layout)), ..self },
            None => self,
        }
    }

    /// What a fused tick at `now_ms` asks for. A ready context ticks only
    /// when a frame is due, and then steps and renders; a headless one
    /// steps and never renders; any other does nothing.
    pub open spec fn tick_plan(self, now_ms: u64, dt: Scalar) -> TickPlan {
        match self.phase {
            Phase::Ready => if self.scheduler.due(now_ms) {
                TickPlan { render: true, step: self.update_request(dt) }
            } else {
                TickPlan { render: false, step: None }
            },
            Phase::Headless => TickPlan { render: false, step: self.update_request(dt) },
            _ => TickPlan { render: false, step: None },
        }
    }
}

/// Shutting down twice is the same as shutting down once: from any context,
/// `shutdown` leads to an uninitialized, empty, well-formed context, and a
/// second `shutdown` finds nothing left to do.
pub proof fn lemma_shutdown_idempotent(context: ContextView)
    requires
        context.wf(),
    ensures
        context.shut_down().phase == Phase::Uninitialized,
        context.shut_down().surface.is_none(),
        context.shut_down().world.is_none(),
        context.shut_down().wf(),
        context.shut_down().shut_down() == context.shut_down(),
{
}

/// A context without a world does nothing: whether it is uninitialized or
/// degraded, every entry point but `initialize` and `shutdown` leaves it as
/// it is, asks for no step, renders no frame and asks nothing of the host.
pub proof fn lemma_inert_without_world(
    context: ContextView,
    now_ms: u64,
    dt: Scalar,
    motions: Seq<BodyMotion>,
    outcome: FrameOutcome,
    width: u32,
    height: u32,
    magnitude: Scalar,
    time_scale: Scalar,
    paused: bool,
)
    requires
        context.wf(),
        context.phase == Phase::Uninitialized || context.phase == Phase::Degraded,
    ensures
        context.update_request(dt).is_none(),
        !context.accepts_motion(motions),
        context.moved(motions) == context,
        !context.renders(now_ms),
        context.frame_instances(now_ms).is_none(),
        context.frame_begun(now_ms) == context,
        context.frame_action(outcome, now_ms) == FrameAction::Idle,
        context.frame_ended(outcome, now_ms) == context,
        context.resize_config(width, height).is_none(),
        context.resized(width, height) == context,
        context.with_gravity_y(magnitude) == context,
        context.with_time_scale(time_scale) == context,
        context.with_paused(paused) == context,
        context.simulation_reset() == context,
        context.tick_plan(now_ms, dt) == (TickPlan { render: false, step: None }),
{
}

/// Initializing without a window handle always succeeds and makes the
/// context headless. From then on rendering does nothing, whatever the
/// clock says and however a frame is said to have ended, while `update`
/// asks for a step with the timestep it was given.
pub proof fn lemma_headless_start(
    context: ContextView,
    width: u32,
    height: u32,
    now_ms: u64,
    later_ms: u64,
    dt: Scalar,
    outcome: FrameOutcome,
)
    requires
        context.wf(),
    ensures
        context.init_result(SurfaceProbe::Absent, width, height) == Ok::<
            Option<SurfaceConfig>,
            InitError,
        >(None),
        context.initialized(SurfaceProbe::Absent, width, height, now_ms).phase == Phase::Headless,
        context.initialized(SurfaceProbe::Absent, width, height, now_ms).wf(),
        !context.initialized(SurfaceProbe::Absent, width, height, now_ms).renders(later_ms),
        context.initialized(SurfaceProbe::Absent, width, height, now_ms).frame_begun(later_ms)
            == context.initialized(SurfaceProbe::Absent, width, height, now_ms),
        context.initialized(SurfaceProbe::Absent, width, height, now_ms).frame_ended(
            outcome,
            later_ms,
        ) == context.initialized(SurfaceProbe::Absent, width, height, now_ms),
        context.initialized(SurfaceProbe::Absent, width, height, now_ms).frame_action(
            outcome,
            later_ms,
        ) == FrameAction::Idle,
        context.initialized(SurfaceProbe::Absent, width, height, now_ms).update_request(dt)
            == Some(
            StepRequest {
                dt,
                time_scale: crate::world::EngineState::initial().time_scale,
                gravity: crate::world::EngineState::initial().gravity,
            },
        ),
{
    lemma_fresh_wf(context.layout);
}

/// A failed `initialize` retains nothing: the context is exactly what it
/// was, and the failure is the one the probe reported.
pub proof fn lemma_failed_initialize(
    context: ContextView,
    error: InitError,
    width: u32,
    height: u32,
    now_ms: u64,
)
    ensures
        context.init_result(SurfaceProbe::Failed(error), width, height) == Err::<
            Option<SurfaceConfig>,
            InitError,
        >(error),
        context.initialized(SurfaceProbe::Failed(error), width, height, now_ms) == context,
{
}

/// Losing the surface for good degrades a ready context: it is emptied,
/// the host is told to release the surface, and rendering, updating and
/// resizing do nothing from then on. A later `initialize` on a native host
/// with a device brings it back to ready, with a surface no larger than
/// the device allows.
pub proof fn lemma_degraded_recovery(
    context: ContextView,
    error: AcquireError,
    now_ms: u64,
    probe: SurfaceProbe,
    width: u32,
    height: u32,
    later_ms: u64,
    dt: Scalar,
)
    requires
        context.wf(),
        context.phase == Phase::Ready,
        error == AcquireError::Lost || error == AcquireError::OutOfMemory,
        probe is Available,
        context.platform == Platform::Native,
    ensures
        context.frame_action(FrameOutcome::AcquireFailed(error), now_ms)
            == FrameAction::ReleaseSurface,
        context.frame_ended(FrameOutcome::AcquireFailed(error), now_ms).phase == Phase::Degraded,
        context.frame_ended(FrameOutcome::AcquireFailed(error), now_ms).wf(),
        !context.frame_ended(FrameOutcome::AcquireFailed(error), now_ms).renders(later_ms),
        context.frame_ended(FrameOutcome::AcquireFailed(error), now_ms).update_request(dt).is_none(),
        context.frame_ended(FrameOutcome::AcquireFailed(error), now_ms).resize_config(width, height)
            .is_none(),
        context.frame_ended(FrameOutcome::AcquireFailed(error), now_ms).initialized(
            probe,
            width,
            height,
            later_ms,
        ).phase == Phase::Ready,
        context.frame_ended(FrameOutcome::AcquireFailed(error), now_ms).initialized(
            probe,
            width,
            height,
            later_ms,
        ).wf(),
{
    lemma_fresh_wf(context.layout);
}

/// A timeout, an outdated or otherwise unusable frame target, and a fault
/// while presenting all leave the context exactly as it was: at most the
/// surface is configured again, with the configuration it already has.
pub proof fn lemma_transient_failures(context: ContextView, outcome: FrameOutcome, now_ms: u64)
    requires
        context.wf(),
        context.phase == Phase::Ready,
        !ContextView::is_fatal(outcome),
        outcome != FrameOutcome::Presented,
    ensures
        context.frame_ended(outcome, now_ms) == context,
        context.frame_action(outcome, now_ms) == FrameAction::Skip || context.frame_action(
            outcome,
            now_ms,
        ) == FrameAction::Reconfigure(context.surface.unwrap()),
        outcome == FrameOutcome::AcquireFailed(AcquireError::Timeout) || outcome
            == FrameOutcome::PresentFaulted ==> context.frame_action(outcome, now_ms)
            == FrameAction::Reconfigure(context.surface.unwrap()),
{
}

/// Every entry point keeps a well-formed context well-formed.
pub proof fn lemma_transitions_keep_wf(
    context: ContextView,
    probe: SurfaceProbe,
    now_ms: u64,
    motions: Seq<BodyMotion>,
    outcome: FrameOutcome,
    width: u32,
    height: u32,
    magnitude: Scalar,
    time_scale: Scalar,
    paused: bool,
)
    requires
        context.wf(),
    ensures
        context.initialized(probe, width, height, now_ms).wf(),
        context.moved(motions).wf(),
        context.frame_begun(now_ms).wf(),
        context.frame_ended(outcome, now_ms).wf(),
        context.resized(width, height).wf(),
        context.shut_down().wf(),
        context.with_gravity_y(magnitude).wf(),
        context.with_time_scale(time_scale).wf(),
        context.with_paused(paused).wf(),
        context.simulation_reset().wf(),
{
    lemma_fresh_wf(context.layout);
    if context.world.is_some() {
        lemma_moved_wf(context.world.unwrap(), motions);
    }
}

/// Pacing and stepping are independent. A frame that is not rendered leaves
/// the context untouched; whether a step is due does not depend on the
/// clock or on when the last frame was drawn; and beginning a frame never
/// changes the world.
pub proof fn lemma_pacing_and_stepping(context: ContextView, now_ms: u64, dt: Scalar)
    requires
        context.wf(),
    ensures
        !context.renders(now_ms) ==> context.frame_begun(now_ms) == context,
        context.phase == Phase::Ready && !context.renders(now_ms) ==> context.tick_plan(now_ms, dt)
            == (TickPlan { render: false, step: None }),
        context.tick_plan(now_ms, dt).render == context.renders(now_ms),
        context.tick_plan(now_ms, dt).step.is_some() ==> context.tick_plan(now_ms, dt).step
            == context.update_request(dt),
        context.frame_begun(now_ms).world == context.world,
        context.frame_begun(now_ms).update_request(dt) == context.update_request(dt),
        context.frame_begun(now_ms).phase == context.phase,
        context.frame_begun(now_ms).surface == context.surface,
{
}

/// A resize of a ready context never configures a side above the device's
/// maximum: a side asked to be larger is set to the maximum itself.
pub proof fn lemma_context_resize_clamps(context: ContextView, width: u32, height: u32)
    requires
        context.wf(),
        context.phase == Phase::Ready,
        width > 0,
        height > 0,
    ensures
        context.resize_config(width, height).is_some(),
        context.resized(width, height).surface == context.resize_config(width, height),
        context.resize_config(width, height).unwrap().wf(),
        width > context.surface.unwrap().max_dimension ==> context.resize_config(
            width,
            height,
        ).unwrap().width == context.surface.unwrap().max_dimension,
        height > context.surface.unwrap().max_dimension ==> context.resize_config(
            width,
            height,
        ).unwrap().height == context.surface.unwrap().max_dimension,
{
}

/// While the world is paused, `update` asks for no step and no motion
/// report is taken, however often either is tried: the bodies stay where
/// they are.
pub proof fn lemma_paused_context_is_frozen(
    context: ContextView,
    dt: Scalar,
    motions: Seq<BodyMotion>,
)
    requires
        context.wf(),
        context.world.is_some(),
        context.world.unwrap().state.paused,
    ensures
        context.update_request(dt).is_none(),
        !context.accepts_motion(motions),
        context.moved(motions) == context,
{
}

/// The engine context.
#[derive(Debug)]
pub struct EngineContext {
    platform: Platform,
    layout: GridLayout,
    phase: Phase,
    surface: Option<SurfaceConfig>,
    world: Option<PhysicsWorld>,
    scheduler: FrameScheduler,
}

impl View for EngineContext {
    type V = ContextView;

    closed spec fn view(&self) -> ContextView {
        ContextView {
            platform: self.platform,
            layout: self.layout@,
            phase: self.phase,
            surface: self.surface,
            world: match self.world {
                Some(world) => Some(world@),
                None => None,
            },
            scheduler: self.scheduler,
        }
    }
}

impl EngineContext {
    /// The invariant of the context's value.
    pub open spec fn wf(&self) -> bool {
        self@.wf()
    }

    /// An uninitialized context for a host of the given kind. Every reset
    /// places the bodies on `layout`, and a frame is let through at most
    /// every `interval_ms` milliseconds.
    pub fn new(platform: Platform, layout: GridLayout, interval_ms: u64) -> (context: EngineContext)
        requires
            layout.wf(),
        ensures
            context@ == ContextView::initial(platform, layout@, interval_ms),
            context.wf(),
    {
        EngineContext {
            platform,
            layout,
            phase: Phase::Uninitialized,
            surface: None,
            world: None,
            scheduler: FrameScheduler::new(0, interval_ms),
        }
    }

    /// Brings the context up on what the host found behind the window
    /// handle, asked to be `width` by `height`, at time `now_ms`.
    ///
    /// Without a handle the context becomes headless. With a device it
    /// becomes ready, and the configuration returned is the one to
    /// configure the surface with. A failed probe, or a device without any
    /// pixel format where the platform needs one, is an error and leaves
    /// the context exactly as it was.
    pub fn initialize(&mut self, probe: SurfaceProbe, width: u32, height: u32, now_ms: u64) -> (result:
        Result<Option<SurfaceConfig>, InitError>)
        requires
            old(self).wf(),
        ensures
            result == old(self)@.init_result(probe, width, height),
            final(self)@ == old(self)@.initialized(probe, width, height, now_ms),
            final(self).wf(),
    {
        let surface = match probe {
            SurfaceProbe::Absent => None,
            SurfaceProbe::Failed(error) => {
                return Err(error);
            },
            SurfaceProbe::Available(caps) => {
                match SurfaceConfig::negotiate(self.platform, &caps, width, height) {
                    Some(config) => Some(config),
                    None => {
                        return Err(InitError::NoSurfaceFormat);
                    },
                }
            },
        };
        proof {
            lemma_fresh_wf(self.layout@);
        }
        let world = PhysicsWorld::new(self.layout.duplicate());
        self.phase = if surface.is_some() {
            Phase::Ready
        } else {
            Phase::Headless
        };
        self.surface = surface;
        self.world = Some(world);
        self.scheduler = FrameScheduler::new(now_ms, self.scheduler.interval_ms);
        Ok(surface)
    }

    /// Says whether a physics step is due for the timestep `dt`, and with
    /// which inputs. None is due while the context does not run or the world
    /// is paused. The host integrates the step and reports the result with
    /// `apply_motion`. Pacing plays no part here.
    pub fn update(&self, dt: Scalar) -> (request: Option<StepRequest>)
        requires
            self.wf(),
        ensures
            request == self@.update_request(dt),
    {
        match &self.world {
            Some(world) => world.step(dt),
            None => None,
        }
    }

    /// Takes over where the integrator left the dynamic bodies. Returns
    /// whether the report was taken; one that is not changes nothing.
    pub fn apply_motion(&mut self, motions: &Vec<BodyMotion>) -> (taken: bool)
        requires
            old(self).wf(),
        ensures
            taken == old(self)@.accepts_motion(motions@),
            final(self)@ == old(self)@.moved(motions@),
            final(self).wf(),
    {
        match &mut self.world {
            Some(world) => world.apply_motion(motions),
            None => false,
        }
    }

    /// Begins a frame at `now_ms`. Where a frame is rendered, returns the
    /// instance records to draw, rebuilt from the world; else returns
    /// nothing and changes nothing.
    pub fn begin_frame(&mut self, now_ms: u64) -> (instances: Option<Vec<InstanceRecord>>)
        requires
            old(self).wf(),
        ensures
            instances.is_some() == old(self)@.renders(now_ms),
            instances matches Some(records) ==> Some(records@) == old(self)@.frame_instances(now_ms),
            final(self)@ == old(self)@.frame_begun(now_ms),
            final(self).wf(),
    {
        match self.phase {
            Phase::Ready => {
                if self.scheduler.request_frame(now_ms) {
                    match &self.world {
                        Some(world) => Some(sync(world)),
                        None => None,
                    }
                } else {
                    None
                }
            },
            _ => None,
        }
    }

    /// Ends a frame: takes how drawing and presenting went and returns what
    /// the host has to do about it.
    pub fn end_frame(&mut self, outcome: FrameOutcome, now_ms: u64) -> (action: FrameAction)
        requires
            old(self).wf(),
        ensures
            action == old(self)@.frame_action(outcome, now_ms),
            final(self)@ == old(self)@.frame_ended(outcome, now_ms),
            final(self).wf(),
    {
        let config = match (self.phase, self.surface) {
            (Phase::Ready, Some(config)) => config,
            _ => {
                return FrameAction::Idle;
            },
        };
        match outcome {
            FrameOutcome::AcquireFailed(error) => match classify(error) {
                Recovery::ReleaseSurface => {
                    self.phase = Phase::Degraded;
                    self.surface = None;
                    self.world = None;
                    FrameAction::ReleaseSurface
                },
                Recovery::Reconfigure => FrameAction::Reconfigure(config),
                Recovery::SkipFrame => FrameAction::Skip,
            },
            FrameOutcome::PresentFaulted => FrameAction::Reconfigure(config),
            FrameOutcome::Presented => {
                let sample = self.scheduler.record_presented(now_ms);
                FrameAction::Presented(sample)
            },
        }
    }

    /// Resizes the surface. Returns the configuration to configure the
    /// surface with, if the resize is carried out.
    pub fn resize(&mut self, width: u32, height: u32) -> (config: Option<SurfaceConfig>)
        requires
            old(self).wf(),
        ensures
            config == old(self)@.resize_config(width, height),
            final(self)@ == old(self)@.resized(width, height),
            final(self).wf(),
    {
        match (self.phase, self.surface) {
            (Phase::Ready, Some(current)) => {
                let mut next = current;
                if next.resize(width, height) {
                    self.surface = Some(next);
                    Some(next)
                } else {
                    None
                }
            },
            _ => None,
        }
    }

    /// Empties the context. Returns whether there was a surface, whose GPU
    /// resources the host has to release.
    pub fn shutdown(&mut self) -> (had_surface: bool)
        requires
            old(self).wf(),
        ensures
            had_surface == old(self)@.surface.is_some(),
            final(self)@ == old(self)@.shut_down(),
            final(self).wf(),
    {
        let had_surface = self.surface.is_some();
        self.phase = Phase::Uninitialized;
        self.surface = None;
        self.world = None;
        had_surface
    }

    /// Sets gravity to pull down the y axis with the given magnitude.
    pub fn set_gravity_y(&mut self, magnitude: Scalar)
        requires
            old(self).wf(),
        ensures
            final(self)@ == old(self)@.with_gravity_y(magnitude),
            final(self).wf(),
    {
        match &mut self.world {
            Some(world) => world.set_gravity_y(magnitude),
            None => {},
        }
    }

    /// Sets the factor by which a step's timestep is multiplied.
    pub fn set_time_scale(&mut self, time_scale: Scalar)
        requires
            old(self).wf(),
        ensures
            final(self)@ == old(self)@.with_time_scale(time_scale),
            final(self).wf(),
    {
        match &mut self.world {
            Some(world) => world.set_time_scale(time_scale),
            None => {},
        }
    }

    /// Pauses the world or lets it run.
    pub fn set_paused(&mut self, paused: bool)
        requires
            old(self).wf(),
        ensures
            final(self)@ == old(self)@.with_paused(paused),
            final(self).wf(),
    {
        match &mut self.world {
            Some(world) => world.set_paused(paused),
            None => {},
        }
    }

    /// Puts every body back on the grid and the controls back to their
    /// initial values.
    pub fn reset_simulation(&mut self)
        requires
            old(self).wf(),
        ensures
            final(self)@ == old(self)@.simulation_reset(),
            final(self).wf(),
    {
        match &mut self.world {
            Some(world) => world.reset_simulation(),
            None => {},
        }
    }

    /// One fused tick at `now_ms`: pacing first, then the step. Where the
    /// plan says to render, the frame has begun, and the host goes on as
    /// after `begin_frame`, with the records of `instances`.
    pub fn tick(&mut self, now_ms: u64, dt: Scalar) -> (plan: TickPlan)
        requires
            old(self).wf(),
        ensures
            plan == old(self)@.tick_plan(now_ms, dt),
            final(self)@ == old(self)@.frame_begun(now_ms),
            final(self).wf(),
    {
        match self.phase {
            Phase::Ready => {
                if self.scheduler.request_frame(now_ms) {
                    TickPlan { render: true, step: self.update(dt) }
                } else {
                    TickPlan { render: false, step: None }
                }
            },
            Phase::Headless => TickPlan { render: false, step: self.update(dt) },
            _ => TickPlan { render: false, step: None },
        }
    }

    /// The instance records of the world as it is now, if there is a world.
    pub fn instances(&self) -> (instances: Option<Vec<InstanceRecord>>)
        ensures
            instances.is_some() == self@.world.is_some(),
            instances matches Some(records) ==> records@ == instances_of(self@.world.unwrap().bodies),
    {
        match &self.world {
            Some(world) => Some(sync(world)),
            None => None,
        }
    }

    /// A line of diagnostic text.
    pub fn get_info(&self) -> (info: String)
        ensures
            info@ == info_text(),
            info@.len() > 0,
    {
        proof {
            reveal_strlit("Hello from Rust wgpu core!");
        }
        "Hello from Rust wgpu core!".to_owned()
    }

    /// The phase the context is in.
    pub fn phase(&self) -> (phase: Phase)
        ensures
            phase == self@.phase,
    {
        self.phase
    }

    /// Whether the context has been brought up and not shut down or lost.
    pub fn is_initialized(&self) -> (up: bool)
        ensures
            up == self@.running(),
    {
        match self.phase {
            Phase::Ready => true,
            Phase::Headless => true,
            _ => false,
        }
    }

    /// The surface's configuration, if there is a surface.
    pub fn surface(&self) -> (surface: Option<SurfaceConfig>)
        ensures
            surface == self@.surface,
    {
        self.surface
    }

    /// The world, if there is one.
    pub fn world(&self) -> (world: Option<&PhysicsWorld>)
        ensures
            world.is_some() == self@.world.is_some(),
            world matches Some(w) ==> Some(w@) == self@.world,
    {
        self.world.as_ref()
    }

    /// The pacing state.
    pub fn scheduler(&self) -> (scheduler: FrameScheduler)
        ensures
            scheduler == self@.scheduler,
    {
        self.scheduler
    }
}

} // verus!
