//! The physics world as the engine keeps it: which bodies exist, in which
//! order they were made, where each one is, and the three controls that a
//! step reads.
//!
//! Integration itself is the host's part. `step` says whether a step is due
//! and with which inputs; `apply_motion` takes what the integrator produced.
//! While the world is paused neither has any effect, so nothing moves.

use vstd::prelude::*;
use crate::grid::{GridLayout, grid_translation, lemma_cell_index};
use crate::scalar::{Scalar, Vec3, lemma_negation_involutive};

verus! {

/// Bit pattern of the default gravity along y, -9.81.
pub const GRAVITY_Y_BITS: u32 = 0xC11C_F5C3;

/// Bit pattern of the half extent of a grid body's box collider, 0.05.
pub const BODY_HALF_EXTENT_BITS: u32 = 0x3D4C_CCCD;

/// Bit pattern of the restitution of a grid body's collider, 0.7.
pub const BODY_RESTITUTION_BITS: u32 = 0x3F33_3333;

/// Bit pattern of the height at which the floor is anchored, -1.1.
pub const WALL_Y_BITS: u32 = 0xBF8C_CCCD;

/// Bit pattern of the floor's half extent along x, 4.0.
pub const WALL_HALF_WIDTH_BITS: u32 = 0x4080_0000;

/// Bit pattern of the floor's half extent along y, 0.01.
pub const WALL_HALF_HEIGHT_BITS: u32 = 0x3C23_D70A;

/// Bit pattern of the floor's half extent along z, 0.1.
pub const WALL_HALF_DEPTH_BITS: u32 = 0x3DCC_CCCD;

/// Whether a body is moved by integration or stays where it was put.
#[derive(Clone, Copy, Debug, PartialEq, Eq, Structural)]
pub enum BodyKind {
    Dynamic,
    Fixed,
}

/// A rigid body. Its handle is its position in the world's creation order.
#[derive(Clone, Copy, Debug, PartialEq, Eq, Structural)]
pub struct RigidBody {
    pub kind: BodyKind,
    pub translation: Vec3,
    /// The rotation angle.
    pub rotation: Scalar,
    pub linvel: Vec3,
    /// Whether continuous collision detection is on for the body.
    pub ccd_enabled: bool,
}

/// A box collider, attached to the body whose handle is `parent`.
#[derive(Clone, Copy, Debug, PartialEq, Eq, Structural)]
pub struct Collider {
    pub half_extents: Vec3,
    pub restitution: Scalar,
    pub parent: u32,
}

/// The controls that a step reads.
#[derive(Clone, Copy, Debug, PartialEq, Eq, Structural)]
pub struct EngineState {
    pub gravity: Vec3,
    /// Multiplies the timestep.
    pub time_scale: Scalar,
    pub paused: bool,
}

/// Where the integrator left one dynamic body.
#[derive(Clone, Copy, Debug, PartialEq, Eq, Structural)]
pub struct BodyMotion {
    pub translation: Vec3,
    pub rotation: Scalar,
    pub linvel: Vec3,
}

/// The inputs of one integration step. The effective timestep is `dt` times
/// `time_scale`.
#[derive(Clone, Copy, Debug, PartialEq, Eq, Structural)]
pub struct StepRequest {
    pub dt: Scalar,
    pub time_scale: Scalar,
    pub gravity: Vec3,
}

/// One dynamic body as a query reports it.
#[derive(Clone, Copy, Debug, PartialEq, Eq, Structural)]
pub struct BodySample {
    pub handle: u32,
    pub translation: Vec3,
    pub rotation: Scalar,
    pub linvel: Vec3,
}

impl EngineState {
    /// The controls after a reset: gravity 9.81 down the y axis, time scale
    /// one, running.
    pub open spec fn initial() -> EngineState {
        EngineState {
            gravity: Vec3 {
                x: Scalar::spec_zero(),
                y: Scalar { bits: GRAVITY_Y_BITS },
                z: Scalar::spec_zero(),
            },
            time_scale: Scalar::spec_one(),
            paused: false,
        }
    }

    /// The controls after a reset.
    pub fn new() -> (state: EngineState)
        ensures
            state == Self::initial(),
    {
        EngineState {
            gravity: Vec3 {
                x: Scalar::zero(),
                y: Scalar::from_bits(GRAVITY_Y_BITS),
                z: Scalar::zero(),
            },
            time_scale: Scalar::one(),
            paused: false,
        }
    }
}

/// The dynamic body that a reset puts on grid position `k`: at rest, not
/// rotated, with continuous collision detection.
pub open spec fn grid_body(axis: Seq<Scalar>, k: int) -> RigidBody {
    RigidBody {
        kind: BodyKind::Dynamic,
        translation: grid_translation(axis, k),
        rotation: Scalar::spec_zero(),
        linvel: Vec3::spec_zero(),
        ccd_enabled: true,
    }
}

/// The fixed body that anchors the floor.
pub open spec fn wall_body() -> RigidBody {
    RigidBody {
        kind: BodyKind::Fixed,
        translation: Vec3 {
            x: Scalar::spec_zero(),
            y: Scalar { bits: WALL_Y_BITS },
            z: Scalar::spec_zero(),
        },
        rotation: Scalar::spec_zero(),
        linvel: Vec3::spec_zero(),
        ccd_enabled: false,
    }
}

/// The collider of the grid body with handle `parent`.
pub open spec fn grid_collider(parent: int) -> Collider {
    Collider {
        half_extents: Vec3 {
            x: Scalar { bits: BODY_HALF_EXTENT_BITS },
            y: Scalar { bits: BODY_HALF_EXTENT_BITS },
            z: Scalar { bits: BODY_HALF_EXTENT_BITS },
        },
        restitution: Scalar { bits: BODY_RESTITUTION_BITS },
        parent: parent as u32,
    }
}

/// The floor's collider, attached to the body with handle `parent`.
pub open spec fn wall_collider(parent: int) -> Collider {
    Collider {
        half_extents: Vec3 {
            x: Scalar { bits: WALL_HALF_WIDTH_BITS },
            y: Scalar { bits: WALL_HALF_HEIGHT_BITS },
            z: Scalar { bits: WALL_HALF_DEPTH_BITS },
        },
        restitution: Scalar::spec_zero(),
        parent: parent as u32,
    }
}

/// The number of dynamic bodies among `bodies`.
pub open spec fn dynamic_count(bodies: Seq<RigidBody>) -> nat
    decreases bodies.len(),
{
    if bodies.len() == 0 {
        0
    } else {
        dynamic_count(bodies.drop_last()) + if bodies.last().kind == BodyKind::Dynamic {
            1nat
        } else {
            0nat
        }
    }
}

/// A body after the integrator reported `motion` for it: kind and collision
/// setting stay, the rest is taken over.
pub open spec fn body_moved(body: RigidBody, motion: BodyMotion) -> RigidBody {
    RigidBody {
        translation: motion.translation,
        rotation: motion.rotation,
        linvel: motion.linvel,
        ..body
    }
}

/// What a query reports of the body with handle `handle`.
pub open spec fn sample_of(handle: int, body: RigidBody) -> BodySample {
    BodySample {
        handle: handle as u32,
        translation: body.translation,
        rotation: body.rotation,
        linvel: body.linvel,
    }
}

/// The world as a value: the layout's axis, the controls, and the bodies and
/// colliders in creation order.
pub struct WorldView {
    pub axis: Seq<Scalar>,
    pub state: EngineState,
    pub bodies: Seq<RigidBody>,
    pub colliders: Seq<Collider>,
}

impl WorldView {
    /// The number of dynamic bodies: the square of the grid's side.
    pub open spec fn dynamic_len(self) -> int {
        (self.axis.len() * self.axis.len()) as int
    }

    /// The bodies right after a reset: the grid bodies row by row, then the
    /// floor's anchor.
    pub open spec fn fresh_bodies(axis: Seq<Scalar>) -> Seq<RigidBody> {
        Seq::new(
            (axis.len() * axis.len() + 1) as nat,
            |k: int|
                if k < axis.len() * axis.len() {
                    grid_body(axis, k)
                } else {
                    wall_body()
                },
        )
    }

    /// The colliders right after a reset, and ever after: one per body, in
    /// the bodies' order.
    pub open spec fn fresh_colliders(axis: Seq<Scalar>) -> Seq<Collider> {
        Seq::new(
            (axis.len() * axis.len() + 1) as nat,
            |k: int|
                if k < axis.len() * axis.len() {
                    grid_collider(k)
                } else {
                    wall_collider(k)
                },
        )
    }

    /// The world right after a reset on the layout with this axis.
    pub open spec fn fresh(axis: Seq<Scalar>) -> WorldView {
        WorldView {
            axis,
            state: EngineState::initial(),
            bodies: Self::fresh_bodies(axis),
            colliders: Self::fresh_colliders(axis),
        }
    }

    /// The invariant. The layout is valid; the dynamic bodies come first, one
    /// per grid position, and the floor's anchor last, where a reset put it;
    /// the colliders are those of a reset.
    pub open spec fn wf(self) -> bool {
        &&& GridLayout::valid_side(self.axis.len() as int)
        &&& self.bodies.len() == self.dynamic_len() + 1
        &&& forall|k: int|
            0 <= k < self.dynamic_len() ==> (#[trigger] self.bodies[k]).kind == BodyKind::Dynamic
                && self.bodies[k].ccd_enabled
        &&& self.bodies[self.dynamic_len()] == wall_body()
        &&& self.colliders == Self::fresh_colliders(self.axis)
    }

    /// What `step` answers: nothing while paused, else the inputs of the
    /// step that is due.
    pub open spec fn step_request(self, dt: Scalar) -> Option<StepRequest> {
        if self.state.paused {
            None
        } else {
            Some(StepRequest { dt, time_scale: self.state.time_scale, gravity: self.state.gravity })
        }
    }

    /// Whether a motion report is taken: the world is running and the report
    /// has one entry per dynamic body.
    pub open spec fn accepts_motion(self, motions: Seq<BodyMotion>) -> bool {
        !self.state.paused && motions.len() == self.dynamic_len()
    }

    /// The world after a motion report: unchanged unless the report is
    /// taken; else every dynamic body is where its entry says, and the fixed
    /// body is where it was.
    pub open spec fn moved(self, motions: Seq<BodyMotion>) -> WorldView {
        if self.accepts_motion(motions) {
            WorldView {
                bodies: Seq::new(
                    self.bodies.len(),
                    |k: int|
                        if k < self.dynamic_len() {
                            body_moved(self.bodies[k], motions[k])
                        } else {
                            self.bodies[k]
                        },
                ),
                ..self
            }
        } else {
            self
        }
    }

    /// The world after any number of motion reports, one after the other.
    pub open spec fn moved_all(self, reports: Seq<Seq<BodyMotion>>) -> WorldView
        decreases reports.len(),
    {
        if reports.len() == 0 {
            self
        } else {
            self.moved_all(reports.drop_last()).moved(reports.last())
        }
    }

    /// The world with another gravity vector.
    pub open spec fn with_gravity(self, gravity: Vec3) -> WorldView {
        WorldView { state: EngineState { gravity, ..self.state }, ..self }
    }

    /// The world with gravity of the given magnitude pulling down the y
    /// axis: the y component is the opposite of `magnitude`, x and z stay.
    pub open spec fn with_gravity_y(self, magnitude: Scalar) -> WorldView {
        self.with_gravity(Vec3 { y: magnitude.spec_negated(), ..self.state.gravity })
    }

    /// The world with another time scale.
    pub open spec fn with_time_scale(self, time_scale: Scalar) -> WorldView {
        WorldView { state: EngineState { time_scale, ..self.state }, ..self }
    }

    /// The world paused or running.
    pub open spec fn with_paused(self, paused: bool) -> WorldView {
        WorldView { state: EngineState { paused, ..self.state }, ..self }
    }

    /// What a query reports: the dynamic bodies in creation order.
    pub open spec fn samples(self) -> Seq<BodySample> {
        Seq::new(self.dynamic_len() as nat, |k: int| sample_of(k, self.bodies[k]))
    }
}

/// In a well-formed world the dynamic bodies are exactly the grid's: there
/// are as many as the square of its side.
pub proof fn lemma_dynamic_count(world: WorldView)
    requires
        world.wf(),
    ensures
        dynamic_count(world.bodies) == world.dynamic_len(),
{
    let grid = world.bodies.drop_last();
    assert(world.bodies.last() == wall_body());
    assert(grid.len() == world.dynamic_len());
    assert forall|k: int| 0 <= k < grid.len() implies (#[trigger] grid[k]).kind
        == BodyKind::Dynamic by {
        assert(grid[k] == world.bodies[k]);
    }
    lemma_all_dynamic(grid);
}

/// Where every body is dynamic, the count is the length.
proof fn lemma_all_dynamic(bodies: Seq<RigidBody>)
    requires
        forall|k: int| 0 <= k < bodies.len() ==> (#[trigger] bodies[k]).kind == BodyKind::Dynamic,
    ensures
        dynamic_count(bodies) == bodies.len(),
    decreases bodies.len(),
{
    if bodies.len() > 0 {
        let rest = bodies.drop_last();
        assert forall|k: int| 0 <= k < rest.len() implies (#[trigger] rest[k]).kind
            == BodyKind::Dynamic by {
            assert(rest[k] == bodies[k]);
        }
        lemma_all_dynamic(rest);
        assert(bodies.last() == bodies[bodies.len() - 1]);
    }
}

/// A reset makes a well-formed world in which body `k` of the grid stands at
/// the scalars that its column and its row pick from the axis.
pub proof fn lemma_reset_places_grid(axis: Seq<Scalar>, k: int)
    requires
        GridLayout::valid_side(axis.len() as int),
        0 <= k < axis.len() * axis.len(),
    ensures
        WorldView::fresh(axis).wf(),
        WorldView::fresh(axis).bodies[k].kind == BodyKind::Dynamic,
        WorldView::fresh(axis).bodies[k].translation.x == axis[k % (axis.len() as int)],
        WorldView::fresh(axis).bodies[k].translation.y == axis[k / (axis.len() as int)],
        WorldView::fresh(axis).bodies[k].translation.z == Scalar::spec_zero(),
        WorldView::fresh(axis).bodies[k].linvel == Vec3::spec_zero(),
        WorldView::fresh(axis).colliders[k].parent == k,
{
    let n = axis.len() as int;
    assert(n * n <= 65535 * 65535) by (nonlinear_arith)
        requires
            1 <= n <= 65535,
    ;
}

/// A reset is deterministic: layouts that agree index by index give worlds
/// that agree in every body, every collider and every control.
pub proof fn lemma_reset_deterministic(axis: Seq<Scalar>, other: Seq<Scalar>)
    requires
        axis.len() == other.len(),
        forall|i: int| 0 <= i < axis.len() ==> axis[i] == other[i],
    ensures
        WorldView::fresh(axis) == WorldView::fresh(other),
{
    assert(axis =~= other);
}

/// Every collider hangs on a body of the world: collider `k` on body `k`.
/// The grid bodies carry the small boxes, the floor's anchor the floor.
pub proof fn lemma_colliders_have_parents(world: WorldView, k: int)
    requires
        world.wf(),
        0 <= k < world.colliders.len(),
    ensures
        world.colliders.len() == world.bodies.len(),
        world.colliders[k].parent == k,
        k < world.dynamic_len() ==> world.colliders[k] == grid_collider(k),
        k == world.dynamic_len() ==> world.colliders[k] == wall_collider(k),
{
    let n = world.axis.len() as int;
    assert(n * n <= 65535 * 65535) by (nonlinear_arith)
        requires
            1 <= n <= 65535,
    ;
}

/// While the world is paused, no step is due, whatever the timestep, and no
/// sequence of motion reports changes anything: every body keeps its
/// translation, bit for bit.
pub proof fn lemma_pause_freezes(world: WorldView, dt: Scalar, reports: Seq<Seq<BodyMotion>>)
    requires
        world.state.paused,
    ensures
        world.step_request(dt).is_none(),
        world.moved_all(reports) == world,
    decreases reports.len(),
{
    if reports.len() > 0 {
        lemma_pause_freezes(world, dt, reports.drop_last());
    }
}

/// Gravity set by magnitude points the other way than the magnitude: a
/// magnitude without a sign gives a y component with one, and the other way
/// round. The x and z components, the other controls and every body stay
/// as they were.
pub proof fn lemma_gravity_points_down(world: WorldView, magnitude: Scalar)
    ensures
        world.with_gravity_y(magnitude).state.gravity.y.spec_is_sign_negative()
            == !magnitude.spec_is_sign_negative(),
        world.with_gravity_y(magnitude).state.gravity.y.spec_negated() == magnitude,
        world.with_gravity_y(magnitude).state.gravity.x == world.state.gravity.x,
        world.with_gravity_y(magnitude).state.gravity.z == world.state.gravity.z,
        world.with_gravity_y(magnitude).state.time_scale == world.state.time_scale,
        world.with_gravity_y(magnitude).state.paused == world.state.paused,
        world.with_gravity_y(magnitude).bodies == world.bodies,
{
    lemma_negation_involutive(magnitude);
}

/// A motion report keeps a well-formed world well-formed, never changes the
/// number of bodies or the controls, and leaves the fixed body in place.
pub proof fn lemma_moved_wf(world: WorldView, motions: Seq<BodyMotion>)
    requires
        world.wf(),
    ensures
        world.moved(motions).wf(),
        world.moved(motions).bodies.len() == world.bodies.len(),
        world.moved(motions).state == world.state,
        world.moved(motions).bodies[world.dynamic_len()] == wall_body(),
{
}

/// The physics world: layout, controls, bodies and colliders.
#[derive(Debug)]
pub struct PhysicsWorld {
    layout: GridLayout,
    state: EngineState,
    bodies: Vec<RigidBody>,
    colliders: Vec<Collider>,
}

impl View for PhysicsWorld {
    type V = WorldView;

    closed spec fn view(&self) -> WorldView {
        WorldView {
            axis: self.layout@,
            state: self.state,
            bodies: self.bodies@,
            colliders: self.colliders@,
        }
    }
}

/// The bodies and colliders of a reset on `layout`.
fn populate(layout: &GridLayout) -> (made: (Vec<RigidBody>, Vec<Collider>))
    requires
        layout.wf(),
    ensures
        made.0@ == WorldView::fresh_bodies(layout@),
        made.1@ == WorldView::fresh_colliders(layout@),
{
    let axis = layout.axis();
    let n: usize = axis.len();
    let mut bodies: Vec<RigidBody> = Vec::new();
    let mut colliders: Vec<Collider> = Vec::new();
    let half = Scalar::from_bits(BODY_HALF_EXTENT_BITS);
    let mut row: usize = 0;
    while row < n
        invariant
            axis@ == layout@,
            n == axis@.len(),
            1 <= n <= 65535,
            row <= n,
            half.bits == BODY_HALF_EXTENT_BITS,
            bodies@.len() == row * n,
            colliders@.len() == row * n,
            forall|k: int| 0 <= k < bodies@.len() ==> bodies@[k] == grid_body(axis@, k),
            forall|k: int| 0 <= k < colliders@.len() ==> colliders@[k] == grid_collider(k),
        decreases n - row,
    {
        let mut col: usize = 0;
        while col < n
            invariant
                axis@ == layout@,
                n == axis@.len(),
                1 <= n <= 65535,
                row < n,
                col <= n,
                half.bits == BODY_HALF_EXTENT_BITS,
                bodies@.len() == row * n + col,
                colliders@.len() == row * n + col,
                forall|k: int| 0 <= k < bodies@.len() ==> bodies@[k] == grid_body(axis@, k),
                forall|k: int| 0 <= k < colliders@.len() ==> colliders@[k] == grid_collider(k),
            decreases n - col,
        {
            proof {
                lemma_cell_index(n as int, row as int, col as int);
                assert(n * n <= 65535 * 65535) by (nonlinear_arith)
                    requires
                        n <= 65535,
                ;
            }
            let handle: usize = bodies.len();
            bodies.push(
                RigidBody {
                    kind: BodyKind::Dynamic,
                    translation: Vec3 { x: axis[col], y: axis[row], z: Scalar::zero() },
                    rotation: Scalar::zero(),
                    linvel: Vec3::zero(),
                    ccd_enabled: true,
                },
            );
            colliders.push(
                Collider {
                    half_extents: Vec3 { x: half, y: half, z: half },
                    restitution: Scalar::from_bits(BODY_RESTITUTION_BITS),
                    parent: handle as u32,
                },
            );
            col += 1;
        }
        assert((row + 1) * n == row * n + n) by (nonlinear_arith);
        row += 1;
    }
    proof {
        assert(n * n <= 65535 * 65535) by (nonlinear_arith)
            requires
                n <= 65535,
        ;
    }
    let anchor: usize = bodies.len();
    bodies.push(
        RigidBody {
            kind: BodyKind::Fixed,
            translation: Vec3 {
                x: Scalar::zero(),
                y: Scalar::from_bits(WALL_Y_BITS),
                z: Scalar::zero(),
            },
            rotation: Scalar::zero(),
            linvel: Vec3::zero(),
            ccd_enabled: false,
        },
    );
    colliders.push(
        Collider {
            half_extents: Vec3 {
                x: Scalar::from_bits(WALL_HALF_WIDTH_BITS),
                y: Scalar::from_bits(WALL_HALF_HEIGHT_BITS),
                z: Scalar::from_bits(WALL_HALF_DEPTH_BITS),
            },
            restitution: Scalar::zero(),
            parent: anchor as u32,
        },
    );
    assert(bodies@ =~= WorldView::fresh_bodies(layout@));
    assert(colliders@ =~= WorldView::fresh_colliders(layout@));
    (bodies, colliders)
}

impl PhysicsWorld {
    /// The invariant of the world's value.
    pub open spec fn wf(&self) -> bool {
        self@.wf()
    }

    /// A world freshly reset on `layout`.
    pub fn new(layout: GridLayout) -> (world: PhysicsWorld)
        requires
            layout.wf(),
        ensures
            world@ == WorldView::fresh(layout@),
            world.wf(),
    {
        let (bodies, colliders) = populate(&layout);
        proof {
            lemma_fresh_wf(layout@);
        }
        PhysicsWorld { layout, state: EngineState::new(), bodies, colliders }
    }

    /// Clears all bodies and colliders and repopulates the world on
    /// `layout`; the controls go back to their initial values.
    pub fn reset(&mut self, layout: GridLayout)
        requires
            layout.wf(),
        ensures
            final(self)@ == WorldView::fresh(layout@),
            final(self).wf(),
    {
        let (bodies, colliders) = populate(&layout);
        proof {
            lemma_fresh_wf(layout@);
        }
        self.layout = layout;
        self.state = EngineState::new();
        self.bodies = bodies;
        self.colliders = colliders;
    }

    /// Resets the world on the layout it has.
    pub fn reset_simulation(&mut self)
        requires
            old(self).wf(),
        ensures
            final(self)@ == WorldView::fresh(old(self)@.axis),
            final(self).wf(),
    {
        let (bodies, colliders) = populate(&self.layout);
        proof {
            lemma_fresh_wf(self.layout@);
        }
        self.state = EngineState::new();
        self.bodies = bodies;
        self.colliders = colliders;
    }

    /// Says whether a step is due, and with which inputs: none while the
    /// world is paused, else the timestep given, the time scale and the
    /// gravity as they are now. The world itself is not touched.
    pub fn step(&self, dt: Scalar) -> (request: Option<StepRequest>)
        ensures
            request == self@.step_request(dt),
    {
        if self.state.paused {
            None
        } else {
            Some(StepRequest { dt, time_scale: self.state.time_scale, gravity: self.state.gravity })
        }
    }

    /// Takes over where the integrator left the dynamic bodies, one entry
    /// per body in creation order. A report made while the world is paused,
    /// or one of the wrong length, is refused and changes nothing. Returns
    /// whether the report was taken.
    pub fn apply_motion(&mut self, motions: &Vec<BodyMotion>) -> (taken: bool)
        requires
            old(self).wf(),
        ensures
            taken == old(self)@.accepts_motion(motions@),
            final(self)@ == old(self)@.moved(motions@),
            final(self).wf(),
    {
        let n: usize = self.layout.axis().len();
        assert(n * n <= 65535 * 65535) by (nonlinear_arith)
            requires
                n <= 65535,
        ;
        let count: usize = n * n;
        if self.state.paused || motions.len() != count {
            return false;
        }
        let mut k: usize = 0;
        while k < count
            invariant
                k <= count,
                count == old(self)@.dynamic_len(),
                motions@.len() == count,
                self.layout == old(self).layout,
                self.state == old(self).state,
                self.colliders == old(self).colliders,
                self.bodies@.len() == old(self).bodies@.len(),
                self.bodies@.len() == count + 1,
                forall|j: int|
                    0 <= j < k ==> self.bodies@[j] == body_moved(old(self).bodies@[j], motions@[j]),
                forall|j: int| k <= j < self.bodies@.len() ==> self.bodies@[j] == old(self).bodies@[j],
            decreases count - k,
        {
            let body = self.bodies[k];
            let motion = motions[k];
            self.bodies.set(
                k,
                RigidBody {
                    kind: body.kind,
                    translation: motion.translation,
                    rotation: motion.rotation,
                    linvel: motion.linvel,
                    ccd_enabled: body.ccd_enabled,
                },
            );
            k += 1;
        }
        proof {
            assert(self@.bodies =~= old(self)@.moved(motions@).bodies);
            lemma_moved_wf(old(self)@, motions@);
        }
        true
    }

    /// Sets the gravity vector. It takes effect with the next step.
    pub fn set_gravity(&mut self, gravity: Vec3)
        ensures
            final(self)@ == old(self)@.with_gravity(gravity),
            old(self).wf() ==> final(self).wf(),
    {
        self.state.gravity = gravity;
    }

    /// Sets gravity to pull down the y axis with the given magnitude: the y
    /// component becomes the opposite of `magnitude`.
    pub fn set_gravity_y(&mut self, magnitude: Scalar)
        ensures
            final(self)@ == old(self)@.with_gravity_y(magnitude),
            old(self).wf() ==> final(self).wf(),
    {
        self.state.gravity.y = magnitude.negated();
    }

    /// Sets the factor by which a step's timestep is multiplied.
    pub fn set_time_scale(&mut self, time_scale: Scalar)
        ensures
            final(self)@ == old(self)@.with_time_scale(time_scale),
            old(self).wf() ==> final(self).wf(),
    {
        self.state.time_scale = time_scale;
    }

    /// Pauses the world or lets it run.
    pub fn set_paused(&mut self, paused: bool)
        ensures
            final(self)@ == old(self)@.with_paused(paused),
            old(self).wf() ==> final(self).wf(),
    {
        self.state.paused = paused;
    }

    /// The controls as they are now.
    pub fn state(&self) -> (state: EngineState)
        ensures
            state == self@.state,
    {
        self.state
    }

    /// The layout the world was reset on.
    pub fn layout(&self) -> (layout: &GridLayout)
        ensures
            layout@ == self@.axis,
    {
        &self.layout
    }

    /// All bodies in creation order.
    pub fn bodies(&self) -> (bodies: &Vec<RigidBody>)
        ensures
            bodies@ == self@.bodies,
    {
        &self.bodies
    }

    /// All colliders in creation order.
    pub fn colliders(&self) -> (colliders: &Vec<Collider>)
        ensures
            colliders@ == self@.colliders,
    {
        &self.colliders
    }

    /// The number of dynamic bodies.
    pub fn dynamic_count(&self) -> (count: usize)
        requires
            self.wf(),
        ensures
            count == self@.dynamic_len(),
            count == dynamic_count(self@.bodies),
    {
        proof {
            lemma_dynamic_count(self@);
        }
        self.bodies.len() - 1
    }

    /// Handle, translation, rotation and linear velocity of every dynamic
    /// body, in creation order.
    pub fn dynamic_bodies(&self) -> (samples: Vec<BodySample>)
        requires
            self.wf(),
        ensures
            samples@ == self@.samples(),
    {
        let count: usize = self.bodies.len() - 1;
        assert(count <= 65535 * 65535) by (nonlinear_arith)
            requires
                count == self@.axis.len() * self@.axis.len(),
                self@.axis.len() <= 65535,
        ;
        let mut samples: Vec<BodySample> = Vec::new();
        let mut k: usize = 0;
        while k < count
            invariant
                k <= count,
                count == self@.dynamic_len(),
                count + 1 == self.bodies@.len(),
                count <= 65535 * 65535,
                samples@.len() == k,
                forall|j: int| 0 <= j < k ==> samples@[j] == sample_of(j, self.bodies@[j]),
            decreases count - k,
        {
            let body = self.bodies[k];
            samples.push(
                BodySample {
                    handle: k as u32,
                    translation: body.translation,
                    rotation: body.rotation,
                    linvel: body.linvel,
                },
            );
            k += 1;
        }
        assert(samples@ =~= self@.samples());
        samples
    }
}

/// A reset on a valid layout makes a well-formed world.
pub proof fn lemma_fresh_wf(axis: Seq<Scalar>)
    requires
        GridLayout::valid_side(axis.len() as int),
    ensures
        WorldView::fresh(axis).wf(),
{
}

} // verus!
