//! Per-instance render data, rebuilt in full from the world's bodies.
//!
//! One record stands for one dynamic body. Records follow the bodies'
//! creation order, so a record is found by position, not by handle.

use vstd::prelude::*;
use crate::scalar::{Scalar, Vec2};
use crate::grid::GridLayout;
use crate::world::{BodyKind, PhysicsWorld, RigidBody, WorldView, dynamic_count, lemma_fresh_wf};

verus! {

/// Bit pattern of the scale every instance is drawn with, 0.05.
pub const INSTANCE_SCALE_BITS: u32 = 0x3D4C_CCCD;

/// What the draw call reads for one instance.
#[derive(Clone, Copy, Debug, PartialEq, Eq, Structural)]
pub struct InstanceRecord {
    pub position: Vec2,
    /// Carried along for inspection; drawing does not read it.
    pub velocity: Vec2,
    pub scale: Scalar,
    pub rotation: Scalar,
    /// Offset into the texture.
    pub uv: Vec2,
}

/// The record of one body: x and y of its translation and of its velocity,
/// its rotation angle, the fixed scale and no texture offset.
pub open spec fn instance_of(body: RigidBody) -> InstanceRecord {
    InstanceRecord {
        position: Vec2 { x: body.translation.x, y: body.translation.y },
        velocity: Vec2 { x: body.linvel.x, y: body.linvel.y },
        scale: Scalar { bits: INSTANCE_SCALE_BITS },
        rotation: body.rotation,
        uv: Vec2::spec_zero(),
    }
}

/// The records of the dynamic bodies among `bodies`, in their order.
pub open spec fn instances_of(bodies: Seq<RigidBody>) -> Seq<InstanceRecord>
    decreases bodies.len(),
{
    if bodies.len() == 0 {
        Seq::empty()
    } else if bodies.last().kind == BodyKind::Dynamic {
        instances_of(bodies.drop_last()).push(instance_of(bodies.last()))
    } else {
        instances_of(bodies.drop_last())
    }
}

/// There are exactly as many records as dynamic bodies.
pub proof fn lemma_instance_parity(bodies: Seq<RigidBody>)
    ensures
        instances_of(bodies).len() == dynamic_count(bodies),
    decreases bodies.len(),
{
    if bodies.len() > 0 {
        lemma_instance_parity(bodies.drop_last());
    }
}

/// Where the first `count` bodies are the dynamic ones and one fixed body
/// follows, record `k` is the record of body `k`.
proof fn lemma_instances_prefix(bodies: Seq<RigidBody>, count: int)
    requires
        0 <= count <= bodies.len(),
        forall|k: int| 0 <= k < count ==> (#[trigger] bodies[k]).kind == BodyKind::Dynamic,
    ensures
        instances_of(bodies.take(count)) == Seq::new(count as nat, |k: int| instance_of(bodies[k])),
    decreases count,
{
    let prefix = bodies.take(count);
    if count > 0 {
        lemma_instances_prefix(bodies, count - 1);
        assert(prefix.drop_last() =~= bodies.take(count - 1));
        assert(prefix.last() == bodies[count - 1]);
        assert(instances_of(prefix) =~= Seq::new(count as nat, |k: int| instance_of(bodies[k])));
    } else {
        assert(instances_of(prefix) =~= Seq::new(count as nat, |k: int| instance_of(bodies[k])));
    }
}

/// In a well-formed world there is one record per grid position, and record
/// `k` mirrors body `k`.
pub proof fn lemma_world_instances(world: WorldView)
    requires
        world.wf(),
    ensures
        instances_of(world.bodies).len() == world.dynamic_len(),
        instances_of(world.bodies) == Seq::new(
            world.dynamic_len() as nat,
            |k: int| instance_of(world.bodies[k]),
        ),
{
    lemma_instances_prefix(world.bodies, world.dynamic_len());
    assert(world.bodies.drop_last() =~= world.bodies.take(world.dynamic_len()));
    assert(world.bodies.last() == world.bodies[world.dynamic_len()]);
}

/// After a reset there are as many records as dynamic bodies, and as many
/// as the grid has positions.
pub proof fn lemma_parity_after_reset(axis: Seq<Scalar>)
    requires
        GridLayout::valid_side(axis.len() as int),
    ensures
        instances_of(WorldView::fresh(axis).bodies).len() == dynamic_count(
            WorldView::fresh(axis).bodies,
        ),
        instances_of(WorldView::fresh(axis).bodies).len() == axis.len() * axis.len(),
{
    lemma_fresh_wf(axis);
    lemma_world_instances(WorldView::fresh(axis));
    lemma_instance_parity(WorldView::fresh(axis).bodies);
}

/// Rebuilds the instance records from a list of bodies.
pub fn sync_bodies(bodies: &Vec<RigidBody>) -> (instances: Vec<InstanceRecord>)
    ensures
        instances@ == instances_of(bodies@),
        instances@.len() == dynamic_count(bodies@),
{
    let mut instances: Vec<InstanceRecord> = Vec::new();
    let mut i: usize = 0;
    assert(bodies@.take(0) =~= Seq::empty());
    while i < bodies.len()
        invariant
            i <= bodies.len(),
            instances@ == instances_of(bodies@.take(i as int)),
        decreases bodies.len() - i,
    {
        let body = bodies[i];
        proof {
            let next = bodies@.take(i + 1);
            assert(next.drop_last() =~= bodies@.take(i as int));
            assert(next.last() == bodies@[i as int]);
        }
        match body.kind {
            BodyKind::Dynamic => {
                instances.push(
                    InstanceRecord {
                        position: Vec2 { x: body.translation.x, y: body.translation.y },
                        velocity: Vec2 { x: body.linvel.x, y: body.linvel.y },
                        scale: Scalar::from_bits(INSTANCE_SCALE_BITS),
                        rotation: body.rotation,
                        uv: Vec2::zero(),
                    },
                );
            },
            BodyKind::Fixed => {},
        }
        i += 1;
    }
    proof {
        assert(bodies@.take(bodies@.len() as int) =~= bodies@);
        lemma_instance_parity(bodies@);
    }
    instances
}

/// Rebuilds the instance records from the world: one record per dynamic
/// body, in creation order.
pub fn sync(world: &PhysicsWorld) -> (instances: Vec<InstanceRecord>)
    ensures
        instances@ == instances_of(world@.bodies),
        instances@.len() == dynamic_count(world@.bodies),
{
    sync_bodies(world.bodies())
}

} // verus!
