//! Tests of instance synchronization.

use physics_core::grid::GridLayout;
use physics_core::instance::{sync, sync_bodies, InstanceRecord};
use physics_core::scalar::{Scalar, Vec2, Vec3};
use physics_core::world::{BodyKind, BodyMotion, PhysicsWorld, RigidBody};

fn scalar(value: f32) -> Scalar {
    Scalar::from_bits(value.to_bits())
}

fn layout(per_row: u32) -> GridLayout {
    let axis = (0..per_row)
        .map(|i| {
            let n = per_row as f32;
            scalar((i as f32 / n) * 2.0 - 1.0 + (1.0 / n))
        })
        .collect();
    GridLayout::from_axis(axis).unwrap()
}

fn body(kind: BodyKind, x: f32, y: f32, angle: f32) -> RigidBody {
    RigidBody {
        kind,
        translation: Vec3 { x: scalar(x), y: scalar(y), z: scalar(9.0) },
        rotation: scalar(angle),
        linvel: Vec3 { x: scalar(2.0 * x), y: scalar(2.0 * y), z: scalar(7.0) },
        ccd_enabled: true,
    }
}

#[test]
fn one_record_per_dynamic_body() {
    for per_row in [1u32, 2, 3, 10] {
        let mut world = PhysicsWorld::new(layout(per_row));
        assert_eq!(sync(&world).len(), (per_row * per_row) as usize);
        assert_eq!(sync(&world).len(), world.dynamic_count());
        world.reset_simulation();
        assert_eq!(sync(&world).len(), (per_row * per_row) as usize);
    }
}

#[test]
fn record_mirrors_its_body() {
    let mut world = PhysicsWorld::new(layout(2));
    let report: Vec<BodyMotion> = (0..4)
        .map(|k| BodyMotion {
            translation: Vec3 { x: scalar(k as f32), y: scalar(-(k as f32)), z: scalar(3.0) },
            rotation: scalar(0.5 * k as f32),
            linvel: Vec3 { x: scalar(1.5), y: scalar(-2.5 * k as f32), z: scalar(4.0) },
        })
        .collect();
    assert!(world.apply_motion(&report));
    let records = sync(&world);
    assert_eq!(records.len(), 4);
    for k in 0..4 {
        assert_eq!(
            records[k],
            InstanceRecord {
                position: Vec2 { x: scalar(k as f32), y: scalar(-(k as f32)) },
                velocity: Vec2 { x: scalar(1.5), y: scalar(-2.5 * k as f32) },
                scale: scalar(0.05),
                rotation: scalar(0.5 * k as f32),
                uv: Vec2 { x: scalar(0.0), y: scalar(0.0) },
            }
        );
    }
}

#[test]
fn fixed_bodies_have_no_record() {
    let bodies = vec![
        body(BodyKind::Fixed, 1.0, 1.0, 0.0),
        body(BodyKind::Dynamic, 2.0, 3.0, 0.5),
        body(BodyKind::Fixed, 4.0, 5.0, 0.0),
        body(BodyKind::Dynamic, 6.0, 7.0, 1.5),
        body(BodyKind::Fixed, 8.0, 9.0, 0.0),
    ];
    let records = sync_bodies(&bodies);
    assert_eq!(records.len(), 2);
    assert_eq!(records[0].position, Vec2 { x: scalar(2.0), y: scalar(3.0) });
    assert_eq!(records[0].rotation, scalar(0.5));
    assert_eq!(records[1].position, Vec2 { x: scalar(6.0), y: scalar(7.0) });
    assert_eq!(records[1].velocity, Vec2 { x: scalar(12.0), y: scalar(14.0) });
}

#[test]
fn no_bodies_no_records() {
    assert!(sync_bodies(&Vec::new()).is_empty());
    assert!(sync_bodies(&vec![body(BodyKind::Fixed, 0.0, 0.0, 0.0)]).is_empty());
}

#[test]
fn fresh_world_records_sit_on_the_grid() {
    let world = PhysicsWorld::new(layout(10));
    let records = sync(&world);
    let first = f32::from_bits(records[0].position.x.to_bits());
    let last = f32::from_bits(records[99].position.y.to_bits());
    assert!((first + 0.9).abs() < 1.0e-6);
    assert!((last - 0.9).abs() < 1.0e-6);
    for record in &records {
        assert_eq!(f32::from_bits(record.scale.to_bits()), 0.05);
        assert_eq!(record.velocity, Vec2::zero());
        assert_eq!(record.uv, Vec2::zero());
        assert_eq!(record.rotation, Scalar::zero());
    }
}
