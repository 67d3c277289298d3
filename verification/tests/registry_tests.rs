//! Tests of the context registry.

use physics_core::context::{EngineContext, Phase, SurfaceProbe};
use physics_core::grid::GridLayout;
use physics_core::registry::{InstanceId, Registry};
use physics_core::scalar::Scalar;
use physics_core::surface::Platform;

fn context(interval_ms: u64) -> EngineContext {
    let axis = vec![Scalar::from_bits((-0.5f32).to_bits()), Scalar::from_bits(0.5f32.to_bits())];
    EngineContext::new(Platform::Native, GridLayout::from_axis(axis).unwrap(), interval_ms)
}

#[test]
fn empty_registry_resolves_nothing() {
    let mut registry = Registry::new();
    let id = InstanceId { index: 0, generation: 0 };
    assert!(!registry.contains(id));
    assert!(registry.resolve(id).is_none());
    assert!(registry.resolve_mut(id).is_none());
    assert!(registry.release(id).is_none());
}

#[test]
fn registered_context_is_found_by_its_id() {
    let mut registry = Registry::new();
    let id = registry.register(context(16)).unwrap();
    assert_eq!(id, InstanceId { index: 0, generation: 1 });
    assert!(registry.contains(id));
    assert_eq!(registry.resolve(id).unwrap().phase(), Phase::Uninitialized);
    assert_eq!(registry.resolve(id).unwrap().scheduler().interval_ms, 16);
}

#[test]
fn other_ids_do_not_resolve() {
    let mut registry = Registry::new();
    let id = registry.register(context(16)).unwrap();
    for other in [
        InstanceId { index: 1, generation: id.generation },
        InstanceId { index: 0, generation: 0 },
        InstanceId { index: 0, generation: id.generation + 1 },
    ] {
        assert!(!registry.contains(other));
        assert!(registry.resolve(other).is_none());
        assert!(registry.resolve_mut(other).is_none());
        assert!(registry.release(other).is_none());
    }
    assert!(registry.contains(id));
}

#[test]
fn calls_through_the_registry_stay_in_the_registry() {
    let mut registry = Registry::new();
    let id = registry.register(context(16)).unwrap();
    let found = registry.resolve_mut(id).unwrap();
    assert_eq!(found.initialize(SurfaceProbe::Absent, 0, 0, 7), Ok(None));
    assert_eq!(registry.resolve(id).unwrap().phase(), Phase::Headless);
    assert_eq!(registry.resolve(id).unwrap().scheduler().last_frame_ms, 7);
}

#[test]
fn registry_holds_one_context() {
    let mut registry = Registry::new();
    let id = registry.register(context(16)).unwrap();
    let refused = registry.register(context(33)).unwrap_err();
    assert_eq!(refused.scheduler().interval_ms, 33);
    assert!(registry.contains(id));
    assert_eq!(registry.resolve(id).unwrap().scheduler().interval_ms, 16);
}

#[test]
fn released_ids_are_stale() {
    let mut registry = Registry::new();
    let first = registry.register(context(16)).unwrap();
    let back = registry.release(first).unwrap();
    assert_eq!(back.scheduler().interval_ms, 16);
    assert!(!registry.contains(first));
    assert!(registry.resolve(first).is_none());
    assert!(registry.release(first).is_none());
    let second = registry.register(context(33)).unwrap();
    assert_ne!(first, second);
    assert_eq!(second, InstanceId { index: 0, generation: 2 });
    assert!(!registry.contains(first));
    assert!(registry.contains(second));
    assert_eq!(registry.resolve(second).unwrap().scheduler().interval_ms, 33);
}
