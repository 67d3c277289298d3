//! A registry for hosts whose interface has no room for a context.
//!
//! A host that owns its context passes it to every call. Where a foreign
//! interface allows only bare calls, the host keeps the one context of the
//! process in a registry and holds on to the id that it got for it. An id
//! resolves as long as its context is registered, and never again after:
//! every registration gets a generation of its own.

use vstd::prelude::*;
use crate::context::{ContextView, EngineContext};

verus! {

/// Names a registered context.
#[derive(Clone, Copy, Debug, PartialEq, Eq, Structural)]
pub struct InstanceId {
    /// The slot that holds the context.
    pub index: u32,
    /// The registration in which the slot was filled.
    pub generation: u64,
}

/// The registry as a value.
pub struct RegistryView {
    /// The registered context, if there is one.
    pub slot: Option<ContextView>,
    /// How many registrations there have been.
    pub generation: u64,
}

impl RegistryView {
    /// The invariant: a registered context is well-formed.
    pub open spec fn wf(self) -> bool {
        self.slot matches Some(context) ==> context.wf()
    }

    /// The id under which the registered context is found, if there is one.
    pub open spec fn live_id(self) -> Option<InstanceId> {
        if self.slot.is_some() {
            Some(InstanceId { index: 0, generation: self.generation })
        } else {
            None
        }
    }

    /// Whether `id` names the registered context.
    pub open spec fn resolves(self, id: InstanceId) -> bool {
        self.live_id() == Some(id)
    }

    /// Whether a context can be registered: the slot is free and there is a
    /// generation left for it.
    pub open spec fn has_room(self) -> bool {
        self.slot.is_none() && self.generation < u64::MAX
    }

    /// The registry after `context` was offered for registration.
    pub open spec fn registered(self, context: ContextView) -> RegistryView {
        if self.has_room() {
            RegistryView { slot: Some(context), generation: (self.generation + 1) as u64 }
        } else {
            self
        }
    }

    /// The registry after the context named `id` was asked back.
    pub open spec fn released(self, id: InstanceId) -> RegistryView {
        if self.resolves(id) {
            RegistryView { slot: None, ..self }
        } else {
            self
        }
    }
}

/// Holds the one context of a process.
#[derive(Debug)]
pub struct Registry {
    slot: Option<EngineContext>,
    generation: u64,
}

impl View for Registry {
    type V = RegistryView;

    closed spec fn view(&self) -> RegistryView {
        RegistryView {
            slot: match self.slot {
                Some(context) => Some(context@),
                None => None,
            },
            generation: self.generation,
        }
    }
}

impl Registry {
    /// The invariant of the registry's value.
    pub open spec fn wf(&self) -> bool {
        self@.wf()
    }

    /// An empty registry.
    pub fn new() -> (registry: Registry)
        ensures
            registry@ == (RegistryView { slot: None, generation: 0 }),
            registry.wf(),
    {
        Registry { slot: None, generation: 0 }
    }

    /// Registers `context` and returns its id. Where the registry already
    /// holds a context, or has run out of generations, nothing changes and
    /// the context is handed back.
    pub fn register(&mut self, context: EngineContext) -> (result: Result<InstanceId, EngineContext>)
        requires
            old(self).wf(),
            context.wf(),
        ensures
            result.is_ok() == old(self)@.has_room(),
            final(self)@ == old(self)@.registered(context@),
            final(self).wf(),
            result matches Ok(id) ==> final(self)@.live_id() == Some(id),
            result matches Err(back) ==> back@ == context@,
    {
        if self.slot.is_some() || self.generation == u64::MAX {
            return Err(context);
        }
        self.generation = self.generation + 1;
        self.slot = Some(context);
        Ok(InstanceId { index: 0, generation: self.generation })
    }

    /// Whether `id` names the registered context.
    pub fn contains(&self, id: InstanceId) -> (found: bool)
        ensures
            found == self@.resolves(id),
    {
        self.slot.is_some() && id.index == 0 && id.generation == self.generation
    }

    /// The context named `id`, if it is registered.
    pub fn resolve(&self, id: InstanceId) -> (context: Option<&EngineContext>)
        ensures
            context.is_some() == self@.resolves(id),
            context matches Some(found) ==> Some(found@) == self@.slot,
    {
        if id.index == 0 && id.generation == self.generation {
            self.slot.as_ref()
        } else {
            None
        }
    }

    /// The context named `id`, if it is registered, to call into. What the
    /// call leaves of the context is what the registry holds afterwards.
    pub fn resolve_mut(&mut self, id: InstanceId) -> (context: Option<&mut EngineContext>)
        ensures
            context.is_some() == old(self)@.resolves(id),
            context matches Some(found) ==> Some(found@) == old(self)@.slot && final(self)@ == (
            RegistryView { slot: Some(final(found)@), generation: old(self)@.generation }),
            context.is_none() ==> final(self)@ == old(self)@,
    {
        if id.index == 0 && id.generation == self.generation {
            self.slot.as_mut()
        } else {
            None
        }
    }

    /// Takes the context named `id` out of the registry, if it is
    /// registered. Its id is of no use from then on.
    pub fn release(&mut self, id: InstanceId) -> (context: Option<EngineContext>)
        requires
            old(self).wf(),
        ensures
            context.is_some() == old(self)@.resolves(id),
            context matches Some(found) ==> Some(found@) == old(self)@.slot && found.wf(),
            final(self)@ == old(self)@.released(id),
            final(self).wf(),
    {
        if id.index == 0 && id.generation == self.generation {
            self.slot.take()
        } else {
            None
        }
    }
}

/// An id resolves from its registration to its release and at no other
/// time: once the context was asked back, neither a later registration nor
/// anything else makes the id resolve again.
pub proof fn lemma_stale_ids_stay_stale(
    registry: RegistryView,
    first: ContextView,
    second: ContextView,
)
    requires
        registry.has_room(),
    ensures
        registry.registered(first).live_id().is_some(),
        registry.registered(first).resolves(registry.registered(first).live_id().unwrap()),
        !registry.registered(first).released(
            registry.registered(first).live_id().unwrap(),
        ).resolves(registry.registered(first).live_id().unwrap()),
        !registry.registered(first).released(
            registry.registered(first).live_id().unwrap(),
        ).registered(second).resolves(registry.registered(first).live_id().unwrap()),
{
}

/// The registry never holds more than one context: while one is
/// registered, offering another changes nothing.
pub proof fn lemma_one_context(registry: RegistryView, context: ContextView)
    requires
        registry.slot.is_some(),
    ensures
        !registry.has_room(),
        registry.registered(context) == registry,
{
}

} // verus!
