//! The entity-component-system runtime: entities with their component bags,
//! the event queue used for deferred mutation, and the ordered system
//! pipeline that advances the simulation once per tick.

use vstd::prelude::*;
use crate::component::{Component, ComponentKind};

verus! {

/// Whether the simulation is advancing each tick or holding still.
#[derive(Clone, Copy, Debug, PartialEq, Eq, Structural)]
pub enum GameState {
    Playing,
    Paused,
}

impl GameState {
    /// The other state; the single transition flips between the two.
    pub open spec fn spec_toggled(self) -> GameState {
        match self {
            GameState::Playing => GameState::Paused,
            GameState::Paused => GameState::Playing,
        }
    }
}

/// An entity: an identity plus a bag of typed components, at most one
/// component per kind. The bag has one slot per kind of the closed
/// component set; reads check that the stored value's shape agrees with
/// the requested kind and report absence otherwise.
#[derive(Clone, Copy, Debug, PartialEq, Eq, Structural)]
pub struct Entity {
    pub id: u32,
    pub cell_slot: Option<Component>,
    pub grid_slot: Option<Component>,
}

/// An entity with the given identity and an empty component bag.
pub open spec fn empty_entity(id: u32) -> Entity {
    Entity { id, cell_slot: None, grid_slot: None }
}

impl Entity {
    /// The raw slot a kind is stored in, shape unchecked.
    pub open spec fn spec_slot(self, kind: ComponentKind) -> Option<Component> {
        match kind {
            ComponentKind::Cell => self.cell_slot,
            ComponentKind::Grid => self.grid_slot,
        }
    }

    /// The component stored under `kind`: absent when the slot is empty or
    /// when the stored value's shape disagrees with the kind.
    pub open spec fn spec_get(self, kind: ComponentKind) -> Option<Component> {
        match self.spec_slot(kind) {
            Some(c) => if c.spec_kind() == kind {
                Some(c)
            } else {
                None
            },
            None => None,
        }
    }

    /// The entity after storing `component` under its own kind,
    /// overwriting whatever that slot held.
    pub open spec fn spec_add(self, component: Component) -> Entity {
        match component.spec_kind() {
            ComponentKind::Cell => Entity { cell_slot: Some(component), ..self },
            ComponentKind::Grid => Entity { grid_slot: Some(component), ..self },
        }
    }

    /// The entity after clearing the slot of `kind`.
    pub open spec fn spec_remove(self, kind: ComponentKind) -> Entity {
        match kind {
            ComponentKind::Cell => Entity { cell_slot: None, ..self },
            ComponentKind::Grid => Entity { grid_slot: None, ..self },
        }
    }

    /// Stores `component` under its own kind, overwriting any component of
    /// that kind already present.
    pub fn add_component(&mut self, component: Component)
        ensures
            *final(self) == old(self).spec_add(component),
            final(self).spec_get(component.spec_kind()) == Some(component),
            forall|k: ComponentKind| k != component.spec_kind()
                ==> final(self).spec_get(k) == old(self).spec_get(k),
    {
        match component.kind() {
            ComponentKind::Cell => {
                self.cell_slot = Some(component);
            }
            ComponentKind::Grid => {
                self.grid_slot = Some(component);
            }
        }
    }

    /// The component of the requested kind, or absent when the entity does
    /// not hold one (or holds a value whose shape disagrees with the kind).
    pub fn get_component(&self, kind: ComponentKind) -> (r: Option<&Component>)
        ensures
            match r {
                Some(c) => self.spec_get(kind) == Some(*c),
                None => self.spec_get(kind) is None,
            },
    {
        let slot = match kind {
            ComponentKind::Cell => &self.cell_slot,
            ComponentKind::Grid => &self.grid_slot,
        };
        match slot {
            Some(c) => {
                if c.kind() == kind {
                    Some(c)
                } else {
                    None
                }
            }
            None => None,
        }
    }

    /// A mutable borrow of the component of the requested kind, or absent
    /// when the entity does not hold one. Whatever the caller writes through
    /// the borrow ends up in that kind's slot.
    pub fn get_component_mut(&mut self, kind: ComponentKind) -> (r: Option<&mut Component>)
        ensures
            r is Some <==> old(self).spec_get(kind) is Some,
            r is None ==> *final(self) == *old(self),
            r matches Some(p) ==> {
                &&& Some(*p) == old(self).spec_get(kind)
                &&& *final(self) == (match kind {
                    ComponentKind::Cell => Entity { cell_slot: Some(*final(p)), ..*old(self) },
                    ComponentKind::Grid => Entity { grid_slot: Some(*final(p)), ..*old(self) },
                })
            },
    {
        let slot = match kind {
            ComponentKind::Cell => &mut self.cell_slot,
            ComponentKind::Grid => &mut self.grid_slot,
        };
        match slot {
            Some(c) => {
                if c.kind() == kind {
                    Some(c)
                } else {
                    None
                }
            }
            None => None,
        }
    }

    /// Removes and returns the component of the requested kind; absent when
    /// the entity held none.
    pub fn remove_component(&mut self, kind: ComponentKind) -> (r: Option<Component>)
        ensures
            *final(self) == old(self).spec_remove(kind),
            r == old(self).spec_get(kind),
            final(self).spec_get(kind) is None,
    {
        let removed = match kind {
            ComponentKind::Cell => self.cell_slot.take(),
            ComponentKind::Grid => self.grid_slot.take(),
        };
        match removed {
            Some(c) => {
                if c.kind() == kind {
                    Some(c)
                } else {
                    None
                }
            }
            None => None,
        }
    }
}

/// A component bag behaves as a mapping from kinds to components: adding
/// a component binds exactly its own kind and leaves every other kind
/// alone, removing a kind clears it, and a fresh entity binds nothing.
pub proof fn lemma_component_bag(e: Entity, c: Component, k: ComponentKind, id: u32)
    ensures
        e.spec_add(c).spec_get(c.spec_kind()) == Some(c),
        k != c.spec_kind() ==> e.spec_add(c).spec_get(k) == e.spec_get(k),
        e.spec_remove(k).spec_get(k) is None,
        empty_entity(id).spec_get(k) is None,
{
}

/// Fluent construction of an entity with its initial components.
pub struct EntityBuilder {
    pub entity: Entity,
}

impl EntityBuilder {
    /// A builder for an entity with the given identity and no components.
    pub fn new(id: u32) -> (r: EntityBuilder)
        ensures
            r.entity == empty_entity(id),
            forall|k: ComponentKind| r.entity.spec_get(k) is None,
    {
        EntityBuilder { entity: Entity { id, cell_slot: None, grid_slot: None } }
    }

    /// Adds one component, overwriting any component of the same kind.
    pub fn with_component(self, component: Component) -> (r: EntityBuilder)
        ensures
            r.entity == self.entity.spec_add(component),
    {
        let mut builder = self;
        builder.entity.add_component(component);
        builder
    }

    /// The finished entity.
    pub fn build(self) -> (r: Entity)
        ensures
            r == self.entity,
    {
        self.entity
    }
}

/// A queued message describing a requested mutation: toggle one cell, or
/// toggle the grid overlay. The variant is the event's kind tag.
#[derive(Clone, Copy, Debug, PartialEq, Eq, Structural)]
pub enum Event {
    ToggleCell { x: u32, y: u32 },
    ToggleGrid,
}

/// An ordered queue of events. Producers append with `push`; consumers
/// drain with `pop`, which removes the most recently pushed event first.
pub struct EventQueue {
    events: Vec<Event>,
}

impl View for EventQueue {
    type V = Seq<Event>;

    closed spec fn view(&self) -> Seq<Event> {
        self.events@
    }
}

impl EventQueue {
    /// An empty queue.
    pub fn new() -> (r: EventQueue)
        ensures
            r@ == Seq::<Event>::empty(),
    {
        EventQueue { events: Vec::new() }
    }

    /// Appends one event.
    pub fn push(&mut self, event: Event)
        ensures
            final(self)@ == old(self)@.push(event),
    {
        self.events.push(event);
    }

    /// Removes and returns the most recently pushed event; on an empty
    /// queue, returns absent and leaves the queue unchanged.
    pub fn pop(&mut self) -> (r: Option<Event>)
        ensures
            old(self)@.len() == 0 ==> r is None && final(self)@ == old(self)@,
            old(self)@.len() > 0 ==> r == Some(old(self)@.last())
                && final(self)@ == old(self)@.drop_last(),
    {
        self.events.pop()
    }

    /// How many events are queued.
    pub fn len(&self) -> (r: usize)
        ensures
            r == self@.len(),
    {
        self.events.len()
    }
}

/// A push followed by a pop hands back exactly the pushed event and
/// restores the queue's previous contents: the queue drains in
/// most-recently-pushed-first order, and popping everything that was
/// pushed leaves the queue as it began.
pub proof fn lemma_push_then_pop(events: Seq<Event>, event: Event)
    ensures
        events.push(event).last() == event,
        events.push(event).drop_last() == events,
{
    assert(events.push(event).drop_last() =~= events);
}

/// A unit of per-tick game logic. A system describes, as specification
/// functions, when its update may run and what it does to the entity
/// slice; its `update` is then bound to exactly that description.
pub trait System: Sized {
    /// When `update` may be called on this entity slice.
    spec fn update_enabled(&self, entities: Seq<Entity>) -> bool;

    /// The entity slice after one update.
    spec fn spec_update(&self, entities: Seq<Entity>) -> Seq<Entity>;

    /// Runs the system once over the entity slice.
    fn update(&mut self, entities: &mut Vec<Entity>)
        requires
            old(self).update_enabled(old(entities)@),
        ensures
            *final(self) == *old(self),
            final(entities)@ == old(self).spec_update(old(entities)@),
    ;
}

/// Whether every system in the pipeline is enabled on the entity slice it
/// will actually see, running in order.
pub open spec fn pipeline_enabled<S: System>(systems: Seq<S>, entities: Seq<Entity>) -> bool
    decreases systems.len(),
{
    systems.len() == 0 || {
        &&& systems[0].update_enabled(entities)
        &&& pipeline_enabled(systems.drop_first(), systems[0].spec_update(entities))
    }
}

/// The entity slice after running every system in the pipeline, in order.
pub open spec fn pipeline_run<S: System>(systems: Seq<S>, entities: Seq<Entity>) -> Seq<Entity>
    decreases systems.len(),
{
    if systems.len() == 0 {
        entities
    } else {
        pipeline_run(systems.drop_first(), systems[0].spec_update(entities))
    }
}

/// The ordered system pipeline: systems run once per tick, in
/// registration order.
pub struct SystemManager<S> {
    systems: Vec<S>,
}

impl<S: System> SystemManager<S> {
    /// The registered systems, in registration order.
    pub closed spec fn spec_systems(&self) -> Seq<S> {
        self.systems@
    }

    /// An empty pipeline.
    pub fn new() -> (r: SystemManager<S>)
        ensures
            r.spec_systems() == Seq::<S>::empty(),
    {
        SystemManager { systems: Vec::new() }
    }

    /// Registers a system after all previously registered ones.
    pub fn add_system(&mut self, system: S)
        ensures
            final(self).spec_systems() == old(self).spec_systems().push(system),
    {
        self.systems.push(system);
    }

    /// Runs every registered system over the entity slice, in order.
    pub fn update(&mut self, entities: &mut Vec<Entity>)
        requires
            pipeline_enabled(old(self).spec_systems(), old(entities)@),
        ensures
            final(self).spec_systems() == old(self).spec_systems(),
            final(entities)@ == pipeline_run(old(self).spec_systems(), old(entities)@),
    {
        let ghost all = self.spec_systems();
        let ghost orig = entities@;
        let n = self.systems.len();
        let mut i: usize = 0;
        proof {
            assert(all.skip(0) =~= all);
        }
        while i < n
            invariant
                0 <= i <= n,
                n == all.len(),
                self.systems@ == all,
                pipeline_enabled(all.skip(i as int), entities@),
                pipeline_run(all.skip(i as int), entities@) == pipeline_run(all, orig),
            decreases n - i,
        {
            proof {
                assert(all.skip(i as int)[0] == all[i as int]);
                assert(all.skip(i as int).drop_first() =~= all.skip(i as int + 1));
            }
            let ghost before = entities@;
            let system = &mut self.systems[i];
            system.update(entities);
            proof {
                assert(self.systems@ =~= all);
            }
            i += 1;
        }
        proof {
            assert(all.skip(n as int) =~= Seq::<S>::empty());
        }
    }
}

} // verus!
