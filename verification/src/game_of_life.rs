//! The interactive automaton: event-driven toggle systems, input
//! translation, grid construction, and the composition root that wires the
//! per-tick sequence together.

use vstd::prelude::*;
use crate::component::{Cell, CellState, Component, ComponentKind, Grid};
use crate::engine::{
    Entity, EntityBuilder, Event, EventQueue, GameState, System, SystemManager, pipeline_enabled,
    pipeline_run,
};
use crate::life::{LifeSystem, spec_cell_state, spec_grid_of, spec_life_step};

verus! {

/// The entity slice after toggling the cell at `index`: that cell's state
/// is flipped; an index out of range or an entity without a cell component
/// leaves the slice unchanged.
pub open spec fn spec_toggle_cell(cells: Seq<Entity>, index: int) -> Seq<Entity> {
    if 0 <= index < cells.len() {
        match spec_cell_state(cells[index]) {
            Some(s) => cells.update(
                index,
                cells[index].spec_add(Component::Cell(Cell { state: s.spec_flipped() })),
            ),
            None => cells,
        }
    } else {
        cells
    }
}

/// The entity slice after draining `events`, most recently pushed first:
/// each cell-toggle event flips the cell at `x + y * width`; events of any
/// other kind are dropped.
pub open spec fn spec_apply_cell_events(cells: Seq<Entity>, events: Seq<Event>, width: int) -> Seq<
    Entity,
>
    decreases events.len(),
{
    if events.len() == 0 {
        cells
    } else {
        let next = match events.last() {
            Event::ToggleCell { x, y } => spec_toggle_cell(cells, x + y * width),
            Event::ToggleGrid => cells,
        };
        spec_apply_cell_events(next, events.drop_last(), width)
    }
}

/// The entity after one grid toggle: its grid component's `show` flag is
/// flipped; an entity without a grid component is left unchanged.
pub open spec fn spec_toggle_grid(e: Entity) -> Entity {
    match spec_grid_of(e) {
        Some(g) => e.spec_add(Component::Grid(Grid { show: !g.show, ..g })),
        None => e,
    }
}

/// The entity after draining `events`, most recently pushed first: each
/// grid-toggle event flips the `show` flag; events of any other kind are
/// dropped.
pub open spec fn spec_apply_grid_events(e: Entity, events: Seq<Event>) -> Entity
    decreases events.len(),
{
    if events.len() == 0 {
        e
    } else {
        let next = match events.last() {
            Event::ToggleGrid => spec_toggle_grid(e),
            Event::ToggleCell { .. } => e,
        };
        spec_apply_grid_events(next, events.drop_last())
    }
}

/// Translates raw input-poll results into events; never mutates simulation
/// state directly. A pointer position maps to grid coordinates by integer
/// division by `cell_size`, and a cell-toggle event is emitted only when
/// both coordinates lie inside the grid.
pub struct InputSystem {
    pub cell_size: i32,
}

impl InputSystem {
    pub fn new(cell_size: i32) -> (r: InputSystem)
        requires
            cell_size >= 1,
        ensures
            r.cell_size == cell_size,
    {
        InputSystem { cell_size }
    }

    /// Turns one frame's input-poll results into queued events: a pressed
    /// pointer inside the grid queues a cell toggle at the pointed-at cell,
    /// and the grid key queues a grid toggle, on its own independent
    /// trigger.
    pub fn handle_input(
        &self,
        mouse_pressed: bool,
        mouse_x: u32,
        mouse_y: u32,
        grid_key_pressed: bool,
        width: u32,
        height: u32,
        toggle_cells_event_queue: &mut EventQueue,
        toggle_grid_event_queue: &mut EventQueue,
    )
        requires
            self.cell_size >= 1,
        ensures
            final(toggle_cells_event_queue)@ == ({
                let cx = (mouse_x as int) / (self.cell_size as int);
                let cy = (mouse_y as int) / (self.cell_size as int);
                if mouse_pressed && cx < width && cy < height {
                    old(toggle_cells_event_queue)@.push(
                        Event::ToggleCell { x: cx as u32, y: cy as u32 },
                    )
                } else {
                    old(toggle_cells_event_queue)@
                }
            }),
            final(toggle_grid_event_queue)@ == (if grid_key_pressed {
                old(toggle_grid_event_queue)@.push(Event::ToggleGrid)
            } else {
                old(toggle_grid_event_queue)@
            }),
    {
        if mouse_pressed {
            let cell_x = mouse_x / (self.cell_size as u32);
            let cell_y = mouse_y / (self.cell_size as u32);
            if cell_x < width && cell_y < height {
                toggle_cells_event_queue.push(Event::ToggleCell { x: cell_x, y: cell_y });
            }
        }
        if grid_key_pressed {
            toggle_grid_event_queue.push(Event::ToggleGrid);
        }
    }
}

/// Drains the cell-toggle queue every tick and flips the addressed cells.
/// Events of any other kind are dropped.
pub struct CellToggleSystem {
    pub width: u32,
}

impl CellToggleSystem {
    /// Drains the queue and applies every cell-toggle event. The queue must
    /// only hold events addressing cells inside the slice: an index outside
    /// it would be a construction-time invariant violation.
    pub fn process_events(&mut self, entities: &mut Vec<Entity>, event_queue: &mut EventQueue)
        requires
            forall|i: int|
                0 <= i < old(event_queue)@.len() ==> (#[trigger] old(event_queue)@[i] matches Event::ToggleCell { x, y }
                    ==> x + y * old(self).width < old(entities)@.len()),
        ensures
            *final(self) == *old(self),
            final(event_queue)@.len() == 0,
            final(entities)@.len() == old(entities)@.len(),
            final(entities)@ == spec_apply_cell_events(
                old(entities)@,
                old(event_queue)@,
                old(self).width as int,
            ),
    {
        let width = self.width;
        let ghost wi = width as int;
        let ghost target = spec_apply_cell_events(entities@, event_queue@, wi);
        let ghost orig_len = entities@.len();
        loop
            invariant
                width == self.width,
                wi == width as int,
                entities@.len() == orig_len,
                forall|i: int|
                    0 <= i < event_queue@.len() ==> (#[trigger] event_queue@[i] matches Event::ToggleCell { x, y }
                        ==> x + y * wi < orig_len),
                spec_apply_cell_events(entities@, event_queue@, wi) == target,
            ensures
                event_queue@.len() == 0,
                entities@.len() == orig_len,
                spec_apply_cell_events(entities@, event_queue@, wi) == target,
            decreases event_queue@.len(),
        {
            let ghost prev_cells = entities@;
            let ghost prev_events = event_queue@;
            let popped = event_queue.pop();
            match popped {
                None => {
                    break ;
                }
                Some(event) => {
                    match event {
                        Event::ToggleCell { x, y } => {
                            proof {
                                assert(prev_events[prev_events.len() - 1] matches Event::ToggleCell {
                                    x: ex,
                                    y: ey,
                                } ==> ex + ey * wi < orig_len);
                                assert(x + y * wi < orig_len);
                            }
                            let n = entities.len();
                            let index = (x as usize) + (y as usize) * (width as usize);
                            proof {
                                assert(index < n);
                            }
                            let entity = &mut entities[index];
                            match entity.get_component_mut(ComponentKind::Cell) {
                                Some(c) => {
                                    match c {
                                        Component::Cell(cell) => {
                                            cell.state = cell.state.flipped();
                                        }
                                        Component::Grid(_) => {
                                            proof {
                                                assert(false);
                                            }
                                        }
                                    }
                                }
                                None => {}
                            }
                            proof {
                                assert(entities@ =~= spec_toggle_cell(prev_cells, index as int));
                            }
                        }
                        Event::ToggleGrid => {}
                    }
                }
            }
        }
        proof {
            assert(spec_apply_cell_events(entities@, event_queue@, wi) == entities@);
        }
    }
}

/// Drains the grid-toggle queue every tick and flips the grid entity's
/// visibility flag. Events of any other kind are dropped.
pub struct GridToggleSystem;

impl GridToggleSystem {
    /// Drains the queue and flips the grid's `show` flag once per
    /// grid-toggle event, ignoring the empty payload.
    pub fn process_events(&mut self, entity: &mut Entity, event_queue: &mut EventQueue)
        ensures
            *final(self) == *old(self),
            final(event_queue)@.len() == 0,
            *final(entity) == spec_apply_grid_events(*old(entity), old(event_queue)@),
    {
        let ghost target = spec_apply_grid_events(*entity, event_queue@);
        loop
            invariant
                spec_apply_grid_events(*entity, event_queue@) == target,
            ensures
                event_queue@.len() == 0,
                spec_apply_grid_events(*entity, event_queue@) == target,
            decreases event_queue@.len(),
        {
            let ghost prev_entity = *entity;
            let popped = event_queue.pop();
            match popped {
                None => {
                    break ;
                }
                Some(event) => {
                    match event {
                        Event::ToggleGrid => {
                            match entity.get_component_mut(ComponentKind::Grid) {
                                Some(c) => {
                                    match c {
                                        Component::Grid(grid) => {
                                            grid.show = !grid.show;
                                        }
                                        Component::Cell(_) => {
                                            proof {
                                                assert(false);
                                            }
                                        }
                                    }
                                }
                                None => {}
                            }
                            proof {
                                assert(*entity == spec_toggle_grid(prev_entity));
                            }
                        }
                        Event::ToggleCell { .. } => {}
                    }
                }
            }
        }
    }
}

/// Relies on rand::random::<bool>: a fresh draw from the thread-local
/// generator, false or true each with probability one half. Nothing is
/// promised of any one draw.
#[verifier::external_body]
fn random_bool() -> bool {
    rand::random::<bool>()
}

/// Builds the cell entities of a width-by-height grid in row-major order
/// (index = x + y * width), each carrying a cell component randomized
/// Alive or Dead with probability one half.
pub fn create_grid(width: u32, height: u32) -> (r: Vec<Entity>)
    requires
        (width as int) * (height as int) <= u32::MAX as int,
    ensures
        r@.len() == (width as int) * (height as int),
        forall|i: int|
            0 <= i < r@.len() ==> spec_cell_state(#[trigger] r@[i]) is Some && r@[i].id == i
                && spec_grid_of(r@[i]) is None,
{
    let count = (width as usize) * (height as usize);
    let mut entities: Vec<Entity> = Vec::new();
    let mut i: usize = 0;
    while i < count
        invariant
            count == (width as int) * (height as int),
            count <= u32::MAX,
            i <= count,
            entities@.len() == i,
            forall|j: int|
                0 <= j < i ==> spec_cell_state(#[trigger] entities@[j]) is Some
                    && entities@[j].id == j && spec_grid_of(entities@[j]) is None,
        decreases count - i,
    {
        let state = if random_bool() {
            CellState::Alive
        } else {
            CellState::Dead
        };
        let entity = EntityBuilder::new(i as u32).with_component(
            Component::Cell(Cell { state }),
        ).build();
        entities.push(entity);
        i = i + 1;
    }
    entities
}

/// The composition root: owns the cell entities, the singleton grid
/// entity, both event queues, and the play/pause state, and wires the
/// frame sequence of input translation, deferred mutation, and the
/// transition pipeline.
pub struct GameOfLife {
    pub cell_entities: Vec<Entity>,
    pub grid_entity: Entity,
    pub input_system: InputSystem,
    pub cell_toggle_system: CellToggleSystem,
    pub grid_toggle_system: GridToggleSystem,
    pub system_manager: SystemManager<LifeSystem>,
    pub width: u32,
    pub height: u32,
    pub game_state: GameState,
    pub toggle_cells_event_queue: EventQueue,
    pub toggle_grid_event_queue: EventQueue,
}

impl GameOfLife {
    /// The construction-time invariants: the cell-entity count equals
    /// width times height in row-major layout, every cell entity carries a
    /// cell component, the grid entity carries a grid component, the
    /// pipeline holds exactly the transition system, and every queued
    /// cell-toggle event addresses a cell inside the grid.
    pub open spec fn wf(self) -> bool {
        &&& self.cell_entities@.len() == (self.width as int) * (self.height as int)
        &&& (self.width as int) * (self.height as int) <= u32::MAX as int
        &&& self.cell_toggle_system.width == self.width
        &&& self.input_system.cell_size >= 1
        &&& self.system_manager.spec_systems() == seq![LifeSystem]
        &&& forall|i: int|
            0 <= i < self.cell_entities@.len() ==> spec_cell_state(
                #[trigger] self.cell_entities@[i],
            ) is Some
        &&& spec_grid_of(self.grid_entity) is Some
        &&& forall|i: int|
            0 <= i < self.toggle_cells_event_queue@.len() ==> (
            #[trigger] self.toggle_cells_event_queue@[i] matches Event::ToggleCell { x, y }
                ==> x < self.width && y < self.height)
    }

    /// Builds a paused game over a width-by-height grid of randomized
    /// cells, an invisible grid overlay with cell size 10, empty event
    /// queues, and a pipeline holding exactly the transition system.
    pub fn new(width: u32, height: u32) -> (r: GameOfLife)
        requires
            (width as int) * (height as int) <= u32::MAX as int,
        ensures
            r.wf(),
            r.width == width,
            r.height == height,
            r.game_state == GameState::Paused,
            r.toggle_cells_event_queue@ =~= Seq::<Event>::empty(),
            r.toggle_grid_event_queue@ =~= Seq::<Event>::empty(),
            r.cell_entities@.len() == (width as int) * (height as int),
            spec_grid_of(r.grid_entity) == Some(
                Grid { width, height, cell_size: 10, show: false },
            ),
    {
        let cell_entities = create_grid(width, height);
        let grid_entity = EntityBuilder::new(0).with_component(
            Component::Grid(Grid { width, height, cell_size: 10, show: false }),
        ).build();

        let game_state = GameState::Paused;
        let mut system_manager: SystemManager<LifeSystem> = SystemManager::new();
        let toggle_cells_event_queue = EventQueue::new();
        let toggle_grid_event_queue = EventQueue::new();

        let life_system = LifeSystem;
        let input_system = InputSystem::new(10);
        let cell_toggle_system = CellToggleSystem { width };
        let grid_toggle_system = GridToggleSystem;

        system_manager.add_system(life_system);
        proof {
            assert(system_manager.spec_systems() =~= seq![LifeSystem]);
        }

        GameOfLife {
            cell_entities,
            grid_entity,
            input_system,
            cell_toggle_system,
            grid_toggle_system,
            system_manager,
            width,
            height,
            game_state,
            toggle_cells_event_queue,
            toggle_grid_event_queue,
        }
    }

    /// Replaces the play/pause state; the single state transition.
    pub fn change_state(&mut self, new_state: GameState)
        ensures
            *final(self) == (GameOfLife { game_state: new_state, ..*old(self) }),
    {
        self.game_state = new_state;
    }

    /// Feeds one frame's input-poll results into the engine: the dedicated
    /// pause key flips the play/pause state, and the input system
    /// translates the rest into queued events. Nothing else changes.
    pub fn handle_input(
        &mut self,
        space_pressed: bool,
        mouse_pressed: bool,
        mouse_x: u32,
        mouse_y: u32,
        grid_key_pressed: bool,
    )
        requires
            old(self).wf(),
        ensures
            final(self).wf(),
            final(self).game_state == (if space_pressed {
                old(self).game_state.spec_toggled()
            } else {
                old(self).game_state
            }),
            final(self).cell_entities@ == old(self).cell_entities@,
            final(self).grid_entity == old(self).grid_entity,
            final(self).width == old(self).width,
            final(self).height == old(self).height,
            final(self).input_system == old(self).input_system,
            final(self).cell_toggle_system == old(self).cell_toggle_system,
            final(self).system_manager.spec_systems() == old(self).system_manager.spec_systems(),
            final(self).toggle_cells_event_queue@ == ({
                let cx = (mouse_x as int) / (old(self).input_system.cell_size as int);
                let cy = (mouse_y as int) / (old(self).input_system.cell_size as int);
                if mouse_pressed && cx < old(self).width && cy < old(self).height {
                    old(self).toggle_cells_event_queue@.push(
                        Event::ToggleCell { x: cx as u32, y: cy as u32 },
                    )
                } else {
                    old(self).toggle_cells_event_queue@
                }
            }),
            final(self).toggle_grid_event_queue@ == (if grid_key_pressed {
                old(self).toggle_grid_event_queue@.push(Event::ToggleGrid)
            } else {
                old(self).toggle_grid_event_queue@
            }),
    {
        if space_pressed {
            match self.game_state {
                GameState::Playing => self.change_state(GameState::Paused),
                GameState::Paused => self.change_state(GameState::Playing),
            }
        }

        let width = self.width;
        let height = self.height;
        self.input_system.handle_input(
            mouse_pressed,
            mouse_x,
            mouse_y,
            grid_key_pressed,
            width,
            height,
            &mut self.toggle_cells_event_queue,
            &mut self.toggle_grid_event_queue,
        );
    }

    /// One tick: both toggle systems drain their queues and apply the
    /// requested mutations whatever the game state; then, only while
    /// Playing, the pipeline advances the automaton by one step.
    pub fn update(&mut self)
        requires
            old(self).wf(),
        ensures
            final(self).wf(),
            final(self).game_state == old(self).game_state,
            final(self).width == old(self).width,
            final(self).height == old(self).height,
            final(self).toggle_cells_event_queue@.len() == 0,
            final(self).toggle_grid_event_queue@.len() == 0,
            final(self).grid_entity == spec_apply_grid_events(
                old(self).grid_entity,
                old(self).toggle_grid_event_queue@,
            ),
            final(self).cell_entities@ == ({
                let toggled = spec_apply_cell_events(
                    old(self).cell_entities@,
                    old(self).toggle_cells_event_queue@,
                    old(self).width as int,
                );
                if old(self).game_state is Playing {
                    spec_life_step(toggled)
                } else {
                    toggled
                }
            }),
    {
        proof {
            let q = self.toggle_cells_event_queue@;
            let w = self.width as int;
            let h = self.height as int;
            let len = self.cell_entities@.len() as int;
            assert forall|i: int|
                0 <= i < q.len() implies (#[trigger] q[i] matches Event::ToggleCell { x, y }
                ==> x + y * (self.cell_toggle_system.width as int) < len) by {
                match q[i] {
                    Event::ToggleCell { x, y } => {
                        assert(x + y * w < w * h) by (nonlinear_arith)
                            requires
                                0 <= x < w,
                                0 <= y < h,
                        ;
                    }
                    Event::ToggleGrid => {}
                }
            }
        }
        let ghost toggled = spec_apply_cell_events(
            self.cell_entities@,
            self.toggle_cells_event_queue@,
            self.width as int,
        );
        self.cell_toggle_system.process_events(
            &mut self.cell_entities,
            &mut self.toggle_cells_event_queue,
        );
        proof {
            lemma_apply_cell_events_preserves(
                old(self).cell_entities@,
                old(self).toggle_cells_event_queue@,
                old(self).width as int,
            );
        }

        self.grid_toggle_system.process_events(
            &mut self.grid_entity,
            &mut self.toggle_grid_event_queue,
        );
        proof {
            lemma_apply_grid_events_preserves(
                old(self).grid_entity,
                old(self).toggle_grid_event_queue@,
            );
        }

        match self.game_state {
            GameState::Playing => {
                proof {
                    let systems = seq![LifeSystem];
                    assert(systems.len() == 1);
                    assert(systems[0] == LifeSystem);
                    assert(systems.drop_first() =~= Seq::<LifeSystem>::empty());
                    assert(toggled.len() <= u32::MAX);
                    assert(systems[0].update_enabled(toggled));
                    assert(pipeline_enabled(Seq::<LifeSystem>::empty(), systems[0].spec_update(toggled)));
                    assert(pipeline_enabled(systems, toggled));
                }
                self.system_manager.update(&mut self.cell_entities);
                proof {
                    let systems = seq![LifeSystem];
                    assert(systems.drop_first() =~= Seq::<LifeSystem>::empty());
                    assert(pipeline_run(Seq::<LifeSystem>::empty(), systems[0].spec_update(toggled))
                        == systems[0].spec_update(toggled));
                    assert(pipeline_run(systems, toggled) == spec_life_step(toggled));
                    lemma_life_step_preserves(toggled);
                }
            }
            _ => {}
        }
    }
}

/// Draining the cell-toggle queue never changes the slice's length, and
/// every entity that carried a cell component still carries one.
pub proof fn lemma_apply_cell_events_preserves(cells: Seq<Entity>, events: Seq<Event>, width: int)
    ensures
        spec_apply_cell_events(cells, events, width).len() == cells.len(),
        forall|i: int|
            0 <= i < cells.len() && spec_cell_state(cells[i]) is Some ==> spec_cell_state(
                #[trigger] spec_apply_cell_events(cells, events, width)[i],
            ) is Some,
    decreases events.len(),
{
    if events.len() > 0 {
        let next = match events.last() {
            Event::ToggleCell { x, y } => spec_toggle_cell(cells, x + y * width),
            Event::ToggleGrid => cells,
        };
        lemma_apply_cell_events_preserves(next, events.drop_last(), width);
    }
}

/// Draining the grid-toggle queue never removes the grid component.
pub proof fn lemma_apply_grid_events_preserves(e: Entity, events: Seq<Event>)
    ensures
        spec_grid_of(e) is Some ==> spec_grid_of(spec_apply_grid_events(e, events)) is Some,
    decreases events.len(),
{
    if events.len() > 0 {
        let next = match events.last() {
            Event::ToggleGrid => spec_toggle_grid(e),
            Event::ToggleCell { .. } => e,
        };
        lemma_apply_grid_events_preserves(next, events.drop_last());
    }
}

/// One automaton step never changes the slice's length, and every entity
/// that carried a cell component still carries one.
pub proof fn lemma_life_step_preserves(cells: Seq<Entity>)
    ensures
        spec_life_step(cells).len() == cells.len(),
        forall|i: int|
            0 <= i < cells.len() && spec_cell_state(cells[i]) is Some ==> spec_cell_state(
                #[trigger] spec_life_step(cells)[i],
            ) is Some,
{
}

/// Toggling cell (x, y) once via a cell-toggle event flips only that
/// cell's state and leaves every other cell unchanged. The toggle systems
/// drain their queues in every game state: see `GameOfLife::update`, whose
/// contract applies the queued toggles whether Playing or Paused.
pub proof fn lemma_toggle_cell_once(cells: Seq<Entity>, width: u32, x: u32, y: u32)
    requires
        x + y * width < cells.len(),
    ensures
        ({
            let after = spec_apply_cell_events(
                cells,
                seq![Event::ToggleCell { x, y }],
                width as int,
            );
            let idx = x + y * (width as int);
            &&& after.len() == cells.len()
            &&& forall|j: int| 0 <= j < cells.len() && j != idx ==> after[j] == cells[j]
            &&& (spec_cell_state(cells[idx]) matches Some(s) ==> spec_cell_state(after[idx])
                == Some(s.spec_flipped()))
            &&& (spec_cell_state(cells[idx]) is None ==> after[idx] == cells[idx])
        }),
{
    let events = seq![Event::ToggleCell { x, y }];
    let idx = x + y * (width as int);
    assert(events.len() == 1);
    assert(events.last() == (Event::ToggleCell { x, y }));
    assert(events.drop_last() =~= Seq::<Event>::empty());
    let next = spec_toggle_cell(cells, idx);
    assert(spec_apply_cell_events(next, events.drop_last(), width as int) == next);
    assert(spec_apply_cell_events(cells, events, width as int) == spec_toggle_cell(cells, idx));
}

/// Toggling the grid's visibility twice restores the grid entity exactly,
/// whether phrased over single toggles or over two drained one-event
/// queues.
pub proof fn lemma_grid_toggle_twice(e: Entity)
    ensures
        spec_toggle_grid(spec_toggle_grid(e)) == e,
        spec_apply_grid_events(spec_apply_grid_events(e, seq![Event::ToggleGrid]), seq![Event::ToggleGrid])
            == e,
{
    let events = seq![Event::ToggleGrid];
    assert(events.len() == 1);
    assert(events.last() == Event::ToggleGrid);
    assert(events.drop_last() =~= Seq::<Event>::empty());
    let e1 = spec_toggle_grid(e);
    assert(spec_apply_grid_events(e1, events.drop_last()) == e1);
    assert(spec_apply_grid_events(e, events) == e1);
    assert(spec_apply_grid_events(spec_toggle_grid(e1), events.drop_last()) == spec_toggle_grid(e1));
    assert(spec_apply_grid_events(e1, events) == spec_toggle_grid(e1));
    match spec_grid_of(e) {
        Some(g) => {
            assert(spec_grid_of(e1) == Some(Grid { show: !g.show, ..g }));
        }
        None => {}
    }
}

} // verus!
