use life_ecs::component::{Cell, CellState, Component, ComponentKind, Grid};
use life_ecs::engine::{Entity, EntityBuilder, Event, EventQueue};

#[test]
fn component_roundtrip_add_then_get() {
    let mut entity = EntityBuilder::new(1).build();
    let cell = Component::Cell(Cell { state: CellState::Alive });
    entity.add_component(cell);
    assert_eq!(entity.get_component(ComponentKind::Cell), Some(&cell));
}

#[test]
fn component_absent_after_remove() {
    let mut entity = EntityBuilder::new(1)
        .with_component(Component::Cell(Cell { state: CellState::Dead }))
        .build();
    let removed = entity.remove_component(ComponentKind::Cell);
    assert_eq!(removed, Some(Component::Cell(Cell { state: CellState::Dead })));
    assert_eq!(entity.get_component(ComponentKind::Cell), None);
    assert_eq!(entity.remove_component(ComponentKind::Cell), None);
}

#[test]
fn component_absent_when_never_held() {
    let entity = EntityBuilder::new(3).build();
    assert_eq!(entity.get_component(ComponentKind::Cell), None);
    assert_eq!(entity.get_component(ComponentKind::Grid), None);
}

#[test]
fn component_add_overwrites_same_kind() {
    let mut entity = EntityBuilder::new(4)
        .with_component(Component::Cell(Cell { state: CellState::Dead }))
        .build();
    entity.add_component(Component::Cell(Cell { state: CellState::Alive }));
    assert_eq!(
        entity.get_component(ComponentKind::Cell),
        Some(&Component::Cell(Cell { state: CellState::Alive }))
    );
}

#[test]
fn component_kinds_do_not_collide() {
    let grid = Component::Grid(Grid { width: 2, height: 2, cell_size: 10, show: true });
    let cell = Component::Cell(Cell { state: CellState::Alive });
    let mut entity = EntityBuilder::new(5).with_component(grid).build();
    entity.add_component(cell);
    assert_eq!(entity.get_component(ComponentKind::Grid), Some(&grid));
    assert_eq!(entity.get_component(ComponentKind::Cell), Some(&cell));
    entity.remove_component(ComponentKind::Cell);
    assert_eq!(entity.get_component(ComponentKind::Grid), Some(&grid));
}

#[test]
fn component_read_with_disagreeing_shape_is_absent() {
    // A slot holding a value whose shape disagrees with the kind must read
    // as absent, never corrupt or panic.
    let entity = Entity {
        id: 9,
        cell_slot: Some(Component::Grid(Grid { width: 1, height: 1, cell_size: 10, show: false })),
        grid_slot: None,
    };
    assert_eq!(entity.get_component(ComponentKind::Cell), None);
}

#[test]
fn component_mutation_through_borrow() {
    let mut entity = EntityBuilder::new(6)
        .with_component(Component::Cell(Cell { state: CellState::Dead }))
        .build();
    match entity.get_component_mut(ComponentKind::Cell) {
        Some(c) => *c = Component::Cell(Cell { state: CellState::Alive }),
        None => panic!("cell component expected"),
    }
    assert_eq!(
        entity.get_component(ComponentKind::Cell),
        Some(&Component::Cell(Cell { state: CellState::Alive }))
    );
    let mut empty = EntityBuilder::new(7).build();
    assert!(empty.get_component_mut(ComponentKind::Cell).is_none());
}

#[test]
fn queue_pops_most_recently_pushed_first() {
    let mut queue = EventQueue::new();
    queue.push(Event::ToggleCell { x: 1, y: 1 });
    queue.push(Event::ToggleGrid);
    queue.push(Event::ToggleCell { x: 2, y: 0 });
    assert_eq!(queue.pop(), Some(Event::ToggleCell { x: 2, y: 0 }));
    assert_eq!(queue.pop(), Some(Event::ToggleGrid));
    assert_eq!(queue.pop(), Some(Event::ToggleCell { x: 1, y: 1 }));
    assert_eq!(queue.len(), 0);
    assert_eq!(queue.pop(), None);
}

#[test]
fn queue_empty_after_draining_all_pushed() {
    let mut queue = EventQueue::new();
    for i in 0..10 {
        queue.push(Event::ToggleCell { x: i, y: i });
    }
    let mut drained = 0;
    while queue.pop().is_some() {
        drained += 1;
    }
    assert_eq!(drained, 10);
    assert_eq!(queue.len(), 0);
}

#[test]
fn queue_pop_on_empty_has_no_side_effect() {
    let mut queue = EventQueue::new();
    assert_eq!(queue.pop(), None);
    queue.push(Event::ToggleGrid);
    assert_eq!(queue.pop(), Some(Event::ToggleGrid));
    assert_eq!(queue.pop(), None);
    assert_eq!(queue.pop(), None);
    assert_eq!(queue.len(), 0);
}

#[test]
fn builder_sets_identity_and_components() {
    let entity = EntityBuilder::new(42)
        .with_component(Component::Cell(Cell { state: CellState::Alive }))
        .build();
    assert_eq!(entity.id, 42);
    assert_eq!(
        entity.get_component(ComponentKind::Cell),
        Some(&Component::Cell(Cell { state: CellState::Alive }))
    );
}
