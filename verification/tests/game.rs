use life_ecs::component::{CellState, Component, ComponentKind, Grid};
use life_ecs::engine::{Event, EventQueue, GameState};
use life_ecs::game_of_life::{create_grid, GameOfLife, InputSystem};

fn cell_state(game: &GameOfLife, x: u32, y: u32) -> CellState {
    let index = (x + y * game.width) as usize;
    match game.cell_entities[index].get_component(ComponentKind::Cell) {
        Some(Component::Cell(cell)) => cell.state,
        _ => panic!("cell component expected"),
    }
}

fn grid_of(game: &GameOfLife) -> Grid {
    match game.grid_entity.get_component(ComponentKind::Grid) {
        Some(Component::Grid(grid)) => *grid,
        _ => panic!("grid component expected"),
    }
}

fn all_states(game: &GameOfLife) -> Vec<CellState> {
    (0..game.cell_entities.len())
        .map(|i| match game.cell_entities[i].get_component(ComponentKind::Cell) {
            Some(Component::Cell(cell)) => cell.state,
            _ => panic!("cell component expected"),
        })
        .collect()
}

#[test]
fn new_game_is_paused_with_full_grid() {
    let game = GameOfLife::new(8, 8);
    assert_eq!(game.game_state, GameState::Paused);
    assert_eq!(game.width, 8);
    assert_eq!(game.height, 8);
    assert_eq!(game.cell_entities.len(), 64);
    let grid = grid_of(&game);
    assert_eq!(grid.width, 8);
    assert_eq!(grid.height, 8);
    assert_eq!(grid.cell_size, 10);
    assert!(!grid.show);
}

#[test]
fn created_grid_cells_all_carry_cell_components() {
    let cells = create_grid(3, 5);
    assert_eq!(cells.len(), 15);
    for (i, entity) in cells.iter().enumerate() {
        assert_eq!(entity.id, i as u32);
        assert!(matches!(
            entity.get_component(ComponentKind::Cell),
            Some(Component::Cell(_))
        ));
        assert_eq!(entity.get_component(ComponentKind::Grid), None);
    }
}

#[test]
fn space_toggles_play_pause() {
    let mut game = GameOfLife::new(4, 4);
    assert_eq!(game.game_state, GameState::Paused);
    game.handle_input(true, false, 0, 0, false);
    assert_eq!(game.game_state, GameState::Playing);
    game.handle_input(true, false, 0, 0, false);
    assert_eq!(game.game_state, GameState::Paused);
    game.handle_input(false, false, 0, 0, false);
    assert_eq!(game.game_state, GameState::Paused);
}

#[test]
fn change_state_sets_exactly_the_given_state() {
    let mut game = GameOfLife::new(4, 4);
    game.change_state(GameState::Playing);
    assert_eq!(game.game_state, GameState::Playing);
    game.change_state(GameState::Paused);
    assert_eq!(game.game_state, GameState::Paused);
}

#[test]
fn toggle_flips_only_the_addressed_cell_while_paused() {
    let mut game = GameOfLife::new(6, 6);
    let before = all_states(&game);
    // The pointer at pixel (25, 14) with cell size 10 addresses cell (2, 1).
    game.handle_input(false, true, 25, 14, false);
    game.update();
    let after = all_states(&game);
    let target = (2 + 1 * 6) as usize;
    for i in 0..before.len() {
        if i == target {
            assert_ne!(after[i], before[i]);
        } else {
            assert_eq!(after[i], before[i]);
        }
    }
}

#[test]
fn toggle_flips_the_cell_in_playing_state_too() {
    // Toggling works while Playing as well: the toggle lands before the
    // tick, so the toggled cell enters the transition.
    let mut game = GameOfLife::new(4, 4);
    kill_all(&mut game);
    game.change_state(GameState::Playing);
    game.handle_input(false, true, 5, 5, false);
    game.update();
    // A lone Alive cell was created at (0, 0) and the tick then kills it:
    // the toggle happened despite Playing, and no neighbors were born.
    for i in 0..16 {
        assert_eq!(all_states(&game)[i], CellState::Dead);
    }
}

fn kill_all(game: &mut GameOfLife) {
    for y in 0..game.height {
        for x in 0..game.width {
            if cell_state(game, x, y) == CellState::Alive {
                game.toggle_cells_event_queue.push(Event::ToggleCell { x, y });
            }
        }
    }
    game.update();
}

#[test]
fn kill_all_then_tick_stays_dead() {
    let mut game = GameOfLife::new(5, 5);
    kill_all(&mut game);
    for i in 0..25 {
        assert_eq!(all_states(&game)[i], CellState::Dead);
    }
    game.change_state(GameState::Playing);
    game.update();
    for i in 0..25 {
        assert_eq!(all_states(&game)[i], CellState::Dead);
    }
}

#[test]
fn blinker_oscillates_through_the_full_engine() {
    let mut game = GameOfLife::new(5, 5);
    kill_all(&mut game);
    for x in 1..4 {
        game.toggle_cells_event_queue.push(Event::ToggleCell { x, y: 2 });
    }
    game.update();
    let start = all_states(&game);
    game.change_state(GameState::Playing);
    game.update();
    assert_ne!(all_states(&game), start);
    game.update();
    assert_eq!(all_states(&game), start);
}

#[test]
fn paused_game_does_not_advance() {
    let mut game = GameOfLife::new(5, 5);
    kill_all(&mut game);
    game.toggle_cells_event_queue.push(Event::ToggleCell { x: 2, y: 2 });
    game.update();
    let lone = all_states(&game);
    game.update();
    // Paused: the lone cell survives, no transition ran.
    assert_eq!(all_states(&game), lone);
}

#[test]
fn grid_visibility_toggles_and_restores() {
    let mut game = GameOfLife::new(4, 4);
    assert!(!grid_of(&game).show);
    game.handle_input(false, false, 0, 0, true);
    game.update();
    assert!(grid_of(&game).show);
    game.handle_input(false, false, 0, 0, true);
    game.update();
    assert!(!grid_of(&game).show);
}

#[test]
fn grid_toggle_works_in_both_states() {
    let mut game = GameOfLife::new(4, 4);
    game.change_state(GameState::Playing);
    game.handle_input(false, false, 0, 0, true);
    game.update();
    assert!(grid_of(&game).show);
}

#[test]
fn input_system_maps_pointer_to_cell_by_integer_division() {
    let input = InputSystem::new(10);
    let mut cells_queue = EventQueue::new();
    let mut grid_queue = EventQueue::new();
    input.handle_input(true, 25, 14, false, 8, 8, &mut cells_queue, &mut grid_queue);
    assert_eq!(cells_queue.pop(), Some(Event::ToggleCell { x: 2, y: 1 }));
    assert_eq!(grid_queue.pop(), None);
}

#[test]
fn input_system_drops_out_of_bounds_pointer() {
    let input = InputSystem::new(10);
    let mut cells_queue = EventQueue::new();
    let mut grid_queue = EventQueue::new();
    // Cell (8, 0) lies outside an 8x8 grid: no event.
    input.handle_input(true, 80, 0, false, 8, 8, &mut cells_queue, &mut grid_queue);
    assert_eq!(cells_queue.pop(), None);
    // An unpressed pointer emits nothing either.
    input.handle_input(false, 5, 5, false, 8, 8, &mut cells_queue, &mut grid_queue);
    assert_eq!(cells_queue.pop(), None);
}

#[test]
fn input_system_grid_key_is_independent() {
    let input = InputSystem::new(10);
    let mut cells_queue = EventQueue::new();
    let mut grid_queue = EventQueue::new();
    input.handle_input(false, 0, 0, true, 8, 8, &mut cells_queue, &mut grid_queue);
    assert_eq!(grid_queue.pop(), Some(Event::ToggleGrid));
    assert_eq!(cells_queue.pop(), None);
}

#[test]
fn mismatched_events_are_dropped_silently() {
    let mut game = GameOfLife::new(4, 4);
    let before_grid = grid_of(&game);
    let before_cells = all_states(&game);
    // A grid toggle in the cell queue and a cell toggle in the grid queue
    // are kind mismatches: both drain without effect.
    game.toggle_cells_event_queue.push(Event::ToggleGrid);
    game.toggle_grid_event_queue.push(Event::ToggleCell { x: 0, y: 0 });
    game.update();
    assert_eq!(grid_of(&game), before_grid);
    assert_eq!(all_states(&game), before_cells);
    assert_eq!(game.toggle_cells_event_queue.len(), 0);
    assert_eq!(game.toggle_grid_event_queue.len(), 0);
}

#[test]
fn queues_drain_fully_each_tick() {
    let mut game = GameOfLife::new(4, 4);
    let before = all_states(&game);
    // Toggling the same cell twice in one tick restores it.
    game.toggle_cells_event_queue.push(Event::ToggleCell { x: 1, y: 1 });
    game.toggle_cells_event_queue.push(Event::ToggleCell { x: 1, y: 1 });
    game.update();
    assert_eq!(all_states(&game), before);
    assert_eq!(game.toggle_cells_event_queue.len(), 0);
}
