//! The automaton transition: the life rule, bounded neighbor counting, and
//! the transition system that advances every cell by one tick.
//!
//! The grid is bounded (never toroidal): positions outside
//! `[0, width) x [0, height)` are excluded from neighbor counts. The
//! transition derives the grid width as the integer square root of the
//! entity count, which is only valid when the grid is square
//! (width == height); the composition root always builds square grids.

use vstd::prelude::*;
use vstd::arithmetic::div_mod::lemma_fundamental_div_mod;
use crate::component::{Cell, CellState, Component, ComponentKind, Grid};
use crate::engine::{Entity, System};

verus! {

/// The automaton state carried by an entity's cell component, if any.
pub open spec fn spec_cell_state(e: Entity) -> Option<CellState> {
    match e.spec_get(ComponentKind::Cell) {
        Some(c) => match c {
            Component::Cell(cell) => Some(cell.state),
            Component::Grid(_) => None,
        },
        None => None,
    }
}

/// The grid configuration carried by an entity's grid component, if any.
pub open spec fn spec_grid_of(e: Entity) -> Option<Grid> {
    match e.spec_get(ComponentKind::Grid) {
        Some(c) => match c {
            Component::Grid(grid) => Some(grid),
            Component::Cell(_) => None,
        },
        None => None,
    }
}

/// The life rule. Alive with 2 or 3 alive neighbors stays Alive; Dead with
/// exactly 3 alive neighbors becomes Alive; every other combination is Dead.
pub open spec fn spec_next_state(state: CellState, alive_neighbors: int) -> CellState {
    if (state is Alive && (alive_neighbors == 2 || alive_neighbors == 3)) || (state is Dead
        && alive_neighbors == 3) {
        CellState::Alive
    } else {
        CellState::Dead
    }
}

/// One cell's next state from its current state and its alive-neighbor
/// count. The result is Alive exactly when an Alive cell has 2 or 3 alive
/// neighbors or a Dead cell has exactly 3.
pub fn next_cell_state(state: CellState, alive_neighbors: usize) -> (r: CellState)
    ensures
        r == spec_next_state(state, alive_neighbors as int),
        r is Alive <==> ((state is Alive && (alive_neighbors == 2 || alive_neighbors == 3)) || (
        state is Dead && alive_neighbors == 3)),
{
    if alive_neighbors == 3 {
        CellState::Alive
    } else if alive_neighbors == 2 && state == CellState::Alive {
        CellState::Alive
    } else {
        CellState::Dead
    }
}

/// Whether the position `(x, y)` lies inside the square grid of the given
/// width and holds an Alive cell. Positions outside the grid never count.
pub open spec fn spec_alive_at(cells: Seq<Entity>, width: int, x: int, y: int) -> bool {
    &&& 0 <= x < width
    &&& 0 <= y < width
    &&& x + y * width < cells.len()
    &&& spec_cell_state(cells[x + y * width]) == Some(CellState::Alive)
}

/// 1 when the flag holds, 0 otherwise; used to sum neighbor indicators.
pub open spec fn one_if(alive: bool) -> int {
    if alive {
        1
    } else {
        0
    }
}

/// How many of the 8 grid-adjacent positions of `(x, y)` hold an Alive
/// cell, clipped at the grid boundary.
pub open spec fn spec_neighbor_count(cells: Seq<Entity>, width: int, x: int, y: int) -> int {
    one_if(spec_alive_at(cells, width, x - 1, y - 1)) + one_if(
        spec_alive_at(cells, width, x, y - 1),
    ) + one_if(spec_alive_at(cells, width, x + 1, y - 1)) + one_if(
        spec_alive_at(cells, width, x - 1, y),
    ) + one_if(spec_alive_at(cells, width, x + 1, y)) + one_if(
        spec_alive_at(cells, width, x - 1, y + 1),
    ) + one_if(spec_alive_at(cells, width, x, y + 1)) + one_if(
        spec_alive_at(cells, width, x + 1, y + 1),
    )
}

/// Neighbor counting never reads outside the grid: every count is at most
/// 8, a corner cell counts at most 3 neighbors, and a non-corner edge cell
/// at most 5.
pub proof fn lemma_neighbor_count_bounds(cells: Seq<Entity>, width: int, x: int, y: int)
    requires
        0 <= x < width,
        0 <= y < width,
    ensures
        0 <= spec_neighbor_count(cells, width, x, y) <= 8,
        (x == 0 || x == width - 1) && (y == 0 || y == width - 1) ==> spec_neighbor_count(
            cells,
            width,
            x,
            y,
        ) <= 3,
        ((x == 0 || x == width - 1) <==> !(y == 0 || y == width - 1)) ==> spec_neighbor_count(
            cells,
            width,
            x,
            y,
        ) <= 5,
{
    assert(!spec_alive_at(cells, width, -1, y - 1));
    assert(!spec_alive_at(cells, width, width, y - 1));
}

/// Whether the grid position holds an Alive cell, read defensively.
fn neighbor_alive(entities: &Vec<Entity>, width: usize, nx: usize, ny: usize) -> (r: bool)
    requires
        1 <= width,
        (width as int) * (width as int) <= entities@.len(),
    ensures
        r == spec_alive_at(entities@, width as int, nx as int, ny as int),
{
    if nx < width && ny < width {
        let n = entities.len();
        proof {
            assert(nx + ny * width < width * width) by (nonlinear_arith)
                requires
                    nx < width,
                    ny < width,
            ;
            assert(nx + ny * width < n);
        }
        let idx = nx + ny * width;
        match entities[idx].get_component(ComponentKind::Cell) {
            Some(c) => match c {
                Component::Cell(cell) => cell.state == CellState::Alive,
                Component::Grid(_) => false,
            },
            None => false,
        }
    } else {
        false
    }
}

/// Counts the Alive cells among the up-to-8 grid-adjacent positions of the
/// cell at `index`, in a square grid of the given width. Positions outside
/// the grid are excluded from the count, never wrapped.
pub fn count_alive_neighbors(index: usize, entities: &Vec<Entity>, width: u32) -> (count: usize)
    requires
        1 <= width,
        (width as int) * (width as int) <= entities@.len(),
        index < entities@.len(),
    ensures
        count == spec_neighbor_count(
            entities@,
            width as int,
            (index as int) % (width as int),
            (index as int) / (width as int),
        ),
        count <= 8,
{
    let w = width as usize;
    let n = entities.len();
    let x = index % w;
    let y = index / w;
    proof {
        assert(w <= w * w) by (nonlinear_arith)
            requires
                1 <= w,
        ;
        assert(x < w);
        assert(y <= index);
        assert(index < n);
    }
    let mut count: usize = 0;
    if x > 0 && y > 0 && neighbor_alive(entities, w, x - 1, y - 1) {
        count += 1;
    }
    if y > 0 && neighbor_alive(entities, w, x, y - 1) {
        count += 1;
    }
    if y > 0 && neighbor_alive(entities, w, x + 1, y - 1) {
        count += 1;
    }
    if x > 0 && neighbor_alive(entities, w, x - 1, y) {
        count += 1;
    }
    if neighbor_alive(entities, w, x + 1, y) {
        count += 1;
    }
    if x > 0 && neighbor_alive(entities, w, x - 1, y + 1) {
        count += 1;
    }
    if neighbor_alive(entities, w, x, y + 1) {
        count += 1;
    }
    if neighbor_alive(entities, w, x + 1, y + 1) {
        count += 1;
    }
    proof {
        let wi = width as int;
        let xi = (index as int) % wi;
        let yi = (index as int) / wi;
        assert(!spec_alive_at(entities@, wi, xi - 1, yi - 1) || x > 0);
        assert(!spec_alive_at(entities@, wi, xi - 1, yi) || x > 0);
        assert(!spec_alive_at(entities@, wi, xi - 1, yi + 1) || x > 0);
        assert(!spec_alive_at(entities@, wi, xi - 1, yi - 1) || y > 0);
        assert(!spec_alive_at(entities@, wi, xi, yi - 1) || y > 0);
        assert(!spec_alive_at(entities@, wi, xi + 1, yi - 1) || y > 0);
    }
    count
}

/// The integer square root: the largest `r` with `r * r <= n`.
pub open spec fn spec_grid_width(n: nat) -> nat
    decreases n,
{
    if n == 0 {
        0
    } else {
        let r = spec_grid_width((n - 1) as nat);
        if (r + 1) * (r + 1) <= n {
            r + 1
        } else {
            r
        }
    }
}

pub proof fn lemma_grid_width_bounds(n: nat)
    ensures
        spec_grid_width(n) * spec_grid_width(n) <= n,
        n < (spec_grid_width(n) + 1) * (spec_grid_width(n) + 1),
        spec_grid_width(n) <= n,
    decreases n,
{
    if n > 0 {
        lemma_grid_width_bounds((n - 1) as nat);
        let r = spec_grid_width((n - 1) as nat);
        if (r + 1) * (r + 1) <= n {
            assert(spec_grid_width(n) == r + 1);
            assert((r + 1 + 1) * (r + 1 + 1) > n) by (nonlinear_arith)
                requires
                    (n - 1) < (r + 1) * (r + 1),
                    (r + 1) * (r + 1) <= n,
                    r >= 0,
            ;
        } else {
            assert(spec_grid_width(n) == r);
            assert(r * r <= n - 1);
            assert(n < (r + 1) * (r + 1));
        }
    } else {
        assert(spec_grid_width(0) == 0);
        assert((spec_grid_width(n) + 1) * (spec_grid_width(n) + 1) == 1) by (nonlinear_arith)
            requires
                spec_grid_width(n) == 0,
        ;
    }
}

pub proof fn lemma_grid_width_unique(n: nat, r: nat)
    requires
        r * r <= n,
        n < (r + 1) * (r + 1),
    ensures
        r == spec_grid_width(n),
{
    lemma_grid_width_bounds(n);
    let s = spec_grid_width(n);
    if r < s {
        assert((r + 1) * (r + 1) <= s * s) by (nonlinear_arith)
            requires
                r + 1 <= s,
                r >= 0,
        ;
    }
    if s < r {
        assert((s + 1) * (s + 1) <= r * r) by (nonlinear_arith)
            requires
                s + 1 <= r,
                s >= 0,
        ;
    }
}

/// The width the transition derives from the entity count: the integer
/// square root, which equals the true width only for a square grid.
pub fn grid_width_of(n: usize) -> (r: usize)
    ensures
        r as nat == spec_grid_width(n as nat),
        (r as int) * (r as int) <= n as int,
        (n as int) < (r as int + 1) * (r as int + 1),
{
    let mut r: usize = 0;
    while r < n && (r + 1) <= n / (r + 1)
        invariant
            r <= n,
            (r as int) * (r as int) <= n as int,
        decreases n - r,
    {
        proof {
            let a = r as int + 1;
            lemma_fundamental_div_mod(n as int, a);
            let q = (n as int) / a;
            let m = (n as int) % a;
            assert(a * a <= n as int) by (nonlinear_arith)
                requires
                    1 <= a,
                    a <= q,
                    0 <= m,
                    n as int == a * q + m,
            ;
        }
        r = r + 1;
    }
    proof {
        let a = r as int + 1;
        let ni = n as int;
        if r == n {
            assert(ni < a * a) by (nonlinear_arith)
                requires
                    a == ni + 1,
                    0 <= ni,
                    ni * ni <= ni,
            ;
        } else {
            lemma_fundamental_div_mod(ni, a);
            let q = ni / a;
            let m = ni % a;
            assert(ni < a * a) by (nonlinear_arith)
                requires
                    1 <= a,
                    q < a,
                    0 <= m < a,
                    ni == a * q + m,
            ;
        }
        lemma_grid_width_unique(n as nat, r as nat);
    }
    r
}

/// The entity at position `i` after one tick: its cell state is replaced by
/// the life rule's result over the previous tick's snapshot; an entity
/// without a cell component is left unchanged.
pub open spec fn spec_next_entity(cells: Seq<Entity>, width: int, i: int) -> Entity {
    match spec_cell_state(cells[i]) {
        Some(s) => cells[i].spec_add(
            Component::Cell(
                Cell {
                    state: spec_next_state(
                        s,
                        spec_neighbor_count(cells, width, i % width, i / width),
                    ),
                },
            ),
        ),
        None => cells[i],
    }
}

/// One tick of the automaton over the whole entity slice: every next state
/// is computed from the same snapshot of the previous tick.
pub open spec fn spec_life_step(cells: Seq<Entity>) -> Seq<Entity> {
    let width = spec_grid_width(cells.len()) as int;
    Seq::new(cells.len(), |i: int| spec_next_entity(cells, width, i))
}

/// Whether no entity in the slice holds an Alive cell.
pub open spec fn all_dead(cells: Seq<Entity>) -> bool {
    forall|i: int| 0 <= i < cells.len() ==> spec_cell_state(cells[i]) != Some(CellState::Alive)
}

/// No spontaneous generation: an all-Dead grid transitions to all-Dead.
pub proof fn lemma_all_dead_stays_dead(cells: Seq<Entity>)
    requires
        all_dead(cells),
    ensures
        all_dead(spec_life_step(cells)),
{
    let width = spec_grid_width(cells.len()) as int;
    assert forall|i: int| 0 <= i < cells.len() implies spec_cell_state(
        spec_life_step(cells)[i],
    ) != Some(CellState::Alive) by {
        let x = i % width;
        let y = i / width;
        assert(spec_neighbor_count(cells, width, x, y) == 0);
        match spec_cell_state(cells[i]) {
            Some(s) => {
                assert(spec_next_state(s, 0) == CellState::Dead);
            }
            None => {}
        }
    }
}

/// The automaton transition system. Pure over the entity slice: all next
/// states are computed into a side buffer from the previous tick's
/// snapshot, then committed, so no neighbor read observes an already
/// updated value.
pub struct LifeSystem;

impl System for LifeSystem {
    /// The slice must be addressable with 32-bit coordinates.
    open spec fn update_enabled(&self, entities: Seq<Entity>) -> bool {
        entities.len() <= u32::MAX
    }

    open spec fn spec_update(&self, entities: Seq<Entity>) -> Seq<Entity> {
        spec_life_step(entities)
    }

    fn update(&mut self, entities: &mut Vec<Entity>) {
        let ghost orig = entities@;
        let width = grid_width_of(entities.len());
        proof {
            if width >= 1 {
                assert(width as int <= (width as int) * (width as int)) by (nonlinear_arith)
                    requires
                        1 <= width as int,
                ;
            }
            assert(width <= u32::MAX);
        }
        let width_u32 = width as u32;
        let ghost wi = width as int;

        let mut next_states: Vec<CellState> = Vec::new();
        let mut i: usize = 0;
        while i < entities.len()
            invariant
                entities@ == orig,
                width as nat == spec_grid_width(orig.len()),
                (width as int) * (width as int) <= orig.len(),
                orig.len() < (width as int + 1) * (width as int + 1),
                width <= u32::MAX,
                width_u32 == width as u32,
                wi == width as int,
                i <= orig.len(),
                next_states@.len() == i,
                forall|j: int|
                    0 <= j < i ==> next_states@[j] == (match spec_cell_state(orig[j]) {
                        Some(s) => spec_next_state(
                            s,
                            spec_neighbor_count(orig, wi, j % wi, j / wi),
                        ),
                        None => CellState::Dead,
                    }),
            decreases orig.len() - i,
        {
            proof {
                if width == 0 {
                    assert(orig.len() < 1) by (nonlinear_arith)
                        requires
                            width as int == 0,
                            orig.len() < (width as int + 1) * (width as int + 1),
                    ;
                }
                assert(width >= 1);
            }
            let state = match entities[i].get_component(ComponentKind::Cell) {
                Some(c) => match c {
                    Component::Cell(cell) => {
                        let alive_neighbors = count_alive_neighbors(i, entities, width_u32);
                        next_cell_state(cell.state, alive_neighbors)
                    }
                    Component::Grid(_) => CellState::Dead,
                },
                None => CellState::Dead,
            };
            next_states.push(state);
            i = i + 1;
        }

        let mut i: usize = 0;
        while i < entities.len()
            invariant
                entities@.len() == orig.len(),
                wi == spec_grid_width(orig.len()) as int,
                i <= orig.len(),
                next_states@.len() == orig.len(),
                forall|j: int|
                    0 <= j < orig.len() ==> next_states@[j] == (match spec_cell_state(orig[j]) {
                        Some(s) => spec_next_state(
                            s,
                            spec_neighbor_count(orig, wi, j % wi, j / wi),
                        ),
                        None => CellState::Dead,
                    }),
                forall|j: int| 0 <= j < i ==> entities@[j] == spec_next_entity(orig, wi, j),
                forall|j: int| i <= j < orig.len() ==> entities@[j] == orig[j],
            decreases orig.len() - i,
        {
            let next = next_states[i];
            let entity = &mut entities[i];
            match entity.get_component_mut(ComponentKind::Cell) {
                Some(c) => {
                    match c {
                        Component::Cell(cell) => {
                            cell.state = next;
                        }
                        Component::Grid(_) => {
                            proof {
                                assert(false);
                            }
                        }
                    }
                }
                None => {}
            }
            i = i + 1;
        }
        proof {
            assert(entities@ =~= spec_life_step(orig));
        }
    }
}

} // verus!
