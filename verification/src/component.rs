//! The closed set of component kinds that entities can carry.
//!
//! The engine stores components in a tagged union rather than a type-erased
//! box: only two component kinds exist (the automaton cell and the grid
//! configuration), so the closed enum keeps every access checkable.

use vstd::prelude::*;

verus! {

/// The state of one automaton cell.
#[derive(Clone, Copy, Debug, PartialEq, Eq, Structural)]
pub enum CellState {
    Alive,
    Dead,
}

impl CellState {
    /// The opposite state; toggling a cell maps Alive to Dead and back.
    pub open spec fn spec_flipped(self) -> CellState {
        match self {
            CellState::Alive => CellState::Dead,
            CellState::Dead => CellState::Alive,
        }
    }

    pub fn flipped(self) -> (r: CellState)
        ensures
            r == self.spec_flipped(),
    {
        match self {
            CellState::Alive => CellState::Dead,
            CellState::Dead => CellState::Alive,
        }
    }
}

/// The cell component: one automaton cell's state.
#[derive(Clone, Copy, Debug, PartialEq, Eq, Structural)]
pub struct Cell {
    pub state: CellState,
}

/// The grid component: dimensions, the pixel size of one cell, and whether
/// grid lines are drawn. Held by the single dedicated grid entity.
#[derive(Clone, Copy, Debug, PartialEq, Eq, Structural)]
pub struct Grid {
    pub width: u32,
    pub height: u32,
    pub cell_size: i32,
    pub show: bool,
}

/// A component value, tagged by its kind.
#[derive(Clone, Copy, Debug, PartialEq, Eq, Structural)]
pub enum Component {
    Cell(Cell),
    Grid(Grid),
}

/// A component kind, used to look components up in an entity's bag.
#[derive(Clone, Copy, Debug, PartialEq, Eq, Structural)]
pub enum ComponentKind {
    Cell,
    Grid,
}

impl Component {
    /// The kind tag of this component value.
    pub open spec fn spec_kind(self) -> ComponentKind {
        match self {
            Component::Cell(_) => ComponentKind::Cell,
            Component::Grid(_) => ComponentKind::Grid,
        }
    }

    pub fn kind(&self) -> (r: ComponentKind)
        ensures
            r == self.spec_kind(),
    {
        match self {
            Component::Cell(_) => ComponentKind::Cell,
            Component::Grid(_) => ComponentKind::Grid,
        }
    }
}

} // verus!
