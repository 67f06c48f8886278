//! Cell states and the transition rule.

use vstd::prelude::*;

verus! {

/// Why a living cell is alive.
#[derive(Clone, Copy, Debug, PartialEq, Eq, Structural)]
pub enum LivingState {
    Remains,
    Reproduction,
}

/// Why a dead cell is dead.
#[derive(Clone, Copy, Debug, PartialEq, Eq, Structural)]
pub enum DeathState {
    Remains,
    Overpopulation,
    Underpopulation,
}

/// A cell, tagged with the cause of its current state.
#[derive(Clone, Copy, Debug, PartialEq, Eq, Structural)]
pub enum Cell {
    Alive(LivingState),
    Dead(DeathState),
}

/// The rule: what a cell becomes, given its state and its number of living
/// neighbours. The cause tag of the current state plays no part.
pub open spec fn next_state_spec(cell: Cell, live_neighbours: int) -> Cell {
    if cell is Alive && live_neighbours <= 1 {
        Cell::Dead(DeathState::Underpopulation)
    } else if cell is Alive && 4 <= live_neighbours <= 8 {
        Cell::Dead(DeathState::Overpopulation)
    } else if cell is Dead && live_neighbours == 3 {
        Cell::Alive(LivingState::Reproduction)
    } else if cell is Alive {
        Cell::Alive(LivingState::Remains)
    } else {
        Cell::Dead(DeathState::Remains)
    }
}

/// Whether a cell is alive.
pub fn is_alive(cell: &Cell) -> (r: bool)
    ensures
        r == (*cell is Alive),
{
    match cell {
        Cell::Alive(_) => true,
        Cell::Dead(_) => false,
    }
}

/// Applies the rule to one cell.
pub fn next_state(cell: Cell, live_neighbours: u8) -> (r: Cell)
    ensures
        r == next_state_spec(cell, live_neighbours as int),
{
    let alive = is_alive(&cell);
    if alive && live_neighbours <= 1 {
        Cell::Dead(DeathState::Underpopulation)
    } else if alive && 4 <= live_neighbours && live_neighbours <= 8 {
        Cell::Dead(DeathState::Overpopulation)
    } else if !alive && live_neighbours == 3 {
        Cell::Alive(LivingState::Reproduction)
    } else {
        match cell {
            Cell::Alive(LivingState::Reproduction) => Cell::Alive(LivingState::Remains),
            Cell::Dead(DeathState::Overpopulation) | Cell::Dead(DeathState::Underpopulation) => {
                Cell::Dead(DeathState::Remains)
            },
            _ => cell,
        }
    }
}

} // verus!
