//! Pieces, sides and the reasons for which a move is turned down.
use vstd::prelude::*;

verus! {

/// What one intersection of the grid holds.
#[derive(Clone, Copy, Debug, PartialEq, Eq, Structural)]
pub enum Cell {
    Empty,
    Tiger,
    Goat,
}

/// One of the two players.
#[derive(Clone, Copy, Debug, PartialEq, Eq, Structural)]
pub enum Side {
    Tiger,
    Goat,
}

/// Why a submitted move was turned down. The state is left untouched in
/// every case and the same side is asked again.
#[derive(Clone, Copy, Debug, PartialEq, Eq, Structural)]
pub enum MoveError {
    /// Not exactly four coordinates, or one of them outside the grid.
    MalformedInput,
    /// The source cell does not hold a piece of the side to move.
    IllegalSource,
    /// The target is not an empty orthogonal neighbour of the source.
    IllegalDestination,
}

impl Cell {
    /// The character that stands for this cell when a board is drawn.
    pub open spec fn glyph(self) -> char {
        match self {
            Cell::Tiger => 'T',
            Cell::Goat => 'G',
            Cell::Empty => '-',
        }
    }

    /// The character that stands for this cell when a board is drawn:
    /// `T` for a tiger, `G` for a goat, `-` for an empty cell.
    pub fn symbol(self) -> (ch: char)
        ensures
            ch == self.glyph(),
    {
        match self {
            Cell::Tiger => 'T',
            Cell::Goat => 'G',
            Cell::Empty => '-',
        }
    }
}

impl Side {
    /// The piece that this side moves.
    pub open spec fn own(self) -> Cell {
        match self {
            Side::Tiger => Cell::Tiger,
            Side::Goat => Cell::Goat,
        }
    }

    /// The other side.
    pub open spec fn other(self) -> Side {
        match self {
            Side::Tiger => Side::Goat,
            Side::Goat => Side::Tiger,
        }
    }

    /// The piece that this side moves.
    pub fn piece(self) -> (cell: Cell)
        ensures
            cell == self.own(),
    {
        match self {
            Side::Tiger => Cell::Tiger,
            Side::Goat => Cell::Goat,
        }
    }

    /// The other side.
    pub fn opponent(self) -> (side: Side)
        ensures
            side == self.other(),
    {
        match self {
            Side::Tiger => Side::Goat,
            Side::Goat => Side::Tiger,
        }
    }
}

} // verus!
