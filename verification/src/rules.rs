//! The game as a mathematical object: a grid of cells, the side to move and
//! two counters, with the rules written as functions on that value.
use vstd::prelude::*;
use crate::input::numbers_of;
use crate::piece::{Cell, MoveError, Side};

verus! {

/// Goats in the reserve when a game starts.
pub const GOAT_RESERVE: u32 = 20;

/// Captured goats at which the game ends.
pub const KILL_LIMIT: u32 = 5;

/// Tigers below which the game ends.
pub const TIGER_MINIMUM: usize = 2;

/// Whether `(r, c)` names an intersection of the 5×5 grid.
pub open spec fn in_grid(r: int, c: int) -> bool {
    0 <= r < 5 && 0 <= c < 5
}

/// Whether `(r, c)` is one of the four corners of the grid.
pub open spec fn is_corner(r: int, c: int) -> bool {
    (r == 0 || r == 4) && (c == 0 || c == 4)
}

/// Whether `(tr, tc)` lies exactly one step up, down, left or right of
/// `(r, c)`.
pub open spec fn adjacent(r: int, c: int, tr: int, tc: int) -> bool {
    (tc == c && (tr == r - 1 || tr == r + 1)) || (tr == r && (tc == c - 1 || tc == c + 1))
}

/// The coordinate halfway between `a` and `b`, rounded down.
pub open spec fn midpoint(a: int, b: int) -> int {
    (a + b) / 2
}

/// One if `cell` is `kind`, else nothing.
pub open spec fn one_if(cell: Cell, kind: Cell) -> nat {
    if cell == kind {
        1
    } else {
        0
    }
}

/// How many cells of `row` hold `kind`.
pub open spec fn count_in_row(row: Seq<Cell>, kind: Cell) -> nat
    decreases row.len(),
{
    if row.len() == 0 {
        0
    } else {
        count_in_row(row.drop_last(), kind) + one_if(row.last(), kind)
    }
}

/// How many cells of the rows `cells` hold `kind`.
pub open spec fn count_in_grid(cells: Seq<Seq<Cell>>, kind: Cell) -> nat
    decreases cells.len(),
{
    if cells.len() == 0 {
        0
    } else {
        count_in_grid(cells.drop_last(), kind) + count_in_row(cells.last(), kind)
    }
}

/// The rows of the starting layout: a tiger on each corner, nothing else.
pub open spec fn starting_cells() -> Seq<Seq<Cell>> {
    Seq::new(
        5,
        |r: int| Seq::new(5, |c: int| if is_corner(r, c) { Cell::Tiger } else { Cell::Empty }),
    )
}

/// Five rows of five empty cells.
pub open spec fn blank_cells() -> Seq<Seq<Cell>> {
    Seq::new(5, |r: int| Seq::new(5, |c: int| Cell::Empty))
}

/// The whole state of a game.
pub struct State {
    /// The grid, row by row.
    pub cells: Seq<Seq<Cell>>,
    /// The side to move.
    pub turn: Side,
    /// Goats left in the reserve.
    pub remaining: int,
    /// Goats captured so far.
    pub killed: int,
}

impl State {
    /// The grid has five rows of five cells and no counter is negative.
    pub open spec fn shaped(self) -> bool {
        &&& self.cells.len() == 5
        &&& forall|r: int| 0 <= r < 5 ==> (#[trigger] self.cells[r]).len() == 5
        &&& self.remaining >= 0
        &&& self.killed >= 0
    }

    /// A game before the pieces are laid out: an empty grid, the full
    /// reserve, nothing captured, the tigers to move.
    pub open spec fn blank() -> State {
        State {
            cells: blank_cells(),
            turn: Side::Tiger,
            remaining: GOAT_RESERVE as int,
            killed: 0,
        }
    }

    /// The state in which every game starts.
    pub open spec fn initial() -> State {
        State { cells: starting_cells(), ..State::blank() }
    }

    /// Whether `(r, c)` is a cell of the grid that holds `kind`.
    pub open spec fn holds(self, r: int, c: int, kind: Cell) -> bool {
        in_grid(r, c) && self.cells[r][c] == kind
    }

    /// `(r, c)` alone if it is an empty cell of the grid, else nothing.
    pub open spec fn step(self, r: int, c: int) -> Seq<(int, int)> {
        if self.holds(r, c, Cell::Empty) {
            seq![(r, c)]
        } else {
            Seq::empty()
        }
    }

    /// The cells to which a piece on `(row, col)` may go: its empty
    /// orthogonal neighbours inside the grid, in the order up, down, left,
    /// right. Both sides move alike.
    pub open spec fn moves(self, row: int, col: int) -> Seq<(int, int)> {
        self.step(row - 1, col) + self.step(row + 1, col) + self.step(row, col - 1) + self.step(
            row,
            col + 1,
        )
    }

    /// What the engine answers to the move from `(row, col)` to
    /// `(tr, tc)`: `Ok` if it is legal, else the first reason against it.
    pub open spec fn verdict(self, row: int, col: int, tr: int, tc: int) -> Result<(), MoveError> {
        if !in_grid(row, col) || !in_grid(tr, tc) {
            Err(MoveError::MalformedInput)
        } else if self.cells[row][col] != self.turn.own() {
            Err(MoveError::IllegalSource)
        } else if !self.moves(row, col).contains((tr, tc)) {
            Err(MoveError::IllegalDestination)
        } else {
            Ok(())
        }
    }

    /// Whether the move from `(row, col)` to `(tr, tc)` is legal.
    pub open spec fn legal(self, row: int, col: int, tr: int, tc: int) -> bool {
        self.verdict(row, col, tr, tc) is Ok
    }

    /// This state with `kind` on `(r, c)`.
    pub open spec fn put(self, r: int, c: int, kind: Cell) -> State {
        State { cells: self.cells.update(r, self.cells[r].update(c, kind)), ..self }
    }

    /// This state once the mover's piece stands on the target and the
    /// source is empty.
    pub open spec fn relocated(self, row: int, col: int, tr: int, tc: int) -> State {
        self.put(tr, tc, self.turn.own()).put(row, col, Cell::Empty)
    }

    /// The cell halfway between source and target, if it lies in the grid
    /// and holds a goat.
    pub open spec fn captured(self, row: int, col: int, tr: int, tc: int) -> Option<(int, int)> {
        if self.holds(midpoint(row, tr), midpoint(col, tc), Cell::Goat) {
            Some((midpoint(row, tr), midpoint(col, tc)))
        } else {
            None
        }
    }

    /// This state after the side to move has taken its piece from
    /// `(row, col)` to `(tr, tc)`. A tiger then captures the goat halfway,
    /// if there is one; a goat costs the reserve one goat.
    pub open spec fn moved(self, row: int, col: int, tr: int, tc: int) -> State {
        let after = self.relocated(row, col, tr, tc);
        match self.turn {
            Side::Tiger => match after.captured(row, col, tr, tc) {
                Some((kr, kc)) => State { killed: after.killed + 1, ..after.put(kr, kc, Cell::Empty) },
                None => after,
            },
            Side::Goat => State { remaining: after.remaining - 1, ..after },
        }
    }

    /// This state with the other side to move.
    pub open spec fn switched(self) -> State {
        State { turn: self.turn.other(), ..self }
    }

    /// How many tigers stand on the grid.
    pub open spec fn tigers(self) -> nat {
        count_in_grid(self.cells, Cell::Tiger)
    }

    /// How many goats stand on the grid.
    pub open spec fn goats(self) -> nat {
        count_in_grid(self.cells, Cell::Goat)
    }

    /// Whether the game has ended: the reserve is used up, five goats are
    /// captured, or fewer than two tigers are left.
    pub open spec fn terminal(self) -> bool {
        self.remaining == 0 || self.killed >= KILL_LIMIT || self.tigers() < TIGER_MINIMUM
    }

    /// What the engine answers to a submission of `coords`.
    pub open spec fn answer(self, coords: Seq<usize>) -> Result<(), MoveError> {
        if coords.len() != 4 {
            Err(MoveError::MalformedInput)
        } else {
            self.verdict(coords[0] as int, coords[1] as int, coords[2] as int, coords[3] as int)
        }
    }

    /// Goats on the grid, captured or still in the reserve.
    pub open spec fn goats_accounted(self) -> int {
        self.goats() + self.killed + self.remaining
    }

    /// What holds of every state that a game reaches: the grid is in
    /// shape, at most five goats are captured and at most twenty are
    /// accounted for.
    pub open spec fn sound(self) -> bool {
        self.shaped() && self.killed <= KILL_LIMIT && self.goats_accounted() <= GOAT_RESERVE
    }

    /// This state after one submission of `coords`: a legal move is made
    /// and the turn passes; anything else changes nothing.
    pub open spec fn after_turn(self, coords: Seq<usize>) -> State {
        if self.answer(coords) is Ok {
            self.moved(
                coords[0] as int,
                coords[1] as int,
                coords[2] as int,
                coords[3] as int,
            ).switched()
        } else {
            self
        }
    }

    /// What the engine answers to a submitted line: a line that does not
    /// read as numbers is malformed input, any other is answered as the
    /// numbers it holds.
    pub open spec fn answer_to_line(self, line: Seq<u8>) -> Result<(), MoveError> {
        match numbers_of(line) {
            Some(coords) => self.answer(coords),
            None => Err(MoveError::MalformedInput),
        }
    }

    /// This state after one submitted line.
    pub open spec fn after_line(self, line: Seq<u8>) -> State {
        match numbers_of(line) {
            Some(coords) => self.after_turn(coords),
            None => self,
        }
    }

    /// This state after `coords` has been submitted `times` times in a
    /// row.
    pub open spec fn resubmitted(self, coords: Seq<usize>, times: nat) -> State
        decreases times,
    {
        if times == 0 {
            self
        } else {
            self.after_turn(coords).resubmitted(coords, (times - 1) as nat)
        }
    }
}

} // verus!
