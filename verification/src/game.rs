//! The executable engine.
use vstd::prelude::*;
use crate::input::read_numbers;
use crate::laws::legal_move_jumps_nothing;
use crate::piece::{Cell, MoveError, Side};
use crate::rules::{
    State, adjacent, blank_cells, count_in_grid, count_in_row, in_grid, midpoint, starting_cells,
    GOAT_RESERVE, KILL_LIMIT, TIGER_MINIMUM,
};

verus! {

/// A game of Bagh Chal: the board, the side to move and the goat counters.
#[derive(Clone, Copy, Debug, PartialEq, Eq)]
pub struct BaghChal {
    /// Goats left in the reserve.
    pub total_remaining_goats: u32,
    /// Goats captured so far.
    pub killed_goats: u32,
    /// The grid, row by row.
    pub board: [[Cell; 5]; 5],
    /// The side to move.
    pub turn: Side,
}

impl View for BaghChal {
    type V = State;

    open spec fn view(&self) -> State {
        State {
            cells: Seq::new(5, |r: int| self.board[r]@),
            turn: self.turn,
            remaining: self.total_remaining_goats as int,
            killed: self.killed_goats as int,
        }
    }
}

impl BaghChal {
    /// The model of every game is in shape: five rows of five cells, and
    /// no counter below zero.
    pub proof fn view_is_shaped(&self)
        ensures
            self@.shaped(),
    {
    }

    /// A game with an empty board, the full reserve, nothing captured and
    /// the tigers to move.
    pub fn new() -> (game: BaghChal)
        ensures
            game@ == State::blank(),
    {
        let game = BaghChal {
            total_remaining_goats: GOAT_RESERVE,
            killed_goats: 0,
            board: [[Cell::Empty; 5]; 5],
            turn: Side::Tiger,
        };
        assert(game@.cells =~~= blank_cells());
        game
    }

    /// Lays out the starting position: every cell empty but the four
    /// corners, which hold a tiger each, and the tigers to move. The
    /// counters stay as they are.
    pub fn init_board(&mut self)
        ensures
            final(self)@ == (State { cells: starting_cells(), turn: Side::Tiger, ..old(self)@ }),
    {
        for i in 0..5usize
            invariant
                forall|r: int, c: int| 0 <= r < i && 0 <= c < 5 ==> self.board[r][c] == Cell::Empty,
                self.total_remaining_goats == old(self).total_remaining_goats,
                self.killed_goats == old(self).killed_goats,
        {
            for j in 0..5usize
                invariant
                    i < 5,
                    forall|r: int, c: int|
                        0 <= r < i && 0 <= c < 5 ==> self.board[r][c] == Cell::Empty,
                    forall|c: int| 0 <= c < j ==> self.board[i as int][c] == Cell::Empty,
                    self.total_remaining_goats == old(self).total_remaining_goats,
                    self.killed_goats == old(self).killed_goats,
            {
                self.board[i][j] = Cell::Empty;
            }
        }
        self.board[0][0] = Cell::Tiger;
        self.board[0][4] = Cell::Tiger;
        self.board[4][0] = Cell::Tiger;
        self.board[4][4] = Cell::Tiger;
        self.turn = Side::Tiger;
        assert(self@.cells =~~= starting_cells());
    }

    /// Hands the turn to the other side.
    pub fn switch_turn(&mut self)
        ensures
            final(self)@ == old(self)@.switched(),
    {
        if self.turn == Side::Tiger {
            self.turn = Side::Goat;
        } else {
            self.turn = Side::Tiger;
        }
        assert(self@.cells =~~= old(self)@.cells);
    }

    /// Whether `(r, c)` is an empty cell of the grid.
    fn is_open(&self, r: usize, c: usize) -> (open: bool)
        ensures
            open == self@.holds(r as int, c as int, Cell::Empty),
    {
        r < 5 && c < 5 && self.board[r][c] == Cell::Empty
    }

    /// The cells to which the piece on `(row, col)` may go: the empty cells
    /// of the grid directly above, below, left and right of it, in that
    /// order, each as `[row, column]`.
    pub fn available_moves(&self, row: usize, col: usize) -> (moves: Vec<[usize; 2]>)
        ensures
            as_pairs(moves@) == self@.moves(row as int, col as int),
            forall|i: int|
                0 <= i < moves@.len() ==> {
                    let r = (#[trigger] moves@[i])[0] as int;
                    let c = moves@[i][1] as int;
                    adjacent(row as int, col as int, r, c) && self@.holds(r, c, Cell::Empty)
                },
    {
        let mut moves: Vec<[usize; 2]> = Vec::new();
        assert(as_pairs(moves@) =~= Seq::empty());
        if row > 0 && self.is_open(row - 1, col) {
            moves.push([row - 1, col]);
        }
        assert(as_pairs(moves@) =~= self@.step(row - 1, col as int));
        if row < usize::MAX && self.is_open(row + 1, col) {
            moves.push([row + 1, col]);
        }
        assert(as_pairs(moves@) =~= self@.step(row - 1, col as int) + self@.step(
            row + 1,
            col as int,
        ));
        if col > 0 && self.is_open(row, col - 1) {
            moves.push([row, col - 1]);
        }
        assert(as_pairs(moves@) =~= self@.step(row - 1, col as int) + self@.step(
            row + 1,
            col as int,
        ) + self@.step(row as int, col - 1));
        if col < usize::MAX && self.is_open(row, col + 1) {
            moves.push([row, col + 1]);
        }
        assert(as_pairs(moves@) =~= self@.moves(row as int, col as int));
        moves
    }

    /// The goat that a tiger going from `(row, col)` to
    /// `(target_row, target_col)` jumps: the cell halfway between the two,
    /// each coordinate rounded down, if it lies in the grid and holds a
    /// goat.
    pub fn calculate_killed_goat(
        &self,
        row: usize,
        col: usize,
        target_row: usize,
        target_col: usize,
    ) -> (killed: Option<(usize, usize)>)
        ensures
            as_cell(killed) == self@.captured(
                row as int,
                col as int,
                target_row as int,
                target_col as int,
            ),
    {
        let killed_row = halfway(row, target_row);
        let killed_col = halfway(col, target_col);
        if killed_row < 5 && killed_col < 5 && self.board[killed_row][killed_col] == Cell::Goat {
            Some((killed_row, killed_col))
        } else {
            None
        }
    }

    /// How many cells of the board hold `kind`.
    pub fn count(&self, kind: Cell) -> (n: usize)
        ensures
            n == count_in_grid(self@.cells, kind),
    {
        let ghost cells = self@.cells;
        let mut n: usize = 0;
        for i in 0..5usize
            invariant
                cells == self@.cells,
                n == count_in_grid(cells.take(i as int), kind),
                n <= 5 * i,
        {
            for j in 0..5usize
                invariant
                    i < 5,
                    cells == self@.cells,
                    n == count_in_grid(cells.take(i as int), kind) + count_in_row(
                        cells[i as int].take(j as int),
                        kind,
                    ),
                    n <= 5 * i + j,
            {
                proof {
                    assert(cells[i as int].take(j + 1).drop_last() =~= cells[i as int].take(
                        j as int,
                    ));
                }
                if self.board[i][j] == kind {
                    n += 1;
                }
            }
            proof {
                assert(cells.take(i + 1).drop_last() =~= cells.take(i as int));
                assert(cells[i as int].take(5) =~= cells[i as int]);
            }
        }
        proof {
            assert(cells.take(5) =~= cells);
        }
        n
    }

    /// Whether the game has ended: the goat reserve is used up, five goats
    /// are captured, or fewer than two tigers stand on the board. No winner
    /// is named.
    pub fn is_game_over(&self) -> (over: bool)
        ensures
            over == self@.terminal(),
    {
        if self.total_remaining_goats == 0 || self.killed_goats >= KILL_LIMIT {
            return true;
        }
        let tiger_count = self.count(Cell::Tiger);
        tiger_count < TIGER_MINIMUM
    }

    /// Makes the move from `(row, col)` to `(target_row, target_col)` for
    /// the side to move without asking whether it is legal: the mover's
    /// piece is set on the target and the source is cleared; then a tiger
    /// captures the goat halfway between the two cells, if there is one,
    /// and a goat takes one goat off the reserve.
    pub fn apply_move(&mut self, row: usize, col: usize, target_row: usize, target_col: usize)
        requires
            in_grid(row as int, col as int),
            in_grid(target_row as int, target_col as int),
            old(self).turn == Side::Goat ==> old(self).total_remaining_goats > 0,
            old(self).turn == Side::Tiger && old(self)@.relocated(
                row as int,
                col as int,
                target_row as int,
                target_col as int,
            ).captured(row as int, col as int, target_row as int, target_col as int) is Some
                ==> old(self).killed_goats < u32::MAX,
        ensures
            final(self)@ == old(self)@.moved(
                row as int,
                col as int,
                target_row as int,
                target_col as int,
            ),
    {
        let ghost before = self@;
        self.board[target_row][target_col] = self.turn.piece();
        assert(self@.cells =~~= before.put(
            target_row as int,
            target_col as int,
            before.turn.own(),
        ).cells);
        let ghost placed = self@;
        self.board[row][col] = Cell::Empty;
        assert(self@.cells =~~= placed.put(row as int, col as int, Cell::Empty).cells);
        let ghost after = self@;
        assert(after == before.relocated(
            row as int,
            col as int,
            target_row as int,
            target_col as int,
        ));
        if self.turn == Side::Tiger {
            match self.calculate_killed_goat(row, col, target_row, target_col) {
                Some((killed_row, killed_col)) => {
                    self.board[killed_row][killed_col] = Cell::Empty;
                    self.killed_goats += 1;
                    assert(self@.cells =~~= after.put(
                        killed_row as int,
                        killed_col as int,
                        Cell::Empty,
                    ).cells);
                },
                None => {},
            }
        } else {
            self.total_remaining_goats -= 1;
            assert(self@.cells =~~= after.cells);
        }
    }

    /// Validates the move from `(row, col)` to `(target_row, target_col)`
    /// and, if it is legal, makes it. A coordinate outside the grid is
    /// malformed input; otherwise the source must hold a piece of the side
    /// to move, and the target must be one of its available moves. A move
    /// that is turned down changes nothing.
    pub fn move_piece(
        &mut self,
        row: usize,
        col: usize,
        target_row: usize,
        target_col: usize,
    ) -> (res: Result<(), MoveError>)
        requires
            old(self).turn == Side::Goat && old(self)@.legal(
                row as int,
                col as int,
                target_row as int,
                target_col as int,
            ) ==> old(self).total_remaining_goats > 0,
        ensures
            res == old(self)@.verdict(
                row as int,
                col as int,
                target_row as int,
                target_col as int,
            ),
            res is Ok ==> final(self)@ == old(self)@.moved(
                row as int,
                col as int,
                target_row as int,
                target_col as int,
            ),
            res is Err ==> *final(self) == *old(self),
            final(self).killed_goats == old(self).killed_goats,
    {
        if row >= 5 || col >= 5 || target_row >= 5 || target_col >= 5 {
            return Err(MoveError::MalformedInput);
        }
        if self.board[row][col] != self.turn.piece() {
            return Err(MoveError::IllegalSource);
        }
        let available = self.available_moves(row, col);
        if !offers(&available, target_row, target_col) {
            return Err(MoveError::IllegalDestination);
        }
        proof {
            legal_move_jumps_nothing(
                self@,
                row as int,
                col as int,
                target_row as int,
                target_col as int,
            );
        }
        self.apply_move(row, col, target_row, target_col);
        Ok(())
    }

    /// Plays one submission for the side to move. `coords` must be exactly
    /// the four coordinates source row, source column, target row, target
    /// column. A legal move is made and the turn passes to the other side;
    /// the result then says whether the game has ended. Anything else is
    /// turned down with its reason, and the same side is to move again in
    /// an unchanged state.
    pub fn take_turn(&mut self, coords: &[usize]) -> (res: Result<bool, MoveError>)
        requires
            old(self).turn == Side::Goat && old(self)@.answer(coords@) is Ok ==> old(self).total_remaining_goats
                > 0,
        ensures
            final(self)@ == old(self)@.after_turn(coords@),
            match res {
                Ok(over) => old(self)@.answer(coords@) is Ok && over == final(self)@.terminal(),
                Err(e) => old(self)@.answer(coords@) == Err::<(), MoveError>(e) && *final(self)
                    == *old(self),
            },
    {
        if coords.len() != 4 {
            return Err(MoveError::MalformedInput);
        }
        match self.move_piece(coords[0], coords[1], coords[2], coords[3]) {
            Err(e) => Err(e),
            Ok(()) => {
                self.switch_turn();
                Ok(self.is_game_over())
            },
        }
    }

    /// Plays one submitted line for the side to move. The line must hold
    /// four numbers separated by white space, which are then played as a
    /// turn; a line that holds anything else is malformed input and changes
    /// nothing.
    pub fn make_move(&mut self, line: &[u8]) -> (res: Result<bool, MoveError>)
        requires
            old(self).turn == Side::Goat && old(self)@.answer_to_line(line@) is Ok ==> old(self).total_remaining_goats
                > 0,
        ensures
            final(self)@ == old(self)@.after_line(line@),
            match res {
                Ok(over) => old(self)@.answer_to_line(line@) is Ok
                    && over == final(self)@.terminal(),
                Err(e) => old(self)@.answer_to_line(line@) == Err::<(), MoveError>(e)
                    && *final(self) == *old(self),
            },
    {
        match read_numbers(line) {
            Some(coords) => self.take_turn(coords.as_slice()),
            None => Err(MoveError::MalformedInput),
        }
    }
}

/// The moves of a list as pairs of row and column.
pub open spec fn as_pairs(moves: Seq<[usize; 2]>) -> Seq<(int, int)> {
    moves.map_values(|m: [usize; 2]| (m[0] as int, m[1] as int))
}

/// A cell handed out by the engine as a pair of row and column.
pub open spec fn as_cell(cell: Option<(usize, usize)>) -> Option<(int, int)> {
    match cell {
        Some((r, c)) => Some((r as int, c as int)),
        None => None,
    }
}

/// Whether the list `moves` holds the cell `(r, c)`.
fn offers(moves: &Vec<[usize; 2]>, r: usize, c: usize) -> (found: bool)
    ensures
        found == as_pairs(moves@).contains((r as int, c as int)),
{
    for i in 0..moves.len()
        invariant
            forall|k: int| 0 <= k < i ==> as_pairs(moves@)[k] != (r as int, c as int),
    {
        if moves[i][0] == r && moves[i][1] == c {
            assert(as_pairs(moves@)[i as int] == (r as int, c as int));
            return true;
        }
    }
    false
}

/// The coordinate halfway between `a` and `b`, rounded down.
fn halfway(a: usize, b: usize) -> (mid: usize)
    ensures
        mid == midpoint(a as int, b as int),
{
    a / 2 + b / 2 + (a % 2 + b % 2) / 2
}

} // verus!
