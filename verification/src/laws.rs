//! Theorems about the rules of the game.
use vstd::prelude::*;
use crate::counting::{count_after_put, grid_count_by_row, row_count_by_cell};
use crate::piece::{Cell, Side};
use crate::rules::{
    State, adjacent, count_in_grid, count_in_row, in_grid, is_corner, midpoint, starting_cells,
};

verus! {

/// The available moves of a cell are exactly its empty orthogonal
/// neighbours inside the grid: each differs from the cell by one step in
/// the row or in the column, never both and never more.
pub proof fn moves_are_empty_neighbours(st: State, row: int, col: int, tr: int, tc: int)
    ensures
        st.moves(row, col).contains((tr, tc)) <==> adjacent(row, col, tr, tc) && in_grid(tr, tc)
            && st.cells[tr][tc] == Cell::Empty,
{
    let up = st.step(row - 1, col);
    let down = st.step(row + 1, col);
    let left = st.step(row, col - 1);
    let right = st.step(row, col + 1);
    let all = st.moves(row, col);
    assert(all =~= up + down + left + right);
    if all.contains((tr, tc)) {
        let i = choose|i: int| 0 <= i < all.len() && all[i] == (tr, tc);
        assert(all[i] == (tr, tc));
    }
    if adjacent(row, col, tr, tc) && st.holds(tr, tc, Cell::Empty) {
        if tc == col && tr == row - 1 {
            assert(all[0] == (tr, tc));
        } else if tc == col && tr == row + 1 {
            assert(all[up.len() as int] == (tr, tc));
        } else if tr == row && tc == col - 1 {
            assert(all[(up.len() + down.len()) as int] == (tr, tc));
        } else {
            assert(all[(up.len() + down.len() + left.len()) as int] == (tr, tc));
        }
    }
}

/// A legal move never captures: the cell halfway between two neighbouring
/// cells is one of the two, and after the move neither holds a goat that a
/// tiger could take.
pub proof fn legal_move_jumps_nothing(st: State, row: int, col: int, tr: int, tc: int)
    requires
        st.shaped(),
        st.legal(row, col, tr, tc),
    ensures
        st.turn == Side::Tiger ==> st.relocated(row, col, tr, tc).captured(row, col, tr, tc) is None,
        st.moved(row, col, tr, tc).killed == st.killed,
{
    moves_are_empty_neighbours(st, row, col, tr, tc);
}

/// The starting layout holds exactly four tigers, one on each corner, no
/// goat, and twenty-one empty cells; the tigers move first.
pub proof fn starting_layout()
    ensures
        State::initial().shaped(),
        State::initial().turn == Side::Tiger,
        count_in_grid(starting_cells(), Cell::Tiger) == 4,
        count_in_grid(starting_cells(), Cell::Goat) == 0,
        count_in_grid(starting_cells(), Cell::Empty) == 21,
        forall|r: int, c: int|
            in_grid(r, c) ==> (#[trigger] starting_cells()[r][c] == Cell::Tiger <==> is_corner(
                r,
                c,
            )),
        !State::initial().terminal(),
{
    let cells = starting_cells();
    grid_count_by_row(cells, Cell::Tiger);
    grid_count_by_row(cells, Cell::Goat);
    grid_count_by_row(cells, Cell::Empty);
    assert forall|r: int| 0 <= r < 5 implies count_in_row(#[trigger] cells[r], Cell::Tiger) == (if r
        == 0 || r == 4 {
        2nat
    } else {
        0nat
    }) && count_in_row(cells[r], Cell::Goat) == 0 && count_in_row(cells[r], Cell::Empty) == (if r
        == 0 || r == 4 {
        3nat
    } else {
        5nat
    }) by {
        row_count_by_cell(cells[r], Cell::Tiger);
        row_count_by_cell(cells[r], Cell::Goat);
        row_count_by_cell(cells[r], Cell::Empty);
    }
}

/// Passing the turn twice gives it back: the sides alternate strictly.
pub proof fn turn_alternates(st: State)
    ensures
        st.switched().turn != st.turn,
        st.switched().switched() == st,
{
}

/// A legal submission passes the turn to the other side; any other, be
/// it an illegal move or malformed input, leaves the whole state, and so
/// the turn, as it was. This holds of coordinates and of lines alike.
pub proof fn turn_passes_on_legal_moves_only(st: State, coords: Seq<usize>, line: Seq<u8>)
    ensures
        st.answer(coords) is Ok ==> st.after_turn(coords).turn == st.turn.other(),
        st.answer(coords) is Ok ==> st.after_turn(coords).turn != st.turn,
        st.answer(coords) is Err ==> st.after_turn(coords) == st,
        st.answer_to_line(line) is Ok ==> st.after_line(line).turn == st.turn.other(),
        st.answer_to_line(line) is Ok ==> st.after_line(line).turn != st.turn,
        st.answer_to_line(line) is Err ==> st.after_line(line) == st,
{
}

/// A tiger that jumps a goat captures it: when the cell halfway between
/// source and target is neither of the two and holds a goat, the move
/// clears it and counts one more goat as captured. The source is left
/// empty and the tiger stands on the target.
pub proof fn tiger_jump_captures(st: State, row: int, col: int, tr: int, tc: int)
    requires
        st.shaped(),
        in_grid(row, col),
        in_grid(tr, tc),
        st.turn == Side::Tiger,
        (midpoint(row, tr), midpoint(col, tc)) != (row, col),
        (midpoint(row, tr), midpoint(col, tc)) != (tr, tc),
        st.cells[midpoint(row, tr)][midpoint(col, tc)] == Cell::Goat,
    ensures
        st.moved(row, col, tr, tc).killed == st.killed + 1,
        st.moved(row, col, tr, tc).remaining == st.remaining,
        st.moved(row, col, tr, tc).cells[midpoint(row, tr)][midpoint(col, tc)] == Cell::Empty,
        st.moved(row, col, tr, tc).cells[row][col] == Cell::Empty,
        st.moved(row, col, tr, tc).cells[tr][tc] == Cell::Tiger,
{
}

/// A tiger move with no goat on the cell halfway between source and target
/// captures nothing: both counters stay as they were.
pub proof fn tiger_move_without_goat_between(st: State, row: int, col: int, tr: int, tc: int)
    requires
        st.shaped(),
        in_grid(row, col),
        in_grid(tr, tc),
        st.turn == Side::Tiger,
        st.cells[midpoint(row, tr)][midpoint(col, tc)] != Cell::Goat,
    ensures
        st.moved(row, col, tr, tc).killed == st.killed,
        st.moved(row, col, tr, tc).remaining == st.remaining,
        st.moved(row, col, tr, tc) == st.relocated(row, col, tr, tc),
{
}

/// A goat move never captures and takes exactly one goat off the reserve.
pub proof fn goat_move_spends_one_goat(st: State, row: int, col: int, tr: int, tc: int)
    requires
        st.turn == Side::Goat,
    ensures
        st.moved(row, col, tr, tc).killed == st.killed,
        st.moved(row, col, tr, tc).remaining == st.remaining - 1,
        st.moved(row, col, tr, tc).cells == st.relocated(row, col, tr, tc).cells,
{
}

/// When the game ends: with five goats captured, with the reserve used
/// up, or with fewer than two tigers on the grid; and in no other state.
pub proof fn termination_cases(st: State)
    ensures
        st.killed >= 5 ==> st.terminal(),
        st.remaining == 0 ==> st.terminal(),
        st.tigers() <= 1 ==> st.terminal(),
        st.killed < 5 && st.remaining > 0 && st.tigers() >= 2 ==> !st.terminal(),
{
}

/// A submission that is turned down can be repeated any number of times:
/// the grid, the turn and both counters stay as they were.
pub proof fn rejection_changes_nothing(st: State, coords: Seq<usize>, times: nat)
    requires
        st.answer(coords) is Err,
    ensures
        st.resubmitted(coords, times) == st,
    decreases times,
{
    if times > 0 {
        rejection_changes_nothing(st, coords, (times - 1) as nat);
    }
}

/// A legal move keeps every piece on the grid: the number of tigers and of
/// goats on it is unchanged, the moved piece stands on the target, the
/// source is empty, and no more goats are accounted for than before.
pub proof fn legal_move_keeps_pieces(st: State, row: int, col: int, tr: int, tc: int)
    requires
        st.shaped(),
        st.legal(row, col, tr, tc),
    ensures
        st.remaining > 0 ==> st.moved(row, col, tr, tc).shaped(),
        st.moved(row, col, tr, tc).cells == st.relocated(row, col, tr, tc).cells,
        st.moved(row, col, tr, tc).cells[tr][tc] == st.turn.own(),
        st.moved(row, col, tr, tc).cells[row][col] == Cell::Empty,
        st.moved(row, col, tr, tc).tigers() == st.tigers(),
        st.moved(row, col, tr, tc).goats() == st.goats(),
        st.moved(row, col, tr, tc).goats_accounted() <= st.goats_accounted(),
{
    legal_move_jumps_nothing(st, row, col, tr, tc);
    moves_are_empty_neighbours(st, row, col, tr, tc);
    let placed = st.put(tr, tc, st.turn.own());
    count_after_put(st, tr, tc, st.turn.own(), Cell::Tiger);
    count_after_put(st, tr, tc, st.turn.own(), Cell::Goat);
    count_after_put(placed, row, col, Cell::Empty, Cell::Tiger);
    count_after_put(placed, row, col, Cell::Empty, Cell::Goat);
    assert(placed.cells[row][col] == st.cells[row][col]);
}

/// Every game starts in a sound state, and a turn taken in a sound state
/// in which the game has not ended leads to a sound state again, with the
/// same tigers on the grid: never more than five goats are captured, and
/// never more than twenty goats are accounted for.
pub proof fn turns_keep_the_game_sound(st: State, coords: Seq<usize>)
    requires
        st.sound(),
        !st.terminal(),
    ensures
        State::initial().sound(),
        st.after_turn(coords).sound(),
        st.after_turn(coords).tigers() == st.tigers(),
{
    starting_layout();
    if st.answer(coords) is Ok {
        legal_move_keeps_pieces(
            st,
            coords[0] as int,
            coords[1] as int,
            coords[2] as int,
            coords[3] as int,
        );
    }
}

} // verus!
