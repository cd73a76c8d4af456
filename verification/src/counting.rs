//! How the number of cells of a kind follows the cells of the grid.
use vstd::prelude::*;
use crate::piece::Cell;
use crate::rules::{State, count_in_grid, count_in_row, in_grid, one_if};

verus! {

/// The count over a row of five cells is the sum over its cells.
pub proof fn row_count_by_cell(row: Seq<Cell>, kind: Cell)
    requires
        row.len() == 5,
    ensures
        count_in_row(row, kind) == one_if(row[0], kind) + one_if(row[1], kind) + one_if(
            row[2],
            kind,
        ) + one_if(row[3], kind) + one_if(row[4], kind),
{
    let r4 = row.drop_last();
    let r3 = r4.drop_last();
    let r2 = r3.drop_last();
    let r1 = r2.drop_last();
    let r0 = r1.drop_last();
    assert(count_in_row(r0, kind) == 0);
    assert(count_in_row(r1, kind) == one_if(row[0], kind));
    assert(count_in_row(r2, kind) == count_in_row(r1, kind) + one_if(row[1], kind));
    assert(count_in_row(r3, kind) == count_in_row(r2, kind) + one_if(row[2], kind));
    assert(count_in_row(r4, kind) == count_in_row(r3, kind) + one_if(row[3], kind));
}

/// The count over a grid of five rows is the sum over its rows.
pub proof fn grid_count_by_row(cells: Seq<Seq<Cell>>, kind: Cell)
    requires
        cells.len() == 5,
    ensures
        count_in_grid(cells, kind) == count_in_row(cells[0], kind) + count_in_row(cells[1], kind)
            + count_in_row(cells[2], kind) + count_in_row(cells[3], kind) + count_in_row(
            cells[4],
            kind,
        ),
{
    let g4 = cells.drop_last();
    let g3 = g4.drop_last();
    let g2 = g3.drop_last();
    let g1 = g2.drop_last();
    let g0 = g1.drop_last();
    assert(count_in_grid(g0, kind) == 0);
    assert(count_in_grid(g1, kind) == count_in_row(cells[0], kind));
    assert(count_in_grid(g2, kind) == count_in_grid(g1, kind) + count_in_row(cells[1], kind));
    assert(count_in_grid(g3, kind) == count_in_grid(g2, kind) + count_in_row(cells[2], kind));
    assert(count_in_grid(g4, kind) == count_in_grid(g3, kind) + count_in_row(cells[3], kind));
}

/// Setting one cell of a row changes the count of a kind by what the cell
/// held and what it holds now.
pub proof fn row_count_after_update(row: Seq<Cell>, c: int, now: Cell, kind: Cell)
    requires
        row.len() == 5,
        0 <= c < 5,
    ensures
        count_in_row(row.update(c, now), kind) + one_if(row[c], kind) == count_in_row(row, kind)
            + one_if(now, kind),
{
    let set = row.update(c, now);
    row_count_by_cell(row, kind);
    row_count_by_cell(set, kind);
    assert(set[c] == now);
    assert forall|k: int| 0 <= k < 5 && k != c implies one_if(#[trigger] set[k], kind) == one_if(
        row[k],
        kind,
    ) by {}
}

/// Setting one cell of the grid changes the count of a kind by what the
/// cell held and what it holds now.
pub proof fn count_after_put(st: State, r: int, c: int, now: Cell, kind: Cell)
    requires
        st.shaped(),
        in_grid(r, c),
    ensures
        st.put(r, c, now).shaped(),
        count_in_grid(st.put(r, c, now).cells, kind) + one_if(st.cells[r][c], kind)
            == count_in_grid(st.cells, kind) + one_if(now, kind),
{
    let after = st.put(r, c, now).cells;
    grid_count_by_row(st.cells, kind);
    grid_count_by_row(after, kind);
    row_count_after_update(st.cells[r], c, now, kind);
    assert(after[r] == st.cells[r].update(c, now));
    assert forall|k: int| 0 <= k < 5 && k != r implies #[trigger] after[k] == st.cells[k] by {}
}

} // verus!
