//! The puzzle board model: grid cell values, the selection cursor, move
//! application and solved-state detection. Structural legality (bounds) is
//! enforced here; sudoku rule validity is delegated to the external checking
//! library behind one trusted wrapper.

use vstd::arithmetic::div_mod::lemma_div_pos_is_pos;
use vstd::arithmetic::div_mod::lemma_fundamental_div_mod;
use vstd::arithmetic::div_mod::lemma_fundamental_div_mod_converse_div;
use vstd::arithmetic::div_mod::lemma_multiply_divide_lt;
use vstd::prelude::*;

use crate::input::Axis;

verus! {

/// One cell of the grid: a value in 0..=9 where 0 means empty, plus a flag
/// marking an immutable starting clue. The flag is an extension point: the
/// current model carries it but does not yet reject writes to such cells.
#[derive(Clone, Copy, PartialEq, Eq, Structural, Debug)]
pub struct Cell {
    pub value: u8,
    pub given: bool,
}

/// Whether 81 cell values (row-major, 0 meaning empty) form a completely
/// and correctly filled sudoku grid. The verdict is computed by the external
/// checking library and depends on the values alone.
pub uninterp spec fn solved_grid(values: Seq<u8>) -> bool;

/// Mathematical model of a board: the grid values and clue flags in
/// row-major order, the selection cursor as `(column, row)`, and the
/// solved flag.
#[verifier::ext_equal]
pub struct BoardModel {
    pub grid: Seq<u8>,
    pub given: Seq<bool>,
    pub selected: Option<(int, int)>,
    pub solved: bool,
}

impl BoardModel {
    /// Well-formedness: 81 cells, every value at most 9, and the selection,
    /// if present, inside the grid.
    pub open spec fn wf(self) -> bool {
        &&& self.grid.len() == 81
        &&& self.given.len() == 81
        &&& (forall|i: int| 0 <= i < 81 ==> #[trigger] self.grid[i] <= 9)
        &&& match self.selected {
            Some(p) => 0 <= p.0 < 9 && 0 <= p.1 < 9,
            None => true,
        }
    }

    /// Row-major index of the cell in column `col`, row `row`.
    pub open spec fn cell_index(col: int, row: int) -> int {
        row * 9 + col
    }

    /// The value in column `col`, row `row`.
    pub open spec fn value_at(self, col: int, row: int) -> u8 {
        self.grid[Self::cell_index(col, row)]
    }

    /// One selection step along an axis, clamped to [0, 8]: moving past an
    /// edge has no effect.
    pub open spec fn clamp_step(v: int, positive: bool) -> int {
        if positive {
            if v < 8 {
                v + 1
            } else {
                8
            }
        } else {
            if v > 0 {
                v - 1
            } else {
                0
            }
        }
    }

    /// Shift the selection by one clamped step along `axis`; with no cell
    /// selected this is a no-op.
    pub open spec fn move_selection(self, axis: Axis, positive: bool) -> BoardModel {
        match self.selected {
            None => self,
            Some(p) => {
                let q = match axis {
                    Axis::Horz => (Self::clamp_step(p.0, positive), p.1),
                    Axis::Vert => (p.0, Self::clamp_step(p.1, positive)),
                };
                BoardModel { grid: self.grid, given: self.given, selected: Some(q), solved: self.solved }
            },
        }
    }

    /// Write `value` at `(col, row)` and recompute the solved flag. A board
    /// that is already solved is immutable; a coordinate outside the grid or
    /// a value outside 1..=9 leaves the board unchanged.
    pub open spec fn set_cell(self, col: int, row: int, value: u8) -> BoardModel {
        if self.solved {
            self
        } else if 0 <= col < 9 && 0 <= row < 9 && 1 <= value <= 9 {
            let g = self.grid.update(Self::cell_index(col, row), value);
            BoardModel { grid: g, given: self.given, selected: self.selected, solved: solved_grid(g) }
        } else {
            self
        }
    }

    /// Select the cell containing the board-local point `(local_x, local_y)`
    /// on a board drawn `size` pixels wide; points outside the board are
    /// rejected, leaving the selection unchanged.
    pub open spec fn select_at(self, local_x: int, local_y: int, size: int) -> BoardModel {
        if 0 <= local_x < size && 0 <= local_y < size {
            BoardModel {
                grid: self.grid,
                given: self.given,
                selected: Some((local_x * 9 / size, local_y * 9 / size)),
                solved: self.solved,
            }
        } else {
            self
        }
    }
}

/// The grid of one puzzle with its selection cursor and solved flag.
pub struct Gameboard {
    pub cells: Vec<Cell>,
    pub selected_cell: Option<(usize, usize)>,
    pub solved: bool,
}

impl View for Gameboard {
    type V = BoardModel;

    open spec fn view(&self) -> BoardModel {
        BoardModel {
            grid: self.cells@.map_values(|c: Cell| c.value),
            given: self.cells@.map_values(|c: Cell| c.given),
            selected: match self.selected_cell {
                Some(p) => Some((p.0 as int, p.1 as int)),
                None => None,
            },
            solved: self.solved,
        }
    }
}

/// Relies on `sudoku::Sudoku::from_bytes_slice` and `sudoku::Sudoku::is_solved`:
/// for a slice of 81 values all at most 9 the parse always succeeds, and
/// `is_solved` decides whether the grid is completely and correctly filled,
/// a function of the cell values alone. A grid with an empty cell is never
/// reported solved: `is_solved` answers no at the first value outside 1..=9.
#[verifier::external_body]
fn solved_check(values: &Vec<u8>) -> (r: bool)
    requires
        values@.len() == 81,
        forall|i: int| 0 <= i < 81 ==> values@[i] <= 9,
    ensures
        r == solved_grid(values@),
        (exists|i: int| 0 <= i < 81 && values@[i] == 0) ==> !r,
{
    match sudoku::Sudoku::from_bytes_slice(values) {
        Ok(s) => s.is_solved(),
        Err(_) => false,
    }
}

impl Gameboard {
    /// Well-formedness of the executable board, stated over its model.
    pub open spec fn wf(self) -> bool {
        self@.wf()
    }

    /// An empty board: all cells 0 and mutable, nothing selected, unsolved.
    pub fn new() -> (r: Gameboard)
        ensures
            r.wf(),
            r@.grid.len() == 81,
            forall|i: int| 0 <= i < 81 ==> r@.grid[i] == 0,
            forall|i: int| 0 <= i < 81 ==> !r@.given[i],
            r@.selected is None,
            !r@.solved,
    {
        let mut cells: Vec<Cell> = Vec::new();
        let mut i: usize = 0;
        while i < 81
            invariant
                i == cells@.len(),
                i <= 81,
                forall|j: int| 0 <= j < i ==> cells@[j] == (Cell { value: 0u8, given: false }),
            decreases 81 - i,
        {
            cells.push(Cell { value: 0, given: false });
            i += 1;
        }
        Gameboard { cells, selected_cell: None, solved: false }
    }

    /// One clamped selection step in executable form.
    fn clamp_step(v: usize, positive: bool) -> (r: usize)
        requires
            v <= 8,
        ensures
            r <= 8,
            r == BoardModel::clamp_step(v as int, positive),
    {
        if positive {
            if v < 8 {
                v + 1
            } else {
                8
            }
        } else {
            if v > 0 {
                v - 1
            } else {
                0
            }
        }
    }

    /// Shifts the selected coordinate by one step along the given axis,
    /// clamped to the grid; a no-op when no cell is selected.
    pub fn move_selected_cell(&mut self, axis: Axis, positive: bool)
        requires
            old(self).wf(),
        ensures
            final(self).wf(),
            final(self)@ == old(self)@.move_selection(axis, positive),
    {
        match self.selected_cell {
            None => {},
            Some(p) => {
                let q = match axis {
                    Axis::Horz => (Self::clamp_step(p.0, positive), p.1),
                    Axis::Vert => (p.0, Self::clamp_step(p.1, positive)),
                };
                self.selected_cell = Some(q);
            },
        }
        proof {
            assert(self@ =~= old(self)@.move_selection(axis, positive));
        }
    }

    /// Whether the current grid is a completely and correctly filled sudoku,
    /// as the external checking library judges it.
    pub fn is_grid_solved(&self) -> (r: bool)
        requires
            self.wf(),
        ensures
            r == solved_grid(self@.grid),
            (exists|i: int| 0 <= i < 81 && self@.grid[i] == 0) ==> !r,
    {
        let mut vals: Vec<u8> = Vec::new();
        let mut i: usize = 0;
        while i < self.cells.len()
            invariant
                self.wf(),
                i == vals@.len(),
                i <= self.cells@.len(),
                self.cells@.len() == 81,
                forall|j: int| 0 <= j < i ==> vals@[j] == self@.grid[j],
            decreases self.cells@.len() - i,
        {
            vals.push(self.cells[i].value);
            i += 1;
        }
        proof {
            assert(vals@ =~= self@.grid);
        }
        solved_check(&vals)
    }

    /// Writes `value` at `coord = (column, row)` and recomputes the solved
    /// flag through the external check. Rejected as a no-op when the board is
    /// already solved, the coordinate is out of range, or the value is
    /// outside 1..=9.
    pub fn set(&mut self, coord: (usize, usize), value: u8)
        requires
            old(self).wf(),
        ensures
            final(self).wf(),
            final(self)@ == old(self)@.set_cell(coord.0 as int, coord.1 as int, value),
    {
        if !self.solved && coord.0 < 9 && coord.1 < 9 && 1 <= value && value <= 9 {
            let idx: usize = coord.1 * 9 + coord.0;
            let g = self.cells[idx].given;
            self.cells.set(idx, Cell { value, given: g });
            proof {
                assert(self@.grid =~= old(self)@.set_cell(
                    coord.0 as int,
                    coord.1 as int,
                    value,
                ).grid);
            }
            let now_solved = self.is_grid_solved();
            self.solved = now_solved;
        }
        proof {
            assert(self@ =~= old(self)@.set_cell(coord.0 as int, coord.1 as int, value));
        }
    }

    /// Selects the cell containing the board-local point `(local_x, local_y)`
    /// for a board drawn `size` pixels wide, by `floor(local * 9 / size)` per
    /// coordinate; points outside the board leave the selection unchanged.
    pub fn select_at(&mut self, local_x: i64, local_y: i64, size: i64)
        requires
            old(self).wf(),
            1 <= size <= 1_000_000_000,
        ensures
            final(self).wf(),
            final(self)@ == old(self)@.select_at(local_x as int, local_y as int, size as int),
    {
        if 0 <= local_x && local_x < size && 0 <= local_y && local_y < size {
            let cx: i64 = local_x * 9 / size;
            let cy: i64 = local_y * 9 / size;
            proof {
                lemma_div_pos_is_pos(local_x * 9, size as int);
                lemma_div_pos_is_pos(local_y * 9, size as int);
                lemma_multiply_divide_lt(local_x * 9, size as int, 9);
                lemma_multiply_divide_lt(local_y * 9, size as int, 9);
            }
            self.selected_cell = Some((cx as usize, cy as usize));
        }
        proof {
            assert(self@ =~= old(self)@.select_at(local_x as int, local_y as int, size as int));
        }
    }

    /// The value in column `col`, row `row`.
    pub fn value_at(&self, col: usize, row: usize) -> (r: u8)
        requires
            self.wf(),
            col < 9,
            row < 9,
        ensures
            r == self@.value_at(col as int, row as int),
    {
        self.cells[row * 9 + col].value
    }
}

/// Applying a sequence of axis moves to a board model, oldest first.
pub open spec fn apply_moves(m: BoardModel, moves: Seq<(Axis, bool)>) -> BoardModel
    decreases moves.len(),
{
    if moves.len() == 0 {
        m
    } else {
        apply_moves(m.move_selection(moves[0].0, moves[0].1), moves.drop_first())
    }
}

/// Selection clamping law: from any well-formed board, any sequence of axis
/// moves keeps the board well formed — the selected coordinate, if any, stays
/// within [0,8]×[0,8] — and touches nothing but the selection.
pub proof fn lemma_selection_clamped(m: BoardModel, moves: Seq<(Axis, bool)>)
    requires
        m.wf(),
    ensures
        apply_moves(m, moves).wf(),
        apply_moves(m, moves).grid == m.grid,
        apply_moves(m, moves).given == m.given,
        apply_moves(m, moves).solved == m.solved,
    decreases moves.len(),
{
    if moves.len() > 0 {
        let m1 = m.move_selection(moves[0].0, moves[0].1);
        assert(m1.wf());
        lemma_selection_clamped(m1, moves.drop_first());
    }
}

/// Edge law: a move in a direction whose edge the selection already sits on
/// changes nothing at all.
pub proof fn lemma_edge_move_noop(m: BoardModel, axis: Axis, positive: bool)
    requires
        m.wf(),
        m.selected matches Some(p) && (match axis {
            Axis::Horz => if positive { p.0 == 8 } else { p.0 == 0 },
            Axis::Vert => if positive { p.1 == 8 } else { p.1 == 0 },
        }),
    ensures
        m.move_selection(axis, positive) == m,
{
    assert(m.move_selection(axis, positive) =~= m);
}

/// Applying a sequence of cell writes `(column, row, value)` to a board
/// model, oldest first.
pub open spec fn apply_set_cells(m: BoardModel, ops: Seq<(int, int, u8)>) -> BoardModel
    decreases ops.len(),
{
    if ops.len() == 0 {
        m
    } else {
        apply_set_cells(m.set_cell(ops[0].0, ops[0].1, ops[0].2), ops.drop_first())
    }
}

/// One-way law: once a board is solved, no sequence of further cell writes
/// changes it at all — in particular `solved` never becomes false again.
pub proof fn lemma_solved_one_way(m: BoardModel, ops: Seq<(int, int, u8)>)
    requires
        m.solved,
    ensures
        apply_set_cells(m, ops) == m,
    decreases ops.len(),
{
    if ops.len() > 0 {
        lemma_solved_one_way(m, ops.drop_first());
    }
}

/// Mouse-to-cell mapping law: on a board of size at least 9, a click at the
/// centre point selects the centre cell (4, 4), and any point outside the
/// board leaves the model unchanged.
pub proof fn lemma_center_click(m: BoardModel, size: int)
    requires
        m.wf(),
        9 <= size,
    ensures
        m.select_at(size / 2, size / 2, size).selected == Some((4int, 4int)),
        forall|lx: int, ly: int|
            !(0 <= lx < size && 0 <= ly < size) ==> m.select_at(lx, ly, size) == m,
{
    let h = size / 2;
    lemma_fundamental_div_mod(size, 2);
    assert(2 * h <= size && size <= 2 * h + 1);
    assert(h >= 4);
    assert(4 * size <= 9 * h);
    assert(9 * h < 5 * size);
    lemma_fundamental_div_mod_converse_div(h * 9, size, 4, h * 9 - 4 * size);
    assert(m.select_at(h, h, size).selected == Some((h * 9 / size, h * 9 / size)));
}

} // verus!
