//! The core grid model: positions, per-cell state, conflict detection, and
//! the puzzle itself.

use vstd::prelude::*;

verus! {

/// The row-major linear index of the cell at `(row, col)`.
pub open spec fn index_of(row: int, col: int) -> int {
    row * 9 + col
}

/// One of the 81 cells of the grid, addressed by row and column.
#[derive(PartialEq, Eq, Clone, Copy, Structural)]
pub struct GamePos {
    pub row: i32,
    pub col: i32,
}

impl GamePos {
    /// Both coordinates lie on the 9x9 grid.
    pub open spec fn wf(self) -> bool {
        0 <= self.row < 9 && 0 <= self.col < 9
    }

    /// The linear, row-major index of this position.
    pub open spec fn index_spec(self) -> int {
        index_of(self.row as int, self.col as int)
    }

    pub fn at(row: i32, col: i32) -> (r: GamePos)
        ensures
            r.row == row,
            r.col == col,
    {
        GamePos { row, col }
    }

    pub fn from_index(idx: i32) -> (r: GamePos)
        requires
            0 <= idx <= 80,
        ensures
            r.row == idx / 9,
            r.col == idx % 9,
            r.wf(),
            r.index_spec() == idx,
    {
        let linear = idx as usize;
        let row = (linear / 9) as i32;
        let col = (linear % 9) as i32;

        GamePos { row, col }
    }

    pub fn to_index(&self) -> (r: usize)
        requires
            self.wf(),
        ensures
            r == self.index_spec(),
    {
        (self.row * 9 + self.col) as usize
    }

    pub fn aligned_with(&self, other: GamePos) -> (r: bool)
        ensures
            r == (other.col == self.col || other.row == self.row),
    {
        other.col == self.col || other.row == self.row
    }
}

/// Law: converting a linear index to a position and back yields the index,
/// for every index of the grid.
pub proof fn lemma_index_round_trip(idx: int)
    requires
        0 <= idx <= 80,
    ensures
        index_of(idx / 9, idx % 9) == idx,
{
}

/// What one cell holds: an immutable clue, a player guess, or per-digit
/// candidate pencil-marks (flag `i` stands for digit `i + 1`).
#[derive(Clone, Copy, Debug)]
pub enum CellState {
    Clue(u8),
    Guess(u8),
    Pencilmarks([bool; 9]),
}

impl CellState {
    /// The numeric value a state carries, if any; pencil-marks carry none.
    pub open spec fn value_of(self) -> Option<u8> {
        match self {
            CellState::Clue(v) => Some(v),
            CellState::Guess(v) => Some(v),
            CellState::Pencilmarks(_) => None,
        }
    }

    /// Two states conflict exactly when both carry a value and the values
    /// are equal.
    pub open spec fn conflicts_spec(self, other: CellState) -> bool {
        &&& self.value_of() is Some
        &&& other.value_of() is Some
        &&& self.value_of() == other.value_of()
    }

    /// A pencil-marks state with no candidate set: the default for every
    /// non-clue cell.
    pub open spec fn is_blank(self) -> bool {
        &&& self matches CellState::Pencilmarks(f)
        &&& forall|j: int| 0 <= j < 9 ==> !f@[j]
    }

    /// The candidate flags of a state as they stand after the normalization
    /// step of `toggle_candidate`: existing pencil-marks are kept, any other
    /// state normalizes to all-false.
    pub open spec fn norm_marks(self) -> Seq<bool> {
        match self {
            CellState::Pencilmarks(f) => f@,
            _ => Seq::new(9, |j: int| false),
        }
    }

    pub fn conflicts_with(self, other: CellState) -> (r: bool)
        ensures
            r == self.conflicts_spec(other),
    {
        let my_value = match self {
            CellState::Clue(v) => v,
            CellState::Guess(v) => v,
            CellState::Pencilmarks(_) => return false,
        };

        let their_value = match other {
            CellState::Clue(v) => v,
            CellState::Guess(v) => v,
            CellState::Pencilmarks(_) => return false,
        };

        my_value == their_value
    }
}

/// The candidate flags with the flag at `d` negated and all others kept.
pub open spec fn flip_mark(m: Seq<bool>, d: int) -> Seq<bool> {
    m.update(d, !m[d])
}

/// Law: conflict detection is symmetric.
pub proof fn lemma_conflicts_symmetric(a: CellState, b: CellState)
    ensures
        a.conflicts_spec(b) == b.conflicts_spec(a),
{
}

/// Law: a pencil-marks state never conflicts with any state.
pub proof fn lemma_pencilmarks_never_conflict(flags: [bool; 9], s: CellState)
    ensures
        !CellState::Pencilmarks(flags).conflicts_spec(s),
{
}

/// Law: toggling a candidate on a guessed cell yields pencil-marks with
/// exactly that candidate's flag set: the guess normalizes to an all-false
/// flag array before the flip.
pub proof fn lemma_toggle_on_guess(v: u8, d: int)
    requires
        0 <= d < 9,
    ensures
        forall|j: int|
            0 <= j < 9 ==> (flip_mark(CellState::Guess(v).norm_marks(), d)[j] <==> j == d),
{
}

/// Law: flipping the same candidate flag twice restores the flag array.
pub proof fn lemma_toggle_twice(m: Seq<bool>, d: int)
    requires
        0 <= d < m.len(),
    ensures
        flip_mark(flip_mark(m, d), d) == m,
{
    assert(flip_mark(flip_mark(m, d), d) =~= m);
}

/// A read-only projection of one cell, carrying what a renderer needs:
/// position, state, and a freshly computed row-conflict flag. Derived,
/// never authoritative.
#[derive(Clone, Copy)]
pub struct Cell {
    pub pos: GamePos,
    pub state: CellState,
    pub error: bool,
}

impl Cell {
    pub fn from_index(idx: i32, state: CellState, error: bool) -> (r: Cell)
        requires
            0 <= idx <= 80,
        ensures
            r.pos.row == idx / 9,
            r.pos.col == idx % 9,
            r.state == state,
            r.error == error,
    {
        Cell { pos: GamePos::from_index(idx), state, error }
    }
}

/// The state a seed value installs at construction: a clue when nonzero,
/// otherwise a blank pencil-marks cell.
pub open spec fn seeded_by(c: CellState, v: u8) -> bool {
    if v > 0 {
        c == CellState::Clue(v)
    } else {
        c.is_blank()
    }
}

/// Whether the cell at `(row, col)` value-conflicts with some other cell of
/// the same row. Columns are not scanned: the model only flags row
/// duplicates.
pub open spec fn row_conflict(cells: Seq<CellState>, row: int, col: int) -> bool {
    exists|c: int|
        0 <= c < 9 && c != col && cells[index_of(row, col)].conflicts_spec(
            cells[index_of(row, c)],
        )
}

/// A `Cell` projection agrees with the authoritative states `cells` at
/// linear index `i`.
pub open spec fn cell_snapshot(c: Cell, cells: Seq<CellState>, i: int) -> bool {
    &&& c.pos.row == i / 9
    &&& c.pos.col == i % 9
    &&& c.state == cells[i]
    &&& c.error == row_conflict(cells, i / 9, i % 9)
}

/// The single source of truth: all 81 cell states in row-major order.
pub struct Puzzle {
    cells: [CellState; 81],
}

impl View for Puzzle {
    type V = Seq<CellState>;

    closed spec fn view(&self) -> Seq<CellState> {
        self.cells@
    }
}

impl Puzzle {
    pub fn from(input: [u8; 81]) -> (r: Puzzle)
        requires
            forall|i: int| 0 <= i < 81 ==> input@[i] <= 9,
        ensures
            r@.len() == 81,
            forall|i: int| 0 <= i < 81 ==> seeded_by(#[trigger] r@[i], input@[i]),
    {
        let mut cells: [CellState; 81] = [CellState::Pencilmarks([false; 9]); 81];

        for idx in 0..81usize
            invariant
                forall|i: int| 0 <= i < idx ==> seeded_by(#[trigger] cells@[i], input@[i]),
                forall|i: int| idx <= i < 81 ==> (#[trigger] cells@[i]).is_blank(),
        {
            let value = input[idx];
            if value > 0 {
                cells[idx] = CellState::Clue(value);
            }
        }

        Puzzle { cells }
    }

    pub fn is_error(&self, pos: GamePos) -> (r: bool)
        requires
            pos.wf(),
        ensures
            r == row_conflict(self@, pos.row as int, pos.col as int),
    {
        let my_cell = self.state_at(&pos);

        // Scan this row for duplicates.
        for col in 0..9i32
            invariant
                pos.wf(),
                my_cell == self@[pos.index_spec()],
                forall|c: int|
                    0 <= c < col && c != pos.col ==> !self@[pos.index_spec()].conflicts_spec(
                        self@[index_of(pos.row as int, c)],
                    ),
        {
            if col != pos.col {
                // Skip `pos` itself: a cell never conflicts with its own value.
                let their_cell = self.state_at(&GamePos::at(pos.row, col));
                if my_cell.conflicts_with(their_cell) {
                    return true;
                }
            }
        }

        false
    }

    pub fn iter_cells(&self) -> (r: CellIter)
        ensures
            r.yielded() == 0,
            r.snapshot().len() == 81,
            forall|i: int| 0 <= i < 81 ==> cell_snapshot(#[trigger] r.snapshot()[i], self@, i),
    {
        let mut snapshot: Vec<Cell> = Vec::new();

        for idx in 0..81usize
            invariant
                snapshot@.len() == idx,
                forall|i: int| 0 <= i < idx ==> cell_snapshot(#[trigger] snapshot@[i], self@, i),
        {
            let pos = GamePos::from_index(idx as i32);
            let state = self.state_at(&pos);
            let error = self.is_error(pos);
            snapshot.push(Cell { pos, state, error });
        }

        CellIter { cells: snapshot, index: 0 }
    }

    pub fn clear(&mut self, pos: &GamePos)
        requires
            pos.wf(),
        ensures
            final(self)@.len() == old(self)@.len(),
            old(self)@[pos.index_spec()] is Clue ==> final(self)@ == old(self)@,
            !(old(self)@[pos.index_spec()] is Clue) ==> {
                &&& final(self)@[pos.index_spec()].is_blank()
                &&& forall|i: int|
                    0 <= i < old(self)@.len() && i != pos.index_spec() ==> final(self)@[i] == old(
                        self,
                    )@[i]
            },
    {
        if let CellState::Clue(_) = self.state_at(pos) {
            return ;
        }

        self.set_state_at(pos, CellState::Pencilmarks([false; 9]));
    }

    pub fn set_guess(&mut self, pos: &GamePos, candidate: u8)
        requires
            pos.wf(),
            1 <= candidate <= 9,
        ensures
            final(self)@.len() == old(self)@.len(),
            old(self)@[pos.index_spec()] is Clue ==> final(self)@ == old(self)@,
            !(old(self)@[pos.index_spec()] is Clue) ==> final(self)@ == old(self)@.update(
                pos.index_spec(),
                CellState::Guess(candidate),
            ),
    {
        if let CellState::Clue(_) = self.state_at(pos) {
            return ;
        }

        self.set_state_at(pos, CellState::Guess(candidate));
    }

    pub fn toggle_candidate(&mut self, pos: &GamePos, candidate: usize)
        requires
            pos.wf(),
            1 <= candidate <= 9,
        ensures
            final(self)@.len() == old(self)@.len(),
            old(self)@[pos.index_spec()] is Clue ==> final(self)@ == old(self)@,
            !(old(self)@[pos.index_spec()] is Clue) ==> {
                &&& (final(self)@[pos.index_spec()] matches CellState::Pencilmarks(g) && g@
                    == flip_mark(old(self)@[pos.index_spec()].norm_marks(), candidate - 1))
                &&& forall|i: int|
                    0 <= i < old(self)@.len() && i != pos.index_spec() ==> final(self)@[i] == old(
                        self,
                    )@[i]
            },
    {
        if let CellState::Guess(_) = self.state_at(pos) {
            self.set_state_at(pos, CellState::Pencilmarks([false; 9]));
        }

        match self.state_at(pos) {
            CellState::Clue(_) => {},
            CellState::Pencilmarks(candidates) => {
                let mut flags = candidates;
                let current_value = flags[candidate - 1];
                flags[candidate - 1] = !current_value;
                proof {
                    assert(flags@ =~= flip_mark(candidates@, candidate - 1));
                }
                self.set_state_at(pos, CellState::Pencilmarks(flags));
                proof {
                    assert(flip_mark(old(self)@[pos.index_spec()].norm_marks(), candidate - 1)
                        =~= flags@);
                }
            },
            CellState::Guess(_) => {
                // Unreachable: the normalization above removed any guess.
                assert(false);
            },
        }
    }

    pub fn state_at(&self, pos: &GamePos) -> (r: CellState)
        requires
            pos.wf(),
        ensures
            r == self@[pos.index_spec()],
    {
        self.cells[Puzzle::idx_of(pos)]
    }

    fn set_state_at(&mut self, pos: &GamePos, state: CellState)
        requires
            pos.wf(),
        ensures
            final(self)@ == old(self)@.update(pos.index_spec(), state),
    {
        let idx = Puzzle::idx_of(pos);
        self.cells[idx] = state;
    }

    fn idx_of(pos: &GamePos) -> (r: usize)
        requires
            pos.wf(),
        ensures
            r == pos.index_spec(),
    {
        ((pos.row * 9) + pos.col) as usize
    }
}

/// A restartable pass over the 81 cells of a puzzle, in increasing
/// linear-index order, as they stood when the pass was created.
pub struct CellIter {
    cells: Vec<Cell>,
    index: usize,
}

impl CellIter {
    /// The cell projections this pass yields, in order.
    pub closed spec fn snapshot(&self) -> Seq<Cell> {
        self.cells@
    }

    /// How many cells have been yielded so far.
    pub closed spec fn yielded(&self) -> int {
        self.index as int
    }

    pub fn next(&mut self) -> (r: Option<Cell>)
        ensures
            final(self).snapshot() == old(self).snapshot(),
            old(self).yielded() < old(self).snapshot().len() ==> {
                &&& r == Some(old(self).snapshot()[old(self).yielded()])
                &&& final(self).yielded() == old(self).yielded() + 1
            },
            old(self).yielded() >= old(self).snapshot().len() ==> {
                &&& r is None
                &&& final(self).yielded() == old(self).yielded()
            },
    {
        if self.index < self.cells.len() {
            let cell = self.cells[self.index];
            self.index = self.index + 1;

            Some(cell)
        } else {
            None
        }
    }
}

} // verus!
