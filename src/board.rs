//! The nine-cell board, addressed by an index 0..=8 in row-major order.
use vstd::prelude::*;

verus! {

/// What a cell holds.
#[derive(Clone, Copy, Debug, PartialEq, Eq, Structural)]
pub enum Cell {
    Empty,
    X,
    O,
}

/// Number of cells on the board.
pub const BOARD_SIZE: usize = 9;

/// The board refuses an index outside 0..=8.
#[derive(Clone, Copy, Debug, PartialEq, Eq, Structural)]
pub enum BoardError {
    OutOfRange,
}

/// A board of nine cells.
pub struct Board {
    cells: Vec<Cell>,
}

/// Number of empty cells in `s`.
pub open spec fn empty_count(s: Seq<Cell>) -> nat
    decreases s.len(),
{
    if s.len() == 0 {
        0
    } else {
        empty_count(s.drop_last()) + if s.last() == Cell::Empty {
            1nat
        } else {
            0nat
        }
    }
}

/// The indices of the empty cells of `s`, in increasing order.
pub open spec fn empty_positions(s: Seq<Cell>) -> Seq<usize>
    decreases s.len(),
{
    if s.len() == 0 {
        Seq::empty()
    } else if s.last() == Cell::Empty {
        empty_positions(s.drop_last()).push((s.len() - 1) as usize)
    } else {
        empty_positions(s.drop_last())
    }
}

/// Nine empty cells.
pub open spec fn empty_board() -> Seq<Cell> {
    Seq::new(9, |i: int| Cell::Empty)
}

/// Every listed position is an empty cell of `s`, listed in increasing
/// order, and there are as many of them as there are empty cells.
pub proof fn lemma_empty_positions(s: Seq<Cell>)
    requires
        s.len() <= usize::MAX,
    ensures
        empty_positions(s).len() == empty_count(s),
        forall|k: int|
            0 <= k < empty_positions(s).len() ==> {
                &&& (empty_positions(s)[k] as int) < s.len()
                &&& s[empty_positions(s)[k] as int] == Cell::Empty
            },
        forall|k: int, m: int|
            0 <= k < m < empty_positions(s).len() ==> empty_positions(s)[k]
                < empty_positions(s)[m],
        forall|j: int|
            0 <= j < s.len() && s[j] == Cell::Empty ==> empty_positions(s).contains(j as usize),
    decreases s.len(),
{
    if s.len() > 0 {
        let t = s.drop_last();
        lemma_empty_positions(t);
        if s.last() == Cell::Empty {
            let p = empty_positions(t);
            assert(empty_positions(s) == p.push((s.len() - 1) as usize));
            assert forall|j: int| 0 <= j < s.len() && s[j] == Cell::Empty implies empty_positions(
                s,
            ).contains(j as usize) by {
                if j < s.len() - 1 {
                    assert(t[j] == s[j]);
                    let k = choose|k: int| 0 <= k < p.len() && p[k] == j as usize;
                    assert(empty_positions(s)[k] == j as usize);
                } else {
                    assert(empty_positions(s)[p.len() as int] == j as usize);
                }
            }
        } else {
            assert forall|j: int| 0 <= j < s.len() && s[j] == Cell::Empty implies empty_positions(
                s,
            ).contains(j as usize) by {
                assert(t[j] == s[j]);
            }
        }
    }
}

/// Writing a token into an empty cell leaves one empty cell fewer.
pub proof fn lemma_fill_one(s: Seq<Cell>, i: int, v: Cell)
    requires
        0 <= i < s.len(),
        s[i] == Cell::Empty,
        v != Cell::Empty,
    ensures
        empty_count(s.update(i, v)) + 1 == empty_count(s),
    decreases s.len(),
{
    let u = s.update(i, v);
    if i == s.len() - 1 {
        assert(u.drop_last() == s.drop_last());
    } else {
        assert(u.drop_last() == s.drop_last().update(i, v));
        lemma_fill_one(s.drop_last(), i, v);
    }
}

/// A board of nine empty cells has nine empty cells.
pub proof fn lemma_empty_board_count()
    ensures
        empty_count(empty_board()) == 9,
{
    let s = empty_board();
    assert(s.drop_last().drop_last().drop_last().drop_last().drop_last().drop_last().drop_last().drop_last().drop_last().len() == 0);
    reveal_with_fuel(empty_count, 10);
}

impl View for Board {
    type V = Seq<Cell>;

    closed spec fn view(&self) -> Seq<Cell> {
        self.cells@
    }
}

impl Board {
    /// A board holds exactly nine cells.
    pub open spec fn wf(&self) -> bool {
        self@.len() == 9
    }

    /// A board with every cell empty.
    pub fn new() -> (r: Board)
        ensures
            r.wf(),
            r@ == empty_board(),
    {
        let mut cells: Vec<Cell> = Vec::new();
        let mut i: usize = 0;
        while i < BOARD_SIZE
            invariant
                i <= BOARD_SIZE,
                cells@ == Seq::new(i as nat, |k: int| Cell::Empty),
            decreases BOARD_SIZE - i,
        {
            cells.push(Cell::Empty);
            i = i + 1;
            assert(cells@ == Seq::new(i as nat, |k: int| Cell::Empty));
        }
        Board { cells }
    }

    /// The cell at `index`, or `OutOfRange` past the last cell.
    pub fn get(&self, index: usize) -> (r: Result<Cell, BoardError>)
        requires
            self.wf(),
        ensures
            index < 9 ==> r == Ok::<Cell, BoardError>(self@[index as int]),
            index >= 9 ==> r == Err::<Cell, BoardError>(BoardError::OutOfRange),
    {
        if index < BOARD_SIZE {
            Ok(self.cells[index])
        } else {
            Err(BoardError::OutOfRange)
        }
    }

    /// Writes `value` at `index` whatever the cell held; `OutOfRange` and
    /// no change past the last cell.
    pub fn set(&mut self, index: usize, value: Cell) -> (r: Result<(), BoardError>)
        requires
            old(self).wf(),
        ensures
            final(self).wf(),
            index < 9 ==> r == Ok::<(), BoardError>(()) && final(self)@ == old(self)@.update(
                index as int,
                value,
            ),
            index >= 9 ==> r == Err::<(), BoardError>(BoardError::OutOfRange) && final(self)@
                == old(self)@,
    {
        if index < BOARD_SIZE {
            self.cells.set(index, value);
            Ok(())
        } else {
            Err(BoardError::OutOfRange)
        }
    }

    /// Empties every cell.
    pub fn reset(&mut self)
        requires
            old(self).wf(),
        ensures
            final(self).wf(),
            final(self)@ == empty_board(),
    {
        let mut i: usize = 0;
        while i < BOARD_SIZE
            invariant
                i <= BOARD_SIZE,
                self.cells@.len() == 9,
                forall|k: int| 0 <= k < i ==> self.cells@[k] == Cell::Empty,
            decreases BOARD_SIZE - i,
        {
            self.cells.set(i, Cell::Empty);
            i = i + 1;
        }
        assert(self.cells@ == empty_board());
    }

    /// How many cells are empty.
    pub fn count_empty(&self) -> (r: usize)
        requires
            self.wf(),
        ensures
            r == empty_count(self@),
    {
        let mut n: usize = 0;
        let mut i: usize = 0;
        while i < BOARD_SIZE
            invariant
                i <= BOARD_SIZE,
                self@.len() == 9,
                n == empty_count(self@.subrange(0, i as int)),
                n <= i,
            decreases BOARD_SIZE - i,
        {
            assert(self@.subrange(0, i + 1).drop_last() == self@.subrange(0, i as int));
            if self.cells[i] == Cell::Empty {
                n = n + 1;
            }
            i = i + 1;
        }
        assert(self@.subrange(0, 9) == self@);
        n
    }

    /// The indices of the empty cells, in increasing order.
    pub fn empty_indices(&self) -> (r: Vec<usize>)
        requires
            self.wf(),
        ensures
            r@ == empty_positions(self@),
    {
        let mut r: Vec<usize> = Vec::new();
        let mut i: usize = 0;
        while i < BOARD_SIZE
            invariant
                i <= BOARD_SIZE,
                self@.len() == 9,
                r@ == empty_positions(self@.subrange(0, i as int)),
            decreases BOARD_SIZE - i,
        {
            assert(self@.subrange(0, i + 1).drop_last() == self@.subrange(0, i as int));
            if self.cells[i] == Cell::Empty {
                r.push(i);
            }
            i = i + 1;
        }
        assert(self@.subrange(0, 9) == self@);
        r
    }
}

} // verus!
