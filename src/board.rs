use vstd::prelude::*;

verus! {

/// Number of cells on the 3×3 grid.
pub const CELLS: usize = 9;

/// Number of winning lines: three rows, three columns, two diagonals.
pub const LINES: usize = 8;

/// One cell of the grid.
#[derive(Clone, Copy, Debug, PartialEq, Eq, Structural)]
pub enum Cell {
    Empty,
    X,
    O,
}

/// The two seats of a game.
#[derive(Clone, Copy, Debug, PartialEq, Eq, Structural)]
pub enum Role {
    X,
    O,
}

/// The grid, row-major: cell `x * 3 + y` is row `x`, column `y`.
pub type Board = [Cell; 9];

pub open spec fn mark_of(role: Role) -> Cell {
    match role {
        Role::X => Cell::X,
        Role::O => Cell::O,
    }
}

pub open spec fn other_role(role: Role) -> Role {
    match role {
        Role::X => Role::O,
        Role::O => Role::X,
    }
}

/// The cells of winning line `k`, in the fixed order: rows, columns, diagonals.
pub open spec fn line(k: int) -> (int, int, int) {
    if k == 0 {
        (0, 1, 2)
    } else if k == 1 {
        (3, 4, 5)
    } else if k == 2 {
        (6, 7, 8)
    } else if k == 3 {
        (0, 3, 6)
    } else if k == 4 {
        (1, 4, 7)
    } else if k == 5 {
        (2, 5, 8)
    } else if k == 6 {
        (0, 4, 8)
    } else {
        (2, 4, 6)
    }
}

/// Line `k` holds three equal markers.
pub open spec fn uniform(b: Seq<Cell>, k: int) -> bool {
    let (p, q, r) = line(k);
    b[p] != Cell::Empty && b[p] == b[q] && b[q] == b[r]
}

/// The first uniform line in enumeration order, if any.
pub open spec fn first_uniform(b: Seq<Cell>) -> Option<int> {
    if uniform(b, 0) {
        Some(0)
    } else if uniform(b, 1) {
        Some(1)
    } else if uniform(b, 2) {
        Some(2)
    } else if uniform(b, 3) {
        Some(3)
    } else if uniform(b, 4) {
        Some(4)
    } else if uniform(b, 5) {
        Some(5)
    } else if uniform(b, 6) {
        Some(6)
    } else if uniform(b, 7) {
        Some(7)
    } else {
        None
    }
}

pub open spec fn has_uniform(b: Seq<Cell>) -> bool {
    exists|k: int| 0 <= k < 8 && uniform(b, k)
}

/// The marker that owns the first uniform line.
pub open spec fn winner(b: Seq<Cell>) -> Option<Cell> {
    match first_uniform(b) {
        Some(k) => Some(b[line(k).0]),
        None => None,
    }
}

/// No cell is empty.
pub open spec fn is_full(b: Seq<Cell>) -> bool {
    forall|i: int| 0 <= i < b.len() ==> b[i] != Cell::Empty
}

/// Number of non-empty cells.
pub open spec fn filled(b: Seq<Cell>) -> nat
    decreases b.len(),
{
    if b.len() == 0 {
        0
    } else {
        filled(b.drop_last()) + if b.last() != Cell::Empty {
            1nat
        } else {
            0nat
        }
    }
}

/// Number of cells holding `c`.
pub open spec fn count_of(b: Seq<Cell>, c: Cell) -> nat
    decreases b.len(),
{
    if b.len() == 0 {
        0
    } else {
        count_of(b.drop_last(), c) + if b.last() == c {
            1nat
        } else {
            0nat
        }
    }
}

pub fn mark(role: Role) -> (r: Cell)
    ensures
        r == mark_of(role),
{
    match role {
        Role::X => Cell::X,
        Role::O => Cell::O,
    }
}

pub fn other(role: Role) -> (r: Role)
    ensures
        r == other_role(role),
{
    match role {
        Role::X => Role::O,
        Role::O => Role::X,
    }
}

fn line_cells(k: usize) -> (r: (usize, usize, usize))
    requires
        k < 8,
    ensures
        r.0 as int == line(k as int).0,
        r.1 as int == line(k as int).1,
        r.2 as int == line(k as int).2,
        r.0 < 9 && r.1 < 9 && r.2 < 9,
{
    if k == 0 {
        (0, 1, 2)
    } else if k == 1 {
        (3, 4, 5)
    } else if k == 2 {
        (6, 7, 8)
    } else if k == 3 {
        (0, 3, 6)
    } else if k == 4 {
        (1, 4, 7)
    } else if k == 5 {
        (2, 5, 8)
    } else if k == 6 {
        (0, 4, 8)
    } else {
        (2, 4, 6)
    }
}

/// The first uniform line is uniform, and none comes before it.
pub proof fn lemma_first_uniform(b: Seq<Cell>)
    ensures
        first_uniform(b) is None <==> !has_uniform(b),
        first_uniform(b) matches Some(k) ==> 0 <= k < 8 && uniform(b, k) && forall|j: int|
            0 <= j < k ==> !uniform(b, j),
{
    if has_uniform(b) {
        let w = choose|w: int| 0 <= w < 8 && uniform(b, w);
        assert(uniform(b, w));
    }
}

/// Finds the first uniform line of `board`, in enumeration order.
pub fn find_uniform_line(board: &Board) -> (r: Option<usize>)
    ensures
        r matches Some(k) ==> k < 8 && first_uniform(board@) == Some(k as int),
        r is None ==> first_uniform(board@) is None,
{
    let mut k: usize = 0;
    while k < LINES
        invariant
            0 <= k <= 8,
            board@.len() == 9,
            forall|j: int| 0 <= j < k ==> !uniform(board@, j),
        decreases 8 - k,
    {
        let (p, q, s) = line_cells(k);
        if board[p] != Cell::Empty && board[p] == board[q] && board[q] == board[s] {
            return Some(k);
        }
        k = k + 1;
    }
    None
}

/// The marker of the first uniform line of `board`, if any.
pub fn detect_winner(board: &Board) -> (r: Option<Cell>)
    ensures
        r == winner(board@),
{
    match find_uniform_line(board) {
        Some(k) => {
            let (p, _, _) = line_cells(k);
            Some(board[p])
        },
        None => None,
    }
}

/// Tells whether every cell of `board` is taken.
pub fn board_is_full(board: &Board) -> (r: bool)
    ensures
        r == is_full(board@),
{
    let mut i: usize = 0;
    while i < CELLS
        invariant
            0 <= i <= 9,
            board@.len() == 9,
            forall|j: int| 0 <= j < i ==> board@[j] != Cell::Empty,
        decreases 9 - i,
    {
        if board[i] == Cell::Empty {
            return false;
        }
        i = i + 1;
    }
    true
}

/// Counts the non-empty cells of `board`.
pub fn count_filled(board: &Board) -> (r: usize)
    ensures
        r as nat == filled(board@),
{
    let mut n: usize = 0;
    let mut i: usize = 0;
    while i < CELLS
        invariant
            0 <= i <= 9,
            board@.len() == 9,
            n as nat == filled(board@.subrange(0, i as int)),
            n <= i,
        decreases 9 - i,
    {
        proof {
            assert(board@.subrange(0, i + 1).drop_last() =~= board@.subrange(0, i as int));
        }
        if board[i] != Cell::Empty {
            n = n + 1;
        }
        i = i + 1;
    }
    assert(board@.subrange(0, 9) =~= board@);
    n
}

/// Tells whether some line of `board` holds three equal markers.
pub fn board_has_line(board: &Board) -> (r: bool)
    ensures
        r == has_uniform(board@),
{
    proof {
        lemma_first_uniform(board@);
    }
    find_uniform_line(board).is_some()
}

/// Writing a marker into an empty cell fills exactly one more cell.
pub proof fn lemma_filled_update(b: Seq<Cell>, i: int, c: Cell)
    requires
        0 <= i < b.len(),
        b[i] == Cell::Empty,
        c != Cell::Empty,
    ensures
        filled(b.update(i, c)) == filled(b) + 1,
    decreases b.len(),
{
    let u = b.update(i, c);
    if i == b.len() - 1 {
        assert(u.drop_last() =~= b.drop_last());
    } else {
        assert(u.drop_last() =~= b.drop_last().update(i, c));
        lemma_filled_update(b.drop_last(), i, c);
    }
}

/// Writing marker `c` into an empty cell adds one `c` and leaves the count of every other
/// marker as it was.
pub proof fn lemma_count_update(b: Seq<Cell>, i: int, c: Cell, d: Cell)
    requires
        0 <= i < b.len(),
        b[i] == Cell::Empty,
        c != Cell::Empty,
        d != Cell::Empty,
    ensures
        count_of(b.update(i, c), d) == count_of(b, d) + if d == c {
            1nat
        } else {
            0nat
        },
    decreases b.len(),
{
    let u = b.update(i, c);
    if i == b.len() - 1 {
        assert(u.drop_last() =~= b.drop_last());
    } else {
        assert(u.drop_last() =~= b.drop_last().update(i, c));
        lemma_count_update(b.drop_last(), i, c, d);
    }
}

/// An empty grid holds no marker.
pub proof fn lemma_count_empty(b: Seq<Cell>, d: Cell)
    requires
        forall|i: int| 0 <= i < b.len() ==> b[i] == Cell::Empty,
        d != Cell::Empty,
    ensures
        count_of(b, d) == 0,
    decreases b.len(),
{
    if b.len() > 0 {
        lemma_count_empty(b.drop_last(), d);
    }
}

/// A grid with no empty cell has all its cells filled, and an empty one none.
pub proof fn lemma_filled_bounds(b: Seq<Cell>)
    ensures
        filled(b) <= b.len(),
        is_full(b) ==> filled(b) == b.len(),
        (forall|i: int| 0 <= i < b.len() ==> b[i] == Cell::Empty) <==> filled(b) == 0,
    decreases b.len(),
{
    if b.len() > 0 {
        lemma_filled_bounds(b.drop_last());
        if filled(b) == 0 {
            assert forall|i: int| 0 <= i < b.len() implies b[i] == Cell::Empty by {
                if i < b.len() - 1 {
                    assert(b[i] == b.drop_last()[i]);
                }
            }
        }
    }
}

} // verus!
