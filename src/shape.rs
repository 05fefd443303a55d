use vstd::prelude::*;

use crate::block::Color;

verus! {

/// The seven kinds of piece.
#[derive(Clone, Copy, Debug, PartialEq, Eq, Structural)]
pub enum Type {
    I,
    S,
    Z,
    O,
    J,
    L,
    T,
}

/// A grid row from its four entries, left to right.
pub open spec fn row(a: u8, b: u8, c: u8, d: u8) -> Seq<u8> {
    seq![a, b, c, d]
}

/// A grid from its four rows, top to bottom.
pub open spec fn rows(a: Seq<u8>, b: Seq<u8>, c: Seq<u8>, d: Seq<u8>) -> Seq<Seq<u8>> {
    seq![a, b, c, d]
}

/// The 4x4 occupancy grid of a kind of piece in a rotation state, indexed
/// `[row][column]`; a 1 marks an occupied cell. The O piece looks the same in
/// every state.
pub open spec fn grid(t: Type, s: int) -> Seq<Seq<u8>> {
    match t {
        Type::I => if s == 0 {
            rows(row(0, 0, 0, 0), row(1, 1, 1, 1), row(0, 0, 0, 0), row(0, 0, 0, 0))
        } else if s == 1 {
            rows(row(0, 0, 1, 0), row(0, 0, 1, 0), row(0, 0, 1, 0), row(0, 0, 1, 0))
        } else if s == 2 {
            rows(row(0, 0, 0, 0), row(0, 0, 0, 0), row(1, 1, 1, 1), row(0, 0, 0, 0))
        } else {
            rows(row(0, 1, 0, 0), row(0, 1, 0, 0), row(0, 1, 0, 0), row(0, 1, 0, 0))
        },
        Type::T => if s == 0 {
            rows(row(1, 1, 1, 0), row(0, 1, 0, 0), row(0, 0, 0, 0), row(0, 0, 0, 0))
        } else if s == 1 {
            rows(row(0, 0, 1, 0), row(0, 1, 1, 0), row(0, 0, 1, 0), row(0, 0, 0, 0))
        } else if s == 2 {
            rows(row(0, 0, 0, 0), row(0, 1, 0, 0), row(1, 1, 1, 0), row(0, 0, 0, 0))
        } else {
            rows(row(1, 0, 0, 0), row(1, 1, 0, 0), row(1, 0, 0, 0), row(0, 0, 0, 0))
        },
        Type::L => if s == 0 {
            rows(row(0, 1, 0, 0), row(0, 1, 0, 0), row(0, 1, 1, 0), row(0, 0, 0, 0))
        } else if s == 1 {
            rows(row(0, 0, 0, 0), row(1, 1, 1, 0), row(1, 0, 0, 0), row(0, 0, 0, 0))
        } else if s == 2 {
            rows(row(1, 1, 0, 0), row(0, 1, 0, 0), row(0, 1, 0, 0), row(0, 0, 0, 0))
        } else {
            rows(row(0, 0, 1, 0), row(1, 1, 1, 0), row(0, 0, 0, 0), row(0, 0, 0, 0))
        },
        Type::J => if s == 0 {
            rows(row(0, 1, 0, 0), row(0, 1, 0, 0), row(1, 1, 0, 0), row(0, 0, 0, 0))
        } else if s == 1 {
            rows(row(1, 0, 0, 0), row(1, 1, 1, 0), row(0, 0, 0, 0), row(0, 0, 0, 0))
        } else if s == 2 {
            rows(row(0, 1, 1, 0), row(0, 1, 0, 0), row(0, 1, 0, 0), row(0, 0, 0, 0))
        } else {
            rows(row(0, 0, 0, 0), row(1, 1, 1, 0), row(0, 0, 1, 0), row(0, 0, 0, 0))
        },
        Type::O => rows(row(0, 1, 1, 0), row(0, 1, 1, 0), row(0, 0, 0, 0), row(0, 0, 0, 0)),
        Type::Z => if s == 0 {
            rows(row(1, 1, 0, 0), row(0, 1, 1, 0), row(0, 0, 0, 0), row(0, 0, 0, 0))
        } else if s == 1 {
            rows(row(0, 0, 1, 0), row(0, 1, 1, 0), row(0, 1, 0, 0), row(0, 0, 0, 0))
        } else if s == 2 {
            rows(row(0, 0, 0, 0), row(1, 1, 0, 0), row(0, 1, 1, 0), row(0, 0, 0, 0))
        } else {
            rows(row(0, 1, 0, 0), row(1, 1, 0, 0), row(1, 0, 0, 0), row(0, 0, 0, 0))
        },
        Type::S => if s == 0 {
            rows(row(0, 1, 1, 0), row(1, 1, 0, 0), row(0, 0, 0, 0), row(0, 0, 0, 0))
        } else if s == 1 {
            rows(row(0, 1, 0, 0), row(0, 1, 1, 0), row(0, 0, 1, 0), row(0, 0, 0, 0))
        } else if s == 2 {
            rows(row(0, 0, 0, 0), row(0, 1, 1, 0), row(1, 1, 0, 0), row(0, 0, 0, 0))
        } else {
            rows(row(1, 0, 0, 0), row(1, 1, 0, 0), row(0, 1, 0, 0), row(0, 0, 0, 0))
        },
    }
}

/// Whether the cell at `[r][c]` of a kind's grid in state `s` is occupied.
pub open spec fn filled(t: Type, s: int, r: int, c: int) -> bool {
    grid(t, s)[r][c] == 1
}

/// The number of 1s among the first `c` entries of a grid row.
pub open spec fn ones(row: Seq<u8>, c: int) -> nat
    decreases c,
{
    if c <= 0 {
        0
    } else {
        ones(row, c - 1) + if row[c - 1] == 1 {
            1nat
        } else {
            0nat
        }
    }
}

/// The number of occupied cells of a grid.
pub open spec fn grid_count(g: Seq<Seq<u8>>) -> nat {
    ones(g[0], 4) + ones(g[1], 4) + ones(g[2], 4) + ones(g[3], 4)
}

/// The 1s of a row written out, one term per entry.
pub open spec fn ones4(row: Seq<u8>) -> nat {
    (if row[0] == 1 { 1nat } else { 0nat }) + (if row[1] == 1 { 1nat } else { 0nat }) + (if row[2]
        == 1 { 1nat } else { 0nat }) + (if row[3] == 1 { 1nat } else { 0nat })
}

/// Counting the 1s of a row one by one agrees with the written-out sum.
pub proof fn lemma_ones4(row: Seq<u8>)
    ensures
        ones(row, 4) == ones4(row),
{
    reveal_with_fuel(ones, 5);
}

/// Every kind of piece has four occupied cells in each rotation state.
pub proof fn lemma_four_per_grid(t: Type, s: int)
    ensures
        grid_count(grid(t, s)) == 4,
{
    let g = grid(t, s);
    lemma_ones4(g[0]);
    lemma_ones4(g[1]);
    lemma_ones4(g[2]);
    lemma_ones4(g[3]);
    match t {
        Type::O => {},
        _ => {
            if s == 0 {
            } else if s == 1 {
            } else if s == 2 {
            } else {
            }
        },
    }
}

/// An executable 4x4 grid holds the same cells as `m`.
pub open spec fn same_grid(g: [[u8; 4]; 4], m: Seq<Seq<u8>>) -> bool {
    forall|r: int, c: int| 0 <= r < 4 && 0 <= c < 4 ==> #[trigger] g[r][c] == m[r][c]
}

/// The grid of kind `t` in rotation state `s`.
pub fn grid_of(t: Type, s: u8) -> (g: [[u8; 4]; 4])
    requires
        s < 4,
    ensures
        same_grid(g, grid(t, s as int)),
{
    match t {
        Type::I => if s == 0 {
            [[0, 0, 0, 0], [1, 1, 1, 1], [0, 0, 0, 0], [0, 0, 0, 0]]
        } else if s == 1 {
            [[0, 0, 1, 0], [0, 0, 1, 0], [0, 0, 1, 0], [0, 0, 1, 0]]
        } else if s == 2 {
            [[0, 0, 0, 0], [0, 0, 0, 0], [1, 1, 1, 1], [0, 0, 0, 0]]
        } else {
            [[0, 1, 0, 0], [0, 1, 0, 0], [0, 1, 0, 0], [0, 1, 0, 0]]
        },
        Type::T => if s == 0 {
            [[1, 1, 1, 0], [0, 1, 0, 0], [0, 0, 0, 0], [0, 0, 0, 0]]
        } else if s == 1 {
            [[0, 0, 1, 0], [0, 1, 1, 0], [0, 0, 1, 0], [0, 0, 0, 0]]
        } else if s == 2 {
            [[0, 0, 0, 0], [0, 1, 0, 0], [1, 1, 1, 0], [0, 0, 0, 0]]
        } else {
            [[1, 0, 0, 0], [1, 1, 0, 0], [1, 0, 0, 0], [0, 0, 0, 0]]
        },
        Type::L => if s == 0 {
            [[0, 1, 0, 0], [0, 1, 0, 0], [0, 1, 1, 0], [0, 0, 0, 0]]
        } else if s == 1 {
            [[0, 0, 0, 0], [1, 1, 1, 0], [1, 0, 0, 0], [0, 0, 0, 0]]
        } else if s == 2 {
            [[1, 1, 0, 0], [0, 1, 0, 0], [0, 1, 0, 0], [0, 0, 0, 0]]
        } else {
            [[0, 0, 1, 0], [1, 1, 1, 0], [0, 0, 0, 0], [0, 0, 0, 0]]
        },
        Type::J => if s == 0 {
            [[0, 1, 0, 0], [0, 1, 0, 0], [1, 1, 0, 0], [0, 0, 0, 0]]
        } else if s == 1 {
            [[1, 0, 0, 0], [1, 1, 1, 0], [0, 0, 0, 0], [0, 0, 0, 0]]
        } else if s == 2 {
            [[0, 1, 1, 0], [0, 1, 0, 0], [0, 1, 0, 0], [0, 0, 0, 0]]
        } else {
            [[0, 0, 0, 0], [1, 1, 1, 0], [0, 0, 1, 0], [0, 0, 0, 0]]
        },
        Type::O => [[0, 1, 1, 0], [0, 1, 1, 0], [0, 0, 0, 0], [0, 0, 0, 0]],
        Type::Z => if s == 0 {
            [[1, 1, 0, 0], [0, 1, 1, 0], [0, 0, 0, 0], [0, 0, 0, 0]]
        } else if s == 1 {
            [[0, 0, 1, 0], [0, 1, 1, 0], [0, 1, 0, 0], [0, 0, 0, 0]]
        } else if s == 2 {
            [[0, 0, 0, 0], [1, 1, 0, 0], [0, 1, 1, 0], [0, 0, 0, 0]]
        } else {
            [[0, 1, 0, 0], [1, 1, 0, 0], [1, 0, 0, 0], [0, 0, 0, 0]]
        },
        Type::S => if s == 0 {
            [[0, 1, 1, 0], [1, 1, 0, 0], [0, 0, 0, 0], [0, 0, 0, 0]]
        } else if s == 1 {
            [[0, 1, 0, 0], [0, 1, 1, 0], [0, 0, 1, 0], [0, 0, 0, 0]]
        } else if s == 2 {
            [[0, 0, 0, 0], [0, 1, 1, 0], [1, 1, 0, 0], [0, 0, 0, 0]]
        } else {
            [[1, 0, 0, 0], [1, 1, 0, 0], [0, 1, 0, 0], [0, 0, 0, 0]]
        },
    }
}

/// The colour that a kind of piece paints its cells with.
pub open spec fn type_color(t: Type) -> Color {
    match t {
        Type::I => Color { r: 255, g: 0, b: 0 },
        Type::J => Color { r: 0, g: 255, b: 0 },
        Type::L => Color { r: 0, g: 0, b: 255 },
        Type::O => Color { r: 255, g: 125, b: 0 },
        Type::S => Color { r: 0, g: 255, b: 125 },
        Type::T => Color { r: 125, g: 0, b: 255 },
        Type::Z => Color { r: 125, g: 255, b: 125 },
    }
}

/// The kind that a random byte picks: its remainder by 7 indexes the list
/// I, O, T, S, Z, J, L.
pub open spec fn type_of_roll(n: u8) -> Type {
    let i = n % 7;
    if i == 0 {
        Type::I
    } else if i == 1 {
        Type::O
    } else if i == 2 {
        Type::T
    } else if i == 3 {
        Type::S
    } else if i == 4 {
        Type::Z
    } else if i == 5 {
        Type::J
    } else {
        Type::L
    }
}

impl Type {
    /// The kind that the random byte `n` picks.
    pub fn from_roll(n: u8) -> (r: Type)
        ensures
            r == type_of_roll(n),
    {
        let pieces = [Type::I, Type::O, Type::T, Type::S, Type::Z, Type::J, Type::L];
        pieces[(n % 7) as usize]
    }

    /// The colour of this kind of piece.
    pub fn color(&self) -> (r: Color)
        ensures
            r == type_color(*self),
    {
        match self {
            Type::I => Color { r: 255, g: 0, b: 0 },
            Type::J => Color { r: 0, g: 255, b: 0 },
            Type::L => Color { r: 0, g: 0, b: 255 },
            Type::O => Color { r: 255, g: 125, b: 0 },
            Type::S => Color { r: 0, g: 255, b: 125 },
            Type::T => Color { r: 125, g: 0, b: 255 },
            Type::Z => Color { r: 125, g: 255, b: 125 },
        }
    }
}

/// Whether column `c` of a grid holds an occupied cell.
pub open spec fn col_used(g: Seq<Seq<u8>>, c: int) -> bool {
    exists|r: int| 0 <= r < 4 && #[trigger] g[r][c] == 1
}

/// Whether row `r` of a grid holds an occupied cell.
pub open spec fn row_used(g: Seq<Seq<u8>>, r: int) -> bool {
    exists|c: int| 0 <= c < 4 && #[trigger] g[r][c] == 1
}

/// For each column of a grid, whether it is used.
pub open spec fn cols_of(g: Seq<Seq<u8>>) -> Seq<bool> {
    Seq::new(4, |c: int| col_used(g, c))
}

/// For each row of a grid, whether it is used.
pub open spec fn rows_of(g: Seq<Seq<u8>>) -> Seq<bool> {
    Seq::new(4, |r: int| row_used(g, r))
}

/// The first index at or after `i` that is set, or the length if none is.
pub open spec fn first_set(used: Seq<bool>, i: int) -> int
    decreases used.len() - i,
{
    if i >= used.len() {
        used.len() as int
    } else if used[i] {
        i
    } else {
        first_set(used, i + 1)
    }
}

/// The last index before `i` that is set, or 0 if none is.
pub open spec fn last_set(used: Seq<bool>, i: int) -> int
    decreases i,
{
    if i <= 0 {
        0
    } else if used[i - 1] {
        i - 1
    } else {
        last_set(used, i - 1)
    }
}

/// Leftmost used column of a grid (4 if none).
pub open spec fn min_col(g: Seq<Seq<u8>>) -> int {
    first_set(cols_of(g), 0)
}

/// Rightmost used column of a grid (0 if none).
pub open spec fn max_col(g: Seq<Seq<u8>>) -> int {
    last_set(cols_of(g), 4)
}

/// Topmost used row of a grid (4 if none).
pub open spec fn min_row(g: Seq<Seq<u8>>) -> int {
    first_set(rows_of(g), 0)
}

/// Lowest used row of a grid (0 if none).
pub open spec fn max_row(g: Seq<Seq<u8>>) -> int {
    last_set(rows_of(g), 4)
}

/// `first_set` is a set index no smaller than `i` and below every set index
/// from `i` on, or the length; `last_set` is a set index above every set
/// index below `i`, or 0.
pub proof fn lemma_span(used: Seq<bool>, i: int, k: int)
    requires
        0 <= i <= used.len(),
        0 <= k < used.len(),
    ensures
        i <= first_set(used, i) <= used.len(),
        first_set(used, i) < used.len() ==> used[first_set(used, i)],
        i <= k && used[k] ==> first_set(used, i) <= k,
        0 <= last_set(used, i) && (i > 0 ==> last_set(used, i) < i),
        k < i && used[k] ==> k <= last_set(used, i),
    decreases used.len() - i,
{
    if i < used.len() {
        lemma_span(used, i + 1, k);
    }
    lemma_last(used, i, k);
}

proof fn lemma_last(used: Seq<bool>, i: int, k: int)
    requires
        0 <= i <= used.len(),
        0 <= k < used.len(),
    ensures
        0 <= last_set(used, i) && (i > 0 ==> last_set(used, i) < i),
        k < i && used[k] ==> k <= last_set(used, i),
    decreases i,
{
    if i > 0 {
        lemma_last(used, i - 1, k);
    }
}

/// The first and last set index of `used`, as `first_set` and `last_set`
/// give them.
pub fn span(used: [bool; 4]) -> (r: (usize, usize))
    ensures
        r.0 == first_set(used@, 0),
        r.1 == last_set(used@, 4),
{
    let mut lo: usize = 4;
    let mut k: usize = 0;
    while k < 4
        invariant
            0 <= k <= 4,
            used@.len() == 4,
            lo == first_set(used@, 4 - k),
        decreases 4 - k,
    {
        if used[3 - k] {
            lo = 3 - k;
        }
        k += 1;
    }
    let mut hi: usize = 0;
    let mut c: usize = 0;
    while c < 4
        invariant
            0 <= c <= 4,
            used@.len() == 4,
            hi == last_set(used@, c as int),
        decreases 4 - c,
    {
        if used[c] {
            hi = c;
        }
        c += 1;
    }
    (lo, hi)
}

} // verus!
