use vstd::prelude::*;

use crate::block::{Color, WIDTH};
use crate::board::{hits, on_board, Board, HEIGHT};
use crate::shape::{
    cols_of, grid, grid_of, lemma_four_per_grid, lemma_ones4, lemma_span, max_col, max_row, min_col, min_row,
    ones, rows_of, same_grid, span, type_color, Type,
};

verus! {

/// Relies on `rand::random::<u8>`: a byte drawn from the thread's generator.
/// Nothing is known of its value.
#[verifier::external_body]
pub(crate) fn random_roll() -> (r: u8) {
    rand::random::<u8>()
}

/// The falling piece: its kind, its rotation state (0 to 3), the board
/// position of its 4x4 grid's top-left corner (`y` is negative while the
/// piece is above the board), and the screen position of the board.
#[derive(Clone, Copy, Debug, PartialEq, Eq, Structural)]
pub struct Tetrimino {
    pub tty: Type,
    pub state: u8,
    pub x: i32,
    pub y: i32,
    pub base_x: u16,
    pub base_y: u16,
}

impl Tetrimino {
    /// The grid of the piece's kind in its current state.
    pub open spec fn shape(self) -> Seq<Seq<u8>> {
        grid(self.tty, self.state as int)
    }

    /// The piece's occupied cells lie within the walls and above the floor,
    /// and its position is in range.
    pub open spec fn wf(self) -> bool {
        &&& self.state < 4
        &&& -4 <= self.x < 10
        &&& -4 <= self.y < 20
        &&& self.x + min_col(self.shape()) >= 0
        &&& self.x + max_col(self.shape()) < WIDTH
        &&& self.y + max_row(self.shape()) < HEIGHT
    }

    /// The board cells of row `r` of the grid, over its first `c` columns,
    /// when that row is on the board.
    pub open spec fn row_cells(self, r: int, c: int) -> Seq<(u16, u16)>
        decreases c,
    {
        if c <= 0 {
            seq![]
        } else {
            let prev = self.row_cells(r, c - 1);
            if self.shape()[r][c - 1] == 1 && self.y + r >= 0 {
                prev.push(((self.x + c - 1) as u16, (self.y + r) as u16))
            } else {
                prev
            }
        }
    }

    /// The board cells of the grid's first `r` rows, row by row.
    pub open spec fn rows_cells(self, r: int) -> Seq<(u16, u16)>
        decreases r,
    {
        if r <= 0 {
            seq![]
        } else {
            self.rows_cells(r - 1) + self.row_cells(r - 1, 4)
        }
    }

    /// The piece's occupied cells that are on the board, as `(x, y)`, in the
    /// order of its grid; cells above the board are left out.
    pub open spec fn visible_cells(self) -> Seq<(u16, u16)> {
        self.rows_cells(4)
    }

    /// The piece one row lower.
    pub open spec fn down(self) -> Tetrimino {
        Tetrimino { y: (self.y + 1) as i32, ..self }
    }

    /// The piece one column to the left.
    pub open spec fn left(self) -> Tetrimino {
        Tetrimino { x: (self.x - 1) as i32, ..self }
    }

    /// The piece one column to the right.
    pub open spec fn right(self) -> Tetrimino {
        Tetrimino { x: (self.x + 1) as i32, ..self }
    }

    /// The piece in its next rotation state.
    pub open spec fn turned(self) -> Tetrimino {
        Tetrimino { state: ((self.state + 1) % 4) as u8, ..self }
    }

    /// The piece can move one row down: it stays above the floor and its
    /// cells there are free.
    pub open spec fn can_down(self, b: Board) -> bool {
        &&& self.y + max_row(self.shape()) < HEIGHT - 1
        &&& !hits(b@, self.down().visible_cells())
    }

    /// The piece can move one column left: it stays inside the left wall and
    /// its cells there are free.
    pub open spec fn can_left(self, b: Board) -> bool {
        &&& self.x + min_col(self.shape()) > 0
        &&& !hits(b@, self.left().visible_cells())
    }

    /// The piece can move one column right: it stays inside the right wall
    /// and its cells there are free.
    pub open spec fn can_right(self, b: Board) -> bool {
        &&& self.x + max_col(self.shape()) < WIDTH - 1
        &&& !hits(b@, self.right().visible_cells())
    }

    /// The piece can take its next rotation state: there it stays inside the
    /// walls and above the floor, and its cells are free.
    pub open spec fn can_turn(self, b: Board) -> bool {
        let t = self.turned();
        &&& t.x + min_col(t.shape()) >= 0
        &&& t.x + max_col(t.shape()) < WIDTH
        &&& t.y + max_row(t.shape()) < HEIGHT
        &&& !hits(b@, t.visible_cells())
    }

    /// Every occupied cell of the piece's grid, on the board or above it,
    /// lies between the walls.
    pub open spec fn inside_walls(self) -> bool {
        forall|r: int, c: int|
            0 <= r < 4 && 0 <= c < 4 && #[trigger] self.shape()[r][c] == 1 ==> 0 <= self.x + c
                < WIDTH
    }

    /// The piece moved down until it cannot move further.
    pub open spec fn dropped(self, b: Board) -> Tetrimino
        decreases 20 - self.y,
    {
        if self.y < 20 && self.can_down(b) {
            self.down().dropped(b)
        } else {
            self
        }
    }

    /// The piece as it first appears: state 3, centred, four rows above the
    /// board.
    pub open spec fn start(b: Board, tty: Type) -> Tetrimino {
        Tetrimino { tty, state: 3, x: 3, y: -4i32, base_x: b.x, base_y: b.y }
    }

    /// The piece moved down, one row at a time, while it is above the top
    /// row and can move down.
    pub open spec fn spawn_descent(self, b: Board) -> Tetrimino
        decreases 20 - self.y,
    {
        if self.y < 0 && self.y < 20 && self.can_down(b) {
            self.down().spawn_descent(b)
        } else {
            self
        }
    }

    /// Bounds of the used columns and rows of the piece's grid.
    pub proof fn lemma_spans(self)
        ensures
            0 <= min_col(self.shape()) <= 4,
            0 <= max_col(self.shape()) <= 3,
            0 <= max_row(self.shape()) <= 3,
    {
        lemma_span(cols_of(self.shape()), 0, 0);
        lemma_span(cols_of(self.shape()), 4, 0);
        lemma_span(rows_of(self.shape()), 4, 0);
    }

    /// A well-formed piece has every occupied cell between the walls.
    pub proof fn lemma_inside_walls(self)
        requires
            self.wf(),
        ensures
            self.inside_walls(),
    {
        assert forall|r: int, c: int|
            0 <= r < 4 && 0 <= c < 4 && #[trigger] self.shape()[r][c] == 1 implies 0 <= self.x + c
            < WIDTH by {
            lemma_span(cols_of(self.shape()), 0, c);
            lemma_span(cols_of(self.shape()), 4, c);
            assert(cols_of(self.shape())[c]);
        }
    }

    /// Row `r` of the grid gives as many board cells as it has 1s, or none
    /// while it is above the board.
    proof fn lemma_row_len(self, r: int, c: int)
        requires
            0 <= r < 4,
            0 <= c <= 4,
        ensures
            self.row_cells(r, c).len() == if self.y + r >= 0 {
                ones(self.shape()[r], c)
            } else {
                0
            },
        decreases c,
    {
        if c > 0 {
            self.lemma_row_len(r, c - 1);
        }
    }

    /// A piece has at most four cells on the board, and exactly four once its
    /// topmost used row is on the board.
    pub proof fn lemma_four_cells(self)
        requires
            self.state < 4,
        ensures
            self.visible_cells().len() <= 4,
            self.y + min_row(self.shape()) >= 0 ==> self.visible_cells().len() == 4,
    {
        let g = self.shape();
        reveal_with_fuel(Tetrimino::rows_cells, 5);
        lemma_four_per_grid(self.tty, self.state as int);
        self.lemma_row_len(0, 4);
        self.lemma_row_len(1, 4);
        self.lemma_row_len(2, 4);
        self.lemma_row_len(3, 4);
        if self.y + min_row(g) >= 0 {
            assert forall|r: int| 0 <= r < 4 && self.y + r < 0 implies ones(g[r], 4) == 0 by {
                lemma_span(rows_of(g), 0, r);
                lemma_ones4(g[r]);
                assert(!rows_of(g)[r]);
                assert(!(g[r][0] == 1));
                assert(!(g[r][1] == 1));
                assert(!(g[r][2] == 1));
                assert(!(g[r][3] == 1));
            }
        }
    }

    /// While the whole grid is above the board, no cell of the piece is on it.
    proof fn lemma_hidden(self)
        requires
            self.y + 3 < 0,
        ensures
            self.visible_cells().len() == 0,
    {
        reveal_with_fuel(Tetrimino::rows_cells, 5);
        self.lemma_row_len(0, 4);
        self.lemma_row_len(1, 4);
        self.lemma_row_len(2, 4);
        self.lemma_row_len(3, 4);
    }

    /// The piece's grid in its current state.
    pub fn blocks(&self) -> (r: [[u8; 4]; 4])
        requires
            self.state < 4,
        ensures
            same_grid(r, self.shape()),
    {
        grid_of(self.tty, self.state)
    }

    /// The piece's occupied cells that are on the board, as `(x, y)`.
    pub fn blocks_not_free(&self) -> (r: Vec<(u16, u16)>)
        requires
            self.wf(),
        ensures
            r@ == self.visible_cells(),
            on_board(r@),
    {
        let g = self.blocks();
        let ghost sh = self.shape();
        let mut v: Vec<(u16, u16)> = Vec::new();
        let mut r: usize = 0;
        while r < 4
            invariant
                0 <= r <= 4,
                self.wf(),
                same_grid(g, sh),
                sh == self.shape(),
                v@ == self.rows_cells(r as int),
                on_board(v@),
            decreases 4 - r,
        {
            let ghost start = v@;
            let mut c: usize = 0;
            while c < 4
                invariant
                    0 <= r < 4,
                    0 <= c <= 4,
                    self.wf(),
                    same_grid(g, sh),
                    sh == self.shape(),
                    v@ == start + self.row_cells(r as int, c as int),
                    on_board(v@),
                decreases 4 - c,
            {
                if g[r][c] == 1 && self.y + (r as i32) >= 0 {
                    proof {
                        lemma_span(cols_of(sh), 0, c as int);
                        lemma_span(cols_of(sh), 4, c as int);
                        lemma_span(rows_of(sh), 4, r as int);
                        assert(cols_of(sh)[c as int]);
                        assert(rows_of(sh)[r as int]);
                    }
                    assert(0 <= self.x + c < WIDTH);
                    assert(0 <= self.y + r < HEIGHT);
                    let cell = ((self.x + c as i32) as u16, (self.y + r as i32) as u16);
                    assert(cell.0 < WIDTH && cell.1 < HEIGHT);
                    let ghost pre = v@;
                    v.push(cell);
                    assert(forall|i: int| 0 <= i < pre.len() ==> v@[i] == pre[i]);
                    assert(start + self.row_cells(r as int, c + 1) =~= (start + self.row_cells(
                        r as int,
                        c as int,
                    )).push(cell));
                }
                c += 1;
            }
            r += 1;
        }
        v
    }

    /// Goes back one rotation state.
    pub fn un_rotate(&mut self)
        requires
            old(self).state < 4,
        ensures
            *final(self) == (Tetrimino { state: ((old(self).state + 3) % 4) as u8, ..*old(self) }),
    {
        self.state = match self.state {
            0 => 3,
            n => n - 1,
        };
    }

    /// The leftmost and rightmost used columns of the piece's grid.
    pub fn blocks_rang_on_x(&self) -> (r: (usize, usize))
        requires
            self.state < 4,
        ensures
            r.0 == min_col(self.shape()),
            r.1 == max_col(self.shape()),
    {
        let g = self.blocks();
        let mut used = [false; 4];
        let mut c: usize = 0;
        while c < 4
            invariant
                0 <= c <= 4,
                same_grid(g, self.shape()),
                forall|i: int| 0 <= i < c ==> used@[i] == cols_of(self.shape())[i],
            decreases 4 - c,
        {
            used[c] = g[0][c] == 1 || g[1][c] == 1 || g[2][c] == 1 || g[3][c] == 1;
            c += 1;
        }
        assert(used@ =~= cols_of(self.shape()));
        span(used)
    }

    /// Whether the piece can move one row down on `board`. The piece is the
    /// same afterwards.
    pub fn is_can_down(&mut self, board: &Board) -> (r: bool)
        requires
            old(self).wf(),
        ensures
            *final(self) == *old(self),
            r == old(self).can_down(*board),
    {
        proof {
            self.lemma_spans();
        }
        let (_, d) = self.blocks_rang_on_y();
        if self.y + (d as i32) < (HEIGHT - 1) as i32 {
            self.y += 1;
            let blocks = self.blocks_not_free();
            self.y -= 1;
            if board.is_conflict(&blocks) {
                return false;
            }
            return true;
        }
        false
    }

    /// Moves the piece one row down if it can.
    pub fn move_down(&mut self, board: &Board)
        requires
            old(self).wf(),
        ensures
            final(self).wf(),
            *final(self) == if old(self).can_down(*board) {
                old(self).down()
            } else {
                *old(self)
            },
    {
        proof {
            self.lemma_spans();
        }
        if self.is_can_down(board) {
            self.y = self.y + 1;
        }
    }

    /// Drops the piece: moves it down until it cannot move further.
    pub fn move_down_to_bottom(&mut self, board: &Board)
        requires
            old(self).wf(),
        ensures
            final(self).wf(),
            !final(self).can_down(*board),
            *final(self) == old(self).dropped(*board),
            *final(self) == (Tetrimino { y: final(self).y, ..*old(self) }),
            final(self).y >= old(self).y,
    {
        proof {
            self.lemma_spans();
        }
        while self.is_can_down(board)
            invariant
                self.wf(),
                *self == (Tetrimino { y: self.y, ..*old(self) }),
                self.dropped(*board) == old(self).dropped(*board),
                self.y >= old(self).y,
            decreases HEIGHT - self.y,
        {
            proof {
                self.lemma_spans();
            }
            self.y = self.y + 1;
        }
    }

    /// Moves the piece one column left if it stays inside the wall and does
    /// not run into a locked cell.
    pub fn move_left(&mut self, board: &Board)
        requires
            old(self).wf(),
        ensures
            final(self).wf(),
            *final(self) == if old(self).can_left(*board) {
                old(self).left()
            } else {
                *old(self)
            },
            final(self).inside_walls(),
    {
        proof {
            self.lemma_spans();
        }
        let (l, _) = self.blocks_rang_on_x();
        if self.x + (l as i32) > 0 {
            self.x -= 1;
            if board.is_conflict(&self.blocks_not_free()) {
                self.x += 1;
            }
        }
        proof {
            self.lemma_inside_walls();
        }
    }

    /// Moves the piece one column right if it stays inside the wall and does
    /// not run into a locked cell.
    pub fn move_right(&mut self, board: &Board)
        requires
            old(self).wf(),
        ensures
            final(self).wf(),
            *final(self) == if old(self).can_right(*board) {
                old(self).right()
            } else {
                *old(self)
            },
            final(self).inside_walls(),
    {
        proof {
            self.lemma_spans();
        }
        let (_, r) = self.blocks_rang_on_x();
        if self.x + (r as i32) < (WIDTH - 1) as i32 {
            self.x += 1;
            if board.is_conflict(&self.blocks_not_free()) {
                self.x -= 1;
            }
        }
        proof {
            self.lemma_inside_walls();
        }
    }

    /// Turns the piece to its next rotation state, and turns it back when
    /// there it would cross a wall or the floor or overlap a locked cell.
    pub fn rotate(&mut self, board: &Board)
        requires
            old(self).wf(),
        ensures
            final(self).wf(),
            *final(self) == if old(self).can_turn(*board) {
                old(self).turned()
            } else {
                *old(self)
            },
            final(self).state == (old(self).state + 1) % 4 || final(self).state == old(self).state,
    {
        self.state = match self.state {
            3 => 0,
            n => n + 1,
        };
        proof {
            self.lemma_spans();
        }
        let (l, r) = self.blocks_rang_on_x();
        let (_, d) = self.blocks_rang_on_y();
        if self.x + (l as i32) < 0 || self.x + (r as i32) >= WIDTH as i32 || self.y + (d as i32)
            >= HEIGHT as i32 {
            self.un_rotate();
        } else if board.is_conflict(&self.blocks_not_free()) {
            self.un_rotate();
        }
    }

    /// The colour of the piece's kind.
    pub fn color(&self) -> (r: Color)
        ensures
            r == type_color(self.tty),
    {
        self.tty.color()
    }

    /// A piece of kind `tty`, started above the board and moved down while
    /// it is above the top row and can move down.
    pub fn spawn(board: &Board, tty: Type) -> (r: Tetrimino)
        ensures
            r.wf(),
            r == Tetrimino::start(*board, tty).spawn_descent(*board),
            r == (Tetrimino { y: r.y, ..Tetrimino::start(*board, tty) }),
            -4 <= r.y <= 0,
            !hits(board@, r.visible_cells()),
    {
        let mut t = Tetrimino { tty, state: 3, x: 3, y: -4, base_x: board.x, base_y: board.y };
        proof {
            t.lemma_spans();
            t.lemma_hidden();
        }
        let mut going = t.y < 0 && t.is_can_down(board);
        while going
            invariant
                t.wf(),
                t == (Tetrimino { y: t.y, ..Tetrimino::start(*board, tty) }),
                -4 <= t.y <= 0,
                !hits(board@, t.visible_cells()),
                t.spawn_descent(*board) == Tetrimino::start(*board, tty).spawn_descent(*board),
                going == (t.y < 0 && t.can_down(*board)),
            decreases 20 - t.y,
        {
            t.move_down(board);
            going = t.y < 0 && t.is_can_down(board);
        }
        t
    }

    /// A piece of a random kind, started as `spawn` starts it.
    pub fn new(board: &Board) -> (r: Tetrimino)
        ensures
            r.wf(),
            r == Tetrimino::start(*board, r.tty).spawn_descent(*board),
            r == (Tetrimino { y: r.y, ..Tetrimino::start(*board, r.tty) }),
            -4 <= r.y <= 0,
            !hits(board@, r.visible_cells()),
    {
        let n = random_roll();
        Tetrimino::spawn(board, Type::from_roll(n))
    }

    /// The topmost and lowest used rows of the piece's grid.
    pub fn blocks_rang_on_y(&self) -> (r: (usize, usize))
        requires
            self.state < 4,
        ensures
            r.0 == min_row(self.shape()),
            r.1 == max_row(self.shape()),
    {
        let g = self.blocks();
        let mut used = [false; 4];
        let mut r: usize = 0;
        while r < 4
            invariant
                0 <= r <= 4,
                same_grid(g, self.shape()),
                forall|i: int| 0 <= i < r ==> used@[i] == rows_of(self.shape())[i],
            decreases 4 - r,
        {
            used[r] = g[r][0] == 1 || g[r][1] == 1 || g[r][2] == 1 || g[r][3] == 1;
            r += 1;
        }
        assert(used@ =~= rows_of(self.shape()));
        span(used)
    }
}

} // verus!
