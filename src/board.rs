use vstd::prelude::*;

use crate::block::{free_row, row_all_free, row_complete, Block, Line, WIDTH};

verus! {

/// Number of rows of the board: its height.
pub const HEIGHT: usize = 20;

/// `n` rows of free cells.
pub open spec fn free_rows(n: nat) -> Seq<Seq<Block>> {
    Seq::new(n, |i: int| free_row())
}

/// Whether the cell in column `x` of row `y` is occupied.
pub open spec fn occupied(rows: Seq<Seq<Block>>, x: int, y: int) -> bool {
    rows[y][x] is On
}

/// Every cell of `cells`, as `(x, y)`, lies on the board.
pub open spec fn on_board(cells: Seq<(u16, u16)>) -> bool {
    forall|i: int|
        0 <= i < cells.len() ==> (#[trigger] cells[i]).0 < WIDTH && cells[i].1 < HEIGHT
}

/// Some cell of `cells` is occupied on the board.
pub open spec fn hits(rows: Seq<Seq<Block>>, cells: Seq<(u16, u16)>) -> bool {
    exists|i: int|
        0 <= i < cells.len() && occupied(rows, (#[trigger] cells[i]).0 as int, cells[i].1 as int)
}

/// Some row of the board is all free.
pub open spec fn has_free_row(rows: Seq<Seq<Block>>) -> bool {
    exists|i: int| 0 <= i < rows.len() && row_all_free(#[trigger] rows[i])
}

/// The test that keeps a row when the board is cleared.
pub open spec fn incomplete() -> spec_fn(Seq<Block>) -> bool {
    |r: Seq<Block>| !row_complete(r)
}

/// The rows that are not complete, from top to bottom.
pub open spec fn kept_rows(rows: Seq<Seq<Block>>) -> Seq<Seq<Block>> {
    rows.filter(incomplete())
}

/// The number of complete rows.
pub open spec fn complete_count(rows: Seq<Seq<Block>>) -> nat {
    (rows.len() - kept_rows(rows).len()) as nat
}

/// The board with its complete rows removed, the rows above them moved
/// down, and free rows put in at the top.
pub open spec fn compacted(rows: Seq<Seq<Block>>) -> Seq<Seq<Block>> {
    free_rows(complete_count(rows)) + kept_rows(rows)
}

/// The number of complete rows below row `j`.
pub open spec fn complete_below(rows: Seq<Seq<Block>>, j: int) -> nat {
    complete_count(rows.subrange(j + 1, rows.len() as int))
}

/// Clearing leaves no complete row, and every row that is not complete
/// stays, moved down by the number of complete rows below it.
pub proof fn lemma_clear_removes_complete_rows(rows: Seq<Seq<Block>>)
    requires
        forall|i: int| 0 <= i < rows.len() ==> (#[trigger] rows[i]).len() == WIDTH,
    ensures
        compacted(rows).len() == rows.len(),
        forall|i: int| 0 <= i < rows.len() ==> !row_complete(#[trigger] compacted(rows)[i]),
        forall|j: int|
            0 <= j < rows.len() && !row_complete(#[trigger] rows[j]) ==> compacted(rows)[j
                + complete_below(rows, j)] == rows[j],
{
    let kept = kept_rows(rows);
    rows.lemma_filter_len(incomplete());
    let n = complete_count(rows);
    assert forall|i: int| 0 <= i < rows.len() implies !row_complete(
        #[trigger] compacted(rows)[i],
    ) by {
        if i < n {
            assert(compacted(rows)[i] == free_row());
            assert(!(free_row()[0] is On));
        } else {
            rows.lemma_filter_pred(incomplete(), i - n);
        }
    }
    assert forall|j: int|
        0 <= j < rows.len() && !row_complete(#[trigger] rows[j]) implies compacted(rows)[j
            + complete_below(rows, j)] == rows[j] by {
        let pre = rows.subrange(0, j);
        let post = rows.subrange(j + 1, rows.len() as int);
        assert(rows =~= pre + (seq![rows[j]] + post));
        Seq::filter_distributes_over_add(pre, seq![rows[j]] + post, incomplete());
        post.lemma_filter_prepend(rows[j], incomplete());
        post.lemma_filter_len(incomplete());
        pre.lemma_filter_len(incomplete());
        assert(kept == pre.filter(incomplete()) + (seq![rows[j]] + post.filter(incomplete())));
        assert(kept[pre.filter(incomplete()).len() as int] == rows[j]);
    }
}

/// The board with `blk` written, in order, at each of `cells`, given as
/// `(x, y)`.
pub open spec fn paint(rows: Seq<Seq<Block>>, cells: Seq<(u16, u16)>, blk: Block) -> Seq<
    Seq<Block>,
>
    decreases cells.len(),
{
    if cells.len() == 0 {
        rows
    } else {
        let p = paint(rows, cells.drop_last(), blk);
        let x = cells.last().0 as int;
        let y = cells.last().1 as int;
        p.update(y, p[y].update(x, blk))
    }
}

/// The grid of locked cells, 20 rows of 10, row 0 at the top, with the
/// screen position it is drawn at.
#[derive(Clone, Copy, Debug)]
pub struct Board {
    pub lines: [Line; 20],
    pub x: u16,
    pub y: u16,
}

impl View for Board {
    type V = Seq<Seq<Block>>;

    open spec fn view(&self) -> Seq<Seq<Block>> {
        self.lines@.map_values(|l: Line| l@)
    }
}

impl Board {
    /// A board of free cells, drawn with its top-left cell at `(x, y)`.
    pub fn new(x: u16, y: u16) -> (r: Board)
        ensures
            r@ == free_rows(HEIGHT as nat),
            r.x == x,
            r.y == y,
    {
        let r = Board { lines: [Line::new(); 20], x, y };
        assert(r@ =~= free_rows(HEIGHT as nat));
        r
    }

    /// Whether any of `cells`, given as `(x, y)`, is occupied.
    pub fn is_conflict(&self, cells: &Vec<(u16, u16)>) -> (r: bool)
        requires
            on_board(cells@),
        ensures
            r == hits(self@, cells@),
    {
        let mut i: usize = 0;
        while i < cells.len()
            invariant
                0 <= i <= cells@.len(),
                on_board(cells@),
                forall|j: int|
                    0 <= j < i ==> !occupied(
                        self@,
                        (#[trigger] cells@[j]).0 as int,
                        cells@[j].1 as int,
                    ),
            decreases cells@.len() - i,
        {
            let (x, y) = cells[i];
            if let Block::On(_) = self.lines[y as usize].blocks[x as usize] {
                return true;
            }
            i += 1;
        }
        false
    }

    /// Puts `b` at column `x` of row `y`.
    pub fn add_block(&mut self, b: Block, x: u16, y: u16)
        requires
            (x as int) < WIDTH,
            (y as int) < HEIGHT,
        ensures
            final(self)@ == old(self)@.update(y as int, old(self)@[y as int].update(x as int, b)),
            final(self).x == old(self).x,
            final(self).y == old(self).y,
    {
        let mut l = self.lines[y as usize];
        l.add(b, x);
        self.lines[y as usize] = l;
        assert(self@ =~= old(self)@.update(y as int, old(self)@[y as int].update(x as int, b)));
    }

    /// Clears the complete rows. When no row is all free the board is full:
    /// nothing changes and `usize::MAX` comes back. Otherwise each complete
    /// row is removed, the rows above it move down, free rows fill the top,
    /// and the number of rows removed comes back.
    pub fn erase(&mut self) -> (r: usize)
        ensures
            final(self)@.len() == old(self)@.len(),
            forall|i: int| 0 <= i < final(self)@.len() ==> (#[trigger] final(self)@[i]).len() == WIDTH,
            !has_free_row(old(self)@) ==> r == usize::MAX && *final(self) == *old(self),
            has_free_row(old(self)@) ==> {
                &&& r == complete_count(old(self)@)
                &&& final(self)@ == compacted(old(self)@)
                &&& final(self).x == old(self).x
                &&& final(self).y == old(self).y
            },
    {
        let ghost rows = self@;
        let mut num_free: usize = 0;
        let mut i: usize = 0;
        while i < HEIGHT
            invariant
                0 <= num_free <= i <= HEIGHT,
                self@ == rows,
                (num_free == 0) == !(exists|j: int| 0 <= j < i && row_all_free(#[trigger] rows[j])),
            decreases HEIGHT - i,
        {
            assert(self.lines@[i as int]@ == rows[i as int]);
            if self.lines[i].is_all_free() {
                num_free += 1;
            }
            i += 1;
        }
        if num_free < 1 {
            return usize::MAX;
        }
        let mut kept: usize = 0;
        let mut k: usize = 0;
        while k < HEIGHT
            invariant
                0 <= kept <= k <= HEIGHT,
                self.x == old(self).x,
                self.y == old(self).y,
                rows == old(self)@,
                self@.len() == HEIGHT,
                forall|j: int| 0 <= j < HEIGHT - k ==> #[trigger] self@[j] == rows[j],
                self@.subrange(HEIGHT - kept, HEIGHT as int) == kept_rows(
                    rows.subrange(HEIGHT - k, HEIGHT as int),
                ),
            decreases HEIGHT - k,
        {
            let r = HEIGHT - 1 - k;
            let ghost before = self@;
            proof {
                let tail = rows.subrange(HEIGHT - k, HEIGHT as int);
                assert(rows.subrange(r as int, HEIGHT as int) =~= seq![rows[r as int]] + tail);
                tail.lemma_filter_prepend(rows[r as int], incomplete());
            }
            assert(self@[r as int] == rows[r as int]);
            assert(self.lines@[r as int]@ == rows[r as int]);
            if !self.lines[r].is_should_erase() {
                let l = self.lines[r];
                self.lines[HEIGHT - 1 - kept] = l;
                assert(self@ =~= before.update(HEIGHT - 1 - kept, rows[r as int]));
                kept += 1;
                assert(self@.subrange(HEIGHT - kept, HEIGHT as int) =~= seq![rows[r as int]]
                    + before.subrange(HEIGHT - (kept - 1), HEIGHT as int));
            }
            k += 1;
        }
        let removed: usize = HEIGHT - kept;
        let ghost kept_part = self@.subrange(HEIGHT - kept, HEIGHT as int);
        assert(rows.subrange(0, HEIGHT as int) =~= rows);
        let mut i: usize = 0;
        while i < removed
            invariant
                0 <= i <= removed,
                removed == HEIGHT - kept,
                self.x == old(self).x,
                self.y == old(self).y,
                self@.len() == HEIGHT,
                self@.subrange(HEIGHT - kept, HEIGHT as int) == kept_part,
                forall|j: int| 0 <= j < i ==> #[trigger] self@[j] == free_row(),
            decreases removed - i,
        {
            let ghost before = self@;
            self.lines[i] = Line::new();
            assert(self@ =~= before.update(i as int, free_row()));
            assert(self@.subrange(HEIGHT - kept, HEIGHT as int) =~= kept_part);
            i += 1;
        }
        assert(self@ =~= compacted(rows));
        removed
    }

    /// Writes `b` at each of `cells`, given as `(x, y)`: locks a piece's
    /// cells into the board.
    pub fn add_blocks(&mut self, cells: &Vec<(u16, u16)>, b: Block)
        requires
            on_board(cells@),
        ensures
            final(self)@ == paint(old(self)@, cells@, b),
            final(self).x == old(self).x,
            final(self).y == old(self).y,
    {
        let mut i: usize = 0;
        while i < cells.len()
            invariant
                0 <= i <= cells@.len(),
                on_board(cells@),
                self@ == paint(old(self)@, cells@.take(i as int), b),
                self.x == old(self).x,
                self.y == old(self).y,
            decreases cells@.len() - i,
        {
            let (x, y) = cells[i];
            assert(cells@.take(i + 1).drop_last() =~= cells@.take(i as int));
            self.add_block(b, x, y);
            i += 1;
        }
        assert(cells@.take(cells@.len() as int) =~= cells@);
    }

    /// Whether the cell at column `x` of row `y` is free.
    pub fn is_free_on_xy(&self, x: u16, y: u16) -> (r: bool)
        requires
            (x as int) < WIDTH,
            (y as int) < HEIGHT,
        ensures
            r == !occupied(self@, x as int, y as int),
    {
        self.lines[y as usize].is_free_on_x(x)
    }
}

} // verus!
