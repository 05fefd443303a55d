use vstd::prelude::*;

verus! {

/// A colour tag, as red, green and blue intensities.
#[derive(Clone, Copy, Debug, PartialEq, Eq, Structural)]
pub struct Color {
    pub r: u8,
    pub g: u8,
    pub b: u8,
}

/// One cell of the board: free, or occupied and painted with a colour.
#[derive(Clone, Copy, Debug, PartialEq, Eq, Structural)]
pub enum Block {
    Free,
    On(Color),
}

impl Block {
    /// A fresh cell, which is free.
    pub fn new() -> (r: Block)
        ensures
            r == Block::Free,
    {
        Block::Free
    }

    pub fn is_free(&self) -> (r: bool)
        ensures
            r == (*self is Free),
    {
        match *self {
            Block::Free => true,
            _ => false,
        }
    }
}

/// Number of cells in a row: the board's width.
pub const WIDTH: usize = 10;

/// A row of free cells.
pub open spec fn free_row() -> Seq<Block> {
    Seq::new(WIDTH as nat, |i: int| Block::Free)
}

/// A row is complete when none of its cells is free.
pub open spec fn row_complete(r: Seq<Block>) -> bool {
    forall|i: int| 0 <= i < r.len() ==> !(#[trigger] r[i] is Free)
}

/// A row is all free when every one of its cells is free.
pub open spec fn row_all_free(r: Seq<Block>) -> bool {
    forall|i: int| 0 <= i < r.len() ==> #[trigger] r[i] is Free
}

/// A row of the board; index `x` is the column.
#[derive(Clone, Copy, Debug)]
pub struct Line {
    pub blocks: [Block; 10],
}

impl View for Line {
    type V = Seq<Block>;

    open spec fn view(&self) -> Seq<Block> {
        self.blocks@
    }
}

impl Line {
    /// A row of free cells.
    pub fn new() -> (r: Line)
        ensures
            r@ == free_row(),
    {
        let r = Line { blocks: [Block::new(); 10] };
        assert(r@ =~= free_row());
        r
    }

    /// Whether every cell of the row is occupied, so that the row can be cleared.
    pub fn is_should_erase(&self) -> (r: bool)
        ensures
            r == row_complete(self@),
    {
        let mut i: usize = 0;
        while i < WIDTH
            invariant
                0 <= i <= WIDTH,
                self@.len() == WIDTH,
                forall|j: int| 0 <= j < i ==> !(#[trigger] self@[j] is Free),
            decreases WIDTH - i,
        {
            if self.blocks[i].is_free() {
                return false;
            }
            i += 1;
        }
        true
    }

    /// Whether every cell of the row is free.
    pub fn is_all_free(&self) -> (r: bool)
        ensures
            r == row_all_free(self@),
    {
        let mut i: usize = 0;
        while i < WIDTH
            invariant
                0 <= i <= WIDTH,
                self@.len() == WIDTH,
                forall|j: int| 0 <= j < i ==> #[trigger] self@[j] is Free,
            decreases WIDTH - i,
        {
            if !self.blocks[i].is_free() {
                return false;
            }
            i += 1;
        }
        true
    }

    /// Puts `b` in column `x`.
    pub fn add(&mut self, b: Block, x: u16)
        requires
            (x as int) < WIDTH,
        ensures
            final(self)@ == old(self)@.update(x as int, b),
    {
        self.blocks[x as usize] = b;
    }

    /// Whether the cell in column `x` is free.
    pub fn is_free_on_x(&self, x: u16) -> (r: bool)
        requires
            (x as int) < WIDTH,
        ensures
            r == (self@[x as int] is Free),
    {
        self.blocks[x as usize].is_free()
    }
}

} // verus!
