use vstd::prelude::*;

use crate::block::Block;
use crate::board::{compacted, free_rows, has_free_row, paint, Board, HEIGHT};
use crate::shape::{type_color, Type};
use crate::tetrimino::{random_roll, Tetrimino};

verus! {

/// Milliseconds between two ticks of the game.
pub const TICK_MS: u64 = 50;

/// Milliseconds of play after which gravity moves the piece one row down.
pub const FALL_MS: u64 = 500;

/// A command from the player.
#[derive(Clone, Copy, Debug, PartialEq, Eq, Structural)]
pub enum Command {
    Left,
    Right,
    Down,
    Drop,
    Rotate,
    Quit,
}

/// The piece after the player's command.
pub open spec fn commanded(p: Tetrimino, b: Board, cmd: Option<Command>) -> Tetrimino {
    match cmd {
        Some(Command::Left) => if p.can_left(b) {
            p.left()
        } else {
            p
        },
        Some(Command::Right) => if p.can_right(b) {
            p.right()
        } else {
            p
        },
        Some(Command::Down) => if p.can_down(b) {
            p.down()
        } else {
            p
        },
        Some(Command::Rotate) => if p.can_turn(b) {
            p.turned()
        } else {
            p
        },
        Some(Command::Drop) => p.dropped(b),
        _ => p,
    }
}

/// The state of a game: the board, the falling piece, the time since gravity
/// last acted, and whether the board has filled up.
#[derive(Clone, Copy, Debug)]
pub struct Game {
    pub board: Board,
    pub piece: Tetrimino,
    pub elapsed: u64,
    pub finished: bool,
}

impl Game {
    /// The piece is well formed and gravity is due within one fall interval.
    pub open spec fn wf(self) -> bool {
        self.piece.wf() && self.elapsed < FALL_MS
    }

    /// The time since gravity last acted, one tick later.
    pub open spec fn elapsed_after(self) -> u64 {
        if self.elapsed + TICK_MS >= FALL_MS {
            (self.elapsed + TICK_MS - FALL_MS) as u64
        } else {
            (self.elapsed + TICK_MS) as u64
        }
    }

    /// The piece after the player's command and then gravity, if it acts.
    pub open spec fn moved(self, cmd: Option<Command>) -> Tetrimino {
        let p = commanded(self.piece, self.board, cmd);
        if self.elapsed + TICK_MS >= FALL_MS && p.can_down(self.board) {
            p.down()
        } else {
            p
        }
    }

    /// `next` is this game one tick later, after the command `cmd`, with
    /// `tty` as the kind of a piece that appears.
    pub open spec fn ticked(self, next: Game, cmd: Option<Command>, tty: Type) -> bool {
        if self.finished || cmd == Some(Command::Quit) {
            next == self
        } else {
            let p = self.moved(cmd);
            let painted = paint(self.board@, p.visible_cells(), Block::On(type_color(p.tty)));
            &&& next.elapsed == self.elapsed_after()
            &&& next.board.x == self.board.x
            &&& next.board.y == self.board.y
            &&& p.can_down(self.board) ==> {
                &&& next.board@ == self.board@
                &&& next.piece == p
                &&& !next.finished
            }
            &&& !p.can_down(self.board) && !has_free_row(painted) ==> {
                &&& next.board@ == painted
                &&& next.piece == p
                &&& next.finished
            }
            &&& !p.can_down(self.board) && has_free_row(painted) ==> {
                &&& next.board@ == compacted(painted)
                &&& next.piece == Tetrimino::start(next.board, tty).spawn_descent(next.board)
                &&& !next.finished
            }
        }
    }

    /// A game on a free board drawn at `(x, y)`, with a piece of a random
    /// kind.
    pub fn new(x: u16, y: u16) -> (r: Game)
        ensures
            r.wf(),
            r.board@ == free_rows(HEIGHT as nat),
            r.board.x == x,
            r.board.y == y,
            r.piece == Tetrimino::start(r.board, r.piece.tty).spawn_descent(r.board),
            r.elapsed == 0,
            !r.finished,
    {
        let board = Board::new(x, y);
        let piece = Tetrimino::new(&board);
        Game { board, piece, elapsed: 0, finished: false }
    }

    /// One tick of the game, with the player's command if there is one and
    /// `tty` as the kind of the next piece. The command comes first, then
    /// gravity, then, if the piece cannot move down, it is locked into the
    /// board and the complete rows are cleared; a full board ends the game,
    /// else a new piece of kind `tty` appears. Once the game has ended only a
    /// `Quit` does anything. Returns whether to go on.
    pub fn tick_with(&mut self, cmd: Option<Command>, tty: Type) -> (r: bool)
        requires
            old(self).wf(),
        ensures
            final(self).wf(),
            r == (cmd != Some(Command::Quit)),
            old(self).ticked(*final(self), cmd, tty),
    {
        if cmd == Some(Command::Quit) {
            return false;
        }
        if self.finished {
            return true;
        }
        let board = self.board;
        let mut piece = self.piece;
        match cmd {
            Some(Command::Left) => piece.move_left(&board),
            Some(Command::Right) => piece.move_right(&board),
            Some(Command::Down) => piece.move_down(&board),
            Some(Command::Rotate) => piece.rotate(&board),
            Some(Command::Drop) => piece.move_down_to_bottom(&board),
            _ => {},
        }
        self.elapsed = self.elapsed + TICK_MS;
        if self.elapsed >= FALL_MS {
            self.elapsed = self.elapsed - FALL_MS;
            piece.move_down(&board);
        }
        self.piece = piece;
        if !piece.is_can_down(&board) {
            let cells = piece.blocks_not_free();
            self.board.add_blocks(&cells, Block::On(piece.color()));
            if self.board.erase() == usize::MAX {
                self.finished = true;
                return true;
            }
            self.piece = Tetrimino::spawn(&self.board, tty);
        }
        true
    }

    /// One tick of the game, as `tick_with` with a next piece of a random
    /// kind.
    pub fn tick(&mut self, cmd: Option<Command>) -> (r: bool)
        requires
            old(self).wf(),
        ensures
            final(self).wf(),
            r == (cmd != Some(Command::Quit)),
            exists|tty: Type| old(self).ticked(*final(self), cmd, tty),
    {
        let tty = Type::from_roll(random_roll());
        self.tick_with(cmd, tty)
    }
}

} // verus!
