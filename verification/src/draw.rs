//! Draw commands: the data the simulation hands to the presentation shell
//! each step.  The simulation decides what stands where; the shell owns
//! colors, glyph codes and the wording of the text lines.

use vstd::prelude::*;

verus! {

/// What a single play-field cell shows.
#[derive(Clone, Copy, Debug, PartialEq, Eq, Structural)]
pub enum Glyph {
    /// The player's avatar.
    Avatar,
    /// One cell of an obstacle's wall.
    Wall,
}

/// A command to draw one glyph at a cell of the play field.
#[derive(Clone, Copy, Debug, PartialEq, Eq, Structural)]
pub struct Cell {
    pub x: i32,
    pub y: i32,
    pub glyph: Glyph,
}

/// The text lines the simulation asks the shell to print.  Lines that show a
/// number carry it; the shell owns the wording.
#[derive(Clone, Copy, Debug, PartialEq, Eq, Structural)]
pub enum Msg {
    /// The menu greeting.
    Welcome,
    /// How to start a game.
    PlayHint,
    /// How to quit.
    QuitHint,
    /// How to flap, shown during play.
    FlapHint,
    /// The running score.
    Score(u32),
    /// The end-screen headline.
    Dead,
    /// The points earned in the finished game.
    Earned(u32),
    /// How to start another game from the end screen.
    PlayAgainHint,
}

/// A command to print one text line, either centered on a row or at a cell.
#[derive(Clone, Copy, Debug, PartialEq, Eq, Structural)]
pub enum TextCmd {
    Centered { y: i32, msg: Msg },
    At { x: i32, y: i32, msg: Msg },
}

/// The backdrop the screen is cleared to before drawing.
#[derive(Clone, Copy, Debug, PartialEq, Eq, Structural)]
pub enum Backdrop {
    /// The bare background, used by the menu and end screens.
    Plain,
    /// The play-field background.
    Sky,
}

/// Everything one simulation step asks the presentation shell to do:
/// clear to the backdrop, draw the cells, print the text lines, and,
/// when `quit` is set, request process exit.
#[derive(Clone, Debug, PartialEq, Eq)]
pub struct Frame {
    pub backdrop: Backdrop,
    pub cells: Vec<Cell>,
    pub texts: Vec<TextCmd>,
    pub quit: bool,
}

} // verus!
