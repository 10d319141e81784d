//! The vocabulary of terminal control: colors, attributes, modes, and the operations that
//! a decoded byte stream asks a terminal to perform.

use vstd::prelude::*;
use crate::index::{Column, Line};
use crate::style::Color as CellColor;

verus! {

/// The colors that control sequences name.
#[derive(Clone, Copy, PartialEq, Eq, Debug)]
pub enum NamedColor {
    Black,
    Red,
    Green,
    Yellow,
    Blue,
    Magenta,
    Cyan,
    White,
    BrightBlack,
    BrightRed,
    BrightGreen,
    BrightYellow,
    BrightBlue,
    BrightMagenta,
    BrightCyan,
    BrightWhite,
    /// The default foreground color.
    Foreground,
    /// The default background color.
    Background,
    /// The color of the character under the cursor.
    CursorText,
    /// The color of the cursor itself.
    Cursor,
    DimBlack,
    DimRed,
    DimGreen,
    DimYellow,
    DimBlue,
    DimMagenta,
    DimCyan,
    DimWhite,
}

#[derive(Clone, Copy, PartialEq, Eq, Debug)]
pub struct Rgb {
    pub r: u8,
    pub g: u8,
    pub b: u8,
}

/// A color as a control sequence gives it.
#[derive(Clone, Copy, PartialEq, Eq, Debug)]
pub enum Color {
    Named(NamedColor),
    Spec(Rgb),
    Indexed(u8),
}

/// A text attribute change, as SGR sequences give it.
#[derive(Clone, Copy, PartialEq, Eq, Debug)]
pub enum Attr {
    /// Clear all attributes and colors.
    Reset,
    Bold,
    Dim,
    Italic,
    Underscore,
    BlinkSlow,
    BlinkFast,
    Reverse,
    Hidden,
    Strike,
    CancelBold,
    CancelBoldDim,
    CancelItalic,
    CancelUnderline,
    CancelBlink,
    CancelReverse,
    CancelHidden,
    CancelStrike,
    Foreground(Color),
    Background(Color),
}

/// The shape of the cursor.
#[derive(Clone, Copy, PartialEq, Eq, Debug)]
pub enum CursorStyle {
    Block,
    Underline,
    Beam,
}

/// The part of the current line that a clear affects.
#[derive(Clone, Copy, PartialEq, Eq, Debug)]
pub enum LineClearMode {
    /// From the cursor to the right edge.
    Right,
    /// From the left edge up to and including the cursor.
    Left,
    All,
}

/// The part of the screen that a clear affects.
#[derive(Clone, Copy, PartialEq, Eq, Debug)]
pub enum ClearMode {
    /// From the cursor to the end of the screen.
    Below,
    /// From the top of the screen to the cursor.
    Above,
    /// The whole visible screen.
    All,
    /// The lines that have scrolled out of view.
    Saved,
}

/// The tab stops that a clear affects.
#[derive(Clone, Copy, PartialEq, Eq, Debug)]
pub enum TabulationClearMode {
    Current,
    All,
}

/// The terminal modes that can be set and reset.
#[derive(Clone, Copy, PartialEq, Eq, Debug)]
pub enum Mode {
    /// ?1
    CursorKeys,
    /// ?3
    ColumnMode,
    /// 4
    Insert,
    /// ?6
    Origin,
    /// ?7
    LineWrap,
    /// ?12
    BlinkingCursor,
    /// 20
    LineFeedNewLine,
    /// ?25
    ShowCursor,
    /// ?1000
    ReportMouseClicks,
    /// ?1002
    ReportCellMouseMotion,
    /// ?1003
    ReportAllMouseMotion,
    /// ?1004
    ReportFocusInOut,
    /// ?1006
    SgrMouse,
    /// ?1049
    SwapScreenAndSetRestoreCursor,
    /// ?2004
    BracketedPaste,
}

/// One of the four character set slots.
#[derive(Clone, Copy, PartialEq, Eq, Debug)]
pub enum CharsetIndex {
    G0,
    G1,
    G2,
    G3,
}

/// The character sets that can be assigned to a slot.
#[derive(Clone, Copy, PartialEq, Eq, Debug)]
pub enum StandardCharset {
    Ascii,
    SpecialCharacterAndLineDrawing,
}

/// What a decoded control function, or a printable character, asks a terminal to do.
#[derive(Clone, Copy, PartialEq, Eq, Debug)]
pub enum Operation {
    /// Set the window title.
    SetTitle,
    SetCursorStyle(CursorStyle),
    /// Display a character.
    Input(char),
    /// Move the cursor to a line and column of the visible region.
    Goto(Line, Column),
    GotoLine(Line),
    GotoCol(Column),
    /// Insert blank characters at the cursor.
    InsertBlank(Column),
    MoveUp(Line),
    MoveDown(Line),
    /// Report what kind of terminal this is.
    IdentifyTerminal,
    /// Report the status of the device.
    DeviceStatus(usize),
    MoveForward(Column),
    MoveBackward(Column),
    /// Move down and to the first column.
    MoveDownAndCr(Line),
    /// Move up and to the first column.
    MoveUpAndCr(Line),
    PutTab(i64),
    Backspace,
    CarriageReturn,
    Linefeed,
    Bell,
    /// Replace the character under the cursor.
    Substitute,
    Newline,
    SetHorizontalTabstop,
    ScrollUp(Line),
    ScrollDown(Line),
    InsertBlankLines(Line),
    DeleteLines(Line),
    EraseChars(Column),
    DeleteChars(Column),
    MoveBackwardTabs(i64),
    MoveForwardTabs(i64),
    SaveCursorPosition,
    RestoreCursorPosition,
    ClearLine(LineClearMode),
    ClearScreen(ClearMode),
    ClearTabs(TabulationClearMode),
    ResetState,
    /// Move up one line, scrolling at the top margin.
    ReverseIndex,
    TerminalAttribute(Attr),
    SetMode(Mode),
    UnsetMode(Mode),
    /// Restrict scrolling to the lines from the first up to, but not including, the
    /// second, or up to the last line of the screen.
    SetScrollingRegion(Line, Option<Line>),
    SetKeypadApplicationMode,
    UnsetKeypadApplicationMode,
    SetActiveCharset(CharsetIndex),
    ConfigureCharset(CharsetIndex, StandardCharset),
    /// Change an entry of the color palette.
    SetColor(usize, Rgb),
    /// Fill the screen with a test pattern.
    Dectest,
}

/// The cell color that stands for a color of a control sequence.
///
/// A named color maps to the color of that name, a dim color to the hue that it dims, and
/// the bright colors to the light ones. The default foreground and background stand in as
/// white and black, the two cursor colors as black. An indexed color is left to the palette
/// of the host terminal.
pub open spec fn cell_color(ansi_color: Color) -> CellColor {
    match ansi_color {
        Color::Named(name) => match name {
            NamedColor::Black | NamedColor::DimBlack => CellColor::Black,
            NamedColor::Red | NamedColor::DimRed => CellColor::Red,
            NamedColor::Green | NamedColor::DimGreen => CellColor::Green,
            NamedColor::Yellow | NamedColor::DimYellow => CellColor::Yellow,
            NamedColor::Blue | NamedColor::DimBlue => CellColor::Blue,
            NamedColor::Magenta | NamedColor::DimMagenta => CellColor::Magenta,
            NamedColor::Cyan | NamedColor::DimCyan => CellColor::Cyan,
            NamedColor::White | NamedColor::DimWhite => CellColor::White,
            NamedColor::BrightBlack => CellColor::LightBlack,
            NamedColor::BrightRed => CellColor::LightRed,
            NamedColor::BrightGreen => CellColor::LightGreen,
            NamedColor::BrightYellow => CellColor::LightYellow,
            NamedColor::BrightBlue => CellColor::LightBlue,
            NamedColor::BrightMagenta => CellColor::LightMagenta,
            NamedColor::BrightCyan => CellColor::LightCyan,
            NamedColor::BrightWhite => CellColor::LightWhite,
            NamedColor::Foreground => CellColor::White,
            NamedColor::Background | NamedColor::CursorText | NamedColor::Cursor => CellColor::Black,
        },
        Color::Spec(rgb) => CellColor::Rgb { r: rgb.r, g: rgb.g, b: rgb.b },
        Color::Indexed(index) => CellColor::Ansi(index),
    }
}

/// The cell color that stands for a color of a control sequence.
pub fn ansi_to_unsegen_color(ansi_color: Color) -> (color: CellColor)
    ensures
        color == cell_color(ansi_color),
{
    match ansi_color {
        Color::Named(c) => match c {
            NamedColor::Black => CellColor::Black,
            NamedColor::Red => CellColor::Red,
            NamedColor::Green => CellColor::Green,
            NamedColor::Yellow => CellColor::Yellow,
            NamedColor::Blue => CellColor::Blue,
            NamedColor::Magenta => CellColor::Magenta,
            NamedColor::Cyan => CellColor::Cyan,
            NamedColor::White => CellColor::White,
            NamedColor::BrightBlack => CellColor::LightBlack,
            NamedColor::BrightRed => CellColor::LightRed,
            NamedColor::BrightGreen => CellColor::LightGreen,
            NamedColor::BrightYellow => CellColor::LightYellow,
            NamedColor::BrightBlue => CellColor::LightBlue,
            NamedColor::BrightMagenta => CellColor::LightMagenta,
            NamedColor::BrightCyan => CellColor::LightCyan,
            NamedColor::BrightWhite => CellColor::LightWhite,
            NamedColor::Foreground => CellColor::White,
            NamedColor::Background => CellColor::Black,
            NamedColor::CursorText => CellColor::Black,
            NamedColor::Cursor => CellColor::Black,
            NamedColor::DimBlack => CellColor::Black,
            NamedColor::DimRed => CellColor::Red,
            NamedColor::DimGreen => CellColor::Green,
            NamedColor::DimYellow => CellColor::Yellow,
            NamedColor::DimBlue => CellColor::Blue,
            NamedColor::DimMagenta => CellColor::Magenta,
            NamedColor::DimCyan => CellColor::Cyan,
            NamedColor::DimWhite => CellColor::White,
        },
        Color::Spec(c) => CellColor::Rgb { r: c.r, g: c.g, b: c.b },
        Color::Indexed(c) => CellColor::Ansi(c),
    }
}

} // verus!
