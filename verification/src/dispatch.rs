//! The dispatch tables: which operations a control function, a control sequence, an
//! escape sequence or an operating system command stands for.

use vstd::prelude::*;
use crate::ansi::{
    Attr, CharsetIndex, ClearMode, Color, CursorStyle, LineClearMode, Mode, NamedColor,
    Operation, Rgb, StandardCharset, TabulationClearMode,
};
use crate::index::{Column, Line};

verus! {

/// The parameter at `index`, or `default` where it is absent or 0.
pub open spec fn arg_or(params: Seq<i64>, index: int, default: i64) -> i64 {
    if 0 <= index < params.len() && params[index] != 0 {
        params[index]
    } else {
        default
    }
}

/// A parameter as a count: a negative one counts as 0, and one beyond `usize` as the
/// largest `usize`.
pub open spec fn count_of(value: i64) -> usize {
    if value < 0 {
        0
    } else if value > usize::MAX {
        usize::MAX
    } else {
        value as usize
    }
}

/// The count before `count`, for sequences that count from 1.
pub open spec fn from_one(count: usize) -> usize {
    if count == 0 {
        0
    } else {
        (count - 1) as usize
    }
}

/// The mode that a number of a set or reset sequence stands for. The numbers of private
/// sequences, which start with a question mark, are apart from the others.
pub open spec fn mode_of(private: bool, number: i64) -> Option<Mode> {
    if private {
        if number == 1 {
            Some(Mode::CursorKeys)
        } else if number == 3 {
            Some(Mode::ColumnMode)
        } else if number == 6 {
            Some(Mode::Origin)
        } else if number == 7 {
            Some(Mode::LineWrap)
        } else if number == 12 {
            Some(Mode::BlinkingCursor)
        } else if number == 25 {
            Some(Mode::ShowCursor)
        } else if number == 1000 {
            Some(Mode::ReportMouseClicks)
        } else if number == 1002 {
            Some(Mode::ReportCellMouseMotion)
        } else if number == 1003 {
            Some(Mode::ReportAllMouseMotion)
        } else if number == 1004 {
            Some(Mode::ReportFocusInOut)
        } else if number == 1006 {
            Some(Mode::SgrMouse)
        } else if number == 1049 {
            Some(Mode::SwapScreenAndSetRestoreCursor)
        } else if number == 2004 {
            Some(Mode::BracketedPaste)
        } else {
            None
        }
    } else {
        if number == 4 {
            Some(Mode::Insert)
        } else if number == 20 {
            Some(Mode::LineFeedNewLine)
        } else {
            None
        }
    }
}

/// The named color with the given number from 0 to 7, bright or not.
pub open spec fn palette_color(number: int, bright: bool) -> NamedColor {
    if number == 0 {
        if bright {
            NamedColor::BrightBlack
        } else {
            NamedColor::Black
        }
    } else if number == 1 {
        if bright {
            NamedColor::BrightRed
        } else {
            NamedColor::Red
        }
    } else if number == 2 {
        if bright {
            NamedColor::BrightGreen
        } else {
            NamedColor::Green
        }
    } else if number == 3 {
        if bright {
            NamedColor::BrightYellow
        } else {
            NamedColor::Yellow
        }
    } else if number == 4 {
        if bright {
            NamedColor::BrightBlue
        } else {
            NamedColor::Blue
        }
    } else if number == 5 {
        if bright {
            NamedColor::BrightMagenta
        } else {
            NamedColor::Magenta
        }
    } else if number == 6 {
        if bright {
            NamedColor::BrightCyan
        } else {
            NamedColor::Cyan
        }
    } else {
        if bright {
            NamedColor::BrightWhite
        } else {
            NamedColor::White
        }
    }
}

/// The attribute that an SGR code stands for by itself. The codes 38 and 48 need further
/// parameters and are not among these.
pub open spec fn plain_attribute(code: i64) -> Option<Attr> {
    if code == 0 {
        Some(Attr::Reset)
    } else if code == 1 {
        Some(Attr::Bold)
    } else if code == 2 {
        Some(Attr::Dim)
    } else if code == 3 {
        Some(Attr::Italic)
    } else if code == 4 {
        Some(Attr::Underscore)
    } else if code == 5 {
        Some(Attr::BlinkSlow)
    } else if code == 6 {
        Some(Attr::BlinkFast)
    } else if code == 7 {
        Some(Attr::Reverse)
    } else if code == 8 {
        Some(Attr::Hidden)
    } else if code == 9 {
        Some(Attr::Strike)
    } else if code == 21 {
        Some(Attr::CancelBold)
    } else if code == 22 {
        Some(Attr::CancelBoldDim)
    } else if code == 23 {
        Some(Attr::CancelItalic)
    } else if code == 24 {
        Some(Attr::CancelUnderline)
    } else if code == 25 {
        Some(Attr::CancelBlink)
    } else if code == 27 {
        Some(Attr::CancelReverse)
    } else if code == 28 {
        Some(Attr::CancelHidden)
    } else if code == 29 {
        Some(Attr::CancelStrike)
    } else if 30 <= code <= 37 {
        Some(Attr::Foreground(Color::Named(palette_color(code - 30, false))))
    } else if code == 39 {
        Some(Attr::Foreground(Color::Named(NamedColor::Foreground)))
    } else if 40 <= code <= 47 {
        Some(Attr::Background(Color::Named(palette_color(code - 40, false))))
    } else if code == 49 {
        Some(Attr::Background(Color::Named(NamedColor::Background)))
    } else if 90 <= code <= 97 {
        Some(Attr::Foreground(Color::Named(palette_color(code - 90, true))))
    } else if 100 <= code <= 107 {
        Some(Attr::Background(Color::Named(palette_color(code - 100, true))))
    } else {
        None
    }
}

/// The color that the parameters after a code 38 or 48 at `at` give, and the number of
/// parameters that the code and the color take together. A 2 is followed by red, green
/// and blue, a 5 by an index into the palette, each from 0 to 255.
pub open spec fn extended_color(params: Seq<i64>, at: int) -> Option<(Color, int)> {
    let left = params.len() - at;
    if left < 2 {
        None
    } else if params[at + 1] == 2 {
        if left < 5 {
            None
        } else {
            let r = params[at + 2];
            let g = params[at + 3];
            let b = params[at + 4];
            if 0 <= r < 256 && 0 <= g < 256 && 0 <= b < 256 {
                Some((Color::Spec(Rgb { r: r as u8, g: g as u8, b: b as u8 }), 5))
            } else {
                None
            }
        }
    } else if params[at + 1] == 5 {
        if left < 3 {
            None
        } else {
            let index = params[at + 2];
            if 0 <= index < 256 {
                Some((Color::Indexed(index as u8), 3))
            } else {
                None
            }
        }
    } else {
        None
    }
}

/// The attribute that the SGR parameters give at `at`, and the number of parameters that
/// it takes.
pub open spec fn attribute_at(params: Seq<i64>, at: int) -> Option<(Attr, int)> {
    let code = params[at];
    if code == 38 {
        match extended_color(params, at) {
            Some((color, taken)) => Some((Attr::Foreground(color), taken)),
            None => None,
        }
    } else if code == 48 {
        match extended_color(params, at) {
            Some((color, taken)) => Some((Attr::Background(color), taken)),
            None => None,
        }
    } else {
        match plain_attribute(code) {
            Some(attr) => Some((attr, 1)),
            None => None,
        }
    }
}

/// The attribute changes that the SGR parameters from `at` on stand for. The first
/// parameter that cannot be read ends the sequence.
pub open spec fn attributes_from(params: Seq<i64>, at: int) -> Seq<Operation>
    decreases params.len() - at,
{
    if at < 0 || at >= params.len() {
        Seq::empty()
    } else {
        match attribute_at(params, at) {
            Some((attr, taken)) => if taken >= 1 {
                seq![Operation::TerminalAttribute(attr)] + attributes_from(params, at + taken)
            } else {
                Seq::empty()
            },
            None => Seq::empty(),
        }
    }
}

/// The mode changes that the parameters from `at` on stand for. The first number that is
/// not a mode ends the sequence.
pub open spec fn modes_from(params: Seq<i64>, private: bool, set: bool, at: int) -> Seq<
    Operation,
>
    decreases params.len() - at,
{
    if at < 0 || at >= params.len() {
        Seq::empty()
    } else {
        match mode_of(private, params[at]) {
            Some(mode) => seq![
                if set {
                    Operation::SetMode(mode)
                } else {
                    Operation::UnsetMode(mode)
                },
            ] + modes_from(params, private, set, at + 1),
            None => Seq::empty(),
        }
    }
}

/// The operations that a C0 or C1 control function stands for. A line feed, a vertical
/// tab and a form feed start a new line: each stands for a line feed followed by a
/// carriage return.
pub open spec fn control_operations(byte: u8) -> Seq<Operation> {
    if byte == 0x09 {
        seq![Operation::PutTab(1)]
    } else if byte == 0x08 {
        seq![Operation::Backspace]
    } else if byte == 0x0d {
        seq![Operation::CarriageReturn]
    } else if byte == 0x0a || byte == 0x0b || byte == 0x0c {
        seq![Operation::Linefeed, Operation::CarriageReturn]
    } else if byte == 0x07 {
        seq![Operation::Bell]
    } else if byte == 0x1a {
        seq![Operation::Substitute]
    } else if byte == 0x0f {
        seq![Operation::SetActiveCharset(CharsetIndex::G0)]
    } else if byte == 0x0e {
        seq![Operation::SetActiveCharset(CharsetIndex::G1)]
    } else if byte == 0x85 {
        seq![Operation::Newline]
    } else if byte == 0x88 {
        seq![Operation::SetHorizontalTabstop]
    } else if byte == 0x9a {
        seq![Operation::IdentifyTerminal]
    } else {
        Seq::empty()
    }
}

/// The character set slot that the first intermediate byte of an escape sequence names.
pub open spec fn charset_slot(intermediates: Seq<u8>) -> Option<CharsetIndex> {
    if intermediates.len() == 0 {
        None
    } else if intermediates[0] == 0x28 {
        Some(CharsetIndex::G0)
    } else if intermediates[0] == 0x29 {
        Some(CharsetIndex::G1)
    } else if intermediates[0] == 0x2a {
        Some(CharsetIndex::G2)
    } else if intermediates[0] == 0x2b {
        Some(CharsetIndex::G3)
    } else {
        None
    }
}

/// The operations that an escape sequence with the final byte `byte` stands for.
pub open spec fn escape_operations(intermediates: Seq<u8>, byte: u8) -> Seq<Operation> {
    if byte == 0x42 {
        match charset_slot(intermediates) {
            Some(slot) => seq![Operation::ConfigureCharset(slot, StandardCharset::Ascii)],
            None => Seq::empty(),
        }
    } else if byte == 0x30 {
        match charset_slot(intermediates) {
            Some(slot) => seq![
                Operation::ConfigureCharset(slot, StandardCharset::SpecialCharacterAndLineDrawing),
            ],
            None => Seq::empty(),
        }
    } else if byte == 0x44 {
        seq![Operation::Linefeed]
    } else if byte == 0x45 {
        seq![Operation::Linefeed, Operation::CarriageReturn]
    } else if byte == 0x48 {
        seq![Operation::SetHorizontalTabstop]
    } else if byte == 0x4d {
        seq![Operation::ReverseIndex]
    } else if byte == 0x5a {
        seq![Operation::IdentifyTerminal]
    } else if byte == 0x63 {
        seq![Operation::ResetState]
    } else if byte == 0x37 {
        seq![Operation::SaveCursorPosition]
    } else if byte == 0x38 {
        if intermediates.len() > 0 && intermediates[0] == 0x23 {
            seq![Operation::Dectest]
        } else {
            seq![Operation::RestoreCursorPosition]
        }
    } else if byte == 0x3d {
        seq![Operation::SetKeypadApplicationMode]
    } else if byte == 0x3e {
        seq![Operation::UnsetKeypadApplicationMode]
    } else {
        Seq::empty()
    }
}

/// The operation that a control sequence stands for, for the sequences that stand for one
/// operation at most. The sequences that set modes or attributes are not among these.
pub open spec fn sequence_operation(params: Seq<i64>, private: bool, action: char) -> Option<
    Operation,
> {
    let count = count_of(arg_or(params, 0, 1));
    let choice = arg_or(params, 0, 0);
    if action == '@' {
        Some(Operation::InsertBlank(Column(count)))
    } else if action == 'A' {
        Some(Operation::MoveUp(Line(count)))
    } else if action == 'B' || action == 'e' {
        Some(Operation::MoveDown(Line(count)))
    } else if action == 'c' {
        Some(Operation::IdentifyTerminal)
    } else if action == 'C' || action == 'a' {
        Some(Operation::MoveForward(Column(count)))
    } else if action == 'D' {
        Some(Operation::MoveBackward(Column(count)))
    } else if action == 'E' {
        Some(Operation::MoveDownAndCr(Line(count)))
    } else if action == 'F' {
        Some(Operation::MoveUpAndCr(Line(count)))
    } else if action == 'g' {
        if choice == 0 {
            Some(Operation::ClearTabs(TabulationClearMode::Current))
        } else if choice == 3 {
            Some(Operation::ClearTabs(TabulationClearMode::All))
        } else {
            None
        }
    } else if action == 'G' || action == '`' {
        Some(Operation::GotoCol(Column(from_one(count))))
    } else if action == 'H' || action == 'f' {
        Some(
            Operation::Goto(
                Line(from_one(count)),
                Column(from_one(count_of(arg_or(params, 1, 1)))),
            ),
        )
    } else if action == 'I' {
        Some(Operation::MoveForwardTabs(arg_or(params, 0, 1)))
    } else if action == 'J' {
        if choice == 0 {
            Some(Operation::ClearScreen(ClearMode::Below))
        } else if choice == 1 {
            Some(Operation::ClearScreen(ClearMode::Above))
        } else if choice == 2 {
            Some(Operation::ClearScreen(ClearMode::All))
        } else if choice == 3 {
            Some(Operation::ClearScreen(ClearMode::Saved))
        } else {
            None
        }
    } else if action == 'K' {
        if choice == 0 {
            Some(Operation::ClearLine(LineClearMode::Right))
        } else if choice == 1 {
            Some(Operation::ClearLine(LineClearMode::Left))
        } else if choice == 2 {
            Some(Operation::ClearLine(LineClearMode::All))
        } else {
            None
        }
    } else if action == 'S' {
        Some(Operation::ScrollUp(Line(count)))
    } else if action == 'T' {
        Some(Operation::ScrollDown(Line(count)))
    } else if action == 'L' {
        Some(Operation::InsertBlankLines(Line(count)))
    } else if action == 'M' {
        Some(Operation::DeleteLines(Line(count)))
    } else if action == 'X' {
        Some(Operation::EraseChars(Column(count)))
    } else if action == 'P' {
        Some(Operation::DeleteChars(Column(count)))
    } else if action == 'Z' {
        Some(Operation::MoveBackwardTabs(arg_or(params, 0, 1)))
    } else if action == 'd' {
        Some(Operation::GotoLine(Line(from_one(count))))
    } else if action == 'n' {
        Some(Operation::DeviceStatus(count_of(choice)))
    } else if action == 'r' {
        if private {
            None
        } else {
            Some(
                Operation::SetScrollingRegion(
                    Line(from_one(count)),
                    if arg_or(params, 1, 0) == 0 {
                        None
                    } else {
                        Some(Line(count_of(arg_or(params, 1, 0))))
                    },
                ),
            )
        }
    } else if action == 's' {
        Some(Operation::SaveCursorPosition)
    } else if action == 'u' {
        Some(Operation::RestoreCursorPosition)
    } else if action == 'q' {
        if 0 <= choice <= 2 {
            Some(Operation::SetCursorStyle(CursorStyle::Block))
        } else if choice == 3 || choice == 4 {
            Some(Operation::SetCursorStyle(CursorStyle::Underline))
        } else if choice == 5 || choice == 6 {
            Some(Operation::SetCursorStyle(CursorStyle::Beam))
        } else {
            None
        }
    } else {
        None
    }
}

/// The operations that a control sequence stands for. A first intermediate byte that is
/// a question mark makes the sequence a private one. A count that is absent or 0 is 1,
/// and lines and columns are counted from 1.
pub open spec fn sequence_operations(params: Seq<i64>, intermediates: Seq<u8>, action: char) -> Seq<
    Operation,
> {
    let private = intermediates.len() > 0 && intermediates[0] == 0x3f;
    if action == 'h' {
        modes_from(params, private, true, 0)
    } else if action == 'l' {
        modes_from(params, private, false, 0)
    } else if action == 'm' {
        if params.len() == 0 {
            seq![Operation::TerminalAttribute(Attr::Reset)]
        } else {
            attributes_from(params, 0)
        }
    } else {
        match sequence_operation(params, private, action) {
            Some(operation) => seq![operation],
            None => Seq::empty(),
        }
    }
}

/// The parameter at `index`, or `default` where it is absent or 0.
fn arg_or_default(params: &Vec<i64>, index: usize, default: i64) -> (value: i64)
    ensures
        value == arg_or(params@, index as int, default),
{
    if index < params.len() && params[index] != 0 {
        params[index]
    } else {
        default
    }
}

/// A parameter as a count.
fn to_count(value: i64) -> (count: usize)
    ensures
        count == count_of(value),
{
    if value < 0 {
        0
    } else if value as u64 > usize::MAX as u64 {
        usize::MAX
    } else {
        value as usize
    }
}

/// The count before `count`, for sequences that count from 1.
fn counted_from_one(count: usize) -> (index: usize)
    ensures
        index == from_one(count),
{
    if count == 0 {
        0
    } else {
        count - 1
    }
}

impl Mode {
    /// The mode that a number of a set or reset sequence stands for, if any.
    pub fn from_primitive(private: bool, number: i64) -> (mode: Option<Mode>)
        ensures
            mode == mode_of(private, number),
    {
        if private {
            if number == 1 {
                Some(Mode::CursorKeys)
            } else if number == 3 {
                Some(Mode::ColumnMode)
            } else if number == 6 {
                Some(Mode::Origin)
            } else if number == 7 {
                Some(Mode::LineWrap)
            } else if number == 12 {
                Some(Mode::BlinkingCursor)
            } else if number == 25 {
                Some(Mode::ShowCursor)
            } else if number == 1000 {
                Some(Mode::ReportMouseClicks)
            } else if number == 1002 {
                Some(Mode::ReportCellMouseMotion)
            } else if number == 1003 {
                Some(Mode::ReportAllMouseMotion)
            } else if number == 1004 {
                Some(Mode::ReportFocusInOut)
            } else if number == 1006 {
                Some(Mode::SgrMouse)
            } else if number == 1049 {
                Some(Mode::SwapScreenAndSetRestoreCursor)
            } else if number == 2004 {
                Some(Mode::BracketedPaste)
            } else {
                None
            }
        } else {
            if number == 4 {
                Some(Mode::Insert)
            } else if number == 20 {
                Some(Mode::LineFeedNewLine)
            } else {
                None
            }
        }
    }
}

/// The named color with the given number from 0 to 7, bright or not.
fn named_color(number: i64, bright: bool) -> (color: NamedColor)
    ensures
        color == palette_color(number as int, bright),
{
    if number == 0 {
        if bright { NamedColor::BrightBlack } else { NamedColor::Black }
    } else if number == 1 {
        if bright { NamedColor::BrightRed } else { NamedColor::Red }
    } else if number == 2 {
        if bright { NamedColor::BrightGreen } else { NamedColor::Green }
    } else if number == 3 {
        if bright { NamedColor::BrightYellow } else { NamedColor::Yellow }
    } else if number == 4 {
        if bright { NamedColor::BrightBlue } else { NamedColor::Blue }
    } else if number == 5 {
        if bright { NamedColor::BrightMagenta } else { NamedColor::Magenta }
    } else if number == 6 {
        if bright { NamedColor::BrightCyan } else { NamedColor::Cyan }
    } else {
        if bright { NamedColor::BrightWhite } else { NamedColor::White }
    }
}

/// The attribute that an SGR code stands for by itself, if any.
fn attribute_from_code(code: i64) -> (attr: Option<Attr>)
    ensures
        attr == plain_attribute(code),
{
    if code == 0 {
        Some(Attr::Reset)
    } else if code == 1 {
        Some(Attr::Bold)
    } else if code == 2 {
        Some(Attr::Dim)
    } else if code == 3 {
        Some(Attr::Italic)
    } else if code == 4 {
        Some(Attr::Underscore)
    } else if code == 5 {
        Some(Attr::BlinkSlow)
    } else if code == 6 {
        Some(Attr::BlinkFast)
    } else if code == 7 {
        Some(Attr::Reverse)
    } else if code == 8 {
        Some(Attr::Hidden)
    } else if code == 9 {
        Some(Attr::Strike)
    } else if code == 21 {
        Some(Attr::CancelBold)
    } else if code == 22 {
        Some(Attr::CancelBoldDim)
    } else if code == 23 {
        Some(Attr::CancelItalic)
    } else if code == 24 {
        Some(Attr::CancelUnderline)
    } else if code == 25 {
        Some(Attr::CancelBlink)
    } else if code == 27 {
        Some(Attr::CancelReverse)
    } else if code == 28 {
        Some(Attr::CancelHidden)
    } else if code == 29 {
        Some(Attr::CancelStrike)
    } else if 30 <= code && code <= 37 {
        Some(Attr::Foreground(Color::Named(named_color(code - 30, false))))
    } else if code == 39 {
        Some(Attr::Foreground(Color::Named(NamedColor::Foreground)))
    } else if 40 <= code && code <= 47 {
        Some(Attr::Background(Color::Named(named_color(code - 40, false))))
    } else if code == 49 {
        Some(Attr::Background(Color::Named(NamedColor::Background)))
    } else if 90 <= code && code <= 97 {
        Some(Attr::Foreground(Color::Named(named_color(code - 90, true))))
    } else if 100 <= code && code <= 107 {
        Some(Attr::Background(Color::Named(named_color(code - 100, true))))
    } else {
        None
    }
}

/// The color that the parameters after a code 38 or 48 at `at` give, and the number of
/// parameters that the code and the color take together.
fn parse_color(params: &Vec<i64>, at: usize) -> (parsed: Option<(Color, usize)>)
    requires
        at < params@.len(),
    ensures
        match parsed {
            Some((color, taken)) => extended_color(params@, at as int) == Some(
                (color, taken as int),
            ),
            None => extended_color(params@, at as int) is None,
        },
{
    let left = params.len() - at;
    if left < 2 {
        None
    } else if params[at + 1] == 2 {
        if left < 5 {
            None
        } else {
            let r = params[at + 2];
            let g = params[at + 3];
            let b = params[at + 4];
            if 0 <= r && r < 256 && 0 <= g && g < 256 && 0 <= b && b < 256 {
                Some((Color::Spec(Rgb { r: r as u8, g: g as u8, b: b as u8 }), 5))
            } else {
                None
            }
        }
    } else if params[at + 1] == 5 {
        if left < 3 {
            None
        } else {
            let index = params[at + 2];
            if 0 <= index && index < 256 {
                Some((Color::Indexed(index as u8), 3))
            } else {
                None
            }
        }
    } else {
        None
    }
}

/// The attribute changes that SGR parameters stand for.
pub fn decode_attributes(params: &Vec<i64>) -> (operations: Vec<Operation>)
    ensures
        operations@ == attributes_from(params@, 0),
{
    let mut operations: Vec<Operation> = Vec::new();
    let mut at: usize = 0;
    let mut readable = true;
    while readable && at < params.len()
        invariant
            at <= params@.len(),
            readable ==> operations@ + attributes_from(params@, at as int) == attributes_from(
                params@,
                0,
            ),
            !readable ==> operations@ == attributes_from(params@, 0),
        decreases params@.len() - at + if readable { 1nat } else { 0nat },
    {
        let code = params[at];
        let found = if code == 38 {
            match parse_color(params, at) {
                Some((color, taken)) => Some((Attr::Foreground(color), taken)),
                None => None,
            }
        } else if code == 48 {
            match parse_color(params, at) {
                Some((color, taken)) => Some((Attr::Background(color), taken)),
                None => None,
            }
        } else {
            match attribute_from_code(code) {
                Some(attr) => Some((attr, 1)),
                None => None,
            }
        };
        match found {
            Some((attr, taken)) => {
                proof {
                    assert(attribute_at(params@, at as int) == Some((attr, taken as int)));
                    assert(operations@.push(Operation::TerminalAttribute(attr)) + attributes_from(
                        params@,
                        at + taken,
                    ) =~= operations@ + attributes_from(params@, at as int));
                }
                operations.push(Operation::TerminalAttribute(attr));
                at = at + taken;
            },
            None => {
                proof {
                    assert(attribute_at(params@, at as int) is None);
                    assert(operations@ + attributes_from(params@, at as int) =~= operations@);
                }
                readable = false;
            },
        }
    }
    proof {
        if readable {
            assert(operations@ + attributes_from(params@, at as int) =~= operations@);
        }
    }
    operations
}

/// The mode changes that the parameters of a set or reset sequence stand for.
pub fn decode_modes(params: &Vec<i64>, private: bool, set: bool) -> (operations: Vec<Operation>)
    ensures
        operations@ == modes_from(params@, private, set, 0),
{
    let mut operations: Vec<Operation> = Vec::new();
    let mut at: usize = 0;
    let mut readable = true;
    while readable && at < params.len()
        invariant
            at <= params@.len(),
            readable ==> operations@ + modes_from(params@, private, set, at as int)
                == modes_from(params@, private, set, 0),
            !readable ==> operations@ == modes_from(params@, private, set, 0),
        decreases params@.len() - at + if readable { 1nat } else { 0nat },
    {
        match Mode::from_primitive(private, params[at]) {
            Some(mode) => {
                let operation = if set {
                    Operation::SetMode(mode)
                } else {
                    Operation::UnsetMode(mode)
                };
                proof {
                    assert(operations@.push(operation) + modes_from(
                        params@,
                        private,
                        set,
                        at + 1,
                    ) =~= operations@ + modes_from(params@, private, set, at as int));
                }
                operations.push(operation);
                at = at + 1;
            },
            None => {
                proof {
                    assert(operations@ + modes_from(params@, private, set, at as int)
                        =~= operations@);
                }
                readable = false;
            },
        }
    }
    proof {
        if readable {
            assert(operations@ + modes_from(params@, private, set, at as int) =~= operations@);
        }
    }
    operations
}

/// The operations that a C0 or C1 control function stands for.
pub fn decode_control(byte: u8) -> (operations: Vec<Operation>)
    ensures
        operations@ == control_operations(byte),
{
    if byte == 0x0a || byte == 0x0b || byte == 0x0c {
        return new_line();
    }
    let operation = if byte == 0x09 {
        Some(Operation::PutTab(1))
    } else if byte == 0x08 {
        Some(Operation::Backspace)
    } else if byte == 0x0d {
        Some(Operation::CarriageReturn)
    } else if byte == 0x07 {
        Some(Operation::Bell)
    } else if byte == 0x1a {
        Some(Operation::Substitute)
    } else if byte == 0x0f {
        Some(Operation::SetActiveCharset(CharsetIndex::G0))
    } else if byte == 0x0e {
        Some(Operation::SetActiveCharset(CharsetIndex::G1))
    } else if byte == 0x85 {
        Some(Operation::Newline)
    } else if byte == 0x88 {
        Some(Operation::SetHorizontalTabstop)
    } else if byte == 0x9a {
        Some(Operation::IdentifyTerminal)
    } else {
        None
    };
    zero_or_one(operation)
}

/// A line feed followed by a carriage return.
fn new_line() -> (operations: Vec<Operation>)
    ensures
        operations@ == seq![Operation::Linefeed, Operation::CarriageReturn],
{
    let mut operations: Vec<Operation> = Vec::new();
    operations.push(Operation::Linefeed);
    operations.push(Operation::CarriageReturn);
    assert(operations@ =~= seq![Operation::Linefeed, Operation::CarriageReturn]);
    operations
}

/// The operations, none or one, that hold `operation`.
pub(crate) fn zero_or_one(operation: Option<Operation>) -> (operations: Vec<Operation>)
    ensures
        operations@ == match operation {
            Some(one) => seq![one],
            None => Seq::empty(),
        },
{
    let mut operations: Vec<Operation> = Vec::new();
    match operation {
        Some(one) => {
            operations.push(one);
            assert(operations@ =~= seq![one]);
        },
        None => {},
    }
    operations
}

/// The character set slot that the first intermediate byte of an escape sequence names.
fn charset_index(intermediates: &Vec<u8>) -> (slot: Option<CharsetIndex>)
    ensures
        slot == charset_slot(intermediates@),
{
    if intermediates.len() == 0 {
        None
    } else if intermediates[0] == 0x28 {
        Some(CharsetIndex::G0)
    } else if intermediates[0] == 0x29 {
        Some(CharsetIndex::G1)
    } else if intermediates[0] == 0x2a {
        Some(CharsetIndex::G2)
    } else if intermediates[0] == 0x2b {
        Some(CharsetIndex::G3)
    } else {
        None
    }
}

/// The operations that an escape sequence with the final byte `byte` stands for.
pub fn decode_escape(intermediates: &Vec<u8>, byte: u8) -> (operations: Vec<Operation>)
    ensures
        operations@ == escape_operations(intermediates@, byte),
{
    if byte == 0x45 {
        return new_line();
    }
    let operation = if byte == 0x42 {
        match charset_index(intermediates) {
            Some(slot) => Some(Operation::ConfigureCharset(slot, StandardCharset::Ascii)),
            None => None,
        }
    } else if byte == 0x30 {
        match charset_index(intermediates) {
            Some(slot) => Some(
                Operation::ConfigureCharset(slot, StandardCharset::SpecialCharacterAndLineDrawing),
            ),
            None => None,
        }
    } else if byte == 0x44 {
        Some(Operation::Linefeed)
    } else if byte == 0x48 {
        Some(Operation::SetHorizontalTabstop)
    } else if byte == 0x4d {
        Some(Operation::ReverseIndex)
    } else if byte == 0x5a {
        Some(Operation::IdentifyTerminal)
    } else if byte == 0x63 {
        Some(Operation::ResetState)
    } else if byte == 0x37 {
        Some(Operation::SaveCursorPosition)
    } else if byte == 0x38 {
        if intermediates.len() > 0 && intermediates[0] == 0x23 {
            Some(Operation::Dectest)
        } else {
            Some(Operation::RestoreCursorPosition)
        }
    } else if byte == 0x3d {
        Some(Operation::SetKeypadApplicationMode)
    } else if byte == 0x3e {
        Some(Operation::UnsetKeypadApplicationMode)
    } else {
        None
    };
    zero_or_one(operation)
}

/// The operation that a control sequence stands for, for the sequences that stand for one
/// operation at most.
fn decode_single(params: &Vec<i64>, private: bool, action: char) -> (operation: Option<
    Operation,
>)
    ensures
        operation == sequence_operation(params@, private, action),
{
    let count = to_count(arg_or_default(params, 0, 1));
    let choice = arg_or_default(params, 0, 0);
    if action == '@' {
        Some(Operation::InsertBlank(Column(count)))
    } else if action == 'A' {
        Some(Operation::MoveUp(Line(count)))
    } else if action == 'B' || action == 'e' {
        Some(Operation::MoveDown(Line(count)))
    } else if action == 'c' {
        Some(Operation::IdentifyTerminal)
    } else if action == 'C' || action == 'a' {
        Some(Operation::MoveForward(Column(count)))
    } else if action == 'D' {
        Some(Operation::MoveBackward(Column(count)))
    } else if action == 'E' {
        Some(Operation::MoveDownAndCr(Line(count)))
    } else if action == 'F' {
        Some(Operation::MoveUpAndCr(Line(count)))
    } else if action == 'g' {
        if choice == 0 {
            Some(Operation::ClearTabs(TabulationClearMode::Current))
        } else if choice == 3 {
            Some(Operation::ClearTabs(TabulationClearMode::All))
        } else {
            None
        }
    } else if action == 'G' || action == '`' {
        Some(Operation::GotoCol(Column(counted_from_one(count))))
    } else if action == 'H' || action == 'f' {
        let col = to_count(arg_or_default(params, 1, 1));
        Some(Operation::Goto(Line(counted_from_one(count)), Column(counted_from_one(col))))
    } else if action == 'I' {
        Some(Operation::MoveForwardTabs(arg_or_default(params, 0, 1)))
    } else if action == 'J' {
        if choice == 0 {
            Some(Operation::ClearScreen(ClearMode::Below))
        } else if choice == 1 {
            Some(Operation::ClearScreen(ClearMode::Above))
        } else if choice == 2 {
            Some(Operation::ClearScreen(ClearMode::All))
        } else if choice == 3 {
            Some(Operation::ClearScreen(ClearMode::Saved))
        } else {
            None
        }
    } else if action == 'K' {
        if choice == 0 {
            Some(Operation::ClearLine(LineClearMode::Right))
        } else if choice == 1 {
            Some(Operation::ClearLine(LineClearMode::Left))
        } else if choice == 2 {
            Some(Operation::ClearLine(LineClearMode::All))
        } else {
            None
        }
    } else if action == 'S' {
        Some(Operation::ScrollUp(Line(count)))
    } else if action == 'T' {
        Some(Operation::ScrollDown(Line(count)))
    } else if action == 'L' {
        Some(Operation::InsertBlankLines(Line(count)))
    } else if action == 'M' {
        Some(Operation::DeleteLines(Line(count)))
    } else if action == 'X' {
        Some(Operation::EraseChars(Column(count)))
    } else if action == 'P' {
        Some(Operation::DeleteChars(Column(count)))
    } else if action == 'Z' {
        Some(Operation::MoveBackwardTabs(arg_or_default(params, 0, 1)))
    } else if action == 'd' {
        Some(Operation::GotoLine(Line(counted_from_one(count))))
    } else if action == 'n' {
        Some(Operation::DeviceStatus(to_count(choice)))
    } else if action == 'r' {
        if private {
            None
        } else {
            let bottom = arg_or_default(params, 1, 0);
            Some(
                Operation::SetScrollingRegion(
                    Line(counted_from_one(count)),
                    if bottom == 0 {
                        None
                    } else {
                        Some(Line(to_count(bottom)))
                    },
                ),
            )
        }
    } else if action == 's' {
        Some(Operation::SaveCursorPosition)
    } else if action == 'u' {
        Some(Operation::RestoreCursorPosition)
    } else if action == 'q' {
        if 0 <= choice && choice <= 2 {
            Some(Operation::SetCursorStyle(CursorStyle::Block))
        } else if choice == 3 || choice == 4 {
            Some(Operation::SetCursorStyle(CursorStyle::Underline))
        } else if choice == 5 || choice == 6 {
            Some(Operation::SetCursorStyle(CursorStyle::Beam))
        } else {
            None
        }
    } else {
        None
    }
}

/// The operations that a control sequence stands for.
pub fn decode_sequence(params: &Vec<i64>, intermediates: &Vec<u8>, action: char) -> (operations:
    Vec<Operation>)
    ensures
        operations@ == sequence_operations(params@, intermediates@, action),
{
    let private = intermediates.len() > 0 && intermediates[0] == 0x3f;
    if action == 'h' {
        decode_modes(params, private, true)
    } else if action == 'l' {
        decode_modes(params, private, false)
    } else if action == 'm' {
        if params.len() == 0 {
            zero_or_one(Some(Operation::TerminalAttribute(Attr::Reset)))
        } else {
            decode_attributes(params)
        }
    } else {
        zero_or_one(decode_single(params, private, action))
    }
}

} // verus!
