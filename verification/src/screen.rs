//! The mathematical model of one terminal screen: what each operation of a terminal does
//! to its cells, its cursor and its view into the scrollback.

use vstd::prelude::*;
use crate::ansi::{
    Attr, ClearMode, CursorStyle, LineClearMode, Mode, Operation, cell_color,
};
use crate::buffer::{
    GraphemeCell, MAX_EXTENT, MAX_INDEX, cleared_line, displayed_rows, emptied, grown,
    grown_rows, lemma_grown_within_extent, total_rows, within_extent,
};
use crate::cursor::{CursorState, TAB_COLUMN_WIDTH, WrappingMode};
use crate::index::{Column, Line};
use crate::style::{BoolModifyMode, Style, StyleModifier, TextFormat, TextFormatModifier};

verus! {

/// `value`, moved into the range of cell indices.
pub open spec fn clamp_index(value: int) -> i32 {
    if value < 0 {
        0
    } else if value > MAX_INDEX {
        MAX_INDEX
    } else {
        value as i32
    }
}

/// The first displayed row below a window: the scrollback position, or the end of the
/// `rows` displayed rows where the window follows the tail.
pub open spec fn viewport_end(rows: nat, position: Option<u64>) -> int {
    match position {
        Some(p) => p as int,
        None => rows as int,
    }
}

/// The first displayed row that a window of `height` rows shows, given that the first row
/// below it is `end`: the window ends there, and no row is above the first one.
pub open spec fn first_shown(end: int, height: nat) -> int {
    if end > height {
        end - height
    } else {
        0
    }
}

/// The window row that the first displayed row stands in, given that the first row below
/// the window is `end`. Where fewer than `height` rows end there, they stand at the bottom
/// of the window, and the window rows above them are not drawn to.
pub open spec fn first_window_row(end: int, height: nat) -> int {
    if end < height {
        height - end
    } else {
        0
    }
}

/// What row `i` of a window of `width` by `height` cells shows of `lines`: the displayed
/// row `end - height + i`, where `end` is the first displayed row below the window, so
/// that the bottom row of the window shows the last row above `end`. A window row for
/// which there is no such displayed row shows nothing, and is not drawn to.
pub open spec fn window_row(
    lines: Seq<Seq<GraphemeCell>>,
    width: nat,
    height: nat,
    position: Option<u64>,
    i: int,
) -> Option<Seq<GraphemeCell>> {
    let all = displayed_rows(lines, width);
    let row = viewport_end(all.len(), position) - height + i;
    if 0 <= i < height && 0 <= row < all.len() {
        Some(all[row])
    } else {
        None
    }
}

/// The rows that a window of `width` by `height` cells shows of `lines`, top to bottom.
/// With `position` absent the window follows the tail. Otherwise `position` is the first
/// displayed row below the window. Window row `i` shows the displayed row
/// `end - height + i`, where `end` is that first row below the window, and is not drawn
/// to where there is no such row.
pub open spec fn viewport(
    lines: Seq<Seq<GraphemeCell>>,
    width: nat,
    height: nat,
    position: Option<u64>,
) -> Seq<Seq<GraphemeCell>> {
    let all = displayed_rows(lines, width);
    let end = viewport_end(all.len(), position);
    let first = first_shown(end, height);
    let last = if end < all.len() {
        end
    } else {
        all.len() as int
    };
    if first < last {
        all.subrange(first, last)
    } else {
        Seq::empty()
    }
}

/// The style change that paints a cursor of the given shape onto a cell. A beam cannot be
/// shown in a cell grid and is painted as an underline.
pub open spec fn cursor_toggle(shape: CursorStyle) -> StyleModifier {
    match shape {
        CursorStyle::Block => StyleModifier {
            format: TextFormatModifier {
                invert: BoolModifyMode::Toggle,
                ..TextFormatModifier::identity()
            },
            ..StyleModifier::identity()
        },
        CursorStyle::Underline | CursorStyle::Beam => StyleModifier {
            format: TextFormatModifier {
                underline: BoolModifyMode::Toggle,
                ..TextFormatModifier::identity()
            },
            ..StyleModifier::identity()
        },
    }
}

/// The modifier that an attribute stacks onto the cursor's, for the attributes that are
/// supported and do not reset.
pub open spec fn attribute_modifier(attr: Attr) -> Option<StyleModifier> {
    let format = TextFormatModifier::identity();
    let plain = StyleModifier::identity();
    match attr {
        Attr::Bold => Some(
            StyleModifier {
                format: TextFormatModifier { bold: BoolModifyMode::Yes, ..format },
                ..plain
            },
        ),
        Attr::CancelBold | Attr::CancelBoldDim => Some(
            StyleModifier {
                format: TextFormatModifier { bold: BoolModifyMode::No, ..format },
                ..plain
            },
        ),
        Attr::Italic => Some(
            StyleModifier {
                format: TextFormatModifier { italic: BoolModifyMode::Yes, ..format },
                ..plain
            },
        ),
        Attr::CancelItalic => Some(
            StyleModifier {
                format: TextFormatModifier { italic: BoolModifyMode::No, ..format },
                ..plain
            },
        ),
        Attr::Underscore => Some(
            StyleModifier {
                format: TextFormatModifier { underline: BoolModifyMode::Yes, ..format },
                ..plain
            },
        ),
        Attr::CancelUnderline => Some(
            StyleModifier {
                format: TextFormatModifier { underline: BoolModifyMode::No, ..format },
                ..plain
            },
        ),
        Attr::Reverse => Some(
            StyleModifier {
                format: TextFormatModifier { invert: BoolModifyMode::Yes, ..format },
                ..plain
            },
        ),
        Attr::CancelReverse => Some(
            StyleModifier {
                format: TextFormatModifier { invert: BoolModifyMode::No, ..format },
                ..plain
            },
        ),
        Attr::Foreground(color) => Some(StyleModifier { fg_color: Some(cell_color(color)), ..plain }),
        Attr::Background(color) => Some(StyleModifier { bg_color: Some(cell_color(color)), ..plain }),
        _ => None,
    }
}

/// Whether a terminal supports an operation. An operation that it does not support
/// changes nothing. Setting the title and ringing the bell are accepted, and change
/// nothing either.
pub open spec fn supported(operation: Operation) -> bool {
    match operation {
        Operation::SetTitle => true,
        Operation::Bell => true,
        Operation::SetCursorStyle(_) => true,
        Operation::Input(_) => true,
        Operation::Goto(_, _) => true,
        Operation::GotoLine(_) => true,
        Operation::GotoCol(_) => true,
        Operation::MoveUp(_) => true,
        Operation::MoveDown(_) => true,
        Operation::MoveForward(_) => true,
        Operation::MoveBackward(_) => true,
        Operation::PutTab(_) => true,
        Operation::Backspace => true,
        Operation::CarriageReturn => true,
        Operation::Linefeed => true,
        Operation::ClearLine(_) => true,
        Operation::ClearScreen(mode) => mode != ClearMode::Saved,
        Operation::TerminalAttribute(attr) => attr == Attr::Reset || attribute_modifier(attr)
            is Some,
        Operation::SetMode(mode) => mode == Mode::ShowCursor || mode
            == Mode::SwapScreenAndSetRestoreCursor,
        Operation::UnsetMode(mode) => mode == Mode::ShowCursor || mode
            == Mode::SwapScreenAndSetRestoreCursor,
        _ => false,
    }
}

/// Those of `operations` that a terminal does not support, in order.
pub open spec fn unsupported_of(operations: Seq<Operation>) -> Seq<Operation>
    decreases operations.len(),
{
    if operations.len() == 0 {
        Seq::empty()
    } else if supported(operations.last()) {
        unsupported_of(operations.drop_last())
    } else {
        unsupported_of(operations.drop_last()).push(operations.last())
    }
}

/// Whether an operation makes the other screen the active one, or may do so.
pub open spec fn switches_screen(operation: Operation) -> bool {
    operation == Operation::SetMode(Mode::SwapScreenAndSetRestoreCursor) || operation
        == Operation::UnsetMode(Mode::SwapScreenAndSetRestoreCursor)
}

/// Whether `operations` display a character and do not switch the screen after the last
/// character that they display.
pub open spec fn output_stays(operations: Seq<Operation>) -> bool
    decreases operations.len(),
{
    if operations.len() == 0 {
        false
    } else if operations.last() is Input {
        true
    } else if switches_screen(operations.last()) {
        false
    } else {
        output_stays(operations.drop_last())
    }
}

/// One terminal screen.
pub struct Screen {
    /// The size of the window that the screen was last laid out for.
    pub width: u16,
    pub height: u16,
    /// Everything written so far, oldest line first.
    pub lines: Seq<Seq<GraphemeCell>>,
    /// The style that the cursor's modifier is applied to.
    pub base_style: Style,
    pub cursor: CursorState,
    /// The first displayed row below the window, or nothing where the window follows the
    /// tail of the buffer.
    pub scrollback_position: Option<u64>,
    /// The number of displayed rows that one scroll step moves the window by.
    pub scroll_step: u64,
    pub cursor_style: CursorStyle,
    pub show_cursor: bool,
}

impl Screen {
    /// The screen of a new terminal.
    pub open spec fn initial() -> Screen {
        Screen {
            width: 0,
            height: 0,
            lines: Seq::empty(),
            base_style: Style::plain(),
            cursor: CursorState::initial(),
            scrollback_position: None,
            scroll_step: 1,
            cursor_style: CursorStyle::Block,
            show_cursor: true,
        }
    }

    /// The screen's invariant.
    pub open spec fn inv(self) -> bool {
        within_extent(self.lines) && self.cursor.inv()
    }

    /// The style that the next cell is written in.
    pub open spec fn active_style(self) -> Style {
        self.cursor.style_modifier.applied(self.base_style)
    }

    pub open spec fn with_cursor_at(self, col: i32, row: i32) -> Screen {
        Screen { cursor: CursorState { col, row, ..self.cursor }, ..self }
    }

    pub open spec fn with_modifier(self, modifier: StyleModifier) -> Screen {
        Screen { cursor: CursorState { style_modifier: modifier, ..self.cursor }, ..self }
    }

    /// The screen with `cell` in column `x` of row `y`, grown to hold it.
    pub open spec fn with_cell(self, x: int, y: int, cell: GraphemeCell) -> Screen {
        let rows = grown(self.lines, x, y);
        Screen { lines: rows.update(y, rows[y].update(x, cell)), ..self }
    }

    /// The buffer row of the first line of the visible region.
    pub open spec fn visible_start(self) -> int {
        if self.lines.len() > self.height {
            self.lines.len() - self.height
        } else {
            0
        }
    }

    /// The buffer row that a line of the visible region stands for.
    pub open spec fn buffer_row(self, line: Line) -> i32 {
        clamp_index(self.visible_start() + line.0)
    }

    /// Whether the next write starts a new row first: the cursor wraps, and stands at or
    /// beyond the width of the window.
    pub open spec fn wraps_before_write(self) -> bool {
        self.cursor.wrapping_mode == WrappingMode::Wrap && 0 < self.width <= self.cursor.col
    }

    /// Where the next write goes.
    pub open spec fn write_position(self) -> (i32, i32) {
        if self.wraps_before_write() {
            (0, clamp_index(self.cursor.row + 1))
        } else {
            (self.cursor.col, self.cursor.row)
        }
    }

    /// Writes one grapheme at the cursor in the active style and advances the cursor by one
    /// column.
    pub open spec fn input(self, c: char) -> Screen {
        let (x, y) = self.write_position();
        self.with_cell(
            x as int,
            y as int,
            GraphemeCell { grapheme: c, style: self.active_style() },
        ).with_cursor_at(clamp_index(x + 1), y)
    }

    pub open spec fn goto(self, line: Line, col: Column) -> Screen {
        self.with_cursor_at(clamp_index(col.0 as int), self.buffer_row(line))
    }

    pub open spec fn goto_line(self, line: Line) -> Screen {
        self.with_cursor_at(self.cursor.col, self.buffer_row(line))
    }

    pub open spec fn goto_col(self, col: Column) -> Screen {
        self.with_cursor_at(clamp_index(col.0 as int), self.cursor.row)
    }

    pub open spec fn move_up(self, lines: Line) -> Screen {
        self.with_cursor_at(self.cursor.col, clamp_index(self.cursor.row - lines.0))
    }

    pub open spec fn move_down(self, lines: Line) -> Screen {
        self.with_cursor_at(self.cursor.col, clamp_index(self.cursor.row + lines.0))
    }

    pub open spec fn move_forward(self, cols: Column) -> Screen {
        self.with_cursor_at(clamp_index(self.cursor.col + cols.0), self.cursor.row)
    }

    pub open spec fn move_backward(self, cols: Column) -> Screen {
        self.with_cursor_at(clamp_index(self.cursor.col - cols.0), self.cursor.row)
    }

    pub open spec fn backspace(self) -> Screen {
        self.with_cursor_at(clamp_index(self.cursor.col - 1), self.cursor.row)
    }

    pub open spec fn carriage_return(self) -> Screen {
        self.with_cursor_at(0, self.cursor.row)
    }

    /// Moves the cursor one row down in its column. The row exists afterwards.
    pub open spec fn linefeed(self) -> Screen {
        let row = clamp_index(self.cursor.row + 1);
        Screen { lines: grown_rows(self.lines, row as int), ..self }.with_cursor_at(
            self.cursor.col,
            row,
        )
    }

    /// Writes `count` spaces at the cursor.
    pub open spec fn spaces(self, count: nat) -> Screen
        decreases count,
    {
        if count == 0 {
            self
        } else {
            self.input(' ').spaces((count - 1) as nat)
        }
    }

    /// The number of columns from the cursor to the next tab stop.
    pub open spec fn tab_distance(self) -> nat {
        (TAB_COLUMN_WIDTH - self.cursor.col % TAB_COLUMN_WIDTH) as nat
    }

    /// Writes `count` tabs at the cursor, each as spaces up to the next tab stop.
    pub open spec fn put_tab(self, count: int) -> Screen
        decreases count,
    {
        if count <= 0 {
            self
        } else {
            self.spaces(self.tab_distance()).put_tab(count - 1)
        }
    }

    /// The columns of the current row that a clear affects: from the first up to, but not
    /// including, the second.
    pub open spec fn clear_range(self, mode: LineClearMode) -> (int, int) {
        match mode {
            LineClearMode::Right => (self.cursor.col as int, self.width as int),
            LineClearMode::Left => (0, self.cursor.col + 1),
            LineClearMode::All => (0, self.width as int),
        }
    }

    /// Overwrites a part of the current row with spaces in the active style.
    pub open spec fn clear_line(self, mode: LineClearMode) -> Screen {
        let (from, to) = self.clear_range(mode);
        if from < to {
            let row = self.cursor.row as int;
            let rows = grown_rows(self.lines, row);
            let fill = GraphemeCell { grapheme: ' ', style: self.active_style() };
            Screen { lines: rows.update(row, cleared_line(rows[row], from, to, fill)), ..self }
        } else {
            self
        }
    }

    /// Clears a part of the visible region, which is the last `height` lines of the buffer.
    pub open spec fn clear_screen(self, mode: ClearMode) -> Screen {
        match mode {
            ClearMode::Below => {
                let cleared = self.clear_line(LineClearMode::Right);
                Screen {
                    lines: emptied(
                        cleared.lines,
                        cleared.cursor.row + 1,
                        cleared.lines.len() as int,
                    ),
                    ..cleared
                }
            },
            ClearMode::Above => {
                let cleared = self.clear_line(LineClearMode::Left);
                Screen {
                    lines: emptied(
                        cleared.lines,
                        cleared.visible_start(),
                        cleared.cursor.row as int,
                    ),
                    ..cleared
                }
            },
            ClearMode::All => Screen {
                lines: emptied(self.lines, self.visible_start(), self.lines.len() as int),
                ..self
            },
            ClearMode::Saved => self,
        }
    }

    /// Changes the style that cells are written in. An attribute that is not supported
    /// changes nothing.
    pub open spec fn terminal_attribute(self, attr: Attr) -> Screen {
        match attr {
            Attr::Reset => self.with_modifier(StyleModifier::identity()),
            _ => match attribute_modifier(attr) {
                Some(modifier) => self.with_modifier(
                    modifier.stacked(self.cursor.style_modifier),
                ),
                None => self,
            },
        }
    }

    /// The effect of one operation on a screen by itself. An operation that is not
    /// supported changes nothing, and neither does one that is for both screens.
    #[verifier::opaque]
    pub open spec fn perform(self, operation: Operation) -> Screen {
        match operation {
            Operation::SetCursorStyle(style) => Screen { cursor_style: style, ..self },
            Operation::Input(c) => self.input(c),
            Operation::Goto(line, col) => self.goto(line, col),
            Operation::GotoLine(line) => self.goto_line(line),
            Operation::GotoCol(col) => self.goto_col(col),
            Operation::MoveUp(lines) => self.move_up(lines),
            Operation::MoveDown(lines) => self.move_down(lines),
            Operation::MoveForward(cols) => self.move_forward(cols),
            Operation::MoveBackward(cols) => self.move_backward(cols),
            Operation::PutTab(count) => self.put_tab(count as int),
            Operation::Backspace => self.backspace(),
            Operation::CarriageReturn => self.carriage_return(),
            Operation::Linefeed => self.linefeed(),
            Operation::ClearLine(mode) => self.clear_line(mode),
            Operation::ClearScreen(mode) => self.clear_screen(mode),
            Operation::TerminalAttribute(attr) => self.terminal_attribute(attr),
            _ => self,
        }
    }

    /// The number of rows that the buffer takes on display.
    pub open spec fn displayed_height(self) -> nat {
        total_rows(self.lines, self.width as nat)
    }

    /// The first displayed row below the window.
    pub open spec fn current_scrollback_pos(self) -> int {
        match self.scrollback_position {
            Some(p) => p as int,
            None => self.displayed_height() as int,
        }
    }

    /// Whether a step towards the tail leaves the window short of the tail.
    pub open spec fn can_scroll_forwards(self) -> bool {
        self.current_scrollback_pos() + self.scroll_step < self.displayed_height()
    }

    /// One step towards the tail. A step that would reach the tail follows it from then on.
    pub open spec fn scroll_forwards(self) -> Screen {
        Screen {
            scrollback_position: if self.can_scroll_forwards() {
                Some((self.current_scrollback_pos() + self.scroll_step) as u64)
            } else {
                None
            },
            ..self
        }
    }

    /// Whether there are displayed rows above the window.
    pub open spec fn can_scroll_backwards(self) -> bool {
        self.current_scrollback_pos() > self.height
    }

    /// One step away from the tail, where there is anything above the window.
    pub open spec fn scroll_backwards(self) -> Screen {
        if self.can_scroll_backwards() {
            let target = self.current_scrollback_pos() - self.scroll_step;
            Screen {
                scrollback_position: Some(
                    if target < 0 {
                        0
                    } else {
                        target as u64
                    },
                ),
                ..self
            }
        } else {
            self
        }
    }

    /// To the top of the buffer, where there is anything above the window.
    pub open spec fn scroll_to_beginning(self) -> Screen {
        if self.can_scroll_backwards() {
            Screen { scrollback_position: Some(self.height as u64), ..self }
        } else {
            self
        }
    }

    /// Back to following the tail.
    pub open spec fn scroll_to_end(self) -> Screen {
        Screen { scrollback_position: None, ..self }
    }

    /// Whether a draw to a window of the given size draws anything at all.
    pub open spec fn draws(self, width: u16, height: u16) -> bool {
        width > 0 && height > 0 && self.lines.len() > 0
    }

    /// The cells as they are displayed: where the cursor is shown, the cell under it exists
    /// and has its style toggled.
    pub open spec fn shown_lines(self) -> Seq<Seq<GraphemeCell>> {
        if self.show_cursor {
            let x = self.cursor.col as int;
            let y = self.cursor.row as int;
            let rows = grown(self.lines, x, y);
            let under = rows[y][x];
            rows.update(
                y,
                rows[y].update(
                    x,
                    GraphemeCell {
                        style: cursor_toggle(self.cursor_style).applied(under.style),
                        ..under
                    },
                ),
            )
        } else {
            self.lines
        }
    }

    /// The rows that a draw writes to a window of the given size, top to bottom.
    pub open spec fn drawn_rows(self, width: u16, height: u16) -> Seq<Seq<GraphemeCell>> {
        if self.draws(width, height) {
            viewport(self.shown_lines(), width as nat, height as nat, self.scrollback_position)
        } else {
            Seq::empty()
        }
    }

    /// The window row that the first of the rows of a draw is written to.
    pub open spec fn drawn_from(self, width: u16, height: u16) -> int {
        if self.draws(width, height) {
            first_window_row(
                viewport_end(
                    displayed_rows(self.shown_lines(), width as nat).len(),
                    self.scrollback_position,
                ),
                height as nat,
            )
        } else {
            0
        }
    }
}

/// Which of the two screens of a terminal is in use.
#[derive(Clone, Copy, PartialEq, Eq, Debug)]
pub enum BufferMode {
    Main,
    Alternate,
}

/// The two screens of a terminal. Operations act on the active one and leave the other as
/// it is.
pub struct Screens {
    pub main: Screen,
    pub alternate: Screen,
    pub mode: BufferMode,
}

impl Screens {
    /// The screens of a new terminal.
    pub open spec fn initial() -> Screens {
        Screens { main: Screen::initial(), alternate: Screen::initial(), mode: BufferMode::Main }
    }

    pub open spec fn inv(self) -> bool {
        self.main.inv() && self.alternate.inv()
    }

    /// The screen that is in use.
    pub open spec fn active(self) -> Screen {
        match self.mode {
            BufferMode::Main => self.main,
            BufferMode::Alternate => self.alternate,
        }
    }

    /// The same screens, with `screen` in place of the active one.
    pub open spec fn with_active(self, screen: Screen) -> Screens {
        match self.mode {
            BufferMode::Main => Screens { main: screen, ..self },
            BufferMode::Alternate => Screens { alternate: screen, ..self },
        }
    }

    /// Shows the cursor, or switches to the alternate screen. Other modes are not
    /// supported and change nothing.
    pub open spec fn set_mode(self, mode: Mode) -> Screens {
        match mode {
            Mode::ShowCursor => self.with_active(Screen { show_cursor: true, ..self.active() }),
            Mode::SwapScreenAndSetRestoreCursor => Screens {
                mode: BufferMode::Alternate,
                ..self
            },
            _ => self,
        }
    }

    /// Hides the cursor, or switches back to the main screen. Other modes are not
    /// supported and change nothing.
    pub open spec fn unset_mode(self, mode: Mode) -> Screens {
        match mode {
            Mode::ShowCursor => self.with_active(Screen { show_cursor: false, ..self.active() }),
            Mode::SwapScreenAndSetRestoreCursor => Screens { mode: BufferMode::Main, ..self },
            _ => self,
        }
    }

    /// The effect of one operation. A mode is set or reset for the terminal; everything
    /// else is done to the active screen. An operation that is not supported changes
    /// nothing.
    #[verifier::opaque]
    pub open spec fn perform(self, operation: Operation) -> Screens {
        match operation {
            Operation::SetMode(mode) => self.set_mode(mode),
            Operation::UnsetMode(mode) => self.unset_mode(mode),
            _ => self.with_active(self.active().perform(operation)),
        }
    }

    /// The effect of a sequence of operations, performed in order.
    pub open spec fn perform_all(self, operations: Seq<Operation>) -> Screens
        decreases operations.len(),
    {
        if operations.len() == 0 {
            self
        } else {
            self.perform_all(operations.drop_last()).perform(operations.last())
        }
    }
}

/// Writing a cell keeps a screen valid and removes no line.
pub proof fn lemma_with_cell(screen: Screen, x: int, y: int, cell: GraphemeCell)
    requires
        screen.inv(),
        0 <= x <= MAX_INDEX,
        0 <= y <= MAX_INDEX,
    ensures
        screen.with_cell(x, y, cell).inv(),
        screen.with_cell(x, y, cell).lines.len() >= screen.lines.len(),
        screen.with_cell(x, y, cell).lines.len() > y,
        screen.with_cell(x, y, cell).lines[y].len() > x,
        screen.with_cell(x, y, cell).lines[y][x] == cell,
{
    lemma_grown_within_extent(screen.lines, x, y);
    let rows = grown(screen.lines, x, y);
    assert(rows[y].update(x, cell).len() == rows[y].len());
}

/// Displaying a character keeps a screen valid and removes no line, and the buffer is not
/// empty afterwards.
pub proof fn lemma_input(screen: Screen, c: char)
    requires
        screen.inv(),
    ensures
        screen.input(c).inv(),
        screen.input(c).lines.len() >= screen.lines.len(),
        screen.input(c).lines.len() >= 1,
{
    let (x, y) = screen.write_position();
    lemma_with_cell(
        screen,
        x as int,
        y as int,
        GraphemeCell { grapheme: c, style: screen.active_style() },
    );
}

/// Writing spaces keeps a screen valid and removes no line.
pub proof fn lemma_spaces(screen: Screen, count: nat)
    requires
        screen.inv(),
    ensures
        screen.spaces(count).inv(),
        screen.spaces(count).lines.len() >= screen.lines.len(),
    decreases count,
{
    if count > 0 {
        lemma_input(screen, ' ');
        lemma_spaces(screen.input(' '), (count - 1) as nat);
    }
}

/// Writing tabs keeps a screen valid and removes no line.
pub proof fn lemma_put_tab(screen: Screen, count: int)
    requires
        screen.inv(),
    ensures
        screen.put_tab(count).inv(),
        screen.put_tab(count).lines.len() >= screen.lines.len(),
    decreases count,
{
    if count > 0 {
        lemma_spaces(screen, screen.tab_distance());
        lemma_put_tab(screen.spaces(screen.tab_distance()), count - 1);
    }
}

/// Clearing a part of a row keeps a screen valid and removes no line.
pub proof fn lemma_clear_line(screen: Screen, mode: LineClearMode)
    requires
        screen.inv(),
    ensures
        screen.clear_line(mode).inv(),
        screen.clear_line(mode).lines.len() >= screen.lines.len(),
        screen.clear_line(mode).cursor == screen.cursor,
{
    let (from, to) = screen.clear_range(mode);
    if from < to {
        let row = screen.cursor.row as int;
        let rows = grown_rows(screen.lines, row);
        let cleared = screen.clear_line(mode).lines;
        assert forall|i: int| 0 <= i < cleared.len() implies (#[trigger] cleared[i]).len()
            <= MAX_EXTENT by {
            if i != row {
                if i < screen.lines.len() {
                    assert(screen.lines[i].len() <= MAX_EXTENT);
                }
            } else {
                if row < screen.lines.len() {
                    assert(screen.lines[row].len() <= MAX_EXTENT);
                }
            }
        }
    }
}

/// Emptying rows keeps lines within their extent and removes none.
pub proof fn lemma_emptied(lines: Seq<Seq<GraphemeCell>>, start: int, end: int)
    requires
        within_extent(lines),
    ensures
        within_extent(emptied(lines, start, end)),
        emptied(lines, start, end).len() == lines.len(),
{
    let result = emptied(lines, start, end);
    assert forall|i: int| 0 <= i < result.len() implies (#[trigger] result[i]).len()
        <= MAX_EXTENT by {
        assert(lines[i].len() <= MAX_EXTENT);
    }
}

/// Clearing a part of the visible region keeps a screen valid and removes no line.
pub proof fn lemma_clear_screen(screen: Screen, mode: ClearMode)
    requires
        screen.inv(),
    ensures
        screen.clear_screen(mode).inv(),
        screen.clear_screen(mode).lines.len() >= screen.lines.len(),
{
    match mode {
        ClearMode::Below => {
            lemma_clear_line(screen, LineClearMode::Right);
            let cleared = screen.clear_line(LineClearMode::Right);
            lemma_emptied(cleared.lines, cleared.cursor.row + 1, cleared.lines.len() as int);
        },
        ClearMode::Above => {
            lemma_clear_line(screen, LineClearMode::Left);
            let cleared = screen.clear_line(LineClearMode::Left);
            lemma_emptied(cleared.lines, cleared.visible_start(), cleared.cursor.row as int);
        },
        ClearMode::All => {
            lemma_emptied(screen.lines, screen.visible_start(), screen.lines.len() as int);
        },
        ClearMode::Saved => {},
    }
}

/// A line feed keeps a screen valid and removes no line, and the row of the cursor exists
/// afterwards.
pub proof fn lemma_linefeed(screen: Screen)
    requires
        screen.inv(),
    ensures
        screen.linefeed().inv(),
        screen.linefeed().lines.len() >= screen.lines.len(),
        screen.linefeed().lines.len() > screen.linefeed().cursor.row,
        screen.linefeed().cursor.col == screen.cursor.col,
{
    let row = clamp_index(screen.cursor.row + 1) as int;
    let rows = grown_rows(screen.lines, row);
    assert forall|i: int| 0 <= i < rows.len() implies (#[trigger] rows[i]).len()
        <= MAX_EXTENT by {
        if i < screen.lines.len() {
            assert(screen.lines[i].len() <= MAX_EXTENT);
        }
    }
}

/// Moving the cursor keeps a screen valid and leaves its lines as they are.
pub proof fn lemma_with_cursor_at(screen: Screen, col: i32, row: i32)
    requires
        screen.inv(),
        0 <= col,
        0 <= row,
    ensures
        screen.with_cursor_at(col, row).inv(),
        screen.with_cursor_at(col, row).lines == screen.lines,
{
}

/// Whatever a screen is asked to do, it stays valid and its buffer loses no line.
pub proof fn lemma_screen_perform(screen: Screen, operation: Operation)
    requires
        screen.inv(),
    ensures
        screen.perform(operation).inv(),
        screen.perform(operation).lines.len() >= screen.lines.len(),
{
    reveal(Screen::perform);
    match operation {
        Operation::Input(c) => {
            lemma_input(screen, c);
        },
        Operation::PutTab(count) => {
            lemma_put_tab(screen, count as int);
        },
        Operation::Linefeed => {
            lemma_linefeed(screen);
        },
        Operation::ClearLine(mode) => {
            lemma_clear_line(screen, mode);
        },
        Operation::ClearScreen(mode) => {
            lemma_clear_screen(screen, mode);
        },
        Operation::Goto(line, col) => {
            lemma_with_cursor_at(screen, clamp_index(col.0 as int), screen.buffer_row(line));
        },
        Operation::GotoLine(line) => {
            lemma_with_cursor_at(screen, screen.cursor.col, screen.buffer_row(line));
        },
        Operation::GotoCol(col) => {
            lemma_with_cursor_at(screen, clamp_index(col.0 as int), screen.cursor.row);
        },
        Operation::MoveUp(lines) => {
            lemma_with_cursor_at(
                screen,
                screen.cursor.col,
                clamp_index(screen.cursor.row - lines.0),
            );
        },
        Operation::MoveDown(lines) => {
            lemma_with_cursor_at(
                screen,
                screen.cursor.col,
                clamp_index(screen.cursor.row + lines.0),
            );
        },
        Operation::MoveForward(cols) => {
            lemma_with_cursor_at(
                screen,
                clamp_index(screen.cursor.col + cols.0),
                screen.cursor.row,
            );
        },
        Operation::MoveBackward(cols) => {
            lemma_with_cursor_at(
                screen,
                clamp_index(screen.cursor.col - cols.0),
                screen.cursor.row,
            );
        },
        Operation::Backspace => {
            lemma_with_cursor_at(screen, clamp_index(screen.cursor.col - 1), screen.cursor.row);
        },
        Operation::CarriageReturn => {
            lemma_with_cursor_at(screen, 0, screen.cursor.row);
        },
        Operation::TerminalAttribute(attr) => {
            assert(screen.terminal_attribute(attr).lines == screen.lines);
            assert(screen.terminal_attribute(attr).cursor.col == screen.cursor.col);
            assert(screen.terminal_attribute(attr).cursor.row == screen.cursor.row);
        },
        _ => {},
    }
}

/// Whatever a terminal is asked to do, its two screens stay valid and neither buffer
/// loses a line.
pub proof fn lemma_perform(screens: Screens, operation: Operation)
    requires
        screens.inv(),
    ensures
        screens.perform(operation).inv(),
        screens.perform(operation).main.lines.len() >= screens.main.lines.len(),
        screens.perform(operation).alternate.lines.len() >= screens.alternate.lines.len(),
{
    reveal(Screens::perform);
    match operation {
        Operation::SetMode(mode) => {},
        Operation::UnsetMode(mode) => {},
        _ => {
            lemma_screen_perform(screens.active(), operation);
        },
    }
}

/// Whatever sequence of operations a terminal performs, its two screens stay valid and
/// neither buffer loses a line.
pub proof fn lemma_perform_all(screens: Screens, operations: Seq<Operation>)
    requires
        screens.inv(),
    ensures
        screens.perform_all(operations).inv(),
        screens.perform_all(operations).main.lines.len() >= screens.main.lines.len(),
        screens.perform_all(operations).alternate.lines.len() >= screens.alternate.lines.len(),
    decreases operations.len(),
{
    if operations.len() > 0 {
        lemma_perform_all(screens, operations.drop_last());
        lemma_perform(screens.perform_all(operations.drop_last()), operations.last());
    }
}

/// An operation that a terminal does not support changes nothing.
pub proof fn lemma_unsupported_changes_nothing(screens: Screens, operation: Operation)
    requires
        !supported(operation),
    ensures
        screens.perform(operation) == screens,
{
    reveal(Screens::perform);
    reveal(Screen::perform);
    assert(screens.with_active(screens.active()) == screens);
}

/// The operations that are not supported among two sequences, one after the other, are
/// those of the first followed by those of the second.
pub proof fn lemma_unsupported_concat(first: Seq<Operation>, second: Seq<Operation>)
    ensures
        unsupported_of(first + second) == unsupported_of(first) + unsupported_of(second),
    decreases second.len(),
{
    if second.len() == 0 {
        assert(first + second == first);
        assert(unsupported_of(first) + unsupported_of(second) == unsupported_of(first));
    } else {
        lemma_unsupported_concat(first, second.drop_last());
        assert((first + second).drop_last() == first + second.drop_last());
        assert((first + second).last() == second.last());
        if !supported(second.last()) {
            assert(unsupported_of(first + second) == (unsupported_of(first) + unsupported_of(
                second.drop_last(),
            )).push(second.last()));
            assert(unsupported_of(first + second) =~= unsupported_of(first) + unsupported_of(
                second,
            ));
        }
    }
}

/// Once a terminal has displayed a character, the buffer of the active screen has a line,
/// as long as it has not been asked to switch the screen since, whatever else it has been
/// asked to do before and after.
pub proof fn lemma_output_stays_in_the_active_buffer(
    screens: Screens,
    operations: Seq<Operation>,
)
    requires
        screens.inv(),
        output_stays(operations),
    ensures
        screens.perform_all(operations).active().lines.len() >= 1,
    decreases operations.len(),
{
    let before = screens.perform_all(operations.drop_last());
    lemma_perform_all(screens, operations.drop_last());
    lemma_perform(before, operations.last());
    reveal(Screens::perform);
    match operations.last() {
        Operation::Input(c) => {
            reveal(Screen::perform);
            lemma_input(before.active(), c);
        },
        _ => {
            lemma_output_stays_in_the_active_buffer(screens, operations.drop_last());
            assert(before.perform(operations.last()).mode == before.mode);
        },
    }
}

/// Once a terminal has displayed a character, one of its two buffers has a line, whatever
/// else it has been asked to do before and after.
pub proof fn lemma_output_makes_a_line(screens: Screens, operations: Seq<Operation>)
    requires
        screens.inv(),
        exists|i: int| 0 <= i < operations.len() && #[trigger] operations[i] is Input,
    ensures
        screens.perform_all(operations).main.lines.len() >= 1 || screens.perform_all(
            operations,
        ).alternate.lines.len() >= 1,
    decreases operations.len(),
{
    let before = screens.perform_all(operations.drop_last());
    lemma_perform_all(screens, operations.drop_last());
    lemma_perform(before, operations.last());
    match operations.last() {
        Operation::Input(c) => {
            reveal(Screens::perform);
            reveal(Screen::perform);
            lemma_input(before.active(), c);
        },
        _ => {
            let i = choose|i: int| 0 <= i < operations.len() && #[trigger] operations[i] is Input;
            assert(operations.drop_last()[i] is Input);
            lemma_output_makes_a_line(screens, operations.drop_last());
        },
    }
}

/// Clearing the screen above the cursor leaves every row above the visible region as it
/// is, but for the row of the cursor. With the cursor in the first row of the visible
/// region, or above it, all that is cleared is the row of the cursor up to the cursor.
pub proof fn lemma_clear_above_keeps_rows_above(screen: Screen)
    requires
        screen.inv(),
    ensures
        ({
            let cleared = screen.clear_line(LineClearMode::Left);
            let after = screen.clear_screen(ClearMode::Above);
            &&& forall|i: int|
                0 <= i < screen.lines.len() && i < cleared.visible_start() && i
                    != screen.cursor.row ==> #[trigger] after.lines[i] == screen.lines[i]
            &&& screen.cursor.row <= cleared.visible_start() ==> after == cleared
        }),
{
    let cleared = screen.clear_line(LineClearMode::Left);
    let after = screen.clear_screen(ClearMode::Above);
    if screen.cursor.row <= cleared.visible_start() {
        assert(after.lines =~= cleared.lines);
    }
}

/// The cell that a displayed character was written to holds that character in the active
/// style, and it is the cell that the cursor pointed to unless the cursor wrapped first.
pub proof fn lemma_input_reads_back(screen: Screen, c: char)
    requires
        screen.inv(),
    ensures
        ({
            let (x, y) = screen.write_position();
            let after = screen.input(c);
            &&& y < after.lines.len()
            &&& x < after.lines[y as int].len()
            &&& after.lines[y as int][x as int] == (GraphemeCell {
                grapheme: c,
                style: screen.active_style(),
            })
        }),
        !screen.wraps_before_write() ==> screen.write_position() == (
            screen.cursor.col,
            screen.cursor.row,
        ),
{
    let (x, y) = screen.write_position();
    lemma_with_cell(
        screen,
        x as int,
        y as int,
        GraphemeCell { grapheme: c, style: screen.active_style() },
    );
}

/// After a reset the active style is that of the buffer, whatever it was before. Bold
/// after a reset sets bold and leaves the colors and the other attributes as the buffer
/// has them.
pub proof fn lemma_reset_then_bold(screen: Screen)
    ensures
        screen.terminal_attribute(Attr::Reset).active_style() == screen.base_style,
        screen.terminal_attribute(Attr::Reset).terminal_attribute(Attr::Bold).active_style() == (
            Style {
                format: TextFormat { bold: true, ..screen.base_style.format },
                ..screen.base_style
            }
        ),
{
}

/// Bold changes nothing of the active style but bold.
pub proof fn lemma_bold_sets_only_bold(screen: Screen)
    ensures
        screen.terminal_attribute(Attr::Bold).active_style() == (Style {
            format: TextFormat { bold: true, ..screen.active_style().format },
            ..screen.active_style()
        }),
{
}

/// While the alternate screen is in use, nothing that the terminal is asked to do, short
/// of switching back, changes the main screen. Switching back makes the main screen the
/// active one, as it was left.
pub proof fn lemma_alternate_screen(screens: Screens, operations: Seq<Operation>)
    requires
        forall|i: int|
            0 <= i < operations.len() ==> operations[i] != Operation::UnsetMode(
                Mode::SwapScreenAndSetRestoreCursor,
            ),
    ensures
        ({
            let switched = screens.set_mode(Mode::SwapScreenAndSetRestoreCursor);
            let written = switched.perform_all(operations);
            &&& written.mode == BufferMode::Alternate
            &&& written.main == screens.main
            &&& written.unset_mode(Mode::SwapScreenAndSetRestoreCursor).active() == screens.main
        }),
    decreases operations.len(),
{
    reveal(Screens::perform);
    if operations.len() > 0 {
        lemma_alternate_screen(screens, operations.drop_last());
    }
}

/// Scrolling backwards and then to the end leaves the window following the tail, whether
/// or not it could scroll backwards.
pub proof fn lemma_scroll_back_and_to_end(screen: Screen)
    ensures
        screen.scroll_backwards().scroll_to_end().scrollback_position is None,
        screen.scroll_backwards().scroll_to_end() == screen.scroll_to_end(),
{
}

/// The rows of the viewport are what the rows of the window show, in order, from the
/// window row `first_window_row` on; the other rows of the window show nothing.
pub proof fn lemma_viewport_rows(
    lines: Seq<Seq<GraphemeCell>>,
    width: nat,
    height: nat,
    position: Option<u64>,
)
    ensures
        ({
            let end = viewport_end(displayed_rows(lines, width).len(), position);
            let top = first_window_row(end, height);
            let shown = viewport(lines, width, height, position);
            &&& 0 <= top <= height
            &&& top + shown.len() <= height
            &&& forall|i: int|
                #[trigger] window_row(lines, width, height, position, i) == if top <= i < top
                    + shown.len() {
                    Some(shown[i - top])
                } else {
                    None
                }
        }),
{
}

/// A window that follows the tail shows the last displayed rows, as many as it is high,
/// or all of them where they are fewer, and the last of them stands in its bottom row.
pub proof fn lemma_tail_viewport(lines: Seq<Seq<GraphemeCell>>, width: nat, height: nat)
    ensures
        ({
            let all = displayed_rows(lines, width);
            let shown = viewport(lines, width, height, None);
            let top = first_window_row(all.len() as int, height);
            &&& all.len() >= height ==> shown == all.subrange(all.len() - height, all.len() as int)
            &&& all.len() < height ==> shown == all
            &&& top + shown.len() == height
        }),
{
    let all = displayed_rows(lines, width);
    if all.len() < height {
        assert(viewport(lines, width, height, None) =~= all);
    }
}

} // verus!
