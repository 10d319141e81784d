//! The screens of a terminal: a cell buffer with a cursor that writes to it, a window that
//! looks at it, and the pair of screens that full-screen programs switch between.

use vstd::prelude::*;
use crate::ansi::{
    Attr, ClearMode, CursorStyle, LineClearMode, Mode, Operation, ansi_to_unsegen_color,
};
use crate::buffer::{
    GraphemeCell, LineBuffer, MAX_INDEX, cell_at, cells_of_rows, grown, lemma_cut_back_grown,
    lemma_displayed_rows_len,
};
use crate::cursor::{CursorState, TAB_COLUMN_WIDTH, WrappingMode};
use crate::index::{Column, Line};
use crate::screen::{BufferMode, Screen, Screens, clamp_index, supported};
use crate::style::{BoolModifyMode, Style, StyleModifier};

verus! {

/// The index `by` steps after `index`, or the last index where that is nearer.
fn advance_index(index: i32, by: usize) -> (moved: i32)
    requires
        index >= 0,
    ensures
        moved == clamp_index(index + by),
{
    let room = (MAX_INDEX - index) as usize;
    if by >= room {
        MAX_INDEX
    } else {
        index + by as i32
    }
}

/// The index `by` steps before `index`, or the first index where that is nearer.
fn retreat_index(index: i32, by: usize) -> (moved: i32)
    requires
        index >= 0,
    ensures
        moved == clamp_index(index - by),
{
    if by >= index as usize {
        0
    } else {
        index - by as i32
    }
}

/// The index that `value` names, or the last index where `value` is beyond it.
fn index_of(value: usize) -> (index: i32)
    ensures
        index == clamp_index(value as int),
{
    if value > MAX_INDEX as usize {
        MAX_INDEX
    } else {
        value as i32
    }
}

/// Whether a terminal supports an operation. One that it does not support changes
/// nothing when it is performed.
pub fn is_supported(operation: Operation) -> (is: bool)
    ensures
        is == supported(operation),
{
    match operation {
        Operation::SetTitle => true,
        Operation::Bell => true,
        Operation::SetCursorStyle(_) => true,
        Operation::Input(_) => true,
        Operation::Goto(_, _) => true,
        Operation::GotoLine(_) => true,
        Operation::GotoCol(_) => true,
        Operation::MoveUp(_) => true,
        Operation::MoveDown(_) => true,
        Operation::MoveForward(_) => true,
        Operation::MoveBackward(_) => true,
        Operation::PutTab(_) => true,
        Operation::Backspace => true,
        Operation::CarriageReturn => true,
        Operation::Linefeed => true,
        Operation::ClearLine(_) => true,
        Operation::ClearScreen(mode) => match mode {
            ClearMode::Saved => false,
            _ => true,
        },
        Operation::TerminalAttribute(attr) => match attr {
            Attr::Dim => false,
            Attr::BlinkSlow => false,
            Attr::BlinkFast => false,
            Attr::Hidden => false,
            Attr::Strike => false,
            Attr::CancelBlink => false,
            Attr::CancelHidden => false,
            Attr::CancelStrike => false,
            _ => true,
        },
        Operation::SetMode(mode) => match mode {
            Mode::ShowCursor => true,
            Mode::SwapScreenAndSetRestoreCursor => true,
            _ => false,
        },
        Operation::UnsetMode(mode) => match mode {
            Mode::ShowCursor => true,
            Mode::SwapScreenAndSetRestoreCursor => true,
            _ => false,
        },
        _ => false,
    }
}

/// How much room a widget asks for in one dimension.
#[derive(Clone, Copy, PartialEq, Eq, Debug)]
pub struct Demand {
    pub min: u16,
    /// The most that the widget can use, or nothing where it can use any room.
    pub max: Option<u16>,
}

/// How much room a widget asks for.
#[derive(Clone, Copy, PartialEq, Eq, Debug)]
pub struct Demand2D {
    pub width: Demand,
    pub height: Demand,
}

/// What a draw of a screen writes to a window.
pub struct Drawn {
    /// The window row that the first of the rows is for.
    pub first_row: u16,
    /// The cells for consecutive rows of the window, top to bottom, each from the first
    /// column on.
    pub rows: Vec<Vec<GraphemeCell>>,
}

/// One screen of a terminal: the buffer that the child's output is written to, the cursor
/// that writes it, and the position of the window that shows it.
pub struct TerminalWindow {
    window_width: u16,
    window_height: u16,
    buffer: LineBuffer,
    cursor_state: CursorState,
    scrollback_position: Option<u64>,
    scroll_step: u64,
    cursor_style: CursorStyle,
    show_cursor: bool,
}

impl View for TerminalWindow {
    type V = Screen;

    closed spec fn view(&self) -> Screen {
        Screen {
            width: self.window_width,
            height: self.window_height,
            lines: self.buffer.lines(),
            base_style: self.buffer.base_style(),
            cursor: self.cursor_state,
            scrollback_position: self.scrollback_position,
            scroll_step: self.scroll_step,
            cursor_style: self.cursor_style,
            show_cursor: self.show_cursor,
        }
    }
}

impl TerminalWindow {
    /// The window's invariant: that of its screen, and that its buffer wraps at the
    /// window's width.
    pub closed spec fn inv(&self) -> bool {
        &&& self@.inv()
        &&& self.buffer.soft_width() == self.window_width
    }

    /// The invariant of the window is that of its screen.
    pub proof fn lemma_inv(&self)
        requires
            self.inv(),
        ensures
            self@.inv(),
    {
    }

    pub fn new() -> (window: TerminalWindow)
        ensures
            window@ == Screen::initial(),
            window.inv(),
    {
        TerminalWindow {
            window_width: 0,
            window_height: 0,
            buffer: LineBuffer::new(),
            cursor_state: CursorState::default(),
            scrollback_position: None,
            scroll_step: 1,
            cursor_style: CursorStyle::Block,
            show_cursor: true,
        }
    }

    /// The first displayed row below the window.
    fn current_scrollback_pos(&self) -> (position: u64)
        requires
            self.inv(),
        ensures
            position == self@.current_scrollback_pos(),
    {
        match self.scrollback_position {
            Some(position) => position,
            None => self.buffer.height_as_displayed(),
        }
    }

    pub fn set_show_cursor(&mut self, show: bool)
        requires
            old(self).inv(),
        ensures
            final(self).inv(),
            final(self)@ == (Screen { show_cursor: show, ..old(self)@ }),
    {
        self.show_cursor = show;
    }

    /// Sets the width of the window, which is also the width that lines are wrapped at for
    /// display.
    pub fn set_width(&mut self, w: u16)
        requires
            old(self).inv(),
        ensures
            final(self).inv(),
            final(self)@ == (Screen { width: w, ..old(self)@ }),
    {
        self.window_width = w;
        self.buffer.set_window_width(w);
    }

    pub fn set_height(&mut self, h: u16)
        requires
            old(self).inv(),
        ensures
            final(self).inv(),
            final(self)@ == (Screen { height: h, ..old(self)@ }),
    {
        self.window_height = h;
    }

    pub fn get_width(&self) -> (width: u16)
        ensures
            width == self@.width,
    {
        self.window_width
    }

    pub fn get_height(&self) -> (height: u16)
        ensures
            height == self@.height,
    {
        self.window_height
    }

    /// Sets what the cursor does when it writes at or beyond the width of the window.
    pub fn set_wrapping_mode(&mut self, mode: WrappingMode)
        requires
            old(self).inv(),
        ensures
            final(self).inv(),
            final(self)@ == (Screen {
                cursor: CursorState { wrapping_mode: mode, ..old(self)@.cursor },
                ..old(self)@
            }),
    {
        self.cursor_state.wrapping_mode = mode;
    }

    /// The buffer row that a line of the visible region stands for.
    fn line_to_buffer_pos_y(&self, line: Line) -> (row: i32)
        requires
            self.inv(),
        ensures
            row == self@.buffer_row(line),
    {
        let count = self.buffer.line_count();
        let height = self.window_height as usize;
        let start = if count > height {
            count - height
        } else {
            0
        };
        advance_index(index_of(start), line.0)
    }

    /// The buffer column that a column of the visible region stands for.
    fn col_to_buffer_pos_x(&self, col: Column) -> (x: i32)
        ensures
            x == clamp_index(col.0 as int),
    {
        index_of(col.0)
    }

    /// Puts `cell` in column `x` of row `y`. The buffer grows to hold it.
    fn write_cell(&mut self, x: i32, y: i32, cell: GraphemeCell)
        requires
            old(self).inv(),
            x >= 0,
            y >= 0,
        ensures
            final(self).inv(),
            final(self)@ == old(self)@.with_cell(x as int, y as int, cell),
    {
        match self.buffer.get_cell_mut(x, y) {
            Some(target) => {
                *target = cell;
            },
            None => {},
        }
    }

    /// The style that the next cell is written in.
    pub fn active_style(&self) -> (style: Style)
        ensures
            style == self@.active_style(),
    {
        self.cursor_state.style_modifier.apply(self.buffer.get_default_style())
    }

    /// Displays a character: writes it at the cursor in the active style and advances the
    /// cursor by one column. A wrapping cursor that stands at or beyond the width of the
    /// window moves to the start of the next row first.
    pub fn input(&mut self, c: char)
        requires
            old(self).inv(),
        ensures
            final(self).inv(),
            final(self)@ == old(self)@.input(c),
    {
        let style = self.active_style();
        let wraps = match self.cursor_state.wrapping_mode {
            WrappingMode::Wrap => 0 < self.window_width && self.window_width as i32
                <= self.cursor_state.col,
            WrappingMode::NoWrap => false,
        };
        let (x, y) = if wraps {
            (0, advance_index(self.cursor_state.row, 1))
        } else {
            (self.cursor_state.col, self.cursor_state.row)
        };
        self.write_cell(x, y, GraphemeCell::new(c, style));
        self.cursor_state.col = advance_index(x, 1);
        self.cursor_state.row = y;
    }

    /// Moves the cursor to a line and a column of the visible region.
    pub fn goto(&mut self, line: Line, col: Column)
        requires
            old(self).inv(),
        ensures
            final(self).inv(),
            final(self)@ == old(self)@.goto(line, col),
    {
        let x = self.col_to_buffer_pos_x(col);
        let y = self.line_to_buffer_pos_y(line);
        self.cursor_state.col = x;
        self.cursor_state.row = y;
    }

    /// Moves the cursor to a line of the visible region.
    pub fn goto_line(&mut self, line: Line)
        requires
            old(self).inv(),
        ensures
            final(self).inv(),
            final(self)@ == old(self)@.goto_line(line),
    {
        let y = self.line_to_buffer_pos_y(line);
        self.cursor_state.row = y;
    }

    /// Moves the cursor to a column.
    pub fn goto_col(&mut self, col: Column)
        requires
            old(self).inv(),
        ensures
            final(self).inv(),
            final(self)@ == old(self)@.goto_col(col),
    {
        let x = self.col_to_buffer_pos_x(col);
        self.cursor_state.col = x;
    }

    /// Moves the cursor up, but not above the first row of the buffer.
    pub fn move_up(&mut self, lines: Line)
        requires
            old(self).inv(),
        ensures
            final(self).inv(),
            final(self)@ == old(self)@.move_up(lines),
    {
        self.cursor_state.row = retreat_index(self.cursor_state.row, lines.0);
    }

    /// Moves the cursor down.
    pub fn move_down(&mut self, lines: Line)
        requires
            old(self).inv(),
        ensures
            final(self).inv(),
            final(self)@ == old(self)@.move_down(lines),
    {
        self.cursor_state.row = advance_index(self.cursor_state.row, lines.0);
    }

    /// Moves the cursor to the right.
    pub fn move_forward(&mut self, cols: Column)
        requires
            old(self).inv(),
        ensures
            final(self).inv(),
            final(self)@ == old(self)@.move_forward(cols),
    {
        self.cursor_state.col = advance_index(self.cursor_state.col, cols.0);
    }

    /// Moves the cursor to the left, but not beyond the first column.
    pub fn move_backward(&mut self, cols: Column)
        requires
            old(self).inv(),
        ensures
            final(self).inv(),
            final(self)@ == old(self)@.move_backward(cols),
    {
        self.cursor_state.col = retreat_index(self.cursor_state.col, cols.0);
    }

    /// Writes `count` spaces at the cursor.
    fn put_spaces(&mut self, count: usize)
        requires
            old(self).inv(),
        ensures
            final(self).inv(),
            final(self)@ == old(self)@.spaces(count as nat),
    {
        let mut left = count;
        while left > 0
            invariant
                self.inv(),
                self@.spaces(left as nat) == old(self)@.spaces(count as nat),
            decreases left,
        {
            self.input(' ');
            left = left - 1;
        }
    }

    /// Writes `count` tabs at the cursor, each as spaces up to the next tab stop.
    pub fn put_tab(&mut self, count: i64)
        requires
            old(self).inv(),
        ensures
            final(self).inv(),
            final(self)@ == old(self)@.put_tab(count as int),
    {
        let mut left = count;
        while left > 0
            invariant
                self.inv(),
                self@.put_tab(left as int) == old(self)@.put_tab(count as int),
            decreases left,
        {
            let distance = TAB_COLUMN_WIDTH - self.cursor_state.col % TAB_COLUMN_WIDTH;
            self.put_spaces(distance as usize);
            left = left - 1;
        }
    }

    /// Moves the cursor one column to the left, but not beyond the first column.
    pub fn backspace(&mut self)
        requires
            old(self).inv(),
        ensures
            final(self).inv(),
            final(self)@ == old(self)@.backspace(),
    {
        self.cursor_state.col = retreat_index(self.cursor_state.col, 1);
    }

    /// Moves the cursor to the first column.
    pub fn carriage_return(&mut self)
        requires
            old(self).inv(),
        ensures
            final(self).inv(),
            final(self)@ == old(self)@.carriage_return(),
    {
        self.cursor_state.col = 0;
    }

    /// Moves the cursor one row down in its column. The buffer grows so that the row
    /// exists.
    pub fn linefeed(&mut self)
        requires
            old(self).inv(),
        ensures
            final(self).inv(),
            final(self)@ == old(self)@.linefeed(),
    {
        let row = advance_index(self.cursor_state.row, 1);
        self.buffer.ensure_row(row);
        self.cursor_state.row = row;
    }

    /// Overwrites a part of the current row with spaces in the active style: from the
    /// cursor to the width of the window, from the first column to the cursor, or from
    /// the first column to the width of the window.
    pub fn clear_line(&mut self, mode: LineClearMode)
        requires
            old(self).inv(),
        ensures
            final(self).inv(),
            final(self)@ == old(self)@.clear_line(mode),
    {
        let col = self.cursor_state.col as usize;
        let width = self.window_width as usize;
        let (from, to) = match mode {
            LineClearMode::Right => (col, width),
            LineClearMode::Left => (0, col + 1),
            LineClearMode::All => (0, width),
        };
        if from < to {
            let fill = GraphemeCell::new(' ', self.active_style());
            self.buffer.fill_cells(self.cursor_state.row, from, to, fill);
        }
    }

    /// Clears a part of the visible region, which is the last lines of the buffer, as many
    /// as the window is high. Below: the rest of the current row, and all rows below it.
    /// Above: the current row up to the cursor, and the rows of the visible region above
    /// it. All: the visible region. The rows stay in the buffer, empty.
    pub fn clear_screen(&mut self, mode: ClearMode)
        requires
            old(self).inv(),
        ensures
            final(self).inv(),
            final(self)@ == old(self)@.clear_screen(mode),
    {
        match mode {
            ClearMode::Below => {
                self.clear_line(LineClearMode::Right);
                let end = self.buffer.line_count();
                let start = self.cursor_state.row as usize + 1;
                self.buffer.empty_lines(start, end);
            },
            ClearMode::Above => {
                self.clear_line(LineClearMode::Left);
                let count = self.buffer.line_count();
                let height = self.window_height as usize;
                let start = if count > height {
                    count - height
                } else {
                    0
                };
                self.buffer.empty_lines(start, self.cursor_state.row as usize);
            },
            ClearMode::All => {
                let count = self.buffer.line_count();
                let height = self.window_height as usize;
                let start = if count > height {
                    count - height
                } else {
                    0
                };
                self.buffer.empty_lines(start, count);
            },
            ClearMode::Saved => {},
        }
    }

    /// Changes the style that cells are written in. A reset returns to the plain style of
    /// the buffer. Bold, italic, underline and reverse are set or cancelled, and the
    /// foreground or background color is set, on top of what is active. The other
    /// attributes are not supported and change nothing.
    pub fn terminal_attribute(&mut self, attr: Attr)
        requires
            old(self).inv(),
        ensures
            final(self).inv(),
            final(self)@ == old(self)@.terminal_attribute(attr),
    {
        let current = self.cursor_state.style_modifier;
        let plain = StyleModifier::new();
        let modifier = match attr {
            Attr::Reset => plain,
            Attr::Bold => plain.bold(BoolModifyMode::Yes).on_top_of(current),
            Attr::Dim => current,
            Attr::Italic => plain.italic(BoolModifyMode::Yes).on_top_of(current),
            Attr::Underscore => plain.underline(BoolModifyMode::Yes).on_top_of(current),
            Attr::BlinkSlow => current,
            Attr::BlinkFast => current,
            Attr::Reverse => plain.invert(BoolModifyMode::Yes).on_top_of(current),
            Attr::Hidden => current,
            Attr::Strike => current,
            Attr::CancelBold => plain.bold(BoolModifyMode::No).on_top_of(current),
            Attr::CancelBoldDim => plain.bold(BoolModifyMode::No).on_top_of(current),
            Attr::CancelItalic => plain.italic(BoolModifyMode::No).on_top_of(current),
            Attr::CancelUnderline => plain.underline(BoolModifyMode::No).on_top_of(current),
            Attr::CancelBlink => current,
            Attr::CancelReverse => plain.invert(BoolModifyMode::No).on_top_of(current),
            Attr::CancelHidden => current,
            Attr::CancelStrike => current,
            Attr::Foreground(color) => plain.fg_color(ansi_to_unsegen_color(color)).on_top_of(
                current,
            ),
            Attr::Background(color) => plain.bg_color(ansi_to_unsegen_color(color)).on_top_of(
                current,
            ),
        };
        self.cursor_state.style_modifier = modifier;
    }

    /// Sets the shape that the cursor is drawn in.
    pub fn set_cursor_style(&mut self, style: CursorStyle)
        requires
            old(self).inv(),
        ensures
            final(self).inv(),
            final(self)@ == (Screen { cursor_style: style, ..old(self)@ }),
    {
        self.cursor_style = style;
    }

    /// Moves the window one step towards the tail of the buffer. A step that would reach
    /// the tail makes the window follow it, and is reported as a failure: the window
    /// only moves to where it can still move from.
    pub fn scroll_forwards(&mut self) -> (result: Result<(), ()>)
        requires
            old(self).inv(),
        ensures
            final(self).inv(),
            final(self)@ == old(self)@.scroll_forwards(),
            result is Ok <==> old(self)@.can_scroll_forwards(),
    {
        let total = self.buffer.height_as_displayed();
        let current = self.current_scrollback_pos();
        let candidate = current.checked_add(self.scroll_step);
        match candidate {
            Some(position) => {
                if position < total {
                    self.scrollback_position = Some(position);
                    Ok(())
                } else {
                    self.scrollback_position = None;
                    Err(())
                }
            },
            None => {
                self.scrollback_position = None;
                Err(())
            },
        }
    }

    /// Moves the window one step away from the tail of the buffer, but not above its
    /// first row. Fails, and changes nothing, where no row of the buffer is above the
    /// window.
    pub fn scroll_backwards(&mut self) -> (result: Result<(), ()>)
        requires
            old(self).inv(),
        ensures
            final(self).inv(),
            final(self)@ == old(self)@.scroll_backwards(),
            result is Ok <==> old(self)@.can_scroll_backwards(),
    {
        let current = self.current_scrollback_pos();
        if current > self.window_height as u64 {
            let target = if current > self.scroll_step {
                current - self.scroll_step
            } else {
                0
            };
            self.scrollback_position = Some(target);
            Ok(())
        } else {
            Err(())
        }
    }

    /// Moves the window to the top of the buffer. Fails, and changes nothing, where no
    /// row of the buffer is above the window.
    pub fn scroll_to_beginning(&mut self) -> (result: Result<(), ()>)
        requires
            old(self).inv(),
        ensures
            final(self).inv(),
            final(self)@ == old(self)@.scroll_to_beginning(),
            result is Ok <==> old(self)@.can_scroll_backwards(),
    {
        let current = self.current_scrollback_pos();
        if current > self.window_height as u64 {
            self.scrollback_position = Some(self.window_height as u64);
            Ok(())
        } else {
            Err(())
        }
    }

    /// Makes the window follow the tail of the buffer again. Fails where it does so
    /// already.
    pub fn scroll_to_end(&mut self) -> (result: Result<(), ()>)
        requires
            old(self).inv(),
        ensures
            final(self).inv(),
            final(self)@ == old(self)@.scroll_to_end(),
            result is Ok <==> old(self)@.scrollback_position is Some,
    {
        if self.scrollback_position.is_some() {
            self.scrollback_position = None;
            Ok(())
        } else {
            Err(())
        }
    }

    /// The room that the terminal asks for: at least one cell, and as much as there is.
    pub fn space_demand(&self) -> (demand: Demand2D)
        ensures
            demand == (Demand2D {
                width: Demand { min: 1, max: None },
                height: Demand { min: 1, max: None },
            }),
    {
        Demand2D {
            width: Demand { min: 1, max: None },
            height: Demand { min: 1, max: None },
        }
    }

    /// Toggles the cursor's mark on the cell under the cursor, which exists afterwards.
    fn toggle_cursor_cell(&mut self, toggle: StyleModifier)
        requires
            old(self).inv(),
        ensures
            final(self).inv(),
            final(self)@ == ({
                let x = old(self)@.cursor.col as int;
                let y = old(self)@.cursor.row as int;
                let under = grown(old(self)@.lines, x, y)[y][x];
                old(self)@.with_cell(
                    x,
                    y,
                    GraphemeCell { style: toggle.applied(under.style), ..under },
                )
            }),
    {
        match self.buffer.get_cell_mut(self.cursor_state.col, self.cursor_state.row) {
            Some(cell) => {
                toggle.modify(&mut cell.style);
            },
            None => {},
        }
    }

    /// Draws the screen to a window of `width` by `height` cells. The result holds the
    /// cells for consecutive rows of the window, each from the first column on, and the
    /// window row of the first of them; what it does not hold is not drawn to.
    ///
    /// The window shows the displayed rows that end at the scrollback position, or the
    /// last rows where it follows the tail: the last of them stands in the bottom row of
    /// the window. Where the cursor is shown, the cell under it is drawn with its style
    /// toggled. Nothing is drawn where the window or the buffer is empty. The screen is
    /// after the draw what it was before.
    pub fn draw(&mut self, width: u16, height: u16) -> (drawn: Drawn)
        requires
            old(self).inv(),
        ensures
            final(self).inv(),
            final(self)@ == old(self)@,
            cells_of_rows(drawn.rows@) == old(self)@.drawn_rows(width, height),
            drawn.first_row == old(self)@.drawn_from(width, height),
    {
        if height == 0 || width == 0 || self.buffer.line_count() == 0 {
            let rows: Vec<Vec<GraphemeCell>> = Vec::new();
            assert(cells_of_rows(rows@) =~= Seq::<Seq<GraphemeCell>>::empty());
            return Drawn { first_row: 0, rows };
        }
        let toggle = match self.cursor_style {
            CursorStyle::Beam => StyleModifier::new().underline(BoolModifyMode::Toggle),
            CursorStyle::Block => StyleModifier::new().invert(BoolModifyMode::Toggle),
            CursorStyle::Underline => StyleModifier::new().underline(BoolModifyMode::Toggle),
        };
        let count = self.buffer.line_count();
        let length = if self.cursor_state.row as usize >= count {
            0
        } else {
            self.buffer.line_length(self.cursor_state.row as usize)
        };
        if self.show_cursor {
            self.toggle_cursor_cell(toggle);
        }
        assert(self@.lines == old(self)@.shown_lines());
        let total = self.buffer.height_for_width(width);
        proof {
            lemma_displayed_rows_len(self@.lines, width as nat);
        }
        let end = match self.scrollback_position {
            Some(position) => position,
            None => total,
        };
        let first = if end > height as u64 {
            end - height as u64
        } else {
            0
        };
        let first_row = if end < height as u64 {
            height - end as u16
        } else {
            0
        };
        let last = if end < total {
            end
        } else {
            total
        };
        let rows = if first < last {
            self.buffer.rows_between(width, first, last)
        } else {
            Vec::new()
        };
        assert(cells_of_rows(rows@) =~= old(self)@.drawn_rows(width, height));
        if self.show_cursor {
            self.toggle_cursor_cell(toggle);
            proof {
                let x = self@.cursor.col as int;
                let y = self@.cursor.row as int;
                let expected = grown(old(self)@.lines, x, y);
                assert(self@.lines.len() == expected.len());
                assert forall|i: int| 0 <= i < expected.len() implies self@.lines[i]
                    == expected[i] by {
                    if i == y {
                        assert(self@.lines[i] =~= expected[i]);
                    }
                }
                assert(self@.lines =~= expected);
                lemma_cut_back_grown(old(self)@.lines, x, y);
            }
            self.buffer.restore_extent(self.cursor_state.row, count, length);
        }
        Drawn { first_row, rows }
    }

    /// Does what one operation asks of a screen by itself. An operation that is not
    /// supported changes nothing, and neither does one that is for both screens.
    pub fn perform(&mut self, operation: Operation)
        requires
            old(self).inv(),
        ensures
            final(self).inv(),
            final(self)@ == old(self)@.perform(operation),
    {
        proof {
            reveal(Screen::perform);
        }
        match operation {
            Operation::SetCursorStyle(style) => self.set_cursor_style(style),
            Operation::Input(c) => self.input(c),
            Operation::Goto(line, col) => self.goto(line, col),
            Operation::GotoLine(line) => self.goto_line(line),
            Operation::GotoCol(col) => self.goto_col(col),
            Operation::MoveUp(lines) => self.move_up(lines),
            Operation::MoveDown(lines) => self.move_down(lines),
            Operation::MoveForward(cols) => self.move_forward(cols),
            Operation::MoveBackward(cols) => self.move_backward(cols),
            Operation::PutTab(count) => self.put_tab(count),
            Operation::Backspace => self.backspace(),
            Operation::CarriageReturn => self.carriage_return(),
            Operation::Linefeed => self.linefeed(),
            Operation::ClearLine(mode) => self.clear_line(mode),
            Operation::ClearScreen(mode) => self.clear_screen(mode),
            Operation::TerminalAttribute(attr) => self.terminal_attribute(attr),
            _ => {},
        }
    }

    /// The cell in column `x` of row `y` of the buffer: the one that is held there, or a
    /// blank one where nothing has been written yet. There is no cell in a negative column
    /// or row.
    pub fn get_cell(&self, x: i32, y: i32) -> (cell: Option<GraphemeCell>)
        ensures
            cell == if x < 0 || y < 0 {
                None
            } else {
                Some(cell_at(self@.lines, x as int, y as int))
            },
    {
        self.buffer.get_cell(x, y)
    }

    /// The number of cells that line `y` of the buffer holds, which is 0 where the buffer
    /// has no such line.
    pub fn line_length(&self, y: usize) -> (len: usize)
        ensures
            len == if y < self@.lines.len() {
                self@.lines[y as int].len()
            } else {
                0
            },
    {
        self.buffer.line_length(y)
    }

    /// The column and the row that the cursor points to.
    pub fn cursor_position(&self) -> (position: (i32, i32))
        ensures
            position == (self@.cursor.col, self@.cursor.row),
    {
        (self.cursor_state.col, self.cursor_state.row)
    }

    /// The number of lines in the buffer.
    pub fn line_count(&self) -> (count: usize)
        ensures
            count == self@.lines.len(),
    {
        self.buffer.line_count()
    }

    /// Whether the window follows the tail of the buffer.
    pub fn follows_tail(&self) -> (follows: bool)
        ensures
            follows == (self@.scrollback_position is None),
    {
        self.scrollback_position.is_none()
    }
}

/// The main and the alternate screen of a terminal. Full-screen programs switch to the
/// alternate screen and back, so that what was on the main screen is still there when they
/// leave. What a terminal is asked to do is done to the screen that is active.
pub struct DualWindow {
    main: TerminalWindow,
    alternate: TerminalWindow,
    mode: BufferMode,
}

impl View for DualWindow {
    type V = Screens;

    closed spec fn view(&self) -> Screens {
        Screens { main: self.main@, alternate: self.alternate@, mode: self.mode }
    }
}

impl DualWindow {
    /// The invariant of the pair: that of both screens.
    pub closed spec fn inv(&self) -> bool {
        self.main.inv() && self.alternate.inv()
    }

    /// The invariant of the pair is that of its screens.
    pub proof fn lemma_inv(&self)
        requires
            self.inv(),
        ensures
            self@.inv(),
    {
    }

    pub fn new() -> (window: DualWindow)
        ensures
            window@ == Screens::initial(),
            window.inv(),
    {
        DualWindow {
            main: TerminalWindow::new(),
            alternate: TerminalWindow::new(),
            mode: BufferMode::Main,
        }
    }

    /// The screen that is active.
    pub fn active(&self) -> (window: &TerminalWindow)
        requires
            self.inv(),
        ensures
            window@ == self@.active(),
            window.inv(),
    {
        match self.mode {
            BufferMode::Main => &self.main,
            BufferMode::Alternate => &self.alternate,
        }
    }

    /// The screen that is active, to be changed.
    pub fn active_mut(&mut self) -> (window: &mut TerminalWindow)
        requires
            old(self).inv(),
        ensures
            window@ == old(self)@.active(),
            window.inv(),
            final(self)@ == old(self)@.with_active(final(window)@),
            final(window).inv() ==> final(self).inv(),
    {
        match self.mode {
            BufferMode::Main => &mut self.main,
            BufferMode::Alternate => &mut self.alternate,
        }
    }

    /// Displays a character on the active screen.
    pub fn input(&mut self, c: char)
        requires
            old(self).inv(),
        ensures
            final(self).inv(),
            final(self)@ == old(self)@.with_active(old(self)@.active().input(c)),
    {
        self.active_mut().input(c);
    }

    /// Moves the cursor to a line and a column of the visible region.
    pub fn goto(&mut self, line: Line, col: Column)
        requires
            old(self).inv(),
        ensures
            final(self).inv(),
            final(self)@ == old(self)@.with_active(old(self)@.active().goto(line, col)),
    {
        self.active_mut().goto(line, col);
    }

    /// Moves the cursor to a line of the visible region.
    pub fn goto_line(&mut self, line: Line)
        requires
            old(self).inv(),
        ensures
            final(self).inv(),
            final(self)@ == old(self)@.with_active(old(self)@.active().goto_line(line)),
    {
        self.active_mut().goto_line(line);
    }

    /// Moves the cursor to a column.
    pub fn goto_col(&mut self, col: Column)
        requires
            old(self).inv(),
        ensures
            final(self).inv(),
            final(self)@ == old(self)@.with_active(old(self)@.active().goto_col(col)),
    {
        self.active_mut().goto_col(col);
    }

    /// Moves the cursor up, but not above the first row of the buffer.
    pub fn move_up(&mut self, lines: Line)
        requires
            old(self).inv(),
        ensures
            final(self).inv(),
            final(self)@ == old(self)@.with_active(old(self)@.active().move_up(lines)),
    {
        self.active_mut().move_up(lines);
    }

    /// Moves the cursor down.
    pub fn move_down(&mut self, lines: Line)
        requires
            old(self).inv(),
        ensures
            final(self).inv(),
            final(self)@ == old(self)@.with_active(old(self)@.active().move_down(lines)),
    {
        self.active_mut().move_down(lines);
    }

    /// Moves the cursor to the right.
    pub fn move_forward(&mut self, cols: Column)
        requires
            old(self).inv(),
        ensures
            final(self).inv(),
            final(self)@ == old(self)@.with_active(old(self)@.active().move_forward(cols)),
    {
        self.active_mut().move_forward(cols);
    }

    /// Moves the cursor to the left, but not beyond the first column.
    pub fn move_backward(&mut self, cols: Column)
        requires
            old(self).inv(),
        ensures
            final(self).inv(),
            final(self)@ == old(self)@.with_active(old(self)@.active().move_backward(cols)),
    {
        self.active_mut().move_backward(cols);
    }

    /// Writes tabs at the cursor, each as spaces up to the next tab stop.
    pub fn put_tab(&mut self, count: i64)
        requires
            old(self).inv(),
        ensures
            final(self).inv(),
            final(self)@ == old(self)@.with_active(old(self)@.active().put_tab(count as int)),
    {
        self.active_mut().put_tab(count);
    }

    /// Moves the cursor one column to the left, but not beyond the first column.
    pub fn backspace(&mut self)
        requires
            old(self).inv(),
        ensures
            final(self).inv(),
            final(self)@ == old(self)@.with_active(old(self)@.active().backspace()),
    {
        self.active_mut().backspace();
    }

    /// Moves the cursor to the first column.
    pub fn carriage_return(&mut self)
        requires
            old(self).inv(),
        ensures
            final(self).inv(),
            final(self)@ == old(self)@.with_active(old(self)@.active().carriage_return()),
    {
        self.active_mut().carriage_return();
    }

    /// Moves the cursor one row down in its column.
    pub fn linefeed(&mut self)
        requires
            old(self).inv(),
        ensures
            final(self).inv(),
            final(self)@ == old(self)@.with_active(old(self)@.active().linefeed()),
    {
        self.active_mut().linefeed();
    }

    /// Overwrites a part of the current row with spaces in the active style.
    pub fn clear_line(&mut self, mode: LineClearMode)
        requires
            old(self).inv(),
        ensures
            final(self).inv(),
            final(self)@ == old(self)@.with_active(old(self)@.active().clear_line(mode)),
    {
        self.active_mut().clear_line(mode);
    }

    /// Clears a part of the visible region.
    pub fn clear_screen(&mut self, mode: ClearMode)
        requires
            old(self).inv(),
        ensures
            final(self).inv(),
            final(self)@ == old(self)@.with_active(old(self)@.active().clear_screen(mode)),
    {
        self.active_mut().clear_screen(mode);
    }

    /// Changes the style that cells are written in.
    pub fn terminal_attribute(&mut self, attr: Attr)
        requires
            old(self).inv(),
        ensures
            final(self).inv(),
            final(self)@ == old(self)@.with_active(old(self)@.active().terminal_attribute(attr)),
    {
        self.active_mut().terminal_attribute(attr);
    }

    /// Sets the shape that the cursor of the active screen is drawn in.
    pub fn set_cursor_style(&mut self, style: CursorStyle)
        requires
            old(self).inv(),
        ensures
            final(self).inv(),
            final(self)@ == old(self)@.with_active(
                Screen { cursor_style: style, ..old(self)@.active() },
            ),
    {
        self.active_mut().set_cursor_style(style);
    }

    /// Shows the cursor of the active screen, or switches to the alternate screen. Other
    /// modes are not supported and change nothing.
    pub fn set_mode(&mut self, mode: Mode)
        requires
            old(self).inv(),
        ensures
            final(self).inv(),
            final(self)@ == old(self)@.set_mode(mode),
    {
        match mode {
            Mode::ShowCursor => {
                self.active_mut().set_show_cursor(true);
            },
            Mode::SwapScreenAndSetRestoreCursor => {
                self.mode = BufferMode::Alternate;
            },
            _ => {},
        }
    }

    /// Hides the cursor of the active screen, or switches back to the main screen. Other
    /// modes are not supported and change nothing.
    pub fn unset_mode(&mut self, mode: Mode)
        requires
            old(self).inv(),
        ensures
            final(self).inv(),
            final(self)@ == old(self)@.unset_mode(mode),
    {
        match mode {
            Mode::ShowCursor => {
                self.active_mut().set_show_cursor(false);
            },
            Mode::SwapScreenAndSetRestoreCursor => {
                self.mode = BufferMode::Main;
            },
            _ => {},
        }
    }

    /// Does what one operation asks for. A mode is set or reset for the terminal;
    /// everything else is done to the active screen. An operation that is not supported
    /// changes nothing.
    pub fn perform(&mut self, operation: Operation)
        requires
            old(self).inv(),
        ensures
            final(self).inv(),
            final(self)@ == old(self)@.perform(operation),
    {
        proof {
            reveal(Screens::perform);
        }
        match operation {
            Operation::SetMode(mode) => self.set_mode(mode),
            Operation::UnsetMode(mode) => self.unset_mode(mode),
            _ => self.active_mut().perform(operation),
        }
    }

    /// The number of lines of the window of the active screen.
    pub fn lines(&self) -> (lines: Line)
        requires
            self.inv(),
        ensures
            lines.0 == self@.active().height,
    {
        Line(self.active().get_height() as usize)
    }

    /// The number of columns of the window of the active screen.
    pub fn cols(&self) -> (cols: Column)
        requires
            self.inv(),
        ensures
            cols.0 == self@.active().width,
    {
        Column(self.active().get_width() as usize)
    }

    /// Moves the window of the active screen one step towards the tail of its buffer.
    pub fn scroll_forwards(&mut self) -> (result: Result<(), ()>)
        requires
            old(self).inv(),
        ensures
            final(self).inv(),
            final(self)@ == old(self)@.with_active(old(self)@.active().scroll_forwards()),
            result is Ok <==> old(self)@.active().can_scroll_forwards(),
    {
        self.active_mut().scroll_forwards()
    }

    /// Moves the window of the active screen one step away from the tail of its buffer.
    pub fn scroll_backwards(&mut self) -> (result: Result<(), ()>)
        requires
            old(self).inv(),
        ensures
            final(self).inv(),
            final(self)@ == old(self)@.with_active(old(self)@.active().scroll_backwards()),
            result is Ok <==> old(self)@.active().can_scroll_backwards(),
    {
        self.active_mut().scroll_backwards()
    }

    /// Moves the window of the active screen to the top of its buffer.
    pub fn scroll_to_beginning(&mut self) -> (result: Result<(), ()>)
        requires
            old(self).inv(),
        ensures
            final(self).inv(),
            final(self)@ == old(self)@.with_active(old(self)@.active().scroll_to_beginning()),
            result is Ok <==> old(self)@.active().can_scroll_backwards(),
    {
        self.active_mut().scroll_to_beginning()
    }

    /// Makes the window of the active screen follow the tail of its buffer again.
    pub fn scroll_to_end(&mut self) -> (result: Result<(), ()>)
        requires
            old(self).inv(),
        ensures
            final(self).inv(),
            final(self)@ == old(self)@.with_active(old(self)@.active().scroll_to_end()),
            result is Ok <==> old(self)@.active().scrollback_position is Some,
    {
        self.active_mut().scroll_to_end()
    }
}

} // verus!
