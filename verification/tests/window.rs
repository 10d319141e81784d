use unsegen_terminal::ansi::{
    Attr, CharsetIndex, ClearMode, Color as AnsiColor, CursorStyle, LineClearMode, Mode,
    NamedColor, Operation, Rgb, StandardCharset, TabulationClearMode,
};
use unsegen_terminal::buffer::GraphemeCell;
use unsegen_terminal::cursor::WrappingMode;
use unsegen_terminal::index::{Column, Line};
use unsegen_terminal::style::{Color, Style, TextFormat};
use unsegen_terminal::terminalwindow::{
    is_supported, Demand, Demand2D, DualWindow, TerminalWindow,
};

fn type_text(window: &mut TerminalWindow, text: &str) {
    for c in text.chars() {
        match c {
            '\n' => {
                window.linefeed();
                window.carriage_return();
            }
            _ => window.input(c),
        }
    }
}

fn row(window: &TerminalWindow, y: i32) -> String {
    (0..window.line_length(y as usize))
        .map(|x| window.get_cell(x as i32, y).unwrap().grapheme)
        .collect()
}

fn screen(lines: &str, height: u16) -> TerminalWindow {
    let mut window = TerminalWindow::new();
    window.set_show_cursor(false);
    window.set_wrapping_mode(WrappingMode::NoWrap);
    window.set_width(8);
    window.set_height(height);
    type_text(&mut window, lines);
    window
}

#[test]
fn new_window_has_no_size_and_no_lines() {
    let window = TerminalWindow::new();
    assert_eq!(window.get_width(), 0);
    assert_eq!(window.get_height(), 0);
    assert_eq!(window.line_count(), 0);
    assert_eq!(window.cursor_position(), (0, 0));
    assert!(window.follows_tail());
    assert_eq!(window.active_style(), Style::default());
}

#[test]
fn size_is_what_was_set() {
    let mut window = TerminalWindow::new();
    window.set_width(80);
    window.set_height(24);
    assert_eq!(window.get_width(), 80);
    assert_eq!(window.get_height(), 24);
}

#[test]
fn space_demand_is_at_least_one_cell() {
    let window = TerminalWindow::new();
    assert_eq!(
        window.space_demand(),
        Demand2D {
            width: Demand { min: 1, max: None },
            height: Demand { min: 1, max: None },
        }
    );
}

#[test]
fn input_writes_at_the_cursor_and_advances() {
    let mut window = TerminalWindow::new();
    window.goto_col(Column(3));
    window.input('x');
    assert_eq!(window.cursor_position(), (4, 0));
    assert_eq!(row(&window, 0), "   x");
    assert_eq!(window.get_cell(3, 0), Some(GraphemeCell::new('x', Style::default())));
    window.move_down(Line(2));
    window.input('y');
    assert_eq!(window.line_count(), 3);
    assert_eq!(row(&window, 1), "");
    assert_eq!(row(&window, 2), "    y");
}

#[test]
fn input_overwrites_what_is_there() {
    let mut window = screen("abc", 4);
    window.carriage_return();
    window.input('X');
    assert_eq!(row(&window, 0), "Xbc");
    assert_eq!(window.cursor_position(), (1, 0));
}

#[test]
fn carriage_return_moves_to_the_first_column() {
    let mut window = screen("abc\nde", 4);
    window.carriage_return();
    assert_eq!(window.cursor_position(), (0, 1));
    window.carriage_return();
    assert_eq!(window.cursor_position(), (0, 1));
}

#[test]
fn linefeed_keeps_the_column_and_makes_the_row() {
    let mut window = screen("abc", 4);
    assert_eq!(window.line_count(), 1);
    window.linefeed();
    assert_eq!(window.cursor_position(), (3, 1));
    assert_eq!(window.line_count(), 2);
    assert_eq!(row(&window, 1), "");
    window.input('d');
    assert_eq!(row(&window, 1), "   d");
}

#[test]
fn linefeed_does_not_touch_an_existing_row() {
    let mut window = screen("abc\nxyz", 4);
    window.move_up(Line(1));
    window.carriage_return();
    window.linefeed();
    assert_eq!(window.cursor_position(), (0, 1));
    assert_eq!(row(&window, 1), "xyz");
    assert_eq!(window.line_count(), 2);
}

#[test]
fn backspace_stops_at_the_first_column() {
    let mut window = screen("ab", 4);
    window.backspace();
    assert_eq!(window.cursor_position(), (1, 0));
    window.backspace();
    assert_eq!(window.cursor_position(), (0, 0));
    window.backspace();
    assert_eq!(window.cursor_position(), (0, 0));
    window.input('x');
    assert_eq!(row(&window, 0), "xb");
}

#[test]
fn relative_moves_stop_at_the_top_and_at_the_left() {
    let mut window = screen("abc\ndef\nghi", 4);
    window.move_up(Line(1));
    assert_eq!(window.cursor_position(), (3, 1));
    window.move_up(Line(5));
    assert_eq!(window.cursor_position(), (3, 0));
    window.move_backward(Column(2));
    assert_eq!(window.cursor_position(), (1, 0));
    window.move_backward(Column(2));
    assert_eq!(window.cursor_position(), (0, 0));
    window.move_forward(Column(7));
    assert_eq!(window.cursor_position(), (7, 0));
    window.move_down(Line(9));
    assert_eq!(window.cursor_position(), (7, 9));
    assert_eq!(window.line_count(), 3);
    window.move_up(Line(0));
    window.move_forward(Column(0));
    assert_eq!(window.cursor_position(), (7, 9));
}

#[test]
fn moves_stop_at_the_largest_index() {
    let mut window = TerminalWindow::new();
    window.move_forward(Column(usize::MAX));
    window.move_down(Line(usize::MAX));
    assert_eq!(window.cursor_position(), (i32::MAX, i32::MAX));
    window.move_forward(Column(1));
    window.move_down(Line(1));
    assert_eq!(window.cursor_position(), (i32::MAX, i32::MAX));
    window.goto(Line(usize::MAX), Column(usize::MAX));
    assert_eq!(window.cursor_position(), (i32::MAX, i32::MAX));
    window.move_up(Line(usize::MAX));
    window.move_backward(Column(usize::MAX));
    assert_eq!(window.cursor_position(), (0, 0));
}

#[test]
fn goto_counts_lines_from_the_top_of_the_visible_region() {
    let mut window = screen("0\n1\n2\n3\n4\n5", 4);
    window.goto(Line(0), Column(0));
    assert_eq!(window.cursor_position(), (0, 2));
    window.goto(Line(3), Column(5));
    assert_eq!(window.cursor_position(), (5, 5));
    window.goto(Line(6), Column(1));
    assert_eq!(window.cursor_position(), (1, 8));
    window.goto_line(Line(1));
    assert_eq!(window.cursor_position(), (1, 3));
    window.goto_col(Column(7));
    assert_eq!(window.cursor_position(), (7, 3));
}

#[test]
fn goto_counts_from_the_first_line_while_the_buffer_is_short() {
    let mut window = screen("0\n1", 4);
    window.goto(Line(0), Column(0));
    assert_eq!(window.cursor_position(), (0, 0));
    window.goto(Line(3), Column(2));
    assert_eq!(window.cursor_position(), (2, 3));
    assert_eq!(window.line_count(), 2);
}

#[test]
fn tab_writes_spaces_to_the_next_stop() {
    let mut window = TerminalWindow::new();
    window.put_tab(1);
    assert_eq!(window.cursor_position(), (4, 0));
    assert_eq!(row(&window, 0), "    ");
    window.input('a');
    window.put_tab(1);
    assert_eq!(window.cursor_position(), (8, 0));
    assert_eq!(row(&window, 0), "    a   ");
    window.put_tab(2);
    assert_eq!(window.cursor_position(), (16, 0));
    window.input('b');
    window.input('c');
    window.input('d');
    window.put_tab(1);
    assert_eq!(window.cursor_position(), (20, 0));
    window.put_tab(0);
    window.put_tab(-3);
    assert_eq!(window.cursor_position(), (20, 0));
}

#[test]
fn clear_line_right_clears_to_the_width_of_the_window() {
    let mut window = screen("abcdefghij", 4);
    window.goto_col(Column(3));
    window.clear_line(LineClearMode::Right);
    assert_eq!(row(&window, 0), "abc     ij");
    assert_eq!(window.cursor_position(), (3, 0));
    let mut short = screen("ab", 4);
    short.carriage_return();
    short.clear_line(LineClearMode::Right);
    assert_eq!(row(&short, 0), "        ");
}

#[test]
fn clear_line_left_clears_up_to_the_cursor() {
    let mut window = screen("abcdefghij", 4);
    window.goto_col(Column(3));
    window.clear_line(LineClearMode::Left);
    assert_eq!(row(&window, 0), "    efghij");
    assert_eq!(window.cursor_position(), (3, 0));
}

#[test]
fn clear_line_all_clears_the_width_of_the_window() {
    let mut window = screen("abcdefghij", 4);
    window.goto_col(Column(3));
    window.clear_line(LineClearMode::All);
    assert_eq!(row(&window, 0), "        ij");
}

#[test]
fn clear_line_writes_the_active_style() {
    let mut window = screen("abc", 4);
    window.terminal_attribute(Attr::Background(AnsiColor::Named(NamedColor::Blue)));
    window.carriage_return();
    window.clear_line(LineClearMode::Right);
    let cell = window.get_cell(5, 0).unwrap();
    assert_eq!(cell.grapheme, ' ');
    assert_eq!(cell.style.bg_color, Color::Blue);
    assert_eq!(window.active_style().bg_color, Color::Blue);
}

#[test]
fn clear_line_without_a_width_clears_only_to_the_left() {
    let mut window = TerminalWindow::new();
    type_text(&mut window, "abc");
    window.clear_line(LineClearMode::Right);
    window.clear_line(LineClearMode::All);
    assert_eq!(row(&window, 0), "abc");
    window.backspace();
    window.clear_line(LineClearMode::Left);
    assert_eq!(row(&window, 0), "   ");
}

#[test]
fn clear_screen_below_empties_the_rows_below_the_cursor() {
    let mut window = screen("aaaa\nbbbb\ncccc\ndddd", 3);
    window.goto(Line(0), Column(2));
    assert_eq!(window.cursor_position(), (2, 1));
    window.clear_screen(ClearMode::Below);
    assert_eq!(window.line_count(), 4);
    assert_eq!(row(&window, 0), "aaaa");
    assert_eq!(row(&window, 1), "bb      ");
    assert_eq!(row(&window, 2), "");
    assert_eq!(row(&window, 3), "");
    assert_eq!(window.cursor_position(), (2, 1));
}

#[test]
fn clear_screen_above_empties_the_visible_rows_above_the_cursor() {
    let mut window = screen("aaaa\nbbbb\ncccc\ndddd\neeee", 3);
    window.goto(Line(2), Column(1));
    assert_eq!(window.cursor_position(), (1, 4));
    window.clear_screen(ClearMode::Above);
    assert_eq!(window.line_count(), 5);
    assert_eq!(row(&window, 0), "aaaa");
    assert_eq!(row(&window, 1), "bbbb");
    assert_eq!(row(&window, 2), "");
    assert_eq!(row(&window, 3), "");
    assert_eq!(row(&window, 4), "  ee");
}

#[test]
fn clear_screen_above_at_the_top_of_the_visible_region_clears_only_the_line() {
    let mut window = screen("aaaa\nbbbb\ncccc\ndddd\neeee", 3);
    window.goto(Line(0), Column(1));
    assert_eq!(window.cursor_position(), (1, 2));
    window.clear_screen(ClearMode::Above);
    assert_eq!(window.line_count(), 5);
    assert_eq!(row(&window, 0), "aaaa");
    assert_eq!(row(&window, 1), "bbbb");
    assert_eq!(row(&window, 2), "  cc");
    assert_eq!(row(&window, 3), "dddd");
    assert_eq!(row(&window, 4), "eeee");
    assert_eq!(window.cursor_position(), (1, 2));
}

#[test]
fn clear_screen_all_empties_the_visible_region() {
    let mut window = screen("aaaa\nbbbb\ncccc\ndddd\neeee", 3);
    window.clear_screen(ClearMode::All);
    assert_eq!(window.line_count(), 5);
    assert_eq!(row(&window, 0), "aaaa");
    assert_eq!(row(&window, 1), "bbbb");
    assert_eq!(row(&window, 2), "");
    assert_eq!(row(&window, 3), "");
    assert_eq!(row(&window, 4), "");
    assert_eq!(window.cursor_position(), (4, 4));
}

#[test]
fn clear_screen_saved_changes_nothing() {
    let mut window = screen("aaaa\nbbbb", 3);
    window.clear_screen(ClearMode::Saved);
    assert_eq!(row(&window, 0), "aaaa");
    assert_eq!(row(&window, 1), "bbbb");
    assert_eq!(window.cursor_position(), (4, 1));
}

#[test]
fn attributes_change_the_active_style() {
    let mut window = TerminalWindow::new();
    window.terminal_attribute(Attr::Bold);
    assert!(window.active_style().format.bold);
    window.terminal_attribute(Attr::Italic);
    window.terminal_attribute(Attr::Underscore);
    window.terminal_attribute(Attr::Reverse);
    assert_eq!(
        window.active_style().format,
        TextFormat { bold: true, italic: true, invert: true, underline: true }
    );
    window.terminal_attribute(Attr::CancelBold);
    assert!(!window.active_style().format.bold);
    window.terminal_attribute(Attr::Bold);
    window.terminal_attribute(Attr::CancelBoldDim);
    window.terminal_attribute(Attr::CancelItalic);
    window.terminal_attribute(Attr::CancelUnderline);
    window.terminal_attribute(Attr::CancelReverse);
    assert_eq!(window.active_style(), Style::default());
    window.terminal_attribute(Attr::Foreground(AnsiColor::Indexed(200)));
    window.terminal_attribute(Attr::Background(AnsiColor::Named(NamedColor::BrightCyan)));
    assert_eq!(window.active_style().fg_color, Color::Ansi(200));
    assert_eq!(window.active_style().bg_color, Color::LightCyan);
    window.terminal_attribute(Attr::Reset);
    assert_eq!(window.active_style(), Style::default());
}

#[test]
fn unsupported_attributes_change_nothing() {
    let mut window = TerminalWindow::new();
    window.terminal_attribute(Attr::Bold);
    let before = window.active_style();
    for attr in [
        Attr::Dim,
        Attr::BlinkSlow,
        Attr::BlinkFast,
        Attr::Hidden,
        Attr::Strike,
        Attr::CancelBlink,
        Attr::CancelHidden,
        Attr::CancelStrike,
    ] {
        window.terminal_attribute(attr);
        assert_eq!(window.active_style(), before);
    }
}

#[test]
fn unsupported_operations_change_nothing() {
    let mut window = DualWindow::new();
    window.input('a');
    for operation in [
        Operation::SetTitle,
        Operation::InsertBlank(Column(2)),
        Operation::IdentifyTerminal,
        Operation::DeviceStatus(6),
        Operation::MoveDownAndCr(Line(1)),
        Operation::MoveUpAndCr(Line(1)),
        Operation::Bell,
        Operation::Substitute,
        Operation::Newline,
        Operation::SetHorizontalTabstop,
        Operation::ScrollUp(Line(1)),
        Operation::ScrollDown(Line(1)),
        Operation::InsertBlankLines(Line(1)),
        Operation::DeleteLines(Line(1)),
        Operation::EraseChars(Column(1)),
        Operation::DeleteChars(Column(1)),
        Operation::MoveBackwardTabs(1),
        Operation::MoveForwardTabs(1),
        Operation::SaveCursorPosition,
        Operation::RestoreCursorPosition,
        Operation::ResetState,
        Operation::ReverseIndex,
        Operation::SetMode(Mode::LineWrap),
        Operation::UnsetMode(Mode::Insert),
        Operation::SetScrollingRegion(Line(0), None),
        Operation::SetKeypadApplicationMode,
        Operation::UnsetKeypadApplicationMode,
        Operation::SetActiveCharset(CharsetIndex::G1),
        Operation::ConfigureCharset(CharsetIndex::G0, StandardCharset::Ascii),
        Operation::ClearTabs(TabulationClearMode::All),
        Operation::SetColor(3, Rgb { r: 1, g: 2, b: 3 }),
        Operation::Dectest,
    ] {
        window.perform(operation);
        assert_eq!(window.active().cursor_position(), (1, 0));
        assert_eq!(window.active().line_count(), 1);
        assert_eq!(window.active().get_cell(0, 0).unwrap().grapheme, 'a');
        assert_eq!(window.active().line_length(0), 1);
    }
}

#[test]
fn operations_are_performed_on_the_active_screen() {
    let mut window = DualWindow::new();
    window.perform(Operation::Input('m'));
    window.perform(Operation::SetMode(Mode::SwapScreenAndSetRestoreCursor));
    assert_eq!(window.active().line_count(), 0);
    window.perform(Operation::Goto(Line(1), Column(2)));
    window.perform(Operation::Input('a'));
    window.perform(Operation::TerminalAttribute(Attr::Bold));
    window.perform(Operation::SetCursorStyle(CursorStyle::Beam));
    assert_eq!(window.active().cursor_position(), (3, 1));
    assert!(window.active().active_style().format.bold);
    window.perform(Operation::UnsetMode(Mode::SwapScreenAndSetRestoreCursor));
    assert_eq!(window.active().cursor_position(), (1, 0));
    assert_eq!(window.active().line_count(), 1);
    assert!(!window.active().active_style().format.bold);
}

#[test]
fn show_cursor_mode_is_for_the_active_screen() {
    let mut window = DualWindow::new();
    window.input('a');
    window.unset_mode(Mode::ShowCursor);
    assert_eq!(window.active_mut().draw(4, 1).rows[0].len(), 1);
    window.set_mode(Mode::SwapScreenAndSetRestoreCursor);
    window.input('b');
    assert_eq!(window.active_mut().draw(4, 1).rows[0].len(), 2);
    window.unset_mode(Mode::SwapScreenAndSetRestoreCursor);
    window.set_mode(Mode::ShowCursor);
    assert_eq!(window.active_mut().draw(4, 1).rows[0].len(), 2);
}

#[test]
fn lines_and_columns_are_those_of_the_active_window() {
    let mut window = DualWindow::new();
    window.active_mut().set_width(80);
    window.active_mut().set_height(24);
    assert_eq!(window.lines(), Line(24));
    assert_eq!(window.cols(), Column(80));
    window.set_mode(Mode::SwapScreenAndSetRestoreCursor);
    assert_eq!(window.lines(), Line(0));
    assert_eq!(window.cols(), Column(0));
}

#[test]
fn input_wraps_at_the_width_of_the_window() {
    let mut window = TerminalWindow::new();
    window.set_width(3);
    type_text(&mut window, "abc");
    assert_eq!(window.cursor_position(), (3, 0));
    assert_eq!(window.line_count(), 1);
    window.input('d');
    assert_eq!(window.cursor_position(), (1, 1));
    assert_eq!(window.line_count(), 2);
    assert_eq!(row(&window, 0), "abc");
    assert_eq!(row(&window, 1), "d");
    type_text(&mut window, "efgh");
    assert_eq!(row(&window, 1), "def");
    assert_eq!(row(&window, 2), "gh");
    assert_eq!(window.cursor_position(), (2, 2));
}

#[test]
fn input_wraps_when_the_cursor_was_moved_beyond_the_width() {
    let mut window = TerminalWindow::new();
    window.set_width(3);
    window.goto_col(Column(7));
    window.input('x');
    assert_eq!(window.cursor_position(), (1, 1));
    assert_eq!(row(&window, 0), "");
    assert_eq!(row(&window, 1), "x");
}

#[test]
fn carriage_return_after_a_full_row_stays_in_the_row() {
    let mut window = TerminalWindow::new();
    window.set_width(3);
    type_text(&mut window, "abc");
    window.carriage_return();
    window.input('X');
    assert_eq!(row(&window, 0), "Xbc");
    assert_eq!(window.line_count(), 1);
}

#[test]
fn input_does_not_wrap_without_a_width() {
    let mut window = TerminalWindow::new();
    type_text(&mut window, "abcdefgh");
    assert_eq!(window.line_count(), 1);
    assert_eq!(window.cursor_position(), (8, 0));
}

#[test]
fn input_does_not_wrap_when_wrapping_is_off() {
    let mut window = TerminalWindow::new();
    window.set_width(3);
    window.set_wrapping_mode(WrappingMode::NoWrap);
    type_text(&mut window, "abcdefgh");
    assert_eq!(window.line_count(), 1);
    assert_eq!(row(&window, 0), "abcdefgh");
    window.set_wrapping_mode(WrappingMode::Wrap);
    window.input('i');
    assert_eq!(window.line_count(), 2);
    assert_eq!(row(&window, 1), "i");
}

#[test]
fn cell_that_was_never_written_reads_as_blank() {
    let mut window = TerminalWindow::new();
    window.input('a');
    assert_eq!(window.get_cell(0, 0), Some(GraphemeCell::new('a', Style::default())));
    assert_eq!(window.get_cell(1, 0), Some(GraphemeCell::default()));
    assert_eq!(window.get_cell(0, 7), Some(GraphemeCell::default()));
    assert_eq!(window.get_cell(-1, 0), None);
    assert_eq!(window.get_cell(0, -1), None);
    assert_eq!(window.line_count(), 1);
    assert_eq!(window.line_length(0), 1);
    assert_eq!(window.line_length(7), 0);
}

#[test]
fn draw_leaves_the_screen_as_it_was() {
    let mut window = TerminalWindow::new();
    window.input('a');
    window.move_down(Line(3));
    window.move_forward(Column(2));
    let drawn = window.draw(5, 6);
    assert_eq!(drawn.rows.len(), 4);
    assert_eq!(drawn.rows[0].len(), 1);
    assert_eq!(drawn.rows[3].len(), 4);
    assert!(drawn.rows[3][3].style.format.invert);
    assert_eq!(window.line_count(), 1);
    assert_eq!(window.line_length(0), 1);
    assert_eq!(window.cursor_position(), (3, 3));
    assert!(window.follows_tail());
    assert_eq!(window.get_cell(0, 0), Some(GraphemeCell::new('a', Style::default())));
    window.carriage_return();
    window.move_up(Line(3));
    let drawn = window.draw(5, 6);
    assert_eq!(drawn.rows.len(), 1);
    assert!(drawn.rows[0][0].style.format.invert);
    assert_eq!(window.get_cell(0, 0), Some(GraphemeCell::new('a', Style::default())));
    assert_eq!(window.line_length(0), 1);
}

#[test]
fn operations_are_supported_or_not() {
    for operation in [
        Operation::SetTitle,
        Operation::Bell,
        Operation::Input('a'),
        Operation::Goto(Line(1), Column(1)),
        Operation::PutTab(1),
        Operation::Linefeed,
        Operation::ClearLine(LineClearMode::All),
        Operation::ClearScreen(ClearMode::Below),
        Operation::TerminalAttribute(Attr::Reset),
        Operation::TerminalAttribute(Attr::Bold),
        Operation::TerminalAttribute(Attr::Foreground(AnsiColor::Indexed(1))),
        Operation::SetMode(Mode::ShowCursor),
        Operation::UnsetMode(Mode::SwapScreenAndSetRestoreCursor),
        Operation::SetCursorStyle(CursorStyle::Beam),
    ] {
        assert!(is_supported(operation));
    }
    for operation in [
        Operation::ClearScreen(ClearMode::Saved),
        Operation::TerminalAttribute(Attr::Dim),
        Operation::TerminalAttribute(Attr::BlinkSlow),
        Operation::TerminalAttribute(Attr::BlinkFast),
        Operation::TerminalAttribute(Attr::Hidden),
        Operation::TerminalAttribute(Attr::Strike),
        Operation::TerminalAttribute(Attr::CancelBlink),
        Operation::TerminalAttribute(Attr::CancelHidden),
        Operation::TerminalAttribute(Attr::CancelStrike),
        Operation::SetMode(Mode::LineWrap),
        Operation::UnsetMode(Mode::Insert),
        Operation::InsertBlank(Column(1)),
        Operation::Newline,
        Operation::ReverseIndex,
        Operation::SetColor(1, Rgb { r: 0, g: 0, b: 0 }),
        Operation::Dectest,
    ] {
        assert!(!is_supported(operation));
    }
}
