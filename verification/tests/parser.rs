use unsegen_terminal::style::Color;
use unsegen_terminal::Terminal;

fn fed(bytes: &[u8]) -> Terminal {
    let mut terminal = Terminal::new();
    terminal.add_byte_input(bytes);
    terminal
}

fn first_row(terminal: &Terminal) -> String {
    let window = terminal.window().active();
    (0..window.line_length(0))
        .map(|x| window.get_cell(x as i32, 0).unwrap().grapheme)
        .collect()
}

#[test]
fn printable_bytes_are_displayed() {
    assert_eq!(first_row(&fed(b"hello, world")), "hello, world");
}

#[test]
fn multi_byte_characters_are_decoded() {
    assert_eq!(first_row(&fed("aé→沐😀z".as_bytes())), "aé→沐😀z");
}

#[test]
fn control_sequences_are_not_displayed() {
    let terminal = fed(b"a\x1b[31mb\x1b[0mc\x1b]0;title\x07d\x1b(Be");
    assert_eq!(first_row(&terminal), "abcde");
    assert_eq!(terminal.window().active().get_cell(1, 0).unwrap().style.fg_color, Color::Red);
    assert_eq!(
        terminal.window().active().get_cell(2, 0).unwrap().style.fg_color,
        Color::Default
    );
}

#[test]
fn command_strings_end_at_the_string_terminator() {
    assert_eq!(first_row(&fed(b"a\x1b]2;some title\x1b\\b")), "ab");
    assert_eq!(first_row(&fed(b"a\x1bPsome device string\x1b\\b")), "ab");
}

#[test]
fn unknown_sequences_are_dropped() {
    let terminal = fed(b"a\x1b[99zb\x1b[?9999hc\x1b[5;5rd\x1b[3;4se\x1bMf\x1b7g\x1b8h");
    assert_eq!(first_row(&terminal), "abcdefgh");
    assert_eq!(terminal.window().active().cursor_position(), (8, 0));
    assert_eq!(terminal.window().active().line_count(), 1);
}

#[test]
fn cancel_byte_aborts_a_sequence() {
    assert_eq!(first_row(&fed(b"a\x1b[31\x18mb")), "amb");
}

#[test]
fn cursor_sequences_move_the_cursor() {
    let mut terminal = Terminal::new();
    terminal.draw(10, 5);
    terminal.add_byte_input(b"abcdef\x1b[3D\x1b[1CX\x1b[2;3HY\x1b[AZ");
    let window = terminal.window().active();
    assert_eq!(first_row(&terminal), "abcZXf");
    assert_eq!(window.get_cell(2, 1).unwrap().grapheme, 'Y');
    assert_eq!(window.cursor_position(), (4, 0));
}

#[test]
fn tab_byte_moves_to_the_next_stop() {
    let terminal = fed(b"a\tb");
    assert_eq!(first_row(&terminal), "a   b");
}

#[test]
fn backspace_byte_moves_left() {
    assert_eq!(first_row(&fed(b"abc\x08\x08X")), "aXc");
}

#[test]
fn bell_and_null_bytes_change_nothing() {
    let terminal = fed(b"a\x07\x00b");
    assert_eq!(first_row(&terminal), "ab");
}

#[test]
fn vertical_tab_and_form_feed_start_a_new_line() {
    let terminal = fed(b"a\x0bb\x0cc");
    let window = terminal.window().active();
    assert_eq!(window.line_count(), 3);
    assert_eq!(window.get_cell(0, 1).unwrap().grapheme, 'b');
    assert_eq!(window.get_cell(0, 2).unwrap().grapheme, 'c');
}

#[test]
fn index_escape_keeps_the_column() {
    let terminal = fed(b"ab\x1bDc\x1bEd");
    let window = terminal.window().active();
    assert_eq!(window.get_cell(2, 1).unwrap().grapheme, 'c');
    assert_eq!(window.get_cell(0, 2).unwrap().grapheme, 'd');
}

#[test]
fn extended_color_sequences_set_colors() {
    let terminal = fed(b"\x1b[38;5;123;48;2;1;2;3mx");
    let cell = terminal.window().active().get_cell(0, 0).unwrap();
    assert_eq!(cell.style.fg_color, Color::Ansi(123));
    assert_eq!(cell.style.bg_color, Color::Rgb { r: 1, g: 2, b: 3 });
}

#[test]
fn erase_sequences_clear() {
    let mut terminal = Terminal::new();
    terminal.draw(6, 3);
    terminal.add_byte_input(b"abcdef\r\nghijkl\r\nmnopqr\x1b[2;3H\x1b[K");
    let window = terminal.window().active();
    assert_eq!(window.get_cell(1, 1).unwrap().grapheme, 'h');
    assert_eq!(window.get_cell(2, 1).unwrap().grapheme, ' ');
    assert_eq!(window.get_cell(5, 1).unwrap().grapheme, ' ');
    assert_eq!(window.get_cell(0, 2).unwrap().grapheme, 'm');
    terminal.add_byte_input(b"\x1b[J");
    assert_eq!(terminal.window().active().line_length(2), 0);
    assert_eq!(terminal.window().active().get_cell(0, 0).unwrap().grapheme, 'a');
    assert_eq!(terminal.window().active().line_count(), 3);
}
