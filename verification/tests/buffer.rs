use unsegen_terminal::buffer::{GraphemeCell, Line, LineBuffer};
use unsegen_terminal::style::{Color, Style, TextFormat};

fn cell(grapheme: char) -> GraphemeCell {
    GraphemeCell::new(grapheme, Style::default())
}

fn line_of(text: &str) -> Line {
    let mut line = Line::empty();
    for (x, c) in text.chars().enumerate() {
        *line.get_cell_mut(x as i32).unwrap() = cell(c);
    }
    line
}

#[test]
fn default_cell_is_a_plain_space() {
    let blank = GraphemeCell::default();
    assert_eq!(blank.grapheme, ' ');
    assert_eq!(blank.style.fg_color, Color::Default);
    assert_eq!(blank.style.bg_color, Color::Default);
    assert_eq!(
        blank.style.format,
        TextFormat { bold: false, italic: false, invert: false, underline: false }
    );
}

#[test]
fn line_grows_to_the_cell_that_is_asked_for() {
    let mut line = Line::empty();
    assert_eq!(line.length(), 0);
    assert_eq!(line.get_cell_mut(3).map(|c| *c), Some(GraphemeCell::default()));
    assert_eq!(line.length(), 4);
    *line.get_cell_mut(1).unwrap() = cell('x');
    assert_eq!(line.length(), 4);
    assert_eq!(line.get_cell(0), Some(GraphemeCell::default()));
    assert_eq!(line.get_cell(1), Some(cell('x')));
    assert_eq!(line.get_cell(3), Some(GraphemeCell::default()));
    assert_eq!(line.get_cell(4), Some(GraphemeCell::default()));
    assert_eq!(line.get_cell(i32::MAX), Some(GraphemeCell::default()));
    assert_eq!(line.length(), 4);
}

#[test]
fn line_has_no_cell_in_a_negative_column() {
    let mut line = line_of("abc");
    assert!(line.get_cell_mut(-1).is_none());
    assert_eq!(line.get_cell(-1), None);
    assert_eq!(line.get_cell(i32::MIN), None);
    assert_eq!(line.length(), 3);
}

#[test]
fn cleared_line_is_empty() {
    let mut line = line_of("abc");
    line.clear();
    assert_eq!(line.length(), 0);
    assert_eq!(line.get_cell(0), Some(GraphemeCell::default()));
}

#[test]
fn line_height_is_its_length_over_the_width_rounded_up() {
    assert_eq!(Line::empty().height_for_width(5), 1);
    assert_eq!(Line::empty().height_for_width(0), 1);
    assert_eq!(line_of("a").height_for_width(5), 1);
    assert_eq!(line_of("abcde").height_for_width(5), 1);
    assert_eq!(line_of("abcdef").height_for_width(5), 2);
    assert_eq!(line_of("abcdefghij").height_for_width(5), 2);
    assert_eq!(line_of("abcdefghijk").height_for_width(5), 3);
    assert_eq!(line_of("abcdefghijk").height_for_width(1), 11);
    assert_eq!(line_of("abcdefghijk").height_for_width(0), 1);
    assert_eq!(line_of("abcdefghijk").height_for_width(u16::MAX), 1);
}

#[test]
fn new_buffer_is_empty() {
    let buffer = LineBuffer::new();
    assert_eq!(buffer.line_count(), 0);
    assert_eq!(buffer.get_soft_width(), 0);
    assert_eq!(buffer.get_default_style(), Style::default());
    assert_eq!(buffer.height_as_displayed(), 0);
    assert_eq!(buffer.get_cell(0, 0), Some(GraphemeCell::default()));
    assert_eq!(buffer.line_count(), 0);
}

#[test]
fn buffer_grows_to_the_cell_that_is_asked_for() {
    let mut buffer = LineBuffer::new();
    assert_eq!(buffer.get_cell_mut(3, 2).map(|c| *c), Some(GraphemeCell::default()));
    assert_eq!(buffer.line_count(), 3);
    assert_eq!(buffer.line_length(0), 0);
    assert_eq!(buffer.line_length(1), 0);
    assert_eq!(buffer.line_length(2), 4);
    *buffer.get_cell_mut(1, 0).unwrap() = cell('q');
    assert_eq!(buffer.line_count(), 3);
    assert_eq!(buffer.line_length(0), 2);
    assert_eq!(buffer.get_cell(1, 0), Some(cell('q')));
    assert_eq!(buffer.get_cell(0, 0), Some(GraphemeCell::default()));
    assert_eq!(buffer.get_cell(3, 2), Some(GraphemeCell::default()));
    assert_eq!(buffer.line_count(), 3);
    assert_eq!(buffer.line_length(2), 4);
}

#[test]
fn buffer_growth_keeps_what_was_written() {
    let mut buffer = LineBuffer::new();
    *buffer.get_cell_mut(0, 0).unwrap() = cell('a');
    *buffer.get_cell_mut(2, 1).unwrap() = cell('b');
    buffer.get_cell_mut(10, 10);
    assert_eq!(buffer.get_cell(0, 0), Some(cell('a')));
    assert_eq!(buffer.get_cell(2, 1), Some(cell('b')));
    assert_eq!(buffer.line_count(), 11);
}

#[test]
fn buffer_has_no_cell_at_negative_coordinates() {
    let mut buffer = LineBuffer::new();
    buffer.get_cell_mut(1, 1);
    assert!(buffer.get_cell_mut(-1, 0).is_none());
    assert!(buffer.get_cell_mut(0, -1).is_none());
    assert!(buffer.get_cell_mut(-1, -1).is_none());
    assert!(buffer.get_cell_mut(-1, 7).is_none());
    assert_eq!(buffer.get_cell(-1, 0), None);
    assert_eq!(buffer.get_cell(0, -1), None);
    assert_eq!(buffer.line_count(), 2);
    assert_eq!(buffer.line_length(1), 2);
}

fn buffer_of(lines: &[&str]) -> LineBuffer {
    let mut buffer = LineBuffer::new();
    for (y, text) in lines.iter().enumerate() {
        for (x, c) in text.chars().enumerate() {
            *buffer.get_cell_mut(x as i32, y as i32).unwrap() = cell(c);
        }
    }
    buffer
}

#[test]
fn displayed_height_adds_up_the_lines() {
    let mut buffer = buffer_of(&["abcdef", "x", "abc", "abcdefghijklm"]);
    assert_eq!(buffer.height_as_displayed(), 4);
    buffer.set_window_width(3);
    assert_eq!(buffer.get_soft_width(), 3);
    assert_eq!(buffer.height_as_displayed(), 2 + 1 + 1 + 5);
    assert_eq!(buffer.height_for_width(6), 1 + 1 + 1 + 3);
    assert_eq!(buffer.height_for_width(0), 4);
    assert_eq!(buffer.height_for_width(1), 6 + 1 + 3 + 13);
}

#[test]
fn line_length_is_nothing_beyond_the_buffer() {
    let buffer = buffer_of(&["abc"]);
    assert_eq!(buffer.line_length(0), 3);
    assert_eq!(buffer.line_length(1), 0);
    assert_eq!(buffer.line_length(usize::MAX), 0);
}

#[test]
fn reading_a_cell_that_was_never_written_gives_a_blank_one_and_grows_nothing() {
    let mut buffer = LineBuffer::new();
    *buffer.get_cell_mut(1, 1).unwrap() = cell('x');
    assert_eq!(buffer.get_cell(1, 1), Some(cell('x')));
    assert_eq!(buffer.get_cell(0, 1), Some(GraphemeCell::default()));
    assert_eq!(buffer.get_cell(2, 1), Some(GraphemeCell::default()));
    assert_eq!(buffer.get_cell(0, 0), Some(GraphemeCell::default()));
    assert_eq!(buffer.get_cell(5, 9), Some(GraphemeCell::default()));
    assert_eq!(buffer.get_cell(i32::MAX, i32::MAX), Some(GraphemeCell::default()));
    assert_eq!(buffer.get_cell(-1, 1), None);
    assert_eq!(buffer.get_cell(1, -1), None);
    assert_eq!(buffer.line_count(), 2);
    assert_eq!(buffer.line_length(0), 0);
    assert_eq!(buffer.line_length(1), 2);
}
