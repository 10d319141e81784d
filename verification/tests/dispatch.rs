use unsegen_terminal::ansi::{
    Attr, CharsetIndex, ClearMode, Color, CursorStyle, LineClearMode, Mode, NamedColor,
    Operation, Rgb, StandardCharset, TabulationClearMode,
};
use unsegen_terminal::dispatch::{
    decode_attributes, decode_control, decode_escape, decode_modes, decode_sequence,
};
use unsegen_terminal::osc::{decode_command, parse_number, parse_rgb_color};
use unsegen_terminal::index::{Column, Line};
use unsegen_terminal::processor::{apply_events, decode, VtEvent};
use unsegen_terminal::terminalwindow::DualWindow;

fn sequence(params: &[i64], intermediates: &[u8], action: char) -> Vec<Operation> {
    decode_sequence(&params.to_vec(), &intermediates.to_vec(), action)
}

fn attributes(params: &[i64]) -> Vec<Attr> {
    decode_attributes(&params.to_vec())
        .into_iter()
        .map(|operation| match operation {
            Operation::TerminalAttribute(attr) => attr,
            other => panic!("not an attribute: {:?}", other),
        })
        .collect()
}

#[test]
fn control_functions_are_decoded() {
    assert_eq!(decode_control(0x09), vec![Operation::PutTab(1)]);
    assert_eq!(decode_control(0x08), vec![Operation::Backspace]);
    assert_eq!(decode_control(0x0d), vec![Operation::CarriageReturn]);
    for byte in [0x0a, 0x0b, 0x0c] {
        assert_eq!(decode_control(byte), vec![Operation::Linefeed, Operation::CarriageReturn]);
    }
    assert_eq!(decode_control(0x07), vec![Operation::Bell]);
    assert_eq!(decode_control(0x1a), vec![Operation::Substitute]);
    assert_eq!(decode_control(0x0f), vec![Operation::SetActiveCharset(CharsetIndex::G0)]);
    assert_eq!(decode_control(0x0e), vec![Operation::SetActiveCharset(CharsetIndex::G1)]);
    assert_eq!(decode_control(0x85), vec![Operation::Newline]);
    assert_eq!(decode_control(0x88), vec![Operation::SetHorizontalTabstop]);
    assert_eq!(decode_control(0x9a), vec![Operation::IdentifyTerminal]);
    assert_eq!(decode_control(0x00), vec![]);
    assert_eq!(decode_control(0x1f), vec![]);
}

#[test]
fn absent_and_zero_counts_are_one() {
    assert_eq!(sequence(&[], &[], 'A'), vec![Operation::MoveUp(Line(1))]);
    assert_eq!(sequence(&[0], &[], 'A'), vec![Operation::MoveUp(Line(1))]);
    assert_eq!(sequence(&[1], &[], 'A'), vec![Operation::MoveUp(Line(1))]);
    assert_eq!(sequence(&[7], &[], 'A'), vec![Operation::MoveUp(Line(7))]);
    assert_eq!(sequence(&[0], &[], 'B'), vec![Operation::MoveDown(Line(1))]);
    assert_eq!(sequence(&[3], &[], 'e'), vec![Operation::MoveDown(Line(3))]);
    assert_eq!(sequence(&[0], &[], 'C'), vec![Operation::MoveForward(Column(1))]);
    assert_eq!(sequence(&[4], &[], 'a'), vec![Operation::MoveForward(Column(4))]);
    assert_eq!(sequence(&[0], &[], 'D'), vec![Operation::MoveBackward(Column(1))]);
    assert_eq!(sequence(&[9], &[], 'D'), vec![Operation::MoveBackward(Column(9))]);
}

#[test]
fn positions_are_counted_from_one() {
    assert_eq!(sequence(&[], &[], 'H'), vec![Operation::Goto(Line(0), Column(0))]);
    assert_eq!(sequence(&[0, 0], &[], 'H'), vec![Operation::Goto(Line(0), Column(0))]);
    assert_eq!(sequence(&[1, 1], &[], 'H'), vec![Operation::Goto(Line(0), Column(0))]);
    assert_eq!(sequence(&[5, 10], &[], 'H'), vec![Operation::Goto(Line(4), Column(9))]);
    assert_eq!(sequence(&[5], &[], 'f'), vec![Operation::Goto(Line(4), Column(0))]);
    assert_eq!(sequence(&[0, 3], &[], 'f'), vec![Operation::Goto(Line(0), Column(2))]);
    assert_eq!(sequence(&[8], &[], 'G'), vec![Operation::GotoCol(Column(7))]);
    assert_eq!(sequence(&[0], &[], '`'), vec![Operation::GotoCol(Column(0))]);
    assert_eq!(sequence(&[8], &[], 'd'), vec![Operation::GotoLine(Line(7))]);
    assert_eq!(sequence(&[], &[], 'd'), vec![Operation::GotoLine(Line(0))]);
}

#[test]
fn large_parameters_do_not_overflow() {
    assert_eq!(
        sequence(&[i64::MAX], &[], 'A'),
        vec![Operation::MoveUp(Line(i64::MAX as usize))]
    );
    assert_eq!(sequence(&[-5], &[], 'A'), vec![Operation::MoveUp(Line(0))]);
    assert_eq!(sequence(&[-5, -5], &[], 'H'), vec![Operation::Goto(Line(0), Column(0))]);
}

#[test]
fn clears_are_decoded() {
    assert_eq!(sequence(&[], &[], 'J'), vec![Operation::ClearScreen(ClearMode::Below)]);
    assert_eq!(sequence(&[0], &[], 'J'), vec![Operation::ClearScreen(ClearMode::Below)]);
    assert_eq!(sequence(&[1], &[], 'J'), vec![Operation::ClearScreen(ClearMode::Above)]);
    assert_eq!(sequence(&[2], &[], 'J'), vec![Operation::ClearScreen(ClearMode::All)]);
    assert_eq!(sequence(&[3], &[], 'J'), vec![Operation::ClearScreen(ClearMode::Saved)]);
    assert_eq!(sequence(&[4], &[], 'J'), vec![]);
    assert_eq!(sequence(&[0], &[], 'K'), vec![Operation::ClearLine(LineClearMode::Right)]);
    assert_eq!(sequence(&[1], &[], 'K'), vec![Operation::ClearLine(LineClearMode::Left)]);
    assert_eq!(sequence(&[2], &[], 'K'), vec![Operation::ClearLine(LineClearMode::All)]);
    assert_eq!(sequence(&[3], &[], 'K'), vec![]);
    assert_eq!(sequence(&[0], &[], 'g'), vec![Operation::ClearTabs(TabulationClearMode::Current)]);
    assert_eq!(sequence(&[3], &[], 'g'), vec![Operation::ClearTabs(TabulationClearMode::All)]);
    assert_eq!(sequence(&[1], &[], 'g'), vec![]);
}

#[test]
fn other_sequences_are_decoded() {
    assert_eq!(sequence(&[2], &[], '@'), vec![Operation::InsertBlank(Column(2))]);
    assert_eq!(sequence(&[0], &[], 'c'), vec![Operation::IdentifyTerminal]);
    assert_eq!(sequence(&[2], &[], 'E'), vec![Operation::MoveDownAndCr(Line(2))]);
    assert_eq!(sequence(&[2], &[], 'F'), vec![Operation::MoveUpAndCr(Line(2))]);
    assert_eq!(sequence(&[2], &[], 'I'), vec![Operation::MoveForwardTabs(2)]);
    assert_eq!(sequence(&[0], &[], 'Z'), vec![Operation::MoveBackwardTabs(1)]);
    assert_eq!(sequence(&[2], &[], 'S'), vec![Operation::ScrollUp(Line(2))]);
    assert_eq!(sequence(&[2], &[], 'T'), vec![Operation::ScrollDown(Line(2))]);
    assert_eq!(sequence(&[2], &[], 'L'), vec![Operation::InsertBlankLines(Line(2))]);
    assert_eq!(sequence(&[2], &[], 'M'), vec![Operation::DeleteLines(Line(2))]);
    assert_eq!(sequence(&[2], &[], 'X'), vec![Operation::EraseChars(Column(2))]);
    assert_eq!(sequence(&[2], &[], 'P'), vec![Operation::DeleteChars(Column(2))]);
    assert_eq!(sequence(&[6], &[], 'n'), vec![Operation::DeviceStatus(6)]);
    assert_eq!(sequence(&[0], &[], 's'), vec![Operation::SaveCursorPosition]);
    assert_eq!(sequence(&[0], &[], 'u'), vec![Operation::RestoreCursorPosition]);
    assert_eq!(
        sequence(&[2, 10], &[], 'r'),
        vec![Operation::SetScrollingRegion(Line(1), Some(Line(10)))]
    );
    assert_eq!(sequence(&[0], &[], 'r'), vec![Operation::SetScrollingRegion(Line(0), None)]);
    assert_eq!(sequence(&[2, 10], &[b'?'], 'r'), vec![]);
    assert_eq!(sequence(&[0], &[], 'z'), vec![]);
    assert_eq!(sequence(&[0], &[], '~'), vec![]);
}

#[test]
fn cursor_shapes_are_decoded() {
    for shape in [0, 1, 2] {
        assert_eq!(
            sequence(&[shape], &[b' '], 'q'),
            vec![Operation::SetCursorStyle(CursorStyle::Block)]
        );
    }
    for shape in [3, 4] {
        assert_eq!(
            sequence(&[shape], &[b' '], 'q'),
            vec![Operation::SetCursorStyle(CursorStyle::Underline)]
        );
    }
    for shape in [5, 6] {
        assert_eq!(
            sequence(&[shape], &[b' '], 'q'),
            vec![Operation::SetCursorStyle(CursorStyle::Beam)]
        );
    }
    assert_eq!(sequence(&[7], &[b' '], 'q'), vec![]);
}

#[test]
fn modes_are_decoded() {
    let private = [
        (1, Mode::CursorKeys),
        (3, Mode::ColumnMode),
        (6, Mode::Origin),
        (7, Mode::LineWrap),
        (12, Mode::BlinkingCursor),
        (25, Mode::ShowCursor),
        (1000, Mode::ReportMouseClicks),
        (1002, Mode::ReportCellMouseMotion),
        (1003, Mode::ReportAllMouseMotion),
        (1004, Mode::ReportFocusInOut),
        (1006, Mode::SgrMouse),
        (1049, Mode::SwapScreenAndSetRestoreCursor),
        (2004, Mode::BracketedPaste),
    ];
    for (number, mode) in private {
        assert_eq!(Mode::from_primitive(true, number), Some(mode));
        assert_eq!(sequence(&[number], &[b'?'], 'h'), vec![Operation::SetMode(mode)]);
        assert_eq!(sequence(&[number], &[b'?'], 'l'), vec![Operation::UnsetMode(mode)]);
    }
    assert_eq!(Mode::from_primitive(false, 4), Some(Mode::Insert));
    assert_eq!(Mode::from_primitive(false, 20), Some(Mode::LineFeedNewLine));
    assert_eq!(Mode::from_primitive(false, 25), None);
    assert_eq!(Mode::from_primitive(true, 4), None);
    assert_eq!(Mode::from_primitive(true, 0), None);
    assert_eq!(sequence(&[25], &[], 'h'), vec![]);
    assert_eq!(sequence(&[4], &[], 'h'), vec![Operation::SetMode(Mode::Insert)]);
}

#[test]
fn several_modes_are_read_up_to_the_first_unknown() {
    assert_eq!(
        decode_modes(&vec![25, 1049, 7], true, true),
        vec![
            Operation::SetMode(Mode::ShowCursor),
            Operation::SetMode(Mode::SwapScreenAndSetRestoreCursor),
            Operation::SetMode(Mode::LineWrap),
        ]
    );
    assert_eq!(
        decode_modes(&vec![25, 99, 7], true, false),
        vec![Operation::UnsetMode(Mode::ShowCursor)]
    );
    assert_eq!(decode_modes(&vec![], true, true), vec![]);
}

#[test]
fn attribute_codes_are_decoded() {
    assert_eq!(sequence(&[], &[], 'm'), vec![Operation::TerminalAttribute(Attr::Reset)]);
    assert_eq!(
        attributes(&[0, 1, 2, 3, 4, 5, 6, 7, 8, 9]),
        vec![
            Attr::Reset,
            Attr::Bold,
            Attr::Dim,
            Attr::Italic,
            Attr::Underscore,
            Attr::BlinkSlow,
            Attr::BlinkFast,
            Attr::Reverse,
            Attr::Hidden,
            Attr::Strike,
        ]
    );
    assert_eq!(
        attributes(&[21, 22, 23, 24, 25, 27, 28, 29]),
        vec![
            Attr::CancelBold,
            Attr::CancelBoldDim,
            Attr::CancelItalic,
            Attr::CancelUnderline,
            Attr::CancelBlink,
            Attr::CancelReverse,
            Attr::CancelHidden,
            Attr::CancelStrike,
        ]
    );
    let names = [
        NamedColor::Black,
        NamedColor::Red,
        NamedColor::Green,
        NamedColor::Yellow,
        NamedColor::Blue,
        NamedColor::Magenta,
        NamedColor::Cyan,
        NamedColor::White,
    ];
    let bright = [
        NamedColor::BrightBlack,
        NamedColor::BrightRed,
        NamedColor::BrightGreen,
        NamedColor::BrightYellow,
        NamedColor::BrightBlue,
        NamedColor::BrightMagenta,
        NamedColor::BrightCyan,
        NamedColor::BrightWhite,
    ];
    for i in 0..8 {
        assert_eq!(attributes(&[30 + i as i64]), vec![Attr::Foreground(Color::Named(names[i]))]);
        assert_eq!(attributes(&[40 + i as i64]), vec![Attr::Background(Color::Named(names[i]))]);
        assert_eq!(attributes(&[90 + i as i64]), vec![Attr::Foreground(Color::Named(bright[i]))]);
        assert_eq!(attributes(&[100 + i as i64]), vec![Attr::Background(Color::Named(bright[i]))]);
    }
    assert_eq!(attributes(&[39]), vec![Attr::Foreground(Color::Named(NamedColor::Foreground))]);
    assert_eq!(attributes(&[49]), vec![Attr::Background(Color::Named(NamedColor::Background))]);
}

#[test]
fn extended_colors_are_decoded() {
    assert_eq!(attributes(&[38, 5, 200]), vec![Attr::Foreground(Color::Indexed(200))]);
    assert_eq!(attributes(&[48, 5, 0]), vec![Attr::Background(Color::Indexed(0))]);
    assert_eq!(
        attributes(&[38, 2, 1, 2, 3]),
        vec![Attr::Foreground(Color::Spec(Rgb { r: 1, g: 2, b: 3 }))]
    );
    assert_eq!(
        attributes(&[48, 2, 255, 0, 128, 1]),
        vec![Attr::Background(Color::Spec(Rgb { r: 255, g: 0, b: 128 })), Attr::Bold]
    );
    assert_eq!(
        attributes(&[1, 38, 5, 7, 4]),
        vec![Attr::Bold, Attr::Foreground(Color::Indexed(7)), Attr::Underscore]
    );
}

#[test]
fn unreadable_attributes_end_the_sequence() {
    assert_eq!(attributes(&[1, 10, 3]), vec![Attr::Bold]);
    assert_eq!(attributes(&[1, 38]), vec![Attr::Bold]);
    assert_eq!(attributes(&[1, 38, 5]), vec![Attr::Bold]);
    assert_eq!(attributes(&[1, 38, 5, 256, 3]), vec![Attr::Bold]);
    assert_eq!(attributes(&[1, 38, 2, 1, 2]), vec![Attr::Bold]);
    assert_eq!(attributes(&[1, 38, 2, 1, 2, 256, 3]), vec![Attr::Bold]);
    assert_eq!(attributes(&[1, 38, 2, -1, 2, 3, 3]), vec![Attr::Bold]);
    assert_eq!(attributes(&[1, 38, 9, 1, 3]), vec![Attr::Bold]);
    assert_eq!(attributes(&[1, 48, 7]), vec![Attr::Bold]);
}

#[test]
fn escape_sequences_are_decoded() {
    let escape = |intermediates: &[u8], byte: u8| decode_escape(&intermediates.to_vec(), byte);
    assert_eq!(escape(&[], b'D'), vec![Operation::Linefeed]);
    assert_eq!(escape(&[], b'E'), vec![Operation::Linefeed, Operation::CarriageReturn]);
    assert_eq!(escape(&[], b'H'), vec![Operation::SetHorizontalTabstop]);
    assert_eq!(escape(&[], b'M'), vec![Operation::ReverseIndex]);
    assert_eq!(escape(&[], b'Z'), vec![Operation::IdentifyTerminal]);
    assert_eq!(escape(&[], b'c'), vec![Operation::ResetState]);
    assert_eq!(escape(&[], b'7'), vec![Operation::SaveCursorPosition]);
    assert_eq!(escape(&[], b'8'), vec![Operation::RestoreCursorPosition]);
    assert_eq!(escape(&[b'#'], b'8'), vec![Operation::Dectest]);
    assert_eq!(escape(&[], b'='), vec![Operation::SetKeypadApplicationMode]);
    assert_eq!(escape(&[], b'>'), vec![Operation::UnsetKeypadApplicationMode]);
    assert_eq!(escape(&[], b'\\'), vec![]);
    assert_eq!(escape(&[], b'B'), vec![]);
    let slots = [
        (b'(', CharsetIndex::G0),
        (b')', CharsetIndex::G1),
        (b'*', CharsetIndex::G2),
        (b'+', CharsetIndex::G3),
    ];
    for (byte, slot) in slots {
        assert_eq!(
            escape(&[byte], b'B'),
            vec![Operation::ConfigureCharset(slot, StandardCharset::Ascii)]
        );
        assert_eq!(
            escape(&[byte], b'0'),
            vec![Operation::ConfigureCharset(
                slot,
                StandardCharset::SpecialCharacterAndLineDrawing
            )]
        );
    }
    assert_eq!(escape(&[b'#'], b'B'), vec![]);
}

#[test]
fn title_commands_are_decoded() {
    let command = |parts: &[&[u8]]| {
        decode_command(&parts.iter().map(|part| part.to_vec()).collect::<Vec<_>>())
    };
    assert_eq!(command(&[b"0", b"title"]), vec![Operation::SetTitle]);
    assert_eq!(command(&[b"2", b"title"]), vec![Operation::SetTitle]);
    assert_eq!(command(&[b"2", b""]), vec![Operation::SetTitle]);
    assert_eq!(command(&[b"2"]), vec![]);
    assert_eq!(command(&[b"1", b"icon"]), vec![]);
    assert_eq!(command(&[b"20", b"title"]), vec![]);
    assert_eq!(command(&[b"", b"title"]), vec![]);
    assert_eq!(command(&[]), vec![]);
}

#[test]
fn palette_indices_are_parsed() {
    let number = |text: &[u8]| parse_number(&text.to_vec());
    assert_eq!(number(b"0"), Some(0));
    assert_eq!(number(b"7"), Some(7));
    assert_eq!(number(b"007"), Some(7));
    assert_eq!(number(b"255"), Some(255));
    assert_eq!(number(b"256"), None);
    assert_eq!(number(b"1000"), None);
    assert_eq!(number(b"99999999999999999999999"), None);
    assert_eq!(number(b""), None);
    assert_eq!(number(b"1a"), None);
    assert_eq!(number(b"-1"), None);
    assert_eq!(number(b" 1"), None);
}

#[test]
fn colors_are_parsed() {
    let color = |text: &[u8]| parse_rgb_color(&text.to_vec());
    assert_eq!(color(b"#000000"), Some(Rgb { r: 0, g: 0, b: 0 }));
    assert_eq!(color(b"#ff8001"), Some(Rgb { r: 255, g: 128, b: 1 }));
    assert_eq!(color(b"#FF8001"), Some(Rgb { r: 255, g: 128, b: 1 }));
    assert_eq!(color(b"#aBcDeF"), Some(Rgb { r: 0xab, g: 0xcd, b: 0xef }));
    assert_eq!(color(b"rgb:12/34/56"), Some(Rgb { r: 0x12, g: 0x34, b: 0x56 }));
    assert_eq!(color(b"rgb:ff/00/A9"), Some(Rgb { r: 255, g: 0, b: 0xa9 }));
    assert_eq!(color(b"#ff800"), None);
    assert_eq!(color(b"#ff80011"), None);
    assert_eq!(color(b"#ff80zz"), None);
    assert_eq!(color(b"ff8001"), None);
    assert_eq!(color(b"rgb:12/34/5"), None);
    assert_eq!(color(b"rgb:12-34-56"), None);
    assert_eq!(color(b"rgb:1g/34/56"), None);
    assert_eq!(color(b"rgx:12/34/56"), None);
    assert_eq!(color(b""), None);
}

#[test]
fn color_commands_are_decoded() {
    let command = |parts: &[&[u8]]| {
        decode_command(&parts.iter().map(|part| part.to_vec()).collect::<Vec<_>>())
    };
    let red = Rgb { r: 255, g: 0, b: 0 };
    let blue = Rgb { r: 0, g: 0, b: 255 };
    assert_eq!(command(&[b"4", b"1", b"#ff0000"]), vec![Operation::SetColor(1, red)]);
    assert_eq!(
        command(&[b"4", b"1", b"#ff0000", b"255", b"rgb:00/00/ff"]),
        vec![Operation::SetColor(1, red), Operation::SetColor(255, blue)]
    );
    assert_eq!(
        command(&[b"4", b"256", b"#ff0000", b"2", b"rgb:00/00/ff"]),
        vec![Operation::SetColor(2, blue)]
    );
    assert_eq!(command(&[b"4", b"1", b"red"]), vec![]);
    assert_eq!(command(&[b"4", b"1"]), vec![]);
    assert_eq!(command(&[b"4"]), vec![]);
    assert_eq!(command(&[b"4", b"1", b"#ff0000", b"2"]), vec![]);
    assert_eq!(command(&[b"10", b"#ff0000"]), vec![Operation::SetColor(256, red)]);
    assert_eq!(command(&[b"11", b"#0000ff"]), vec![Operation::SetColor(257, blue)]);
    assert_eq!(command(&[b"12", b"#0000ff"]), vec![Operation::SetColor(259, blue)]);
    assert_eq!(command(&[b"10", b"?"]), vec![]);
    assert_eq!(command(&[b"10"]), vec![]);
    assert_eq!(command(&[b"13", b"#0000ff"]), vec![]);
    assert_eq!(command(&[b"1", b"#0000ff"]), vec![]);
}

#[test]
fn reports_are_decoded() {
    assert_eq!(decode(&VtEvent::Print('x')), vec![Operation::Input('x')]);
    assert_eq!(decode(&VtEvent::Execute(0x0d)), vec![Operation::CarriageReturn]);
    assert_eq!(decode(&VtEvent::Put(b'x')), vec![]);
    assert_eq!(decode(&VtEvent::Unhook), vec![]);
    assert_eq!(
        decode(&VtEvent::Hook {
            params: vec![1],
            intermediates: vec![],
            ignore: false,
            action: 'q'
        }),
        vec![]
    );
    assert_eq!(
        decode(&VtEvent::CsiDispatch {
            params: vec![2, 3],
            intermediates: vec![],
            ignore: false,
            action: 'H'
        }),
        vec![Operation::Goto(Line(1), Column(2))]
    );
    assert_eq!(
        decode(&VtEvent::EscDispatch { intermediates: vec![], ignore: false, byte: b'D' }),
        vec![Operation::Linefeed]
    );
    assert_eq!(
        decode(&VtEvent::OscDispatch {
            params: vec![b"0".to_vec(), b"t".to_vec()],
            bell_terminated: true
        }),
        vec![Operation::SetTitle]
    );
}

#[test]
fn reports_are_applied_in_order() {
    let mut window = DualWindow::new();
    apply_events(
        &mut window,
        &vec![
            VtEvent::Print('a'),
            VtEvent::Print('b'),
            VtEvent::Execute(0x0a),
            VtEvent::CsiDispatch {
                params: vec![1],
                intermediates: vec![],
                ignore: false,
                action: 'm',
            },
            VtEvent::Print('c'),
            VtEvent::Execute(0x08),
            VtEvent::Print('d'),
        ],
    );
    let screen = window.active();
    assert_eq!(screen.line_count(), 2);
    assert_eq!(screen.get_cell(0, 0).unwrap().grapheme, 'a');
    assert_eq!(screen.get_cell(1, 0).unwrap().grapheme, 'b');
    assert_eq!(screen.get_cell(0, 1).unwrap().grapheme, 'd');
    assert!(screen.get_cell(0, 1).unwrap().style.format.bold);
    assert_eq!(screen.line_length(1), 1);
    assert_eq!(screen.cursor_position(), (1, 1));
}
