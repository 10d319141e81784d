//! Operating system commands: the control strings that set the title of the window and
//! the colors of the palette.

use vstd::prelude::*;
use crate::ansi::{Operation, Rgb};
use crate::dispatch::zero_or_one;

verus! {

/// The palette index of the default foreground color.
pub const FOREGROUND_INDEX: usize = 256;

/// The palette index of the default background color.
pub const BACKGROUND_INDEX: usize = 257;

/// The palette index of the color of the cursor.
pub const CURSOR_INDEX: usize = 259;

/// The bytes of each of `parts`.
pub open spec fn bytes_held(parts: Seq<Vec<u8>>) -> Seq<Seq<u8>> {
    Seq::new(parts.len(), |i: int| parts[i]@)
}

/// The value of a decimal digit.
pub open spec fn digit_value(byte: u8) -> Option<int> {
    if 0x30 <= byte <= 0x39 {
        Some(byte - 0x30)
    } else {
        None
    }
}

/// The value of a hexadecimal digit, in either case.
pub open spec fn hex_value(byte: u8) -> Option<int> {
    if 0x30 <= byte <= 0x39 {
        Some(byte - 0x30)
    } else if 0x61 <= byte <= 0x66 {
        Some(byte - 0x61 + 10)
    } else if 0x41 <= byte <= 0x46 {
        Some(byte - 0x41 + 10)
    } else {
        None
    }
}

/// The number that `text` is in decimal digits, if it is made of decimal digits. The
/// empty text is the number 0.
pub open spec fn decimal(text: Seq<u8>) -> Option<int>
    decreases text.len(),
{
    if text.len() == 0 {
        Some(0)
    } else {
        match (decimal(text.drop_last()), digit_value(text.last())) {
            (Some(above), Some(digit)) => Some(above * 10 + digit),
            _ => None,
        }
    }
}

/// The palette index that `text` names: a number from 0 to 255 in decimal digits.
pub open spec fn palette_index(text: Seq<u8>) -> Option<u8> {
    if text.len() == 0 {
        None
    } else {
        match decimal(text) {
            Some(value) => if value <= 255 {
                Some(value as u8)
            } else {
                None
            },
            None => None,
        }
    }
}

/// The value of the two hexadecimal digits of `text` at `at`.
pub open spec fn hex_pair(text: Seq<u8>, at: int) -> Option<u8> {
    if 0 <= at && at + 2 <= text.len() {
        match (hex_value(text[at]), hex_value(text[at + 1])) {
            (Some(high), Some(low)) => Some((high * 16 + low) as u8),
            _ => None,
        }
    } else {
        None
    }
}

/// The color whose red, green and blue are the hexadecimal pairs of `text` at the three
/// places.
pub open spec fn color_at(text: Seq<u8>, red: int, green: int, blue: int) -> Option<Rgb> {
    match (hex_pair(text, red), hex_pair(text, green), hex_pair(text, blue)) {
        (Some(r), Some(g), Some(b)) => Some(Rgb { r, g, b }),
        _ => None,
    }
}

/// The color that `text` names. A color is written `#rrggbb` or `rgb:rr/gg/bb`, in
/// hexadecimal digits.
pub open spec fn color_of(text: Seq<u8>) -> Option<Rgb> {
    if text.len() == 7 && text[0] == 0x23 {
        color_at(text, 1, 3, 5)
    } else if text.len() == 12 && text[0] == 0x72 && text[1] == 0x67 && text[2] == 0x62
        && text[3] == 0x3a && text[6] == 0x2f && text[9] == 0x2f {
        color_at(text, 4, 7, 10)
    } else {
        None
    }
}

/// The palette changes that the pairs of an index and a color from `at` on stand for. A
/// pair that cannot be read is passed over.
pub open spec fn palette_changes(params: Seq<Seq<u8>>, at: int) -> Seq<Operation>
    decreases params.len() - at,
{
    if at < 0 || at + 1 >= params.len() {
        Seq::empty()
    } else {
        match (palette_index(params[at]), color_of(params[at + 1])) {
            (Some(index), Some(color)) => seq![Operation::SetColor(index as usize, color)]
                + palette_changes(params, at + 2),
            _ => palette_changes(params, at + 2),
        }
    }
}

/// The change of the palette entry `index` to the color that the second part of a
/// command names, if it names one.
pub open spec fn color_change(params: Seq<Seq<u8>>, index: usize) -> Seq<Operation> {
    if params.len() >= 2 {
        match color_of(params[1]) {
            Some(color) => seq![Operation::SetColor(index, color)],
            None => Seq::empty(),
        }
    } else {
        Seq::empty()
    }
}

/// The operations that an operating system command stands for. The first part of a
/// command is its number. The commands 0 and 2, followed by a title, set the title. The
/// command 4, followed by pairs of an index and a color, changes entries of the palette;
/// the commands 10, 11 and 12, followed by a color, change the default foreground, the
/// default background and the color of the cursor. Every other command stands for
/// nothing.
pub open spec fn command_operations(params: Seq<Seq<u8>>) -> Seq<Operation> {
    if params.len() == 0 {
        Seq::empty()
    } else if params[0] == seq![0x30u8] || params[0] == seq![0x32u8] {
        if params.len() >= 2 {
            seq![Operation::SetTitle]
        } else {
            Seq::empty()
        }
    } else if params[0] == seq![0x34u8] {
        if params.len() % 2 == 1 {
            palette_changes(params, 1)
        } else {
            Seq::empty()
        }
    } else if params[0] == seq![0x31u8, 0x30u8] {
        color_change(params, FOREGROUND_INDEX)
    } else if params[0] == seq![0x31u8, 0x31u8] {
        color_change(params, BACKGROUND_INDEX)
    } else if params[0] == seq![0x31u8, 0x32u8] {
        color_change(params, CURSOR_INDEX)
    } else {
        Seq::empty()
    }
}

/// A number in decimal digits is not smaller than a number that it starts with.
proof fn lemma_decimal_grows(text: Seq<u8>, upto: int)
    requires
        0 <= upto <= text.len(),
        decimal(text) is Some,
    ensures
        decimal(text.take(upto)) is Some,
        0 <= decimal(text.take(upto))->0 <= decimal(text)->0,
    decreases text.len() - upto,
{
    if upto == text.len() {
        assert(text.take(upto) == text);
        lemma_decimal_nonnegative(text);
    } else {
        assert(text.drop_last().take(upto) == text.take(upto));
        lemma_decimal_grows(text.drop_last(), upto);
    }
}

/// A number in decimal digits is not negative.
proof fn lemma_decimal_nonnegative(text: Seq<u8>)
    requires
        decimal(text) is Some,
    ensures
        decimal(text)->0 >= 0,
    decreases text.len(),
{
    if text.len() > 0 {
        lemma_decimal_nonnegative(text.drop_last());
    }
}

/// Text that starts with something other than a number is not a number.
proof fn lemma_decimal_needs_digits(text: Seq<u8>, upto: int)
    requires
        0 <= upto <= text.len(),
        decimal(text.take(upto)) is None,
    ensures
        decimal(text) is None,
    decreases text.len() - upto,
{
    if upto == text.len() {
        assert(text.take(upto) == text);
    } else {
        assert(text.drop_last().take(upto) == text.take(upto));
        lemma_decimal_needs_digits(text.drop_last(), upto);
    }
}

/// The palette index that `text` names, if it names one.
pub fn parse_number(text: &Vec<u8>) -> (index: Option<u8>)
    ensures
        index == palette_index(text@),
{
    if text.len() == 0 {
        return None;
    }
    let mut value: u16 = 0;
    let mut i: usize = 0;
    while i < text.len()
        invariant
            i <= text@.len(),
            value <= 255,
            decimal(text@.take(i as int)) == Some(value as int),
        decreases text@.len() - i,
    {
        let byte = text[i];
        proof {
            assert(text@.take(i + 1).drop_last() == text@.take(i as int));
            assert(text@.take(i + 1).last() == byte);
        }
        if byte < 0x30 || byte > 0x39 {
            proof {
                lemma_decimal_needs_digits(text@, i + 1);
            }
            return None;
        }
        let next = value * 10 + (byte - 0x30) as u16;
        if next > 255 {
            proof {
                if decimal(text@) is Some {
                    lemma_decimal_grows(text@, i + 1);
                }
            }
            return None;
        }
        value = next;
        i = i + 1;
    }
    assert(text@.take(i as int) == text@);
    Some(value as u8)
}

/// The value of a hexadecimal digit, in either case.
fn parse_hex_digit(byte: u8) -> (value: Option<u8>)
    ensures
        match value {
            Some(v) => hex_value(byte) == Some(v as int),
            None => hex_value(byte) is None,
        },
{
    if 0x30 <= byte && byte <= 0x39 {
        Some(byte - 0x30)
    } else if 0x61 <= byte && byte <= 0x66 {
        Some(byte - 0x61 + 10)
    } else if 0x41 <= byte && byte <= 0x46 {
        Some(byte - 0x41 + 10)
    } else {
        None
    }
}

/// The value of the two hexadecimal digits of `text` at `at`.
fn parse_hex_pair(text: &Vec<u8>, at: usize) -> (value: Option<u8>)
    requires
        at + 2 <= text.len(),
    ensures
        value == hex_pair(text@, at as int),
{
    match (parse_hex_digit(text[at]), parse_hex_digit(text[at + 1])) {
        (Some(high), Some(low)) => Some(high * 16 + low),
        _ => None,
    }
}

/// The color whose red, green and blue are the hexadecimal pairs of `text` at the three
/// places.
fn parse_color_at(text: &Vec<u8>, red: usize, green: usize, blue: usize) -> (color: Option<Rgb>)
    requires
        red + 2 <= text.len(),
        green + 2 <= text.len(),
        blue + 2 <= text.len(),
    ensures
        color == color_at(text@, red as int, green as int, blue as int),
{
    match (parse_hex_pair(text, red), parse_hex_pair(text, green), parse_hex_pair(text, blue)) {
        (Some(r), Some(g), Some(b)) => Some(Rgb { r, g, b }),
        _ => None,
    }
}

/// The color that `text` names, if it names one.
pub fn parse_rgb_color(text: &Vec<u8>) -> (color: Option<Rgb>)
    ensures
        color == color_of(text@),
{
    if text.len() == 7 && text[0] == 0x23 {
        parse_color_at(text, 1, 3, 5)
    } else if text.len() == 12 && text[0] == 0x72 && text[1] == 0x67 && text[2] == 0x62
        && text[3] == 0x3a && text[6] == 0x2f && text[9] == 0x2f {
        parse_color_at(text, 4, 7, 10)
    } else {
        None
    }
}

/// Whether `text` is the one byte `byte`.
fn is_byte(text: &Vec<u8>, byte: u8) -> (is: bool)
    ensures
        is == (text@ == seq![byte]),
{
    let is = text.len() == 1 && text[0] == byte;
    proof {
        if is {
            assert(text@ =~= seq![byte]);
        }
        if text@ == seq![byte] {
            assert(text@.len() == 1 && text@[0] == byte);
        }
    }
    is
}

/// Whether `text` is the two bytes `first` and `second`.
fn is_bytes(text: &Vec<u8>, first: u8, second: u8) -> (is: bool)
    ensures
        is == (text@ == seq![first, second]),
{
    let is = text.len() == 2 && text[0] == first && text[1] == second;
    proof {
        if is {
            assert(text@ =~= seq![first, second]);
        }
        if text@ == seq![first, second] {
            assert(text@.len() == 2 && text@[0] == first && text@[1] == second);
        }
    }
    is
}

/// The palette changes that the pairs of an index and a color from the second part on
/// stand for.
fn decode_palette(params: &Vec<Vec<u8>>) -> (operations: Vec<Operation>)
    ensures
        operations@ == palette_changes(bytes_held(params@), 1),
{
    let ghost parts = bytes_held(params@);
    let mut operations: Vec<Operation> = Vec::new();
    let mut at: usize = 1;
    while at < params.len() && params.len() - at > 1
        invariant
            1 <= at,
            parts == bytes_held(params@),
            operations@ + palette_changes(parts, at as int) == palette_changes(parts, 1),
        decreases params@.len() - at,
    {
        let index = parse_number(&params[at]);
        let color = parse_rgb_color(&params[at + 1]);
        proof {
            assert(parts[at as int] == params@[at as int]@);
            assert(parts[at + 1] == params@[at + 1]@);
        }
        match (index, color) {
            (Some(index), Some(color)) => {
                let operation = Operation::SetColor(index as usize, color);
                proof {
                    assert(operations@.push(operation) + palette_changes(parts, at + 2)
                        =~= operations@ + palette_changes(parts, at as int));
                }
                operations.push(operation);
            },
            _ => {},
        }
        at = at + 2;
    }
    proof {
        assert(operations@ + palette_changes(parts, at as int) =~= operations@);
    }
    operations
}

/// The change of the palette entry `index` to the color that the second part of a
/// command names.
fn decode_color(params: &Vec<Vec<u8>>, index: usize) -> (operations: Vec<Operation>)
    ensures
        operations@ == color_change(bytes_held(params@), index),
{
    if params.len() >= 2 {
        proof {
            assert(bytes_held(params@)[1] == params@[1]@);
        }
        match parse_rgb_color(&params[1]) {
            Some(color) => zero_or_one(Some(Operation::SetColor(index, color))),
            None => zero_or_one(None),
        }
    } else {
        zero_or_one(None)
    }
}

/// The operations that an operating system command stands for.
pub fn decode_command(params: &Vec<Vec<u8>>) -> (operations: Vec<Operation>)
    ensures
        operations@ == command_operations(bytes_held(params@)),
{
    if params.len() == 0 {
        return zero_or_one(None);
    }
    proof {
        assert(bytes_held(params@)[0] == params@[0]@);
    }
    let number = &params[0];
    if is_byte(number, 0x30) || is_byte(number, 0x32) {
        if params.len() >= 2 {
            zero_or_one(Some(Operation::SetTitle))
        } else {
            zero_or_one(None)
        }
    } else if is_byte(number, 0x34) {
        if params.len() % 2 == 1 {
            decode_palette(params)
        } else {
            zero_or_one(None)
        }
    } else if is_bytes(number, 0x31, 0x30) {
        decode_color(params, FOREGROUND_INDEX)
    } else if is_bytes(number, 0x31, 0x31) {
        decode_color(params, BACKGROUND_INDEX)
    } else if is_bytes(number, 0x31, 0x32) {
        decode_color(params, CURSOR_INDEX)
    } else {
        zero_or_one(None)
    }
}

} // verus!
