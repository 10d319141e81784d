//! Colors, text formats and the modifiers that change them.

use vstd::prelude::*;

verus! {

/// A color that a cell can be displayed in.
#[derive(Clone, Copy, PartialEq, Eq, Debug)]
pub enum Color {
    /// The color that the host terminal uses when none is set.
    Default,
    Rgb { r: u8, g: u8, b: u8 },
    /// An index into the 256 color palette of the host terminal.
    Ansi(u8),
    Black,
    Blue,
    Cyan,
    Green,
    Magenta,
    Red,
    White,
    Yellow,
    LightBlack,
    LightBlue,
    LightCyan,
    LightGreen,
    LightMagenta,
    LightRed,
    LightWhite,
    LightYellow,
}

/// The text attributes of a cell. They can be combined freely.
#[derive(Clone, Copy, PartialEq, Eq, Debug)]
pub struct TextFormat {
    pub bold: bool,
    pub italic: bool,
    pub invert: bool,
    pub underline: bool,
}

impl TextFormat {
    /// The format without any attribute.
    pub open spec fn plain() -> TextFormat {
        TextFormat { bold: false, italic: false, invert: false, underline: false }
    }
}

impl Default for TextFormat {
    fn default() -> (format: TextFormat)
        ensures
            format == TextFormat::plain(),
    {
        TextFormat { bold: false, italic: false, invert: false, underline: false }
    }
}

/// One of the four functions from `bool` to `bool`.
#[derive(Clone, Copy, PartialEq, Eq, Debug)]
pub enum BoolModifyMode {
    /// Set the attribute.
    Yes,
    /// Clear the attribute.
    No,
    /// Flip the attribute.
    Toggle,
    LeaveUnchanged,
}

impl BoolModifyMode {
    /// The value of an attribute after the modification, given its value before.
    pub open spec fn applied(self, target: bool) -> bool {
        match self {
            BoolModifyMode::Yes => true,
            BoolModifyMode::No => false,
            BoolModifyMode::Toggle => !target,
            BoolModifyMode::LeaveUnchanged => target,
        }
    }

    /// The single modification that has the effect of `other` followed by `self`.
    pub open spec fn stacked(self, other: BoolModifyMode) -> BoolModifyMode {
        match self {
            BoolModifyMode::Yes => BoolModifyMode::Yes,
            BoolModifyMode::No => BoolModifyMode::No,
            BoolModifyMode::LeaveUnchanged => other,
            BoolModifyMode::Toggle => match other {
                BoolModifyMode::Yes => BoolModifyMode::No,
                BoolModifyMode::No => BoolModifyMode::Yes,
                BoolModifyMode::Toggle => BoolModifyMode::LeaveUnchanged,
                BoolModifyMode::LeaveUnchanged => BoolModifyMode::Toggle,
            },
        }
    }

    /// `Yes` for `true`, `No` for `false`.
    pub open spec fn of(on: bool) -> BoolModifyMode {
        if on {
            BoolModifyMode::Yes
        } else {
            BoolModifyMode::No
        }
    }

    pub fn from_bool(on: bool) -> (mode: BoolModifyMode)
        ensures
            mode == BoolModifyMode::of(on),
    {
        if on {
            BoolModifyMode::Yes
        } else {
            BoolModifyMode::No
        }
    }

    /// Combines two modifications: applying the result is applying `other`, then `self`.
    pub fn on_top_of(self, other: BoolModifyMode) -> (combined: BoolModifyMode)
        ensures
            combined == self.stacked(other),
            forall|b: bool| combined.applied(b) == self.applied(other.applied(b)),
    {
        match self {
            BoolModifyMode::Yes => BoolModifyMode::Yes,
            BoolModifyMode::No => BoolModifyMode::No,
            BoolModifyMode::LeaveUnchanged => other,
            BoolModifyMode::Toggle => match other {
                BoolModifyMode::Yes => BoolModifyMode::No,
                BoolModifyMode::No => BoolModifyMode::Yes,
                BoolModifyMode::Toggle => BoolModifyMode::LeaveUnchanged,
                BoolModifyMode::LeaveUnchanged => BoolModifyMode::Toggle,
            },
        }
    }

    /// Changes `target` as the mode says.
    pub fn modify(self, target: &mut bool)
        ensures
            *final(target) == self.applied(*old(target)),
    {
        match self {
            BoolModifyMode::Yes => {
                *target = true;
            },
            BoolModifyMode::No => {
                *target = false;
            },
            BoolModifyMode::Toggle => {
                *target = !*target;
            },
            BoolModifyMode::LeaveUnchanged => {},
        }
    }
}

/// A modification of each attribute of a `TextFormat`.
#[derive(Clone, Copy, PartialEq, Eq, Debug)]
pub struct TextFormatModifier {
    pub bold: BoolModifyMode,
    pub italic: BoolModifyMode,
    pub invert: BoolModifyMode,
    pub underline: BoolModifyMode,
}

impl TextFormatModifier {
    /// The modifier that leaves every attribute as it is.
    pub open spec fn identity() -> TextFormatModifier {
        TextFormatModifier {
            bold: BoolModifyMode::LeaveUnchanged,
            italic: BoolModifyMode::LeaveUnchanged,
            invert: BoolModifyMode::LeaveUnchanged,
            underline: BoolModifyMode::LeaveUnchanged,
        }
    }

    /// The format that results from modifying `format`.
    pub open spec fn applied(self, format: TextFormat) -> TextFormat {
        TextFormat {
            bold: self.bold.applied(format.bold),
            italic: self.italic.applied(format.italic),
            invert: self.invert.applied(format.invert),
            underline: self.underline.applied(format.underline),
        }
    }

    /// The single modifier that has the effect of `other` followed by `self`.
    pub open spec fn stacked(self, other: TextFormatModifier) -> TextFormatModifier {
        TextFormatModifier {
            bold: self.bold.stacked(other.bold),
            italic: self.italic.stacked(other.italic),
            invert: self.invert.stacked(other.invert),
            underline: self.underline.stacked(other.underline),
        }
    }

    pub fn new() -> (modifier: TextFormatModifier)
        ensures
            modifier == TextFormatModifier::identity(),
    {
        TextFormatModifier {
            bold: BoolModifyMode::LeaveUnchanged,
            italic: BoolModifyMode::LeaveUnchanged,
            invert: BoolModifyMode::LeaveUnchanged,
            underline: BoolModifyMode::LeaveUnchanged,
        }
    }

    /// Combines two modifiers: applying the result is applying `other`, then `self`.
    pub fn on_top_of(self, other: TextFormatModifier) -> (combined: TextFormatModifier)
        ensures
            combined == self.stacked(other),
    {
        TextFormatModifier {
            bold: self.bold.on_top_of(other.bold),
            italic: self.italic.on_top_of(other.italic),
            invert: self.invert.on_top_of(other.invert),
            underline: self.underline.on_top_of(other.underline),
        }
    }

    /// Changes `format` as the modifier says.
    pub fn modify(self, format: &mut TextFormat)
        ensures
            *final(format) == self.applied(*old(format)),
    {
        self.bold.modify(&mut format.bold);
        self.italic.modify(&mut format.italic);
        self.invert.modify(&mut format.invert);
        self.underline.modify(&mut format.underline);
    }
}

/// How a cell is presented: its colors and its text attributes.
#[derive(Clone, Copy, PartialEq, Eq, Debug)]
pub struct Style {
    pub fg_color: Color,
    pub bg_color: Color,
    pub format: TextFormat,
}

impl Style {
    /// The style with default colors and no attribute.
    pub open spec fn plain() -> Style {
        Style { fg_color: Color::Default, bg_color: Color::Default, format: TextFormat::plain() }
    }
}

impl Default for Style {
    fn default() -> (style: Style)
        ensures
            style == Style::plain(),
    {
        Style { fg_color: Color::Default, bg_color: Color::Default, format: TextFormat::default() }
    }
}

/// A set of changes to a `Style`. Modifiers can be combined before they are applied.
#[derive(Clone, Copy, PartialEq, Eq, Debug)]
pub struct StyleModifier {
    pub fg_color: Option<Color>,
    pub bg_color: Option<Color>,
    pub format: TextFormatModifier,
}

impl StyleModifier {
    /// The modifier that leaves a style as it is.
    pub open spec fn identity() -> StyleModifier {
        StyleModifier { fg_color: None, bg_color: None, format: TextFormatModifier::identity() }
    }

    /// The style that results from modifying `style`.
    pub open spec fn applied(self, style: Style) -> Style {
        Style {
            fg_color: match self.fg_color {
                Some(color) => color,
                None => style.fg_color,
            },
            bg_color: match self.bg_color {
                Some(color) => color,
                None => style.bg_color,
            },
            format: self.format.applied(style.format),
        }
    }

    /// The single modifier that has the effect of `other` followed by `self`.
    pub open spec fn stacked(self, other: StyleModifier) -> StyleModifier {
        StyleModifier {
            fg_color: if self.fg_color is Some {
                self.fg_color
            } else {
                other.fg_color
            },
            bg_color: if self.bg_color is Some {
                self.bg_color
            } else {
                other.bg_color
            },
            format: self.format.stacked(other.format),
        }
    }

    pub fn new() -> (modifier: StyleModifier)
        ensures
            modifier == StyleModifier::identity(),
    {
        StyleModifier { fg_color: None, bg_color: None, format: TextFormatModifier::new() }
    }

    /// The same modifier, but setting the foreground color.
    pub fn fg_color(self, fg_color: Color) -> (modifier: StyleModifier)
        ensures
            modifier == (StyleModifier { fg_color: Some(fg_color), ..self }),
    {
        StyleModifier { fg_color: Some(fg_color), bg_color: self.bg_color, format: self.format }
    }

    /// The same modifier, but setting the background color.
    pub fn bg_color(self, bg_color: Color) -> (modifier: StyleModifier)
        ensures
            modifier == (StyleModifier { bg_color: Some(bg_color), ..self }),
    {
        StyleModifier { fg_color: self.fg_color, bg_color: Some(bg_color), format: self.format }
    }

    /// The same modifier, but changing the bold attribute by `mode`.
    pub fn bold(self, mode: BoolModifyMode) -> (modifier: StyleModifier)
        ensures
            modifier == (StyleModifier {
                format: TextFormatModifier { bold: mode, ..self.format },
                ..self
            }),
    {
        let mut modifier = self;
        modifier.format.bold = mode;
        modifier
    }

    /// The same modifier, but changing the italic attribute by `mode`.
    pub fn italic(self, mode: BoolModifyMode) -> (modifier: StyleModifier)
        ensures
            modifier == (StyleModifier {
                format: TextFormatModifier { italic: mode, ..self.format },
                ..self
            }),
    {
        let mut modifier = self;
        modifier.format.italic = mode;
        modifier
    }

    /// The same modifier, but changing the invert attribute by `mode`.
    pub fn invert(self, mode: BoolModifyMode) -> (modifier: StyleModifier)
        ensures
            modifier == (StyleModifier {
                format: TextFormatModifier { invert: mode, ..self.format },
                ..self
            }),
    {
        let mut modifier = self;
        modifier.format.invert = mode;
        modifier
    }

    /// The same modifier, but changing the underline attribute by `mode`.
    pub fn underline(self, mode: BoolModifyMode) -> (modifier: StyleModifier)
        ensures
            modifier == (StyleModifier {
                format: TextFormatModifier { underline: mode, ..self.format },
                ..self
            }),
    {
        let mut modifier = self;
        modifier.format.underline = mode;
        modifier
    }

    /// Combines two modifiers: applying the result is applying `other`, then `self`.
    pub fn on_top_of(self, other: StyleModifier) -> (combined: StyleModifier)
        ensures
            combined == self.stacked(other),
    {
        StyleModifier {
            fg_color: match self.fg_color {
                Some(color) => Some(color),
                None => other.fg_color,
            },
            bg_color: match self.bg_color {
                Some(color) => Some(color),
                None => other.bg_color,
            },
            format: self.format.on_top_of(other.format),
        }
    }

    /// The style that results from modifying `style`.
    pub fn apply(self, style: Style) -> (modified: Style)
        ensures
            modified == self.applied(style),
    {
        let mut modified = style;
        self.modify(&mut modified);
        modified
    }

    /// Changes `style` as the modifier says.
    pub fn modify(self, style: &mut Style)
        ensures
            *final(style) == self.applied(*old(style)),
    {
        if let Some(color) = self.fg_color {
            style.fg_color = color;
        }
        if let Some(color) = self.bg_color {
            style.bg_color = color;
        }
        self.format.modify(&mut style.format);
    }
}

/// Applying a combined mode is the same as applying its two parts in turn.
pub proof fn lemma_mode_stacking(upper: BoolModifyMode, lower: BoolModifyMode, target: bool)
    ensures
        upper.stacked(lower).applied(target) == upper.applied(lower.applied(target)),
{
}

/// Applying a combined modifier is the same as applying its two parts in turn.
pub proof fn lemma_modifier_stacking(upper: StyleModifier, lower: StyleModifier, style: Style)
    ensures
        upper.stacked(lower).applied(style) == upper.applied(lower.applied(style)),
{
}

} // verus!
