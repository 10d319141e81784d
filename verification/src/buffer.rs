//! Styled cells, lines of cells and the buffer of lines that a terminal writes to.

use vstd::prelude::*;
use crate::style::Style;

verus! {

/// The largest column or row index that a cell can have.
pub const MAX_INDEX: i32 = 0x7fff_ffff;

/// The largest number of cells in a line, and of lines in a buffer.
pub const MAX_EXTENT: usize = 0x8000_0000;

/// A grapheme as the user sees it, together with its style.
#[derive(Clone, Copy, PartialEq, Eq, Debug)]
pub struct GraphemeCell {
    pub grapheme: char,
    pub style: Style,
}

impl GraphemeCell {
    /// The cell that growing a line or a buffer creates: a space in plain style.
    pub open spec fn blank() -> GraphemeCell {
        GraphemeCell { grapheme: ' ', style: Style::plain() }
    }

    pub fn new(grapheme: char, style: Style) -> (cell: GraphemeCell)
        ensures
            cell == (GraphemeCell { grapheme, style }),
    {
        GraphemeCell { grapheme, style }
    }
}

impl Default for GraphemeCell {
    fn default() -> (cell: GraphemeCell)
        ensures
            cell == GraphemeCell::blank(),
    {
        GraphemeCell { grapheme: ' ', style: Style::default() }
    }
}

/// `line`, extended with blank cells so that it has a cell in column `x`.
pub open spec fn grown_line(line: Seq<GraphemeCell>, x: int) -> Seq<GraphemeCell> {
    if x < line.len() {
        line
    } else {
        line + Seq::new((x + 1 - line.len()) as nat, |i: int| GraphemeCell::blank())
    }
}

/// `lines`, extended with empty lines so that row `y` exists.
pub open spec fn grown_rows(lines: Seq<Seq<GraphemeCell>>, y: int) -> Seq<Seq<GraphemeCell>> {
    if y < lines.len() {
        lines
    } else {
        lines + Seq::new((y + 1 - lines.len()) as nat, |i: int| Seq::<GraphemeCell>::empty())
    }
}

/// `lines`, extended with empty lines and blank cells so that the cell in column `x` of
/// row `y` exists.
pub open spec fn grown(lines: Seq<Seq<GraphemeCell>>, x: int, y: int) -> Seq<Seq<GraphemeCell>> {
    let rows = grown_rows(lines, y);
    rows.update(y, grown_line(rows[y], x))
}

/// The cell in column `x` of `line`: the one that the line holds there, or a blank one
/// where the line does not reach that far.
pub open spec fn cell_in(line: Seq<GraphemeCell>, x: int) -> GraphemeCell {
    if 0 <= x < line.len() {
        line[x]
    } else {
        GraphemeCell::blank()
    }
}

/// The cell in column `x` of row `y` of `lines`: the one that is held there, or a blank
/// one where nothing has been written yet.
pub open spec fn cell_at(lines: Seq<Seq<GraphemeCell>>, x: int, y: int) -> GraphemeCell {
    if 0 <= y < lines.len() {
        cell_in(lines[y], x)
    } else {
        GraphemeCell::blank()
    }
}

/// The number of window rows that a line of `len` cells takes when it is wrapped at
/// `width` columns. A line takes at least one row, and exactly one where the width is 0.
pub open spec fn rows_needed(len: nat, width: nat) -> nat {
    if width == 0 {
        1
    } else if len == 0 {
        1
    } else {
        ((len + width - 1) / (width as int)) as nat
    }
}

/// `line` with the columns from `from` up to, but not including, `to` holding `fill`. The
/// line grows to `to` cells if it was shorter; a gap before `from` is blank.
pub open spec fn cleared_line(
    line: Seq<GraphemeCell>,
    from: int,
    to: int,
    fill: GraphemeCell,
) -> Seq<GraphemeCell> {
    Seq::new(
        (if line.len() > to {
            line.len() as int
        } else {
            to
        }) as nat,
        |i: int|
            if from <= i < to {
                fill
            } else if i < line.len() {
                line[i]
            } else {
                GraphemeCell::blank()
            },
    )
}

/// `lines` with the rows from `start` up to, but not including, `end` emptied. No row is
/// removed.
pub open spec fn emptied(lines: Seq<Seq<GraphemeCell>>, start: int, end: int) -> Seq<
    Seq<GraphemeCell>,
> {
    Seq::new(
        lines.len(),
        |i: int|
            if start <= i < end {
                Seq::<GraphemeCell>::empty()
            } else {
                lines[i]
            },
    )
}

/// The window rows that `line` is displayed as when it is wrapped at `width` columns: it
/// is cut into pieces of `width` cells, the last of which may be shorter. An empty line is
/// displayed as one empty row.
pub open spec fn line_rows(line: Seq<GraphemeCell>, width: nat) -> Seq<Seq<GraphemeCell>> {
    Seq::new(
        rows_needed(line.len(), width),
        |k: int|
            line.subrange(
                k * width,
                if (k + 1) * width < line.len() {
                    (k + 1) * width
                } else {
                    line.len() as int
                },
            ),
    )
}

/// All window rows of `lines`, top to bottom, when each line is wrapped at `width` columns.
pub open spec fn displayed_rows(lines: Seq<Seq<GraphemeCell>>, width: nat) -> Seq<
    Seq<GraphemeCell>,
>
    decreases lines.len(),
{
    if lines.len() == 0 {
        Seq::empty()
    } else {
        displayed_rows(lines.drop_last(), width) + line_rows(lines.last(), width)
    }
}

/// `value`, moved into the range from `low` to `high`.
pub open spec fn clip(value: int, low: int, high: int) -> int {
    if value < low {
        low
    } else if value > high {
        high
    } else {
        value
    }
}

/// The cells of `rows`, row by row.
pub open spec fn cells_of_rows(rows: Seq<Vec<GraphemeCell>>) -> Seq<Seq<GraphemeCell>> {
    Seq::new(rows.len(), |i: int| rows[i]@)
}

/// Row `k` of a wrapped line starts within the line, or at its end where the line is
/// empty.
pub proof fn lemma_row_bounds(len: nat, width: nat, k: nat)
    requires
        width > 0,
        k < rows_needed(len, width),
    ensures
        k * width <= len,
        len > 0 ==> k * width < len,
        k * width + width == (k + 1) * width,
{
    assert(k * width + width == (k + 1) * width) by (nonlinear_arith);
    if len == 0 {
        assert(k * width == 0) by (nonlinear_arith)
            requires
                k == 0,
        ;
    } else {
        let w = width as int;
        let q = (len + w - 1) / w;
        vstd::arithmetic::div_mod::lemma_fundamental_div_mod(len + w - 1, w);
        vstd::arithmetic::div_mod::lemma_mod_bound(len + w - 1, w);
        assert(w * q >= len) by {
            assert(w * q == len + w - 1 - (len + w - 1) % w);
        }
        assert(k * width < len) by (nonlinear_arith)
            requires
                k + 1 <= q,
                w * q <= len + w - 1,
                w == width,
                w > 0,
        ;
    }
}

/// A sequence of cells that grows to the right on demand.
pub struct Line {
    content: Vec<GraphemeCell>,
}

impl View for Line {
    type V = Seq<GraphemeCell>;

    closed spec fn view(&self) -> Seq<GraphemeCell> {
        self.content@
    }
}

impl Line {
    pub fn empty() -> (line: Line)
        ensures
            line@ == Seq::<GraphemeCell>::empty(),
    {
        Line { content: Vec::new() }
    }

    pub fn length(&self) -> (len: usize)
        ensures
            len == self@.len(),
    {
        self.content.len()
    }

    /// Removes all cells.
    pub fn clear(&mut self)
        ensures
            final(self)@ == Seq::<GraphemeCell>::empty(),
    {
        self.content.clear();
    }

    /// The number of window rows that the line takes when it is wrapped at `width` columns.
    pub fn height_for_width(&self, width: u16) -> (height: u64)
        ensures
            height == rows_needed(self@.len(), width as nat),
    {
        let len = self.content.len();
        if width == 0 || len == 0 {
            1
        } else {
            let full: u64 = (len - 1) as u64 / width as u64;
            assert((len + width - 1) / (width as int) == (len - 1) / (width as int) + 1) by {
                vstd::arithmetic::div_mod::lemma_div_plus_one((len - 1) as int, width as int);
            }
            full + 1
        }
    }

    /// The cell in column `x`, after the line has grown to hold it. There is no cell in a
    /// negative column.
    pub fn get_cell_mut(&mut self, x: i32) -> (cell: Option<&mut GraphemeCell>)
        ensures
            x < 0 ==> cell is None && final(self)@ == old(self)@,
            x >= 0 ==> cell is Some && *cell->0 == grown_line(old(self)@, x as int)[x as int]
                && final(self)@ == grown_line(old(self)@, x as int).update(
                x as int,
                *final(cell->0),
            ),
    {
        if x < 0 {
            return None;
        }
        let x = x as usize;
        let ghost before = self.content@;
        while self.content.len() <= x
            invariant
                self.content@.len() <= x + 1 || self.content@.len() == before.len(),
                before.len() <= self.content@.len(),
                self.content@ == before + Seq::new(
                    (self.content@.len() - before.len()) as nat,
                    |i: int| GraphemeCell::blank(),
                ),
            decreases x + 1 - self.content@.len(),
        {
            self.content.push(GraphemeCell::default());
        }
        Some(&mut self.content[x])
    }

    /// The cell in column `x`: the one that the line holds there, or a blank one where the
    /// line does not reach that far. There is no cell in a negative column. The line is
    /// left as it is.
    pub fn get_cell(&self, x: i32) -> (cell: Option<GraphemeCell>)
        ensures
            cell == if x < 0 {
                None
            } else {
                Some(cell_in(self@, x as int))
            },
    {
        if x < 0 {
            None
        } else if x as usize >= self.content.len() {
            Some(GraphemeCell::default())
        } else {
            Some(self.content[x as usize])
        }
    }

    /// Cuts the line down to `len` cells, where it has more.
    pub(crate) fn truncate(&mut self, len: usize)
        ensures
            final(self)@ == if len < old(self)@.len() {
                old(self)@.take(len as int)
            } else {
                old(self)@
            },
    {
        self.content.truncate(len);
        assert(len < old(self)@.len() ==> self.content@ =~= old(self)@.take(len as int));
    }

    /// The cells of the window row `k` of the line, wrapped at `width` columns.
    pub(crate) fn row_chunk(&self, k: u64, width: u16) -> (chunk: Vec<GraphemeCell>)
        requires
            width > 0,
            k < rows_needed(self@.len(), width as nat),
        ensures
            chunk@ == line_rows(self@, width as nat)[k as int],
    {
        let len = self.content.len();
        proof {
            lemma_row_bounds(self@.len(), width as nat, k as nat);
            lemma_rows_needed_bounds(self@.len(), width as nat);
            assert((k as nat) * (width as nat) == (k as int) * (width as int));
        }
        let start: usize = k as usize * width as usize;
        let end: usize = if len - start > width as usize {
            start + width as usize
        } else {
            len
        };
        let mut chunk: Vec<GraphemeCell> = Vec::new();
        let mut x: usize = start;
        while x < end
            invariant
                start <= x <= end <= self.content@.len(),
                chunk@ == self.content@.subrange(start as int, x as int),
            decreases end - x,
        {
            chunk.push(self.content[x]);
            x = x + 1;
        }
        chunk
    }
}

/// The number of window rows that `lines` take together when each is wrapped at `width`
/// columns.
pub open spec fn total_rows(lines: Seq<Seq<GraphemeCell>>, width: nat) -> nat
    decreases lines.len(),
{
    if lines.len() == 0 {
        0
    } else {
        total_rows(lines.drop_last(), width) + rows_needed(lines.last().len(), width)
    }
}

/// Whether no line of `lines`, nor `lines` itself, is longer than `MAX_EXTENT`.
pub open spec fn within_extent(lines: Seq<Seq<GraphemeCell>>) -> bool {
    &&& lines.len() <= MAX_EXTENT
    &&& forall|i: int| 0 <= i < lines.len() ==> (#[trigger] lines[i]).len() <= MAX_EXTENT
}

/// A line takes at least one row and at most as many rows as it has cells.
pub proof fn lemma_rows_needed_bounds(len: nat, width: nat)
    ensures
        1 <= rows_needed(len, width),
        rows_needed(len, width) <= if len == 0 {
            1
        } else {
            len
        },
{
    if width != 0 && len != 0 {
        let w = width as int;
        vstd::arithmetic::div_mod::lemma_fundamental_div_mod(len + w - 1, w);
        vstd::arithmetic::div_mod::lemma_mod_bound(len + w - 1, w);
        let q = (len + w - 1) / w;
        assert(w * q <= len + w - 1);
        assert(w * q > len - 1);
        assert(q >= 1) by (nonlinear_arith)
            requires
                w * q > len - 1,
                len >= 1,
                w >= 1,
        ;
        assert(q <= len) by (nonlinear_arith)
            requires
                w * q <= len + w - 1,
                len >= 1,
                w >= 1,
                q >= 1,
        ;
    }
}

/// Lines take at least one row each, and together at most `MAX_EXTENT` rows for each line.
pub proof fn lemma_total_rows_bounds(lines: Seq<Seq<GraphemeCell>>, width: nat)
    requires
        forall|i: int| 0 <= i < lines.len() ==> (#[trigger] lines[i]).len() <= MAX_EXTENT,
    ensures
        lines.len() <= total_rows(lines, width),
        total_rows(lines, width) <= lines.len() * MAX_EXTENT,
    decreases lines.len(),
{
    if lines.len() > 0 {
        lemma_total_rows_bounds(lines.drop_last(), width);
        lemma_rows_needed_bounds(lines.last().len(), width);
        assert((lines.len() - 1) * MAX_EXTENT + MAX_EXTENT == lines.len() * MAX_EXTENT)
            by (nonlinear_arith);
    }
}

/// The cells of `lines`, line by line.
spec fn cells_of(lines: Seq<Line>) -> Seq<Seq<GraphemeCell>> {
    Seq::new(lines.len(), |i: int| lines[i]@)
}

/// Replacing one line replaces its cells and nothing else.
proof fn lemma_view_update(lines: Seq<Line>, y: int)
    requires
        0 <= y < lines.len(),
    ensures
        forall|line: Line| #[trigger]
            cells_of(lines.update(y, line)) == cells_of(lines).update(y, line@),
{
    assert forall|line: Line| #[trigger]
        cells_of(lines.update(y, line)) == cells_of(lines).update(y, line@) by {
        assert(cells_of(lines.update(y, line)) =~= cells_of(lines).update(y, line@));
    }
}

/// Growing a buffer to hold a cell keeps it within its extent, whatever is then written
/// to that cell.
pub proof fn lemma_grown_within_extent(lines: Seq<Seq<GraphemeCell>>, x: int, y: int)
    requires
        within_extent(lines),
        0 <= x <= MAX_INDEX,
        0 <= y <= MAX_INDEX,
    ensures
        within_extent(grown(lines, x, y)),
        forall|cell: GraphemeCell|
            within_extent(
                grown(lines, x, y).update(y, #[trigger] grown(lines, x, y)[y].update(x, cell)),
            ),
{
    let rows = grown(lines, x, y);
    assert forall|i: int| 0 <= i < rows.len() implies (#[trigger] rows[i]).len()
        <= MAX_EXTENT by {
        if i < lines.len() {
            assert(lines[i].len() <= MAX_EXTENT);
        }
    }
    assert forall|cell: GraphemeCell|
        within_extent(rows.update(y, #[trigger] rows[y].update(x, cell))) by {
        let changed = rows.update(y, rows[y].update(x, cell));
        assert forall|i: int| 0 <= i < changed.len() implies (#[trigger] changed[i]).len()
            <= MAX_EXTENT by {
            assert(rows[i].len() <= MAX_EXTENT);
        }
    }
}

/// The displayed rows of `lines` are as many as `total_rows` counts.
pub proof fn lemma_displayed_rows_len(lines: Seq<Seq<GraphemeCell>>, width: nat)
    ensures
        displayed_rows(lines, width).len() == total_rows(lines, width),
    decreases lines.len(),
{
    if lines.len() > 0 {
        lemma_displayed_rows_len(lines.drop_last(), width);
    }
}

/// The displayed rows of the first `i` lines are the first displayed rows of all lines,
/// and those of line `i` follow them.
pub proof fn lemma_displayed_rows_prefix(lines: Seq<Seq<GraphemeCell>>, width: nat, i: int)
    requires
        0 <= i <= lines.len(),
    ensures
        total_rows(lines.take(i), width) <= total_rows(lines, width),
        displayed_rows(lines.take(i), width) == displayed_rows(lines, width).subrange(
            0,
            total_rows(lines.take(i), width) as int,
        ),
        i < lines.len() ==> displayed_rows(lines.take(i + 1), width) == displayed_rows(
            lines.take(i),
            width,
        ) + line_rows(lines[i], width),
        i < lines.len() ==> total_rows(lines.take(i + 1), width) == total_rows(
            lines.take(i),
            width,
        ) + rows_needed(lines[i].len(), width),
    decreases lines.len(),
{
    lemma_displayed_rows_len(lines, width);
    lemma_displayed_rows_len(lines.take(i), width);
    if i == lines.len() {
        assert(lines.take(i) == lines);
    } else {
        let shorter = lines.drop_last();
        lemma_displayed_rows_prefix(shorter, width, i);
        lemma_displayed_rows_len(shorter, width);
        assert(shorter.take(i) == lines.take(i));
        assert(displayed_rows(lines, width).subrange(
            0,
            total_rows(lines.take(i), width) as int,
        ) == displayed_rows(shorter, width).subrange(0, total_rows(lines.take(i), width) as int));
        let next = lines.take(i + 1);
        assert(next.drop_last() == lines.take(i));
        assert(next.last() == lines[i]);
    }
}

/// `lines`, with row `y` cut down to `length` cells and the whole to `count` lines, where
/// they have more.
pub open spec fn cut_back(lines: Seq<Seq<GraphemeCell>>, y: int, count: int, length: int) -> Seq<
    Seq<GraphemeCell>,
> {
    Seq::new(
        (if count < lines.len() {
            count
        } else {
            lines.len() as int
        }) as nat,
        |i: int|
            if i == y && length < lines[i].len() {
                lines[i].take(length)
            } else {
                lines[i]
            },
    )
}

/// Cutting a buffer back to the extent that it had before it grew for a cell gives the
/// buffer that it was.
pub proof fn lemma_cut_back_grown(lines: Seq<Seq<GraphemeCell>>, x: int, y: int)
    requires
        0 <= x,
        0 <= y,
    ensures
        cut_back(
            grown(lines, x, y),
            y,
            lines.len() as int,
            if y < lines.len() {
                lines[y].len() as int
            } else {
                0
            },
        ) == lines,
{
    let length = if y < lines.len() {
        lines[y].len() as int
    } else {
        0
    };
    let cut = cut_back(grown(lines, x, y), y, lines.len() as int, length);
    assert(cut.len() == lines.len());
    assert forall|i: int| 0 <= i < lines.len() implies cut[i] == lines[i] by {
        if i == y {
            assert(cut[i] =~= lines[i]);
        }
    }
    assert(cut =~= lines);
}

/// The lines that a terminal has written, oldest first. The buffer grows downwards on
/// demand and keeps everything that was written to it.
pub struct LineBuffer {
    lines: Vec<Line>,
    window_width: u16,
    default_style: Style,
}

impl LineBuffer {
    /// The cells of the buffer, line by line.
    pub closed spec fn lines(&self) -> Seq<Seq<GraphemeCell>> {
        cells_of(self.lines@)
    }

    /// The width at which lines are wrapped for display.
    pub closed spec fn soft_width(&self) -> nat {
        self.window_width as nat
    }

    /// The style that modifiers are applied to when a cell is written.
    pub closed spec fn base_style(&self) -> Style {
        self.default_style
    }

    /// The buffer's invariant: its extent is within what a cell index can reach.
    pub open spec fn inv(&self) -> bool {
        within_extent(self.lines())
    }

    pub fn new() -> (buffer: LineBuffer)
        ensures
            buffer.lines() == Seq::<Seq<GraphemeCell>>::empty(),
            buffer.soft_width() == 0,
            buffer.base_style() == Style::plain(),
            buffer.inv(),
    {
        LineBuffer { lines: Vec::new(), window_width: 0, default_style: Style::default() }
    }

    pub fn set_window_width(&mut self, w: u16)
        ensures
            final(self).soft_width() == w,
            final(self).lines() == old(self).lines(),
            final(self).base_style() == old(self).base_style(),
    {
        self.window_width = w;
    }

    pub fn get_soft_width(&self) -> (width: u16)
        ensures
            width == self.soft_width(),
    {
        self.window_width
    }

    pub fn get_default_style(&self) -> (style: Style)
        ensures
            style == self.base_style(),
    {
        self.default_style
    }

    /// The number of lines.
    pub fn line_count(&self) -> (count: usize)
        ensures
            count == self.lines().len(),
    {
        self.lines.len()
    }

    /// The number of cells in line `y`, which is 0 where the buffer has no such line.
    pub fn line_length(&self, y: usize) -> (len: usize)
        ensures
            len == if y < self.lines().len() {
                self.lines()[y as int].len()
            } else {
                0
            },
    {
        if y < self.lines.len() {
            self.lines[y].length()
        } else {
            0
        }
    }

    /// The number of window rows that the whole buffer takes when its lines are wrapped at
    /// `width` columns.
    pub fn height_for_width(&self, width: u16) -> (height: u64)
        requires
            self.inv(),
        ensures
            height == total_rows(self.lines(), width as nat),
    {
        let mut height: u64 = 0;
        let mut i: usize = 0;
        while i < self.lines.len()
            invariant
                i <= self.lines@.len(),
                self.inv(),
                height == total_rows(self.lines().take(i as int), width as nat),
            decreases self.lines@.len() - i,
        {
            let rows = self.lines[i].height_for_width(width);
            proof {
                let next = self.lines().take(i + 1);
                assert(next.drop_last() == self.lines().take(i as int));
                assert(next.last() == self.lines()[i as int]);
                lemma_total_rows_bounds(next, width as nat);
                assert(next.len() * MAX_EXTENT <= MAX_EXTENT * MAX_EXTENT) by (nonlinear_arith)
                    requires
                        next.len() <= MAX_EXTENT,
                ;
            }
            height = height + rows;
            i = i + 1;
        }
        assert(self.lines().take(i as int) == self.lines());
        height
    }

    /// The number of window rows that the whole buffer takes at its own wrapping width.
    pub fn height_as_displayed(&self) -> (height: u64)
        requires
            self.inv(),
        ensures
            height == total_rows(self.lines(), self.soft_width()),
    {
        self.height_for_width(self.window_width)
    }

    /// The cell in column `x` of row `y`, after the buffer has grown to hold it. There is
    /// no cell in a negative column or row.
    pub fn get_cell_mut(&mut self, x: i32, y: i32) -> (cell: Option<&mut GraphemeCell>)
        requires
            old(self).inv(),
        ensures
            final(self).inv(),
            final(self).soft_width() == old(self).soft_width(),
            final(self).base_style() == old(self).base_style(),
            cell is Some <==> x >= 0 && y >= 0,
            cell is None ==> final(self).lines() == old(self).lines(),
            cell is Some ==> {
                let rows = grown(old(self).lines(), x as int, y as int);
                &&& *cell->0 == rows[y as int][x as int]
                &&& final(self).lines() == rows.update(
                    y as int,
                    rows[y as int].update(x as int, *final(cell->0)),
                )
            },
    {
        if x < 0 || y < 0 {
            return None;
        }
        let ghost before = self.lines();
        self.ensure_row(y);
        proof {
            lemma_view_update(self.lines@, y as int);
            lemma_grown_within_extent(before, x as int, y as int);
        }
        let line = &mut self.lines[y as usize];
        line.get_cell_mut(x)
    }

    /// Extends the buffer with empty lines so that row `y` exists.
    pub(crate) fn ensure_row(&mut self, y: i32)
        requires
            old(self).inv(),
            y >= 0,
        ensures
            final(self).inv(),
            final(self).soft_width() == old(self).soft_width(),
            final(self).base_style() == old(self).base_style(),
            final(self).lines() == grown_rows(old(self).lines(), y as int),
    {
        let row = y as usize;
        let ghost before = self.lines();
        while self.lines.len() <= row
            invariant
                self.lines@.len() <= row + 1 || self.lines@.len() == before.len(),
                before.len() <= self.lines@.len(),
                self.lines() == before + Seq::new(
                    (self.lines@.len() - before.len()) as nat,
                    |i: int| Seq::<GraphemeCell>::empty(),
                ),
                self.window_width == old(self).window_width,
                self.default_style == old(self).default_style,
            decreases row + 1 - self.lines@.len(),
        {
            let ghost above = self.lines();
            self.lines.push(Line::empty());
            assert(self.lines() =~= above.push(Seq::<GraphemeCell>::empty()));
            assert(self.lines() =~= before + Seq::new(
                (self.lines@.len() - before.len()) as nat,
                |i: int| Seq::<GraphemeCell>::empty(),
            ));
        }
        assert(self.lines() == grown_rows(before, y as int));
        proof {
            let rows = self.lines();
            assert forall|i: int| 0 <= i < rows.len() implies (#[trigger] rows[i]).len()
                <= MAX_EXTENT by {
                if i < before.len() {
                    assert(before[i].len() <= MAX_EXTENT);
                }
            }
        }
    }

    /// Writes `fill` to the columns of row `y` from `from` up to, but not including, `to`.
    /// The buffer grows to hold them.
    pub(crate) fn fill_cells(&mut self, y: i32, from: usize, to: usize, fill: GraphemeCell)
        requires
            old(self).inv(),
            y >= 0,
            from < to <= MAX_EXTENT,
        ensures
            final(self).inv(),
            final(self).soft_width() == old(self).soft_width(),
            final(self).base_style() == old(self).base_style(),
            final(self).lines() == grown_rows(old(self).lines(), y as int).update(
                y as int,
                cleared_line(
                    grown_rows(old(self).lines(), y as int)[y as int],
                    from as int,
                    to as int,
                    fill,
                ),
            ),
    {
        let ghost rows = grown_rows(self.lines(), y as int);
        let mut x: usize = from;
        while x < to
            invariant
                from <= x <= to <= MAX_EXTENT,
                y >= 0,
                self.inv(),
                self.soft_width() == old(self).soft_width(),
                self.base_style() == old(self).base_style(),
                rows == grown_rows(old(self).lines(), y as int),
                x == from ==> self.lines() == old(self).lines(),
                x > from ==> self.lines() == rows.update(
                    y as int,
                    cleared_line(rows[y as int], from as int, x as int, fill),
                ),
            decreases to - x,
        {
            let ghost before = self.lines();
            match self.get_cell_mut(x as i32, y) {
                Some(cell) => {
                    *cell = fill;
                },
                None => {},
            }
            proof {
                let after = self.lines();
                let expected = rows.update(
                    y as int,
                    cleared_line(rows[y as int], from as int, x + 1, fill),
                );
                assert(after.len() == expected.len());
                assert forall|i: int| 0 <= i < after.len() implies after[i] == expected[i] by {
                    if i == y {
                        assert(after[i] =~= expected[i]);
                    }
                }
                assert(after =~= expected);
            }
            x = x + 1;
        }
    }

    /// Empties the lines from `start` up to, but not including, `end`. No line is removed.
    pub(crate) fn empty_lines(&mut self, start: usize, end: usize)
        requires
            old(self).inv(),
        ensures
            final(self).inv(),
            final(self).soft_width() == old(self).soft_width(),
            final(self).base_style() == old(self).base_style(),
            final(self).lines() == emptied(old(self).lines(), start as int, end as int),
    {
        let count = self.lines.len();
        let stop = if end < count {
            end
        } else {
            count
        };
        let mut i: usize = start;
        while i < stop
            invariant
                stop <= self.lines@.len(),
                stop <= end,
                stop == end || stop == old(self).lines().len(),
                start <= i,
                self.window_width == old(self).window_width,
                self.default_style == old(self).default_style,
                self.lines() == emptied(
                    old(self).lines(),
                    start as int,
                    if i < stop {
                        i as int
                    } else {
                        end as int
                    },
                ),
            decreases stop - i,
        {
            let ghost before = self.lines@;
            proof {
                lemma_view_update(self.lines@, i as int);
            }
            self.lines[i].clear();
            i = i + 1;
            assert(self.lines() =~= emptied(
                old(self).lines(),
                start as int,
                if i < stop {
                    i as int
                } else {
                    end as int
                },
            ));
        }
        assert(self.lines() =~= emptied(old(self).lines(), start as int, end as int));
        proof {
            let rows = self.lines();
            assert forall|i: int| 0 <= i < rows.len() implies (#[trigger] rows[i]).len()
                <= MAX_EXTENT by {
                assert(old(self).lines()[i].len() <= MAX_EXTENT);
            }
        }
    }

    /// The displayed rows from `first` up to, but not including, `last`, of the buffer
    /// wrapped at `width` columns.
    pub(crate) fn rows_between(&self, width: u16, first: u64, last: u64) -> (rows: Vec<
        Vec<GraphemeCell>,
    >)
        requires
            self.inv(),
            width > 0,
            first <= last <= total_rows(self.lines(), width as nat),
        ensures
            cells_of_rows(rows@) == displayed_rows(self.lines(), width as nat).subrange(
                first as int,
                last as int,
            ),
    {
        let ghost all = displayed_rows(self.lines(), width as nat);
        proof {
            lemma_displayed_rows_len(self.lines(), width as nat);
            lemma_total_rows_bounds(self.lines(), width as nat);
            assert(self.lines().len() * MAX_EXTENT <= MAX_EXTENT * MAX_EXTENT) by (nonlinear_arith)
                requires
                    self.lines().len() <= MAX_EXTENT,
            ;
            assert(self.lines().take(0).len() == 0);
        }
        let mut rows: Vec<Vec<GraphemeCell>> = Vec::new();
        let mut above: u64 = 0;
        let mut i: usize = 0;
        while i < self.lines.len() && above < last
            invariant
                self.inv(),
                width > 0,
                i <= self.lines@.len(),
                first <= last <= all.len(),
                all == displayed_rows(self.lines(), width as nat),
                all.len() == total_rows(self.lines(), width as nat),
                all.len() <= MAX_EXTENT * MAX_EXTENT,
                above == total_rows(self.lines().take(i as int), width as nat),
                above <= all.len(),
                rows@.len() == clip(above as int, first as int, last as int) - first,
                cells_of_rows(rows@) == all.subrange(
                    first as int,
                    clip(above as int, first as int, last as int),
                ),
            decreases self.lines@.len() - i,
        {
            let height = self.lines[i].height_for_width(width);
            proof {
                lemma_displayed_rows_prefix(self.lines(), width as nat, i as int);
                lemma_displayed_rows_prefix(self.lines(), width as nat, i + 1);
                lemma_displayed_rows_len(self.lines().take(i + 1), width as nat);
                lemma_displayed_rows_len(self.lines().take(i as int), width as nat);
                assert(self.lines()[i as int] == self.lines@[i as int]@);
                assert(above + height == total_rows(self.lines().take(i + 1), width as nat));
            }
            let ghost line = self.lines()[i as int];
            assert(forall|k: int|
                0 <= k < height ==> all[above + k] == #[trigger] line_rows(line, width as nat)[k])
                by {
                assert forall|k: int| 0 <= k < height implies all[above + k] == #[trigger] line_rows(
                    line,
                    width as nat,
                )[k] by {
                    let upto = displayed_rows(self.lines().take(i + 1), width as nat);
                    assert(upto[above + k] == all[above + k]);
                }
            }
            if above + height > first {
                let mut k: u64 = if first > above {
                    first - above
                } else {
                    0
                };
                while k < height && above + k < last
                    invariant
                        width > 0,
                        i < self.lines@.len(),
                        line == self.lines()[i as int],
                        height == rows_needed(line.len(), width as nat),
                        first <= last <= all.len(),
                        above + height <= all.len() <= MAX_EXTENT * MAX_EXTENT,
                        k <= height,
                        first <= above + k,
                        above + k <= last || k == 0,
                        above + k <= last || rows@.len() == last - first,
                        forall|r: int|
                            0 <= r < height ==> all[above + r] == #[trigger] line_rows(
                                line,
                                width as nat,
                            )[r],
                        rows@.len() == clip(above + k, first as int, last as int) - first,
                        cells_of_rows(rows@) == all.subrange(
                            first as int,
                            clip(above + k, first as int, last as int),
                        ),
                    decreases height - k,
                {
                    let chunk = self.lines[i].row_chunk(k, width);
                    let ghost before = cells_of_rows(rows@);
                    rows.push(chunk);
                    assert(cells_of_rows(rows@) =~= before.push(
                        line_rows(line, width as nat)[k as int],
                    ));
                    assert(cells_of_rows(rows@) =~= all.subrange(first as int, above + k + 1));
                    k = k + 1;
                }
            }
            above = above + height;
            i = i + 1;
        }
        proof {
            if i == self.lines@.len() {
                assert(self.lines().take(i as int) == self.lines());
            }
        }
        rows
    }

    /// The cell in column `x` of row `y`: the one that the buffer holds there, or a blank
    /// one where nothing has been written yet. There is no cell in a negative column or
    /// row. The buffer is left as it is.
    pub fn get_cell(&self, x: i32, y: i32) -> (cell: Option<GraphemeCell>)
        ensures
            cell == if x < 0 || y < 0 {
                None
            } else {
                Some(cell_at(self.lines(), x as int, y as int))
            },
    {
        if x < 0 || y < 0 {
            None
        } else if y as usize >= self.lines.len() {
            Some(GraphemeCell::default())
        } else {
            self.lines[y as usize].get_cell(x)
        }
    }

    /// Takes back what growing the buffer for the cell in row `y` has added: the row is
    /// cut down to `length` cells and the buffer to `count` lines, where they have more.
    pub(crate) fn restore_extent(&mut self, y: i32, count: usize, length: usize)
        requires
            old(self).inv(),
            y >= 0,
        ensures
            final(self).inv(),
            final(self).soft_width() == old(self).soft_width(),
            final(self).base_style() == old(self).base_style(),
            final(self).lines() == cut_back(old(self).lines(), y as int, count as int, length as int),
    {
        let row = y as usize;
        if row < self.lines.len() {
            proof {
                lemma_view_update(self.lines@, y as int);
            }
            self.lines[row].truncate(length);
        }
        self.lines.truncate(count);
        proof {
            let expected = cut_back(old(self).lines(), y as int, count as int, length as int);
            assert(self.lines().len() == expected.len());
            assert forall|i: int| 0 <= i < expected.len() implies self.lines()[i]
                == expected[i] by {
                assert(old(self).lines()[i].len() <= MAX_EXTENT);
            }
            assert(self.lines() =~= expected);
            assert forall|i: int| 0 <= i < expected.len() implies (#[trigger] expected[i]).len()
                <= MAX_EXTENT by {
                assert(old(self).lines()[i].len() <= MAX_EXTENT);
            }
        }
    }
}

} // verus!
