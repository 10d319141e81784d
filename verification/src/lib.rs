//! A terminal emulation engine for text user interfaces.
//!
//! Bytes written by a child process to a pseudoterminal are decoded by a VT
//! parser into cursor and style operations on a scrollable cell buffer. The
//! buffer is projected onto a window of fixed size for display, and the
//! decisions that keep a pseudoterminal in step with that window are made
//! here as well. Opening the pseudoterminal and painting the host screen are
//! left to the embedding application.

pub mod ansi;
pub mod buffer;
pub mod cursor;
pub mod dispatch;
pub mod index;
pub mod osc;
pub mod processor;
pub mod screen;
pub mod style;
pub mod terminalwindow;

use vstd::prelude::*;
use crate::ansi::Operation;
use crate::buffer::{GraphemeCell, cells_of_rows};
use crate::processor::{Processor, lemma_perform_all_concat, operations_for};
use crate::screen::{
    Screen, Screens, lemma_output_makes_a_line, lemma_output_stays_in_the_active_buffer,
    lemma_perform_all, lemma_unsupported_concat, output_stays, unsupported_of,
};
use crate::terminalwindow::{Demand, Demand2D, DualWindow};

verus! {

/// The size of a terminal as a pseudoterminal is told it.
#[derive(Clone, Copy, PartialEq, Eq, Debug)]
pub struct WindowSize {
    pub rows: u16,
    pub cols: u16,
    pub xpixels: u16,
    pub ypixels: u16,
}

/// What a draw asks of the embedding application.
pub struct Drawing {
    /// The size to tell the pseudoterminal, where the window has changed its size.
    pub resize: Option<WindowSize>,
    /// The window row that the first of the rows is for.
    pub first_row: u16,
    /// The cells for consecutive rows of the window, top to bottom, each from the first
    /// column on. What is not held here is not drawn to.
    pub rows: Vec<Vec<GraphemeCell>>,
}

/// A key, as far as the terminal tells keys apart.
#[derive(Clone, Copy, PartialEq, Eq, Debug)]
pub enum Key {
    PageUp,
    PageDown,
    Home,
    End,
    /// Any other key.
    Other,
}

/// `screen`, laid out for a window of `w` by `h` cells.
pub open spec fn resized(screen: Screen, w: u16, h: u16) -> Screen {
    Screen { width: w, height: h, ..screen }
}

/// An emulated terminal: the byte stream of a child process goes in, and what to draw
/// comes out.
pub struct Terminal {
    terminal_window: DualWindow,
    ansi_processor: Processor,
}

impl Terminal {
    /// The two screens of the terminal.
    pub closed spec fn screens(&self) -> Screens {
        self.terminal_window@
    }

    /// The bytes that the terminal has been given so far, oldest first.
    pub closed spec fn fed(&self) -> Seq<u8> {
        self.ansi_processor.fed()
    }

    /// The terminal's invariant.
    pub closed spec fn inv(&self) -> bool {
        self.terminal_window.inv()
    }

    /// The invariant of the terminal is that of its screens.
    pub proof fn lemma_inv(&self)
        requires
            self.inv(),
        ensures
            self.screens().inv(),
    {
        self.terminal_window.lemma_inv();
    }

    pub fn new() -> (terminal: Terminal)
        ensures
            terminal.inv(),
            terminal.screens() == Screens::initial(),
            terminal.fed() == Seq::<u8>::empty(),
    {
        Terminal { terminal_window: DualWindow::new(), ansi_processor: Processor::new() }
    }

    /// The screens of the terminal.
    pub fn window(&self) -> (window: &DualWindow)
        requires
            self.inv(),
        ensures
            window.inv(),
            window@ == self.screens(),
    {
        &self.terminal_window
    }

    /// The screens of the terminal, to be changed.
    pub fn window_mut(&mut self) -> (window: &mut DualWindow)
        requires
            old(self).inv(),
        ensures
            window.inv(),
            window@ == old(self).screens(),
            final(self).fed() == old(self).fed(),
            final(self).screens() == final(window)@,
            final(window).inv() ==> final(self).inv(),
    {
        &mut self.terminal_window
    }

    /// Gives the terminal bytes that the child process has written. The active screen
    /// performs the operations that the bytes stand for, in order.
    ///
    /// No buffer loses a line. Once the bytes have displayed a character, the buffer of the
    /// active screen has a line, unless they have switched the screen since; one of the two
    /// buffers has a line in any case.
    pub fn add_byte_input(&mut self, bytes: &[u8])
        requires
            old(self).inv(),
        ensures
            final(self).inv(),
            final(self).fed() == old(self).fed() + bytes@,
            final(self).screens() == old(self).screens().perform_all(
                operations_for(old(self).fed(), bytes@),
            ),
            final(self).screens().main.lines.len() >= old(self).screens().main.lines.len(),
            final(self).screens().alternate.lines.len() >= old(
                self,
            ).screens().alternate.lines.len(),
            output_stays(operations_for(old(self).fed(), bytes@))
                ==> final(self).screens().active().lines.len() >= 1,
            (exists|i: int|
                0 <= i < operations_for(old(self).fed(), bytes@).len() && #[trigger] operations_for(
                    old(self).fed(),
                    bytes@,
                )[i] is Input) ==> (final(self).screens().main.lines.len() >= 1
                || final(self).screens().alternate.lines.len() >= 1),
    {
        let _ = self.feed(bytes);
        proof {
            old(self).lemma_inv();
            let operations = operations_for(old(self).fed(), bytes@);
            lemma_perform_all(old(self).screens(), operations);
            if output_stays(operations) {
                lemma_output_stays_in_the_active_buffer(old(self).screens(), operations);
            }
            if exists|i: int| 0 <= i < operations.len() && #[trigger] operations[i] is Input {
                lemma_output_makes_a_line(old(self).screens(), operations);
            }
        }
    }

    /// Gives the terminal bytes that the child process has written, as `add_byte_input`
    /// does, and tells what was asked for in vain: the result holds, in order, the
    /// operations among those that the bytes stand for that the terminal does not support.
    /// They have changed nothing.
    pub fn feed(&mut self, bytes: &[u8]) -> (unsupported: Vec<Operation>)
        requires
            old(self).inv(),
        ensures
            final(self).inv(),
            final(self).fed() == old(self).fed() + bytes@,
            final(self).screens() == old(self).screens().perform_all(
                operations_for(old(self).fed(), bytes@),
            ),
            unsupported@ == unsupported_of(operations_for(old(self).fed(), bytes@)),
    {
        let mut unsupported: Vec<Operation> = Vec::new();
        let mut i: usize = 0;
        while i < bytes.len()
            invariant
                i <= bytes@.len(),
                self.inv(),
                self.fed() == old(self).fed() + bytes@.take(i as int),
                self.screens() == old(self).screens().perform_all(
                    operations_for(old(self).fed(), bytes@.take(i as int)),
                ),
                unsupported@ == unsupported_of(
                    operations_for(old(self).fed(), bytes@.take(i as int)),
                ),
            decreases bytes@.len() - i,
        {
            let mut more = self.ansi_processor.advance(&mut self.terminal_window, bytes[i]);
            unsupported.append(&mut more);
            proof {
                let done = bytes@.take(i + 1);
                assert(done.drop_last() == bytes@.take(i as int));
                assert(done.last() == bytes@[i as int]);
                assert(old(self).fed() + done == (old(self).fed() + bytes@.take(i as int)).push(
                    bytes@[i as int],
                ));
                let before = operations_for(old(self).fed(), bytes@.take(i as int));
                let added = processor::decoded_all(
                    processor::vte_reports(
                        old(self).fed() + bytes@.take(i as int),
                        bytes@[i as int],
                    ),
                );
                lemma_perform_all_concat(old(self).screens(), before, added);
                lemma_unsupported_concat(before, added);
            }
            i = i + 1;
        }
        proof {
            assert(bytes@.take(i as int) == bytes@);
            assert(old(self).fed() + bytes@.take(0) == old(self).fed());
        }
        unsupported
    }

    /// Makes the active screen as large as the window that it is drawn to. Where that
    /// changes its size, the result is the size to tell the pseudoterminal.
    pub fn ensure_size(&mut self, w: u16, h: u16) -> (resize: Option<WindowSize>)
        requires
            old(self).inv(),
        ensures
            final(self).inv(),
            final(self).fed() == old(self).fed(),
            final(self).screens() == old(self).screens().with_active(
                resized(old(self).screens().active(), w, h),
            ),
            resize is Some <==> w != old(self).screens().active().width || h != old(
                self,
            ).screens().active().height,
            resize is Some ==> resize->0 == (WindowSize {
                rows: h,
                cols: w,
                xpixels: w,
                ypixels: h,
            }),
    {
        let window = self.terminal_window.active_mut();
        if w != window.get_width() || h != window.get_height() {
            window.set_width(w);
            window.set_height(h);
            Some(WindowSize { rows: h, cols: w, xpixels: w, ypixels: h })
        } else {
            None
        }
    }

    /// Draws the active screen to a window of `w` by `h` cells, after it has been made
    /// that large. Nothing else of the terminal changes.
    pub fn draw(&mut self, w: u16, h: u16) -> (drawing: Drawing)
        requires
            old(self).inv(),
        ensures
            final(self).inv(),
            final(self).fed() == old(self).fed(),
            drawing.resize is Some <==> w != old(self).screens().active().width || h != old(
                self,
            ).screens().active().height,
            drawing.resize is Some ==> drawing.resize->0 == (WindowSize {
                rows: h,
                cols: w,
                xpixels: w,
                ypixels: h,
            }),
            cells_of_rows(drawing.rows@) == resized(
                old(self).screens().active(),
                w,
                h,
            ).drawn_rows(w, h),
            drawing.first_row == resized(old(self).screens().active(), w, h).drawn_from(w, h),
            final(self).screens() == old(self).screens().with_active(
                resized(old(self).screens().active(), w, h),
            ),
    {
        let resize = self.ensure_size(w, h);
        let drawn = self.terminal_window.active_mut().draw(w, h);
        Drawing { resize, first_row: drawn.first_row, rows: drawn.rows }
    }

    /// The room that the terminal asks for.
    pub fn space_demand(&self) -> (demand: Demand2D)
        requires
            self.inv(),
        ensures
            demand == (Demand2D {
                width: Demand { min: 1, max: None },
                height: Demand { min: 1, max: None },
            }),
    {
        self.terminal_window.active().space_demand()
    }

    /// Decides what a key does. Page down and page up scroll a step forwards and
    /// backwards, home and end scroll to the beginning and to the end. The result says
    /// whether the key is to be passed on to the child process: every other key is, and
    /// so is a key that could not scroll.
    pub fn input(&mut self, key: Key) -> (pass_on: bool)
        requires
            old(self).inv(),
        ensures
            final(self).inv(),
            final(self).fed() == old(self).fed(),
            final(self).screens() == ({
                let screens = old(self).screens();
                let active = screens.active();
                match key {
                    Key::PageDown => screens.with_active(active.scroll_forwards()),
                    Key::PageUp => screens.with_active(active.scroll_backwards()),
                    Key::Home => screens.with_active(active.scroll_to_beginning()),
                    Key::End => screens.with_active(active.scroll_to_end()),
                    Key::Other => screens,
                }
            }),
            pass_on == ({
                let active = old(self).screens().active();
                match key {
                    Key::PageDown => !active.can_scroll_forwards(),
                    Key::PageUp => !active.can_scroll_backwards(),
                    Key::Home => !active.can_scroll_backwards(),
                    Key::End => active.scrollback_position is None,
                    Key::Other => true,
                }
            }),
    {
        match key {
            Key::PageDown => self.terminal_window.scroll_forwards().is_err(),
            Key::PageUp => self.terminal_window.scroll_backwards().is_err(),
            Key::Home => self.terminal_window.scroll_to_beginning().is_err(),
            Key::End => self.terminal_window.scroll_to_end().is_err(),
            Key::Other => true,
        }
    }
}

} // verus!
