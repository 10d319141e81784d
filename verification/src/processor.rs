//! The byte stream processor: a VT parser cuts the stream into control functions and
//! printable characters, and each of them is decoded into the operations that it asks a
//! terminal to perform.

use vstd::prelude::*;
use crate::ansi::Operation;
use crate::dispatch::{
    control_operations, decode_control, decode_escape, decode_sequence, escape_operations,
    sequence_operations,
};
use crate::osc::{bytes_held, command_operations, decode_command};
use crate::screen::{Screen, Screens, lemma_unsupported_concat, unsupported_of};
use crate::terminalwindow::{DualWindow, is_supported};

verus! {

/// What the parser found in the byte stream, as it reports it to a performer.
#[derive(PartialEq, Eq, Debug)]
#[allow(inconsistent_fields)]
pub enum VtEvent {
    /// A character to display.
    Print(char),
    /// A C0 or C1 control function.
    Execute(u8),
    /// The start of a device control string.
    Hook { params: Vec<i64>, intermediates: Vec<u8>, ignore: bool, action: char },
    /// A byte of a device control string.
    Put(u8),
    /// The end of a device control string.
    Unhook,
    /// An operating system command, cut at its semicolons.
    OscDispatch { params: Vec<Vec<u8>>, bell_terminated: bool },
    /// A control sequence.
    CsiDispatch { params: Vec<i64>, intermediates: Vec<u8>, ignore: bool, action: char },
    /// An escape sequence.
    EscDispatch { intermediates: Vec<u8>, ignore: bool, byte: u8 },
}

/// What the parser reports, as a mathematical value: a `VtEvent` with sequences in place
/// of vectors.
#[allow(inconsistent_fields)]
pub enum Report {
    Print(char),
    Execute(u8),
    Hook { params: Seq<i64>, intermediates: Seq<u8>, ignore: bool, action: char },
    Put(u8),
    Unhook,
    OscDispatch { params: Seq<Seq<u8>>, bell_terminated: bool },
    CsiDispatch { params: Seq<i64>, intermediates: Seq<u8>, ignore: bool, action: char },
    EscDispatch { intermediates: Seq<u8>, ignore: bool, byte: u8 },
}

impl View for VtEvent {
    type V = Report;

    open spec fn view(&self) -> Report {
        match *self {
            VtEvent::Print(c) => Report::Print(c),
            VtEvent::Execute(byte) => Report::Execute(byte),
            VtEvent::Hook { params, intermediates, ignore, action } => Report::Hook {
                params: params@,
                intermediates: intermediates@,
                ignore,
                action,
            },
            VtEvent::Put(byte) => Report::Put(byte),
            VtEvent::Unhook => Report::Unhook,
            VtEvent::OscDispatch { params, bell_terminated } => Report::OscDispatch {
                params: bytes_held(params@),
                bell_terminated,
            },
            VtEvent::CsiDispatch { params, intermediates, ignore, action } => Report::CsiDispatch {
                params: params@,
                intermediates: intermediates@,
                ignore,
                action,
            },
            VtEvent::EscDispatch { intermediates, ignore, byte } => Report::EscDispatch {
                intermediates: intermediates@,
                ignore,
                byte,
            },
        }
    }
}

/// The reports that `events` hold, in order.
pub open spec fn reports_of(events: Seq<VtEvent>) -> Seq<Report> {
    Seq::new(events.len(), |i: int| events[i]@)
}

/// A copy of `source`.
fn copied<T: Copy>(source: &[T]) -> (copy: Vec<T>)
    ensures
        copy@ == source@,
{
    let mut copy: Vec<T> = Vec::new();
    let mut i: usize = 0;
    while i < source.len()
        invariant
            i <= source@.len(),
            copy@ == source@.take(i as int),
        decreases source@.len() - i,
    {
        copy.push(source[i]);
        i = i + 1;
        assert(source@.take(i as int) == source@.take(i - 1).push(source@[i - 1]));
    }
    assert(source@.take(i as int) == source@);
    copy
}

/// The bytes of each of `parts`.
pub open spec fn bytes_of(parts: Seq<&[u8]>) -> Seq<Seq<u8>> {
    Seq::new(parts.len(), |i: int| parts[i]@)
}

/// A performer that writes down, in order, what the parser reports to it.
pub struct Recorder {
    events: Vec<VtEvent>,
}

impl Recorder {
    /// What has been written down so far, oldest first.
    pub closed spec fn recorded(&self) -> Seq<Report> {
        reports_of(self.events@)
    }
}

impl vte::Perform for Recorder {
    fn print(&mut self, c: char)
        ensures
            final(self).recorded() == old(self).recorded().push(Report::Print(c)),
    {
        self.events.push(VtEvent::Print(c));
        assert(self.recorded() =~= old(self).recorded().push(Report::Print(c)));
    }

    fn execute(&mut self, byte: u8)
        ensures
            final(self).recorded() == old(self).recorded().push(Report::Execute(byte)),
    {
        self.events.push(VtEvent::Execute(byte));
        assert(self.recorded() =~= old(self).recorded().push(Report::Execute(byte)));
    }

    fn hook(&mut self, params: &[i64], intermediates: &[u8], ignore: bool, action: char)
        ensures
            final(self).recorded() == old(self).recorded().push(
                Report::Hook {
                    params: params@,
                    intermediates: intermediates@,
                    ignore,
                    action,
                },
            ),
    {
        self.events.push(
            VtEvent::Hook {
                params: copied(params),
                intermediates: copied(intermediates),
                ignore,
                action,
            },
        );
        assert(self.recorded() =~= old(self).recorded().push(
            Report::Hook { params: params@, intermediates: intermediates@, ignore, action },
        ));
    }

    fn put(&mut self, byte: u8)
        ensures
            final(self).recorded() == old(self).recorded().push(Report::Put(byte)),
    {
        self.events.push(VtEvent::Put(byte));
        assert(self.recorded() =~= old(self).recorded().push(Report::Put(byte)));
    }

    fn unhook(&mut self)
        ensures
            final(self).recorded() == old(self).recorded().push(Report::Unhook),
    {
        self.events.push(VtEvent::Unhook);
        assert(self.recorded() =~= old(self).recorded().push(Report::Unhook));
    }

    fn osc_dispatch(&mut self, params: &[&[u8]], bell_terminated: bool)
        ensures
            final(self).recorded() == old(self).recorded().push(
                Report::OscDispatch { params: bytes_of(params@), bell_terminated },
            ),
    {
        let mut parts: Vec<Vec<u8>> = Vec::new();
        let mut i: usize = 0;
        while i < params.len()
            invariant
                i <= params@.len(),
                parts@.len() == i,
                forall|j: int| 0 <= j < i ==> (#[trigger] parts@[j])@ == params@[j]@,
            decreases params@.len() - i,
        {
            parts.push(copied(params[i]));
            i = i + 1;
        }
        assert(bytes_held(parts@) =~= bytes_of(params@));
        self.events.push(VtEvent::OscDispatch { params: parts, bell_terminated });
        assert(self.recorded() =~= old(self).recorded().push(
            Report::OscDispatch { params: bytes_of(params@), bell_terminated },
        ));
    }

    fn csi_dispatch(&mut self, params: &[i64], intermediates: &[u8], ignore: bool, action: char)
        ensures
            final(self).recorded() == old(self).recorded().push(
                Report::CsiDispatch {
                    params: params@,
                    intermediates: intermediates@,
                    ignore,
                    action,
                },
            ),
    {
        self.events.push(
            VtEvent::CsiDispatch {
                params: copied(params),
                intermediates: copied(intermediates),
                ignore,
                action,
            },
        );
        assert(self.recorded() =~= old(self).recorded().push(
            Report::CsiDispatch { params: params@, intermediates: intermediates@, ignore, action },
        ));
    }

    fn esc_dispatch(&mut self, intermediates: &[u8], ignore: bool, byte: u8)
        ensures
            final(self).recorded() == old(self).recorded().push(
                Report::EscDispatch { intermediates: intermediates@, ignore, byte },
            ),
    {
        self.events.push(VtEvent::EscDispatch { intermediates: copied(intermediates), ignore, byte });
        assert(self.recorded() =~= old(self).recorded().push(
            Report::EscDispatch { intermediates: intermediates@, ignore, byte },
        ));
    }
}

/// `vte::Parser`, the state of the VT parser. Nothing of what is inside is known here.
#[verifier::external_type_specification]
#[verifier::external_body]
pub struct ExParser(vte::Parser);

/// The bytes that a `vte::Parser` has been advanced by since it was made, oldest first.
/// A parser holds no more of them than its state, which they determine.
pub uninterp spec fn fed_bytes(parser: vte::Parser) -> Seq<u8>;

/// What `vte::Parser::advance` reports to its performer, in order, when the parser is
/// advanced by `byte` after it has been advanced by the bytes `fed`.
pub uninterp spec fn vte_reports(fed: Seq<u8>, byte: u8) -> Seq<Report>;

/// `vte::Parser::new`. Believed without proof: a new parser has not been advanced by any
/// byte.
pub assume_specification[ vte::Parser::new ]() -> (parser: vte::Parser)
    ensures
        fed_bytes(parser) == Seq::<u8>::empty(),
;

/// `vte::Parser::advance`, called with a `Recorder` as the performer.
///
/// Believed without proof: the parser is a state machine with no input but the bytes
/// that it is advanced by, so what it reports for a byte is determined by that byte and
/// the bytes before it; each report is a call of one method of the performer, and the
/// recorder writes each down as it is; afterwards the parser has been advanced by one
/// byte more. Nothing is claimed of what the parser reports for which bytes.
#[verifier::external_body]
fn advance_parser(parser: &mut vte::Parser, byte: u8) -> (events: Vec<VtEvent>)
    ensures
        reports_of(events@) == vte_reports(fed_bytes(*old(parser)), byte),
        fed_bytes(*final(parser)) == fed_bytes(*old(parser)).push(byte),
{
    let mut recorder = Recorder { events: Vec::new() };
    parser.advance(&mut recorder, byte);
    recorder.events
}

/// The operations that one report of the parser stands for. A printable character is
/// displayed, and control strings for devices are passed over.
pub open spec fn decoded(report: Report) -> Seq<Operation> {
    match report {
        Report::Print(c) => seq![Operation::Input(c)],
        Report::Execute(byte) => control_operations(byte),
        Report::Hook { .. } => Seq::empty(),
        Report::Put(_) => Seq::empty(),
        Report::Unhook => Seq::empty(),
        Report::OscDispatch { params, .. } => command_operations(params),
        Report::CsiDispatch { params, intermediates, action, .. } => sequence_operations(
            params,
            intermediates,
            action,
        ),
        Report::EscDispatch { intermediates, byte, .. } => escape_operations(intermediates, byte),
    }
}

/// The operations that a sequence of reports stands for, in order.
pub open spec fn decoded_all(events: Seq<Report>) -> Seq<Operation>
    decreases events.len(),
{
    if events.len() == 0 {
        Seq::empty()
    } else {
        decoded_all(events.drop_last()) + decoded(events.last())
    }
}

/// The operations that the bytes `bytes` stand for when they follow the bytes `fed`.
pub open spec fn operations_for(fed: Seq<u8>, bytes: Seq<u8>) -> Seq<Operation>
    decreases bytes.len(),
{
    if bytes.len() == 0 {
        Seq::empty()
    } else {
        operations_for(fed, bytes.drop_last()) + decoded_all(
            vte_reports(fed + bytes.drop_last(), bytes.last()),
        )
    }
}

/// Performing two sequences of operations in turn is performing them as one.
pub proof fn lemma_perform_all_concat(
    screens: Screens,
    first: Seq<Operation>,
    second: Seq<Operation>,
)
    ensures
        screens.perform_all(first + second) == screens.perform_all(first).perform_all(second),
    decreases second.len(),
{
    if second.len() == 0 {
        assert(first + second == first);
    } else {
        lemma_perform_all_concat(screens, first, second.drop_last());
        assert((first + second).drop_last() == first + second.drop_last());
        assert((first + second).last() == second.last());
    }
}

/// The reports of a carriage return and of a line feed stand for a carriage return, a
/// line feed and a carriage return.
proof fn lemma_decoded_carriage_return_line_feed()
    ensures
        decoded_all(seq![Report::Execute(0x0d), Report::Execute(0x0a)]) == seq![
            Operation::CarriageReturn,
            Operation::Linefeed,
            Operation::CarriageReturn,
        ],
{
    let events = seq![Report::Execute(0x0d), Report::Execute(0x0a)];
    assert(events.drop_last() == seq![Report::Execute(0x0d)]);
    assert(events.drop_last().drop_last() == Seq::<Report>::empty());
    assert(decoded_all(events.drop_last().drop_last()) == Seq::<Operation>::empty());
    assert(decoded_all(events.drop_last()) =~= seq![Operation::CarriageReturn]);
    assert(decoded_all(events) =~= seq![
        Operation::CarriageReturn,
        Operation::Linefeed,
        Operation::CarriageReturn,
    ]);
}

/// Performing a sequence of three operations is performing each in turn.
proof fn lemma_perform_three(
    screens: Screens,
    first: Operation,
    second: Operation,
    third: Operation,
)
    ensures
        screens.perform_all(seq![first, second, third]) == screens.perform(first).perform(
            second,
        ).perform(third),
{
    let three = seq![first, second, third];
    let two = three.drop_last();
    let one = two.drop_last();
    assert(two == seq![first, second]);
    assert(one == seq![first]);
    assert(one.drop_last() == Seq::<Operation>::empty());
    assert(screens.perform_all(one.drop_last()) == screens);
    assert(screens.perform_all(one) == screens.perform(first));
    assert(screens.perform_all(two) == screens.perform(first).perform(second));
}

/// A carriage return moves the cursor of the active screen to the first column.
proof fn lemma_perform_carriage_return(screens: Screens)
    ensures
        screens.perform(Operation::CarriageReturn) == screens.with_active(
            screens.active().carriage_return(),
        ),
{
    reveal(Screen::perform);
    reveal(Screens::perform);
}

/// A line feed moves the cursor of the active screen one row down.
proof fn lemma_perform_linefeed(screens: Screens)
    ensures
        screens.perform(Operation::Linefeed) == screens.with_active(screens.active().linefeed()),
{
    reveal(Screen::perform);
    reveal(Screens::perform);
}

/// The reports of a carriage return and of a line feed, one after the other, make a
/// terminal do what a carriage return followed by a line feed does: the cursor stands at
/// the start of the next row, which exists.
pub proof fn lemma_carriage_return_line_feed(screens: Screens)
    ensures
        screens.perform_all(decoded_all(seq![Report::Execute(0x0d), Report::Execute(0x0a)]))
            == screens.perform(Operation::CarriageReturn).perform(Operation::Linefeed),
        screens.perform(Operation::CarriageReturn).perform(Operation::Linefeed)
            == screens.with_active(screens.active().carriage_return().linefeed()),
{
    lemma_decoded_carriage_return_line_feed();
    lemma_perform_three(
        screens,
        Operation::CarriageReturn,
        Operation::Linefeed,
        Operation::CarriageReturn,
    );
    lemma_perform_carriage_return(screens);
    let returned = screens.perform(Operation::CarriageReturn);
    lemma_perform_linefeed(returned);
    let moved = returned.perform(Operation::Linefeed);
    lemma_perform_carriage_return(moved);
    assert(moved == screens.with_active(screens.active().carriage_return().linefeed()));
    assert(moved.active().cursor.col == 0);
    assert(moved.active().carriage_return() == moved.active());
}

/// The operations that one report of the parser stands for.
pub fn decode(event: &VtEvent) -> (operations: Vec<Operation>)
    ensures
        operations@ == decoded(event@),
{
    match event {
        VtEvent::Print(c) => {
            let mut operations: Vec<Operation> = Vec::new();
            operations.push(Operation::Input(*c));
            assert(operations@ =~= seq![Operation::Input(*c)]);
            operations
        },
        VtEvent::Execute(byte) => decode_control(*byte),
        VtEvent::Hook { .. } => Vec::new(),
        VtEvent::Put(_) => Vec::new(),
        VtEvent::Unhook => Vec::new(),
        VtEvent::OscDispatch { params, .. } => decode_command(params),
        VtEvent::CsiDispatch { params, intermediates, action, .. } => decode_sequence(
            params,
            intermediates,
            *action,
        ),
        VtEvent::EscDispatch { intermediates, byte, .. } => decode_escape(intermediates, *byte),
    }
}

/// Performs, in order, the operations that `events` stand for. The result holds, in
/// order, those of them that the terminal does not support, and that have therefore
/// changed nothing.
pub fn apply_events(handler: &mut DualWindow, events: &Vec<VtEvent>) -> (unsupported: Vec<
    Operation,
>)
    requires
        old(handler).inv(),
    ensures
        final(handler).inv(),
        final(handler)@ == old(handler)@.perform_all(decoded_all(reports_of(events@))),
        unsupported@ == unsupported_of(decoded_all(reports_of(events@))),
{
    let ghost reports = reports_of(events@);
    let mut unsupported: Vec<Operation> = Vec::new();
    let mut i: usize = 0;
    while i < events.len()
        invariant
            i <= events@.len(),
            reports == reports_of(events@),
            handler.inv(),
            handler@ == old(handler)@.perform_all(decoded_all(reports.take(i as int))),
            unsupported@ == unsupported_of(decoded_all(reports.take(i as int))),
        decreases events@.len() - i,
    {
        let operations = decode(&events[i]);
        let ghost before = handler@;
        let ghost reported = unsupported@;
        let mut j: usize = 0;
        while j < operations.len()
            invariant
                j <= operations@.len(),
                handler.inv(),
                handler@ == before.perform_all(operations@.take(j as int)),
                unsupported@ == reported + unsupported_of(operations@.take(j as int)),
            decreases operations@.len() - j,
        {
            let operation = operations[j];
            proof {
                let done = operations@.take(j + 1);
                assert(done.drop_last() == operations@.take(j as int));
                assert(done.last() == operation);
            }
            if !is_supported(operation) {
                unsupported.push(operation);
            }
            handler.perform(operation);
            j = j + 1;
        }
        proof {
            assert(operations@.take(j as int) == operations@);
            let done = reports.take(i + 1);
            assert(done.drop_last() == reports.take(i as int));
            assert(done.last() == events@[i as int]@);
            lemma_perform_all_concat(
                old(handler)@,
                decoded_all(reports.take(i as int)),
                decoded(reports[i as int]),
            );
            lemma_unsupported_concat(
                decoded_all(reports.take(i as int)),
                decoded(reports[i as int]),
            );
        }
        i = i + 1;
    }
    assert(reports.take(i as int) == reports);
    unsupported
}

/// The state of the byte stream processor between two bytes.
pub struct Processor {
    parser: vte::Parser,
}

impl Processor {
    /// The bytes that the processor has been advanced by, oldest first.
    pub closed spec fn fed(&self) -> Seq<u8> {
        fed_bytes(self.parser)
    }

    pub fn new() -> (processor: Processor)
        ensures
            processor.fed() == Seq::<u8>::empty(),
    {
        Processor { parser: vte::Parser::new() }
    }

    /// Processes one byte of the stream: `handler` performs the operations that the byte
    /// completes, if it completes any. The result holds, in order, those of them that the
    /// terminal does not support.
    pub fn advance(&mut self, handler: &mut DualWindow, byte: u8) -> (unsupported: Vec<Operation>)
        requires
            old(handler).inv(),
        ensures
            final(handler).inv(),
            final(self).fed() == old(self).fed().push(byte),
            final(handler)@ == old(handler)@.perform_all(
                decoded_all(vte_reports(old(self).fed(), byte)),
            ),
            unsupported@ == unsupported_of(decoded_all(vte_reports(old(self).fed(), byte))),
    {
        let events = advance_parser(&mut self.parser, byte);
        apply_events(handler, &events)
    }
}

} // verus!
