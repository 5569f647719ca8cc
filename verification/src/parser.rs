//! The escape sequence parser. The byte-level state machine is the `vte`
//! crate's; this module turns what it reports into plain values.

use vstd::prelude::*;
use vstd::slice::slice_to_vec;

verus! {

/// Makes `vte::Parser` known as a type. Nothing is said of what is inside
/// a parser: the library only carries it from one byte to the next.
#[verifier::external_type_specification]
#[verifier::external_body]
pub struct ExParser(vte::Parser);

/// Something the parser recognised in the byte stream.
#[derive(Debug)]
pub enum ParserEvent {
    /// A printable character.
    Print(char),
    /// A C0 or C1 control.
    Execute(u8),
    /// The start of a device control string.
    Hook { params: Vec<i64>, intermediates: Vec<u8>, ignore: bool },
    /// A byte of a device control string.
    Put(u8),
    /// The end of a device control string.
    Unhook,
    /// An operating system command, split at its semicolons.
    OscDispatch(Vec<Vec<u8>>),
    /// A control sequence.
    CsiDispatch { params: Vec<i64>, intermediates: Vec<u8>, ignore: bool, byte: char },
    /// An escape sequence.
    EscDispatch { params: Vec<i64>, intermediates: Vec<u8>, ignore: bool, byte: u8 },
}

/// A `ParserEvent` with its buffers as sequences.
pub enum EventView {
    Print(char),
    Execute(u8),
    Hook { params: Seq<i64>, intermediates: Seq<u8>, ignore: bool },
    Put(u8),
    Unhook,
    OscDispatch(Seq<Seq<u8>>),
    CsiDispatch { params: Seq<i64>, intermediates: Seq<u8>, ignore: bool, byte: char },
    EscDispatch { params: Seq<i64>, intermediates: Seq<u8>, ignore: bool, byte: u8 },
}

/// The fields of an operating system command as sequences.
pub open spec fn fields_view(fields: Seq<Vec<u8>>) -> Seq<Seq<u8>> {
    Seq::new(fields.len(), |i: int| fields[i]@)
}

impl View for ParserEvent {
    type V = EventView;

    open spec fn view(&self) -> EventView {
        match *self {
            ParserEvent::Print(c) => EventView::Print(c),
            ParserEvent::Execute(byte) => EventView::Execute(byte),
            ParserEvent::Hook { params, intermediates, ignore } => EventView::Hook {
                params: params@,
                intermediates: intermediates@,
                ignore,
            },
            ParserEvent::Put(byte) => EventView::Put(byte),
            ParserEvent::Unhook => EventView::Unhook,
            ParserEvent::OscDispatch(fields) => EventView::OscDispatch(fields_view(fields@)),
            ParserEvent::CsiDispatch { params, intermediates, ignore, byte } => EventView::CsiDispatch {
                params: params@,
                intermediates: intermediates@,
                ignore,
                byte,
            },
            ParserEvent::EscDispatch { params, intermediates, ignore, byte } => EventView::EscDispatch {
                params: params@,
                intermediates: intermediates@,
                ignore,
                byte,
            },
        }
    }
}

/// The views of a run of events.
pub open spec fn events_view(events: Seq<ParserEvent>) -> Seq<EventView> {
    Seq::new(events.len(), |i: int| events[i]@)
}

/// Records what the parser reports, in the order it reports it.
struct EventSink {
    events: Vec<ParserEvent>,
}

impl EventSink {
    /// What has been recorded, as views.
    pub closed spec fn recorded(&self) -> Seq<EventView> {
        events_view(self.events@)
    }

    /// Append `event` to the record.
    fn record(&mut self, event: ParserEvent)
        ensures
            final(self).recorded() == old(self).recorded().push(event@),
    {
        self.events.push(event);
        assert(self.recorded() =~= old(self).recorded().push(event@));
    }
}

impl vte::Perform for EventSink {
    fn print(&mut self, c: char)
        ensures
            final(self).recorded() == old(self).recorded().push(EventView::Print(c)),
    {
        self.record(ParserEvent::Print(c));
    }

    fn execute(&mut self, byte: u8)
        ensures
            final(self).recorded() == old(self).recorded().push(EventView::Execute(byte)),
    {
        self.record(ParserEvent::Execute(byte));
    }

    fn hook(&mut self, params: &[i64], intermediates: &[u8], ignore: bool)
        ensures
            final(self).recorded() == old(self).recorded().push(
                EventView::Hook { params: params@, intermediates: intermediates@, ignore },
            ),
    {
        self.record(
            ParserEvent::Hook {
                params: slice_to_vec(params),
                intermediates: slice_to_vec(intermediates),
                ignore,
            },
        );
    }

    fn put(&mut self, byte: u8)
        ensures
            final(self).recorded() == old(self).recorded().push(EventView::Put(byte)),
    {
        self.record(ParserEvent::Put(byte));
    }

    fn unhook(&mut self)
        ensures
            final(self).recorded() == old(self).recorded().push(EventView::Unhook),
    {
        self.record(ParserEvent::Unhook);
    }

    fn osc_dispatch(&mut self, params: &[&[u8]])
        ensures
            final(self).recorded() == old(self).recorded().push(
                EventView::OscDispatch(Seq::new(params@.len(), |i: int| params@[i]@)),
            ),
    {
        let mut fields: Vec<Vec<u8>> = Vec::new();
        let mut i: usize = 0;
        while i < params.len()
            invariant
                i <= params.len(),
                fields@.len() == i,
                forall|j: int| 0 <= j < i ==> fields@[j]@ == params@[j]@,
            decreases params.len() - i,
        {
            fields.push(slice_to_vec(params[i]));
            i += 1;
        }
        assert(fields_view(fields@) =~= Seq::new(params@.len(), |i: int| params@[i]@));
        self.record(ParserEvent::OscDispatch(fields));
    }

    fn csi_dispatch(&mut self, params: &[i64], intermediates: &[u8], ignore: bool, byte: char)
        ensures
            final(self).recorded() == old(self).recorded().push(
                EventView::CsiDispatch { params: params@, intermediates: intermediates@, ignore, byte },
            ),
    {
        self.record(
            ParserEvent::CsiDispatch {
                params: slice_to_vec(params),
                intermediates: slice_to_vec(intermediates),
                ignore,
                byte,
            },
        );
    }

    fn esc_dispatch(&mut self, params: &[i64], intermediates: &[u8], ignore: bool, byte: u8)
        ensures
            final(self).recorded() == old(self).recorded().push(
                EventView::EscDispatch { params: params@, intermediates: intermediates@, ignore, byte },
            ),
    {
        self.record(
            ParserEvent::EscDispatch {
                params: slice_to_vec(params),
                intermediates: slice_to_vec(intermediates),
                ignore,
                byte,
            },
        );
    }
}

/// What a parser holds: the values of its fields, which are the state of
/// the machine, the parameters, intermediates and command bytes collected so
/// far with their counts, and the state of the UTF-8 decoder, in a fixed
/// order.
pub uninterp spec fn parser_contents(parser: vte::Parser) -> Seq<int>;

/// What one call of `vte::Parser::advance` does with `byte` when the parser
/// holds `contents`: what the parser holds afterwards, and the events it
/// reports on the way.
pub uninterp spec fn parser_step(contents: Seq<int>, byte: u8) -> (Seq<int>, Seq<EventView>);

/// `vte::Parser::new` gives a parser. Nothing is said of what it holds.
pub assume_specification[ vte::Parser::new ]() -> (parser: vte::Parser);

/// Calls `vte::Parser::advance` with a sink that records every callback.
/// The parser is a deterministic state machine: what it holds afterwards
/// and the events it reports depend on what it holds and on the byte alone.
/// Which events those are is not stated here.
#[verifier::external_body]
pub(crate) fn parser_advance(parser: &mut vte::Parser, byte: u8) -> (events: Vec<ParserEvent>)
    ensures
        parser_contents(*final(parser)) == parser_step(parser_contents(*old(parser)), byte).0,
        events_view(events@) == parser_step(parser_contents(*old(parser)), byte).1,
{
    let mut sink = EventSink { events: Vec::new() };
    parser.advance(&mut sink, byte);
    sink.events
}

} // verus!
