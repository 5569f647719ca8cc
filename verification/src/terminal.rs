//! The terminal: its state together with the parser that feeds it.

use vstd::prelude::*;
use crate::model::TerminalView;
use crate::parser::{events_view, parser_advance, parser_contents, parser_step};
use crate::screen::ScreenView;
use crate::terminalstate::{answers_view, AnswerBack, TerminalState};

verus! {

/// The state that feeding `byte` to a parser that holds `parser` leads to
/// from `state`, and what the parser holds after it.
pub open spec fn feed_byte(state: TerminalView, parser: Seq<int>, byte: u8) -> (
    TerminalView,
    Seq<int>,
) {
    (state.perform_all(parser_step(parser, byte).1), parser_step(parser, byte).0)
}

/// The state that feeding `bytes`, in order, leads to, and what the
/// parser holds after them.
pub open spec fn feed(state: TerminalView, parser: Seq<int>, bytes: Seq<u8>) -> (
    TerminalView,
    Seq<int>,
)
    decreases bytes.len(),
{
    if bytes.len() == 0 {
        (state, parser)
    } else {
        let before = feed(state, parser, bytes.drop_last());
        feed_byte(before.0, before.1, bytes.last())
    }
}

/// A terminal: the model of what is displayed, and the parser that
/// interprets the bytes written to it.
pub struct Terminal {
    /// The terminal model/state
    state: TerminalState,
    /// Baseline terminal escape sequence parser
    parser: vte::Parser,
}

impl Terminal {
    /// The terminal's state.
    pub closed spec fn model(&self) -> TerminalView {
        self.state@
    }

    /// What the terminal's parser holds.
    pub closed spec fn parser_state(&self) -> Seq<int> {
        parser_contents(self.parser)
    }

    /// A terminal of `physical_rows` by `physical_cols` cells that keeps
    /// up to `scrollback_size` lines of scrollback.
    pub fn new(physical_rows: usize, physical_cols: usize, scrollback_size: usize) -> (terminal:
        Terminal)
        requires
            ScreenView::valid_size(physical_rows as nat, physical_cols as nat, scrollback_size as nat),
        ensures
            terminal.model() == TerminalView::fresh(
                physical_rows as nat,
                physical_cols as nat,
                scrollback_size as nat,
            ),
            terminal.model().wf(),
    {
        Terminal {
            state: TerminalState::new(physical_rows, physical_cols, scrollback_size),
            parser: vte::Parser::new(),
        }
    }

    /// The terminal's state, for reading.
    pub fn state(&self) -> (state: &TerminalState)
        ensures
            state@ == self.model(),
    {
        &self.state
    }

    /// The terminal's state, for writing.
    pub fn state_mut(&mut self) -> (state: &mut TerminalState)
        ensures
            state@ == old(self).model(),
            final(self).model() == final(state)@,
            final(self).parser_state() == old(self).parser_state(),
    {
        &mut self.state
    }

    /// Feed one byte to the parser and apply what it reports.
    pub fn advance_byte(&mut self, byte: u8)
        requires
            old(self).model().wf(),
        ensures
            final(self).model() == feed_byte(old(self).model(), old(self).parser_state(), byte).0,
            final(self).parser_state() == feed_byte(
                old(self).model(),
                old(self).parser_state(),
                byte,
            ).1,
            final(self).model().wf(),
    {
        let events = parser_advance(&mut self.parser, byte);
        let mut i: usize = 0;
        while i < events.len()
            invariant
                i <= events@.len(),
                parser_contents(self.parser) == parser_step(
                    parser_contents(old(self).parser),
                    byte,
                ).0,
                events_view(events@) == parser_step(parser_contents(old(self).parser), byte).1,
                self.state@.wf(),
                self.state@ == old(self).state@.perform_all(events_view(events@).subrange(0, i as int)),
            decreases events@.len() - i,
        {
            self.state.perform(&events[i]);
            proof {
                let upto = events_view(events@).subrange(0, i + 1);
                assert(upto.drop_last() =~= events_view(events@).subrange(0, i as int));
                assert(upto.last() == events@[i as int]@);
            }
            i += 1;
        }
        assert(events_view(events@).subrange(0, i as int) =~= events_view(events@));
    }

    /// Feed the terminal parser a slice of bytes of input. The return
    /// value is a (likely empty most of the time) sequence of responses
    /// that may need to be rendered in the UI or sent back to the client
    /// on the slave side of the pty: those queued before the call and
    /// those that the bytes gave rise to.
    pub fn advance_bytes(&mut self, bytes: &[u8]) -> (answers: Vec<AnswerBack>)
        requires
            old(self).model().wf(),
        ensures
            final(self).model() == feed(
                old(self).model(),
                old(self).parser_state(),
                bytes@,
            ).0.drained(),
            final(self).parser_state() == feed(old(self).model(), old(self).parser_state(), bytes@).1,
            answers_view(answers@) == feed(
                old(self).model(),
                old(self).parser_state(),
                bytes@,
            ).0.answerback,
            final(self).model().wf(),
    {
        let mut i: usize = 0;
        while i < bytes.len()
            invariant
                i <= bytes@.len(),
                self.model().wf(),
                (self.model(), self.parser_state()) == feed(
                    old(self).model(),
                    old(self).parser_state(),
                    bytes@.subrange(0, i as int),
                ),
            decreases bytes@.len() - i,
        {
            self.advance_byte(bytes[i]);
            proof {
                let upto = bytes@.subrange(0, i + 1);
                assert(upto.drop_last() =~= bytes@.subrange(0, i as int));
            }
            i += 1;
        }
        assert(bytes@.subrange(0, i as int) =~= bytes@);
        self.state.take_answerback()
    }
}

} // verus!
