//! The line source as a state machine.
//!
//! The thread that owns the terminal reads one line at a time. It hands each
//! result to the [`LineSource`], which says what to put on the line queue and
//! whether the next prompt may be shown at once, only after the consumer's
//! pacing signal, or never.

use vstd::prelude::*;
use vstd::string::*;
use crate::connect::{LineEvent, LineEventView};
use crate::text::{is_space, trim, trimmed};

verus! {

/// What one blocking read of the terminal gave.
#[derive(Debug, PartialEq, Eq)]
pub enum ReadResult {
    /// A line as it was typed.
    Line(String),
    /// The operator sent the interrupt signal.
    Interrupted,
    /// The input ended.
    Eof,
    /// Reading failed; the text describes the failure.
    Failed(String),
}

/// What the line source is doing.
#[derive(Clone, Copy, Debug, PartialEq, Eq, Structural)]
pub enum SourceState {
    /// The prompt is shown and the thread blocks on the terminal.
    Prompting,
    /// A line was emitted and the thread blocks on the pacing signal.
    AwaitingSignal,
    /// The thread has ended.
    Terminated,
}

/// The producer of line events.
#[derive(Clone, Debug, PartialEq, Eq)]
pub struct LineSource {
    state: SourceState,
}

/// Mathematical content of a [`ReadResult`].
pub enum ReadResultView {
    Line(Seq<char>),
    Interrupted,
    Eof,
    Failed(Seq<char>),
}

impl View for ReadResult {
    type V = ReadResultView;

    open spec fn view(&self) -> ReadResultView {
        match self {
            ReadResult::Line(raw) => ReadResultView::Line(raw@),
            ReadResult::Interrupted => ReadResultView::Interrupted,
            ReadResult::Eof => ReadResultView::Eof,
            ReadResult::Failed(why) => ReadResultView::Failed(why@),
        }
    }
}

impl Clone for ReadResult {
    fn clone(&self) -> (r: ReadResult)
        ensures
            r@ == self@,
    {
        match self {
            ReadResult::Line(raw) => ReadResult::Line(raw.clone()),
            ReadResult::Interrupted => ReadResult::Interrupted,
            ReadResult::Eof => ReadResult::Eof,
            ReadResult::Failed(why) => ReadResult::Failed(why.clone()),
        }
    }
}

/// The event that a prompting line source puts on the line queue for a
/// read, if it puts one there: a line is trimmed, and a line that is then
/// empty gives no event; the three signals are passed on.
pub open spec fn emitted(read: ReadResultView) -> Option<LineEventView> {
    match read {
        ReadResultView::Line(raw) => if trimmed(raw).len() == 0 {
            None
        } else {
            Some(LineEventView::Line(trimmed(raw)))
        },
        ReadResultView::Interrupted => Some(LineEventView::Interrupted),
        ReadResultView::Eof => Some(LineEventView::Eof),
        ReadResultView::Failed(why) => Some(LineEventView::Failed(why)),
    }
}

/// The state of a prompting line source after a read: it prompts again
/// after a blank line, awaits the pacing signal after any other line, and
/// has ended after a signal.
pub open spec fn after_read(read: ReadResultView) -> SourceState {
    match read {
        ReadResultView::Line(raw) => if trimmed(raw).len() == 0 {
            SourceState::Prompting
        } else {
            SourceState::AwaitingSignal
        },
        _ => SourceState::Terminated,
    }
}

/// The state that follows the end of a wait for the pacing signal:
/// `received` says whether the signal came or the consumer is gone.
pub open spec fn after_signal(state: SourceState, received: bool) -> SourceState {
    if state == SourceState::AwaitingSignal {
        if received {
            SourceState::Prompting
        } else {
            SourceState::Terminated
        }
    } else {
        state
    }
}

impl View for LineSource {
    type V = SourceState;

    closed spec fn view(&self) -> SourceState {
        self.state
    }
}

impl LineSource {
    /// A line source about to show its first prompt.
    pub fn new() -> (s: LineSource)
        ensures
            s@ == SourceState::Prompting,
    {
        LineSource { state: SourceState::Prompting }
    }

    /// What the line source is doing.
    pub fn state(&self) -> (s: SourceState)
        ensures
            s == self@,
    {
        self.state
    }

    /// The prompt string.
    pub fn prompt(&self) -> (p: &'static str)
        ensures
            p@ == "mcp> "@,
    {
        "mcp> "
    }

    /// Takes the result of one read and says which event goes on the line
    /// queue.
    ///
    /// While prompting: a line is trimmed; if nothing is left, no event is
    /// emitted and the prompt is shown again at once, without any signal
    /// from the consumer. Otherwise the trimmed line is emitted (the caller
    /// records it in the input history first) and the next prompt waits for
    /// the pacing signal. An interrupt, the end of input and a failure are
    /// emitted as such and end the thread. In any other state the read is
    /// dropped.
    pub fn line_read(&mut self, read: ReadResult) -> (event: Option<LineEvent>)
        ensures
            old(self)@ == SourceState::Prompting ==> {
                &&& final(self)@ == after_read(read@)
                &&& match event {
                    Some(e) => emitted(read@) == Some(e@),
                    None => emitted(read@) is None,
                }
            },
            old(self)@ != SourceState::Prompting ==> final(self)@ == old(self)@ && event is None,
            event matches Some(LineEvent::Line(line)) ==> {
                &&& line@.len() > 0
                &&& !is_space(line@.first())
                &&& !is_space(line@.last())
            },
    {
        if self.state != SourceState::Prompting {
            return None;
        }
        match read {
            ReadResult::Line(raw) => {
                let line = trim(raw.as_str());
                if line.as_str().unicode_len() == 0 {
                    None
                } else {
                    self.state = SourceState::AwaitingSignal;
                    Some(LineEvent::Line(line))
                }
            },
            ReadResult::Interrupted => {
                self.state = SourceState::Terminated;
                Some(LineEvent::Interrupted)
            },
            ReadResult::Eof => {
                self.state = SourceState::Terminated;
                Some(LineEvent::Eof)
            },
            ReadResult::Failed(why) => {
                self.state = SourceState::Terminated;
                Some(LineEvent::Failed(why))
            },
        }
    }

    /// Takes note that an emitted event could not be put on the line queue
    /// because the consumer is gone: the thread ends.
    pub fn delivery_failed(&mut self)
        ensures
            final(self)@ == SourceState::Terminated,
    {
        self.state = SourceState::Terminated;
    }

    /// Takes note of the end of a wait for the pacing signal. While awaiting
    /// it: with the signal received the next prompt is shown, and with the
    /// consumer gone the thread ends. In any other state nothing changes.
    pub fn signalled(&mut self, received: bool)
        ensures
            final(self)@ == after_signal(old(self)@, received),
    {
        if self.state == SourceState::AwaitingSignal {
            if received {
                self.state = SourceState::Prompting;
            } else {
                self.state = SourceState::Terminated;
            }
        }
    }
}

} // verus!
