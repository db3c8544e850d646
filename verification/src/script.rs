//! Scripted sessions: the loop run over prepared queues.
//!
//! A script holds what the two queues will deliver, how each command line
//! will end, and which queue the scheduler prefers at each iteration.
//! [`replay`] serves it with a [`Session`] exactly as the loop would, and
//! records what each iteration did.

use vstd::prelude::*;
use crate::connect::{
    accepts_events, after, line_reaction, notification_reaction, outcome_output, CommandOutcome,
    CommandOutcomeView, Directive, DirectiveView, LineEvent, LineEventView, Phase, Reaction,
    Rendering, RenderingView, Session, SessionView,
};
use crate::input::{
    after_read, after_signal, emitted, LineSource, ReadResult, ReadResultView, SourceState,
};
use crate::protocol::Notification;

verus! {

/// One entry of the line queue of a script, with the way its command ends
/// in case the entry is a command line.
#[derive(Debug, PartialEq, Eq)]
pub struct ScriptedLine {
    /// What the line source delivers.
    pub event: LineEvent,
    /// How the command ends, if the event leads to one.
    pub outcome: CommandOutcome,
}

impl View for ScriptedLine {
    type V = ScriptedLineView;

    open spec fn view(&self) -> ScriptedLineView {
        ScriptedLineView { event: self.event@, outcome: self.outcome@ }
    }
}

impl Clone for ScriptedLine {
    fn clone(&self) -> (r: ScriptedLine)
        ensures
            r@ == self@,
    {
        ScriptedLine { event: self.event.clone(), outcome: self.outcome.clone() }
    }
}

/// What one iteration of the loop did.
#[derive(Debug, PartialEq, Eq)]
pub struct Turn {
    /// Whether the event came from the line queue; else it came from the
    /// notification queue.
    pub from_lines: bool,
    /// Position of the event in its queue.
    pub index: usize,
    /// Everything that was rendered for the event, in order.
    pub output: Vec<Rendering>,
    /// The words that were handed out for execution, if any were.
    pub executed: Option<Vec<String>>,
    /// How many pacing signals were sent to the line source.
    pub signals: usize,
}

impl View for Turn {
    type V = TurnView;

    open spec fn view(&self) -> TurnView {
        TurnView {
            from_lines: self.from_lines,
            index: self.index as int,
            output: self.output@.map_values(|r: Rendering| r@),
            executed: match self.executed {
                Some(words) => Some(words@.map_values(|w: String| w@)),
                None => None,
            },
            signals: self.signals as nat,
        }
    }
}

/// What a replay leaves behind.
#[derive(Debug, PartialEq, Eq)]
pub struct Run {
    /// The session as the last iteration left it.
    pub session: Session,
    /// How many notifications were served.
    pub notes_taken: usize,
    /// How many line events were served.
    pub lines_taken: usize,
    /// What each iteration that served an event did, in order.
    pub turns: Vec<Turn>,
}

impl View for Run {
    type V = RunView;

    open spec fn view(&self) -> RunView {
        RunView {
            session: self.session@,
            notes_taken: self.notes_taken as int,
            lines_taken: self.lines_taken as int,
            turns: self.turns@.map_values(|t: Turn| t@),
        }
    }
}

/// Mathematical content of a [`ScriptedLine`].
pub struct ScriptedLineView {
    pub event: LineEventView,
    pub outcome: CommandOutcomeView,
}

/// Mathematical content of a [`Turn`].
pub struct TurnView {
    pub from_lines: bool,
    pub index: int,
    pub output: Seq<RenderingView>,
    pub executed: Option<Seq<Seq<char>>>,
    pub signals: nat,
}

/// Mathematical content of a [`Run`]: the session, how much of each queue
/// is consumed, and the turns so far.
pub struct RunView {
    pub session: SessionView,
    pub notes_taken: int,
    pub lines_taken: int,
    pub turns: Seq<TurnView>,
}

/// The turn that serves the notification at `index`.
pub open spec fn notification_turn(index: int, n: Notification) -> TurnView {
    TurnView {
        from_lines: false,
        index,
        output: notification_reaction(n).output,
        executed: None,
        signals: 0,
    }
}

/// The turn that serves the line event at `index`: the session's reaction
/// and, for a command line, the execution of the command and the reaction
/// to its outcome.
pub open spec fn line_turn(index: int, line: ScriptedLineView) -> TurnView {
    let reaction = line_reaction(line.event);
    match reaction.directive {
        DirectiveView::Execute(words) => TurnView {
            from_lines: true,
            index,
            output: reaction.output + outcome_output(line.outcome),
            executed: Some(words),
            signals: 1,
        },
        DirectiveView::Rearm => TurnView {
            from_lines: true,
            index,
            output: reaction.output,
            executed: None,
            signals: 1,
        },
        _ => TurnView { from_lines: true, index, output: reaction.output, executed: None, signals: 0 },
    }
}

/// The session after the turn that serves `line`.
pub open spec fn after_line_turn(s: SessionView, line: ScriptedLineView) -> SessionView {
    let reacted = after(s, line_reaction(line.event).directive);
    if reacted.pending {
        SessionView { phase: reacted.phase, pending: false }
    } else {
        reacted
    }
}

/// A run that has just started.
pub open spec fn started() -> RunView {
    RunView {
        session: SessionView { phase: Phase::Running, pending: false },
        notes_taken: 0,
        lines_taken: 0,
        turns: Seq::empty(),
    }
}

/// One iteration of the loop. `prefer_lines` is the scheduler's choice for
/// the case that both queues hold an event; a queue that holds none is
/// never served. Once the session is over nothing is served.
pub open spec fn iterate(
    run: RunView,
    notes: Seq<Notification>,
    lines: Seq<ScriptedLineView>,
    prefer_lines: bool,
) -> RunView {
    let note_ready = 0 <= run.notes_taken < notes.len();
    let line_ready = 0 <= run.lines_taken < lines.len();
    if !accepts_events(run.session) {
        run
    } else if line_ready && (prefer_lines || !note_ready) {
        RunView {
            session: after_line_turn(run.session, lines[run.lines_taken]),
            notes_taken: run.notes_taken,
            lines_taken: run.lines_taken + 1,
            turns: run.turns.push(line_turn(run.lines_taken, lines[run.lines_taken])),
        }
    } else if note_ready {
        RunView {
            session: run.session,
            notes_taken: run.notes_taken + 1,
            lines_taken: run.lines_taken,
            turns: run.turns.push(notification_turn(run.notes_taken, notes[run.notes_taken])),
        }
    } else {
        run
    }
}

/// The run of a started session over the two queues under `schedule`,
/// which holds the scheduler's choice for each iteration.
pub open spec fn run(
    notes: Seq<Notification>,
    lines: Seq<ScriptedLineView>,
    schedule: Seq<bool>,
) -> RunView
    decreases schedule.len(),
{
    if schedule.len() == 0 {
        started()
    } else {
        iterate(run(notes, lines, schedule.drop_last()), notes, lines, schedule.last())
    }
}

/// The content of each entry of a line queue.
pub open spec fn scripted(lines: Seq<ScriptedLine>) -> Seq<ScriptedLineView> {
    lines.map_values(|l: ScriptedLine| l@)
}

/// Serves one line event and, if it is a command line, its command.
fn serve_line(session: &mut Session, index: usize, line: &ScriptedLine) -> (turn: Turn)
    requires
        accepts_events(old(session)@),
    ensures
        turn@ == line_turn(index as int, line@),
        final(session)@ == after_line_turn(old(session)@, line@),
{
    let Reaction { output, directive } = session.handle_line(line.event.clone());
    let mut output = output;
    match directive {
        Directive::Execute(words) => {
            let ghost first = output@.map_values(|r: Rendering| r@);
            let Reaction { output: more, directive: _ } = session.command_finished(
                line.outcome.clone(),
            );
            let mut more = more;
            let ghost second = more@.map_values(|r: Rendering| r@);
            output.append(&mut more);
            assert(output@.map_values(|r: Rendering| r@) =~= first + second);
            Turn { from_lines: true, index, output, executed: Some(words), signals: 1 }
        },
        Directive::Rearm => Turn { from_lines: true, index, output, executed: None, signals: 1 },
        _ => Turn { from_lines: true, index, output, executed: None, signals: 0 },
    }
}

/// Runs a session over a script.
///
/// The session starts out running; then, once for each entry of
/// `schedule`, the loop serves one event: from the line queue if it holds
/// one and the entry prefers lines or the notification queue holds none,
/// else from the notification queue if it holds one. A command line is
/// executed with the outcome that the script gives it. Once the session
/// is over, nothing more is served.
pub fn replay(notes: &Vec<Notification>, lines: &Vec<ScriptedLine>, schedule: &Vec<bool>) -> (r:
    Run)
    ensures
        r@ == run(notes@, scripted(lines@), schedule@),
{
    let mut r = Run {
        session: Session::running(),
        notes_taken: 0,
        lines_taken: 0,
        turns: Vec::new(),
    };
    assert(r@.turns =~= Seq::empty());
    let mut k: usize = 0;
    while k < schedule.len()
        invariant
            0 <= k <= schedule@.len(),
            r@ == run(notes@, scripted(lines@), schedule@.take(k as int)),
            r.notes_taken <= notes@.len(),
            r.lines_taken <= lines@.len(),
        decreases schedule.len() - k,
    {
        let ghost before = r@;
        proof {
            assert(schedule@.take(k + 1).drop_last() == schedule@.take(k as int));
        }
        let line_ready = r.lines_taken < lines.len();
        let note_ready = r.notes_taken < notes.len();
        if r.session.is_accepting() {
            if line_ready && (schedule[k] || !note_ready) {
                let turn = serve_line(&mut r.session, r.lines_taken, &lines[r.lines_taken]);
                r.lines_taken = r.lines_taken + 1;
                r.turns.push(turn);
                assert(r@.turns =~= before.turns.push(turn@));
            } else if note_ready {
                let Reaction { output, directive: _ } = r.session.handle_notification(
                    &notes[r.notes_taken],
                );
                let turn = Turn {
                    from_lines: false,
                    index: r.notes_taken,
                    output,
                    executed: None,
                    signals: 0,
                };
                r.notes_taken = r.notes_taken + 1;
                r.turns.push(turn);
                assert(r@.turns =~= before.turns.push(turn@));
            }
        }
        k = k + 1;
    }
    proof {
        assert(schedule@.take(k as int) == schedule@);
    }
    r
}

/// One read of the terminal in a script, with the way its command ends
/// in case the read leads to one.
#[derive(Debug, PartialEq, Eq)]
pub struct ScriptedRead {
    /// What the read gives.
    pub read: ReadResult,
    /// How the command ends, if the read leads to one.
    pub outcome: CommandOutcome,
}

/// Mathematical content of a [`ScriptedRead`].
pub struct ScriptedReadView {
    pub read: ReadResultView,
    pub outcome: CommandOutcomeView,
}

impl View for ScriptedRead {
    type V = ScriptedReadView;

    open spec fn view(&self) -> ScriptedReadView {
        ScriptedReadView { read: self.read@, outcome: self.outcome@ }
    }
}

/// The line source and the session at work together.
#[derive(Debug, PartialEq, Eq)]
pub struct Dialogue {
    /// The line source.
    pub source: LineSource,
    /// The session.
    pub session: Session,
    /// How many prompts have been shown after the first.
    pub reprompts: usize,
    /// How many blank lines have been read.
    pub blanks: usize,
    /// How many pacing signals the line source has received.
    pub signals: usize,
}

/// Mathematical content of a [`Dialogue`].
pub struct DialogueView {
    pub source: SourceState,
    pub session: SessionView,
    pub reprompts: nat,
    pub blanks: nat,
    pub signals: nat,
}

impl View for Dialogue {
    type V = DialogueView;

    open spec fn view(&self) -> DialogueView {
        DialogueView {
            source: self.source@,
            session: self.session@,
            reprompts: self.reprompts as nat,
            blanks: self.blanks as nat,
            signals: self.signals as nat,
        }
    }
}

/// A dialogue at its first prompt.
pub open spec fn opened() -> DialogueView {
    DialogueView {
        source: SourceState::Prompting,
        session: SessionView { phase: Phase::Running, pending: false },
        reprompts: 0,
        blanks: 0,
        signals: 0,
    }
}

/// One read and all that follows from it: the line source takes the read;
/// what it emits, the session serves; the signal that the session asks
/// for, the line source receives, and if the session asks for none after
/// a line, the line source finds its consumer gone. Nothing is read once
/// either side has stopped.
pub open spec fn exchange(d: DialogueView, step: ScriptedReadView) -> DialogueView {
    if d.source != SourceState::Prompting || !accepts_events(d.session) {
        d
    } else {
        match emitted(step.read) {
            None => DialogueView {
                source: after_read(step.read),
                session: d.session,
                reprompts: d.reprompts + 1,
                blanks: d.blanks + 1,
                signals: d.signals,
            },
            Some(event) => {
                let line = ScriptedLineView { event, outcome: step.outcome };
                let sent = line_turn(0, line).signals;
                let source = after_signal(after_read(step.read), sent > 0);
                DialogueView {
                    source,
                    session: after_line_turn(d.session, line),
                    reprompts: d.reprompts + if source == SourceState::Prompting {
                        1nat
                    } else {
                        0nat
                    },
                    blanks: d.blanks,
                    signals: d.signals + sent,
                }
            },
        }
    }
}

/// The dialogue that a script of reads leads to.
pub open spec fn dialogue(script: Seq<ScriptedReadView>) -> DialogueView
    decreases script.len(),
{
    if script.len() == 0 {
        opened()
    } else {
        exchange(dialogue(script.drop_last()), script.last())
    }
}

/// The content of each read of a script.
pub open spec fn scripted_reads(reads: Seq<ScriptedRead>) -> Seq<ScriptedReadView> {
    reads.map_values(|r: ScriptedRead| r@)
}

/// Runs a line source and a session over a script of reads.
///
/// Each read is handed to the line source; what the line source emits is
/// served by the session as in [`replay`]; a pacing signal that the
/// session asks for is delivered to the line source, and where the
/// session asks for none after a line, the line source is told that its
/// consumer is gone. Once either side has stopped, nothing more is read.
pub fn converse(reads: &Vec<ScriptedRead>) -> (d: Dialogue)
    ensures
        d@ == dialogue(scripted_reads(reads@)),
{
    let mut d = Dialogue {
        source: LineSource::new(),
        session: Session::running(),
        reprompts: 0,
        blanks: 0,
        signals: 0,
    };
    let mut k: usize = 0;
    while k < reads.len()
        invariant
            0 <= k <= reads@.len(),
            d@ == dialogue(scripted_reads(reads@).take(k as int)),
            d.reprompts <= k,
            d.blanks <= k,
            d.signals <= k,
        decreases reads.len() - k,
    {
        proof {
            assert(scripted_reads(reads@).take(k + 1).drop_last() == scripted_reads(reads@).take(
                k as int,
            ));
        }
        if d.source.state() == SourceState::Prompting && d.session.is_accepting() {
            match d.source.line_read(reads[k].read.clone()) {
                None => {
                    d.reprompts = d.reprompts + 1;
                    d.blanks = d.blanks + 1;
                },
                Some(event) => {
                    let line = ScriptedLine { event, outcome: reads[k].outcome.clone() };
                    let turn = serve_line(&mut d.session, 0, &line);
                    d.source.signalled(turn.signals > 0);
                    if d.source.state() == SourceState::Prompting {
                        d.reprompts = d.reprompts + 1;
                    }
                    d.signals = d.signals + turn.signals;
                },
            }
        }
        k = k + 1;
    }
    proof {
        assert(scripted_reads(reads@).take(k as int) == scripted_reads(reads@));
    }
    d
}

} // verus!
