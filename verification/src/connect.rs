//! The session loop as a state machine.
//!
//! The caller waits on its two queues and hands each event to the
//! [`Session`]; the session answers with what to render and what to do next.
//! Nothing here blocks or performs I/O.

use vstd::prelude::*;
use vstd::string::*;
use crate::protocol::{display_notification, notification_text, Notification};
use crate::text::{same_text, split_whitespace, words};

verus! {

/// Where a session stands in its life.
#[derive(Clone, Copy, Debug, PartialEq, Eq, Structural)]
pub enum Phase {
    /// The connection is open; no prompt has been shown yet.
    Connected,
    /// The loop is processing events.
    Running,
    /// The loop has exited; the session is about to be torn down.
    Closing,
    /// The connection is closed and the queues are dropped.
    Closed,
}

/// What the line source hands over for one physical input event.
#[derive(Debug, PartialEq, Eq)]
pub enum LineEvent {
    /// A line, trimmed and not empty.
    Line(String),
    /// The operator sent the interrupt signal.
    Interrupted,
    /// The input ended.
    Eof,
    /// Reading failed; the text describes the failure.
    Failed(String),
}

/// Mathematical content of a [`LineEvent`].
pub enum LineEventView {
    Line(Seq<char>),
    Interrupted,
    Eof,
    Failed(Seq<char>),
}

impl View for LineEvent {
    type V = LineEventView;

    open spec fn view(&self) -> LineEventView {
        match self {
            LineEvent::Line(line) => LineEventView::Line(line@),
            LineEvent::Interrupted => LineEventView::Interrupted,
            LineEvent::Eof => LineEventView::Eof,
            LineEvent::Failed(why) => LineEventView::Failed(why@),
        }
    }
}

impl Clone for LineEvent {
    fn clone(&self) -> (r: LineEvent)
        ensures
            r@ == self@,
    {
        match self {
            LineEvent::Line(line) => LineEvent::Line(line.clone()),
            LineEvent::Interrupted => LineEvent::Interrupted,
            LineEvent::Eof => LineEvent::Eof,
            LineEvent::Failed(why) => LineEvent::Failed(why.clone()),
        }
    }
}

/// How the execution of a command line ended.
#[derive(Debug, PartialEq, Eq)]
pub enum CommandOutcome {
    /// The command was parsed, dispatched, and its result rendered.
    Completed,
    /// The command was parsed and dispatched, and failed with this message.
    Failed(String),
    /// The words did not parse as a command; the text says why.
    Invalid(String),
}

/// Mathematical content of a [`CommandOutcome`].
pub enum CommandOutcomeView {
    Completed,
    Failed(Seq<char>),
    Invalid(Seq<char>),
}

impl View for CommandOutcome {
    type V = CommandOutcomeView;

    open spec fn view(&self) -> CommandOutcomeView {
        match self {
            CommandOutcome::Completed => CommandOutcomeView::Completed,
            CommandOutcome::Failed(why) => CommandOutcomeView::Failed(why@),
            CommandOutcome::Invalid(why) => CommandOutcomeView::Invalid(why@),
        }
    }
}

impl Clone for CommandOutcome {
    fn clone(&self) -> (r: CommandOutcome)
        ensures
            r@ == self@,
    {
        match self {
            CommandOutcome::Completed => CommandOutcome::Completed,
            CommandOutcome::Failed(why) => CommandOutcome::Failed(why.clone()),
            CommandOutcome::Invalid(why) => CommandOutcome::Invalid(why.clone()),
        }
    }
}

/// One call of a rendering primitive.
#[derive(Clone, Debug, PartialEq, Eq)]
pub enum Rendering {
    /// A plain line.
    Text(String),
    /// A success trace.
    Success(String),
    /// An error trace.
    Error(String),
    /// A notice.
    Note(String),
    /// A heading.
    Heading(String),
    /// The list of recognized commands.
    CommandList,
    /// The handshake result captured when the connection was made.
    Handshake,
}

/// Mathematical content of a [`Rendering`].
pub enum RenderingView {
    Text(Seq<char>),
    Success(Seq<char>),
    Error(Seq<char>),
    Note(Seq<char>),
    Heading(Seq<char>),
    CommandList,
    Handshake,
}

impl View for Rendering {
    type V = RenderingView;

    open spec fn view(&self) -> RenderingView {
        match self {
            Rendering::Text(s) => RenderingView::Text(s@),
            Rendering::Success(s) => RenderingView::Success(s@),
            Rendering::Error(s) => RenderingView::Error(s@),
            Rendering::Note(s) => RenderingView::Note(s@),
            Rendering::Heading(s) => RenderingView::Heading(s@),
            Rendering::CommandList => RenderingView::CommandList,
            Rendering::Handshake => RenderingView::Handshake,
        }
    }
}

/// What the loop does after it has rendered a reaction's output.
#[derive(Clone, Debug, PartialEq, Eq)]
pub enum Directive {
    /// Wait for the next event; the line source is not signalled.
    Continue,
    /// Send the line source its pacing signal, then wait for the next event.
    Rearm,
    /// Parse these words as a protocol command, dispatch it, and report how
    /// it ended with [`Session::command_finished`].
    Execute(Vec<String>),
    /// Leave the loop.
    Stop,
}

/// Mathematical content of a [`Directive`].
pub enum DirectiveView {
    Continue,
    Rearm,
    Execute(Seq<Seq<char>>),
    Stop,
}

impl View for Directive {
    type V = DirectiveView;

    open spec fn view(&self) -> DirectiveView {
        match self {
            Directive::Continue => DirectiveView::Continue,
            Directive::Rearm => DirectiveView::Rearm,
            Directive::Execute(w) => DirectiveView::Execute(w@.map_values(|s: String| s@)),
            Directive::Stop => DirectiveView::Stop,
        }
    }
}

/// The session's answer to one event.
#[derive(Clone, Debug, PartialEq, Eq)]
pub struct Reaction {
    /// What to render, in this order.
    pub output: Vec<Rendering>,
    /// What to do once it is rendered.
    pub directive: Directive,
}

/// Mathematical content of a [`Reaction`].
pub struct ReactionView {
    pub output: Seq<RenderingView>,
    pub directive: DirectiveView,
}

impl View for Reaction {
    type V = ReactionView;

    open spec fn view(&self) -> ReactionView {
        ReactionView {
            output: self.output@.map_values(|r: Rendering| r@),
            directive: self.directive@,
        }
    }
}

/// Mathematical content of a [`Session`].
pub struct SessionView {
    /// Where the session stands.
    pub phase: Phase,
    /// Whether a command has been handed out whose outcome is not back yet.
    pub pending: bool,
}

/// How a typed line is understood.
#[derive(Clone, Copy, Debug, PartialEq, Eq, Structural)]
pub enum LineKind {
    /// `quit` or `exit`.
    Quit,
    /// `help`.
    Help,
    /// `init`.
    Init,
    /// Anything else: a protocol command.
    Command,
}

/// How `line` is understood. The local words are matched as they stand.
pub open spec fn classify(line: Seq<char>) -> LineKind {
    if line == "quit"@ || line == "exit"@ {
        LineKind::Quit
    } else if line == "help"@ {
        LineKind::Help
    } else if line == "init"@ {
        LineKind::Init
    } else {
        LineKind::Command
    }
}

/// Decides [`classify`].
pub fn classify_line(line: &str) -> (kind: LineKind)
    ensures
        kind == classify(line@),
{
    if same_text(line, "quit") || same_text(line, "exit") {
        LineKind::Quit
    } else if same_text(line, "help") {
        LineKind::Help
    } else if same_text(line, "init") {
        LineKind::Init
    } else {
        LineKind::Command
    }
}

/// Whether a session in state `s` handles the events of its queues: it is
/// running and no command is under way.
pub open spec fn accepts_events(s: SessionView) -> bool {
    s.phase == Phase::Running && !s.pending
}

/// The answer to anything that comes at a moment when it is not handled:
/// nothing is rendered, and the loop stops if the session is over.
pub open spec fn unhandled(s: SessionView) -> ReactionView {
    ReactionView {
        output: Seq::empty(),
        directive: if s.phase == Phase::Closing || s.phase == Phase::Closed {
            DirectiveView::Stop
        } else {
            DirectiveView::Continue
        },
    }
}

/// What is rendered once the connection is made.
pub open spec fn welcome(server_name: Seq<char>, server_version: Seq<char>) -> Seq<RenderingView> {
    seq![
        RenderingView::Success("Connected to: "@ + server_name + " v"@ + server_version),
        RenderingView::Text("Type 'help' for available commands, 'quit' to exit\n"@),
    ]
}

/// The answer of an accepting session to a notification.
pub open spec fn notification_reaction(n: Notification) -> ReactionView {
    ReactionView {
        output: seq![RenderingView::Text(notification_text(n))],
        directive: DirectiveView::Continue,
    }
}

/// The answer of an accepting session to a line event.
pub open spec fn line_reaction(event: LineEventView) -> ReactionView {
    match event {
        LineEventView::Line(line) => match classify(line) {
            LineKind::Quit => ReactionView {
                output: seq![RenderingView::Text("Goodbye!"@)],
                directive: DirectiveView::Stop,
            },
            LineKind::Help => ReactionView {
                output: seq![
                    RenderingView::Heading("Available commands"@),
                    RenderingView::CommandList,
                ],
                directive: DirectiveView::Rearm,
            },
            LineKind::Init => ReactionView {
                output: seq![
                    RenderingView::Note(
                        "Showing initialization result from initial connection (not re-initializing)"@,
                    ),
                    RenderingView::Handshake,
                ],
                directive: DirectiveView::Rearm,
            },
            LineKind::Command => ReactionView {
                output: Seq::empty(),
                directive: DirectiveView::Execute(words(line)),
            },
        },
        LineEventView::Interrupted => ReactionView {
            output: seq![RenderingView::Text("CTRL-C"@)],
            directive: DirectiveView::Stop,
        },
        LineEventView::Eof => ReactionView {
            output: seq![RenderingView::Text("CTRL-D"@)],
            directive: DirectiveView::Stop,
        },
        LineEventView::Failed(why) => ReactionView {
            output: seq![RenderingView::Error("Error: "@ + why)],
            directive: DirectiveView::Stop,
        },
    }
}

/// The state that follows a reaction with directive `d` in state `s`.
pub open spec fn after(s: SessionView, d: DirectiveView) -> SessionView {
    match d {
        DirectiveView::Stop => SessionView { phase: Phase::Closing, pending: false },
        DirectiveView::Execute(_) => SessionView { phase: s.phase, pending: true },
        DirectiveView::Rearm => SessionView { phase: s.phase, pending: false },
        DirectiveView::Continue => s,
    }
}

/// What is rendered when a command has ended with `outcome`.
pub open spec fn outcome_output(outcome: CommandOutcomeView) -> Seq<RenderingView> {
    match outcome {
        CommandOutcomeView::Completed => Seq::empty(),
        CommandOutcomeView::Failed(why) => seq![RenderingView::Error("Command failed: "@ + why)],
        CommandOutcomeView::Invalid(why) => seq![
            RenderingView::Error("Invalid command: "@ + why),
            RenderingView::Text("Type 'help' for available commands."@),
        ],
    }
}

/// The line that announces a connection attempt.
pub fn connecting_notice(target: &str) -> (r: Rendering)
    ensures
        r@ == RenderingView::Text("Connecting to "@ + target@ + "..."@),
{
    let mut s = "Connecting to ".to_owned();
    s.append(target);
    s.append("...");
    Rendering::Text(s)
}

/// The state of one interactive run.
#[derive(Clone, Debug, PartialEq, Eq)]
pub struct Session {
    phase: Phase,
    pending: bool,
}

impl View for Session {
    type V = SessionView;

    closed spec fn view(&self) -> SessionView {
        SessionView { phase: self.phase, pending: self.pending }
    }
}

impl Session {
    /// A session whose connection has just been made.
    pub fn new() -> (s: Session)
        ensures
            s@ == (SessionView { phase: Phase::Connected, pending: false }),
    {
        Session { phase: Phase::Connected, pending: false }
    }

    /// A session whose loop is running, as it is after [`Session::start`].
    pub(crate) fn running() -> (s: Session)
        ensures
            s@ == (SessionView { phase: Phase::Running, pending: false }),
    {
        Session { phase: Phase::Running, pending: false }
    }

    /// Where the session stands.
    pub fn phase(&self) -> (p: Phase)
        ensures
            p == self@.phase,
    {
        self.phase
    }

    /// Whether a command has been handed out whose outcome is not back yet.
    pub fn is_pending(&self) -> (b: bool)
        ensures
            b == self@.pending,
    {
        self.pending
    }

    /// Whether the session handles the events of its queues right now.
    pub fn is_accepting(&self) -> (b: bool)
        ensures
            b == accepts_events(self@),
    {
        self.phase == Phase::Running && !self.pending
    }

    fn unhandled_reaction(&self) -> (r: Reaction)
        ensures
            r@ == unhandled(self@),
    {
        let directive = if self.phase == Phase::Closing || self.phase == Phase::Closed {
            Directive::Stop
        } else {
            Directive::Continue
        };
        let r = Reaction { output: Vec::new(), directive };
        assert(r@.output =~= Seq::empty());
        r
    }

    /// Starts the loop of a connected session: the welcome is rendered and
    /// the session runs. In any other phase nothing happens.
    pub fn start(&mut self, server_name: &str, server_version: &str) -> (output: Vec<Rendering>)
        ensures
            old(self)@.phase == Phase::Connected ==> {
                &&& final(self)@ == (SessionView { phase: Phase::Running, pending: false })
                &&& output@.map_values(|r: Rendering| r@) == welcome(
                    server_name@,
                    server_version@,
                )
            },
            old(self)@.phase != Phase::Connected ==> {
                &&& final(self)@ == old(self)@
                &&& output@.len() == 0
            },
    {
        let mut output: Vec<Rendering> = Vec::new();
        if self.phase == Phase::Connected {
            let mut s = "Connected to: ".to_owned();
            s.append(server_name);
            s.append(" v");
            s.append(server_version);
            output.push(Rendering::Success(s));
            output.push(
                Rendering::Text("Type 'help' for available commands, 'quit' to exit\n".to_owned()),
            );
            self.phase = Phase::Running;
            self.pending = false;
            assert(output@.map_values(|r: Rendering| r@) =~= welcome(
                server_name@,
                server_version@,
            ));
        }
        output
    }

    /// Handles a notification taken from the notification queue. An accepting
    /// session renders it on one line; the state never changes, and the line
    /// source is never signalled.
    pub fn handle_notification(&mut self, notification: &Notification) -> (r: Reaction)
        ensures
            final(self)@ == old(self)@,
            r@ == if accepts_events(old(self)@) {
                notification_reaction(*notification)
            } else {
                unhandled(old(self)@)
            },
    {
        if !self.is_accepting() {
            return self.unhandled_reaction();
        }
        let mut output: Vec<Rendering> = Vec::new();
        output.push(Rendering::Text(display_notification(notification)));
        let r = Reaction { output, directive: Directive::Continue };
        assert(r@.output =~= notification_reaction(*notification).output);
        r
    }

    /// Handles an event taken from the line queue.
    ///
    /// An accepting session answers as [`line_reaction`] says: the local
    /// words `quit`, `exit`, `help` and `init` are served here, any other
    /// line is split into words and handed out for execution, and the three
    /// signals of the line source end the session.
    pub fn handle_line(&mut self, event: LineEvent) -> (r: Reaction)
        ensures
            r@ == if accepts_events(old(self)@) {
                line_reaction(event@)
            } else {
                unhandled(old(self)@)
            },
            final(self)@ == if accepts_events(old(self)@) {
                after(old(self)@, line_reaction(event@).directive)
            } else {
                old(self)@
            },
    {
        if !self.is_accepting() {
            return self.unhandled_reaction();
        }
        let mut output: Vec<Rendering> = Vec::new();
        let directive = match event {
            LineEvent::Line(line) => match classify_line(line.as_str()) {
                LineKind::Quit => {
                    output.push(Rendering::Text("Goodbye!".to_owned()));
                    Directive::Stop
                },
                LineKind::Help => {
                    output.push(Rendering::Heading("Available commands".to_owned()));
                    output.push(Rendering::CommandList);
                    Directive::Rearm
                },
                LineKind::Init => {
                    output.push(
                        Rendering::Note(
                            "Showing initialization result from initial connection (not re-initializing)".to_owned(),
                        ),
                    );
                    output.push(Rendering::Handshake);
                    Directive::Rearm
                },
                LineKind::Command => {
                    let parts = split_whitespace(line.as_str());
                    assert(parts@.map_values(|s: String| s@) =~= words(line@));
                    Directive::Execute(parts)
                },
            },
            LineEvent::Interrupted => {
                output.push(Rendering::Text("CTRL-C".to_owned()));
                Directive::Stop
            },
            LineEvent::Eof => {
                output.push(Rendering::Text("CTRL-D".to_owned()));
                Directive::Stop
            },
            LineEvent::Failed(why) => {
                let mut s = "Error: ".to_owned();
                s.append(why.as_str());
                output.push(Rendering::Error(s));
                Directive::Stop
            },
        };
        match &directive {
            Directive::Stop => {
                self.phase = Phase::Closing;
                self.pending = false;
            },
            Directive::Execute(_) => {
                self.pending = true;
            },
            _ => {},
        }
        let r = Reaction { output, directive };
        assert(r@.output =~= line_reaction(event@).output);
        r
    }

    /// Takes note that the command handed out last has ended. A session with
    /// a command under way renders the outcome, goes back to accepting
    /// events, and asks for the pacing signal; a failed or invalid command
    /// never ends the session.
    pub fn command_finished(&mut self, outcome: CommandOutcome) -> (r: Reaction)
        ensures
            old(self)@.phase == Phase::Running && old(self)@.pending ==> {
                &&& r@ == (ReactionView {
                    output: outcome_output(outcome@),
                    directive: DirectiveView::Rearm,
                })
                &&& final(self)@ == (SessionView { phase: Phase::Running, pending: false })
            },
            !(old(self)@.phase == Phase::Running && old(self)@.pending) ==> {
                &&& r@ == unhandled(old(self)@)
                &&& final(self)@ == old(self)@
            },
    {
        if !(self.phase == Phase::Running && self.pending) {
            return self.unhandled_reaction();
        }
        let mut output: Vec<Rendering> = Vec::new();
        match outcome {
            CommandOutcome::Completed => {},
            CommandOutcome::Failed(why) => {
                let mut s = "Command failed: ".to_owned();
                s.append(why.as_str());
                output.push(Rendering::Error(s));
            },
            CommandOutcome::Invalid(why) => {
                let mut s = "Invalid command: ".to_owned();
                s.append(why.as_str());
                output.push(Rendering::Error(s));
                output.push(Rendering::Text("Type 'help' for available commands.".to_owned()));
            },
        }
        self.pending = false;
        let r = Reaction { output, directive: Directive::Rearm };
        assert(r@.output =~= outcome_output(outcome@));
        r
    }

    /// Takes note that the line queue has no sender left. A running session
    /// ends without rendering anything.
    pub fn input_closed(&mut self) -> (r: Reaction)
        ensures
            r@.output == Seq::<RenderingView>::empty(),
            old(self)@.phase == Phase::Running ==> {
                &&& r@.directive == DirectiveView::Stop
                &&& final(self)@ == (SessionView { phase: Phase::Closing, pending: false })
            },
            old(self)@.phase != Phase::Running ==> {
                &&& r@ == unhandled(old(self)@)
                &&& final(self)@ == old(self)@
            },
    {
        if self.phase != Phase::Running {
            return self.unhandled_reaction();
        }
        self.phase = Phase::Closing;
        self.pending = false;
        Reaction { output: Vec::new(), directive: Directive::Stop }
    }

    /// Tears the session down once the loop has exited. In any phase but
    /// `Closing` nothing happens.
    pub fn close(&mut self)
        ensures
            final(self)@ == if old(self)@.phase == Phase::Closing {
                SessionView { phase: Phase::Closed, pending: false }
            } else {
                old(self)@
            },
    {
        if self.phase == Phase::Closing {
            self.phase = Phase::Closed;
            self.pending = false;
        }
    }
}

} // verus!
