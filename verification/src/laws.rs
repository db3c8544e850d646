//! What holds of every run, stated over the functions that the contracts of
//! this crate are written with.
//!
//! A run of the session is modelled as the loop sees it: two queues, one of
//! notifications and one of line events, and at each iteration a choice of
//! the queue to serve. The choice is the scheduler's; the laws hold
//! whatever it is. A dialogue adds the line source, which turns what is
//! typed into the events of the line queue and waits for the session's
//! pacing signal.

use vstd::prelude::*;
use crate::args::{pairs_map, ArgValueView};
use crate::calltool::interactive::{
    after_answers, answered, is_done, unasked, verdict, Answer, PrompterView,
};
use crate::calltool::json::{document_arguments, JsonDocumentView};
use crate::calltool::{selected_modes, selection};
use crate::connect::{
    accepts_events, after, classify, line_reaction, CommandOutcomeView, DirectiveView,
    LineEventView, LineKind, Phase, RenderingView, SessionView,
};
use crate::error::{ErrorKind, ErrorView};
use crate::input::{after_read, after_signal, emitted, ReadResultView, SourceState};
use crate::mcp::tool_call;
use crate::protocol::{Notification, Parameter};
use crate::script::{
    after_line_turn, dialogue, line_turn, notification_turn, run, started, ScriptedLineView,
    ScriptedReadView, TurnView,
};
use crate::text::trimmed;

verus! {

/// The turns that served the line queue, in order.
pub open spec fn line_turns(turns: Seq<TurnView>) -> Seq<TurnView> {
    turns.filter(|t: TurnView| t.from_lines)
}

/// The turns that served the notification queue, in order.
pub open spec fn notification_turns(turns: Seq<TurnView>) -> Seq<TurnView> {
    turns.filter(|t: TurnView| !t.from_lines)
}

/// How many pacing signals the turns sent in all.
pub open spec fn signals_sent(turns: Seq<TurnView>) -> nat
    decreases turns.len(),
{
    if turns.len() == 0 {
        0
    } else {
        signals_sent(turns.drop_last()) + turns.last().signals
    }
}

/// Whether a line event is a line that is served with the session going
/// on: any line but `quit` and `exit`.
pub open spec fn is_command(event: LineEventView) -> bool {
    event matches LineEventView::Line(line) && classify(line) != LineKind::Quit
}

/// How many of the first `n` line events are lines served with the
/// session going on.
pub open spec fn commands_among(lines: Seq<ScriptedLineView>, n: int) -> nat
    decreases n,
{
    if n <= 0 {
        0
    } else {
        commands_among(lines, n - 1) + if is_command(lines[n - 1].event) {
            1nat
        } else {
            0nat
        }
    }
}

/// Each event is rendered exactly once, in the order of its own queue.
///
/// Whatever the queues hold and however the scheduler chooses, the turns
/// that served the notification queue are the turns of its first events,
/// one for each and in queue order, and likewise for the line queue. No
/// event is served twice, none is passed over, and none is served out of
/// its queue's order.
pub proof fn law_each_event_once_in_queue_order(
    notes: Seq<Notification>,
    lines: Seq<ScriptedLineView>,
    schedule: Seq<bool>,
)
    ensures
        ({
            let r = run(notes, lines, schedule);
            &&& 0 <= r.notes_taken <= notes.len()
            &&& 0 <= r.lines_taken <= lines.len()
            &&& r.turns.len() == r.notes_taken + r.lines_taken
            &&& notification_turns(r.turns) == Seq::new(
                r.notes_taken as nat,
                |k: int| notification_turn(k, notes[k]),
            )
            &&& line_turns(r.turns) == Seq::new(
                r.lines_taken as nat,
                |k: int| line_turn(k, lines[k]),
            )
        }),
    decreases schedule.len(),
{
    if schedule.len() > 0 {
        let before = run(notes, lines, schedule.drop_last());
        law_each_event_once_in_queue_order(notes, lines, schedule.drop_last());
        let r = run(notes, lines, schedule);
        let is_line = |t: TurnView| t.from_lines;
        let is_note = |t: TurnView| !t.from_lines;
        if r.turns.len() > before.turns.len() {
            let t = r.turns.last();
            assert(r.turns == before.turns.push(t));
            before.turns.lemma_filter_push(t, is_line);
            before.turns.lemma_filter_push(t, is_note);
            if t.from_lines {
                assert(line_turns(r.turns) =~= Seq::new(
                    r.lines_taken as nat,
                    |k: int| line_turn(k, lines[k]),
                ));
            } else {
                assert(notification_turns(r.turns) =~= Seq::new(
                    r.notes_taken as nat,
                    |k: int| notification_turn(k, notes[k]),
                ));
            }
        }
    } else {
        assert(notification_turns(started().turns) =~= Seq::new(
            0nat,
            |k: int| notification_turn(k, notes[k]),
        ));
        assert(line_turns(started().turns) =~= Seq::new(0nat, |k: int| line_turn(k, lines[k])));
    }
}

/// As long as the session goes on, every iteration serves an event if
/// one is left.
///
/// If no line of the script ends the session, the session accepts events
/// throughout, and the events served are as many as the iterations, up
/// to the number of events in the two queues. So a schedule at least as
/// long as the two queues together serves every event.
pub proof fn law_every_event_is_served(
    notes: Seq<Notification>,
    lines: Seq<ScriptedLineView>,
    schedule: Seq<bool>,
)
    requires
        forall|k: int| 0 <= k < lines.len() ==> is_command((#[trigger] lines[k]).event),
    ensures
        ({
            let r = run(notes, lines, schedule);
            &&& accepts_events(r.session)
            &&& 0 <= r.notes_taken <= notes.len()
            &&& 0 <= r.lines_taken <= lines.len()
            &&& r.notes_taken + r.lines_taken == if schedule.len() <= notes.len() + lines.len() {
                schedule.len()
            } else {
                notes.len() + lines.len()
            }
            &&& schedule.len() >= notes.len() + lines.len() ==> r.notes_taken == notes.len()
                && r.lines_taken == lines.len()
        }),
    decreases schedule.len(),
{
    if schedule.len() > 0 {
        law_every_event_is_served(notes, lines, schedule.drop_last());
        let before = run(notes, lines, schedule.drop_last());
        if 0 <= before.lines_taken < lines.len() {
            assert(is_command(lines[before.lines_taken].event));
        }
    }
}

/// After each command the line source gets exactly one pacing signal.
///
/// A turn sends one signal if it served a line other than `quit` and
/// `exit`, whether the line was served locally or its command succeeded,
/// failed or did not parse, and no signal otherwise. So in every run the
/// signals sent are as many as the lines that were served with the
/// session going on; notifications send none.
pub proof fn law_one_signal_per_command(
    notes: Seq<Notification>,
    lines: Seq<ScriptedLineView>,
    schedule: Seq<bool>,
)
    ensures
        ({
            let r = run(notes, lines, schedule);
            &&& 0 <= r.lines_taken <= lines.len()
            &&& signals_sent(r.turns) == commands_among(lines, r.lines_taken)
            &&& forall|k: int|
                0 <= k < r.turns.len() ==> (#[trigger] r.turns[k]).signals == if r.turns[k].from_lines
                    && is_command(lines[r.turns[k].index].event) {
                    1nat
                } else {
                    0nat
                }
        }),
    decreases schedule.len(),
{
    if schedule.len() > 0 {
        let before = run(notes, lines, schedule.drop_last());
        law_one_signal_per_command(notes, lines, schedule.drop_last());
        let r = run(notes, lines, schedule);
        if r.turns.len() > before.turns.len() {
            let t = r.turns.last();
            assert(r.turns == before.turns.push(t));
            assert(r.turns.drop_last() == before.turns);
            assert forall|k: int| 0 <= k < r.turns.len() implies (#[trigger] r.turns[k]).signals
                == if r.turns[k].from_lines && is_command(lines[r.turns[k].index].event) {
                1nat
            } else {
                0nat
            } by {
                if k < before.turns.len() {
                    assert(r.turns[k] == before.turns[k]);
                }
            }
        }
    }
}

/// `quit` and `exit` end the session and dispatch nothing.
///
/// An accepting session that is handed the line `quit` or `exit` asks the
/// loop to stop and goes to `Closing`; no words are handed out for
/// execution, however the script goes on.
pub proof fn law_quit_closes_without_dispatch(
    s: SessionView,
    line: Seq<char>,
    outcome: CommandOutcomeView,
)
    requires
        accepts_events(s),
        line == "quit"@ || line == "exit"@,
    ensures
        line_reaction(LineEventView::Line(line)).directive == DirectiveView::Stop,
        after(s, line_reaction(LineEventView::Line(line)).directive) == (SessionView {
            phase: Phase::Closing,
            pending: false,
        }),
        line_turn(0, ScriptedLineView { event: LineEventView::Line(line), outcome }).executed is None,
        after_line_turn(s, ScriptedLineView { event: LineEventView::Line(line), outcome }).phase
            == Phase::Closing,
{
}

/// A command that does not parse is reported and changes nothing.
///
/// Whatever the line, if its words do not parse as a command the turn
/// renders an error trace that begins with `Invalid command: `, then the
/// hint to use `help`, and the session accepts events as before.
pub proof fn law_invalid_command_keeps_session(s: SessionView, line: Seq<char>, why: Seq<char>)
    requires
        accepts_events(s),
        classify(line) == LineKind::Command,
    ensures
        ({
            let scripted = ScriptedLineView {
                event: LineEventView::Line(line),
                outcome: CommandOutcomeView::Invalid(why),
            };
            &&& line_turn(0, scripted).output == seq![
                RenderingView::Error("Invalid command: "@ + why),
                RenderingView::Text("Type 'help' for available commands."@),
            ]
            &&& after_line_turn(s, scripted) == s
        }),
{
    let scripted = ScriptedLineView {
        event: LineEventView::Line(line),
        outcome: CommandOutcomeView::Invalid(why),
    };
    assert(line_turn(0, scripted).output =~= seq![
        RenderingView::Error("Invalid command: "@ + why),
        RenderingView::Text("Type 'help' for available commands."@),
    ]);
}

/// A blank line gives no event and needs no signal.
///
/// A prompting line source that reads a line of nothing but whitespace
/// emits nothing and stays prompting: the next prompt is shown without
/// the consumer having been told anything, so without a pacing signal.
pub proof fn law_blank_line_is_silent(raw: Seq<char>)
    requires
        trimmed(raw).len() == 0,
    ensures
        emitted(ReadResultView::Line(raw)) is None,
        after_read(ReadResultView::Line(raw)) == SourceState::Prompting,
{
}

/// The next prompt waits for the pacing signal.
///
/// A line source that has emitted a line awaits the signal; from there
/// only a received signal leads back to prompting.
pub proof fn law_next_prompt_needs_signal(raw: Seq<char>, received: bool)
    requires
        trimmed(raw).len() > 0,
    ensures
        emitted(ReadResultView::Line(raw)) == Some(LineEventView::Line(trimmed(raw))),
        after_read(ReadResultView::Line(raw)) == SourceState::AwaitingSignal,
        after_signal(SourceState::AwaitingSignal, received) == SourceState::Prompting <==> received,
{
}

/// Every prompt but the first follows a blank line or exactly one pacing
/// signal.
///
/// Whatever is typed and however the commands end, the prompts shown
/// after the first are one for each blank line and one for each pacing
/// signal received. The line source is at its prompt exactly as long as
/// the session goes on.
pub proof fn law_prompts_are_paced(script: Seq<ScriptedReadView>)
    ensures
        ({
            let d = dialogue(script);
            &&& d.reprompts == d.blanks + d.signals
            &&& d.source == SourceState::Prompting <==> accepts_events(d.session)
            &&& d.source != SourceState::AwaitingSignal
        }),
    decreases script.len(),
{
    if script.len() > 0 {
        law_prompts_are_paced(script.drop_last());
    }
}

/// The source of a tool call's arguments is chosen if and only if exactly
/// one is selected.
///
/// With no source selected, and with two or three, the choice fails with
/// a usage error. The choice looks at nothing but the request, so the
/// failure comes before anything is sent, read or asked.
pub proof fn law_exactly_one_mode(
    tool_name: Seq<char>,
    entries: Seq<Seq<char>>,
    interactive: bool,
    json: bool,
)
    ensures
        selection(entries, interactive, json) is Ok <==> selected_modes(
            entries.len() > 0,
            interactive,
            json,
        ) == 1,
        selection(entries, interactive, json) matches Err(e) ==> e.kind == ErrorKind::Other,
        tool_call(tool_name, entries, interactive, json) is Ok <==> selected_modes(
            entries.len() > 0,
            interactive,
            json,
        ) == 1,
        tool_call(tool_name, entries, interactive, json) matches Err(e) ==> e.kind
            == ErrorKind::Other,
{
}

/// A JSON document resolves to arguments if and only if it is an object.
///
/// An array, a string, a number, a boolean and null each fail with a
/// format error; an object gives the mapping of its members.
pub proof fn law_only_objects_resolve(doc: JsonDocumentView)
    ensures
        document_arguments(doc) is Ok <==> doc is Object,
        document_arguments(doc) matches Err(e) ==> e.kind == ErrorKind::Format,
        doc matches JsonDocumentView::Object(members) ==> document_arguments(doc) == Ok::<
            Map<Seq<char>, ArgValueView>,
            ErrorView,
        >(pairs_map(members)),
{
}

/// An optional parameter left blank is left out.
///
/// A blank answer for an optional parameter stores nothing, under no
/// name, and the next parameter is up.
pub proof fn law_blank_optional_is_left_out(p: PrompterView, input: Seq<char>)
    requires
        !is_done(p),
        !p.parameters[p.next as int].required,
        trimmed(input).len() == 0,
    ensures
        verdict(p, input) == Answer::Omitted,
        answered(p, input).collected == p.collected,
        answered(p, input).next == p.next + 1,
{
}

/// A required parameter left blank is asked again.
///
/// A blank answer for a required parameter is refused; nothing is stored
/// and the same parameter stays up.
pub proof fn law_blank_required_is_asked_again(p: PrompterView, input: Seq<char>)
    requires
        !is_done(p),
        p.parameters[p.next as int].required,
        trimmed(input).len() == 0,
    ensures
        verdict(p, input) == Answer::Refused,
        answered(p, input) == p,
{
}

/// Whether a value is a text that is not blank.
pub open spec fn is_filled(value: ArgValueView) -> bool {
    value matches ArgValueView::Text(t) && t.len() > 0
}

/// Whether an acquisition is in good order: no more parameters are
/// settled than there are, every stored value is a text that is not
/// blank, and every required parameter that is settled has a value.
pub open spec fn in_order(p: PrompterView) -> bool {
    &&& p.next <= p.parameters.len()
    &&& forall|name: Seq<char>| #[trigger]
        p.collected.dom().contains(name) ==> is_filled(p.collected[name])
    &&& forall|i: int|
        0 <= i < p.next && (#[trigger] p.parameters[i]).required ==> p.collected.dom().contains(
            p.parameters[i].name@,
        )
}

/// No answer brings an acquisition out of order.
pub proof fn lemma_answer_keeps_order(p: PrompterView, input: Seq<char>)
    requires
        in_order(p),
    ensures
        in_order(answered(p, input)),
        answered(p, input).parameters == p.parameters,
{
    let q = answered(p, input);
    assert forall|i: int| 0 <= i < q.next && (#[trigger] q.parameters[i]).required implies
        q.collected.dom().contains(q.parameters[i].name@) by {
        if i < p.next {
            assert(p.collected.dom().contains(p.parameters[i].name@));
        }
    }
}

/// Interactive acquisition stores no blank value and skips no required
/// parameter.
///
/// Whatever the declared parameters and whatever the operator answers,
/// every value in the collected set is a text that is not blank, so that a
/// parameter left blank is never stored as an empty string. Once every
/// parameter is settled, each required one has a value.
pub proof fn law_interactive_arguments(parameters: Seq<Parameter>, answers: Seq<Seq<char>>)
    ensures
        ({
            let end = after_answers(unasked(parameters), answers);
            &&& end.parameters == parameters
            &&& forall|name: Seq<char>| #[trigger]
                end.collected.dom().contains(name) ==> is_filled(end.collected[name])
            &&& is_done(end) ==> forall|i: int|
                0 <= i < parameters.len() && (#[trigger] parameters[i]).required
                    ==> end.collected.dom().contains(parameters[i].name@)
        }),
{
    lemma_answers_keep_order(unasked(parameters), answers);
}

/// No sequence of answers brings an acquisition out of order.
pub proof fn lemma_answers_keep_order(p: PrompterView, answers: Seq<Seq<char>>)
    requires
        in_order(p),
    ensures
        in_order(after_answers(p, answers)),
        after_answers(p, answers).parameters == p.parameters,
    decreases answers.len(),
{
    if answers.len() > 0 {
        lemma_answers_keep_order(p, answers.drop_last());
        lemma_answer_keeps_order(after_answers(p, answers.drop_last()), answers.last());
    }
}

} // verus!
