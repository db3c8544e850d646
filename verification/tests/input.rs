use libmcptool::connect::LineEvent;
use libmcptool::input::{LineSource, ReadResult, SourceState};

fn read(text: &str) -> ReadResult {
    ReadResult::Line(text.to_string())
}

#[test]
fn a_new_line_source_prompts() {
    let source = LineSource::new();
    assert_eq!(source.state(), SourceState::Prompting);
    assert_eq!(source.prompt(), "mcp> ");
}

#[test]
fn a_line_is_trimmed_emitted_and_awaits_the_signal() {
    let mut source = LineSource::new();
    assert_eq!(source.line_read(read("  listtools \n")), Some(LineEvent::Line("listtools".to_string())));
    assert_eq!(source.state(), SourceState::AwaitingSignal);
}

#[test]
fn an_empty_line_gives_no_event_and_prompts_again() {
    let mut source = LineSource::new();
    assert_eq!(source.line_read(read("")), None);
    assert_eq!(source.state(), SourceState::Prompting);
    assert_eq!(source.line_read(read("   \t ")), None);
    assert_eq!(source.state(), SourceState::Prompting);
    assert_eq!(source.line_read(read("\u{3000}")), None);
    assert_eq!(source.state(), SourceState::Prompting);
}

#[test]
fn the_signal_brings_the_prompt_back() {
    let mut source = LineSource::new();
    source.line_read(read("ping"));
    source.signalled(true);
    assert_eq!(source.state(), SourceState::Prompting);
    assert_eq!(source.line_read(read("ping")), Some(LineEvent::Line("ping".to_string())));
}

#[test]
fn a_lost_consumer_ends_the_thread() {
    let mut source = LineSource::new();
    source.line_read(read("ping"));
    source.signalled(false);
    assert_eq!(source.state(), SourceState::Terminated);

    let mut source = LineSource::new();
    source.line_read(read("ping"));
    source.delivery_failed();
    assert_eq!(source.state(), SourceState::Terminated);
}

#[test]
fn the_three_signals_are_passed_on_and_end_the_thread() {
    let mut source = LineSource::new();
    assert_eq!(source.line_read(ReadResult::Interrupted), Some(LineEvent::Interrupted));
    assert_eq!(source.state(), SourceState::Terminated);

    let mut source = LineSource::new();
    assert_eq!(source.line_read(ReadResult::Eof), Some(LineEvent::Eof));
    assert_eq!(source.state(), SourceState::Terminated);

    let mut source = LineSource::new();
    assert_eq!(
        source.line_read(ReadResult::Failed("broken".to_string())),
        Some(LineEvent::Failed("broken".to_string()))
    );
    assert_eq!(source.state(), SourceState::Terminated);
}

#[test]
fn a_read_while_awaiting_the_signal_is_dropped() {
    let mut source = LineSource::new();
    source.line_read(read("ping"));
    assert_eq!(source.line_read(read("again")), None);
    assert_eq!(source.state(), SourceState::AwaitingSignal);
}

#[test]
fn a_terminated_source_stays_terminated() {
    let mut source = LineSource::new();
    source.line_read(ReadResult::Eof);
    assert_eq!(source.line_read(read("ping")), None);
    source.signalled(true);
    assert_eq!(source.state(), SourceState::Terminated);
}

#[test]
fn a_signal_while_prompting_changes_nothing() {
    let mut source = LineSource::new();
    source.signalled(true);
    assert_eq!(source.state(), SourceState::Prompting);
    source.signalled(false);
    assert_eq!(source.state(), SourceState::Prompting);
}

#[test]
fn blank_lines_between_commands_need_no_signal() {
    let mut source = LineSource::new();
    let typed = ["", "ping", " ", "", "help", "\t"];
    let mut events = 0;
    let mut signals = 0;
    for t in typed {
        assert_eq!(source.state(), SourceState::Prompting);
        if source.line_read(read(t)).is_some() {
            events += 1;
            assert_eq!(source.state(), SourceState::AwaitingSignal);
            source.signalled(true);
            signals += 1;
        }
    }
    assert_eq!(events, 2);
    assert_eq!(signals, 2);
    assert_eq!(source.state(), SourceState::Prompting);
}
