use vstd::prelude::*;

verus! {

/// State of the run loop: a single transition, `Running` to `Stopped`.
#[derive(Debug, Clone, Copy, PartialEq, Eq)]
pub enum LoopState {
    Running,
    Stopped,
}

/// One notification from the adapter's event stream, or an error reading
/// that stream.
#[derive(Debug, Clone, PartialEq, Eq)]
pub enum AdapterNotice {
    DeviceAdded { address: String },
    DeviceRemoved { address: String },
    Other,
    StreamError,
}

/// One observation on the operator console: a line, the end of input, or
/// a read error.
#[derive(Debug, Clone, PartialEq, Eq)]
pub enum ConsoleNotice {
    Line(String),
    Closed,
    ReadError,
}

/// An event from either source, in the order the select loop receives
/// them. No ordering holds between the two sources.
#[derive(Debug, Clone, PartialEq, Eq)]
pub enum LoopEvent {
    Adapter(AdapterNotice),
    Console(ConsoleNotice),
}

/// Why the loop stopped.
#[derive(Debug, Clone, Copy, PartialEq, Eq)]
pub enum StopReason {
    QuitCommand,
    EndOfInput,
    ConsoleError,
}

/// What the surrounding runtime must do after one step of the loop.
#[derive(Debug, Clone, PartialEq, Eq)]
pub enum LoopAction {
    /// Log the arrival of a device.
    NoteDeviceAdded { address: String },
    /// Log the departure of a device.
    NoteDeviceRemoved { address: String },
    /// Log an adapter event-stream error; the loop goes on.
    NoteStreamError,
    /// Remind the operator how to quit.
    PromptQuit,
    /// Nothing to do.
    Ignore,
    /// Leave the loop and release the registration handle.
    ShutDown { reason: StopReason },
}

/// What a console line trims to. Relies on `str::trim`: leading and
/// trailing whitespace removed, a function of the characters alone.
pub uninterp spec fn trimmed_of(text: Seq<char>) -> Seq<char>;

/// Relies on `str::trim` to strip leading and trailing whitespace from a
/// console line; the result is a function of the characters alone.
#[verifier::external_body]
fn trim_text(line: &str) -> (r: String)
    ensures
        r@ == trimmed_of(line@),
{
    line.trim().to_owned()
}

/// Whether a console line is the quit command: exactly `q` once
/// surrounding whitespace is trimmed, case-sensitive.
pub open spec fn spec_is_quit(line: Seq<char>) -> bool {
    trimmed_of(line) == "q"@
}

/// Whether an event stops a running loop: a quit line, the end of console
/// input, or a console read error. Adapter notices never stop it, the
/// stream-error notice included.
pub open spec fn is_terminal_event(event: LoopEvent) -> bool {
    match event {
        LoopEvent::Adapter(_) => false,
        LoopEvent::Console(ConsoleNotice::Line(line)) => spec_is_quit(line@),
        LoopEvent::Console(ConsoleNotice::Closed) => true,
        LoopEvent::Console(ConsoleNotice::ReadError) => true,
    }
}

/// The state after one event and the action it calls for. Device arrivals
/// and departures are logged; other adapter notices are ignored; an
/// adapter stream error is logged and is not fatal. A quit line, the end
/// of input, and a console read error stop the loop; any other line earns
/// a reminder. A stopped loop takes no further action.
pub open spec fn spec_step(state: LoopState, event: LoopEvent) -> (LoopState, LoopAction) {
    match state {
        LoopState::Stopped => (LoopState::Stopped, LoopAction::Ignore),
        LoopState::Running => match event {
            LoopEvent::Adapter(AdapterNotice::DeviceAdded { address }) => (
                LoopState::Running,
                LoopAction::NoteDeviceAdded { address },
            ),
            LoopEvent::Adapter(AdapterNotice::DeviceRemoved { address }) => (
                LoopState::Running,
                LoopAction::NoteDeviceRemoved { address },
            ),
            LoopEvent::Adapter(AdapterNotice::Other) => (LoopState::Running, LoopAction::Ignore),
            LoopEvent::Adapter(AdapterNotice::StreamError) => (
                LoopState::Running,
                LoopAction::NoteStreamError,
            ),
            LoopEvent::Console(ConsoleNotice::Line(line)) => if spec_is_quit(line@) {
                (LoopState::Stopped, LoopAction::ShutDown { reason: StopReason::QuitCommand })
            } else {
                (LoopState::Running, LoopAction::PromptQuit)
            },
            LoopEvent::Console(ConsoleNotice::Closed) => (
                LoopState::Stopped,
                LoopAction::ShutDown { reason: StopReason::EndOfInput },
            ),
            LoopEvent::Console(ConsoleNotice::ReadError) => (
                LoopState::Stopped,
                LoopAction::ShutDown { reason: StopReason::ConsoleError },
            ),
        },
    }
}

/// Whether a console line is the quit command.
pub fn is_quit(line: &str) -> (r: bool)
    ensures
        r == spec_is_quit(line@),
{
    let trimmed = trim_text(line);
    trimmed == "q".to_owned()
}

/// One step of the run loop: the next state and the action the runtime
/// must carry out.
pub fn step(state: LoopState, event: LoopEvent) -> (r: (LoopState, LoopAction))
    ensures
        r == spec_step(state, event),
{
    match state {
        LoopState::Stopped => (LoopState::Stopped, LoopAction::Ignore),
        LoopState::Running => match event {
            LoopEvent::Adapter(AdapterNotice::DeviceAdded { address }) => (
                LoopState::Running,
                LoopAction::NoteDeviceAdded { address },
            ),
            LoopEvent::Adapter(AdapterNotice::DeviceRemoved { address }) => (
                LoopState::Running,
                LoopAction::NoteDeviceRemoved { address },
            ),
            LoopEvent::Adapter(AdapterNotice::Other) => (LoopState::Running, LoopAction::Ignore),
            LoopEvent::Adapter(AdapterNotice::StreamError) => (
                LoopState::Running,
                LoopAction::NoteStreamError,
            ),
            LoopEvent::Console(ConsoleNotice::Line(line)) => if is_quit(line.as_str()) {
                (LoopState::Stopped, LoopAction::ShutDown { reason: StopReason::QuitCommand })
            } else {
                (LoopState::Running, LoopAction::PromptQuit)
            },
            LoopEvent::Console(ConsoleNotice::Closed) => (
                LoopState::Stopped,
                LoopAction::ShutDown { reason: StopReason::EndOfInput },
            ),
            LoopEvent::Console(ConsoleNotice::ReadError) => (
                LoopState::Stopped,
                LoopAction::ShutDown { reason: StopReason::ConsoleError },
            ),
        },
    }
}

/// The state after a whole sequence of events has been stepped through.
pub open spec fn run_from(state: LoopState, events: Seq<LoopEvent>) -> LoopState
    decreases events.len(),
{
    if events.len() == 0 {
        state
    } else {
        run_from(spec_step(state, events[0]).0, events.skip(1))
    }
}

/// The actions a sequence of events calls for, in order.
pub open spec fn actions_from(state: LoopState, events: Seq<LoopEvent>) -> Seq<LoopAction>
    decreases events.len(),
{
    if events.len() == 0 {
        Seq::empty()
    } else {
        seq![spec_step(state, events[0]).1] + actions_from(
            spec_step(state, events[0]).0,
            events.skip(1),
        )
    }
}

/// How many of the actions shut the loop down and release the
/// registration handle.
pub open spec fn shutdown_count(actions: Seq<LoopAction>) -> nat
    decreases actions.len(),
{
    if actions.len() == 0 {
        0
    } else {
        (if actions[0] is ShutDown {
            1nat
        } else {
            0nat
        }) + shutdown_count(actions.skip(1))
    }
}

/// A running loop stops on an event if and only if that event is a quit
/// line, the end of console input, or a console read error; and exactly
/// the stopping step emits the shut-down action.
pub proof fn lemma_step_stops_iff(event: LoopEvent)
    ensures
        spec_step(LoopState::Running, event).0 == LoopState::Stopped <==> is_terminal_event(event),
        spec_step(LoopState::Running, event).1 is ShutDown <==> is_terminal_event(event),
{
}

/// End-of-input termination: when the console closes with no further
/// lines, the loop stops without needing a quit line.
pub proof fn lemma_end_of_input_stops()
    ensures
        spec_step(LoopState::Running, LoopEvent::Console(ConsoleNotice::Closed)).0
            == LoopState::Stopped,
{
}

/// A stopped loop stays stopped and calls for no further action, whatever
/// events still arrive.
pub proof fn lemma_stopped_is_final(events: Seq<LoopEvent>)
    ensures
        run_from(LoopState::Stopped, events) == LoopState::Stopped,
        shutdown_count(actions_from(LoopState::Stopped, events)) == 0,
    decreases events.len(),
{
    if events.len() != 0 {
        lemma_stopped_is_final(events.skip(1));
        let actions = actions_from(LoopState::Stopped, events);
        assert(actions.skip(1) =~= actions_from(LoopState::Stopped, events.skip(1)));
    }
}

/// Event-stream error non-fatality: an error on the adapter event source
/// is logged, leaves the loop running, and the remaining events are
/// serviced exactly as they would have been without it.
pub proof fn lemma_stream_error_nonfatal(events: Seq<LoopEvent>)
    ensures
        spec_step(LoopState::Running, LoopEvent::Adapter(AdapterNotice::StreamError)).0
            == LoopState::Running,
        spec_step(LoopState::Running, LoopEvent::Adapter(AdapterNotice::StreamError)).1
            == LoopAction::NoteStreamError,
        run_from(
            LoopState::Running,
            seq![LoopEvent::Adapter(AdapterNotice::StreamError)] + events,
        ) == run_from(LoopState::Running, events),
{
    let error_event = LoopEvent::Adapter(AdapterNotice::StreamError);
    let whole = seq![error_event] + events;
    assert(whole[0] == error_event);
    assert(whole.skip(1) =~= events);
}

/// Cleanup on quit, exactly once: over any event sequence the shut-down
/// action, which releases the registration handle, is emitted at most
/// once; and it is emitted exactly once as soon as some event is a quit
/// line, the end of console input, or a console read error.
pub proof fn lemma_shutdown_exactly_once(events: Seq<LoopEvent>)
    ensures
        shutdown_count(actions_from(LoopState::Running, events)) <= 1,
        (exists|i: int| 0 <= i < events.len() && is_terminal_event(events[i])) ==> shutdown_count(
            actions_from(LoopState::Running, events),
        ) == 1,
    decreases events.len(),
{
    if events.len() != 0 {
        let first = events[0];
        let rest = events.skip(1);
        let actions = actions_from(LoopState::Running, events);
        assert(actions.skip(1) =~= actions_from(spec_step(LoopState::Running, first).0, rest));
        if is_terminal_event(first) {
            lemma_stopped_is_final(rest);
        } else {
            lemma_shutdown_exactly_once(rest);
            if exists|i: int| 0 <= i < events.len() && is_terminal_event(events[i]) {
                let i = choose|i: int| 0 <= i < events.len() && is_terminal_event(events[i]);
                assert(i != 0);
                assert(rest[i - 1] == events[i]);
            }
        }
    }
}

} // verus!
