use ble_peripheral::run_loop::is_quit;
use ble_peripheral::run_loop::step;
use ble_peripheral::run_loop::AdapterNotice;
use ble_peripheral::run_loop::ConsoleNotice;
use ble_peripheral::run_loop::LoopAction;
use ble_peripheral::run_loop::LoopEvent;
use ble_peripheral::run_loop::LoopState;
use ble_peripheral::run_loop::StopReason;

fn line(text: &str) -> LoopEvent {
    LoopEvent::Console(ConsoleNotice::Line(text.to_owned()))
}

#[test]
fn quit_plain() {
    assert!(is_quit("q"));
}

#[test]
fn quit_with_surrounding_spaces() {
    assert!(is_quit(" q "));
}

#[test]
fn quit_with_trailing_newline() {
    assert!(is_quit("q\n"));
}

#[test]
fn uppercase_is_not_quit() {
    assert!(!is_quit("Q"));
}

#[test]
fn quit_word_is_not_quit() {
    assert!(!is_quit("quit"));
}

#[test]
fn empty_line_is_not_quit() {
    assert!(!is_quit(""));
}

#[test]
fn quit_line_stops_loop() {
    let (state, action) = step(LoopState::Running, line("q"));
    assert_eq!(state, LoopState::Stopped);
    assert_eq!(action, LoopAction::ShutDown { reason: StopReason::QuitCommand });
}

#[test]
fn padded_quit_line_stops_loop() {
    let (state, action) = step(LoopState::Running, line(" q "));
    assert_eq!(state, LoopState::Stopped);
    assert_eq!(action, LoopAction::ShutDown { reason: StopReason::QuitCommand });
}

#[test]
fn other_line_prompts_and_keeps_running() {
    let (state, action) = step(LoopState::Running, line("help"));
    assert_eq!(state, LoopState::Running);
    assert_eq!(action, LoopAction::PromptQuit);
}

#[test]
fn empty_line_keeps_running() {
    let (state, action) = step(LoopState::Running, line(""));
    assert_eq!(state, LoopState::Running);
    assert_eq!(action, LoopAction::PromptQuit);
}

#[test]
fn end_of_input_stops_loop() {
    let (state, action) = step(LoopState::Running, LoopEvent::Console(ConsoleNotice::Closed));
    assert_eq!(state, LoopState::Stopped);
    assert_eq!(action, LoopAction::ShutDown { reason: StopReason::EndOfInput });
}

#[test]
fn console_read_error_stops_loop() {
    let (state, action) = step(LoopState::Running, LoopEvent::Console(ConsoleNotice::ReadError));
    assert_eq!(state, LoopState::Stopped);
    assert_eq!(action, LoopAction::ShutDown { reason: StopReason::ConsoleError });
}

#[test]
fn device_added_is_logged() {
    let event = LoopEvent::Adapter(AdapterNotice::DeviceAdded { address: "AA:BB:CC:DD:EE:FF".to_owned() });
    let (state, action) = step(LoopState::Running, event);
    assert_eq!(state, LoopState::Running);
    assert_eq!(action, LoopAction::NoteDeviceAdded { address: "AA:BB:CC:DD:EE:FF".to_owned() });
}

#[test]
fn device_removed_is_logged() {
    let event = LoopEvent::Adapter(AdapterNotice::DeviceRemoved { address: "AA:BB:CC:DD:EE:FF".to_owned() });
    let (state, action) = step(LoopState::Running, event);
    assert_eq!(state, LoopState::Running);
    assert_eq!(action, LoopAction::NoteDeviceRemoved { address: "AA:BB:CC:DD:EE:FF".to_owned() });
}

#[test]
fn other_adapter_event_is_ignored() {
    let (state, action) = step(LoopState::Running, LoopEvent::Adapter(AdapterNotice::Other));
    assert_eq!(state, LoopState::Running);
    assert_eq!(action, LoopAction::Ignore);
}

#[test]
fn stream_error_is_not_fatal() {
    let (state, action) = step(LoopState::Running, LoopEvent::Adapter(AdapterNotice::StreamError));
    assert_eq!(state, LoopState::Running);
    assert_eq!(action, LoopAction::NoteStreamError);

    let after = step(state, LoopEvent::Adapter(AdapterNotice::DeviceAdded { address: "AA".to_owned() }));
    assert_eq!(after.0, LoopState::Running);
    assert_eq!(after.1, LoopAction::NoteDeviceAdded { address: "AA".to_owned() });
    let later = step(after.0, line("still here"));
    assert_eq!(later.0, LoopState::Running);
    assert_eq!(later.1, LoopAction::PromptQuit);
}

#[test]
fn stopped_loop_ignores_further_events() {
    let (state, action) = step(LoopState::Stopped, line("q"));
    assert_eq!(state, LoopState::Stopped);
    assert_eq!(action, LoopAction::Ignore);
}

#[test]
fn registration_released_exactly_once_on_quit() {
    let events = vec![
        line("hello"),
        LoopEvent::Adapter(AdapterNotice::DeviceAdded { address: "AA".to_owned() }),
        LoopEvent::Adapter(AdapterNotice::StreamError),
        line(" q "),
        line("q"),
        LoopEvent::Console(ConsoleNotice::Closed),
    ];
    let mut state = LoopState::Running;
    let mut releases = 0u32;
    for event in events {
        let (next, action) = step(state, event);
        state = next;
        if matches!(action, LoopAction::ShutDown { .. }) {
            releases += 1;
        }
    }
    assert_eq!(state, LoopState::Stopped);
    assert_eq!(releases, 1);
}
