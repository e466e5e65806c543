use ble_peripheral::startup::StartupError;
use ble_peripheral::startup::StartupPhase;
use ble_peripheral::startup::StartupStep;

/// Drives start-up as the surrounding runtime would, recording the steps
/// that were actually attempted; `fail_at` makes that step's interaction
/// fail.
fn drive(fail_at: Option<StartupStep>) -> (StartupPhase, Vec<StartupStep>) {
    let mut phase = StartupPhase::NeedSession;
    let mut attempted: Vec<StartupStep> = Vec::new();
    while let Some(pending) = phase.pending_step() {
        attempted.push(pending);
        let succeeded = fail_at != Some(pending);
        phase = phase.advance(succeeded);
    }
    (phase, attempted)
}

#[test]
fn startup_happy_path_reaches_ready() {
    let (phase, attempted) = drive(None);
    assert_eq!(phase, StartupPhase::Ready);
    assert_eq!(
        attempted,
        vec![
            StartupStep::OpenSession,
            StartupStep::SelectAdapter,
            StartupStep::PowerOn,
            StartupStep::RegisterApplication,
            StartupStep::StartAdvertising,
        ]
    );
}

#[test]
fn daemon_unreachable_ends_startup() {
    let (phase, attempted) = drive(Some(StartupStep::OpenSession));
    assert_eq!(phase, StartupPhase::Failed(StartupError::DaemonUnreachable));
    assert_eq!(attempted, vec![StartupStep::OpenSession]);
}

#[test]
fn no_adapter_precludes_registration() {
    let (phase, attempted) = drive(Some(StartupStep::SelectAdapter));
    assert_eq!(phase, StartupPhase::Failed(StartupError::NoAdapterFound));
    assert_eq!(attempted, vec![StartupStep::OpenSession, StartupStep::SelectAdapter]);
    assert!(!attempted.contains(&StartupStep::RegisterApplication));
    assert!(!attempted.contains(&StartupStep::StartAdvertising));
}

#[test]
fn power_on_denied_precludes_registration() {
    let (phase, attempted) = drive(Some(StartupStep::PowerOn));
    assert_eq!(phase, StartupPhase::Failed(StartupError::PowerOnDenied));
    assert!(!attempted.contains(&StartupStep::RegisterApplication));
    assert!(!attempted.contains(&StartupStep::StartAdvertising));
}

#[test]
fn registration_rejection_ends_startup() {
    let (phase, attempted) = drive(Some(StartupStep::RegisterApplication));
    assert_eq!(phase, StartupPhase::Failed(StartupError::RegistrationRejected));
    assert!(!attempted.contains(&StartupStep::StartAdvertising));
}

#[test]
fn advertisement_rejection_ends_startup() {
    let (phase, _) = drive(Some(StartupStep::StartAdvertising));
    assert_eq!(phase, StartupPhase::Failed(StartupError::AdvertisementRejected));
}

#[test]
fn failed_phase_is_terminal() {
    let phase = StartupPhase::Failed(StartupError::NoAdapterFound);
    assert_eq!(phase.pending_step(), None);
    assert_eq!(phase.advance(true), phase);
    assert_eq!(phase.advance(false), phase);
}

#[test]
fn ready_phase_is_terminal() {
    let phase = StartupPhase::Ready;
    assert_eq!(phase.pending_step(), None);
    assert_eq!(phase.advance(true), StartupPhase::Ready);
}
