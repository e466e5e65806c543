use vstd::prelude::*;

verus! {

/// The ways start-up can end early, in the order of the steps that raise
/// them. The first three arise while acquiring the adapter.
#[derive(Debug, Clone, Copy, PartialEq, Eq)]
pub enum StartupError {
    /// The session to the Bluetooth daemon could not be opened.
    DaemonUnreachable,
    /// The daemon reports no default controller.
    NoAdapterFound,
    /// The daemon refused to power the controller on.
    PowerOnDenied,
    /// The daemon rejected the attribute tree.
    RegistrationRejected,
    /// The daemon rejected the advertisement or has no free slot.
    AdvertisementRejected,
}

/// The daemon interactions of start-up, in the order they are attempted.
#[derive(Debug, Clone, Copy, PartialEq, Eq)]
pub enum StartupStep {
    OpenSession,
    SelectAdapter,
    PowerOn,
    RegisterApplication,
    StartAdvertising,
}

/// Where start-up stands: which interaction is owed next, or that the
/// peripheral is ready, or that start-up failed. Failure is terminal: no
/// retry is attempted anywhere.
#[derive(Debug, Clone, Copy, PartialEq, Eq)]
pub enum StartupPhase {
    NeedSession,
    NeedAdapter,
    NeedPower,
    NeedRegistration,
    NeedAdvertisement,
    Ready,
    Failed(StartupError),
}

/// The daemon interaction a phase calls for, if any. `Ready` and `Failed`
/// call for none.
pub open spec fn spec_pending_step(phase: StartupPhase) -> Option<StartupStep> {
    match phase {
        StartupPhase::NeedSession => Some(StartupStep::OpenSession),
        StartupPhase::NeedAdapter => Some(StartupStep::SelectAdapter),
        StartupPhase::NeedPower => Some(StartupStep::PowerOn),
        StartupPhase::NeedRegistration => Some(StartupStep::RegisterApplication),
        StartupPhase::NeedAdvertisement => Some(StartupStep::StartAdvertising),
        StartupPhase::Ready => None,
        StartupPhase::Failed(_) => None,
    }
}

/// The error a step raises when the daemon refuses it.
pub open spec fn spec_error_of(step: StartupStep) -> StartupError {
    match step {
        StartupStep::OpenSession => StartupError::DaemonUnreachable,
        StartupStep::SelectAdapter => StartupError::NoAdapterFound,
        StartupStep::PowerOn => StartupError::PowerOnDenied,
        StartupStep::RegisterApplication => StartupError::RegistrationRejected,
        StartupStep::StartAdvertising => StartupError::AdvertisementRejected,
    }
}

/// The phase after the pending interaction has been attempted: the next
/// phase in order on success, the matching terminal failure otherwise. A
/// phase with nothing pending is unchanged.
pub open spec fn spec_advance(phase: StartupPhase, succeeded: bool) -> StartupPhase {
    match spec_pending_step(phase) {
        None => phase,
        Some(step) => if !succeeded {
            StartupPhase::Failed(spec_error_of(step))
        } else {
            match phase {
                StartupPhase::NeedSession => StartupPhase::NeedAdapter,
                StartupPhase::NeedAdapter => StartupPhase::NeedPower,
                StartupPhase::NeedPower => StartupPhase::NeedRegistration,
                StartupPhase::NeedRegistration => StartupPhase::NeedAdvertisement,
                StartupPhase::NeedAdvertisement => StartupPhase::Ready,
                _ => phase,
            }
        },
    }
}

impl StartupPhase {
    /// The daemon interaction this phase calls for, if any.
    pub fn pending_step(&self) -> (r: Option<StartupStep>)
        ensures
            r == spec_pending_step(*self),
    {
        match self {
            StartupPhase::NeedSession => Some(StartupStep::OpenSession),
            StartupPhase::NeedAdapter => Some(StartupStep::SelectAdapter),
            StartupPhase::NeedPower => Some(StartupStep::PowerOn),
            StartupPhase::NeedRegistration => Some(StartupStep::RegisterApplication),
            StartupPhase::NeedAdvertisement => Some(StartupStep::StartAdvertising),
            StartupPhase::Ready => None,
            StartupPhase::Failed(_) => None,
        }
    }

    /// Advances start-up after the pending interaction was attempted.
    pub fn advance(self, succeeded: bool) -> (r: StartupPhase)
        ensures
            r == spec_advance(self, succeeded),
    {
        match self {
            StartupPhase::NeedSession => if succeeded {
                StartupPhase::NeedAdapter
            } else {
                StartupPhase::Failed(StartupError::DaemonUnreachable)
            },
            StartupPhase::NeedAdapter => if succeeded {
                StartupPhase::NeedPower
            } else {
                StartupPhase::Failed(StartupError::NoAdapterFound)
            },
            StartupPhase::NeedPower => if succeeded {
                StartupPhase::NeedRegistration
            } else {
                StartupPhase::Failed(StartupError::PowerOnDenied)
            },
            StartupPhase::NeedRegistration => if succeeded {
                StartupPhase::NeedAdvertisement
            } else {
                StartupPhase::Failed(StartupError::RegistrationRejected)
            },
            StartupPhase::NeedAdvertisement => if succeeded {
                StartupPhase::Ready
            } else {
                StartupPhase::Failed(StartupError::AdvertisementRejected)
            },
            StartupPhase::Ready => StartupPhase::Ready,
            StartupPhase::Failed(e) => StartupPhase::Failed(e),
        }
    }
}

/// The final phase and the interactions attempted, in order, when
/// start-up consumes a sequence of outcomes (one per attempted step,
/// `true` for success) from a given phase on.
pub open spec fn startup_trace(phase: StartupPhase, outcomes: Seq<bool>) -> (
    StartupPhase,
    Seq<StartupStep>,
)
    decreases outcomes.len(),
{
    if outcomes.len() == 0 || spec_pending_step(phase) is None {
        (phase, Seq::empty())
    } else {
        let step = spec_pending_step(phase)->0;
        let rest = startup_trace(spec_advance(phase, outcomes[0]), outcomes.skip(1));
        (rest.0, seq![step] + rest.1)
    }
}

/// A failed phase is terminal: it calls for no interaction, so nothing
/// further is attempted from it.
pub proof fn lemma_failure_is_final(error: StartupError, outcomes: Seq<bool>)
    ensures
        startup_trace(StartupPhase::Failed(error), outcomes) == (
            StartupPhase::Failed(error),
            Seq::<StartupStep>::empty(),
        ),
{
}

/// Start-up failure propagation: when adapter acquisition fails — the
/// session, the adapter selection, or powering on is refused before
/// anything else went wrong — start-up ends in the matching failure and
/// the daemon is never asked to register the application, nor to start
/// advertising.
pub proof fn lemma_acquisition_failure_precludes_registration(outcomes: Seq<bool>, i: int)
    requires
        0 <= i < outcomes.len(),
        i < 3,
        !outcomes[i],
        forall|j: int| 0 <= j < i ==> outcomes[j],
    ensures
        startup_trace(StartupPhase::NeedSession, outcomes).0 matches StartupPhase::Failed(e)
            && (e == StartupError::DaemonUnreachable || e == StartupError::NoAdapterFound
            || e == StartupError::PowerOnDenied),
        !startup_trace(StartupPhase::NeedSession, outcomes).1.contains(
            StartupStep::RegisterApplication,
        ),
        !startup_trace(StartupPhase::NeedSession, outcomes).1.contains(
            StartupStep::StartAdvertising,
        ),
{
    let trace = startup_trace(StartupPhase::NeedSession, outcomes);
    let o1 = outcomes.skip(1);
    let o2 = o1.skip(1);
    let o3 = o2.skip(1);
    if i == 0 {
        lemma_failure_is_final(StartupError::DaemonUnreachable, o1);
        assert(trace.1 =~= seq![StartupStep::OpenSession]);
    } else if i == 1 {
        assert(o1[0] == outcomes[1]);
        let t1 = startup_trace(StartupPhase::NeedAdapter, o1);
        assert(trace == (t1.0, seq![StartupStep::OpenSession] + t1.1));
        lemma_failure_is_final(StartupError::NoAdapterFound, o2);
        assert(t1 == (
            StartupPhase::Failed(StartupError::NoAdapterFound),
            seq![StartupStep::SelectAdapter] + Seq::<StartupStep>::empty(),
        ));
        assert(trace.1 =~= seq![StartupStep::OpenSession, StartupStep::SelectAdapter]);
    } else {
        assert(outcomes[0] && outcomes[1] && !outcomes[2]);
        assert(o1[0] == outcomes[1]);
        assert(o2[0] == o1[1] && o1[1] == outcomes[2]);
        let t1 = startup_trace(StartupPhase::NeedAdapter, o1);
        let t2 = startup_trace(StartupPhase::NeedPower, o2);
        assert(trace == (t1.0, seq![StartupStep::OpenSession] + t1.1));
        assert(t1 == (t2.0, seq![StartupStep::SelectAdapter] + t2.1));
        lemma_failure_is_final(StartupError::PowerOnDenied, o3);
        assert(t2 == (
            StartupPhase::Failed(StartupError::PowerOnDenied),
            seq![StartupStep::PowerOn] + Seq::<StartupStep>::empty(),
        ));
        assert(trace.1 =~= seq![
            StartupStep::OpenSession,
            StartupStep::SelectAdapter,
            StartupStep::PowerOn,
        ]);
    }
}

} // verus!
