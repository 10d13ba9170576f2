//! One poll of a server-polled daemon, and one work request of a daemon that
//! polls the server, as state machines: given what the last step reported, the
//! next step to perform. The caller performs each step (network requests,
//! storage) and reports back.

use vstd::prelude::*;

use crate::daemons::WorkRequestRejection;

verus! {

/// Where a poll stands: the step whose report it waits for.
#[derive(Clone, Copy, Debug, PartialEq, Eq, Structural)]
pub enum PollPhase {
    Begin,
    AwaitApiKey,
    AwaitStatus,
    AwaitUnreachableMark,
    AwaitProcessStatus,
    AwaitStartup,
    AwaitPlan,
    AwaitJobs,
    AwaitTelemetry,
    AwaitDiscovery,
    AwaitProgress,
    AwaitEntities,
    AwaitSendCreated,
    AwaitPendingWork,
    AwaitDiscoveryRequest,
    Done,
}

/// What a poll has learned so far.
#[derive(Clone, Copy, Debug, PartialEq, Eq, Structural)]
pub struct PollState {
    pub phase: PollPhase,
    /// The daemon has never been heard from: this poll assigns its identity.
    pub first_contact: bool,
    pub ready_for_work: bool,
    pub has_docker_socket: bool,
    /// The status reported a version other than the stored one.
    pub version_changed: bool,
    pub has_progress: bool,
    pub has_entities: bool,
}

/// How a poll ended.
#[derive(Clone, Copy, Debug, PartialEq, Eq, Structural)]
pub enum PollEnd {
    Completed,
    /// The daemon could not be reached or its key could not be loaded.
    Failed,
}

/// The next step of a poll.
#[derive(Clone, Copy, Debug, PartialEq, Eq, Structural)]
pub enum PollStep {
    /// A legacy daemon without the polling endpoints: nothing to do.
    Skip,
    LoadApiKey,
    /// Assign the daemon its server-side identity and get its status.
    SendFirstContact,
    PollStatus,
    MarkUnreachable,
    ProcessStatus,
    /// Record the newly reported version as a startup.
    ProcessStartup,
    /// Look up whether the daemon's organization is on the free plan.
    LoadPlan,
    CreateDefaultJobs { has_docker_socket: bool, free_plan: bool },
    EmitTelemetry,
    PollDiscovery,
    ProcessProgress,
    ProcessEntities,
    SendCreatedEntities,
    LoadPendingWork,
    SendDiscoveryRequest,
    Finish(PollEnd),
}

/// What the step just performed reported.
#[derive(Clone, Copy, Debug, PartialEq, Eq, Structural)]
pub enum PollEvent {
    Started { supports_full_server_poll: bool, first_contact: bool },
    ApiKeyLoaded { ok: bool },
    StatusReceived { ok: bool, ready_for_work: bool, has_docker_socket: bool, version_changed: bool },
    /// A step whose outcome does not change the course of the poll finished.
    StepDone,
    PlanLoaded { free_plan: bool },
    DiscoveryPolled { ok: bool, has_progress: bool, has_entities: bool },
    EntitiesProcessed { ok: bool },
    PendingWorkLoaded { present: bool },
}

/// The report each phase waits for.
pub open spec fn expects(phase: PollPhase, e: PollEvent) -> bool {
    match phase {
        PollPhase::Begin => e is Started,
        PollPhase::AwaitApiKey => e is ApiKeyLoaded,
        PollPhase::AwaitStatus => e is StatusReceived,
        PollPhase::AwaitPlan => e is PlanLoaded,
        PollPhase::AwaitDiscovery => e is DiscoveryPolled,
        PollPhase::AwaitEntities => e is EntitiesProcessed,
        PollPhase::AwaitPendingWork => e is PendingWorkLoaded,
        PollPhase::Done => false,
        _ => e is StepDone,
    }
}

pub open spec fn at(s: PollState, phase: PollPhase) -> PollState {
    PollState { phase, ..s }
}

/// After the reached daemon's status and version are recorded: first-contact
/// setup, or straight to discovery.
pub open spec fn after_status(s: PollState) -> (PollState, PollStep) {
    if s.first_contact {
        (at(s, PollPhase::AwaitPlan), PollStep::LoadPlan)
    } else {
        (at(s, PollPhase::AwaitDiscovery), PollStep::PollDiscovery)
    }
}

/// After discovery data is handled: fetch pending work if the daemon is ready
/// for it, else finish.
pub open spec fn pending_work(s: PollState) -> (PollState, PollStep) {
    if s.ready_for_work {
        (at(s, PollPhase::AwaitPendingWork), PollStep::LoadPendingWork)
    } else {
        (at(s, PollPhase::Done), PollStep::Finish(PollEnd::Completed))
    }
}

/// After progress is handled: process entities if any came, else go on.
pub open spec fn entities(s: PollState) -> (PollState, PollStep) {
    if s.has_entities {
        (at(s, PollPhase::AwaitEntities), PollStep::ProcessEntities)
    } else {
        pending_work(s)
    }
}

/// The poll's next state and step, given the report `e` the current phase waits for.
pub open spec fn transition(s: PollState, e: PollEvent) -> (PollState, PollStep) {
    match (s.phase, e) {
        (PollPhase::Begin, PollEvent::Started { supports_full_server_poll, first_contact }) => if !supports_full_server_poll {
            (at(s, PollPhase::Done), PollStep::Skip)
        } else {
            (PollState { phase: PollPhase::AwaitApiKey, first_contact, ..s }, PollStep::LoadApiKey)
        },
        (PollPhase::AwaitApiKey, PollEvent::ApiKeyLoaded { ok }) => if !ok {
            (at(s, PollPhase::Done), PollStep::Finish(PollEnd::Failed))
        } else if s.first_contact {
            (at(s, PollPhase::AwaitStatus), PollStep::SendFirstContact)
        } else {
            (at(s, PollPhase::AwaitStatus), PollStep::PollStatus)
        },
        (PollPhase::AwaitStatus, PollEvent::StatusReceived { ok, ready_for_work, has_docker_socket, version_changed }) => if !ok {
            (at(s, PollPhase::AwaitUnreachableMark), PollStep::MarkUnreachable)
        } else {
            (
                PollState { phase: PollPhase::AwaitProcessStatus, ready_for_work, has_docker_socket, version_changed, ..s },
                PollStep::ProcessStatus,
            )
        },
        (PollPhase::AwaitUnreachableMark, _) => (at(s, PollPhase::Done), PollStep::Finish(PollEnd::Failed)),
        (PollPhase::AwaitProcessStatus, _) => if s.version_changed {
            (at(s, PollPhase::AwaitStartup), PollStep::ProcessStartup)
        } else {
            after_status(s)
        },
        (PollPhase::AwaitStartup, _) => after_status(s),
        (PollPhase::AwaitPlan, PollEvent::PlanLoaded { free_plan }) => (
            at(s, PollPhase::AwaitJobs),
            PollStep::CreateDefaultJobs { has_docker_socket: s.has_docker_socket, free_plan },
        ),
        (PollPhase::AwaitJobs, _) => (at(s, PollPhase::AwaitTelemetry), PollStep::EmitTelemetry),
        (PollPhase::AwaitTelemetry, _) => (at(s, PollPhase::AwaitDiscovery), PollStep::PollDiscovery),
        (PollPhase::AwaitDiscovery, PollEvent::DiscoveryPolled { ok, has_progress, has_entities }) => if !ok {
            pending_work(s)
        } else {
            let t = PollState { has_progress, has_entities, ..s };
            if has_progress {
                (at(t, PollPhase::AwaitProgress), PollStep::ProcessProgress)
            } else {
                entities(t)
            }
        },
        (PollPhase::AwaitProgress, _) => entities(s),
        (PollPhase::AwaitEntities, PollEvent::EntitiesProcessed { ok }) => if ok {
            (at(s, PollPhase::AwaitSendCreated), PollStep::SendCreatedEntities)
        } else {
            pending_work(s)
        },
        (PollPhase::AwaitSendCreated, _) => pending_work(s),
        (PollPhase::AwaitPendingWork, PollEvent::PendingWorkLoaded { present }) => if present {
            (at(s, PollPhase::AwaitDiscoveryRequest), PollStep::SendDiscoveryRequest)
        } else {
            (at(s, PollPhase::Done), PollStep::Finish(PollEnd::Completed))
        },
        (PollPhase::AwaitDiscoveryRequest, _) => (at(s, PollPhase::Done), PollStep::Finish(PollEnd::Completed)),
        _ => (at(s, PollPhase::Done), PollStep::Finish(PollEnd::Failed)),
    }
}

/// Whether a poll in `phase` is waiting for an event of the kind `e` is.
pub fn expects_event(phase: PollPhase, e: PollEvent) -> (r: bool)
    ensures
        r == expects(phase, e),
{
    match phase {
        PollPhase::Begin => matches!(e, PollEvent::Started { .. }),
        PollPhase::AwaitApiKey => matches!(e, PollEvent::ApiKeyLoaded { .. }),
        PollPhase::AwaitStatus => matches!(e, PollEvent::StatusReceived { .. }),
        PollPhase::AwaitPlan => matches!(e, PollEvent::PlanLoaded { .. }),
        PollPhase::AwaitDiscovery => matches!(e, PollEvent::DiscoveryPolled { .. }),
        PollPhase::AwaitEntities => matches!(e, PollEvent::EntitiesProcessed { .. }),
        PollPhase::AwaitPendingWork => matches!(e, PollEvent::PendingWorkLoaded { .. }),
        PollPhase::Done => false,
        _ => matches!(e, PollEvent::StepDone),
    }
}

/// The state a poll starts in.
pub fn poll_start() -> (r: PollState)
    ensures
        r.phase == PollPhase::Begin,
        !r.first_contact && !r.ready_for_work && !r.has_docker_socket && !r.version_changed && !r.has_progress
            && !r.has_entities,
{
    PollState {
        phase: PollPhase::Begin,
        first_contact: false,
        ready_for_work: false,
        has_docker_socket: false,
        version_changed: false,
        has_progress: false,
        has_entities: false,
    }
}

fn step_at(s: PollState, phase: PollPhase) -> (r: PollState)
    ensures
        r == at(s, phase),
{
    PollState { phase, ..s }
}

fn finish_status(s: PollState) -> (r: (PollState, PollStep))
    ensures
        r == after_status(s),
{
    if s.first_contact {
        (step_at(s, PollPhase::AwaitPlan), PollStep::LoadPlan)
    } else {
        (step_at(s, PollPhase::AwaitDiscovery), PollStep::PollDiscovery)
    }
}

fn go_pending(s: PollState) -> (r: (PollState, PollStep))
    ensures
        r == pending_work(s),
{
    if s.ready_for_work {
        (step_at(s, PollPhase::AwaitPendingWork), PollStep::LoadPendingWork)
    } else {
        (step_at(s, PollPhase::Done), PollStep::Finish(PollEnd::Completed))
    }
}

fn go_entities(s: PollState) -> (r: (PollState, PollStep))
    ensures
        r == entities(s),
{
    if s.has_entities {
        (step_at(s, PollPhase::AwaitEntities), PollStep::ProcessEntities)
    } else {
        go_pending(s)
    }
}

/// The next state and step of a poll, given what the last step reported. A
/// legacy daemon is skipped; a key that cannot be loaded fails the poll; a
/// daemon that cannot be reached is marked unreachable and the poll fails; a
/// reached daemon's status (and a new version) is recorded, a first contact
/// sets up default discovery jobs and telemetry, discovery data is processed,
/// and pending work is sent only to a daemon that reports itself ready.
#[verifier::spinoff_prover]
pub fn poll_next(s: PollState, e: PollEvent) -> (r: (PollState, PollStep))
    requires
        expects(s.phase, e),
    ensures
        r == transition(s, e),
{
    match (s.phase, e) {
        (PollPhase::Begin, PollEvent::Started { supports_full_server_poll, first_contact }) => {
            if !supports_full_server_poll {
                (step_at(s, PollPhase::Done), PollStep::Skip)
            } else {
                (PollState { phase: PollPhase::AwaitApiKey, first_contact, ..s }, PollStep::LoadApiKey)
            }
        },
        (PollPhase::AwaitApiKey, PollEvent::ApiKeyLoaded { ok }) => {
            if !ok {
                (step_at(s, PollPhase::Done), PollStep::Finish(PollEnd::Failed))
            } else if s.first_contact {
                (step_at(s, PollPhase::AwaitStatus), PollStep::SendFirstContact)
            } else {
                (step_at(s, PollPhase::AwaitStatus), PollStep::PollStatus)
            }
        },
        (PollPhase::AwaitStatus, PollEvent::StatusReceived { ok, ready_for_work, has_docker_socket, version_changed }) => {
            if !ok {
                (step_at(s, PollPhase::AwaitUnreachableMark), PollStep::MarkUnreachable)
            } else {
                (
                    PollState { phase: PollPhase::AwaitProcessStatus, ready_for_work, has_docker_socket, version_changed, ..s },
                    PollStep::ProcessStatus,
                )
            }
        },
        (PollPhase::AwaitUnreachableMark, _) => (step_at(s, PollPhase::Done), PollStep::Finish(PollEnd::Failed)),
        (PollPhase::AwaitProcessStatus, _) => {
            if s.version_changed {
                (step_at(s, PollPhase::AwaitStartup), PollStep::ProcessStartup)
            } else {
                finish_status(s)
            }
        },
        (PollPhase::AwaitStartup, _) => finish_status(s),
        (PollPhase::AwaitPlan, PollEvent::PlanLoaded { free_plan }) => (
            step_at(s, PollPhase::AwaitJobs),
            PollStep::CreateDefaultJobs { has_docker_socket: s.has_docker_socket, free_plan },
        ),
        (PollPhase::AwaitJobs, _) => (step_at(s, PollPhase::AwaitTelemetry), PollStep::EmitTelemetry),
        (PollPhase::AwaitTelemetry, _) => (step_at(s, PollPhase::AwaitDiscovery), PollStep::PollDiscovery),
        (PollPhase::AwaitDiscovery, PollEvent::DiscoveryPolled { ok, has_progress, has_entities }) => {
            if !ok {
                go_pending(s)
            } else {
                let t = PollState { has_progress, has_entities, ..s };
                if has_progress {
                    (step_at(t, PollPhase::AwaitProgress), PollStep::ProcessProgress)
                } else {
                    go_entities(t)
                }
            }
        },
        (PollPhase::AwaitProgress, _) => go_entities(s),
        (PollPhase::AwaitEntities, PollEvent::EntitiesProcessed { ok }) => {
            if ok {
                (step_at(s, PollPhase::AwaitSendCreated), PollStep::SendCreatedEntities)
            } else {
                go_pending(s)
            }
        },
        (PollPhase::AwaitSendCreated, _) => go_pending(s),
        (PollPhase::AwaitPendingWork, PollEvent::PendingWorkLoaded { present }) => {
            if present {
                (step_at(s, PollPhase::AwaitDiscoveryRequest), PollStep::SendDiscoveryRequest)
            } else {
                (step_at(s, PollPhase::Done), PollStep::Finish(PollEnd::Completed))
            }
        },
        (PollPhase::AwaitDiscoveryRequest, _) => (step_at(s, PollPhase::Done), PollStep::Finish(PollEnd::Completed)),
        _ => (step_at(s, PollPhase::Done), PollStep::Finish(PollEnd::Failed)),
    }
}


// ---------------------------------------------------------------------------
// A work request from a daemon that polls the server
// ---------------------------------------------------------------------------

/// Where a work request stands: the step whose report it waits for.
#[derive(Clone, Copy, Debug, PartialEq, Eq, Structural)]
pub enum WorkPhase {
    Begin,
    AwaitStatusProcessed,
    AwaitPendingWork,
    AwaitCancellation,
    Done,
}

/// A work request in progress: its phase, whether the daemon reported itself
/// ready for work, and whether pending work was found for it.
#[derive(Clone, Copy, Debug, PartialEq, Eq, Structural)]
pub struct WorkState {
    pub phase: WorkPhase,
    pub ready_for_work: bool,
    pub has_work: bool,
}

/// What the caller does next for a work request.
#[derive(Clone, Copy, Debug, PartialEq, Eq, Structural)]
pub enum WorkStep {
    /// Answer with this refusal; nothing else is done.
    Refuse(WorkRequestRejection),
    /// Record the daemon's status report.
    ProcessStatus,
    /// Fetch (and claim) the daemon's pending discovery work.
    LoadPendingWork,
    /// Fetch the daemon's pending cancellation.
    LoadCancellation,
    /// Answer with the work found (if `work`) and the cancellation found (if `cancellation`).
    Reply { work: bool, cancellation: bool },
}

/// What the last step of a work request reported.
#[derive(Clone, Copy, Debug, PartialEq, Eq, Structural)]
pub enum WorkEvent {
    /// `work_request_gate` ran on the daemon's record; `refused` holds its refusal, if any.
    Checked { refused: Option<WorkRequestRejection> },
    StatusProcessed,
    PendingWorkLoaded { present: bool },
    CancellationLoaded { present: bool },
}

/// Whether a work request in `phase` waits for an event of the kind `e` is.
pub open spec fn work_expects(phase: WorkPhase, e: WorkEvent) -> bool {
    match phase {
        WorkPhase::Begin => e is Checked,
        WorkPhase::AwaitStatusProcessed => e is StatusProcessed,
        WorkPhase::AwaitPendingWork => e is PendingWorkLoaded,
        WorkPhase::AwaitCancellation => e is CancellationLoaded,
        WorkPhase::Done => false,
    }
}

/// The next state and step of a work request: a refused request ends there;
/// otherwise the status is recorded, pending work is fetched only for a daemon
/// ready for work, the pending cancellation is always fetched, and the reply
/// carries what was found.
pub open spec fn work_transition(s: WorkState, e: WorkEvent) -> (WorkState, WorkStep) {
    match (s.phase, e) {
        (WorkPhase::Begin, WorkEvent::Checked { refused: Some(r) }) => (WorkState { phase: WorkPhase::Done, ..s }, WorkStep::Refuse(r)),
        (WorkPhase::Begin, WorkEvent::Checked { refused: None }) => (
            WorkState { phase: WorkPhase::AwaitStatusProcessed, ..s },
            WorkStep::ProcessStatus,
        ),
        (WorkPhase::AwaitStatusProcessed, _) => if s.ready_for_work {
            (WorkState { phase: WorkPhase::AwaitPendingWork, ..s }, WorkStep::LoadPendingWork)
        } else {
            (WorkState { phase: WorkPhase::AwaitCancellation, ..s }, WorkStep::LoadCancellation)
        },
        (WorkPhase::AwaitPendingWork, WorkEvent::PendingWorkLoaded { present }) => (
            WorkState { phase: WorkPhase::AwaitCancellation, has_work: present, ..s },
            WorkStep::LoadCancellation,
        ),
        (WorkPhase::AwaitCancellation, WorkEvent::CancellationLoaded { present }) => (
            WorkState { phase: WorkPhase::Done, ..s },
            WorkStep::Reply { work: s.has_work, cancellation: present },
        ),
        _ => (WorkState { phase: WorkPhase::Done, ..s }, WorkStep::Reply { work: false, cancellation: false }),
    }
}

/// The state a work request starts in, for a daemon reporting `ready_for_work`.
pub fn work_start(ready_for_work: bool) -> (r: WorkState)
    ensures
        r == (WorkState { phase: WorkPhase::Begin, ready_for_work, has_work: false }),
{
    WorkState { phase: WorkPhase::Begin, ready_for_work, has_work: false }
}

/// Whether a work request in `phase` waits for an event of the kind `e` is.
pub fn work_expects_event(phase: WorkPhase, e: WorkEvent) -> (r: bool)
    ensures
        r == work_expects(phase, e),
{
    match phase {
        WorkPhase::Begin => matches!(e, WorkEvent::Checked { .. }),
        WorkPhase::AwaitStatusProcessed => matches!(e, WorkEvent::StatusProcessed),
        WorkPhase::AwaitPendingWork => matches!(e, WorkEvent::PendingWorkLoaded { .. }),
        WorkPhase::AwaitCancellation => matches!(e, WorkEvent::CancellationLoaded { .. }),
        WorkPhase::Done => false,
    }
}

/// The next state and step of a work request, given what the last step reported.
pub fn work_next(s: WorkState, e: WorkEvent) -> (r: (WorkState, WorkStep))
    requires
        work_expects(s.phase, e),
    ensures
        r == work_transition(s, e),
{
    match (s.phase, e) {
        (WorkPhase::Begin, WorkEvent::Checked { refused: Some(r) }) => (WorkState { phase: WorkPhase::Done, ..s }, WorkStep::Refuse(r)),
        (WorkPhase::Begin, WorkEvent::Checked { refused: None }) => (
            WorkState { phase: WorkPhase::AwaitStatusProcessed, ..s },
            WorkStep::ProcessStatus,
        ),
        (WorkPhase::AwaitStatusProcessed, _) => if s.ready_for_work {
            (WorkState { phase: WorkPhase::AwaitPendingWork, ..s }, WorkStep::LoadPendingWork)
        } else {
            (WorkState { phase: WorkPhase::AwaitCancellation, ..s }, WorkStep::LoadCancellation)
        },
        (WorkPhase::AwaitPendingWork, WorkEvent::PendingWorkLoaded { present }) => (
            WorkState { phase: WorkPhase::AwaitCancellation, has_work: present, ..s },
            WorkStep::LoadCancellation,
        ),
        (WorkPhase::AwaitCancellation, WorkEvent::CancellationLoaded { present }) => (
            WorkState { phase: WorkPhase::Done, ..s },
            WorkStep::Reply { work: s.has_work, cancellation: present },
        ),
        _ => (WorkState { phase: WorkPhase::Done, ..s }, WorkStep::Reply { work: false, cancellation: false }),
    }
}

} // verus!
