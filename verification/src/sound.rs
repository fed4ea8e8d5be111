//! The endpoint period controller: which period an endpoint's shared-mode
//! engine is switched to, and the protocol a worker follows to get there.

use crate::selector::{Direction, EndpointSelector, Role};
use vstd::prelude::*;

verus! {

/// Snapshot of an endpoint's native mix format. It is handed to stream
/// initialisation as it was read.
#[derive(Clone, Copy, Debug, PartialEq, Eq)]
pub struct MixFormat {
    pub channel_count: u16,
    pub bits_per_sample: u16,
    pub samples_per_second: u32,
    pub average_bytes_per_second: u32,
}

/// The shared-mode periods an engine reports for one format, in frames at the
/// native sample rate.
#[derive(Clone, Copy, Debug, PartialEq, Eq)]
pub struct EnginePeriodRange {
    pub default_frames: u32,
    pub fundamental_frames: u32,
    pub min_frames: u32,
    pub max_frames: u32,
}

/// What a worker does with an endpoint once its period range is known.
#[derive(Clone, Copy, Debug, PartialEq, Eq)]
pub enum PeriodDecision {
    /// The engine already runs at its smallest period: nothing to initialise.
    NoChange,
    /// Initialise the shared stream at this many frames.
    Initialize { frames: u32 },
}

impl EnginePeriodRange {
    /// A range as an engine is expected to report it: the default lies between
    /// the minimum and the maximum.
    pub open spec fn well_formed(self) -> bool {
        self.min_frames <= self.default_frames <= self.max_frames
    }

    /// Whether the range is as an engine is expected to report it.
    pub fn is_well_formed(&self) -> (ok: bool)
        ensures
            ok == self.well_formed(),
    {
        self.min_frames <= self.default_frames && self.default_frames <= self.max_frames
    }
}

/// The period rule: an explicit period is taken verbatim; without one the
/// engine's minimum is the target, unless it does not undercut the default.
pub open spec fn period_decision(range: EnginePeriodRange, explicit: Option<u32>) -> PeriodDecision {
    match explicit {
        Some(frames) => PeriodDecision::Initialize { frames },
        None => if range.min_frames >= range.default_frames {
            PeriodDecision::NoChange
        } else {
            PeriodDecision::Initialize { frames: range.min_frames }
        },
    }
}

/// Decides the target period of an endpoint from the range its engine
/// reported and the period the selector asked for, if any.
pub fn decide_period(range: &EnginePeriodRange, explicit: Option<u32>) -> (decision: PeriodDecision)
    ensures
        decision == period_decision(*range, explicit),
{
    match explicit {
        Some(frames) => PeriodDecision::Initialize { frames },
        None => {
            if range.min_frames >= range.default_frames {
                PeriodDecision::NoChange
            } else {
                PeriodDecision::Initialize { frames: range.min_frames }
            }
        },
    }
}

/// Without an explicit period the decision depends on the range alone: it is
/// the engine's minimum exactly when that undercuts the default, and no
/// change otherwise. Deciding twice on one range decides the same.
pub proof fn lemma_automatic_period(range: EnginePeriodRange)
    ensures
        range.min_frames < range.default_frames ==> period_decision(range, None)
            == (PeriodDecision::Initialize { frames: range.min_frames }),
        range.min_frames >= range.default_frames ==> period_decision(range, None)
            == PeriodDecision::NoChange,
        period_decision(range, None) == period_decision(range, None),
{
}

/// An explicit period overrides whatever the engine reported; it is neither
/// clamped to the range nor compared with the default.
pub proof fn lemma_explicit_period_overrides(range: EnginePeriodRange, frames: u32)
    ensures
        period_decision(range, Some(frames)) == (PeriodDecision::Initialize { frames }),
{
}

/// Why a worker gave up on an endpoint that it had found.
#[derive(Clone, Copy, Debug, PartialEq, Eq)]
pub enum Fault {
    /// The device enumerator could not be created.
    EnumeratorUnavailable,
    /// No client interface could be activated on the endpoint.
    ActivationFailed,
    /// The endpoint's mix format could not be read.
    MixFormatUnavailable,
    /// The engine did not report its period range.
    PeriodRangeUnavailable,
    /// The engine rejected the stream at the target period.
    InitializeFailed,
    /// The initialised stream did not start.
    StartFailed,
    /// An outcome arrived that does not answer the request last made.
    UnexpectedEvent,
}

/// The one message a worker sends on the readiness channel.
#[derive(Clone, Copy, Debug, PartialEq, Eq)]
pub enum Readiness {
    /// The stream runs at `frames` and is held open.
    StreamStarted { frames: u32 },
    /// The engine already runs at its smallest period; no stream is held.
    NoChangeNeeded,
    /// There is no default endpoint for the selector. Only this worker stops.
    EndpointUnavailable,
    /// The endpoint was found and could not be tuned. The process halts.
    Fatal { fault: Fault },
}

/// Where a worker stands in the protocol.
#[derive(Clone, Copy, Debug, PartialEq, Eq)]
pub enum WorkerState {
    Start { selector: EndpointSelector },
    ResolvingEndpoint { explicit: Option<u32> },
    ActivatingClient { explicit: Option<u32> },
    ReadingFormat { explicit: Option<u32> },
    QueryingPeriod { explicit: Option<u32>, format: MixFormat },
    Initializing { frames: u32 },
    Starting { frames: u32 },
    /// Final: the stream is held at `frames` for the rest of the process.
    Holding { frames: u32 },
    /// Final: the worker is done and holds no stream.
    Stopped,
    /// Final: the process is to halt.
    Aborted { fault: Fault },
}

/// What the audio subsystem answered to the request last made.
#[derive(Clone, Copy, Debug, PartialEq, Eq)]
pub enum WorkerEvent {
    /// Nothing was requested yet.
    Begin,
    EnumeratorFailed,
    EndpointResolved { found: bool },
    ClientActivated { ok: bool },
    MixFormatRead { format: Option<MixFormat> },
    PeriodRangeRead { range: Option<EnginePeriodRange> },
    StreamInitialized { ok: bool },
    StreamStarted { ok: bool },
}

/// What the worker asks of its surroundings next.
#[derive(Clone, Copy, Debug, PartialEq, Eq)]
pub enum WorkerAction {
    /// Find the default endpoint of this direction and role.
    ResolveEndpoint { direction: Direction, role: Role },
    /// Activate a client interface on the endpoint.
    ActivateClient,
    /// Read the endpoint's native mix format.
    ReadMixFormat,
    /// Ask the engine for its shared-mode period range for this format.
    QueryEnginePeriod { format: MixFormat },
    /// Initialise the shared stream at `frames` with this format, without a
    /// session identifier and without stream flags.
    InitializeStream { frames: u32, format: MixFormat },
    /// Start the initialised stream.
    StartStream,
    /// Send this message on the readiness channel. The state that comes with
    /// it is final.
    Report { readiness: Readiness },
    /// Nothing: the worker had finished before.
    Idle,
}

/// One move of a worker: the state it enters and what it asks for.
#[derive(Clone, Copy, Debug, PartialEq, Eq)]
pub struct WorkerStep {
    pub next: WorkerState,
    pub action: WorkerAction,
}

impl WorkerState {
    /// A final state: the worker has reported and asks for nothing more.
    pub open spec fn is_final(self) -> bool {
        self is Holding || self is Stopped || self is Aborted
    }

    /// Whether the worker has reported and asks for nothing more.
    pub fn is_finished(&self) -> (finished: bool)
        ensures
            finished == self.is_final(),
    {
        match self {
            WorkerState::Holding { .. } => true,
            WorkerState::Stopped => true,
            WorkerState::Aborted { .. } => true,
            _ => false,
        }
    }

    /// The largest number of moves a worker in this state still makes.
    pub open spec fn moves_left(self) -> nat {
        match self {
            WorkerState::Start { .. } => 7,
            WorkerState::ResolvingEndpoint { .. } => 6,
            WorkerState::ActivatingClient { .. } => 5,
            WorkerState::ReadingFormat { .. } => 4,
            WorkerState::QueryingPeriod { .. } => 3,
            WorkerState::Initializing { .. } => 2,
            WorkerState::Starting { .. } => 1,
            WorkerState::Holding { .. } => 0,
            WorkerState::Stopped => 0,
            WorkerState::Aborted { .. } => 0,
        }
    }
}

impl Readiness {
    /// Whether the message counts as success at the barrier: the stream
    /// started, or there was nothing to change.
    pub open spec fn is_success(self) -> bool {
        self is StreamStarted || self is NoChangeNeeded
    }

    /// Whether the message counts as success at the barrier.
    pub fn succeeded(&self) -> (ok: bool)
        ensures
            ok == self.is_success(),
    {
        match self {
            Readiness::StreamStarted { .. } => true,
            Readiness::NoChangeNeeded => true,
            _ => false,
        }
    }
}

/// The move that ends a worker with `fault`.
pub open spec fn abort_step(fault: Fault) -> WorkerStep {
    WorkerStep {
        next: WorkerState::Aborted { fault },
        action: WorkerAction::Report { readiness: Readiness::Fatal { fault } },
    }
}

/// The move that follows the engine's period range: initialise at the
/// decided period, or report that nothing needs to change.
pub open spec fn period_step(
    range: EnginePeriodRange,
    explicit: Option<u32>,
    format: MixFormat,
) -> WorkerStep {
    match period_decision(range, explicit) {
        PeriodDecision::NoChange => WorkerStep {
            next: WorkerState::Stopped,
            action: WorkerAction::Report { readiness: Readiness::NoChangeNeeded },
        },
        PeriodDecision::Initialize { frames } => WorkerStep {
            next: WorkerState::Initializing { frames },
            action: WorkerAction::InitializeStream { frames, format },
        },
    }
}

/// The protocol of the endpoint period controller, as a transition table.
pub open spec fn worker_step(state: WorkerState, event: WorkerEvent) -> WorkerStep {
    match (state, event) {
        (WorkerState::Start { selector }, WorkerEvent::Begin) => WorkerStep {
            next: WorkerState::ResolvingEndpoint { explicit: selector.explicit_period_frames },
            action: WorkerAction::ResolveEndpoint {
                direction: selector.direction,
                role: selector.role,
            },
        },
        (WorkerState::ResolvingEndpoint { explicit }, WorkerEvent::EnumeratorFailed) => abort_step(
            Fault::EnumeratorUnavailable,
        ),
        (WorkerState::ResolvingEndpoint { explicit }, WorkerEvent::EndpointResolved { found }) => {
            if found {
                WorkerStep {
                    next: WorkerState::ActivatingClient { explicit },
                    action: WorkerAction::ActivateClient,
                }
            } else {
                WorkerStep {
                    next: WorkerState::Stopped,
                    action: WorkerAction::Report { readiness: Readiness::EndpointUnavailable },
                }
            }
        },
        (WorkerState::ActivatingClient { explicit }, WorkerEvent::ClientActivated { ok }) => {
            if ok {
                WorkerStep {
                    next: WorkerState::ReadingFormat { explicit },
                    action: WorkerAction::ReadMixFormat,
                }
            } else {
                abort_step(Fault::ActivationFailed)
            }
        },
        (WorkerState::ReadingFormat { explicit }, WorkerEvent::MixFormatRead { format }) => {
            match format {
                Some(format) => WorkerStep {
                    next: WorkerState::QueryingPeriod { explicit, format },
                    action: WorkerAction::QueryEnginePeriod { format },
                },
                None => abort_step(Fault::MixFormatUnavailable),
            }
        },
        (
            WorkerState::QueryingPeriod { explicit, format },
            WorkerEvent::PeriodRangeRead { range },
        ) => {
            match range {
                Some(range) => period_step(range, explicit, format),
                None => abort_step(Fault::PeriodRangeUnavailable),
            }
        },
        (WorkerState::Initializing { frames }, WorkerEvent::StreamInitialized { ok }) => {
            if ok {
                WorkerStep {
                    next: WorkerState::Starting { frames },
                    action: WorkerAction::StartStream,
                }
            } else {
                abort_step(Fault::InitializeFailed)
            }
        },
        (WorkerState::Starting { frames }, WorkerEvent::StreamStarted { ok }) => {
            if ok {
                WorkerStep {
                    next: WorkerState::Holding { frames },
                    action: WorkerAction::Report {
                        readiness: Readiness::StreamStarted { frames },
                    },
                }
            } else {
                abort_step(Fault::StartFailed)
            }
        },
        _ => if state.is_final() {
            WorkerStep { next: state, action: WorkerAction::Idle }
        } else {
            abort_step(Fault::UnexpectedEvent)
        },
    }
}

fn abort(fault: Fault) -> (step: WorkerStep)
    ensures
        step == abort_step(fault),
{
    WorkerStep {
        next: WorkerState::Aborted { fault },
        action: WorkerAction::Report { readiness: Readiness::Fatal { fault } },
    }
}

/// Advances a worker of the endpoint period controller by one move: from the
/// state it is in and the outcome of its last request to the state it enters
/// and its next request. The caller performs the request and comes back with
/// the outcome, until the state is final.
pub fn apply_audio_settings(state: WorkerState, event: WorkerEvent) -> (step: WorkerStep)
    ensures
        step == worker_step(state, event),
{
    match (state, event) {
        (WorkerState::Start { selector }, WorkerEvent::Begin) => WorkerStep {
            next: WorkerState::ResolvingEndpoint { explicit: selector.explicit_period_frames },
            action: WorkerAction::ResolveEndpoint {
                direction: selector.direction,
                role: selector.role,
            },
        },
        (WorkerState::ResolvingEndpoint { .. }, WorkerEvent::EnumeratorFailed) => abort(
            Fault::EnumeratorUnavailable,
        ),
        (WorkerState::ResolvingEndpoint { explicit }, WorkerEvent::EndpointResolved { found }) => {
            if found {
                WorkerStep {
                    next: WorkerState::ActivatingClient { explicit },
                    action: WorkerAction::ActivateClient,
                }
            } else {
                WorkerStep {
                    next: WorkerState::Stopped,
                    action: WorkerAction::Report { readiness: Readiness::EndpointUnavailable },
                }
            }
        },
        (WorkerState::ActivatingClient { explicit }, WorkerEvent::ClientActivated { ok }) => {
            if ok {
                WorkerStep {
                    next: WorkerState::ReadingFormat { explicit },
                    action: WorkerAction::ReadMixFormat,
                }
            } else {
                abort(Fault::ActivationFailed)
            }
        },
        (WorkerState::ReadingFormat { explicit }, WorkerEvent::MixFormatRead { format }) => {
            match format {
                Some(format) => WorkerStep {
                    next: WorkerState::QueryingPeriod { explicit, format },
                    action: WorkerAction::QueryEnginePeriod { format },
                },
                None => abort(Fault::MixFormatUnavailable),
            }
        },
        (
            WorkerState::QueryingPeriod { explicit, format },
            WorkerEvent::PeriodRangeRead { range },
        ) => {
            match range {
                Some(range) => match decide_period(&range, explicit) {
                    PeriodDecision::NoChange => WorkerStep {
                        next: WorkerState::Stopped,
                        action: WorkerAction::Report { readiness: Readiness::NoChangeNeeded },
                    },
                    PeriodDecision::Initialize { frames } => WorkerStep {
                        next: WorkerState::Initializing { frames },
                        action: WorkerAction::InitializeStream { frames, format },
                    },
                },
                None => abort(Fault::PeriodRangeUnavailable),
            }
        },
        (WorkerState::Initializing { frames }, WorkerEvent::StreamInitialized { ok }) => {
            if ok {
                WorkerStep {
                    next: WorkerState::Starting { frames },
                    action: WorkerAction::StartStream,
                }
            } else {
                abort(Fault::InitializeFailed)
            }
        },
        (WorkerState::Starting { frames }, WorkerEvent::StreamStarted { ok }) => {
            if ok {
                WorkerStep {
                    next: WorkerState::Holding { frames },
                    action: WorkerAction::Report {
                        readiness: Readiness::StreamStarted { frames },
                    },
                }
            } else {
                abort(Fault::StartFailed)
            }
        },
        (state, _) => {
            if state.is_finished() {
                WorkerStep { next: state, action: WorkerAction::Idle }
            } else {
                abort(Fault::UnexpectedEvent)
            }
        },
    }
}

/// The state a worker reaches from `state` when `events` arrive in turn.
pub open spec fn worker_run(state: WorkerState, events: Seq<WorkerEvent>) -> WorkerState
    decreases events.len(),
{
    if events.len() == 0 {
        state
    } else {
        worker_run(worker_step(state, events[0]).next, events.drop_first())
    }
}

/// The number of readiness messages a worker sends on its way from `state`
/// through `events`.
pub open spec fn reports_sent(state: WorkerState, events: Seq<WorkerEvent>) -> nat
    decreases events.len(),
{
    if events.len() == 0 {
        0
    } else {
        let step = worker_step(state, events[0]);
        let sent: nat = if step.action is Report { 1 } else { 0 };
        sent + reports_sent(step.next, events.drop_first())
    }
}

/// A worker reports in the very move that ends it, and in no other: a move
/// out of a running state sends a message exactly when the state it enters is
/// final, and brings the worker closer to its end; a move in a final state
/// changes nothing and sends nothing.
pub proof fn lemma_worker_move(state: WorkerState, event: WorkerEvent)
    ensures
        !state.is_final() ==> (worker_step(state, event).action is Report <==> worker_step(
            state,
            event,
        ).next.is_final()),
        !state.is_final() ==> worker_step(state, event).next.moves_left() < state.moves_left(),
        state.is_final() ==> worker_step(state, event) == (WorkerStep {
            next: state,
            action: WorkerAction::Idle,
        }),
{
}

/// Whatever the audio subsystem answers, a worker sends exactly one readiness
/// message by the time it has finished and none before, and it has finished
/// once as many outcomes have arrived as it had moves left.
pub proof fn lemma_worker_reports_exactly_once(state: WorkerState, events: Seq<WorkerEvent>)
    ensures
        state.is_final() ==> worker_run(state, events) == state && reports_sent(state, events)
            == 0,
        !state.is_final() && worker_run(state, events).is_final() ==> reports_sent(state, events)
            == 1,
        !worker_run(state, events).is_final() ==> reports_sent(state, events) == 0,
        events.len() >= state.moves_left() ==> worker_run(state, events).is_final(),
    decreases events.len(),
{
    if events.len() > 0 {
        lemma_worker_move(state, events[0]);
        lemma_worker_reports_exactly_once(worker_step(state, events[0]).next, events.drop_first());
    }
}

/// The message a worker sends tells how it ended: a held stream is reported
/// as started at the period it is held at, a halt as fatal with its fault, and
/// a worker that stops without a stream reports either that nothing needed to
/// change or that there is no endpoint.
pub proof fn lemma_report_matches_end(state: WorkerState, event: WorkerEvent)
    requires
        !state.is_final(),
    ensures
        match worker_step(state, event).next {
            WorkerState::Holding { frames } => worker_step(state, event).action == (
            WorkerAction::Report { readiness: Readiness::StreamStarted { frames } }),
            WorkerState::Aborted { fault } => worker_step(state, event).action == (
            WorkerAction::Report { readiness: Readiness::Fatal { fault } }),
            WorkerState::Stopped => worker_step(state, event).action == (WorkerAction::Report {
                readiness: Readiness::NoChangeNeeded,
            }) || worker_step(state, event).action == (WorkerAction::Report {
                readiness: Readiness::EndpointUnavailable,
            }),
            _ => true,
        },
{
}

/// A stream is initialised only in answer to the engine's period range, with
/// the format that was read from the endpoint, unchanged, and at the period
/// that the period rule gives for that range and the selector's wish.
pub proof fn lemma_initialize_follows_decision(state: WorkerState, event: WorkerEvent)
    requires
        worker_step(state, event).action is InitializeStream,
    ensures
        state is QueryingPeriod,
        event matches WorkerEvent::PeriodRangeRead { range: Some(range) } && period_decision(
            range,
            state->QueryingPeriod_explicit,
        ) == (PeriodDecision::Initialize {
            frames: worker_step(state, event).action->InitializeStream_frames,
        }),
        worker_step(state, event).action->InitializeStream_format == state->QueryingPeriod_format,
{
}

} // verus!
