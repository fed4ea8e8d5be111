//! The real-time admission controller: once every worker has reported, a
//! process that sits on a real-time core has the system's allowed CPU set
//! widened to all cores.

use crate::barrier::ReadinessBarrier;
use crate::cpuset::{full_coverage, full_coverage_bitmask, CpuSetInfo};
use vstd::prelude::*;

verus! {

/// Whether a token elevation query shows an elevated token. A query that
/// failed shows none.
pub open spec fn shows_elevation(query: Option<u32>) -> bool {
    query matches Some(token_is_elevated) && token_is_elevated != 0
}

/// Reads the answer of a token elevation query: the token is elevated when
/// the query succeeded and its elevation field is not zero.
pub fn is_elevated(query: Option<u32>) -> (elevated: bool)
    ensures
        elevated == shows_elevation(query),
{
    match query {
        Some(token_is_elevated) => token_is_elevated != 0,
        None => false,
    }
}

/// The requests by which the base-priority privilege is enabled, in order.
#[derive(Clone, Copy, Debug, PartialEq, Eq, Structural)]
pub enum PrivilegeStage {
    /// Is the process token elevated?
    CheckingElevation,
    /// Open the process token for adjusting and querying.
    OpeningToken,
    /// Look up the identifier of the privilege.
    LookingUpPrivilege,
    /// Add the privilege, enabled, to the token.
    AdjustingPrivileges,
    /// Read the last error after the adjustment: the adjustment can succeed
    /// as a call and still not grant the privilege.
    RecheckingLastError,
}

/// Why the privilege was not enabled. Each is final for the process.
#[derive(Clone, Copy, Debug, PartialEq, Eq, Structural)]
pub enum Refusal {
    NotElevated,
    TokenUnavailable,
    PrivilegeUnknown,
    AdjustmentFailed,
    PrivilegeNotGranted,
}

/// How far enabling the privilege has come after one answer.
#[derive(Clone, Copy, Debug, PartialEq, Eq)]
pub enum PrivilegeProgress {
    /// Make the request of this stage next.
    Continue { stage: PrivilegeStage },
    /// The privilege is enabled.
    Enabled,
    /// The privilege cannot be had; the process ends.
    Refused { refusal: Refusal },
}

impl PrivilegeStage {
    /// The stage that follows a positive answer, if any.
    pub open spec fn following(self) -> Option<PrivilegeStage> {
        match self {
            PrivilegeStage::CheckingElevation => Some(PrivilegeStage::OpeningToken),
            PrivilegeStage::OpeningToken => Some(PrivilegeStage::LookingUpPrivilege),
            PrivilegeStage::LookingUpPrivilege => Some(PrivilegeStage::AdjustingPrivileges),
            PrivilegeStage::AdjustingPrivileges => Some(PrivilegeStage::RecheckingLastError),
            PrivilegeStage::RecheckingLastError => None,
        }
    }

    /// What a negative answer at this stage means.
    pub open spec fn refusal(self) -> Refusal {
        match self {
            PrivilegeStage::CheckingElevation => Refusal::NotElevated,
            PrivilegeStage::OpeningToken => Refusal::TokenUnavailable,
            PrivilegeStage::LookingUpPrivilege => Refusal::PrivilegeUnknown,
            PrivilegeStage::AdjustingPrivileges => Refusal::AdjustmentFailed,
            PrivilegeStage::RecheckingLastError => Refusal::PrivilegeNotGranted,
        }
    }

    /// The number of requests from this stage to the last, this one included.
    pub open spec fn requests_left(self) -> nat {
        match self {
            PrivilegeStage::CheckingElevation => 5,
            PrivilegeStage::OpeningToken => 4,
            PrivilegeStage::LookingUpPrivilege => 3,
            PrivilegeStage::AdjustingPrivileges => 2,
            PrivilegeStage::RecheckingLastError => 1,
        }
    }
}

/// The privilege protocol: a negative answer at any stage refuses the
/// privilege for that stage's reason; a positive one leads to the next stage,
/// and after the last to the enabled privilege.
pub open spec fn privilege_progress(stage: PrivilegeStage, succeeded: bool) -> PrivilegeProgress {
    if !succeeded {
        PrivilegeProgress::Refused { refusal: stage.refusal() }
    } else {
        match stage.following() {
            Some(next) => PrivilegeProgress::Continue { stage: next },
            None => PrivilegeProgress::Enabled,
        }
    }
}

/// Advances the enabling of the base-priority privilege by one answer:
/// `succeeded` says how the request of `stage` went (for the elevation check:
/// whether the token is elevated; for the last-error check: whether no error
/// is pending).
pub fn enable_debug_privilege(stage: PrivilegeStage, succeeded: bool) -> (progress:
    PrivilegeProgress)
    ensures
        progress == privilege_progress(stage, succeeded),
{
    if !succeeded {
        let refusal = match stage {
            PrivilegeStage::CheckingElevation => Refusal::NotElevated,
            PrivilegeStage::OpeningToken => Refusal::TokenUnavailable,
            PrivilegeStage::LookingUpPrivilege => Refusal::PrivilegeUnknown,
            PrivilegeStage::AdjustingPrivileges => Refusal::AdjustmentFailed,
            PrivilegeStage::RecheckingLastError => Refusal::PrivilegeNotGranted,
        };
        PrivilegeProgress::Refused { refusal }
    } else {
        match stage {
            PrivilegeStage::CheckingElevation => PrivilegeProgress::Continue {
                stage: PrivilegeStage::OpeningToken,
            },
            PrivilegeStage::OpeningToken => PrivilegeProgress::Continue {
                stage: PrivilegeStage::LookingUpPrivilege,
            },
            PrivilegeStage::LookingUpPrivilege => PrivilegeProgress::Continue {
                stage: PrivilegeStage::AdjustingPrivileges,
            },
            PrivilegeStage::AdjustingPrivileges => PrivilegeProgress::Continue {
                stage: PrivilegeStage::RecheckingLastError,
            },
            PrivilegeStage::RecheckingLastError => PrivilegeProgress::Enabled,
        }
    }
}

/// The privilege after a run of answers from `stage` on, or nothing while
/// more answers are awaited. Answers after the end are not read.
pub open spec fn privilege_after(stage: PrivilegeStage, answers: Seq<bool>) -> Option<
    PrivilegeProgress,
>
    decreases answers.len(),
{
    if answers.len() == 0 {
        None
    } else {
        match privilege_progress(stage, answers[0]) {
            PrivilegeProgress::Continue { stage: next } => privilege_after(
                next,
                answers.drop_first(),
            ),
            end => Some(end),
        }
    }
}

/// The privilege is enabled only when every request from the elevation check
/// to the last-error check was answered positively, and it is refused with
/// the reason of the first request that was not.
pub proof fn lemma_privilege_needs_every_step(stage: PrivilegeStage, answers: Seq<bool>)
    ensures
        privilege_after(stage, answers) == Some(PrivilegeProgress::Enabled) <==> answers.len()
            >= stage.requests_left() && forall|i: int|
            0 <= i < stage.requests_left() ==> answers[i],
        answers.len() > 0 && !answers[0] ==> privilege_after(stage, answers) == Some(
            PrivilegeProgress::Refused { refusal: stage.refusal() },
        ),
        answers.len() >= stage.requests_left() ==> privilege_after(stage, answers) is Some,
        privilege_after(stage, answers) is Some ==> !(privilege_after(stage, answers)->0
            is Continue),
    decreases answers.len(),
{
    if answers.len() > 0 && answers[0] {
        match stage.following() {
            Some(next) => {
                lemma_privilege_needs_every_step(next, answers.drop_first());
                let rest = answers.drop_first();
                if privilege_after(stage, answers) == Some(PrivilegeProgress::Enabled) {
                    assert forall|i: int| 0 <= i < stage.requests_left() implies answers[i] by {
                        if i > 0 {
                            assert(answers[i] == rest[i - 1]);
                        }
                    }
                }
                if answers.len() >= stage.requests_left() && forall|i: int|
                    0 <= i < stage.requests_left() ==> answers[i] {
                    assert forall|i: int| 0 <= i < next.requests_left() implies rest[i] by {
                        assert(rest[i] == answers[i + 1]);
                    }
                }
            },
            None => {},
        }
    } else if answers.len() > 0 {
        assert(!answers[0]);
    }
}

/// How the admission controller ended.
#[derive(Clone, Copy, Debug, PartialEq, Eq)]
pub enum AdmissionOutcome {
    /// The first core of the snapshot is not a real-time core granted to this
    /// process: nothing was asked of the system and nothing changed.
    NotRealtime,
    /// The allowed CPU set now covers every core.
    Widened { mask: u64 },
    /// The system refused the widened set with this status. The process goes
    /// on all the same.
    WideningRejected { mask: u64, status: i32 },
    /// The privilege could not be enabled: the process ends with exit code 1.
    Refused { refusal: Refusal },
    /// The cores do not fit one mask word: the process halts.
    TooManyCores { count: u32 },
    /// An answer arrived that does not belong to the request last made: the
    /// process halts.
    OutOfTurn,
}

/// Where the admission controller stands.
#[derive(Clone, Copy, Debug, PartialEq, Eq)]
pub enum AdmissionState {
    NotChecked,
    TakingSnapshot,
    EnablingPrivilege { stage: PrivilegeStage },
    CountingCores,
    ApplyingBitmask { mask: u64 },
    /// Final.
    Finished { outcome: AdmissionOutcome },
}

/// What the system answered to the request last made.
#[derive(Clone, Copy, Debug, PartialEq, Eq)]
pub enum AdmissionEvent {
    /// Nothing was requested yet.
    Begin,
    /// The record of the first core of a fresh snapshot, if it has one.
    SnapshotTaken { primary: Option<CpuSetInfo> },
    /// The answer to a request of the privilege protocol.
    Answered { succeeded: bool },
    /// The number of logical cores.
    CoresCounted { count: u32 },
    /// The status with which the system took the new allowed CPU set.
    BitmaskApplied { status: i32 },
}

/// What the admission controller asks of the system next.
#[derive(Clone, Copy, Debug, PartialEq, Eq)]
pub enum AdmissionAction {
    /// Take a fresh snapshot of the CPU sets of this process.
    TakeSnapshot,
    /// Make the request of this stage of the privilege protocol.
    Privilege { stage: PrivilegeStage },
    /// Count the logical cores.
    CountCores,
    /// Set the system-wide allowed CPU set to this mask.
    ApplyBitmask { mask: u64 },
    /// Nothing more is asked: act on the outcome.
    Conclude { outcome: AdmissionOutcome },
    /// Nothing: the controller had finished before.
    Idle,
}

/// One move of the admission controller.
#[derive(Clone, Copy, Debug, PartialEq, Eq)]
pub struct AdmissionStep {
    pub next: AdmissionState,
    pub action: AdmissionAction,
}

impl AdmissionOutcome {
    /// The process cannot go on after this outcome.
    pub open spec fn is_fatal(self) -> bool {
        self is Refused || self is TooManyCores || self is OutOfTurn
    }

    /// Whether the process cannot go on after this outcome.
    pub fn ends_process(&self) -> (fatal: bool)
        ensures
            fatal == self.is_fatal(),
    {
        match self {
            AdmissionOutcome::Refused { .. } => true,
            AdmissionOutcome::TooManyCores { .. } => true,
            AdmissionOutcome::OutOfTurn => true,
            _ => false,
        }
    }
}

impl AdmissionAction {
    /// The action reaches into the system beyond reading the snapshot: it
    /// belongs to the privilege protocol, counts cores for the mask, or sets
    /// the allowed CPU set.
    pub open spec fn is_privileged(self) -> bool {
        self is Privilege || self is CountCores || self is ApplyBitmask
    }
}

impl AdmissionState {
    /// The largest number of moves the controller still makes.
    pub open spec fn moves_left(self) -> nat {
        match self {
            AdmissionState::NotChecked => 9,
            AdmissionState::TakingSnapshot => 8,
            AdmissionState::EnablingPrivilege { stage } => 2 + stage.requests_left(),
            AdmissionState::CountingCores => 2,
            AdmissionState::ApplyingBitmask { .. } => 1,
            AdmissionState::Finished { .. } => 0,
        }
    }
}

/// The move that ends the controller with `outcome`.
pub open spec fn conclude(outcome: AdmissionOutcome) -> AdmissionStep {
    AdmissionStep {
        next: AdmissionState::Finished { outcome },
        action: AdmissionAction::Conclude { outcome },
    }
}

/// The first stage of the privilege protocol.
pub open spec fn first_stage() -> PrivilegeStage {
    PrivilegeStage::CheckingElevation
}

/// The protocol of the admission controller, as a transition table.
pub open spec fn admission_transition(state: AdmissionState, event: AdmissionEvent) -> AdmissionStep {
    match (state, event) {
        (AdmissionState::NotChecked, AdmissionEvent::Begin) => AdmissionStep {
            next: AdmissionState::TakingSnapshot,
            action: AdmissionAction::TakeSnapshot,
        },
        (AdmissionState::TakingSnapshot, AdmissionEvent::SnapshotTaken { primary }) => {
            if primary matches Some(record) && record.admits() {
                AdmissionStep {
                    next: AdmissionState::EnablingPrivilege { stage: first_stage() },
                    action: AdmissionAction::Privilege { stage: first_stage() },
                }
            } else {
                conclude(AdmissionOutcome::NotRealtime)
            }
        },
        (AdmissionState::EnablingPrivilege { stage }, AdmissionEvent::Answered { succeeded }) => {
            match privilege_progress(stage, succeeded) {
                PrivilegeProgress::Continue { stage: next } => AdmissionStep {
                    next: AdmissionState::EnablingPrivilege { stage: next },
                    action: AdmissionAction::Privilege { stage: next },
                },
                PrivilegeProgress::Enabled => AdmissionStep {
                    next: AdmissionState::CountingCores,
                    action: AdmissionAction::CountCores,
                },
                PrivilegeProgress::Refused { refusal } => conclude(
                    AdmissionOutcome::Refused { refusal },
                ),
            }
        },
        (AdmissionState::CountingCores, AdmissionEvent::CoresCounted { count }) => {
            if count < 64 {
                AdmissionStep {
                    next: AdmissionState::ApplyingBitmask { mask: full_coverage(count as u64) },
                    action: AdmissionAction::ApplyBitmask { mask: full_coverage(count as u64) },
                }
            } else {
                conclude(AdmissionOutcome::TooManyCores { count })
            }
        },
        (AdmissionState::ApplyingBitmask { mask }, AdmissionEvent::BitmaskApplied { status }) => {
            if status == 0 {
                conclude(AdmissionOutcome::Widened { mask })
            } else {
                conclude(AdmissionOutcome::WideningRejected { mask, status })
            }
        },
        (AdmissionState::Finished { outcome }, _) => AdmissionStep {
            next: state,
            action: AdmissionAction::Idle,
        },
        _ => conclude(AdmissionOutcome::OutOfTurn),
    }
}

fn finish(outcome: AdmissionOutcome) -> (step: AdmissionStep)
    ensures
        step == conclude(outcome),
{
    AdmissionStep {
        next: AdmissionState::Finished { outcome },
        action: AdmissionAction::Conclude { outcome },
    }
}

/// Opens the admission controller, which runs once and only when every
/// worker has reported: with workers outstanding there is no state to start
/// from.
pub fn start_admission(barrier: &ReadinessBarrier) -> (start: Option<AdmissionState>)
    ensures
        start == if barrier@.is_open() {
            Some(AdmissionState::NotChecked)
        } else {
            None
        },
{
    if barrier.is_complete() {
        Some(AdmissionState::NotChecked)
    } else {
        None
    }
}

/// Advances the admission controller by one move: from the state it is in
/// and the answer to its last request to the state it enters and its next
/// request. The caller performs the request and comes back with the answer,
/// until the state is final.
pub fn admission_step(state: AdmissionState, event: AdmissionEvent) -> (step: AdmissionStep)
    ensures
        step == admission_transition(state, event),
{
    match (state, event) {
        (AdmissionState::NotChecked, AdmissionEvent::Begin) => AdmissionStep {
            next: AdmissionState::TakingSnapshot,
            action: AdmissionAction::TakeSnapshot,
        },
        (AdmissionState::TakingSnapshot, AdmissionEvent::SnapshotTaken { primary }) => {
            let admitted = match primary {
                Some(record) => record.is_realtime_grant(),
                None => false,
            };
            if admitted {
                AdmissionStep {
                    next: AdmissionState::EnablingPrivilege {
                        stage: PrivilegeStage::CheckingElevation,
                    },
                    action: AdmissionAction::Privilege { stage: PrivilegeStage::CheckingElevation },
                }
            } else {
                finish(AdmissionOutcome::NotRealtime)
            }
        },
        (AdmissionState::EnablingPrivilege { stage }, AdmissionEvent::Answered { succeeded }) => {
            match enable_debug_privilege(stage, succeeded) {
                PrivilegeProgress::Continue { stage: next } => AdmissionStep {
                    next: AdmissionState::EnablingPrivilege { stage: next },
                    action: AdmissionAction::Privilege { stage: next },
                },
                PrivilegeProgress::Enabled => AdmissionStep {
                    next: AdmissionState::CountingCores,
                    action: AdmissionAction::CountCores,
                },
                PrivilegeProgress::Refused { refusal } => finish(
                    AdmissionOutcome::Refused { refusal },
                ),
            }
        },
        (AdmissionState::CountingCores, AdmissionEvent::CoresCounted { count }) => {
            if count < 64 {
                let mask = full_coverage_bitmask(count);
                AdmissionStep {
                    next: AdmissionState::ApplyingBitmask { mask },
                    action: AdmissionAction::ApplyBitmask { mask },
                }
            } else {
                finish(AdmissionOutcome::TooManyCores { count })
            }
        },
        (AdmissionState::ApplyingBitmask { mask }, AdmissionEvent::BitmaskApplied { status }) => {
            if status == 0 {
                finish(AdmissionOutcome::Widened { mask })
            } else {
                finish(AdmissionOutcome::WideningRejected { mask, status })
            }
        },
        (AdmissionState::Finished { outcome }, _) => AdmissionStep {
            next: AdmissionState::Finished { outcome },
            action: AdmissionAction::Idle,
        },
        _ => finish(AdmissionOutcome::OutOfTurn),
    }
}

impl AdmissionState {
    /// A final state: the controller has concluded and asks nothing more.
    pub open spec fn is_final(self) -> bool {
        self is Finished
    }

    /// Whether the controller has concluded.
    pub fn is_finished(&self) -> (finished: bool)
        ensures
            finished == self.is_final(),
    {
        match self {
            AdmissionState::Finished { .. } => true,
            _ => false,
        }
    }
}

/// The state the controller reaches from `state` when `events` arrive in
/// turn.
pub open spec fn admission_run(state: AdmissionState, events: Seq<AdmissionEvent>) -> AdmissionState
    decreases events.len(),
{
    if events.len() == 0 {
        state
    } else {
        admission_run(admission_transition(state, events[0]).next, events.drop_first())
    }
}

/// The number of privileged requests the controller makes on its way from
/// `state` through `events`.
pub open spec fn privileged_requests(state: AdmissionState, events: Seq<AdmissionEvent>) -> nat
    decreases events.len(),
{
    if events.len() == 0 {
        0
    } else {
        let step = admission_transition(state, events[0]);
        let asked: nat = if step.action.is_privileged() { 1 } else { 0 };
        asked + privileged_requests(step.next, events.drop_first())
    }
}

/// The controller concludes in the very move that ends it: a move out of a
/// running state concludes exactly when the state it enters is final, with
/// the outcome that state holds, and brings the controller closer to its end;
/// a move in a final state changes nothing and asks nothing.
pub proof fn lemma_admission_move(state: AdmissionState, event: AdmissionEvent)
    ensures
        !state.is_final() ==> (admission_transition(state, event).next matches AdmissionState::Finished {
            outcome,
        } ==> admission_transition(state, event).action == (AdmissionAction::Conclude { outcome })),
        !state.is_final() ==> (admission_transition(state, event).action is Conclude
            <==> admission_transition(state, event).next.is_final()),
        !state.is_final() ==> admission_transition(state, event).next.moves_left()
            < state.moves_left(),
        state.is_final() ==> admission_transition(state, event) == (AdmissionStep {
            next: state,
            action: AdmissionAction::Idle,
        }),
{
}

/// Whatever the system answers, the controller has concluded once as many
/// answers have arrived as it had moves left, and a controller that has
/// concluded stays as it is and makes no privileged request.
pub proof fn lemma_admission_ends(state: AdmissionState, events: Seq<AdmissionEvent>)
    ensures
        state.is_final() ==> admission_run(state, events) == state && privileged_requests(
            state,
            events,
        ) == 0,
        events.len() >= state.moves_left() ==> admission_run(state, events).is_final(),
    decreases events.len(),
{
    if events.len() > 0 {
        lemma_admission_move(state, events[0]);
        lemma_admission_ends(admission_transition(state, events[0]).next, events.drop_first());
    }
}

/// A snapshot whose first core is not granted to this process, or is not a
/// real-time core, or that has no core at all, ends admission at once:
/// whatever arrives afterwards, no privilege is asked for, no cores are
/// counted and no bitmask is set.
pub proof fn lemma_no_grant_no_side_effect(
    primary: Option<CpuSetInfo>,
    later: Seq<AdmissionEvent>,
)
    requires
        !(primary matches Some(record) && record.allocated_to_target_process && record.realtime),
    ensures
        admission_transition(
            AdmissionState::TakingSnapshot,
            AdmissionEvent::SnapshotTaken { primary },
        ) == conclude(AdmissionOutcome::NotRealtime),
        privileged_requests(
            AdmissionState::TakingSnapshot,
            seq![AdmissionEvent::SnapshotTaken { primary }] + later,
        ) == 0,
        admission_run(
            AdmissionState::TakingSnapshot,
            seq![AdmissionEvent::SnapshotTaken { primary }] + later,
        ) == (AdmissionState::Finished { outcome: AdmissionOutcome::NotRealtime }),
{
    let events = seq![AdmissionEvent::SnapshotTaken { primary }] + later;
    assert(events[0] == AdmissionEvent::SnapshotTaken { primary });
    assert(events.drop_first() =~= later);
    lemma_admission_ends(
        AdmissionState::Finished { outcome: AdmissionOutcome::NotRealtime },
        later,
    );
}

/// On a real-time core with a token that is not elevated, admission is
/// refused as soon as the elevation check is answered: the process is to end,
/// and whatever arrives afterwards no further request is made, so that no
/// bitmask is ever set.
pub proof fn lemma_unelevated_is_refused(record: CpuSetInfo, later: Seq<AdmissionEvent>)
    requires
        record.allocated_to_target_process,
        record.realtime,
    ensures
        admission_transition(
            AdmissionState::TakingSnapshot,
            AdmissionEvent::SnapshotTaken { primary: Some(record) },
        ) == (AdmissionStep {
            next: AdmissionState::EnablingPrivilege { stage: PrivilegeStage::CheckingElevation },
            action: AdmissionAction::Privilege { stage: PrivilegeStage::CheckingElevation },
        }),
        admission_transition(
            AdmissionState::EnablingPrivilege { stage: PrivilegeStage::CheckingElevation },
            AdmissionEvent::Answered { succeeded: false },
        ) == conclude(AdmissionOutcome::Refused { refusal: Refusal::NotElevated }),
        (AdmissionOutcome::Refused { refusal: Refusal::NotElevated }).is_fatal(),
        privileged_requests(
            AdmissionState::EnablingPrivilege { stage: PrivilegeStage::CheckingElevation },
            seq![AdmissionEvent::Answered { succeeded: false }] + later,
        ) == 0,
{
    let events = seq![AdmissionEvent::Answered { succeeded: false }] + later;
    assert(events[0] == AdmissionEvent::Answered { succeeded: false });
    assert(events.drop_first() =~= later);
    lemma_admission_ends(
        AdmissionState::Finished {
            outcome: AdmissionOutcome::Refused { refusal: Refusal::NotElevated },
        },
        later,
    );
}

/// Each request is made only in answer to the one before it having gone
/// well: a privilege request of a later stage follows a positive answer at
/// the stage before, cores are counted only after a clean last-error check,
/// and a bitmask is set only after the cores were counted, with the mask that
/// covers exactly them.
pub proof fn lemma_request_origin(state: AdmissionState, event: AdmissionEvent)
    ensures
        admission_transition(state, event).action matches AdmissionAction::Privilege { stage }
            ==> (if stage == PrivilegeStage::CheckingElevation {
            state is TakingSnapshot && (event matches AdmissionEvent::SnapshotTaken {
                primary: Some(record),
            } && record.admits())
        } else {
            state matches AdmissionState::EnablingPrivilege { stage: before }
                && before.following() == Some(stage) && event == (AdmissionEvent::Answered {
                succeeded: true,
            })
        }),
        admission_transition(state, event).action is CountCores ==> state == (
        AdmissionState::EnablingPrivilege { stage: PrivilegeStage::RecheckingLastError })
            && event == (AdmissionEvent::Answered { succeeded: true }),
        admission_transition(state, event).action matches AdmissionAction::ApplyBitmask { mask }
            ==> state is CountingCores && (event matches AdmissionEvent::CoresCounted { count }
            && count < 64 && mask == full_coverage(count as u64)),
{
}

} // verus!
