use audio_latency::admission::{
    admission_step, start_admission, AdmissionAction, AdmissionEvent, AdmissionState,
};
use audio_latency::barrier::ReadinessBarrier;
use audio_latency::selector::{parse_args, Direction, Role};
use audio_latency::sound::{
    apply_audio_settings, EnginePeriodRange, MixFormat, Readiness, WorkerAction, WorkerEvent,
    WorkerState,
};

/// A stand-in for the audio subsystem: a render endpoint whose engine offers
/// 96 frames below its default of 480, and no capture endpoint.
fn answer(action: WorkerAction, initialized: &mut Vec<(u32, MixFormat)>) -> Option<WorkerEvent> {
    let format = MixFormat {
        channel_count: 2,
        bits_per_sample: 32,
        samples_per_second: 48000,
        average_bytes_per_second: 384000,
    };
    match action {
        WorkerAction::ResolveEndpoint { direction, role } => {
            Some(WorkerEvent::EndpointResolved { found: direction == Direction::Render && role == Role::Console })
        }
        WorkerAction::ActivateClient => Some(WorkerEvent::ClientActivated { ok: true }),
        WorkerAction::ReadMixFormat => Some(WorkerEvent::MixFormatRead { format: Some(format) }),
        WorkerAction::QueryEnginePeriod { format: asked } => {
            assert_eq!(asked, format);
            Some(WorkerEvent::PeriodRangeRead {
                range: Some(EnginePeriodRange {
                    default_frames: 480,
                    fundamental_frames: 32,
                    min_frames: 96,
                    max_frames: 480,
                }),
            })
        }
        WorkerAction::InitializeStream { frames, format } => {
            initialized.push((frames, format));
            Some(WorkerEvent::StreamInitialized { ok: true })
        }
        WorkerAction::StartStream => Some(WorkerEvent::StreamStarted { ok: true }),
        WorkerAction::Report { .. } | WorkerAction::Idle => None,
    }
}

#[test]
fn render_is_tuned_capture_is_missing_and_admission_still_runs() {
    let selectors = parse_args(Vec::new()).unwrap();
    assert_eq!(selectors.len(), 2);
    let mut barrier = ReadinessBarrier::new(selectors.len());
    let mut ends = Vec::new();
    let mut messages = Vec::new();
    let mut initialized = Vec::new();
    for selector in selectors {
        assert_eq!(start_admission(&barrier), None);
        let mut state = WorkerState::Start { selector };
        let mut event = WorkerEvent::Begin;
        while !state.is_finished() {
            let step = apply_audio_settings(state, event);
            state = step.next;
            if let WorkerAction::Report { readiness } = step.action {
                messages.push(readiness);
                assert!(barrier.record(readiness.succeeded()));
            }
            match answer(step.action, &mut initialized) {
                Some(next) => event = next,
                None => assert!(state.is_finished()),
            }
        }
        ends.push(state);
    }
    assert_eq!(ends, vec![WorkerState::Holding { frames: 96 }, WorkerState::Stopped]);
    assert_eq!(messages, vec![Readiness::StreamStarted { frames: 96 }, Readiness::EndpointUnavailable]);
    assert_eq!(initialized.len(), 1);
    assert_eq!(initialized[0].0, 96);
    assert_eq!(initialized[0].1.samples_per_second, 48000);
    assert!(barrier.is_complete());
    assert_eq!(barrier.workers(), 2);
    assert_eq!(barrier.successes(), 1);
    let state = start_admission(&barrier).unwrap();
    assert_eq!(
        admission_step(state, AdmissionEvent::Begin).action,
        AdmissionAction::TakeSnapshot
    );
    assert_eq!(admission_step(state, AdmissionEvent::Begin).next, AdmissionState::TakingSnapshot);
}
