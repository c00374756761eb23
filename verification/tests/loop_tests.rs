use lightsync::color::Rgb;
use lightsync::discovery::{parse_uuid_hyphenated, select_peripheral};
use lightsync::config::Config;
use lightsync::filter::SyncState;
use lightsync::session::{session_step, SessionEvent, SessionPhase};
use lightsync::supervisor::{next_action, FaultReason, RunOutcome, SupervisorAction};
use lightsync::sync::{apply_colors, sync_step, CaptureEvent, StepAction};

#[test]
fn channel_mapping_is_inverted() {
    // One uniform pixel: the extractor returns it unchanged, and the
    // step transmits its third value as red, its first as blue.
    let mut state = SyncState::new();
    let action = sync_step(&mut state, CaptureEvent::Frame(vec![10, 50, 200]), 2);
    let sent = Rgb { red: 200, green: 50, blue: 10 };
    assert_eq!(action, StepAction::Send(sent));
    assert_eq!(state.last_sent, sent);
}

#[test]
fn frame_is_reduced_before_filtering() {
    // Two pixels of one bucket: the extractor averages them, so the
    // transmitted color matches neither pixel — the step really went
    // through the reduction.
    let mut state = SyncState::new();
    let action = sync_step(&mut state, CaptureEvent::Frame(vec![10, 50, 200, 20, 60, 210]), 2);
    let sent = Rgb { red: 205, green: 55, blue: 15 };
    assert_eq!(action, StepAction::Send(sent));
    assert_eq!(state.last_sent, sent);
}

#[test]
fn pending_frames_are_waited_out() {
    // The backend reports not-ready three times, then delivers: the loop
    // must neither send nor error meanwhile, and must process the
    // eventual frame normally.
    let mut state = SyncState::new();
    for _ in 0..3 {
        let action = sync_step(&mut state, CaptureEvent::NotReady, 2);
        assert_eq!(action, StepAction::Wait);
        assert_eq!(state.last_sent, Rgb { red: 0, green: 0, blue: 0 });
    }
    let action = sync_step(&mut state, CaptureEvent::Frame(vec![10, 50, 200]), 2);
    assert_eq!(action, StepAction::Send(Rgb { red: 200, green: 50, blue: 10 }));
}

#[test]
fn identical_resample_is_skipped() {
    let mut state = SyncState::new();
    let frame: Vec<u8> = vec![10, 50, 200];
    let first = sync_step(&mut state, CaptureEvent::Frame(frame.clone()), 2);
    assert_eq!(first, StepAction::Send(Rgb { red: 200, green: 50, blue: 10 }));
    let second = sync_step(&mut state, CaptureEvent::Frame(frame), 2);
    assert_eq!(second, StepAction::Skip);
    assert_eq!(state.last_sent, Rgb { red: 200, green: 50, blue: 10 });
}

#[test]
fn capture_failure_aborts() {
    let mut state = SyncState::new();
    let action = sync_step(&mut state, CaptureEvent::Failed, 2);
    assert_eq!(action, StepAction::Abort);
}

#[test]
fn short_extractor_output_aborts() {
    // An empty pixel buffer reduces to no color at all.
    let mut state = SyncState::new();
    let action = sync_step(&mut state, CaptureEvent::Frame(Vec::new()), 2);
    assert_eq!(action, StepAction::Abort);
    let action = apply_colors(&mut state, &vec![1, 2], 2);
    assert_eq!(action, StepAction::Abort);
}

#[test]
fn discovery_failure_triggers_one_rebuild() {
    // A scan whose names match nothing: the run faults and the
    // supervisor asks for exactly one rebuild, observable as a second
    // discovery invocation.
    let target = b"ihoment_H6181_9F87".to_vec();
    let mut discovery_invocations = 0;
    let mut restarts = 0;
    loop {
        discovery_invocations += 1;
        let names: Vec<Option<Vec<u8>>> = vec![Some(b"JBL Speaker".to_vec()), None];
        let outcome = match select_peripheral(&names, &target) {
            Some(_) => RunOutcome::Stopped,
            None => RunOutcome::Fault(FaultReason::NoPeripheral),
        };
        match next_action(&outcome) {
            SupervisorAction::Restart if restarts == 0 => restarts += 1,
            _ => break,
        }
    }
    assert_eq!(restarts, 1);
    assert_eq!(discovery_invocations, 2);
}

#[test]
fn write_failure_discards_handle_and_state() {
    // A successful run sends (200, 50, 10); then the session's write
    // fails.  The supervisor rebuilds from discovery and the fresh run
    // must not resend the stale color from the old state.
    let mut phase = session_step(SessionPhase::Uninitialized, SessionEvent::DiscoveryStarted);
    assert_eq!(phase, SessionPhase::Discovering);
    phase = session_step(phase, SessionEvent::DiscoverySucceeded);
    assert_eq!(phase, SessionPhase::Connected);

    let mut state = SyncState::new();
    let action = apply_colors(&mut state, &vec![10, 50, 200], 2);
    assert_eq!(action, StepAction::Send(Rgb { red: 200, green: 50, blue: 10 }));
    phase = session_step(phase, SessionEvent::WriteSucceeded);
    assert_eq!(phase, SessionPhase::Connected);

    // The next write fails: the session is terminal.
    phase = session_step(phase, SessionEvent::WriteFailed);
    assert_eq!(phase, SessionPhase::Faulted(FaultReason::WriteFailed));
    phase = session_step(phase, SessionEvent::WriteSucceeded);
    assert_eq!(phase, SessionPhase::Faulted(FaultReason::WriteFailed));

    // The supervisor rebuilds; the new run starts from the sentinel, so
    // the stale (200, 50, 10) is not queued anywhere.
    assert_eq!(
        next_action(&RunOutcome::Fault(FaultReason::WriteFailed)),
        SupervisorAction::Restart
    );
    let rebuilt = SyncState::new();
    assert_eq!(rebuilt.last_sent, Rgb { red: 0, green: 0, blue: 0 });
    assert_ne!(rebuilt.last_sent, Rgb { red: 200, green: 50, blue: 10 });
}

#[test]
fn every_fault_restarts_and_only_stop_exits() {
    for reason in [
        FaultReason::NoAdapter,
        FaultReason::NoPeripheral,
        FaultReason::ConnectFailed,
        FaultReason::NoCharacteristic,
        FaultReason::WriteFailed,
        FaultReason::CaptureFailed,
    ] {
        assert_eq!(next_action(&RunOutcome::Fault(reason)), SupervisorAction::Restart);
    }
    assert_eq!(next_action(&RunOutcome::Stopped), SupervisorAction::Exit);
}

#[test]
fn defaults_match_observed_constants() {
    let config = Config::defaults();
    assert_eq!(config.device_name, b"ihoment_H6181_9F87".to_vec());
    let uuid_text = b"00010203-0405-0607-0809-0A0B0C0D2B11".to_vec();
    assert_eq!(config.characteristic_uuid, parse_uuid_hyphenated(&uuid_text).unwrap());
    assert_eq!(config.threshold, 2);
    assert_eq!(config.cadence_ms, 30);
    assert_eq!(config.poll_ms, 10);
    assert_eq!(config.discovery_window_s, 1);
}
