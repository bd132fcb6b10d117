use std::time::{Duration, Instant};

use moq_probe::acceptor::validate_request;
use moq_probe::client::{
    check_settings, ClientAction, ClientError, ClientEvent, LogicalStatus, ProbeClient,
    ProbeSettings,
};
use moq_probe::protocol::{
    ProbeEnd, ProbeEndStatus, ProbeError, ProbeMessage, ProbeRequest, ProbeStart, ProbeStartAck,
};
use moq_probe::receiver::{ReceiverProbeContext, StageStatus};

fn settings() -> ProbeSettings {
    ProbeSettings {
        padding_mode: "stream".to_string(),
        count: 1,
        interval_ms: 1_000,
        target_bitrate_bps: 8_000_000,
        duration_ms: 3_000,
        epoch_ms: 500,
    }
}

fn take(
    client: &mut ProbeClient,
    context: &mut ReceiverProbeContext,
    event: ClientEvent,
) -> ClientAction {
    assert!(client.accepts(&event));
    client.step(context, event);
    client.action()
}

fn requested(action: ClientAction) -> ProbeRequest {
    match action {
        ClientAction::Send(ProbeMessage::Request(request)) => request,
        other => panic!("{other:?}"),
    }
}

fn heard(message: ProbeMessage, now: Instant) -> ClientEvent {
    ClientEvent::Message {
        message,
        now,
        timestamp_ms: 1,
    }
}

fn start(request: &ProbeRequest) -> ProbeMessage {
    ProbeMessage::Start(ProbeStart {
        request_id: request.request_id,
        stage_index: request.stage_index,
        stage_target_bps: request.stage_target_bps,
    })
}

fn end(request: &ProbeRequest, status: ProbeEndStatus) -> ProbeMessage {
    ProbeMessage::End(ProbeEnd {
        request_id: request.request_id,
        stage_index: request.stage_index,
        status,
        attempted_padding_bytes: 1,
        accepted_padding_bytes: 1,
        media_accepted_payload_bytes: 0,
        padding_pending_seen: false,
        stage_active_duration_ms: 1_000,
    })
}

fn open(client: &mut ProbeClient, context: &mut ReceiverProbeContext) -> ProbeRequest {
    assert!(matches!(client.action(), ClientAction::ReadSystemClock));
    let opening = take(
        client,
        context,
        ClientEvent::SystemClock { timestamp_ms: 40 },
    );
    assert!(matches!(
        opening,
        ClientAction::OpenControl {
            priority: i32::MAX,
            stream_type: 0xff00_0001,
            version: 1
        }
    ));
    requested(take(client, context, ClientEvent::ControlOpened))
}

// Runs a stage in which `padding` bytes arrive within a second.
fn run_stage(
    client: &mut ProbeClient,
    context: &mut ReceiverProbeContext,
    padding: usize,
    status: ProbeEndStatus,
) -> ClientAction {
    let now = Instant::now();
    let request = requested(client.action());
    take(client, context, ClientEvent::Sent);
    context.on_padding_stream_open().unwrap();
    let acknowledging = take(client, context, heard(start(&request), now));
    match acknowledging {
        ClientAction::Send(ProbeMessage::StartAck(ack)) => assert_eq!(
            ack,
            ProbeStartAck {
                request_id: request.request_id,
                stage_index: request.stage_index
            }
        ),
        other => panic!("{other:?}"),
    }
    take(client, context, ClientEvent::Sent);
    context.on_padding_payload(padding, now).unwrap();
    let ended = heard(end(&request, status), now + Duration::from_secs(1));
    assert!(matches!(
        take(client, context, ended),
        ClientAction::WaitForCleanup
    ));
    context.on_padding_payload(3, now).unwrap();
    context.on_padding_stream_finished().unwrap();
    take(client, context, ClientEvent::CleanedUp)
}

fn logged(action: ClientAction) -> (u64, bool, u64, LogicalStatus, u64) {
    match action {
        ClientAction::Log {
            logical_probe_index,
            result,
            highest_validated_target_bps,
            logical_status,
        } => (
            logical_probe_index,
            result.stage_passed,
            highest_validated_target_bps,
            logical_status,
            result.late_padding_bytes,
        ),
        other => panic!("{other:?}"),
    }
}

fn finished(action: ClientAction) -> (u64, u64, LogicalStatus) {
    match action {
        ClientAction::FinishControl {
            logical_probe_index,
            highest_validated_target_bps,
            logical_status,
        } => (
            logical_probe_index,
            highest_validated_target_bps,
            logical_status,
        ),
        other => panic!("{other:?}"),
    }
}

#[test]
fn settings_are_checked_in_order() {
    assert_eq!(check_settings(&settings()), Ok(()));
    let mut wrong = settings();
    wrong.epoch_ms = 0;
    assert_eq!(
        check_settings(&wrong),
        Err("--probe-epoch-ms must be greater than zero")
    );
    wrong.duration_ms = 0;
    assert_eq!(
        check_settings(&wrong),
        Err("--probe-duration-ms must be greater than zero")
    );
    wrong.padding_mode = "datagram".to_string();
    assert_eq!(
        check_settings(&wrong),
        Err("--probe-padding-mode must be stream for staged Probe")
    );
    assert_eq!(
        ProbeClient::begin(&wrong).err(),
        Some(ClientError::Refused(
            "--probe-padding-mode must be stream for staged Probe"
        ))
    );
}

#[test]
fn nothing_is_probed_when_none_is_asked_for() {
    let client = ProbeClient::begin(&ProbeSettings {
        count: 0,
        ..settings()
    })
    .unwrap();
    assert!(matches!(client.action(), ClientAction::Stop));
}

#[test]
fn three_passing_stages_complete_a_logical_probe() {
    let mut client = ProbeClient::begin(&settings()).unwrap();
    let mut context = ReceiverProbeContext::default();
    let first = open(&mut client, &mut context);
    assert_eq!(
        first,
        ProbeRequest {
            request_id: 40,
            stage_index: 0,
            stage_ratio_percent: 50,
            stage_target_bps: 4_000_000,
            active_duration_ms: 3_000,
            epoch_ms: 500,
        }
    );
    for (index, target) in [(0u64, 4_000_000u64), (1, 6_000_000), (2, 8_000_000)] {
        let request = requested(client.action());
        assert_eq!(request.stage_index, index);
        assert_eq!(request.stage_target_bps, target);
        let expected_id = if index == 0 { None } else { Some(40) };
        assert_eq!(
            validate_request(&request, expected_id, index, 8_000_000),
            Ok(())
        );
        let enough = (target / 8) as usize;
        let log = run_stage(&mut client, &mut context, enough, ProbeEndStatus::Completed);
        assert_eq!(logged(log), (1, true, target, LogicalStatus::Completed, 3));
        take(&mut client, &mut context, ClientEvent::Logged);
    }
    assert_eq!(
        finished(client.action()),
        (1, 8_000_000, LogicalStatus::Completed)
    );
    assert!(matches!(
        take(&mut client, &mut context, ClientEvent::ControlFinished),
        ClientAction::Stop
    ));
}

#[test]
fn a_failing_stage_ends_the_logical_probe() {
    for (passing, status) in [
        (0, LogicalStatus::ValidationFailed),
        (1, LogicalStatus::ValidationFailedAt75),
        (2, LogicalStatus::ValidationFailedAt100),
    ] {
        let mut client = ProbeClient::begin(&settings()).unwrap();
        let mut context = ReceiverProbeContext::default();
        open(&mut client, &mut context);
        for _ in 0..passing {
            run_stage(
                &mut client,
                &mut context,
                1_000_000,
                ProbeEndStatus::Completed,
            );
            take(&mut client, &mut context, ClientEvent::Logged);
        }
        let highest = [0, 4_000_000, 6_000_000][passing];
        let log = run_stage(&mut client, &mut context, 1, ProbeEndStatus::Completed);
        assert_eq!(logged(log), (1, false, highest, status, 3));
        let last = take(&mut client, &mut context, ClientEvent::Logged);
        assert_eq!(finished(last), (1, highest, status));
    }
}

#[test]
fn backpressure_has_its_own_status() {
    let mut client = ProbeClient::begin(&settings()).unwrap();
    let mut context = ReceiverProbeContext::default();
    open(&mut client, &mut context);
    let log = run_stage(
        &mut client,
        &mut context,
        1_000_000,
        ProbeEndStatus::AbortedBackpressure,
    );
    assert_eq!(
        logged(log),
        (1, false, 0, LogicalStatus::AbortedBackpressure, 3)
    );
}

#[test]
fn logical_probes_are_spaced_and_numbered() {
    let mut client = ProbeClient::begin(&ProbeSettings {
        count: 2,
        ..settings()
    })
    .unwrap();
    let mut context = ReceiverProbeContext::default();
    open(&mut client, &mut context);
    run_stage(&mut client, &mut context, 1, ProbeEndStatus::Completed);
    take(&mut client, &mut context, ClientEvent::Logged);
    assert!(matches!(
        take(&mut client, &mut context, ClientEvent::ControlFinished),
        ClientAction::Pause { interval_ms: 1_000 }
    ));
    take(&mut client, &mut context, ClientEvent::PauseOver);
    let request = open(&mut client, &mut context);
    assert_eq!(request.request_id, 41);
    assert_eq!(request.stage_index, 0);
    let log = run_stage(&mut client, &mut context, 1, ProbeEndStatus::Completed);
    assert_eq!(
        logged(log),
        (2, false, 0, LogicalStatus::ValidationFailed, 3)
    );
    take(&mut client, &mut context, ClientEvent::Logged);
    assert!(matches!(
        take(&mut client, &mut context, ClientEvent::ControlFinished),
        ClientAction::Stop
    ));
}

#[test]
fn unexpected_messages_stop_the_client() {
    let now = Instant::now();
    let mut client = ProbeClient::begin(&settings()).unwrap();
    let mut context = ReceiverProbeContext::default();
    let request = open(&mut client, &mut context);
    take(&mut client, &mut context, ClientEvent::Sent);
    let mut other = client;
    let early = heard(end(&request, ProbeEndStatus::Completed), now);
    match take(&mut other, &mut context, early) {
        ClientAction::Fail(error) => {
            assert_eq!(error, ClientError::Refused("expected PROBE_START"))
        }
        action => panic!("{action:?}"),
    }
    let mut mismatched = client;
    let wrong = ProbeRequest {
        request_id: 41,
        ..request
    };
    match take(&mut mismatched, &mut context, heard(start(&wrong), now)) {
        ClientAction::Fail(error) => assert_eq!(
            error,
            ClientError::Probe(ProbeError::Protocol("request ID mismatch"))
        ),
        action => panic!("{action:?}"),
    }
    take(&mut client, &mut context, heard(start(&request), now));
    take(&mut client, &mut context, ClientEvent::Sent);
    match take(&mut client, &mut context, heard(start(&request), now)) {
        ClientAction::Fail(error) => assert_eq!(error, ClientError::Refused("expected PROBE_END")),
        action => panic!("{action:?}"),
    }
}

#[test]
fn a_busy_context_stops_the_client() {
    let mut client = ProbeClient::begin(&settings()).unwrap();
    let mut context = ReceiverProbeContext::default();
    context.begin_stage(1, 0, 50, 1, 90).unwrap();
    take(
        &mut client,
        &mut context,
        ClientEvent::SystemClock { timestamp_ms: 40 },
    );
    match take(&mut client, &mut context, ClientEvent::ControlOpened) {
        ClientAction::Fail(error) => assert_eq!(
            error,
            ClientError::Probe(ProbeError::State(
                "previous stage has not ended and cleaned up"
            ))
        ),
        action => panic!("{action:?}"),
    }
}

#[test]
fn request_ids_saturate() {
    let mut client = ProbeClient::begin(&ProbeSettings {
        count: 2,
        ..settings()
    })
    .unwrap();
    client.logical_index = 1;
    let mut context = ReceiverProbeContext::default();
    take(
        &mut client,
        &mut context,
        ClientEvent::SystemClock {
            timestamp_ms: u64::MAX,
        },
    );
    assert_eq!(client.request_id, u64::MAX);
}

#[test]
fn logical_statuses_have_labels() {
    for (status, label) in [
        (LogicalStatus::Completed, "COMPLETED"),
        (LogicalStatus::AbortedBackpressure, "ABORTED_BACKPRESSURE"),
        (LogicalStatus::ValidationFailed, "VALIDATION_FAILED"),
        (LogicalStatus::ValidationFailedAt75, "VALIDATION_FAILED_AT_75"),
        (
            LogicalStatus::ValidationFailedAt100,
            "VALIDATION_FAILED_AT_100",
        ),
    ] {
        assert_eq!(status.label(), label);
    }
    assert_eq!(
        LogicalStatus::of_failure(StageStatus::AbortedBackpressure, 2),
        LogicalStatus::AbortedBackpressure
    );
    assert_eq!(
        LogicalStatus::of_failure(StageStatus::ProtocolError, 1),
        LogicalStatus::ValidationFailedAt75
    );
}

#[test]
fn a_relay_refuses_only_targets_above_its_limit() {
    let mut client = ProbeClient::begin(&settings()).unwrap();
    let mut context = ReceiverProbeContext::default();
    let request = open(&mut client, &mut context);
    assert_eq!(validate_request(&request, None, 0, 4_000_000), Ok(()));
    assert_eq!(
        validate_request(&request, None, 0, 3_999_999),
        Err(ProbeError::Protocol(
            "stage target exceeds configured maximum"
        ))
    );
}
