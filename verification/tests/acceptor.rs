use moq_probe::acceptor::{
    validate_request, Acceptor, AcceptorAction, AcceptorEvent, ProbeConfig,
};
use moq_probe::protocol::{
    ProbeEnd, ProbeEndStatus, ProbeError, ProbeMessage, ProbeRequest, ProbeStartAck,
};

fn request() -> ProbeRequest {
    ProbeRequest {
        request_id: 7,
        stage_index: 0,
        stage_ratio_percent: 50,
        stage_target_bps: 4_000_000,
        active_duration_ms: 3_000,
        epoch_ms: 500,
    }
}

fn end(stage_index: u64, status: ProbeEndStatus) -> ProbeEnd {
    ProbeEnd {
        request_id: 7,
        stage_index,
        status,
        attempted_padding_bytes: 10,
        accepted_padding_bytes: 10,
        media_accepted_payload_bytes: 1,
        padding_pending_seen: false,
        stage_active_duration_ms: 3_000,
    }
}

fn take(acceptor: &mut Acceptor, event: AcceptorEvent) -> AcceptorAction {
    assert!(acceptor.accepts(&event));
    acceptor.step(event);
    acceptor.action()
}

fn awaiting() -> Acceptor {
    let config = ProbeConfig {
        enabled: true,
        log: None,
        max_target_bitrate_bps: 8_000_000,
    };
    let mut acceptor = Acceptor::begin(&config);
    assert_eq!(
        acceptor.action(),
        AcceptorAction::AcceptStream { priority: i32::MAX }
    );
    assert_eq!(
        take(&mut acceptor, AcceptorEvent::StreamAccepted),
        AcceptorAction::ReadNumber
    );
    assert_eq!(
        take(&mut acceptor, AcceptorEvent::Number(0xff00_0001)),
        AcceptorAction::ReadNumber
    );
    assert_eq!(
        take(&mut acceptor, AcceptorEvent::Number(1)),
        AcceptorAction::ReadMessage
    );
    acceptor
}

fn asked(request: ProbeRequest) -> AcceptorEvent {
    AcceptorEvent::Message(Ok(ProbeMessage::Request(request)))
}

#[test]
fn request_validation_rejects_bad_stage_parameters() {
    let mut candidate = request();
    assert!(validate_request(&candidate, None, 0, 4_000_000).is_ok());

    candidate.stage_ratio_percent = 75;
    assert!(validate_request(&candidate, None, 0, 4_000_000).is_err());

    candidate = request();
    candidate.active_duration_ms = 0;
    assert!(validate_request(&candidate, None, 0, 4_000_000).is_err());

    candidate = request();
    candidate.epoch_ms = 0;
    assert!(validate_request(&candidate, None, 0, 4_000_000).is_err());

    candidate = request();
    assert!(validate_request(&candidate, None, 0, 3_999_999).is_err());
}

#[test]
fn request_validation_enforces_logical_probe_order_and_identity() {
    let first = request();
    assert!(validate_request(&first, None, 0, 8_000_000).is_ok());

    let second = ProbeRequest {
        stage_index: 1,
        stage_ratio_percent: 75,
        stage_target_bps: 6_000_000,
        ..first.clone()
    };
    assert!(validate_request(&second, Some(first.request_id), 1, 8_000_000).is_ok());

    let wrong_id = ProbeRequest {
        request_id: first.request_id + 1,
        ..second.clone()
    };
    assert!(validate_request(&wrong_id, Some(first.request_id), 1, 8_000_000).is_err());
    assert!(validate_request(&second, Some(first.request_id), 2, 8_000_000).is_err());
}

#[test]
fn refusals_say_why() {
    let limit = 4_000_000;
    let protocol = |what| Err(ProbeError::Protocol(what));
    assert_eq!(
        validate_request(&request(), None, 1, limit),
        protocol("unexpected stage index")
    );
    assert_eq!(
        validate_request(&request(), Some(8), 0, limit),
        protocol("request ID changed within logical Probe")
    );
    let beyond = ProbeRequest {
        stage_index: 3,
        ..request()
    };
    assert_eq!(
        validate_request(&beyond, Some(7), 3, limit),
        protocol("stage index out of range")
    );
    assert_eq!(
        validate_request(
            &ProbeRequest {
                stage_ratio_percent: 51,
                ..request()
            },
            None,
            0,
            limit
        ),
        protocol("unexpected stage ratio")
    );
    assert_eq!(
        validate_request(&request(), None, 0, limit - 1),
        protocol("stage target exceeds configured maximum")
    );
    assert_eq!(
        validate_request(
            &ProbeRequest {
                epoch_ms: 0,
                ..request()
            },
            None,
            0,
            limit
        ),
        protocol("duration and epoch must be non-zero")
    );
}

#[test]
fn relays_are_off_by_default() {
    let config = ProbeConfig::default();
    assert!(!config.enabled);
    assert!(config.log.is_none());
    assert_eq!(config.max_target_bitrate_bps, 100_000_000);
    let acceptor = Acceptor::begin(&config);
    assert_eq!(acceptor.action(), AcceptorAction::Stop);
    assert!(!acceptor.accepts(&AcceptorEvent::StreamAccepted));
}

#[test]
fn three_stages_run_in_order_and_finish_the_stream() {
    let mut acceptor = awaiting();
    for (index, ratio) in [(0, 50), (1, 75), (2, 100)] {
        let request = ProbeRequest {
            stage_index: index,
            stage_ratio_percent: ratio,
            ..request()
        };
        assert_eq!(
            take(&mut acceptor, asked(request)),
            AcceptorAction::RunStage(request)
        );
        let end = end(index, ProbeEndStatus::Completed);
        assert_eq!(
            take(&mut acceptor, AcceptorEvent::StageEnded(end)),
            AcceptorAction::Report {
                request,
                end,
                finish: index == 2,
                refusal: None
            }
        );
        let next = take(&mut acceptor, AcceptorEvent::Reported);
        if index == 2 {
            assert_eq!(next, AcceptorAction::AcceptStream { priority: i32::MAX });
        } else {
            assert_eq!(next, AcceptorAction::ReadMessage);
        }
    }
}

#[test]
fn a_stage_that_fails_is_the_last() {
    for status in [
        ProbeEndStatus::AbortedBackpressure,
        ProbeEndStatus::ProtocolError,
    ] {
        let mut acceptor = awaiting();
        take(&mut acceptor, asked(request()));
        let end = end(0, status);
        assert_eq!(
            take(&mut acceptor, AcceptorEvent::StageEnded(end)),
            AcceptorAction::Report {
                request: request(),
                end,
                finish: true,
                refusal: None
            }
        );
        assert_eq!(
            take(&mut acceptor, AcceptorEvent::Reported),
            AcceptorAction::AcceptStream { priority: i32::MAX }
        );
    }
}

#[test]
fn a_refused_request_is_answered_with_an_empty_report() {
    let mut acceptor = awaiting();
    let early = ProbeRequest {
        stage_index: 1,
        stage_ratio_percent: 75,
        ..request()
    };
    assert_eq!(
        take(&mut acceptor, asked(early)),
        AcceptorAction::Report {
            request: early,
            end: ProbeEnd {
                request_id: 7,
                stage_index: 1,
                status: ProbeEndStatus::ProtocolError,
                attempted_padding_bytes: 0,
                accepted_padding_bytes: 0,
                media_accepted_payload_bytes: 0,
                padding_pending_seen: false,
                stage_active_duration_ms: 0,
            },
            finish: true,
            refusal: Some(ProbeError::Protocol("unexpected stage index")),
        }
    );
}

#[test]
fn the_next_stage_keeps_the_request_id() {
    let mut acceptor = awaiting();
    take(&mut acceptor, asked(request()));
    take(
        &mut acceptor,
        AcceptorEvent::StageEnded(end(0, ProbeEndStatus::Completed)),
    );
    take(&mut acceptor, AcceptorEvent::Reported);
    let other = ProbeRequest {
        request_id: 8,
        stage_index: 1,
        stage_ratio_percent: 75,
        ..request()
    };
    match take(&mut acceptor, asked(other)) {
        AcceptorAction::Report { refusal, .. } => assert_eq!(
            refusal,
            Some(ProbeError::Protocol(
                "request ID changed within logical Probe"
            ))
        ),
        action => panic!("{action:?}"),
    }
}

#[test]
fn streams_may_end_between_stages() {
    let mut acceptor = awaiting();
    assert_eq!(
        take(
            &mut acceptor,
            AcceptorEvent::Message(Err(ProbeError::EndOfStream))
        ),
        AcceptorAction::AcceptStream { priority: i32::MAX }
    );
}

#[test]
fn other_streams_and_messages_stop_the_relay() {
    let mut acceptor = awaiting();
    let message = ProbeMessage::StartAck(ProbeStartAck {
        request_id: 7,
        stage_index: 0,
    });
    assert_eq!(
        take(&mut acceptor, AcceptorEvent::Message(Ok(message))),
        AcceptorAction::Fail(ProbeError::Protocol("expected PROBE_REQUEST"))
    );
    let mut acceptor = awaiting();
    assert_eq!(
        take(
            &mut acceptor,
            AcceptorEvent::Message(Err(ProbeError::InvalidVarint))
        ),
        AcceptorAction::Fail(ProbeError::InvalidVarint)
    );
    let config = ProbeConfig {
        enabled: true,
        ..ProbeConfig::default()
    };
    let mut acceptor = Acceptor::begin(&config);
    take(&mut acceptor, AcceptorEvent::StreamAccepted);
    let mut old = acceptor;
    assert_eq!(
        take(&mut acceptor, AcceptorEvent::Number(0x132B3E28)),
        AcceptorAction::Fail(ProbeError::Protocol("unexpected bidirectional stream type"))
    );
    take(&mut old, AcceptorEvent::Number(0xff00_0001));
    assert_eq!(
        take(&mut old, AcceptorEvent::Number(2)),
        AcceptorAction::Fail(ProbeError::InvalidVersion(2))
    );
}
