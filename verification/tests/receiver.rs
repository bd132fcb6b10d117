use std::time::{Duration, Instant};

use moq_probe::clock::now_ms;
use moq_probe::protocol::{ProbeEnd, ProbeEndStatus, ProbeError, ProbeStart};
use moq_probe::receiver::{stage_outcome, ReceiverProbeContext, StageStatus};

fn end(status: ProbeEndStatus) -> ProbeEnd {
    ProbeEnd {
        request_id: 7,
        stage_index: 0,
        status,
        attempted_padding_bytes: 5,
        accepted_padding_bytes: 5,
        media_accepted_payload_bytes: 0,
        padding_pending_seen: false,
        stage_active_duration_ms: 10,
    }
}

fn start(stage_target_bps: u64) -> ProbeStart {
    ProbeStart {
        request_id: 7,
        stage_index: 0,
        stage_target_bps,
    }
}

#[test]
fn start_only_does_not_start_measurement_and_pre_start_is_excluded() {
    let mut context = ReceiverProbeContext::default();
    let now = Instant::now();
    context.begin_stage(7, 0, 50, 4_000_000, 90).unwrap();
    context.on_padding_stream_open().unwrap();
    context.on_padding_payload(5, now).unwrap();
    context
        .on_probe_start(
            &ProbeStart {
                request_id: 7,
                stage_index: 0,
                stage_target_bps: 4_000_000,
            },
            now + Duration::from_millis(1),
        )
        .unwrap();
    context.on_media_payload(10, now + Duration::from_millis(2));
    let result = context
        .on_probe_end(
            &ProbeEnd {
                request_id: 7,
                stage_index: 0,
                status: ProbeEndStatus::Completed,
                attempted_padding_bytes: 5,
                accepted_padding_bytes: 5,
                media_accepted_payload_bytes: 0,
                padding_pending_seen: false,
                stage_active_duration_ms: 10,
            },
            now + Duration::from_millis(10),
        )
        .unwrap();
    assert_eq!(result.pre_start_padding_bytes, 5);
    assert_eq!(result.received_media_bytes, 0);
    assert_eq!(result.status, StageStatus::NoPostStartPadding);
    assert!(!result.result_valid);
}

#[test]
fn first_post_start_padding_starts_and_is_counted() {
    let mut context = ReceiverProbeContext::default();
    let now = Instant::now();
    context.begin_stage(7, 0, 50, 1_000, 90).unwrap();
    context.on_padding_stream_open().unwrap();
    context
        .on_probe_start(
            &ProbeStart {
                request_id: 7,
                stage_index: 0,
                stage_target_bps: 1_000,
            },
            now,
        )
        .unwrap();
    context.on_media_payload(10, now + Duration::from_millis(1));
    context
        .on_padding_payload(1, now + Duration::from_millis(2))
        .unwrap();
    context.on_media_payload(10, now + Duration::from_millis(3));
    context
        .on_padding_payload(2, now + Duration::from_millis(4))
        .unwrap();
    let result = context
        .on_probe_end(
            &ProbeEnd {
                request_id: 7,
                stage_index: 0,
                status: ProbeEndStatus::Completed,
                attempted_padding_bytes: 3,
                accepted_padding_bytes: 3,
                media_accepted_payload_bytes: 10,
                padding_pending_seen: false,
                stage_active_duration_ms: 10,
            },
            now + Duration::from_millis(12),
        )
        .unwrap();
    assert_eq!(result.received_padding_bytes, 3);
    assert_eq!(result.received_media_bytes, 10);
    assert_eq!(result.arming_delay_ms, Some(2));
    assert_eq!(result.sender_attempted_padding_bytes, 3);
    assert_eq!(result.sender_accepted_padding_bytes, 3);
    assert_eq!(result.sender_media_accepted_payload_bytes, 10);
    assert_eq!(result.sender_total_accepted_payload_bytes, 13);
    assert!(result.result_valid);

    context
        .on_padding_payload(7, now + Duration::from_millis(13))
        .unwrap();
    assert_eq!(context.late_padding_bytes(), 7);
}

#[test]
fn abort_is_partial_and_never_passes() {
    let mut context = ReceiverProbeContext::default();
    let now = Instant::now();
    context.begin_stage(7, 0, 50, 1, 90).unwrap();
    context.on_padding_stream_open().unwrap();
    context
        .on_probe_start(
            &ProbeStart {
                request_id: 7,
                stage_index: 0,
                stage_target_bps: 1,
            },
            now,
        )
        .unwrap();
    context
        .on_padding_payload(1, now + Duration::from_millis(1))
        .unwrap();
    let result = context
        .on_probe_end(
            &ProbeEnd {
                request_id: 7,
                stage_index: 0,
                status: ProbeEndStatus::AbortedBackpressure,
                attempted_padding_bytes: 1,
                accepted_padding_bytes: 0,
                media_accepted_payload_bytes: 0,
                padding_pending_seen: true,
                stage_active_duration_ms: 2,
            },
            now + Duration::from_millis(2),
        )
        .unwrap();
    assert!(result.partial_measurement);
    assert!(!result.result_valid);
    assert!(!result.stage_passed);
}

#[test]
fn padding_reset_preserves_the_observed_error_code() {
    let mut context = ReceiverProbeContext::default();
    let now = Instant::now();
    context.begin_stage(7, 0, 50, 1, 90).unwrap();
    context.on_padding_stream_open().unwrap();
    context
        .on_probe_start(
            &ProbeStart {
                request_id: 7,
                stage_index: 0,
                stage_target_bps: 1,
            },
            now,
        )
        .unwrap();
    context
        .on_padding_payload(1, now + Duration::from_millis(1))
        .unwrap();
    let mut result = context
        .on_probe_end(
            &ProbeEnd {
                request_id: 7,
                stage_index: 0,
                status: ProbeEndStatus::Completed,
                attempted_padding_bytes: 1,
                accepted_padding_bytes: 1,
                media_accepted_payload_bytes: 0,
                padding_pending_seen: false,
                stage_active_duration_ms: 2,
            },
            now + Duration::from_millis(2),
        )
        .unwrap();
    context.on_padding_stream_reset(Some(7)).unwrap();
    context.refresh_after_padding_cleanup(&mut result).unwrap();

    assert!(result.padding_stream_reset);
    assert_eq!(result.reset_error_code, Some(7));
}

#[test]
fn nothing_happens_without_a_stage() {
    let mut context = ReceiverProbeContext::default();
    let now = Instant::now();
    assert_eq!(
        context.on_probe_start(&start(1), now),
        Err(ProbeError::State("START without active stage"))
    );
    assert_eq!(
        context.on_padding_stream_open(),
        Err(ProbeError::State("Padding stream without active stage"))
    );
    assert_eq!(context.on_padding_payload(0, now), Ok(()));
    assert_eq!(
        context.on_padding_payload(1, now),
        Err(ProbeError::State("Padding payload without active stage"))
    );
    context.on_media_payload(1, now);
    assert_eq!(
        context.on_padding_stream_finished(),
        Err(ProbeError::State("Padding FIN without active stage"))
    );
    assert_eq!(
        context.on_padding_stream_reset(None),
        Err(ProbeError::State("Padding reset without active stage"))
    );
    assert_eq!(
        context
            .on_probe_end(&end(ProbeEndStatus::Completed), now)
            .err(),
        Some(ProbeError::State("END without active stage"))
    );
    assert_eq!(context.late_padding_bytes(), 0);
    assert!(context.padding_cleaned_up());
}

#[test]
fn messages_of_other_stages_are_refused() {
    let mut context = ReceiverProbeContext::default();
    let now = Instant::now();
    context.begin_stage(7, 0, 50, 1, 90).unwrap();
    let other_id = ProbeStart {
        request_id: 8,
        ..start(1)
    };
    assert_eq!(
        context.on_probe_start(&other_id, now),
        Err(ProbeError::Protocol("request ID mismatch"))
    );
    let other_stage = ProbeStart {
        stage_index: 1,
        ..start(1)
    };
    assert_eq!(
        context.on_probe_start(&other_stage, now),
        Err(ProbeError::Protocol("stage index mismatch"))
    );
    assert_eq!(
        context.on_probe_start(&start(2), now),
        Err(ProbeError::Protocol("START target does not match request"))
    );
    context.on_probe_start(&start(1), now).unwrap();
    assert_eq!(
        context.on_probe_start(&start(1), now),
        Err(ProbeError::Protocol("duplicate or out-of-order START"))
    );
}

#[test]
fn end_before_start_ends_the_stage_without_a_result() {
    let mut context = ReceiverProbeContext::default();
    let now = Instant::now();
    context.begin_stage(7, 0, 50, 1, 90).unwrap();
    assert_eq!(
        context
            .on_probe_end(&end(ProbeEndStatus::Completed), now)
            .err(),
        Some(ProbeError::Protocol("END received before START"))
    );
    assert_eq!(
        context
            .on_probe_end(&end(ProbeEndStatus::Completed), now)
            .err(),
        Some(ProbeError::Protocol("duplicate END"))
    );
    assert_eq!(context.begin_stage(7, 1, 75, 1, 90), Ok(()));
}

#[test]
fn the_next_stage_waits_for_end_and_cleanup() {
    let refused = Err(ProbeError::State(
        "previous stage has not ended and cleaned up",
    ));
    let mut context = ReceiverProbeContext::default();
    let now = Instant::now();
    context.begin_stage(7, 0, 50, 1, 90).unwrap();
    assert_eq!(context.begin_stage(7, 1, 75, 1, 90), refused);
    context.on_padding_stream_open().unwrap();
    assert_eq!(
        context.on_padding_stream_open(),
        Err(ProbeError::Protocol("overlapping Padding streams"))
    );
    assert!(!context.padding_cleaned_up());
    context.on_probe_start(&start(1), now).unwrap();
    context
        .on_probe_end(&end(ProbeEndStatus::Completed), now)
        .unwrap();
    assert_eq!(context.begin_stage(7, 1, 75, 1, 90), refused);
    context.on_padding_stream_finished().unwrap();
    assert_eq!(
        context.on_padding_stream_reset(Some(1)),
        Err(ProbeError::Protocol("duplicate Padding cleanup"))
    );
    assert!(context.padding_cleaned_up());
    assert_eq!(context.begin_stage(7, 1, 75, 1, 90), Ok(()));
}

#[test]
fn timestamps_are_those_given() {
    let mut context = ReceiverProbeContext::default();
    let now = Instant::now();
    context.begin_stage(7, 0, 50, 80_000, 90).unwrap();
    context.on_probe_start_at(&start(80_000), now, 100).unwrap();
    context
        .on_padding_payload_at(60, now + Duration::from_millis(3), 103)
        .unwrap();
    context.on_media_payload(40, now + Duration::from_millis(4));
    let result = context
        .on_probe_end_at(
            &end(ProbeEndStatus::Completed),
            now + Duration::from_millis(13),
            113,
        )
        .unwrap();
    assert_eq!(result.probe_start_received_timestamp_ms, 100);
    assert_eq!(result.first_post_start_padding_timestamp_ms, Some(103));
    assert_eq!(result.probe_end_received_timestamp_ms, 113);
    assert_eq!(result.measurement_duration_ms, 10);
    assert_eq!(result.arming_delay_ms, Some(3));
    assert_eq!(result.padding_goodput_bps, 48_000);
    assert_eq!(result.media_goodput_bps, 32_000);
    assert_eq!(result.receiver_goodput_bps, 80_000);
    assert_eq!(result.sender_app_bitrate_bps, 4_000);
    assert!(result.stage_passed);
}

#[test]
fn refresh_is_for_the_own_stage() {
    let mut context = ReceiverProbeContext::default();
    let now = Instant::now();
    context.begin_stage(7, 0, 50, 1, 90).unwrap();
    context.on_probe_start(&start(1), now).unwrap();
    let mut result = context
        .on_probe_end(&end(ProbeEndStatus::ProtocolError), now)
        .unwrap();
    assert_eq!(result.status, StageStatus::ProtocolError);
    context.on_padding_payload(9, now).unwrap();
    context.refresh_after_padding_cleanup(&mut result).unwrap();
    assert_eq!(result.late_padding_bytes, 9);
    context.begin_stage(7, 1, 75, 1, 90).unwrap();
    assert_eq!(
        context.refresh_after_padding_cleanup(&mut result),
        Err(ProbeError::Protocol("stage index mismatch"))
    );
    assert_eq!(
        ReceiverProbeContext::default().refresh_after_padding_cleanup(&mut result),
        Err(ProbeError::State("no stage result to refresh"))
    );
}

#[test]
fn outcomes_depend_on_status_and_goodput() {
    let passed = stage_outcome(true, 1_000, 50, 75, 1_000, 90, ProbeEndStatus::Completed);
    assert_eq!(passed.media_goodput_bps, 400);
    assert_eq!(passed.padding_goodput_bps, 600);
    assert_eq!(passed.receiver_goodput_bps, 1_000);
    assert!(passed.stage_passed && passed.result_valid && !passed.partial_measurement);
    let slow = stage_outcome(true, 1_000, 0, 112, 1_000, 90, ProbeEndStatus::Completed);
    assert!(slow.result_valid && !slow.stage_passed);
    let instant = stage_outcome(true, 0, 0, 112, 1_000, 90, ProbeEndStatus::Completed);
    assert_eq!(instant.status, StageStatus::NoPostStartPadding);
    let aborted = stage_outcome(
        true,
        1_000,
        50,
        75,
        1_000,
        90,
        ProbeEndStatus::AbortedBackpressure,
    );
    assert_eq!(aborted.status, StageStatus::AbortedBackpressure);
    assert!(aborted.partial_measurement && !aborted.stage_passed);
}

#[test]
fn a_reset_before_end_is_in_the_result() {
    let mut context = ReceiverProbeContext::default();
    let now = Instant::now();
    context.begin_stage(7, 0, 50, 1, 90).unwrap();
    context.on_padding_stream_open().unwrap();
    context.on_probe_start(&start(1), now).unwrap();
    context.on_padding_stream_reset(Some(0x42)).unwrap();
    context.on_padding_payload(1, now).unwrap();
    let result = context
        .on_probe_end(&end(ProbeEndStatus::AbortedBackpressure), now)
        .unwrap();
    assert!(result.padding_stream_reset);
    assert_eq!(result.reset_error_code, Some(0x42));
}

#[test]
fn timestamps_are_read_from_the_system_clock() {
    let mut context = ReceiverProbeContext::default();
    let now = Instant::now();
    let before = now_ms();
    context.begin_stage(7, 0, 50, 1, 90).unwrap();
    context.on_probe_start(&start(1), now).unwrap();
    context.on_padding_payload(1, now).unwrap();
    let result = context
        .on_probe_end(&end(ProbeEndStatus::Completed), now)
        .unwrap();
    assert!(before > 0);
    assert!(result.probe_start_received_timestamp_ms >= before);
    assert!(result.first_post_start_padding_timestamp_ms.unwrap() >= before);
    assert!(result.probe_end_received_timestamp_ms >= before);
}
