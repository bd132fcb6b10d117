use std::time::Duration;

use moq_probe::protocol::{
    ProbeEnd, ProbeEndStatus, ProbeError, ProbeMessage, ProbeRequest, ProbeStart, ProbeStartAck,
};
use moq_probe::sender::{
    sender_end, SenderAction, SenderEvent, SenderProbeContext, SenderStage, SenderStageStats,
    WritePoll,
};

fn request() -> ProbeRequest {
    ProbeRequest {
        request_id: 7,
        stage_index: 0,
        stage_ratio_percent: 50,
        stage_target_bps: 4_000_000,
        active_duration_ms: 25,
        epoch_ms: 500,
    }
}

fn take(stage: &mut SenderStage, event: SenderEvent) -> SenderAction {
    assert!(stage.accepts(&event));
    stage.step(event);
    stage.action()
}

fn ack() -> SenderEvent {
    SenderEvent::Message(ProbeMessage::StartAck(ProbeStartAck {
        request_id: 7,
        stage_index: 0,
    }))
}

fn ready(written: usize) -> SenderEvent {
    SenderEvent::Polled(WritePoll::Ready(written))
}

fn clock(millis: u128) -> SenderEvent {
    SenderEvent::Clock {
        elapsed_nanos: millis * 1_000_000,
    }
}

fn triggering() -> SenderStage {
    let mut stage = SenderStage::begin(request());
    assert_eq!(
        stage.action(),
        SenderAction::OpenPadding {
            priority: i32::MIN,
            stream_type: 0x132B3E28
        }
    );
    assert_eq!(
        take(&mut stage, SenderEvent::PaddingOpened),
        SenderAction::SendStart(ProbeStart {
            request_id: 7,
            stage_index: 0,
            stage_target_bps: 4_000_000
        })
    );
    assert_eq!(
        take(&mut stage, SenderEvent::StartSent),
        SenderAction::ReadControl
    );
    assert_eq!(take(&mut stage, ack()), SenderAction::TakeBaseline);
    assert_eq!(
        take(&mut stage, SenderEvent::Baseline { media_total: 1_000 }),
        SenderAction::PollPadding { length: 1 }
    );
    stage
}

#[test]
fn sender_counters_are_isolated_per_connection() {
    let mut first = SenderProbeContext::default();
    let mut second = SenderProbeContext::default();
    first.record_media_payload(123);
    second.record_media_payload(7);
    assert_eq!(first.media_accepted_payload_bytes(), 123);
    assert_eq!(second.media_accepted_payload_bytes(), 7);
}

#[test]
fn media_counts_add_up() {
    let mut context = SenderProbeContext::default();
    context.record_media_payload(usize::MAX);
    context.record_media_payload(3);
    let sum = (usize::MAX as u64).wrapping_add(3);
    assert_eq!(context.media_accepted_payload_bytes(), sum);
}

#[test]
fn a_stage_runs_to_its_end() {
    let mut stage = triggering();
    assert_eq!(take(&mut stage, ready(1)), SenderAction::ReadClock);
    assert_eq!(take(&mut stage, clock(0)), SenderAction::ReadClock);
    assert_eq!(
        take(&mut stage, clock(1)),
        SenderAction::Wait { nanos: 10_000_000 }
    );
    assert_eq!(take(&mut stage, SenderEvent::WaitOver), SenderAction::Measure);
    // 4 Mbit/s allow 5000 bytes in 10 ms, of which media took 2000.
    assert_eq!(
        take(
            &mut stage,
            SenderEvent::Measured {
                elapsed_nanos: 10_000_000,
                media_total: 3_000
            }
        ),
        SenderAction::PollPadding { length: 1200 }
    );
    assert_eq!(
        take(&mut stage, ready(1200)),
        SenderAction::PollPadding { length: 1200 }
    );
    assert_eq!(
        take(&mut stage, ready(1000)),
        SenderAction::PollPadding { length: 799 }
    );
    assert_eq!(take(&mut stage, ready(799)), SenderAction::ReadClock);
    assert_eq!(take(&mut stage, clock(20)), SenderAction::ReadClock);
    assert_eq!(
        take(&mut stage, clock(20)),
        SenderAction::Wait { nanos: 5_000_000 }
    );
    assert_eq!(take(&mut stage, SenderEvent::WaitOver), SenderAction::Measure);
    assert_eq!(
        take(
            &mut stage,
            SenderEvent::Measured {
                elapsed_nanos: 26_000_000,
                media_total: 1_000_000
            }
        ),
        SenderAction::ReadClock
    );
    assert_eq!(take(&mut stage, clock(26)), SenderAction::FinishPadding);
    assert_eq!(
        take(
            &mut stage,
            SenderEvent::PaddingClosed {
                elapsed_nanos: 26_900_000,
                media_total: 1_001_000
            }
        ),
        SenderAction::Complete(ProbeEnd {
            request_id: 7,
            stage_index: 0,
            status: ProbeEndStatus::Completed,
            attempted_padding_bytes: 1 + 1200 + 1200 + 799,
            accepted_padding_bytes: 3_000,
            media_accepted_payload_bytes: 1_000_000,
            padding_pending_seen: false,
            stage_active_duration_ms: 26,
        })
    );
    assert!(!stage.accepts(&SenderEvent::WaitOver));
}

#[test]
fn budget_stops_at_the_active_duration() {
    let mut stage = triggering();
    take(&mut stage, ready(1));
    take(&mut stage, clock(0));
    take(&mut stage, clock(0));
    take(&mut stage, SenderEvent::WaitOver);
    take(
        &mut stage,
        SenderEvent::Measured {
            elapsed_nanos: 1_000_000_000_000,
            media_total: 0,
        },
    );
    let mut written = 1;
    while let SenderAction::PollPadding { length } = stage.action() {
        assert!(1 <= length && length <= 1200);
        written += length;
        take(&mut stage, ready(length));
    }
    assert_eq!(written, 12_500);
}

#[test]
fn a_pending_trigger_aborts_the_stage() {
    let mut stage = triggering();
    assert_eq!(
        take(&mut stage, SenderEvent::Polled(WritePoll::Pending)),
        SenderAction::ResetPadding { code: 0x42 }
    );
    assert_eq!(
        take(
            &mut stage,
            SenderEvent::PaddingClosed {
                elapsed_nanos: 2_000_000,
                media_total: 1_005
            }
        ),
        SenderAction::Complete(ProbeEnd {
            request_id: 7,
            stage_index: 0,
            status: ProbeEndStatus::AbortedBackpressure,
            attempted_padding_bytes: 1,
            accepted_padding_bytes: 0,
            media_accepted_payload_bytes: 5,
            padding_pending_seen: true,
            stage_active_duration_ms: 2,
        })
    );
}

#[test]
fn a_pending_write_aborts_the_stage() {
    let mut stage = triggering();
    take(&mut stage, ready(1));
    take(&mut stage, clock(0));
    take(&mut stage, clock(0));
    take(&mut stage, SenderEvent::WaitOver);
    take(
        &mut stage,
        SenderEvent::Measured {
            elapsed_nanos: 1_000_000,
            media_total: 1_000,
        },
    );
    assert_eq!(stage.action(), SenderAction::PollPadding { length: 499 });
    assert_eq!(
        take(&mut stage, SenderEvent::Polled(WritePoll::Pending)),
        SenderAction::ResetPadding { code: 0x42 }
    );
    let last = take(
        &mut stage,
        SenderEvent::PaddingClosed {
            elapsed_nanos: 1_000_000,
            media_total: 900,
        },
    );
    match last {
        SenderAction::Complete(end) => {
            assert_eq!(end.status, ProbeEndStatus::AbortedBackpressure);
            assert_eq!(end.attempted_padding_bytes, 500);
            assert_eq!(end.accepted_padding_bytes, 1);
            assert_eq!(end.media_accepted_payload_bytes, 0);
        }
        other => panic!("{other:?}"),
    }
}

#[test]
fn a_write_of_nothing_fails() {
    let mut stage = triggering();
    assert_eq!(
        take(&mut stage, ready(0)),
        SenderAction::Fail(ProbeError::ZeroWrite)
    );
}

#[test]
fn a_wrong_acknowledgement_is_a_protocol_error() {
    for message in [
        ProbeMessage::StartAck(ProbeStartAck {
            request_id: 8,
            stage_index: 0,
        }),
        ProbeMessage::StartAck(ProbeStartAck {
            request_id: 7,
            stage_index: 1,
        }),
        ProbeMessage::Request(request()),
    ] {
        let mut stage = SenderStage::begin(request());
        take(&mut stage, SenderEvent::PaddingOpened);
        take(&mut stage, SenderEvent::StartSent);
        assert_eq!(
            take(&mut stage, SenderEvent::Message(message)),
            SenderAction::FinishPadding
        );
        assert_eq!(
            take(
                &mut stage,
                SenderEvent::PaddingClosed {
                    elapsed_nanos: 9_000_000,
                    media_total: 9
                }
            ),
            SenderAction::Complete(ProbeEnd {
                request_id: 7,
                stage_index: 0,
                status: ProbeEndStatus::ProtocolError,
                attempted_padding_bytes: 0,
                accepted_padding_bytes: 0,
                media_accepted_payload_bytes: 0,
                padding_pending_seen: false,
                stage_active_duration_ms: 0,
            })
        );
    }
}

#[test]
fn the_control_stream_interrupts_a_wait() {
    let mut stage = triggering();
    take(&mut stage, ready(1));
    take(&mut stage, clock(0));
    take(&mut stage, clock(0));
    let mut lost = stage;
    assert_eq!(take(&mut stage, ack()), SenderAction::FinishPadding);
    let closed = SenderEvent::PaddingClosed {
        elapsed_nanos: 3_000_000,
        media_total: 1_000,
    };
    match take(&mut stage, closed) {
        SenderAction::Complete(end) => {
            assert_eq!(end.status, ProbeEndStatus::ProtocolError);
            assert_eq!(end.accepted_padding_bytes, 1);
            assert_eq!(end.stage_active_duration_ms, 3);
        }
        other => panic!("{other:?}"),
    }
    assert_eq!(
        take(&mut lost, SenderEvent::ControlFailed),
        SenderAction::FinishPadding
    );
    assert_eq!(take(&mut lost, closed), SenderAction::FailControl);
}

#[test]
fn reports_count_whole_milliseconds() {
    let stats = SenderStageStats {
        attempted_padding_bytes: 3,
        accepted_padding_bytes: 2,
        padding_pending_seen: true,
    };
    let end = sender_end(
        &request(),
        ProbeEndStatus::AbortedBackpressure,
        &stats,
        5,
        Duration::from_micros(2_999),
    );
    assert_eq!(
        end,
        ProbeEnd {
            request_id: 7,
            stage_index: 0,
            status: ProbeEndStatus::AbortedBackpressure,
            attempted_padding_bytes: 3,
            accepted_padding_bytes: 2,
            media_accepted_payload_bytes: 5,
            padding_pending_seen: true,
            stage_active_duration_ms: 2,
        }
    );
    assert_eq!(
        SenderStageStats::default(),
        SenderStageStats {
            attempted_padding_bytes: 0,
            accepted_padding_bytes: 0,
            padding_pending_seen: false
        }
    );
}
