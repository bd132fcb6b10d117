use std::time::{Duration, Instant};

use moq_probe::address::{moq_url, relay_address, ParsedUrl};
use moq_probe::csv::{
    accept_ratio_ppm, relay_header, relay_row, subscriber_header, subscriber_row, write_line, Field,
};
use moq_probe::protocol::{ProbeEnd, ProbeEndStatus, ProbeError, ProbeRequest, ProbeStart};
use moq_probe::receiver::{ReceiverProbeContext, StageStatus};
use moq_probe::text::{push_flag, push_number};

fn request() -> ProbeRequest {
    ProbeRequest {
        request_id: 7,
        stage_index: 1,
        stage_ratio_percent: 75,
        stage_target_bps: 6_000_000,
        active_duration_ms: 3_000,
        epoch_ms: 500,
    }
}

fn end(status: ProbeEndStatus) -> ProbeEnd {
    ProbeEnd {
        request_id: 7,
        stage_index: 1,
        status,
        attempted_padding_bytes: 10,
        accepted_padding_bytes: 9,
        media_accepted_payload_bytes: 991,
        padding_pending_seen: false,
        stage_active_duration_ms: 2_000,
    }
}

#[test]
fn numbers_are_written_in_decimal() {
    for number in [0, 7, 10, 99, 1_000_001, u64::MAX] {
        let mut out = "n=".to_string();
        push_number(&mut out, number);
        assert_eq!(out, format!("n={number}"));
    }
    let mut out = String::new();
    push_flag(&mut out, true);
    push_flag(&mut out, false);
    assert_eq!(out, "truefalse");
}

#[test]
fn errors_say_what_is_wrong() {
    for (error, message) in [
        (ProbeError::EndOfStream, "unexpected end of stream"),
        (ProbeError::InvalidVarint, "invalid varint"),
        (
            ProbeError::InvalidVersion(2),
            "unsupported probe protocol version: 2",
        ),
        (
            ProbeError::UnexpectedMessageType(9),
            "unexpected probe message type: 9",
        ),
        (
            ProbeError::InvalidEndStatus(3),
            "invalid probe end status: 3",
        ),
        (ProbeError::InvalidBoolean(2), "invalid probe boolean: 2"),
        (
            ProbeError::Protocol("duplicate END"),
            "probe protocol error: duplicate END",
        ),
        (
            ProbeError::State("START without active stage"),
            "probe state error: START without active stage",
        ),
        (ProbeError::ZeroWrite, "zero-length write"),
    ] {
        assert_eq!(error.message(), message);
    }
}

#[test]
fn lines_have_commas_and_a_line_feed() {
    assert_eq!(write_line(&[]), "\n");
    assert_eq!(write_line(&[Field::Flag(true)]), "true\n");
    assert_eq!(
        write_line(&[Field::Number(1), Field::Text("a"), Field::Flag(false)]),
        "1,a,false\n"
    );
}

#[test]
fn acceptance_is_counted_per_million() {
    assert_eq!(accept_ratio_ppm(9, 10), 900_000);
    assert_eq!(accept_ratio_ppm(0, 0), 1_000_000);
    assert_eq!(accept_ratio_ppm(1, 3), 333_333);
    assert_eq!(accept_ratio_ppm(u64::MAX, 2), u64::MAX / 2);
}

#[test]
fn relay_log_has_its_columns() {
    assert_eq!(
        relay_header(),
        "timestamp_ms,request_id,target_bitrate_bps,paced_target_bps,cwnd_bytes,attempted_padding_bytes,write_accepted_padding_bytes,accept_ratio_ppm,write_block_time_ms,media_write_bytes,raw_sender_app_bitrate_bps,epoch_elapsed_ms,stage_index,stage_ratio_percent,stage_target_bps,padding_pending_seen,padding_generation_stopped,padding_stream_finished,padding_stream_reset,reset_error_code,probe_end_status,stage_active_duration_ms\n"
    );
    assert_eq!(
        relay_row(123, &request(), &end(ProbeEndStatus::Completed)),
        "123,7,6000000,6000000,0,10,9,900000,0,991,4000,2000,1,75,6000000,false,true,true,false,0,Completed,2000\n"
    );
    assert_eq!(
        relay_row(123, &request(), &end(ProbeEndStatus::AbortedBackpressure)),
        "123,7,6000000,6000000,0,10,9,900000,0,991,4000,2000,1,75,6000000,false,true,false,true,66,AbortedBackpressure,2000\n"
    );
    assert_eq!(
        relay_row(123, &request(), &end(ProbeEndStatus::ProtocolError)),
        "123,7,6000000,6000000,0,10,9,900000,0,991,4000,2000,1,75,6000000,false,true,false,false,0,ProtocolError,2000\n"
    );
}

#[test]
fn subscriber_log_has_its_columns() {
    assert_eq!(
        subscriber_header(),
        "request_id,sample_index,timestamp_ms,probe_elapsed_ms,response_elapsed_ms,received_media_bytes,received_padding_stream_bytes,received_padding_datagram_bytes,total_received_bytes,receiver_goodput_bps,sender_app_written_bytes,sender_media_written_bytes,sender_padding_written_bytes,raw_sender_app_bitrate_bps,target_bitrate_bps,paced_target_bps,cwnd_bytes,logical_probe_index,stage_index,stage_ratio_percent,stage_target_bps,probe_start_received_time,first_post_start_padding_time,probe_end_received_time,measurement_duration_ms,arming_delay_ms,pre_start_padding_bytes,late_padding_bytes,media_goodput_bps,padding_goodput_bps,pass_percent,stage_passed,highest_validated_target_bps,result_valid,partial_measurement,stage_status,logical_probe_status,sender_attempted_padding_bytes,sender_accepted_padding_bytes,sender_media_accepted_payload_bytes,sender_total_accepted_payload_bytes,sender_app_bitrate_bps,padding_stream_finished,padding_stream_reset,reset_error_code\n"
    );
    let mut context = ReceiverProbeContext::default();
    let now = Instant::now();
    context.begin_stage(7, 1, 75, 6_000, 90).unwrap();
    context.on_padding_stream_open().unwrap();
    context.on_padding_payload_at(4, now, 98).unwrap();
    let start = ProbeStart {
        request_id: 7,
        stage_index: 1,
        stage_target_bps: 6_000,
    };
    context.on_probe_start_at(&start, now, 100).unwrap();
    context
        .on_padding_payload_at(500, now + Duration::from_millis(5), 105)
        .unwrap();
    context.on_media_payload(250, now + Duration::from_millis(6));
    let mut result = context
        .on_probe_end_at(
            &end(ProbeEndStatus::Completed),
            now + Duration::from_millis(1_005),
            1_105,
        )
        .unwrap();
    context.on_padding_payload(2, now).unwrap();
    context.on_padding_stream_reset(Some(66)).unwrap();
    context.refresh_after_padding_cleanup(&mut result).unwrap();
    assert_eq!(
        subscriber_row(2_000, 3, &result, 6_000, "COMPLETED"),
        "7,2,2000,1000,1000,250,500,0,750,6000,1000,991,9,4000,6000,6000,0,3,1,75,6000,100,105,1105,1000,5,4,2,2000,4000,90,true,6000,true,false,Completed,COMPLETED,10,9,991,1000,4000,false,true,66\n"
    );
    result.first_post_start_padding_timestamp_ms = None;
    result.arming_delay_ms = None;
    result.reset_error_code = None;
    result.status = StageStatus::ConnectionClosed;
    assert_eq!(
        subscriber_row(2_000, 3, &result, 0, "VALIDATION_FAILED"),
        "7,2,2000,1000,1000,250,500,0,750,6000,1000,991,9,4000,6000,6000,0,3,1,75,6000,100,0,1105,1000,0,4,2,2000,4000,90,true,0,true,false,ConnectionClosed,VALIDATION_FAILED,10,9,991,1000,4000,false,true,0\n"
    );
}

#[test]
fn statuses_have_names() {
    for status in [
        StageStatus::Completed,
        StageStatus::NoPostStartPadding,
        StageStatus::AbortedBackpressure,
        StageStatus::ProtocolError,
        StageStatus::ConnectionClosed,
    ] {
        assert_eq!(status.name(), format!("{status:?}"));
    }
    for status in [
        ProbeEndStatus::Completed,
        ProbeEndStatus::AbortedBackpressure,
        ProbeEndStatus::ProtocolError,
    ] {
        assert_eq!(status.name(), format!("{status:?}"));
    }
}

#[test]
fn relays_are_reached_by_two_schemes() {
    let url = moq_url("HTTPS://Localhost:443/a b").unwrap();
    assert_eq!(url.scheme, "https");
    assert_eq!(url.text, "https://localhost/a%20b");
    assert_eq!(moq_url("moqt://relay:4443/").unwrap().scheme, "moqt");
    assert_eq!(
        moq_url("http://localhost/").unwrap_err(),
        "url scheme must be https:// for WebTransport & moqt:// for QUIC"
    );
    assert_eq!(
        moq_url("localhost").unwrap_err(),
        "relative URL without a base"
    );
}

#[test]
fn addresses_are_kept_or_refused() {
    let parsed = |scheme: &str| ParsedUrl {
        scheme: scheme.to_string(),
        text: "text".to_string(),
    };
    assert_eq!(relay_address(Ok(parsed("https"))).unwrap().text, "text");
    assert_eq!(relay_address(Ok(parsed("moqt"))).unwrap().scheme, "moqt");
    assert!(relay_address(Ok(parsed("HTTPS"))).is_err());
    assert_eq!(
        relay_address(Err("bad".to_string())).unwrap_err(),
        "bad"
    );
}
