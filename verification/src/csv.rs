//! The logs that a relay and a subscriber keep of their stages.

use vstd::prelude::*;
use vstd::string::StringExecFns;

use crate::protocol::{ProbeEnd, ProbeEndStatus, ProbeRequest, PROBE_PADDING_ABORTED_BACKPRESSURE};
use crate::rate;
use crate::rate::bitrate_bps;
use crate::receiver;
use crate::receiver::{StageResult, StageStatus};
use crate::text;
use crate::text::{push_flag, push_number};

verus! {

/// A field of a log line.
#[derive(Debug, Clone, Copy, PartialEq, Eq)]
pub enum Field<'a> {
    Number(u64),
    Flag(bool),
    Text(&'a str),
}

impl<'a> Field<'a> {
    /// The field as it is written.
    pub open spec fn written(self) -> Seq<char> {
        match self {
            Field::Number(n) => text::decimal(n as nat),
            Field::Flag(flag) => text::flag_text(flag),
            Field::Text(word) => word@,
        }
    }

    fn push(&self, out: &mut String)
        ensures
            final(out)@ == old(out)@ + self.written(),
    {
        match self {
            Field::Number(n) => push_number(out, *n),
            Field::Flag(flag) => push_flag(out, *flag),
            Field::Text(word) => out.append(word),
        }
    }
}

/// Fields with commas between them.
pub open spec fn joined(fields: Seq<Field>) -> Seq<char>
    decreases fields.len(),
{
    if fields.len() == 0 {
        Seq::empty()
    } else if fields.len() == 1 {
        fields[0].written()
    } else {
        joined(fields.drop_last()) + ","@ + fields.last().written()
    }
}

/// A line of fields with commas between them and a line feed behind.
pub open spec fn line(fields: Seq<Field>) -> Seq<char> {
    joined(fields) + "\n"@
}

/// Writes fields as a line.
pub fn write_line(fields: &[Field]) -> (out: String)
    ensures
        out@ == line(fields@),
{
    let mut out: String = String::new();
    let mut i: usize = 0;
    while i < fields.len()
        invariant
            i <= fields.len(),
            out@ == joined(fields@.take(i as int)),
        decreases fields.len() - i,
    {
        if i > 0 {
            out.append(",");
        }
        fields[i].push(&mut out);
        proof {
            let next = fields@.take(i + 1);
            assert(next.drop_last() =~= fields@.take(i as int));
            assert(next.last() == fields@[i as int]);
            if i == 0 {
                assert(fields@.take(0) =~= Seq::empty());
                assert(Seq::<char>::empty() + next[0].written() =~= next[0].written());
            }
        }
        i += 1;
    }
    assert(fields@.take(i as int) =~= fields@);
    out.append("\n");
    out
}

impl ProbeEndStatus {
    /// The name of the status.
    pub open spec fn spec_name(self) -> &'static str {
        match self {
            ProbeEndStatus::Completed => "Completed",
            ProbeEndStatus::AbortedBackpressure => "AbortedBackpressure",
            ProbeEndStatus::ProtocolError => "ProtocolError",
        }
    }

    /// The name of the status.
    pub fn name(self) -> (name: &'static str)
        ensures
            name == self.spec_name(),
    {
        match self {
            ProbeEndStatus::Completed => "Completed",
            ProbeEndStatus::AbortedBackpressure => "AbortedBackpressure",
            ProbeEndStatus::ProtocolError => "ProtocolError",
        }
    }
}

impl StageStatus {
    /// The name of the status.
    pub open spec fn spec_name(self) -> &'static str {
        match self {
            StageStatus::Completed => "Completed",
            StageStatus::NoPostStartPadding => "NoPostStartPadding",
            StageStatus::AbortedBackpressure => "AbortedBackpressure",
            StageStatus::ProtocolError => "ProtocolError",
            StageStatus::ConnectionClosed => "ConnectionClosed",
        }
    }

    /// The name of the status.
    pub fn name(self) -> (name: &'static str)
        ensures
            name == self.spec_name(),
    {
        match self {
            StageStatus::Completed => "Completed",
            StageStatus::NoPostStartPadding => "NoPostStartPadding",
            StageStatus::AbortedBackpressure => "AbortedBackpressure",
            StageStatus::ProtocolError => "ProtocolError",
            StageStatus::ConnectionClosed => "ConnectionClosed",
        }
    }
}

/// Accepted bytes per million attempted ones. Where nothing was attempted, all of
/// it was accepted.
pub open spec fn ratio_ppm(accepted: u64, attempted: u64) -> u64 {
    if attempted == 0 {
        1_000_000
    } else {
        (rate::capped(accepted * 1_000_000) / attempted) as u64
    }
}

/// Accepted bytes per million attempted ones.
pub fn accept_ratio_ppm(accepted: u64, attempted: u64) -> (ppm: u64)
    ensures
        ppm == ratio_ppm(accepted, attempted),
{
    if attempted == 0 {
        return 1_000_000;
    }
    let scaled: u64 = match accepted.checked_mul(1_000_000) {
        Some(scaled) => scaled,
        None => u64::MAX,
    };
    scaled / attempted
}

/// The columns of the relay's log.
pub open spec fn relay_columns() -> Seq<Field<'static>> {
    seq![
        Field::Text("timestamp_ms"),
        Field::Text("request_id"),
        Field::Text("target_bitrate_bps"),
        Field::Text("paced_target_bps"),
        Field::Text("cwnd_bytes"),
        Field::Text("attempted_padding_bytes"),
        Field::Text("write_accepted_padding_bytes"),
        Field::Text("accept_ratio_ppm"),
        Field::Text("write_block_time_ms"),
        Field::Text("media_write_bytes"),
        Field::Text("raw_sender_app_bitrate_bps"),
        Field::Text("epoch_elapsed_ms"),
        Field::Text("stage_index"),
        Field::Text("stage_ratio_percent"),
        Field::Text("stage_target_bps"),
        Field::Text("padding_pending_seen"),
        Field::Text("padding_generation_stopped"),
        Field::Text("padding_stream_finished"),
        Field::Text("padding_stream_reset"),
        Field::Text("reset_error_code"),
        Field::Text("probe_end_status"),
        Field::Text("stage_active_duration_ms"),
    ]
}

/// The fields of the relay's log for a stage.
pub open spec fn relay_fields(timestamp_ms: u64, request: ProbeRequest, end: ProbeEnd) -> Seq<
    Field<'static>,
> {
    seq![
        Field::Number(timestamp_ms),
        Field::Number(request.request_id),
        Field::Number(request.stage_target_bps),
        Field::Number(request.stage_target_bps),
        Field::Number(0),
        Field::Number(end.attempted_padding_bytes),
        Field::Number(end.accepted_padding_bytes),
        Field::Number(ratio_ppm(end.accepted_padding_bytes, end.attempted_padding_bytes)),
        Field::Number(0),
        Field::Number(end.media_accepted_payload_bytes),
        Field::Number(
            rate::bitrate(
                rate::capped(end.media_accepted_payload_bytes + end.accepted_padding_bytes),
                end.stage_active_duration_ms,
            ),
        ),
        Field::Number(end.stage_active_duration_ms),
        Field::Number(request.stage_index),
        Field::Number(request.stage_ratio_percent),
        Field::Number(request.stage_target_bps),
        Field::Flag(end.padding_pending_seen),
        Field::Flag(true),
        Field::Flag(end.status == ProbeEndStatus::Completed),
        Field::Flag(end.status == ProbeEndStatus::AbortedBackpressure),
        Field::Number(
            if end.status == ProbeEndStatus::AbortedBackpressure {
                PROBE_PADDING_ABORTED_BACKPRESSURE as u64
            } else {
                0
            },
        ),
        Field::Text(end.status.spec_name()),
        Field::Number(end.stage_active_duration_ms),
    ]
}

/// The first line of the relay's log.
pub fn relay_header() -> (header: String)
    ensures
        header@ == line(relay_columns()),
{
    let fields = [
        Field::Text("timestamp_ms"),
        Field::Text("request_id"),
        Field::Text("target_bitrate_bps"),
        Field::Text("paced_target_bps"),
        Field::Text("cwnd_bytes"),
        Field::Text("attempted_padding_bytes"),
        Field::Text("write_accepted_padding_bytes"),
        Field::Text("accept_ratio_ppm"),
        Field::Text("write_block_time_ms"),
        Field::Text("media_write_bytes"),
        Field::Text("raw_sender_app_bitrate_bps"),
        Field::Text("epoch_elapsed_ms"),
        Field::Text("stage_index"),
        Field::Text("stage_ratio_percent"),
        Field::Text("stage_target_bps"),
        Field::Text("padding_pending_seen"),
        Field::Text("padding_generation_stopped"),
        Field::Text("padding_stream_finished"),
        Field::Text("padding_stream_reset"),
        Field::Text("reset_error_code"),
        Field::Text("probe_end_status"),
        Field::Text("stage_active_duration_ms"),
    ];
    assert(fields@ =~= relay_columns());
    write_line(&fields)
}

/// A line of the relay's log, written at `timestamp_ms`.
pub fn relay_row(timestamp_ms: u64, request: &ProbeRequest, end: &ProbeEnd) -> (row: String)
    ensures
        row@ == line(relay_fields(timestamp_ms, *request, *end)),
{
    let ratio: u64 = accept_ratio_ppm(end.accepted_padding_bytes, end.attempted_padding_bytes);
    let padding_generation_stopped = true;
    let sender_total_accepted_payload_bytes: u64 = end.media_accepted_payload_bytes.saturating_add(
        end.accepted_padding_bytes,
    );
    let sender_app_bitrate_bps: u64 = bitrate_bps(
        sender_total_accepted_payload_bytes,
        end.stage_active_duration_ms,
    );
    let aborted = end.status == ProbeEndStatus::AbortedBackpressure;
    let reset_error_code: u64 = if aborted {
        PROBE_PADDING_ABORTED_BACKPRESSURE as u64
    } else {
        0
    };
    let fields = [
        Field::Number(timestamp_ms),
        Field::Number(request.request_id),
        Field::Number(request.stage_target_bps),
        Field::Number(request.stage_target_bps),
        Field::Number(0),
        Field::Number(end.attempted_padding_bytes),
        Field::Number(end.accepted_padding_bytes),
        Field::Number(ratio),
        Field::Number(0),
        Field::Number(end.media_accepted_payload_bytes),
        Field::Number(sender_app_bitrate_bps),
        Field::Number(end.stage_active_duration_ms),
        Field::Number(request.stage_index),
        Field::Number(request.stage_ratio_percent),
        Field::Number(request.stage_target_bps),
        Field::Flag(end.padding_pending_seen),
        Field::Flag(padding_generation_stopped),
        Field::Flag(end.status == ProbeEndStatus::Completed),
        Field::Flag(aborted),
        Field::Number(reset_error_code),
        Field::Text(end.status.name()),
        Field::Number(end.stage_active_duration_ms),
    ];
    assert(fields@ =~= relay_fields(timestamp_ms, *request, *end));
    write_line(&fields)
}

/// A number, or zero where there is none.
pub open spec fn or_zero(number: Option<u64>) -> u64 {
    match number {
        Some(number) => number,
        None => 0,
    }
}

/// The columns of a subscriber's log.
pub open spec fn subscriber_columns() -> Seq<Field<'static>> {
    seq![
        Field::Text("request_id"),
        Field::Text("sample_index"),
        Field::Text("timestamp_ms"),
        Field::Text("probe_elapsed_ms"),
        Field::Text("response_elapsed_ms"),
        Field::Text("received_media_bytes"),
        Field::Text("received_padding_stream_bytes"),
        Field::Text("received_padding_datagram_bytes"),
        Field::Text("total_received_bytes"),
        Field::Text("receiver_goodput_bps"),
        Field::Text("sender_app_written_bytes"),
        Field::Text("sender_media_written_bytes"),
        Field::Text("sender_padding_written_bytes"),
        Field::Text("raw_sender_app_bitrate_bps"),
        Field::Text("target_bitrate_bps"),
        Field::Text("paced_target_bps"),
        Field::Text("cwnd_bytes"),
        Field::Text("logical_probe_index"),
        Field::Text("stage_index"),
        Field::Text("stage_ratio_percent"),
        Field::Text("stage_target_bps"),
        Field::Text("probe_start_received_time"),
        Field::Text("first_post_start_padding_time"),
        Field::Text("probe_end_received_time"),
        Field::Text("measurement_duration_ms"),
        Field::Text("arming_delay_ms"),
        Field::Text("pre_start_padding_bytes"),
        Field::Text("late_padding_bytes"),
        Field::Text("media_goodput_bps"),
        Field::Text("padding_goodput_bps"),
        Field::Text("pass_percent"),
        Field::Text("stage_passed"),
        Field::Text("highest_validated_target_bps"),
        Field::Text("result_valid"),
        Field::Text("partial_measurement"),
        Field::Text("stage_status"),
        Field::Text("logical_probe_status"),
        Field::Text("sender_attempted_padding_bytes"),
        Field::Text("sender_accepted_padding_bytes"),
        Field::Text("sender_media_accepted_payload_bytes"),
        Field::Text("sender_total_accepted_payload_bytes"),
        Field::Text("sender_app_bitrate_bps"),
        Field::Text("padding_stream_finished"),
        Field::Text("padding_stream_reset"),
        Field::Text("reset_error_code"),
    ]
}

/// The fields of a subscriber's log for a stage.
pub open spec fn subscriber_fields<'a>(
    timestamp_ms: u64,
    logical_probe_index: u64,
    result: StageResult,
    highest_validated_target_bps: u64,
    logical_status: &'a str,
) -> Seq<Field<'a>> {
    seq![
        Field::Number(result.request_id),
        Field::Number((result.stage_index + 1) as u64),
        Field::Number(timestamp_ms),
        Field::Number(result.measurement_duration_ms),
        Field::Number(result.measurement_duration_ms),
        Field::Number(result.received_media_bytes),
        Field::Number(result.received_padding_bytes),
        Field::Number(0),
        Field::Number(rate::capped(result.received_media_bytes + result.received_padding_bytes)),
        Field::Number(result.receiver_goodput_bps),
        Field::Number(result.sender_total_accepted_payload_bytes),
        Field::Number(result.sender_media_accepted_payload_bytes),
        Field::Number(result.sender_accepted_padding_bytes),
        Field::Number(result.sender_app_bitrate_bps),
        Field::Number(result.stage_target_bps),
        Field::Number(result.stage_target_bps),
        Field::Number(0),
        Field::Number(logical_probe_index),
        Field::Number(result.stage_index),
        Field::Number(result.stage_ratio_percent),
        Field::Number(result.stage_target_bps),
        Field::Number(result.probe_start_received_timestamp_ms),
        Field::Number(or_zero(result.first_post_start_padding_timestamp_ms)),
        Field::Number(result.probe_end_received_timestamp_ms),
        Field::Number(result.measurement_duration_ms),
        Field::Number(or_zero(result.arming_delay_ms)),
        Field::Number(result.pre_start_padding_bytes),
        Field::Number(result.late_padding_bytes),
        Field::Number(result.media_goodput_bps),
        Field::Number(result.padding_goodput_bps),
        Field::Number(result.pass_percent),
        Field::Flag(result.stage_passed),
        Field::Number(highest_validated_target_bps),
        Field::Flag(result.result_valid),
        Field::Flag(result.partial_measurement),
        Field::Text(result.status.spec_name()),
        Field::Text(logical_status),
        Field::Number(result.sender_attempted_padding_bytes),
        Field::Number(result.sender_accepted_padding_bytes),
        Field::Number(result.sender_media_accepted_payload_bytes),
        Field::Number(result.sender_total_accepted_payload_bytes),
        Field::Number(result.sender_app_bitrate_bps),
        Field::Flag(result.padding_stream_finished),
        Field::Flag(result.padding_stream_reset),
        Field::Number(
            match result.reset_error_code {
                Some(code) => code as u64,
                None => 0,
            },
        ),
    ]
}

/// The first line of a subscriber's log.
pub fn subscriber_header() -> (header: String)
    ensures
        header@ == line(subscriber_columns()),
{
    let fields = [
        Field::Text("request_id"),
        Field::Text("sample_index"),
        Field::Text("timestamp_ms"),
        Field::Text("probe_elapsed_ms"),
        Field::Text("response_elapsed_ms"),
        Field::Text("received_media_bytes"),
        Field::Text("received_padding_stream_bytes"),
        Field::Text("received_padding_datagram_bytes"),
        Field::Text("total_received_bytes"),
        Field::Text("receiver_goodput_bps"),
        Field::Text("sender_app_written_bytes"),
        Field::Text("sender_media_written_bytes"),
        Field::Text("sender_padding_written_bytes"),
        Field::Text("raw_sender_app_bitrate_bps"),
        Field::Text("target_bitrate_bps"),
        Field::Text("paced_target_bps"),
        Field::Text("cwnd_bytes"),
        Field::Text("logical_probe_index"),
        Field::Text("stage_index"),
        Field::Text("stage_ratio_percent"),
        Field::Text("stage_target_bps"),
        Field::Text("probe_start_received_time"),
        Field::Text("first_post_start_padding_time"),
        Field::Text("probe_end_received_time"),
        Field::Text("measurement_duration_ms"),
        Field::Text("arming_delay_ms"),
        Field::Text("pre_start_padding_bytes"),
        Field::Text("late_padding_bytes"),
        Field::Text("media_goodput_bps"),
        Field::Text("padding_goodput_bps"),
        Field::Text("pass_percent"),
        Field::Text("stage_passed"),
        Field::Text("highest_validated_target_bps"),
        Field::Text("result_valid"),
        Field::Text("partial_measurement"),
        Field::Text("stage_status"),
        Field::Text("logical_probe_status"),
        Field::Text("sender_attempted_padding_bytes"),
        Field::Text("sender_accepted_padding_bytes"),
        Field::Text("sender_media_accepted_payload_bytes"),
        Field::Text("sender_total_accepted_payload_bytes"),
        Field::Text("sender_app_bitrate_bps"),
        Field::Text("padding_stream_finished"),
        Field::Text("padding_stream_reset"),
        Field::Text("reset_error_code"),
    ];
    assert(fields@ =~= subscriber_columns());
    write_line(&fields)
}

/// A line of a subscriber's log, written at `timestamp_ms`.
pub fn subscriber_row(
    timestamp_ms: u64,
    logical_probe_index: u64,
    result: &StageResult,
    highest_validated_target_bps: u64,
    logical_status: &str,
) -> (row: String)
    requires
        result.stage_index < u64::MAX,
    ensures
        row@ == line(
            subscriber_fields(
                timestamp_ms,
                logical_probe_index,
                *result,
                highest_validated_target_bps,
                logical_status,
            ),
        ),
{
    let total_received_bytes: u64 = result.received_media_bytes.saturating_add(
        result.received_padding_bytes,
    );
    let first_post_start_padding_ms: u64 = match result.first_post_start_padding_timestamp_ms {
        Some(timestamp_ms) => timestamp_ms,
        None => 0,
    };
    let arming_delay_ms: u64 = match result.arming_delay_ms {
        Some(delay_ms) => delay_ms,
        None => 0,
    };
    let reset_error_code: u64 = match result.reset_error_code {
        Some(code) => code as u64,
        None => 0,
    };
    let fields = [
        Field::Number(result.request_id),
        Field::Number(result.stage_index + 1),
        Field::Number(timestamp_ms),
        Field::Number(result.measurement_duration_ms),
        Field::Number(result.measurement_duration_ms),
        Field::Number(result.received_media_bytes),
        Field::Number(result.received_padding_bytes),
        Field::Number(0),
        Field::Number(total_received_bytes),
        Field::Number(result.receiver_goodput_bps),
        Field::Number(result.sender_total_accepted_payload_bytes),
        Field::Number(result.sender_media_accepted_payload_bytes),
        Field::Number(result.sender_accepted_padding_bytes),
        Field::Number(result.sender_app_bitrate_bps),
        Field::Number(result.stage_target_bps),
        Field::Number(result.stage_target_bps),
        Field::Number(0),
        Field::Number(logical_probe_index),
        Field::Number(result.stage_index),
        Field::Number(result.stage_ratio_percent),
        Field::Number(result.stage_target_bps),
        Field::Number(result.probe_start_received_timestamp_ms),
        Field::Number(first_post_start_padding_ms),
        Field::Number(result.probe_end_received_timestamp_ms),
        Field::Number(result.measurement_duration_ms),
        Field::Number(arming_delay_ms),
        Field::Number(result.pre_start_padding_bytes),
        Field::Number(result.late_padding_bytes),
        Field::Number(result.media_goodput_bps),
        Field::Number(result.padding_goodput_bps),
        Field::Number(result.pass_percent),
        Field::Flag(result.stage_passed),
        Field::Number(highest_validated_target_bps),
        Field::Flag(result.result_valid),
        Field::Flag(result.partial_measurement),
        Field::Text(result.status.name()),
        Field::Text(logical_status),
        Field::Number(result.sender_attempted_padding_bytes),
        Field::Number(result.sender_accepted_padding_bytes),
        Field::Number(result.sender_media_accepted_payload_bytes),
        Field::Number(result.sender_total_accepted_payload_bytes),
        Field::Number(result.sender_app_bitrate_bps),
        Field::Flag(result.padding_stream_finished),
        Field::Flag(result.padding_stream_reset),
        Field::Number(reset_error_code),
    ];
    assert(fields@ =~= subscriber_fields(
        timestamp_ms,
        logical_probe_index,
        *result,
        highest_validated_target_bps,
        logical_status,
    ));
    write_line(&fields)
}

/// Every line of a log has a field for each of its columns.
pub proof fn lines_match_columns(
    timestamp_ms: u64,
    request: ProbeRequest,
    end: ProbeEnd,
    logical_probe_index: u64,
    result: StageResult,
    highest_validated_target_bps: u64,
    logical_status: &str,
)
    ensures
        relay_fields(timestamp_ms, request, end).len() == relay_columns().len(),
        subscriber_fields(
            timestamp_ms,
            logical_probe_index,
            result,
            highest_validated_target_bps,
            logical_status,
        ).len() == subscriber_columns().len(),
{
}

/// Whether a number is the millionths that a part is of a whole, rounded down, with
/// the part times a million kept within its type. All of nothing is a million.
pub open spec fn is_per_million(ppm: int, part: int, whole: int) -> bool {
    let scaled = if part * 1_000_000 > u64::MAX {
        u64::MAX as int
    } else {
        part * 1_000_000
    };
    if whole == 0 {
        ppm == 1_000_000
    } else {
        ppm * whole <= scaled < (ppm + 1) * whole
    }
}

/// An accepted ratio is the millionths that the accepted bytes are of the attempted
/// ones.
pub proof fn ratio_is_per_million(accepted: u64, attempted: u64)
    ensures
        is_per_million(ratio_ppm(accepted, attempted) as int, accepted as int, attempted as int),
{
    if attempted > 0 {
        let scaled = rate::capped(accepted * 1_000_000) as int;
        let whole = attempted as int;
        let ppm = scaled / whole;
        assert(0 <= ppm <= scaled && ppm * whole <= scaled && scaled < (ppm + 1) * whole)
            by (nonlinear_arith)
            requires
                0 <= scaled,
                0 < whole,
                ppm == scaled / whole,
        ;
    }
}

/// A line is its fields in their order with a comma between each two and a line feed
/// behind the last.
pub proof fn lines_are_joined_by_commas(fields: Seq<Field>, field: Field)
    ensures
        line(Seq::empty()) == seq!['\n'],
        fields.len() == 0 ==> line(fields.push(field)) == field.written() + seq!['\n'],
        fields.len() > 0 ==> line(fields.push(field)) == line(fields).drop_last() + seq![',']
            + field.written() + seq!['\n'],
{
    reveal_strlit(",");
    reveal_strlit("\n");
    assert(","@ =~= seq![',']);
    assert("\n"@ =~= seq!['\n']);
    assert(line(Seq::empty()) =~= seq!['\n']);
    assert(fields.push(field).drop_last() =~= fields);
    assert(line(fields).drop_last() =~= joined(fields));
    if fields.len() > 0 {
        assert(line(fields.push(field)) =~= joined(fields) + seq![','] + field.written()
            + seq!['\n']);
    }
}

/// A field is written as its decimal digits, as `true` or `false`, or as its own
/// words.
pub proof fn fields_are_written(number: u64, flag: bool, word: &str)
    ensures
        text::decimal_value(Field::Number(number).written()) == number,
        Field::Number(number).written() == text::decimal(number as nat),
        Field::Flag(flag).written() == if flag {
            seq!['t', 'r', 'u', 'e']
        } else {
            seq!['f', 'a', 'l', 's', 'e']
        },
        Field::Text(word).written() == word@,
{
    text::decimal_round_trip(number as nat);
    text::flags_are_words();
}

/// What stands under each column of the relay's log.
pub proof fn relay_columns_hold(timestamp_ms: u64, request: ProbeRequest, end: ProbeEnd)
    ensures
        ({
            let columns = relay_columns();
            let fields = relay_fields(timestamp_ms, request, end);
            let sent = end.media_accepted_payload_bytes + end.accepted_padding_bytes;
            &&& columns.len() == 22
            &&& fields.len() == 22
            &&& columns[0] == Field::Text("timestamp_ms")
            &&& fields[0] == Field::Number(timestamp_ms)
            &&& columns[1] == Field::Text("request_id")
            &&& fields[1] == Field::Number(request.request_id)
            &&& columns[2] == Field::Text("target_bitrate_bps")
            &&& fields[2] == Field::Number(request.stage_target_bps)
            &&& columns[3] == Field::Text("paced_target_bps")
            &&& fields[3] == Field::Number(request.stage_target_bps)
            &&& columns[4] == Field::Text("cwnd_bytes")
            &&& fields[4] == Field::Number(0)
            &&& columns[5] == Field::Text("attempted_padding_bytes")
            &&& fields[5] == Field::Number(end.attempted_padding_bytes)
            &&& columns[6] == Field::Text("write_accepted_padding_bytes")
            &&& fields[6] == Field::Number(end.accepted_padding_bytes)
            &&& columns[7] == Field::Text("accept_ratio_ppm")
            &&& fields[7] matches Field::Number(ppm)
            &&& is_per_million(
                ppm as int,
                end.accepted_padding_bytes as int,
                end.attempted_padding_bytes as int,
            )
            &&& columns[8] == Field::Text("write_block_time_ms")
            &&& fields[8] == Field::Number(0)
            &&& columns[9] == Field::Text("media_write_bytes")
            &&& fields[9] == Field::Number(end.media_accepted_payload_bytes)
            &&& columns[10] == Field::Text("raw_sender_app_bitrate_bps")
            &&& fields[10] matches Field::Number(bps)
            &&& receiver::is_bits_over_time(
                bps as int,
                if sent > u64::MAX {
                    u64::MAX as int
                } else {
                    sent
                },
                end.stage_active_duration_ms as int,
            )
            &&& columns[11] == Field::Text("epoch_elapsed_ms")
            &&& fields[11] == Field::Number(end.stage_active_duration_ms)
            &&& columns[12] == Field::Text("stage_index")
            &&& fields[12] == Field::Number(request.stage_index)
            &&& columns[13] == Field::Text("stage_ratio_percent")
            &&& fields[13] == Field::Number(request.stage_ratio_percent)
            &&& columns[14] == Field::Text("stage_target_bps")
            &&& fields[14] == Field::Number(request.stage_target_bps)
            &&& columns[15] == Field::Text("padding_pending_seen")
            &&& fields[15] == Field::Flag(end.padding_pending_seen)
            &&& columns[16] == Field::Text("padding_generation_stopped")
            &&& fields[16] == Field::Flag(true)
            &&& columns[17] == Field::Text("padding_stream_finished")
            &&& fields[17] == Field::Flag(end.status is Completed)
            &&& columns[18] == Field::Text("padding_stream_reset")
            &&& fields[18] == Field::Flag(end.status is AbortedBackpressure)
            &&& columns[19] == Field::Text("reset_error_code")
            &&& fields[19] == Field::Number(
                if end.status is AbortedBackpressure {
                    0x42
                } else {
                    0
                },
            )
            &&& columns[20] == Field::Text("probe_end_status")
            &&& fields[20] == Field::Text(
                match end.status {
                    ProbeEndStatus::Completed => "Completed",
                    ProbeEndStatus::AbortedBackpressure => "AbortedBackpressure",
                    ProbeEndStatus::ProtocolError => "ProtocolError",
                },
            )
            &&& columns[21] == Field::Text("stage_active_duration_ms")
            &&& fields[21] == Field::Number(end.stage_active_duration_ms)
        }),
{
    ratio_is_per_million(end.accepted_padding_bytes, end.attempted_padding_bytes);
    rate::bitrate_is_bits_over_time(
        rate::capped(end.media_accepted_payload_bytes + end.accepted_padding_bytes),
        end.stage_active_duration_ms,
    );
}

/// What stands under each column of a subscriber's log.
pub proof fn subscriber_columns_hold(
    timestamp_ms: u64,
    logical_probe_index: u64,
    result: StageResult,
    highest_validated_target_bps: u64,
    logical_status: &str,
)
    ensures
        ({
            let columns = subscriber_columns();
            let fields = subscriber_fields(
                timestamp_ms,
                logical_probe_index,
                result,
                highest_validated_target_bps,
                logical_status,
            );
            let both = result.received_media_bytes + result.received_padding_bytes;
            &&& columns.len() == 45
            &&& fields.len() == 45
            &&& columns[0] == Field::Text("request_id")
            &&& fields[0] == Field::Number(result.request_id)
            &&& columns[1] == Field::Text("sample_index")
            &&& result.stage_index < u64::MAX ==> fields[1] == Field::Number(
                (result.stage_index + 1) as u64,
            )
            &&& columns[2] == Field::Text("timestamp_ms")
            &&& fields[2] == Field::Number(timestamp_ms)
            &&& columns[3] == Field::Text("probe_elapsed_ms")
            &&& fields[3] == Field::Number(result.measurement_duration_ms)
            &&& columns[4] == Field::Text("response_elapsed_ms")
            &&& fields[4] == Field::Number(result.measurement_duration_ms)
            &&& columns[5] == Field::Text("received_media_bytes")
            &&& fields[5] == Field::Number(result.received_media_bytes)
            &&& columns[6] == Field::Text("received_padding_stream_bytes")
            &&& fields[6] == Field::Number(result.received_padding_bytes)
            &&& columns[7] == Field::Text("received_padding_datagram_bytes")
            &&& fields[7] == Field::Number(0)
            &&& columns[8] == Field::Text("total_received_bytes")
            &&& fields[8] matches Field::Number(total)
            &&& total == if both > u64::MAX {
                u64::MAX as int
            } else {
                both
            }
            &&& columns[9] == Field::Text("receiver_goodput_bps")
            &&& fields[9] == Field::Number(result.receiver_goodput_bps)
            &&& columns[10] == Field::Text("sender_app_written_bytes")
            &&& fields[10] == Field::Number(result.sender_total_accepted_payload_bytes)
            &&& columns[11] == Field::Text("sender_media_written_bytes")
            &&& fields[11] == Field::Number(result.sender_media_accepted_payload_bytes)
            &&& columns[12] == Field::Text("sender_padding_written_bytes")
            &&& fields[12] == Field::Number(result.sender_accepted_padding_bytes)
            &&& columns[13] == Field::Text("raw_sender_app_bitrate_bps")
            &&& fields[13] == Field::Number(result.sender_app_bitrate_bps)
            &&& columns[14] == Field::Text("target_bitrate_bps")
            &&& fields[14] == Field::Number(result.stage_target_bps)
            &&& columns[15] == Field::Text("paced_target_bps")
            &&& fields[15] == Field::Number(result.stage_target_bps)
            &&& columns[16] == Field::Text("cwnd_bytes")
            &&& fields[16] == Field::Number(0)
            &&& columns[17] == Field::Text("logical_probe_index")
            &&& fields[17] == Field::Number(logical_probe_index)
            &&& columns[18] == Field::Text("stage_index")
            &&& fields[18] == Field::Number(result.stage_index)
            &&& columns[19] == Field::Text("stage_ratio_percent")
            &&& fields[19] == Field::Number(result.stage_ratio_percent)
            &&& columns[20] == Field::Text("stage_target_bps")
            &&& fields[20] == Field::Number(result.stage_target_bps)
            &&& columns[21] == Field::Text("probe_start_received_time")
            &&& fields[21] == Field::Number(result.probe_start_received_timestamp_ms)
            &&& columns[22] == Field::Text("first_post_start_padding_time")
            &&& fields[22] == Field::Number(
                if result.first_post_start_padding_timestamp_ms is Some {
                    result.first_post_start_padding_timestamp_ms->0
                } else {
                    0
                },
            )
            &&& columns[23] == Field::Text("probe_end_received_time")
            &&& fields[23] == Field::Number(result.probe_end_received_timestamp_ms)
            &&& columns[24] == Field::Text("measurement_duration_ms")
            &&& fields[24] == Field::Number(result.measurement_duration_ms)
            &&& columns[25] == Field::Text("arming_delay_ms")
            &&& fields[25] == Field::Number(
                if result.arming_delay_ms is Some {
                    result.arming_delay_ms->0
                } else {
                    0
                },
            )
            &&& columns[26] == Field::Text("pre_start_padding_bytes")
            &&& fields[26] == Field::Number(result.pre_start_padding_bytes)
            &&& columns[27] == Field::Text("late_padding_bytes")
            &&& fields[27] == Field::Number(result.late_padding_bytes)
            &&& columns[28] == Field::Text("media_goodput_bps")
            &&& fields[28] == Field::Number(result.media_goodput_bps)
            &&& columns[29] == Field::Text("padding_goodput_bps")
            &&& fields[29] == Field::Number(result.padding_goodput_bps)
            &&& columns[30] == Field::Text("pass_percent")
            &&& fields[30] == Field::Number(result.pass_percent)
            &&& columns[31] == Field::Text("stage_passed")
            &&& fields[31] == Field::Flag(result.stage_passed)
            &&& columns[32] == Field::Text("highest_validated_target_bps")
            &&& fields[32] == Field::Number(highest_validated_target_bps)
            &&& columns[33] == Field::Text("result_valid")
            &&& fields[33] == Field::Flag(result.result_valid)
            &&& columns[34] == Field::Text("partial_measurement")
            &&& fields[34] == Field::Flag(result.partial_measurement)
            &&& columns[35] == Field::Text("stage_status")
            &&& fields[35] == Field::Text(
                match result.status {
                    StageStatus::Completed => "Completed",
                    StageStatus::NoPostStartPadding => "NoPostStartPadding",
                    StageStatus::AbortedBackpressure => "AbortedBackpressure",
                    StageStatus::ProtocolError => "ProtocolError",
                    StageStatus::ConnectionClosed => "ConnectionClosed",
                },
            )
            &&& columns[36] == Field::Text("logical_probe_status")
            &&& fields[36] == Field::Text(logical_status)
            &&& columns[37] == Field::Text("sender_attempted_padding_bytes")
            &&& fields[37] == Field::Number(result.sender_attempted_padding_bytes)
            &&& columns[38] == Field::Text("sender_accepted_padding_bytes")
            &&& fields[38] == Field::Number(result.sender_accepted_padding_bytes)
            &&& columns[39] == Field::Text("sender_media_accepted_payload_bytes")
            &&& fields[39] == Field::Number(result.sender_media_accepted_payload_bytes)
            &&& columns[40] == Field::Text("sender_total_accepted_payload_bytes")
            &&& fields[40] == Field::Number(result.sender_total_accepted_payload_bytes)
            &&& columns[41] == Field::Text("sender_app_bitrate_bps")
            &&& fields[41] == Field::Number(result.sender_app_bitrate_bps)
            &&& columns[42] == Field::Text("padding_stream_finished")
            &&& fields[42] == Field::Flag(result.padding_stream_finished)
            &&& columns[43] == Field::Text("padding_stream_reset")
            &&& fields[43] == Field::Flag(result.padding_stream_reset)
            &&& columns[44] == Field::Text("reset_error_code")
            &&& fields[44] == Field::Number(
                if result.reset_error_code is Some {
                    result.reset_error_code->0 as u64
                } else {
                    0
                },
            )
        }),
{
}

} // verus!
