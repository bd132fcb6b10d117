//! Probe messages on the wire.
//!
//! A message is framed by its type and the length of its payload, both
//! variable-length integers. The payload is the message's fields in order, each a
//! variable-length integer.

use bytes::{Bytes, BytesMut};
use vstd::prelude::*;

use crate::buffer;
use crate::protocol::{
    ProbeEnd, ProbeEndStatus, ProbeError, ProbeMessage, ProbeRequest, ProbeResult, ProbeStart,
    ProbeStartAck, MSG_PROBE_END, MSG_PROBE_REQUEST, MSG_PROBE_START, MSG_PROBE_START_ACK,
};
use crate::varint;
use crate::varint::{get_varint, put_varint};

verus! {

/// The type under which a message goes.
pub open spec fn message_type(message: ProbeMessage) -> u64 {
    match message {
        ProbeMessage::Request(_) => MSG_PROBE_REQUEST,
        ProbeMessage::Start(_) => MSG_PROBE_START,
        ProbeMessage::StartAck(_) => MSG_PROBE_START_ACK,
        ProbeMessage::End(_) => MSG_PROBE_END,
    }
}

/// The number that stands for a boolean.
pub open spec fn bool_code(value: bool) -> u64 {
    if value {
        1
    } else {
        0
    }
}

/// The fields of a message, in the order in which they are sent.
pub open spec fn fields(message: ProbeMessage) -> Seq<u64> {
    match message {
        ProbeMessage::Request(request) => seq![
            request.request_id,
            request.stage_index,
            request.stage_ratio_percent,
            request.stage_target_bps,
            request.active_duration_ms,
            request.epoch_ms,
        ],
        ProbeMessage::Start(start) => seq![
            start.request_id,
            start.stage_index,
            start.stage_target_bps,
        ],
        ProbeMessage::StartAck(ack) => seq![ack.request_id, ack.stage_index],
        ProbeMessage::End(end) => seq![
            end.request_id,
            end.stage_index,
            end.status.wire_code(),
            end.attempted_padding_bytes,
            end.accepted_padding_bytes,
            end.media_accepted_payload_bytes,
            bool_code(end.padding_pending_seen),
            end.stage_active_duration_ms,
        ],
    }
}

/// Values encoded one behind the other.
pub open spec fn encodings(values: Seq<u64>) -> Seq<u8>
    decreases values.len(),
{
    if values.len() == 0 {
        Seq::empty()
    } else {
        varint::encoding(values[0]) + encodings(values.drop_first())
    }
}

/// The payload of a message.
pub open spec fn payload(message: ProbeMessage) -> Seq<u8> {
    encodings(fields(message))
}

/// A message as it is sent: type, length of the payload, payload.
pub open spec fn frame(message: ProbeMessage) -> Seq<u8> {
    varint::encoding(message_type(message)) + varint::encoding(payload(message).len() as u64)
        + payload(message)
}

/// The first `count` values at the front of the bytes and the bytes behind them,
/// if that many encodings stand there.
pub open spec fn take_values(bytes: Seq<u8>, count: nat) -> Option<(Seq<u64>, Seq<u8>)>
    decreases count,
{
    if count == 0 {
        Some((Seq::empty(), bytes))
    } else if !varint::is_complete(bytes) {
        None
    } else {
        match take_values(varint::behind_front(bytes), (count - 1) as nat) {
            Some((values, rest)) => Some((seq![varint::front_value(bytes)] + values, rest)),
            None => None,
        }
    }
}

/// A message is only good if nothing follows its last field.
pub open spec fn ending(message: ProbeMessage, rest: Seq<u8>) -> ProbeResult<ProbeMessage> {
    if rest.len() == 0 {
        Ok(message)
    } else {
        Err(ProbeError::Protocol("trailing bytes in Probe message"))
    }
}

/// The END message that a payload holds.
pub open spec fn decoded_end(bytes: Seq<u8>) -> ProbeResult<ProbeMessage> {
    match take_values(bytes, 3) {
        None => Err(ProbeError::InvalidVarint),
        Some((head, bytes)) => match ProbeEndStatus::of_wire_code(head[2]) {
            Err(error) => Err(error),
            Ok(status) => match take_values(bytes, 4) {
                None => Err(ProbeError::InvalidVarint),
                Some((counts, bytes)) => if counts[3] > 1 {
                    Err(ProbeError::InvalidBoolean(counts[3]))
                } else {
                    match take_values(bytes, 1) {
                        None => Err(ProbeError::InvalidVarint),
                        Some((tail, rest)) => ending(
                            ProbeMessage::End(
                                ProbeEnd {
                                    request_id: head[0],
                                    stage_index: head[1],
                                    status,
                                    attempted_padding_bytes: counts[0],
                                    accepted_padding_bytes: counts[1],
                                    media_accepted_payload_bytes: counts[2],
                                    padding_pending_seen: counts[3] == 1,
                                    stage_active_duration_ms: tail[0],
                                },
                            ),
                            rest,
                        ),
                    }
                },
            },
        },
    }
}

/// The message that a payload of the given type holds.
pub open spec fn decoded(message_type: u64, bytes: Seq<u8>) -> ProbeResult<ProbeMessage> {
    if message_type == MSG_PROBE_REQUEST {
        match take_values(bytes, 6) {
            None => Err(ProbeError::InvalidVarint),
            Some((v, rest)) => ending(
                ProbeMessage::Request(
                    ProbeRequest {
                        request_id: v[0],
                        stage_index: v[1],
                        stage_ratio_percent: v[2],
                        stage_target_bps: v[3],
                        active_duration_ms: v[4],
                        epoch_ms: v[5],
                    },
                ),
                rest,
            ),
        }
    } else if message_type == MSG_PROBE_START {
        match take_values(bytes, 3) {
            None => Err(ProbeError::InvalidVarint),
            Some((v, rest)) => ending(
                ProbeMessage::Start(
                    ProbeStart { request_id: v[0], stage_index: v[1], stage_target_bps: v[2] },
                ),
                rest,
            ),
        }
    } else if message_type == MSG_PROBE_START_ACK {
        match take_values(bytes, 2) {
            None => Err(ProbeError::InvalidVarint),
            Some((v, rest)) => ending(
                ProbeMessage::StartAck(ProbeStartAck { request_id: v[0], stage_index: v[1] }),
                rest,
            ),
        }
    } else if message_type == MSG_PROBE_END {
        decoded_end(bytes)
    } else {
        Err(ProbeError::UnexpectedMessageType(message_type))
    }
}

proof fn encodings_len(values: Seq<u64>)
    ensures
        encodings(values).len() <= 8 * values.len(),
    decreases values.len(),
{
    if values.len() > 0 {
        varint::encoding_round_trip(values[0], Seq::empty());
        encodings_len(values.drop_first());
    }
}

proof fn encodings_concat(a: Seq<u64>, b: Seq<u64>)
    ensures
        encodings(a + b) == encodings(a) + encodings(b),
    decreases a.len(),
{
    if a.len() == 0 {
        assert(a + b =~= b);
        assert(encodings(a) + encodings(b) =~= encodings(b));
    } else {
        encodings_concat(a.drop_first(), b);
        assert((a + b).drop_first() =~= a.drop_first() + b);
        assert(encodings(a + b) =~= encodings(a) + encodings(b));
    }
}

proof fn encodings_push(values: Seq<u64>, value: u64)
    ensures
        encodings(values.push(value)) == encodings(values) + varint::encoding(value),
{
    let one = seq![value];
    encodings_concat(values, one);
    assert(values.push(value) =~= values + one);
    assert(one.drop_first() =~= Seq::<u64>::empty());
    reveal_with_fuel(encodings, 2);
    assert(encodings(one) =~= varint::encoding(value));
}

/// What of each value is carried.
pub open spec fn carried_values(values: Seq<u64>) -> Seq<u64> {
    values.map_values(|value: u64| varint::carried(value))
}

proof fn take_encodings(values: Seq<u64>, rest: Seq<u8>)
    ensures
        take_values(encodings(values) + rest, values.len()) == Some((carried_values(values), rest)),
    decreases values.len(),
{
    let bytes = encodings(values) + rest;
    if values.len() == 0 {
        assert(bytes =~= rest);
        assert(carried_values(values) =~= Seq::<u64>::empty());
    } else {
        let tail = encodings(values.drop_first()) + rest;
        assert(bytes =~= varint::encoding(values[0]) + tail);
        varint::encoding_round_trip(values[0], tail);
        take_encodings(values.drop_first(), rest);
        assert(carried_values(values) =~= seq![varint::carried(values[0])] + carried_values(
            values.drop_first(),
        ));
    }
}

proof fn take_some_encodings(values: Seq<u64>, count: nat)
    requires
        count <= values.len(),
    ensures
        take_values(encodings(values), count) == Some(
            (carried_values(values.take(count as int)), encodings(values.skip(count as int))),
        ),
{
    let head = values.take(count as int);
    let tail = values.skip(count as int);
    assert(values =~= head + tail);
    encodings_concat(head, tail);
    take_encodings(head, encodings(tail));
}

/// A message with what of each of its integers is carried.
pub open spec fn carried_message(message: ProbeMessage) -> ProbeMessage {
    match message {
        ProbeMessage::Request(request) => ProbeMessage::Request(
            ProbeRequest {
                request_id: varint::carried(request.request_id),
                stage_index: varint::carried(request.stage_index),
                stage_ratio_percent: varint::carried(request.stage_ratio_percent),
                stage_target_bps: varint::carried(request.stage_target_bps),
                active_duration_ms: varint::carried(request.active_duration_ms),
                epoch_ms: varint::carried(request.epoch_ms),
            },
        ),
        ProbeMessage::Start(start) => ProbeMessage::Start(
            ProbeStart {
                request_id: varint::carried(start.request_id),
                stage_index: varint::carried(start.stage_index),
                stage_target_bps: varint::carried(start.stage_target_bps),
            },
        ),
        ProbeMessage::StartAck(ack) => ProbeMessage::StartAck(
            ProbeStartAck {
                request_id: varint::carried(ack.request_id),
                stage_index: varint::carried(ack.stage_index),
            },
        ),
        ProbeMessage::End(end) => ProbeMessage::End(
            ProbeEnd {
                request_id: varint::carried(end.request_id),
                stage_index: varint::carried(end.stage_index),
                status: end.status,
                attempted_padding_bytes: varint::carried(end.attempted_padding_bytes),
                accepted_padding_bytes: varint::carried(end.accepted_padding_bytes),
                media_accepted_payload_bytes: varint::carried(end.media_accepted_payload_bytes),
                padding_pending_seen: end.padding_pending_seen,
                stage_active_duration_ms: varint::carried(end.stage_active_duration_ms),
            },
        ),
    }
}

/// Whether every integer of a message is small enough to be carried whole.
pub open spec fn fits_wire(message: ProbeMessage) -> bool {
    forall|i: int|
        0 <= i < fields(message).len() ==> #[trigger] fields(message)[i] < varint::carried_limit()
}

proof fn request_from_parts(bytes: Seq<u8>, v: Seq<u64>)
    requires
        take_values(bytes, 6) == Some((v, Seq::<u8>::empty())),
    ensures
        decoded(MSG_PROBE_REQUEST, bytes) == Ok::<ProbeMessage, ProbeError>(
            ProbeMessage::Request(
                ProbeRequest {
                    request_id: v[0],
                    stage_index: v[1],
                    stage_ratio_percent: v[2],
                    stage_target_bps: v[3],
                    active_duration_ms: v[4],
                    epoch_ms: v[5],
                },
            ),
        ),
{
}

proof fn request_fields(request: ProbeRequest)
    ensures
        ({
            let all = fields(ProbeMessage::Request(request));
            let v = carried_values(all);
            &&& all.len() == 6
            &&& all[0] == request.request_id && v[0] == varint::carried(request.request_id)
            &&& all[1] == request.stage_index && v[1] == varint::carried(request.stage_index)
            &&& all[2] == request.stage_ratio_percent && v[2] == varint::carried(
                request.stage_ratio_percent,
            )
            &&& all[3] == request.stage_target_bps && v[3] == varint::carried(
                request.stage_target_bps,
            )
            &&& all[4] == request.active_duration_ms && v[4] == varint::carried(
                request.active_duration_ms,
            )
            &&& all[5] == request.epoch_ms && v[5] == varint::carried(request.epoch_ms)
        }),
{
}

proof fn request_round_trip(request: ProbeRequest)
    ensures
        decoded(MSG_PROBE_REQUEST, payload(ProbeMessage::Request(request))) == Ok::<
            ProbeMessage,
            ProbeError,
        >(carried_message(ProbeMessage::Request(request))),
        fits_wire(ProbeMessage::Request(request)) ==> carried_message(
            ProbeMessage::Request(request),
        ) == ProbeMessage::Request(request),
{
    let all = fields(ProbeMessage::Request(request));
    request_fields(request);
    take_encodings(all, Seq::empty());
    assert(encodings(all) + Seq::<u8>::empty() =~= encodings(all));
    request_from_parts(encodings(all), carried_values(all));
}

proof fn start_from_parts(bytes: Seq<u8>, v: Seq<u64>)
    requires
        take_values(bytes, 3) == Some((v, Seq::<u8>::empty())),
    ensures
        decoded(MSG_PROBE_START, bytes) == Ok::<ProbeMessage, ProbeError>(
            ProbeMessage::Start(
                ProbeStart {
                    request_id: v[0],
                    stage_index: v[1],
                    stage_target_bps: v[2],
                },
            ),
        ),
{
}

proof fn start_fields(start: ProbeStart)
    ensures
        ({
            let all = fields(ProbeMessage::Start(start));
            let v = carried_values(all);
            &&& all.len() == 3
            &&& all[0] == start.request_id && v[0] == varint::carried(start.request_id)
            &&& all[1] == start.stage_index && v[1] == varint::carried(start.stage_index)
            &&& all[2] == start.stage_target_bps && v[2] == varint::carried(start.stage_target_bps)
        }),
{
}

proof fn start_round_trip(start: ProbeStart)
    ensures
        decoded(MSG_PROBE_START, payload(ProbeMessage::Start(start))) == Ok::<
            ProbeMessage,
            ProbeError,
        >(carried_message(ProbeMessage::Start(start))),
        fits_wire(ProbeMessage::Start(start)) ==> carried_message(
            ProbeMessage::Start(start),
        ) == ProbeMessage::Start(start),
{
    let all = fields(ProbeMessage::Start(start));
    start_fields(start);
    take_encodings(all, Seq::empty());
    assert(encodings(all) + Seq::<u8>::empty() =~= encodings(all));
    start_from_parts(encodings(all), carried_values(all));
}

proof fn start_ack_from_parts(bytes: Seq<u8>, v: Seq<u64>)
    requires
        take_values(bytes, 2) == Some((v, Seq::<u8>::empty())),
    ensures
        decoded(MSG_PROBE_START_ACK, bytes) == Ok::<ProbeMessage, ProbeError>(
            ProbeMessage::StartAck(
                ProbeStartAck {
                    request_id: v[0],
                    stage_index: v[1],
                },
            ),
        ),
{
}

proof fn start_ack_fields(ack: ProbeStartAck)
    ensures
        ({
            let all = fields(ProbeMessage::StartAck(ack));
            let v = carried_values(all);
            &&& all.len() == 2
            &&& all[0] == ack.request_id && v[0] == varint::carried(ack.request_id)
            &&& all[1] == ack.stage_index && v[1] == varint::carried(ack.stage_index)
        }),
{
}

proof fn start_ack_round_trip(ack: ProbeStartAck)
    ensures
        decoded(MSG_PROBE_START_ACK, payload(ProbeMessage::StartAck(ack))) == Ok::<
            ProbeMessage,
            ProbeError,
        >(carried_message(ProbeMessage::StartAck(ack))),
        fits_wire(ProbeMessage::StartAck(ack)) ==> carried_message(
            ProbeMessage::StartAck(ack),
        ) == ProbeMessage::StartAck(ack),
{
    let all = fields(ProbeMessage::StartAck(ack));
    start_ack_fields(ack);
    take_encodings(all, Seq::empty());
    assert(encodings(all) + Seq::<u8>::empty() =~= encodings(all));
    start_ack_from_parts(encodings(all), carried_values(all));
}

proof fn end_fields(end: ProbeEnd)
    ensures
        ({
            let all = fields(ProbeMessage::End(end));
            let head = carried_values(all.take(3));
            let counts = carried_values(all.skip(3).take(4));
            let tail = carried_values(all.skip(3).skip(4).take(1));
            &&& all.len() == 8
            &&& all[0] == end.request_id && head[0] == varint::carried(end.request_id)
            &&& all[1] == end.stage_index && head[1] == varint::carried(end.stage_index)
            &&& head[2] == end.status.wire_code()
            &&& all[3] == end.attempted_padding_bytes && counts[0] == varint::carried(
                end.attempted_padding_bytes,
            )
            &&& all[4] == end.accepted_padding_bytes && counts[1] == varint::carried(
                end.accepted_padding_bytes,
            )
            &&& all[5] == end.media_accepted_payload_bytes && counts[2] == varint::carried(
                end.media_accepted_payload_bytes,
            )
            &&& counts[3] == bool_code(end.padding_pending_seen)
            &&& all[7] == end.stage_active_duration_ms && tail[0] == varint::carried(
                end.stage_active_duration_ms,
            )
        }),
{
}

proof fn end_from_parts(
    bytes: Seq<u8>,
    head: Seq<u64>,
    after_head: Seq<u8>,
    status: ProbeEndStatus,
    counts: Seq<u64>,
    after_counts: Seq<u8>,
    tail: Seq<u64>,
)
    requires
        take_values(bytes, 3) == Some((head, after_head)),
        head[2] == status.wire_code(),
        take_values(after_head, 4) == Some((counts, after_counts)),
        counts[3] <= 1,
        take_values(after_counts, 1) == Some((tail, Seq::<u8>::empty())),
    ensures
        decoded_end(bytes) == Ok::<ProbeMessage, ProbeError>(
            ProbeMessage::End(
                ProbeEnd {
                    request_id: head[0],
                    stage_index: head[1],
                    status,
                    attempted_padding_bytes: counts[0],
                    accepted_padding_bytes: counts[1],
                    media_accepted_payload_bytes: counts[2],
                    padding_pending_seen: counts[3] == 1,
                    stage_active_duration_ms: tail[0],
                },
            ),
        ),
{
}

proof fn end_round_trip(end: ProbeEnd)
    ensures
        decoded(MSG_PROBE_END, payload(ProbeMessage::End(end))) == Ok::<ProbeMessage, ProbeError>(
            carried_message(ProbeMessage::End(end)),
        ),
        fits_wire(ProbeMessage::End(end)) ==> carried_message(ProbeMessage::End(end))
            == ProbeMessage::End(end),
{
    let all = fields(ProbeMessage::End(end));
    let counts = all.skip(3);
    let tail = counts.skip(4);
    end_fields(end);
    take_some_encodings(all, 3);
    take_some_encodings(counts, 4);
    take_some_encodings(tail, 1);
    assert(encodings(tail.skip(1)) == Seq::<u8>::empty()) by {
        assert(tail.skip(1) =~= Seq::<u64>::empty());
    }
    end_from_parts(
        encodings(all),
        carried_values(all.take(3)),
        encodings(counts),
        end.status,
        carried_values(counts.take(4)),
        encodings(tail),
        carried_values(tail.take(1)),
    );
}

/// Decoding the payload of a message gives the message back, as far as 62 bits
/// carry its integers, and unchanged where they all fit.
pub proof fn payload_round_trip(message: ProbeMessage)
    ensures
        decoded(message_type(message), payload(message)) == Ok::<ProbeMessage, ProbeError>(
            carried_message(message),
        ),
        fits_wire(message) ==> carried_message(message) == message,
{
    match message {
        ProbeMessage::Request(request) => request_round_trip(request),
        ProbeMessage::Start(start) => start_round_trip(start),
        ProbeMessage::StartAck(ack) => start_ack_round_trip(ack),
        ProbeMessage::End(end) => end_round_trip(end),
    }
}

/// How long a payload of a message's type is at most: eight bytes for each field,
/// one for a status or a flag.
pub open spec fn longest_payload(message: ProbeMessage) -> nat {
    match message {
        ProbeMessage::Request(_) => 48,
        ProbeMessage::Start(_) => 24,
        ProbeMessage::StartAck(_) => 16,
        ProbeMessage::End(_) => 50,
    }
}

proof fn end_payload_len(end: ProbeEnd)
    ensures
        payload(ProbeMessage::End(end)).len() <= 50,
{
    let front = seq![end.request_id, end.stage_index];
    let status = end.status.wire_code();
    let counts = seq![
        end.attempted_padding_bytes,
        end.accepted_padding_bytes,
        end.media_accepted_payload_bytes,
    ];
    let flag = bool_code(end.padding_pending_seen);
    let duration = end.stage_active_duration_ms;
    encodings_len(front);
    encodings_len(counts);
    encodings_push(front, status);
    encodings_push(counts, flag);
    encodings_push(counts.push(flag), duration);
    encodings_concat(front.push(status), counts.push(flag).push(duration));
    varint::encoding_round_trip(duration, Seq::empty());
    assert(fields(ProbeMessage::End(end)) =~= front.push(status) + counts.push(flag).push(
        duration,
    ));
}

/// A payload is no longer than its type allows, and a frame has two bytes more. So
/// no frame is longer than 52 bytes.
pub proof fn payload_len_bounded(message: ProbeMessage)
    ensures
        payload(message).len() <= longest_payload(message),
        frame(message).len() == payload(message).len() + 2,
        frame(message).len() <= 52,
{
    match message {
        ProbeMessage::End(end) => end_payload_len(end),
        _ => encodings_len(fields(message)),
    }
}

/// Reading a frame, a type, then a length, then that many bytes, gives the
/// message back, as far as 62 bits carry its integers, whatever follows the frame.
pub proof fn frame_round_trip(message: ProbeMessage, rest: Seq<u8>)
    ensures
        ({
            let after_type = varint::behind_front(frame(message) + rest);
            let after_length = varint::behind_front(after_type);
            let length = varint::front_value(after_type);
            &&& varint::is_complete(frame(message) + rest)
            &&& varint::front_value(frame(message) + rest) == message_type(message)
            &&& varint::is_complete(after_type)
            &&& length == payload(message).len()
            &&& after_length.take(length as int) == payload(message)
            &&& after_length.skip(length as int) == rest
            &&& decoded(message_type(message), after_length.take(length as int)) == Ok::<
                ProbeMessage,
                ProbeError,
            >(carried_message(message))
        }),
        fits_wire(message) ==> carried_message(message) == message,
{
    let kind = message_type(message);
    let body = payload(message);
    let length = body.len() as u64;
    encodings_len(fields(message));
    let tail = varint::encoding(length) + (body + rest);
    assert(frame(message) + rest =~= varint::encoding(kind) + tail);
    varint::encoding_round_trip(kind, tail);
    varint::encoding_round_trip(length, body + rest);
    assert((body + rest).take(length as int) =~= body);
    assert((body + rest).skip(length as int) =~= rest);
    payload_round_trip(message);
}

/// The number that stands for a boolean.
fn bool_number(value: bool) -> (code: u64)
    ensures
        code == bool_code(value),
{
    if value {
        1
    } else {
        0
    }
}

/// Takes a boolean off the front of a buffer. Only 0 and 1 stand for one.
fn get_bool(buf: &mut Bytes) -> (value: ProbeResult<bool>)
    ensures
        ({
            let bytes = buffer::held(*old(buf));
            if !varint::is_complete(bytes) {
                value == Err::<bool, ProbeError>(ProbeError::InvalidVarint)
            } else if varint::front_value(bytes) > 1 {
                value == Err::<bool, ProbeError>(
                    ProbeError::InvalidBoolean(varint::front_value(bytes)),
                )
            } else {
                &&& value == Ok::<bool, ProbeError>(varint::front_value(bytes) == 1)
                &&& buffer::held(*final(buf)) == varint::behind_front(bytes)
            }
        }),
{
    match get_varint(buf)? {
        0 => Ok(false),
        1 => Ok(true),
        value => Err(ProbeError::InvalidBoolean(value)),
    }
}

/// Appends the encodings of values, one behind the other.
fn put_fields(out: &mut BytesMut, values: &[u64])
    requires
        buffer::gathered(*old(out)).len() + 8 * values@.len() <= isize::MAX,
    ensures
        buffer::gathered(*final(out)) == buffer::gathered(*old(out)) + encodings(values@),
{
    let ghost before = buffer::gathered(*out);
    let mut i: usize = 0;
    assert(before + encodings(values@.take(0)) =~= before);
    while i < values.len()
        invariant
            i <= values.len(),
            before.len() + 8 * values@.len() <= isize::MAX,
            buffer::gathered(*out) == before + encodings(values@.take(i as int)),
        decreases values.len() - i,
    {
        proof {
            encodings_len(values@.take(i as int));
            encodings_push(values@.take(i as int), values@[i as int]);
            assert(values@.take(i + 1) =~= values@.take(i as int).push(values@[i as int]));
        }
        put_varint(out, values[i]);
        assert(buffer::gathered(*out) =~= before + encodings(values@.take(i + 1)));
        i += 1;
    }
    assert(values@.take(values@.len() as int) =~= values@);
}

/// The fields of a message, in the order in which they are sent.
fn message_fields(message: &ProbeMessage) -> (values: Vec<u64>)
    ensures
        values@ == fields(*message),
{
    match message {
        ProbeMessage::Request(request) => vec![
            request.request_id,
            request.stage_index,
            request.stage_ratio_percent,
            request.stage_target_bps,
            request.active_duration_ms,
            request.epoch_ms,
        ],
        ProbeMessage::Start(start) => vec![
            start.request_id,
            start.stage_index,
            start.stage_target_bps,
        ],
        ProbeMessage::StartAck(ack) => vec![ack.request_id, ack.stage_index],
        ProbeMessage::End(end) => vec![
            end.request_id,
            end.stage_index,
            end.status.code(),
            end.attempted_padding_bytes,
            end.accepted_padding_bytes,
            end.media_accepted_payload_bytes,
            bool_number(end.padding_pending_seen),
            end.stage_active_duration_ms,
        ],
    }
}

/// Encodes a message, framed by its type and length.
pub fn encode_probe_message(message: &ProbeMessage) -> (encoded: Bytes)
    ensures
        buffer::held(encoded) == frame(*message),
{
    let message_type: u64 = match message {
        ProbeMessage::Request(_) => MSG_PROBE_REQUEST,
        ProbeMessage::Start(_) => MSG_PROBE_START,
        ProbeMessage::StartAck(_) => MSG_PROBE_START_ACK,
        ProbeMessage::End(_) => MSG_PROBE_END,
    };
    let values: Vec<u64> = message_fields(message);
    let mut payload: BytesMut = buffer::empty();
    put_fields(&mut payload, values.as_slice());
    proof {
        encodings_len(values@);
        assert(buffer::gathered(payload) =~= encodings(values@));
    }

    let mut out: BytesMut = buffer::empty();
    put_varint(&mut out, message_type);
    put_varint(&mut out, buffer::length(&payload) as u64);
    buffer::extend(&mut out, buffer::gathered_slice(&payload));
    assert(buffer::gathered(out) =~= frame(*message));
    buffer::freeze(out)
}

/// Decodes the payload of a message of the given type.
pub fn decode_probe_message(message_type: u64, payload: Bytes) -> (message: ProbeResult<
    ProbeMessage,
>)
    ensures
        message == decoded(message_type, buffer::held(payload)),
{
    let mut payload: Bytes = payload;
    proof {
        reveal_with_fuel(take_values, 7);
    }
    let message: ProbeMessage = match message_type {
        MSG_PROBE_REQUEST => ProbeMessage::Request(
            ProbeRequest {
                request_id: get_varint(&mut payload)?,
                stage_index: get_varint(&mut payload)?,
                stage_ratio_percent: get_varint(&mut payload)?,
                stage_target_bps: get_varint(&mut payload)?,
                active_duration_ms: get_varint(&mut payload)?,
                epoch_ms: get_varint(&mut payload)?,
            },
        ),
        MSG_PROBE_START => ProbeMessage::Start(
            ProbeStart {
                request_id: get_varint(&mut payload)?,
                stage_index: get_varint(&mut payload)?,
                stage_target_bps: get_varint(&mut payload)?,
            },
        ),
        MSG_PROBE_START_ACK => ProbeMessage::StartAck(
            ProbeStartAck {
                request_id: get_varint(&mut payload)?,
                stage_index: get_varint(&mut payload)?,
            },
        ),
        MSG_PROBE_END => ProbeMessage::End(
            ProbeEnd {
                request_id: get_varint(&mut payload)?,
                stage_index: get_varint(&mut payload)?,
                status: ProbeEndStatus::try_from(get_varint(&mut payload)?)?,
                attempted_padding_bytes: get_varint(&mut payload)?,
                accepted_padding_bytes: get_varint(&mut payload)?,
                media_accepted_payload_bytes: get_varint(&mut payload)?,
                padding_pending_seen: get_bool(&mut payload)?,
                stage_active_duration_ms: get_varint(&mut payload)?,
            },
        ),
        value => return Err(ProbeError::UnexpectedMessageType(value)),
    };
    if buffer::has_remaining(&payload) {
        return Err(ProbeError::Protocol("trailing bytes in Probe message"));
    }
    Ok(message)
}

/// A request is read from six integers in the order of its fields, with nothing
/// behind them.
pub proof fn request_is_read_in_order(bytes: Seq<u8>)
    ensures
        ({
            let b0 = bytes;
            let b1 = varint::behind_front(b0);
            let b2 = varint::behind_front(b1);
            let b3 = varint::behind_front(b2);
            let b4 = varint::behind_front(b3);
            let b5 = varint::behind_front(b4);
            let b6 = varint::behind_front(b5);
            decoded(1, bytes) == if !(varint::is_complete(b0) && varint::is_complete(b1) && varint::is_complete(b2) && varint::is_complete(b3) && varint::is_complete(b4) && varint::is_complete(b5)) {
                Err(ProbeError::InvalidVarint)
            } else if b6.len() > 0 {
                Err(ProbeError::Protocol("trailing bytes in Probe message"))
            } else {
                Ok(
                    ProbeMessage::Request(
                        ProbeRequest {
                        request_id: varint::front_value(b0),
                        stage_index: varint::front_value(b1),
                        stage_ratio_percent: varint::front_value(b2),
                        stage_target_bps: varint::front_value(b3),
                        active_duration_ms: varint::front_value(b4),
                        epoch_ms: varint::front_value(b5),
                        },
                    ),
                )
            }
        }),
{
    reveal_with_fuel(take_values, 7);
}

/// A START is read from three integers in the order of its fields, with nothing
/// behind them.
pub proof fn start_is_read_in_order(bytes: Seq<u8>)
    ensures
        ({
            let b0 = bytes;
            let b1 = varint::behind_front(b0);
            let b2 = varint::behind_front(b1);
            let b3 = varint::behind_front(b2);
            decoded(2, bytes) == if !(varint::is_complete(b0) && varint::is_complete(b1) && varint::is_complete(b2)) {
                Err(ProbeError::InvalidVarint)
            } else if b3.len() > 0 {
                Err(ProbeError::Protocol("trailing bytes in Probe message"))
            } else {
                Ok(
                    ProbeMessage::Start(
                        ProbeStart {
                        request_id: varint::front_value(b0),
                        stage_index: varint::front_value(b1),
                        stage_target_bps: varint::front_value(b2),
                        },
                    ),
                )
            }
        }),
{
    reveal_with_fuel(take_values, 4);
}

/// An acknowledgement of START is read from two integers in the order of its fields, with nothing
/// behind them.
pub proof fn start_ack_is_read_in_order(bytes: Seq<u8>)
    ensures
        ({
            let b0 = bytes;
            let b1 = varint::behind_front(b0);
            let b2 = varint::behind_front(b1);
            decoded(3, bytes) == if !(varint::is_complete(b0) && varint::is_complete(b1)) {
                Err(ProbeError::InvalidVarint)
            } else if b2.len() > 0 {
                Err(ProbeError::Protocol("trailing bytes in Probe message"))
            } else {
                Ok(
                    ProbeMessage::StartAck(
                        ProbeStartAck {
                        request_id: varint::front_value(b0),
                        stage_index: varint::front_value(b1),
                        },
                    ),
                )
            }
        }),
{
    reveal_with_fuel(take_values, 3);
}

/// An END is read from eight integers in the order of its fields, with nothing
/// behind them. The third is a status from 0 to 2 and the seventh a flag, 0 or 1;
/// what is wrong is reported where it is met.
pub proof fn end_is_read_in_order(bytes: Seq<u8>)
    ensures
        ({
            let b0 = bytes;
            let b1 = varint::behind_front(b0);
            let b2 = varint::behind_front(b1);
            let b3 = varint::behind_front(b2);
            let b4 = varint::behind_front(b3);
            let b5 = varint::behind_front(b4);
            let b6 = varint::behind_front(b5);
            let b7 = varint::behind_front(b6);
            let b8 = varint::behind_front(b7);
            let status = varint::front_value(b2);
            let flag = varint::front_value(b6);
            decoded(4, bytes) == if !(varint::is_complete(b0) && varint::is_complete(b1)
                && varint::is_complete(b2)) {
                Err(ProbeError::InvalidVarint)
            } else if status > 2 {
                Err(ProbeError::InvalidEndStatus(status))
            } else if !(varint::is_complete(b3) && varint::is_complete(b4) && varint::is_complete(
                b5,
            ) && varint::is_complete(b6)) {
                Err(ProbeError::InvalidVarint)
            } else if flag > 1 {
                Err(ProbeError::InvalidBoolean(flag))
            } else if !varint::is_complete(b7) {
                Err(ProbeError::InvalidVarint)
            } else if b8.len() > 0 {
                Err(ProbeError::Protocol("trailing bytes in Probe message"))
            } else {
                Ok(
                    ProbeMessage::End(
                        ProbeEnd {
                            request_id: varint::front_value(b0),
                            stage_index: varint::front_value(b1),
                            status: if status == 0 {
                                ProbeEndStatus::Completed
                            } else if status == 1 {
                                ProbeEndStatus::AbortedBackpressure
                            } else {
                                ProbeEndStatus::ProtocolError
                            },
                            attempted_padding_bytes: varint::front_value(b3),
                            accepted_padding_bytes: varint::front_value(b4),
                            media_accepted_payload_bytes: varint::front_value(b5),
                            padding_pending_seen: flag == 1,
                            stage_active_duration_ms: varint::front_value(b7),
                        },
                    ),
                )
            }
        }),
{
    reveal_with_fuel(take_values, 5);
}

/// Only the types from 1 to 4 are those of messages.
pub proof fn other_types_are_refused(message_type: u64, bytes: Seq<u8>)
    requires
        message_type == 0 || message_type > 4,
    ensures
        decoded(message_type, bytes) == Err::<ProbeMessage, ProbeError>(
            ProbeError::UnexpectedMessageType(message_type),
        ),
{
}

/// A request has type 1, and its fields are sent in their order.
pub proof fn request_layout(request: ProbeRequest)
    ensures
        message_type(ProbeMessage::Request(request)) == 1,
        payload(ProbeMessage::Request(request)) == varint::encoding(request.request_id)
            + varint::encoding(request.stage_index)
            + varint::encoding(request.stage_ratio_percent)
            + varint::encoding(request.stage_target_bps)
            + varint::encoding(request.active_duration_ms)
            + varint::encoding(request.epoch_ms),
{
    let v0 = Seq::<u64>::empty();
    assert(encodings(v0) =~= Seq::<u8>::empty());
    let v1 = v0.push(request.request_id);
    encodings_push(v0, request.request_id);
    let v2 = v1.push(request.stage_index);
    encodings_push(v1, request.stage_index);
    let v3 = v2.push(request.stage_ratio_percent);
    encodings_push(v2, request.stage_ratio_percent);
    let v4 = v3.push(request.stage_target_bps);
    encodings_push(v3, request.stage_target_bps);
    let v5 = v4.push(request.active_duration_ms);
    encodings_push(v4, request.active_duration_ms);
    let v6 = v5.push(request.epoch_ms);
    encodings_push(v5, request.epoch_ms);
    assert(fields(ProbeMessage::Request(request)) =~= v6);
}

/// A START has type 2, and its fields are sent in their order.
pub proof fn start_layout(start: ProbeStart)
    ensures
        message_type(ProbeMessage::Start(start)) == 2,
        payload(ProbeMessage::Start(start)) == varint::encoding(start.request_id)
            + varint::encoding(start.stage_index)
            + varint::encoding(start.stage_target_bps),
{
    let v0 = Seq::<u64>::empty();
    assert(encodings(v0) =~= Seq::<u8>::empty());
    let v1 = v0.push(start.request_id);
    encodings_push(v0, start.request_id);
    let v2 = v1.push(start.stage_index);
    encodings_push(v1, start.stage_index);
    let v3 = v2.push(start.stage_target_bps);
    encodings_push(v2, start.stage_target_bps);
    assert(fields(ProbeMessage::Start(start)) =~= v3);
}

/// An acknowledgement of START has type 3, and its fields are sent in their order.
pub proof fn start_ack_layout(ack: ProbeStartAck)
    ensures
        message_type(ProbeMessage::StartAck(ack)) == 3,
        payload(ProbeMessage::StartAck(ack)) == varint::encoding(ack.request_id)
            + varint::encoding(ack.stage_index),
{
    let v0 = Seq::<u64>::empty();
    assert(encodings(v0) =~= Seq::<u8>::empty());
    let v1 = v0.push(ack.request_id);
    encodings_push(v0, ack.request_id);
    let v2 = v1.push(ack.stage_index);
    encodings_push(v1, ack.stage_index);
    assert(fields(ProbeMessage::StartAck(ack)) =~= v2);
}

/// An END has type 4, and its fields are sent in their order, the status by its
/// number and the flag as 0 or 1.
pub proof fn end_layout(end: ProbeEnd, status: u64, flag: u64)
    requires
        status == match end.status {
            ProbeEndStatus::Completed => 0u64,
            ProbeEndStatus::AbortedBackpressure => 1u64,
            ProbeEndStatus::ProtocolError => 2u64,
        },
        flag == if end.padding_pending_seen {
            1u64
        } else {
            0u64
        },
    ensures
        message_type(ProbeMessage::End(end)) == 4,
        payload(ProbeMessage::End(end)) == varint::encoding(end.request_id)
            + varint::encoding(end.stage_index)
            + varint::encoding(status)
            + varint::encoding(end.attempted_padding_bytes)
            + varint::encoding(end.accepted_padding_bytes)
            + varint::encoding(end.media_accepted_payload_bytes)
            + varint::encoding(flag)
            + varint::encoding(end.stage_active_duration_ms),
{
    let v0 = Seq::<u64>::empty();
    assert(encodings(v0) =~= Seq::<u8>::empty());
    let v1 = v0.push(end.request_id);
    encodings_push(v0, end.request_id);
    let v2 = v1.push(end.stage_index);
    encodings_push(v1, end.stage_index);
    let v3 = v2.push(status);
    encodings_push(v2, status);
    let v4 = v3.push(end.attempted_padding_bytes);
    encodings_push(v3, end.attempted_padding_bytes);
    let v5 = v4.push(end.accepted_padding_bytes);
    encodings_push(v4, end.accepted_padding_bytes);
    let v6 = v5.push(end.media_accepted_payload_bytes);
    encodings_push(v5, end.media_accepted_payload_bytes);
    let v7 = v6.push(flag);
    encodings_push(v6, flag);
    let v8 = v7.push(end.stage_active_duration_ms);
    encodings_push(v7, end.stage_active_duration_ms);
    assert(fields(ProbeMessage::End(end)) =~= v8);
}

/// A frame is a byte for the type, a byte for the length of the payload, and the
/// payload.
pub proof fn frame_layout(message: ProbeMessage)
    ensures
        frame(message).len() == payload(message).len() + 2,
        frame(message)[0] == match message {
            ProbeMessage::Request(_) => 1u8,
            ProbeMessage::Start(_) => 2u8,
            ProbeMessage::StartAck(_) => 3u8,
            ProbeMessage::End(_) => 4u8,
        },
        frame(message)[1] == payload(message).len(),
        frame(message).skip(2) == payload(message),
{
    payload_len_bounded(message);
    assert(frame(message).skip(2) =~= payload(message));
}

/// What of a message is carried: of each integer what fits 62 bits.
pub proof fn whole_messages_are_carried(message: ProbeMessage)
    requires
        forall|i: int|
            0 <= i < fields(message).len() ==> #[trigger] fields(message)[i]
                < 0x4000_0000_0000_0000,
    ensures
        fits_wire(message),
        carried_message(message) == message,
{
    payload_round_trip(message);
}

} // verus!
