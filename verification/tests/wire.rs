use bytes::{Bytes, BytesMut};
use moq_probe::protocol::{
    ProbeEnd, ProbeEndStatus, ProbeError, ProbeMessage, ProbeRequest, ProbeStart, ProbeStartAck,
};
use moq_probe::stream::{
    ExactReader, ExactStep, MessageReader, MessageStep, VarintReader, VarintStep, WriteCursor,
    WriteStep,
};
use moq_probe::varint::{get_varint, put_varint};
use moq_probe::wire::{decode_probe_message, encode_probe_message};

fn request() -> ProbeRequest {
    ProbeRequest {
        request_id: 7,
        stage_index: 0,
        stage_ratio_percent: 50,
        stage_target_bps: 4_000_000,
        active_duration_ms: 3_000,
        epoch_ms: 500,
    }
}

fn messages() -> [ProbeMessage; 4] {
    [
        ProbeMessage::Request(request()),
        ProbeMessage::Start(ProbeStart {
            request_id: 7,
            stage_index: 0,
            stage_target_bps: 4_000_000,
        }),
        ProbeMessage::StartAck(ProbeStartAck {
            request_id: 7,
            stage_index: 0,
        }),
        ProbeMessage::End(ProbeEnd {
            request_id: 7,
            stage_index: 0,
            status: ProbeEndStatus::Completed,
            attempted_padding_bytes: 10,
            accepted_padding_bytes: 9,
            media_accepted_payload_bytes: 100,
            padding_pending_seen: false,
            stage_active_duration_ms: 3_000,
        }),
    ]
}

fn encoded(value: u64) -> Vec<u8> {
    let mut out = BytesMut::new();
    put_varint(&mut out, value);
    out.to_vec()
}

#[test]
fn wire_messages_round_trip() {
    for message in messages() {
        let mut encoded = encode_probe_message(&message);
        let message_type = get_varint(&mut encoded).unwrap();
        let length = get_varint(&mut encoded).unwrap() as usize;
        let payload = encoded.split_to(length);
        assert_eq!(
            decode_probe_message(message_type, payload).unwrap(),
            message
        );
    }
}

#[test]
fn varints_take_the_shortest_form() {
    assert_eq!(encoded(0), vec![0x00]);
    assert_eq!(encoded(0x3f), vec![0x3f]);
    assert_eq!(encoded(0x40), vec![0x40, 0x40]);
    assert_eq!(encoded(0x3fff), vec![0x7f, 0xff]);
    assert_eq!(encoded(0x4000), vec![0x80, 0x00, 0x40, 0x00]);
    assert_eq!(encoded(0x3fff_ffff), vec![0xbf, 0xff, 0xff, 0xff]);
    assert_eq!(
        encoded(0x4000_0000),
        vec![0xc0, 0, 0, 0, 0x40, 0, 0, 0]
    );
    assert_eq!(encoded(u64::MAX), vec![0xff; 8]);
}

#[test]
fn varints_round_trip_below_their_limit() {
    for value in [
        0,
        1,
        0x3f,
        0x40,
        0x3fff,
        0x4000,
        0x3fff_ffff,
        0x4000_0000,
        0x3fff_ffff_ffff_ffff,
    ] {
        let mut bytes = Bytes::from(encoded(value));
        assert_eq!(get_varint(&mut bytes), Ok(value));
        assert!(bytes.is_empty());
    }
    let mut too_large = Bytes::from(encoded(u64::MAX));
    assert_eq!(get_varint(&mut too_large), Ok(0x3fff_ffff_ffff_ffff));
}

#[test]
fn short_varints_are_refused_and_kept() {
    let mut none = Bytes::new();
    assert_eq!(get_varint(&mut none), Err(ProbeError::InvalidVarint));
    let mut short = Bytes::from(vec![0x80, 1, 2]);
    assert_eq!(get_varint(&mut short), Err(ProbeError::InvalidVarint));
    assert_eq!(short.to_vec(), vec![0x80, 1, 2]);
    let mut long = Bytes::from(vec![0x41, 2, 3]);
    assert_eq!(get_varint(&mut long), Ok(0x102));
    assert_eq!(long.to_vec(), vec![3]);
}

#[test]
fn frames_have_type_length_and_fields() {
    let frame = encode_probe_message(&ProbeMessage::StartAck(ProbeStartAck {
        request_id: 0x40,
        stage_index: 2,
    }));
    assert_eq!(frame.to_vec(), vec![3, 3, 0x40, 0x40, 2]);

    let end = encode_probe_message(&ProbeMessage::End(ProbeEnd {
        request_id: 1,
        stage_index: 2,
        status: ProbeEndStatus::AbortedBackpressure,
        attempted_padding_bytes: 4,
        accepted_padding_bytes: 5,
        media_accepted_payload_bytes: 6,
        padding_pending_seen: true,
        stage_active_duration_ms: 7,
    }));
    assert_eq!(end.to_vec(), vec![4, 8, 1, 2, 1, 4, 5, 6, 1, 7]);
}

#[test]
fn bad_payloads_are_refused() {
    assert_eq!(
        decode_probe_message(9, Bytes::new()),
        Err(ProbeError::UnexpectedMessageType(9))
    );
    assert_eq!(
        decode_probe_message(3, Bytes::from(vec![1])),
        Err(ProbeError::InvalidVarint)
    );
    assert_eq!(
        decode_probe_message(3, Bytes::from(vec![1, 2, 3])),
        Err(ProbeError::Protocol("trailing bytes in Probe message"))
    );
    assert_eq!(
        decode_probe_message(4, Bytes::from(vec![1, 2, 3, 4, 5, 6, 1, 7])),
        Err(ProbeError::InvalidEndStatus(3))
    );
    assert_eq!(
        decode_probe_message(4, Bytes::from(vec![1, 2, 0, 4, 5, 6, 2, 7])),
        Err(ProbeError::InvalidBoolean(2))
    );
}

#[test]
fn end_statuses_have_their_numbers() {
    for (code, status) in [
        (0u64, ProbeEndStatus::Completed),
        (1, ProbeEndStatus::AbortedBackpressure),
        (2, ProbeEndStatus::ProtocolError),
    ] {
        assert_eq!(status.code(), code);
        assert_eq!(ProbeEndStatus::try_from(code), Ok(status));
    }
    assert_eq!(
        ProbeEndStatus::try_from(3),
        Err(ProbeError::InvalidEndStatus(3))
    );
}

fn read(bytes: &[u8], most: usize) -> Result<ProbeMessage, ProbeError> {
    let mut place = 0;
    let mut reader = MessageReader::new();
    loop {
        let count = reader.wanted().min(most).min(bytes.len() - place);
        let chunk = if place == bytes.len() {
            None
        } else {
            Some(Bytes::copy_from_slice(&bytes[place..place + count]))
        };
        place += count;
        assert!(reader.fits(&chunk));
        match reader.on_read(chunk) {
            MessageStep::More(next) => reader = next,
            MessageStep::Done(message) => {
                assert_eq!(place, bytes.len());
                return Ok(message);
            }
            MessageStep::Failed(error) => return Err(error),
        }
    }
}

#[test]
fn messages_are_read_in_any_chunks() {
    for message in messages() {
        let frame = encode_probe_message(&message).to_vec();
        for most in 1..=frame.len() {
            assert_eq!(read(&frame, most), Ok(message));
        }
    }
}

#[test]
fn cut_messages_end_the_stream() {
    for message in messages() {
        let frame = encode_probe_message(&message).to_vec();
        for kept in 0..frame.len() {
            assert_eq!(read(&frame[..kept], 3), Err(ProbeError::EndOfStream));
        }
    }
}

#[test]
fn empty_payloads_are_decoded_at_once() {
    assert_eq!(read(&[1, 0], 8), Err(ProbeError::InvalidVarint));
    assert_eq!(
        read(&[9, 0], 8),
        Err(ProbeError::UnexpectedMessageType(9))
    );
}

#[test]
fn varint_reader_hands_the_raw_bytes_back() {
    let reader = VarintReader::new();
    assert_eq!(reader.wanted(), 1);
    assert!(reader.fits(&Some(Bytes::from(vec![0x80, 9]))));
    let reader = match reader.on_read(Some(Bytes::from(vec![0x80, 9]))) {
        VarintStep::More(reader) => reader,
        _ => panic!("more bytes are wanted"),
    };
    assert_eq!(reader.wanted(), 3);
    let reader = match reader.on_read(Some(Bytes::from(vec![1, 2]))) {
        VarintStep::More(reader) => reader,
        _ => panic!("more bytes are wanted"),
    };
    assert_eq!(reader.wanted(), 1);
    match reader.on_read(Some(Bytes::from(vec![3]))) {
        VarintStep::Done(value, raw) => {
            assert_eq!(value, 0x010203);
            assert_eq!(raw.to_vec(), vec![0x80, 1, 2, 3]);
        }
        _ => panic!("the integer is complete"),
    }
    assert!(matches!(
        VarintReader::new().on_read(Some(Bytes::new())),
        VarintStep::Failed(ProbeError::EndOfStream)
    ));
    assert!(matches!(
        VarintReader::new().on_read(None),
        VarintStep::Failed(ProbeError::EndOfStream)
    ));
}

#[test]
fn exact_reader_gathers_its_length() {
    match ExactReader::begin(0) {
        ExactStep::Done(out) => assert!(out.is_empty()),
        _ => panic!("nothing is wanted"),
    }
    let reader = match ExactReader::begin(3) {
        ExactStep::More(reader) => reader,
        _ => panic!("bytes are wanted"),
    };
    assert_eq!(reader.wanted(), 3);
    let reader = match reader.on_read(Some(Bytes::from(vec![1]))) {
        ExactStep::More(reader) => reader,
        _ => panic!("bytes are wanted"),
    };
    assert_eq!(reader.wanted(), 2);
    assert!(reader.fits(&None));
    assert!(reader.fits(&Some(Bytes::from(vec![2, 3]))));
    match reader.on_read(Some(Bytes::from(vec![2, 3]))) {
        ExactStep::Done(out) => assert_eq!(out.to_vec(), vec![1, 2, 3]),
        _ => panic!("all bytes are there"),
    }
}

#[test]
fn write_cursor_counts_to_its_end() {
    assert!(matches!(WriteCursor::begin(0), WriteStep::Done));
    let cursor = match WriteCursor::begin(5) {
        WriteStep::More(cursor) => cursor,
        _ => panic!("there is something to write"),
    };
    assert_eq!(cursor.offset(), 0);
    let cursor = match cursor.on_written(2) {
        WriteStep::More(cursor) => cursor,
        _ => panic!("there is more to write"),
    };
    assert_eq!(cursor.offset(), 2);
    assert!(matches!(cursor.on_written(3), WriteStep::Done));
    let cursor = match WriteCursor::begin(5) {
        WriteStep::More(cursor) => cursor,
        _ => panic!("there is something to write"),
    };
    assert!(matches!(
        cursor.on_written(0),
        WriteStep::Failed(ProbeError::ZeroWrite)
    ));
}

#[test]
fn empty_chunks_within_a_message_do_not_matter() {
    let frame = [3, 2, 5, 1];
    let mut reader = MessageReader::new();
    for chunk in [&frame[0..1], &frame[1..2], &[], &frame[2..3], &[]] {
        reader = match reader.on_read(Some(Bytes::copy_from_slice(chunk))) {
            MessageStep::More(reader) => reader,
            _ => panic!("more bytes are wanted"),
        };
    }
    match reader.on_read(Some(Bytes::copy_from_slice(&frame[3..]))) {
        MessageStep::Done(message) => assert_eq!(
            message,
            ProbeMessage::StartAck(ProbeStartAck {
                request_id: 5,
                stage_index: 1
            })
        ),
        _ => panic!("the message is complete"),
    }
}

#[test]
fn large_integers_keep_their_low_bits() {
    let message = ProbeMessage::StartAck(ProbeStartAck {
        request_id: u64::MAX,
        stage_index: 0,
    });
    let mut encoded = encode_probe_message(&message);
    let message_type = get_varint(&mut encoded).unwrap();
    let length = get_varint(&mut encoded).unwrap() as usize;
    let payload = encoded.split_to(length);
    assert_eq!(
        decode_probe_message(message_type, payload),
        Ok(ProbeMessage::StartAck(ProbeStartAck {
            request_id: 0x3fff_ffff_ffff_ffff,
            stage_index: 0
        }))
    );
}

#[test]
fn the_longest_frame_has_fifty_two_bytes() {
    let end = ProbeMessage::End(ProbeEnd {
        request_id: u64::MAX,
        stage_index: u64::MAX,
        status: ProbeEndStatus::ProtocolError,
        attempted_padding_bytes: u64::MAX,
        accepted_padding_bytes: u64::MAX,
        media_accepted_payload_bytes: u64::MAX,
        padding_pending_seen: true,
        stage_active_duration_ms: u64::MAX,
    });
    let frame = encode_probe_message(&end).to_vec();
    assert_eq!(frame.len(), 52);
    match read(&frame, 5) {
        Ok(ProbeMessage::End(end)) => {
            assert_eq!(end.request_id, 0x3fff_ffff_ffff_ffff);
            assert_eq!(end.status, ProbeEndStatus::ProtocolError);
        }
        other => panic!("{other:?}"),
    }
    let largest = ProbeMessage::Request(ProbeRequest {
        request_id: u64::MAX,
        stage_index: u64::MAX,
        stage_ratio_percent: u64::MAX,
        stage_target_bps: u64::MAX,
        active_duration_ms: u64::MAX,
        epoch_ms: u64::MAX,
    });
    assert_eq!(encode_probe_message(&largest).len(), 50);
}
