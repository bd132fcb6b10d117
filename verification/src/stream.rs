//! Reading from and writing to a stream, one piece at a time.
//!
//! A stream hands out its bytes in chunks of its own choosing, and takes as many
//! bytes of a write as it likes. The types here keep the place in between. Each is
//! asked how many bytes it wants, is told what the stream gave, and says how to go
//! on.

use bytes::{Bytes, BytesMut};
use vstd::prelude::*;

use crate::buffer;
use crate::protocol::{ProbeError, ProbeMessage, ProbeResult};
use crate::varint;
use crate::varint::{get_varint, needed_bytes};
use crate::wire;
use crate::wire::decode_probe_message;

verus! {

/// The bytes of a chunk, if the stream had one.
pub open spec fn chunk_bytes(chunk: Option<Bytes>) -> Option<Seq<u8>> {
    match chunk {
        Some(bytes) => Some(buffer::held(bytes)),
        None => None,
    }
}

/// Whether a chunk can be appended to `so_far` bytes within the largest size that
/// an allocation can have.
pub open spec fn has_room(so_far: Seq<u8>, chunk: Option<Seq<u8>>) -> bool {
    match chunk {
        Some(bytes) => so_far.len() + bytes.len() <= isize::MAX,
        None => true,
    }
}

fn room_for(so_far: &BytesMut, chunk: &Option<Bytes>) -> (fits: bool)
    ensures
        fits == has_room(buffer::gathered(*so_far), chunk_bytes(*chunk)),
{
    match chunk {
        Some(bytes) => match buffer::length(so_far).checked_add(buffer::remaining(bytes)) {
            Some(total) => total <= isize::MAX as usize,
            None => false,
        },
        None => true,
    }
}

/// What the next chunk makes of a variable-length integer that has been read so
/// far, or that the stream ended. Of the first chunk only its first byte counts.
pub open spec fn varint_after(so_far: Seq<u8>, chunk: Option<Seq<u8>>) -> ProbeResult<Seq<u8>> {
    match chunk {
        None => Err(ProbeError::EndOfStream),
        Some(bytes) => if so_far.len() > 0 {
            Ok(so_far + bytes)
        } else if bytes.len() > 0 {
            Ok(seq![bytes[0]])
        } else {
            Err(ProbeError::EndOfStream)
        },
    }
}

/// How many bytes are missing from a variable-length integer. Its first byte is
/// asked for alone.
pub open spec fn varint_wanted(so_far: Seq<u8>) -> int {
    if so_far.len() == 0 {
        1
    } else {
        varint::len_from_first(so_far[0]) - so_far.len()
    }
}

/// A variable-length integer of which some bytes are still missing.
pub struct VarintReader {
    raw: BytesMut,
}

/// How to go on after a chunk of a variable-length integer.
pub enum VarintStep {
    /// More bytes are wanted.
    More(VarintReader),
    /// The integer and the bytes that it was read from.
    Done(u64, Bytes),
    Failed(ProbeError),
}

impl VarintReader {
    /// The bytes read so far.
    pub closed spec fn view(&self) -> Seq<u8> {
        buffer::gathered(self.raw)
    }

    /// A reader that has not read anything.
    pub fn new() -> (reader: VarintReader)
        ensures
            reader@ == Seq::<u8>::empty(),
            !varint::is_complete(reader@),
    {
        VarintReader { raw: buffer::empty() }
    }

    /// How many bytes to ask the stream for.
    pub fn wanted(&self) -> (count: usize)
        requires
            !varint::is_complete(self@),
        ensures
            count == varint_wanted(self@),
            1 <= count <= 8,
    {
        let len: usize = buffer::length(&self.raw);
        if len == 0 {
            1
        } else {
            needed_bytes(buffer::gathered_slice(&self.raw)[0]) - len
        }
    }

    /// Whether there is room for what the stream gave.
    pub fn fits(&self, chunk: &Option<Bytes>) -> (fits: bool)
        ensures
            fits == has_room(self@, chunk_bytes(*chunk)),
    {
        room_for(&self.raw, chunk)
    }

    /// Takes what the stream gave: a chunk, or nothing where it has ended.
    pub fn on_read(self, chunk: Option<Bytes>) -> (step: VarintStep)
        requires
            has_room(self@, chunk_bytes(chunk)),
        ensures
            match varint_after(self@, chunk_bytes(chunk)) {
                Err(error) => step == VarintStep::Failed(error),
                Ok(bytes) => if varint::is_complete(bytes) {
                    &&& step matches VarintStep::Done(value, raw)
                    &&& value == varint::front_value(bytes)
                    &&& buffer::held(raw) == bytes
                } else {
                    &&& step matches VarintStep::More(reader)
                    &&& reader@ == bytes
                },
            },
    {
        let mut raw: BytesMut = self.raw;
        match chunk {
            None => return VarintStep::Failed(ProbeError::EndOfStream),
            Some(bytes) => {
                if buffer::length(&raw) > 0 {
                    buffer::extend(&mut raw, buffer::held_slice(&bytes));
                } else if buffer::has_remaining(&bytes) {
                    buffer::put_u8(&mut raw, buffer::held_slice(&bytes)[0]);
                    assert(buffer::gathered(raw) =~= seq![buffer::held(bytes)[0]]);
                } else {
                    return VarintStep::Failed(ProbeError::EndOfStream);
                }
            },
        }
        let mut encoded: Bytes = buffer::freeze(buffer::copy(&raw));
        match get_varint(&mut encoded) {
            Ok(value) => VarintStep::Done(value, buffer::freeze(raw)),
            Err(_) => VarintStep::More(VarintReader { raw }),
        }
    }
}

/// A run of bytes of a given length of which some are still missing.
pub struct ExactReader {
    len: usize,
    out: BytesMut,
}

/// How far a run of `len` bytes has been read.
pub ghost struct ExactProgress {
    pub len: usize,
    pub so_far: Seq<u8>,
}

/// How to go on after a chunk of a run of bytes.
pub enum ExactStep {
    /// More bytes are wanted.
    More(ExactReader),
    /// All bytes are there.
    Done(BytesMut),
    Failed(ProbeError),
}

impl ExactReader {
    /// How far the run has been read.
    pub closed spec fn view(&self) -> ExactProgress {
        ExactProgress { len: self.len, so_far: buffer::gathered(self.out) }
    }

    /// Begins to read `len` bytes. None are read where `len` is zero.
    pub fn begin(len: usize) -> (step: ExactStep)
        ensures
            if len == 0 {
                &&& step matches ExactStep::Done(out)
                &&& buffer::gathered(out) == Seq::<u8>::empty()
            } else {
                &&& step matches ExactStep::More(reader)
                &&& reader@ == (ExactProgress { len, so_far: Seq::empty() })
            },
    {
        let out: BytesMut = buffer::empty();
        if len == 0 {
            ExactStep::Done(out)
        } else {
            ExactStep::More(ExactReader { len, out })
        }
    }

    /// How many bytes to ask the stream for: all that are missing.
    pub fn wanted(&self) -> (count: usize)
        requires
            self@.so_far.len() < self@.len,
        ensures
            count == self@.len - self@.so_far.len(),
            count >= 1,
    {
        self.len - buffer::length(&self.out)
    }

    /// Whether there is room for what the stream gave.
    pub fn fits(&self, chunk: &Option<Bytes>) -> (fits: bool)
        ensures
            fits == has_room(self@.so_far, chunk_bytes(*chunk)),
    {
        room_for(&self.out, chunk)
    }

    /// Takes what the stream gave: a chunk, or nothing where it has ended.
    pub fn on_read(self, chunk: Option<Bytes>) -> (step: ExactStep)
        requires
            has_room(self@.so_far, chunk_bytes(chunk)),
        ensures
            match chunk_bytes(chunk) {
                None => step == ExactStep::Failed(ProbeError::EndOfStream),
                Some(bytes) => if self@.so_far.len() + bytes.len() >= self@.len {
                    &&& step matches ExactStep::Done(out)
                    &&& buffer::gathered(out) == self@.so_far + bytes
                } else {
                    &&& step matches ExactStep::More(reader)
                    &&& reader@ == (ExactProgress {
                        len: self@.len,
                        so_far: self@.so_far + bytes,
                    })
                },
            },
    {
        match chunk {
            None => ExactStep::Failed(ProbeError::EndOfStream),
            Some(bytes) => {
                let len: usize = self.len;
                let mut out: BytesMut = self.out;
                buffer::extend(&mut out, buffer::held_slice(&bytes));
                if buffer::length(&out) >= len {
                    ExactStep::Done(out)
                } else {
                    ExactStep::More(ExactReader { len, out })
                }
            },
        }
    }
}

/// How far a message has been read.
pub ghost enum MessageProgress {
    /// Within its type.
    Type { so_far: Seq<u8> },
    /// Within the length of its payload.
    Length { message_type: u64, so_far: Seq<u8> },
    /// Within its payload of `len` bytes.
    Payload { message_type: u64, len: usize, so_far: Seq<u8> },
}

/// What becomes of a message with a chunk.
pub ghost enum MessageOutcome {
    More(MessageProgress),
    Done(ProbeMessage),
    Failed(ProbeError),
}

/// What a payload of the given type makes.
pub open spec fn payload_outcome(message_type: u64, payload: Seq<u8>) -> MessageOutcome {
    match wire::decoded(message_type, payload) {
        Ok(message) => MessageOutcome::Done(message),
        Err(error) => MessageOutcome::Failed(error),
    }
}

impl MessageProgress {
    /// Nothing has been read.
    pub open spec fn start() -> MessageProgress {
        MessageProgress::Type { so_far: Seq::empty() }
    }

    /// Whether the part that is being read is in fact incomplete.
    pub open spec fn wf(self) -> bool {
        match self {
            MessageProgress::Type { so_far } => !varint::is_complete(so_far),
            MessageProgress::Length { message_type, so_far } => !varint::is_complete(so_far),
            MessageProgress::Payload { message_type, len, so_far } => so_far.len() < len,
        }
    }

    /// The bytes read of the part that is being read.
    pub open spec fn part(self) -> Seq<u8> {
        match self {
            MessageProgress::Type { so_far } => so_far,
            MessageProgress::Length { message_type, so_far } => so_far,
            MessageProgress::Payload { message_type, len, so_far } => so_far,
        }
    }

    /// How many bytes to ask the stream for.
    pub open spec fn wanted(self) -> int {
        match self {
            MessageProgress::Type { so_far } => varint_wanted(so_far),
            MessageProgress::Length { message_type, so_far } => varint_wanted(so_far),
            MessageProgress::Payload { message_type, len, so_far } => len - so_far.len(),
        }
    }

    /// What becomes of the message with a chunk, or without one where the stream
    /// has ended.
    pub open spec fn after(self, chunk: Option<Seq<u8>>) -> MessageOutcome {
        match self {
            MessageProgress::Type { so_far } => match varint_after(so_far, chunk) {
                Err(error) => MessageOutcome::Failed(error),
                Ok(bytes) => MessageOutcome::More(
                    if varint::is_complete(bytes) {
                        MessageProgress::Length {
                            message_type: varint::front_value(bytes),
                            so_far: Seq::empty(),
                        }
                    } else {
                        MessageProgress::Type { so_far: bytes }
                    },
                ),
            },
            MessageProgress::Length { message_type, so_far } => match varint_after(so_far, chunk) {
                Err(error) => MessageOutcome::Failed(error),
                Ok(bytes) => if !varint::is_complete(bytes) {
                    MessageOutcome::More(MessageProgress::Length { message_type, so_far: bytes })
                } else if varint::front_value(bytes) as usize == 0 {
                    payload_outcome(message_type, Seq::empty())
                } else {
                    MessageOutcome::More(
                        MessageProgress::Payload {
                            message_type,
                            len: varint::front_value(bytes) as usize,
                            so_far: Seq::empty(),
                        },
                    )
                },
            },
            MessageProgress::Payload { message_type, len, so_far } => match chunk {
                None => MessageOutcome::Failed(ProbeError::EndOfStream),
                Some(bytes) => if so_far.len() + bytes.len() >= len {
                    payload_outcome(message_type, so_far + bytes)
                } else {
                    MessageOutcome::More(
                        MessageProgress::Payload { message_type, len, so_far: so_far + bytes },
                    )
                },
            },
        }
    }
}

enum MessagePart {
    Type(VarintReader),
    Length(u64, VarintReader),
    Payload(u64, ExactReader),
}

/// A message of which some bytes are still missing.
pub struct MessageReader {
    part: MessagePart,
}

/// How to go on after a chunk of a message.
pub enum MessageStep {
    /// More bytes are wanted.
    More(MessageReader),
    Done(ProbeMessage),
    Failed(ProbeError),
}

impl MessageReader {
    /// How far the message has been read.
    pub closed spec fn view(&self) -> MessageProgress {
        match self.part {
            MessagePart::Type(reader) => MessageProgress::Type { so_far: reader@ },
            MessagePart::Length(message_type, reader) => MessageProgress::Length {
                message_type,
                so_far: reader@,
            },
            MessagePart::Payload(message_type, reader) => MessageProgress::Payload {
                message_type,
                len: reader@.len,
                so_far: reader@.so_far,
            },
        }
    }

    /// A reader that has not read anything.
    pub fn new() -> (reader: MessageReader)
        ensures
            reader@ == MessageProgress::start(),
            reader@.wf(),
    {
        MessageReader { part: MessagePart::Type(VarintReader::new()) }
    }

    /// How many bytes to ask the stream for.
    pub fn wanted(&self) -> (count: usize)
        requires
            self@.wf(),
        ensures
            count == self@.wanted(),
            count >= 1,
    {
        match &self.part {
            MessagePart::Type(reader) => reader.wanted(),
            MessagePart::Length(_, reader) => reader.wanted(),
            MessagePart::Payload(_, reader) => reader.wanted(),
        }
    }

    /// Whether there is room for what the stream gave.
    pub fn fits(&self, chunk: &Option<Bytes>) -> (fits: bool)
        ensures
            fits == has_room(self@.part(), chunk_bytes(*chunk)),
    {
        match &self.part {
            MessagePart::Type(reader) => reader.fits(chunk),
            MessagePart::Length(_, reader) => reader.fits(chunk),
            MessagePart::Payload(_, reader) => reader.fits(chunk),
        }
    }

    /// Takes what the stream gave: a chunk, or nothing where it has ended.
    pub fn on_read(self, chunk: Option<Bytes>) -> (step: MessageStep)
        requires
            self@.wf(),
            has_room(self@.part(), chunk_bytes(chunk)),
        ensures
            match self@.after(chunk_bytes(chunk)) {
                MessageOutcome::More(progress) => {
                    &&& step matches MessageStep::More(reader)
                    &&& reader@ == progress
                    &&& reader@.wf()
                },
                MessageOutcome::Done(message) => step == MessageStep::Done(message),
                MessageOutcome::Failed(error) => step == MessageStep::Failed(error),
            },
    {
        match self.part {
            MessagePart::Type(reader) => match reader.on_read(chunk) {
                VarintStep::More(reader) => MessageStep::More(
                    MessageReader { part: MessagePart::Type(reader) },
                ),
                VarintStep::Done(message_type, _) => MessageStep::More(
                    MessageReader { part: MessagePart::Length(message_type, VarintReader::new()) },
                ),
                VarintStep::Failed(error) => MessageStep::Failed(error),
            },
            MessagePart::Length(message_type, reader) => match reader.on_read(chunk) {
                VarintStep::More(reader) => MessageStep::More(
                    MessageReader { part: MessagePart::Length(message_type, reader) },
                ),
                VarintStep::Done(length, _) => {
                    let step: ExactStep = ExactReader::begin(length as usize);
                    MessageReader::with_payload(message_type, step)
                },
                VarintStep::Failed(error) => MessageStep::Failed(error),
            },
            MessagePart::Payload(message_type, reader) => {
                let step: ExactStep = reader.on_read(chunk);
                MessageReader::with_payload(message_type, step)
            },
        }
    }

    /// Goes on with a payload: decodes it where it is complete.
    fn with_payload(message_type: u64, step: ExactStep) -> (next: MessageStep)
        ensures
            match step {
                ExactStep::More(reader) => {
                    &&& next matches MessageStep::More(whole)
                    &&& whole@ == (MessageProgress::Payload {
                        message_type,
                        len: reader@.len,
                        so_far: reader@.so_far,
                    })
                },
                ExactStep::Done(payload) => match payload_outcome(
                    message_type,
                    buffer::gathered(payload),
                ) {
                    MessageOutcome::Done(message) => next == MessageStep::Done(message),
                    MessageOutcome::Failed(error) => next == MessageStep::Failed(error),
                    MessageOutcome::More(_) => false,
                },
                ExactStep::Failed(error) => next == MessageStep::Failed(error),
            },
    {
        match step {
            ExactStep::More(reader) => MessageStep::More(
                MessageReader { part: MessagePart::Payload(message_type, reader) },
            ),
            ExactStep::Done(payload) => match decode_probe_message(
                message_type,
                buffer::freeze(payload),
            ) {
                Ok(message) => MessageStep::Done(message),
                Err(error) => MessageStep::Failed(error),
            },
            ExactStep::Failed(error) => MessageStep::Failed(error),
        }
    }
}

/// What becomes of a message with one chunk after the other. Where it is done or
/// has failed before the last chunk, what is left of the chunks makes no
/// difference.
pub open spec fn fed(progress: MessageProgress, chunks: Seq<Seq<u8>>) -> MessageOutcome
    decreases chunks.len(),
{
    if chunks.len() == 0 {
        MessageOutcome::More(progress)
    } else {
        match progress.after(Some(chunks[0])) {
            MessageOutcome::More(next) => fed(next, chunks.drop_first()),
            outcome => outcome,
        }
    }
}

/// Whether a stream may hand out the given chunks: none is longer than what was
/// asked for, and where an integer begins none is empty.
pub open spec fn handed_out(progress: MessageProgress, chunks: Seq<Seq<u8>>) -> bool
    decreases chunks.len(),
{
    chunks.len() > 0 ==> {
        &&& chunks[0].len() <= progress.wanted()
        &&& chunks[0].len() > 0 || progress.part().len() > 0 || progress is Payload
        &&& match progress.after(Some(chunks[0])) {
            MessageOutcome::More(next) => handed_out(next, chunks.drop_first()),
            _ => chunks.len() == 1,
        }
    }
}

/// Whether bytes are one encoding of an integer, with nothing behind it.
pub open spec fn one_integer(bytes: Seq<u8>) -> bool {
    varint::is_complete(bytes) && varint::behind_front(bytes).len() == 0
}

/// Whether `rest` is what is missing of a type, a length and a payload.
spec fn missing(
    progress: MessageProgress,
    kind: Seq<u8>,
    length: Seq<u8>,
    body: Seq<u8>,
    rest: Seq<u8>,
) -> bool {
    &&& progress.wf()
    &&& match progress {
        MessageProgress::Type { so_far } => so_far + rest == kind + (length + body),
        MessageProgress::Length { message_type, so_far } => {
            &&& message_type == varint::front_value(kind)
            &&& so_far + rest == length + body
        },
        MessageProgress::Payload { message_type, len, so_far } => {
            &&& message_type == varint::front_value(kind)
            &&& len == body.len()
            &&& so_far + rest == body
        },
    }
}

proof fn varint_part(so_far: Seq<u8>, rest: Seq<u8>, integer: Seq<u8>, tail: Seq<u8>, count: int)
    requires
        !varint::is_complete(so_far),
        one_integer(integer),
        so_far + rest == integer + tail,
        1 <= count <= varint_wanted(so_far),
        count <= rest.len(),
    ensures
        ({
            let next = so_far + rest.take(count);
            &&& varint_after(so_far, Some(rest.take(count))) == Ok::<Seq<u8>, ProbeError>(next)
            &&& varint::is_complete(next) ==> {
                &&& next == integer
                &&& rest.skip(count) == tail
            }
            &&& !varint::is_complete(next) ==> next + rest.skip(count) == integer + tail
        }),
{
    let whole = integer + tail;
    let chunk = rest.take(count);
    let next = so_far + chunk;
    assert(whole =~= next + rest.skip(count));
    assert(next =~= whole.take(next.len() as int));
    assert(next[0] == whole[0]);
    if so_far.len() == 0 {
        assert(next =~= seq![chunk[0]]);
    } else {
        assert(so_far[0] == whole[0]);
    }
    if varint::is_complete(next) {
        assert(next =~= integer);
        assert(whole.skip(next.len() as int) =~= tail);
        assert(whole.skip(next.len() as int) =~= rest.skip(count));
    }
}

proof fn missing_after_chunk(
    progress: MessageProgress,
    kind: Seq<u8>,
    length: Seq<u8>,
    body: Seq<u8>,
    rest: Seq<u8>,
    count: int,
)
    requires
        one_integer(kind),
        one_integer(length),
        varint::front_value(length) == body.len(),
        body.len() <= usize::MAX,
        missing(progress, kind, length, body, rest),
        0 <= count <= progress.wanted(),
        count > 0 || progress.part().len() > 0 || progress is Payload,
        count <= rest.len(),
        rest.len() > 0,
    ensures
        match progress.after(Some(rest.take(count))) {
            MessageOutcome::More(next) => {
                &&& missing(next, kind, length, body, rest.skip(count))
                &&& rest.skip(count).len() > 0
            },
            outcome => {
                &&& outcome == payload_outcome(varint::front_value(kind), body)
                &&& rest.skip(count).len() == 0
            },
        },
{
    assert(rest.skip(0) =~= rest);
    assert(progress.part() + rest.take(0) =~= progress.part());
    match progress {
        MessageProgress::Type { so_far } => {
            if count > 0 {
                varint_part(so_far, rest, kind, length + body, count);
            }
            assert(Seq::<u8>::empty() + rest.skip(count) =~= rest.skip(count));
        },
        MessageProgress::Length { message_type, so_far } => {
            if count > 0 {
                varint_part(so_far, rest, length, body, count);
            }
            assert(Seq::<u8>::empty() + rest.skip(count) =~= rest.skip(count));
            assert(body.len() == 0 ==> body =~= Seq::<u8>::empty());
        },
        MessageProgress::Payload { message_type, len, so_far } => {
            let next = so_far + rest.take(count);
            assert(next + rest.skip(count) =~= body);
            if next.len() >= len {
                assert(next =~= body);
            }
        },
    }
}

proof fn missing_chunks(
    progress: MessageProgress,
    kind: Seq<u8>,
    length: Seq<u8>,
    body: Seq<u8>,
    chunks: Seq<Seq<u8>>,
)
    requires
        one_integer(kind),
        one_integer(length),
        varint::front_value(length) == body.len(),
        body.len() <= usize::MAX,
        missing(progress, kind, length, body, chunks.flatten()),
        chunks.flatten().len() > 0,
        handed_out(progress, chunks),
    ensures
        fed(progress, chunks) == payload_outcome(varint::front_value(kind), body),
    decreases chunks.len(),
{
    let rest = chunks.flatten();
    let count = chunks[0].len() as int;
    assert(rest == chunks[0] + chunks.drop_first().flatten());
    assert(rest.take(count) =~= chunks[0]);
    assert(rest.skip(count) =~= chunks.drop_first().flatten());
    missing_after_chunk(progress, kind, length, body, rest, count);
    match progress.after(Some(chunks[0])) {
        MessageOutcome::More(next) => missing_chunks(
            next,
            kind,
            length,
            body,
            chunks.drop_first(),
        ),
        _ => {},
    }
}

/// Whatever a stream sends as a type, a length and that many bytes, and however it
/// cuts it into chunks, reading them decodes those bytes as a payload of that type,
/// or fails as decoding them does.
pub proof fn any_frame_is_decoded(
    kind: Seq<u8>,
    length: Seq<u8>,
    body: Seq<u8>,
    chunks: Seq<Seq<u8>>,
)
    requires
        one_integer(kind),
        one_integer(length),
        varint::front_value(length) == body.len(),
        body.len() <= usize::MAX,
        chunks.flatten() == kind + length + body,
        handed_out(MessageProgress::start(), chunks),
    ensures
        match wire::decoded(varint::front_value(kind), body) {
            Ok(message) => fed(MessageProgress::start(), chunks) == MessageOutcome::Done(message),
            Err(error) => fed(MessageProgress::start(), chunks) == MessageOutcome::Failed(error),
        },
{
    assert(Seq::<u8>::empty() + chunks.flatten() =~= kind + (length + body));
    missing_chunks(MessageProgress::start(), kind, length, body, chunks);
}

/// A reader asks for the first byte of an integer alone, then for the rest of it,
/// and for all of a payload that is missing.
pub proof fn what_is_missing_is_asked_for(progress: MessageProgress)
    ensures
        match progress {
            MessageProgress::Payload { len, so_far, .. } => progress.wanted() == len
                - so_far.len(),
            _ => {
                let so_far = progress.part();
                &&& so_far.len() == 0 ==> progress.wanted() == 1
                &&& so_far.len() > 0 && so_far[0] < 0x40 ==> progress.wanted() == 1 - so_far.len()
                &&& so_far.len() > 0 && 0x40 <= so_far[0] < 0x80 ==> progress.wanted() == 2
                    - so_far.len()
                &&& so_far.len() > 0 && 0x80 <= so_far[0] < 0xc0 ==> progress.wanted() == 4
                    - so_far.len()
                &&& so_far.len() > 0 && 0xc0 <= so_far[0] ==> progress.wanted() == 8
                    - so_far.len()
            },
        },
{
}

/// However a stream cuts the frame of a message into chunks, reading them gives
/// the message back, as far as 62 bits carry its integers, and unchanged where they
/// all fit.
pub proof fn chunks_do_not_matter(message: ProbeMessage, chunks: Seq<Seq<u8>>)
    requires
        chunks.flatten() == wire::frame(message),
        handed_out(MessageProgress::start(), chunks),
    ensures
        fed(MessageProgress::start(), chunks) == MessageOutcome::Done(
            wire::carried_message(message),
        ),
        wire::fits_wire(message) ==> wire::carried_message(message) == message,
{
    let kind = varint::encoding(wire::message_type(message));
    let length = varint::encoding(wire::payload(message).len() as u64);
    varint::encoding_round_trip(wire::message_type(message), Seq::empty());
    varint::encoding_round_trip(wire::payload(message).len() as u64, Seq::empty());
    wire::payload_len_bounded(message);
    assert(kind + Seq::<u8>::empty() =~= kind);
    assert(length + Seq::<u8>::empty() =~= length);
    any_frame_is_decoded(kind, length, wire::payload(message), chunks);
    wire::payload_round_trip(message);
}

/// A stream that ends within a message makes the read fail for the end of the
/// stream.
pub proof fn early_end_is_reported(progress: MessageProgress)
    ensures
        progress.after(None) == MessageOutcome::Failed(ProbeError::EndOfStream),
{
}

/// Of the chunk that begins an integer the first byte is taken, and an empty one
/// ends the stream. Every other chunk is taken whole.
pub proof fn chunks_are_taken_whole(so_far: Seq<u8>, chunk: Seq<u8>, message_type: u64, len: usize)
    ensures
        so_far.len() > 0 ==> varint_after(so_far, Some(chunk)) == Ok::<Seq<u8>, ProbeError>(
            so_far + chunk,
        ),
        so_far.len() == 0 && chunk.len() > 0 ==> varint_after(so_far, Some(chunk)) == Ok::<
            Seq<u8>,
            ProbeError,
        >(chunk.take(1)),
        so_far.len() == 0 && chunk.len() == 0 ==> varint_after(so_far, Some(chunk)) == Err::<
            Seq<u8>,
            ProbeError,
        >(ProbeError::EndOfStream),
        so_far.len() + chunk.len() >= len ==> (MessageProgress::Payload {
            message_type,
            len,
            so_far,
        }).after(Some(chunk)) == match wire::decoded(message_type, so_far + chunk) {
            Ok(message) => MessageOutcome::Done(message),
            Err(error) => MessageOutcome::Failed(error),
        },
{
    if so_far.len() == 0 && chunk.len() > 0 {
        assert(chunk.take(1) =~= seq![chunk[0]]);
    }
}

/// Bytes of which a stream has not taken all yet.
pub struct WriteCursor {
    total: usize,
    written: usize,
}

/// How to go on with a write.
pub enum WriteStep {
    /// There is more to write.
    More(WriteCursor),
    Done,
    Failed(ProbeError),
}

impl WriteCursor {
    /// How many bytes there are to write in all.
    pub closed spec fn total(&self) -> usize {
        self.total
    }

    /// How many bytes have been taken.
    pub closed spec fn written(&self) -> usize {
        self.written
    }

    /// Begins to write `total` bytes. Nothing is written where `total` is zero.
    pub fn begin(total: usize) -> (step: WriteStep)
        ensures
            if total == 0 {
                step == WriteStep::Done
            } else {
                &&& step matches WriteStep::More(cursor)
                &&& cursor.total() == total
                &&& cursor.written() == 0
            },
    {
        if total == 0 {
            WriteStep::Done
        } else {
            WriteStep::More(WriteCursor { total, written: 0 })
        }
    }

    /// Where the bytes begin that are still to be written.
    pub fn offset(&self) -> (offset: usize)
        ensures
            offset == self.written(),
    {
        self.written
    }

    /// Takes how many bytes the stream took. That it took none is an error.
    pub fn on_written(self, count: usize) -> (step: WriteStep)
        requires
            self.written() + count <= usize::MAX,
        ensures
            if count == 0 {
                step == WriteStep::Failed(ProbeError::ZeroWrite)
            } else if self.written() + count >= self.total() {
                step == WriteStep::Done
            } else {
                &&& step matches WriteStep::More(cursor)
                &&& cursor.total() == self.total()
                &&& cursor.written() == self.written() + count
            },
    {
        if count == 0 {
            return WriteStep::Failed(ProbeError::ZeroWrite);
        }
        let written: usize = self.written + count;
        if written < self.total {
            WriteStep::More(WriteCursor { total: self.total, written })
        } else {
            WriteStep::Done
        }
    }
}

} // verus!
