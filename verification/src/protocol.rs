//! The probe protocol: its numbers, its messages and its errors.

use vstd::prelude::*;

verus! {

/// Stream type that opens a probe control stream.
pub const PROBE_STREAM_TYPE: u64 = 0xff00_0001;

/// Version of the probe protocol spoken on a control stream.
pub const PROBE_PROTOCOL_VERSION: u64 = 1;

/// MOQT type of a padding stream.
pub const PROBE_PADDING_STREAM_TYPE: u64 = 0x132B3E28;

/// MOQT type of a padding datagram.
pub const PROBE_PADDING_DATAGRAM_TYPE: u64 = 0x132B3E29;

pub const MSG_PROBE_REQUEST: u64 = 0x01;

pub const MSG_PROBE_START: u64 = 0x02;

pub const MSG_PROBE_START_ACK: u64 = 0x03;

pub const MSG_PROBE_END: u64 = 0x04;

/// The stages of a logical probe, each as a percentage of its target.
pub const DEFAULT_STAGE_RATIOS_PERCENT: [u64; 3] = [50, 75, 100];

/// Percentage of its target that a stage has to reach to pass.
pub const DEFAULT_STAGE_PASS_PERCENT: u64 = 90;

/// How often the sender of a stage tops its padding up.
pub const PADDING_PACING_TICK_MS: u64 = 10;

/// Code with which a padding stream is reset when it meets backpressure.
pub const PROBE_PADDING_ABORTED_BACKPRESSURE: u32 = 0x42;

/// Priority of a control stream: above every media stream. Larger values are
/// scheduled first.
pub const PROBE_CONTROL_PRIORITY: i32 = i32::MAX;

/// Priority of a padding stream: below every media stream.
pub const PADDING_PRIORITY: i32 = i32::MIN;

/// What can go wrong in a probe, short of the transport failing.
#[derive(Debug, Clone, Copy, PartialEq, Eq)]
pub enum ProbeError {
    EndOfStream,
    InvalidVarint,
    InvalidVersion(u64),
    UnexpectedMessageType(u64),
    InvalidEndStatus(u64),
    InvalidBoolean(u64),
    Protocol(&'static str),
    State(&'static str),
    ZeroWrite,
}

pub type ProbeResult<T> = Result<T, ProbeError>;

/// How the sender of a stage says that it ended.
#[derive(Debug, Clone, Copy, PartialEq, Eq, Structural)]
pub enum ProbeEndStatus {
    Completed,
    AbortedBackpressure,
    ProtocolError,
}

impl ProbeEndStatus {
    /// The number that stands for the status on the wire.
    pub open spec fn wire_code(self) -> u64 {
        match self {
            ProbeEndStatus::Completed => 0,
            ProbeEndStatus::AbortedBackpressure => 1,
            ProbeEndStatus::ProtocolError => 2,
        }
    }

    /// The status that a number on the wire stands for.
    pub open spec fn of_wire_code(code: u64) -> ProbeResult<ProbeEndStatus> {
        if code == 0 {
            Ok(ProbeEndStatus::Completed)
        } else if code == 1 {
            Ok(ProbeEndStatus::AbortedBackpressure)
        } else if code == 2 {
            Ok(ProbeEndStatus::ProtocolError)
        } else {
            Err(ProbeError::InvalidEndStatus(code))
        }
    }

    /// The number that stands for the status on the wire.
    pub fn code(self) -> (code: u64)
        ensures
            code == self.wire_code(),
    {
        match self {
            ProbeEndStatus::Completed => 0,
            ProbeEndStatus::AbortedBackpressure => 1,
            ProbeEndStatus::ProtocolError => 2,
        }
    }
}

impl TryFrom<u64> for ProbeEndStatus {
    type Error = ProbeError;

    fn try_from(value: u64) -> (status: ProbeResult<Self>) {
        match value {
            0 => Ok(ProbeEndStatus::Completed),
            1 => Ok(ProbeEndStatus::AbortedBackpressure),
            2 => Ok(ProbeEndStatus::ProtocolError),
            value => Err(ProbeError::InvalidEndStatus(value)),
        }
    }
}

impl vstd::std_specs::convert::TryFromSpecImpl<u64> for ProbeEndStatus {
    open spec fn obeys_try_from_spec() -> bool {
        true
    }

    open spec fn try_from_spec(value: u64) -> ProbeResult<Self> {
        ProbeEndStatus::of_wire_code(value)
    }
}

/// Asks the sender to run one stage.
#[derive(Debug, Clone, Copy, PartialEq, Eq, Structural)]
pub struct ProbeRequest {
    pub request_id: u64,
    pub stage_index: u64,
    pub stage_ratio_percent: u64,
    pub stage_target_bps: u64,
    /// Active duration of this stage, not of the logical three-stage probe.
    pub active_duration_ms: u64,
    pub epoch_ms: u64,
}

/// Tells the receiver that a stage is about to start.
#[derive(Debug, Clone, Copy, PartialEq, Eq, Structural)]
pub struct ProbeStart {
    pub request_id: u64,
    pub stage_index: u64,
    pub stage_target_bps: u64,
}

/// Tells the sender that the receiver is armed.
#[derive(Debug, Clone, Copy, PartialEq, Eq, Structural)]
pub struct ProbeStartAck {
    pub request_id: u64,
    pub stage_index: u64,
}

/// Reports how a stage went on the sender's side.
#[derive(Debug, Clone, Copy, PartialEq, Eq, Structural)]
pub struct ProbeEnd {
    pub request_id: u64,
    pub stage_index: u64,
    pub status: ProbeEndStatus,
    pub attempted_padding_bytes: u64,
    pub accepted_padding_bytes: u64,
    pub media_accepted_payload_bytes: u64,
    pub padding_pending_seen: bool,
    pub stage_active_duration_ms: u64,
}

#[derive(Debug, Clone, Copy, PartialEq, Eq, Structural)]
pub enum ProbeMessage {
    Request(ProbeRequest),
    Start(ProbeStart),
    StartAck(ProbeStartAck),
    End(ProbeEnd),
}

/// A status survives the trip over the wire.
pub proof fn end_status_round_trip(status: ProbeEndStatus)
    ensures
        ProbeEndStatus::of_wire_code(status.wire_code()) == Ok::<ProbeEndStatus, ProbeError>(status),
{
}

/// Control streams go before media and padding behind it, whatever of its
/// priorities, 0 to 255, media has.
pub proof fn priorities_enclose_media(media_priority: i32)
    requires
        0 <= media_priority <= 255,
    ensures
        PADDING_PRIORITY < media_priority < PROBE_CONTROL_PRIORITY,
{
}

/// The statuses stand on the wire as 0, 1 and 2, in the order of completed, aborted
/// and protocol error. Any other number is refused by its value.
pub proof fn end_status_codes(code: u64)
    ensures
        ProbeEndStatus::Completed.wire_code() == 0,
        ProbeEndStatus::AbortedBackpressure.wire_code() == 1,
        ProbeEndStatus::ProtocolError.wire_code() == 2,
        code > 2 ==> ProbeEndStatus::of_wire_code(code) == Err::<ProbeEndStatus, ProbeError>(
            ProbeError::InvalidEndStatus(code),
        ),
        ProbeEndStatus::of_wire_code(code) matches Ok(status) ==> status.wire_code() == code,
        code <= 2 ==> ProbeEndStatus::of_wire_code(code) is Ok,
{
}

/// The numbers that both sides of the protocol have to agree on.
pub proof fn protocol_numbers()
    ensures
        PROBE_STREAM_TYPE == 0xff00_0001,
        PROBE_PROTOCOL_VERSION == 1,
        PROBE_PADDING_STREAM_TYPE == 0x132B3E28,
        PROBE_PADDING_DATAGRAM_TYPE == PROBE_PADDING_STREAM_TYPE + 1,
        MSG_PROBE_REQUEST == 1,
        MSG_PROBE_START == 2,
        MSG_PROBE_START_ACK == 3,
        MSG_PROBE_END == 4,
        DEFAULT_STAGE_RATIOS_PERCENT@ == seq![50u64, 75u64, 100u64],
        DEFAULT_STAGE_PASS_PERCENT == 90,
        PADDING_PACING_TICK_MS == 10,
        PROBE_PADDING_ABORTED_BACKPRESSURE == 0x42,
{
    assert(DEFAULT_STAGE_RATIOS_PERCENT@ =~= seq![50u64, 75u64, 100u64]);
}

} // verus!
