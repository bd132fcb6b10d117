//! Receiver-goodput probing for a MoQ connection.
//!
//! One logical probe runs stages at 50%, 75% and 100% of a target bitrate, in
//! that order. Every stage lasts the full requested active duration and follows
//! the handshake
//!
//! `REQUEST -> START -> START_ACK -> 1-byte padding -> paced padding -> END`.

pub mod acceptor;
pub mod address;
pub mod buffer;
pub mod client;
pub mod clock;
pub mod csv;
pub mod protocol;
pub mod rate;
pub mod receiver;
pub mod sender;
pub mod stream;
pub mod text;
pub mod varint;
pub mod wire;

pub use acceptor::{validate_request, ProbeConfig};
pub use address::moq_url;
pub use clock::now_ms;
pub use protocol::{
    ProbeEnd, ProbeEndStatus, ProbeError, ProbeMessage, ProbeRequest, ProbeResult, ProbeStart,
    ProbeStartAck, DEFAULT_STAGE_PASS_PERCENT, DEFAULT_STAGE_RATIOS_PERCENT, MSG_PROBE_END,
    MSG_PROBE_REQUEST, MSG_PROBE_START, MSG_PROBE_START_ACK, PADDING_PACING_TICK_MS,
    PADDING_PRIORITY, PROBE_CONTROL_PRIORITY, PROBE_PADDING_ABORTED_BACKPRESSURE,
    PROBE_PADDING_DATAGRAM_TYPE, PROBE_PADDING_STREAM_TYPE, PROBE_PROTOCOL_VERSION,
    PROBE_STREAM_TYPE,
};
pub use rate::{
    allowed_total_bytes, bitrate_bps, goodput_passes, padding_due_bytes, stage_target_bps,
};
pub use receiver::{MeasurementPhase, ReceiverProbeContext, StageResult, StageStatus};
pub use sender::SenderProbeContext;
pub use varint::{get_varint, put_varint};
pub use wire::{decode_probe_message, encode_probe_message};
