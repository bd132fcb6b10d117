//! The sender of a stage.
//!
//! The sender opens a padding stream, announces the stage with START and waits
//! for START_ACK. It then writes one byte of padding and keeps topping media and
//! padding up to what the target allows until the active duration is over. Every
//! padding write is polled once: one that would have to wait aborts the stage.
//!
//! [`SenderStage`] decides what comes next. Whoever drives it carries out
//! [`SenderStage::action`] and reports what happened to [`SenderStage::step`].

use std::time::Duration;
use vstd::prelude::*;

use crate::clock;
use crate::clock::{duration_millis, truncate_u64};
use crate::protocol::{
    ProbeEnd, ProbeEndStatus, ProbeError, ProbeMessage, ProbeRequest, ProbeStart, ProbeStartAck,
    PADDING_PACING_TICK_MS, PADDING_PRIORITY, PROBE_PADDING_ABORTED_BACKPRESSURE,
    PROBE_PADDING_STREAM_TYPE,
};
use crate::rate;
use crate::rate::padding_due_in_nanos;

verus! {

/// The most padding that one write offers.
pub const PADDING_CHUNK_BYTES: u64 = 1200;

/// Counts the media payload that a connection's sender has accepted.
#[derive(Debug)]
pub struct SenderProbeContext {
    media_accepted_payload_bytes: u64,
}

impl Default for SenderProbeContext {
    fn default() -> (context: SenderProbeContext)
        ensures
            context@ == 0,
    {
        SenderProbeContext { media_accepted_payload_bytes: 0 }
    }
}

impl SenderProbeContext {
    /// The bytes counted so far.
    pub closed spec fn view(&self) -> u64 {
        self.media_accepted_payload_bytes
    }

    /// Counts a media payload. The count wraps around at the limit of its type.
    pub fn record_media_payload(&mut self, bytes: usize)
        ensures
            final(self)@ == clock::low_u64(old(self)@ + bytes),
    {
        self.media_accepted_payload_bytes =
        self.media_accepted_payload_bytes.wrapping_add(bytes as u64);
    }

    /// The bytes counted so far.
    pub fn media_accepted_payload_bytes(&self) -> (bytes: u64)
        ensures
            bytes == self@,
    {
        self.media_accepted_payload_bytes
    }
}

/// What became of a stage's padding.
#[derive(Debug, Clone, Copy, PartialEq, Eq, Structural)]
pub struct SenderStageStats {
    pub attempted_padding_bytes: u64,
    pub accepted_padding_bytes: u64,
    pub padding_pending_seen: bool,
}

impl SenderStageStats {
    /// No padding written yet.
    pub open spec fn zero() -> SenderStageStats {
        SenderStageStats {
            attempted_padding_bytes: 0,
            accepted_padding_bytes: 0,
            padding_pending_seen: false,
        }
    }

    /// The report of a stage that lasted `elapsed_ms` milliseconds.
    pub open spec fn end(
        self,
        request: ProbeRequest,
        status: ProbeEndStatus,
        media_accepted_payload_bytes: u64,
        elapsed_ms: u64,
    ) -> ProbeEnd {
        ProbeEnd {
            request_id: request.request_id,
            stage_index: request.stage_index,
            status,
            attempted_padding_bytes: self.attempted_padding_bytes,
            accepted_padding_bytes: self.accepted_padding_bytes,
            media_accepted_payload_bytes,
            padding_pending_seen: self.padding_pending_seen,
            stage_active_duration_ms: elapsed_ms,
        }
    }
}

impl Default for SenderStageStats {
    fn default() -> (stats: SenderStageStats)
        ensures
            stats == SenderStageStats::zero(),
    {
        SenderStageStats {
            attempted_padding_bytes: 0,
            accepted_padding_bytes: 0,
            padding_pending_seen: false,
        }
    }
}

/// The report of a stage that lasted `elapsed`.
pub fn sender_end(
    request: &ProbeRequest,
    status: ProbeEndStatus,
    stats: &SenderStageStats,
    media_accepted_payload_bytes: u64,
    elapsed: Duration,
) -> (end: ProbeEnd)
    ensures
        end == stats.end(
            *request,
            status,
            media_accepted_payload_bytes,
            clock::millis_of_nanos(clock::duration_nanos(elapsed) as int),
        ),
{
    sender_end_in_millis(
        request,
        status,
        stats,
        media_accepted_payload_bytes,
        duration_millis(elapsed),
    )
}

/// The report of a stage that lasted `elapsed_ms` milliseconds.
pub fn sender_end_in_millis(
    request: &ProbeRequest,
    status: ProbeEndStatus,
    stats: &SenderStageStats,
    media_accepted_payload_bytes: u64,
    elapsed_ms: u64,
) -> (end: ProbeEnd)
    ensures
        end == stats.end(*request, status, media_accepted_payload_bytes, elapsed_ms),
{
    ProbeEnd {
        request_id: request.request_id,
        stage_index: request.stage_index,
        status,
        attempted_padding_bytes: stats.attempted_padding_bytes,
        accepted_padding_bytes: stats.accepted_padding_bytes,
        media_accepted_payload_bytes,
        padding_pending_seen: stats.padding_pending_seen,
        stage_active_duration_ms: elapsed_ms,
    }
}

/// What a single poll of a write gave.
#[derive(Debug, Clone, Copy, PartialEq, Eq, Structural)]
pub enum WritePoll {
    /// So many bytes were accepted.
    Ready(usize),
    /// The write would have to wait.
    Pending,
}

/// Why a padding stream is being closed.
#[derive(Debug, Clone, Copy, PartialEq, Eq, Structural)]
pub enum Closing {
    /// START was not answered with the acknowledgement that belongs to it.
    WrongAck,
    /// A write would have had to wait.
    Backpressure,
    /// A message came where none belongs.
    Interrupted,
    /// Reading the control stream failed during the stage.
    ControlLost,
    /// The active duration is over.
    Completed,
}

impl Closing {
    /// The status that the report of the stage gives. Where the control stream is
    /// lost there is no report.
    pub open spec fn status(self) -> ProbeEndStatus {
        match self {
            Closing::WrongAck => ProbeEndStatus::ProtocolError,
            Closing::Backpressure => ProbeEndStatus::AbortedBackpressure,
            Closing::Interrupted => ProbeEndStatus::ProtocolError,
            Closing::ControlLost => ProbeEndStatus::ProtocolError,
            Closing::Completed => ProbeEndStatus::Completed,
        }
    }
}

/// How far the sender of a stage is.
#[derive(Debug, Clone, Copy, PartialEq, Eq, Structural)]
pub enum SenderPhase {
    /// The padding stream is to be opened.
    Opening,
    /// START is to be sent.
    Starting,
    /// START_ACK is to come.
    AwaitingAck,
    /// The stage's clock and media count are to be started.
    Baselining,
    /// The first byte of padding is to be written.
    Triggering,
    /// Whether the active duration is over is to be seen.
    Checking,
    /// How long to wait is to be seen.
    Sizing,
    /// So many nanoseconds are to pass, if no control message comes first.
    Waiting { nanos: u64 },
    /// How much padding is due is to be seen.
    Measuring,
    /// So much padding is due.
    Writing { due: u64 },
    /// The padding stream is to be closed.
    Closing(Closing),
    /// The stage is over, with a report.
    Done(ProbeEnd),
    /// A write accepted nothing.
    ZeroWrite,
    /// The control stream is lost.
    ControlLost,
}

/// What the sender of a stage has to have done.
#[derive(Debug, Clone, Copy, PartialEq, Eq)]
pub enum SenderAction {
    /// Open a unidirectional stream of this priority and write its type to it.
    OpenPadding { priority: i32, stream_type: u64 },
    /// Send START.
    SendStart(ProbeStart),
    /// Read a control message.
    ReadControl,
    /// Start the stage's clock and read the media count.
    TakeBaseline,
    /// Poll a write of so many bytes of padding once.
    PollPadding { length: usize },
    /// Read the stage's clock.
    ReadClock,
    /// Wait so many nanoseconds, or until a control message or an error comes.
    Wait { nanos: u64 },
    /// Read the stage's clock, then the media count.
    Measure,
    /// Finish the padding stream, then read the media count and the clock.
    FinishPadding,
    /// Reset the padding stream, then read the media count and the clock.
    ResetPadding { code: u32 },
    /// The stage is over: report this.
    Complete(ProbeEnd),
    /// The stage failed with this error.
    Fail(ProbeError),
    /// The stage failed with the error of the control stream.
    FailControl,
}

/// What happened on the sender's side of a stage.
#[derive(Debug, Clone, Copy, PartialEq, Eq, Structural)]
pub enum SenderEvent {
    /// The padding stream is open and its type is written.
    PaddingOpened,
    /// START is sent.
    StartSent,
    /// A control message came.
    Message(ProbeMessage),
    /// Reading the control stream failed.
    ControlFailed,
    /// The stage's clock runs, with the media count at `media_total`.
    Baseline { media_total: u64 },
    /// A write was polled.
    Polled(WritePoll),
    /// What the stage's clock reads.
    Clock { elapsed_nanos: u128 },
    /// The time to wait is over.
    WaitOver,
    /// What the stage's clock and the media count read.
    Measured { elapsed_nanos: u128, media_total: u64 },
    /// The padding stream is closed; what the clock and the media count read then.
    PaddingClosed { elapsed_nanos: u128, media_total: u64 },
}

/// The sender of a stage.
#[derive(Debug, Clone, Copy, PartialEq, Eq, Structural)]
pub struct SenderStage {
    pub request: ProbeRequest,
    pub phase: SenderPhase,
    pub stats: SenderStageStats,
    pub media_started: u64,
}

impl SenderStage {
    /// A stage of which nothing is done yet.
    pub open spec fn fresh(request: ProbeRequest) -> SenderStage {
        SenderStage {
            request,
            phase: SenderPhase::Opening,
            stats: SenderStageStats::zero(),
            media_started: 0,
        }
    }

    /// The active duration of the stage in nanoseconds.
    pub open spec fn duration_nanos(self) -> int {
        self.request.active_duration_ms * 1_000_000
    }

    /// The part of a clock reading that lies within the active duration.
    pub open spec fn active_nanos(self, elapsed_nanos: int) -> int {
        if elapsed_nanos < self.duration_nanos() {
            elapsed_nanos
        } else {
            self.duration_nanos()
        }
    }

    /// Media accepted since the stage started.
    pub open spec fn media_since(self, media_total: u64) -> u64 {
        rate::at_least_zero(media_total - self.media_started) as u64
    }

    /// The padding due at a measurement.
    pub open spec fn due_at(self, elapsed_nanos: int, media_total: u64) -> u64 {
        rate::padding_due(
            self.request.stage_target_bps,
            self.active_nanos(elapsed_nanos),
            self.media_since(media_total),
            self.stats.accepted_padding_bytes,
        )
    }

    /// How long to wait when the stage's clock reads `elapsed_nanos`: one tick, or
    /// what is left of the stage.
    pub open spec fn wait_nanos_at(self, elapsed_nanos: int) -> u64 {
        let remaining = rate::at_least_zero(self.duration_nanos() - elapsed_nanos);
        if remaining < PADDING_PACING_TICK_MS * 1_000_000 {
            remaining as u64
        } else {
            (PADDING_PACING_TICK_MS * 1_000_000) as u64
        }
    }

    /// Whether a message is the acknowledgement of this stage's START.
    pub open spec fn is_ack(self, message: ProbeMessage) -> bool {
        message == ProbeMessage::StartAck(
            ProbeStartAck {
                request_id: self.request.request_id,
                stage_index: self.request.stage_index,
            },
        )
    }

    /// What the next write offers.
    pub open spec fn offer(self) -> u64 {
        match self.phase {
            SenderPhase::Triggering => 1,
            SenderPhase::Writing { due } => if due < PADDING_CHUNK_BYTES {
                due
            } else {
                PADDING_CHUNK_BYTES
            },
            _ => 0,
        }
    }

    /// What has to be done next.
    pub open spec fn next_action(self) -> SenderAction {
        match self.phase {
            SenderPhase::Opening => SenderAction::OpenPadding {
                priority: PADDING_PRIORITY,
                stream_type: PROBE_PADDING_STREAM_TYPE,
            },
            SenderPhase::Starting => SenderAction::SendStart(
                ProbeStart {
                    request_id: self.request.request_id,
                    stage_index: self.request.stage_index,
                    stage_target_bps: self.request.stage_target_bps,
                },
            ),
            SenderPhase::AwaitingAck => SenderAction::ReadControl,
            SenderPhase::Baselining => SenderAction::TakeBaseline,
            SenderPhase::Triggering => SenderAction::PollPadding { length: self.offer() as usize },
            SenderPhase::Checking => SenderAction::ReadClock,
            SenderPhase::Sizing => SenderAction::ReadClock,
            SenderPhase::Waiting { nanos } => SenderAction::Wait { nanos },
            SenderPhase::Measuring => SenderAction::Measure,
            SenderPhase::Writing { .. } => SenderAction::PollPadding {
                length: self.offer() as usize,
            },
            SenderPhase::Closing(Closing::Backpressure) => SenderAction::ResetPadding {
                code: PROBE_PADDING_ABORTED_BACKPRESSURE,
            },
            SenderPhase::Closing(_) => SenderAction::FinishPadding,
            SenderPhase::Done(end) => SenderAction::Complete(end),
            SenderPhase::ZeroWrite => SenderAction::Fail(ProbeError::ZeroWrite),
            SenderPhase::ControlLost => SenderAction::FailControl,
        }
    }

    /// Whether an event can answer what has to be done next.
    pub open spec fn may_take(self, event: SenderEvent) -> bool {
        match self.phase {
            SenderPhase::Opening => event is PaddingOpened,
            SenderPhase::Starting => event is StartSent,
            SenderPhase::AwaitingAck => event is Message,
            SenderPhase::Baselining => event is Baseline,
            SenderPhase::Triggering => event is Polled,
            SenderPhase::Checking => event is Clock,
            SenderPhase::Sizing => event is Clock,
            SenderPhase::Waiting { .. } => event is WaitOver || event is Message
                || event is ControlFailed,
            SenderPhase::Measuring => event is Measured,
            SenderPhase::Writing { .. } => event is Polled,
            SenderPhase::Closing(_) => event is PaddingClosed,
            SenderPhase::Done(_) => false,
            SenderPhase::ZeroWrite => false,
            SenderPhase::ControlLost => false,
        }
    }

    /// The stage in another phase.
    pub open spec fn to(self, phase: SenderPhase) -> SenderStage {
        SenderStage { phase, ..self }
    }

    /// The phase in which so much padding is due.
    pub open spec fn writing(due: u64) -> SenderPhase {
        if due == 0 {
            SenderPhase::Checking
        } else {
            SenderPhase::Writing { due }
        }
    }

    /// The stage once a write of [`SenderStage::offer`] bytes was polled. The
    /// trigger leaves nothing due.
    pub open spec fn polled(self, poll: WritePoll) -> SenderStage {
        let attempted = rate::capped(self.stats.attempted_padding_bytes + self.offer());
        match poll {
            WritePoll::Pending => SenderStage {
                phase: SenderPhase::Closing(Closing::Backpressure),
                stats: SenderStageStats {
                    attempted_padding_bytes: attempted,
                    padding_pending_seen: true,
                    ..self.stats
                },
                ..self
            },
            WritePoll::Ready(written) => SenderStage {
                phase: if written == 0 {
                    SenderPhase::ZeroWrite
                } else {
                    match self.phase {
                        SenderPhase::Writing { due } => SenderStage::writing(
                            rate::at_least_zero(due - written) as u64,
                        ),
                        _ => SenderPhase::Checking,
                    }
                },
                stats: SenderStageStats {
                    attempted_padding_bytes: attempted,
                    accepted_padding_bytes: rate::capped(
                        self.stats.accepted_padding_bytes + written,
                    ),
                    ..self.stats
                },
                ..self
            },
        }
    }

    /// The phase after the padding stream has been closed.
    pub open spec fn closed(
        self,
        closing: Closing,
        elapsed_nanos: int,
        media_total: u64,
    ) -> SenderPhase {
        match closing {
            Closing::ControlLost => SenderPhase::ControlLost,
            Closing::WrongAck => SenderPhase::Done(
                self.stats.end(self.request, closing.status(), 0, 0),
            ),
            _ => SenderPhase::Done(
                self.stats.end(
                    self.request,
                    closing.status(),
                    self.media_since(media_total),
                    clock::millis_of_nanos(elapsed_nanos),
                ),
            ),
        }
    }

    /// The stage after an event.
    pub open spec fn next(self, event: SenderEvent) -> SenderStage {
        match (self.phase, event) {
            (SenderPhase::Opening, _) => self.to(SenderPhase::Starting),
            (SenderPhase::Starting, _) => self.to(SenderPhase::AwaitingAck),
            (SenderPhase::AwaitingAck, SenderEvent::Message(message)) => if self.is_ack(message) {
                self.to(SenderPhase::Baselining)
            } else {
                self.to(SenderPhase::Closing(Closing::WrongAck))
            },
            (SenderPhase::Baselining, SenderEvent::Baseline { media_total }) => SenderStage {
                media_started: media_total,
                ..self.to(SenderPhase::Triggering)
            },
            (SenderPhase::Checking, SenderEvent::Clock { elapsed_nanos }) => if elapsed_nanos
                < self.duration_nanos() {
                self.to(SenderPhase::Sizing)
            } else {
                self.to(SenderPhase::Closing(Closing::Completed))
            },
            (SenderPhase::Sizing, SenderEvent::Clock { elapsed_nanos }) => self.to(
                SenderPhase::Waiting { nanos: self.wait_nanos_at(elapsed_nanos as int) },
            ),
            (SenderPhase::Waiting { .. }, SenderEvent::Message(_)) => self.to(
                SenderPhase::Closing(Closing::Interrupted),
            ),
            (SenderPhase::Waiting { .. }, SenderEvent::ControlFailed) => self.to(
                SenderPhase::Closing(Closing::ControlLost),
            ),
            (SenderPhase::Waiting { .. }, _) => self.to(SenderPhase::Measuring),
            (SenderPhase::Measuring, SenderEvent::Measured { elapsed_nanos, media_total }) =>
                self.to(SenderStage::writing(self.due_at(elapsed_nanos as int, media_total))),
            (_, SenderEvent::Polled(poll)) => self.polled(poll),
            (
                SenderPhase::Closing(closing),
                SenderEvent::PaddingClosed { elapsed_nanos, media_total },
            ) => self.to(self.closed(closing, elapsed_nanos as int, media_total)),
            _ => self,
        }
    }

    /// What holds of the numbers in every phase: a wait is no longer than a tick, a
    /// write offers something, and a report is about the requested stage.
    pub open spec fn wf(self) -> bool {
        match self.phase {
            SenderPhase::Waiting { nanos } => nanos <= PADDING_PACING_TICK_MS * 1_000_000
                && nanos <= self.duration_nanos(),
            SenderPhase::Writing { due } => due > 0,
            SenderPhase::Done(end) => {
                &&& end.request_id == self.request.request_id
                &&& end.stage_index == self.request.stage_index
                &&& end.attempted_padding_bytes == self.stats.attempted_padding_bytes
                &&& end.accepted_padding_bytes == self.stats.accepted_padding_bytes
                &&& end.padding_pending_seen == self.stats.padding_pending_seen
            },
            _ => true,
        }
    }

    /// The sender of a stage that was asked for.
    pub fn begin(request: ProbeRequest) -> (stage: SenderStage)
        ensures
            stage == SenderStage::fresh(request),
            stage.wf(),
    {
        SenderStage {
            request,
            phase: SenderPhase::Opening,
            stats: SenderStageStats::default(),
            media_started: 0,
        }
    }

    fn chunk(due: u64) -> (length: usize)
        ensures
            length == if due < PADDING_CHUNK_BYTES {
                due
            } else {
                PADDING_CHUNK_BYTES
            },
    {
        if due < PADDING_CHUNK_BYTES {
            due as usize
        } else {
            PADDING_CHUNK_BYTES as usize
        }
    }

    /// What has to be done next.
    pub fn action(&self) -> (action: SenderAction)
        ensures
            action == self.next_action(),
    {
        match self.phase {
            SenderPhase::Opening => SenderAction::OpenPadding {
                priority: PADDING_PRIORITY,
                stream_type: PROBE_PADDING_STREAM_TYPE,
            },
            SenderPhase::Starting => SenderAction::SendStart(
                ProbeStart {
                    request_id: self.request.request_id,
                    stage_index: self.request.stage_index,
                    stage_target_bps: self.request.stage_target_bps,
                },
            ),
            SenderPhase::AwaitingAck => SenderAction::ReadControl,
            SenderPhase::Baselining => SenderAction::TakeBaseline,
            SenderPhase::Triggering => SenderAction::PollPadding { length: 1 },
            SenderPhase::Checking => SenderAction::ReadClock,
            SenderPhase::Sizing => SenderAction::ReadClock,
            SenderPhase::Waiting { nanos } => SenderAction::Wait { nanos },
            SenderPhase::Measuring => SenderAction::Measure,
            SenderPhase::Writing { due } => SenderAction::PollPadding {
                length: SenderStage::chunk(due),
            },
            SenderPhase::Closing(Closing::Backpressure) => SenderAction::ResetPadding {
                code: PROBE_PADDING_ABORTED_BACKPRESSURE,
            },
            SenderPhase::Closing(_) => SenderAction::FinishPadding,
            SenderPhase::Done(end) => SenderAction::Complete(end),
            SenderPhase::ZeroWrite => SenderAction::Fail(ProbeError::ZeroWrite),
            SenderPhase::ControlLost => SenderAction::FailControl,
        }
    }

    /// Whether an event can answer what has to be done next.
    pub fn accepts(&self, event: &SenderEvent) -> (accepted: bool)
        ensures
            accepted == self.may_take(*event),
    {
        match (self.phase, event) {
            (SenderPhase::Opening, SenderEvent::PaddingOpened) => true,
            (SenderPhase::Starting, SenderEvent::StartSent) => true,
            (SenderPhase::AwaitingAck, SenderEvent::Message(_)) => true,
            (SenderPhase::Baselining, SenderEvent::Baseline { .. }) => true,
            (SenderPhase::Triggering, SenderEvent::Polled(_)) => true,
            (SenderPhase::Checking, SenderEvent::Clock { .. }) => true,
            (SenderPhase::Sizing, SenderEvent::Clock { .. }) => true,
            (SenderPhase::Waiting { .. }, SenderEvent::WaitOver) => true,
            (SenderPhase::Waiting { .. }, SenderEvent::Message(_)) => true,
            (SenderPhase::Waiting { .. }, SenderEvent::ControlFailed) => true,
            (SenderPhase::Measuring, SenderEvent::Measured { .. }) => true,
            (SenderPhase::Writing { .. }, SenderEvent::Polled(_)) => true,
            (SenderPhase::Closing(_), SenderEvent::PaddingClosed { .. }) => true,
            _ => false,
        }
    }

    fn is_own_ack(&self, message: &ProbeMessage) -> (own: bool)
        ensures
            own == self.is_ack(*message),
    {
        match message {
            ProbeMessage::StartAck(ack) => ack.request_id == self.request.request_id
                && ack.stage_index == self.request.stage_index,
            _ => false,
        }
    }

    fn duration(&self) -> (nanos: u128)
        ensures
            nanos == self.duration_nanos(),
    {
        self.request.active_duration_ms as u128 * 1_000_000
    }

    fn wait_at(&self, elapsed_nanos: u128) -> (nanos: u64)
        ensures
            nanos == self.wait_nanos_at(elapsed_nanos as int),
    {
        let tick: u64 = PADDING_PACING_TICK_MS * 1_000_000;
        let remaining: u128 = self.duration().saturating_sub(elapsed_nanos);
        if remaining < tick as u128 {
            remaining as u64
        } else {
            tick
        }
    }

    fn measure(&self, elapsed_nanos: u128, media_total: u64) -> (due: u64)
        ensures
            due == self.due_at(elapsed_nanos as int, media_total),
    {
        let duration: u128 = self.duration();
        let active: u128 = if elapsed_nanos < duration {
            elapsed_nanos
        } else {
            duration
        };
        padding_due_in_nanos(
            self.request.stage_target_bps,
            active,
            media_total.saturating_sub(self.media_started),
            self.stats.accepted_padding_bytes,
        )
    }

    fn set_due(&mut self, due: u64)
        ensures
            *final(self) == old(self).to(SenderStage::writing(due)),
    {
        if due == 0 {
            self.phase = SenderPhase::Checking;
        } else {
            self.phase = SenderPhase::Writing { due };
        }
    }

    fn take_poll(&mut self, offered: u64, due: u64, poll: WritePoll)
        requires
            offered == old(self).offer(),
            old(self).phase == SenderPhase::Triggering && due == 1 || old(self).phase
                == (SenderPhase::Writing { due }),
        ensures
            *final(self) == old(self).polled(poll),
    {
        self.stats.attempted_padding_bytes =
        self.stats.attempted_padding_bytes.saturating_add(offered);
        match poll {
            WritePoll::Ready(written) => {
                self.stats.accepted_padding_bytes =
                self.stats.accepted_padding_bytes.saturating_add(written as u64);
                if written == 0 {
                    self.phase = SenderPhase::ZeroWrite;
                } else {
                    self.set_due(due.saturating_sub(written as u64));
                }
            },
            WritePoll::Pending => {
                self.stats.padding_pending_seen = true;
                self.phase = SenderPhase::Closing(Closing::Backpressure);
            },
        }
    }

    fn close(&mut self, closing: Closing, elapsed_nanos: u128, media_total: u64)
        ensures
            *final(self) == old(self).to(
                old(self).closed(closing, elapsed_nanos as int, media_total),
            ),
    {
        let status: ProbeEndStatus = match closing {
            Closing::ControlLost => {
                self.phase = SenderPhase::ControlLost;
                return ;
            },
            Closing::WrongAck => {
                self.phase =
                SenderPhase::Done(
                    sender_end_in_millis(
                        &self.request,
                        ProbeEndStatus::ProtocolError,
                        &self.stats,
                        0,
                        0,
                    ),
                );
                return ;
            },
            Closing::Backpressure => ProbeEndStatus::AbortedBackpressure,
            Closing::Interrupted => ProbeEndStatus::ProtocolError,
            Closing::Completed => ProbeEndStatus::Completed,
        };
        self.phase =
        SenderPhase::Done(
            sender_end_in_millis(
                &self.request,
                status,
                &self.stats,
                media_total.saturating_sub(self.media_started),
                truncate_u64(elapsed_nanos / 1_000_000),
            ),
        );
    }

    /// Takes an event that answers the last action.
    pub fn step(&mut self, event: SenderEvent)
        requires
            old(self).may_take(event),
        ensures
            *final(self) == old(self).next(event),
            old(self).wf() ==> final(self).wf(),
    {
        match (self.phase, event) {
            (SenderPhase::Opening, _) => {
                self.phase = SenderPhase::Starting;
            },
            (SenderPhase::Starting, _) => {
                self.phase = SenderPhase::AwaitingAck;
            },
            (SenderPhase::AwaitingAck, SenderEvent::Message(message)) => {
                if self.is_own_ack(&message) {
                    self.phase = SenderPhase::Baselining;
                } else {
                    self.phase = SenderPhase::Closing(Closing::WrongAck);
                }
            },
            (SenderPhase::Baselining, SenderEvent::Baseline { media_total }) => {
                self.media_started = media_total;
                self.phase = SenderPhase::Triggering;
            },
            (SenderPhase::Triggering, SenderEvent::Polled(poll)) => {
                self.take_poll(1, 1, poll);
            },
            (SenderPhase::Checking, SenderEvent::Clock { elapsed_nanos }) => {
                if elapsed_nanos < self.duration() {
                    self.phase = SenderPhase::Sizing;
                } else {
                    self.phase = SenderPhase::Closing(Closing::Completed);
                }
            },
            (SenderPhase::Sizing, SenderEvent::Clock { elapsed_nanos }) => {
                self.phase = SenderPhase::Waiting { nanos: self.wait_at(elapsed_nanos) };
            },
            (SenderPhase::Waiting { .. }, SenderEvent::Message(_)) => {
                self.phase = SenderPhase::Closing(Closing::Interrupted);
            },
            (SenderPhase::Waiting { .. }, SenderEvent::ControlFailed) => {
                self.phase = SenderPhase::Closing(Closing::ControlLost);
            },
            (SenderPhase::Waiting { .. }, _) => {
                self.phase = SenderPhase::Measuring;
            },
            (SenderPhase::Measuring, SenderEvent::Measured { elapsed_nanos, media_total }) => {
                let due: u64 = self.measure(elapsed_nanos, media_total);
                self.set_due(due);
            },
            (SenderPhase::Writing { due }, SenderEvent::Polled(poll)) => {
                self.take_poll(SenderStage::chunk(due) as u64, due, poll);
            },
            (
                SenderPhase::Closing(closing),
                SenderEvent::PaddingClosed { elapsed_nanos, media_total },
            ) => {
                self.close(closing, elapsed_nanos, media_total);
            },
            _ => {},
        }
    }
}

/// The stage after events in their order.
pub open spec fn after_events(stage: SenderStage, events: Seq<SenderEvent>) -> SenderStage
    decreases events.len(),
{
    if events.len() == 0 {
        stage
    } else {
        after_events(stage, events.drop_last()).next(events.last())
    }
}

/// Whether each event answers what had to be done when it came.
pub open spec fn takes(stage: SenderStage, events: Seq<SenderEvent>) -> bool
    decreases events.len(),
{
    events.len() > 0 ==> takes(stage, events.drop_last()) && after_events(
        stage,
        events.drop_last(),
    ).may_take(events.last())
}

/// The padding bytes that the writes among events offered.
pub open spec fn offered_total(stage: SenderStage, events: Seq<SenderEvent>) -> int
    decreases events.len(),
{
    if events.len() == 0 {
        0
    } else {
        offered_total(stage, events.drop_last()) + if events.last() is Polled {
            after_events(stage, events.drop_last()).offer() as int
        } else {
            0
        }
    }
}

/// The padding bytes that the writes among events accepted.
pub open spec fn accepted_total(events: Seq<SenderEvent>) -> int
    decreases events.len(),
{
    if events.len() == 0 {
        0
    } else {
        accepted_total(events.drop_last()) + match events.last() {
            SenderEvent::Polled(WritePoll::Ready(written)) => written as int,
            _ => 0,
        }
    }
}

/// Whether no write among events accepted more than it was offered.
pub open spec fn no_write_exceeds(stage: SenderStage, events: Seq<SenderEvent>) -> bool
    decreases events.len(),
{
    events.len() > 0 ==> {
        &&& no_write_exceeds(stage, events.drop_last())
        &&& events.last() matches SenderEvent::Polled(WritePoll::Ready(written)) ==> written
            <= after_events(stage, events.drop_last()).offer()
    }
}

/// The last measurement among events: the clock and the media count.
pub open spec fn last_measured(events: Seq<SenderEvent>) -> Option<(u128, u64)>
    decreases events.len(),
{
    if events.len() == 0 {
        None
    } else {
        match events.last() {
            SenderEvent::Measured { elapsed_nanos, media_total } => Some(
                (elapsed_nanos, media_total),
            ),
            _ => last_measured(events.drop_last()),
        }
    }
}

proof fn prefix_takes(stage: SenderStage, events: Seq<SenderEvent>, length: int)
    requires
        takes(stage, events),
        0 <= length <= events.len(),
    ensures
        takes(stage, events.take(length)),
        length < events.len() ==> after_events(stage, events.take(length)).may_take(events[length])
            && after_events(stage, events.take(length + 1)) == after_events(
            stage,
            events.take(length),
        ).next(events[length]),
    decreases events.len(),
{
    if length == events.len() {
        assert(events.take(length) =~= events);
    } else {
        let shorter = events.drop_last();
        prefix_takes(stage, shorter, length);
        assert(shorter.take(length) =~= events.take(length));
        assert(events.take(length + 1).drop_last() =~= events.take(length));
        if length + 1 < events.len() {
            assert(shorter.take(length + 1) =~= events.take(length + 1));
        } else {
            assert(events.take(length + 1) =~= events);
            assert(shorter =~= events.take(length));
        }
    }
}

/// Whether the third event is the acknowledgement of the stage's START.
pub open spec fn acknowledged(request: ProbeRequest, events: Seq<SenderEvent>) -> bool {
    &&& events.len() >= 3
    &&& events[0] is PaddingOpened
    &&& events[1] is StartSent
    &&& events[2] matches SenderEvent::Message(message)
    &&& SenderStage::fresh(request).is_ack(message)
}

proof fn handshake(request: ProbeRequest, events: Seq<SenderEvent>)
    requires
        takes(SenderStage::fresh(request), events),
    ensures
        ({
            let stage = after_events(SenderStage::fresh(request), events);
            &&& stage.request == request
            &&& stage.wf()
            &&& match stage.phase {
                SenderPhase::Opening => events.len() == 0,
                SenderPhase::Starting => events.len() == 1 && events[0] is PaddingOpened,
                SenderPhase::AwaitingAck => events.len() == 2 && events[0] is PaddingOpened
                    && events[1] is StartSent,
                SenderPhase::Baselining => events.len() == 3 && acknowledged(request, events),
                SenderPhase::Closing(Closing::WrongAck) => events.len() == 3 && !acknowledged(
                    request,
                    events,
                ),
                SenderPhase::Done(end) => acknowledged(request, events) || {
                    &&& events.len() == 4
                    &&& end == SenderStageStats::zero().end(
                        request,
                        ProbeEndStatus::ProtocolError,
                        0,
                        0,
                    )
                },
                _ => events.len() >= 4 && acknowledged(request, events),
            }
            &&& events.len() <= 4 ==> stage.stats == SenderStageStats::zero()
        }),
    decreases events.len(),
{
    if events.len() > 0 {
        handshake(request, events.drop_last());
    }
}

/// Padding is written only after the acknowledgement of START has come.
pub proof fn no_padding_before_ack(request: ProbeRequest, events: Seq<SenderEvent>, index: int)
    requires
        takes(SenderStage::fresh(request), events),
        0 <= index < events.len(),
        events[index] is Polled,
    ensures
        index >= 4,
        acknowledged(request, events),
{
    let stage = SenderStage::fresh(request);
    prefix_takes(stage, events, index);
    handshake(request, events.take(index));
    let before = events.take(index);
    assert(before[0] == events[0] && before[1] == events[1] && before[2] == events[2]);
}

/// A message other than the acknowledgement ends the stage as a protocol error with
/// nothing counted, and no padding was written.
pub proof fn wrong_ack_is_a_protocol_error(request: ProbeRequest, events: Seq<SenderEvent>)
    requires
        takes(SenderStage::fresh(request), events),
        events.len() == 4,
        !acknowledged(request, events),
    ensures
        after_events(SenderStage::fresh(request), events.take(3)).next_action()
            == SenderAction::FinishPadding,
        after_events(SenderStage::fresh(request), events).next_action() == SenderAction::Complete(
            SenderStageStats::zero().end(request, ProbeEndStatus::ProtocolError, 0, 0),
        ),
{
    let stage = SenderStage::fresh(request);
    prefix_takes(stage, events, 3);
    assert(events.take(4) =~= events);
    handshake(request, events);
    handshake(request, events.take(3));
}

/// A write that would have to wait is the last one: the padding stream is reset
/// with its code, and the report says that the stage was aborted.
pub proof fn pending_write_aborts(request: ProbeRequest, events: Seq<SenderEvent>, index: int)
    requires
        takes(SenderStage::fresh(request), events),
        0 <= index < events.len(),
        events[index] == SenderEvent::Polled(WritePoll::Pending),
    ensures
        ({
            let fresh = SenderStage::fresh(request);
            let aborted = after_events(fresh, events.take(index + 1));
            &&& aborted.next_action() == SenderAction::ResetPadding {
                code: PROBE_PADDING_ABORTED_BACKPRESSURE,
            }
            &&& events.len() <= index + 2
            &&& events.len() == index + 2 ==> {
                &&& after_events(fresh, events).next_action() matches SenderAction::Complete(end)
                &&& end.status == ProbeEndStatus::AbortedBackpressure
                &&& end.padding_pending_seen
                &&& end.attempted_padding_bytes == aborted.stats.attempted_padding_bytes
                &&& end.accepted_padding_bytes == aborted.stats.accepted_padding_bytes
            }
        }),
{
    let fresh = SenderStage::fresh(request);
    prefix_takes(fresh, events, index);
    if events.len() >= index + 2 {
        prefix_takes(fresh, events, index + 1);
        prefix_takes(fresh, events, index + 2);
        assert(events.len() == index + 2 ==> events.take(index + 2) =~= events);
    }
}

/// A report says what ended the stage, and a stage ends for no other reason: it
/// completed where its clock had read the whole active duration, was aborted where
/// a write had to wait, and met a protocol error where a message came that does not
/// belong there. The padding stream is reset just where a write had to wait.
pub proof fn report_tells_what_ended_the_stage(request: ProbeRequest, events: Seq<SenderEvent>)
    requires
        takes(SenderStage::fresh(request), events),
    ensures
        ({
            let action = after_events(SenderStage::fresh(request), events).next_action();
            let last = events.len() - 1;
            &&& action is ResetPadding <==> events.len() > 0 && events[last]
                == SenderEvent::Polled(WritePoll::Pending)
            &&& action is Fail <==> events.len() > 0 && events[last] == SenderEvent::Polled(
                WritePoll::Ready(0),
            )
            &&& action is FailControl ==> {
                &&& events.len() >= 2
                &&& events[last - 1] is ControlFailed
            }
            &&& action matches SenderAction::Complete(end) ==> {
                &&& events.len() >= 2
                &&& events[last] is PaddingClosed
                &&& match end.status {
                    ProbeEndStatus::Completed => {
                        &&& events[last - 1] matches SenderEvent::Clock { elapsed_nanos }
                        &&& elapsed_nanos >= request.active_duration_ms * 1_000_000
                    },
                    ProbeEndStatus::AbortedBackpressure => events[last - 1]
                        == SenderEvent::Polled(WritePoll::Pending),
                    ProbeEndStatus::ProtocolError => events[last - 1] is Message,
                }
            }
        }),
{
    let fresh = SenderStage::fresh(request);
    handshake(request, events);
    if events.len() >= 1 {
        let last = events.len() - 1;
        prefix_takes(fresh, events, last);
        handshake(request, events.take(last));
        assert(events.take(last + 1) =~= events);
        assert(events.drop_last() =~= events.take(last));
        if events.len() >= 2 {
            prefix_takes(fresh, events, last - 1);
            handshake(request, events.take(last - 1));
        }
    }
}

/// A stage completes only once its clock has read the whole active duration, and
/// only if no write had to wait. Where the clock does not go back until the padding
/// stream is closed, and its milliseconds fit their type, the report says no less.
pub proof fn completed_stage_lasted(request: ProbeRequest, events: Seq<SenderEvent>)
    requires
        takes(SenderStage::fresh(request), events),
    ensures
        after_events(SenderStage::fresh(request), events).next_action() matches
            SenderAction::Complete(end) ==> end.status == ProbeEndStatus::Completed ==> {
            &&& events.len() >= 2
            &&& events[events.len() - 2] matches SenderEvent::Clock { elapsed_nanos }
            &&& elapsed_nanos >= request.active_duration_ms * 1_000_000
            &&& !end.padding_pending_seen
            &&& events.last() matches SenderEvent::PaddingClosed { elapsed_nanos: closed_nanos, .. }
            &&& closed_nanos / 1_000_000 <= u64::MAX ==> end.stage_active_duration_ms
                == closed_nanos / 1_000_000
            &&& elapsed_nanos <= closed_nanos && closed_nanos / 1_000_000 <= u64::MAX
                ==> end.stage_active_duration_ms >= request.active_duration_ms
        },
{
    let fresh = SenderStage::fresh(request);
    handshake(request, events);
    padding_is_accounted(request, events);
    if events.len() >= 1 {
        prefix_takes(fresh, events, events.len() - 1);
        assert(events.drop_last() =~= events.take(events.len() - 1));
    }
    if events.len() >= 2 {
        prefix_takes(fresh, events, events.len() - 2);
        handshake(request, events.take(events.len() - 2));
        padding_is_accounted(request, events.take(events.len() - 2));
    }
}

proof fn baseline_is_kept(request: ProbeRequest, events: Seq<SenderEvent>)
    requires
        takes(SenderStage::fresh(request), events),
        acknowledged(request, events),
        events.len() >= 4,
    ensures
        events[3] == (SenderEvent::Baseline {
            media_total: after_events(SenderStage::fresh(request), events).media_started,
        }),
    decreases events.len(),
{
    let shorter = events.drop_last();
    handshake(request, events);
    handshake(request, shorter);
    assert(acknowledged(request, shorter));
    if events.len() > 4 {
        baseline_is_kept(request, shorter);
    }
}

/// The media that an acknowledged stage reports is what was accepted from its
/// acknowledgement until its padding stream was closed.
pub proof fn media_is_counted_from_the_acknowledgement(
    request: ProbeRequest,
    events: Seq<SenderEvent>,
)
    requires
        takes(SenderStage::fresh(request), events),
        acknowledged(request, events),
    ensures
        after_events(SenderStage::fresh(request), events).next_action() matches
            SenderAction::Complete(end) ==> {
            &&& events.len() >= 5
            &&& events[3] matches SenderEvent::Baseline { media_total: started }
            &&& events.last() matches SenderEvent::PaddingClosed { media_total: closed, .. }
            &&& end.media_accepted_payload_bytes == rate::at_least_zero(closed - started)
        },
{
    let stage = after_events(SenderStage::fresh(request), events);
    handshake(request, events);
    if stage.phase is Done {
        let shorter = events.drop_last();
        handshake(request, shorter);
        if events.len() >= 4 {
            baseline_is_kept(request, events);
            assert(events.len() >= 5 ==> acknowledged(request, shorter));
        }
    }
}

/// What a stage reports of its padding is what its writes offered and accepted, and
/// whether one of them had to wait.
pub proof fn padding_is_accounted(request: ProbeRequest, events: Seq<SenderEvent>)
    requires
        takes(SenderStage::fresh(request), events),
    ensures
        ({
            let fresh = SenderStage::fresh(request);
            let stage = after_events(fresh, events);
            &&& stage.stats.attempted_padding_bytes == rate::capped(offered_total(fresh, events))
            &&& stage.stats.accepted_padding_bytes == rate::capped(accepted_total(events))
            &&& stage.stats.padding_pending_seen <==> events.contains(
                SenderEvent::Polled(WritePoll::Pending),
            )
            &&& stage.next_action() matches SenderAction::Complete(end) ==> {
                &&& end.request_id == request.request_id
                &&& end.stage_index == request.stage_index
                &&& end.attempted_padding_bytes == rate::capped(offered_total(fresh, events))
                &&& end.accepted_padding_bytes == rate::capped(accepted_total(events))
                &&& end.padding_pending_seen == stage.stats.padding_pending_seen
            }
            &&& offered_total(fresh, events) >= 0
            &&& accepted_total(events) >= 0
            &&& stage.stats.padding_pending_seen ==> stage.phase == SenderPhase::Closing(
                Closing::Backpressure,
            ) || stage.phase is Done
        }),
    decreases events.len(),
{
    handshake(request, events);
    let pending = SenderEvent::Polled(WritePoll::Pending);
    if events.len() > 0 {
        let shorter = events.drop_last();
        padding_is_accounted(request, shorter);
        assert(events.contains(pending) <==> shorter.contains(pending) || events.last()
            == pending) by {
            assert(events =~= shorter.push(events.last()));
            if shorter.contains(pending) {
                let i = choose|i: int| 0 <= i < shorter.len() && shorter[i] == pending;
                assert(events[i] == pending);
            }
            if events.last() == pending {
                assert(events[events.len() - 1] == pending);
            }
        }
    }
}

/// Where no write accepts more than it is offered, a stage's padding stays within
/// what the target allows for the active duration, or is the one byte that starts
/// it, and is no more than was attempted.
pub proof fn padding_stays_within_budget(request: ProbeRequest, events: Seq<SenderEvent>)
    requires
        takes(SenderStage::fresh(request), events),
        no_write_exceeds(SenderStage::fresh(request), events),
    ensures
        ({
            let stage = after_events(SenderStage::fresh(request), events);
            let budget = rate::budget_bytes(request.stage_target_bps, stage.duration_nanos());
            let limit = if budget > 1 {
                budget
            } else {
                1
            };
            &&& stage.stats.accepted_padding_bytes <= limit
            &&& stage.stats.accepted_padding_bytes > 1 ==> stage.stats.accepted_padding_bytes
                * 8_000_000_000 <= request.stage_target_bps * (request.active_duration_ms
                * 1_000_000)
            &&& stage.phase matches SenderPhase::Writing { due } ==> due
                + stage.stats.accepted_padding_bytes <= limit
            &&& stage.stats.accepted_padding_bytes <= stage.stats.attempted_padding_bytes
            &&& stage.phase is Triggering ==> stage.stats.accepted_padding_bytes == 0
        }),
    decreases events.len(),
{
    handshake(request, events);
    rate::budget_is_what_the_rate_sends(
        request.stage_target_bps,
        request.active_duration_ms * 1_000_000,
    );
    if events.len() > 0 {
        let shorter = events.drop_last();
        padding_stays_within_budget(request, shorter);
        handshake(request, shorter);
        let before = after_events(SenderStage::fresh(request), shorter);
        if let SenderEvent::Measured { elapsed_nanos, media_total } = events.last() {
            rate::budget_grows(
                request.stage_target_bps,
                request.stage_target_bps,
                before.active_nanos(elapsed_nanos as int),
                before.duration_nanos(),
            );
        }
        if before.phase is Baselining {
            assert(events.len() == 4);
        }
    }
}

/// Whether media and padding together have reached what the target allowed at a
/// measurement, but for what is still due.
pub open spec fn tops_up(stage: SenderStage, measured: Option<(u128, u64)>) -> bool {
    match measured {
        Some((elapsed_nanos, media_total)) => {
            let whole_nanos = stage.request.active_duration_ms * 1_000_000;
            let nanos = if elapsed_nanos as int > whole_nanos {
                whole_nanos
            } else {
                elapsed_nanos as int
            };
            let budget = rate::capped((stage.request.stage_target_bps * nanos) / 8_000_000_000);
            let have = stage.media_since(media_total) + stage.stats.accepted_padding_bytes;
            match stage.phase {
                SenderPhase::Checking => have >= budget,
                SenderPhase::Sizing => have >= budget,
                SenderPhase::Waiting { .. } => have >= budget,
                SenderPhase::Writing { due } => have + due >= budget,
                _ => true,
            }
        },
        None => !(stage.phase is Writing),
    }
}

/// When the sender goes back to its clock after a measurement, media and padding
/// together have reached what the target allowed by then.
pub proof fn every_tick_tops_up(request: ProbeRequest, events: Seq<SenderEvent>)
    requires
        takes(SenderStage::fresh(request), events),
    ensures
        tops_up(after_events(SenderStage::fresh(request), events), last_measured(events)),
{
    topped_up(request, events);
}

proof fn topped_up(request: ProbeRequest, events: Seq<SenderEvent>)
    requires
        takes(SenderStage::fresh(request), events),
    ensures
        tops_up(after_events(SenderStage::fresh(request), events), last_measured(events)),
        events.len() <= 3 ==> last_measured(events) is None,
        after_events(SenderStage::fresh(request), events).phase is Triggering ==> last_measured(
            events,
        ) is None,
    decreases events.len(),
{
    handshake(request, events);
    if events.len() > 0 {
        topped_up(request, events.drop_last());
        handshake(request, events.drop_last());
    }
}

/// The first write after the acknowledgement offers one byte. Every write offers at
/// least one byte and at most a chunk.
pub proof fn writes_are_small(request: ProbeRequest, events: Seq<SenderEvent>)
    requires
        takes(SenderStage::fresh(request), events),
    ensures
        ({
            let action = after_events(SenderStage::fresh(request), events).next_action();
            &&& action matches SenderAction::PollPadding { length } ==> 1 <= length
                <= PADDING_CHUNK_BYTES
            &&& acknowledged(request, events) && events.len() == 4 ==> action
                == SenderAction::PollPadding { length: 1 }
        }),
{
    handshake(request, events);
    if acknowledged(request, events) && events.len() == 4 {
        handshake(request, events.drop_last());
    }
}

/// After a measurement padding is due for what media and padding have left of the
/// bytes that the target allows until then, and no later than the end of the active
/// duration. Media is what was accepted since the stage's start. The next action is
/// to write what is due, a chunk at most, or to read the clock where nothing is.
pub proof fn measured_time_makes_padding_due(
    stage: SenderStage,
    elapsed_nanos: u128,
    media_total: u64,
)
    requires
        stage.phase is Measuring,
    ensures
        ({
            let next = stage.next(SenderEvent::Measured { elapsed_nanos, media_total });
            let whole_nanos = stage.request.active_duration_ms * 1_000_000;
            let nanos = if elapsed_nanos as int > whole_nanos {
                whole_nanos
            } else {
                elapsed_nanos as int
            };
            let media = if media_total > stage.media_started {
                media_total - stage.media_started
            } else {
                0
            };
            let bits_times_nanos = stage.request.stage_target_bps * nanos;
            let allowed = if bits_times_nanos / 8_000_000_000 > u64::MAX {
                u64::MAX as int
            } else {
                bits_times_nanos / 8_000_000_000
            };
            let due = allowed - media - stage.stats.accepted_padding_bytes;
            &&& next.request == stage.request
            &&& next.stats == stage.stats
            &&& next.media_started == stage.media_started
            &&& due <= 0 ==> next.phase == SenderPhase::Checking
            &&& due <= 0 ==> next.next_action() == SenderAction::ReadClock
            &&& due > 0 ==> next.phase == (SenderPhase::Writing { due: due as u64 })
            &&& 0 < due <= 1200 ==> next.next_action() == (SenderAction::PollPadding {
                length: due as usize,
            })
            &&& due > 1200 ==> next.next_action() == (SenderAction::PollPadding { length: 1200 })
        }),
{
    let nanos = stage.active_nanos(elapsed_nanos as int);
    assert(0 <= stage.request.stage_target_bps * nanos) by (nonlinear_arith)
        requires
            0 <= nanos,
    ;
}

/// A wait lasts a tick of ten milliseconds, or what is left of the active duration
/// where that is less.
pub proof fn waits_last_a_tick(stage: SenderStage, elapsed_nanos: u128)
    requires
        stage.phase is Sizing,
    ensures
        ({
            let next = stage.next(SenderEvent::Clock { elapsed_nanos });
            let left = stage.request.active_duration_ms * 1_000_000 - elapsed_nanos;
            &&& next == stage.to(next.phase)
            &&& next.next_action() matches SenderAction::Wait { nanos }
            &&& left >= 10_000_000 ==> nanos == 10_000_000
            &&& 0 <= left < 10_000_000 ==> nanos == left
            &&& left < 0 ==> nanos == 0
        }),
{
}

/// A stage goes on while its clock reads less than the active duration, and then
/// finishes its padding stream. A wait that is over is followed by a measurement.
pub proof fn stage_goes_on_for_its_duration(stage: SenderStage, elapsed_nanos: u128, nanos: u64)
    ensures
        stage.phase is Checking ==> {
            let next = stage.next(SenderEvent::Clock { elapsed_nanos });
            &&& next == stage.to(next.phase)
            &&& elapsed_nanos < stage.request.active_duration_ms * 1_000_000 ==> next.phase
                is Sizing
            &&& elapsed_nanos >= stage.request.active_duration_ms * 1_000_000 ==> next.phase
                == SenderPhase::Closing(Closing::Completed)
        },
        stage.phase == (SenderPhase::Waiting { nanos }) ==> stage.next(SenderEvent::WaitOver)
            == stage.to(SenderPhase::Measuring),
        stage.to(SenderPhase::Checking).next_action() == SenderAction::ReadClock,
        stage.to(SenderPhase::Sizing).next_action() == SenderAction::ReadClock,
        stage.to(SenderPhase::Measuring).next_action() == SenderAction::Measure,
        stage.to(SenderPhase::Waiting { nanos }).next_action() == (SenderAction::Wait { nanos }),
        stage.to(SenderPhase::Closing(Closing::Completed)).next_action()
            == SenderAction::FinishPadding,
        stage.to(SenderPhase::Closing(Closing::Interrupted)).next_action()
            == SenderAction::FinishPadding,
        stage.to(SenderPhase::Closing(Closing::WrongAck)).next_action()
            == SenderAction::FinishPadding,
        stage.to(SenderPhase::Closing(Closing::ControlLost)).next_action()
            == SenderAction::FinishPadding,
        stage.to(SenderPhase::Closing(Closing::Backpressure)).next_action()
            == (SenderAction::ResetPadding { code: 0x42 }),
        stage.to(SenderPhase::ZeroWrite).next_action() == SenderAction::Fail(
            ProbeError::ZeroWrite,
        ),
        stage.to(SenderPhase::ControlLost).next_action() == SenderAction::FailControl,
{
}

/// A control message during a wait interrupts the stage, and a control stream that
/// fails loses it.
pub proof fn control_stream_ends_a_wait(stage: SenderStage, message: ProbeMessage)
    requires
        stage.phase is Waiting,
    ensures
        stage.next(SenderEvent::Message(message)) == stage.to(
            SenderPhase::Closing(Closing::Interrupted),
        ),
        stage.next(SenderEvent::ControlFailed) == stage.to(
            SenderPhase::Closing(Closing::ControlLost),
        ),
{
}

/// A write attempts what it offers: one byte to begin with, then what is due and at
/// most a chunk of 1200. What it accepts is paid off, and where more is due the next
/// write offers it. A write that has to wait, or accepts nothing, ends the stage.
pub proof fn writes_pay_off_what_is_due(stage: SenderStage, written: usize)
    requires
        stage.phase is Triggering || stage.phase is Writing,
        stage.wf(),
    ensures
        ({
            let due = match stage.phase {
                SenderPhase::Writing { due } => due,
                _ => 1,
            };
            let offered = if due > 1200 {
                1200
            } else {
                due
            };
            let ready = stage.next(SenderEvent::Polled(WritePoll::Ready(written)));
            let pending = stage.next(SenderEvent::Polled(WritePoll::Pending));
            let attempted = stage.stats.attempted_padding_bytes + offered;
            let accepted = stage.stats.accepted_padding_bytes + written;
            &&& stage.next_action() == (SenderAction::PollPadding { length: offered as usize })
            &&& ready.request == stage.request && pending.request == stage.request
            &&& ready.media_started == stage.media_started
            &&& pending.media_started == stage.media_started
            &&& attempted <= u64::MAX ==> ready.stats.attempted_padding_bytes == attempted
                && pending.stats.attempted_padding_bytes == attempted
            &&& attempted > u64::MAX ==> ready.stats.attempted_padding_bytes == u64::MAX
                && pending.stats.attempted_padding_bytes == u64::MAX
            &&& accepted <= u64::MAX ==> ready.stats.accepted_padding_bytes == accepted
            &&& accepted > u64::MAX ==> ready.stats.accepted_padding_bytes == u64::MAX
            &&& pending.stats.accepted_padding_bytes == stage.stats.accepted_padding_bytes
            &&& ready.stats.padding_pending_seen == stage.stats.padding_pending_seen
            &&& pending.stats.padding_pending_seen
            &&& written == 0 ==> ready.phase == SenderPhase::ZeroWrite
            &&& 0 < written < due ==> ready.phase == (SenderPhase::Writing {
                due: (due - written) as u64,
            })
            &&& written > 0 && written >= due ==> ready.phase == SenderPhase::Checking
            &&& pending.phase == SenderPhase::Closing(Closing::Backpressure)
        }),
{
}

/// The report of a closed stage: its status by what ended it, the padding that was
/// attempted and accepted, the media since its start, and the whole milliseconds of
/// its clock. Where START was not acknowledged, no media and no time count. A stage
/// that lost its control stream has no report.
pub proof fn closed_stage_is_reported(
    stage: SenderStage,
    closing: Closing,
    elapsed_nanos: u128,
    media_total: u64,
)
    requires
        stage.phase == SenderPhase::Closing(closing),
    ensures
        ({
            let next = stage.next(SenderEvent::PaddingClosed { elapsed_nanos, media_total });
            let lost = closing == Closing::ControlLost;
            let unheard = closing == Closing::WrongAck;
            &&& next == stage.to(next.phase)
            &&& lost ==> next.phase == SenderPhase::ControlLost
            &&& !lost ==> {
                &&& next.next_action() matches SenderAction::Complete(end)
                &&& end.request_id == stage.request.request_id
                &&& end.stage_index == stage.request.stage_index
                &&& end.attempted_padding_bytes == stage.stats.attempted_padding_bytes
                &&& end.accepted_padding_bytes == stage.stats.accepted_padding_bytes
                &&& end.padding_pending_seen == stage.stats.padding_pending_seen
                &&& end.status == ProbeEndStatus::Completed <==> closing == Closing::Completed
                &&& end.status == ProbeEndStatus::AbortedBackpressure <==> closing
                    == Closing::Backpressure
                &&& unheard ==> end.media_accepted_payload_bytes == 0
                &&& unheard ==> end.stage_active_duration_ms == 0
                &&& !unheard && media_total >= stage.media_started
                    ==> end.media_accepted_payload_bytes == media_total - stage.media_started
                &&& !unheard && media_total < stage.media_started
                    ==> end.media_accepted_payload_bytes == 0
                &&& !unheard && elapsed_nanos / 1_000_000 <= u64::MAX ==> {
                    &&& end.stage_active_duration_ms * 1_000_000 <= elapsed_nanos
                    &&& elapsed_nanos < (end.stage_active_duration_ms + 1) * 1_000_000
                }
            }
        }),
{
}

/// The handshake of a stage: its padding stream is opened below every other and
/// written its type, START names the stage and its target, and only the
/// acknowledgement that names the stage lets it begin.
pub proof fn handshake_names_the_stage(
    request: ProbeRequest,
    message: ProbeMessage,
    media_total: u64,
)
    ensures
        ({
            let opening = SenderStage::fresh(request);
            let starting = opening.next(SenderEvent::PaddingOpened);
            let waiting = starting.next(SenderEvent::StartSent);
            let heard = waiting.next(SenderEvent::Message(message));
            let begun = heard.next(SenderEvent::Baseline { media_total });
            &&& opening.next_action() == (SenderAction::OpenPadding {
                priority: i32::MIN,
                stream_type: 0x132B3E28,
            })
            &&& starting.next_action() == SenderAction::SendStart(
                ProbeStart {
                    request_id: request.request_id,
                    stage_index: request.stage_index,
                    stage_target_bps: request.stage_target_bps,
                },
            )
            &&& waiting.next_action() == SenderAction::ReadControl
            &&& heard.next_action() == SenderAction::TakeBaseline <==> message
                == ProbeMessage::StartAck(
                ProbeStartAck {
                    request_id: request.request_id,
                    stage_index: request.stage_index,
                },
            )
            &&& heard.next_action() != SenderAction::TakeBaseline ==> heard.phase
                == SenderPhase::Closing(Closing::WrongAck)
            &&& heard.next_action() == SenderAction::TakeBaseline ==> {
                &&& begun.next_action() == (SenderAction::PollPadding { length: 1 })
                &&& begun.media_started == media_total
                &&& begun.request == request
                &&& begun.stats.attempted_padding_bytes == 0
                &&& begun.stats.accepted_padding_bytes == 0
                &&& !begun.stats.padding_pending_seen
            }
        }),
{
}

/// Every action is answered by its own events, and a stage that is over by none.
pub proof fn actions_have_their_answers(stage: SenderStage, event: SenderEvent)
    ensures
        match stage.next_action() {
            SenderAction::OpenPadding { .. } => stage.may_take(event) <==> event is PaddingOpened,
            SenderAction::SendStart(_) => stage.may_take(event) <==> event is StartSent,
            SenderAction::ReadControl => stage.may_take(event) <==> event is Message,
            SenderAction::TakeBaseline => stage.may_take(event) <==> event is Baseline,
            SenderAction::PollPadding { .. } => stage.may_take(event) <==> event is Polled,
            SenderAction::ReadClock => stage.may_take(event) <==> event is Clock,
            SenderAction::Wait { .. } => stage.may_take(event) <==> event is WaitOver
                || event is Message || event is ControlFailed,
            SenderAction::Measure => stage.may_take(event) <==> event is Measured,
            SenderAction::FinishPadding => stage.may_take(event) <==> event is PaddingClosed,
            SenderAction::ResetPadding { .. } => stage.may_take(event) <==> event
                is PaddingClosed,
            SenderAction::Complete(_) => !stage.may_take(event),
            SenderAction::Fail(_) => !stage.may_take(event),
            SenderAction::FailControl => !stage.may_take(event),
        },
{
}

/// A report says of a stage what it was asked for, what its padding came to, and the
/// status, media and time that it is given.
pub proof fn reports_repeat_the_stage(
    stats: SenderStageStats,
    request: ProbeRequest,
    status: ProbeEndStatus,
    media_accepted_payload_bytes: u64,
    elapsed_ms: u64,
)
    ensures
        ({
            let end = stats.end(request, status, media_accepted_payload_bytes, elapsed_ms);
            &&& end.request_id == request.request_id
            &&& end.stage_index == request.stage_index
            &&& end.status == status
            &&& end.attempted_padding_bytes == stats.attempted_padding_bytes
            &&& end.accepted_padding_bytes == stats.accepted_padding_bytes
            &&& end.padding_pending_seen == stats.padding_pending_seen
            &&& end.media_accepted_payload_bytes == media_accepted_payload_bytes
            &&& end.stage_active_duration_ms == elapsed_ms
        }),
{
}

} // verus!
