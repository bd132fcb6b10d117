//! The receiver of a probe.
//!
//! The receiver arms on START, begins to measure at the first non-empty padding
//! payload after it, and stops at END. Padding before START and after END is
//! counted apart.

use std::time::{Instant, SystemTime};
use vstd::prelude::*;

use crate::clock;
use crate::clock::{millis_between, now_ms};
use crate::protocol::{ProbeEnd, ProbeEndStatus, ProbeError, ProbeResult, ProbeStart};
use crate::rate;
use crate::rate::{bitrate_bps, goodput_passes};

verus! {

/// How far a stage is on the receiver's side.
#[derive(Debug, Clone, Copy, PartialEq, Eq, Structural)]
pub enum MeasurementPhase {
    WaitingForStart,
    Armed,
    Measuring,
    Ended,
}

/// How a stage went, as the receiver sees it.
#[derive(Debug, Clone, Copy, PartialEq, Eq, Structural)]
pub enum StageStatus {
    Completed,
    NoPostStartPadding,
    AbortedBackpressure,
    ProtocolError,
    ConnectionClosed,
}

/// What a stage came to.
#[derive(Debug, Clone, Copy)]
pub struct StageResult {
    pub request_id: u64,
    pub stage_index: u64,
    pub stage_ratio_percent: u64,
    pub stage_target_bps: u64,
    pub probe_start_received_at: Instant,
    pub probe_start_received_timestamp_ms: u64,
    pub first_post_start_padding_at: Option<Instant>,
    pub first_post_start_padding_timestamp_ms: Option<u64>,
    pub probe_end_received_at: Instant,
    pub probe_end_received_timestamp_ms: u64,
    pub measurement_duration_ms: u64,
    pub arming_delay_ms: Option<u64>,
    pub pre_start_padding_bytes: u64,
    pub received_media_bytes: u64,
    pub received_padding_bytes: u64,
    pub late_padding_bytes: u64,
    pub media_goodput_bps: u64,
    pub padding_goodput_bps: u64,
    pub receiver_goodput_bps: u64,
    pub sender_attempted_padding_bytes: u64,
    pub sender_accepted_padding_bytes: u64,
    pub sender_media_accepted_payload_bytes: u64,
    pub sender_total_accepted_payload_bytes: u64,
    pub sender_app_bitrate_bps: u64,
    pub pass_percent: u64,
    pub stage_passed: bool,
    pub result_valid: bool,
    pub partial_measurement: bool,
    pub status: StageStatus,
    pub padding_stream_finished: bool,
    pub padding_stream_reset: bool,
    pub reset_error_code: Option<u32>,
}

/// What the receiver knows of a stage.
#[derive(Debug, Clone, Copy)]
pub struct ReceiverStage {
    pub request_id: u64,
    pub stage_index: u64,
    pub stage_ratio_percent: u64,
    pub stage_target_bps: u64,
    pub pass_percent: u64,
    pub phase: MeasurementPhase,
    pub probe_start_received_at: Option<Instant>,
    pub probe_start_received_timestamp_ms: Option<u64>,
    pub measurement_start_at: Option<Instant>,
    pub measurement_start_timestamp_ms: Option<u64>,
    pub probe_end_received_at: Option<Instant>,
    pub probe_end_received_timestamp_ms: Option<u64>,
    pub pre_start_padding_bytes: u64,
    pub received_media_bytes: u64,
    pub received_padding_bytes: u64,
    pub late_padding_bytes: u64,
    pub padding_stream_open: bool,
    pub padding_stream_finished: bool,
    pub padding_stream_reset: bool,
    pub reset_error_code: Option<u32>,
    pub end_status: Option<ProbeEndStatus>,
}

impl ReceiverStage {
    /// A stage of which nothing has been heard yet.
    pub open spec fn fresh(
        request_id: u64,
        stage_index: u64,
        stage_ratio_percent: u64,
        stage_target_bps: u64,
        pass_percent: u64,
    ) -> ReceiverStage {
        ReceiverStage {
            request_id,
            stage_index,
            stage_ratio_percent,
            stage_target_bps,
            pass_percent,
            phase: MeasurementPhase::WaitingForStart,
            probe_start_received_at: None,
            probe_start_received_timestamp_ms: None,
            measurement_start_at: None,
            measurement_start_timestamp_ms: None,
            probe_end_received_at: None,
            probe_end_received_timestamp_ms: None,
            pre_start_padding_bytes: 0,
            received_media_bytes: 0,
            received_padding_bytes: 0,
            late_padding_bytes: 0,
            padding_stream_open: false,
            padding_stream_finished: false,
            padding_stream_reset: false,
            reset_error_code: None,
            end_status: None,
        }
    }

    /// What a stage looks like in each of its phases: times and counts are there
    /// exactly as far as it has come.
    pub open spec fn wf(self) -> bool {
        let heard_start = self.probe_start_received_at is Some;
        let measured = self.measurement_start_at is Some;
        let ended = self.phase == MeasurementPhase::Ended;
        &&& self.probe_start_received_timestamp_ms is Some == heard_start
        &&& self.measurement_start_timestamp_ms is Some == measured
        &&& self.probe_end_received_at is Some == ended
        &&& self.probe_end_received_timestamp_ms is Some == ended
        &&& self.end_status is Some == ended
        &&& self.phase == MeasurementPhase::WaitingForStart ==> !heard_start && !measured
        &&& self.phase == MeasurementPhase::Armed ==> heard_start && !measured
        &&& self.phase == MeasurementPhase::Measuring ==> heard_start && measured
        &&& measured ==> heard_start
        &&& measured == (self.received_padding_bytes > 0)
        &&& !measured ==> self.received_media_bytes == 0
        &&& !ended ==> self.late_padding_bytes == 0
        &&& self.reset_error_code is Some ==> self.padding_stream_reset
        &&& !(self.padding_stream_finished && self.padding_stream_reset)
    }

    /// Whether no padding stream is still under way.
    pub open spec fn cleaned_up(self) -> bool {
        !self.padding_stream_open || self.padding_stream_finished || self.padding_stream_reset
    }

    /// Why a message for the given stage does not belong to this one.
    pub open spec fn mismatch(self, request_id: u64, stage_index: u64) -> Option<ProbeError> {
        if self.request_id != request_id {
            Some(ProbeError::Protocol("request ID mismatch"))
        } else if self.stage_index != stage_index {
            Some(ProbeError::Protocol("stage index mismatch"))
        } else {
            None
        }
    }

    /// The stage once START has come.
    pub open spec fn armed(self, now: Instant, timestamp_ms: u64) -> ReceiverStage {
        ReceiverStage {
            probe_start_received_at: Some(now),
            probe_start_received_timestamp_ms: Some(timestamp_ms),
            phase: MeasurementPhase::Armed,
            ..self
        }
    }

    /// The stage once a padding stream has opened.
    pub open spec fn opened(self) -> ReceiverStage {
        ReceiverStage {
            padding_stream_open: true,
            padding_stream_finished: false,
            padding_stream_reset: false,
            reset_error_code: None,
            ..self
        }
    }

    /// The stage once a padding payload has come. The first one after START
    /// begins the measurement and is part of it. An empty one makes no difference.
    pub open spec fn padded(self, bytes: usize, now: Instant, timestamp_ms: u64) -> ReceiverStage {
        if bytes == 0 {
            self
        } else {
            match self.phase {
                MeasurementPhase::WaitingForStart => ReceiverStage {
                    pre_start_padding_bytes: rate::capped(self.pre_start_padding_bytes + bytes),
                    ..self
                },
                MeasurementPhase::Armed => ReceiverStage {
                    measurement_start_at: Some(now),
                    measurement_start_timestamp_ms: Some(timestamp_ms),
                    received_padding_bytes: rate::capped(self.received_padding_bytes + bytes),
                    phase: MeasurementPhase::Measuring,
                    ..self
                },
                MeasurementPhase::Measuring => ReceiverStage {
                    received_padding_bytes: rate::capped(self.received_padding_bytes + bytes),
                    ..self
                },
                MeasurementPhase::Ended => ReceiverStage {
                    late_padding_bytes: rate::capped(self.late_padding_bytes + bytes),
                    ..self
                },
            }
        }
    }

    /// The stage once a media payload has come. Only a running measurement counts
    /// it.
    pub open spec fn with_media(self, bytes: usize) -> ReceiverStage {
        if self.phase == MeasurementPhase::Measuring {
            ReceiverStage {
                received_media_bytes: rate::capped(self.received_media_bytes + bytes),
                ..self
            }
        } else {
            self
        }
    }

    /// The stage once its padding stream has finished.
    pub open spec fn finished(self) -> ReceiverStage {
        ReceiverStage { padding_stream_finished: true, ..self }
    }

    /// The stage once its padding stream was reset.
    pub open spec fn reset(self, error_code: Option<u32>) -> ReceiverStage {
        ReceiverStage { padding_stream_reset: true, reset_error_code: error_code, ..self }
    }

    /// The stage once END has come.
    pub open spec fn ended(
        self,
        status: ProbeEndStatus,
        now: Instant,
        timestamp_ms: u64,
    ) -> ReceiverStage {
        ReceiverStage {
            phase: MeasurementPhase::Ended,
            probe_end_received_at: Some(now),
            probe_end_received_timestamp_ms: Some(timestamp_ms),
            end_status: Some(status),
            ..self
        }
    }

    /// How long the measurement had run by `now`, in whole milliseconds.
    pub open spec fn measured_ms(self, now: Instant) -> u64 {
        match self.measurement_start_at {
            Some(start) => clock::millis_of_nanos(clock::nanos_between(now, start) as int),
            None => 0,
        }
    }

    /// What the stage comes to when END arrives: the error, or the result.
    pub open spec fn concluded(self, end: ProbeEnd, now: Instant, timestamp_ms: u64) -> ProbeResult<
        StageResult,
    > {
        let elapsed_ms = self.measured_ms(now);
        let outcome = StageOutcome::of(
            self.phase == MeasurementPhase::Measuring,
            elapsed_ms,
            self.received_media_bytes,
            self.received_padding_bytes,
            self.stage_target_bps,
            self.pass_percent,
            end.status,
        );
        let sender_total = rate::capped(
            end.media_accepted_payload_bytes + end.accepted_padding_bytes,
        );
        match (self.probe_start_received_at, self.probe_start_received_timestamp_ms) {
            (None, _) => Err(ProbeError::Protocol("END received before START")),
            (Some(_), None) => Err(ProbeError::Protocol("missing START timestamp")),
            (Some(start_at), Some(start_timestamp_ms)) => Ok(
                StageResult {
                    request_id: self.request_id,
                    stage_index: self.stage_index,
                    stage_ratio_percent: self.stage_ratio_percent,
                    stage_target_bps: self.stage_target_bps,
                    probe_start_received_at: start_at,
                    probe_start_received_timestamp_ms: start_timestamp_ms,
                    first_post_start_padding_at: self.measurement_start_at,
                    first_post_start_padding_timestamp_ms: self.measurement_start_timestamp_ms,
                    probe_end_received_at: now,
                    probe_end_received_timestamp_ms: timestamp_ms,
                    measurement_duration_ms: elapsed_ms,
                    arming_delay_ms: match self.measurement_start_at {
                        Some(first) => Some(
                            clock::millis_of_nanos(clock::nanos_between(first, start_at) as int),
                        ),
                        None => None,
                    },
                    pre_start_padding_bytes: self.pre_start_padding_bytes,
                    received_media_bytes: self.received_media_bytes,
                    received_padding_bytes: self.received_padding_bytes,
                    late_padding_bytes: self.late_padding_bytes,
                    media_goodput_bps: outcome.media_goodput_bps,
                    padding_goodput_bps: outcome.padding_goodput_bps,
                    receiver_goodput_bps: outcome.receiver_goodput_bps,
                    sender_attempted_padding_bytes: end.attempted_padding_bytes,
                    sender_accepted_padding_bytes: end.accepted_padding_bytes,
                    sender_media_accepted_payload_bytes: end.media_accepted_payload_bytes,
                    sender_total_accepted_payload_bytes: sender_total,
                    sender_app_bitrate_bps: rate::bitrate(
                        sender_total,
                        end.stage_active_duration_ms,
                    ),
                    pass_percent: self.pass_percent,
                    stage_passed: outcome.stage_passed,
                    result_valid: outcome.result_valid,
                    partial_measurement: outcome.partial_measurement,
                    status: outcome.status,
                    padding_stream_finished: self.padding_stream_finished,
                    padding_stream_reset: self.padding_stream_reset,
                    reset_error_code: self.reset_error_code,
                },
            ),
        }
    }
}

/// The rates that a stage reached, and what they say of it.
#[derive(Debug, Clone, Copy, PartialEq, Eq, Structural)]
pub struct StageOutcome {
    pub media_goodput_bps: u64,
    pub padding_goodput_bps: u64,
    pub receiver_goodput_bps: u64,
    pub result_valid: bool,
    pub partial_measurement: bool,
    pub status: StageStatus,
    pub stage_passed: bool,
}

impl StageOutcome {
    /// The outcome of a stage in which `elapsed_ms` milliseconds were measured.
    pub open spec fn of(
        measuring: bool,
        elapsed_ms: u64,
        received_media_bytes: u64,
        received_padding_bytes: u64,
        stage_target_bps: u64,
        pass_percent: u64,
        end_status: ProbeEndStatus,
    ) -> StageOutcome {
        let measured = measuring && elapsed_ms > 0;
        let receiver_goodput_bps = rate::bitrate(
            rate::capped(received_media_bytes + received_padding_bytes),
            elapsed_ms,
        );
        let result_valid = measured && end_status == ProbeEndStatus::Completed;
        StageOutcome {
            media_goodput_bps: rate::bitrate(received_media_bytes, elapsed_ms),
            padding_goodput_bps: rate::bitrate(received_padding_bytes, elapsed_ms),
            receiver_goodput_bps,
            result_valid,
            partial_measurement: measured && end_status != ProbeEndStatus::Completed,
            status: match end_status {
                ProbeEndStatus::Completed => if measured {
                    StageStatus::Completed
                } else {
                    StageStatus::NoPostStartPadding
                },
                ProbeEndStatus::AbortedBackpressure => StageStatus::AbortedBackpressure,
                ProbeEndStatus::ProtocolError => StageStatus::ProtocolError,
            },
            stage_passed: result_valid && rate::reaches(
                receiver_goodput_bps,
                stage_target_bps,
                pass_percent,
            ),
        }
    }
}

/// Works out the outcome of a stage in which `elapsed_ms` milliseconds were
/// measured.
pub fn stage_outcome(
    measuring: bool,
    elapsed_ms: u64,
    received_media_bytes: u64,
    received_padding_bytes: u64,
    stage_target_bps: u64,
    pass_percent: u64,
    end_status: ProbeEndStatus,
) -> (outcome: StageOutcome)
    ensures
        outcome == StageOutcome::of(
            measuring,
            elapsed_ms,
            received_media_bytes,
            received_padding_bytes,
            stage_target_bps,
            pass_percent,
            end_status,
        ),
{
    let receiver_goodput_bps: u64 = bitrate_bps(
        received_media_bytes.saturating_add(received_padding_bytes),
        elapsed_ms,
    );
    let measured = measuring && elapsed_ms > 0;
    let completed = end_status == ProbeEndStatus::Completed;
    let result_valid = measured && completed;
    let status = match end_status {
        ProbeEndStatus::Completed => if measured {
            StageStatus::Completed
        } else {
            StageStatus::NoPostStartPadding
        },
        ProbeEndStatus::AbortedBackpressure => StageStatus::AbortedBackpressure,
        ProbeEndStatus::ProtocolError => StageStatus::ProtocolError,
    };
    StageOutcome {
        media_goodput_bps: bitrate_bps(received_media_bytes, elapsed_ms),
        padding_goodput_bps: bitrate_bps(received_padding_bytes, elapsed_ms),
        receiver_goodput_bps,
        result_valid,
        partial_measurement: measured && !completed,
        status,
        stage_passed: result_valid && goodput_passes(
            receiver_goodput_bps,
            stage_target_bps,
            pass_percent,
        ),
    }
}

/// The receiver's side of a connection: the stage it is in, or was in last.
#[derive(Debug)]
pub struct ReceiverProbeContext {
    stage: Option<ReceiverStage>,
}

impl Default for ReceiverProbeContext {
    fn default() -> (context: ReceiverProbeContext)
        ensures
            context@ == None::<ReceiverStage>,
    {
        ReceiverProbeContext { stage: None }
    }
}

/// Whether a stage can begin after what went before.
pub open spec fn may_begin(before: Option<ReceiverStage>) -> bool {
    match before {
        Some(previous) => previous.phase == MeasurementPhase::Ended && previous.cleaned_up(),
        None => true,
    }
}

/// Why START is refused.
pub open spec fn start_refusal(before: Option<ReceiverStage>, start: ProbeStart) -> Option<
    ProbeError,
> {
    match before {
        None => Some(ProbeError::State("START without active stage")),
        Some(stage) => match stage.mismatch(start.request_id, start.stage_index) {
            Some(error) => Some(error),
            None => if stage.stage_target_bps != start.stage_target_bps {
                Some(ProbeError::Protocol("START target does not match request"))
            } else if stage.phase != MeasurementPhase::WaitingForStart {
                Some(ProbeError::Protocol("duplicate or out-of-order START"))
            } else {
                None
            },
        },
    }
}

/// What START does at a given time.
pub open spec fn on_start(
    before: Option<ReceiverStage>,
    start: ProbeStart,
    now: Instant,
    timestamp_ms: u64,
    after: Option<ReceiverStage>,
    result: ProbeResult<()>,
) -> bool {
    match start_refusal(before, start) {
        Some(error) => after == before && result == Err::<(), ProbeError>(error),
        None => {
            &&& after == Some(before->0.armed(now, timestamp_ms))
            &&& result == Ok::<(), ProbeError>(())
        },
    }
}

/// What a padding payload does at a given time.
pub open spec fn on_padding(
    before: Option<ReceiverStage>,
    bytes: usize,
    now: Instant,
    timestamp_ms: u64,
    after: Option<ReceiverStage>,
    result: ProbeResult<()>,
) -> bool {
    if bytes == 0 {
        after == before && result == Ok::<(), ProbeError>(())
    } else {
        match before {
            None => {
                &&& after == before
                &&& result == Err::<(), ProbeError>(
                    ProbeError::State("Padding payload without active stage"),
                )
            },
            Some(stage) => {
                &&& after == Some(stage.padded(bytes, now, timestamp_ms))
                &&& result == Ok::<(), ProbeError>(())
            },
        }
    }
}

/// Why END is refused. A refused END leaves the stage as it is.
pub open spec fn end_refusal(before: Option<ReceiverStage>, end: ProbeEnd) -> Option<ProbeError> {
    match before {
        None => Some(ProbeError::State("END without active stage")),
        Some(stage) => match stage.mismatch(end.request_id, end.stage_index) {
            Some(error) => Some(error),
            None => if stage.phase == MeasurementPhase::Ended {
                Some(ProbeError::Protocol("duplicate END"))
            } else {
                None
            },
        },
    }
}

/// What END does at a given time. It ends the stage even where START is missing,
/// and there is then no result.
pub open spec fn on_end(
    before: Option<ReceiverStage>,
    end: ProbeEnd,
    now: Instant,
    timestamp_ms: u64,
    after: Option<ReceiverStage>,
    result: ProbeResult<StageResult>,
) -> bool {
    match end_refusal(before, end) {
        Some(error) => after == before && result == Err::<StageResult, ProbeError>(error),
        None => {
            &&& after == Some(before->0.ended(end.status, now, timestamp_ms))
            &&& result == before->0.concluded(end, now, timestamp_ms)
        },
    }
}

/// Why the end of a padding stream is refused.
pub open spec fn cleanup_refusal(
    before: Option<ReceiverStage>,
    no_stage: &'static str,
) -> Option<ProbeError> {
    match before {
        None => Some(ProbeError::State(no_stage)),
        Some(stage) => if stage.padding_stream_finished || stage.padding_stream_reset {
            Some(ProbeError::Protocol("duplicate Padding cleanup"))
        } else {
            None
        },
    }
}

/// Whether a stage, if there is one, is as its phase says.
pub open spec fn stage_wf(stage: Option<ReceiverStage>) -> bool {
    stage is Some ==> stage->0.wf()
}

fn verify_stage(stage: &ReceiverStage, request_id: u64, stage_index: u64) -> (result: ProbeResult<
    (),
>)
    ensures
        match stage.mismatch(request_id, stage_index) {
            Some(error) => result == Err::<(), ProbeError>(error),
            None => result == Ok::<(), ProbeError>(()),
        },
{
    if stage.request_id != request_id {
        return Err(ProbeError::Protocol("request ID mismatch"));
    }
    if stage.stage_index != stage_index {
        return Err(ProbeError::Protocol("stage index mismatch"));
    }
    Ok(())
}

impl ReceiverProbeContext {
    /// The stage that the receiver is in, or was in last.
    pub closed spec fn view(&self) -> Option<ReceiverStage> {
        self.stage
    }

    /// Begins a stage. The one before it has to have ended, with its padding
    /// stream done.
    pub fn begin_stage(
        &mut self,
        request_id: u64,
        stage_index: u64,
        stage_ratio_percent: u64,
        stage_target_bps: u64,
        pass_percent: u64,
    ) -> (result: ProbeResult<()>)
        ensures
            if may_begin(old(self)@) {
                &&& result == Ok::<(), ProbeError>(())
                &&& final(self)@ == Some(
                    ReceiverStage::fresh(
                        request_id,
                        stage_index,
                        stage_ratio_percent,
                        stage_target_bps,
                        pass_percent,
                    ),
                )
            } else {
                &&& result == Err::<(), ProbeError>(
                    ProbeError::State("previous stage has not ended and cleaned up"),
                )
                &&& final(self)@ == old(self)@
            },
            stage_wf(old(self)@) ==> stage_wf(final(self)@),
    {
        if let Some(previous) = &self.stage {
            if previous.phase != MeasurementPhase::Ended || (previous.padding_stream_open
                && !previous.padding_stream_finished && !previous.padding_stream_reset) {
                return Err(ProbeError::State("previous stage has not ended and cleaned up"));
            }
        }
        self.stage =
        Some(
            ReceiverStage {
                request_id,
                stage_index,
                stage_ratio_percent,
                stage_target_bps,
                pass_percent,
                phase: MeasurementPhase::WaitingForStart,
                probe_start_received_at: None,
                probe_start_received_timestamp_ms: None,
                measurement_start_at: None,
                measurement_start_timestamp_ms: None,
                probe_end_received_at: None,
                probe_end_received_timestamp_ms: None,
                pre_start_padding_bytes: 0,
                received_media_bytes: 0,
                received_padding_bytes: 0,
                late_padding_bytes: 0,
                padding_stream_open: false,
                padding_stream_finished: false,
                padding_stream_reset: false,
                reset_error_code: None,
                end_status: None,
            },
        );
        Ok(())
    }

    /// Takes START, received at `now`. The system clock is read for its timestamp.
    pub fn on_probe_start(&mut self, start: &ProbeStart, now: Instant) -> (result: ProbeResult<()>)
        ensures
            exists|time: SystemTime|
                on_start(
                    old(self)@,
                    *start,
                    now,
                    #[trigger] clock::timestamp_of(time),
                    final(self)@,
                    result,
                ),
            stage_wf(old(self)@) ==> stage_wf(final(self)@),
    {
        let timestamp_ms: u64 = now_ms();
        self.on_probe_start_at(start, now, timestamp_ms)
    }

    /// Takes START, received at `now` with the system clock at `timestamp_ms`.
    pub fn on_probe_start_at(
        &mut self,
        start: &ProbeStart,
        now: Instant,
        timestamp_ms: u64,
    ) -> (result: ProbeResult<()>)
        ensures
            on_start(old(self)@, *start, now, timestamp_ms, final(self)@, result),
            stage_wf(old(self)@) ==> stage_wf(final(self)@),
    {
        let mut stage: ReceiverStage = match self.stage {
            Some(stage) => stage,
            None => return Err(ProbeError::State("START without active stage")),
        };
        verify_stage(&stage, start.request_id, start.stage_index)?;
        if stage.stage_target_bps != start.stage_target_bps {
            return Err(ProbeError::Protocol("START target does not match request"));
        }
        if stage.phase != MeasurementPhase::WaitingForStart {
            return Err(ProbeError::Protocol("duplicate or out-of-order START"));
        }
        stage.probe_start_received_at = Some(now);
        stage.probe_start_received_timestamp_ms = Some(timestamp_ms);
        stage.phase = MeasurementPhase::Armed;
        self.stage = Some(stage);
        Ok(())
    }

    /// Takes that a padding stream has opened. One at a time is allowed.
    pub fn on_padding_stream_open(&mut self) -> (result: ProbeResult<()>)
        ensures
            match old(self)@ {
                None => {
                    &&& result == Err::<(), ProbeError>(
                        ProbeError::State("Padding stream without active stage"),
                    )
                    &&& final(self)@ == old(self)@
                },
                Some(stage) => if stage.cleaned_up() {
                    &&& result == Ok::<(), ProbeError>(())
                    &&& final(self)@ == Some(stage.opened())
                } else {
                    &&& result == Err::<(), ProbeError>(
                        ProbeError::Protocol("overlapping Padding streams"),
                    )
                    &&& final(self)@ == old(self)@
                },
            },
            stage_wf(old(self)@) ==> stage_wf(final(self)@),
    {
        let mut stage: ReceiverStage = match self.stage {
            Some(stage) => stage,
            None => return Err(ProbeError::State("Padding stream without active stage")),
        };
        if stage.padding_stream_open && !stage.padding_stream_finished
            && !stage.padding_stream_reset {
            return Err(ProbeError::Protocol("overlapping Padding streams"));
        }
        stage.padding_stream_open = true;
        stage.padding_stream_finished = false;
        stage.padding_stream_reset = false;
        stage.reset_error_code = None;
        self.stage = Some(stage);
        Ok(())
    }

    /// Takes a padding payload, received at `now`. The system clock is read for its
    /// timestamp.
    pub fn on_padding_payload(&mut self, bytes: usize, now: Instant) -> (result: ProbeResult<()>)
        ensures
            exists|time: SystemTime|
                on_padding(
                    old(self)@,
                    bytes,
                    now,
                    #[trigger] clock::timestamp_of(time),
                    final(self)@,
                    result,
                ),
            stage_wf(old(self)@) ==> stage_wf(final(self)@),
    {
        let timestamp_ms: u64 = now_ms();
        self.on_padding_payload_at(bytes, now, timestamp_ms)
    }

    /// Takes a padding payload, received at `now` with the system clock at
    /// `timestamp_ms`.
    pub fn on_padding_payload_at(
        &mut self,
        bytes: usize,
        now: Instant,
        timestamp_ms: u64,
    ) -> (result: ProbeResult<()>)
        ensures
            on_padding(old(self)@, bytes, now, timestamp_ms, final(self)@, result),
            stage_wf(old(self)@) ==> stage_wf(final(self)@),
    {
        if bytes == 0 {
            return Ok(());
        }
        let mut stage: ReceiverStage = match self.stage {
            Some(stage) => stage,
            None => return Err(ProbeError::State("Padding payload without active stage")),
        };
        let bytes: u64 = bytes as u64;
        match stage.phase {
            MeasurementPhase::WaitingForStart => {
                stage.pre_start_padding_bytes = stage.pre_start_padding_bytes.saturating_add(bytes);
            },
            MeasurementPhase::Armed => {
                stage.measurement_start_at = Some(now);
                stage.measurement_start_timestamp_ms = Some(timestamp_ms);
                stage.received_padding_bytes = stage.received_padding_bytes.saturating_add(bytes);
                stage.phase = MeasurementPhase::Measuring;
            },
            MeasurementPhase::Measuring => {
                stage.received_padding_bytes = stage.received_padding_bytes.saturating_add(bytes);
            },
            MeasurementPhase::Ended => {
                stage.late_padding_bytes = stage.late_padding_bytes.saturating_add(bytes);
            },
        }
        self.stage = Some(stage);
        Ok(())
    }

    /// Takes a media payload.
    pub fn on_media_payload(&mut self, bytes: usize, _now: Instant)
        ensures
            final(self)@ == match old(self)@ {
                Some(stage) => Some(stage.with_media(bytes)),
                None => None,
            },
            stage_wf(old(self)@) ==> stage_wf(final(self)@),
    {
        if bytes == 0 {
            return ;
        }
        if let Some(stage) = self.stage {
            if stage.phase == MeasurementPhase::Measuring {
                let mut stage: ReceiverStage = stage;
                stage.received_media_bytes =
                stage.received_media_bytes.saturating_add(bytes as u64);
                self.stage = Some(stage);
            }
        }
    }

    /// Takes that the padding stream has finished.
    pub fn on_padding_stream_finished(&mut self) -> (result: ProbeResult<()>)
        ensures
            match cleanup_refusal(old(self)@, "Padding FIN without active stage") {
                Some(error) => {
                    &&& result == Err::<(), ProbeError>(error)
                    &&& final(self)@ == old(self)@
                },
                None => {
                    &&& result == Ok::<(), ProbeError>(())
                    &&& final(self)@ == Some(old(self)@->0.finished())
                },
            },
            stage_wf(old(self)@) ==> stage_wf(final(self)@),
    {
        let mut stage: ReceiverStage = match self.stage {
            Some(stage) => stage,
            None => return Err(ProbeError::State("Padding FIN without active stage")),
        };
        if stage.padding_stream_finished || stage.padding_stream_reset {
            return Err(ProbeError::Protocol("duplicate Padding cleanup"));
        }
        stage.padding_stream_finished = true;
        self.stage = Some(stage);
        Ok(())
    }

    /// Takes that the padding stream was reset, with the code that came with it.
    pub fn on_padding_stream_reset(&mut self, error_code: Option<u32>) -> (result: ProbeResult<()>)
        ensures
            match cleanup_refusal(old(self)@, "Padding reset without active stage") {
                Some(error) => {
                    &&& result == Err::<(), ProbeError>(error)
                    &&& final(self)@ == old(self)@
                },
                None => {
                    &&& result == Ok::<(), ProbeError>(())
                    &&& final(self)@ == Some(old(self)@->0.reset(error_code))
                },
            },
            stage_wf(old(self)@) ==> stage_wf(final(self)@),
    {
        let mut stage: ReceiverStage = match self.stage {
            Some(stage) => stage,
            None => return Err(ProbeError::State("Padding reset without active stage")),
        };
        if stage.padding_stream_finished || stage.padding_stream_reset {
            return Err(ProbeError::Protocol("duplicate Padding cleanup"));
        }
        stage.padding_stream_reset = true;
        stage.reset_error_code = error_code;
        self.stage = Some(stage);
        Ok(())
    }

    /// Takes END, received at `now`, and says what the stage came to. The system
    /// clock is read for its timestamp.
    pub fn on_probe_end(&mut self, end: &ProbeEnd, now: Instant) -> (result: ProbeResult<
        StageResult,
    >)
        ensures
            exists|time: SystemTime|
                on_end(
                    old(self)@,
                    *end,
                    now,
                    #[trigger] clock::timestamp_of(time),
                    final(self)@,
                    result,
                ),
            stage_wf(old(self)@) ==> stage_wf(final(self)@),
    {
        let timestamp_ms: u64 = now_ms();
        self.on_probe_end_at(end, now, timestamp_ms)
    }

    /// Takes END, received at `now` with the system clock at `timestamp_ms`, and
    /// says what the stage came to.
    pub fn on_probe_end_at(
        &mut self,
        end: &ProbeEnd,
        now: Instant,
        timestamp_ms: u64,
    ) -> (result: ProbeResult<StageResult>)
        ensures
            on_end(old(self)@, *end, now, timestamp_ms, final(self)@, result),
            stage_wf(old(self)@) ==> stage_wf(final(self)@),
    {
        let before: ReceiverStage = match self.stage {
            Some(stage) => stage,
            None => return Err(ProbeError::State("END without active stage")),
        };
        verify_stage(&before, end.request_id, end.stage_index)?;
        if before.phase == MeasurementPhase::Ended {
            return Err(ProbeError::Protocol("duplicate END"));
        }

        let mut stage: ReceiverStage = before;
        stage.phase = MeasurementPhase::Ended;
        stage.probe_end_received_at = Some(now);
        stage.probe_end_received_timestamp_ms = Some(timestamp_ms);
        stage.end_status = Some(end.status);
        self.stage = Some(stage);

        let elapsed_ms: u64 = match before.measurement_start_at {
            Some(start) => millis_between(now, start),
            None => 0,
        };
        let outcome: StageOutcome = stage_outcome(
            before.phase == MeasurementPhase::Measuring,
            elapsed_ms,
            before.received_media_bytes,
            before.received_padding_bytes,
            before.stage_target_bps,
            before.pass_percent,
            end.status,
        );
        let sender_total_accepted_payload_bytes: u64 =
            end.media_accepted_payload_bytes.saturating_add(end.accepted_padding_bytes);
        let start_received: Instant = match before.probe_start_received_at {
            Some(at) => at,
            None => return Err(ProbeError::Protocol("END received before START")),
        };
        let start_timestamp_ms: u64 = match before.probe_start_received_timestamp_ms {
            Some(timestamp_ms) => timestamp_ms,
            None => return Err(ProbeError::Protocol("missing START timestamp")),
        };
        let arming_delay_ms: Option<u64> = match before.measurement_start_at {
            Some(first) => Some(millis_between(first, start_received)),
            None => None,
        };

        Ok(
            StageResult {
                request_id: before.request_id,
                stage_index: before.stage_index,
                stage_ratio_percent: before.stage_ratio_percent,
                stage_target_bps: before.stage_target_bps,
                probe_start_received_at: start_received,
                probe_start_received_timestamp_ms: start_timestamp_ms,
                first_post_start_padding_at: before.measurement_start_at,
                first_post_start_padding_timestamp_ms: before.measurement_start_timestamp_ms,
                probe_end_received_at: now,
                probe_end_received_timestamp_ms: timestamp_ms,
                measurement_duration_ms: elapsed_ms,
                arming_delay_ms,
                pre_start_padding_bytes: before.pre_start_padding_bytes,
                received_media_bytes: before.received_media_bytes,
                received_padding_bytes: before.received_padding_bytes,
                late_padding_bytes: before.late_padding_bytes,
                media_goodput_bps: outcome.media_goodput_bps,
                padding_goodput_bps: outcome.padding_goodput_bps,
                receiver_goodput_bps: outcome.receiver_goodput_bps,
                sender_attempted_padding_bytes: end.attempted_padding_bytes,
                sender_accepted_padding_bytes: end.accepted_padding_bytes,
                sender_media_accepted_payload_bytes: end.media_accepted_payload_bytes,
                sender_total_accepted_payload_bytes,
                sender_app_bitrate_bps: bitrate_bps(
                    sender_total_accepted_payload_bytes,
                    end.stage_active_duration_ms,
                ),
                pass_percent: before.pass_percent,
                stage_passed: outcome.stage_passed,
                result_valid: outcome.result_valid,
                partial_measurement: outcome.partial_measurement,
                status: outcome.status,
                padding_stream_finished: before.padding_stream_finished,
                padding_stream_reset: before.padding_stream_reset,
                reset_error_code: before.reset_error_code,
            },
        )
    }

    /// Whether no padding stream is still under way.
    pub fn padding_cleaned_up(&self) -> (done: bool)
        ensures
            done == match self@ {
                Some(stage) => stage.cleaned_up(),
                None => true,
            },
    {
        match &self.stage {
            Some(stage) => !stage.padding_stream_open || stage.padding_stream_finished
                || stage.padding_stream_reset,
            None => true,
        }
    }

    /// Brings what a result says of the padding stream and of late padding up to
    /// date.
    pub fn refresh_after_padding_cleanup(&self, result: &mut StageResult) -> (refreshed:
        ProbeResult<()>)
        ensures
            match refresh_refusal(self@, *old(result)) {
                Some(error) => {
                    &&& refreshed == Err::<(), ProbeError>(error)
                    &&& *final(result) == *old(result)
                },
                None => {
                    &&& refreshed == Ok::<(), ProbeError>(())
                    &&& *final(result) == refreshed_result(self@->0, *old(result))
                },
            },
    {
        let stage: &ReceiverStage = match &self.stage {
            Some(stage) => stage,
            None => return Err(ProbeError::State("no stage result to refresh")),
        };
        verify_stage(stage, result.request_id, result.stage_index)?;
        result.late_padding_bytes = stage.late_padding_bytes;
        result.padding_stream_finished = stage.padding_stream_finished;
        result.padding_stream_reset = stage.padding_stream_reset;
        result.reset_error_code = stage.reset_error_code;
        Ok(())
    }

    /// Padding bytes that came after the end of the stage.
    pub fn late_padding_bytes(&self) -> (bytes: u64)
        ensures
            bytes == match self@ {
                Some(stage) => stage.late_padding_bytes,
                None => 0,
            },
    {
        match &self.stage {
            Some(stage) => stage.late_padding_bytes,
            None => 0,
        }
    }
}

/// Why a result cannot be brought up to date.
pub open spec fn refresh_refusal(stage: Option<ReceiverStage>, result: StageResult) -> Option<
    ProbeError,
> {
    match stage {
        None => Some(ProbeError::State("no stage result to refresh")),
        Some(stage) => stage.mismatch(result.request_id, result.stage_index),
    }
}

/// A result with what the stage now says of its padding stream.
pub open spec fn refreshed_result(stage: ReceiverStage, result: StageResult) -> StageResult {
    StageResult {
        late_padding_bytes: stage.late_padding_bytes,
        padding_stream_finished: stage.padding_stream_finished,
        padding_stream_reset: stage.padding_stream_reset,
        reset_error_code: stage.reset_error_code,
        ..result
    }
}

/// A payload that reaches the receiver.
pub ghost enum Payload {
    Padding { bytes: usize, now: Instant, timestamp_ms: u64 },
    Media { bytes: usize },
}

/// The stage after payloads in their order.
pub open spec fn after_payloads(stage: ReceiverStage, payloads: Seq<Payload>) -> ReceiverStage
    decreases payloads.len(),
{
    if payloads.len() == 0 {
        stage
    } else {
        let before = after_payloads(stage, payloads.drop_last());
        match payloads.last() {
            Payload::Padding { bytes, now, timestamp_ms } => before.padded(
                bytes,
                now,
                timestamp_ms,
            ),
            Payload::Media { bytes } => before.with_media(bytes),
        }
    }
}

/// The bytes of padding among payloads.
pub open spec fn padding_total(payloads: Seq<Payload>) -> int
    decreases payloads.len(),
{
    if payloads.len() == 0 {
        0
    } else {
        padding_total(payloads.drop_last()) + match payloads.last() {
            Payload::Padding { bytes, .. } => bytes as int,
            Payload::Media { .. } => 0,
        }
    }
}

/// When the first non-empty padding came.
pub open spec fn first_padding(payloads: Seq<Payload>) -> Option<(Instant, u64)>
    decreases payloads.len(),
{
    if payloads.len() == 0 {
        None
    } else if first_padding(payloads.drop_last()) is Some {
        first_padding(payloads.drop_last())
    } else {
        match payloads.last() {
            Payload::Padding { bytes, now, timestamp_ms } => if bytes > 0 {
                Some((now, timestamp_ms))
            } else {
                None
            },
            Payload::Media { .. } => None,
        }
    }
}

/// The bytes of media behind the first non-empty padding.
pub open spec fn media_behind_padding(payloads: Seq<Payload>) -> int
    decreases payloads.len(),
{
    if payloads.len() == 0 {
        0
    } else {
        media_behind_padding(payloads.drop_last()) + match payloads.last() {
            Payload::Padding { .. } => 0,
            Payload::Media { bytes } => if first_padding(payloads.drop_last()) is Some {
                bytes as int
            } else {
                0
            },
        }
    }
}

/// Padding that comes before START is counted apart and nothing else changes.
pub proof fn padding_before_start_is_apart(stage: ReceiverStage, payloads: Seq<Payload>)
    requires
        stage.phase == MeasurementPhase::WaitingForStart,
    ensures
        after_payloads(stage, payloads) == (ReceiverStage {
            pre_start_padding_bytes: rate::capped(
                stage.pre_start_padding_bytes + padding_total(payloads),
            ),
            ..stage
        }),
        padding_total(payloads) >= 0,
    decreases payloads.len(),
{
    if payloads.len() > 0 {
        padding_before_start_is_apart(stage, payloads.drop_last());
    }
}

/// After START, neither media nor empty padding begins the measurement: the first
/// non-empty padding does, and counts. From there on padding and media count, each
/// for itself.
pub proof fn measurement_begins_with_padding(stage: ReceiverStage, payloads: Seq<Payload>)
    requires
        stage.wf(),
        stage.phase == MeasurementPhase::Armed,
    ensures
        after_payloads(stage, payloads) == (ReceiverStage {
            phase: if first_padding(payloads) is Some {
                MeasurementPhase::Measuring
            } else {
                MeasurementPhase::Armed
            },
            measurement_start_at: match first_padding(payloads) {
                Some(first) => Some(first.0),
                None => None,
            },
            measurement_start_timestamp_ms: match first_padding(payloads) {
                Some(first) => Some(first.1),
                None => None,
            },
            received_padding_bytes: rate::capped(padding_total(payloads)),
            received_media_bytes: rate::capped(media_behind_padding(payloads)),
            ..stage
        }),
        first_padding(payloads) is Some <==> padding_total(payloads) > 0,
        padding_total(payloads) >= 0,
        media_behind_padding(payloads) >= 0,
    decreases payloads.len(),
{
    if payloads.len() > 0 {
        measurement_begins_with_padding(stage, payloads.drop_last());
    }
}

/// Padding that comes after END is counted apart and nothing else changes.
pub proof fn padding_after_end_is_late(stage: ReceiverStage, payloads: Seq<Payload>)
    requires
        stage.phase == MeasurementPhase::Ended,
    ensures
        after_payloads(stage, payloads) == (ReceiverStage {
            late_padding_bytes: rate::capped(stage.late_padding_bytes + padding_total(payloads)),
            ..stage
        }),
        padding_total(payloads) >= 0,
    decreases payloads.len(),
{
    if payloads.len() > 0 {
        padding_after_end_is_late(stage, payloads.drop_last());
    }
}

/// What a whole stage counts: padding before START, then what came between the
/// first padding after START and END.
pub proof fn whole_stage_counts(
    fresh: ReceiverStage,
    before_start: Seq<Payload>,
    started: Instant,
    started_ms: u64,
    measured: Seq<Payload>,
    end: ProbeEnd,
    ended: Instant,
    ended_ms: u64,
)
    requires
        fresh.wf(),
        fresh.phase == MeasurementPhase::WaitingForStart,
        fresh.pre_start_padding_bytes == 0,
    ensures
        ({
            let armed = after_payloads(fresh, before_start).armed(started, started_ms);
            let last = after_payloads(armed, measured);
            &&& last.concluded(end, ended, ended_ms) matches Ok(result)
            &&& result.pre_start_padding_bytes == rate::capped(padding_total(before_start))
            &&& result.received_padding_bytes == rate::capped(padding_total(measured))
            &&& result.received_media_bytes == rate::capped(media_behind_padding(measured))
            &&& result.late_padding_bytes == 0
            &&& result.probe_start_received_at == started
            &&& result.probe_start_received_timestamp_ms == started_ms
            &&& match first_padding(measured) {
                Some((first, first_ms)) => {
                    &&& result.first_post_start_padding_at == Some(first)
                    &&& result.first_post_start_padding_timestamp_ms == Some(first_ms)
                    &&& result.measurement_duration_ms == clock::millis_of_nanos(
                        clock::nanos_between(ended, first) as int,
                    )
                    &&& result.arming_delay_ms == Some(
                        clock::millis_of_nanos(clock::nanos_between(first, started) as int),
                    )
                },
                None => {
                    &&& result.first_post_start_padding_at is None
                    &&& result.first_post_start_padding_timestamp_ms is None
                    &&& result.measurement_duration_ms == 0
                    &&& result.arming_delay_ms is None
                },
            }
            &&& result.probe_end_received_at == ended
            &&& result.probe_end_received_timestamp_ms == ended_ms
            &&& first_padding(measured) is None ==> !result.result_valid
                && !result.partial_measurement
        }),
{
    padding_before_start_is_apart(fresh, before_start);
    let armed = after_payloads(fresh, before_start).armed(started, started_ms);
    measurement_begins_with_padding(armed, measured);
}

/// A stage passes only with a valid result, a result is valid only where the sender
/// completed and something was measured, and an aborted stage is partial at best.
pub proof fn only_completed_stages_pass(
    stage: ReceiverStage,
    end: ProbeEnd,
    now: Instant,
    timestamp_ms: u64,
)
    requires
        stage.concluded(end, now, timestamp_ms) is Ok,
    ensures
        ({
            let result = stage.concluded(end, now, timestamp_ms)->Ok_0;
            &&& result.stage_passed <==> result.result_valid && rate::reaches(
                result.receiver_goodput_bps,
                result.stage_target_bps,
                result.pass_percent,
            )
            &&& result.result_valid <==> result.status == StageStatus::Completed
            &&& result.result_valid ==> end.status == ProbeEndStatus::Completed
            &&& end.status != ProbeEndStatus::Completed ==> !result.result_valid
                && !result.stage_passed
            &&& !(result.result_valid && result.partial_measurement)
            &&& result.result_valid || result.partial_measurement <==> stage.phase
                == MeasurementPhase::Measuring && result.measurement_duration_ms > 0
        }),
{
}

/// END has a result if and only if START came before it.
pub proof fn end_needs_start(
    stage: ReceiverStage,
    end: ProbeEnd,
    now: Instant,
    timestamp_ms: u64,
)
    requires
        stage.wf(),
    ensures
        stage.concluded(end, now, timestamp_ms) is Ok <==> stage.probe_start_received_at is Some,
        stage.concluded(end, now, timestamp_ms) is Err ==> stage.concluded(end, now, timestamp_ms)
            == Err::<StageResult, ProbeError>(ProbeError::Protocol("END received before START")),
{
}

/// START and END are each taken once: a second one is refused as a duplicate.
pub proof fn start_and_end_are_taken_once(
    stage: ReceiverStage,
    start: ProbeStart,
    end: ProbeEnd,
    now: Instant,
    timestamp_ms: u64,
)
    ensures
        start_refusal(Some(stage.armed(now, timestamp_ms)), start) is Some,
        start_refusal(Some(stage.ended(end.status, now, timestamp_ms)), start) is Some,
        end_refusal(Some(stage.ended(end.status, now, timestamp_ms)), end) is Some,
        start_refusal(Some(stage), start) is None ==> start_refusal(
            Some(stage.armed(now, timestamp_ms)),
            start,
        ) == Some(ProbeError::Protocol("duplicate or out-of-order START")),
        end_refusal(Some(stage), end) is None ==> end_refusal(
            Some(stage.ended(end.status, now, timestamp_ms)),
            end,
        ) == Some(ProbeError::Protocol("duplicate END")),
{
}

proof fn payloads_leave_the_stream(stage: ReceiverStage, payloads: Seq<Payload>)
    ensures
        ({
            let after = after_payloads(stage, payloads);
            &&& after.padding_stream_open == stage.padding_stream_open
            &&& after.padding_stream_finished == stage.padding_stream_finished
            &&& after.padding_stream_reset == stage.padding_stream_reset
            &&& after.reset_error_code == stage.reset_error_code
        }),
    decreases payloads.len(),
{
    if payloads.len() > 0 {
        payloads_leave_the_stream(stage, payloads.drop_last());
    }
}

/// The code that came with a reset is kept, whatever payloads follow: a result
/// carries it where the reset came before END, and where the result is brought up
/// to date after the reset. The latter then carries all late padding too.
pub proof fn reset_code_is_kept(
    stage: ReceiverStage,
    error_code: Option<u32>,
    payloads: Seq<Payload>,
    end: ProbeEnd,
    now: Instant,
    timestamp_ms: u64,
    result: StageResult,
)
    ensures
        ({
            let after = after_payloads(stage.reset(error_code), payloads);
            let refreshed = refreshed_result(after, result);
            &&& after.concluded(end, now, timestamp_ms) matches Ok(concluded) ==> {
                &&& concluded.padding_stream_reset
                &&& concluded.reset_error_code == error_code
            }
            &&& refreshed.padding_stream_reset
            &&& refreshed.reset_error_code == error_code
            &&& stage.phase == MeasurementPhase::Ended ==> refreshed.late_padding_bytes
                == rate::capped(stage.late_padding_bytes + padding_total(payloads))
            &&& refreshed.stage_passed == result.stage_passed
            &&& refreshed.result_valid == result.result_valid
        }),
{
    payloads_leave_the_stream(stage.reset(error_code), payloads);
    if stage.phase == MeasurementPhase::Ended {
        padding_after_end_is_late(stage.reset(error_code), payloads);
    }
}

/// The next stage can begin once this one has ended and its padding stream is
/// done, in either order, and not before.
pub proof fn next_stage_waits(
    stage: ReceiverStage,
    status: ProbeEndStatus,
    now: Instant,
    timestamp_ms: u64,
    error_code: Option<u32>,
)
    requires
        stage.phase != MeasurementPhase::Ended,
    ensures
        !may_begin(Some(stage)),
        !may_begin(Some(stage.finished())),
        !may_begin(Some(stage.reset(error_code))),
        may_begin(Some(stage.ended(status, now, timestamp_ms))) <==> stage.cleaned_up(),
        may_begin(Some(stage.ended(status, now, timestamp_ms).finished())),
        may_begin(Some(stage.finished().ended(status, now, timestamp_ms))),
        may_begin(Some(stage.ended(status, now, timestamp_ms).reset(error_code))),
        may_begin(Some(stage.reset(error_code).ended(status, now, timestamp_ms))),
{
}

/// Something other than START and END that happens to a stage.
pub ghost enum StageEvent {
    Payload(Payload),
    StreamOpened,
    StreamFinished,
    StreamReset { error_code: Option<u32> },
}

/// The stage after such events in their order.
pub open spec fn after_stage_events(stage: ReceiverStage, events: Seq<StageEvent>) -> ReceiverStage
    decreases events.len(),
{
    if events.len() == 0 {
        stage
    } else {
        let before = after_stage_events(stage, events.drop_last());
        match events.last() {
            StageEvent::Payload(payload) => after_payloads(before, seq![payload]),
            StageEvent::StreamOpened => before.opened(),
            StageEvent::StreamFinished => before.finished(),
            StageEvent::StreamReset { error_code } => before.reset(error_code),
        }
    }
}

/// The payloads among such events.
pub open spec fn payloads_of(events: Seq<StageEvent>) -> Seq<Payload>
    decreases events.len(),
{
    if events.len() == 0 {
        Seq::empty()
    } else {
        match events.last() {
            StageEvent::Payload(payload) => payloads_of(events.drop_last()).push(payload),
            _ => payloads_of(events.drop_last()),
        }
    }
}

/// Whether two records are of one stage: asked for by the same request, with the
/// same target and the same percentage to pass.
pub open spec fn same_stage(a: ReceiverStage, b: ReceiverStage) -> bool {
    &&& a.request_id == b.request_id
    &&& a.stage_index == b.stage_index
    &&& a.stage_ratio_percent == b.stage_ratio_percent
    &&& a.stage_target_bps == b.stage_target_bps
    &&& a.pass_percent == b.pass_percent
}

/// Whatever happens to a stage, it stays the one that was asked for. What its padding
/// stream goes through makes no difference to what is counted, nor to its phase.
pub proof fn stage_stays_the_same(
    stage: ReceiverStage,
    events: Seq<StageEvent>,
    status: ProbeEndStatus,
    now: Instant,
    timestamp_ms: u64,
)
    ensures
        same_stage(after_stage_events(stage, events), stage),
        same_stage(stage.armed(now, timestamp_ms), stage),
        same_stage(stage.ended(status, now, timestamp_ms), stage),
        ({
            let after = after_stage_events(stage, events);
            let counted = after_payloads(stage, payloads_of(events));
            &&& after.phase == counted.phase
            &&& after.measurement_start_at == counted.measurement_start_at
            &&& after.measurement_start_timestamp_ms == counted.measurement_start_timestamp_ms
            &&& after.pre_start_padding_bytes == counted.pre_start_padding_bytes
            &&& after.received_padding_bytes == counted.received_padding_bytes
            &&& after.received_media_bytes == counted.received_media_bytes
            &&& after.late_padding_bytes == counted.late_padding_bytes
        }),
    decreases events.len(),
{
    if events.len() > 0 {
        let shorter = events.drop_last();
        stage_stays_the_same(stage, shorter, status, now, timestamp_ms);
        let before = after_stage_events(stage, shorter);
        if let StageEvent::Payload(payload) = events.last() {
            let one = seq![payload];
            assert(one.drop_last() =~= Seq::<Payload>::empty());
            reveal_with_fuel(after_payloads, 2);
            assert(payloads_of(events).drop_last() =~= payloads_of(shorter));
        }
    }
}

/// A stage begins with nothing heard and nothing counted, for the request and the
/// percentage that it is begun with.
pub proof fn stages_begin_empty(
    request_id: u64,
    stage_index: u64,
    stage_ratio_percent: u64,
    stage_target_bps: u64,
    pass_percent: u64,
)
    ensures
        ({
            let stage = ReceiverStage::fresh(
                request_id,
                stage_index,
                stage_ratio_percent,
                stage_target_bps,
                pass_percent,
            );
            &&& stage.wf()
            &&& stage.request_id == request_id
            &&& stage.stage_index == stage_index
            &&& stage.stage_ratio_percent == stage_ratio_percent
            &&& stage.stage_target_bps == stage_target_bps
            &&& stage.pass_percent == pass_percent
            &&& stage.phase == MeasurementPhase::WaitingForStart
            &&& stage.pre_start_padding_bytes == 0
            &&& stage.received_media_bytes == 0
            &&& stage.received_padding_bytes == 0
            &&& stage.late_padding_bytes == 0
            &&& !stage.padding_stream_open
            &&& !stage.padding_stream_finished
            &&& !stage.padding_stream_reset
            &&& stage.reset_error_code is None
        }),
{
}

/// A stage may begin where there was none, and behind one that has ended and whose
/// padding stream never opened, has finished or was reset.
pub proof fn stages_follow_each_other(previous: ReceiverStage)
    ensures
        may_begin(None),
        may_begin(Some(previous)) <==> previous.phase == MeasurementPhase::Ended && (
        !previous.padding_stream_open || previous.padding_stream_finished
            || previous.padding_stream_reset),
{
}

/// START is taken by the stage that it names and whose target it repeats, while that
/// waits for it. Otherwise the first thing that is wrong is the error. A refused
/// START changes nothing; one that is taken sets its times and arms the stage.
pub proof fn start_arms_its_stage(
    stage: ReceiverStage,
    start: ProbeStart,
    now: Instant,
    timestamp_ms: u64,
    after: Option<ReceiverStage>,
    result: ProbeResult<()>,
)
    requires
        on_start(Some(stage), start, now, timestamp_ms, after, result),
    ensures
        result == if start.request_id != stage.request_id {
            Err(ProbeError::Protocol("request ID mismatch"))
        } else if start.stage_index != stage.stage_index {
            Err(ProbeError::Protocol("stage index mismatch"))
        } else if start.stage_target_bps != stage.stage_target_bps {
            Err(ProbeError::Protocol("START target does not match request"))
        } else if stage.phase != MeasurementPhase::WaitingForStart {
            Err(ProbeError::Protocol("duplicate or out-of-order START"))
        } else {
            Ok(())
        },
        result is Err ==> after == Some(stage),
        result is Ok ==> after == Some(
            ReceiverStage {
                phase: MeasurementPhase::Armed,
                probe_start_received_at: Some(now),
                probe_start_received_timestamp_ms: Some(timestamp_ms),
                ..stage
            },
        ),
{
}

/// A non-empty padding payload counts by the phase in which it comes: apart before
/// START, towards the measurement from START to END, and late after END. The one
/// that comes first after START begins the measurement.
pub proof fn padding_counts_by_phase(
    stage: ReceiverStage,
    bytes: usize,
    now: Instant,
    timestamp_ms: u64,
    after: Option<ReceiverStage>,
    result: ProbeResult<()>,
)
    requires
        on_padding(Some(stage), bytes, now, timestamp_ms, after, result),
    ensures
        result == Ok::<(), ProbeError>(()),
        bytes == 0 ==> after == Some(stage),
        bytes > 0 ==> match stage.phase {
            MeasurementPhase::WaitingForStart => {
                &&& after == Some(
                    ReceiverStage {
                        pre_start_padding_bytes: after->0.pre_start_padding_bytes,
                        ..stage
                    },
                )
                &&& adds_up(
                    after->0.pre_start_padding_bytes,
                    stage.pre_start_padding_bytes,
                    bytes as int,
                )
            },
            MeasurementPhase::Armed => {
                &&& after == Some(
                    ReceiverStage {
                        phase: MeasurementPhase::Measuring,
                        measurement_start_at: Some(now),
                        measurement_start_timestamp_ms: Some(timestamp_ms),
                        received_padding_bytes: after->0.received_padding_bytes,
                        ..stage
                    },
                )
                &&& adds_up(
                    after->0.received_padding_bytes,
                    stage.received_padding_bytes,
                    bytes as int,
                )
            },
            MeasurementPhase::Measuring => {
                &&& after == Some(
                    ReceiverStage {
                        received_padding_bytes: after->0.received_padding_bytes,
                        ..stage
                    },
                )
                &&& adds_up(
                    after->0.received_padding_bytes,
                    stage.received_padding_bytes,
                    bytes as int,
                )
            },
            MeasurementPhase::Ended => {
                &&& after == Some(
                    ReceiverStage { late_padding_bytes: after->0.late_padding_bytes, ..stage },
                )
                &&& adds_up(after->0.late_padding_bytes, stage.late_padding_bytes, bytes as int)
            },
        },
{
}

/// Whether a count grew by so much, or stands at the limit of its type.
pub open spec fn adds_up(after: u64, before: u64, more: int) -> bool {
    after == before + more || after == u64::MAX && before + more > u64::MAX
}

/// A media payload counts while a measurement runs, and changes nothing else.
pub proof fn media_counts_while_measuring(stage: ReceiverStage, bytes: usize)
    ensures
        ({
            let after = stage.with_media(bytes);
            &&& after == (ReceiverStage {
                received_media_bytes: after.received_media_bytes,
                ..stage
            })
            &&& stage.phase == MeasurementPhase::Measuring ==> adds_up(
                after.received_media_bytes,
                stage.received_media_bytes,
                bytes as int,
            )
            &&& stage.phase != MeasurementPhase::Measuring ==> after.received_media_bytes
                == stage.received_media_bytes
        }),
{
}

/// What a padding stream goes through changes what is known of the stream alone:
/// opening it forgets how the one before it ended.
pub proof fn streams_change_the_stream_alone(stage: ReceiverStage, error_code: Option<u32>)
    ensures
        stage.opened() == (ReceiverStage {
            padding_stream_open: true,
            padding_stream_finished: false,
            padding_stream_reset: false,
            reset_error_code: None,
            ..stage
        }),
        stage.finished() == (ReceiverStage { padding_stream_finished: true, ..stage }),
        stage.reset(error_code) == (ReceiverStage {
            padding_stream_reset: true,
            reset_error_code: error_code,
            ..stage
        }),
        stage.cleaned_up() <==> !stage.padding_stream_open || stage.padding_stream_finished
            || stage.padding_stream_reset,
        stage.opened().cleaned_up() == false,
{
}

/// A padding stream ends once: where it has finished or was reset, another end is
/// refused.
pub proof fn streams_end_once(stage: ReceiverStage, no_stage: &'static str)
    ensures
        cleanup_refusal(None, no_stage) == Some(ProbeError::State(no_stage)),
        cleanup_refusal(Some(stage), no_stage) == if stage.padding_stream_finished
            || stage.padding_stream_reset {
            Some(ProbeError::Protocol("duplicate Padding cleanup"))
        } else {
            None
        },
{
}

/// END is taken by the stage that it names, unless that has ended. A refused END
/// changes nothing; one that is taken ends the stage at its time with its status,
/// whether or not there is a result.
pub proof fn end_ends_its_stage(
    stage: ReceiverStage,
    end: ProbeEnd,
    now: Instant,
    timestamp_ms: u64,
    after: Option<ReceiverStage>,
    result: ProbeResult<StageResult>,
)
    requires
        on_end(Some(stage), end, now, timestamp_ms, after, result),
    ensures
        end.request_id != stage.request_id ==> result == Err::<StageResult, ProbeError>(
            ProbeError::Protocol("request ID mismatch"),
        ),
        end.request_id == stage.request_id && end.stage_index != stage.stage_index ==> result
            == Err::<StageResult, ProbeError>(ProbeError::Protocol("stage index mismatch")),
        end.request_id == stage.request_id && end.stage_index == stage.stage_index && stage.phase
            == MeasurementPhase::Ended ==> result == Err::<StageResult, ProbeError>(
            ProbeError::Protocol("duplicate END"),
        ),
        after == if end.request_id == stage.request_id && end.stage_index == stage.stage_index
            && stage.phase != MeasurementPhase::Ended {
            Some(
                ReceiverStage {
                    phase: MeasurementPhase::Ended,
                    probe_end_received_at: Some(now),
                    probe_end_received_timestamp_ms: Some(timestamp_ms),
                    end_status: Some(end.status),
                    ..stage
                },
            )
        } else {
            Some(stage)
        },
        end.request_id == stage.request_id && end.stage_index == stage.stage_index && stage.phase
            != MeasurementPhase::Ended && stage.probe_start_received_at is Some
            && stage.probe_start_received_timestamp_ms is Some ==> result is Ok,
        end.request_id == stage.request_id && end.stage_index == stage.stage_index && stage.phase
            != MeasurementPhase::Ended && stage.probe_start_received_at is None ==> result
            == Err::<StageResult, ProbeError>(ProbeError::Protocol("END received before START")),
{
}

/// Without a stage START, END and padding are refused, each with an error of its own,
/// but for padding that is empty.
pub proof fn nothing_is_taken_without_a_stage(
    start: ProbeStart,
    end: ProbeEnd,
    bytes: usize,
    now: Instant,
    timestamp_ms: u64,
    after: Option<ReceiverStage>,
    result: ProbeResult<()>,
)
    requires
        on_padding(None, bytes, now, timestamp_ms, after, result),
    ensures
        start_refusal(None, start) == Some(ProbeError::State("START without active stage")),
        end_refusal(None, end) == Some(ProbeError::State("END without active stage")),
        after is None,
        result == if bytes == 0 {
            Ok(())
        } else {
            Err(ProbeError::State("Padding payload without active stage"))
        },
{
}

/// A goodput is the bits of its bytes over the measured time: media and padding each
/// for itself, and the receiver's for both together. A stage is valid where it
/// measured and its sender completed, and passes where it is valid and a hundred
/// times the receiver's goodput reaches the percentage of the target.
pub proof fn outcome_is_bytes_over_time(
    measuring: bool,
    elapsed_ms: u64,
    received_media_bytes: u64,
    received_padding_bytes: u64,
    stage_target_bps: u64,
    pass_percent: u64,
    end_status: ProbeEndStatus,
)
    ensures
        ({
            let outcome = StageOutcome::of(
                measuring,
                elapsed_ms,
                received_media_bytes,
                received_padding_bytes,
                stage_target_bps,
                pass_percent,
                end_status,
            );
            let both = received_media_bytes + received_padding_bytes;
            let total = if both > u64::MAX {
                u64::MAX as int
            } else {
                both
            };
            &&& is_bits_over_time(
                outcome.media_goodput_bps as int,
                received_media_bytes as int,
                elapsed_ms as int,
            )
            &&& is_bits_over_time(
                outcome.padding_goodput_bps as int,
                received_padding_bytes as int,
                elapsed_ms as int,
            )
            &&& is_bits_over_time(outcome.receiver_goodput_bps as int, total, elapsed_ms as int)
            &&& outcome.result_valid <==> measuring && elapsed_ms > 0 && end_status
                == ProbeEndStatus::Completed
            &&& outcome.partial_measurement <==> measuring && elapsed_ms > 0 && end_status
                != ProbeEndStatus::Completed
            &&& outcome.stage_passed <==> measuring && elapsed_ms > 0 && end_status
                == ProbeEndStatus::Completed && outcome.receiver_goodput_bps * 100
                >= stage_target_bps * pass_percent
            &&& end_status == ProbeEndStatus::Completed && measuring && elapsed_ms > 0
                ==> outcome.status == StageStatus::Completed
            &&& end_status == ProbeEndStatus::Completed && !(measuring && elapsed_ms > 0)
                ==> outcome.status == StageStatus::NoPostStartPadding
            &&& end_status == ProbeEndStatus::AbortedBackpressure ==> outcome.status
                == StageStatus::AbortedBackpressure
            &&& end_status == ProbeEndStatus::ProtocolError ==> outcome.status
                == StageStatus::ProtocolError
        }),
{
    rate::bitrate_is_bits_over_time(received_media_bytes, elapsed_ms);
    rate::bitrate_is_bits_over_time(received_padding_bytes, elapsed_ms);
    rate::bitrate_is_bits_over_time(
        rate::capped(received_media_bytes + received_padding_bytes),
        elapsed_ms,
    );
}

/// Whether a number of bits a second is the largest that so many bytes make in so
/// many milliseconds, or all that its type holds of it. In no time it is zero.
pub open spec fn is_bits_over_time(bps: int, bytes: int, elapsed_ms: int) -> bool {
    if elapsed_ms == 0 {
        bps == 0
    } else {
        &&& bps * elapsed_ms <= bytes * 8 * 1000
        &&& bytes * 8 * 1000 < (bps + 1) * elapsed_ms || bps == 0xffff_ffff_ffff_ffff
    }
}

/// What the result of END says of rates: each is the bits of the result's own bytes
/// over its own duration, which lasts from the first padding after START to END.
pub proof fn result_is_bytes_over_time(
    stage: ReceiverStage,
    end: ProbeEnd,
    now: Instant,
    timestamp_ms: u64,
)
    requires
        stage.concluded(end, now, timestamp_ms) is Ok,
    ensures
        ({
            let result = stage.concluded(end, now, timestamp_ms)->Ok_0;
            let time = result.measurement_duration_ms as int;
            let both = result.received_media_bytes + result.received_padding_bytes;
            let sent = end.media_accepted_payload_bytes + end.accepted_padding_bytes;
            &&& time == match stage.measurement_start_at {
                Some(first) => clock::millis_of_nanos(clock::nanos_between(now, first) as int) as int,
                None => 0,
            }
            &&& is_bits_over_time(
                result.media_goodput_bps as int,
                result.received_media_bytes as int,
                time,
            )
            &&& is_bits_over_time(
                result.padding_goodput_bps as int,
                result.received_padding_bytes as int,
                time,
            )
            &&& is_bits_over_time(
                result.receiver_goodput_bps as int,
                if both > u64::MAX {
                    u64::MAX as int
                } else {
                    both
                },
                time,
            )
            &&& result.sender_total_accepted_payload_bytes == if sent > u64::MAX {
                u64::MAX as int
            } else {
                sent
            }
            &&& is_bits_over_time(
                result.sender_app_bitrate_bps as int,
                result.sender_total_accepted_payload_bytes as int,
                end.stage_active_duration_ms as int,
            )
            &&& result.stage_passed <==> stage.phase == MeasurementPhase::Measuring && time > 0
                && end.status == ProbeEndStatus::Completed && result.receiver_goodput_bps * 100
                >= stage.stage_target_bps * stage.pass_percent
            &&& result.result_valid <==> stage.phase == MeasurementPhase::Measuring && time > 0
                && end.status == ProbeEndStatus::Completed
            &&& result.partial_measurement <==> stage.phase == MeasurementPhase::Measuring && time
                > 0 && end.status != ProbeEndStatus::Completed
            &&& result.status == match end.status {
                ProbeEndStatus::Completed => if result.result_valid {
                    StageStatus::Completed
                } else {
                    StageStatus::NoPostStartPadding
                },
                ProbeEndStatus::AbortedBackpressure => StageStatus::AbortedBackpressure,
                ProbeEndStatus::ProtocolError => StageStatus::ProtocolError,
            }
        }),
{
    outcome_is_bytes_over_time(
        stage.phase == MeasurementPhase::Measuring,
        stage.measured_ms(now),
        stage.received_media_bytes,
        stage.received_padding_bytes,
        stage.stage_target_bps,
        stage.pass_percent,
        end.status,
    );
    rate::bitrate_is_bits_over_time(
        rate::capped(end.media_accepted_payload_bytes + end.accepted_padding_bytes),
        end.stage_active_duration_ms,
    );
}

/// The result of END repeats what was asked for, what the receiver counted and
/// timed, and what the sender reported.
pub proof fn result_repeats_what_is_known(
    stage: ReceiverStage,
    end: ProbeEnd,
    now: Instant,
    timestamp_ms: u64,
)
    requires
        stage.concluded(end, now, timestamp_ms) is Ok,
    ensures
        ({
            let result = stage.concluded(end, now, timestamp_ms)->Ok_0;
            &&& result.request_id == stage.request_id
            &&& result.stage_index == stage.stage_index
            &&& result.stage_ratio_percent == stage.stage_ratio_percent
            &&& result.stage_target_bps == stage.stage_target_bps
            &&& result.pass_percent == stage.pass_percent
            &&& Some(result.probe_start_received_at) == stage.probe_start_received_at
            &&& Some(result.probe_start_received_timestamp_ms)
                == stage.probe_start_received_timestamp_ms
            &&& result.first_post_start_padding_at == stage.measurement_start_at
            &&& result.first_post_start_padding_timestamp_ms
                == stage.measurement_start_timestamp_ms
            &&& result.probe_end_received_at == now
            &&& result.probe_end_received_timestamp_ms == timestamp_ms
            &&& match stage.measurement_start_at {
                Some(first) => result.arming_delay_ms == Some(
                    clock::millis_of_nanos(
                        clock::nanos_between(first, result.probe_start_received_at) as int,
                    ),
                ),
                None => result.arming_delay_ms is None,
            }
            &&& result.pre_start_padding_bytes == stage.pre_start_padding_bytes
            &&& result.received_media_bytes == stage.received_media_bytes
            &&& result.received_padding_bytes == stage.received_padding_bytes
            &&& result.late_padding_bytes == stage.late_padding_bytes
            &&& result.padding_stream_finished == stage.padding_stream_finished
            &&& result.padding_stream_reset == stage.padding_stream_reset
            &&& result.reset_error_code == stage.reset_error_code
            &&& result.sender_attempted_padding_bytes == end.attempted_padding_bytes
            &&& result.sender_accepted_padding_bytes == end.accepted_padding_bytes
            &&& result.sender_media_accepted_payload_bytes == end.media_accepted_payload_bytes
        }),
{
}

/// Only a result of the same stage is brought up to date, and only in what is said
/// of late padding and of the padding stream.
pub proof fn refreshing_keeps_the_rest(stage: ReceiverStage, result: StageResult)
    ensures
        refresh_refusal(None, result) == Some(ProbeError::State("no stage result to refresh")),
        refresh_refusal(Some(stage), result) == if stage.request_id != result.request_id {
            Some(ProbeError::Protocol("request ID mismatch"))
        } else if stage.stage_index != result.stage_index {
            Some(ProbeError::Protocol("stage index mismatch"))
        } else {
            None
        },
        refreshed_result(stage, result) == (StageResult {
            late_padding_bytes: stage.late_padding_bytes,
            padding_stream_finished: stage.padding_stream_finished,
            padding_stream_reset: stage.padding_stream_reset,
            reset_error_code: stage.reset_error_code,
            ..result
        }),
{
}

} // verus!
