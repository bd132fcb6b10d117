//! The subscriber's side: it asks for logical probes and measures their stages.
//!
//! A logical probe asks for its stages one after the other on a control stream of
//! its own, and stops at the first one that does not pass. [`ProbeClient`] decides
//! what comes next. Whoever drives it carries out [`ProbeClient::action`] and
//! reports what happened to [`ProbeClient::step`], together with the context that
//! the connection's padding and media are counted in.

use std::time::Instant;
use vstd::prelude::*;

use crate::acceptor;
use crate::protocol::{
    ProbeEnd, ProbeError, ProbeMessage, ProbeRequest, ProbeResult, ProbeStart, ProbeStartAck,
    DEFAULT_STAGE_PASS_PERCENT, DEFAULT_STAGE_RATIOS_PERCENT, PROBE_CONTROL_PRIORITY,
    PROBE_PROTOCOL_VERSION, PROBE_STREAM_TYPE,
};
use crate::rate;
use crate::rate::stage_target_bps;
use crate::receiver;
use crate::receiver::{ReceiverProbeContext, ReceiverStage, StageResult, StageStatus};
use crate::sender::{SenderAction, SenderPhase, SenderStage};

verus! {

/// What a subscriber is asked to probe.
#[derive(Debug, Clone)]
pub struct ProbeSettings {
    pub padding_mode: String,
    /// How many logical probes to run.
    pub count: u64,
    /// How long to pause between two logical probes.
    pub interval_ms: u64,
    pub target_bitrate_bps: u64,
    /// Active duration of every stage.
    pub duration_ms: u64,
    pub epoch_ms: u64,
}

/// How a logical probe stands.
#[derive(Debug, Clone, Copy, PartialEq, Eq, Structural)]
pub enum LogicalStatus {
    Completed,
    AbortedBackpressure,
    ValidationFailed,
    ValidationFailedAt75,
    ValidationFailedAt100,
}

impl LogicalStatus {
    /// The word for the status in logs.
    pub open spec fn word(self) -> &'static str {
        match self {
            LogicalStatus::Completed => "COMPLETED",
            LogicalStatus::AbortedBackpressure => "ABORTED_BACKPRESSURE",
            LogicalStatus::ValidationFailed => "VALIDATION_FAILED",
            LogicalStatus::ValidationFailedAt75 => "VALIDATION_FAILED_AT_75",
            LogicalStatus::ValidationFailedAt100 => "VALIDATION_FAILED_AT_100",
        }
    }

    /// The status that a stage which did not pass leaves behind.
    pub open spec fn after_failure(status: StageStatus, stage_index: u64) -> LogicalStatus {
        if status == StageStatus::AbortedBackpressure {
            LogicalStatus::AbortedBackpressure
        } else if stage_index == 0 {
            LogicalStatus::ValidationFailed
        } else if stage_index == 1 {
            LogicalStatus::ValidationFailedAt75
        } else {
            LogicalStatus::ValidationFailedAt100
        }
    }

    /// The word for the status in logs.
    pub fn label(self) -> (label: &'static str)
        ensures
            label == self.word(),
    {
        match self {
            LogicalStatus::Completed => "COMPLETED",
            LogicalStatus::AbortedBackpressure => "ABORTED_BACKPRESSURE",
            LogicalStatus::ValidationFailed => "VALIDATION_FAILED",
            LogicalStatus::ValidationFailedAt75 => "VALIDATION_FAILED_AT_75",
            LogicalStatus::ValidationFailedAt100 => "VALIDATION_FAILED_AT_100",
        }
    }

    /// The status that a stage which did not pass leaves behind.
    pub fn of_failure(status: StageStatus, stage_index: u64) -> (logical: LogicalStatus)
        ensures
            logical == LogicalStatus::after_failure(status, stage_index),
    {
        match status {
            StageStatus::AbortedBackpressure => LogicalStatus::AbortedBackpressure,
            _ => if stage_index == 0 {
                LogicalStatus::ValidationFailed
            } else if stage_index == 1 {
                LogicalStatus::ValidationFailedAt75
            } else {
                LogicalStatus::ValidationFailedAt100
            },
        }
    }
}

/// Why a client stops.
#[derive(Debug, Clone, Copy, PartialEq, Eq)]
pub enum ClientError {
    /// The settings or the other side are at fault.
    Refused(&'static str),
    /// The probe is.
    Probe(ProbeError),
}

/// How far a client is.
#[derive(Debug, Clone, Copy)]
pub enum ClientPhase {
    /// The next logical probe is to be given its id.
    Identifying,
    /// Its control stream is to be opened.
    Opening,
    /// A stage is to be asked for.
    Requesting,
    /// START is to come.
    AwaitingStart,
    /// START is to be acknowledged.
    Acknowledging,
    /// END is to come.
    AwaitingEnd,
    /// The stage's padding stream is to end.
    CleaningUp { result: StageResult },
    /// The stage is to be logged.
    Reporting { result: StageResult },
    /// The control stream is to be finished.
    Finishing,
    /// The time between two logical probes is to pass.
    Pausing,
    /// All logical probes are over.
    Done,
    /// The client stopped.
    Failed(ClientError),
}

/// What a client has to have done.
#[derive(Debug, Clone, Copy)]
pub enum ClientAction {
    /// Read the system clock.
    ReadSystemClock,
    /// Open a bidirectional stream of this priority and write the two numbers to it.
    OpenControl { priority: i32, stream_type: u64, version: u64 },
    /// Send a control message.
    Send(ProbeMessage),
    /// Read a control message.
    ReadControl,
    /// Wait until the stage's padding stream is done.
    WaitForCleanup,
    /// Log a stage.
    Log {
        logical_probe_index: u64,
        result: StageResult,
        highest_validated_target_bps: u64,
        logical_status: LogicalStatus,
    },
    /// Finish the control stream: the logical probe is over.
    FinishControl {
        logical_probe_index: u64,
        highest_validated_target_bps: u64,
        logical_status: LogicalStatus,
    },
    /// Let so much time pass.
    Pause { interval_ms: u64 },
    /// Stop without an error.
    Stop,
    /// Stop with this error.
    Fail(ClientError),
}

/// What happened on the subscriber's side.
#[derive(Debug, Clone, Copy)]
pub enum ClientEvent {
    /// What the system clock reads.
    SystemClock { timestamp_ms: u64 },
    /// The control stream is open.
    ControlOpened,
    /// The control message is sent.
    Sent,
    /// A control message came, at `now` with the system clock at `timestamp_ms`.
    Message { message: ProbeMessage, now: Instant, timestamp_ms: u64 },
    /// The stage's padding stream is done.
    CleanedUp,
    /// The stage is logged.
    Logged,
    /// The control stream is finished.
    ControlFinished,
    /// The pause is over.
    PauseOver,
}

/// The subscriber's side of a connection.
#[derive(Debug, Clone, Copy)]
pub struct ProbeClient {
    pub count: u64,
    pub interval_ms: u64,
    pub target_bitrate_bps: u64,
    pub duration_ms: u64,
    pub epoch_ms: u64,
    /// Which logical probe is running, from zero.
    pub logical_index: u64,
    pub request_id: u64,
    /// Which stage of it is running, from zero.
    pub stage_index: u64,
    pub highest_validated_target_bps: u64,
    pub logical_status: LogicalStatus,
    pub phase: ClientPhase,
}

/// Why settings are refused.
pub open spec fn settings_refusal(settings: ProbeSettings) -> Option<&'static str> {
    if settings.padding_mode@ != "stream"@ {
        Some("--probe-padding-mode must be stream for staged Probe")
    } else if settings.duration_ms == 0 {
        Some("--probe-duration-ms must be greater than zero")
    } else if settings.epoch_ms == 0 {
        Some("--probe-epoch-ms must be greater than zero")
    } else {
        None
    }
}

/// Whether settings can be probed with.
pub fn check_settings(settings: &ProbeSettings) -> (result: Result<(), &'static str>)
    ensures
        result == match settings_refusal(*settings) {
            Some(reason) => Err(reason),
            None => Ok(()),
        },
{
    if settings.padding_mode != "stream".to_owned() {
        return Err("--probe-padding-mode must be stream for staged Probe");
    }
    if settings.duration_ms == 0 {
        return Err("--probe-duration-ms must be greater than zero");
    }
    if settings.epoch_ms == 0 {
        return Err("--probe-epoch-ms must be greater than zero");
    }
    Ok(())
}

impl ProbeClient {
    /// A client that has not begun.
    pub open spec fn fresh(settings: ProbeSettings) -> ProbeClient {
        ProbeClient {
            count: settings.count,
            interval_ms: settings.interval_ms,
            target_bitrate_bps: settings.target_bitrate_bps,
            duration_ms: settings.duration_ms,
            epoch_ms: settings.epoch_ms,
            logical_index: 0,
            request_id: 0,
            stage_index: 0,
            highest_validated_target_bps: 0,
            logical_status: LogicalStatus::Completed,
            phase: if settings.count == 0 {
                ClientPhase::Done
            } else {
                ClientPhase::Identifying
            },
        }
    }

    /// The ratio of a stage.
    pub open spec fn ratio(stage_index: u64) -> u64 {
        DEFAULT_STAGE_RATIOS_PERCENT@[stage_index as int]
    }

    /// The target of a stage.
    pub open spec fn stage_target(self, stage_index: u64) -> u64 {
        rate::capped((self.target_bitrate_bps * ProbeClient::ratio(stage_index)) / 100)
    }

    /// The target of the stage before this one, or zero for the first.
    pub open spec fn target_before(self) -> u64 {
        if self.stage_index == 0 {
            0
        } else {
            self.stage_target((self.stage_index - 1) as u64)
        }
    }

    /// The request for the running stage.
    pub open spec fn request(self) -> ProbeRequest {
        ProbeRequest {
            request_id: self.request_id,
            stage_index: self.stage_index,
            stage_ratio_percent: ProbeClient::ratio(self.stage_index),
            stage_target_bps: self.stage_target(self.stage_index),
            active_duration_ms: self.duration_ms,
            epoch_ms: self.epoch_ms,
        }
    }

    /// The acknowledgement of the running stage's START.
    pub open spec fn ack(self) -> ProbeStartAck {
        ProbeStartAck { request_id: self.request_id, stage_index: self.stage_index }
    }

    /// The receiver's record of the running stage, before anything is heard of it.
    pub open spec fn fresh_stage(self) -> ReceiverStage {
        ReceiverStage::fresh(
            self.request_id,
            self.stage_index,
            ProbeClient::ratio(self.stage_index),
            self.stage_target(self.stage_index),
            DEFAULT_STAGE_PASS_PERCENT,
        )
    }

    /// What holds of a client at all times: the highest validated target is that of
    /// the last stage that passed, and a logical probe stays completed just as long
    /// as its stages pass.
    pub open spec fn wf(self) -> bool {
        &&& self.duration_ms > 0
        &&& self.epoch_ms > 0
        &&& self.stage_index < 3
        &&& match self.phase {
            ClientPhase::Done => true,
            ClientPhase::Failed(_) => true,
            _ => self.logical_index < self.count,
        }
        &&& match self.phase {
            ClientPhase::Pausing => self.logical_index + 1 < self.count,
            ClientPhase::Opening => {
                &&& self.stage_index == 0
                &&& self.running_so_far()
            },
            ClientPhase::Requesting => self.running_so_far(),
            ClientPhase::AwaitingStart => self.running_so_far(),
            ClientPhase::Acknowledging => self.running_so_far(),
            ClientPhase::AwaitingEnd => self.running_so_far(),
            ClientPhase::CleaningUp { .. } => self.running_so_far(),
            ClientPhase::Reporting { result } => self.judged(result.stage_passed),
            ClientPhase::Finishing => {
                ||| self.judged(true) && self.stage_index == 2
                ||| self.judged(false)
            },
            _ => true,
        }
    }

    /// Whether every stage before this one has passed.
    pub open spec fn running_so_far(self) -> bool {
        &&& self.logical_status == LogicalStatus::Completed
        &&& self.highest_validated_target_bps == self.target_before()
    }

    /// What the logical probe comes to once this stage passed or did not.
    pub open spec fn judged(self, passed: bool) -> bool {
        if passed {
            &&& self.logical_status == LogicalStatus::Completed
            &&& self.highest_validated_target_bps == self.stage_target(self.stage_index)
        } else {
            &&& self.logical_status != LogicalStatus::Completed
            &&& self.highest_validated_target_bps == self.target_before()
        }
    }

    /// Whether the status says how this stage went.
    pub open spec fn tells(self, result: StageResult) -> bool {
        self.logical_status == if result.stage_passed {
            LogicalStatus::Completed
        } else {
            LogicalStatus::after_failure(result.status, self.stage_index)
        }
    }

    /// What has to be done next.
    pub open spec fn next_action(self) -> ClientAction {
        match self.phase {
            ClientPhase::Identifying => ClientAction::ReadSystemClock,
            ClientPhase::Opening => ClientAction::OpenControl {
                priority: PROBE_CONTROL_PRIORITY,
                stream_type: PROBE_STREAM_TYPE,
                version: PROBE_PROTOCOL_VERSION,
            },
            ClientPhase::Requesting => ClientAction::Send(ProbeMessage::Request(self.request())),
            ClientPhase::AwaitingStart => ClientAction::ReadControl,
            ClientPhase::Acknowledging => ClientAction::Send(ProbeMessage::StartAck(self.ack())),
            ClientPhase::AwaitingEnd => ClientAction::ReadControl,
            ClientPhase::CleaningUp { .. } => ClientAction::WaitForCleanup,
            ClientPhase::Reporting { result } => ClientAction::Log {
                logical_probe_index: (self.logical_index + 1) as u64,
                result,
                highest_validated_target_bps: self.highest_validated_target_bps,
                logical_status: self.logical_status,
            },
            ClientPhase::Finishing => ClientAction::FinishControl {
                logical_probe_index: (self.logical_index + 1) as u64,
                highest_validated_target_bps: self.highest_validated_target_bps,
                logical_status: self.logical_status,
            },
            ClientPhase::Pausing => ClientAction::Pause { interval_ms: self.interval_ms },
            ClientPhase::Done => ClientAction::Stop,
            ClientPhase::Failed(error) => ClientAction::Fail(error),
        }
    }

    /// Whether an event can answer what has to be done next.
    pub open spec fn may_take(self, event: ClientEvent) -> bool {
        match self.phase {
            ClientPhase::Identifying => event is SystemClock,
            ClientPhase::Opening => event is ControlOpened,
            ClientPhase::Requesting => event is Sent,
            ClientPhase::AwaitingStart => event is Message,
            ClientPhase::Acknowledging => event is Sent,
            ClientPhase::AwaitingEnd => event is Message,
            ClientPhase::CleaningUp { .. } => event is CleanedUp,
            ClientPhase::Reporting { .. } => event is Logged,
            ClientPhase::Finishing => event is ControlFinished,
            ClientPhase::Pausing => event is PauseOver,
            ClientPhase::Done => false,
            ClientPhase::Failed(_) => false,
        }
    }

    /// The client in another phase.
    pub open spec fn to(self, phase: ClientPhase) -> ProbeClient {
        ProbeClient { phase, ..self }
    }

    /// The client after a probe's error.
    pub open spec fn failed(self, error: ProbeError) -> ProbeClient {
        self.to(ClientPhase::Failed(ClientError::Probe(error)))
    }

    /// The client and the receiver's record once a stage was begun.
    pub open spec fn begun(self, before: Option<ReceiverStage>) -> (
        ProbeClient,
        Option<ReceiverStage>,
    ) {
        if receiver::may_begin(before) {
            (self.to(ClientPhase::Requesting), Some(self.fresh_stage()))
        } else {
            (
                self.failed(ProbeError::State("previous stage has not ended and cleaned up")),
                before,
            )
        }
    }

    /// The client once a stage's result is final.
    pub open spec fn concluded(self, result: StageResult) -> ProbeClient {
        if result.stage_passed {
            ProbeClient {
                highest_validated_target_bps: self.stage_target(self.stage_index),
                ..self.to(ClientPhase::Reporting { result })
            }
        } else {
            ProbeClient {
                logical_status: LogicalStatus::after_failure(result.status, self.stage_index),
                ..self.to(ClientPhase::Reporting { result })
            }
        }
    }

    /// The client and the receiver's record after a control message where START is
    /// due.
    pub open spec fn heard_start(
        self,
        before: Option<ReceiverStage>,
        message: ProbeMessage,
        now: Instant,
        timestamp_ms: u64,
    ) -> (ProbeClient, Option<ReceiverStage>) {
        match message {
            ProbeMessage::Start(start) => match receiver::start_refusal(before, start) {
                Some(error) => (self.failed(error), before),
                None => (
                    self.to(ClientPhase::Acknowledging),
                    Some(before->0.armed(now, timestamp_ms)),
                ),
            },
            _ => (
                self.to(ClientPhase::Failed(ClientError::Refused("expected PROBE_START"))),
                before,
            ),
        }
    }

    /// The client and the receiver's record after a control message where END is
    /// due.
    pub open spec fn heard_end(
        self,
        before: Option<ReceiverStage>,
        message: ProbeMessage,
        now: Instant,
        timestamp_ms: u64,
    ) -> (ProbeClient, Option<ReceiverStage>) {
        match message {
            ProbeMessage::End(end) => match receiver::end_refusal(before, end) {
                Some(error) => (self.failed(error), before),
                None => (
                    match before->0.concluded(end, now, timestamp_ms) {
                        Ok(result) => self.to(ClientPhase::CleaningUp { result }),
                        Err(error) => self.failed(error),
                    },
                    Some(before->0.ended(end.status, now, timestamp_ms)),
                ),
            },
            _ => (
                self.to(ClientPhase::Failed(ClientError::Refused("expected PROBE_END"))),
                before,
            ),
        }
    }

    /// The client and the receiver's record after an event.
    pub open spec fn next(self, before: Option<ReceiverStage>, event: ClientEvent) -> (
        ProbeClient,
        Option<ReceiverStage>,
    ) {
        match (self.phase, event) {
            (ClientPhase::Identifying, ClientEvent::SystemClock { timestamp_ms }) => (
                ProbeClient {
                    request_id: rate::capped(timestamp_ms + self.logical_index),
                    stage_index: 0,
                    highest_validated_target_bps: 0,
                    logical_status: LogicalStatus::Completed,
                    ..self.to(ClientPhase::Opening)
                },
                before,
            ),
            (ClientPhase::Opening, _) => self.begun(before),
            (ClientPhase::Requesting, _) => (self.to(ClientPhase::AwaitingStart), before),
            (
                ClientPhase::AwaitingStart,
                ClientEvent::Message { message, now, timestamp_ms },
            ) => self.heard_start(before, message, now, timestamp_ms),
            (ClientPhase::Acknowledging, _) => (self.to(ClientPhase::AwaitingEnd), before),
            (ClientPhase::AwaitingEnd, ClientEvent::Message { message, now, timestamp_ms }) =>
                self.heard_end(before, message, now, timestamp_ms),
            (ClientPhase::CleaningUp { result }, _) => (
                match receiver::refresh_refusal(before, result) {
                    Some(error) => self.failed(error),
                    None => self.concluded(receiver::refreshed_result(before->0, result)),
                },
                before,
            ),
            (ClientPhase::Reporting { result }, _) => if result.stage_passed && self.stage_index
                + 1 < DEFAULT_STAGE_RATIOS_PERCENT@.len() {
                ProbeClient { stage_index: (self.stage_index + 1) as u64, ..self }.begun(before)
            } else {
                (self.to(ClientPhase::Finishing), before)
            },
            (ClientPhase::Finishing, _) => (
                self.to(
                    if self.logical_index + 1 < self.count {
                        ClientPhase::Pausing
                    } else {
                        ClientPhase::Done
                    },
                ),
                before,
            ),
            (ClientPhase::Pausing, _) => (
                ProbeClient {
                    logical_index: (self.logical_index + 1) as u64,
                    ..self.to(ClientPhase::Identifying)
                },
                before,
            ),
            _ => (self, before),
        }
    }

    /// A client that probes with the given settings.
    pub fn begin(settings: &ProbeSettings) -> (client: Result<ProbeClient, ClientError>)
        ensures
            client == match settings_refusal(*settings) {
                Some(reason) => Err(ClientError::Refused(reason)),
                None => Ok(ProbeClient::fresh(*settings)),
            },
            client is Ok ==> client->Ok_0.wf(),
    {
        match check_settings(settings) {
            Ok(()) => {},
            Err(reason) => return Err(ClientError::Refused(reason)),
        }
        Ok(
            ProbeClient {
                count: settings.count,
                interval_ms: settings.interval_ms,
                target_bitrate_bps: settings.target_bitrate_bps,
                duration_ms: settings.duration_ms,
                epoch_ms: settings.epoch_ms,
                logical_index: 0,
                request_id: 0,
                stage_index: 0,
                highest_validated_target_bps: 0,
                logical_status: LogicalStatus::Completed,
                phase: if settings.count == 0 {
                    ClientPhase::Done
                } else {
                    ClientPhase::Identifying
                },
            },
        )
    }

    fn own_ratio(&self) -> (ratio: u64)
        requires
            self.stage_index < 3,
        ensures
            ratio == ProbeClient::ratio(self.stage_index),
    {
        DEFAULT_STAGE_RATIOS_PERCENT[self.stage_index as usize]
    }

    fn own_target(&self) -> (target: u64)
        requires
            self.stage_index < 3,
        ensures
            target == self.stage_target(self.stage_index),
    {
        stage_target_bps(self.target_bitrate_bps, self.own_ratio())
    }

    /// What has to be done next.
    pub fn action(&self) -> (action: ClientAction)
        requires
            self.wf(),
        ensures
            action == self.next_action(),
    {
        match self.phase {
            ClientPhase::Identifying => ClientAction::ReadSystemClock,
            ClientPhase::Opening => ClientAction::OpenControl {
                priority: PROBE_CONTROL_PRIORITY,
                stream_type: PROBE_STREAM_TYPE,
                version: PROBE_PROTOCOL_VERSION,
            },
            ClientPhase::Requesting => ClientAction::Send(
                ProbeMessage::Request(
                    ProbeRequest {
                        request_id: self.request_id,
                        stage_index: self.stage_index,
                        stage_ratio_percent: self.own_ratio(),
                        stage_target_bps: self.own_target(),
                        active_duration_ms: self.duration_ms,
                        epoch_ms: self.epoch_ms,
                    },
                ),
            ),
            ClientPhase::AwaitingStart => ClientAction::ReadControl,
            ClientPhase::Acknowledging => ClientAction::Send(
                ProbeMessage::StartAck(
                    ProbeStartAck { request_id: self.request_id, stage_index: self.stage_index },
                ),
            ),
            ClientPhase::AwaitingEnd => ClientAction::ReadControl,
            ClientPhase::CleaningUp { .. } => ClientAction::WaitForCleanup,
            ClientPhase::Reporting { result } => ClientAction::Log {
                logical_probe_index: self.logical_index + 1,
                result,
                highest_validated_target_bps: self.highest_validated_target_bps,
                logical_status: self.logical_status,
            },
            ClientPhase::Finishing => ClientAction::FinishControl {
                logical_probe_index: self.logical_index + 1,
                highest_validated_target_bps: self.highest_validated_target_bps,
                logical_status: self.logical_status,
            },
            ClientPhase::Pausing => ClientAction::Pause { interval_ms: self.interval_ms },
            ClientPhase::Done => ClientAction::Stop,
            ClientPhase::Failed(error) => ClientAction::Fail(error),
        }
    }

    /// Whether an event can answer what has to be done next.
    pub fn accepts(&self, event: &ClientEvent) -> (accepted: bool)
        ensures
            accepted == self.may_take(*event),
    {
        match (self.phase, event) {
            (ClientPhase::Identifying, ClientEvent::SystemClock { .. }) => true,
            (ClientPhase::Opening, ClientEvent::ControlOpened) => true,
            (ClientPhase::Requesting, ClientEvent::Sent) => true,
            (ClientPhase::AwaitingStart, ClientEvent::Message { .. }) => true,
            (ClientPhase::Acknowledging, ClientEvent::Sent) => true,
            (ClientPhase::AwaitingEnd, ClientEvent::Message { .. }) => true,
            (ClientPhase::CleaningUp { .. }, ClientEvent::CleanedUp) => true,
            (ClientPhase::Reporting { .. }, ClientEvent::Logged) => true,
            (ClientPhase::Finishing, ClientEvent::ControlFinished) => true,
            (ClientPhase::Pausing, ClientEvent::PauseOver) => true,
            _ => false,
        }
    }

    fn fail(&mut self, error: ProbeError)
        ensures
            *final(self) == old(self).failed(error),
    {
        self.phase = ClientPhase::Failed(ClientError::Probe(error));
    }

    fn begin_stage(&mut self, context: &mut ReceiverProbeContext)
        requires
            old(self).stage_index < 3,
        ensures
            (*final(self), final(context)@) == old(self).begun(old(context)@),
            receiver::stage_wf(old(context)@) ==> receiver::stage_wf(final(context)@),
    {
        let begun: ProbeResult<()> = context.begin_stage(
            self.request_id,
            self.stage_index,
            self.own_ratio(),
            self.own_target(),
            DEFAULT_STAGE_PASS_PERCENT,
        );
        match begun {
            Ok(()) => {
                self.phase = ClientPhase::Requesting;
            },
            Err(error) => self.fail(error),
        }
    }

    fn hear_start(
        &mut self,
        context: &mut ReceiverProbeContext,
        message: ProbeMessage,
        now: Instant,
        timestamp_ms: u64,
    )
        ensures
            (*final(self), final(context)@) == old(self).heard_start(
                old(context)@,
                message,
                now,
                timestamp_ms,
            ),
            receiver::stage_wf(old(context)@) ==> receiver::stage_wf(final(context)@),
    {
        let start: ProbeStart = match message {
            ProbeMessage::Start(start) => start,
            _ => {
                self.phase = ClientPhase::Failed(ClientError::Refused("expected PROBE_START"));
                return ;
            },
        };
        match context.on_probe_start_at(&start, now, timestamp_ms) {
            Ok(()) => {
                self.phase = ClientPhase::Acknowledging;
            },
            Err(error) => self.fail(error),
        }
    }

    fn hear_end(
        &mut self,
        context: &mut ReceiverProbeContext,
        message: ProbeMessage,
        now: Instant,
        timestamp_ms: u64,
    )
        ensures
            (*final(self), final(context)@) == old(self).heard_end(
                old(context)@,
                message,
                now,
                timestamp_ms,
            ),
            receiver::stage_wf(old(context)@) ==> receiver::stage_wf(final(context)@),
    {
        let end: ProbeEnd = match message {
            ProbeMessage::End(end) => end,
            _ => {
                self.phase = ClientPhase::Failed(ClientError::Refused("expected PROBE_END"));
                return ;
            },
        };
        match context.on_probe_end_at(&end, now, timestamp_ms) {
            Ok(result) => {
                self.phase = ClientPhase::CleaningUp { result };
            },
            Err(error) => self.fail(error),
        }
    }

    fn conclude(&mut self, result: StageResult)
        requires
            old(self).stage_index < 3,
        ensures
            *final(self) == old(self).concluded(result),
    {
        if result.stage_passed {
            self.highest_validated_target_bps = self.own_target();
        } else {
            self.logical_status = LogicalStatus::of_failure(result.status, self.stage_index);
        }
        self.phase = ClientPhase::Reporting { result };
    }

    /// Takes an event that answers the last action. Where it belongs to the running
    /// stage, `context` is told of it.
    pub fn step(&mut self, context: &mut ReceiverProbeContext, event: ClientEvent)
        requires
            old(self).wf(),
            old(self).may_take(event),
        ensures
            (*final(self), final(context)@) == old(self).next(old(context)@, event),
            final(self).wf(),
            receiver::stage_wf(old(context)@) ==> receiver::stage_wf(final(context)@),
    {
        match (self.phase, event) {
            (ClientPhase::Identifying, ClientEvent::SystemClock { timestamp_ms }) => {
                self.request_id = timestamp_ms.saturating_add(self.logical_index);
                self.stage_index = 0;
                self.highest_validated_target_bps = 0;
                self.logical_status = LogicalStatus::Completed;
                self.phase = ClientPhase::Opening;
            },
            (ClientPhase::Opening, _) => self.begin_stage(context),
            (ClientPhase::Requesting, _) => {
                self.phase = ClientPhase::AwaitingStart;
            },
            (
                ClientPhase::AwaitingStart,
                ClientEvent::Message { message, now, timestamp_ms },
            ) => self.hear_start(context, message, now, timestamp_ms),
            (ClientPhase::Acknowledging, _) => {
                self.phase = ClientPhase::AwaitingEnd;
            },
            (ClientPhase::AwaitingEnd, ClientEvent::Message { message, now, timestamp_ms }) => {
                self.hear_end(context, message, now, timestamp_ms)
            },
            (ClientPhase::CleaningUp { result }, _) => {
                let mut result: StageResult = result;
                match context.refresh_after_padding_cleanup(&mut result) {
                    Ok(()) => self.conclude(result),
                    Err(error) => self.fail(error),
                }
            },
            (ClientPhase::Reporting { result }, _) => {
                if result.stage_passed && self.stage_index + 1
                    < DEFAULT_STAGE_RATIOS_PERCENT.len() as u64 {
                    self.stage_index = self.stage_index + 1;
                    self.begin_stage(context);
                } else {
                    self.phase = ClientPhase::Finishing;
                }
            },
            (ClientPhase::Finishing, _) => {
                if self.logical_index + 1 < self.count {
                    self.phase = ClientPhase::Pausing;
                } else {
                    self.phase = ClientPhase::Done;
                }
            },
            (ClientPhase::Pausing, _) => {
                self.logical_index = self.logical_index + 1;
                self.phase = ClientPhase::Identifying;
            },
            _ => {},
        }
    }
}

/// Every request that a client sends is one that a relay runs, at its place in the
/// logical probe, if and only if the relay's limit admits the target of the stage.
/// Where it admits the target of the logical probe, it admits that of every stage.
pub proof fn requests_are_valid(client: ProbeClient, max_target_bitrate_bps: u64)
    requires
        client.wf(),
    ensures
        acceptor::request_refusal(
            client.request(),
            if client.stage_index == 0 {
                None
            } else {
                Some(client.request_id)
            },
            client.stage_index,
            max_target_bitrate_bps,
        ) == if client.request().stage_target_bps <= max_target_bitrate_bps {
            None
        } else {
            Some(ProbeError::Protocol("stage target exceeds configured maximum"))
        },
        client.request().stage_target_bps <= client.target_bitrate_bps,
{
    rate::stage_targets_stay_below(
        client.target_bitrate_bps,
        ProbeClient::ratio(client.stage_index),
    );
}

/// The sender of a stage and the receiver that asked for it understand each other:
/// the sender's START is taken, the receiver's acknowledgement is the one that the
/// sender waits for, and the sender's report is taken, whatever payloads came in
/// between.
pub proof fn handshake_fits(
    client: ProbeClient,
    early: Seq<receiver::Payload>,
    started: Instant,
    started_ms: u64,
    measured: Seq<receiver::Payload>,
    reported: SenderStage,
    end: ProbeEnd,
)
    requires
        client.wf(),
        reported.request == client.request(),
        reported.wf(),
        reported.phase == SenderPhase::Done(end),
    ensures
        ({
            let sender = SenderStage::fresh(client.request());
            let waiting = receiver::after_payloads(client.fresh_stage(), early);
            let measuring = receiver::after_payloads(waiting.armed(started, started_ms), measured);
            &&& sender.to(SenderPhase::Starting).next_action() matches SenderAction::SendStart(
                start,
            )
            &&& receiver::start_refusal(Some(waiting), start) is None
            &&& sender.is_ack(ProbeMessage::StartAck(client.ack()))
            &&& receiver::end_refusal(Some(measuring), end) is None
        }),
{
    receiver::padding_before_start_is_apart(client.fresh_stage(), early);
    let waiting = receiver::after_payloads(client.fresh_stage(), early);
    receiver::measurement_begins_with_padding(waiting.armed(started, started_ms), measured);
}

/// A logical probe that is over is completed only with the full target validated.
/// Otherwise a stage did not pass, and the highest validated target is that of the
/// stage before it. It is never above the target asked for.
pub proof fn logical_probe_is_summed_up(client: ProbeClient)
    requires
        client.wf(),
        client.phase is Finishing,
    ensures
        client.next_action() matches ClientAction::FinishControl {
            highest_validated_target_bps,
            logical_status,
            ..
        } && {
            &&& logical_status == LogicalStatus::Completed ==> highest_validated_target_bps
                == client.target_bitrate_bps
            &&& logical_status != LogicalStatus::Completed ==> highest_validated_target_bps
                == client.target_before()
            &&& highest_validated_target_bps <= client.target_bitrate_bps
        },
{
    rate::stage_targets_stay_below(
        client.target_bitrate_bps,
        ProbeClient::ratio(client.stage_index),
    );
    if client.stage_index > 0 {
        rate::stage_targets_stay_below(
            client.target_bitrate_bps,
            ProbeClient::ratio((client.stage_index - 1) as u64),
        );
    }
}

/// One step of a run: what the receiver had recorded when an event came. Padding
/// and media change the record between steps.
pub ghost struct ClientStep {
    pub before: Option<ReceiverStage>,
    pub event: ClientEvent,
}

/// The client after steps in their order.
pub open spec fn after_steps(client: ProbeClient, steps: Seq<ClientStep>) -> ProbeClient
    decreases steps.len(),
{
    if steps.len() == 0 {
        client
    } else {
        after_steps(client, steps.drop_last()).next(steps.last().before, steps.last().event).0
    }
}

/// Whether each event answers what had to be done when it came.
pub open spec fn takes(client: ProbeClient, steps: Seq<ClientStep>) -> bool
    decreases steps.len(),
{
    steps.len() > 0 ==> takes(client, steps.drop_last()) && after_steps(
        client,
        steps.drop_last(),
    ).may_take(steps.last().event)
}

/// The results logged so far for the running logical probe.
pub open spec fn logged(client: ProbeClient, steps: Seq<ClientStep>) -> Seq<StageResult>
    decreases steps.len(),
{
    if steps.len() == 0 {
        Seq::empty()
    } else {
        let before = logged(client, steps.drop_last());
        match (after_steps(client, steps.drop_last()).phase, steps.last().event) {
            (_, ClientEvent::SystemClock { .. }) => Seq::empty(),
            (ClientPhase::Reporting { result }, _) => before.push(result),
            _ => before,
        }
    }
}

/// How many logical probes are over.
pub open spec fn probes_over(steps: Seq<ClientStep>) -> int
    decreases steps.len(),
{
    if steps.len() == 0 {
        0
    } else {
        probes_over(steps.drop_last()) + if steps.last().event is ControlFinished {
            1int
        } else {
            0
        }
    }
}

/// Whether all results are of stages that passed.
pub open spec fn all_passed(results: Seq<StageResult>) -> bool {
    forall|i: int| 0 <= i < results.len() ==> (#[trigger] results[i]).stage_passed
}

spec fn on_course(client: ProbeClient, results: Seq<StageResult>, over: int) -> bool {
    &&& client.wf()
    &&& match client.phase {
        ClientPhase::Identifying => over == client.logical_index,
        ClientPhase::Pausing => over == client.logical_index + 1,
        ClientPhase::Done => over == client.count,
        ClientPhase::Failed(_) => true,
        ClientPhase::Reporting { result } => {
            &&& over == client.logical_index
            &&& results.len() == client.stage_index
            &&& all_passed(results)
            &&& client.tells(result)
        },
        ClientPhase::Finishing => {
            &&& over == client.logical_index
            &&& results.len() == client.stage_index + 1
            &&& all_passed(results.drop_last())
            &&& client.judged(results.last().stage_passed)
            &&& client.tells(results.last())
            &&& results.last().stage_passed ==> client.stage_index == 2
        },
        _ => {
            &&& over == client.logical_index
            &&& results.len() == client.stage_index
            &&& all_passed(results)
        },
    }
    &&& results.len() <= 3
    &&& results.len() > 0 ==> all_passed(results.drop_last())
}

proof fn stays_on_course(settings: ProbeSettings, steps: Seq<ClientStep>)
    requires
        settings_refusal(settings) is None,
        takes(ProbeClient::fresh(settings), steps),
    ensures
        on_course(
            after_steps(ProbeClient::fresh(settings), steps),
            logged(ProbeClient::fresh(settings), steps),
            probes_over(steps),
        ),
        after_steps(ProbeClient::fresh(settings), steps).count == settings.count,
        after_steps(ProbeClient::fresh(settings), steps).target_bitrate_bps
            == settings.target_bitrate_bps,
    decreases steps.len(),
{
    let fresh = ProbeClient::fresh(settings);
    if steps.len() > 0 {
        let shorter = steps.drop_last();
        stays_on_course(settings, shorter);
        let before = after_steps(fresh, shorter);
        let results = logged(fresh, shorter);
        if let ClientPhase::Reporting { result } = before.phase {
            assert(results.push(result).drop_last() =~= results);
        }
        assert(results.len() > 0 ==> all_passed(results) ==> all_passed(results.drop_last()));
    }
}

/// A logical probe goes on to its next stage only where the one before it passed,
/// and has at most three. It is completed if and only if all three passed, with the
/// whole target validated. Otherwise its status says at which stage it failed and
/// how, and the target of the stage before that one is validated.
pub proof fn logical_probe_stops_at_first_failure(settings: ProbeSettings, steps: Seq<ClientStep>)
    requires
        settings_refusal(settings) is None,
        takes(ProbeClient::fresh(settings), steps),
    ensures
        ({
            let client = after_steps(ProbeClient::fresh(settings), steps);
            let results = logged(ProbeClient::fresh(settings), steps);
            &&& results.len() <= 3
            &&& results.len() > 0 ==> all_passed(results.drop_last())
            &&& client.phase is Requesting ==> {
                &&& all_passed(results)
                &&& client.request().stage_index == results.len()
            }
            &&& client.phase is Finishing ==> {
                &&& results.len() > 0
                &&& client.logical_status == LogicalStatus::Completed <==> results.len() == 3
                    && all_passed(results)
                &&& client.stage_index == results.len() - 1
                &&& client.tells(results.last())
                &&& client.highest_validated_target_bps == if results.last().stage_passed {
                    client.target_bitrate_bps
                } else {
                    client.target_before()
                }
            }
        }),
{
    stays_on_course(settings, steps);
    let client = after_steps(ProbeClient::fresh(settings), steps);
    let results = logged(ProbeClient::fresh(settings), steps);
    if client.phase is Finishing {
        rate::stage_targets_stay_below(client.target_bitrate_bps, 100);
        assert(results =~= results.drop_last().push(results.last()));
        if results.last().stage_passed {
            assert forall|i: int| 0 <= i < results.len() implies (
            #[trigger] results[i]).stage_passed by {
                if i < results.len() - 1 {
                    assert(results.drop_last()[i] == results[i]);
                }
            }
        }
    }
}

/// A client that stops without an error has run all the logical probes it was asked
/// for, and no more are ever run.
pub proof fn all_probes_are_run(settings: ProbeSettings, steps: Seq<ClientStep>)
    requires
        settings_refusal(settings) is None,
        takes(ProbeClient::fresh(settings), steps),
    ensures
        ({
            let client = after_steps(ProbeClient::fresh(settings), steps);
            client.next_action() is Stop ==> probes_over(steps) == settings.count
        }),
        after_steps(ProbeClient::fresh(settings), steps).next_action() is OpenControl
            ==> probes_over(steps) < settings.count,
{
    stays_on_course(settings, steps);
}

/// Settings are refused for another padding mode than `stream`, for stages of no
/// duration and for epochs of none, in this order, and for nothing else.
pub proof fn settings_are_refused_in_order(settings: ProbeSettings)
    ensures
        settings_refusal(settings) == if settings.padding_mode@ != seq![
            's',
            't',
            'r',
            'e',
            'a',
            'm',
        ] {
            Some("--probe-padding-mode must be stream for staged Probe")
        } else if settings.duration_ms == 0 {
            Some("--probe-duration-ms must be greater than zero")
        } else if settings.epoch_ms == 0 {
            Some("--probe-epoch-ms must be greater than zero")
        } else {
            None
        },
{
    reveal_strlit("stream");
    assert("stream"@ =~= seq!['s', 't', 'r', 'e', 'a', 'm']);
}

/// The words for the statuses, and which of them a stage that did not pass leaves:
/// one of its own for backpressure, and otherwise one by the place of the stage.
pub proof fn statuses_tell_the_stage(status: StageStatus, stage_index: u64)
    ensures
        LogicalStatus::Completed.word() == "COMPLETED",
        LogicalStatus::AbortedBackpressure.word() == "ABORTED_BACKPRESSURE",
        LogicalStatus::ValidationFailed.word() == "VALIDATION_FAILED",
        LogicalStatus::ValidationFailedAt75.word() == "VALIDATION_FAILED_AT_75",
        LogicalStatus::ValidationFailedAt100.word() == "VALIDATION_FAILED_AT_100",
        status is AbortedBackpressure ==> LogicalStatus::after_failure(status, stage_index)
            is AbortedBackpressure,
        !(status is AbortedBackpressure) && stage_index == 0 ==> LogicalStatus::after_failure(
            status,
            stage_index,
        ) is ValidationFailed,
        !(status is AbortedBackpressure) && stage_index == 1 ==> LogicalStatus::after_failure(
            status,
            stage_index,
        ) is ValidationFailedAt75,
        !(status is AbortedBackpressure) && stage_index >= 2 ==> LogicalStatus::after_failure(
            status,
            stage_index,
        ) is ValidationFailedAt100,
{
}

/// The ratio of a stage by its place.
proof fn ratios(stage_index: u64)
    ensures
        stage_index == 0 ==> ProbeClient::ratio(stage_index) == 50,
        stage_index == 1 ==> ProbeClient::ratio(stage_index) == 75,
        stage_index == 2 ==> ProbeClient::ratio(stage_index) == 100,
{
}

/// A stage is asked for by what the settings say: 50, 75 and then 100 percent of the
/// target, rounded down, for the whole duration. The receiver records it with the
/// same numbers, to be judged against 90 percent of its target.
pub proof fn stages_are_asked_for_by_the_settings(client: ProbeClient)
    requires
        client.wf(),
    ensures
        ({
            let request = client.request();
            let stage = client.fresh_stage();
            let percent = if client.stage_index == 0 {
                50
            } else if client.stage_index == 1 {
                75
            } else {
                100int
            };
            &&& request.request_id == client.request_id
            &&& request.stage_index == client.stage_index
            &&& request.stage_ratio_percent == percent
            &&& request.stage_target_bps == (client.target_bitrate_bps * percent) / 100
            &&& request.active_duration_ms == client.duration_ms
            &&& request.epoch_ms == client.epoch_ms
            &&& client.ack().request_id == client.request_id
            &&& client.ack().stage_index == client.stage_index
            &&& stage.request_id == client.request_id
            &&& stage.stage_index == client.stage_index
            &&& stage.stage_ratio_percent == percent
            &&& stage.stage_target_bps == (client.target_bitrate_bps * percent) / 100
            &&& stage.pass_percent == 90
            &&& stage.phase is WaitingForStart
        }),
{
    ratios(client.stage_index);
    rate::stage_targets_stay_below(
        client.target_bitrate_bps,
        ProbeClient::ratio(client.stage_index),
    );
}

/// A client begins with the first logical probe, if there is any, and keeps its
/// settings.
pub proof fn clients_begin_with_their_settings(settings: ProbeSettings)
    ensures
        ({
            let client = ProbeClient::fresh(settings);
            &&& client.count == settings.count
            &&& client.interval_ms == settings.interval_ms
            &&& client.target_bitrate_bps == settings.target_bitrate_bps
            &&& client.duration_ms == settings.duration_ms
            &&& client.epoch_ms == settings.epoch_ms
            &&& client.logical_index == 0
            &&& settings.count == 0 ==> client.next_action() is Stop
            &&& settings.count > 0 ==> client.next_action() is ReadSystemClock
        }),
{
}

/// Whether a client has the same settings as another.
pub open spec fn same_settings(a: ProbeClient, b: ProbeClient) -> bool {
    &&& a.count == b.count
    &&& a.interval_ms == b.interval_ms
    &&& a.target_bitrate_bps == b.target_bitrate_bps
    &&& a.duration_ms == b.duration_ms
    &&& a.epoch_ms == b.epoch_ms
}

/// A logical probe is identified by the system clock and its number, begins with the
/// first stage and with nothing validated, on a control stream that goes before all
/// others and is written the type and the version of its protocol.
pub proof fn logical_probes_begin_afresh(
    client: ProbeClient,
    before: Option<ReceiverStage>,
    timestamp_ms: u64,
)
    requires
        client.phase is Identifying,
    ensures
        ({
            let (next, after) = client.next(before, ClientEvent::SystemClock { timestamp_ms });
            let id = timestamp_ms + client.logical_index;
            &&& client.next_action() is ReadSystemClock
            &&& after == before
            &&& same_settings(next, client)
            &&& next.logical_index == client.logical_index
            &&& id <= u64::MAX ==> next.request_id == id
            &&& id > u64::MAX ==> next.request_id == u64::MAX
            &&& next.stage_index == 0
            &&& next.highest_validated_target_bps == 0
            &&& next.logical_status is Completed
            &&& next.next_action() matches ClientAction::OpenControl {
                priority,
                stream_type,
                version,
            }
            &&& priority == i32::MAX
            &&& stream_type == 0xff00_0001
            &&& version == 1
        }),
{
}

/// A stage begins where the receiver is done with the one before: the receiver then
/// has a fresh record of it, and it is asked for. Otherwise the client stops and the
/// record is left as it is.
pub proof fn stages_begin_behind_each_other(client: ProbeClient, before: Option<ReceiverStage>)
    requires
        client.wf(),
        client.phase is Opening,
    ensures
        ({
            let (next, after) = client.next(before, ClientEvent::ControlOpened);
            let free = before is None || before->0.phase is Ended && (
            !before->0.padding_stream_open || before->0.padding_stream_finished
                || before->0.padding_stream_reset);
            &&& same_settings(next, client)
            &&& next.request_id == client.request_id
            &&& next.stage_index == client.stage_index
            &&& free ==> next.next_action() == ClientAction::Send(
                ProbeMessage::Request(client.request()),
            )
            &&& free ==> after == Some(client.fresh_stage())
            &&& !free ==> after == before
            &&& !free ==> next.next_action() == ClientAction::Fail(
                ClientError::Probe(
                    ProbeError::State("previous stage has not ended and cleaned up"),
                ),
            )
        }),
{
}

/// Where START is due, the receiver's record takes it and it is acknowledged. A
/// message of another kind, or a START that the record refuses, stops the client and
/// leaves the record as it is.
pub proof fn start_is_acknowledged(
    client: ProbeClient,
    before: Option<ReceiverStage>,
    message: ProbeMessage,
    now: Instant,
    timestamp_ms: u64,
)
    requires
        client.phase is AwaitingStart,
    ensures
        ({
            let (next, after) = client.next(
                before,
                ClientEvent::Message { message, now, timestamp_ms },
            );
            let refusal = receiver::start_refusal(before, message->Start_0);
            &&& next == client.to(next.phase)
            &&& !(message is Start) ==> {
                &&& after == before
                &&& next.next_action() == ClientAction::Fail(
                    ClientError::Refused("expected PROBE_START"),
                )
            }
            &&& message is Start && refusal is Some ==> {
                &&& after == before
                &&& next.next_action() == ClientAction::Fail(ClientError::Probe(refusal->0))
            }
            &&& message is Start && refusal is None ==> {
                &&& receiver::on_start(
                    before,
                    message->Start_0,
                    now,
                    timestamp_ms,
                    after,
                    Ok(()),
                )
                &&& next.next_action() == ClientAction::Send(
                    ProbeMessage::StartAck(
                        ProbeStartAck {
                            request_id: client.request_id,
                            stage_index: client.stage_index,
                        },
                    ),
                )
            }
        }),
{
}

/// Where END is due, the receiver's record takes it and says what the stage came to;
/// the client then waits for the padding stream to end. A message of another kind,
/// or an END without a result, stops the client.
pub proof fn end_is_concluded(
    client: ProbeClient,
    before: Option<ReceiverStage>,
    message: ProbeMessage,
    now: Instant,
    timestamp_ms: u64,
)
    requires
        client.phase is AwaitingEnd,
    ensures
        ({
            let (next, after) = client.next(
                before,
                ClientEvent::Message { message, now, timestamp_ms },
            );
            &&& next == client.to(next.phase)
            &&& !(message is End) ==> {
                &&& after == before
                &&& next.next_action() == ClientAction::Fail(
                    ClientError::Refused("expected PROBE_END"),
                )
            }
            &&& message matches ProbeMessage::End(end) ==> match next.phase {
                ClientPhase::CleaningUp { result } => {
                    &&& next.next_action() is WaitForCleanup
                    &&& receiver::on_end(
                        before,
                        end,
                        now,
                        timestamp_ms,
                        after,
                        Ok(result),
                    )
                },
                ClientPhase::Failed(ClientError::Probe(error)) => receiver::on_end(
                    before,
                    end,
                    now,
                    timestamp_ms,
                    after,
                    Err(error),
                ),
                _ => false,
            }
        }),
{
}

/// Once the padding stream is done, the result is brought up to date and logged. A
/// stage that passed validates its target; one that did not gives the logical probe
/// its status. Where the receiver's record is of another stage, the client stops. The
/// record stays as it is.
pub proof fn results_are_summed_up(
    client: ProbeClient,
    before: Option<ReceiverStage>,
    result: StageResult,
)
    requires
        client.wf(),
        client.phase == (ClientPhase::CleaningUp { result }),
    ensures
        ({
            let (next, after) = client.next(before, ClientEvent::CleanedUp);
            let own = before is Some && before->0.request_id == result.request_id
                && before->0.stage_index == result.stage_index;
            &&& after == before
            &&& same_settings(next, client)
            &&& next.request_id == client.request_id
            &&& next.stage_index == client.stage_index
            &&& before is None ==> next.next_action() == ClientAction::Fail(
                ClientError::Probe(ProbeError::State("no stage result to refresh")),
            )
            &&& !own ==> next.next_action() is Fail
            &&& own ==> {
                &&& next.next_action() matches ClientAction::Log {
                    logical_probe_index,
                    result: logged,
                    highest_validated_target_bps,
                    logical_status,
                }
                &&& logical_probe_index == client.logical_index + 1
                &&& logged == receiver::refreshed_result(before->0, result)
                &&& result.stage_passed ==> {
                    &&& highest_validated_target_bps == client.request().stage_target_bps
                    &&& logical_status is Completed
                }
                &&& !result.stage_passed ==> {
                    &&& highest_validated_target_bps == client.highest_validated_target_bps
                    &&& logical_status == LogicalStatus::after_failure(
                        result.status,
                        client.stage_index,
                    )
                }
            }
        }),
{
}

/// Behind a stage that passed, and is not the third, the next one begins, where the
/// receiver is done with this one. Behind any other the control stream is finished.
pub proof fn passed_stages_are_followed(
    client: ProbeClient,
    before: Option<ReceiverStage>,
    result: StageResult,
)
    requires
        client.wf(),
        client.phase == (ClientPhase::Reporting { result }),
    ensures
        ({
            let (next, after) = client.next(before, ClientEvent::Logged);
            let more = result.stage_passed && client.stage_index < 2;
            &&& same_settings(next, client)
            &&& next.request_id == client.request_id
            &&& next.logical_index == client.logical_index
            &&& next.highest_validated_target_bps == client.highest_validated_target_bps
            &&& next.logical_status == client.logical_status
            &&& more ==> next.stage_index == client.stage_index + 1
            &&& more && receiver::may_begin(before) ==> {
                &&& next.next_action() == ClientAction::Send(ProbeMessage::Request(next.request()))
                &&& after == Some(next.fresh_stage())
            }
            &&& more && !receiver::may_begin(before) ==> {
                &&& next.next_action() == ClientAction::Fail(
                    ClientError::Probe(
                        ProbeError::State("previous stage has not ended and cleaned up"),
                    ),
                )
                &&& after == before
            }
            &&& !more ==> after == before
            &&& !more ==> next.next_action() == (ClientAction::FinishControl {
                logical_probe_index: (client.logical_index + 1) as u64,
                highest_validated_target_bps: client.highest_validated_target_bps,
                logical_status: client.logical_status,
            })
        }),
{
}

/// Behind a logical probe that is not the last, the interval passes and the next one
/// begins with its own number. Behind the last the client stops.
pub proof fn logical_probes_are_spaced(client: ProbeClient, before: Option<ReceiverStage>)
    requires
        client.wf(),
    ensures
        client.phase is Finishing ==> {
            let (next, after) = client.next(before, ClientEvent::ControlFinished);
            &&& next == client.to(next.phase)
            &&& after == before
            &&& client.logical_index + 1 < client.count ==> next.next_action()
                == (ClientAction::Pause { interval_ms: client.interval_ms })
            &&& client.logical_index + 1 == client.count ==> next.next_action() is Stop
        },
        client.phase is Pausing ==> {
            let (next, after) = client.next(before, ClientEvent::PauseOver);
            &&& same_settings(next, client)
            &&& after == before
            &&& next.logical_index == client.logical_index + 1
            &&& next.next_action() is ReadSystemClock
        },
        client.phase is Requesting ==> {
            let (next, after) = client.next(before, ClientEvent::Sent);
            &&& next == client.to(ClientPhase::AwaitingStart)
            &&& after == before
            &&& next.next_action() is ReadControl
        },
        client.phase is Acknowledging ==> {
            let (next, after) = client.next(before, ClientEvent::Sent);
            &&& next == client.to(ClientPhase::AwaitingEnd)
            &&& after == before
            &&& next.next_action() is ReadControl
        },
{
}

/// Every action is answered by its own events, and a client that has stopped by none.
pub proof fn actions_have_their_answers(client: ProbeClient, event: ClientEvent)
    ensures
        match client.next_action() {
            ClientAction::ReadSystemClock => client.may_take(event) <==> event is SystemClock,
            ClientAction::OpenControl { .. } => client.may_take(event) <==> event
                is ControlOpened,
            ClientAction::Send(_) => client.may_take(event) <==> event is Sent,
            ClientAction::ReadControl => client.may_take(event) <==> event is Message,
            ClientAction::WaitForCleanup => client.may_take(event) <==> event is CleanedUp,
            ClientAction::Log { .. } => client.may_take(event) <==> event is Logged,
            ClientAction::FinishControl { .. } => client.may_take(event) <==> event
                is ControlFinished,
            ClientAction::Pause { .. } => client.may_take(event) <==> event is PauseOver,
            ClientAction::Stop => !client.may_take(event),
            ClientAction::Fail(_) => !client.may_take(event),
        },
{
}

/// The receiver's record after the last of some steps.
pub open spec fn record_after(client: ProbeClient, steps: Seq<ClientStep>) -> Option<ReceiverStage>
{
    after_steps(client, steps.drop_last()).next(steps.last().before, steps.last().event).1
}

/// Whether the record at each step is of the stage that the step before it left: what
/// happens to a stage in between leaves it the one that was asked for.
pub open spec fn records_follow(client: ProbeClient, steps: Seq<ClientStep>) -> bool
    decreases steps.len(),
{
    steps.len() > 1 ==> {
        &&& records_follow(client, steps.drop_last())
        &&& record_after(client, steps.drop_last()) matches Some(left) ==> {
            &&& steps.last().before matches Some(found)
            &&& receiver::same_stage(found, left)
        }
    }
}

spec fn is_own_record(client: ProbeClient, record: Option<ReceiverStage>) -> bool {
    record is Some && receiver::same_stage(record->0, client.fresh_stage())
}

spec fn is_own_result(
    request_id: u64,
    stage_index: int,
    target_bitrate_bps: u64,
    result: StageResult,
) -> bool {
    &&& result.request_id == request_id
    &&& result.stage_index == stage_index
    &&& stage_index == 0 ==> result.stage_target_bps == (target_bitrate_bps * 50) / 100
    &&& stage_index == 1 ==> result.stage_target_bps == (target_bitrate_bps * 75) / 100
    &&& stage_index == 2 ==> result.stage_target_bps == target_bitrate_bps
    &&& result.pass_percent == 90
    &&& result.stage_passed <==> {
        &&& result.result_valid
        &&& result.receiver_goodput_bps * 100 >= result.stage_target_bps * 90
    }
    &&& result.result_valid <==> result.status is Completed
    &&& result.result_valid ==> result.measurement_duration_ms > 0
}

spec fn results_are_own(client: ProbeClient, results: Seq<StageResult>) -> bool {
    forall|i: int|
        0 <= i < results.len() ==> is_own_result(
            client.request_id,
            i,
            client.target_bitrate_bps,
            #[trigger] results[i],
        )
}

proof fn own_stage_is_judged(
    client: ProbeClient,
    stage: ReceiverStage,
    end: ProbeEnd,
    now: Instant,
    timestamp_ms: u64,
)
    requires
        client.wf(),
        is_own_record(client, Some(stage)),
        stage.concluded(end, now, timestamp_ms) is Ok,
    ensures
        is_own_result(
            client.request_id,
            client.stage_index as int,
            client.target_bitrate_bps,
            stage.concluded(end, now, timestamp_ms)->Ok_0,
        ),
{
    stages_are_asked_for_by_the_settings(client);
    receiver::result_is_bytes_over_time(stage, end, now, timestamp_ms);
    receiver::result_repeats_what_is_known(stage, end, now, timestamp_ms);
    let percent = stage.pass_percent;
    let target = stage.stage_target_bps;
    assert(target * percent == target * 90) by (nonlinear_arith)
        requires
            percent == 90,
    ;
    if client.stage_index == 0 {
        assert(target == (client.target_bitrate_bps * 50) / 100);
    } else if client.stage_index == 1 {
        assert(target == (client.target_bitrate_bps * 75) / 100);
    } else {
        assert(target == (client.target_bitrate_bps * 100) / 100);
    }
}

proof fn results_stay_own(settings: ProbeSettings, steps: Seq<ClientStep>)
    requires
        settings_refusal(settings) is None,
        takes(ProbeClient::fresh(settings), steps),
        records_follow(ProbeClient::fresh(settings), steps),
    ensures
        ({
            let fresh = ProbeClient::fresh(settings);
            let client = after_steps(fresh, steps);
            let results = logged(fresh, steps);
            &&& results_are_own(client, results)
            &&& steps.len() > 0 ==> match client.phase {
                ClientPhase::Requesting => is_own_record(client, record_after(fresh, steps)),
                ClientPhase::AwaitingStart => is_own_record(client, record_after(fresh, steps)),
                ClientPhase::Acknowledging => is_own_record(client, record_after(fresh, steps)),
                ClientPhase::AwaitingEnd => is_own_record(client, record_after(fresh, steps)),
                ClientPhase::CleaningUp { result } => is_own_result(
                    client.request_id,
                    client.stage_index as int,
                    client.target_bitrate_bps,
                    result,
                ),
                ClientPhase::Reporting { result } => is_own_result(
                    client.request_id,
                    client.stage_index as int,
                    client.target_bitrate_bps,
                    result,
                ),
                _ => true,
            }
        }),
    decreases steps.len(),
{
    stays_on_course(settings, steps);
    if steps.len() > 0 {
        let fresh = ProbeClient::fresh(settings);
        let shorter = steps.drop_last();
        if shorter.len() == 0 {
            assert(after_steps(fresh, shorter) == fresh);
        }
        results_stay_own(settings, shorter);
        stays_on_course(settings, shorter);
        let before = after_steps(fresh, shorter);
        let step = steps.last();
        match (before.phase, step.event) {
            (ClientPhase::AwaitingEnd, ClientEvent::Message { message, now, timestamp_ms }) => {
                if let ProbeMessage::End(end) = message {
                    if step.before->0.concluded(end, now, timestamp_ms) is Ok {
                        own_stage_is_judged(before, step.before->0, end, now, timestamp_ms);
                    }
                }
            },
            _ => {},
        }
    }
}

/// Every logged result is that of its stage, asked for by the settings: 50, 75 or 100
/// percent of the target, to pass at 90 percent of that. It passed if and only if it
/// is valid, which takes a sender that completed and time that was measured, and a
/// hundred times its goodput reaches 90 times its target.
pub proof fn logged_results_are_judged(settings: ProbeSettings, steps: Seq<ClientStep>, index: int)
    requires
        settings_refusal(settings) is None,
        takes(ProbeClient::fresh(settings), steps),
        records_follow(ProbeClient::fresh(settings), steps),
        0 <= index < logged(ProbeClient::fresh(settings), steps).len(),
    ensures
        ({
            let client = after_steps(ProbeClient::fresh(settings), steps);
            let result = logged(ProbeClient::fresh(settings), steps)[index];
            &&& index < 3
            &&& result.request_id == client.request_id
            &&& result.stage_index == index
            &&& index == 0 ==> result.stage_target_bps == (settings.target_bitrate_bps * 50) / 100
            &&& index == 1 ==> result.stage_target_bps == (settings.target_bitrate_bps * 75) / 100
            &&& index == 2 ==> result.stage_target_bps == settings.target_bitrate_bps
            &&& result.pass_percent == 90
            &&& result.stage_passed <==> {
                &&& result.result_valid
                &&& result.receiver_goodput_bps * 100 >= result.stage_target_bps * 90
            }
            &&& result.result_valid <==> result.status is Completed
            &&& result.result_valid ==> result.measurement_duration_ms > 0
            &&& result.stage_passed && client.phase is Finishing
                ==> client.highest_validated_target_bps >= result.stage_target_bps
        }),
{
    stays_on_course(settings, steps);
    results_stay_own(settings, steps);
    logical_probe_stops_at_first_failure(settings, steps);
    let client = after_steps(ProbeClient::fresh(settings), steps);
    let results = logged(ProbeClient::fresh(settings), steps);
    assert(is_own_result(client.request_id, index, client.target_bitrate_bps, results[index]));
    ratios(0);
    ratios(1);
    ratios(2);
}

} // verus!
