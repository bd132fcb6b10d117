//! The relay's side of a connection: it takes control streams and runs the stages
//! that are asked for on them.
//!
//! [`Acceptor`] decides what comes next. Whoever drives it carries out
//! [`Acceptor::action`] and reports what happened to [`Acceptor::step`].

use std::path::PathBuf;
use vstd::prelude::*;

use crate::protocol::{
    ProbeEnd, ProbeEndStatus, ProbeError, ProbeMessage, ProbeRequest, ProbeResult,
    DEFAULT_STAGE_RATIOS_PERCENT, PROBE_CONTROL_PRIORITY, PROBE_PROTOCOL_VERSION,
    PROBE_STREAM_TYPE,
};
use crate::sender::{sender_end_in_millis, SenderStageStats};

verus! {

/// `std::path::PathBuf`, carried through unopened.
#[verifier::external_type_specification]
#[verifier::external_body]
pub struct ExPathBuf(PathBuf);

/// What a relay allows.
#[derive(Debug, Clone)]
pub struct ProbeConfig {
    pub enabled: bool,
    pub log: Option<PathBuf>,
    pub max_target_bitrate_bps: u64,
}

impl Default for ProbeConfig {
    fn default() -> (config: ProbeConfig)
        ensures
            !config.enabled,
            config.log is None,
            config.max_target_bitrate_bps == 100_000_000,
    {
        ProbeConfig { enabled: false, log: None, max_target_bitrate_bps: 100_000_000 }
    }
}

/// The ratio of a stage, if there is such a stage.
pub open spec fn stage_ratio(stage_index: u64) -> Option<u64> {
    if stage_index < DEFAULT_STAGE_RATIOS_PERCENT@.len() {
        Some(DEFAULT_STAGE_RATIOS_PERCENT@[stage_index as int])
    } else {
        None
    }
}

/// Why a request is refused.
pub open spec fn request_refusal(
    request: ProbeRequest,
    expected_request_id: Option<u64>,
    expected_stage_index: u64,
    max_target_bitrate_bps: u64,
) -> Option<ProbeError> {
    if request.stage_index != expected_stage_index {
        Some(ProbeError::Protocol("unexpected stage index"))
    } else if expected_request_id is Some && expected_request_id != Some(request.request_id) {
        Some(ProbeError::Protocol("request ID changed within logical Probe"))
    } else if stage_ratio(request.stage_index) is None {
        Some(ProbeError::Protocol("stage index out of range"))
    } else if stage_ratio(request.stage_index) != Some(request.stage_ratio_percent) {
        Some(ProbeError::Protocol("unexpected stage ratio"))
    } else if request.stage_target_bps > max_target_bitrate_bps {
        Some(ProbeError::Protocol("stage target exceeds configured maximum"))
    } else if request.active_duration_ms == 0 || request.epoch_ms == 0 {
        Some(ProbeError::Protocol("duration and epoch must be non-zero"))
    } else {
        None
    }
}

/// Whether a request can be run: it asks for the expected stage of the expected
/// logical probe, within the relay's limit.
pub fn validate_request(
    request: &ProbeRequest,
    expected_request_id: Option<u64>,
    expected_stage_index: u64,
    max_target_bitrate_bps: u64,
) -> (result: ProbeResult<()>)
    ensures
        result == match request_refusal(
            *request,
            expected_request_id,
            expected_stage_index,
            max_target_bitrate_bps,
        ) {
            Some(error) => Err(error),
            None => Ok(()),
        },
{
    if request.stage_index != expected_stage_index {
        return Err(ProbeError::Protocol("unexpected stage index"));
    }
    if let Some(request_id) = expected_request_id {
        if request.request_id != request_id {
            return Err(ProbeError::Protocol("request ID changed within logical Probe"));
        }
    }
    if request.stage_index >= DEFAULT_STAGE_RATIOS_PERCENT.len() as u64 {
        return Err(ProbeError::Protocol("stage index out of range"));
    }
    let expected_ratio: u64 = DEFAULT_STAGE_RATIOS_PERCENT[request.stage_index as usize];
    if request.stage_ratio_percent != expected_ratio {
        return Err(ProbeError::Protocol("unexpected stage ratio"));
    }
    if request.stage_target_bps > max_target_bitrate_bps {
        return Err(ProbeError::Protocol("stage target exceeds configured maximum"));
    }
    if request.active_duration_ms == 0 || request.epoch_ms == 0 {
        return Err(ProbeError::Protocol("duration and epoch must be non-zero"));
    }
    Ok(())
}

/// How far the relay is.
#[derive(Debug, Clone, Copy, PartialEq, Eq)]
pub enum AcceptorPhase {
    /// Nothing is to be done.
    Stopped,
    /// A control stream is to come.
    Idle,
    /// The type of the stream is to come.
    ReadingType,
    /// The version of the protocol is to come.
    ReadingVersion,
    /// The request for a stage is to come.
    Awaiting { request_id: Option<u64>, stage_index: u64 },
    /// A stage is running.
    Running { request: ProbeRequest },
    /// A stage, or its refusal, is to be reported.
    Reporting { request: ProbeRequest, end: ProbeEnd, refusal: Option<ProbeError> },
    /// The connection's probes are over with an error.
    Failed(ProbeError),
}

/// What the relay has to have done.
#[derive(Debug, Clone, Copy, PartialEq, Eq)]
pub enum AcceptorAction {
    /// Stop without an error.
    Stop,
    /// Accept a bidirectional stream and give it this priority.
    AcceptStream { priority: i32 },
    /// Read a number.
    ReadNumber,
    /// Read a control message.
    ReadMessage,
    /// Run a stage.
    RunStage(ProbeRequest),
    /// Log the report of a stage, send it and, if it is the last on the stream,
    /// finish the stream.
    Report { request: ProbeRequest, end: ProbeEnd, finish: bool, refusal: Option<ProbeError> },
    /// Stop with this error.
    Fail(ProbeError),
}

/// What happened on the relay's side.
#[derive(Debug, Clone, Copy, PartialEq, Eq)]
pub enum AcceptorEvent {
    /// A control stream came.
    StreamAccepted,
    /// A number came.
    Number(u64),
    /// A control message came, or what came was none.
    Message(ProbeResult<ProbeMessage>),
    /// A stage ended.
    StageEnded(ProbeEnd),
    /// A stage was reported.
    Reported,
}

/// The relay's side of a connection.
#[derive(Debug, Clone, Copy, PartialEq, Eq)]
pub struct Acceptor {
    pub max_target_bitrate_bps: u64,
    pub phase: AcceptorPhase,
}

/// Whether the report of a stage is the last on its stream.
pub open spec fn is_last_report(request: ProbeRequest, end: ProbeEnd) -> bool {
    ||| end.status != ProbeEndStatus::Completed
    ||| request.stage_index + 1 >= DEFAULT_STAGE_RATIOS_PERCENT@.len()
}

/// What a refused request is answered.
pub open spec fn refusal_end(request: ProbeRequest) -> ProbeEnd {
    SenderStageStats::zero().end(request, ProbeEndStatus::ProtocolError, 0, 0)
}

impl Acceptor {
    /// The relay before the first stream.
    pub open spec fn fresh(enabled: bool, max_target_bitrate_bps: u64) -> Acceptor {
        Acceptor {
            max_target_bitrate_bps,
            phase: if enabled {
                AcceptorPhase::Idle
            } else {
                AcceptorPhase::Stopped
            },
        }
    }

    /// What has to be done next.
    pub open spec fn next_action(self) -> AcceptorAction {
        match self.phase {
            AcceptorPhase::Stopped => AcceptorAction::Stop,
            AcceptorPhase::Idle => AcceptorAction::AcceptStream {
                priority: PROBE_CONTROL_PRIORITY,
            },
            AcceptorPhase::ReadingType => AcceptorAction::ReadNumber,
            AcceptorPhase::ReadingVersion => AcceptorAction::ReadNumber,
            AcceptorPhase::Awaiting { .. } => AcceptorAction::ReadMessage,
            AcceptorPhase::Running { request } => AcceptorAction::RunStage(request),
            AcceptorPhase::Reporting { request, end, refusal } => AcceptorAction::Report {
                request,
                end,
                finish: is_last_report(request, end),
                refusal,
            },
            AcceptorPhase::Failed(error) => AcceptorAction::Fail(error),
        }
    }

    /// Whether an event can answer what has to be done next.
    pub open spec fn may_take(self, event: AcceptorEvent) -> bool {
        match self.phase {
            AcceptorPhase::Stopped => false,
            AcceptorPhase::Idle => event is StreamAccepted,
            AcceptorPhase::ReadingType => event is Number,
            AcceptorPhase::ReadingVersion => event is Number,
            AcceptorPhase::Awaiting { .. } => event is Message,
            AcceptorPhase::Running { .. } => event is StageEnded,
            AcceptorPhase::Reporting { .. } => event is Reported,
            AcceptorPhase::Failed(_) => false,
        }
    }

    /// The phase after a control message where a request is due. A stream may end
    /// there.
    pub open spec fn received(
        self,
        request_id: Option<u64>,
        stage_index: u64,
        message: ProbeResult<ProbeMessage>,
    ) -> AcceptorPhase {
        match message {
            Ok(ProbeMessage::Request(request)) => match request_refusal(
                request,
                request_id,
                stage_index,
                self.max_target_bitrate_bps,
            ) {
                Some(error) => AcceptorPhase::Reporting {
                    request,
                    end: refusal_end(request),
                    refusal: Some(error),
                },
                None => AcceptorPhase::Running { request },
            },
            Ok(_) => AcceptorPhase::Failed(ProbeError::Protocol("expected PROBE_REQUEST")),
            Err(ProbeError::EndOfStream) => AcceptorPhase::Idle,
            Err(error) => AcceptorPhase::Failed(error),
        }
    }

    /// The phase after an event.
    pub open spec fn next(self, event: AcceptorEvent) -> AcceptorPhase {
        match (self.phase, event) {
            (AcceptorPhase::Idle, _) => AcceptorPhase::ReadingType,
            (AcceptorPhase::ReadingType, AcceptorEvent::Number(number)) => if number
                == PROBE_STREAM_TYPE {
                AcceptorPhase::ReadingVersion
            } else {
                AcceptorPhase::Failed(ProbeError::Protocol("unexpected bidirectional stream type"))
            },
            (AcceptorPhase::ReadingVersion, AcceptorEvent::Number(number)) => if number
                == PROBE_PROTOCOL_VERSION {
                AcceptorPhase::Awaiting { request_id: None, stage_index: 0 }
            } else {
                AcceptorPhase::Failed(ProbeError::InvalidVersion(number))
            },
            (
                AcceptorPhase::Awaiting { request_id, stage_index },
                AcceptorEvent::Message(message),
            ) => self.received(request_id, stage_index, message),
            (AcceptorPhase::Running { request }, AcceptorEvent::StageEnded(end)) =>
                AcceptorPhase::Reporting { request, end, refusal: None },
            (AcceptorPhase::Reporting { request, end, .. }, _) => if is_last_report(request, end) {
                AcceptorPhase::Idle
            } else {
                AcceptorPhase::Awaiting {
                    request_id: Some(request.request_id),
                    stage_index: (request.stage_index + 1) as u64,
                }
            },
            _ => self.phase,
        }
    }

    /// The relay's side of a new connection. It does nothing unless it is enabled.
    pub fn begin(config: &ProbeConfig) -> (acceptor: Acceptor)
        ensures
            acceptor == Acceptor::fresh(config.enabled, config.max_target_bitrate_bps),
    {
        Acceptor {
            max_target_bitrate_bps: config.max_target_bitrate_bps,
            phase: if config.enabled {
                AcceptorPhase::Idle
            } else {
                AcceptorPhase::Stopped
            },
        }
    }

    fn last_report(request: &ProbeRequest, end: &ProbeEnd) -> (last: bool)
        ensures
            last == is_last_report(*request, *end),
    {
        end.status != ProbeEndStatus::Completed || request.stage_index
            >= DEFAULT_STAGE_RATIOS_PERCENT.len() as u64 - 1
    }

    /// What has to be done next.
    pub fn action(&self) -> (action: AcceptorAction)
        ensures
            action == self.next_action(),
    {
        match self.phase {
            AcceptorPhase::Stopped => AcceptorAction::Stop,
            AcceptorPhase::Idle => AcceptorAction::AcceptStream {
                priority: PROBE_CONTROL_PRIORITY,
            },
            AcceptorPhase::ReadingType => AcceptorAction::ReadNumber,
            AcceptorPhase::ReadingVersion => AcceptorAction::ReadNumber,
            AcceptorPhase::Awaiting { .. } => AcceptorAction::ReadMessage,
            AcceptorPhase::Running { request } => AcceptorAction::RunStage(request),
            AcceptorPhase::Reporting { request, end, refusal } => AcceptorAction::Report {
                request,
                end,
                finish: Acceptor::last_report(&request, &end),
                refusal,
            },
            AcceptorPhase::Failed(error) => AcceptorAction::Fail(error),
        }
    }

    /// Whether an event can answer what has to be done next.
    pub fn accepts(&self, event: &AcceptorEvent) -> (accepted: bool)
        ensures
            accepted == self.may_take(*event),
    {
        match (self.phase, event) {
            (AcceptorPhase::Idle, AcceptorEvent::StreamAccepted) => true,
            (AcceptorPhase::ReadingType, AcceptorEvent::Number(_)) => true,
            (AcceptorPhase::ReadingVersion, AcceptorEvent::Number(_)) => true,
            (AcceptorPhase::Awaiting { .. }, AcceptorEvent::Message(_)) => true,
            (AcceptorPhase::Running { .. }, AcceptorEvent::StageEnded(_)) => true,
            (AcceptorPhase::Reporting { .. }, AcceptorEvent::Reported) => true,
            _ => false,
        }
    }

    fn receive(
        &self,
        request_id: Option<u64>,
        stage_index: u64,
        message: ProbeResult<ProbeMessage>,
    ) -> (phase: AcceptorPhase)
        ensures
            phase == self.received(request_id, stage_index, message),
    {
        let request: ProbeRequest = match message {
            Ok(ProbeMessage::Request(request)) => request,
            Err(ProbeError::EndOfStream) => return AcceptorPhase::Idle,
            Ok(_) => return AcceptorPhase::Failed(ProbeError::Protocol("expected PROBE_REQUEST")),
            Err(error) => return AcceptorPhase::Failed(error),
        };
        match validate_request(&request, request_id, stage_index, self.max_target_bitrate_bps) {
            Err(error) => AcceptorPhase::Reporting {
                request,
                end: sender_end_in_millis(
                    &request,
                    ProbeEndStatus::ProtocolError,
                    &SenderStageStats::default(),
                    0,
                    0,
                ),
                refusal: Some(error),
            },
            Ok(()) => AcceptorPhase::Running { request },
        }
    }

    /// Takes an event that answers the last action.
    pub fn step(&mut self, event: AcceptorEvent)
        requires
            old(self).may_take(event),
        ensures
            final(self).phase == old(self).next(event),
            final(self).max_target_bitrate_bps == old(self).max_target_bitrate_bps,
    {
        let phase: AcceptorPhase = match (self.phase, event) {
            (AcceptorPhase::Idle, _) => AcceptorPhase::ReadingType,
            (AcceptorPhase::ReadingType, AcceptorEvent::Number(number)) => {
                if number == PROBE_STREAM_TYPE {
                    AcceptorPhase::ReadingVersion
                } else {
                    AcceptorPhase::Failed(
                        ProbeError::Protocol("unexpected bidirectional stream type"),
                    )
                }
            },
            (AcceptorPhase::ReadingVersion, AcceptorEvent::Number(number)) => {
                if number == PROBE_PROTOCOL_VERSION {
                    AcceptorPhase::Awaiting { request_id: None, stage_index: 0 }
                } else {
                    AcceptorPhase::Failed(ProbeError::InvalidVersion(number))
                }
            },
            (
                AcceptorPhase::Awaiting { request_id, stage_index },
                AcceptorEvent::Message(message),
            ) => self.receive(request_id, stage_index, message),
            (AcceptorPhase::Running { request }, AcceptorEvent::StageEnded(end)) =>
                AcceptorPhase::Reporting { request, end, refusal: None },
            (AcceptorPhase::Reporting { request, end, .. }, _) => {
                if Acceptor::last_report(&request, &end) {
                    AcceptorPhase::Idle
                } else {
                    AcceptorPhase::Awaiting {
                        request_id: Some(request.request_id),
                        stage_index: request.stage_index + 1,
                    }
                }
            },
            (phase, _) => phase,
        };
        self.phase = phase;
    }
}

/// The relay after events in their order.
pub open spec fn after_events(acceptor: Acceptor, events: Seq<AcceptorEvent>) -> Acceptor
    decreases events.len(),
{
    if events.len() == 0 {
        acceptor
    } else {
        let before = after_events(acceptor, events.drop_last());
        Acceptor { phase: before.next(events.last()), ..before }
    }
}

/// Whether each event answers what had to be done when it came.
pub open spec fn takes(acceptor: Acceptor, events: Seq<AcceptorEvent>) -> bool
    decreases events.len(),
{
    events.len() > 0 ==> takes(acceptor, events.drop_last()) && after_events(
        acceptor,
        events.drop_last(),
    ).may_take(events.last())
}

/// The stages that ran on the last stream to its end, each with its report.
pub open spec fn stages_run(acceptor: Acceptor, events: Seq<AcceptorEvent>) -> Seq<
    (ProbeRequest, ProbeEnd),
>
    decreases events.len(),
{
    if events.len() == 0 {
        Seq::empty()
    } else {
        let before = stages_run(acceptor, events.drop_last());
        match (after_events(acceptor, events.drop_last()).phase, events.last()) {
            (_, AcceptorEvent::StreamAccepted) => Seq::empty(),
            (AcceptorPhase::Running { request }, AcceptorEvent::StageEnded(end)) => before.push(
                (request, end),
            ),
            _ => before,
        }
    }
}

/// Whether stages are those of one logical probe from its beginning: all of one
/// request id, each at its place with its ratio, within the limit, and each but
/// the last completed.
pub open spec fn in_order(stages: Seq<(ProbeRequest, ProbeEnd)>, limit: u64) -> bool {
    &&& stages.len() <= 3
    &&& forall|i: int|
        0 <= i < stages.len() ==> {
            let request = (#[trigger] stages[i]).0;
            &&& request.request_id == stages[0].0.request_id
            &&& request.stage_index == i
            &&& Some(request.stage_ratio_percent) == stage_ratio(request.stage_index)
            &&& request.stage_target_bps <= limit
            &&& request.active_duration_ms > 0
            &&& request.epoch_ms > 0
        }
    &&& forall|i: int|
        0 <= i < stages.len() - 1 ==> (#[trigger] stages[i]).1.status == ProbeEndStatus::Completed
}

/// On every stream, stages run in the order of their ratios for one logical probe,
/// each only after the one before it has completed.
pub proof fn stages_run_in_order(acceptor: Acceptor, events: Seq<AcceptorEvent>)
    requires
        acceptor.phase is Idle || acceptor.phase is Stopped,
        takes(acceptor, events),
    ensures
        in_order(stages_run(acceptor, events), acceptor.max_target_bitrate_bps),
        after_events(acceptor, events).next_action() matches AcceptorAction::RunStage(request)
            ==> forall|end: ProbeEnd|
            in_order(
                #[trigger] stages_run(acceptor, events).push((request, end)),
                acceptor.max_target_bitrate_bps,
            ),
{
    order_holds(acceptor, events);
    let stages = stages_run(acceptor, events);
    if let AcceptorPhase::Running { request } = after_events(acceptor, events).phase {
        assert forall|end: ProbeEnd|
            in_order(#[trigger] stages.push((request, end)), acceptor.max_target_bitrate_bps) by {
            order_grows(stages, request, end, acceptor.max_target_bitrate_bps);
        }
    }
}

spec fn fits_behind(
    stages: Seq<(ProbeRequest, ProbeEnd)>,
    request_id: Option<u64>,
    stage_index: u64,
) -> bool {
    &&& stages.len() == stage_index
    &&& stage_index < 3
    &&& request_id == if stages.len() == 0 {
        None
    } else {
        Some(stages[0].0.request_id)
    }
    &&& stages.len() > 0 ==> stages.last().1.status == ProbeEndStatus::Completed
}

spec fn runnable(
    stages: Seq<(ProbeRequest, ProbeEnd)>,
    request: ProbeRequest,
    limit: u64,
) -> bool {
    &&& stages.len() > 0 ==> request.request_id == stages[0].0.request_id
    &&& stages.len() > 0 ==> stages.last().1.status == ProbeEndStatus::Completed
    &&& request.stage_index == stages.len()
    &&& Some(request.stage_ratio_percent) == stage_ratio(request.stage_index)
    &&& request.stage_target_bps <= limit
    &&& request.active_duration_ms > 0
    &&& request.epoch_ms > 0
}

proof fn order_grows(
    stages: Seq<(ProbeRequest, ProbeEnd)>,
    request: ProbeRequest,
    end: ProbeEnd,
    limit: u64,
)
    requires
        in_order(stages, limit),
        runnable(stages, request, limit),
    ensures
        in_order(stages.push((request, end)), limit),
{
    let longer = stages.push((request, end));
    assert(forall|i: int| 0 <= i < stages.len() ==> longer[i] == stages[i]);
}

proof fn order_holds(acceptor: Acceptor, events: Seq<AcceptorEvent>)
    requires
        acceptor.phase is Idle || acceptor.phase is Stopped,
        takes(acceptor, events),
    ensures
        in_order(stages_run(acceptor, events), acceptor.max_target_bitrate_bps),
        after_events(acceptor, events).max_target_bitrate_bps == acceptor.max_target_bitrate_bps,
        match after_events(acceptor, events).phase {
            AcceptorPhase::ReadingType => stages_run(acceptor, events).len() == 0,
            AcceptorPhase::ReadingVersion => stages_run(acceptor, events).len() == 0,
            AcceptorPhase::Awaiting { request_id, stage_index } => fits_behind(
                stages_run(acceptor, events),
                request_id,
                stage_index,
            ),
            AcceptorPhase::Running { request } => runnable(
                stages_run(acceptor, events),
                request,
                acceptor.max_target_bitrate_bps,
            ),
            AcceptorPhase::Reporting { request, end, refusal } => refusal is None ==> {
                &&& stages_run(acceptor, events).len() > 0
                &&& stages_run(acceptor, events).last() == (request, end)
            },
            _ => true,
        },
        after_events(acceptor, events).phase matches AcceptorPhase::Reporting {
            request,
            end,
            refusal,
        } ==> refusal is Some ==> end == refusal_end(request),
    decreases events.len(),
{
    if events.len() > 0 {
        let shorter = events.drop_last();
        order_holds(acceptor, shorter);
        let stages = stages_run(acceptor, shorter);
        match (after_events(acceptor, shorter).phase, events.last()) {
            (AcceptorPhase::Running { request }, AcceptorEvent::StageEnded(end)) => {
                order_grows(stages, request, end, acceptor.max_target_bitrate_bps);
            },
            _ => {},
        }
    }
}

/// A refused request is answered with the report of a protocol error that counts
/// nothing and is about the stage that was asked for, and its stream is finished.
/// The stage is not run.
pub proof fn refused_request_is_answered(
    acceptor: Acceptor,
    request_id: Option<u64>,
    stage_index: u64,
    request: ProbeRequest,
)
    requires
        acceptor.phase == (AcceptorPhase::Awaiting { request_id, stage_index }),
        request_refusal(request, request_id, stage_index, acceptor.max_target_bitrate_bps) is Some,
    ensures
        ({
            let answered = Acceptor {
                phase: acceptor.next(
                    AcceptorEvent::Message(Ok(ProbeMessage::Request(request))),
                ),
                ..acceptor
            };
            &&& answered.next_action() == AcceptorAction::Report {
                request,
                end: ProbeEnd {
                    request_id: request.request_id,
                    stage_index: request.stage_index,
                    status: ProbeEndStatus::ProtocolError,
                    attempted_padding_bytes: 0,
                    accepted_padding_bytes: 0,
                    media_accepted_payload_bytes: 0,
                    padding_pending_seen: false,
                    stage_active_duration_ms: 0,
                },
                finish: true,
                refusal: request_refusal(
                    request,
                    request_id,
                    stage_index,
                    acceptor.max_target_bitrate_bps,
                ),
            }
            &&& answered.next(AcceptorEvent::Reported) is Idle
        }),
{
}

/// A relay that is not enabled does nothing.
pub proof fn disabled_relay_stops(max_target_bitrate_bps: u64, event: AcceptorEvent)
    ensures
        Acceptor::fresh(false, max_target_bitrate_bps).next_action() is Stop,
        !Acceptor::fresh(false, max_target_bitrate_bps).may_take(event),
{
}

/// How many requests came.
pub open spec fn requests_taken(events: Seq<AcceptorEvent>) -> int
    decreases events.len(),
{
    if events.len() == 0 {
        0
    } else {
        requests_taken(events.drop_last()) + match events.last() {
            AcceptorEvent::Message(Ok(ProbeMessage::Request(_))) => 1int,
            _ => 0,
        }
    }
}

/// How many reports went out.
pub open spec fn reports_sent(events: Seq<AcceptorEvent>) -> int
    decreases events.len(),
{
    if events.len() == 0 {
        0
    } else {
        reports_sent(events.drop_last()) + if events.last() is Reported {
            1int
        } else {
            0
        }
    }
}

/// Every request is answered with one report, before anything else is read.
pub proof fn every_request_is_answered(acceptor: Acceptor, events: Seq<AcceptorEvent>)
    requires
        acceptor.phase is Idle || acceptor.phase is Stopped,
        takes(acceptor, events),
    ensures
        ({
            let phase = after_events(acceptor, events).phase;
            requests_taken(events) == reports_sent(events) + if phase is Running
                || phase is Reporting {
                1int
            } else {
                0
            }
        }),
    decreases events.len(),
{
    if events.len() > 0 {
        every_request_is_answered(acceptor, events.drop_last());
    }
}

/// A request is run if and only if it asks for the stage that is next, of the same
/// logical probe where one has begun, with that stage's ratio of 50, 75 or 100
/// percent, within the relay's limit, and for some time. Otherwise the first thing
/// that is wrong is the error.
pub proof fn next_stage_is_run(
    request: ProbeRequest,
    expected_request_id: Option<u64>,
    expected_stage_index: u64,
    max_target_bitrate_bps: u64,
)
    ensures
        request_refusal(
            request,
            expected_request_id,
            expected_stage_index,
            max_target_bitrate_bps,
        ) == if request.stage_index != expected_stage_index {
            Some(ProbeError::Protocol("unexpected stage index"))
        } else if expected_request_id is Some && expected_request_id->0 != request.request_id {
            Some(ProbeError::Protocol("request ID changed within logical Probe"))
        } else if request.stage_index > 2 {
            Some(ProbeError::Protocol("stage index out of range"))
        } else if request.stage_index == 0 && request.stage_ratio_percent != 50
            || request.stage_index == 1 && request.stage_ratio_percent != 75
            || request.stage_index == 2 && request.stage_ratio_percent != 100 {
            Some(ProbeError::Protocol("unexpected stage ratio"))
        } else if request.stage_target_bps > max_target_bitrate_bps {
            Some(ProbeError::Protocol("stage target exceeds configured maximum"))
        } else if request.active_duration_ms == 0 || request.epoch_ms == 0 {
            Some(ProbeError::Protocol("duration and epoch must be non-zero"))
        } else {
            None
        },
{
}

/// The report of a stage finishes its stream if and only if the stage did not
/// complete or was the third, whatever else it says. Otherwise the next request is
/// read from the same stream, for the stage behind it and of the same logical probe.
pub proof fn completed_stage_is_followed(
    acceptor: Acceptor,
    request: ProbeRequest,
    end: ProbeEnd,
    message: ProbeRequest,
)
    requires
        acceptor.phase == (AcceptorPhase::Running { request }),
    ensures
        ({
            let reporting = Acceptor {
                phase: acceptor.next(AcceptorEvent::StageEnded(end)),
                ..acceptor
            };
            let reported = Acceptor { phase: reporting.next(AcceptorEvent::Reported), ..acceptor };
            let last = end.status != ProbeEndStatus::Completed || request.stage_index >= 2;
            let answered = Acceptor {
                phase: reported.next(AcceptorEvent::Message(Ok(ProbeMessage::Request(message)))),
                ..acceptor
            };
            &&& reporting.next_action() == (AcceptorAction::Report {
                request,
                end,
                finish: last,
                refusal: None,
            })
            &&& last ==> reported.next_action() == (AcceptorAction::AcceptStream {
                priority: i32::MAX,
            })
            &&& !last ==> reported.next_action() == AcceptorAction::ReadMessage
            &&& !last ==> reported.phase == (AcceptorPhase::Awaiting {
                request_id: Some(request.request_id),
                stage_index: (request.stage_index + 1) as u64,
            })
            &&& !last && answered.next_action() is RunStage ==> {
                &&& message.request_id == request.request_id
                &&& message.stage_index == request.stage_index + 1
            }
        }),
{
}

/// A control stream begins with the type of a probe's stream and version 1 of its
/// protocol. It then has to ask for the first stage, of any logical probe.
pub proof fn control_streams_begin_with_their_numbers(
    max_target_bitrate_bps: u64,
    stream_type: u64,
    version: u64,
)
    ensures
        ({
            let idle = Acceptor::fresh(true, max_target_bitrate_bps);
            let typed = Acceptor { phase: idle.next(AcceptorEvent::StreamAccepted), ..idle };
            let versioned = Acceptor {
                phase: typed.next(AcceptorEvent::Number(stream_type)),
                ..idle
            };
            let open = Acceptor { phase: versioned.next(AcceptorEvent::Number(version)), ..idle };
            &&& idle.next_action() == (AcceptorAction::AcceptStream { priority: i32::MAX })
            &&& idle.max_target_bitrate_bps == max_target_bitrate_bps
            &&& typed.next_action() == AcceptorAction::ReadNumber
            &&& stream_type != 0xff00_0001 ==> versioned.next_action() == AcceptorAction::Fail(
                ProbeError::Protocol("unexpected bidirectional stream type"),
            )
            &&& stream_type == 0xff00_0001 ==> versioned.next_action()
                == AcceptorAction::ReadNumber
            &&& stream_type == 0xff00_0001 && version != 1 ==> open.next_action()
                == AcceptorAction::Fail(ProbeError::InvalidVersion(version))
            &&& stream_type == 0xff00_0001 && version == 1 ==> {
                &&& open.next_action() == AcceptorAction::ReadMessage
                &&& open.phase == (AcceptorPhase::Awaiting { request_id: None, stage_index: 0 })
            }
        }),
{
}

/// Where a request is due, one that can be run is run, and the stream may end.
/// Another message, and any other failure to read one, stops the relay with its
/// error.
pub proof fn only_requests_are_taken(
    acceptor: Acceptor,
    request_id: Option<u64>,
    stage_index: u64,
    message: ProbeMessage,
    error: ProbeError,
)
    requires
        acceptor.phase == (AcceptorPhase::Awaiting { request_id, stage_index }),
    ensures
        acceptor.next(AcceptorEvent::Message(Ok(message))) == match message {
            ProbeMessage::Request(request) => match request_refusal(
                request,
                request_id,
                stage_index,
                acceptor.max_target_bitrate_bps,
            ) {
                None => AcceptorPhase::Running { request },
                Some(refusal) => AcceptorPhase::Reporting {
                    request,
                    end: ProbeEnd {
                        request_id: request.request_id,
                        stage_index: request.stage_index,
                        status: ProbeEndStatus::ProtocolError,
                        attempted_padding_bytes: 0,
                        accepted_padding_bytes: 0,
                        media_accepted_payload_bytes: 0,
                        padding_pending_seen: false,
                        stage_active_duration_ms: 0,
                    },
                    refusal: Some(refusal),
                },
            },
            _ => AcceptorPhase::Failed(ProbeError::Protocol("expected PROBE_REQUEST")),
        },
        acceptor.next(AcceptorEvent::Message(Err(error))) == if error == ProbeError::EndOfStream {
            AcceptorPhase::Idle
        } else {
            AcceptorPhase::Failed(error)
        },
{
}

/// Every action is answered by its own events, and a relay that has stopped by none.
/// What runs and what fails is what the phase says.
pub proof fn actions_have_their_answers(
    acceptor: Acceptor,
    event: AcceptorEvent,
    request: ProbeRequest,
    error: ProbeError,
)
    ensures
        match acceptor.next_action() {
            AcceptorAction::AcceptStream { .. } => acceptor.may_take(event) <==> event
                is StreamAccepted,
            AcceptorAction::ReadNumber => acceptor.may_take(event) <==> event is Number,
            AcceptorAction::ReadMessage => acceptor.may_take(event) <==> event is Message,
            AcceptorAction::RunStage(_) => acceptor.may_take(event) <==> event is StageEnded,
            AcceptorAction::Report { .. } => acceptor.may_take(event) <==> event is Reported,
            AcceptorAction::Stop => !acceptor.may_take(event),
            AcceptorAction::Fail(_) => !acceptor.may_take(event),
        },
        acceptor.phase == (AcceptorPhase::Running { request }) ==> acceptor.next_action()
            == AcceptorAction::RunStage(request),
        acceptor.phase == AcceptorPhase::Failed(error) ==> acceptor.next_action()
            == AcceptorAction::Fail(error),
{
}

} // verus!
