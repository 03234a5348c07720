//! The course of a modem session, step by step: which state a run is in, and what each answer of
//! its surroundings makes of it.
use crate::action::{ActionModel, EventModel};
use crate::at::{registration_status_of, value_of};
use crate::command::{
    after_exchange_event, dial_meaning, exchange_awaits, new_exchange, ExchangeModel,
    ExchangeTurnModel, Reply,
};
use crate::config::{seconds, ConfigModel};
use crate::error::{worth_retrying, ErrorModel, ModemPPPError};
use crate::status::{entered, ModemPhaseStatus, ModemState, SharedModel};
use crate::text::line_text;
use crate::time::{deadline_after, elapsed_between, Duration, Timestamp, NANOS_PER_MILLI};
use crate::transport::read_poll_span;
use vstd::prelude::*;
use vstd::utf8::encode_utf8;

verus! {

/// What a command is sent for.
#[derive(Clone, Copy, Debug, PartialEq, Eq, Structural)]
pub enum Purpose {
    /// To find the modem listening; the attempts are counted from zero.
    Synchronize { attempt: u8 },
    /// To have it repeat no commands.
    DisableEcho,
    /// To have it spell out errors.
    VerboseErrors,
    /// To have it use no flow control.
    DisableFlowControl,
    /// To see whether the SIM is ready.
    QuerySim,
    /// To unlock the SIM.
    UnlockSim,
    /// To see whether a network has taken the modem; `legacy` asks with the older command.
    Register { deadline: Timestamp, legacy: bool },
    /// To name the network to join.
    DefineContext,
    /// To see whether a lost modem still takes commands.
    Probe,
    /// To see whether it does after the escape sequence.
    ProbeAgain,
    /// To end the call of a recovered modem.
    HangUp,
}

/// How far the shutdown of the PPP stack is.
#[derive(Clone, Copy, Debug, PartialEq, Eq, Structural)]
pub enum ShutdownProgress {
    /// Asking whether it runs.
    Query,
    /// Stopping it.
    Stop,
    /// Reading what the peer still sends.
    Drain { deadline: Timestamp },
    /// Handing that on to it.
    Deliver { deadline: Timestamp },
}

/// What follows once the PPP stack is shut down.
pub enum AfterModel {
    /// The session ends: on request, or with an error.
    EndSession(Option<ErrorModel>),
    /// The modem is brought back to taking commands.
    Recover,
    /// The run ends.
    Finish,
}

/// Where a run stands.
#[verifier::ext_equal]
pub enum StageModel {
    /// It has not begun.
    Ready,
    /// A command is exchanged.
    Command(Purpose, ExchangeModel),
    /// It waits before it asks about the registration again.
    RegistrationPause { deadline: Timestamp, legacy: bool },
    /// The dial command is written.
    DialWriting,
    /// The reply to the dial command is read.
    DialReading { deadline: Timestamp },
    /// The PPP stack is started.
    StartingPpp,
    /// Data for the PPP stack is read.
    Online { deadline: Timestamp, was_connected: bool },
    /// Data is handed to the PPP stack.
    Delivering { deadline: Timestamp, was_connected: bool },
    /// The PPP stack is shut down.
    Shutdown(ShutdownProgress, AfterModel),
    /// Recovery: asking whether the PPP stack runs.
    RecoveryQuery,
    /// Recovery: forgetting old input.
    RecoveryDiscard,
    /// Recovery: the silence before the escape sequence.
    GuardBefore,
    /// Recovery: writing the escape sequence.
    Escape,
    /// Recovery: the silence behind it.
    GuardAfter,
    /// Recovery: forgetting old input again.
    RecoveryDiscardAgain,
    /// It waits before the next session.
    BackOff,
    /// It is over.
    Finished,
}

/// What a run keeps in mind from stage to stage: how it is configured, how many retries it has made,
/// and since when the session at hand has been connected.
#[verifier::ext_equal]
pub struct RecordModel {
    pub config: ConfigModel,
    pub retry: nat,
    pub connected_since: Option<Timestamp>,
}

/// A run as the contracts speak of it.
#[verifier::ext_equal]
pub struct RunnerModel {
    pub record: RecordModel,
    pub stage: StageModel,
}

/// What comes of an event: the run after it, what is shared after it, and the next action.
#[verifier::ext_equal]
pub struct Turn {
    pub runner: RunnerModel,
    pub shared: SharedModel,
    pub action: ActionModel,
}

/// Whether a run at `stage` is bringing a modem back for another session.
pub open spec fn is_recovering(stage: StageModel) -> bool {
    match stage {
        StageModel::Command(Purpose::Probe, _)
        | StageModel::Command(Purpose::ProbeAgain, _)
        | StageModel::Command(Purpose::HangUp, _)
        | StageModel::Shutdown(_, AfterModel::Recover)
        | StageModel::RecoveryQuery
        | StageModel::RecoveryDiscard
        | StageModel::GuardBefore
        | StageModel::Escape
        | StageModel::GuardAfter
        | StageModel::RecoveryDiscardAgain
        | StageModel::BackOff => true,
        _ => false,
    }
}

/// Whether a run keeps to its retries: it has made no more of them than there are delays, and
/// fewer while it is bringing the modem back.
pub open spec fn within_retries(runner: RunnerModel) -> bool {
    &&& runner.record.retry <= runner.record.config.retry_delays.len()
    &&& is_recovering(runner.stage) ==> runner.record.retry < runner.record.config.retry_delays.len()
}

/// How often a modem is asked to listen before it is given up.
pub const SYNC_ATTEMPTS: u8 = 3;

/// The silence in milliseconds on both sides of the escape sequence.
pub const ESCAPE_GUARD_MS: u32 = 1100;

/// The pause in milliseconds between two questions about the registration.
pub const REGISTRATION_PAUSE_MS: u32 = 1000;

/// The most data that is read at once while the modem is online.
pub const ONLINE_READ: usize = 4096;

/// The most data that is read at once while PPP is shut down.
pub const SHUTDOWN_READ: usize = 512;

/// The seconds a connection must have lasted for its retries to be forgotten.
pub const STABLE_SECS: u64 = 60;

/// The seconds that the first command of a recovery may take.
pub const PROBE_SECS: u64 = 1;

/// The command that a purpose is served by.
pub open spec fn command_text(purpose: Purpose, config: ConfigModel) -> Seq<char> {
    match purpose {
        Purpose::Synchronize { .. } | Purpose::Probe | Purpose::ProbeAgain => "AT"@,
        Purpose::DisableEcho => "ATE0"@,
        Purpose::VerboseErrors => "AT+CMEE=2"@,
        Purpose::DisableFlowControl => "AT+IFC=0,0"@,
        Purpose::QuerySim => "AT+CPIN?"@,
        Purpose::UnlockSim => "AT+CPIN=\""@ + config.pin->0 + "\""@,
        Purpose::Register { legacy, .. } => if legacy {
            "AT+CGREG?"@
        } else {
            "AT+CEREG?"@
        },
        Purpose::DefineContext => "AT+CGDCONT=1,\"IP\",\""@ + config.apn + "\""@,
        Purpose::HangUp => "ATH"@,
    }
}

/// How long the reply to the command of a purpose may take.
pub open spec fn reply_timeout(purpose: Purpose, config: ConfigModel) -> Duration {
    if purpose == Purpose::Probe {
        seconds(PROBE_SECS as int)
    } else {
        config.command_timeout
    }
}

/// The bytes that dial the network.
pub open spec fn dial_bytes() -> Seq<u8> {
    encode_utf8("ATD*99***1#\r"@)
}

/// The bytes that make a modem that is online listen to commands.
pub open spec fn escape_bytes() -> Seq<u8> {
    encode_utf8("+++"@)
}

/// The milliseconds in `span` as the timer takes them: a whole number of 32 bits.
pub open spec fn timer_millis(span: Duration) -> u32 {
    ((span.nanos / NANOS_PER_MILLI) % 0x1_0000_0000) as u32
}

/// The run goes on to `stage` with `action`.
pub open spec fn go_on(
    record: RecordModel,
    shared: SharedModel,
    stage: StageModel,
    action: ActionModel,
) -> Turn {
    Turn { runner: RunnerModel { record, stage }, shared, action }
}

/// A command is sent.
pub open spec fn ask(record: RecordModel, shared: SharedModel, purpose: Purpose) -> Turn {
    let command = command_text(purpose, record.config);
    go_on(
        record,
        shared,
        StageModel::Command(
            purpose,
            new_exchange(command, reply_timeout(purpose, record.config)),
        ),
        ActionModel::Write(encode_utf8(command)),
    )
}

/// The run is over with `error`.
pub open spec fn fail(record: RecordModel, shared: SharedModel, error: ErrorModel) -> Turn {
    go_on(
        record,
        entered(shared, ModemState::Failed, Some(error)),
        StageModel::Finished,
        ActionModel::Finish(Err(error)),
    )
}

/// The PPP stack is shut down, with `after` to follow.
pub open spec fn shut_down(record: RecordModel, shared: SharedModel, after: AfterModel) -> Turn {
    go_on(
        record,
        shared,
        StageModel::Shutdown(ShutdownProgress::Query, after),
        ActionModel::QueryPpp,
    )
}

/// The run ends as it was asked to.
pub open spec fn wind_up(record: RecordModel, shared: SharedModel) -> Turn {
    shut_down(record, shared, AfterModel::Finish)
}

/// A session begins, unless a stop was asked for.
pub open spec fn begin_session(record: RecordModel, shared: SharedModel) -> Turn {
    if shared.stop {
        wind_up(record, shared)
    } else {
        ask(
            RecordModel { connected_since: None, ..record },
            entered(
                SharedModel { ppp_error: None, ..shared },
                ModemState::Initializing,
                None,
            ),
            Purpose::Synchronize { attempt: 0 },
        )
    }
}

/// The run after a session, with the retries forgotten if the session had a lasting connection.
pub open spec fn retries_settled(record: RecordModel, now: Timestamp) -> RecordModel {
    match record.connected_since {
        Some(since) if elapsed_between(since, now).nanos >= seconds(STABLE_SECS as int).nanos => RecordModel {
            retry: 0,
            ..record
        },
        _ => record,
    }
}

/// A session ended with `error`. The run ends as asked if a stop was asked for, fails if the error
/// is final or no retry is left, and recovers the modem for another session otherwise.
#[verifier::opaque]
pub open spec fn end_session(
    record: RecordModel,
    shared: SharedModel,
    now: Timestamp,
    error: ErrorModel,
) -> Turn {
    if shared.stop {
        wind_up(record, shared)
    } else {
        let settled = retries_settled(record, now);
        if !worth_retrying(error) || settled.retry == settled.config.retry_delays.len() {
            fail(settled, shared, error)
        } else {
            go_on(
                settled,
                entered(shared, ModemState::Recovering, Some(error)),
                StageModel::RecoveryQuery,
                ActionModel::QueryPpp,
            )
        }
    }
}

/// The modem takes commands again: the next session follows after a delay.
pub open spec fn recovered(record: RecordModel, shared: SharedModel) -> Turn {
    go_on(
        record,
        shared,
        StageModel::BackOff,
        ActionModel::Delay(timer_millis(record.config.retry_delays[record.retry as int])),
    )
}

/// The SIM is ready: the modem looks for a network.
#[verifier::opaque]
pub open spec fn sim_ready(record: RecordModel, shared: SharedModel, now: Timestamp) -> Turn {
    if shared.stop {
        wind_up(record, shared)
    } else {
        ask(
            record,
            entered(shared, ModemState::Registering, None),
            Purpose::Register {
                deadline: deadline_after(now, record.config.registration_timeout),
                legacy: false,
            },
        )
    }
}

/// The SIM reported its state. It is ready, or wants the PIN, or cannot be used.
#[verifier::opaque]
pub open spec fn check_sim(
    record: RecordModel,
    shared: SharedModel,
    now: Timestamp,
    lines: Seq<Seq<char>>,
) -> Turn {
    let state = match value_of(lines, "+CPIN:"@) {
        Some(state) => state,
        None => Seq::empty(),
    };
    if state == "READY"@ {
        sim_ready(record, shared, now)
    } else if state != "SIM PIN"@ {
        end_session(record, shared, now, ErrorModel::SimPinRejected)
    } else if record.config.pin is None {
        end_session(record, shared, now, ErrorModel::SimPinRequired)
    } else {
        ask(record, shared, Purpose::UnlockSim)
    }
}

/// The registration status that a reply holds, if it holds one.
pub open spec fn reported_registration(lines: Seq<Seq<char>>, legacy: bool) -> Option<u8> {
    match value_of(
        lines,
        if legacy {
            "+CGREG:"@
        } else {
            "+CEREG:"@
        },
    ) {
        Some(value) => registration_status_of(value),
        None => None,
    }
}

/// No network has taken the modem yet: it asks again after a pause, while there is time.
#[verifier::opaque]
pub open spec fn keep_registering(
    record: RecordModel,
    shared: SharedModel,
    now: Timestamp,
    deadline: Timestamp,
    legacy: bool,
) -> Turn {
    if shared.stop {
        wind_up(record, shared)
    } else if now.nanos >= deadline.nanos {
        end_session(
            record,
            shared,
            now,
            ErrorModel::Timeout("waiting for cellular registration"@),
        )
    } else {
        go_on(
            record,
            shared,
            StageModel::RegistrationPause { deadline, legacy },
            ActionModel::Delay(REGISTRATION_PAUSE_MS),
        )
    }
}

/// A question about the registration was answered. Status 1 is the home network and 5 a foreign
/// one; 3 is a refusal. A modem that does not know the command is asked with the older one.
#[verifier::opaque]
pub open spec fn check_registration(
    record: RecordModel,
    shared: SharedModel,
    now: Timestamp,
    deadline: Timestamp,
    legacy: bool,
    result: Result<Seq<Seq<char>>, ErrorModel>,
) -> Turn {
    match result {
        Ok(lines) => {
            let status = reported_registration(lines, legacy);
            if status == Some(1u8) || status == Some(5u8) {
                if shared.stop {
                    wind_up(record, shared)
                } else {
                    ask(record, shared, Purpose::DefineContext)
                }
            } else if status == Some(3u8) {
                end_session(record, shared, now, ErrorModel::RegistrationDenied)
            } else {
                keep_registering(record, shared, now, deadline, legacy)
            }
        },
        Err(ErrorModel::At(_)) if !legacy => keep_registering(record, shared, now, deadline, true),
        Err(error) => end_session(record, shared, now, error),
    }
}

/// A command was answered.
#[verifier::opaque]
pub open spec fn command_done(
    record: RecordModel,
    shared: SharedModel,
    now: Timestamp,
    purpose: Purpose,
    result: Result<Seq<Seq<char>>, ErrorModel>,
) -> Turn {
    match (purpose, result) {
        (Purpose::Synchronize { .. }, Ok(_)) => ask(record, shared, Purpose::DisableEcho),
        (Purpose::Synchronize { attempt }, Err(_)) => if attempt + 1 < SYNC_ATTEMPTS {
            ask(record, shared, Purpose::Synchronize { attempt: (attempt + 1) as u8 })
        } else {
            end_session(
                record,
                shared,
                now,
                ErrorModel::Timeout("synchronizing with the modem"@),
            )
        },
        (Purpose::DisableEcho, Ok(_)) => ask(record, shared, Purpose::VerboseErrors),
        (Purpose::VerboseErrors, Ok(_)) => ask(record, shared, Purpose::DisableFlowControl),
        (Purpose::DisableFlowControl, Ok(_)) => ask(record, shared, Purpose::QuerySim),
        (Purpose::QuerySim, Ok(lines)) => check_sim(record, shared, now, lines),
        (Purpose::UnlockSim, Ok(_)) => sim_ready(record, shared, now),
        (Purpose::UnlockSim, Err(_)) => end_session(
            record,
            shared,
            now,
            ErrorModel::SimPinRejected,
        ),
        (Purpose::Register { deadline, legacy }, result) => check_registration(
            record,
            shared,
            now,
            deadline,
            legacy,
            result,
        ),
        (Purpose::DefineContext, Ok(_)) => go_on(
            record,
            entered(shared, ModemState::Dialing, None),
            StageModel::DialWriting,
            ActionModel::Write(dial_bytes()),
        ),
        (Purpose::Probe, Ok(_)) | (Purpose::ProbeAgain, Ok(_)) => ask(
            record,
            shared,
            Purpose::HangUp,
        ),
        (Purpose::Probe, Err(_)) => go_on(
            record,
            shared,
            StageModel::GuardBefore,
            ActionModel::Delay(ESCAPE_GUARD_MS),
        ),
        (Purpose::ProbeAgain, Err(_)) => fail(record, shared, ErrorModel::RecoveryRequired),
        (Purpose::HangUp, _) => recovered(record, shared),
        (_, Err(error)) => end_session(record, shared, now, error),
    }
}

/// The reply to the dial command is read on.
pub open spec fn await_dial(
    record: RecordModel,
    shared: SharedModel,
    deadline: Timestamp,
) -> Turn {
    go_on(
        record,
        shared,
        StageModel::DialReading { deadline },
        ActionModel::ReadLine { deadline, operation: "dialing the modem"@ },
    )
}

/// A line of text came back after dialing.
#[verifier::opaque]
pub open spec fn dial_line(
    record: RecordModel,
    shared: SharedModel,
    now: Timestamp,
    deadline: Timestamp,
    line: Seq<char>,
) -> Turn {
    match dial_meaning(line) {
        Reply::Success => if shared.stop {
            wind_up(record, shared)
        } else {
            go_on(
                record,
                entered(shared, ModemState::NegotiatingPpp, None),
                StageModel::StartingPpp,
                ActionModel::StartPpp,
            )
        },
        Reply::Failure => end_session(record, shared, now, ErrorModel::At(line)),
        _ => await_dial(record, shared, deadline),
    }
}

/// The modem is online: data is read for the PPP stack until the link ends. It ends on request, on
/// a PPP error that is not the user's own doing, when the addresses are lost after they were
/// there, and when none are there by `deadline`.
#[verifier::opaque]
pub open spec fn online(
    record: RecordModel,
    shared: SharedModel,
    now: Timestamp,
    deadline: Timestamp,
    was_connected: bool,
) -> Turn {
    let taken = SharedModel { ppp_error: None, ..shared };
    let connected = shared.status.state == ModemState::Connected;
    if shared.stop {
        shut_down(record, shared, AfterModel::EndSession(None))
    } else if shared.ppp_error is Some && shared.ppp_error != Some(ModemPPPError::User) {
        shut_down(
            record,
            taken,
            AfterModel::EndSession(Some(ErrorModel::Ppp(shared.ppp_error->0))),
        )
    } else if was_connected && shared.status.state == ModemState::Recovering {
        shut_down(record, taken, AfterModel::EndSession(Some(ErrorModel::ConnectionLost)))
    } else if !connected && !was_connected && now.nanos >= deadline.nanos {
        shut_down(
            record,
            taken,
            AfterModel::EndSession(Some(ErrorModel::Timeout("negotiating PPP"@))),
        )
    } else {
        go_on(
            RecordModel {
                connected_since: if connected && record.connected_since is None {
                    Some(now)
                } else {
                    record.connected_since
                },
                ..record
            },
            taken,
            StageModel::Online { deadline, was_connected: was_connected || connected },
            ActionModel::ReadData { capacity: ONLINE_READ as nat, timeout: read_poll_span() },
        )
    }
}

/// The PPP stack is shut down, or could not be.
#[verifier::opaque]
pub open spec fn shutdown_done(
    record: RecordModel,
    shared: SharedModel,
    now: Timestamp,
    after: AfterModel,
    result: Result<(), ErrorModel>,
) -> Turn {
    match (after, result) {
        (AfterModel::EndSession(_), Err(error)) => end_session(record, shared, now, error),
        (AfterModel::EndSession(Some(error)), Ok(())) => end_session(record, shared, now, error),
        (AfterModel::EndSession(None), Ok(())) => wind_up(record, shared),
        (AfterModel::Recover, Ok(())) => go_on(
            record,
            shared,
            StageModel::RecoveryDiscard,
            ActionModel::DiscardPending,
        ),
        (AfterModel::Finish, Ok(())) => go_on(
            record,
            entered(shared, ModemState::Stopped, None),
            StageModel::Finished,
            ActionModel::Finish(Ok(())),
        ),
        (_, Err(error)) => fail(record, shared, error),
    }
}

/// The PPP stack was told to stop: what the peer still sends is read until the stack is dead.
#[verifier::opaque]
pub open spec fn drain(
    record: RecordModel,
    shared: SharedModel,
    now: Timestamp,
    deadline: Timestamp,
    after: AfterModel,
) -> Turn {
    if now.nanos >= deadline.nanos {
        shutdown_done(record, shared, now, after, Err(ErrorModel::ShutdownTimeout))
    } else if shared.status.phase == ModemPhaseStatus::Dead {
        shutdown_done(record, shared, now, after, Ok(()))
    } else {
        go_on(
            record,
            shared,
            StageModel::Shutdown(ShutdownProgress::Drain { deadline }, after),
            ActionModel::ReadData { capacity: SHUTDOWN_READ as nat, timeout: read_poll_span() },
        )
    }
}

/// An event during the shutdown of the PPP stack.
#[verifier::opaque]
pub open spec fn shutdown_event(
    record: RecordModel,
    shared: SharedModel,
    now: Timestamp,
    progress: ShutdownProgress,
    after: AfterModel,
    event: EventModel,
) -> Turn {
    match (progress, event) {
        (ShutdownProgress::Query, EventModel::Started(Ok(true))) => go_on(
            record,
            entered(shared, ModemState::Stopping, None),
            StageModel::Shutdown(ShutdownProgress::Stop, after),
            ActionModel::StopPpp,
        ),
        (ShutdownProgress::Query, EventModel::Started(Ok(false))) => shutdown_done(
            record,
            shared,
            now,
            after,
            Ok(()),
        ),
        (ShutdownProgress::Query, EventModel::Started(Err(error))) => shutdown_done(
            record,
            shared,
            now,
            after,
            Err(ErrorModel::Esp(error)),
        ),
        (ShutdownProgress::Stop, EventModel::Driver(Ok(()))) => drain(
            record,
            shared,
            now,
            deadline_after(now, record.config.shutdown_timeout),
            after,
        ),
        (ShutdownProgress::Stop, EventModel::Driver(Err(error))) => shutdown_done(
            record,
            shared,
            now,
            after,
            Err(ErrorModel::Esp(error)),
        ),
        (ShutdownProgress::Drain { deadline }, EventModel::Data(Ok(data))) => if data.len() > 0 {
            go_on(
                record,
                shared,
                StageModel::Shutdown(ShutdownProgress::Deliver { deadline }, after),
                ActionModel::Deliver(data),
            )
        } else {
            drain(record, shared, now, deadline, after)
        },
        (ShutdownProgress::Drain { .. }, EventModel::Data(Err(error))) => shutdown_done(
            record,
            shared,
            now,
            after,
            Err(error),
        ),
        (ShutdownProgress::Deliver { deadline }, EventModel::Driver(Ok(()))) => drain(
            record,
            shared,
            now,
            deadline,
            after,
        ),
        (ShutdownProgress::Deliver { .. }, EventModel::Driver(Err(error))) => shutdown_done(
            record,
            shared,
            now,
            after,
            Err(ErrorModel::Esp(error)),
        ),
        _ => arbitrary(),
    }
}

/// Whether `event` is the answer that the shutdown of the PPP stack waits for.
pub open spec fn shutdown_awaits(progress: ShutdownProgress, event: EventModel) -> bool {
    match progress {
        ShutdownProgress::Query => event is Started,
        ShutdownProgress::Stop | ShutdownProgress::Deliver { .. } => event is Driver,
        ShutdownProgress::Drain { .. } => event is Data,
    }
}

/// Whether `event` is the answer that a run at `stage` waits for.
pub open spec fn awaits(stage: StageModel, event: EventModel) -> bool {
    match stage {
        StageModel::Ready | StageModel::Finished => false,
        StageModel::Command(_, exchange) => exchange_awaits(exchange, event),
        StageModel::DialWriting | StageModel::Escape => event is Written,
        StageModel::DialReading { .. } => event is Line,
        StageModel::StartingPpp | StageModel::Delivering { .. } => event is Driver,
        StageModel::Online { .. } => event is Data,
        StageModel::Shutdown(progress, _) => shutdown_awaits(progress, event),
        StageModel::RecoveryQuery => event is Started,
        StageModel::RegistrationPause { .. }
        | StageModel::RecoveryDiscard
        | StageModel::GuardBefore
        | StageModel::GuardAfter
        | StageModel::RecoveryDiscardAgain
        | StageModel::BackOff => event is Done,
    }
}

/// A run begins: no retry was made yet, and a stop that was asked for earlier is forgotten.
pub open spec fn start(record: RecordModel, shared: SharedModel) -> Turn {
    begin_session(
        RecordModel { retry: 0, ..record },
        SharedModel { stop: false, ..shared },
    )
}

/// An event while a command is exchanged.
#[verifier::opaque]
pub open spec fn command_event(
    record: RecordModel,
    shared: SharedModel,
    now: Timestamp,
    purpose: Purpose,
    exchange: ExchangeModel,
    event: EventModel,
) -> Turn {
    match after_exchange_event(exchange, now, event) {
        ExchangeTurnModel::Continue(exchange, action) => go_on(
            record,
            shared,
            StageModel::Command(purpose, exchange),
            action,
        ),
        ExchangeTurnModel::Done(result) => command_done(record, shared, now, purpose, result),
    }
}

/// An event while the call is set up.
#[verifier::opaque]
pub open spec fn dial_event(
    record: RecordModel,
    shared: SharedModel,
    now: Timestamp,
    stage: StageModel,
    event: EventModel,
) -> Turn {
    match (stage, event) {
        (StageModel::DialWriting, EventModel::Written(true)) => await_dial(
            record,
            shared,
            deadline_after(now, record.config.dial_timeout),
        ),
        (StageModel::DialWriting, EventModel::Written(false)) => end_session(
            record,
            shared,
            now,
            ErrorModel::Io,
        ),
        (StageModel::DialReading { deadline }, EventModel::Line(Ok(line))) => dial_line(
            record,
            shared,
            now,
            deadline,
            line_text(line),
        ),
        (StageModel::DialReading { .. }, EventModel::Line(Err(error))) => end_session(
            record,
            shared,
            now,
            error,
        ),
        _ => arbitrary(),
    }
}

/// An event while the link is up or coming up.
#[verifier::opaque]
pub open spec fn link_event(
    record: RecordModel,
    shared: SharedModel,
    now: Timestamp,
    stage: StageModel,
    event: EventModel,
) -> Turn {
    match (stage, event) {
        (StageModel::StartingPpp, EventModel::Driver(Ok(()))) => online(
            record,
            shared,
            now,
            deadline_after(now, record.config.ppp_timeout),
            false,
        ),
        (StageModel::Online { deadline, was_connected }, EventModel::Data(Ok(data))) => if data.len()
            > 0 {
            go_on(
                record,
                shared,
                StageModel::Delivering { deadline, was_connected },
                ActionModel::Deliver(data),
            )
        } else {
            online(record, shared, now, deadline, was_connected)
        },
        (StageModel::Delivering { deadline, was_connected }, EventModel::Driver(Ok(()))) => online(
            record,
            shared,
            now,
            deadline,
            was_connected,
        ),
        (_, EventModel::Data(Err(error))) => end_session(record, shared, now, error),
        (_, EventModel::Driver(Err(error))) => end_session(
            record,
            shared,
            now,
            ErrorModel::Esp(error),
        ),
        _ => arbitrary(),
    }
}

/// An event while a lost modem is brought back, other than the reply to a command. A modem that
/// does not listen is sent the escape sequence, with a silence on both sides of it.
#[verifier::opaque]
pub open spec fn recovery_event(
    record: RecordModel,
    shared: SharedModel,
    stage: StageModel,
    event: EventModel,
) -> Turn {
    match (stage, event) {
        (StageModel::RecoveryQuery, EventModel::Started(Ok(true))) => shut_down(
            record,
            shared,
            AfterModel::Recover,
        ),
        (StageModel::RecoveryQuery, EventModel::Started(Ok(false))) => go_on(
            record,
            shared,
            StageModel::RecoveryDiscard,
            ActionModel::DiscardPending,
        ),
        (StageModel::RecoveryQuery, EventModel::Started(Err(error))) => fail(
            record,
            shared,
            ErrorModel::Esp(error),
        ),
        (StageModel::RecoveryDiscard, EventModel::Done) => ask(record, shared, Purpose::Probe),
        (StageModel::GuardBefore, EventModel::Done) => go_on(
            record,
            shared,
            StageModel::Escape,
            ActionModel::Write(escape_bytes()),
        ),
        (StageModel::Escape, EventModel::Written(true)) => go_on(
            record,
            shared,
            StageModel::GuardAfter,
            ActionModel::Delay(ESCAPE_GUARD_MS),
        ),
        (StageModel::Escape, EventModel::Written(false)) => fail(record, shared, ErrorModel::Io),
        (StageModel::GuardAfter, EventModel::Done) => go_on(
            record,
            shared,
            StageModel::RecoveryDiscardAgain,
            ActionModel::DiscardPending,
        ),
        (StageModel::RecoveryDiscardAgain, EventModel::Done) => ask(
            record,
            shared,
            Purpose::ProbeAgain,
        ),
        _ => arbitrary(),
    }
}

/// What comes of the answer to the last action of a run. Of an answer that is not awaited, nothing
/// is said.
pub open spec fn proceed(
    runner: RunnerModel,
    shared: SharedModel,
    now: Timestamp,
    event: EventModel,
) -> Turn {
    match runner.stage {
        StageModel::Ready | StageModel::Finished => arbitrary(),
        StageModel::Command(purpose, exchange) => command_event(
            runner.record,
            shared,
            now,
            purpose,
            exchange,
            event,
        ),
        StageModel::RegistrationPause { deadline, legacy } => ask(
            runner.record,
            shared,
            Purpose::Register { deadline, legacy },
        ),
        StageModel::DialWriting | StageModel::DialReading { .. } => dial_event(
            runner.record,
            shared,
            now,
            runner.stage,
            event,
        ),
        StageModel::StartingPpp
        | StageModel::Online { .. }
        | StageModel::Delivering { .. } => link_event(runner.record, shared, now, runner.stage, event),
        StageModel::Shutdown(progress, after) => shutdown_event(
            runner.record,
            shared,
            now,
            progress,
            after,
            event,
        ),
        StageModel::BackOff => begin_session(
            RecordModel { retry: runner.record.retry + 1, ..runner.record },
            shared,
        ),
        _ => recovery_event(runner.record, shared, runner.stage, event),
    }
}

} // verus!
