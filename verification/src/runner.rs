//! The runner that takes a modem through its sessions.
//!
//! A runner does no input or output. It says what is to be done next, is told how that went, and
//! says what is to be done then.
use crate::action::{Action, ActionModel, Event};
use crate::at::{find_value, registration_status};
use crate::command::{classify_dial, exchange_awaits, CommandExchange, ExchangeTurn, Reply};
use crate::config::{config_fault, ConfigModel, ModemConfig};
use crate::error::{ErrorModel, ModemError, ModemPPPError};
use crate::handle::ModemHandle;
use crate::laws::{data_in, law_data_reaches_the_stack_unchanged};
use crate::reader::{ReadCall, TimedRead};
use crate::session::{
    ask, awaits, begin_session, check_registration, check_sim, command_done, command_event,
    command_text, dial_event, dial_line, drain, end_session, fail, is_recovering,
    keep_registering, link_event, online, proceed, recovered, recovery_event,
    reported_registration, shut_down, shutdown_awaits, shutdown_done, shutdown_event, sim_ready,
    start, wind_up, within_retries, AfterModel, Purpose, RecordModel, RunnerModel,
    ShutdownProgress, StageModel, Turn, ESCAPE_GUARD_MS, ONLINE_READ, PROBE_SECS,
    REGISTRATION_PAUSE_MS, SHUTDOWN_READ, STABLE_SECS, SYNC_ATTEMPTS,
};
use crate::status::{initial_shared, ModemPhaseStatus, ModemState, SharedStatus};
use crate::text::{joined, same_text, text_of_line};
use crate::time::{Duration, Timestamp};
use crate::transport::{read_poll, BufferedTransport};
use vstd::prelude::*;
use vstd::string::StrSliceExecFns;

verus! {

/// What follows once the PPP stack is shut down.
#[derive(Debug)]
enum After {
    EndSession(Option<ModemError>),
    Recover,
    Finish,
}

impl View for After {
    type V = AfterModel;

    closed spec fn view(&self) -> AfterModel {
        match self {
            After::EndSession(Some(error)) => AfterModel::EndSession(Some(error@)),
            After::EndSession(None) => AfterModel::EndSession(None),
            After::Recover => AfterModel::Recover,
            After::Finish => AfterModel::Finish,
        }
    }
}

/// Where a run stands.
#[derive(Debug)]
enum Stage {
    Ready,
    Command(Purpose, CommandExchange),
    RegistrationPause { deadline: Timestamp, legacy: bool },
    DialWriting,
    DialReading { deadline: Timestamp },
    StartingPpp,
    Online { deadline: Timestamp, was_connected: bool },
    Delivering { deadline: Timestamp, was_connected: bool },
    Shutdown(ShutdownProgress, After),
    RecoveryQuery,
    RecoveryDiscard,
    GuardBefore,
    Escape,
    GuardAfter,
    RecoveryDiscardAgain,
    BackOff,
    Finished,
}

impl View for Stage {
    type V = StageModel;

    closed spec fn view(&self) -> StageModel {
        match self {
            Stage::Ready => StageModel::Ready,
            Stage::Command(purpose, exchange) => StageModel::Command(*purpose, exchange@),
            Stage::RegistrationPause { deadline, legacy } => StageModel::RegistrationPause {
                deadline: *deadline,
                legacy: *legacy,
            },
            Stage::DialWriting => StageModel::DialWriting,
            Stage::DialReading { deadline } => StageModel::DialReading { deadline: *deadline },
            Stage::StartingPpp => StageModel::StartingPpp,
            Stage::Online { deadline, was_connected } => StageModel::Online {
                deadline: *deadline,
                was_connected: *was_connected,
            },
            Stage::Delivering { deadline, was_connected } => StageModel::Delivering {
                deadline: *deadline,
                was_connected: *was_connected,
            },
            Stage::Shutdown(progress, after) => StageModel::Shutdown(*progress, after@),
            Stage::RecoveryQuery => StageModel::RecoveryQuery,
            Stage::RecoveryDiscard => StageModel::RecoveryDiscard,
            Stage::GuardBefore => StageModel::GuardBefore,
            Stage::Escape => StageModel::Escape,
            Stage::GuardAfter => StageModel::GuardAfter,
            Stage::RecoveryDiscardAgain => StageModel::RecoveryDiscardAgain,
            Stage::BackOff => StageModel::BackOff,
            Stage::Finished => StageModel::Finished,
        }
    }
}

/// A run of a modem.
#[derive(Debug)]
pub struct ModemRunner {
    config: ModemConfig,
    retry: usize,
    connected_since: Option<Timestamp>,
    stage: Stage,
}

impl View for ModemRunner {
    type V = RunnerModel;

    closed spec fn view(&self) -> RunnerModel {
        RunnerModel {
            record: RecordModel {
                config: self.config@,
                retry: self.retry as nat,
                connected_since: self.connected_since,
            },
            stage: self.stage@,
        }
    }
}

impl ModemRunner {
    /// The run keeps to its retries.
    pub open spec fn wf(&self) -> bool {
        within_retries(self@)
    }

    /// The turn that brought the run to where it stands, with `shared` and `action` as its outcome.
    pub open spec fn turn(&self, shared: &SharedStatus, action: &Action) -> Turn {
        Turn { runner: self@, shared: shared@, action: action@ }
    }

    /// The command that a purpose is served by.
    fn command_for(&self, purpose: Purpose) -> (command: String)
        requires
            purpose == Purpose::UnlockSim ==> self@.record.config.pin is Some,
        ensures
            command@ == command_text(purpose, self@.record.config),
    {
        match purpose {
            Purpose::Synchronize { .. } | Purpose::Probe | Purpose::ProbeAgain => "AT".to_owned(),
            Purpose::DisableEcho => "ATE0".to_owned(),
            Purpose::VerboseErrors => "AT+CMEE=2".to_owned(),
            Purpose::DisableFlowControl => "AT+IFC=0,0".to_owned(),
            Purpose::QuerySim => "AT+CPIN?".to_owned(),
            Purpose::UnlockSim => {
                let head = match &self.config.pin {
                    Some(pin) => joined("AT+CPIN=\"", pin.as_str()),
                    None => String::new(),
                };
                joined(head.as_str(), "\"")
            },
            Purpose::Register { legacy, .. } => if legacy {
                "AT+CGREG?".to_owned()
            } else {
                "AT+CEREG?".to_owned()
            },
            Purpose::DefineContext => joined(
                joined("AT+CGDCONT=1,\"IP\",\"", self.config.apn.as_str()).as_str(),
                "\"",
            ),
            Purpose::HangUp => "ATH".to_owned(),
        }
    }

    /// Sends the command of a purpose.
    fn ask(&mut self, shared: &SharedStatus, purpose: Purpose) -> (action: Action)
        requires
            purpose == Purpose::UnlockSim ==> old(self)@.record.config.pin is Some,
        ensures
            final(self).turn(shared, &action) == ask(old(self)@.record, shared@, purpose),
    {
        let timeout = if purpose == Purpose::Probe {
            Duration::from_secs(PROBE_SECS)
        } else {
            self.config.command_timeout
        };
        let (exchange, action) = CommandExchange::start(self.command_for(purpose), timeout);
        self.stage = Stage::Command(purpose, exchange);
        action
    }

    /// Ends the run with `error`.
    fn fail(&mut self, shared: &mut SharedStatus, error: ModemError) -> (action: Action)
        ensures
            final(self).turn(final(shared), &action) == fail(old(self)@.record, old(shared)@, error@),
    {
        shared.set_state(ModemState::Failed, Some(error.clone()));
        self.stage = Stage::Finished;
        Action::Finish(Err(error))
    }

    /// Begins to shut down the PPP stack.
    fn stop_ppp(&mut self, shared: &SharedStatus, after: After) -> (action: Action)
        ensures
            final(self).turn(shared, &action) == shut_down(old(self)@.record, shared@, after@),
    {
        self.stage = Stage::Shutdown(ShutdownProgress::Query, after);
        Action::QueryPpp
    }

    /// Ends the run as it was asked to.
    fn finish_stop(&mut self, shared: &SharedStatus) -> (action: Action)
        ensures
            final(self).turn(shared, &action) == wind_up(old(self)@.record, shared@),
    {
        self.stop_ppp(shared, After::Finish)
    }

    /// Begins a session, unless a stop was asked for.
    fn begin_session(&mut self, shared: &mut SharedStatus) -> (action: Action)
        ensures
            final(self).turn(final(shared), &action) == begin_session(old(self)@.record, old(shared)@),
            !is_recovering(final(self)@.stage),
            final(self)@.record.retry == old(self)@.record.retry,
            final(self)@.record.config == old(self)@.record.config,
    {
        if shared.stop {
            return self.finish_stop(shared);
        }
        shared.ppp_error = None;
        self.connected_since = None;
        shared.set_state(ModemState::Initializing, None);
        self.ask(shared, Purpose::Synchronize { attempt: 0 })
    }

    /// Ends a session with `error`: for good, or with another session to follow.
    fn end_session(&mut self, shared: &mut SharedStatus, now: Timestamp, error: ModemError) -> (action:
        Action)
        requires
            old(self)@.record.retry <= old(self)@.record.config.retry_delays.len(),
        ensures
            final(self).turn(final(shared), &action) == end_session(
                old(self)@.record,
                old(shared)@,
                now,
                error@,
            ),
            final(self).wf(),
    {
        reveal(end_session);
        if shared.stop {
            return self.finish_stop(shared);
        }
        if let Some(since) = self.connected_since {
            if now.since(since).nanos >= Duration::from_secs(STABLE_SECS).nanos {
                self.retry = 0;
            }
        }
        if !error.retryable() || self.retry == self.config.retry_delays.len() {
            return self.fail(shared, error);
        }
        shared.set_state(ModemState::Recovering, Some(error));
        self.stage = Stage::RecoveryQuery;
        Action::QueryPpp
    }

    /// Waits before the next session.
    fn back_off(&mut self, shared: &SharedStatus) -> (action: Action)
        requires
            old(self)@.record.retry < old(self)@.record.config.retry_delays.len(),
        ensures
            final(self).turn(shared, &action) == recovered(old(self)@.record, shared@),
    {
        let delay: Duration = self.config.retry_delays[self.retry];
        self.stage = Stage::BackOff;
        Action::Delay((delay.as_millis() % 0x1_0000_0000) as u32)
    }

    /// Looks for a network once the SIM is ready.
    fn sim_ready(&mut self, shared: &mut SharedStatus, now: Timestamp) -> (action: Action)
        requires
            old(self)@.record.retry <= old(self)@.record.config.retry_delays.len(),
        ensures
            final(self).turn(final(shared), &action) == sim_ready(old(self)@.record, old(shared)@, now),
            final(self).wf(),
    {
        reveal(sim_ready);
        if shared.stop {
            return self.finish_stop(shared);
        }
        shared.set_state(ModemState::Registering, None);
        let deadline = now.after(self.config.registration_timeout);
        self.ask(shared, Purpose::Register { deadline, legacy: false })
    }

    /// Takes the state that the SIM reported.
    fn check_sim(&mut self, shared: &mut SharedStatus, now: Timestamp, lines: Vec<String>) -> (action:
        Action)
        requires
            old(self)@.record.retry <= old(self)@.record.config.retry_delays.len(),
        ensures
            final(self).turn(final(shared), &action) == check_sim(
                old(self)@.record,
                old(shared)@,
                now,
                lines.deep_view(),
            ),
            final(self).wf(),
    {
        reveal(check_sim);
        let reply = lines.as_slice();
        assert(reply.deep_view() =~= lines.deep_view());
        let state = match find_value(reply, "+CPIN:") {
            Some(state) => state,
            None => {
                proof {
                    reveal_strlit("");
                }
                assert(""@ =~= Seq::<char>::empty());
                ""
            },
        };
        if same_text(state, "READY") {
            return self.sim_ready(shared, now);
        }
        if !same_text(state, "SIM PIN") {
            return self.end_session(shared, now, ModemError::SimPinRejected);
        }
        if self.config.pin.is_none() {
            return self.end_session(shared, now, ModemError::SimPinRequired);
        }
        self.ask(shared, Purpose::UnlockSim)
    }

    /// Asks about the registration again after a pause, while there is time.
    fn keep_registering(
        &mut self,
        shared: &mut SharedStatus,
        now: Timestamp,
        deadline: Timestamp,
        legacy: bool,
    ) -> (action: Action)
        requires
            old(self)@.record.retry <= old(self)@.record.config.retry_delays.len(),
        ensures
            final(self).turn(final(shared), &action) == keep_registering(
                old(self)@.record,
                old(shared)@,
                now,
                deadline,
                legacy,
            ),
            final(self).wf(),
    {
        reveal(keep_registering);
        if shared.stop {
            return self.finish_stop(shared);
        }
        if now.reached(deadline) {
            return self.end_session(
                shared,
                now,
                ModemError::Timeout("waiting for cellular registration"),
            );
        }
        self.stage = Stage::RegistrationPause { deadline, legacy };
        Action::Delay(REGISTRATION_PAUSE_MS)
    }

    /// Takes the answer to a question about the registration.
    fn wait_for_registration(
        &mut self,
        shared: &mut SharedStatus,
        now: Timestamp,
        deadline: Timestamp,
        legacy: bool,
        result: Result<Vec<String>, ModemError>,
    ) -> (action: Action)
        requires
            old(self)@.record.retry <= old(self)@.record.config.retry_delays.len(),
        ensures
            final(self).turn(final(shared), &action) == check_registration(
                old(self)@.record,
                old(shared)@,
                now,
                deadline,
                legacy,
                result_view(result),
            ),
            final(self).wf(),
    {
        reveal(check_registration);
        match result {
            Ok(lines) => {
                let prefix = if legacy {
                    "+CGREG:"
                } else {
                    "+CEREG:"
                };
                let reply = lines.as_slice();
                assert(reply.deep_view() =~= lines.deep_view());
                let status = match find_value(reply, prefix) {
                    Some(value) => registration_status(value),
                    None => None,
                };
                assert(status == reported_registration(lines.deep_view(), legacy));
                match status {
                    Some(1) | Some(5) => {
                        if shared.stop {
                            self.finish_stop(shared)
                        } else {
                            self.ask(shared, Purpose::DefineContext)
                        }
                    },
                    Some(3) => self.end_session(shared, now, ModemError::RegistrationDenied),
                    _ => self.keep_registering(shared, now, deadline, legacy),
                }
            },
            Err(ModemError::At(_)) if !legacy => self.keep_registering(shared, now, deadline, true),
            Err(error) => self.end_session(shared, now, error),
        }
    }

    /// Takes the answer to a command.
    fn command_done(
        &mut self,
        shared: &mut SharedStatus,
        now: Timestamp,
        purpose: Purpose,
        result: Result<Vec<String>, ModemError>,
    ) -> (action: Action)
        requires
            old(self)@.record.retry <= old(self)@.record.config.retry_delays.len(),
            purpose == Purpose::Probe || purpose == Purpose::ProbeAgain || purpose
                == Purpose::HangUp ==> old(self)@.record.retry < old(self)@.record.config.retry_delays.len(),
        ensures
            final(self).turn(final(shared), &action) == command_done(
                old(self)@.record,
                old(shared)@,
                now,
                purpose,
                result_view(result),
            ),
            final(self).wf(),
    {
        reveal(command_done);
        match (purpose, result) {
            (Purpose::Synchronize { .. }, Ok(_)) => self.ask(shared, Purpose::DisableEcho),
            (Purpose::Synchronize { attempt }, Err(_)) => {
                if attempt < SYNC_ATTEMPTS - 1 {
                    self.ask(shared, Purpose::Synchronize { attempt: attempt + 1 })
                } else {
                    self.end_session(
                        shared,
                        now,
                        ModemError::Timeout("synchronizing with the modem"),
                    )
                }
            },
            (Purpose::DisableEcho, Ok(_)) => self.ask(shared, Purpose::VerboseErrors),
            (Purpose::VerboseErrors, Ok(_)) => self.ask(shared, Purpose::DisableFlowControl),
            (Purpose::DisableFlowControl, Ok(_)) => self.ask(shared, Purpose::QuerySim),
            (Purpose::QuerySim, Ok(lines)) => self.check_sim(shared, now, lines),
            (Purpose::UnlockSim, Ok(_)) => self.sim_ready(shared, now),
            (Purpose::UnlockSim, Err(_)) => self.end_session(
                shared,
                now,
                ModemError::SimPinRejected,
            ),
            (Purpose::Register { deadline, legacy }, result) => self.wait_for_registration(
                shared,
                now,
                deadline,
                legacy,
                result,
            ),
            (Purpose::DefineContext, Ok(_)) => {
                shared.set_state(ModemState::Dialing, None);
                self.stage = Stage::DialWriting;
                Action::Write("ATD*99***1#\r".as_bytes_vec())
            },
            (Purpose::Probe, Ok(_)) | (Purpose::ProbeAgain, Ok(_)) => self.ask(
                shared,
                Purpose::HangUp,
            ),
            (Purpose::Probe, Err(_)) => {
                self.stage = Stage::GuardBefore;
                Action::Delay(ESCAPE_GUARD_MS)
            },
            (Purpose::ProbeAgain, Err(_)) => self.fail(shared, ModemError::RecoveryRequired),
            (Purpose::HangUp, _) => self.back_off(shared),
            (_, Err(error)) => self.end_session(shared, now, error),
        }
    }

    /// Takes a line of text that came back after dialing.
    fn dial(
        &mut self,
        shared: &mut SharedStatus,
        now: Timestamp,
        deadline: Timestamp,
        line: String,
    ) -> (action: Action)
        requires
            old(self)@.record.retry <= old(self)@.record.config.retry_delays.len(),
        ensures
            final(self).turn(final(shared), &action) == dial_line(
                old(self)@.record,
                old(shared)@,
                now,
                deadline,
                line@,
            ),
            final(self).wf(),
    {
        reveal(dial_line);
        match classify_dial(line.as_str()) {
            Reply::Success => {
                if shared.stop {
                    return self.finish_stop(shared);
                }
                shared.set_state(ModemState::NegotiatingPpp, None);
                self.stage = Stage::StartingPpp;
                Action::StartPpp
            },
            Reply::Failure => self.end_session(shared, now, ModemError::At(line)),
            _ => {
                self.stage = Stage::DialReading { deadline };
                Action::ReadLine { deadline, operation: "dialing the modem" }
            },
        }
    }

    /// Reads data for the PPP stack, or ends the link.
    fn run_session(
        &mut self,
        shared: &mut SharedStatus,
        now: Timestamp,
        deadline: Timestamp,
        was_connected: bool,
    ) -> (action: Action)
        requires
            old(self)@.record.retry <= old(self)@.record.config.retry_delays.len(),
        ensures
            final(self).turn(final(shared), &action) == online(
                old(self)@.record,
                old(shared)@,
                now,
                deadline,
                was_connected,
            ),
            final(self).wf(),
    {
        reveal(online);
        if shared.stop {
            return self.stop_ppp(shared, After::EndSession(None));
        }
        if let Some(error) = shared.ppp_error.take() {
            if error != ModemPPPError::User {
                return self.stop_ppp(shared, After::EndSession(Some(ModemError::Ppp(error))));
            }
        }
        let mut was_connected = was_connected;
        if shared.status.state == ModemState::Connected {
            was_connected = true;
            if self.connected_since.is_none() {
                self.connected_since = Some(now);
            }
        } else if shared.status.state == ModemState::Recovering && was_connected {
            return self.stop_ppp(shared, After::EndSession(Some(ModemError::ConnectionLost)));
        } else if !was_connected && now.reached(deadline) {
            return self.stop_ppp(
                shared,
                After::EndSession(Some(ModemError::Timeout("negotiating PPP"))),
            );
        }
        self.stage = Stage::Online { deadline, was_connected };
        Action::ReadData { capacity: ONLINE_READ, timeout: read_poll() }
    }

    /// Goes on once the PPP stack is shut down, or could not be.
    fn shutdown_done(
        &mut self,
        shared: &mut SharedStatus,
        now: Timestamp,
        after: After,
        result: Result<(), ModemError>,
    ) -> (action: Action)
        requires
            old(self)@.record.retry <= old(self)@.record.config.retry_delays.len(),
            after@ is Recover ==> old(self)@.record.retry < old(self)@.record.config.retry_delays.len(),
        ensures
            final(self).turn(final(shared), &action) == shutdown_done(
                old(self)@.record,
                old(shared)@,
                now,
                after@,
                unit_result_view(result),
            ),
            final(self).wf(),
    {
        reveal(shutdown_done);
        match (after, result) {
            (After::EndSession(_), Err(error)) => self.end_session(shared, now, error),
            (After::EndSession(Some(error)), Ok(())) => self.end_session(shared, now, error),
            (After::EndSession(None), Ok(())) => self.finish_stop(shared),
            (After::Recover, Ok(())) => {
                self.stage = Stage::RecoveryDiscard;
                Action::DiscardPending
            },
            (After::Finish, Ok(())) => {
                shared.set_state(ModemState::Stopped, None);
                self.stage = Stage::Finished;
                Action::Finish(Ok(()))
            },
            (_, Err(error)) => self.fail(shared, error),
        }
    }

    /// Reads what the peer still sends until the PPP stack is dead.
    fn drain(
        &mut self,
        shared: &mut SharedStatus,
        now: Timestamp,
        deadline: Timestamp,
        after: After,
    ) -> (action: Action)
        requires
            old(self)@.record.retry <= old(self)@.record.config.retry_delays.len(),
            after@ is Recover ==> old(self)@.record.retry < old(self)@.record.config.retry_delays.len(),
        ensures
            final(self).turn(final(shared), &action) == drain(
                old(self)@.record,
                old(shared)@,
                now,
                deadline,
                after@,
            ),
            final(self).wf(),
    {
        reveal(drain);
        if now.reached(deadline) {
            return self.shutdown_done(shared, now, after, Err(ModemError::ShutdownTimeout));
        }
        if shared.status.phase == ModemPhaseStatus::Dead {
            return self.shutdown_done(shared, now, after, Ok(()));
        }
        self.stage = Stage::Shutdown(ShutdownProgress::Drain { deadline }, after);
        Action::ReadData { capacity: SHUTDOWN_READ, timeout: read_poll() }
    }

    /// Takes an answer during the shutdown of the PPP stack.
    fn shutdown_event(
        &mut self,
        shared: &mut SharedStatus,
        now: Timestamp,
        progress: ShutdownProgress,
        after: After,
        event: Event,
    ) -> (action: Action)
        requires
            shutdown_awaits(progress, event@),
            old(self)@.record.retry <= old(self)@.record.config.retry_delays.len(),
            after@ is Recover ==> old(self)@.record.retry < old(self)@.record.config.retry_delays.len(),
        ensures
            final(self).turn(final(shared), &action) == shutdown_event(
                old(self)@.record,
                old(shared)@,
                now,
                progress,
                after@,
                event@,
            ),
            final(self).wf(),
    {
        reveal(shutdown_event);
        match (progress, event) {
            (ShutdownProgress::Query, Event::Started(Ok(true))) => {
                shared.set_state(ModemState::Stopping, None);
                self.stage = Stage::Shutdown(ShutdownProgress::Stop, after);
                Action::StopPpp
            },
            (ShutdownProgress::Query, Event::Started(Ok(false))) => self.shutdown_done(
                shared,
                now,
                after,
                Ok(()),
            ),
            (ShutdownProgress::Stop, Event::Driver(Ok(()))) => {
                let deadline = now.after(self.config.shutdown_timeout);
                self.drain(shared, now, deadline, after)
            },
            (ShutdownProgress::Drain { deadline }, Event::Data(Ok(data))) => {
                if data.len() > 0 {
                    self.stage = Stage::Shutdown(ShutdownProgress::Deliver { deadline }, after);
                    Action::Deliver(data)
                } else {
                    self.drain(shared, now, deadline, after)
                }
            },
            (ShutdownProgress::Deliver { deadline }, Event::Driver(Ok(()))) => self.drain(
                shared,
                now,
                deadline,
                after,
            ),
            (_, Event::Data(Err(error))) => self.shutdown_done(shared, now, after, Err(error)),
            (_, Event::Started(Err(error))) | (_, Event::Driver(Err(error))) => self.shutdown_done(
                shared,
                now,
                after,
                Err(ModemError::from(error)),
            ),
            _ => vstd::pervasive::unreached(),
        }
    }
}

impl ModemRunner {
    /// Whether the run has not begun yet.
    pub open spec fn is_ready(&self) -> bool {
        self@.stage is Ready
    }

    /// Begins the run, and says what is to be done first.
    pub fn run(&mut self, shared: &mut SharedStatus) -> (action: Action)
        requires
            old(self).is_ready(),
        ensures
            final(self).turn(final(shared), &action) == start(old(self)@.record, old(shared)@),
            final(self).wf(),
    {
        shared.stop = false;
        self.retry = 0;
        self.begin_session(shared)
    }

    /// Takes an answer while a command is exchanged.
    fn command(
        &mut self,
        shared: &mut SharedStatus,
        now: Timestamp,
        purpose: Purpose,
        exchange: CommandExchange,
        event: Event,
    ) -> (action: Action)
        requires
            within_retries(
                (RunnerModel {
                    record: old(self)@.record,
                    stage: StageModel::Command(purpose, exchange@),
                }),
            ),
            exchange_awaits(exchange@, event@),
        ensures
            final(self).turn(final(shared), &action) == command_event(
                old(self)@.record,
                old(shared)@,
                now,
                purpose,
                exchange@,
                event@,
            ),
            final(self).wf(),
    {
        reveal(command_event);
        match exchange.on_event(now, event) {
            ExchangeTurn::Continue(exchange, action) => {
                self.stage = Stage::Command(purpose, exchange);
                action
            },
            ExchangeTurn::Done(result) => self.command_done(shared, now, purpose, result),
        }
    }

    /// Takes an answer while the call is set up.
    fn dial_event(
        &mut self,
        shared: &mut SharedStatus,
        now: Timestamp,
        stage: Stage,
        event: Event,
    ) -> (action: Action)
        requires
            old(self)@.record.retry <= old(self)@.record.config.retry_delays.len(),
            stage@ is DialWriting || stage@ is DialReading,
            awaits(stage@, event@),
        ensures
            final(self).turn(final(shared), &action) == dial_event(
                old(self)@.record,
                old(shared)@,
                now,
                stage@,
                event@,
            ),
            final(self).wf(),
    {
        reveal(dial_event);
        match (stage, event) {
            (Stage::DialWriting, Event::Written(true)) => {
                let deadline = now.after(self.config.dial_timeout);
                self.stage = Stage::DialReading { deadline };
                Action::ReadLine { deadline, operation: "dialing the modem" }
            },
            (Stage::DialReading { deadline }, Event::Line(Ok(line))) => {
                let text = text_of_line(line.as_slice());
                self.dial(shared, now, deadline, text)
            },
            (Stage::DialReading { .. }, Event::Line(Err(error))) => self.end_session(
                shared,
                now,
                error,
            ),
            _ => self.end_session(shared, now, ModemError::Io),
        }
    }

    /// Takes an answer while the link is up or coming up.
    fn link_event(
        &mut self,
        shared: &mut SharedStatus,
        now: Timestamp,
        stage: Stage,
        event: Event,
    ) -> (action: Action)
        requires
            old(self)@.record.retry <= old(self)@.record.config.retry_delays.len(),
            stage@ is StartingPpp || stage@ is Online || stage@ is Delivering,
            awaits(stage@, event@),
        ensures
            final(self).turn(final(shared), &action) == link_event(
                old(self)@.record,
                old(shared)@,
                now,
                stage@,
                event@,
            ),
            final(self).wf(),
    {
        reveal(link_event);
        match (stage, event) {
            (Stage::StartingPpp, Event::Driver(Ok(()))) => {
                let deadline = now.after(self.config.ppp_timeout);
                self.run_session(shared, now, deadline, false)
            },
            (Stage::Online { deadline, was_connected }, Event::Data(Ok(data))) => {
                if data.len() > 0 {
                    self.stage = Stage::Delivering { deadline, was_connected };
                    Action::Deliver(data)
                } else {
                    self.run_session(shared, now, deadline, was_connected)
                }
            },
            (Stage::Delivering { deadline, was_connected }, Event::Driver(Ok(()))) => {
                self.run_session(shared, now, deadline, was_connected)
            },
            (_, Event::Data(Err(error))) => self.end_session(shared, now, error),
            (_, Event::Driver(Err(error))) => self.end_session(
                shared,
                now,
                ModemError::from(error),
            ),
            _ => vstd::pervasive::unreached(),
        }
    }

    /// Takes an answer while a lost modem is brought back, other than the reply to a command.
    fn recover_command_mode(&mut self, shared: &mut SharedStatus, stage: Stage, event: Event) -> (action:
        Action)
        requires
            old(self)@.record.retry < old(self)@.record.config.retry_delays.len(),
            is_recovering(stage@),
            !(stage@ is Command || stage@ is Shutdown || stage@ is BackOff),
            awaits(stage@, event@),
        ensures
            final(self).turn(final(shared), &action) == recovery_event(
                old(self)@.record,
                old(shared)@,
                stage@,
                event@,
            ),
            final(self).wf(),
    {
        reveal(recovery_event);
        match (stage, event) {
            (Stage::RecoveryQuery, Event::Started(Ok(true))) => self.stop_ppp(
                shared,
                After::Recover,
            ),
            (Stage::RecoveryQuery, Event::Started(Ok(false))) => {
                self.stage = Stage::RecoveryDiscard;
                Action::DiscardPending
            },
            (Stage::RecoveryQuery, Event::Started(Err(error))) => self.fail(
                shared,
                ModemError::from(error),
            ),
            (Stage::RecoveryDiscard, _) => self.ask(shared, Purpose::Probe),
            (Stage::GuardBefore, _) => {
                self.stage = Stage::Escape;
                Action::Write("+++".as_bytes_vec())
            },
            (Stage::Escape, Event::Written(true)) => {
                self.stage = Stage::GuardAfter;
                Action::Delay(ESCAPE_GUARD_MS)
            },
            (Stage::GuardAfter, _) => {
                self.stage = Stage::RecoveryDiscardAgain;
                Action::DiscardPending
            },
            (Stage::RecoveryDiscardAgain, _) => self.ask(shared, Purpose::ProbeAgain),
            _ => self.fail(shared, ModemError::Io),
        }
    }

    /// Takes the answer to the last action, at the moment `now`, and says what is to be done next.
    /// Data that was read, and nothing else, is handed to the PPP stack.
    pub fn resume(&mut self, shared: &mut SharedStatus, now: Timestamp, event: Event) -> (action:
        Action)
        requires
            old(self).wf(),
            awaits(old(self)@.stage, event@),
        ensures
            final(self).turn(final(shared), &action) == proceed(
                old(self)@,
                old(shared)@,
                now,
                event@,
            ),
            final(self).wf(),
            data_in(event@).len() > 0 ==> action@ == ActionModel::Deliver(data_in(event@)),
            action@ is Deliver ==> data_in(event@).len() > 0,
    {
        proof {
            law_data_reaches_the_stack_unchanged(self@, shared@, now, event@);
        }
        let mut stage = Stage::Finished;
        std::mem::swap(&mut stage, &mut self.stage);
        match stage {
            Stage::Command(purpose, exchange) => self.command(
                shared,
                now,
                purpose,
                exchange,
                event,
            ),
            Stage::RegistrationPause { deadline, legacy } => self.ask(
                shared,
                Purpose::Register { deadline, legacy },
            ),
            Stage::DialWriting | Stage::DialReading { .. } => self.dial_event(
                shared,
                now,
                stage,
                event,
            ),
            Stage::StartingPpp
            | Stage::Online { .. }
            | Stage::Delivering { .. } => self.link_event(shared, now, stage, event),
            Stage::Shutdown(progress, after) => self.shutdown_event(
                shared,
                now,
                progress,
                after,
                event,
            ),
            Stage::BackOff => {
                assert(self.retry < self.config.retry_delays.len());
                self.retry = self.retry + 1;
                self.begin_session(shared)
            },
            _ => self.recover_command_mode(shared, stage, event),
        }
    }
}

/// Factory for a runner, the transport it reads through and the handle on it.
pub struct EspModem;

/// The most input that is held back for a runner.
pub const TRANSPORT_CAPACITY: usize = 4096;

/// A run that has not begun.
pub open spec fn fresh_runner(config: ConfigModel) -> RunnerModel {
    RunnerModel {
        record: RecordModel { config, retry: 0, connected_since: None },
        stage: StageModel::Ready,
    }
}

impl EspModem {
    /// A runner for `config`, with a transport over `reader` and a handle, if nothing is wrong with
    /// `config`.
    pub fn new<R: TimedRead>(config: ModemConfig, reader: R) -> (result: Result<
        (ModemRunner, BufferedTransport<R>, ModemHandle),
        ModemError,
    >)
        ensures
            match (config_fault(config@), result) {
                (None, Ok((runner, transport, handle))) => {
                    &&& runner@ == fresh_runner(config@)
                    &&& runner.is_ready()
                    &&& runner.wf()
                    &&& transport.wf()
                    &&& transport.pending() == Seq::<u8>::empty()
                    &&& transport.capacity() == TRANSPORT_CAPACITY
                    &&& transport.reader().inner() == reader
                    &&& transport.reader().calls() == Seq::<ReadCall>::empty()
                    &&& transport.shown() == Seq::<std::time::Instant>::empty()
                    &&& handle.shared@ == initial_shared()
                },
                (Some(message), Err(error)) => error@ == ErrorModel::Configuration(message),
                _ => false,
            },
    {
        if let Err(error) = config.validate() {
            return Err(error);
        }
        let runner = ModemRunner {
            config,
            retry: 0,
            connected_since: None,
            stage: Stage::Ready,
        };
        let transport = BufferedTransport::new(reader, TRANSPORT_CAPACITY);
        let handle = ModemHandle { shared: SharedStatus::new() };
        Ok((runner, transport, handle))
    }
}

/// The result of a command, as the contracts speak of it.
pub open spec fn result_view(result: Result<Vec<String>, ModemError>) -> Result<
    Seq<Seq<char>>,
    ErrorModel,
> {
    match result {
        Ok(lines) => Ok(lines.deep_view()),
        Err(error) => Err(error@),
    }
}

/// The result of a step that brings nothing, as the contracts speak of it.
pub open spec fn unit_result_view(result: Result<(), ModemError>) -> Result<(), ErrorModel> {
    match result {
        Ok(()) => Ok(()),
        Err(error) => Err(error@),
    }
}

/// A run that has not begun has used no retry and seen no connection, and its transport holds back
/// 4096 bytes; what a step results in is seen as it is.
pub proof fn law_a_new_run_has_done_nothing(
    config: ConfigModel,
    lines: Vec<String>,
    error: ModemError,
)
    ensures
        TRANSPORT_CAPACITY == 4096,
        fresh_runner(config).record.config == config,
        fresh_runner(config).record.retry == 0,
        fresh_runner(config).record.connected_since is None,
        fresh_runner(config).stage is Ready,
        result_view(Ok(lines)) == Ok::<Seq<Seq<char>>, ErrorModel>(lines.deep_view()),
        result_view(Err(error)) == Err::<Seq<Seq<char>>, ErrorModel>(error@),
        unit_result_view(Ok(())) == Ok::<(), ErrorModel>(()),
        unit_result_view(Err(error)) == Err::<(), ErrorModel>(error@),
{
}

} // verus!
