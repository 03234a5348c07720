//! How a run conducts itself: what each answer of its surroundings leads to, said in terms of what
//! is then sent, read, waited for and shown.
use crate::action::{ActionModel, EventModel};
use crate::at::{failure_reply, registration_status_of, value_of};
use crate::command::{after_exchange_event, ExchangeModel, ExchangeTurnModel, Progress};
use crate::error::{ErrorModel, ModemPPPError};
use crate::laws::{all_awaited, is_stopping, run_after, step_of, step_of_command, turn_on, Input};
use crate::session::{
    awaits, check_registration, check_sim, command_done, command_event,
    dial_event, dial_line, drain, end_session, keep_registering, link_event, online, proceed,
    recovery_event, shutdown_done, shutdown_event, sim_ready, start, AfterModel,
    Purpose, RecordModel, RunnerModel, ShutdownProgress, StageModel, Turn,
};
use crate::status::{ModemPhaseStatus, ModemState, SharedModel, StatusModel};
use crate::text::line_text;
use crate::time::{Duration, Timestamp};
use vstd::prelude::*;
use vstd::utf8::encode_utf8;

verus! {

/// The moment `span` after `now`, on a clock that stops at its last moment.
pub open spec fn later(now: Timestamp, span: Duration) -> Timestamp {
    let sum = now.nanos + span.nanos;
    Timestamp {
        nanos: if sum < 0x1_0000_0000_0000_0000_0000_0000_0000_0000 {
            sum as u128
        } else {
            0xffff_ffff_ffff_ffff_ffff_ffff_ffff_ffffu128
        },
    }
}

/// `shared` with `state` and `error` to show, and no addresses. All else is as it was.
pub open spec fn showing(
    shared: SharedModel,
    state: ModemState,
    error: Option<ErrorModel>,
) -> SharedModel {
    SharedModel {
        status: StatusModel {
            state,
            phase: shared.status.phase,
            ip_info: None,
            last_error: error,
        },
        stop: shared.stop,
        ppp_error: shared.ppp_error,
    }
}

/// Whether a turn begins to send `text` as a command, with `timeout` for its reply, and changes
/// nothing else: `record` and `shared` are what it leaves.
pub open spec fn sends(
    turn: Turn,
    record: RecordModel,
    shared: SharedModel,
    purpose: Purpose,
    text: Seq<char>,
    timeout: Duration,
) -> bool {
    &&& turn.runner.record == record
    &&& turn.shared == shared
    &&& turn.action == ActionModel::Write(encode_utf8(text))
    &&& turn.runner.stage == StageModel::Command(
        purpose,
        ExchangeModel {
            command: text,
            timeout,
            progress: Progress::Text,
            lines: Seq::empty(),
        },
    )
}

/// Whether a turn leads to `stage` with `action`, and leaves `record` and `shared`.
pub open spec fn leads_to(
    turn: Turn,
    record: RecordModel,
    shared: SharedModel,
    stage: StageModel,
    action: ActionModel,
) -> bool {
    &&& turn.runner.record == record
    &&& turn.shared == shared
    &&& turn.runner.stage == stage
    &&& turn.action == action
}

/// Whether a turn sets out to end the run as it was asked to, by seeing that the PPP stack is down.
pub open spec fn winds_up(turn: Turn, record: RecordModel, shared: SharedModel) -> bool {
    leads_to(
        turn,
        record,
        shared,
        StageModel::Shutdown(ShutdownProgress::Query, AfterModel::Finish),
        ActionModel::QueryPpp,
    )
}

/// Whether a turn ends the run with `error`, which is then shown.
pub open spec fn gives_up(
    turn: Turn,
    record: RecordModel,
    shared: SharedModel,
    error: ErrorModel,
) -> bool {
    leads_to(
        turn,
        record,
        showing(shared, ModemState::Failed, Some(error)),
        StageModel::Finished,
        ActionModel::Finish(Err(error)),
    )
}

/// Whether no other session can mend `error`.
pub open spec fn is_final(error: ErrorModel) -> bool {
    ||| error is Configuration
    ||| error == ErrorModel::SimPinRequired
    ||| error == ErrorModel::SimPinRejected
    ||| error == ErrorModel::RegistrationDenied
    ||| error == ErrorModel::RecoveryRequired
    ||| error == ErrorModel::ShutdownTimeout
    ||| error == ErrorModel::Ppp(ModemPPPError::AuthFail)
}

/// Whether a connection that has been there since `since` has lasted for a minute at `now`.
pub open spec fn has_lasted(since: Option<Timestamp>, now: Timestamp) -> bool {
    since matches Some(since) && since.nanos + 60_000_000_000 <= now.nanos
}

/// The retries that are used up once a session ended at `now`.
pub open spec fn retries_left_used(record: RecordModel, now: Timestamp) -> nat {
    if has_lasted(record.connected_since, now) {
        0
    } else {
        record.retry
    }
}

/// Whether a turn ends a session with `error`. Where a stop was asked for, the run winds up. Where
/// it was not, the error is shown, and the modem recovered for another session if the error is not
/// final and a retry is left; else the run ends. A connection that lasted a minute renews the
/// retries.
pub open spec fn session_fails(
    turn: Turn,
    record: RecordModel,
    shared: SharedModel,
    now: Timestamp,
    error: ErrorModel,
) -> bool {
    let settled = RecordModel { retry: retries_left_used(record, now), ..record };
    if shared.stop {
        winds_up(turn, record, shared)
    } else if is_final(error) || settled.retry == record.config.retry_delays.len() {
        gives_up(turn, settled, shared, error)
    } else {
        leads_to(
            turn,
            settled,
            showing(shared, ModemState::Recovering, Some(error)),
            StageModel::RecoveryQuery,
            ActionModel::QueryPpp,
        )
    }
}

/// Whether a turn begins a session, or winds up where a stop was asked for. A session begins with
/// nothing left of the one before: no connection, no PPP error, no error to show.
pub open spec fn session_begins(turn: Turn, record: RecordModel, shared: SharedModel) -> bool {
    if shared.stop {
        winds_up(turn, record, shared)
    } else {
        sends(
            turn,
            RecordModel { connected_since: None, ..record },
            showing(SharedModel { ppp_error: None, ..shared }, ModemState::Initializing, None),
            Purpose::Synchronize { attempt: 0 },
            "AT"@,
            record.config.command_timeout,
        )
    }
}

/// How a command ends on `event`, if it does: with the lines of its answer on `OK`, with the line
/// that tells of a failure, with the error that kept a line from being read, or because it could
/// not be written.
pub open spec fn reply_end(exchange: ExchangeModel, event: EventModel) -> Option<
    Result<Seq<Seq<char>>, ErrorModel>,
> {
    match (exchange.progress, event) {
        (Progress::Text, EventModel::Written(false)) => Some(Err(ErrorModel::Io)),
        (Progress::Terminator, EventModel::Written(false)) => Some(Err(ErrorModel::Io)),
        (Progress::Reply { .. }, EventModel::Line(Err(error))) => Some(Err(error)),
        (Progress::Reply { .. }, EventModel::Line(Ok(line))) => {
            let text = line_text(line);
            if text.len() == 0 || text == exchange.command {
                None
            } else if text == "OK"@ {
                Some(Ok(exchange.lines))
            } else if failure_reply(text) {
                Some(Err(ErrorModel::At(text)))
            } else {
                None
            }
        },
        _ => None,
    }
}

proof fn lemma_reply_end(
    record: RecordModel,
    shared: SharedModel,
    now: Timestamp,
    purpose: Purpose,
    exchange: ExchangeModel,
    event: EventModel,
)
    requires
        reply_end(exchange, event) is Some,
    ensures
        command_event(record, shared, now, purpose, exchange, event) == command_done(
            record,
            shared,
            now,
            purpose,
            reply_end(exchange, event)->0,
        ),
{
    reveal(command_event);
}

proof fn lemma_session_fails(
    record: RecordModel,
    shared: SharedModel,
    now: Timestamp,
    error: ErrorModel,
)
    ensures
        session_fails(end_session(record, shared, now, error), record, shared, now, error),
{
    reveal(end_session);
}

/// A run begins with a session, no retry used up, whatever was asked of the run before it.
pub proof fn law_a_run_begins_with_a_session(record: RecordModel, shared: SharedModel)
    ensures
        session_begins(
            start(record, shared),
            (RecordModel { retry: 0, ..record }),
            (SharedModel { stop: false, ..shared }),
        ),
{
}

/// When the wait before a retry is over, the next session begins, with one more retry used up.
pub proof fn law_a_retry_is_a_session(
    record: RecordModel,
    shared: SharedModel,
    now: Timestamp,
    event: EventModel,
)
    ensures
        session_begins(
            proceed(RunnerModel { record, stage: StageModel::BackOff }, shared, now, event),
            (RecordModel { retry: record.retry + 1, ..record }),
            shared,
        ),
{
}

/// A command goes out as its text and then a carriage return; its reply may take as long as it is
/// given from then on. Blank lines and the echo are skipped, lines of the answer are gathered in
/// order, and each line is waited for until the same moment. Nothing else changes meanwhile.
pub proof fn law_a_command_is_sent_and_its_reply_gathered(
    record: RecordModel,
    shared: SharedModel,
    now: Timestamp,
    purpose: Purpose,
    exchange: ExchangeModel,
    event: EventModel,
)
    requires
        reply_end(exchange, event) is None,
        awaits(StageModel::Command(purpose, exchange), event),
    ensures
        ({
            let turn = proceed(
                RunnerModel { record, stage: StageModel::Command(purpose, exchange) },
                shared,
                now,
                event,
            );
            let reading = |deadline: Timestamp|
                ActionModel::ReadLine { deadline, operation: "waiting for an AT response"@ };
            match exchange.progress {
                Progress::Text => leads_to(
                    turn,
                    record,
                    shared,
                    StageModel::Command(
                        purpose,
                        ExchangeModel { progress: Progress::Terminator, ..exchange },
                    ),
                    ActionModel::Write(encode_utf8("\r"@)),
                ),
                Progress::Terminator => {
                    let deadline = later(now, exchange.timeout);
                    leads_to(
                        turn,
                        record,
                        shared,
                        StageModel::Command(
                            purpose,
                            ExchangeModel { progress: Progress::Reply { deadline }, ..exchange },
                        ),
                        reading(deadline),
                    )
                },
                Progress::Reply { deadline } => {
                    let text = line_text(event->Line_0->Ok_0);
                    let lines = if text.len() == 0 || text == exchange.command {
                        exchange.lines
                    } else {
                        exchange.lines.push(text)
                    };
                    leads_to(
                        turn,
                        record,
                        shared,
                        StageModel::Command(purpose, ExchangeModel { lines, ..exchange }),
                        reading(deadline),
                    )
                },
            }
        }),
{
    reveal(command_event);
}

/// A modem is called up to three times with `AT`; the first answer is enough, whatever it says
/// besides `OK`, and the third failure ends the session.
pub proof fn law_a_modem_is_called_three_times(
    record: RecordModel,
    shared: SharedModel,
    now: Timestamp,
    attempt: u8,
    exchange: ExchangeModel,
    event: EventModel,
)
    requires
        reply_end(exchange, event) is Some,
    ensures
        ({
            let turn = proceed(
                RunnerModel {
                    record,
                    stage: StageModel::Command(Purpose::Synchronize { attempt }, exchange),
                },
                shared,
                now,
                event,
            );
            let timeout = record.config.command_timeout;
            if reply_end(exchange, event)->0 is Ok {
                sends(turn, record, shared, Purpose::DisableEcho, "ATE0"@, timeout)
            } else if attempt < 2 {
                sends(
                    turn,
                    record,
                    shared,
                    Purpose::Synchronize { attempt: (attempt + 1) as u8 },
                    "AT"@,
                    timeout,
                )
            } else {
                session_fails(
                    turn,
                    record,
                    shared,
                    now,
                    ErrorModel::Timeout("synchronizing with the modem"@),
                )
            }
        }),
{
    lemma_reply_end(record, shared, now, Purpose::Synchronize { attempt }, exchange, event);
    lemma_session_fails(
        record,
        shared,
        now,
        ErrorModel::Timeout("synchronizing with the modem"@),
    );
    reveal(command_done);
}

/// A modem that listens is set up by three commands in a row and then asked about its SIM; once it
/// is registered and has taken the network to join, it is dialed. Any failure among these ends the
/// session with itself.
pub proof fn law_a_modem_is_set_up_step_by_step(
    record: RecordModel,
    shared: SharedModel,
    now: Timestamp,
    purpose: Purpose,
    exchange: ExchangeModel,
    event: EventModel,
)
    requires
        reply_end(exchange, event) is Some,
    ensures
        ({
            let turn = proceed(
                RunnerModel { record, stage: StageModel::Command(purpose, exchange) },
                shared,
                now,
                event,
            );
            let result = reply_end(exchange, event)->0;
            let timeout = record.config.command_timeout;
            &&& purpose == Purpose::DisableEcho && result is Ok ==> sends(
                turn,
                record,
                shared,
                Purpose::VerboseErrors,
                "AT+CMEE=2"@,
                timeout,
            )
            &&& purpose == Purpose::VerboseErrors && result is Ok ==> sends(
                turn,
                record,
                shared,
                Purpose::DisableFlowControl,
                "AT+IFC=0,0"@,
                timeout,
            )
            &&& purpose == Purpose::DisableFlowControl && result is Ok ==> sends(
                turn,
                record,
                shared,
                Purpose::QuerySim,
                "AT+CPIN?"@,
                timeout,
            )
            &&& purpose == Purpose::DefineContext && result is Ok ==> leads_to(
                turn,
                record,
                showing(shared, ModemState::Dialing, None),
                StageModel::DialWriting,
                ActionModel::Write(encode_utf8("ATD*99***1#\r"@)),
            )
            &&& {
                ||| purpose == Purpose::DisableEcho
                ||| purpose == Purpose::VerboseErrors
                ||| purpose == Purpose::DisableFlowControl
                ||| purpose == Purpose::QuerySim
                ||| purpose == Purpose::DefineContext
            } && result is Err ==> session_fails(turn, record, shared, now, result->Err_0)
        }),
{
    lemma_reply_end(record, shared, now, purpose, exchange, event);
    if let Err(error) = reply_end(exchange, event)->0 {
        lemma_session_fails(record, shared, now, error);
    }
    reveal(command_done);
}

/// Whether a turn goes on to look for a network, with all the time that is given for it; or winds
/// up where a stop was asked for.
pub open spec fn looks_for_network(
    turn: Turn,
    record: RecordModel,
    shared: SharedModel,
    now: Timestamp,
) -> bool {
    if shared.stop {
        winds_up(turn, record, shared)
    } else {
        sends(
            turn,
            record,
            showing(shared, ModemState::Registering, None),
            Purpose::Register {
                deadline: later(now, record.config.registration_timeout),
                legacy: false,
            },
            "AT+CEREG?"@,
            record.config.command_timeout,
        )
    }
}

/// A SIM that is ready is used; one that wants a PIN is given it, if there is one to give; and one
/// that is in any other state, or says nothing of it, cannot be used.
pub proof fn law_a_sim_is_used_unlocked_or_refused(
    record: RecordModel,
    shared: SharedModel,
    now: Timestamp,
    exchange: ExchangeModel,
    event: EventModel,
)
    requires
        reply_end(exchange, event) matches Some(Ok(_)),
    ensures
        ({
            let turn = proceed(
                RunnerModel { record, stage: StageModel::Command(Purpose::QuerySim, exchange) },
                shared,
                now,
                event,
            );
            let state = value_of(exchange.lines, "+CPIN:"@);
            &&& state == Some("READY"@) ==> looks_for_network(turn, record, shared, now)
            &&& state == Some("SIM PIN"@) ==> match record.config.pin {
                Some(pin) => sends(
                    turn,
                    record,
                    shared,
                    Purpose::UnlockSim,
                    "AT+CPIN=\""@ + pin + "\""@,
                    record.config.command_timeout,
                ),
                None => session_fails(turn, record, shared, now, ErrorModel::SimPinRequired),
            }
            &&& state != Some("READY"@) && state != Some("SIM PIN"@) ==> session_fails(
                turn,
                record,
                shared,
                now,
                ErrorModel::SimPinRejected,
            )
        }),
{
    lemma_reply_end(record, shared, now, Purpose::QuerySim, exchange, event);
    lemma_session_fails(record, shared, now, ErrorModel::SimPinRequired);
    lemma_session_fails(record, shared, now, ErrorModel::SimPinRejected);
    assert(reply_end(exchange, event) == Some(
        Ok::<Seq<Seq<char>>, ErrorModel>(exchange.lines),
    ));
    reveal(command_done);
    reveal(check_sim);
    reveal(sim_ready);
    reveal_strlit("READY");
    reveal_strlit("SIM PIN");
    assert("READY"@.len() == 5);
    assert("SIM PIN"@.len() == 7);
}

/// A PIN that the SIM takes makes it ready; one that it does not take, for whatever reason, ends the
/// run without another try.
pub proof fn law_a_pin_is_taken_or_rejected(
    record: RecordModel,
    shared: SharedModel,
    now: Timestamp,
    exchange: ExchangeModel,
    event: EventModel,
)
    requires
        reply_end(exchange, event) is Some,
    ensures
        ({
            let turn = proceed(
                RunnerModel { record, stage: StageModel::Command(Purpose::UnlockSim, exchange) },
                shared,
                now,
                event,
            );
            if reply_end(exchange, event)->0 is Ok {
                looks_for_network(turn, record, shared, now)
            } else {
                session_fails(turn, record, shared, now, ErrorModel::SimPinRejected)
            }
        }),
{
    lemma_reply_end(record, shared, now, Purpose::UnlockSim, exchange, event);
    lemma_session_fails(record, shared, now, ErrorModel::SimPinRejected);
    reveal(command_done);
    reveal(sim_ready);
}

/// Whether a turn waits a second before it asks about the registration again, until the same moment
/// as before; or ends the session when that moment is there, or winds up where a stop was asked for.
pub open spec fn waits_for_network(
    turn: Turn,
    record: RecordModel,
    shared: SharedModel,
    now: Timestamp,
    deadline: Timestamp,
    legacy: bool,
) -> bool {
    if shared.stop {
        winds_up(turn, record, shared)
    } else if now.nanos >= deadline.nanos {
        session_fails(
            turn,
            record,
            shared,
            now,
            ErrorModel::Timeout("waiting for cellular registration"@),
        )
    } else {
        leads_to(
            turn,
            record,
            shared,
            StageModel::RegistrationPause { deadline, legacy },
            ActionModel::Delay(1000),
        )
    }
}

proof fn lemma_waits_for_network(
    record: RecordModel,
    shared: SharedModel,
    now: Timestamp,
    deadline: Timestamp,
    legacy: bool,
)
    ensures
        waits_for_network(
            keep_registering(record, shared, now, deadline, legacy),
            record,
            shared,
            now,
            deadline,
            legacy,
        ),
{
    reveal(keep_registering);
    lemma_session_fails(
        record,
        shared,
        now,
        ErrorModel::Timeout("waiting for cellular registration"@),
    );
}

/// With either command, a modem that reports status 1 (its home network) or 5 (a foreign one) under
/// the command's own prefix is registered, and told which network to join; status 3 is a refusal;
/// with any other, or none, it is waited for on.
pub proof fn law_a_registered_modem_goes_on(
    record: RecordModel,
    shared: SharedModel,
    now: Timestamp,
    deadline: Timestamp,
    legacy: bool,
    exchange: ExchangeModel,
    event: EventModel,
)
    requires
        reply_end(exchange, event) matches Some(Ok(_)),
    ensures
        ({
            let turn = proceed(
                RunnerModel {
                    record,
                    stage: StageModel::Command(Purpose::Register { deadline, legacy }, exchange),
                },
                shared,
                now,
                event,
            );
            let prefix = if legacy {
                "+CGREG:"@
            } else {
                "+CEREG:"@
            };
            let status = match value_of(exchange.lines, prefix) {
                Some(value) => registration_status_of(value),
                None => None,
            };
            &&& status == Some(1u8) || status == Some(5u8) ==> if shared.stop {
                winds_up(turn, record, shared)
            } else {
                sends(
                    turn,
                    record,
                    shared,
                    Purpose::DefineContext,
                    "AT+CGDCONT=1,\"IP\",\""@ + record.config.apn + "\""@,
                    record.config.command_timeout,
                )
            }
            &&& status == Some(3u8) ==> session_fails(
                turn,
                record,
                shared,
                now,
                ErrorModel::RegistrationDenied,
            )
            &&& status != Some(1u8) && status != Some(5u8) && status != Some(3u8)
                ==> waits_for_network(turn, record, shared, now, deadline, legacy)
        }),
{
    lemma_reply_end(record, shared, now, Purpose::Register { deadline, legacy }, exchange, event);
    lemma_session_fails(record, shared, now, ErrorModel::RegistrationDenied);
    lemma_waits_for_network(record, shared, now, deadline, legacy);
    assert(reply_end(exchange, event) == Some(
        Ok::<Seq<Seq<char>>, ErrorModel>(exchange.lines),
    ));
    reveal(command_done);
    reveal(check_registration);
}

/// A modem that refuses the newer question about its registration is asked the older one from then
/// on, in the time that is left; one that refuses that too, and any other failure, ends the session.
pub proof fn law_the_older_question_follows_a_refusal(
    record: RecordModel,
    shared: SharedModel,
    now: Timestamp,
    deadline: Timestamp,
    legacy: bool,
    exchange: ExchangeModel,
    event: EventModel,
)
    requires
        reply_end(exchange, event) matches Some(Err(_)),
    ensures
        ({
            let turn = proceed(
                RunnerModel {
                    record,
                    stage: StageModel::Command(Purpose::Register { deadline, legacy }, exchange),
                },
                shared,
                now,
                event,
            );
            let error = reply_end(exchange, event)->0->Err_0;
            if error is At && !legacy {
                waits_for_network(turn, record, shared, now, deadline, true)
            } else {
                session_fails(turn, record, shared, now, error)
            }
        }),
{
    lemma_reply_end(record, shared, now, Purpose::Register { deadline, legacy }, exchange, event);
    lemma_session_fails(record, shared, now, reply_end(exchange, event)->0->Err_0);
    lemma_waits_for_network(record, shared, now, deadline, true);
    reveal(command_done);
    reveal(check_registration);
}

/// After the pause the same question is asked again, in the time that is left.
pub proof fn law_the_question_is_asked_again(
    record: RecordModel,
    shared: SharedModel,
    now: Timestamp,
    deadline: Timestamp,
    legacy: bool,
    event: EventModel,
)
    ensures
        sends(
            proceed(
                RunnerModel {
                    record,
                    stage: StageModel::RegistrationPause { deadline, legacy },
                },
                shared,
                now,
                event,
            ),
            record,
            shared,
            Purpose::Register { deadline, legacy },
            if legacy {
                "AT+CGREG?"@
            } else {
                "AT+CEREG?"@
            },
            record.config.command_timeout,
        ),
{
}

/// Whether a line tells that a call was answered.
pub open spec fn tells_of_answer(text: Seq<char>) -> bool {
    ||| text == "CONNECT"@
    ||| exists|rest: Seq<char>| text == #[trigger] ("CONNECT "@ + rest)
}

/// Whether a line tells that a command failed.
pub open spec fn tells_of_failure(text: Seq<char>) -> bool {
    ||| text == "ERROR"@
    ||| text == "NO CARRIER"@
    ||| exists|rest: Seq<char>| text == #[trigger] ("+CME ERROR"@ + rest)
    ||| exists|rest: Seq<char>| text == #[trigger] ("+CMS ERROR"@ + rest)
}

proof fn lemma_prefix_is_head(prefix: Seq<char>, text: Seq<char>)
    ensures
        prefix.is_prefix_of(text) <==> exists|rest: Seq<char>| text == #[trigger] (prefix + rest),
{
    if prefix.is_prefix_of(text) {
        assert(text =~= prefix + text.skip(prefix.len() as int));
    }
    if exists|rest: Seq<char>| text == #[trigger] (prefix + rest) {
        let rest = choose|rest: Seq<char>| text == #[trigger] (prefix + rest);
        assert(text.subrange(0, prefix.len() as int) =~= prefix);
    }
}

/// A reply tells of a failure just by these words.
pub proof fn law_failures_have_their_words(text: Seq<char>)
    ensures
        failure_reply(text) <==> tells_of_failure(text),
{
    lemma_prefix_is_head("+CME ERROR"@, text);
    lemma_prefix_is_head("+CMS ERROR"@, text);
}

proof fn lemma_failure_is_no_answer(text: Seq<char>)
    requires
        tells_of_failure(text),
    ensures
        text != "CONNECT"@,
        !"CONNECT "@.is_prefix_of(text),
{
    reveal_strlit("ERROR");
    reveal_strlit("NO CARRIER");
    reveal_strlit("+CME ERROR");
    reveal_strlit("+CMS ERROR");
    reveal_strlit("CONNECT");
    reveal_strlit("CONNECT ");
    assert(text[0] == 'E' || text[0] == 'N' || text[0] == '+');
    assert("CONNECT"@[0] == 'C');
    if "CONNECT "@.is_prefix_of(text) {
        assert("CONNECT "@[0] == 'C');
        assert(text.subrange(0, "CONNECT "@.len() as int)[0] == text[0]);
    }
}

/// The reply to a call is read line by line: one that tells of a failure ends the session with that
/// very line, one that tells of an answer brings up PPP, and any other is passed over, with the next
/// one waited for until the same moment.
pub proof fn law_a_call_is_answered_or_fails(
    record: RecordModel,
    shared: SharedModel,
    now: Timestamp,
    deadline: Timestamp,
    line: Seq<u8>,
)
    ensures
        ({
            let turn = proceed(
                RunnerModel { record, stage: StageModel::DialReading { deadline } },
                shared,
                now,
                EventModel::Line(Ok(line)),
            );
            let text = line_text(line);
            &&& tells_of_failure(text) ==> session_fails(
                turn,
                record,
                shared,
                now,
                ErrorModel::At(text),
            )
            &&& tells_of_answer(text) ==> if shared.stop {
                winds_up(turn, record, shared)
            } else {
                leads_to(
                    turn,
                    record,
                    showing(shared, ModemState::NegotiatingPpp, None),
                    StageModel::StartingPpp,
                    ActionModel::StartPpp,
                )
            }
            &&& !tells_of_failure(text) && !tells_of_answer(text) ==> leads_to(
                turn,
                record,
                shared,
                StageModel::DialReading { deadline },
                ActionModel::ReadLine { deadline, operation: "dialing the modem"@ },
            )
        }),
{
    let text = line_text(line);
    reveal(dial_event);
    reveal(dial_line);
    law_failures_have_their_words(text);
    lemma_prefix_is_head("CONNECT "@, text);
    lemma_session_fails(record, shared, now, ErrorModel::At(text));
    if tells_of_failure(text) {
        lemma_failure_is_no_answer(text);
    }
}

/// Once the dial command is written, its reply may take as long as is given for it; if it cannot be
/// written, or no line can be read, the session ends.
pub proof fn law_a_call_takes_its_time(
    record: RecordModel,
    shared: SharedModel,
    now: Timestamp,
    deadline: Timestamp,
    error: ErrorModel,
)
    ensures
        ({
            let writing = RunnerModel { record, stage: StageModel::DialWriting };
            let reading = RunnerModel { record, stage: StageModel::DialReading { deadline } };
            let until = later(now, record.config.dial_timeout);
            &&& leads_to(
                proceed(writing, shared, now, EventModel::Written(true)),
                record,
                shared,
                StageModel::DialReading { deadline: until },
                ActionModel::ReadLine { deadline: until, operation: "dialing the modem"@ },
            )
            &&& session_fails(
                proceed(writing, shared, now, EventModel::Written(false)),
                record,
                shared,
                now,
                ErrorModel::Io,
            )
            &&& session_fails(
                proceed(reading, shared, now, EventModel::Line(Err(error))),
                record,
                shared,
                now,
                error,
            )
        }),
{
    reveal(dial_event);
    lemma_session_fails(record, shared, now, ErrorModel::Io);
    lemma_session_fails(record, shared, now, error);
}

/// Where a link is looked after on an event, if it is: the moment until which it must be connected,
/// and whether it has been already. It is once the stack is started, and whenever data was handed to
/// it or none was there.
pub open spec fn link_looked_after(
    record: RecordModel,
    stage: StageModel,
    now: Timestamp,
    event: EventModel,
) -> Option<(Timestamp, bool)> {
    match (stage, event) {
        (StageModel::StartingPpp, EventModel::Driver(Ok(()))) => Some(
            (later(now, record.config.ppp_timeout), false),
        ),
        (StageModel::Online { deadline, was_connected }, EventModel::Data(Ok(data))) => if data.len()
            == 0 {
            Some((deadline, was_connected))
        } else {
            None
        },
        (StageModel::Delivering { deadline, was_connected }, EventModel::Driver(Ok(()))) => Some(
            (deadline, was_connected),
        ),
        _ => None,
    }
}

/// Whether a turn ends the link because of `error`, or on request: the stack is seen to first.
pub open spec fn link_ends(
    turn: Turn,
    record: RecordModel,
    shared: SharedModel,
    error: Option<ErrorModel>,
) -> bool {
    leads_to(
        turn,
        record,
        shared,
        StageModel::Shutdown(ShutdownProgress::Query, AfterModel::EndSession(error)),
        ActionModel::QueryPpp,
    )
}

/// A link ends on request; on any PPP error but the user's own, be it connected or not; when its
/// addresses are lost; and when none are there in time. In all other cases data is read for it, and
/// the moment at which it is first found connected is kept in mind.
pub proof fn law_a_link_is_used_until_it_ends(
    record: RecordModel,
    stage: StageModel,
    shared: SharedModel,
    now: Timestamp,
    event: EventModel,
)
    requires
        link_looked_after(record, stage, now, event) is Some,
    ensures
        ({
            let turn = proceed(RunnerModel { record, stage }, shared, now, event);
            let (deadline, was_connected) = link_looked_after(record, stage, now, event)->0;
            let heard = SharedModel { ppp_error: None, ..shared };
            let user = shared.ppp_error is None || shared.ppp_error == Some(ModemPPPError::User);
            let state = shared.status.state;
            &&& shared.stop ==> link_ends(turn, record, shared, None)
            &&& forall|error: ModemPPPError|
                !shared.stop && shared.ppp_error == Some(error) && error != ModemPPPError::User
                    ==> #[trigger] link_ends(turn, record, heard, Some(ErrorModel::Ppp(error)))
            &&& !shared.stop && user && was_connected && state == ModemState::Recovering
                ==> link_ends(turn, record, heard, Some(ErrorModel::ConnectionLost))
            &&& !shared.stop && user && !was_connected && state != ModemState::Connected
                && deadline.nanos <= now.nanos ==> link_ends(
                turn,
                record,
                heard,
                Some(ErrorModel::Timeout("negotiating PPP"@)),
            )
            &&& !shared.stop && user && state == ModemState::Connected ==> leads_to(
                turn,
                RecordModel {
                    connected_since: match record.connected_since {
                        Some(since) => Some(since),
                        None => Some(now),
                    },
                    ..record
                },
                heard,
                StageModel::Online { deadline, was_connected: true },
                ActionModel::ReadData { capacity: 4096, timeout: Duration { nanos: 100_000_000 } },
            )
            &&& !shared.stop && user && state != ModemState::Connected && (if was_connected {
                state != ModemState::Recovering
            } else {
                now.nanos < deadline.nanos
            }) ==> leads_to(
                turn,
                record,
                heard,
                StageModel::Online { deadline, was_connected },
                ActionModel::ReadData { capacity: 4096, timeout: Duration { nanos: 100_000_000 } },
            )
        }),
{
    reveal(link_event);
    reveal(online);
}

/// Data that is there goes to the stack before the link is looked after again, and a stack or a line
/// that fails ends the session with its error.
pub proof fn law_a_link_that_fails_ends_the_session(
    record: RecordModel,
    stage: StageModel,
    shared: SharedModel,
    now: Timestamp,
    event: EventModel,
)
    requires
        stage is StartingPpp || stage is Online || stage is Delivering,
        awaits(stage, event),
    ensures
        ({
            let turn = proceed(RunnerModel { record, stage }, shared, now, event);
            &&& event matches EventModel::Driver(Err(error)) ==> session_fails(
                turn,
                record,
                shared,
                now,
                ErrorModel::Esp(error),
            )
            &&& event matches EventModel::Data(Err(error)) ==> session_fails(
                turn,
                record,
                shared,
                now,
                error,
            )
            &&& stage matches StageModel::Online { deadline, was_connected } ==> (event matches EventModel::Data(
                Ok(data),
            ) ==> data.len() > 0 ==> leads_to(
                turn,
                record,
                shared,
                StageModel::Delivering { deadline, was_connected },
                ActionModel::Deliver(data),
            ))
        }),
{
    reveal(link_event);
    if let EventModel::Driver(Err(error)) = event {
        lemma_session_fails(record, shared, now, ErrorModel::Esp(error));
    }
    if let EventModel::Data(Err(error)) = event {
        lemma_session_fails(record, shared, now, error);
    }
}

/// Whether a turn goes on from a shutdown that went well, or failed with an error: to the end of the
/// session, to the recovery of the modem, or to the end of the run.
pub open spec fn shutdown_ends(
    turn: Turn,
    record: RecordModel,
    shared: SharedModel,
    now: Timestamp,
    after: AfterModel,
    error: Option<ErrorModel>,
) -> bool {
    match (after, error) {
        (AfterModel::EndSession(_), Some(error)) => session_fails(turn, record, shared, now, error),
        (AfterModel::EndSession(Some(error)), None) => session_fails(
            turn,
            record,
            shared,
            now,
            error,
        ),
        (AfterModel::EndSession(None), None) => winds_up(turn, record, shared),
        (AfterModel::Recover, None) => leads_to(
            turn,
            record,
            shared,
            StageModel::RecoveryDiscard,
            ActionModel::DiscardPending,
        ),
        (AfterModel::Finish, None) => leads_to(
            turn,
            record,
            showing(shared, ModemState::Stopped, None),
            StageModel::Finished,
            ActionModel::Finish(Ok(())),
        ),
        (_, Some(error)) => gives_up(turn, record, shared, error),
    }
}

/// Whether a turn goes on with a shutdown: when its time is over it has failed; it is done when the
/// stack is dead, and only then; and until one of the two, what the peer still sends is read.
pub open spec fn shutdown_goes_on(
    turn: Turn,
    record: RecordModel,
    shared: SharedModel,
    now: Timestamp,
    deadline: Timestamp,
    after: AfterModel,
) -> bool {
    if deadline.nanos <= now.nanos {
        shutdown_ends(turn, record, shared, now, after, Some(ErrorModel::ShutdownTimeout))
    } else if shared.status.phase == ModemPhaseStatus::Dead {
        shutdown_ends(turn, record, shared, now, after, None)
    } else {
        leads_to(
            turn,
            record,
            shared,
            StageModel::Shutdown(ShutdownProgress::Drain { deadline }, after),
            ActionModel::ReadData { capacity: 512, timeout: Duration { nanos: 100_000_000 } },
        )
    }
}

proof fn lemma_shutdown_ends(
    record: RecordModel,
    shared: SharedModel,
    now: Timestamp,
    after: AfterModel,
    error: Option<ErrorModel>,
)
    ensures
        shutdown_ends(
            shutdown_done(
                record,
                shared,
                now,
                after,
                match error {
                    Some(error) => Err(error),
                    None => Ok(()),
                },
            ),
            record,
            shared,
            now,
            after,
            error,
        ),
{
    reveal(shutdown_done);
    if let Some(error) = error {
        lemma_session_fails(record, shared, now, error);
    }
    if let AfterModel::EndSession(Some(error)) = after {
        lemma_session_fails(record, shared, now, error);
    }
}

proof fn lemma_shutdown_goes_on(
    record: RecordModel,
    shared: SharedModel,
    now: Timestamp,
    deadline: Timestamp,
    after: AfterModel,
)
    ensures
        shutdown_goes_on(
            drain(record, shared, now, deadline, after),
            record,
            shared,
            now,
            deadline,
            after,
        ),
{
    reveal(drain);
    lemma_shutdown_ends(record, shared, now, after, Some(ErrorModel::ShutdownTimeout));
    lemma_shutdown_ends(record, shared, now, after, None);
}

/// A stack that runs is told to stop, and then given what the peer still sends until it is dead, for
/// as long as is given for that. One that does not run needs no stopping. A stack or a line that
/// fails on the way ends the shutdown with its error.
pub proof fn law_a_stack_is_shut_down(
    record: RecordModel,
    shared: SharedModel,
    now: Timestamp,
    progress: ShutdownProgress,
    after: AfterModel,
    event: EventModel,
)
    requires
        awaits(StageModel::Shutdown(progress, after), event),
    ensures
        ({
            let turn = proceed(
                RunnerModel { record, stage: StageModel::Shutdown(progress, after) },
                shared,
                now,
                event,
            );
            match (progress, event) {
                (ShutdownProgress::Query, EventModel::Started(Ok(started))) => if started {
                    leads_to(
                        turn,
                        record,
                        showing(shared, ModemState::Stopping, None),
                        StageModel::Shutdown(ShutdownProgress::Stop, after),
                        ActionModel::StopPpp,
                    )
                } else {
                    shutdown_ends(turn, record, shared, now, after, None)
                },
                (ShutdownProgress::Stop, EventModel::Driver(Ok(()))) => shutdown_goes_on(
                    turn,
                    record,
                    shared,
                    now,
                    later(now, record.config.shutdown_timeout),
                    after,
                ),
                (ShutdownProgress::Drain { deadline }, EventModel::Data(Ok(data))) => if data.len()
                    > 0 {
                    leads_to(
                        turn,
                        record,
                        shared,
                        StageModel::Shutdown(ShutdownProgress::Deliver { deadline }, after),
                        ActionModel::Deliver(data),
                    )
                } else {
                    shutdown_goes_on(turn, record, shared, now, deadline, after)
                },
                (ShutdownProgress::Deliver { deadline }, EventModel::Driver(Ok(()))) => {
                    shutdown_goes_on(turn, record, shared, now, deadline, after)
                },
                (_, EventModel::Data(Err(error))) => shutdown_ends(
                    turn,
                    record,
                    shared,
                    now,
                    after,
                    Some(error),
                ),
                (_, EventModel::Started(Err(error))) => shutdown_ends(
                    turn,
                    record,
                    shared,
                    now,
                    after,
                    Some(ErrorModel::Esp(error)),
                ),
                (_, EventModel::Driver(Err(error))) => shutdown_ends(
                    turn,
                    record,
                    shared,
                    now,
                    after,
                    Some(ErrorModel::Esp(error)),
                ),
                _ => false,
            }
        }),
{
    reveal(shutdown_event);
    lemma_shutdown_ends(record, shared, now, after, None);
    match (progress, event) {
        (_, EventModel::Data(Err(error))) => {
            lemma_shutdown_ends(record, shared, now, after, Some(error));
        },
        (_, EventModel::Started(Err(error))) => {
            lemma_shutdown_ends(record, shared, now, after, Some(ErrorModel::Esp(error)));
        },
        (_, EventModel::Driver(Err(error))) => {
            lemma_shutdown_ends(record, shared, now, after, Some(ErrorModel::Esp(error)));
        },
        (ShutdownProgress::Query, _) => {},
        (ShutdownProgress::Stop, _) => {
            lemma_shutdown_goes_on(
                record,
                shared,
                now,
                later(now, record.config.shutdown_timeout),
                after,
            );
        },
        (ShutdownProgress::Drain { deadline }, _) => {
            lemma_shutdown_goes_on(record, shared, now, deadline, after);
        },
        (ShutdownProgress::Deliver { deadline }, _) => {
            lemma_shutdown_goes_on(record, shared, now, deadline, after);
        },
    }
}

/// A modem is recovered without a running stack and without old input: it is asked for a second
/// whether it listens; if it does not, it is sent `+++` with a silence on both sides, and asked
/// again. What fails on the way ends the run.
pub proof fn law_a_modem_is_brought_back(
    record: RecordModel,
    shared: SharedModel,
    now: Timestamp,
    stage: StageModel,
    event: EventModel,
)
    requires
        awaits(stage, event),
    ensures
        ({
            let turn = proceed(RunnerModel { record, stage }, shared, now, event);
            match (stage, event) {
                (StageModel::RecoveryQuery, EventModel::Started(Ok(started))) => if started {
                    leads_to(
                        turn,
                        record,
                        shared,
                        StageModel::Shutdown(ShutdownProgress::Query, AfterModel::Recover),
                        ActionModel::QueryPpp,
                    )
                } else {
                    leads_to(
                        turn,
                        record,
                        shared,
                        StageModel::RecoveryDiscard,
                        ActionModel::DiscardPending,
                    )
                },
                (StageModel::RecoveryQuery, EventModel::Started(Err(error))) => gives_up(
                    turn,
                    record,
                    shared,
                    ErrorModel::Esp(error),
                ),
                (StageModel::RecoveryDiscard, _) => sends(
                    turn,
                    record,
                    shared,
                    Purpose::Probe,
                    "AT"@,
                    Duration { nanos: 1_000_000_000 },
                ),
                (StageModel::GuardBefore, _) => leads_to(
                    turn,
                    record,
                    shared,
                    StageModel::Escape,
                    ActionModel::Write(encode_utf8("+++"@)),
                ),
                (StageModel::Escape, EventModel::Written(written)) => if written {
                    leads_to(
                        turn,
                        record,
                        shared,
                        StageModel::GuardAfter,
                        ActionModel::Delay(1100),
                    )
                } else {
                    gives_up(turn, record, shared, ErrorModel::Io)
                },
                (StageModel::GuardAfter, _) => leads_to(
                    turn,
                    record,
                    shared,
                    StageModel::RecoveryDiscardAgain,
                    ActionModel::DiscardPending,
                ),
                (StageModel::RecoveryDiscardAgain, _) => sends(
                    turn,
                    record,
                    shared,
                    Purpose::ProbeAgain,
                    "AT"@,
                    record.config.command_timeout,
                ),
                _ => true,
            }
        }),
{
    reveal(recovery_event);
}

/// A modem that listens is made to hang up, and the next session waits, whether it did or not, for
/// the whole milliseconds of the delay of the next retry, as far as the timer of 32 bits counts. One
/// that does not listen is escaped from, and one that does not listen even then needs a reset.
pub proof fn law_a_modem_that_listens_hangs_up(
    record: RecordModel,
    shared: SharedModel,
    now: Timestamp,
    purpose: Purpose,
    exchange: ExchangeModel,
    event: EventModel,
)
    requires
        reply_end(exchange, event) is Some,
    ensures
        ({
            let turn = proceed(
                RunnerModel { record, stage: StageModel::Command(purpose, exchange) },
                shared,
                now,
                event,
            );
            let listens = reply_end(exchange, event)->0 is Ok;
            &&& (purpose == Purpose::Probe || purpose == Purpose::ProbeAgain) && listens ==> sends(
                turn,
                record,
                shared,
                Purpose::HangUp,
                "ATH"@,
                record.config.command_timeout,
            )
            &&& purpose == Purpose::Probe && !listens ==> leads_to(
                turn,
                record,
                shared,
                StageModel::GuardBefore,
                ActionModel::Delay(1100),
            )
            &&& purpose == Purpose::ProbeAgain && !listens ==> gives_up(
                turn,
                record,
                shared,
                ErrorModel::RecoveryRequired,
            )
            &&& purpose == Purpose::HangUp ==> leads_to(
                turn,
                record,
                shared,
                StageModel::BackOff,
                ActionModel::Delay(
                    ((record.config.retry_delays[record.retry as int].nanos / 1_000_000)
                        % 4_294_967_296) as u32,
                ),
            )
        }),
{
    lemma_reply_end(record, shared, now, purpose, exchange, event);
    reveal(command_done);
}

/// Whether a turn finds the link connected and goes on with it.
pub open spec fn finds_connection(runner: RunnerModel, input: Input) -> bool {
    &&& link_looked_after(runner.record, runner.stage, input.now, input.event) is Some
    &&& !input.shared.stop
    &&& input.shared.ppp_error is None || input.shared.ppp_error == Some(ModemPPPError::User)
    &&& input.shared.status.state == ModemState::Connected
}

/// Whether a run at `stage` is in the course of a session that has begun already.
pub open spec fn in_session(stage: StageModel) -> bool {
    step_of(stage) is Some
}

/// Whether a run is in the course of one session at each of a row of inputs.
pub open spec fn stays_in_session(runner: RunnerModel, inputs: Seq<Input>) -> bool
    decreases inputs.len(),
{
    inputs.len() > 0 ==> {
        &&& stays_in_session(runner, inputs.drop_last())
        &&& in_session(run_after(runner, inputs.drop_last()).stage)
    }
}

/// The moment of the first of a row of turns that finds the link connected, if any does.
pub open spec fn first_connection(runner: RunnerModel, inputs: Seq<Input>) -> Option<Timestamp>
    decreases inputs.len(),
{
    if inputs.len() == 0 {
        None
    } else {
        let earlier = inputs.drop_last();
        match first_connection(runner, earlier) {
            Some(moment) => Some(moment),
            None => if finds_connection(run_after(runner, earlier), inputs.last()) {
                Some(inputs.last().now)
            } else {
                None
            },
        }
    }
}

/// Whether a turn in the course of a session keeps the moment since which it is connected, and, if
/// the session fails, uses it to settle the retries.
spec fn keeps_moment(record: RecordModel, now: Timestamp, turn: Turn) -> bool {
    &&& turn.runner.record.connected_since == record.connected_since
    &&& settles_retries(record, now, turn)
}

/// Whether a turn in the course of a session settles the retries if the session fails.
spec fn settles_retries(record: RecordModel, now: Timestamp, turn: Turn) -> bool {
    ||| in_session(turn.runner.stage)
    ||| is_stopping(turn.runner.stage)
    ||| turn.runner.record.retry == retries_left_used(record, now)
}

proof fn lemma_moment_end_session(
    record: RecordModel,
    shared: SharedModel,
    now: Timestamp,
    error: ErrorModel,
)
    ensures
        keeps_moment(record, now, end_session(record, shared, now, error)),
{
    reveal(end_session);
}

proof fn lemma_moment_keep_registering(
    record: RecordModel,
    shared: SharedModel,
    now: Timestamp,
    deadline: Timestamp,
    legacy: bool,
)
    ensures
        keeps_moment(record, now, keep_registering(record, shared, now, deadline, legacy)),
{
    reveal(keep_registering);
    lemma_moment_end_session(
        record,
        shared,
        now,
        ErrorModel::Timeout("waiting for cellular registration"@),
    );
}

proof fn lemma_moment_sim_ready(record: RecordModel, shared: SharedModel, now: Timestamp)
    ensures
        keeps_moment(record, now, sim_ready(record, shared, now)),
{
    reveal(sim_ready);
}

proof fn lemma_moment_check_sim(
    record: RecordModel,
    shared: SharedModel,
    now: Timestamp,
    lines: Seq<Seq<char>>,
)
    ensures
        keeps_moment(record, now, check_sim(record, shared, now, lines)),
{
    reveal(check_sim);
    lemma_moment_sim_ready(record, shared, now);
    lemma_moment_end_session(record, shared, now, ErrorModel::SimPinRejected);
    lemma_moment_end_session(record, shared, now, ErrorModel::SimPinRequired);
}

proof fn lemma_moment_check_registration(
    record: RecordModel,
    shared: SharedModel,
    now: Timestamp,
    deadline: Timestamp,
    legacy: bool,
    result: Result<Seq<Seq<char>>, ErrorModel>,
)
    ensures
        keeps_moment(
            record,
            now,
            check_registration(record, shared, now, deadline, legacy, result),
        ),
{
    reveal(check_registration);
    lemma_moment_keep_registering(record, shared, now, deadline, legacy);
    lemma_moment_keep_registering(record, shared, now, deadline, true);
    lemma_moment_end_session(record, shared, now, ErrorModel::RegistrationDenied);
    if let Err(error) = result {
        lemma_moment_end_session(record, shared, now, error);
    }
}

proof fn lemma_moment_command_done(
    record: RecordModel,
    shared: SharedModel,
    now: Timestamp,
    purpose: Purpose,
    result: Result<Seq<Seq<char>>, ErrorModel>,
)
    requires
        step_of_command(purpose) is Some,
    ensures
        keeps_moment(record, now, command_done(record, shared, now, purpose, result)),
{
    reveal(command_done);
    lemma_moment_sim_ready(record, shared, now);
    lemma_moment_end_session(record, shared, now, ErrorModel::SimPinRejected);
    lemma_moment_end_session(
        record,
        shared,
        now,
        ErrorModel::Timeout("synchronizing with the modem"@),
    );
    if let Err(error) = result {
        lemma_moment_end_session(record, shared, now, error);
    }
    match (purpose, result) {
        (Purpose::Register { deadline, legacy }, _) => {
            lemma_moment_check_registration(record, shared, now, deadline, legacy, result);
        },
        (Purpose::QuerySim, Ok(lines)) => {
            lemma_moment_check_sim(record, shared, now, lines);
        },
        _ => {},
    }
}

proof fn lemma_moment_command_event(
    record: RecordModel,
    shared: SharedModel,
    now: Timestamp,
    purpose: Purpose,
    exchange: ExchangeModel,
    event: EventModel,
)
    requires
        step_of_command(purpose) is Some,
    ensures
        keeps_moment(record, now, command_event(record, shared, now, purpose, exchange, event)),
{
    reveal(command_event);
    if let ExchangeTurnModel::Done(result) = after_exchange_event(exchange, now, event) {
        lemma_moment_command_done(record, shared, now, purpose, result);
    }
}

proof fn lemma_moment_dial_event(
    record: RecordModel,
    shared: SharedModel,
    now: Timestamp,
    stage: StageModel,
    event: EventModel,
)
    requires
        stage is DialWriting || stage is DialReading,
        awaits(stage, event),
    ensures
        keeps_moment(record, now, dial_event(record, shared, now, stage, event)),
{
    reveal(dial_event);
    reveal(dial_line);
    lemma_moment_end_session(record, shared, now, ErrorModel::Io);
    match event {
        EventModel::Line(Ok(line)) => {
            lemma_moment_end_session(record, shared, now, ErrorModel::At(line_text(line)));
        },
        EventModel::Line(Err(error)) => {
            lemma_moment_end_session(record, shared, now, error);
        },
        _ => {},
    }
}

proof fn lemma_moment_shutdown_done(
    record: RecordModel,
    shared: SharedModel,
    now: Timestamp,
    after: AfterModel,
    result: Result<(), ErrorModel>,
)
    requires
        after is EndSession,
    ensures
        keeps_moment(record, now, shutdown_done(record, shared, now, after, result)),
{
    reveal(shutdown_done);
    if let Err(error) = result {
        lemma_moment_end_session(record, shared, now, error);
    }
    if let AfterModel::EndSession(Some(error)) = after {
        lemma_moment_end_session(record, shared, now, error);
    }
}

proof fn lemma_moment_drain(
    record: RecordModel,
    shared: SharedModel,
    now: Timestamp,
    deadline: Timestamp,
    after: AfterModel,
)
    requires
        after is EndSession,
    ensures
        keeps_moment(record, now, drain(record, shared, now, deadline, after)),
{
    reveal(drain);
    lemma_moment_shutdown_done(record, shared, now, after, Err(ErrorModel::ShutdownTimeout));
    lemma_moment_shutdown_done(record, shared, now, after, Ok(()));
}

proof fn lemma_moment_shutdown_event(
    record: RecordModel,
    shared: SharedModel,
    now: Timestamp,
    progress: ShutdownProgress,
    after: AfterModel,
    event: EventModel,
)
    requires
        after is EndSession,
        awaits(StageModel::Shutdown(progress, after), event),
    ensures
        keeps_moment(record, now, shutdown_event(record, shared, now, progress, after, event)),
{
    reveal(shutdown_event);
    lemma_moment_shutdown_done(record, shared, now, after, Ok(()));
    match (progress, event) {
        (_, EventModel::Data(Err(error))) => {
            lemma_moment_shutdown_done(record, shared, now, after, Err(error));
        },
        (_, EventModel::Started(Err(error))) => {
            lemma_moment_shutdown_done(record, shared, now, after, Err(ErrorModel::Esp(error)));
        },
        (_, EventModel::Driver(Err(error))) => {
            lemma_moment_shutdown_done(record, shared, now, after, Err(ErrorModel::Esp(error)));
        },
        (ShutdownProgress::Query, _) => {},
        (ShutdownProgress::Stop, _) => {
            lemma_moment_drain(
                record,
                shared,
                now,
                later(now, record.config.shutdown_timeout),
                after,
            );
        },
        (ShutdownProgress::Drain { deadline }, _) => {
            lemma_moment_drain(record, shared, now, deadline, after);
        },
        (ShutdownProgress::Deliver { deadline }, _) => {
            lemma_moment_drain(record, shared, now, deadline, after);
        },
    }
}

proof fn lemma_moment_link_event(
    record: RecordModel,
    shared: SharedModel,
    now: Timestamp,
    stage: StageModel,
    event: EventModel,
)
    requires
        stage is StartingPpp || stage is Online || stage is Delivering,
        awaits(stage, event),
    ensures
        ({
            let turn = link_event(record, shared, now, stage, event);
            let found = finds_connection(
                RunnerModel { record, stage },
                Input { shared, now, event },
            );
            &&& turn.runner.record.connected_since == if record.connected_since is None && found {
                Some(now)
            } else {
                record.connected_since
            }
            &&& settles_retries(record, now, turn)
        }),
{
    reveal(link_event);
    match event {
        EventModel::Data(Err(error)) => {
            lemma_moment_end_session(record, shared, now, error);
        },
        EventModel::Driver(Err(error)) => {
            lemma_moment_end_session(record, shared, now, ErrorModel::Esp(error));
        },
        _ => {
            reveal(online);
        },
    }
}

/// What a turn in the course of a session makes of the moment since which it is connected, and of
/// the retries.
proof fn lemma_connected_since(runner: RunnerModel, input: Input)
    requires
        in_session(runner.stage),
        awaits(runner.stage, input.event),
    ensures
        turn_on(runner, input).runner.record.connected_since == if runner.record.connected_since
            is None && finds_connection(runner, input) {
            Some(input.now)
        } else {
            runner.record.connected_since
        },
        settles_retries(runner.record, input.now, turn_on(runner, input)),
{
    let record = runner.record;
    let (shared, now, event) = (input.shared, input.now, input.event);
    match runner.stage {
        StageModel::Command(purpose, exchange) => {
            lemma_moment_command_event(record, shared, now, purpose, exchange, event);
        },
        StageModel::DialWriting | StageModel::DialReading { .. } => {
            lemma_moment_dial_event(record, shared, now, runner.stage, event);
        },
        StageModel::StartingPpp
        | StageModel::Online { .. }
        | StageModel::Delivering { .. } => {
            lemma_moment_link_event(record, shared, now, runner.stage, event);
        },
        StageModel::Shutdown(progress, after) => {
            lemma_moment_shutdown_event(record, shared, now, progress, after, event);
        },
        _ => {},
    }
}

/// A session keeps in mind since when it is connected: from its beginning on, that is the moment of
/// the first turn that found the link connected, however many follow, and nothing before that turn.
pub proof fn law_a_connection_counts_from_its_first_moment(
    runner: RunnerModel,
    inputs: Seq<Input>,
)
    requires
        all_awaited(runner, inputs),
        stays_in_session(runner, inputs),
    ensures
        run_after(runner, inputs).record.connected_since == match runner.record.connected_since {
            Some(since) => Some(since),
            None => first_connection(runner, inputs),
        },
    decreases inputs.len(),
{
    if inputs.len() > 0 {
        law_a_connection_counts_from_its_first_moment(runner, inputs.drop_last());
        lemma_connected_since(run_after(runner, inputs.drop_last()), inputs.last());
    }
}

/// A lasting connection renews the retries: a session, from its first turn to the one at which it
/// fails, forgets the retries made before it if it fails a minute or more after the first turn that
/// found it connected, and keeps them otherwise.
pub proof fn law_a_lasting_connection_renews_the_retries(
    runner: RunnerModel,
    inputs: Seq<Input>,
    last: Input,
)
    requires
        runner.record.connected_since is None,
        all_awaited(runner, inputs),
        stays_in_session(runner, inputs),
        in_session(run_after(runner, inputs).stage),
        awaits(run_after(runner, inputs).stage, last.event),
        !in_session(turn_on(run_after(runner, inputs), last).runner.stage),
        !is_stopping(turn_on(run_after(runner, inputs), last).runner.stage),
    ensures
        turn_on(run_after(runner, inputs), last).runner.record.retry == if has_lasted(
            first_connection(runner, inputs),
            last.now,
        ) {
            0
        } else {
            run_after(runner, inputs).record.retry
        },
{
    law_a_connection_counts_from_its_first_moment(runner, inputs);
    lemma_connected_since(run_after(runner, inputs), last);
}

} // verus!
