//! What holds of every run, whatever its surroundings answer.
use crate::action::{answers, ActionModel, EventModel};
use crate::at::{argument_allowed, forbidden_in_argument, value_of};
use crate::command::{
    after_exchange_event, dial_meaning, exchange_awaits, ExchangeModel, ExchangeTurnModel, Reply,
};
use crate::config::{config_fault, ConfigModel};
use crate::error::{worth_retrying, ErrorModel};
use crate::handle::addresses_fit;
use crate::session::{
    ask, awaits, begin_session, check_registration, check_sim, command_done, command_event,
    command_text, dial_bytes, dial_event, dial_line, drain, end_session, escape_bytes,
    is_recovering, keep_registering, link_event, online, proceed, recovery_event,
    retries_settled, shut_down, shutdown_awaits, shutdown_done, shutdown_event, sim_ready, start,
    timer_millis, wind_up, within_retries, AfterModel, Purpose, RecordModel, RunnerModel,
    ShutdownProgress, StageModel, Turn,
};
use crate::status::{
    after_ip_event, after_ppp_event, initial_shared, IpEvent, ModemState, PppEvent, SharedModel,
};
use crate::text::lemma_ascii_byte_of_text;
use crate::time::Timestamp;
use vstd::prelude::*;
use vstd::utf8::{encode_utf8, is_ascii_chars_encode_utf8};

verus! {

/// Whether what is shared shows how a run ended, if the turn ended it: stopped without an error, or
/// failed with the error that the run ended with.
pub open spec fn shows_its_end(turn: Turn) -> bool {
    &&& turn.action is Finish <==> turn.runner.stage is Finished
    &&& turn.action == ActionModel::Finish(Ok(())) ==> {
        &&& turn.shared.status.state == ModemState::Stopped
        &&& turn.shared.status.last_error is None
        &&& turn.shared.status.ip_info is None
    }
    &&& turn.action matches ActionModel::Finish(Err(error)) ==> {
        &&& turn.shared.status.state == ModemState::Failed
        &&& turn.shared.status.last_error == Some(error)
        &&& turn.shared.status.ip_info is None
    }
}

/// Whether the answers to the action of a turn are just those that the run then takes.
pub open spec fn takes_the_answers(turn: Turn) -> bool {
    forall|answer: EventModel|
        answers(answer, turn.action) <==> #[trigger] awaits(turn.runner.stage, answer)
}

/// Whether a turn changed only what is the runner's to change.
pub open spec fn keeps_to_its_own(record: RecordModel, shared: SharedModel, turn: Turn) -> bool {
    &&& turn.runner.record.config == record.config
    &&& turn.shared.status.phase == shared.status.phase
    &&& turn.shared.stop == shared.stop
    &&& addresses_fit(shared) ==> addresses_fit(turn.shared)
}

/// Whether a turn left the count of retries as it was, or forgot them after a lasting connection.
pub open spec fn counts_retries(record: RecordModel, now: Timestamp, turn: Turn) -> bool {
    ||| turn.runner.record.retry == record.retry
    ||| turn.runner.record.retry == retries_settled(record, now).retry
}

/// Whether a turn that leads to a wait before a retry waits as long as is configured for that retry.
pub open spec fn waits_its_delay(turn: Turn) -> bool {
    turn.runner.stage is BackOff ==> turn.action == ActionModel::Delay(
        timer_millis(turn.runner.record.config.retry_delays[turn.runner.record.retry as int]),
    )
}

/// The place that a command has among the steps of a session, if it belongs to one.
pub open spec fn step_of_command(purpose: Purpose) -> Option<int> {
    match purpose {
        Purpose::Synchronize { .. } => Some(0),
        Purpose::DisableEcho => Some(1),
        Purpose::VerboseErrors => Some(2),
        Purpose::DisableFlowControl => Some(3),
        Purpose::QuerySim => Some(4),
        Purpose::UnlockSim => Some(5),
        Purpose::Register { .. } => Some(6),
        Purpose::DefineContext => Some(7),
        Purpose::Probe | Purpose::ProbeAgain | Purpose::HangUp => None,
    }
}

/// The place that a stage has among the steps of a session, if it belongs to one.
pub open spec fn step_of(stage: StageModel) -> Option<int> {
    match stage {
        StageModel::Command(purpose, _) => step_of_command(purpose),
        StageModel::RegistrationPause { .. } => Some(6),
        StageModel::DialWriting => Some(8),
        StageModel::DialReading { .. } => Some(9),
        StageModel::StartingPpp => Some(10),
        StageModel::Online { .. } | StageModel::Delivering { .. } => Some(11),
        StageModel::Shutdown(_, AfterModel::EndSession(_)) => Some(12),
        _ => None,
    }
}

/// Whether a step may come after another: a session begins with its first step, goes on from each
/// step to the next, and may be left at any step. Only a SIM that wants no PIN and a link that ends
/// before data was read for it have a step left out.
pub open spec fn follows(from: Option<int>, to: Option<int>) -> bool {
    match (from, to) {
        (_, None) => true,
        (None, Some(b)) => b == 0,
        (Some(a), Some(b)) => {
            ||| a <= b <= a + 1
            ||| a == 4 && b == 6
            ||| a == 10 && b == 12
        },
    }
}

/// Whether a run at `stage` is on its way to end because it was asked to.
pub open spec fn is_stopping(stage: StageModel) -> bool {
    match stage {
        StageModel::Shutdown(_, AfterModel::Finish) => true,
        StageModel::Shutdown(_, AfterModel::EndSession(None)) => true,
        _ => false,
    }
}

/// Where a turn comes from.
struct Origin {
    step: Option<int>,
    stopping: bool,
    data: Seq<u8>,
}

/// Where a turn comes from that was made at `stage` on `event`.
spec fn origin_of(stage: StageModel, event: EventModel) -> Origin {
    Origin { step: step_of(stage), stopping: is_stopping(stage), data: data_in(event) }
}

/// Where a turn comes from that was made at a step of a session.
spec fn at_step(step: Option<int>) -> Origin {
    Origin { step, stopping: false, data: Seq::empty() }
}

/// The data that an answer brings; none if it is no answer with data.
pub open spec fn data_in(event: EventModel) -> Seq<u8> {
    match event {
        EventModel::Data(Ok(data)) => data,
        _ => Seq::empty(),
    }
}

/// Whether a turn that hands data to the PPP stack hands it some, and the data that it was given.
spec fn delivers_what_came(from: Origin, turn: Turn) -> bool {
    turn.action matches ActionModel::Deliver(data) ==> data.len() > 0 && data == from.data
}

/// Whether a turn set out to end the run, or ended it well, only because that was asked for.
spec fn stops_on_request(shared: SharedModel, from: Origin, turn: Turn) -> bool {
    &&& is_stopping(turn.runner.stage) ==> shared.stop || from.stopping
    &&& turn.action == ActionModel::Finish(Ok(())) ==> from.stopping
}

/// Whether `bytes` are some that a run with this configuration sends to its modem: a command, the
/// carriage return behind it, the dial command or the escape sequence.
pub open spec fn is_sent(config: ConfigModel, bytes: Seq<u8>) -> bool {
    ||| bytes == encode_utf8("\r"@)
    ||| bytes == dial_bytes()
    ||| bytes == escape_bytes()
    ||| exists|purpose: Purpose|
        {
            &&& bytes == encode_utf8(#[trigger] command_text(purpose, config))
            &&& purpose == Purpose::UnlockSim ==> config.pin is Some
        }
}

/// All that is shown here of a single turn.
spec fn sound(
    record: RecordModel,
    shared: SharedModel,
    now: Timestamp,
    from: Origin,
    turn: Turn,
) -> bool {
    &&& shows_its_end(turn)
    &&& takes_the_answers(turn)
    &&& keeps_to_its_own(record, shared, turn)
    &&& within_retries(turn.runner)
    &&& counts_retries(record, now, turn)
    &&& waits_its_delay(turn)
    &&& turn.action matches ActionModel::Write(bytes) ==> is_sent(record.config, bytes)
    &&& follows(from.step, step_of(turn.runner.stage))
    &&& stops_on_request(shared, from, turn)
    &&& delivers_what_came(from, turn)
}

/// Whether the retries made so far leave room for what a stage may do.
spec fn has_room(record: RecordModel, recovering: bool) -> bool {
    &&& record.retry <= record.config.retry_delays.len()
    &&& recovering ==> record.retry < record.config.retry_delays.len()
}

/// Whether a command with this purpose belongs to a recovery.
spec fn for_recovery(purpose: Purpose) -> bool {
    purpose == Purpose::Probe || purpose == Purpose::ProbeAgain || purpose == Purpose::HangUp
}

proof fn lemma_ask(
    record: RecordModel,
    shared: SharedModel,
    now: Timestamp,
    from: Origin,
    purpose: Purpose,
)
    requires
        has_room(record, for_recovery(purpose)),
        follows(from.step, step_of_command(purpose)),
        purpose == Purpose::UnlockSim ==> record.config.pin is Some,
    ensures
        sound(record, shared, now, from, ask(record, shared, purpose)),
{
}

proof fn lemma_shut_down(
    record: RecordModel,
    shared: SharedModel,
    now: Timestamp,
    from: Origin,
    after: AfterModel,
)
    requires
        has_room(record, after is Recover),
        after is EndSession ==> from.step == Some(10int) || from.step == Some(11int),
        is_stopping(StageModel::Shutdown(ShutdownProgress::Query, after)) ==> shared.stop,
    ensures
        sound(record, shared, now, from, shut_down(record, shared, after)),
{
}

proof fn lemma_begin_session(record: RecordModel, shared: SharedModel, now: Timestamp)
    requires
        has_room(record, false),
    ensures
        sound(record, shared, now, at_step(None), begin_session(record, shared)),
{
}

proof fn lemma_end_session(
    record: RecordModel,
    shared: SharedModel,
    now: Timestamp,
    from: Origin,
    error: ErrorModel,
)
    requires
        has_room(record, false),
    ensures
        sound(record, shared, now, from, end_session(record, shared, now, error)),
{
    reveal(end_session);
}

proof fn lemma_keep_registering(
    record: RecordModel,
    shared: SharedModel,
    now: Timestamp,
    from: Origin,
    deadline: Timestamp,
    legacy: bool,
)
    requires
        from == at_step(Some(6)),
        has_room(record, false),
    ensures
        sound(record, shared, now, from, keep_registering(record, shared, now, deadline, legacy)),
{
    reveal(keep_registering);
    lemma_end_session(
        record,
        shared,
        now,
        from,
        ErrorModel::Timeout("waiting for cellular registration"@),
    );
}

proof fn lemma_sim_ready(
    record: RecordModel,
    shared: SharedModel,
    now: Timestamp,
    from: Origin,
)
    requires
        has_room(record, false),
        from.step == Some(4int) || from.step == Some(5int),
    ensures
        sound(record, shared, now, from, sim_ready(record, shared, now)),
{
    reveal(sim_ready);
}

proof fn lemma_check_sim(
    record: RecordModel,
    shared: SharedModel,
    now: Timestamp,
    from: Origin,
    lines: Seq<Seq<char>>,
)
    requires
        from == at_step(Some(4)),
        has_room(record, false),
    ensures
        sound(record, shared, now, from, check_sim(record, shared, now, lines)),
{
    reveal(check_sim);
    lemma_sim_ready(record, shared, now, from);
    lemma_end_session(record, shared, now, from, ErrorModel::SimPinRejected);
    lemma_end_session(record, shared, now, from, ErrorModel::SimPinRequired);
    if record.config.pin is Some {
        lemma_ask(record, shared, now, from, Purpose::UnlockSim);
    }
}

proof fn lemma_check_registration(
    record: RecordModel,
    shared: SharedModel,
    now: Timestamp,
    from: Origin,
    deadline: Timestamp,
    legacy: bool,
    result: Result<Seq<Seq<char>>, ErrorModel>,
)
    requires
        from == at_step(Some(6)),
        has_room(record, false),
    ensures
        sound(
            record,
            shared,
            now,
            from,
            check_registration(record, shared, now, deadline, legacy, result),
        ),
{
    reveal(check_registration);
    lemma_keep_registering(record, shared, now, from, deadline, legacy);
    lemma_keep_registering(record, shared, now, from, deadline, true);
    lemma_end_session(record, shared, now, from, ErrorModel::RegistrationDenied);
    lemma_ask(record, shared, now, from, Purpose::DefineContext);
    if shared.stop {
        lemma_shut_down(record, shared, now, from, AfterModel::Finish);
    }
    if let Err(error) = result {
        lemma_end_session(record, shared, now, from, error);
    }
}

proof fn lemma_command_done(
    record: RecordModel,
    shared: SharedModel,
    now: Timestamp,
    from: Origin,
    purpose: Purpose,
    result: Result<Seq<Seq<char>>, ErrorModel>,
)
    requires
        from == at_step(step_of_command(purpose)),
        has_room(record, for_recovery(purpose)),
    ensures
        sound(record, shared, now, from, command_done(record, shared, now, purpose, result)),
{
    reveal(command_done);
    match (purpose, result) {
        (Purpose::QuerySim, Ok(lines)) => {
            lemma_check_sim(record, shared, now, from, lines);
        },
        (Purpose::UnlockSim, Ok(_)) => {
            lemma_sim_ready(record, shared, now, from);
        },
        (Purpose::UnlockSim, Err(_)) => {
            lemma_end_session(record, shared, now, from, ErrorModel::SimPinRejected);
        },
        (Purpose::Register { deadline, legacy }, result) => {
            lemma_check_registration(record, shared, now, from, deadline, legacy, result);
        },
        (Purpose::Synchronize { .. }, Err(_)) => {
            lemma_end_session(
                record,
                shared,
                now,
                from,
                ErrorModel::Timeout("synchronizing with the modem"@),
            );
        },
        (_, Err(error)) => {
            if !for_recovery(purpose) {
                lemma_end_session(record, shared, now, from, error);
            }
        },
        _ => {},
    }
}

proof fn lemma_command_event(
    record: RecordModel,
    shared: SharedModel,
    now: Timestamp,
    from: Origin,
    purpose: Purpose,
    exchange: ExchangeModel,
    event: EventModel,
)
    requires
        from == at_step(step_of_command(purpose)),
        has_room(record, for_recovery(purpose)),
        exchange_awaits(exchange, event),
    ensures
        sound(record, shared, now, from, command_event(record, shared, now, purpose, exchange, event)),
{
    reveal(command_event);
    match after_exchange_event(exchange, now, event) {
        ExchangeTurnModel::Continue(next, action) => {
            assert(forall|answer: EventModel|
                answers(answer, action) <==> #[trigger] exchange_awaits(next, answer));
        },
        ExchangeTurnModel::Done(result) => {
            lemma_command_done(record, shared, now, from, purpose, result);
        },
    }
}

proof fn lemma_dial_event(
    record: RecordModel,
    shared: SharedModel,
    now: Timestamp,
    from: Origin,
    stage: StageModel,
    event: EventModel,
)
    requires
        from == origin_of(stage, event),
        has_room(record, false),
        stage is DialWriting || stage is DialReading,
        awaits(stage, event),
    ensures
        sound(record, shared, now, from, dial_event(record, shared, now, stage, event)),
{
    reveal(dial_event);
    reveal(dial_line);
    match event {
        EventModel::Line(Ok(line)) => {
            lemma_end_session(
                record,
                shared,
                now,
                from,
                ErrorModel::At(crate::text::line_text(line)),
            );
        },
        EventModel::Line(Err(error)) => {
            lemma_end_session(record, shared, now, from, error);
        },
        _ => {
            lemma_end_session(record, shared, now, from, ErrorModel::Io);
        },
    }
}

proof fn lemma_online(
    record: RecordModel,
    shared: SharedModel,
    now: Timestamp,
    from: Origin,
    deadline: Timestamp,
    was_connected: bool,
)
    requires
        from.step == Some(10int) || from.step == Some(11int),
        has_room(record, false),
    ensures
        sound(record, shared, now, from, online(record, shared, now, deadline, was_connected)),
{
    reveal(online);
}

proof fn lemma_link_event(
    record: RecordModel,
    shared: SharedModel,
    now: Timestamp,
    from: Origin,
    stage: StageModel,
    event: EventModel,
)
    requires
        from == origin_of(stage, event),
        has_room(record, false),
        stage is StartingPpp || stage is Online || stage is Delivering,
        awaits(stage, event),
    ensures
        sound(record, shared, now, from, link_event(record, shared, now, stage, event)),
{
    reveal(link_event);
    match (stage, event) {
        (StageModel::StartingPpp, EventModel::Driver(Ok(()))) => {
            lemma_online(
                record,
                shared,
                now,
                from,
                crate::time::deadline_after(now, record.config.ppp_timeout),
                false,
            );
        },
        (StageModel::Online { deadline, was_connected }, EventModel::Data(Ok(data))) => {
            lemma_online(record, shared, now, from, deadline, was_connected);
        },
        (StageModel::Delivering { deadline, was_connected }, EventModel::Driver(Ok(()))) => {
            lemma_online(record, shared, now, from, deadline, was_connected);
        },
        (_, EventModel::Data(Err(error))) => {
            lemma_end_session(record, shared, now, from, error);
        },
        (_, EventModel::Driver(Err(error))) => {
            lemma_end_session(record, shared, now, from, ErrorModel::Esp(error));
        },
        _ => {},
    }
}

proof fn lemma_shutdown_done(
    record: RecordModel,
    shared: SharedModel,
    now: Timestamp,
    from: Origin,
    after: AfterModel,
    result: Result<(), ErrorModel>,
)
    requires
        from.step == step_of(StageModel::Shutdown(ShutdownProgress::Query, after)),
        from.stopping == is_stopping(StageModel::Shutdown(ShutdownProgress::Query, after)),
        has_room(record, after is Recover),
    ensures
        sound(record, shared, now, from, shutdown_done(record, shared, now, after, result)),
{
    reveal(shutdown_done);
    if let Err(error) = result {
        lemma_end_session(record, shared, now, from, error);
    }
    if let AfterModel::EndSession(Some(error)) = after {
        lemma_end_session(record, shared, now, from, error);
    }
}

proof fn lemma_drain(
    record: RecordModel,
    shared: SharedModel,
    now: Timestamp,
    from: Origin,
    deadline: Timestamp,
    after: AfterModel,
)
    requires
        from.step == step_of(StageModel::Shutdown(ShutdownProgress::Query, after)),
        from.stopping == is_stopping(StageModel::Shutdown(ShutdownProgress::Query, after)),
        has_room(record, after is Recover),
    ensures
        sound(record, shared, now, from, drain(record, shared, now, deadline, after)),
{
    reveal(drain);
    lemma_shutdown_done(record, shared, now, from, after, Err(ErrorModel::ShutdownTimeout));
    lemma_shutdown_done(record, shared, now, from, after, Ok(()));
}

proof fn lemma_shutdown_event(
    record: RecordModel,
    shared: SharedModel,
    now: Timestamp,
    from: Origin,
    progress: ShutdownProgress,
    after: AfterModel,
    event: EventModel,
)
    requires
        from == origin_of(StageModel::Shutdown(progress, after), event),
        has_room(record, after is Recover),
        shutdown_awaits(progress, event),
    ensures
        sound(record, shared, now, from, shutdown_event(record, shared, now, progress, after, event)),
{
    reveal(shutdown_event);
    match (progress, event) {
        (_, EventModel::Started(Err(error))) => {
            lemma_shutdown_done(record, shared, now, from, after, Err(ErrorModel::Esp(error)));
        },
        (_, EventModel::Driver(Err(error))) => {
            lemma_shutdown_done(record, shared, now, from, after, Err(ErrorModel::Esp(error)));
        },
        (_, EventModel::Data(Err(error))) => {
            lemma_shutdown_done(record, shared, now, from, after, Err(error));
        },
        (ShutdownProgress::Query, _) => {
            lemma_shutdown_done(record, shared, now, from, after, Ok(()));
        },
        (ShutdownProgress::Stop, _) => {
            lemma_drain(
                record,
                shared,
                now,
                from,
                crate::time::deadline_after(now, record.config.shutdown_timeout),
                after,
            );
        },
        (ShutdownProgress::Drain { deadline }, _) => {
            lemma_drain(record, shared, now, from, deadline, after);
        },
        (ShutdownProgress::Deliver { deadline }, _) => {
            lemma_drain(record, shared, now, from, deadline, after);
        },
    }
}

proof fn lemma_recovery_event(
    record: RecordModel,
    shared: SharedModel,
    now: Timestamp,
    stage: StageModel,
    event: EventModel,
)
    requires
        has_room(record, true),
        is_recovering(stage),
        !(stage is Command || stage is Shutdown || stage is BackOff),
        awaits(stage, event),
    ensures
        sound(record, shared, now, at_step(None), recovery_event(record, shared, stage, event)),
{
    reveal(recovery_event);
}

proof fn lemma_proceed(
    runner: RunnerModel,
    shared: SharedModel,
    now: Timestamp,
    event: EventModel,
)
    requires
        within_retries(runner),
        awaits(runner.stage, event),
    ensures
        runner.stage is BackOff || sound(
            runner.record,
            shared,
            now,
            origin_of(runner.stage, event),
            proceed(runner, shared, now, event),
        ),
        runner.stage is BackOff ==> sound(
            (RecordModel { retry: runner.record.retry + 1, ..runner.record }),
            shared,
            now,
            at_step(None),
            proceed(runner, shared, now, event),
        ),
{
    let record = runner.record;
    let from = origin_of(runner.stage, event);
    match runner.stage {
        StageModel::Command(purpose, exchange) => {
            lemma_command_event(record, shared, now, from, purpose, exchange, event);
        },
        StageModel::DialWriting | StageModel::DialReading { .. } => {
            lemma_dial_event(record, shared, now, from, runner.stage, event);
        },
        StageModel::StartingPpp
        | StageModel::Online { .. }
        | StageModel::Delivering { .. } => {
            lemma_link_event(record, shared, now, from, runner.stage, event);
        },
        StageModel::Shutdown(progress, after) => {
            lemma_shutdown_event(record, shared, now, from, progress, after, event);
        },
        StageModel::BackOff => {
            lemma_begin_session(RecordModel { retry: record.retry + 1, ..record }, shared, now);
        },
        StageModel::RegistrationPause { deadline, legacy } => {
            lemma_ask(record, shared, now, from, Purpose::Register { deadline, legacy });
        },
        _ => {
            lemma_recovery_event(record, shared, now, runner.stage, event);
        },
    }
}

proof fn lemma_start(record: RecordModel, shared: SharedModel)
    ensures
        sound(
            (RecordModel { retry: 0, ..record }),
            (SharedModel { stop: false, ..shared }),
            Timestamp { nanos: 0 },
            at_step(None),
            start(record, shared),
        ),
{
    lemma_begin_session(
        RecordModel { retry: 0, ..record },
        SharedModel { stop: false, ..shared },
        Timestamp { nanos: 0 },
    );
}

/// A run begins within its retries, and takes every answer to its first action and no other.
pub proof fn law_a_run_begins_properly(record: RecordModel, shared: SharedModel)
    ensures
        within_retries(start(record, shared).runner),
        takes_the_answers(start(record, shared)),
{
    lemma_start(record, shared);
}

/// A run that ends leaves a status that says so: `Stopped` without an error, or `Failed` with the
/// error that the run returns.
pub proof fn law_the_status_shows_how_a_run_ended(
    runner: RunnerModel,
    shared: SharedModel,
    now: Timestamp,
    event: EventModel,
)
    requires
        within_retries(runner),
        awaits(runner.stage, event),
    ensures
        shows_its_end(start(runner.record, shared)),
        shows_its_end(proceed(runner, shared, now, event)),
{
    lemma_start(runner.record, shared);
    lemma_proceed(runner, shared, now, event);
}

/// A run never gets stuck: every answer to the action it asks for is one that it takes, and it
/// takes no other.
pub proof fn law_every_answer_is_awaited(
    runner: RunnerModel,
    shared: SharedModel,
    now: Timestamp,
    event: EventModel,
)
    requires
        within_retries(runner),
        awaits(runner.stage, event),
    ensures
        takes_the_answers(start(runner.record, shared)),
        takes_the_answers(proceed(runner, shared, now, event)),
{
    lemma_start(runner.record, shared);
    lemma_proceed(runner, shared, now, event);
}

/// A run keeps to its retries: there are never more of them than delays are configured.
pub proof fn law_retries_are_bounded(
    runner: RunnerModel,
    shared: SharedModel,
    now: Timestamp,
    event: EventModel,
)
    requires
        within_retries(runner),
        awaits(runner.stage, event),
    ensures
        within_retries(start(runner.record, shared).runner),
        within_retries(proceed(runner, shared, now, event).runner),
{
    lemma_start(runner.record, shared);
    lemma_proceed(runner, shared, now, event);
}

/// The runner changes neither its configuration, nor the phase that the PPP stack announced, nor,
/// once it has begun, whether a stop was asked for; and only a connected modem shows addresses.
pub proof fn law_the_runner_keeps_to_its_own(
    runner: RunnerModel,
    shared: SharedModel,
    now: Timestamp,
    event: EventModel,
)
    requires
        within_retries(runner),
        awaits(runner.stage, event),
    ensures
        keeps_to_its_own(runner.record, shared, proceed(runner, shared, now, event)),
{
    lemma_proceed(runner, shared, now, event);
}

/// The steps of a session come in order: a session begins with its first step, goes on from each
/// to the next, and never goes back to an earlier one. Unlocking the SIM is left out where it wants
/// no PIN, and reading data where the link ends at once.
pub proof fn law_the_steps_of_a_session_come_in_order(
    runner: RunnerModel,
    shared: SharedModel,
    now: Timestamp,
    event: EventModel,
)
    requires
        within_retries(runner),
        awaits(runner.stage, event),
    ensures
        follows(None, step_of(start(runner.record, shared).runner.stage)),
        follows(
            step_of(runner.stage),
            step_of(proceed(runner, shared, now, event).runner.stage),
        ),
{
    lemma_start(runner.record, shared);
    lemma_proceed(runner, shared, now, event);
}

/// A retry is counted when the wait before it is over, and retries are forgotten only after a
/// connection that lasted.
pub proof fn law_retries_are_counted(
    runner: RunnerModel,
    shared: SharedModel,
    now: Timestamp,
    event: EventModel,
)
    requires
        within_retries(runner),
        awaits(runner.stage, event),
    ensures
        runner.stage is BackOff ==> proceed(runner, shared, now, event).runner.record.retry
            == runner.record.retry + 1,
        !(runner.stage is BackOff) ==> counts_retries(
            runner.record,
            now,
            proceed(runner, shared, now, event),
        ),
{
    lemma_proceed(runner, shared, now, event);
}

/// The wait before a retry is the one configured for it.
pub proof fn law_each_retry_has_its_delay(
    runner: RunnerModel,
    shared: SharedModel,
    now: Timestamp,
    event: EventModel,
)
    requires
        within_retries(runner),
        awaits(runner.stage, event),
    ensures
        waits_its_delay(proceed(runner, shared, now, event)),
{
    lemma_proceed(runner, shared, now, event);
}

/// What the surroundings of a run contribute to a turn.
pub struct Input {
    pub shared: SharedModel,
    pub now: Timestamp,
    pub event: EventModel,
}

/// The turn that an input makes of a run.
pub open spec fn turn_on(runner: RunnerModel, input: Input) -> Turn {
    proceed(runner, input.shared, input.now, input.event)
}

/// A run after a row of inputs.
pub open spec fn run_after(runner: RunnerModel, inputs: Seq<Input>) -> RunnerModel
    decreases inputs.len(),
{
    if inputs.len() == 0 {
        runner
    } else {
        turn_on(run_after(runner, inputs.drop_last()), inputs.last()).runner
    }
}

/// Whether each of a row of inputs is one that the run waits for.
pub open spec fn all_awaited(runner: RunnerModel, inputs: Seq<Input>) -> bool
    decreases inputs.len(),
{
    inputs.len() > 0 ==> {
        &&& all_awaited(runner, inputs.drop_last())
        &&& awaits(run_after(runner, inputs.drop_last()).stage, inputs.last().event)
    }
}

/// Whether no session in the course of a row of inputs had a connection that lasted.
pub open spec fn no_lasting_connection(runner: RunnerModel, inputs: Seq<Input>) -> bool
    decreases inputs.len(),
{
    inputs.len() > 0 ==> {
        let before = run_after(runner, inputs.drop_last());
        &&& no_lasting_connection(runner, inputs.drop_last())
        &&& retries_settled(before.record, inputs.last().now) == before.record
    }
}

/// How many sessions begin anew in the course of a row of inputs.
pub open spec fn sessions_begun(runner: RunnerModel, inputs: Seq<Input>) -> nat
    decreases inputs.len(),
{
    if inputs.len() == 0 {
        0
    } else {
        let before = run_after(runner, inputs.drop_last());
        let begun: nat = if before.stage is BackOff {
            1
        } else {
            0
        };
        sessions_begun(runner, inputs.drop_last()) + begun
    }
}

proof fn lemma_sessions(runner: RunnerModel, inputs: Seq<Input>)
    requires
        within_retries(runner),
        all_awaited(runner, inputs),
        no_lasting_connection(runner, inputs),
    ensures
        within_retries(run_after(runner, inputs)),
        run_after(runner, inputs).record.config == runner.record.config,
        run_after(runner, inputs).record.retry == runner.record.retry + sessions_begun(
            runner,
            inputs,
        ),
    decreases inputs.len(),
{
    if inputs.len() > 0 {
        lemma_sessions(runner, inputs.drop_last());
        let before = run_after(runner, inputs.drop_last());
        let input = inputs.last();
        lemma_proceed(before, input.shared, input.now, input.event);
        law_retries_are_counted(before, input.shared, input.now, input.event);
    }
}

/// A run gives up in the end: as long as no connection lasts, it begins no more sessions anew than
/// delays are configured, however long it goes on.
pub proof fn law_sessions_are_bounded(
    record: RecordModel,
    shared: SharedModel,
    inputs: Seq<Input>,
)
    requires
        all_awaited(start(record, shared).runner, inputs),
        no_lasting_connection(start(record, shared).runner, inputs),
    ensures
        sessions_begun(start(record, shared).runner, inputs) <= record.config.retry_delays.len(),
{
    lemma_start(record, shared);
    lemma_sessions(start(record, shared).runner, inputs);
}

/// A final error, or one for which no retry is left, ends the run; any other leads to another
/// session. Whichever it is, the status shows the error.
pub proof fn law_only_passing_errors_are_retried(
    record: RecordModel,
    shared: SharedModel,
    now: Timestamp,
    error: ErrorModel,
)
    requires
        !shared.stop,
    ensures
        ({
            let turn = end_session(record, shared, now, error);
            let settled = retries_settled(record, now);
            &&& turn.shared.status.last_error == Some(error)
            &&& if worth_retrying(error) && settled.retry
                != settled.config.retry_delays.len() {
                turn.runner.stage is RecoveryQuery && turn.shared.status.state
                    == ModemState::Recovering
            } else {
                turn.action == ActionModel::Finish(Err(error))
            }
        }),
{
    reveal(end_session);
}

/// Once a stop was asked for, the next decision ends the run, whatever it would have been: no
/// session begins, no step follows a failed one, a ready SIM is not registered, a registered modem
/// is not dialed, an answered call is not used, and a link is shut down.
pub proof fn law_a_stop_is_heeded(
    record: RecordModel,
    shared: SharedModel,
    now: Timestamp,
    deadline: Timestamp,
    flag: bool,
    error: ErrorModel,
    result: Result<Seq<Seq<char>>, ErrorModel>,
    line: Seq<char>,
)
    requires
        shared.stop,
    ensures
        begin_session(record, shared) == wind_up(record, shared),
        end_session(record, shared, now, error) == wind_up(record, shared),
        sim_ready(record, shared, now) == wind_up(record, shared),
        check_registration(record, shared, now, deadline, flag, result) == wind_up(record, shared),
        dial_meaning(line) != Reply::Noise ==> dial_line(record, shared, now, deadline, line)
            == wind_up(record, shared),
        online(record, shared, now, deadline, flag) == shut_down(
            record,
            shared,
            AfterModel::EndSession(None),
        ),
        shutdown_done(record, shared, now, AfterModel::EndSession(None), Ok(())) == wind_up(
            record,
            shared,
        ),
        shutdown_done(record, shared, now, AfterModel::EndSession(None), Err(error)) == wind_up(
            record,
            shared,
        ),
{
    reveal(end_session);
    reveal(sim_ready);
    reveal(check_registration);
    reveal(keep_registering);
    reveal(dial_line);
    reveal(online);
    reveal(shutdown_done);
}

proof fn lemma_stopping_was_asked_for(runner: RunnerModel, inputs: Seq<Input>)
    requires
        within_retries(runner),
        !is_stopping(runner.stage),
        all_awaited(runner, inputs),
    ensures
        within_retries(run_after(runner, inputs)),
        is_stopping(run_after(runner, inputs).stage) ==> exists|i: int|
            0 <= i < inputs.len() && (#[trigger] inputs[i]).shared.stop,
    decreases inputs.len(),
{
    if inputs.len() > 0 {
        let earlier = inputs.drop_last();
        lemma_stopping_was_asked_for(runner, earlier);
        let before = run_after(runner, earlier);
        let input = inputs.last();
        lemma_proceed(before, input.shared, input.now, input.event);
        if is_stopping(before.stage) {
            let i = choose|i: int| 0 <= i < earlier.len() && (#[trigger] earlier[i]).shared.stop;
            assert(inputs[i].shared.stop);
        } else if input.shared.stop {
            assert(inputs[inputs.len() - 1].shared.stop);
        }
    }
}

/// A run ends well only if it was asked to: where it does, a stop had been asked for at some turn
/// before its last.
pub proof fn law_a_run_ends_well_only_on_request(
    record: RecordModel,
    shared: SharedModel,
    inputs: Seq<Input>,
    last: Input,
)
    requires
        all_awaited(start(record, shared).runner, inputs),
        awaits(run_after(start(record, shared).runner, inputs).stage, last.event),
        turn_on(run_after(start(record, shared).runner, inputs), last).action
            == ActionModel::Finish(Ok(())),
    ensures
        exists|i: int| 0 <= i < inputs.len() && (#[trigger] inputs[i]).shared.stop,
{
    let first = start(record, shared).runner;
    lemma_start(record, shared);
    lemma_stopping_was_asked_for(first, inputs);
    lemma_proceed(run_after(first, inputs), last.shared, last.now, last.event);
}

/// Whether a run at `stage` is winding up or over.
pub open spec fn is_winding_up(stage: StageModel) -> bool {
    stage is Finished || stage matches StageModel::Shutdown(_, AfterModel::Finish)
}

/// A run that winds up does nothing but shut down the PPP stack and end.
pub proof fn law_winding_up_only_ends(
    runner: RunnerModel,
    shared: SharedModel,
    now: Timestamp,
    event: EventModel,
)
    requires
        is_winding_up(runner.stage),
        awaits(runner.stage, event),
    ensures
        is_winding_up(proceed(runner, shared, now, event).runner.stage),
        !(proceed(runner, shared, now, event).action is Write),
{
    reveal(shutdown_event);
    reveal(drain);
    reveal(shutdown_done);
}

/// Whether a run at `stage` is sending the PIN.
pub open spec fn is_unlocking(stage: StageModel) -> bool {
    stage matches StageModel::Command(Purpose::UnlockSim, _)
}

proof fn lemma_end_session_sends_no_pin(
    record: RecordModel,
    shared: SharedModel,
    now: Timestamp,
    error: ErrorModel,
)
    ensures
        !is_unlocking(end_session(record, shared, now, error).runner.stage),
{
    reveal(end_session);
}

proof fn lemma_registration_sends_no_pin(
    record: RecordModel,
    shared: SharedModel,
    now: Timestamp,
    deadline: Timestamp,
    legacy: bool,
    result: Result<Seq<Seq<char>>, ErrorModel>,
)
    ensures
        !is_unlocking(
            check_registration(record, shared, now, deadline, legacy, result).runner.stage,
        ),
{
    reveal(check_registration);
    reveal(keep_registering);
    lemma_end_session_sends_no_pin(record, shared, now, ErrorModel::RegistrationDenied);
    lemma_end_session_sends_no_pin(
        record,
        shared,
        now,
        ErrorModel::Timeout("waiting for cellular registration"@),
    );
    if let Err(error) = result {
        lemma_end_session_sends_no_pin(record, shared, now, error);
    }
}

/// Of all commands, only the question about the SIM can lead to the PIN being sent: if the SIM asks
/// for it, and there is one.
pub proof fn law_the_pin_is_sent_only_on_request(
    record: RecordModel,
    shared: SharedModel,
    now: Timestamp,
    purpose: Purpose,
    result: Result<Seq<Seq<char>>, ErrorModel>,
)
    requires
        is_unlocking(command_done(record, shared, now, purpose, result).runner.stage),
    ensures
        purpose == Purpose::QuerySim,
        record.config.pin is Some,
        result matches Ok(lines) && value_of(lines, "+CPIN:"@) == Some("SIM PIN"@),
{
    reveal(command_done);
    reveal(check_sim);
    reveal(sim_ready);
    reveal_strlit("SIM PIN");
    lemma_end_session_sends_no_pin(record, shared, now, ErrorModel::SimPinRejected);
    lemma_end_session_sends_no_pin(record, shared, now, ErrorModel::SimPinRequired);
    lemma_end_session_sends_no_pin(
        record,
        shared,
        now,
        ErrorModel::Timeout("synchronizing with the modem"@),
    );
    if let Err(error) = result {
        lemma_end_session_sends_no_pin(record, shared, now, error);
    }
    match (purpose, result) {
        (Purpose::Register { deadline, legacy }, _) => {
            lemma_registration_sends_no_pin(record, shared, now, deadline, legacy, result);
        },
        (Purpose::QuerySim, Ok(lines)) => {
            assert("SIM PIN"@.len() == 7);
            assert(value_of(lines, "+CPIN:"@) == Some("SIM PIN"@));
        },
        _ => {
            assert(!is_unlocking(command_done(record, shared, now, purpose, result).runner.stage));
        },
    }
}

/// What the modem receives while it is online, and while the link is shut down, reaches the PPP
/// stack as it came and at once, and nothing else ever does.
pub proof fn law_data_reaches_the_stack_unchanged(
    runner: RunnerModel,
    shared: SharedModel,
    now: Timestamp,
    event: EventModel,
)
    requires
        within_retries(runner),
        awaits(runner.stage, event),
    ensures
        data_in(event).len() > 0 ==> proceed(runner, shared, now, event).action
            == ActionModel::Deliver(data_in(event)),
        proceed(runner, shared, now, event).action is Deliver ==> data_in(event).len() > 0,
{
    lemma_proceed(runner, shared, now, event);
    if data_in(event).len() > 0 {
        reveal(link_event);
        reveal(shutdown_event);
    }
}

/// The slices that the PPP stack is handed in the course of a row of inputs, in order.
pub open spec fn deliveries(runner: RunnerModel, inputs: Seq<Input>) -> Seq<Seq<u8>>
    decreases inputs.len(),
{
    if inputs.len() == 0 {
        Seq::empty()
    } else {
        let earlier = deliveries(runner, inputs.drop_last());
        match turn_on(run_after(runner, inputs.drop_last()), inputs.last()).action {
            ActionModel::Deliver(data) => earlier.push(data),
            _ => earlier,
        }
    }
}

/// The data in the answers that bring any, in order.
pub open spec fn data_answers(inputs: Seq<Input>) -> Seq<Seq<u8>>
    decreases inputs.len(),
{
    if inputs.len() == 0 {
        Seq::empty()
    } else {
        let earlier = data_answers(inputs.drop_last());
        let data = data_in(inputs.last().event);
        if data.len() > 0 {
            earlier.push(data)
        } else {
            earlier
        }
    }
}

proof fn lemma_deliveries(runner: RunnerModel, inputs: Seq<Input>)
    requires
        within_retries(runner),
        all_awaited(runner, inputs),
    ensures
        within_retries(run_after(runner, inputs)),
        deliveries(runner, inputs) == data_answers(inputs),
    decreases inputs.len(),
{
    if inputs.len() > 0 {
        lemma_deliveries(runner, inputs.drop_last());
        let before = run_after(runner, inputs.drop_last());
        let input = inputs.last();
        law_retries_are_bounded(before, input.shared, input.now, input.event);
        law_data_reaches_the_stack_unchanged(before, input.shared, input.now, input.event);
    }
}

/// However a run goes, the PPP stack is handed the data that was read, slice by slice and in order,
/// and nothing else; an answer without data is not handed on.
pub proof fn law_the_stack_is_given_the_data_in_order(
    record: RecordModel,
    shared: SharedModel,
    inputs: Seq<Input>,
)
    requires
        all_awaited(start(record, shared).runner, inputs),
    ensures
        deliveries(start(record, shared).runner, inputs) == data_answers(inputs),
{
    lemma_start(record, shared);
    lemma_deliveries(start(record, shared).runner, inputs);
}

/// One change of what a runner, its handles and the network stack share.
pub enum Change {
    /// The runner takes an answer.
    Turn { runner: RunnerModel, now: Timestamp, event: EventModel },
    /// A stop is asked for through a handle.
    Stop,
    /// The interface to the network has news.
    Ip { ours: bool, news: IpEvent },
    /// The PPP stack has news.
    Ppp(PppEvent),
}

/// Whether a change can happen: a runner takes only an answer that it waits for.
pub open spec fn can_happen(change: Change) -> bool {
    change matches Change::Turn { runner, now, event } ==> within_retries(runner) && awaits(
        runner.stage,
        event,
    )
}

/// What is shared after a change.
pub open spec fn shared_behind(shared: SharedModel, change: Change) -> SharedModel {
    match change {
        Change::Turn { runner, now, event } => proceed(runner, shared, now, event).shared,
        Change::Stop => SharedModel { stop: true, ..shared },
        Change::Ip { ours, news } => after_ip_event(shared, ours, news),
        Change::Ppp(news) => after_ppp_event(shared, news),
    }
}

/// What is shared after a row of changes.
pub open spec fn shared_after(shared: SharedModel, changes: Seq<Change>) -> SharedModel
    decreases changes.len(),
{
    if changes.len() == 0 {
        shared
    } else {
        shared_behind(shared_after(shared, changes.drop_last()), changes.last())
    }
}

/// Whether a stop is among a row of changes.
pub open spec fn asks_for_stop(changes: Seq<Change>) -> bool {
    exists|i: int| 0 <= i < changes.len() && (#[trigger] changes[i]) is Stop
}

proof fn lemma_stop_is_kept(shared: SharedModel, changes: Seq<Change>)
    requires
        forall|i: int| 0 <= i < changes.len() ==> can_happen(#[trigger] changes[i]),
    ensures
        shared_after(shared, changes).stop <==> shared.stop || asks_for_stop(changes),
    decreases changes.len(),
{
    if changes.len() > 0 {
        let earlier = changes.drop_last();
        let last = changes.last();
        assert forall|i: int| 0 <= i < earlier.len() implies can_happen(#[trigger] earlier[i]) by {
            assert(earlier[i] == changes[i]);
        }
        lemma_stop_is_kept(shared, earlier);
        assert(last == changes[changes.len() - 1]);
        assert(can_happen(last));
        if let Change::Turn { runner, now, event } = last {
            lemma_proceed(runner, shared_after(shared, earlier), now, event);
        }
        if asks_for_stop(earlier) {
            let i = choose|i: int| 0 <= i < earlier.len() && (#[trigger] earlier[i]) is Stop;
            assert(changes[i] is Stop);
        }
        if asks_for_stop(changes) {
            let i = choose|i: int| 0 <= i < changes.len() && (#[trigger] changes[i]) is Stop;
            if i < earlier.len() {
                assert(earlier[i] is Stop);
            }
        }
    }
}

/// The runner and the handles see one state: from the start of a run on, whatever the runner and the
/// network stack do in between, the next turn finds a stop asked for exactly if one was asked for
/// through a handle; and before a modem is run there is none.
pub proof fn law_a_stop_asked_for_is_seen(
    record: RecordModel,
    shared: SharedModel,
    changes: Seq<Change>,
)
    requires
        forall|i: int| 0 <= i < changes.len() ==> can_happen(#[trigger] changes[i]),
    ensures
        shared_after(start(record, shared).shared, changes).stop <==> asks_for_stop(changes),
        shared_after(initial_shared(), changes).stop <==> asks_for_stop(changes),
{
    lemma_start(record, shared);
    lemma_stop_is_kept(start(record, shared).shared, changes);
    lemma_stop_is_kept(initial_shared(), changes);
}

proof fn lemma_addresses_fit(shared: SharedModel, changes: Seq<Change>)
    requires
        addresses_fit(shared),
        forall|i: int| 0 <= i < changes.len() ==> can_happen(#[trigger] changes[i]),
    ensures
        addresses_fit(shared_after(shared, changes)),
    decreases changes.len(),
{
    if changes.len() > 0 {
        let earlier = changes.drop_last();
        let last = changes.last();
        assert forall|i: int| 0 <= i < earlier.len() implies can_happen(#[trigger] earlier[i]) by {
            assert(earlier[i] == changes[i]);
        }
        lemma_addresses_fit(shared, earlier);
        assert(last == changes[changes.len() - 1]);
        assert(can_happen(last));
        if let Change::Turn { runner, now, event } = last {
            lemma_proceed(runner, shared_after(shared, earlier), now, event);
        }
    }
}

/// However the runner, the handles and the network stack change what they share, only a connected
/// modem ever shows addresses: before it is first run, and from the start of every run on.
pub proof fn law_addresses_fit_throughout(
    record: RecordModel,
    shared: SharedModel,
    changes: Seq<Change>,
)
    requires
        forall|i: int| 0 <= i < changes.len() ==> can_happen(#[trigger] changes[i]),
    ensures
        addresses_fit(shared) ==> addresses_fit(shared_after(shared, changes)),
        addresses_fit(shared) ==> addresses_fit(
            shared_after(start(record, shared).shared, changes),
        ),
        addresses_fit(shared_after(initial_shared(), changes)),
{
    lemma_start(record, shared);
    lemma_addresses_fit(initial_shared(), changes);
    if addresses_fit(shared) {
        lemma_addresses_fit(shared, changes);
        lemma_addresses_fit(start(record, shared).shared, changes);
    }
}

/// Whether a modem that is sent `bytes` sees no line end but one carriage return at their very end,
/// and no NUL.
pub open spec fn is_one_line(bytes: Seq<u8>) -> bool {
    forall|i: int|
        0 <= i < bytes.len() ==> {
            &&& #[trigger] bytes[i] != '\n' as u8
            &&& bytes[i] != 0
            &&& bytes[i] == '\r' as u8 ==> i == bytes.len() - 1
        }
}

/// Whether a text holds no line end and no NUL.
spec fn holds_no_line_end(text: Seq<char>) -> bool {
    !text.contains('\r') && !text.contains('\n') && !text.contains('\0')
}

proof fn lemma_concatenation_holds_no_line_end(head: Seq<char>, tail: Seq<char>)
    requires
        holds_no_line_end(head),
        holds_no_line_end(tail),
    ensures
        holds_no_line_end(head + tail),
{
    assert forall|i: int| 0 <= i < (head + tail).len() implies (head + tail)[i] != '\r' && (head
        + tail)[i] != '\n' && (head + tail)[i] != '\0' by {
        if i < head.len() {
            assert((head + tail)[i] == head[i]);
        } else {
            assert((head + tail)[i] == tail[i - head.len()]);
        }
    }
}

proof fn lemma_argument_holds_no_line_end(argument: Seq<char>)
    requires
        argument_allowed(argument),
    ensures
        holds_no_line_end(argument),
{
    assert forall|i: int| 0 <= i < argument.len() implies argument[i] != '\r' && argument[i] != '\n'
        && argument[i] != '\0' by {
        assert(!forbidden_in_argument(argument[i]));
    }
}

proof fn lemma_command_holds_no_line_end(purpose: Purpose, config: ConfigModel)
    requires
        config_fault(config) is None,
        purpose == Purpose::UnlockSim ==> config.pin is Some,
    ensures
        holds_no_line_end(command_text(purpose, config)),
{
    reveal_strlit("AT");
    reveal_strlit("ATE0");
    reveal_strlit("AT+CMEE=2");
    reveal_strlit("AT+IFC=0,0");
    reveal_strlit("AT+CPIN?");
    reveal_strlit("AT+CPIN=\"");
    reveal_strlit("\"");
    reveal_strlit("AT+CGREG?");
    reveal_strlit("AT+CEREG?");
    reveal_strlit("AT+CGDCONT=1,\"IP\",\"");
    reveal_strlit("ATH");
    match purpose {
        Purpose::UnlockSim => {
            lemma_argument_holds_no_line_end(config.pin->0);
            lemma_concatenation_holds_no_line_end("AT+CPIN=\""@, config.pin->0);
            lemma_concatenation_holds_no_line_end("AT+CPIN=\""@ + config.pin->0, "\""@);
        },
        Purpose::DefineContext => {
            let head = "AT+CGDCONT=1,\"IP\",\""@;
            lemma_argument_holds_no_line_end(config.apn);
            lemma_concatenation_holds_no_line_end(head, config.apn);
            lemma_concatenation_holds_no_line_end(head + config.apn, "\""@);
        },
        _ => {},
    }
}

proof fn lemma_sent_is_one_line(config: ConfigModel, bytes: Seq<u8>)
    requires
        config_fault(config) is None,
        is_sent(config, bytes),
    ensures
        is_one_line(bytes),
{
    if bytes == encode_utf8("\r"@) {
        reveal_strlit("\r");
        is_ascii_chars_encode_utf8("\r"@);
    } else if bytes == dial_bytes() {
        reveal_strlit("ATD*99***1#\r");
        is_ascii_chars_encode_utf8("ATD*99***1#\r"@);
    } else if bytes == escape_bytes() {
        reveal_strlit("+++");
        is_ascii_chars_encode_utf8("+++"@);
    } else {
        let purpose = choose|purpose: Purpose|
            {
                &&& bytes == encode_utf8(#[trigger] command_text(purpose, config))
                &&& purpose == Purpose::UnlockSim ==> config.pin is Some
            };
        let text = command_text(purpose, config);
        lemma_command_holds_no_line_end(purpose, config);
        assert forall|i: int| 0 <= i < bytes.len() implies #[trigger] bytes[i] != '\n' as u8
            && bytes[i] != 0 && bytes[i] != '\r' as u8 by {
            if bytes[i] < 0x80 {
                lemma_ascii_byte_of_text(text, i);
            }
        }
    }
}

/// No configuration that was accepted can slip a command of its own to the modem: whatever a run
/// writes is one line at most.
pub proof fn law_the_modem_is_sent_one_line_at_a_time(
    runner: RunnerModel,
    shared: SharedModel,
    now: Timestamp,
    event: EventModel,
)
    requires
        within_retries(runner),
        awaits(runner.stage, event),
        config_fault(runner.record.config) is None,
    ensures
        start(runner.record, shared).action matches ActionModel::Write(bytes) ==> is_one_line(
            bytes,
        ),
        proceed(runner, shared, now, event).action matches ActionModel::Write(bytes)
            ==> is_one_line(bytes),
{
    lemma_start(runner.record, shared);
    lemma_proceed(runner, shared, now, event);
    if let ActionModel::Write(bytes) = start(runner.record, shared).action {
        lemma_sent_is_one_line(runner.record.config, bytes);
    }
    if let ActionModel::Write(bytes) = proceed(runner, shared, now, event).action {
        lemma_sent_is_one_line(runner.record.config, bytes);
    }
}

} // verus!
