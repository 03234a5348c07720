//! One AT command: sending it and gathering the reply.
use crate::action::{Action, ActionModel, Event, EventModel};
use crate::at::{failure_reply, is_at_error};
use crate::error::{ErrorModel, ModemError};
use crate::text::{begins_with, line_text, same_text, text_of_line};
use crate::time::{deadline_after, Duration, Timestamp};
use vstd::prelude::*;
use vstd::string::StrSliceExecFns;
use vstd::utf8::encode_utf8;

verus! {

/// What a line that comes back after a command was sent means.
#[derive(Clone, Copy, Debug, PartialEq, Eq, Structural)]
pub enum Reply {
    /// Nothing: the line is empty or the echo of the command.
    Noise,
    /// The command succeeded.
    Success,
    /// The command failed.
    Failure,
    /// A line of the answer.
    Answer,
}

/// What `line` means as a reply to `command`.
pub open spec fn meaning(line: Seq<char>, command: Seq<char>) -> Reply {
    if line.len() == 0 || line == command {
        Reply::Noise
    } else if line == "OK"@ {
        Reply::Success
    } else if failure_reply(line) {
        Reply::Failure
    } else {
        Reply::Answer
    }
}

/// What `line` means as a reply to `command`.
pub fn classify(line: &str, command: &str) -> (reply: Reply)
    ensures
        reply == meaning(line@, command@),
{
    if line.is_empty() || same_text(line, command) {
        Reply::Noise
    } else if same_text(line, "OK") {
        Reply::Success
    } else if is_at_error(line) {
        Reply::Failure
    } else {
        Reply::Answer
    }
}

/// What `line` means as a reply to the dial command.
pub open spec fn dial_meaning(line: Seq<char>) -> Reply {
    if line == "CONNECT"@ || "CONNECT "@.is_prefix_of(line) {
        Reply::Success
    } else if failure_reply(line) {
        Reply::Failure
    } else {
        Reply::Noise
    }
}

/// What `line` means as a reply to the dial command.
pub fn classify_dial(line: &str) -> (reply: Reply)
    ensures
        reply == dial_meaning(line@),
{
    if same_text(line, "CONNECT") || begins_with(line, "CONNECT ") {
        Reply::Success
    } else if is_at_error(line) {
        Reply::Failure
    } else {
        Reply::Noise
    }
}

/// How far the exchange of a command is.
#[derive(Clone, Copy, Debug, PartialEq, Eq, Structural)]
pub enum Progress {
    /// The command is being written.
    Text,
    /// The carriage return behind it is being written.
    Terminator,
    /// The reply is being read.
    Reply { deadline: Timestamp },
}

/// A command that was sent and is not answered in full yet.
#[derive(Debug)]
pub struct CommandExchange {
    command: String,
    timeout: Duration,
    progress: Progress,
    lines: Vec<String>,
}

/// A [`CommandExchange`] as the contracts speak of it.
#[verifier::ext_equal]
pub struct ExchangeModel {
    pub command: Seq<char>,
    pub timeout: Duration,
    pub progress: Progress,
    pub lines: Seq<Seq<char>>,
}

impl View for CommandExchange {
    type V = ExchangeModel;

    closed spec fn view(&self) -> ExchangeModel {
        ExchangeModel {
            command: self.command@,
            timeout: self.timeout,
            progress: self.progress,
            lines: self.lines.deep_view(),
        }
    }
}

/// What comes of one event in an exchange: it goes on with an action, or the command is done.
#[derive(Debug)]
pub enum ExchangeTurn {
    Continue(CommandExchange, Action),
    Done(Result<Vec<String>, ModemError>),
}

/// An [`ExchangeTurn`] as the contracts speak of it.
pub enum ExchangeTurnModel {
    Continue(ExchangeModel, ActionModel),
    Done(Result<Seq<Seq<char>>, ErrorModel>),
}

impl View for ExchangeTurn {
    type V = ExchangeTurnModel;

    open spec fn view(&self) -> ExchangeTurnModel {
        match self {
            ExchangeTurn::Continue(exchange, action) => ExchangeTurnModel::Continue(
                exchange@,
                action@,
            ),
            ExchangeTurn::Done(Ok(lines)) => ExchangeTurnModel::Done(Ok(lines.deep_view())),
            ExchangeTurn::Done(Err(error)) => ExchangeTurnModel::Done(Err(error@)),
        }
    }
}

/// A command that is about to be sent, to be answered within `timeout`.
pub open spec fn new_exchange(command: Seq<char>, timeout: Duration) -> ExchangeModel {
    ExchangeModel { command, timeout, progress: Progress::Text, lines: Seq::empty() }
}

/// The action that waits for the next line of a reply.
pub open spec fn await_reply(deadline: Timestamp) -> ActionModel {
    ActionModel::ReadLine { deadline, operation: "waiting for an AT response"@ }
}

/// What comes of a line of text while the reply is read. Noise is skipped, answers are gathered in
/// order, and the line that tells success or failure ends the exchange.
pub open spec fn after_reply_line(
    exchange: ExchangeModel,
    deadline: Timestamp,
    line: Seq<char>,
) -> ExchangeTurnModel {
    match meaning(line, exchange.command) {
        Reply::Noise => ExchangeTurnModel::Continue(exchange, await_reply(deadline)),
        Reply::Success => ExchangeTurnModel::Done(Ok(exchange.lines)),
        Reply::Failure => ExchangeTurnModel::Done(Err(ErrorModel::At(line))),
        Reply::Answer => ExchangeTurnModel::Continue(
            ExchangeModel { lines: exchange.lines.push(line), ..exchange },
            await_reply(deadline),
        ),
    }
}

/// Whether `event` is the answer that an exchange waits for.
pub open spec fn exchange_awaits(exchange: ExchangeModel, event: EventModel) -> bool {
    match exchange.progress {
        Progress::Text | Progress::Terminator => event is Written,
        Progress::Reply { .. } => event is Line,
    }
}

/// What comes of an event in an exchange. The command goes out, then a carriage return; from then
/// on the reply may take as long as the exchange allows. What fails on the way ends the exchange.
pub open spec fn after_exchange_event(
    exchange: ExchangeModel,
    now: Timestamp,
    event: EventModel,
) -> ExchangeTurnModel {
    match (exchange.progress, event) {
        (Progress::Text, EventModel::Written(true)) => ExchangeTurnModel::Continue(
            ExchangeModel { progress: Progress::Terminator, ..exchange },
            ActionModel::Write(encode_utf8("\r"@)),
        ),
        (Progress::Terminator, EventModel::Written(true)) => {
            let deadline = deadline_after(now, exchange.timeout);
            ExchangeTurnModel::Continue(
                ExchangeModel { progress: Progress::Reply { deadline }, ..exchange },
                await_reply(deadline),
            )
        },
        (Progress::Reply { deadline }, EventModel::Line(Ok(line))) => after_reply_line(
            exchange,
            deadline,
            line_text(line),
        ),
        (Progress::Reply { .. }, EventModel::Line(Err(error))) => ExchangeTurnModel::Done(
            Err(error),
        ),
        _ => ExchangeTurnModel::Done(Err(ErrorModel::Io)),
    }
}

impl CommandExchange {
    /// Begins to send `command`, which is to be answered within `timeout`.
    pub fn start(command: String, timeout: Duration) -> (begun: (CommandExchange, Action))
        ensures
            begun.0@ == new_exchange(command@, timeout),
            begun.1@ == ActionModel::Write(encode_utf8(command@)),
    {
        let bytes = command.as_str().as_bytes_vec();
        let exchange = CommandExchange {
            command,
            timeout,
            progress: Progress::Text,
            lines: Vec::new(),
        };
        assert(exchange@.lines =~= Seq::<Seq<char>>::empty());
        (exchange, Action::Write(bytes))
    }

    /// Takes a line of text while the reply is read, until `deadline`.
    pub fn on_reply_line(self, deadline: Timestamp, line: String) -> (turn: ExchangeTurn)
        ensures
            turn@ == after_reply_line(self@, deadline, line@),
    {
        let mut exchange = self;
        let operation = "waiting for an AT response";
        match classify(line.as_str(), exchange.command.as_str()) {
            Reply::Noise => ExchangeTurn::Continue(
                exchange,
                Action::ReadLine { deadline, operation },
            ),
            Reply::Success => ExchangeTurn::Done(Ok(exchange.lines)),
            Reply::Failure => ExchangeTurn::Done(Err(ModemError::At(line))),
            Reply::Answer => {
                exchange.lines.push(line);
                assert(exchange@ =~= (ExchangeModel { lines: self@.lines.push(line@), ..self@ }));
                ExchangeTurn::Continue(exchange, Action::ReadLine { deadline, operation })
            },
        }
    }

    /// Takes the answer to the last action of this exchange.
    pub fn on_event(self, now: Timestamp, event: Event) -> (turn: ExchangeTurn)
        requires
            exchange_awaits(self@, event@),
        ensures
            turn@ == after_exchange_event(self@, now, event@),
    {
        let mut exchange = self;
        match (exchange.progress, event) {
            (Progress::Text, Event::Written(true)) => {
                exchange.progress = Progress::Terminator;
                ExchangeTurn::Continue(exchange, Action::Write("\r".as_bytes_vec()))
            },
            (Progress::Terminator, Event::Written(true)) => {
                let deadline = now.after(exchange.timeout);
                exchange.progress = Progress::Reply { deadline };
                ExchangeTurn::Continue(
                    exchange,
                    Action::ReadLine { deadline, operation: "waiting for an AT response" },
                )
            },
            (Progress::Reply { deadline }, Event::Line(Ok(line))) => {
                let text = text_of_line(line.as_slice());
                exchange.on_reply_line(deadline, text)
            },
            (Progress::Reply { .. }, Event::Line(Err(error))) => ExchangeTurn::Done(Err(error)),
            _ => ExchangeTurn::Done(Err(ModemError::Io)),
        }
    }
}

/// What comes of a row of lines while the reply is read, as far as they are needed.
pub open spec fn after_reply_lines(
    exchange: ExchangeModel,
    deadline: Timestamp,
    lines: Seq<Seq<char>>,
) -> ExchangeTurnModel
    decreases lines.len(),
{
    if lines.len() == 0 {
        ExchangeTurnModel::Continue(exchange, await_reply(deadline))
    } else {
        match after_reply_line(exchange, deadline, lines.first()) {
            ExchangeTurnModel::Continue(next, _) => after_reply_lines(
                next,
                deadline,
                lines.drop_first(),
            ),
            done => done,
        }
    }
}

/// The lines of an answer among some lines that came back.
pub open spec fn answer_lines(lines: Seq<Seq<char>>, command: Seq<char>) -> Seq<Seq<char>>
    decreases lines.len(),
{
    if lines.len() == 0 {
        Seq::empty()
    } else if meaning(lines.first(), command) == Reply::Answer {
        seq![lines.first()] + answer_lines(lines.drop_first(), command)
    } else {
        answer_lines(lines.drop_first(), command)
    }
}

/// A reply is read up to the first line that tells success or failure. On success the command gives
/// the lines of the answer, all of them, in order, and without echo or blank lines; on failure it
/// gives the line that tells of it. What comes behind that line is not looked at.
pub proof fn law_a_reply_is_its_answer_lines(
    exchange: ExchangeModel,
    deadline: Timestamp,
    lines: Seq<Seq<char>>,
    last: Seq<char>,
    behind: Seq<Seq<char>>,
)
    requires
        forall|i: int|
            0 <= i < lines.len() ==> {
                let reply = meaning(#[trigger] lines[i], exchange.command);
                reply == Reply::Noise || reply == Reply::Answer
            },
        meaning(last, exchange.command) == Reply::Success || meaning(last, exchange.command)
            == Reply::Failure,
    ensures
        after_reply_lines(exchange, deadline, lines + seq![last] + behind)
            == ExchangeTurnModel::Done(
            if meaning(last, exchange.command) == Reply::Success {
                Ok(exchange.lines + answer_lines(lines, exchange.command))
            } else {
                Err(ErrorModel::At(last))
            },
        ),
    decreases lines.len(),
{
    let all = lines + seq![last] + behind;
    if lines.len() == 0 {
        assert(all.first() == last);
        assert(exchange.lines + answer_lines(lines, exchange.command) =~= exchange.lines);
    } else {
        assert(all.first() == lines.first());
        let rest = lines.drop_first();
        assert(all.drop_first() =~= rest + seq![last] + behind);
        let first = lines.first();
        assert(first == lines[0]);
        assert forall|i: int| 0 <= i < rest.len() implies {
            let reply = meaning(#[trigger] rest[i], exchange.command);
            reply == Reply::Noise || reply == Reply::Answer
        } by {
            assert(rest[i] == lines[i + 1]);
        }
        if meaning(first, exchange.command) == Reply::Answer {
            let next = ExchangeModel { lines: exchange.lines.push(first), ..exchange };
            law_a_reply_is_its_answer_lines(next, deadline, rest, last, behind);
            assert(next.lines + answer_lines(rest, exchange.command) =~= exchange.lines
                + answer_lines(lines, exchange.command));
        } else {
            law_a_reply_is_its_answer_lines(exchange, deadline, rest, last, behind);
        }
    }
}

/// A line tells of success just by `OK`, and of failure by the words for it; a blank line and the
/// echo of the command tell nothing, and any other line belongs to the answer.
pub proof fn law_a_reply_line_is_told_by_its_words(line: Seq<char>, command: Seq<char>)
    ensures
        meaning(line, command) == Reply::Noise <==> line == command || line.len() == 0,
        meaning(line, command) == Reply::Success <==> line == "OK"@ && line != command,
        meaning(line, command) == Reply::Failure <==> line != command && (line == "ERROR"@ || line
            == "NO CARRIER"@ || "+CME ERROR"@.is_prefix_of(line) || "+CMS ERROR"@.is_prefix_of(
            line,
        )),
{
    reveal_strlit("OK");
    reveal_strlit("ERROR");
    reveal_strlit("NO CARRIER");
    reveal_strlit("+CME ERROR");
    reveal_strlit("+CMS ERROR");
    assert("OK"@.len() == 2 && "OK"@[0] == 'O');
    assert("ERROR"@.len() == 5);
    assert("NO CARRIER"@.len() == 10);
    assert("+CME ERROR"@.len() == 10);
    assert("+CMS ERROR"@.len() == 10);
}

/// A line tells that a call was answered just if it is `CONNECT`, alone or with more behind a space;
/// it tells that the call failed by the words for a failed command; and any other tells nothing.
pub proof fn law_a_dial_line_is_told_by_its_words(line: Seq<char>)
    ensures
        dial_meaning(line) == Reply::Success <==> line == "CONNECT"@ || "CONNECT "@.is_prefix_of(
            line,
        ),
        dial_meaning(line) == Reply::Failure <==> line == "ERROR"@ || line == "NO CARRIER"@
            || "+CME ERROR"@.is_prefix_of(line) || "+CMS ERROR"@.is_prefix_of(line),
        dial_meaning(line) != Reply::Answer,
{
    reveal_strlit("CONNECT");
    reveal_strlit("CONNECT ");
    reveal_strlit("ERROR");
    reveal_strlit("NO CARRIER");
    reveal_strlit("+CME ERROR");
    reveal_strlit("+CMS ERROR");
    assert("CONNECT"@.len() == 7 && "CONNECT"@[0] == 'C');
    assert("CONNECT "@.len() == 8 && "CONNECT "@[0] == 'C');
    assert("ERROR"@.len() == 5 && "ERROR"@[0] == 'E');
    assert("NO CARRIER"@.len() == 10 && "NO CARRIER"@[0] == 'N');
    assert("+CME ERROR"@.len() == 10 && "+CME ERROR"@[0] == '+');
    assert("+CMS ERROR"@.len() == 10 && "+CMS ERROR"@[0] == '+');
    if "CONNECT "@.is_prefix_of(line) {
        assert(line.subrange(0, 8)[0] == line[0]);
    }
    if "+CME ERROR"@.is_prefix_of(line) || "+CMS ERROR"@.is_prefix_of(line) {
        assert(line.subrange(0, 10)[0] == line[0]);
    }
}

} // verus!
