//! What a runner asks its surroundings to do, and what they answer.
use crate::error::{ErrorModel, EspError, EspErrorModel, ModemError};
use crate::time::{Duration, Timestamp};
use vstd::prelude::*;

verus! {

/// One thing for the surroundings of a runner to do. Each is answered with the [`Event`] that its
/// description names.
#[derive(Debug)]
pub enum Action {
    /// Write these bytes to the modem; answered by `Written`.
    Write(Vec<u8>),
    /// Read a line until `deadline`; answered by `Line`.
    ReadLine { deadline: Timestamp, operation: &'static str },
    /// Read up to `capacity` bytes of data, for at most `timeout`; answered by `Data`.
    ReadData { capacity: usize, timeout: Duration },
    /// Forget all input that was read and not used; answered by `Done`.
    DiscardPending,
    /// Wait this many milliseconds; answered by `Done`.
    Delay(u32),
    /// Tell whether the PPP driver is started; answered by `Started`.
    QueryPpp,
    /// Start the PPP driver; answered by `Driver`.
    StartPpp,
    /// Stop the PPP driver; answered by `Driver`.
    StopPpp,
    /// Hand these bytes to the PPP driver; answered by `Driver`.
    Deliver(Vec<u8>),
    /// The run is over, with this result.
    Finish(Result<(), ModemError>),
}

/// An [`Action`] as the contracts speak of it.
pub enum ActionModel {
    Write(Seq<u8>),
    ReadLine { deadline: Timestamp, operation: Seq<char> },
    ReadData { capacity: nat, timeout: Duration },
    DiscardPending,
    Delay(u32),
    QueryPpp,
    StartPpp,
    StopPpp,
    Deliver(Seq<u8>),
    Finish(Result<(), ErrorModel>),
}

impl View for Action {
    type V = ActionModel;

    open spec fn view(&self) -> ActionModel {
        match self {
            Action::Write(bytes) => ActionModel::Write(bytes@),
            Action::ReadLine { deadline, operation } => ActionModel::ReadLine {
                deadline: *deadline,
                operation: operation@,
            },
            Action::ReadData { capacity, timeout } => ActionModel::ReadData {
                capacity: *capacity as nat,
                timeout: *timeout,
            },
            Action::DiscardPending => ActionModel::DiscardPending,
            Action::Delay(millis) => ActionModel::Delay(*millis),
            Action::QueryPpp => ActionModel::QueryPpp,
            Action::StartPpp => ActionModel::StartPpp,
            Action::StopPpp => ActionModel::StopPpp,
            Action::Deliver(bytes) => ActionModel::Deliver(bytes@),
            Action::Finish(Ok(())) => ActionModel::Finish(Ok(())),
            Action::Finish(Err(error)) => ActionModel::Finish(Err(error@)),
        }
    }
}

/// How an action went.
#[derive(Debug)]
pub enum Event {
    /// It was done.
    Done,
    /// The bytes were written, or could not be.
    Written(bool),
    /// A line, without its end, or why there is none.
    Line(Result<Vec<u8>, ModemError>),
    /// The data that was there, or why it could not be read.
    Data(Result<Vec<u8>, ModemError>),
    /// Whether the PPP driver is started.
    Started(Result<bool, EspError>),
    /// What the PPP driver made of the call.
    Driver(Result<(), EspError>),
}

/// An [`Event`] as the contracts speak of it.
pub enum EventModel {
    Done,
    Written(bool),
    Line(Result<Seq<u8>, ErrorModel>),
    Data(Result<Seq<u8>, ErrorModel>),
    Started(Result<bool, EspErrorModel>),
    Driver(Result<(), EspErrorModel>),
}

impl View for Event {
    type V = EventModel;

    open spec fn view(&self) -> EventModel {
        match self {
            Event::Done => EventModel::Done,
            Event::Written(written) => EventModel::Written(*written),
            Event::Line(Ok(line)) => EventModel::Line(Ok(line@)),
            Event::Line(Err(error)) => EventModel::Line(Err(error@)),
            Event::Data(Ok(data)) => EventModel::Data(Ok(data@)),
            Event::Data(Err(error)) => EventModel::Data(Err(error@)),
            Event::Started(Ok(started)) => EventModel::Started(Ok(*started)),
            Event::Started(Err(error)) => EventModel::Started(Err(error@)),
            Event::Driver(Ok(())) => EventModel::Driver(Ok(())),
            Event::Driver(Err(error)) => EventModel::Driver(Err(error@)),
        }
    }
}

/// Whether `event` is an answer to `action`. A run that is over takes none.
pub open spec fn answers(event: EventModel, action: ActionModel) -> bool {
    match action {
        ActionModel::Write(_) => event is Written,
        ActionModel::ReadLine { .. } => event is Line,
        ActionModel::ReadData { .. } => event is Data,
        ActionModel::DiscardPending | ActionModel::Delay(_) => event is Done,
        ActionModel::QueryPpp => event is Started,
        ActionModel::StartPpp | ActionModel::StopPpp | ActionModel::Deliver(_) => event is Driver,
        ActionModel::Finish(_) => false,
    }
}

/// The contracts speak of an action as it is.
pub proof fn law_an_action_is_seen_as_it_is(action: Action)
    ensures
        match action {
            Action::Write(bytes) => action@ == ActionModel::Write(bytes@),
            Action::ReadLine { deadline, operation } => action@ == (ActionModel::ReadLine {
                deadline,
                operation: operation@,
            }),
            Action::ReadData { capacity, timeout } => action@ == (ActionModel::ReadData {
                capacity: capacity as nat,
                timeout,
            }),
            Action::DiscardPending => action@ is DiscardPending,
            Action::Delay(millis) => action@ == ActionModel::Delay(millis),
            Action::QueryPpp => action@ is QueryPpp,
            Action::StartPpp => action@ is StartPpp,
            Action::StopPpp => action@ is StopPpp,
            Action::Deliver(bytes) => action@ == ActionModel::Deliver(bytes@),
            Action::Finish(Ok(())) => action@ == ActionModel::Finish(Ok(())),
            Action::Finish(Err(error)) => action@ == ActionModel::Finish(Err(error@)),
        },
{
}

/// The contracts speak of an event as it is.
pub proof fn law_an_event_is_seen_as_it_is(event: Event)
    ensures
        match event {
            Event::Done => event@ is Done,
            Event::Written(written) => event@ == EventModel::Written(written),
            Event::Line(Ok(line)) => event@ == EventModel::Line(Ok(line@)),
            Event::Line(Err(error)) => event@ == EventModel::Line(Err(error@)),
            Event::Data(Ok(data)) => event@ == EventModel::Data(Ok(data@)),
            Event::Data(Err(error)) => event@ == EventModel::Data(Err(error@)),
            Event::Started(Ok(started)) => event@ == EventModel::Started(Ok(started)),
            Event::Started(Err(error)) => event@ == EventModel::Started(Err(error@)),
            Event::Driver(Ok(())) => event@ == EventModel::Driver(Ok(())),
            Event::Driver(Err(error)) => event@ == EventModel::Driver(Err(error@)),
        },
{
}

/// A write tells whether it went well, a read what it brought, the driver how it went or whether it
/// runs, and a wait or a discard just that it is over; a run that is over is told nothing.
pub proof fn law_each_action_has_its_answer(action: ActionModel, event: EventModel)
    ensures
        answers(event, action) <==> {
            ||| action is Write && event is Written
            ||| action is ReadLine && event is Line
            ||| action is ReadData && event is Data
            ||| action is DiscardPending && event is Done
            ||| action is Delay && event is Done
            ||| action is QueryPpp && event is Started
            ||| action is StartPpp && event is Driver
            ||| action is StopPpp && event is Driver
            ||| action is Deliver && event is Driver
        },
{
}

} // verus!
