//! A run together with the transport that it reads through: what becomes of the bytes that arrive.
use crate::action::{answers, ActionModel, EventModel};
use crate::error::ErrorModel;
use crate::laws::{
    data_in, law_a_run_begins_properly, law_data_reaches_the_stack_unchanged,
    law_every_answer_is_awaited, law_retries_are_bounded, takes_the_answers, turn_on, Input,
};
use crate::session::{
    awaits, dial_event, end_session, start, within_retries, RecordModel, StageModel, Turn,
};
use crate::status::SharedModel;
use crate::transport::{
    after_first_line, first_line, handed_out, has_line, law_a_taking_keeps_every_byte, left_pending,
    received_meanwhile, Taking,
};
use vstd::prelude::*;

verus! {

/// A run at one of its turns, and the bytes that its transport has pending.
pub struct Served {
    pub turn: Turn,
    pub pending: Seq<u8>,
}

/// What the surroundings of a run contribute to a turn, and the bytes that arrive while the action
/// before it is carried out.
pub struct Feed {
    pub input: Input,
    pub arrived: Seq<u8>,
}

/// Whether the answer in `feed` is one that the action of `before` gets where lines and data come
/// from the transport.
pub open spec fn is_served(before: Served, feed: Feed) -> bool {
    let bytes = before.pending + feed.arrived;
    match (before.turn.action, feed.input.event) {
        (ActionModel::ReadLine { .. }, EventModel::Line(Ok(line))) => has_line(bytes) && line
            == first_line(bytes),
        (ActionModel::ReadLine { .. }, EventModel::Line(Err(_))) => !has_line(bytes),
        (ActionModel::ReadData { capacity, .. }, EventModel::Data(Ok(data))) => {
            let taking = Taking::Data { room: capacity, arrived: feed.arrived };
            &&& data == handed_out(before.pending, taking)
            &&& feed.arrived == received_meanwhile(before.pending, taking)
        },
        (ActionModel::ReadData { .. }, EventModel::Data(Err(_))) => bytes.len() == 0,
        (action, event) => answers(event, action) && feed.arrived.len() == 0,
    }
}

/// The bytes that are pending once the action of `before` is carried out.
pub open spec fn pending_behind(before: Served, feed: Feed) -> Seq<u8> {
    match before.turn.action {
        ActionModel::ReadLine { .. } => left_pending(
            before.pending,
            Taking::Line { arrived: feed.arrived },
        ),
        ActionModel::ReadData { capacity, .. } => left_pending(
            before.pending,
            Taking::Data { room: capacity, arrived: feed.arrived },
        ),
        ActionModel::DiscardPending => Seq::empty(),
        _ => before.pending,
    }
}

/// A run one turn later.
pub open spec fn advanced(before: Served, feed: Feed) -> Served {
    Served {
        turn: turn_on(before.turn.runner, feed.input),
        pending: pending_behind(before, feed),
    }
}

/// A run after a row of turns.
pub open spec fn served_after(first: Served, feeds: Seq<Feed>) -> Served
    decreases feeds.len(),
{
    if feeds.len() == 0 {
        first
    } else {
        advanced(served_after(first, feeds.drop_last()), feeds.last())
    }
}

/// Whether each of a row of turns is served.
pub open spec fn all_served(first: Served, feeds: Seq<Feed>) -> bool
    decreases feeds.len(),
{
    feeds.len() > 0 ==> {
        &&& all_served(first, feeds.drop_last())
        &&& is_served(served_after(first, feeds.drop_last()), feeds.last())
    }
}

/// The bytes that arrive in the course of a row of turns, in order.
pub open spec fn all_arrived(feeds: Seq<Feed>) -> Seq<u8>
    decreases feeds.len(),
{
    if feeds.len() == 0 {
        Seq::empty()
    } else {
        all_arrived(feeds.drop_last()) + feeds.last().arrived
    }
}

/// The slices that the PPP stack is handed in the course of a row of turns, in order.
pub open spec fn slices_delivered(first: Served, feeds: Seq<Feed>) -> Seq<Seq<u8>>
    decreases feeds.len(),
{
    if feeds.len() == 0 {
        Seq::empty()
    } else {
        let earlier = slices_delivered(first, feeds.drop_last());
        match served_after(first, feeds).turn.action {
            ActionModel::Deliver(data) => earlier.push(data),
            _ => earlier,
        }
    }
}

/// Slices put together in order.
pub open spec fn put_together(slices: Seq<Seq<u8>>) -> Seq<u8>
    decreases slices.len(),
{
    if slices.len() == 0 {
        Seq::empty()
    } else {
        put_together(slices.drop_last()) + slices.last()
    }
}

/// Whether a run at `stage` has a link: it is coming up, in use or being shut down, and no command
/// is given to the modem and no input thrown away.
pub open spec fn has_link(stage: StageModel) -> bool {
    match stage {
        StageModel::StartingPpp
        | StageModel::Online { .. }
        | StageModel::Delivering { .. }
        | StageModel::Shutdown(_, _)
        | StageModel::RecoveryQuery => true,
        _ => false,
    }
}

/// Whether a run has a link at every turn of a row, up to the last.
pub open spec fn keeps_link(first: Served, feeds: Seq<Feed>) -> bool
    decreases feeds.len(),
{
    feeds.len() > 0 ==> {
        &&& keeps_link(first, feeds.drop_last())
        &&& has_link(served_after(first, feeds.drop_last()).turn.runner.stage)
    }
}

/// Whether a turn is one that a run can be at.
spec fn is_proper(turn: Turn) -> bool {
    within_retries(turn.runner) && takes_the_answers(turn)
}

proof fn lemma_advanced(before: Served, feed: Feed)
    requires
        is_proper(before.turn),
        is_served(before, feed),
    ensures
        awaits(before.turn.runner.stage, feed.input.event),
        is_proper(advanced(before, feed).turn),
{
    let input = feed.input;
    assert(answers(input.event, before.turn.action));
    assert(awaits(before.turn.runner.stage, input.event));
    law_retries_are_bounded(before.turn.runner, input.shared, input.now, input.event);
    law_every_answer_is_awaited(before.turn.runner, input.shared, input.now, input.event);
}

proof fn lemma_served_after(first: Served, feeds: Seq<Feed>)
    requires
        is_proper(first.turn),
        all_served(first, feeds),
    ensures
        is_proper(served_after(first, feeds).turn),
    decreases feeds.len(),
{
    if feeds.len() > 0 {
        lemma_served_after(first, feeds.drop_last());
        lemma_advanced(served_after(first, feeds.drop_last()), feeds.last());
    }
}

proof fn lemma_action_on_a_link(turn: Turn)
    requires
        is_proper(turn),
        has_link(turn.runner.stage),
    ensures
        !(turn.action is ReadLine),
        !(turn.action is DiscardPending),
{
    let line = EventModel::Line(Err(ErrorModel::Io));
    assert(!awaits(turn.runner.stage, line));
    assert(!answers(line, turn.action));
    assert(!awaits(turn.runner.stage, EventModel::Done));
    assert(!answers(EventModel::Done, turn.action));
}

/// On a link, a turn hands the stack what it takes out of the stream.
proof fn lemma_turn_on_a_link(before: Served, feed: Feed)
    requires
        is_proper(before.turn),
        has_link(before.turn.runner.stage),
        is_served(before, feed),
    ensures
        data_in(feed.input.event) + pending_behind(before, feed) == before.pending + feed.arrived,
{
    lemma_action_on_a_link(before.turn);
    match (before.turn.action, feed.input.event) {
        (ActionModel::ReadData { capacity, .. }, EventModel::Data(Ok(_))) => {
            law_a_taking_keeps_every_byte(
                before.pending,
                Taking::Data { room: capacity, arrived: feed.arrived },
            );
        },
        (ActionModel::ReadData { .. }, EventModel::Data(Err(_))) => {
            assert(data_in(feed.input.event) + pending_behind(before, feed) =~= before.pending
                + feed.arrived);
        },
        _ => {
            assert(pending_behind(before, feed) == before.pending);
            assert(!(feed.input.event is Data));
            assert(data_in(feed.input.event) + before.pending =~= before.pending + feed.arrived);
        },
    }
}

proof fn lemma_link_keeps_the_stream(first: Served, feeds: Seq<Feed>)
    requires
        is_proper(first.turn),
        all_served(first, feeds),
        keeps_link(first, feeds),
    ensures
        put_together(slices_delivered(first, feeds)) + served_after(first, feeds).pending
            == first.pending + all_arrived(feeds),
        forall|i: int|
            0 <= i < slices_delivered(first, feeds).len() ==> (#[trigger] slices_delivered(
                first,
                feeds,
            )[i]).len() > 0,
    decreases feeds.len(),
{
    if feeds.len() == 0 {
        assert(Seq::<u8>::empty() + first.pending =~= first.pending + Seq::<u8>::empty());
    } else {
        let earlier = feeds.drop_last();
        let feed = feeds.last();
        let before = served_after(first, earlier);
        lemma_link_keeps_the_stream(first, earlier);
        lemma_served_after(first, earlier);
        lemma_advanced(before, feed);
        lemma_turn_on_a_link(before, feed);
        let data = data_in(feed.input.event);
        law_data_reaches_the_stack_unchanged(
            before.turn.runner,
            feed.input.shared,
            feed.input.now,
            feed.input.event,
        );
        let slices = slices_delivered(first, earlier);
        let all = slices_delivered(first, feeds);
        let out = put_together(slices);
        if data.len() > 0 {
            assert(all == slices.push(data));
            assert(all.drop_last() =~= slices);
        } else {
            assert(all == slices);
            assert(out + data =~= out);
        }
        let left = served_after(first, feeds).pending;
        assert(put_together(all) == out + data);
        assert((out + data) + left =~= out + (data + left));
        assert(out + (before.pending + feed.arrived) =~= (out + before.pending) + feed.arrived);
        assert((first.pending + all_arrived(earlier)) + feed.arrived =~= first.pending + (
        all_arrived(earlier) + feed.arrived));
        assert forall|i: int| 0 <= i < all.len() implies (#[trigger] all[i]).len() > 0 by {
            if i < slices.len() {
                assert(all[i] == slices[i]);
            }
        }
    }
}

/// A modem that is online gives the PPP stack the stream: from the line that answered the call on,
/// for as long as the link is there, the slices that the stack is handed are, put together in
/// order, the bytes behind that line and those that arrived since, as far as they are not pending
/// still. None is lost, repeated, changed or out of place; those that came with the answer are the
/// first; and no slice is empty.
///
/// `before` are the turns of the run up to the answer, `answer` is the turn that it makes, and
/// `after` are the turns since. The run may have begun with bytes pending.
pub proof fn law_the_stack_is_given_the_stream(
    record: RecordModel,
    shared: SharedModel,
    pending: Seq<u8>,
    before: Seq<Feed>,
    answer: Feed,
    after: Seq<Feed>,
)
    requires
        ({
            let begun = Served { turn: start(record, shared), pending };
            let dialing = served_after(begun, before);
            let answered = advanced(dialing, answer);
            &&& all_served(begun, before)
            &&& is_served(dialing, answer)
            &&& dialing.turn.runner.stage is DialReading
            &&& answered.turn.runner.stage is StartingPpp
            &&& all_served(answered, after)
            &&& keeps_link(answered, after)
        }),
    ensures
        ({
            let begun = Served { turn: start(record, shared), pending };
            let dialing = served_after(begun, before);
            let answered = advanced(dialing, answer);
            let bytes = dialing.pending + answer.arrived;
            let stream = after_first_line(bytes) + all_arrived(after);
            let slices = slices_delivered(answered, after);
            &&& has_line(bytes)
            &&& put_together(slices) + served_after(answered, after).pending == stream
            &&& put_together(slices).is_prefix_of(stream)
            &&& forall|i: int| 0 <= i < slices.len() ==> (#[trigger] slices[i]).len() > 0
        }),
{
    let begun = Served { turn: start(record, shared), pending };
    let dialing = served_after(begun, before);
    let answered = advanced(dialing, answer);
    law_a_run_begins_properly(record, shared);
    lemma_served_after(begun, before);
    lemma_advanced(dialing, answer);
    lemma_answer_is_a_line(dialing, answer);
    lemma_link_keeps_the_stream(answered, after);
    let out = put_together(slices_delivered(answered, after));
    let left = served_after(answered, after).pending;
    assert((out + left).subrange(0, out.len() as int) =~= out);
}

/// A call is answered by a line.
proof fn lemma_answer_is_a_line(dialing: Served, answer: Feed)
    requires
        is_proper(dialing.turn),
        dialing.turn.runner.stage is DialReading,
        is_served(dialing, answer),
        advanced(dialing, answer).turn.runner.stage is StartingPpp,
    ensures
        has_line(dialing.pending + answer.arrived),
        advanced(dialing, answer).pending == after_first_line(dialing.pending + answer.arrived),
{
    lemma_advanced(dialing, answer);
    assert(dialing.turn.action is ReadLine) by {
        let line = EventModel::Line(Err(ErrorModel::Io));
        assert(awaits(dialing.turn.runner.stage, line));
        assert(answers(line, dialing.turn.action));
    }
    if let EventModel::Line(Err(error)) = answer.input.event {
        reveal(dial_event);
        reveal(end_session);
    }
}

} // verus!
