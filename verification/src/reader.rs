//! What a serial stream is read from, with a record of the calls made.
use crate::time::Duration;
use vstd::prelude::*;

verus! {

/// One call of a reader: how many bytes it was asked for at most, how long it was to wait, and the
/// bytes that it brought, which are none if its time ran out. A call that failed brought nothing.
pub struct ReadCall {
    pub capacity: nat,
    pub timeout: Duration,
    pub brought: Option<Seq<u8>>,
}

/// A UART-like reader which returns `Ok(0)` when its timeout expires.
///
/// An implementation stores the bytes it read at the start of `buffer` and returns how many they
/// are.
pub trait TimedRead {
    type Error;

    /// Whether `call` can make this reader `after`. An implementation that has more to say of its
    /// calls than that they fit the buffer says it here.
    open spec fn becomes(&self, call: ReadCall, after: &Self) -> bool {
        true
    }

    fn read_timeout(&mut self, buffer: &mut [u8], timeout: Duration) -> (result: Result<
        usize,
        Self::Error,
    >)
        ensures
            final(buffer)@.len() == old(buffer)@.len(),
            result matches Ok(len) ==> len <= old(buffer)@.len(),
            old(self).becomes(
                made_call(final(buffer)@, timeout, result),
                final(self),
            ),
    ;
}

/// The call that left `buffer` behind and had this result.
pub open spec fn made_call<E>(
    buffer: Seq<u8>,
    timeout: Duration,
    result: Result<usize, E>,
) -> ReadCall {
    ReadCall {
        capacity: buffer.len(),
        timeout,
        brought: match result {
            Ok(len) => Some(buffer.take(len as int)),
            Err(_) => None,
        },
    }
}

/// The bytes that a call brought.
pub open spec fn bytes_of(call: ReadCall) -> Seq<u8> {
    match call.brought {
        Some(bytes) => bytes,
        None => Seq::empty(),
    }
}

/// The bytes that a row of calls brought, in order.
pub open spec fn bytes_brought(calls: Seq<ReadCall>) -> Seq<u8>
    decreases calls.len(),
{
    if calls.len() == 0 {
        Seq::empty()
    } else {
        bytes_brought(calls.drop_last()) + bytes_of(calls.last())
    }
}

/// Whether the last of a row of calls failed.
pub open spec fn ends_in_failure(calls: Seq<ReadCall>) -> bool {
    calls.len() > 0 && calls.last().brought is None
}

/// Whether `readers` is what a reader was in the course of `calls`, from `before` to `after`: each
/// call, and nothing else, led from one to the next.
pub open spec fn is_course<R: TimedRead>(
    before: R,
    calls: Seq<ReadCall>,
    after: R,
    readers: Seq<R>,
) -> bool {
    &&& readers.len() == calls.len() + 1
    &&& readers.first() == before
    &&& readers.last() == after
    &&& forall|k: int|
        0 <= k < calls.len() ==> readers[k].becomes(#[trigger] calls[k], &readers[k + 1])
}

/// Whether `calls`, one after the other and nothing else, can make the reader `before` the reader
/// `after`.
pub open spec fn led_to<R: TimedRead>(before: R, calls: Seq<ReadCall>, after: R) -> bool {
    exists|readers: Seq<R>| is_course(before, calls, after, readers)
}

/// A reader of which every call is on record.
pub struct RecordedReader<R> {
    inner: R,
    calls: Ghost<Seq<ReadCall>>,
}

impl<R: TimedRead> RecordedReader<R> {
    /// The reader.
    pub closed spec fn inner(&self) -> R {
        self.inner
    }

    /// Every call made so far, in order.
    pub closed spec fn calls(&self) -> Seq<ReadCall> {
        self.calls@
    }

    /// Puts a reader on record, with no call made yet.
    pub fn new(inner: R) -> (reader: Self)
        ensures
            reader.inner() == inner,
            reader.calls() == Seq::<ReadCall>::empty(),
    {
        RecordedReader { inner, calls: Ghost(Seq::empty()) }
    }

    /// Calls the reader once.
    pub fn read_timeout(&mut self, buffer: &mut [u8], timeout: Duration) -> (result: Result<
        usize,
        R::Error,
    >)
        ensures
            final(buffer)@.len() == old(buffer)@.len(),
            result matches Ok(len) ==> len <= old(buffer)@.len(),
            final(self).calls() == old(self).calls().push(
                made_call(final(buffer)@, timeout, result),
            ),
            later_reader(*old(self), *final(self)),
    {
        let result = self.inner.read_timeout(buffer, timeout);
        let ghost call = made_call(buffer@, timeout, result);
        self.calls = Ghost(self.calls@.push(call));
        proof {
            let calls = calls_between(*old(self), *self);
            assert(calls =~= seq![call]);
            assert(is_course(old(self).inner, calls, self.inner, seq![old(self).inner, self.inner]));
            assert(self.calls@.subrange(0, old(self).calls@.len() as int) =~= old(self).calls@);
        }
        result
    }
}

/// The calls that a reader got between two moments.
pub open spec fn calls_between<R: TimedRead>(
    before: RecordedReader<R>,
    after: RecordedReader<R>,
) -> Seq<ReadCall> {
    after.calls().skip(before.calls().len() as int)
}

/// The bytes that a reader handed out between two moments.
pub open spec fn arrived<R: TimedRead>(
    before: RecordedReader<R>,
    after: RecordedReader<R>,
) -> Seq<u8> {
    bytes_brought(calls_between(before, after))
}

/// Whether `after` is the reader `before` at a later moment: all the calls on record are there
/// still, and those since are what happened to the reader.
pub open spec fn later_reader<R: TimedRead>(
    before: RecordedReader<R>,
    after: RecordedReader<R>,
) -> bool {
    &&& before.calls().is_prefix_of(after.calls())
    &&& led_to(before.inner(), calls_between(before, after), after.inner())
}

/// A reader is a later one than itself, with no call in between.
pub proof fn lemma_no_call<R: TimedRead>(reader: RecordedReader<R>)
    ensures
        later_reader(reader, reader),
        calls_between(reader, reader) == Seq::<ReadCall>::empty(),
        arrived(reader, reader) == Seq::<u8>::empty(),
{
    assert(calls_between(reader, reader) =~= Seq::<ReadCall>::empty());
    assert(is_course(
        reader.inner(),
        calls_between(reader, reader),
        reader.inner(),
        seq![reader.inner()],
    ));
    assert(reader.calls().subrange(0, reader.calls().len() as int) =~= reader.calls());
}

/// One more call of a reader is one more among those it got since an earlier moment.
pub proof fn lemma_next_call<R: TimedRead>(
    first: RecordedReader<R>,
    second: RecordedReader<R>,
    third: RecordedReader<R>,
)
    requires
        later_reader(first, second),
        later_reader(second, third),
        third.calls().len() == second.calls().len() + 1,
    ensures
        later_reader(first, third),
        calls_between(first, third) == calls_between(first, second).push(third.calls().last()),
        arrived(first, third) == arrived(first, second) + bytes_of(third.calls().last()),
{
    let call = third.calls().last();
    let step = calls_between(second, third);
    assert(step =~= seq![call]);
    let ends = choose|readers: Seq<R>| is_course(second.inner(), step, third.inner(), readers);
    assert(ends[0].becomes(step[0], &ends[1]));
    assert(third.calls().subrange(0, first.calls().len() as int) =~= first.calls());
    let earlier = calls_between(first, second);
    let calls = calls_between(first, third);
    assert(calls =~= earlier.push(call));
    assert(calls.drop_last() =~= earlier);
    let readers = choose|readers: Seq<R>|
        is_course(first.inner(), earlier, second.inner(), readers);
    let all = readers.push(third.inner());
    assert forall|k: int| 0 <= k < calls.len() implies all[k].becomes(
        #[trigger] calls[k],
        &all[k + 1],
    ) by {
        if k < earlier.len() {
            assert(readers[k].becomes(earlier[k], &readers[k + 1]));
        }
    }
    assert(is_course(first.inner(), calls, third.inner(), all));
}

/// What calls bring is put together in order: a call that went well adds its bytes behind those
/// before it, and one that failed adds none.
pub proof fn law_calls_bring_their_bytes_in_order(
    early: Seq<ReadCall>,
    late: Seq<ReadCall>,
    call: ReadCall,
)
    ensures
        bytes_brought(early + late) == bytes_brought(early) + bytes_brought(late),
        call.brought matches Some(bytes) ==> bytes_brought(seq![call]) == bytes,
        call.brought is None ==> bytes_brought(seq![call]).len() == 0,
        ends_in_failure(early.push(call)) <==> call.brought is None,
    decreases late.len(),
{
    let one = seq![call];
    assert(one.drop_last() =~= Seq::<ReadCall>::empty());
    assert(one.last() == call);
    assert(bytes_brought(one.drop_last()) + bytes_of(call) =~= bytes_of(call));
    assert(bytes_brought(one) == bytes_of(call));
    if late.len() == 0 {
        assert(early + late =~= early);
        assert(bytes_brought(early) + bytes_brought(late) =~= bytes_brought(early));
    } else {
        let less = late.drop_last();
        law_calls_bring_their_bytes_in_order(early, less, call);
        assert((early + late).drop_last() =~= early + less);
        assert((early + late).last() == late.last());
        assert(bytes_brought(early) + (bytes_brought(less) + bytes_of(late.last())) =~= (
        bytes_brought(early) + bytes_brought(less)) + bytes_of(late.last()));
    }
}

/// The calls in between are those behind the calls before, and the bytes that arrived are theirs.
pub proof fn law_calls_in_between_come_after<R: TimedRead>(
    before: RecordedReader<R>,
    after: RecordedReader<R>,
    calls: Seq<ReadCall>,
)
    requires
        after.calls() == before.calls() + calls,
    ensures
        calls_between(before, after) == calls,
        arrived(before, after) == bytes_brought(calls),
{
    assert(calls_between(before, after) =~= calls);
}

/// A call is on record as it was made: with the room and the time it was given, and with the bytes
/// at the start of the buffer, as many as it said, or none if it failed.
pub proof fn law_a_call_is_on_record_as_it_was_made<E>(
    buffer: Seq<u8>,
    timeout: Duration,
    result: Result<usize, E>,
)
    requires
        result matches Ok(len) ==> len <= buffer.len(),
    ensures
        ({
            let call = made_call(buffer, timeout, result);
            &&& call.capacity == buffer.len()
            &&& call.timeout == timeout
            &&& result is Err <==> call.brought is None
            &&& result matches Ok(len) ==> call.brought->0.len() == len && call.brought->0
                + buffer.skip(len as int) == buffer
        }),
{
    if let Ok(len) = result {
        assert(buffer.take(len as int) + buffer.skip(len as int) =~= buffer);
    }
}

} // verus!
