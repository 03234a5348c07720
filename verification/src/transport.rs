//! Lines and raw data out of one serial stream.
use crate::clock::{nanos_until, time_left, Clock};
use crate::error::{ErrorModel, EspError, EspErrorModel, ModemError, ESP_ERR_TIMEOUT};
use crate::reader::{
    arrived, bytes_brought, bytes_of, calls_between, ends_in_failure, later_reader, lemma_next_call,
    lemma_no_call, made_call, ReadCall, RecordedReader, TimedRead,
};
use crate::time::{shorter, Duration};
use vstd::prelude::*;

verus! {

/// The longest single wait for input, in nanoseconds.
pub const READ_POLL_NANOS: u128 = 100_000_000;

/// The longest single wait for input.
pub open spec fn read_poll_span() -> Duration {
    Duration { nanos: READ_POLL_NANOS }
}

/// The longest single wait for input.
pub fn read_poll() -> (span: Duration)
    ensures
        span == read_poll_span(),
{
    Duration { nanos: READ_POLL_NANOS }
}

/// What a reader returns for the outcome of a driver's read: a read whose time ran out brought
/// nothing, and is no failure.
pub open spec fn settled_read(outcome: Result<usize, EspErrorModel>) -> Result<
    usize,
    EspErrorModel,
> {
    match outcome {
        Err(error) if error.code == ESP_ERR_TIMEOUT => Ok(0),
        outcome => outcome,
    }
}

/// What a reader returns for the outcome of a driver's read.
pub fn settle_read(outcome: Result<usize, EspError>) -> (result: Result<usize, EspError>)
    ensures
        read_view(result) == settled_read(read_view(outcome)),
{
    match outcome {
        Ok(len) => Ok(len),
        Err(error) => {
            if error.code == ESP_ERR_TIMEOUT {
                Ok(0)
            } else {
                Err(error)
            }
        },
    }
}

/// The outcome of a read, as the contracts speak of it.
pub open spec fn read_view(outcome: Result<usize, EspError>) -> Result<usize, EspErrorModel> {
    match outcome {
        Ok(len) => Ok(len),
        Err(error) => Err(error@),
    }
}

/// Whether the first line feed in `bytes` stands at `at`.
pub open spec fn first_line_feed(bytes: Seq<u8>, at: int) -> bool {
    &&& 0 <= at < bytes.len()
    &&& bytes[at] == '\n' as u8
    &&& forall|k: int| 0 <= k < at ==> bytes[k] != '\n' as u8
}

/// Whether `bytes` holds a whole line.
pub open spec fn has_line(bytes: Seq<u8>) -> bool {
    bytes.contains('\n' as u8)
}

/// Where the first line feed in `bytes` stands.
pub open spec fn line_feed_at(bytes: Seq<u8>) -> int {
    choose|at: int| first_line_feed(bytes, at)
}

/// What a line says: the bytes before its line feed, less one carriage return at their end.
pub open spec fn line_content(line: Seq<u8>) -> Seq<u8> {
    if line.len() > 0 && line.last() == '\r' as u8 {
        line.drop_last()
    } else {
        line
    }
}

/// What the first line in `bytes` says.
pub open spec fn first_line(bytes: Seq<u8>) -> Seq<u8> {
    line_content(bytes.take(line_feed_at(bytes)))
}

/// The bytes that follow the first line in `bytes`.
pub open spec fn after_first_line(bytes: Seq<u8>) -> Seq<u8> {
    bytes.skip(line_feed_at(bytes) + 1)
}

/// A line feed that is the first is the only first one.
pub proof fn lemma_line_feed_at(bytes: Seq<u8>, at: int)
    requires
        first_line_feed(bytes, at),
    ensures
        has_line(bytes),
        line_feed_at(bytes) == at,
{
    let other = line_feed_at(bytes);
    assert(first_line_feed(bytes, other));
    if other < at {
        assert(bytes[other] != '\n' as u8);
    }
    if at < other {
        assert(bytes[at] != '\n' as u8);
    }
}

/// A sequence with a line feed in it has a first one.
pub proof fn lemma_has_first_line_feed(bytes: Seq<u8>)
    requires
        has_line(bytes),
    ensures
        first_line_feed(bytes, line_feed_at(bytes)),
    decreases bytes.len(),
{
    let any = choose|k: int| 0 <= k < bytes.len() && bytes[k] == '\n' as u8;
    if !first_line_feed(bytes, any) {
        let before = choose|k: int| 0 <= k < any && bytes[k] == '\n' as u8;
        let head = bytes.take(any);
        assert(head[before] == '\n' as u8);
        lemma_has_first_line_feed(head);
        let at = line_feed_at(head);
        assert(head[at] == bytes[at]);
        assert forall|k: int| 0 <= k < at implies bytes[k] != '\n' as u8 by {
            assert(head[k] == bytes[k]);
        }
        assert(first_line_feed(bytes, at));
    }
}

/// A serial stream of which lines can be taken while a modem is given commands, and raw data once
/// it is online.
pub struct BufferedTransport<R> {
    inner: RecordedReader<R>,
    clock: Clock,
    buffer: Vec<u8>,
    start: usize,
    end: usize,
}

impl<R: TimedRead> BufferedTransport<R> {
    /// The read position is not past the bytes read, and these are not past the buffer's end.
    pub closed spec fn wf(&self) -> bool {
        self.start <= self.end <= self.buffer@.len()
    }

    /// The bytes that were read from the stream and not taken yet.
    pub closed spec fn pending(&self) -> Seq<u8> {
        self.buffer@.subrange(self.start as int, self.end as int)
    }

    /// How many bytes can be pending.
    pub closed spec fn capacity(&self) -> nat {
        self.buffer@.len()
    }

    /// The reader under the buffer.
    pub closed spec fn reader(&self) -> RecordedReader<R> {
        self.inner
    }

    /// Every moment that was read from the clock so far, in order.
    pub closed spec fn shown(&self) -> Seq<std::time::Instant> {
        self.clock.shown()
    }

    /// A transport over `inner` that holds back at most `capacity` bytes.
    pub fn new(inner: R, capacity: usize) -> (transport: Self)
        ensures
            transport.wf(),
            transport.pending() == Seq::<u8>::empty(),
            transport.capacity() == capacity,
            transport.reader().inner() == inner,
            transport.reader().calls() == Seq::<ReadCall>::empty(),
            transport.shown() == Seq::<std::time::Instant>::empty(),
    {
        BufferedTransport {
            inner: RecordedReader::new(inner),
            clock: Clock::new(),
            buffer: vec![0; capacity],
            start: 0,
            end: 0,
        }
    }

    /// Moves the pending bytes to the start of the buffer.
    pub fn compact(&mut self)
        requires
            old(self).wf(),
        ensures
            final(self).wf(),
            final(self).at_start(),
            final(self).pending() == old(self).pending(),
            final(self).capacity() == old(self).capacity(),
            final(self).reader() == old(self).reader(),
            final(self).shown() == old(self).shown(),
    {
        let len = self.end - self.start;
        if self.start > 0 {
            let mut i: usize = 0;
            while i < len
                invariant
                    i <= len,
                    len == self.end - self.start,
                    self.start > 0,
                    self.start == old(self).start,
                    self.end == old(self).end,
                    self.end <= self.buffer@.len(),
                    self.buffer@.len() == old(self).buffer@.len(),
                    self.inner == old(self).inner,
                    self.clock == old(self).clock,
                    forall|k: int| 0 <= k < i ==> self.buffer@[k] == old(self).buffer@[k + self.start],
                    forall|k: int|
                        i <= k < self.buffer@.len() ==> self.buffer@[k] == old(self).buffer@[k],
                decreases len - i,
            {
                let byte = self.buffer[self.start + i];
                self.buffer[i] = byte;
                i += 1;
            }
            self.end = len;
            self.start = 0;
        }
        assert(self.pending() =~= old(self).pending());
    }

    /// Whether the pending bytes stand at the start of the buffer.
    pub closed spec fn at_start(&self) -> bool {
        self.start == 0
    }

    /// Forgets the pending bytes.
    pub fn discard_pending(&mut self)
        requires
            old(self).wf(),
        ensures
            final(self).wf(),
            final(self).pending() == Seq::<u8>::empty(),
            final(self).capacity() == old(self).capacity(),
            final(self).reader() == old(self).reader(),
            final(self).shown() == old(self).shown(),
    {
        self.start = 0;
        self.end = 0;
    }

    /// Drops the first `len` pending bytes.
    fn consume(&mut self, len: usize)
        requires
            old(self).wf(),
            len <= old(self).pending().len(),
        ensures
            final(self).wf(),
            final(self).pending() == old(self).pending().skip(len as int),
            final(self).capacity() == old(self).capacity(),
            final(self).reader() == old(self).reader(),
            final(self).shown() == old(self).shown(),
    {
        self.start = self.start + len;
        if self.start == self.end {
            self.start = 0;
            self.end = 0;
        }
        assert(self.pending() =~= old(self).pending().skip(len as int));
    }

    /// Takes the first pending line, if there is one.
    pub fn take_line(&mut self) -> (line: Option<Vec<u8>>)
        requires
            old(self).wf(),
        ensures
            final(self).wf(),
            final(self).capacity() == old(self).capacity(),
            final(self).reader() == old(self).reader(),
            final(self).shown() == old(self).shown(),
            line is Some <==> has_line(old(self).pending()),
            match line {
                Some(content) => {
                    &&& content@ == first_line(old(self).pending())
                    &&& final(self).pending() == after_first_line(old(self).pending())
                },
                None => final(self).pending() == old(self).pending(),
            },
    {
        let ghost pending = self.pending();
        let len = self.end - self.start;
        let mut at: usize = 0;
        while at < len && self.buffer[self.start + at] != 10
            invariant
                at <= len,
                self.wf(),
                len == self.end - self.start,
                pending == self.pending(),
                self == old(self),
                forall|k: int| 0 <= k < at ==> pending[k] != '\n' as u8,
            decreases len - at,
        {
            assert(pending[at as int] == self.buffer@[self.start + at]);
            at += 1;
        }
        if at == len {
            assert(!has_line(pending));
            return None;
        }
        assert(pending[at as int] == self.buffer@[self.start + at]);
        proof {
            lemma_line_feed_at(pending, at as int);
        }
        let mut content_end: usize = self.start + at;
        if content_end > self.start && self.buffer[content_end - 1] == 13 {
            content_end -= 1;
        }
        let line = vstd::slice::slice_to_vec(
            vstd::slice::slice_subrange(self.buffer.as_slice(), self.start, content_end),
        );
        assert(pending.take(at as int).len() > 0 ==> pending.take(at as int).last()
            == self.buffer@[self.start + at - 1]);
        assert(line@ =~= first_line(pending));
        self.consume(at + 1);
        Some(line)
    }

    /// Reads once from the stream into the free part of the buffer.
    fn fill(&mut self, timeout: Duration) -> (result: Result<(), ModemError>)
        requires
            old(self).wf(),
            old(self).at_start(),
        ensures
            final(self).wf(),
            final(self).capacity() == old(self).capacity(),
            final(self).shown() == old(self).shown(),
            later_reader(old(self).reader(), final(self).reader()),
            ({
                let call = ReadCall {
                    capacity: (old(self).capacity() - old(self).pending().len()) as nat,
                    timeout,
                    brought: final(self).reader().calls().last().brought,
                };
                &&& final(self).reader().calls() == old(self).reader().calls().push(call)
                &&& final(self).pending() == old(self).pending() + bytes_of(call)
                &&& match result {
                    Ok(()) => call.brought is Some,
                    Err(error) => error@ == ErrorModel::Io && call.brought is None,
                }
            }),
    {
        let end = self.end;
        let (_kept, free) = self.buffer.as_mut_slice().split_at_mut(end);
        let result = self.inner.read_timeout(free, timeout);
        match result {
            Ok(len) => {
                assert(end + len <= self.buffer.len());
                self.end = end + len;
                proof {
                    let bytes = self.buffer@.subrange(end as int, end + len);
                    assert(bytes =~= bytes_of(self.inner.calls().last()));
                    assert(self.pending() =~= old(self).pending() + bytes);
                }
                Ok(())
            },
            Err(_) => {
                assert(self.pending() =~= old(self).pending() + bytes_of(self.inner.calls().last()));
                Err(ModemError::Io)
            },
        }
    }

    /// One round of waiting for a line, with `left` of the caller's time to go: takes a pending
    /// line, or else reads once more, for no longer than one poll.
    ///
    /// `None` means that the read went well, whether or not it brought bytes, and that another round
    /// is due. A read that failed, and no other, makes the round fail with `Io`.
    pub fn poll_line(&mut self, left: Duration, operation: &'static str) -> (result: Result<
        Option<Vec<u8>>,
        ModemError,
    >)
        requires
            old(self).wf(),
        ensures
            final(self).wf(),
            final(self).capacity() == old(self).capacity(),
            final(self).shown() == old(self).shown(),
            later_reader(old(self).reader(), final(self).reader()),
            if has_line(old(self).pending()) {
                &&& result matches Ok(Some(line))
                &&& line@ == first_line(old(self).pending())
                &&& final(self).pending() == after_first_line(old(self).pending())
                &&& final(self).reader() == old(self).reader()
            } else if left.nanos == 0 {
                &&& result matches Err(error)
                &&& error@ == ErrorModel::Timeout(operation@)
                &&& final(self).pending() == old(self).pending()
                &&& final(self).reader() == old(self).reader()
            } else if old(self).pending().len() == old(self).capacity() {
                &&& result matches Err(error)
                &&& error@ == ErrorModel::BufferOverflow
                &&& final(self).pending() == old(self).pending()
                &&& final(self).reader() == old(self).reader()
            } else {
                let call = ReadCall {
                    capacity: (old(self).capacity() - old(self).pending().len()) as nat,
                    timeout: shorter(read_poll_span(), left),
                    brought: final(self).reader().calls().last().brought,
                };
                &&& final(self).reader().calls() == old(self).reader().calls().push(call)
                &&& final(self).pending() == old(self).pending() + bytes_of(call)
                &&& match result {
                    Ok(None) => call.brought is Some,
                    Ok(Some(_)) => false,
                    Err(error) => error@ == ErrorModel::Io && call.brought is None,
                }
            },
    {
        proof {
            lemma_no_call(self.reader());
        }
        if let Some(line) = self.take_line() {
            return Ok(Some(line));
        }
        if left.nanos == 0 {
            return Err(ModemError::Timeout(operation));
        }
        self.compact();
        if self.end == self.buffer.len() {
            return Err(ModemError::BufferOverflow);
        }
        match self.fill(read_poll().min(left)) {
            Ok(()) => Ok(None),
            Err(error) => Err(error),
        }
    }

    /// Waits for a line until `deadline`.
    ///
    /// The line is the first one in the bytes that were pending and those that arrived meanwhile;
    /// all that follows it stays pending. A failed call keeps every byte. The clock is read before
    /// each read of the stream, which waits for what is left then, and once more when that decides
    /// the matter: the call times out when the clock shows `deadline` or later with no line there,
    /// or after `u64::MAX` reads. It fails with `Io` exactly if a read failed.
    pub fn read_line(&mut self, deadline: std::time::Instant, operation: &'static str) -> (result:
        Result<Vec<u8>, ModemError>)
        requires
            old(self).wf(),
        ensures
            final(self).wf(),
            final(self).capacity() == old(self).capacity(),
            later_reader(old(self).reader(), final(self).reader()),
            old(self).shown().is_prefix_of(final(self).shown()),
            has_line(old(self).pending()) ==> result is Ok,
            has_line(old(self).pending()) || old(self).pending().len() == old(self).capacity()
                ==> final(self).reader() == old(self).reader(),
            final(self).pending() == left_pending(
                old(self).pending(),
                Taking::Line { arrived: arrived(old(self).reader(), final(self).reader()) },
            ),
            ({
                let calls = calls_between(old(self).reader(), final(self).reader());
                let moments = shown_between(old(self).shown(), final(self).shown());
                let bytes = old(self).pending() + bytes_brought(calls);
                &&& waits_for_line(
                    old(self).pending(),
                    old(self).capacity(),
                    deadline,
                    calls,
                    moments,
                )
                &&& calls.len() <= moments.len() <= calls.len() + 1
                &&& match result {
                    Ok(line) => {
                        &&& has_line(bytes)
                        &&& line@ == first_line(bytes)
                        &&& final(self).pending() == after_first_line(bytes)
                        &&& !ends_in_failure(calls)
                    },
                    Err(error) => {
                        &&& !has_line(bytes)
                        &&& final(self).pending() == bytes
                        &&& match error@ {
                            ErrorModel::Io => ends_in_failure(calls),
                            ErrorModel::BufferOverflow => {
                                &&& !ends_in_failure(calls)
                                &&& bytes.len() == old(self).capacity()
                                &&& moments.len() == calls.len() + 1
                                &&& nanos_until(moments.last(), deadline) > 0
                            },
                            ErrorModel::Timeout(what) => {
                                &&& what == operation@
                                &&& !ends_in_failure(calls)
                                &&& {
                                    ||| moments.len() == calls.len() + 1 && nanos_until(
                                        moments.last(),
                                        deadline,
                                    ) == 0
                                    ||| calls.len() == u64::MAX
                                }
                            },
                            _ => false,
                        }
                    },
                }
            }),
    {
        let mut rounds: u64 = u64::MAX;
        proof {
            lemma_no_call(self.reader());
            assert(shown_between(self.shown(), self.shown()) =~= Seq::<
                std::time::Instant,
            >::empty());
            assert(self.shown().subrange(0, self.shown().len() as int) =~= self.shown());
            assert(self.pending() =~= old(self).pending() + arrived(old(self).inner, self.inner));
        }
        while rounds > 0
            invariant
                self.wf(),
                self.capacity() == old(self).capacity(),
                later_reader(old(self).reader(), self.reader()),
                old(self).shown().is_prefix_of(self.shown()),
                waits_for_line(
                    old(self).pending(),
                    old(self).capacity(),
                    deadline,
                    calls_between(old(self).reader(), self.reader()),
                    shown_between(old(self).shown(), self.shown()),
                ),
                !ends_in_failure(calls_between(old(self).reader(), self.reader())),
                calls_between(old(self).reader(), self.reader()).len() == u64::MAX - rounds,
                shown_between(old(self).shown(), self.shown()).len() == u64::MAX - rounds,
                has_line(old(self).pending()) || old(self).pending().len() == old(self).capacity()
                    ==> self.reader() == old(self).reader(),
                self.pending() == old(self).pending() + arrived(old(self).reader(), self.reader()),
            decreases rounds,
        {
            let ghost before = *self;
            let ghost calls = calls_between(old(self).reader(), self.reader());
            let ghost moments = shown_between(old(self).shown(), self.shown());
            let now = self.clock.now();
            let left = time_left(now, deadline);
            proof {
                lemma_one_more_moment(old(self).shown(), before.shown(), now);
                lemma_later_moments_change_nothing(
                    old(self).pending(),
                    old(self).capacity(),
                    deadline,
                    calls,
                    moments,
                    now,
                );
            }
            let round = self.poll_line(left, operation);
            proof {
                if self.reader() != before.reader() {
                    let call = self.reader().calls().last();
                    lemma_next_call(old(self).reader(), before.reader(), self.reader());
                    lemma_one_more_call(
                        old(self).pending(),
                        old(self).capacity(),
                        deadline,
                        calls,
                        moments.push(now),
                        call,
                    );
                    assert(self.pending() =~= old(self).pending() + arrived(
                        old(self).reader(),
                        self.reader(),
                    ));
                }
            }
            match round {
                Ok(Some(line)) => {
                    return Ok(line);
                },
                Ok(None) => {},
                Err(error) => {
                    return Err(error);
                },
            }
            rounds -= 1;
        }
        match self.take_line() {
            Some(line) => Ok(line),
            None => Err(ModemError::Timeout(operation)),
        }
    }

    /// Takes raw data: pending bytes as far as there are any, or else what one read brings.
    ///
    /// Returns how many bytes stand at the start of `output`. A read whose time ran out brought none
    /// and is no failure; a read that failed, and no other, makes the call fail with `Io`.
    pub fn read_data(&mut self, output: &mut [u8], timeout: Duration) -> (result: Result<
        usize,
        ModemError,
    >)
        requires
            old(self).wf(),
        ensures
            final(self).wf(),
            final(self).capacity() == old(self).capacity(),
            final(self).shown() == old(self).shown(),
            later_reader(old(self).reader(), final(self).reader()),
            final(output)@.len() == old(output)@.len(),
            final(self).pending() == left_pending(
                old(self).pending(),
                Taking::Data {
                    room: old(output)@.len(),
                    arrived: arrived(old(self).reader(), final(self).reader()),
                },
            ),
            result matches Ok(n) ==> final(output)@.take(n as int) == handed_out(
                old(self).pending(),
                Taking::Data {
                    room: old(output)@.len(),
                    arrived: arrived(old(self).reader(), final(self).reader()),
                },
            ),
            if old(self).pending().len() > 0 {
                let len = smaller(old(output)@.len(), old(self).pending().len());
                &&& result matches Ok(n)
                &&& n == len
                &&& final(output)@ == old(self).pending().take(len as int) + old(output)@.skip(
                    len as int,
                )
                &&& final(self).pending() == old(self).pending().skip(len as int)
                &&& final(self).reader() == old(self).reader()
            } else {
                &&& final(self).pending() == old(self).pending()
                &&& final(self).reader().calls() == old(self).reader().calls().push(
                    made_call(final(output)@, timeout, result),
                )
                &&& match result {
                    Ok(n) => n <= old(output)@.len(),
                    Err(error) => error@ == ErrorModel::Io,
                }
            },
    {
        if self.start < self.end {
            let have = self.end - self.start;
            let len = if output.len() < have {
                output.len()
            } else {
                have
            };
            let mut i: usize = 0;
            while i < len
                invariant
                    i <= len <= output@.len(),
                    len <= self.end - self.start,
                    self.wf(),
                    self == old(self),
                    output@.len() == old(output)@.len(),
                    forall|k: int| 0 <= k < i ==> output@[k] == self.buffer@[self.start + k],
                    forall|k: int| i <= k < output@.len() ==> output@[k] == old(output)@[k],
                decreases len - i,
            {
                output[i] = self.buffer[self.start + i];
                i += 1;
            }
            assert(output@ =~= self.pending().take(len as int) + old(output)@.skip(len as int));
            assert(output@.take(len as int) =~= self.pending().take(len as int));
            proof {
                lemma_no_call(self.reader());
            }
            self.consume(len);
            return Ok(len);
        }
        let result = self.inner.read_timeout(output, timeout);
        proof {
            lemma_no_call(old(self).inner);
            lemma_next_call(old(self).inner, old(self).inner, self.inner);
            assert(arrived(old(self).inner, self.inner) =~= bytes_of(self.inner.calls().last()));
        }
        match result {
            Ok(len) => Ok(len),
            Err(_) => Err(ModemError::Io),
        }
    }
}

/// The smaller of two counts.
pub open spec fn smaller(a: nat, b: nat) -> nat {
    if a <= b {
        a
    } else {
        b
    }
}

/// The moments that a clock showed between the time when it had shown `before` and the time when it
/// had shown `after`.
pub open spec fn shown_between(
    before: Seq<std::time::Instant>,
    after: Seq<std::time::Instant>,
) -> Seq<std::time::Instant> {
    after.skip(before.len() as int)
}

/// Whether the call at `k` among `calls` is one that is made at the moment `now` while a line is
/// waited for until `deadline`, with `pending` bytes before the first of them: no line is there yet,
/// the call has all the room that is left of `capacity`, which is some, there is time left, the call
/// waits for that time but for no longer than one poll, and if it fails, none follows it.
pub open spec fn is_made_for_line(
    pending: Seq<u8>,
    capacity: nat,
    deadline: std::time::Instant,
    calls: Seq<ReadCall>,
    k: int,
    now: std::time::Instant,
) -> bool {
    let before = pending + bytes_brought(calls.take(k));
    &&& !has_line(before)
    &&& 0 < calls[k].capacity == capacity - before.len()
    &&& 0 < nanos_until(now, deadline)
    &&& calls[k].timeout.nanos == smaller(READ_POLL_NANOS as nat, nanos_until(now, deadline))
    &&& calls[k].brought is None ==> k == calls.len() - 1
}

/// Whether `calls` are those of a reader while a line is waited for until `deadline`, with `pending`
/// bytes before the first of them, where the clock showed `moments`, one before each call.
pub open spec fn waits_for_line(
    pending: Seq<u8>,
    capacity: nat,
    deadline: std::time::Instant,
    calls: Seq<ReadCall>,
    moments: Seq<std::time::Instant>,
) -> bool {
    forall|k: int|
        0 <= k < calls.len() ==> #[trigger] is_made_for_line(
            pending,
            capacity,
            deadline,
            calls,
            k,
            moments[k],
        )
}

/// One more moment that a clock showed is one more among those it showed since an earlier time.
proof fn lemma_one_more_moment(
    first: Seq<std::time::Instant>,
    second: Seq<std::time::Instant>,
    now: std::time::Instant,
)
    requires
        first.is_prefix_of(second),
    ensures
        first.is_prefix_of(second.push(now)),
        shown_between(first, second.push(now)) == shown_between(first, second).push(now),
{
    assert(second.push(now).subrange(0, first.len() as int) =~= first);
    assert(shown_between(first, second.push(now)) =~= shown_between(first, second).push(now));
}

/// A moment after the last call makes no difference to the calls.
proof fn lemma_later_moments_change_nothing(
    pending: Seq<u8>,
    capacity: nat,
    deadline: std::time::Instant,
    calls: Seq<ReadCall>,
    moments: Seq<std::time::Instant>,
    now: std::time::Instant,
)
    requires
        waits_for_line(pending, capacity, deadline, calls, moments),
        calls.len() <= moments.len(),
    ensures
        waits_for_line(pending, capacity, deadline, calls, moments.push(now)),
{
    assert forall|k: int| 0 <= k < calls.len() implies #[trigger] is_made_for_line(
        pending,
        capacity,
        deadline,
        calls,
        k,
        moments.push(now)[k],
    ) by {
        assert(is_made_for_line(pending, capacity, deadline, calls, k, moments[k]));
    }
}

/// A wait for a line goes on with one more call.
proof fn lemma_one_more_call(
    pending: Seq<u8>,
    capacity: nat,
    deadline: std::time::Instant,
    calls: Seq<ReadCall>,
    moments: Seq<std::time::Instant>,
    call: ReadCall,
)
    requires
        waits_for_line(pending, capacity, deadline, calls, moments),
        moments.len() == calls.len() + 1,
        !ends_in_failure(calls),
        !has_line(pending + bytes_brought(calls)),
        0 < call.capacity == capacity - (pending + bytes_brought(calls)).len(),
        0 < nanos_until(moments.last(), deadline),
        call.timeout.nanos == smaller(
            READ_POLL_NANOS as nat,
            nanos_until(moments.last(), deadline),
        ),
    ensures
        waits_for_line(pending, capacity, deadline, calls.push(call), moments),
{
    let all = calls.push(call);
    assert forall|k: int| 0 <= k < all.len() implies #[trigger] is_made_for_line(
        pending,
        capacity,
        deadline,
        all,
        k,
        moments[k],
    ) by {
        if k < calls.len() {
            assert(is_made_for_line(pending, capacity, deadline, calls, k, moments[k]));
            assert(all.take(k) =~= calls.take(k));
            assert(all[k] == calls[k]);
        } else {
            assert(all.take(k) =~= calls);
        }
    }
}

/// The bytes that end the first line in `bytes`: a line feed, after a carriage return if one stands
/// before it.
pub open spec fn line_ending(bytes: Seq<u8>) -> Seq<u8> {
    let line = bytes.take(line_feed_at(bytes));
    if line.len() > 0 && line.last() == '\r' as u8 {
        seq!['\r' as u8, '\n' as u8]
    } else {
        seq!['\n' as u8]
    }
}

/// Taking a line loses no byte and makes none up: what the line says, the bytes that end it and
/// what stays pending are, in this order, the bytes that were there.
pub proof fn law_line_keeps_every_byte(bytes: Seq<u8>)
    requires
        has_line(bytes),
    ensures
        bytes == first_line(bytes) + line_ending(bytes) + after_first_line(bytes),
        !has_line(first_line(bytes)),
{
    lemma_has_first_line_feed(bytes);
    let at = line_feed_at(bytes);
    assert(bytes =~= first_line(bytes) + line_ending(bytes) + after_first_line(bytes));
    assert forall|k: int| 0 <= k < first_line(bytes).len() implies first_line(bytes)[k]
        != '\n' as u8 by {
        assert(first_line(bytes)[k] == bytes[k]);
    }
}

/// However a stream is cut into reads, its lines are the same: bytes that arrive behind a whole
/// line change neither the line nor the bytes between it and them.
pub proof fn law_fragments_do_not_matter(early: Seq<u8>, late: Seq<u8>)
    requires
        has_line(early),
    ensures
        has_line(early + late),
        first_line(early + late) == first_line(early),
        after_first_line(early + late) == after_first_line(early) + late,
{
    lemma_has_first_line_feed(early);
    let at = line_feed_at(early);
    assert forall|k: int| 0 <= k < at implies (early + late)[k] != '\n' as u8 by {
        assert((early + late)[k] == early[k]);
    }
    assert((early + late)[at] == early[at]);
    lemma_line_feed_at(early + late, at);
    assert((early + late).take(at) =~= early.take(at));
    assert(after_first_line(early + late) =~= after_first_line(early) + late);
}

/// One taking from a transport, with the bytes that arrive meanwhile: a wait for a line, or a
/// request for at most `room` bytes of data.
pub enum Taking {
    Line { arrived: Seq<u8> },
    Data { room: nat, arrived: Seq<u8> },
}

/// The bytes that a taking takes out of the stream, those that end a line included.
pub open spec fn handed_out(pending: Seq<u8>, taking: Taking) -> Seq<u8> {
    match taking {
        Taking::Line { arrived } => if has_line(pending + arrived) {
            first_line(pending + arrived) + line_ending(pending + arrived)
        } else {
            Seq::empty()
        },
        Taking::Data { room, arrived } => if pending.len() > 0 {
            pending.take(smaller(room, pending.len()) as int)
        } else {
            arrived
        },
    }
}

/// The bytes that are pending after a taking.
pub open spec fn left_pending(pending: Seq<u8>, taking: Taking) -> Seq<u8> {
    match taking {
        Taking::Line { arrived } => if has_line(pending + arrived) {
            after_first_line(pending + arrived)
        } else {
            pending + arrived
        },
        Taking::Data { room, .. } => if pending.len() > 0 {
            pending.skip(smaller(room, pending.len()) as int)
        } else {
            pending
        },
    }
}

/// The bytes that arrive during a taking. A transport with bytes pending reads none for data.
pub open spec fn received_meanwhile(pending: Seq<u8>, taking: Taking) -> Seq<u8> {
    match taking {
        Taking::Line { arrived } => arrived,
        Taking::Data { arrived, .. } => if pending.len() > 0 {
            Seq::empty()
        } else {
            arrived
        },
    }
}

/// The bytes that are pending after a row of takings.
pub open spec fn left_after(pending: Seq<u8>, takings: Seq<Taking>) -> Seq<u8>
    decreases takings.len(),
{
    if takings.len() == 0 {
        pending
    } else {
        left_pending(left_after(pending, takings.drop_last()), takings.last())
    }
}

/// The bytes that a row of takings takes out of the stream, in order.
pub open spec fn all_handed_out(pending: Seq<u8>, takings: Seq<Taking>) -> Seq<u8>
    decreases takings.len(),
{
    if takings.len() == 0 {
        Seq::empty()
    } else {
        all_handed_out(pending, takings.drop_last()) + handed_out(
            left_after(pending, takings.drop_last()),
            takings.last(),
        )
    }
}

/// The bytes that arrive during a row of takings, in order.
pub open spec fn all_received(pending: Seq<u8>, takings: Seq<Taking>) -> Seq<u8>
    decreases takings.len(),
{
    if takings.len() == 0 {
        Seq::empty()
    } else {
        all_received(pending, takings.drop_last()) + received_meanwhile(
            left_after(pending, takings.drop_last()),
            takings.last(),
        )
    }
}

/// A taking loses no byte, makes none up and changes no order: what it takes out and what is pending
/// after it are what was pending before it and what arrived meanwhile.
pub proof fn law_a_taking_keeps_every_byte(pending: Seq<u8>, taking: Taking)
    ensures
        handed_out(pending, taking) + left_pending(pending, taking) == pending
            + received_meanwhile(pending, taking),
{
    match taking {
        Taking::Line { arrived } => {
            if has_line(pending + arrived) {
                law_line_keeps_every_byte(pending + arrived);
            } else {
                assert(Seq::<u8>::empty() + (pending + arrived) =~= pending + arrived);
            }
        },
        Taking::Data { .. } => {
            assert(handed_out(pending, taking) + left_pending(pending, taking) =~= pending
                + received_meanwhile(pending, taking));
        },
    }
}

/// However lines and data are taken in turn, the stream stays whole: all the bytes taken out, in
/// order, and then those pending at the end are those pending at first and then all that arrived.
pub proof fn law_takings_keep_the_stream(pending: Seq<u8>, takings: Seq<Taking>)
    ensures
        all_handed_out(pending, takings) + left_after(pending, takings) == pending + all_received(
            pending,
            takings,
        ),
    decreases takings.len(),
{
    if takings.len() == 0 {
        assert(Seq::<u8>::empty() + pending =~= pending + Seq::<u8>::empty());
    } else {
        let earlier = takings.drop_last();
        let between = left_after(pending, earlier);
        law_takings_keep_the_stream(pending, earlier);
        law_a_taking_keeps_every_byte(between, takings.last());
        let out = all_handed_out(pending, earlier);
        let next = handed_out(between, takings.last());
        let left = left_pending(between, takings.last());
        let new = received_meanwhile(between, takings.last());
        assert((out + next) + left =~= out + (next + left));
        assert(out + (between + new) =~= (out + between) + new);
        assert((pending + all_received(pending, earlier)) + new =~= pending + (all_received(
            pending,
            earlier,
        ) + new));
    }
}

/// Lines are taken out of a stream as they were put in: of a content without a line feed, a line end
/// and more bytes, the content is the first line and the bytes are what follows it, be the line end
/// a line feed alone or one behind a carriage return. Just one carriage return belongs to it.
pub proof fn law_lines_come_out_as_they_went_in(content: Seq<u8>, rest: Seq<u8>)
    requires
        !content.contains(10u8),
    ensures
        has_line(content + seq![13u8, 10u8] + rest),
        first_line(content + seq![13u8, 10u8] + rest) == content,
        after_first_line(content + seq![13u8, 10u8] + rest) == rest,
        has_line(content + seq![10u8] + rest),
        !(content.len() > 0 && content.last() == 13u8) ==> first_line(content + seq![10u8] + rest)
            == content,
        after_first_line(content + seq![10u8] + rest) == rest,
        !has_line(content),
{
    let long = content + seq![13u8, 10u8] + rest;
    let end = content.len() + 1;
    assert forall|k: int| 0 <= k < end implies long[k] != '\n' as u8 by {
        if k < content.len() {
            assert(long[k] == content[k]);
        }
    }
    assert(long[end as int] == '\n' as u8);
    lemma_line_feed_at(long, end as int);
    assert(long.take(end as int).last() == 13u8);
    assert(first_line(long) =~= content);
    assert(after_first_line(long) =~= rest);
    let short = content + seq![10u8] + rest;
    let at = content.len() as int;
    assert forall|k: int| 0 <= k < at implies short[k] != '\n' as u8 by {
        assert(short[k] == content[k]);
    }
    assert(short[at] == '\n' as u8);
    lemma_line_feed_at(short, at);
    assert(short.take(at) =~= content);
    assert(after_first_line(short) =~= rest);
}

/// A read whose time ran out is an empty read; any other outcome stays what it is.
pub proof fn law_only_a_timeout_is_an_empty_read(outcome: Result<usize, EspErrorModel>)
    ensures
        outcome matches Ok(len) ==> settled_read(outcome) == Ok::<usize, EspErrorModel>(len),
        outcome matches Err(error) ==> if error.code == 263 {
            settled_read(outcome) == Ok::<usize, EspErrorModel>(0)
        } else {
            settled_read(outcome) == Err::<usize, EspErrorModel>(error)
        },
{
}

/// The outcome of a read is seen as it is.
pub proof fn law_the_outcome_of_a_read_is_seen_as_it_is(outcome: Result<usize, EspError>)
    ensures
        match outcome {
            Ok(len) => read_view(outcome) == Ok::<usize, EspErrorModel>(len),
            Err(error) => read_view(outcome) == Err::<usize, EspErrorModel>(error@),
        },
{
}

/// One poll is a tenth of a second, and the smaller of two counts is one of them and no larger than
/// either.
pub proof fn law_polls_are_short(a: nat, b: nat)
    ensures
        READ_POLL_NANOS == 100_000_000,
        read_poll_span().nanos == 100_000_000,
        smaller(a, b) == a || smaller(a, b) == b,
        smaller(a, b) <= a,
        smaller(a, b) <= b,
{
}

/// Data is taken from the front: what is pending first, as much of it as there is room for, and what
/// arrives only when nothing is. A line is taken with its end.
pub proof fn law_data_is_taken_from_the_front(pending: Seq<u8>, room: nat, arrived: Seq<u8>)
    requires
        pending.len() > 0 || arrived.len() <= room,
    ensures
        ({
            let taking = Taking::Data { room, arrived };
            let out = handed_out(pending, taking);
            let left = left_pending(pending, taking);
            &&& out.len() <= room
            &&& pending.len() > 0 ==> out + left == pending && (out.len() == room || left.len()
                == 0)
            &&& pending.len() == 0 ==> out == arrived && left.len() == 0
        }),
{
    if pending.len() > 0 {
        let len = smaller(room, pending.len()) as int;
        assert(pending.take(len) + pending.skip(len) =~= pending);
    }
}

/// A wait for a line reads the stream only while no line is there and time is left, into all the
/// room that the bytes so far leave, and for no longer than the time left or a tenth of a second;
/// and it reads no more once a read failed.
pub proof fn law_a_wait_reads_only_as_it_must(
    pending: Seq<u8>,
    capacity: nat,
    deadline: std::time::Instant,
    calls: Seq<ReadCall>,
    moments: Seq<std::time::Instant>,
    k: int,
)
    requires
        waits_for_line(pending, capacity, deadline, calls, moments),
        0 <= k < calls.len(),
    ensures
        !(pending + bytes_brought(calls.take(k))).contains(10u8),
        calls[k].capacity + pending.len() + bytes_brought(calls.take(k)).len() == capacity,
        calls[k].capacity > 0,
        nanos_until(moments[k], deadline) > 0,
        calls[k].timeout.nanos <= 100_000_000,
        calls[k].timeout.nanos <= nanos_until(moments[k], deadline),
        calls[k].timeout.nanos == 100_000_000 || calls[k].timeout.nanos == nanos_until(
            moments[k],
            deadline,
        ),
        k < calls.len() - 1 ==> calls[k].brought is Some,
{
    assert(is_made_for_line(pending, capacity, deadline, calls, k, moments[k]));
}

/// What was shown in between is what was shown after what had been shown before.
pub proof fn law_what_is_shown_in_between_comes_after(
    before: Seq<std::time::Instant>,
    moments: Seq<std::time::Instant>,
)
    ensures
        shown_between(before, before + moments) == moments,
{
    assert(shown_between(before, before + moments) =~= moments);
}

} // verus!
