use vstd::prelude::*;

use crate::timer::{elapsed, lemma_sleep_ends_on_time, sleep_after, spec_spin_sleep, Sleep};
use crate::uart::receive::{Read, ReadByte, ReadError, Wait};
use crate::uart::transmit::{spec_outgoing, with_carriage_returns, Write, WriteByte};
use crate::uart::{
    data_ready, MiniUart, Reply, Request, CARRIAGE_RETURN, LINE_FEED, LSR_DATA_READY,
};

verus! {

/// The reply is a line status that shows a byte.
pub open spec fn tells_of_byte(reply: Reply) -> bool {
    reply matches Reply::Status(status) && data_ready(status)
}

/// A wait asks the device for something for as long as it has no outcome.
pub proof fn lemma_wait_asks_until_done(state: Wait)
    ensures
        state.spec_request() is None <==> state.spec_outcome() is Some,
{
}

/// The reading of one byte asks the device for something for as long as it
/// has no outcome.
pub proof fn lemma_read_byte_asks_until_done(state: ReadByte)
    requires
        state.wf(),
    ensures
        state.spec_request() is None <==> state.spec_outcome() is Some,
{
}

/// A read into a buffer asks the device for something for as long as it has
/// no outcome.
pub proof fn lemma_read_asks_until_done(state: Read, capacity: nat)
    requires
        state.wf(capacity),
    ensures
        state.spec_request() is None <==> state.spec_outcome() is Some,
{
}

/// A writing asks the device for something for as long as it has no outcome.
pub proof fn lemma_write_asks_until_done(state: Write, text: bool, bytes: Seq<u8>)
    requires
        state.wf(text, bytes),
    ensures
        state.spec_request() is None <==> state.spec_outcome() is Some,
{
}

impl MiniUart {
    /// Where a wait for a byte stands after the device has answered with
    /// `replies`, in that order.
    pub open spec fn wait_after(self, state: Wait, replies: Seq<Reply>) -> Wait
        decreases replies.len(),
    {
        if replies.len() == 0 {
            state
        } else {
            self.spec_wait_for_byte(self.wait_after(state, replies.drop_last()), replies.last())
        }
    }

    /// After one reply a wait stands where one turn takes it.
    pub proof fn lemma_wait_after_one(self, state: Wait, reply: Reply)
        ensures
            self.wait_after(state, seq![reply]) == self.spec_wait_for_byte(state, reply),
    {
        reveal_with_fuel(MiniUart::wait_after, 2);
    }

    /// A wait that gets the replies `first` and then the replies `second`
    /// stands where the wait that `first` leads to stands after `second`.
    pub proof fn lemma_wait_after_concat(
        self,
        state: Wait,
        first: Seq<Reply>,
        second: Seq<Reply>,
    )
        ensures
            self.wait_after(state, first + second) == self.wait_after(
                self.wait_after(state, first),
                second,
            ),
        decreases second.len(),
    {
        if second.len() > 0 {
            self.lemma_wait_after_concat(state, first, second.drop_last());
            assert((first + second).drop_last() =~= first + second.drop_last());
        }
    }

    /// A wait that has ended stays as it ended, whatever the device says.
    pub proof fn lemma_wait_stays_ended(self, state: Wait, replies: Seq<Reply>)
        requires
            state.spec_request() is None,
        ensures
            self.wait_after(state, replies) == state,
        decreases replies.len(),
    {
        if replies.len() > 0 {
            self.lemma_wait_stays_ended(state, replies.drop_last());
        }
    }

    /// A wait that sleeps follows the sleep: after the timer has been read
    /// several times the wait still sleeps if the sleep goes on, and is about
    /// to look at the line status once more if the sleep is over.
    pub proof fn lemma_wait_sleeps(self, t: u64, sleep: Sleep, readings: Seq<u64>)
        requires
            forall|j: int|
                0 <= j < readings.len() ==> sleep_after(t, sleep, #[trigger] readings.take(j))
                    != Sleep::Done,
            readings.len() == 0 ==> sleep != Sleep::Done,
        ensures
            self.wait_after(
                Wait::Sleeping { timeout: t, sleep },
                readings.map_values(|now: u64| Reply::Time(now)),
            ) == if sleep_after(t, sleep, readings) == Sleep::Done {
                Wait::Recheck
            } else {
                Wait::Sleeping { timeout: t, sleep: sleep_after(t, sleep, readings) }
            },
        decreases readings.len(),
    {
        let replies = readings.map_values(|now: u64| Reply::Time(now));
        if readings.len() > 0 {
            let shorter = readings.drop_last();
            assert forall|j: int| 0 <= j < shorter.len() implies sleep_after(
                t,
                sleep,
                #[trigger] shorter.take(j),
            ) != Sleep::Done by {
                assert(shorter.take(j) =~= readings.take(j));
            }
            assert(readings.take(0) =~= Seq::<u64>::empty());
            self.lemma_wait_sleeps(t, sleep, shorter);
            assert(replies.drop_last() =~= shorter.map_values(|now: u64| Reply::Time(now)));
        }
    }

    /// A byte that the line status shows is read without a wait, whatever
    /// the timeout: the wait ends at once, and the reading of one byte asks
    /// for the byte next and ends with it.
    pub proof fn lemma_ready_byte_is_read_at_once(self, status: u8, byte: u8)
        requires
            data_ready(status),
        ensures
            self.spec_wait_for_byte(Wait::Check, Reply::Status(status)) == Wait::Ready,
            self.spec_read_byte(ReadByte::Waiting(Wait::Check), Reply::Status(status))
                == ReadByte::Fetch,
            self.spec_read_byte(ReadByte::Fetch, Reply::Received(byte)) == ReadByte::Done(byte),
    {
    }

    /// The reading of one byte does not give up: where a wait would time
    /// out, the reading looks at the line status again.
    pub proof fn lemma_read_byte_waits_again(self, status: u8)
        requires
            !data_ready(status),
        ensures
            self.spec_wait_for_byte(Wait::Recheck, Reply::Status(status)) == Wait::TimedOut,
            self.spec_read_byte(ReadByte::Waiting(Wait::Recheck), Reply::Status(status))
                == ReadByte::Waiting(Wait::Check),
    {
    }

    /// With no timeout set a wait never times out: it goes on until a line
    /// status shows a byte, and then it has found one.
    pub proof fn lemma_wait_without_timeout(self, replies: Seq<Reply>)
        requires
            self.read_timeout() is None,
        ensures
            self.wait_after(Wait::Check, replies) == if exists|j: int|
                0 <= j < replies.len() && tells_of_byte(replies[j]) {
                Wait::Ready
            } else {
                Wait::Check
            },
        decreases replies.len(),
    {
        if replies.len() > 0 {
            let shorter = replies.drop_last();
            let last = replies.len() - 1;
            self.lemma_wait_without_timeout(shorter);
            if exists|j: int| 0 <= j < shorter.len() && tells_of_byte(shorter[j]) {
                let j = choose|j: int| 0 <= j < shorter.len() && tells_of_byte(shorter[j]);
                assert(0 <= j < replies.len() && tells_of_byte(replies[j]));
            } else if tells_of_byte(replies[last]) {
                assert(0 <= last < replies.len() && tells_of_byte(replies[last]));
            } else {
                assert forall|j: int| 0 <= j < replies.len() implies !tells_of_byte(replies[j]) by {
                    if j < last {
                        assert(shorter[j] == replies[j]);
                    }
                }
            }
        }
    }

    /// A wait with a timeout finds a byte exactly if the byte has arrived by
    /// the time of the second look at the line status, which comes no earlier
    /// than the timeout after the first. So a byte that arrives within the
    /// timeout is found, and a wait that times out had no byte within the
    /// timeout.
    ///
    /// `arrival` is the time at which the byte arrives; a look at the line
    /// status shows a byte if it comes at that time or later. The wait looks
    /// at `first_look`, sleeps while the timer shows `readings`, and looks
    /// again at `second_look`; the timer runs forward, and the sleep ends
    /// with the last reading.
    pub proof fn lemma_wait_finds_byte_in_time(
        self,
        t: u64,
        arrival: int,
        first_look: int,
        first: u8,
        readings: Seq<u64>,
        second_look: int,
        second: u8,
    )
        requires
            self.read_timeout() == Some(t),
            data_ready(first) <==> arrival <= first_look,
            data_ready(second) <==> arrival <= second_look,
            readings.len() >= 2,
            first_look <= readings[0],
            readings.last() <= second_look,
            forall|j: int|
                1 <= j < readings.len() - 1 ==> readings[0] <= #[trigger] readings[j]
                    < readings[0] + t,
            readings[0] + t <= readings.last(),
        ensures
            ({
                let end = self.wait_after(
                    Wait::Check,
                    seq![Reply::Status(first)] + readings.map_values(|now: u64| Reply::Time(now))
                        + seq![Reply::Status(second)],
                );
                &&& first_look + t <= second_look
                &&& end == if arrival <= second_look {
                    Wait::Ready
                } else {
                    Wait::TimedOut
                }
                &&& arrival <= first_look + t ==> end == Wait::Ready
                &&& end == Wait::TimedOut ==> arrival > first_look + t
            }),
    {
        let looked = seq![Reply::Status(first)];
        let slept = readings.map_values(|now: u64| Reply::Time(now));
        let relooked = seq![Reply::Status(second)];
        let last = readings.len() - 1;
        self.lemma_wait_after_one(Wait::Check, Reply::Status(first));
        self.lemma_wait_after_concat(Wait::Check, looked, slept);
        self.lemma_wait_after_concat(Wait::Check, looked + slept, relooked);
        if data_ready(first) {
            self.lemma_wait_stays_ended(Wait::Ready, slept);
            self.lemma_wait_stays_ended(Wait::Ready, relooked);
        } else {
            assert forall|j: int| 0 <= j < readings.len() implies sleep_after(
                t,
                Sleep::Start,
                #[trigger] readings.take(j),
            ) != Sleep::Done by {
                let part = readings.take(j);
                if j > 0 {
                    lemma_sleep_ends_on_time(t, part);
                    assert forall|k: int| 1 <= k < part.len() implies !elapsed(
                        t,
                        part[0],
                        part[k],
                    ) by {
                        assert(part[k] == readings[k]);
                    }
                }
            }
            lemma_sleep_ends_on_time(t, readings);
            assert(1 <= last < readings.len() && elapsed(t, readings[0], readings[last]));
            self.lemma_wait_sleeps(t, Sleep::Start, readings);
            self.lemma_wait_after_one(Wait::Recheck, Reply::Status(second));
        }
    }
}

/// What a device answers to `request` when its receive FIFO holds `pending`,
/// oldest byte first, and what the FIFO holds after that. `line` gives the
/// bits of the line status that do not tell of the receive FIFO.
pub open spec fn fifo_reply(pending: Seq<u8>, line: u8, request: Request) -> (Reply, Seq<u8>) {
    match request {
        Request::Status => (
            Reply::Status(
                if pending.len() > 0 {
                    line | LSR_DATA_READY
                } else {
                    line & !LSR_DATA_READY
                },
            ),
            pending,
        ),
        Request::Receive => if pending.len() > 0 {
            (Reply::Received(pending[0]), pending.drop_first())
        } else {
            (Reply::Received(0), pending)
        },
        Request::Transmit(_) => (Reply::Transmitted, pending),
        Request::Time => (Reply::Time(0), pending),
    }
}

/// A read and the device that it reads from, at one moment.
pub struct FifoRead {
    /// Where the read stands.
    pub state: Read,
    /// What the buffer holds.
    pub buf: Seq<u8>,
    /// What the receive FIFO holds, oldest byte first.
    pub pending: Seq<u8>,
    /// The requests that the read has made so far, in order.
    pub requests: Seq<Request>,
}

/// The number of bytes that a read takes from a FIFO that holds `pending`
/// bytes when its buffer has room for `room` more.
pub open spec fn taken(pending: nat, room: nat) -> nat {
    if pending < room {
        pending
    } else {
        room
    }
}

/// The number of requests that a read makes to take bytes from a FIFO that
/// holds `pending` bytes when its buffer has room for `room` more: a look at
/// the line status and a fetch for each byte, and one more look if the FIFO
/// runs out first.
pub open spec fn turns_taken(pending: nat, room: nat) -> nat {
    if pending < room {
        2 * pending + 1
    } else {
        2 * room
    }
}

impl MiniUart {
    /// Where a read into a buffer stands, and what the buffer holds, after
    /// the device has answered with `replies`, in that order.
    pub open spec fn read_after(self, state: Read, replies: Seq<Reply>, buf: Seq<u8>) -> (
        Read,
        Seq<u8>,
    )
        decreases replies.len(),
    {
        if replies.len() == 0 {
            (state, buf)
        } else {
            let before = self.read_after(state, replies.drop_last(), buf);
            self.spec_read(before.0, replies.last(), before.1)
        }
    }

    /// A read into a buffer without room fails with `EmptyBuffer` and with
    /// nothing else, whatever the timeout and whatever the device holds: it
    /// begins at its end, so it asks nothing of the device and takes no byte
    /// from it, and it stays there whatever the device says. A read that
    /// stands anywhere else with such a buffer fails in the same way at its
    /// next turn.
    pub proof fn lemma_read_into_empty_buffer(self, state: Read, reply: Reply, replies: Seq<Reply>)
        ensures
            Read::spec_begin(0) == Read::Done(Err(ReadError::EmptyBuffer)),
            Read::spec_begin(0).spec_request() is None,
            self.read_after(Read::spec_begin(0), replies, Seq::empty()) == (
                Read::Done(Err(ReadError::EmptyBuffer)),
                Seq::<u8>::empty(),
            ),
            state.spec_outcome() is None ==> self.spec_read(state, reply, Seq::empty()) == (
                Read::Done(Err(ReadError::EmptyBuffer)),
                Seq::<u8>::empty(),
            ),
        decreases replies.len(),
    {
        if replies.len() > 0 {
            self.lemma_read_into_empty_buffer(state, reply, replies.drop_last());
        }
    }

    /// A read into a buffer with room never fails with `EmptyBuffer`.
    pub proof fn lemma_read_with_room(self, state: Read, reply: Reply, buf: Seq<u8>)
        requires
            buf.len() >= 1,
            state != Read::Done(Err(ReadError::EmptyBuffer)),
        ensures
            Read::spec_begin(buf.len()) == Read::Waiting(Wait::Check),
            self.spec_read(state, reply, buf).0 != Read::Done(Err(ReadError::EmptyBuffer)),
    {
    }

    /// While a read waits for its first byte it goes as the wait goes, and
    /// leaves the buffer as it is: it is ready for the first byte when the
    /// wait has found one, and has failed with `TimedOut` when the wait has
    /// timed out.
    pub proof fn lemma_read_waits_first(self, replies: Seq<Reply>, buf: Seq<u8>)
        requires
            buf.len() >= 1,
            forall|j: int|
                0 <= j < replies.len() ==> self.wait_after(
                    Wait::Check,
                    #[trigger] replies.take(j),
                ).spec_request() is Some,
        ensures
            self.read_after(Read::spec_begin(buf.len()), replies, buf) == (
                match self.wait_after(Wait::Check, replies) {
                    Wait::Ready => Read::First,
                    Wait::TimedOut => Read::Done(Err(ReadError::TimedOut)),
                    wait => Read::Waiting(wait),
                },
                buf,
            ),
        decreases replies.len(),
    {
        if replies.len() > 0 {
            let shorter = replies.drop_last();
            assert forall|j: int| 0 <= j < shorter.len() implies self.wait_after(
                Wait::Check,
                #[trigger] shorter.take(j),
            ).spec_request() is Some by {
                assert(shorter.take(j) =~= replies.take(j));
            }
            self.lemma_read_waits_first(shorter, buf);
        }
    }

    /// Where a read stands after at most `turns` requests to a device whose
    /// receive FIFO holds `run.pending`.
    pub open spec fn read_from_fifo(self, run: FifoRead, line: u8, turns: nat) -> FifoRead
        decreases turns,
    {
        if turns == 0 || run.state.spec_request() is None {
            run
        } else {
            let request = run.state.spec_request()->0;
            let reply = fifo_reply(run.pending, line, request);
            let next = self.spec_read(run.state, reply.0, run.buf);
            self.read_from_fifo(
                FifoRead {
                    state: next.0,
                    buf: next.1,
                    pending: reply.1,
                    requests: run.requests.push(request),
                },
                line,
                (turns - 1) as nat,
            )
        }
    }

    /// A read that has `filled` bytes in its buffer and looks for more takes
    /// what the FIFO holds, as far as the buffer has room, and ends. It makes
    /// one look at the line status and one fetch for each byte, and one more
    /// look if the FIFO runs out first.
    pub proof fn lemma_read_goes_on(self, run: FifoRead, line: u8)
        requires
            run.state matches Read::Probe(filled) && 1 <= filled < run.buf.len(),
            run.buf.len() <= usize::MAX,
        ensures
            ({
                let filled = run.state->Probe_0;
                let room = (run.buf.len() - filled) as nat;
                let count = taken(run.pending.len(), room);
                let end = self.read_from_fifo(run, line, turns_taken(run.pending.len(), room));
                &&& end.state == Read::Done(Ok((filled + count) as usize))
                &&& end.buf == run.buf.take(filled as int) + run.pending.take(count as int)
                    + run.buf.skip(filled + count)
                &&& end.pending == run.pending.skip(count as int)
                &&& end.requests.len() == run.requests.len() + turns_taken(run.pending.len(), room)
                &&& end.requests.take(run.requests.len() as int) == run.requests
                &&& forall|i: int|
                    run.requests.len() <= i < end.requests.len() ==> end.requests[i]
                        != Request::Time
            }),
        decreases run.buf.len() - run.state->Probe_0,
    {
        let filled = run.state->Probe_0;
        let room = (run.buf.len() - filled) as nat;
        let turns = turns_taken(run.pending.len(), room);
        let end = self.read_from_fifo(run, line, turns);
        assert((line | 1u8) & 1u8 == 1u8) by (bit_vector);
        assert((line & !1u8) & 1u8 != 1u8) by (bit_vector);
        let looked = run.requests.push(Request::Status);
        if run.pending.len() == 0 {
            let ended = FifoRead { state: Read::Done(Ok(filled)), requests: looked, ..run };
            assert(end == self.read_from_fifo(ended, line, 0));
        } else {
            let fetching = FifoRead { state: Read::Fetch(filled), requests: looked, ..run };
            assert(end == self.read_from_fifo(fetching, line, (turns - 1) as nat));
            let fetched = FifoRead {
                state: Read::spec_filled((filled + 1) as usize, run.buf.len()),
                buf: run.buf.update(filled as int, run.pending[0]),
                pending: run.pending.drop_first(),
                requests: looked.push(Request::Receive),
            };
            assert(end == self.read_from_fifo(fetched, line, (turns - 2) as nat));
            if filled + 1 < run.buf.len() {
                self.lemma_read_goes_on(fetched, line);
                let made = end.requests.take(fetched.requests.len() as int);
                assert forall|i: int|
                    run.requests.len() <= i < end.requests.len() implies end.requests[i]
                    != Request::Time by {
                    if i < fetched.requests.len() {
                        assert(end.requests[i] == made[i]);
                    }
                }
            }
        }
    }

    /// A read into a buffer with room for `C` bytes, from a device that has
    /// `N` bytes pending, at least one, puts the first `min(N, C)` of them
    /// into the buffer, leaves the others in the FIFO, and ends with that
    /// number. It does so without a sleep: it never asks for the timer, and
    /// makes two requests for each byte, and one more if the FIFO runs out
    /// before the buffer is full.
    pub proof fn lemma_read_takes_pending_bytes(self, buf: Seq<u8>, pending: Seq<u8>, line: u8)
        requires
            1 <= buf.len() <= usize::MAX,
            1 <= pending.len(),
        ensures
            ({
                let count = taken(pending.len(), buf.len());
                let end = self.read_from_fifo(
                    FifoRead {
                        state: Read::spec_begin(buf.len()),
                        buf,
                        pending,
                        requests: Seq::empty(),
                    },
                    line,
                    turns_taken(pending.len(), buf.len()),
                );
                &&& end.state == Read::Done(Ok(count as usize))
                &&& end.buf == pending.take(count as int) + buf.skip(count as int)
                &&& end.pending == pending.skip(count as int)
                &&& end.requests.len() == turns_taken(pending.len(), buf.len())
                &&& forall|i: int|
                    0 <= i < end.requests.len() ==> end.requests[i] != Request::Time
            }),
    {
        let turns = turns_taken(pending.len(), buf.len());
        let run = FifoRead {
            state: Read::Waiting(Wait::Check),
            buf,
            pending,
            requests: Seq::empty(),
        };
        let end = self.read_from_fifo(run, line, turns);
        assert((line | 1u8) & 1u8 == 1u8) by (bit_vector);
        let looked = FifoRead { state: Read::First, requests: seq![Request::Status], ..run };
        assert(run.requests.push(Request::Status) =~= looked.requests);
        assert(end == self.read_from_fifo(looked, line, (turns - 1) as nat));
        let fetched = FifoRead {
            state: Read::spec_filled(1, buf.len()),
            buf: buf.update(0, pending[0]),
            pending: pending.drop_first(),
            requests: seq![Request::Status, Request::Receive],
        };
        assert(looked.requests.push(Request::Receive) =~= fetched.requests);
        assert(end == self.read_from_fifo(fetched, line, (turns - 2) as nat));
        if 1 < buf.len() {
            self.lemma_read_goes_on(fetched, line);
        }
    }
}

/// The bytes that go out for `bytes`: for a text the bytes with a carriage
/// return before every line feed, else the bytes as they are.
pub open spec fn outgoing(text: bool, bytes: Seq<u8>) -> Seq<u8> {
    if text {
        with_carriage_returns(bytes)
    } else {
        bytes
    }
}

/// The byte that goes out in a turn of a writing: the byte that the writing
/// asked to have written, once the device says that it was.
pub open spec fn sent_in_turn(state: Write, reply: Reply) -> Seq<u8> {
    match (state, reply) {
        (Write::Byte { byte: WriteByte::Sending(byte), .. }, Reply::Transmitted) => seq![byte],
        _ => Seq::empty(),
    }
}

/// The bytes that have gone out when a writing of `bytes` stands at `state`.
pub open spec fn sent_before(text: bool, bytes: Seq<u8>, state: Write) -> Seq<u8> {
    match state {
        Write::Byte { index, returned, .. } => if returned {
            outgoing(text, bytes.take(index as int)).push(CARRIAGE_RETURN)
        } else {
            outgoing(text, bytes.take(index as int))
        },
        Write::Done(_) => outgoing(text, bytes),
    }
}

impl MiniUart {
    /// Where a writing of `bytes` stands after the device has answered with
    /// `replies`, in that order, and the bytes that have gone out by then.
    pub open spec fn transmit_after(
        text: bool,
        state: Write,
        replies: Seq<Reply>,
        bytes: Seq<u8>,
    ) -> (Write, Seq<u8>)
        decreases replies.len(),
    {
        if replies.len() == 0 {
            (state, Seq::empty())
        } else {
            let before = Self::transmit_after(text, state, replies.drop_last(), bytes);
            (
                Self::spec_transmit(text, before.0, replies.last(), bytes),
                before.1 + sent_in_turn(before.0, replies.last()),
            )
        }
    }

    /// One turn of a writing sends the byte that is due and no other: what
    /// has gone out after the turn is what the state after the turn stands
    /// for.
    pub proof fn lemma_transmit_turn(text: bool, state: Write, reply: Reply, bytes: Seq<u8>)
        requires
            bytes.len() <= usize::MAX,
            state.wf(text, bytes),
        ensures
            Self::spec_transmit(text, state, reply, bytes).wf(text, bytes),
            sent_before(text, bytes, Self::spec_transmit(text, state, reply, bytes)) == sent_before(
                text,
                bytes,
                state,
            ) + sent_in_turn(state, reply),
    {
        match state {
            Write::Byte { index, byte, .. } => {
                if Self::spec_write_byte(byte, reply) == WriteByte::Done {
                    assert(bytes.take(index + 1).drop_last() =~= bytes.take(index as int));
                }
            },
            Write::Done(_) => {},
        }
    }

    /// A writing sends the bytes that it was given, in their order and each
    /// once; a text goes out with a carriage return before every line feed.
    /// However far the writing has come, what has gone out is the part up to
    /// the byte that it stands at; once it has ended, all has gone out, and
    /// its outcome is the number of bytes that it was given.
    pub proof fn lemma_write_sends_in_order(text: bool, bytes: Seq<u8>, replies: Seq<Reply>)
        requires
            bytes.len() <= usize::MAX,
        ensures
            Self::transmit_after(text, Write::spec_at(text, bytes, 0, false), replies, bytes).0.wf(
                text,
                bytes,
            ),
            Self::transmit_after(text, Write::spec_at(text, bytes, 0, false), replies, bytes).1
                == sent_before(
                text,
                bytes,
                Self::transmit_after(text, Write::spec_at(text, bytes, 0, false), replies, bytes).0,
            ),
            Self::transmit_after(
                text,
                Write::spec_at(text, bytes, 0, false),
                replies,
                bytes,
            ).0.spec_outcome() matches Some(written) ==> written == bytes.len()
                && Self::transmit_after(
                text,
                Write::spec_at(text, bytes, 0, false),
                replies,
                bytes,
            ).1 == outgoing(text, bytes),
        decreases replies.len(),
    {
        if replies.len() > 0 {
            let start = Write::spec_at(text, bytes, 0, false);
            let before = Self::transmit_after(text, start, replies.drop_last(), bytes);
            Self::lemma_write_sends_in_order(text, bytes, replies.drop_last());
            Self::lemma_transmit_turn(text, before.0, replies.last(), bytes);
        }
    }
}

/// In what goes out for a text a carriage return stands before every line
/// feed.
pub proof fn lemma_carriage_return_before_line_feed(bytes: Seq<u8>, at: int)
    requires
        0 <= at < with_carriage_returns(bytes).len(),
        with_carriage_returns(bytes)[at] == LINE_FEED,
    ensures
        at >= 1,
        with_carriage_returns(bytes)[at - 1] == CARRIAGE_RETURN,
    decreases bytes.len(),
{
    if bytes.len() > 0 && at < with_carriage_returns(bytes.drop_last()).len() {
        lemma_carriage_return_before_line_feed(bytes.drop_last(), at);
    }
}

/// A text can be written in parts: what goes out for a text of two parts is
/// what goes out for the first part, then what goes out for the second.
pub proof fn lemma_carriage_returns_by_parts(first: Seq<u8>, second: Seq<u8>)
    ensures
        with_carriage_returns(first + second) == with_carriage_returns(first)
            + with_carriage_returns(second),
    decreases second.len(),
{
    if second.len() > 0 {
        lemma_carriage_returns_by_parts(first, second.drop_last());
        assert((first + second).drop_last() =~= first + second.drop_last());
    }
}

} // verus!
