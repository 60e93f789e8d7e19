use vstd::prelude::*;

use crate::timer::{spec_spin_sleep, spin_sleep, Sleep};
use crate::uart::{data_ready, shows_byte, MiniUart, Reply, Request};

verus! {

/// How far a wait for a byte has come.
#[derive(Clone, Copy, Debug, PartialEq, Eq)]
pub enum Wait {
    /// The line status is to be looked at.
    Check,
    /// No byte was there, and the wait sleeps.
    Sleeping {
        /// The time to sleep for, in microseconds.
        timeout: u64,
        /// How far the sleep has come.
        sleep: Sleep,
    },
    /// The sleep is over, and the line status is to be looked at once more.
    Recheck,
    /// A byte can be read.
    Ready,
    /// The sleep is over and still no byte can be read.
    TimedOut,
}

impl Wait {
    /// What the wait needs from the device next; nothing once it has ended.
    pub open spec fn spec_request(self) -> Option<Request> {
        match self {
            Wait::Check => Some(Request::Status),
            Wait::Sleeping { .. } => Some(Request::Time),
            Wait::Recheck => Some(Request::Status),
            Wait::Ready => None,
            Wait::TimedOut => None,
        }
    }

    /// How the wait ended: `Ok` if a byte can be read, `Err` if the timeout
    /// expired first; nothing while it goes on.
    pub open spec fn spec_outcome(self) -> Option<Result<(), ()>> {
        match self {
            Wait::Ready => Some(Ok(())),
            Wait::TimedOut => Some(Err(())),
            _ => None,
        }
    }

    /// What the wait needs from the device next; nothing once it has ended.
    #[verifier::when_used_as_spec(spec_request)]
    pub fn request(self) -> (request: Option<Request>)
        ensures
            request == self.spec_request(),
    {
        match self {
            Wait::Check => Some(Request::Status),
            Wait::Sleeping { .. } => Some(Request::Time),
            Wait::Recheck => Some(Request::Status),
            Wait::Ready => None,
            Wait::TimedOut => None,
        }
    }

    /// How the wait ended: `Ok` if a byte can be read, `Err` if the timeout
    /// expired first; nothing while it goes on.
    #[verifier::when_used_as_spec(spec_outcome)]
    pub fn outcome(self) -> (outcome: Option<Result<(), ()>>)
        ensures
            outcome == self.spec_outcome(),
    {
        match self {
            Wait::Ready => Some(Ok(())),
            Wait::TimedOut => Some(Err(())),
            _ => None,
        }
    }
}

/// How far the reading of one byte has come.
#[derive(Clone, Copy, Debug, PartialEq, Eq)]
pub enum ReadByte {
    /// A byte is waited for.
    Waiting(Wait),
    /// A byte is there, and is to be taken from the data register.
    Fetch,
    /// This byte was read.
    Done(u8),
}

impl ReadByte {
    /// What the reading needs from the device next; nothing once it has ended.
    pub open spec fn spec_request(self) -> Option<Request> {
        match self {
            ReadByte::Waiting(wait) => wait.spec_request(),
            ReadByte::Fetch => Some(Request::Receive),
            ReadByte::Done(_) => None,
        }
    }

    /// The byte that was read; nothing while the reading goes on.
    pub open spec fn spec_outcome(self) -> Option<u8> {
        match self {
            ReadByte::Done(byte) => Some(byte),
            _ => None,
        }
    }

    /// A reading that waits is in a wait that goes on.
    pub open spec fn wf(self) -> bool {
        self matches ReadByte::Waiting(wait) ==> wait.spec_request() is Some
    }

    /// What the reading needs from the device next; nothing once it has ended.
    #[verifier::when_used_as_spec(spec_request)]
    pub fn request(self) -> (request: Option<Request>)
        ensures
            request == self.spec_request(),
    {
        match self {
            ReadByte::Waiting(wait) => wait.request(),
            ReadByte::Fetch => Some(Request::Receive),
            ReadByte::Done(_) => None,
        }
    }

    /// The byte that was read; nothing while the reading goes on.
    #[verifier::when_used_as_spec(spec_outcome)]
    pub fn outcome(self) -> (outcome: Option<u8>)
        ensures
            outcome == self.spec_outcome(),
    {
        match self {
            ReadByte::Done(byte) => Some(byte),
            _ => None,
        }
    }
}

/// Why a read into a buffer failed.
#[derive(Clone, Copy, Debug, PartialEq, Eq)]
pub enum ReadError {
    /// No byte came within the read timeout.
    TimedOut,
    /// The buffer has no room for a byte.
    EmptyBuffer,
}

/// How far a read into a buffer has come.
#[derive(Clone, Copy, Debug, PartialEq, Eq)]
pub enum Read {
    /// The first byte is waited for.
    Waiting(Wait),
    /// The first byte is there, and is to be taken from the data register.
    First,
    /// This many bytes are in the buffer, and the line status is to be looked
    /// at for one more.
    Probe(usize),
    /// This many bytes are in the buffer, and one more is to be taken from
    /// the data register.
    Fetch(usize),
    /// The read has ended: with the number of bytes in the buffer, or with
    /// the reason for which it failed.
    Done(Result<usize, ReadError>),
}

impl Read {
    /// What the read needs from the device next; nothing once it has ended.
    pub open spec fn spec_request(self) -> Option<Request> {
        match self {
            Read::Waiting(wait) => wait.spec_request(),
            Read::First => Some(Request::Receive),
            Read::Probe(_) => Some(Request::Status),
            Read::Fetch(_) => Some(Request::Receive),
            Read::Done(_) => None,
        }
    }

    /// How the read ended; nothing while it goes on.
    pub open spec fn spec_outcome(self) -> Option<Result<usize, ReadError>> {
        match self {
            Read::Done(outcome) => Some(outcome),
            _ => None,
        }
    }

    /// Where a read into a buffer of `capacity` bytes begins: with the wait
    /// for the first byte, or, if the buffer has no room at all, at its end,
    /// failed.
    pub open spec fn spec_begin(capacity: nat) -> Read {
        if capacity == 0 {
            Read::Done(Err(ReadError::EmptyBuffer))
        } else {
            Read::Waiting(Wait::Check)
        }
    }

    /// The state of a read into a buffer of `capacity` bytes that began with
    /// `begin` can look like this: a read into a buffer without room has
    /// failed for that reason and for no other; in any other read a wait goes
    /// on, or the buffer has room for one byte more than are counted, or the
    /// read has ended.
    pub open spec fn wf(self, capacity: nat) -> bool {
        match self {
            Read::Waiting(wait) => capacity >= 1 && wait.spec_request() is Some,
            Read::First => capacity >= 1,
            Read::Probe(filled) => 1 <= filled < capacity,
            Read::Fetch(filled) => 1 <= filled < capacity,
            Read::Done(Ok(filled)) => 1 <= filled <= capacity,
            Read::Done(Err(ReadError::TimedOut)) => capacity >= 1,
            Read::Done(Err(ReadError::EmptyBuffer)) => capacity == 0,
        }
    }

    /// Where a read stands once `filled` bytes are in a buffer of `capacity`
    /// bytes: it looks for one more, or it has ended because the buffer is
    /// full.
    pub open spec fn spec_filled(filled: usize, capacity: nat) -> Read {
        if filled < capacity {
            Read::Probe(filled)
        } else {
            Read::Done(Ok(filled))
        }
    }

    /// Begins a read into `buf`. A read into a buffer without room fails at
    /// once with `EmptyBuffer`: it asks nothing of the device.
    pub fn begin(buf: &[u8]) -> (state: Read)
        ensures
            state == Read::spec_begin(buf@.len()),
            state.wf(buf@.len()),
    {
        if buf.len() == 0 {
            Read::Done(Err(ReadError::EmptyBuffer))
        } else {
            Read::Waiting(Wait::Check)
        }
    }

    /// What the read needs from the device next; nothing once it has ended.
    #[verifier::when_used_as_spec(spec_request)]
    pub fn request(self) -> (request: Option<Request>)
        ensures
            request == self.spec_request(),
    {
        match self {
            Read::Waiting(wait) => wait.request(),
            Read::First => Some(Request::Receive),
            Read::Probe(_) => Some(Request::Status),
            Read::Fetch(_) => Some(Request::Receive),
            Read::Done(_) => None,
        }
    }

    /// How the read ended; nothing while it goes on.
    #[verifier::when_used_as_spec(spec_outcome)]
    pub fn outcome(self) -> (outcome: Option<Result<usize, ReadError>>)
        ensures
            outcome == self.spec_outcome(),
    {
        match self {
            Read::Done(outcome) => Some(outcome),
            _ => None,
        }
    }

    fn filled(filled: usize, capacity: usize) -> (next: Read)
        ensures
            next == Read::spec_filled(filled, capacity as nat),
    {
        if filled < capacity {
            Read::Probe(filled)
        } else {
            Read::Done(Ok(filled))
        }
    }
}

impl MiniUart {
    /// Where a wait for a byte stands after the device has answered with
    /// `reply`.
    ///
    /// With no timeout set the line status is asked for until it shows a byte.
    /// With a timeout set the line status is asked for once; if it shows no
    /// byte the wait sleeps for the timeout and asks once more, and that
    /// answer decides. A reply that does not answer the request is passed
    /// over.
    pub open spec fn spec_wait_for_byte(self, state: Wait, reply: Reply) -> Wait {
        match (state, reply) {
            (Wait::Check, Reply::Status(status)) => if data_ready(status) {
                Wait::Ready
            } else {
                match self.read_timeout() {
                    Some(timeout) => Wait::Sleeping { timeout, sleep: Sleep::Start },
                    None => Wait::Check,
                }
            },
            (Wait::Sleeping { timeout, sleep }, Reply::Time(now)) => if spec_spin_sleep(
                timeout,
                sleep,
                now,
            ) == Sleep::Done {
                Wait::Recheck
            } else {
                Wait::Sleeping { timeout, sleep: spec_spin_sleep(timeout, sleep, now) }
            },
            (Wait::Recheck, Reply::Status(status)) => if data_ready(status) {
                Wait::Ready
            } else {
                Wait::TimedOut
            },
            _ => state,
        }
    }

    /// One turn of a wait for a byte: takes where the wait stands and what the
    /// device answered to its request, and returns where the wait stands then.
    ///
    /// A wait begins at `Wait::Check`. The caller carries out the request of
    /// the state and calls this again, until the state has an outcome.
    pub fn wait_for_byte(&self, state: Wait, reply: Reply) -> (next: Wait)
        ensures
            next == self.spec_wait_for_byte(state, reply),
    {
        match (state, reply) {
            (Wait::Check, Reply::Status(status)) => {
                if shows_byte(status) {
                    Wait::Ready
                } else {
                    match self.timeout {
                        Some(timeout) => Wait::Sleeping { timeout, sleep: Sleep::Start },
                        None => Wait::Check,
                    }
                }
            },
            (Wait::Sleeping { timeout, sleep }, Reply::Time(now)) => {
                match spin_sleep(timeout, sleep, now) {
                    Sleep::Done => Wait::Recheck,
                    sleep => Wait::Sleeping { timeout, sleep },
                }
            },
            (Wait::Recheck, Reply::Status(status)) => {
                if shows_byte(status) {
                    Wait::Ready
                } else {
                    Wait::TimedOut
                }
            },
            _ => state,
        }
    }

    /// Where the reading of one byte stands after the device has answered
    /// with `reply`.
    ///
    /// A byte is waited for, as often as it takes: a wait that timed out is
    /// begun again. Once a wait has found a byte, the byte is taken from the
    /// data register. A reply that does not answer the request is passed
    /// over.
    pub open spec fn spec_read_byte(self, state: ReadByte, reply: Reply) -> ReadByte {
        match state {
            ReadByte::Waiting(wait) => match self.spec_wait_for_byte(wait, reply) {
                Wait::Ready => ReadByte::Fetch,
                Wait::TimedOut => ReadByte::Waiting(Wait::Check),
                next => ReadByte::Waiting(next),
            },
            ReadByte::Fetch => match reply {
                Reply::Received(byte) => ReadByte::Done(byte),
                _ => ReadByte::Fetch,
            },
            ReadByte::Done(byte) => ReadByte::Done(byte),
        }
    }

    /// One turn of the reading of one byte: takes where the reading stands
    /// and what the device answered to its request, and returns where the
    /// reading stands then.
    ///
    /// A reading begins at `ReadByte::Waiting(Wait::Check)`. The caller
    /// carries out the request of the state and calls this again, until the
    /// state has an outcome.
    pub fn read_byte(&mut self, state: ReadByte, reply: Reply) -> (next: ReadByte)
        ensures
            *final(self) == *old(self),
            next == old(self).spec_read_byte(state, reply),
            state.wf() ==> next.wf(),
    {
        match state {
            ReadByte::Waiting(wait) => match self.wait_for_byte(wait, reply) {
                Wait::Ready => ReadByte::Fetch,
                Wait::TimedOut => ReadByte::Waiting(Wait::Check),
                next => ReadByte::Waiting(next),
            },
            ReadByte::Fetch => match reply {
                Reply::Received(byte) => ReadByte::Done(byte),
                _ => ReadByte::Fetch,
            },
            ReadByte::Done(byte) => ReadByte::Done(byte),
        }
    }

    /// Where a read into a buffer stands, and what the buffer holds, after
    /// the device has answered with `reply`; `buf` is what the buffer held
    /// before.
    ///
    /// A read into a buffer without room fails with `EmptyBuffer`, wherever
    /// it stands and whatever the device says. In any other read the first
    /// byte is waited for once; if the wait times out the read fails with
    /// `TimedOut`. The first byte is then taken from the data register into
    /// the buffer. After that, for as long as the buffer has room, the line
    /// status is looked at, and either it shows a byte, which is taken from
    /// the data register into the buffer, or the read ends. A read that has
    /// ended stays as it ended, and a reply that does not answer the request
    /// is passed over.
    pub open spec fn spec_read(self, state: Read, reply: Reply, buf: Seq<u8>) -> (Read, Seq<u8>) {
        if state is Done {
            (state, buf)
        } else if buf.len() == 0 {
            (Read::Done(Err(ReadError::EmptyBuffer)), buf)
        } else {
            match state {
                Read::Waiting(wait) => match self.spec_wait_for_byte(wait, reply) {
                    Wait::Ready => (Read::First, buf),
                    Wait::TimedOut => (Read::Done(Err(ReadError::TimedOut)), buf),
                    next => (Read::Waiting(next), buf),
                },
                Read::First => match reply {
                    Reply::Received(byte) => (Read::spec_filled(1, buf.len()), buf.update(0, byte)),
                    _ => (state, buf),
                },
                Read::Probe(filled) => match reply {
                    Reply::Status(status) => if data_ready(status) && filled < buf.len() {
                        (Read::Fetch(filled), buf)
                    } else {
                        (Read::Done(Ok(filled)), buf)
                    },
                    _ => (state, buf),
                },
                Read::Fetch(filled) => match reply {
                    Reply::Received(byte) => if filled < buf.len() {
                        (
                            Read::spec_filled((filled + 1) as usize, buf.len()),
                            buf.update(filled as int, byte),
                        )
                    } else {
                        (Read::Done(Ok(filled)), buf)
                    },
                    _ => (state, buf),
                },
                Read::Done(_) => (state, buf),
            }
        }
    }

    /// One turn of a read into `buf`: takes where the read stands and what
    /// the device answered to its request, puts a byte that was received into
    /// `buf`, and returns where the read stands then.
    ///
    /// A read begins at `Read::begin(buf)`. The caller carries out the
    /// request of the state and calls this again with the same buffer, until
    /// the state has an outcome.
    pub fn read(&mut self, state: Read, reply: Reply, buf: &mut [u8]) -> (next: Read)
        ensures
            *final(self) == *old(self),
            (next, final(buf)@) == old(self).spec_read(state, reply, old(buf)@),
            state.wf(old(buf)@.len()) ==> next.wf(final(buf)@.len()),
    {
        let capacity: usize = buf.len();
        if capacity == 0 {
            return match state {
                Read::Done(outcome) => Read::Done(outcome),
                _ => Read::Done(Err(ReadError::EmptyBuffer)),
            };
        }
        match state {
            Read::Waiting(wait) => match self.wait_for_byte(wait, reply) {
                Wait::Ready => Read::First,
                Wait::TimedOut => Read::Done(Err(ReadError::TimedOut)),
                next => Read::Waiting(next),
            },
            Read::First => match reply {
                Reply::Received(byte) => {
                    buf[0] = byte;
                    Read::filled(1, capacity)
                },
                _ => state,
            },
            Read::Probe(filled) => match reply {
                Reply::Status(status) => {
                    if shows_byte(status) && filled < capacity {
                        Read::Fetch(filled)
                    } else {
                        Read::Done(Ok(filled))
                    }
                },
                _ => state,
            },
            Read::Fetch(filled) => match reply {
                Reply::Received(byte) => {
                    if filled < capacity {
                        buf[filled] = byte;
                        Read::filled(filled + 1, capacity)
                    } else {
                        Read::Done(Ok(filled))
                    }
                },
                _ => state,
            },
            Read::Done(outcome) => Read::Done(outcome),
        }
    }
}

} // verus!
