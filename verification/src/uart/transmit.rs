use vstd::prelude::*;
use vstd::string::StringSliceAdditionalSpecFns;

use crate::uart::{shows_room, tx_available, MiniUart, Reply, Request, CARRIAGE_RETURN, LINE_FEED};

verus! {

/// How far the writing of one byte has come.
#[derive(Clone, Copy, Debug, PartialEq, Eq)]
pub enum WriteByte {
    /// The line status is to be looked at, for room for this byte.
    Waiting(u8),
    /// There is room, and this byte is to be written to the data register.
    Sending(u8),
    /// The byte was written.
    Done,
}

impl WriteByte {
    /// What the writing needs from the device next; nothing once it has
    /// ended.
    pub open spec fn spec_request(self) -> Option<Request> {
        match self {
            WriteByte::Waiting(_) => Some(Request::Status),
            WriteByte::Sending(byte) => Some(Request::Transmit(byte)),
            WriteByte::Done => None,
        }
    }

    /// What the writing needs from the device next; nothing once it has
    /// ended.
    #[verifier::when_used_as_spec(spec_request)]
    pub fn request(self) -> (request: Option<Request>)
        ensures
            request == self.spec_request(),
    {
        match self {
            WriteByte::Waiting(_) => Some(Request::Status),
            WriteByte::Sending(byte) => Some(Request::Transmit(byte)),
            WriteByte::Done => None,
        }
    }
}

/// The byte that goes out next for the byte at `index` of `bytes`: in a text
/// a line feed that has not had its carriage return yet gives the carriage
/// return, every other byte gives itself.
pub open spec fn spec_outgoing(text: bool, bytes: Seq<u8>, index: int, returned: bool) -> u8 {
    if text && bytes[index] == LINE_FEED && !returned {
        CARRIAGE_RETURN
    } else {
        bytes[index]
    }
}

/// The bytes that go out for a text: the bytes of the text, with a carriage
/// return put before every line feed.
pub open spec fn with_carriage_returns(bytes: Seq<u8>) -> Seq<u8>
    decreases bytes.len(),
{
    if bytes.len() == 0 {
        Seq::empty()
    } else if bytes.last() == LINE_FEED {
        with_carriage_returns(bytes.drop_last()).push(CARRIAGE_RETURN).push(LINE_FEED)
    } else {
        with_carriage_returns(bytes.drop_last()).push(bytes.last())
    }
}

/// How far the writing of a buffer or of a text has come.
#[derive(Clone, Copy, Debug, PartialEq, Eq)]
pub enum Write {
    /// One byte is being written.
    Byte {
        /// The index of the byte in the buffer or in the text.
        index: usize,
        /// The carriage return that goes before the byte has been written.
        returned: bool,
        /// How far the writing of the byte has come.
        byte: WriteByte,
    },
    /// All was written, this many bytes of the buffer or of the text.
    Done(usize),
}

impl Write {
    /// What the writing needs from the device next; nothing once it has
    /// ended.
    pub open spec fn spec_request(self) -> Option<Request> {
        match self {
            Write::Byte { byte, .. } => byte.spec_request(),
            Write::Done(_) => None,
        }
    }

    /// The number of bytes of the buffer or of the text that were written;
    /// nothing while the writing goes on.
    pub open spec fn spec_outcome(self) -> Option<usize> {
        match self {
            Write::Done(written) => Some(written),
            _ => None,
        }
    }

    /// Where the writing of `bytes` stands when the byte at `index` is the
    /// next to go out: at that byte, or at its end if there is no such byte.
    pub open spec fn spec_at(text: bool, bytes: Seq<u8>, index: usize, returned: bool) -> Write {
        if index < bytes.len() {
            Write::Byte {
                index,
                returned,
                byte: WriteByte::Waiting(spec_outgoing(text, bytes, index as int, returned)),
            }
        } else {
            Write::Done(bytes.len() as usize)
        }
    }

    /// The state of a writing of `bytes` that began with `begin` or,
    /// for a text, with `begin_str`, can look like this: the byte that is
    /// being written is the one that goes out for its index.
    pub open spec fn wf(self, text: bool, bytes: Seq<u8>) -> bool {
        match self {
            Write::Byte { index, returned, byte } => {
                &&& index < bytes.len()
                &&& returned ==> text && bytes[index as int] == LINE_FEED
                &&& byte == WriteByte::Waiting(spec_outgoing(text, bytes, index as int, returned))
                    || byte == WriteByte::Sending(
                    spec_outgoing(text, bytes, index as int, returned),
                )
            },
            Write::Done(written) => written == bytes.len(),
        }
    }

    /// Begins the writing of the bytes of `buf`.
    pub fn begin(buf: &[u8]) -> (state: Write)
        ensures
            state == Write::spec_at(false, buf@, 0, false),
            state.wf(false, buf@),
    {
        Self::at(false, buf, 0, false)
    }

    /// Begins the writing of the text `s`.
    pub fn begin_str(s: &str) -> (state: Write)
        ensures
            state == Write::spec_at(true, s.spec_bytes(), 0, false),
            state.wf(true, s.spec_bytes()),
    {
        Self::at(true, s.as_bytes(), 0, false)
    }

    /// What the writing needs from the device next; nothing once it has
    /// ended.
    #[verifier::when_used_as_spec(spec_request)]
    pub fn request(self) -> (request: Option<Request>)
        ensures
            request == self.spec_request(),
    {
        match self {
            Write::Byte { byte, .. } => byte.request(),
            Write::Done(_) => None,
        }
    }

    /// The number of bytes of the buffer or of the text that were written;
    /// nothing while the writing goes on.
    #[verifier::when_used_as_spec(spec_outcome)]
    pub fn outcome(self) -> (outcome: Option<usize>)
        ensures
            outcome == self.spec_outcome(),
    {
        match self {
            Write::Done(written) => Some(written),
            _ => None,
        }
    }

    fn at(text: bool, bytes: &[u8], index: usize, returned: bool) -> (state: Write)
        ensures
            state == Write::spec_at(text, bytes@, index, returned),
            (returned ==> index < bytes@.len() && text && bytes@[index as int] == LINE_FEED)
                ==> state.wf(text, bytes@),
    {
        if index < bytes.len() {
            let byte: u8 = bytes[index];
            if text && byte == LINE_FEED && !returned {
                Write::Byte { index, returned, byte: WriteByte::Waiting(CARRIAGE_RETURN) }
            } else {
                Write::Byte { index, returned, byte: WriteByte::Waiting(byte) }
            }
        } else {
            Write::Done(bytes.len())
        }
    }
}

impl MiniUart {
    /// Where the writing of one byte stands after the device has answered
    /// with `reply`.
    ///
    /// The line status is asked for until it shows room in the transmit FIFO;
    /// then the byte is written to the data register. A reply that does not
    /// answer the request is passed over.
    pub open spec fn spec_write_byte(state: WriteByte, reply: Reply) -> WriteByte {
        match (state, reply) {
            (WriteByte::Waiting(byte), Reply::Status(status)) => if tx_available(status) {
                WriteByte::Sending(byte)
            } else {
                WriteByte::Waiting(byte)
            },
            (WriteByte::Sending(_), Reply::Transmitted) => WriteByte::Done,
            _ => state,
        }
    }

    /// One turn of the writing of one byte: takes where the writing stands
    /// and what the device answered to its request, and returns where the
    /// writing stands then.
    ///
    /// The writing of `byte` begins at `WriteByte::Waiting(byte)`. The caller
    /// carries out the request of the state and calls this again, until the
    /// state is `Done`.
    pub fn write_byte(&mut self, state: WriteByte, reply: Reply) -> (next: WriteByte)
        ensures
            *final(self) == *old(self),
            next == Self::spec_write_byte(state, reply),
    {
        match (state, reply) {
            (WriteByte::Waiting(byte), Reply::Status(status)) => {
                if shows_room(status) {
                    WriteByte::Sending(byte)
                } else {
                    WriteByte::Waiting(byte)
                }
            },
            (WriteByte::Sending(_), Reply::Transmitted) => WriteByte::Done,
            _ => state,
        }
    }

    /// Where the writing of `bytes` stands after the device has answered with
    /// `reply`; `text` says whether the bytes are a text.
    ///
    /// The bytes are written one after the other, each as `write_byte` does
    /// it. In a text each line feed is written twice over: first a carriage
    /// return in its place, then the line feed itself.
    pub open spec fn spec_transmit(
        text: bool,
        state: Write,
        reply: Reply,
        bytes: Seq<u8>,
    ) -> Write {
        match state {
            Write::Byte { index, returned, byte } => match Self::spec_write_byte(byte, reply) {
                WriteByte::Done => if index >= bytes.len() {
                    Write::Done(bytes.len() as usize)
                } else if text && bytes[index as int] == LINE_FEED && !returned {
                    Write::spec_at(text, bytes, index, true)
                } else {
                    Write::spec_at(text, bytes, (index + 1) as usize, false)
                },
                next => Write::Byte { index, returned, byte: next },
            },
            Write::Done(written) => Write::Done(written),
        }
    }

    /// Where the writing of the buffer `buf` stands after the device has
    /// answered with `reply`.
    pub open spec fn spec_write(state: Write, reply: Reply, buf: Seq<u8>) -> Write {
        Self::spec_transmit(false, state, reply, buf)
    }

    /// Where the writing of a text with the bytes `text` stands after the
    /// device has answered with `reply`.
    pub open spec fn spec_write_str(state: Write, reply: Reply, text: Seq<u8>) -> Write {
        Self::spec_transmit(true, state, reply, text)
    }

    /// One turn of the writing of all of `buf`: takes where the writing
    /// stands and what the device answered to its request, and returns where
    /// the writing stands then.
    ///
    /// The writing begins at `Write::begin(buf)`. The caller carries out the
    /// request of the state and calls this again with the same buffer, until
    /// the state has an outcome, which is the length of `buf`.
    pub fn write(&mut self, state: Write, reply: Reply, buf: &[u8]) -> (next: Write)
        ensures
            *final(self) == *old(self),
            next == Self::spec_write(state, reply, buf@),
            state.wf(false, buf@) ==> next.wf(false, buf@),
    {
        self.transmit(false, state, reply, buf)
    }

    /// One turn of the writing of the text `s`, in which a carriage return
    /// goes out before every line feed: takes where the writing stands and
    /// what the device answered to its request, and returns where the writing
    /// stands then.
    ///
    /// The writing begins at `Write::begin_str(s)`. The caller carries out
    /// the request of the state and calls this again with the same text,
    /// until the state has an outcome.
    pub fn write_str(&mut self, state: Write, reply: Reply, s: &str) -> (next: Write)
        ensures
            *final(self) == *old(self),
            next == Self::spec_write_str(state, reply, s.spec_bytes()),
            state.wf(true, s.spec_bytes()) ==> next.wf(true, s.spec_bytes()),
    {
        self.transmit(true, state, reply, s.as_bytes())
    }

    fn transmit(&mut self, text: bool, state: Write, reply: Reply, bytes: &[u8]) -> (next: Write)
        ensures
            *final(self) == *old(self),
            next == Self::spec_transmit(text, state, reply, bytes@),
            state.wf(text, bytes@) ==> next.wf(text, bytes@),
    {
        match state {
            Write::Byte { index, returned, byte } => match self.write_byte(byte, reply) {
                WriteByte::Done => {
                    if index >= bytes.len() {
                        Write::Done(bytes.len())
                    } else if text && bytes[index] == LINE_FEED && !returned {
                        Write::at(text, bytes, index, true)
                    } else {
                        Write::at(text, bytes, index + 1, false)
                    }
                },
                next => Write::Byte { index, returned, byte: next },
            },
            Write::Done(written) => Write::Done(written),
        }
    }
}

} // verus!
