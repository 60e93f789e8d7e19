use std::collections::VecDeque;

use pi::gpio;
use pi::timer::Sleep;
use pi::uart::{
    MiniUart, Read, ReadByte, ReadError, Registers, Reply, Request, Wait, Write, WriteByte,
    AUX_ENABLES, AUX_MINI_UART, BAUD_DIVISOR, BAUD_OFFSET, BAUD_RATE, BLOCK_SIZE, CARRIAGE_RETURN,
    CLOCK_FREQ, CNTL_OFFSET, IER_OFFSET, IIR_OFFSET, IO_OFFSET, LCR_OFFSET, LINE_FEED,
    LSR_DATA_READY, LSR_OFFSET, LSR_TX_AVAILABLE, MCR_OFFSET, MSR_OFFSET, MU_REG_BASE,
    SCRATCH_OFFSET, STAT_OFFSET,
};

/// A mini UART and a system timer that live in memory. Every request takes
/// `tick` microseconds. Bytes arrive in the receive FIFO at given times, and
/// the transmit FIFO has room on every `room_every`th look at the line status.
struct Device {
    clock: u64,
    tick: u64,
    fifo: VecDeque<u8>,
    arrivals: VecDeque<(u64, u8)>,
    sent: Vec<u8>,
    room_every: usize,
    looks: usize,
    requests: Vec<Request>,
}

impl Device {
    fn new() -> Device {
        Device {
            clock: 1_000,
            tick: 1,
            fifo: VecDeque::new(),
            arrivals: VecDeque::new(),
            sent: Vec::new(),
            room_every: 1,
            looks: 0,
            requests: Vec::new(),
        }
    }

    fn holding(bytes: &[u8]) -> Device {
        let mut device = Device::new();
        device.fifo.extend(bytes);
        device
    }

    fn perform(&mut self, request: Request) -> Reply {
        self.requests.push(request);
        self.clock += self.tick;
        while let Some((at, byte)) = self.arrivals.front().copied() {
            if at > self.clock {
                break;
            }
            self.fifo.push_back(byte);
            self.arrivals.pop_front();
        }
        match request {
            Request::Status => {
                self.looks += 1;
                let mut status = 0x40;
                if !self.fifo.is_empty() {
                    status |= LSR_DATA_READY;
                }
                if self.looks % self.room_every == 0 {
                    status |= LSR_TX_AVAILABLE;
                }
                Reply::Status(status)
            }
            Request::Receive => Reply::Received(self.fifo.pop_front().unwrap_or(0)),
            Request::Transmit(byte) => {
                self.sent.push(byte);
                Reply::Transmitted
            }
            Request::Time => Reply::Time(self.clock),
        }
    }

    fn asked_for_the_time(&self) -> bool {
        self.requests.contains(&Request::Time)
    }
}

const PATIENCE: usize = 100_000;

fn uart_with(timeout: Option<u64>) -> MiniUart {
    let mut aux = 0;
    let mut registers = Registers::default();
    let mut pins = gpio::Registers::default();
    let mut uart = MiniUart::new(&mut aux, &mut registers, &mut pins);
    if let Some(t) = timeout {
        uart.set_read_timeout(t);
    }
    uart
}

fn wait_for_byte(uart: &MiniUart, device: &mut Device) -> Option<Result<(), ()>> {
    let mut state = Wait::Check;
    for _ in 0..PATIENCE {
        match state.request() {
            Some(request) => state = uart.wait_for_byte(state, device.perform(request)),
            None => break,
        }
    }
    state.outcome()
}

fn read_byte(uart: &mut MiniUart, device: &mut Device) -> Option<u8> {
    let mut state = ReadByte::Waiting(Wait::Check);
    for _ in 0..PATIENCE {
        match state.request() {
            Some(request) => state = uart.read_byte(state, device.perform(request)),
            None => break,
        }
    }
    state.outcome()
}

fn read(
    uart: &mut MiniUart,
    device: &mut Device,
    buf: &mut [u8],
) -> Option<Result<usize, ReadError>> {
    let mut state = Read::begin(buf);
    for _ in 0..PATIENCE {
        match state.request() {
            Some(request) => state = uart.read(state, device.perform(request), buf),
            None => break,
        }
    }
    state.outcome()
}

fn write_byte(uart: &mut MiniUart, device: &mut Device, byte: u8) -> bool {
    let mut state = WriteByte::Waiting(byte);
    for _ in 0..PATIENCE {
        match state.request() {
            Some(request) => state = uart.write_byte(state, device.perform(request)),
            None => break,
        }
    }
    state == WriteByte::Done
}

fn write(uart: &mut MiniUart, device: &mut Device, buf: &[u8]) -> Option<usize> {
    let mut state = Write::begin(buf);
    for _ in 0..PATIENCE {
        match state.request() {
            Some(request) => state = uart.write(state, device.perform(request), buf),
            None => break,
        }
    }
    state.outcome()
}

fn write_str(uart: &mut MiniUart, device: &mut Device, s: &str) -> Option<usize> {
    let mut state = Write::begin_str(s);
    for _ in 0..PATIENCE {
        match state.request() {
            Some(request) => state = uart.write_str(state, device.perform(request), s),
            None => break,
        }
    }
    state.outcome()
}

#[test]
fn uart_registers_lie_where_the_device_has_them() {
    assert_eq!(MU_REG_BASE, 0xFE21_5040);
    assert_eq!(AUX_ENABLES, 0xFE21_5004);
    assert_eq!(IO_OFFSET, 0x00);
    assert_eq!(IER_OFFSET, 0x04);
    assert_eq!(IIR_OFFSET, 0x08);
    assert_eq!(LCR_OFFSET, 0x0C);
    assert_eq!(MCR_OFFSET, 0x10);
    assert_eq!(LSR_OFFSET, 0x14);
    assert_eq!(MSR_OFFSET, 0x18);
    assert_eq!(SCRATCH_OFFSET, 0x1C);
    assert_eq!(CNTL_OFFSET, 0x20);
    assert_eq!(STAT_OFFSET, 0x24);
    assert_eq!(BAUD_OFFSET, 0x28);
    assert_eq!(BLOCK_SIZE, 0x2C);
    assert_eq!(AUX_MINI_UART, 1);
    assert_eq!(LSR_DATA_READY, 1);
    assert_eq!(LSR_TX_AVAILABLE, 1 << 5);
}

#[test]
fn baud_divisor_follows_from_clock_and_baud_rate() {
    assert_eq!(CLOCK_FREQ, 250_000_000);
    assert_eq!(BAUD_RATE, 115_200);
    assert_eq!(CLOCK_FREQ / (8 * BAUD_RATE) - 1, 270);
    assert_eq!(BAUD_DIVISOR, 270);
}

#[test]
fn default_uart_registers_are_clear() {
    let registers = Registers::default();
    assert_eq!(
        registers,
        Registers {
            io: 0,
            ier: 0,
            iir: 0,
            lcr: 0,
            mcr: 0,
            lsr: 0,
            msr: 0,
            scratch: 0,
            cntl: 0,
            stat: 0,
            baud: 0,
        }
    );
}

#[test]
fn new_sets_up_a_device_that_is_clear() {
    let mut aux = 0;
    let mut registers = Registers::default();
    let mut pins = gpio::Registers::default();
    let _uart = MiniUart::new(&mut aux, &mut registers, &mut pins);

    assert_eq!(aux, 1);
    let mut expected = Registers::default();
    expected.baud = 270;
    expected.lcr = 0b1;
    expected.cntl = 0b11;
    assert_eq!(registers, expected);

    let mut expected = gpio::Registers::default();
    expected.fsel[1] = (0b010 << 12) | (0b010 << 15);
    assert_eq!(pins, expected);
}

#[test]
fn enable_sets_the_lowest_bit() {
    for before in [0u8, 1, 0b10, 0b1111_1110, 0xFF] {
        let mut aux = before;
        MiniUart::enable(&mut aux);
        assert_eq!(aux, before | 1);
    }
}

#[test]
fn new_keeps_what_it_does_not_set() {
    let mut aux = 0b1111_0110;
    let before = Registers {
        io: 0x11,
        ier: 0x22,
        iir: 0x33,
        lcr: 0b1000_0010,
        mcr: 0x55,
        lsr: 0x66,
        msr: 0x77,
        scratch: 0x88,
        cntl: 0b0101_0100,
        stat: 0x9999_9999,
        baud: 0xAAAA,
    };
    let mut registers = before;
    let mut pins = gpio::Registers::default();
    pins.fsel = [0xFFFF_FFFF; 6];
    pins.set = [1, 2];
    pins.lev = [3, 4];
    let pins_before = pins;
    let _uart = MiniUart::new(&mut aux, &mut registers, &mut pins);

    assert_eq!(aux, 0b1111_0111);
    assert_eq!(
        registers,
        Registers { baud: 270, lcr: 0b1000_0011, cntl: 0b0101_0111, ..before }
    );

    let mut expected = pins_before;
    expected.fsel[1] =
        (0xFFFF_FFFF & !(0b111 << 12) & !(0b111 << 15)) | (0b010 << 12) | (0b010 << 15);
    assert_eq!(pins, expected);
}

#[test]
fn has_byte_looks_at_the_lowest_bit_of_the_line_status() {
    let uart = uart_with(None);
    let mut registers = Registers::default();
    assert!(!uart.has_byte(&registers));
    registers.lsr = 0b0000_0001;
    assert!(uart.has_byte(&registers));
    registers.lsr = 0b0010_0000;
    assert!(!uart.has_byte(&registers));
    registers.lsr = 0b1111_1110;
    assert!(!uart.has_byte(&registers));
    registers.lsr = 0b1111_1111;
    assert!(uart.has_byte(&registers));
    registers.lsr = 0;
    registers.io = 0xFF;
    registers.stat = 0xFFFF_FFFF;
    assert!(!uart.has_byte(&registers));
}

#[test]
fn requests_follow_from_the_state_of_a_wait() {
    assert_eq!(Wait::Check.request(), Some(Request::Status));
    assert_eq!(Wait::Sleeping { timeout: 5, sleep: Sleep::Start }.request(), Some(Request::Time));
    let sleeping = Wait::Sleeping { timeout: 5, sleep: Sleep::Since(9) };
    assert_eq!(sleeping.request(), Some(Request::Time));
    assert_eq!(Wait::Recheck.request(), Some(Request::Status));
    assert_eq!(Wait::Ready.request(), None);
    assert_eq!(Wait::TimedOut.request(), None);

    assert_eq!(Wait::Check.outcome(), None);
    assert_eq!(Wait::Sleeping { timeout: 5, sleep: Sleep::Start }.outcome(), None);
    assert_eq!(Wait::Recheck.outcome(), None);
    assert_eq!(Wait::Ready.outcome(), Some(Ok(())));
    assert_eq!(Wait::TimedOut.outcome(), Some(Err(())));
}

#[test]
fn wait_without_timeout_asks_until_a_byte_is_there() {
    let uart = uart_with(None);
    assert_eq!(uart.wait_for_byte(Wait::Check, Reply::Status(0)), Wait::Check);
    assert_eq!(uart.wait_for_byte(Wait::Check, Reply::Status(0x20)), Wait::Check);
    assert_eq!(uart.wait_for_byte(Wait::Check, Reply::Status(0x01)), Wait::Ready);
    assert_eq!(uart.wait_for_byte(Wait::Check, Reply::Status(0x21)), Wait::Ready);

    let mut device = Device::new();
    device.arrivals.push_back((5_000, b'x'));
    assert_eq!(wait_for_byte(&uart, &mut device), Some(Ok(())));
    assert!(device.clock >= 5_000);
    assert!(!device.asked_for_the_time());
    assert_eq!(device.fifo, [b'x']);
}

#[test]
fn wait_without_timeout_never_gives_up() {
    let uart = uart_with(None);
    let mut device = Device::new();
    assert_eq!(wait_for_byte(&uart, &mut device), None);
    assert_eq!(device.requests.len(), PATIENCE);
    assert!(device.requests.iter().all(|request| *request == Request::Status));
}

#[test]
fn wait_with_timeout_returns_at_once_if_a_byte_is_there() {
    let uart = uart_with(Some(1_000_000));
    let mut device = Device::holding(b"x");
    assert_eq!(wait_for_byte(&uart, &mut device), Some(Ok(())));
    assert_eq!(device.requests, [Request::Status]);
}

#[test]
fn wait_with_timeout_turn_by_turn() {
    let uart = uart_with(Some(1000));
    let state = uart.wait_for_byte(Wait::Check, Reply::Status(0x20));
    assert_eq!(state, Wait::Sleeping { timeout: 1000, sleep: Sleep::Start });
    let state = uart.wait_for_byte(state, Reply::Time(5));
    assert_eq!(state, Wait::Sleeping { timeout: 1000, sleep: Sleep::Since(5) });
    let state = uart.wait_for_byte(state, Reply::Time(1004));
    assert_eq!(state, Wait::Sleeping { timeout: 1000, sleep: Sleep::Since(5) });
    let state = uart.wait_for_byte(state, Reply::Time(1005));
    assert_eq!(state, Wait::Recheck);
    assert_eq!(uart.wait_for_byte(state, Reply::Status(0x20)), Wait::TimedOut);
    assert_eq!(uart.wait_for_byte(state, Reply::Status(0x21)), Wait::Ready);
}

#[test]
fn wait_passes_over_replies_that_do_not_answer() {
    let uart = uart_with(Some(1000));
    assert_eq!(uart.wait_for_byte(Wait::Check, Reply::Time(5)), Wait::Check);
    assert_eq!(uart.wait_for_byte(Wait::Check, Reply::Received(5)), Wait::Check);
    assert_eq!(uart.wait_for_byte(Wait::Check, Reply::Transmitted), Wait::Check);
    let sleeping = Wait::Sleeping { timeout: 1000, sleep: Sleep::Since(5) };
    assert_eq!(uart.wait_for_byte(sleeping, Reply::Status(1)), sleeping);
    assert_eq!(uart.wait_for_byte(Wait::Recheck, Reply::Time(1)), Wait::Recheck);
    assert_eq!(uart.wait_for_byte(Wait::Ready, Reply::Status(0)), Wait::Ready);
    assert_eq!(uart.wait_for_byte(Wait::TimedOut, Reply::Status(1)), Wait::TimedOut);
}

#[test]
fn wait_sleeps_once_and_looks_once_more() {
    let uart = uart_with(Some(500));
    let mut device = Device::new();
    device.tick = 7;
    assert_eq!(wait_for_byte(&uart, &mut device), Some(Err(())));
    let requests = &device.requests;
    assert_eq!(requests[0], Request::Status);
    assert_eq!(requests[requests.len() - 1], Request::Status);
    assert!(requests[1..requests.len() - 1].iter().all(|request| *request == Request::Time));
    let slept = 7 * (requests.len() as u64 - 3);
    assert!(slept >= 500);
    assert!(slept < 500 + 7);
}

#[test]
fn wait_succeeds_if_the_byte_arrives_within_the_timeout() {
    for tick in [1u64, 3, 10, 64] {
        for timeout in [0u64, 1, 10, 250, 1000] {
            for delay in 0..=timeout + 200 {
                let uart = uart_with(Some(timeout));
                let mut device = Device::new();
                device.tick = tick;
                let begun = device.clock;
                device.arrivals.push_back((begun + delay, b'x'));

                let outcome = wait_for_byte(&uart, &mut device).unwrap();
                let ended = device.clock;
                if delay <= timeout {
                    assert_eq!(outcome, Ok(()));
                }
                if outcome == Err(()) {
                    assert!(delay > timeout);
                    assert!(ended - begun >= timeout);
                    assert!(device.fifo.is_empty());
                }
                assert_eq!(outcome.is_ok(), begun + delay <= ended);
            }
        }
    }
}

#[test]
fn wait_times_out_if_no_byte_arrives() {
    let uart = uart_with(Some(10_000));
    let mut device = Device::new();
    let begun = device.clock;
    assert_eq!(wait_for_byte(&uart, &mut device), Some(Err(())));
    assert!(device.clock - begun >= 10_000);
}

#[test]
fn wait_ends_its_sleep_if_the_clock_runs_backwards() {
    let uart = uart_with(Some(1000));
    let state = Wait::Sleeping { timeout: 1000, sleep: Sleep::Since(5000) };
    assert_eq!(uart.wait_for_byte(state, Reply::Time(4999)), Wait::Recheck);
}

#[test]
fn set_read_timeout_replaces_the_timeout() {
    let mut uart = uart_with(None);
    assert_eq!(uart.wait_for_byte(Wait::Check, Reply::Status(0)), Wait::Check);
    uart.set_read_timeout(10);
    assert_eq!(
        uart.wait_for_byte(Wait::Check, Reply::Status(0)),
        Wait::Sleeping { timeout: 10, sleep: Sleep::Start }
    );
    uart.set_read_timeout(20);
    assert_eq!(
        uart.wait_for_byte(Wait::Check, Reply::Status(0)),
        Wait::Sleeping { timeout: 20, sleep: Sleep::Start }
    );
}

#[test]
fn read_byte_takes_the_oldest_byte() {
    let mut uart = uart_with(None);
    let mut device = Device::holding(b"hi");
    assert_eq!(read_byte(&mut uart, &mut device), Some(b'h'));
    assert_eq!(device.requests, [Request::Status, Request::Receive]);
    assert_eq!(read_byte(&mut uart, &mut device), Some(b'i'));
    assert!(device.fifo.is_empty());
}

#[test]
fn read_byte_waits_again_after_a_timeout() {
    let mut uart = uart_with(Some(100));
    let mut device = Device::new();
    let begun = device.clock;
    device.arrivals.push_back((begun + 1_050, b'z'));
    assert_eq!(read_byte(&mut uart, &mut device), Some(b'z'));
    assert!(device.clock - begun >= 1_050);

    let timed_out = uart.read_byte(ReadByte::Waiting(Wait::Recheck), Reply::Status(0));
    assert_eq!(timed_out, ReadByte::Waiting(Wait::Check));
}

#[test]
fn read_byte_turn_by_turn() {
    let mut uart = uart_with(None);
    let state = ReadByte::Waiting(Wait::Check);
    assert_eq!(state.request(), Some(Request::Status));
    let state = uart.read_byte(state, Reply::Status(0));
    assert_eq!(state, ReadByte::Waiting(Wait::Check));
    let state = uart.read_byte(state, Reply::Status(1));
    assert_eq!(state, ReadByte::Fetch);
    assert_eq!(state.request(), Some(Request::Receive));
    assert_eq!(state.outcome(), None);
    assert_eq!(uart.read_byte(state, Reply::Status(1)), ReadByte::Fetch);
    let state = uart.read_byte(state, Reply::Received(0x41));
    assert_eq!(state, ReadByte::Done(0x41));
    assert_eq!(state.request(), None);
    assert_eq!(state.outcome(), Some(0x41));
    assert_eq!(uart.read_byte(state, Reply::Received(0x42)), ReadByte::Done(0x41));
}

#[test]
fn read_takes_what_is_pending_up_to_the_capacity() {
    for pending in 1..=9usize {
        for capacity in 1..=9usize {
            for timeout in [None, Some(50)] {
                let bytes: Vec<u8> = (0..pending).map(|i| 0x30 + i as u8).collect();
                let mut uart = uart_with(timeout);
                let mut device = Device::holding(&bytes);
                let mut buf = vec![0xEE; capacity];

                let count = pending.min(capacity);
                assert_eq!(read(&mut uart, &mut device, &mut buf), Some(Ok(count)));
                assert_eq!(buf[..count], bytes[..count]);
                assert!(buf[count..].iter().all(|byte| *byte == 0xEE));
                assert_eq!(device.fifo, &bytes[count..]);

                assert!(!device.asked_for_the_time());
                let turns = if pending < capacity { 2 * count + 1 } else { 2 * count };
                assert_eq!(device.requests.len(), turns);
            }
        }
    }
}

#[test]
fn read_does_not_wait_for_more_than_the_first_byte() {
    let mut uart = uart_with(Some(1_000));
    let mut device = Device::holding(b"a");
    let begun = device.clock;
    device.arrivals.push_back((begun + 10, b'b'));
    let mut buf = [0u8; 4];
    assert_eq!(read(&mut uart, &mut device, &mut buf), Some(Ok(1)));
    assert_eq!(buf, [b'a', 0, 0, 0]);
    assert_eq!(device.requests, [Request::Status, Request::Receive, Request::Status]);
}

#[test]
fn read_waits_for_the_first_byte() {
    let mut uart = uart_with(Some(1_000));
    let mut device = Device::new();
    let begun = device.clock;
    device.arrivals.push_back((begun + 400, b'a'));
    device.arrivals.push_back((begun + 500, b'b'));
    let mut buf = [0u8; 4];
    assert_eq!(read(&mut uart, &mut device, &mut buf), Some(Ok(2)));
    assert_eq!(buf, [b'a', b'b', 0, 0]);
}

#[test]
fn read_times_out_and_copies_nothing() {
    let mut uart = uart_with(Some(300));
    let mut device = Device::new();
    let begun = device.clock;
    device.arrivals.push_back((begun + 5_000, b'a'));
    let mut buf = [0xEEu8; 4];
    assert_eq!(read(&mut uart, &mut device, &mut buf), Some(Err(ReadError::TimedOut)));
    assert_eq!(buf, [0xEE; 4]);
    assert!(device.clock - begun >= 300);
    assert!(device.clock - begun < 5_000);
    assert!(!device.requests.contains(&Request::Receive));
}

#[test]
fn read_into_an_empty_buffer_fails() {
    let mut buf = [0u8; 0];
    assert_eq!(Read::begin(&buf), Read::Done(Err(ReadError::EmptyBuffer)));
    assert_eq!(Read::begin(&buf).request(), None);

    for timeout in [None, Some(0), Some(10)] {
        let mut uart = uart_with(timeout);
        let mut device = Device::holding(b"ab");
        assert_eq!(read(&mut uart, &mut device, &mut buf), Some(Err(ReadError::EmptyBuffer)));
        assert_eq!(device.fifo, [b'a', b'b']);
        assert!(device.requests.is_empty());

        let mut device = Device::new();
        assert_eq!(read(&mut uart, &mut device, &mut buf), Some(Err(ReadError::EmptyBuffer)));
        assert!(device.requests.is_empty());
    }
}

#[test]
fn read_into_an_empty_buffer_fails_wherever_it_stands() {
    let mut uart = uart_with(Some(10));
    let mut buf = [0u8; 0];
    let failed = Read::Done(Err(ReadError::EmptyBuffer));
    let states = [
        Read::Waiting(Wait::Check),
        Read::Waiting(Wait::Recheck),
        Read::First,
        Read::Probe(1),
        Read::Fetch(1),
    ];
    let replies = [
        Reply::Status(0),
        Reply::Status(1),
        Reply::Received(7),
        Reply::Time(99),
        Reply::Transmitted,
    ];
    for state in states {
        for reply in replies {
            assert_eq!(uart.read(state, reply, &mut buf), failed);
        }
    }
    assert_eq!(uart.read(failed, Reply::Status(1), &mut buf), failed);
    let timed_out = Read::Done(Err(ReadError::TimedOut));
    assert_eq!(uart.read(timed_out, Reply::Status(1), &mut buf), timed_out);
    assert_eq!(uart.read(Read::Done(Ok(3)), Reply::Status(1), &mut buf), Read::Done(Ok(3)));
}

#[test]
fn read_into_a_buffer_with_room_begins_with_the_wait() {
    assert_eq!(Read::begin(&[0u8; 1]), Read::Waiting(Wait::Check));
    assert_eq!(Read::begin(&[0u8; 64]), Read::Waiting(Wait::Check));
}

#[test]
fn read_turn_by_turn() {
    let mut uart = uart_with(Some(10));
    let mut buf = [0u8; 2];
    let state = Read::begin(&buf);
    assert_eq!(state, Read::Waiting(Wait::Check));
    assert_eq!(state.request(), Some(Request::Status));
    let state = uart.read(state, Reply::Status(1), &mut buf);
    assert_eq!(state, Read::First);
    assert_eq!(state.request(), Some(Request::Receive));
    let state = uart.read(state, Reply::Received(7), &mut buf);
    assert_eq!(state, Read::Probe(1));
    assert_eq!(state.request(), Some(Request::Status));
    assert_eq!(buf, [7, 0]);
    assert_eq!(uart.read(state, Reply::Status(0), &mut buf), Read::Done(Ok(1)));
    let state = uart.read(state, Reply::Status(1), &mut buf);
    assert_eq!(state, Read::Fetch(1));
    assert_eq!(state.request(), Some(Request::Receive));
    assert_eq!(state.outcome(), None);
    let state = uart.read(state, Reply::Received(9), &mut buf);
    assert_eq!(state, Read::Done(Ok(2)));
    assert_eq!(state.request(), None);
    assert_eq!(state.outcome(), Some(Ok(2)));
    assert_eq!(buf, [7, 9]);
    assert_eq!(uart.read(state, Reply::Received(1), &mut buf), Read::Done(Ok(2)));
    assert_eq!(buf, [7, 9]);

    let timed_out = uart.read(Read::Waiting(Wait::Recheck), Reply::Status(0), &mut buf);
    assert_eq!(timed_out, Read::Done(Err(ReadError::TimedOut)));
    assert_eq!(timed_out.outcome(), Some(Err(ReadError::TimedOut)));
}

#[test]
fn write_byte_waits_for_room() {
    let mut uart = uart_with(None);
    let state = WriteByte::Waiting(b'x');
    assert_eq!(state.request(), Some(Request::Status));
    assert_eq!(uart.write_byte(state, Reply::Status(0)), WriteByte::Waiting(b'x'));
    assert_eq!(uart.write_byte(state, Reply::Status(0x01)), WriteByte::Waiting(b'x'));
    assert_eq!(uart.write_byte(state, Reply::Transmitted), WriteByte::Waiting(b'x'));
    let state = uart.write_byte(state, Reply::Status(0x20));
    assert_eq!(state, WriteByte::Sending(b'x'));
    assert_eq!(state.request(), Some(Request::Transmit(b'x')));
    assert_eq!(uart.write_byte(state, Reply::Status(0x20)), WriteByte::Sending(b'x'));
    let state = uart.write_byte(state, Reply::Transmitted);
    assert_eq!(state, WriteByte::Done);
    assert_eq!(state.request(), None);
    assert_eq!(uart.write_byte(state, Reply::Status(0x20)), WriteByte::Done);

    let mut device = Device::new();
    device.room_every = 5;
    assert!(write_byte(&mut uart, &mut device, b'y'));
    assert_eq!(device.sent, [b'y']);
    assert_eq!(device.requests.len(), 6);
    assert_eq!(device.requests[5], Request::Transmit(b'y'));
}

#[test]
fn write_byte_never_gives_up() {
    let mut uart = uart_with(Some(5));
    let mut device = Device::new();
    device.room_every = usize::MAX;
    assert!(!write_byte(&mut uart, &mut device, b'y'));
    assert_eq!(device.requests.len(), PATIENCE);
    assert!(device.sent.is_empty());
}

#[test]
fn write_sends_every_byte_and_reports_the_length() {
    let mut uart = uart_with(None);
    for room_every in [1usize, 2, 7] {
        for len in 0..20usize {
            let bytes: Vec<u8> = (0..len).map(|i| (i * 37) as u8).collect();
            let mut device = Device::new();
            device.room_every = room_every;
            assert_eq!(write(&mut uart, &mut device, &bytes), Some(len));
            assert_eq!(device.sent, bytes);
        }
    }
}

#[test]
fn write_sends_line_feeds_as_they_are() {
    let mut uart = uart_with(None);
    let mut device = Device::new();
    assert_eq!(write(&mut uart, &mut device, b"a\nb"), Some(3));
    assert_eq!(device.sent, b"a\nb");
}

#[test]
fn write_of_nothing_asks_nothing() {
    let mut uart = uart_with(None);
    let mut device = Device::new();
    assert_eq!(Write::begin(&[]), Write::Done(0));
    assert_eq!(write(&mut uart, &mut device, &[]), Some(0));
    assert!(device.requests.is_empty());
    assert_eq!(Write::begin_str(""), Write::Done(0));
    assert_eq!(write_str(&mut uart, &mut device, ""), Some(0));
    assert!(device.requests.is_empty());
}

#[test]
fn write_str_puts_a_carriage_return_before_a_line_feed() {
    let mut uart = uart_with(None);
    let mut device = Device::new();
    assert_eq!(write_str(&mut uart, &mut device, "a\nb"), Some(3));
    assert_eq!(device.sent, [b'a', b'\r', b'\n', b'b']);
    assert_eq!(CARRIAGE_RETURN, b'\r');
    assert_eq!(LINE_FEED, b'\n');
}

#[test]
fn write_str_of_many_texts() {
    let mut uart = uart_with(None);
    let texts = [
        ("", ""),
        ("\n", "\r\n"),
        ("\n\n", "\r\n\r\n"),
        ("\r\n", "\r\r\n"),
        ("<-", "<-"),
        ("line\n", "line\r\n"),
        ("\nline", "\r\nline"),
        ("one\ntwo\nthree", "one\r\ntwo\r\nthree"),
        ("gr\u{fc}\u{df}e\n", "gr\u{fc}\u{df}e\r\n"),
    ];
    for room_every in [1usize, 3] {
        for (text, sent) in texts {
            let mut device = Device::new();
            device.room_every = room_every;
            assert_eq!(write_str(&mut uart, &mut device, text), Some(text.len()));
            assert_eq!(device.sent, sent.as_bytes());
            for (at, byte) in device.sent.iter().enumerate() {
                if *byte == b'\n' {
                    assert!(at > 0 && device.sent[at - 1] == b'\r');
                }
            }
        }
    }
}

#[test]
fn write_str_turn_by_turn() {
    let mut uart = uart_with(None);
    let text = "\nz";
    let state = Write::begin_str(text);
    assert_eq!(state, Write::Byte { index: 0, returned: false, byte: WriteByte::Waiting(b'\r') });
    assert_eq!(state.request(), Some(Request::Status));
    assert_eq!(state.outcome(), None);
    let state = uart.write_str(state, Reply::Status(0x20), text);
    assert_eq!(state, Write::Byte { index: 0, returned: false, byte: WriteByte::Sending(b'\r') });
    assert_eq!(state.request(), Some(Request::Transmit(b'\r')));
    let state = uart.write_str(state, Reply::Transmitted, text);
    assert_eq!(state, Write::Byte { index: 0, returned: true, byte: WriteByte::Waiting(b'\n') });
    let state = uart.write_str(state, Reply::Status(0), text);
    assert_eq!(state, Write::Byte { index: 0, returned: true, byte: WriteByte::Waiting(b'\n') });
    let state = uart.write_str(state, Reply::Status(0x20), text);
    let state = uart.write_str(state, Reply::Transmitted, text);
    assert_eq!(state, Write::Byte { index: 1, returned: false, byte: WriteByte::Waiting(b'z') });
    let state = uart.write_str(state, Reply::Status(0x20), text);
    let state = uart.write_str(state, Reply::Transmitted, text);
    assert_eq!(state, Write::Done(2));
    assert_eq!(state.request(), None);
    assert_eq!(state.outcome(), Some(2));
    assert_eq!(uart.write_str(state, Reply::Status(0x20), text), Write::Done(2));
}

#[test]
fn write_turn_by_turn() {
    let mut uart = uart_with(None);
    let buf = [b'\n', b'z'];
    let state = Write::begin(&buf);
    assert_eq!(state, Write::Byte { index: 0, returned: false, byte: WriteByte::Waiting(b'\n') });
    let state = uart.write(state, Reply::Status(0x20), &buf);
    let state = uart.write(state, Reply::Transmitted, &buf);
    assert_eq!(state, Write::Byte { index: 1, returned: false, byte: WriteByte::Waiting(b'z') });
    let state = uart.write(state, Reply::Status(0x20), &buf);
    let state = uart.write(state, Reply::Transmitted, &buf);
    assert_eq!(state, Write::Done(2));
}

#[test]
fn flush_has_nothing_to_do() {
    let mut uart = uart_with(None);
    assert_eq!(uart.flush(), Ok(()));
}

#[test]
fn echo_of_a_byte() {
    let mut uart = uart_with(None);
    let mut device = Device::holding(b"k");
    let byte = read_byte(&mut uart, &mut device).unwrap();
    assert!(write_byte(&mut uart, &mut device, byte));
    assert_eq!(write_str(&mut uart, &mut device, "<-"), Some(2));
    assert_eq!(device.sent, b"k<-");
}
