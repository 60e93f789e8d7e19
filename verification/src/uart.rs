pub mod laws;
pub mod receive;
pub mod transmit;

use vstd::prelude::*;

use crate::common::IO_BASE;
use crate::gpio;
use crate::gpio::{Function, Gpio};

pub use crate::uart::receive::{Read, ReadByte, ReadError, Wait};
pub use crate::uart::transmit::{with_carriage_returns, Write, WriteByte};

verus! {

/// Physical address of the first register of the mini UART.
pub const MU_REG_BASE: usize = IO_BASE + 0x215040;

/// Physical address of the register that enables the auxiliary peripherals.
pub const AUX_ENABLES: usize = IO_BASE + 0x215004;

/// Bit of the register at `AUX_ENABLES` that enables the mini UART.
pub const AUX_MINI_UART: u8 = 0b1;

/// Offset of the data register from `MU_REG_BASE`, in bytes.
pub const IO_OFFSET: usize = 0x00;

/// Offset of the interrupt enable register from `MU_REG_BASE`, in bytes.
pub const IER_OFFSET: usize = 0x04;

/// Offset of the interrupt identify register from `MU_REG_BASE`, in bytes.
pub const IIR_OFFSET: usize = 0x08;

/// Offset of the line control register from `MU_REG_BASE`, in bytes.
pub const LCR_OFFSET: usize = 0x0C;

/// Offset of the modem control register from `MU_REG_BASE`, in bytes.
pub const MCR_OFFSET: usize = 0x10;

/// Offset of the line status register from `MU_REG_BASE`, in bytes.
pub const LSR_OFFSET: usize = 0x14;

/// Offset of the modem status register from `MU_REG_BASE`, in bytes.
pub const MSR_OFFSET: usize = 0x18;

/// Offset of the scratch register from `MU_REG_BASE`, in bytes.
pub const SCRATCH_OFFSET: usize = 0x1C;

/// Offset of the extra control register from `MU_REG_BASE`, in bytes.
pub const CNTL_OFFSET: usize = 0x20;

/// Offset of the extra status register from `MU_REG_BASE`, in bytes.
pub const STAT_OFFSET: usize = 0x24;

/// Offset of the baud rate register from `MU_REG_BASE`, in bytes.
pub const BAUD_OFFSET: usize = 0x28;

/// Size of the register block, in bytes.
pub const BLOCK_SIZE: usize = 0x2C;

/// Frequency of the clock that the baud rate is derived from, in Hz.
pub const CLOCK_FREQ: u32 = 250_000_000;

/// The baud rate that the driver sets.
pub const BAUD_RATE: u32 = 115_200;

/// The value of the baud register that gives `BAUD_RATE` at `CLOCK_FREQ`.
pub const BAUD_DIVISOR: u16 = 270;

/// Bit of the line status register that is set while the receive FIFO holds
/// at least one byte.
pub const LSR_DATA_READY: u8 = 0b1;

/// Bit of the line status register that is set while the transmit FIFO can
/// take at least one byte.
pub const LSR_TX_AVAILABLE: u8 = 0b10_0000;

/// The byte that ends a line of text.
pub const LINE_FEED: u8 = 0x0A;

/// The byte that a terminal wants before each line feed.
pub const CARRIAGE_RETURN: u8 = 0x0D;

/// The value of the baud register for a given clock and baud rate.
pub open spec fn baud_divisor(clock_freq: int, baud_rate: int) -> int {
    clock_freq / (8 * baud_rate) - 1
}

/// The line status `status` says that a byte can be read.
pub open spec fn data_ready(status: u8) -> bool {
    status & LSR_DATA_READY == LSR_DATA_READY
}

/// The line status `status` says that a byte can be written.
pub open spec fn tx_available(status: u8) -> bool {
    status & LSR_TX_AVAILABLE == LSR_TX_AVAILABLE
}

pub(crate) fn shows_byte(status: u8) -> (ready: bool)
    ensures
        ready == data_ready(status),
{
    status & LSR_DATA_READY == LSR_DATA_READY
}

pub(crate) fn shows_room(status: u8) -> (room: bool)
    ensures
        room == tx_available(status),
{
    status & LSR_TX_AVAILABLE == LSR_TX_AVAILABLE
}

/// The contents of the mini UART's register block, in the order in which the
/// registers lie in memory. Each of the first nine is one byte wide and takes
/// up four bytes.
#[derive(Clone, Copy, Debug, PartialEq, Eq)]
pub struct Registers {
    /// Data: written, it takes a byte to transmit; read, it gives the oldest
    /// byte received.
    pub io: u8,
    /// Interrupt enable.
    pub ier: u8,
    /// Interrupt identify.
    pub iir: u8,
    /// Line control: the lowest bit sets the data size to 8 bits.
    pub lcr: u8,
    /// Modem control.
    pub mcr: u8,
    /// Line status, held by the device: see `LSR_DATA_READY` and
    /// `LSR_TX_AVAILABLE`.
    pub lsr: u8,
    /// Modem status, held by the device.
    pub msr: u8,
    /// Scratch.
    pub scratch: u8,
    /// Extra control: the two lowest bits enable the receiver and the
    /// transmitter.
    pub cntl: u8,
    /// Extra status, held by the device.
    pub stat: u32,
    /// Baud rate divisor.
    pub baud: u16,
}

impl Default for Registers {
    /// A register block in which every bit is clear.
    fn default() -> (registers: Registers)
        ensures
            registers == (Registers {
                io: 0,
                ier: 0,
                iir: 0,
                lcr: 0,
                mcr: 0,
                lsr: 0,
                msr: 0,
                scratch: 0,
                cntl: 0,
                stat: 0,
                baud: 0,
            }),
    {
        Registers {
            io: 0,
            ier: 0,
            iir: 0,
            lcr: 0,
            mcr: 0,
            lsr: 0,
            msr: 0,
            scratch: 0,
            cntl: 0,
            stat: 0,
            baud: 0,
        }
    }
}

/// What the driver needs done on the device before it can go on.
#[derive(Clone, Copy, Debug, PartialEq, Eq)]
pub enum Request {
    /// Read the line status register.
    Status,
    /// Read the data register, which takes one byte off the receive FIFO.
    Receive,
    /// Write this byte to the data register, which puts it on the transmit
    /// FIFO.
    Transmit(u8),
    /// Read the system timer.
    Time,
}

/// What came of a request.
#[derive(Clone, Copy, Debug, PartialEq, Eq)]
pub enum Reply {
    /// The line status register held this.
    Status(u8),
    /// The data register held this byte.
    Received(u8),
    /// The byte was written to the data register.
    Transmitted,
    /// The system timer showed this many microseconds.
    Time(u64),
}

/// The mini UART.
pub struct MiniUart {
    timeout: Option<u64>,
}

impl MiniUart {
    /// The time that a read waits for its first byte, in microseconds;
    /// `None` if it waits for as long as it takes.
    pub closed spec fn read_timeout(self) -> Option<u64> {
        self.timeout
    }

    /// Enables the mini UART as an auxiliary peripheral: sets the lowest bit
    /// of the register that enables the auxiliary peripherals, and leaves
    /// its other bits as they are. Before that the registers of the mini
    /// UART cannot be reached.
    pub fn enable(aux_enables: &mut u8)
        ensures
            *final(aux_enables) == *old(aux_enables) | AUX_MINI_UART,
    {
        *aux_enables = *aux_enables | AUX_MINI_UART;
    }

    /// Initializes the mini UART: enables it as an auxiliary peripheral, sets
    /// the baud register to `BAUD_DIVISOR`, sets the data size to 8 bits,
    /// hands GPIO pins 14 and 15 to alternative function 5, and enables the
    /// transmitter and the receiver.
    ///
    /// Reads do not time out until `set_read_timeout` has been called.
    pub fn new(
        aux_enables: &mut u8,
        registers: &mut Registers,
        pins: &mut gpio::Registers,
    ) -> (uart: MiniUart)
        ensures
            uart.read_timeout() is None,
            *final(aux_enables) == *old(aux_enables) | AUX_MINI_UART,
            *final(registers) == (Registers {
                baud: BAUD_DIVISOR,
                lcr: old(registers).lcr | 0b1,
                cntl: old(registers).cntl | 0b11,
                ..*old(registers)
            }),
            final(pins).fsel@ == old(pins).fsel@.update(
                1,
                gpio::fsel_select(
                    gpio::fsel_select(old(pins).fsel[1], 14, Function::Alt5),
                    15,
                    Function::Alt5,
                ),
            ),
            *final(pins) == (gpio::Registers { fsel: final(pins).fsel, ..*old(pins) }),
            gpio::fsel_code(final(pins).fsel[1], 14) == Function::Alt5.spec_code(),
            gpio::fsel_code(final(pins).fsel[1], 15) == Function::Alt5.spec_code(),
            forall|pin: u8|
                10 <= pin <= 19 && pin != 14 && pin != 15 ==> gpio::fsel_code(
                    final(pins).fsel[1],
                    pin,
                ) == #[trigger] gpio::fsel_code(old(pins).fsel[1], pin),
    {
        Self::enable(aux_enables);
        registers.baud = BAUD_DIVISOR;
        registers.lcr = registers.lcr | 0b1;
        let gp14 = Gpio::new(14);
        let gp15 = Gpio::new(15);
        gp14.into_alt(pins, Function::Alt5);
        gp15.into_alt(pins, Function::Alt5);
        registers.cntl = registers.cntl | 0b11;
        proof {
            let before = old(pins).fsel[1];
            let between = gpio::fsel_select(before, 14, Function::Alt5);
            gpio::lemma_select_changes_three_bits(between, 15, Function::Alt5);
            gpio::lemma_select_changes_three_bits(before, 14, Function::Alt5);
            gpio::lemma_select_keeps_other_pins(between, 15, Function::Alt5, 14);
            assert forall|pin: u8|
                10 <= pin <= 19 && pin != 14 && pin != 15 implies gpio::fsel_code(
                pins.fsel[1],
                pin,
            ) == #[trigger] gpio::fsel_code(before, pin) by {
                gpio::lemma_select_keeps_other_pins(before, 14, Function::Alt5, pin);
                gpio::lemma_select_keeps_other_pins(between, 15, Function::Alt5, pin);
            }
        }
        MiniUart { timeout: None }
    }

    /// Sets the time that a read waits for its first byte to `t` microseconds.
    pub fn set_read_timeout(&mut self, t: u64)
        ensures
            final(self).read_timeout() == Some(t),
    {
        self.timeout = Some(t);
    }

    /// Returns `true` if the line status in `registers` says that at least
    /// one byte is ready to be read.
    pub fn has_byte(&self, registers: &Registers) -> (ready: bool)
        ensures
            ready == data_ready(registers.lsr),
    {
        shows_byte(registers.lsr)
    }

    /// Nothing is held back by the driver, so there is nothing to flush.
    pub fn flush(&mut self) -> (done: Result<(), ()>)
        ensures
            *final(self) == *old(self),
            done is Ok,
    {
        Ok(())
    }
}

/// The registers lie in memory one after the other, each at a multiple of
/// four bytes, whatever its width.
pub proof fn lemma_layout()
    ensures
        IER_OFFSET == IO_OFFSET + 4,
        IIR_OFFSET == IER_OFFSET + 4,
        LCR_OFFSET == IIR_OFFSET + 4,
        MCR_OFFSET == LCR_OFFSET + 4,
        LSR_OFFSET == MCR_OFFSET + 4,
        MSR_OFFSET == LSR_OFFSET + 4,
        SCRATCH_OFFSET == MSR_OFFSET + 4,
        CNTL_OFFSET == SCRATCH_OFFSET + 4,
        STAT_OFFSET == CNTL_OFFSET + 4,
        BAUD_OFFSET == STAT_OFFSET + 4,
        BLOCK_SIZE == BAUD_OFFSET + 4,
        MU_REG_BASE + BLOCK_SIZE == IO_BASE + 0x21506C,
{
}

/// The baud register is set as the formula for the divisor has it.
pub proof fn lemma_baud_divisor()
    ensures
        BAUD_DIVISOR == baud_divisor(CLOCK_FREQ as int, BAUD_RATE as int),
{
    assert(250_000_000int / 921_600 == 271);
}

} // verus!
