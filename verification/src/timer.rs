use vstd::prelude::*;

use crate::common::IO_BASE;

verus! {

/// Physical address of the first register of the system timer.
pub const TIMER_REG_BASE: usize = IO_BASE + 0x3000;

/// Offset of the control and status register from `TIMER_REG_BASE`, in bytes.
pub const CS_OFFSET: usize = 0x00;

/// Offset of the low half of the counter from `TIMER_REG_BASE`, in bytes.
pub const CLO_OFFSET: usize = 0x04;

/// Offset of the high half of the counter from `TIMER_REG_BASE`, in bytes.
pub const CHI_OFFSET: usize = 0x08;

/// Offset of the first of the four compare registers from `TIMER_REG_BASE`,
/// in bytes.
pub const COMPARE_OFFSET: usize = 0x0C;

/// Size of the register block, in bytes.
pub const BLOCK_SIZE: usize = 0x1C;

/// The contents of the system timer's register block, in the order in which
/// the registers lie in memory. `clo` and `chi` are the low and the high half
/// of a counter that the device advances once every microsecond.
#[derive(Clone, Copy, Debug, PartialEq, Eq)]
pub struct Registers {
    /// Control and status.
    pub cs: u32,
    /// The low 32 bits of the counter.
    pub clo: u32,
    /// The high 32 bits of the counter.
    pub chi: u32,
    /// The four values that the counter is compared with.
    pub compare: [u32; 4],
}

impl Default for Registers {
    /// A register block in which every bit is clear.
    fn default() -> (registers: Registers)
        ensures
            registers.cs == 0,
            registers.clo == 0,
            registers.chi == 0,
            registers.compare@ == Seq::new(4, |i: int| 0u32),
    {
        let registers = Registers { cs: 0, clo: 0, chi: 0, compare: [0, 0, 0, 0] };
        registers
    }
}

/// The microseconds that a pair of counter halves stands for.
pub open spec fn micros(chi: u32, clo: u32) -> int {
    chi * 0x1_0000_0000 + clo
}

/// A sleep is over at the reading `now`, having begun at the reading `start`,
/// once `t` microseconds lie between the two, or if the clock appears to have
/// run backwards.
pub open spec fn elapsed(t: u64, start: u64, now: u64) -> bool {
    now < start || now - start >= t
}

/// The whole microseconds that cover a span of `secs` seconds and
/// `subsec_nanos` nanoseconds: a part of a microsecond counts as a whole one,
/// and a span of more microseconds than a `u64` holds counts as `u64::MAX`.
pub open spec fn spec_whole_micros(secs: u64, subsec_nanos: u32) -> u64 {
    let micros = secs * 1_000_000 + (subsec_nanos + 999) / 1000;
    if micros > u64::MAX {
        u64::MAX
    } else {
        micros as u64
    }
}

/// Returns the whole microseconds that cover a span of `secs` seconds and
/// `subsec_nanos` nanoseconds, for a sleep or a timeout that is to last no
/// less than the span.
pub fn whole_micros(secs: u64, subsec_nanos: u32) -> (micros: u64)
    ensures
        micros == spec_whole_micros(secs, subsec_nanos),
{
    let part: u64 = ((subsec_nanos as u64) + 999) / 1000;
    match secs.checked_mul(1_000_000) {
        Some(whole) => match whole.checked_add(part) {
            Some(micros) => micros,
            None => u64::MAX,
        },
        None => u64::MAX,
    }
}

/// The system timer.
pub struct Timer {}

impl Timer {
    /// Returns a new instance of `Timer`.
    pub fn new() -> Timer {
        Timer {  }
    }

    /// Returns the microseconds that the counter in `registers` shows.
    ///
    /// The two halves of the counter are fetched from the device one after the
    /// other, so where the low half wraps between the two fetches the halves
    /// belong to different moments, and the result is off by 2^32 microseconds.
    pub fn read(&self, registers: &Registers) -> (now: u64)
        ensures
            now == micros(registers.chi, registers.clo),
    {
        let low: u32 = registers.clo;
        let chi: u32 = registers.chi;
        let high: u64 = (chi as u64) << 32;
        assert(high == chi * 0x1_0000_0000) by (bit_vector)
            requires
                high == (chi as u64) << 32,
        ;
        high + (low as u64)
    }
}

/// Returns the microseconds that the counter in `registers` shows.
pub fn current_time(registers: &Registers) -> (now: u64)
    ensures
        now == micros(registers.chi, registers.clo),
{
    let timer = Timer::new();
    timer.read(registers)
}

/// How far a sleep has come.
#[derive(Clone, Copy, Debug, PartialEq, Eq)]
pub enum Sleep {
    /// The clock has not been read yet.
    Start,
    /// The sleep began when the clock showed this many microseconds.
    Since(u64),
    /// The sleep is over.
    Done,
}

/// Where a sleep of `t` microseconds stands after the clock has been read
/// once more and showed `now`.
pub open spec fn spec_spin_sleep(t: u64, state: Sleep, now: u64) -> Sleep {
    match state {
        Sleep::Start => Sleep::Since(now),
        Sleep::Since(start) => if elapsed(t, start, now) {
            Sleep::Done
        } else {
            Sleep::Since(start)
        },
        Sleep::Done => Sleep::Done,
    }
}

/// Where a sleep of `t` microseconds stands after the clock has been read
/// several times and showed `readings`, in that order.
pub open spec fn sleep_after(t: u64, state: Sleep, readings: Seq<u64>) -> Sleep
    decreases readings.len(),
{
    if readings.len() == 0 {
        state
    } else {
        spec_spin_sleep(t, sleep_after(t, state, readings.drop_last()), readings.last())
    }
}

/// One turn of a sleep of `t` microseconds: takes where the sleep stands and
/// what the clock shows now, and returns where the sleep stands then.
///
/// The first reading only marks the start. The caller reads the clock and
/// calls this again until the sleep is `Done`.
pub fn spin_sleep(t: u64, state: Sleep, now: u64) -> (next: Sleep)
    ensures
        next == spec_spin_sleep(t, state, now),
{
    match state {
        Sleep::Start => Sleep::Since(now),
        Sleep::Since(start) => {
            match now.checked_sub(start) {
                Some(passed) => {
                    if passed >= t {
                        Sleep::Done
                    } else {
                        Sleep::Since(start)
                    }
                },
                None => Sleep::Done,
            }
        },
        Sleep::Done => Sleep::Done,
    }
}

/// The registers lie in memory one after the other, each four bytes wide.
pub proof fn lemma_layout()
    ensures
        CLO_OFFSET == CS_OFFSET + 4,
        CHI_OFFSET == CLO_OFFSET + 4,
        COMPARE_OFFSET == CHI_OFFSET + 4,
        BLOCK_SIZE == COMPARE_OFFSET + 4 * 4,
{
}

/// Reading the counter keeps the order of its halves: of two counter values,
/// the one that is not below the other, high half first, gives a reading that
/// is not below the other's.
pub proof fn lemma_read_keeps_order(earlier: Registers, later: Registers)
    requires
        earlier.chi < later.chi || (earlier.chi == later.chi && earlier.clo <= later.clo),
    ensures
        micros(earlier.chi, earlier.clo) <= micros(later.chi, later.clo),
{
}

/// The whole microseconds that cover a span are no less than the span, and
/// less than a microsecond more, unless the span is longer than a `u64` of
/// microseconds.
pub proof fn lemma_whole_micros_cover(secs: u64, subsec_nanos: u32)
    requires
        secs * 1_000_000 + (subsec_nanos + 999) / 1000 <= u64::MAX,
    ensures
        spec_whole_micros(secs, subsec_nanos) * 1000 >= secs * 1_000_000_000 + subsec_nanos,
        spec_whole_micros(secs, subsec_nanos) * 1000 < secs * 1_000_000_000 + subsec_nanos + 1000,
{
}

/// A reading whose high half was fetched after the low half had wrapped is
/// 2^32 microseconds ahead of the moment at which the low half was fetched.
pub proof fn lemma_torn_read_is_ahead(chi: u32, clo: u32)
    requires
        chi < u32::MAX,
    ensures
        micros((chi + 1) as u32, clo) == micros(chi, clo) + 0x1_0000_0000,
{
}

/// A sleep that has seen the clock at least once is over exactly if some
/// later reading lies `t` microseconds or more after the first, or before it.
pub proof fn lemma_sleep_ends_on_time(t: u64, readings: Seq<u64>)
    requires
        readings.len() >= 1,
    ensures
        sleep_after(t, Sleep::Start, readings) == if exists|j: int|
            1 <= j < readings.len() && elapsed(t, readings[0], readings[j]) {
            Sleep::Done
        } else {
            Sleep::Since(readings[0])
        },
    decreases readings.len(),
{
    if readings.len() == 1 {
        assert(sleep_after(t, Sleep::Start, readings.drop_last()) == Sleep::Start);
    } else {
        let shorter = readings.drop_last();
        let last = readings.len() - 1;
        lemma_sleep_ends_on_time(t, shorter);
        if exists|j: int| 1 <= j < shorter.len() && elapsed(t, shorter[0], shorter[j]) {
            let j = choose|j: int| 1 <= j < shorter.len() && elapsed(t, shorter[0], shorter[j]);
            assert(1 <= j < readings.len() && elapsed(t, readings[0], readings[j]));
        } else if elapsed(t, readings[0], readings[last]) {
            assert(1 <= last < readings.len() && elapsed(t, readings[0], readings[last]));
        } else {
            assert forall|j: int| 1 <= j < readings.len() implies !elapsed(
                t,
                readings[0],
                readings[j],
            ) by {
                if j < last {
                    assert(shorter[j] == readings[j]);
                }
            }
        }
    }
}

} // verus!
