use core::marker::PhantomData;
use vstd::prelude::*;

use crate::common::{Alt, Input, Output, Uninitialized, IO_BASE};

verus! {

/// Physical address of the first GPIO register.
pub const GPIO_BASE: usize = IO_BASE + 0x200000;

/// The highest pin number of the controller.
pub const MAX_PIN: u8 = 57;

/// Offset of the first function-select register from `GPIO_BASE`, in bytes.
pub const FSEL_OFFSET: usize = 0x00;

/// Offset of the first pin-set register from `GPIO_BASE`, in bytes.
pub const SET_OFFSET: usize = 0x1C;

/// Offset of the first pin-clear register from `GPIO_BASE`, in bytes.
pub const CLR_OFFSET: usize = 0x28;

/// Offset of the first pin-level register from `GPIO_BASE`, in bytes.
pub const LEV_OFFSET: usize = 0x34;

/// Offset of the first event-detect-status register from `GPIO_BASE`, in bytes.
pub const EDS_OFFSET: usize = 0x40;

/// Offset of the first rising-edge-detect register from `GPIO_BASE`, in bytes.
pub const REN_OFFSET: usize = 0x4C;

/// Offset of the first falling-edge-detect register from `GPIO_BASE`, in bytes.
pub const FEN_OFFSET: usize = 0x58;

/// Offset of the first high-detect register from `GPIO_BASE`, in bytes.
pub const HEN_OFFSET: usize = 0x64;

/// Offset of the first low-detect register from `GPIO_BASE`, in bytes.
pub const LEN_OFFSET: usize = 0x70;

/// Offset of the first asynchronous rising-edge-detect register from
/// `GPIO_BASE`, in bytes.
pub const AREN_OFFSET: usize = 0x7C;

/// Offset of the first asynchronous falling-edge-detect register from
/// `GPIO_BASE`, in bytes.
pub const AFEN_OFFSET: usize = 0x88;

/// Offset of the pull-up/down register from `GPIO_BASE`, in bytes.
pub const PUD_OFFSET: usize = 0x94;

/// Offset of the first pull-up/down clock register from `GPIO_BASE`, in bytes.
pub const PUDCLK_OFFSET: usize = 0x98;

/// Size of the register block, in bytes.
pub const BLOCK_SIZE: usize = 0xA0;

/// What a pin can be wired to: it is an input, an output, or it serves one
/// of six alternative functions, which differ from pin to pin.
#[derive(Clone, Copy, Debug, PartialEq, Eq)]
pub enum Function {
    Input,
    Output,
    Alt0,
    Alt1,
    Alt2,
    Alt3,
    Alt4,
    Alt5,
}

impl Function {
    /// The three-bit pattern that selects this function in a function-select
    /// register.
    pub open spec fn spec_code(self) -> u32 {
        match self {
            Function::Input => 0b000,
            Function::Output => 0b001,
            Function::Alt0 => 0b100,
            Function::Alt1 => 0b101,
            Function::Alt2 => 0b110,
            Function::Alt3 => 0b111,
            Function::Alt4 => 0b011,
            Function::Alt5 => 0b010,
        }
    }

    /// Returns the three-bit pattern that selects this function in a
    /// function-select register.
    #[verifier::when_used_as_spec(spec_code)]
    pub fn code(self) -> (code: u32)
        ensures
            code == self.spec_code(),
            code <= 0b111,
    {
        match self {
            Function::Input => 0b000,
            Function::Output => 0b001,
            Function::Alt0 => 0b100,
            Function::Alt1 => 0b101,
            Function::Alt2 => 0b110,
            Function::Alt3 => 0b111,
            Function::Alt4 => 0b011,
            Function::Alt5 => 0b010,
        }
    }
}

/// The contents of the GPIO register block, one field per register group, in
/// the order in which the groups lie in memory. Every group of two holds pins
/// 0 to 31 in its first word and pins 32 to 57 in its second.
#[derive(Clone, Copy, Debug, PartialEq, Eq)]
pub struct Registers {
    /// Function select: three bits for each pin, ten pins to a word.
    pub fsel: [u32; 6],
    /// Pin set: a bit written as 1 turns its pin on.
    pub set: [u32; 2],
    /// Pin clear: a bit written as 1 turns its pin off.
    pub clr: [u32; 2],
    /// Pin level: a bit reads as 1 while its pin is high.
    pub lev: [u32; 2],
    /// Event detect status.
    pub eds: [u32; 2],
    /// Rising edge detect enable.
    pub ren: [u32; 2],
    /// Falling edge detect enable.
    pub fen: [u32; 2],
    /// High detect enable.
    pub hen: [u32; 2],
    /// Low detect enable.
    pub len: [u32; 2],
    /// Asynchronous rising edge detect enable.
    pub aren: [u32; 2],
    /// Asynchronous falling edge detect enable.
    pub afen: [u32; 2],
    /// Pull-up/down enable.
    pub pud: u32,
    /// Pull-up/down enable clock.
    pub pudclk: [u32; 2],
}

/// A group of `count` registers in which every bit is clear.
pub open spec fn clear_words(count: nat) -> Seq<u32> {
    Seq::new(count, |i: int| 0u32)
}

impl Registers {
    /// Every bit of the block is clear.
    pub open spec fn is_clear(self) -> bool {
        &&& self.fsel@ == clear_words(6)
        &&& self.set@ == clear_words(2)
        &&& self.clr@ == clear_words(2)
        &&& self.lev@ == clear_words(2)
        &&& self.eds@ == clear_words(2)
        &&& self.ren@ == clear_words(2)
        &&& self.fen@ == clear_words(2)
        &&& self.hen@ == clear_words(2)
        &&& self.len@ == clear_words(2)
        &&& self.aren@ == clear_words(2)
        &&& self.afen@ == clear_words(2)
        &&& self.pud == 0
        &&& self.pudclk@ == clear_words(2)
    }
}

impl Default for Registers {
    /// A register block in which every bit is clear.
    fn default() -> (registers: Registers)
        ensures
            registers.is_clear(),
    {
        let registers = Registers {
            fsel: [0, 0, 0, 0, 0, 0],
            set: [0, 0],
            clr: [0, 0],
            lev: [0, 0],
            eds: [0, 0],
            ren: [0, 0],
            fen: [0, 0],
            hen: [0, 0],
            len: [0, 0],
            aren: [0, 0],
            afen: [0, 0],
            pud: 0,
            pudclk: [0, 0],
        };
        assert(registers.fsel@ =~= clear_words(6));
        assert(registers.set@ =~= clear_words(2));
        assert(registers.clr@ =~= clear_words(2));
        assert(registers.lev@ =~= clear_words(2));
        assert(registers.eds@ =~= clear_words(2));
        assert(registers.ren@ =~= clear_words(2));
        assert(registers.fen@ =~= clear_words(2));
        assert(registers.hen@ =~= clear_words(2));
        assert(registers.len@ =~= clear_words(2));
        assert(registers.aren@ =~= clear_words(2));
        assert(registers.afen@ =~= clear_words(2));
        assert(registers.pudclk@ =~= clear_words(2));
        registers
    }
}

/// Index of the function-select register that holds `pin`: ten pins to a register.
pub open spec fn fsel_index(pin: u8) -> int {
    pin as int / 10
}

/// Position of the lowest of the three bits that `pin` owns in its
/// function-select register.
pub open spec fn fsel_shift(pin: u8) -> u32 {
    (3 * (pin as int % 10)) as u32
}

/// The three bits that `pin` owns in its function-select register.
pub open spec fn fsel_mask(pin: u8) -> u32 {
    0b111u32 << fsel_shift(pin)
}

/// A function-select word after `function` has been selected for `pin`: the
/// pin's three bits are cleared, then the code is set in their place.
pub open spec fn fsel_select(word: u32, pin: u8, function: Function) -> u32 {
    (word & !fsel_mask(pin)) | (function.spec_code() << fsel_shift(pin))
}

/// Index, within a group of two registers, of the word that holds `pin`.
pub open spec fn bank_index(pin: u8) -> int {
    if pin < 32 {
        0
    } else {
        1
    }
}

/// The single bit that stands for `pin` in its word of a group of two registers.
pub open spec fn bank_mask(pin: u8) -> u32 {
    if pin < 32 {
        1u32 << (pin as u32)
    } else {
        1u32 << ((pin - 32) as u32)
    }
}

/// A GPIO pin in state `State`.
///
/// `State` is one of the markers `Uninitialized`, `Input`, `Output` and `Alt`.
/// It exists only in the type: a handle shows by its type what the pin was
/// configured for, and each operation is defined for the one state in which it
/// is legal.
pub struct Gpio<State> {
    pin: u8,
    _state: PhantomData<State>,
}

impl<T> Gpio<T> {
    #[verifier::type_invariant]
    spec fn in_range(self) -> bool {
        self.pin <= MAX_PIN
    }

    /// The number of the pin that this handle stands for, which is one that
    /// the controller has. (Of a value that no handle can hold, with a number
    /// past the last pin, it is the last pin.)
    pub closed spec fn pin(self) -> u8 {
        if self.pin <= MAX_PIN {
            self.pin
        } else {
            MAX_PIN
        }
    }

    /// Every handle stands for a pin that the controller has.
    pub proof fn lemma_pin_in_range(self)
        ensures
            self.pin() <= MAX_PIN,
    {
    }

    /// Index of the function-select register that holds the pin.
    pub fn select_index(&self) -> (index: usize)
        ensures
            index == fsel_index(self.pin()),
            index < 6,
    {
        proof {
            use_type_invariant(self);
        }
        (self.pin / 10) as usize
    }

    /// Index, within a group of two registers, of the word that holds the
    /// pin.
    pub fn bank(&self) -> (index: usize)
        ensures
            index == bank_index(self.pin()),
            index < 2,
    {
        if self.pin < 32 {
            0
        } else {
            1
        }
    }

    fn transition<S>(self) -> (next: Gpio<S>)
        ensures
            next.pin() == self.pin(),
    {
        proof {
            use_type_invariant(&self);
        }
        Gpio { pin: self.pin, _state: PhantomData }
    }
}

impl Gpio<Uninitialized> {
    /// Returns a handle for pin number `pin`, not yet configured.
    pub fn new(pin: u8) -> (gpio: Gpio<Uninitialized>)
        requires
            pin <= MAX_PIN,
        ensures
            gpio.pin() == pin,
            gpio.pin() <= MAX_PIN,
    {
        Gpio { pin, _state: PhantomData }
    }

    /// Selects `function` for the pin: in the pin's function-select register
    /// the pin's three bits come to hold the code of `function`, and nothing
    /// else in `registers` changes.
    pub fn into_alt(self, registers: &mut Registers, function: Function) -> (gpio: Gpio<Alt>)
        ensures
            gpio.pin() == self.pin(),
            gpio.pin() <= MAX_PIN,
            final(registers).fsel@ == old(registers).fsel@.update(
                fsel_index(self.pin()),
                fsel_select(old(registers).fsel[fsel_index(self.pin())], self.pin(), function),
            ),
            *final(registers) == (Registers { fsel: final(registers).fsel, ..*old(registers) }),
    {
        proof {
            use_type_invariant(&self);
        }
        let outer: usize = (self.pin / 10) as usize;
        let shift: u32 = 3 * ((self.pin % 10) as u32);
        let word: u32 = registers.fsel[outer];
        registers.fsel[outer] = (word & !(0b111u32 << shift)) | (function.code() << shift);
        self.transition()
    }

    /// Makes the pin an output.
    pub fn into_output(self, registers: &mut Registers) -> (gpio: Gpio<Output>)
        ensures
            gpio.pin() == self.pin(),
            gpio.pin() <= MAX_PIN,
            final(registers).fsel@ == old(registers).fsel@.update(
                fsel_index(self.pin()),
                fsel_select(
                    old(registers).fsel[fsel_index(self.pin())],
                    self.pin(),
                    Function::Output,
                ),
            ),
            *final(registers) == (Registers { fsel: final(registers).fsel, ..*old(registers) }),
    {
        self.into_alt(registers, Function::Output).transition()
    }

    /// Makes the pin an input.
    pub fn into_input(self, registers: &mut Registers) -> (gpio: Gpio<Input>)
        ensures
            gpio.pin() == self.pin(),
            gpio.pin() <= MAX_PIN,
            final(registers).fsel@ == old(registers).fsel@.update(
                fsel_index(self.pin()),
                fsel_select(
                    old(registers).fsel[fsel_index(self.pin())],
                    self.pin(),
                    Function::Input,
                ),
            ),
            *final(registers) == (Registers { fsel: final(registers).fsel, ..*old(registers) }),
    {
        self.into_alt(registers, Function::Input).transition()
    }
}

impl Gpio<Output> {
    /// Turns the pin on: writes the pin's bit, and no other, to the pin's
    /// word of the set registers.
    pub fn set(&mut self, registers: &mut Registers)
        ensures
            final(self).pin() == old(self).pin(),
            final(registers).set@ == old(registers).set@.update(
                bank_index(old(self).pin()),
                bank_mask(old(self).pin()),
            ),
            *final(registers) == (Registers { set: final(registers).set, ..*old(registers) }),
    {
        proof {
            use_type_invariant(&*self);
        }
        if self.pin < 32 {
            registers.set[0] = 0b1u32 << (self.pin as u32);
        } else {
            registers.set[1] = 0b1u32 << ((self.pin - 32) as u32);
        }
    }

    /// Turns the pin off: writes the pin's bit, and no other, to the pin's
    /// word of the clear registers.
    pub fn clear(&mut self, registers: &mut Registers)
        ensures
            final(self).pin() == old(self).pin(),
            final(registers).clr@ == old(registers).clr@.update(
                bank_index(old(self).pin()),
                bank_mask(old(self).pin()),
            ),
            *final(registers) == (Registers { clr: final(registers).clr, ..*old(registers) }),
    {
        proof {
            use_type_invariant(&*self);
        }
        if self.pin < 32 {
            registers.clr[0] = 0b1u32 << (self.pin as u32);
        } else {
            registers.clr[1] = 0b1u32 << ((self.pin - 32) as u32);
        }
    }
}

impl Gpio<Input> {
    /// Reads the pin: returns `true` if the pin's bit is set in the pin's
    /// word of the level registers, that is if the level is high.
    pub fn level(&mut self, registers: &Registers) -> (high: bool)
        ensures
            final(self).pin() == old(self).pin(),
            high == (registers.lev[bank_index(old(self).pin())] & bank_mask(old(self).pin())
                == bank_mask(old(self).pin())),
    {
        proof {
            use_type_invariant(&*self);
        }
        if self.pin < 32 {
            let mask: u32 = 0b1u32 << (self.pin as u32);
            registers.lev[0] & mask == mask
        } else {
            let mask: u32 = 0b1u32 << ((self.pin - 32) as u32);
            registers.lev[1] & mask == mask
        }
    }
}

/// The function code that a function-select word holds for `pin`.
pub open spec fn fsel_code(word: u32, pin: u8) -> u32 {
    (word >> fsel_shift(pin)) & 0b111
}

/// Selecting a function for a pin changes the three bits that the pin owns,
/// and no other bit of the word: the three bits come to hold the function's
/// code, and the other 29 stay as they were.
pub proof fn lemma_select_changes_three_bits(word: u32, pin: u8, function: Function)
    requires
        pin <= MAX_PIN,
    ensures
        fsel_select(word, pin, function) & !fsel_mask(pin) == word & !fsel_mask(pin),
        fsel_select(word, pin, function) & fsel_mask(pin) == function.spec_code() << fsel_shift(
            pin,
        ),
        fsel_code(fsel_select(word, pin, function), pin) == function.spec_code(),
{
    let shift = fsel_shift(pin);
    let code = function.spec_code();
    assert(((word & !(7u32 << shift)) | (code << shift)) & !(7u32 << shift) == word & !(7u32
        << shift)) by (bit_vector)
        requires
            shift <= 27,
            code <= 7,
    ;
    assert(((word & !(7u32 << shift)) | (code << shift)) & (7u32 << shift) == code << shift)
        by (bit_vector)
        requires
            shift <= 27,
            code <= 7,
    ;
    assert((((word & !(7u32 << shift)) | (code << shift)) >> shift) & 7 == code) by (bit_vector)
        requires
            shift <= 27,
            code <= 7,
    ;
}

/// Selecting a function for a pin leaves the function of every other pin of
/// the same word as it was.
pub proof fn lemma_select_keeps_other_pins(word: u32, pin: u8, function: Function, other: u8)
    requires
        pin <= MAX_PIN,
        other <= MAX_PIN,
        other != pin,
        fsel_index(other) == fsel_index(pin),
    ensures
        fsel_code(fsel_select(word, pin, function), other) == fsel_code(word, other),
{
    let shift = fsel_shift(pin);
    let there = fsel_shift(other);
    let code = function.spec_code();
    assert((((word & !(7u32 << shift)) | (code << shift)) >> there) & 7 == (word >> there) & 7)
        by (bit_vector)
        requires
            shift <= 27,
            there <= 27,
            shift % 3 == 0,
            there % 3 == 0,
            shift != there,
            code <= 7,
    ;
}

/// Selecting a function for a pin does not depend on what was selected for
/// it before: of two selections for one pin the later one stands.
pub proof fn lemma_select_overrides(word: u32, pin: u8, first: Function, second: Function)
    requires
        pin <= MAX_PIN,
    ensures
        fsel_select(fsel_select(word, pin, first), pin, second) == fsel_select(word, pin, second),
{
    let shift = fsel_shift(pin);
    let a = first.spec_code();
    let b = second.spec_code();
    assert((((word & !(7u32 << shift)) | (a << shift)) & !(7u32 << shift)) | (b << shift) == (word
        & !(7u32 << shift)) | (b << shift)) by (bit_vector)
        requires
            shift <= 27,
            a <= 7,
            b <= 7,
    ;
}

/// Selections for two pins of one word can be made in either order.
pub proof fn lemma_select_commutes(
    word: u32,
    pin: u8,
    function: Function,
    other: u8,
    other_function: Function,
)
    requires
        pin <= MAX_PIN,
        other <= MAX_PIN,
        other != pin,
        fsel_index(other) == fsel_index(pin),
    ensures
        fsel_select(fsel_select(word, pin, function), other, other_function) == fsel_select(
            fsel_select(word, other, other_function),
            pin,
            function,
        ),
{
    let shift = fsel_shift(pin);
    let there = fsel_shift(other);
    let a = function.spec_code();
    let b = other_function.spec_code();
    let mask = 7u32 << shift;
    let other_mask = 7u32 << there;
    assert((((word & !mask) | (a << shift)) & !other_mask) | (b << there) == (((word & !other_mask)
        | (b << there)) & !mask) | (a << shift)) by (bit_vector)
        requires
            mask == 7u32 << shift,
            other_mask == 7u32 << there,
            shift <= 27,
            there <= 27,
            shift % 3 == 0,
            there % 3 == 0,
            shift != there,
            a <= 7,
            b <= 7,
    ;
}

/// A pin's bit in its word of a group of two registers is the bit numbered
/// `pin` for pins 0 to 31 and `pin - 32` for pins 32 to 57, and the word is
/// the first for the former and the second for the latter.
pub proof fn lemma_bank_split(pin: u8)
    requires
        pin <= MAX_PIN,
    ensures
        bank_index(pin) == pin as int / 32,
        bank_mask(pin) == 1u32 << ((pin as int % 32) as u32),
        bank_mask(pin) != 0,
{
    let bit: u32 = (pin as int % 32) as u32;
    assert(1u32 << bit != 0) by (bit_vector)
        requires
            bit < 32,
    ;
}

/// The register groups lie in memory as the controller has them: the six
/// function-select registers first, then the groups of two registers, each a
/// word after the end of the one before, then the pull-up/down register and
/// its two clock registers.
pub proof fn lemma_layout()
    ensures
        SET_OFFSET == FSEL_OFFSET + 6 * 4 + 4,
        CLR_OFFSET == SET_OFFSET + 2 * 4 + 4,
        LEV_OFFSET == CLR_OFFSET + 2 * 4 + 4,
        EDS_OFFSET == LEV_OFFSET + 2 * 4 + 4,
        REN_OFFSET == EDS_OFFSET + 2 * 4 + 4,
        FEN_OFFSET == REN_OFFSET + 2 * 4 + 4,
        HEN_OFFSET == FEN_OFFSET + 2 * 4 + 4,
        LEN_OFFSET == HEN_OFFSET + 2 * 4 + 4,
        AREN_OFFSET == LEN_OFFSET + 2 * 4 + 4,
        AFEN_OFFSET == AREN_OFFSET + 2 * 4 + 4,
        PUD_OFFSET == AFEN_OFFSET + 2 * 4 + 4,
        PUDCLK_OFFSET == PUD_OFFSET + 4,
        BLOCK_SIZE == PUDCLK_OFFSET + 2 * 4,
{
}

} // verus!
