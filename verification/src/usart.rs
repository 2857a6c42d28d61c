//! Serial interfaces: frame configuration, baud rate, enabling of function
//! blocks, raw byte transfer and status decoding.

use crate::util::{merge_spec, Access};
use vstd::prelude::*;

verus! {

/// Base of the reset and clock control block.
pub const RCC_BASE: u32 = 0x4002_3800;

/// Clock enable register of the slower peripheral bus.
pub const RCC_APB1ENR: u32 = RCC_BASE + 0x40;

/// Clock enable register of the faster peripheral bus.
pub const RCC_APB2ENR: u32 = RCC_BASE + 0x44;

/// Bit of the first control register that selects 8x oversampling.
pub const OVER8_BIT: u32 = 0x8000;

#[derive(Clone, Copy, Debug, PartialEq, Eq)]
pub enum Interface {
    Usart1,
    Usart2,
    Usart3,
    Uart4,
    Uart5,
    Usart6,
}

#[derive(Clone, Copy, Debug, PartialEq, Eq)]
pub enum Oversampling {
    By16,
    By8,
}

#[derive(Clone, Copy, Debug, PartialEq, Eq)]
pub enum WordLength {
    Bits8,
    Bits9,
}

#[derive(Clone, Copy, Debug, PartialEq, Eq)]
pub enum Parity {
    Odd,
    Even,
}

#[derive(Clone, Copy, Debug, PartialEq, Eq)]
pub enum StopBits {
    Bits05,
    Bits1,
    Bits15,
    Bits2,
}

impl StopBits {
    /// The hardware encoding does not follow the length: one stop bit is 0,
    /// half a bit 1, two bits 2, one and a half 3.
    pub open spec fn bits_spec(&self) -> u32 {
        match *self {
            StopBits::Bits05 => 1,
            StopBits::Bits1 => 0,
            StopBits::Bits15 => 3,
            StopBits::Bits2 => 2,
        }
    }

    pub fn bits(&self) -> (r: u32)
        ensures
            r == self.bits_spec(),
    {
        match *self {
            StopBits::Bits05 => 1,
            StopBits::Bits1 => 0,
            StopBits::Bits15 => 3,
            StopBits::Bits2 => 2,
        }
    }
}

/// A function block or interrupt source that the first control register
/// switches on and off.
#[derive(Clone, Copy, Debug, PartialEq, Eq)]
pub enum Control {
    Usart,
    Transmitter,
    Receiver,
    ParityControl,
    TransmissionCompleteInterrupt,
    ReceiveRegisterNotEmptyInterrupt,
}

/// The control register bits that a masked merge may touch: the bits of all
/// six flags.
pub open spec fn tracked_mask() -> u32 {
    0x246C
}

impl Control {
    /// The flag's bit in the first control register.
    pub open spec fn bit_spec(&self) -> u32 {
        match *self {
            Control::Usart => 0x2000,
            Control::Transmitter => 0x8,
            Control::Receiver => 0x4,
            Control::ParityControl => 0x400,
            Control::TransmissionCompleteInterrupt => 0x40,
            Control::ReceiveRegisterNotEmptyInterrupt => 0x20,
        }
    }

    /// Every flag lies inside the tracked mask.
    pub proof fn lemma_bit_tracked(&self)
        ensures
            self.bit_spec() & !tracked_mask() == 0,
            self.bit_spec() & tracked_mask() == self.bit_spec(),
    {
        let b = self.bit_spec();
        assert(b == 0x2000 || b == 0x8 || b == 0x4 || b == 0x400 || b == 0x40 || b == 0x20);
        assert((b == 0x2000 || b == 0x8 || b == 0x4 || b == 0x400 || b == 0x40 || b == 0x20) ==> (b
            & !0x246Cu32 == 0 && b & 0x246Cu32 == b)) by (bit_vector);
    }

    pub fn bit(&self) -> (r: u32)
        ensures
            r == self.bit_spec(),
    {
        match *self {
            Control::Usart => 0x2000,
            Control::Transmitter => 0x8,
            Control::Receiver => 0x4,
            Control::ParityControl => 0x400,
            Control::TransmissionCompleteInterrupt => 0x40,
            Control::ReceiveRegisterNotEmptyInterrupt => 0x20,
        }
    }

    /// The set of this flag and `rhs`.
    pub fn bitor(self, rhs: Control) -> (r: Controls)
        ensures
            r.bits() == self.bit_spec() | rhs.bit_spec(),
            r.wf(),
    {
        self.as_controls().bitor(rhs)
    }

    /// The mask of all tracked flags.
    pub fn get_bitmask() -> (r: u32)
        ensures
            r == tracked_mask(),
    {
        let all = Control::Usart.bitor(Control::Transmitter).bitor(Control::Receiver).bitor(
            Control::ParityControl,
        ).bitor(Control::TransmissionCompleteInterrupt).bitor(
            Control::ReceiveRegisterNotEmptyInterrupt,
        );
        assert(0x2000u32 | 0x8u32 | 0x4u32 | 0x400u32 | 0x40u32 | 0x20u32 == 0x246Cu32)
            by (bit_vector);
        all.0
    }
}

/// A set of control flags, as their bits. It never holds a bit outside the
/// tracked mask.
#[derive(Clone, Copy, Debug, PartialEq, Eq)]
pub struct Controls(u32);

impl Controls {
    #[verifier::type_invariant]
    spec fn only_tracked(&self) -> bool {
        self.0 & !tracked_mask() == 0
    }

    /// The bits of the flags in the set.
    pub closed spec fn bits(&self) -> u32 {
        self.0
    }

    /// No bit lies outside the tracked mask.
    pub open spec fn wf(&self) -> bool {
        self.bits() & !tracked_mask() == 0
    }

    /// The set with `rhs` added. Union is associative and commutative, as
    /// the bitwise or is.
    pub fn bitor(self, rhs: Control) -> (r: Controls)
        ensures
            r.bits() == self.bits() | rhs.bit_spec(),
            r.wf(),
    {
        proof {
            use_type_invariant(&self);
            rhs.lemma_bit_tracked();
            let a = self.0;
            let b = rhs.bit_spec();
            assert((a | b) & !0x246Cu32 == 0) by (bit_vector)
                requires
                    a & !0x246Cu32 == 0,
                    b & !0x246Cu32 == 0,
            ;
        }
        Controls(self.0 | rhs.bit())
    }

    /// The bits of the set.
    pub fn value(&self) -> (r: u32)
        ensures
            r == self.bits(),
            self.wf(),
    {
        proof {
            use_type_invariant(self);
        }
        self.0
    }
}

/// Anything that stands for a set of control flags.
pub trait AsControls {
    /// The bits of the set.
    spec fn control_bits(&self) -> u32;

    fn as_controls(&self) -> (r: Controls)
        ensures
            r.bits() == self.control_bits(),
            r.wf(),
    ;
}

impl AsControls for Control {
    open spec fn control_bits(&self) -> u32 {
        self.bit_spec()
    }

    fn as_controls(&self) -> (r: Controls) {
        proof {
            self.lemma_bit_tracked();
        }
        Controls(self.bit())
    }
}

impl AsControls for Controls {
    open spec fn control_bits(&self) -> u32 {
        self.bits()
    }

    fn as_controls(&self) -> (r: Controls) {
        proof {
            use_type_invariant(self);
        }
        *self
    }
}

/// Union of flag sets does not depend on grouping or order.
pub proof fn lemma_union_associative(a: Control, b: Control, c: Control)
    ensures
        (a.bit_spec() | b.bit_spec()) | c.bit_spec() == a.bit_spec() | (b.bit_spec()
            | c.bit_spec()),
        a.bit_spec() | b.bit_spec() == b.bit_spec() | a.bit_spec(),
{
    let x = a.bit_spec();
    let y = b.bit_spec();
    let z = c.bit_spec();
    assert((x | y) | z == x | (y | z) && x | y == y | x) by (bit_vector);
}

/// A masked merge sets exactly the requested flags among the tracked ones,
/// whatever was enabled before, and keeps every untracked bit of the word.
pub proof fn lemma_masked_merge(word: u32, controls: Controls)
    requires
        controls.wf(),
    ensures
        merge_spec(word, tracked_mask(), controls.bits()) & tracked_mask() == controls.bits(),
        merge_spec(word, tracked_mask(), controls.bits()) & !tracked_mask() == word
            & !tracked_mask(),
{
    let c = controls.bits();
    assert(((word & !0x246Cu32) | c) & 0x246Cu32 == c && ((word & !0x246Cu32) | c) & !0x246Cu32
        == word & !0x246Cu32) by (bit_vector)
        requires
            c & !0x246Cu32 == 0,
    ;
}

/// Of two masked merges in a row only the second shows among the tracked
/// flags, and the untracked bits are still those of the word before both.
pub proof fn lemma_masked_merge_twice(word: u32, first: Controls, second: Controls)
    requires
        first.wf(),
        second.wf(),
    ensures
        merge_spec(
            merge_spec(word, tracked_mask(), first.bits()),
            tracked_mask(),
            second.bits(),
        ) & tracked_mask() == second.bits(),
        merge_spec(
            merge_spec(word, tracked_mask(), first.bits()),
            tracked_mask(),
            second.bits(),
        ) & !tracked_mask() == word & !tracked_mask(),
{
    let once = merge_spec(word, tracked_mask(), first.bits());
    lemma_masked_merge(word, first);
    lemma_masked_merge(once, second);
}

/// Bit clock divisor: eight clock ticks per bit and oversampling step, twice
/// that under 16x oversampling.
pub open spec fn baud_divisor(baud: int, over8: int) -> int {
    baud * 8 * (2 - over8)
}

/// Whole part of the clock to divisor ratio.
pub open spec fn baud_mantissa(clock: int, baud: int, over8: int) -> int {
    clock / baud_divisor(baud, over8)
}

/// Sixteenths of the ratio's remainder, rounded half up.
pub open spec fn baud_fraction(clock: int, baud: int, over8: int) -> int {
    ((clock % baud_divisor(baud, over8)) * 16 + baud_divisor(baud, over8) / 2) / baud_divisor(
        baud,
        over8,
    )
}

/// Value of the baud rate register: the mantissa above a four-bit fraction.
pub open spec fn usartdiv_spec(clock: u32, baud: u32, over8: u32) -> u32 {
    ((baud_mantissa(clock as int, baud as int, over8 as int) as u32) << 4u32) | (baud_fraction(
        clock as int,
        baud as int,
        over8 as int,
    ) as u32)
}

/// The mantissa fits a register word and the fraction is at most sixteen.
pub proof fn lemma_baud_parts_bounded(clock: u32, baud: u32, over8: u32)
    requires
        baud > 0,
        over8 <= 1,
    ensures
        baud_divisor(baud as int, over8 as int) == (if over8 == 0 {
            baud * 16
        } else {
            baud * 8
        }),
        0 <= baud_mantissa(clock as int, baud as int, over8 as int) <= clock,
        0 <= baud_fraction(clock as int, baud as int, over8 as int) <= 16,
{
    let d = baud_divisor(baud as int, over8 as int);
    assert(d == (if over8 == 0 { baud * 16 } else { baud * 8 })) by (nonlinear_arith)
        requires
            d == baud * 8 * (2 - over8),
            over8 <= 1,
    ;
    let c = clock as int;
    assert(0 <= c / d <= c) by (nonlinear_arith)
        requires
            d > 0,
            c >= 0,
    ;
    let rem = c % d;
    assert(0 <= rem < d) by (nonlinear_arith)
        requires
            d > 0,
            rem == c % d,
    ;
    let num = rem * 16 + d / 2;
    assert(0 <= num / d <= 16) by (nonlinear_arith)
        requires
            d > 0,
            0 <= num < 17 * d,
    ;
}

/// Mantissa and fraction, read together as a count of sixteenths, are the
/// clock to divisor ratio in sixteenths rounded half up, so they miss the
/// exact ratio by at most half a sixteenth. Where the fraction stays below
/// sixteen and the mantissa fits twenty-eight bits, the register value is
/// that count.
pub proof fn lemma_baud_rounds_half_up(clock: u32, baud: u32, over8: u32)
    requires
        baud > 0,
        over8 <= 1,
    ensures
        16 * baud_mantissa(clock as int, baud as int, over8 as int) + baud_fraction(
            clock as int,
            baud as int,
            over8 as int,
        ) == (16 * clock + baud_divisor(baud as int, over8 as int) / 2) / baud_divisor(
            baud as int,
            over8 as int,
        ),
        -(baud_divisor(baud as int, over8 as int) / 2) <= 16 * clock - (16 * baud_mantissa(
            clock as int,
            baud as int,
            over8 as int,
        ) + baud_fraction(clock as int, baud as int, over8 as int)) * baud_divisor(
            baud as int,
            over8 as int,
        ) <= baud_divisor(baud as int, over8 as int) / 2,
        baud_fraction(clock as int, baud as int, over8 as int) < 16 && baud_mantissa(
            clock as int,
            baud as int,
            over8 as int,
        ) < 0x1000_0000 ==> usartdiv_spec(clock, baud, over8) == 16 * baud_mantissa(
            clock as int,
            baud as int,
            over8 as int,
        ) + baud_fraction(clock as int, baud as int, over8 as int),
{
    lemma_baud_parts_bounded(clock, baud, over8);
    let d = baud_divisor(baud as int, over8 as int);
    let c = clock as int;
    let m = baud_mantissa(c, baud as int, over8 as int);
    let f = baud_fraction(c, baud as int, over8 as int);
    let rem = c % d;
    let x = rem * 16 + d / 2;
    vstd::arithmetic::div_mod::lemma_fundamental_div_mod(c, d);
    vstd::arithmetic::div_mod::lemma_hoist_over_denominator(x, 16 * m, d as nat);
    assert(x + (16 * m) * d == 16 * c + d / 2) by (nonlinear_arith)
        requires
            c == d * m + rem,
            x == rem * 16 + d / 2,
    ;
    let q = 16 * m + f;
    assert(q == (16 * c + d / 2) / d);
    vstd::arithmetic::div_mod::lemma_fundamental_div_mod(16 * c + d / 2, d);
    vstd::arithmetic::div_mod::lemma_mod_bound(16 * c + d / 2, d);
    assert(q * d == d * q) by (nonlinear_arith);
    if f < 16 && m < 0x1000_0000 {
        let mw = m as u32;
        let fw = f as u32;
        assert((mw << 4u32) | fw == mw * 16 + fw) by (bit_vector)
            requires
                mw < 0x1000_0000,
                fw < 16,
        ;
    }
}

/// Baud rate register value for a peripheral clock, a baud rate and the
/// oversampling flag (1 for 8x, 0 for 16x).
pub fn compute_usartdiv(clock_freq: u32, baud: u32, over8: u32) -> (r: u32)
    requires
        baud > 0,
        over8 <= 1,
    ensures
        r == usartdiv_spec(clock_freq, baud, over8),
{
    proof {
        lemma_baud_parts_bounded(clock_freq, baud, over8);
    }
    let wide: u64 = baud as u64;
    let divisor: u64 = if over8 == 0 {
        wide * 16
    } else {
        wide * 8
    };
    let clock: u64 = clock_freq as u64;
    let mantissa: u64 = clock / divisor;
    let remainder: u64 = clock % divisor;
    let fraction: u64 = (remainder * 16 + (divisor / 2)) / divisor;
    ((mantissa as u32) << 4) | (fraction as u32)
}

/// A capture of the status register at one load, cut to its defined bits.
#[derive(Clone, Copy, Debug, PartialEq, Eq)]
pub struct Status(u32);

impl Status {
    /// The captured bits.
    pub closed spec fn bits(&self) -> u32 {
        self.0
    }

    /// Keeps the nine defined status bits of `value`.
    pub fn from(value: u32) -> (r: Self)
        ensures
            r.bits() == value & 0x1FF,
    {
        Self(value & 0x1FF)
    }

    pub fn is_transmission_complete(&self) -> (r: bool)
        ensures
            r == (self.bits() & 0x40 != 0),
    {
        (self.0 & 0x40) > 0
    }

    pub fn is_receive_register_not_empty(&self) -> (r: bool)
        ensures
            r == (self.bits() & 0x20 != 0),
    {
        (self.0 & 0x20) > 0
    }

    pub fn is_overrun_error(&self) -> (r: bool)
        ensures
            r == (self.bits() & 0x8 != 0),
    {
        (self.0 & 0x8) > 0
    }
}

impl Interface {
    /// Base address of the interface's register block.
    pub open spec fn base(&self) -> u32 {
        match *self {
            Interface::Usart6 => 0x4001_1400,
            Interface::Usart1 => 0x4001_1000,
            Interface::Uart5 => 0x4000_5000,
            Interface::Uart4 => 0x4000_4C00,
            Interface::Usart3 => 0x4000_4800,
            Interface::Usart2 => 0x4000_4400,
        }
    }

    /// The clock enable register that gates the interface.
    pub open spec fn clock_register(&self) -> u32 {
        match *self {
            Interface::Usart6 | Interface::Usart1 => RCC_APB2ENR,
            _ => RCC_APB1ENR,
        }
    }

    /// Bit of the interface in its clock enable register.
    pub open spec fn clock_bit(&self) -> u32 {
        match *self {
            Interface::Usart6 => 5,
            Interface::Usart1 => 4,
            Interface::Usart2 => 17,
            Interface::Usart3 => 18,
            Interface::Uart4 => 19,
            Interface::Uart5 => 20,
        }
    }

    /// Address of the register at `offset` in the interface's block.
    pub fn get_register(&self, offset: u32) -> (r: u32)
        requires
            self.base() + offset <= u32::MAX,
        ensures
            r == self.base() + offset,
    {
        let base: u32 = match *self {
            Interface::Usart6 => 0x4001_1400,
            Interface::Usart1 => 0x4001_1000,
            Interface::Uart5 => 0x4000_5000,
            Interface::Uart4 => 0x4000_4C00,
            Interface::Usart3 => 0x4000_4800,
            Interface::Usart2 => 0x4000_4400,
        };
        base + offset
    }

    /// Gates the interface's clock: one bit of its clock enable register.
    pub fn enable_clock(&self, enable: bool) -> (r: Access)
        ensures
            r == (Access::SetField {
                address: self.clock_register(),
                offset: self.clock_bit(),
                len: 1,
                value: if enable { 1u32 } else { 0u32 },
            }),
            r.wf(),
    {
        let rcc_register: u32 = match *self {
            Interface::Usart6 | Interface::Usart1 => RCC_APB2ENR,
            _ => RCC_APB1ENR,
        };
        let rcc_bit: u32 = match *self {
            Interface::Usart6 => 5,
            Interface::Usart1 => 4,
            Interface::Usart2 => 17,
            Interface::Usart3 => 18,
            Interface::Uart4 => 19,
            Interface::Uart5 => 20,
        };
        Access::SetField {
            address: rcc_register,
            offset: rcc_bit,
            len: 1,
            value: if enable { 1 } else { 0 },
        }
    }

    pub fn get_control_register_1(&self) -> (r: u32)
        ensures
            r == self.base() + 0xC,
    {
        self.get_register(0xc)
    }

    pub fn get_control_register_2(&self) -> (r: u32)
        ensures
            r == self.base() + 0x10,
    {
        self.get_register(0x10)
    }

    pub fn get_data_register(&self) -> (r: u32)
        ensures
            r == self.base() + 0x4,
    {
        self.get_register(0x4)
    }

    pub fn get_status_register(&self) -> (r: u32)
        ensures
            r == self.base(),
    {
        self.get_register(0x0)
    }

    pub fn get_baud_rate_register(&self) -> (r: u32)
        ensures
            r == self.base() + 0x8,
    {
        self.get_register(0x8)
    }

    /// Bit 15 of the first control register: set for 8x oversampling.
    pub fn set_oversampling(&self, oversampling: Oversampling) -> (r: Access)
        ensures
            r == (Access::SetField {
                address: (self.base() + 0xC) as u32,
                offset: 15,
                len: 1,
                value: if oversampling is By8 { 1u32 } else { 0u32 },
            }),
            r.wf(),
    {
        let value: u32 = match oversampling {
            Oversampling::By8 => 1,
            Oversampling::By16 => 0,
        };
        Access::SetField { address: self.get_control_register_1(), offset: 15, len: 1, value }
    }

    /// Bit 12 of the first control register: set for nine data bits.
    pub fn set_word_length(&self, word_length: WordLength) -> (r: Access)
        ensures
            r == (Access::SetField {
                address: (self.base() + 0xC) as u32,
                offset: 12,
                len: 1,
                value: if word_length is Bits9 { 1u32 } else { 0u32 },
            }),
            r.wf(),
    {
        let value: u32 = match word_length {
            WordLength::Bits9 => 1,
            WordLength::Bits8 => 0,
        };
        Access::SetField { address: self.get_control_register_1(), offset: 12, len: 1, value }
    }

    /// One load and one store of the first control register that leave
    /// exactly the flags of `controls` enabled among the tracked ones and
    /// every other bit as it was.
    pub fn set_enable_disable<T: AsControls>(&self, controls: T) -> (r: Access)
        ensures
            r == (Access::Merge {
                address: (self.base() + 0xC) as u32,
                clear: tracked_mask(),
                set: controls.control_bits(),
            }),
            forall|word: u32| #[trigger]
                r.stored_spec(word) & tracked_mask() == controls.control_bits(),
            forall|word: u32| #[trigger]
                r.stored_spec(word) & !tracked_mask() == word & !tracked_mask(),
    {
        let set = controls.as_controls();
        proof {
            assert forall|word: u32|
                #[trigger] merge_spec(word, tracked_mask(), set.bits()) & tracked_mask()
                    == set.bits() && merge_spec(word, tracked_mask(), set.bits()) & !tracked_mask()
                    == word & !tracked_mask() by {
                lemma_masked_merge(word, set);
            }
        }
        Access::Merge {
            address: self.get_control_register_1(),
            clear: Control::get_bitmask(),
            set: set.value(),
        }
    }

    /// Bit 9 of the first control register: set for odd parity. It counts
    /// only while parity control is enabled.
    pub fn set_parity(&self, parity: Parity) -> (r: Access)
        ensures
            r == (Access::SetField {
                address: (self.base() + 0xC) as u32,
                offset: 9,
                len: 1,
                value: if parity is Odd { 1u32 } else { 0u32 },
            }),
            r.wf(),
    {
        let value: u32 = match parity {
            Parity::Odd => 1,
            Parity::Even => 0,
        };
        Access::SetField { address: self.get_control_register_1(), offset: 9, len: 1, value }
    }

    /// The store that programs the baud rate for a peripheral clock of
    /// `CLOCK` Hz. The oversampling mode is read from `control_word`, the
    /// word loaded from the first control register, so oversampling has to
    /// be configured before the baud rate.
    pub fn set_baud_rate<const CLOCK: u32>(&self, control_word: u32, baud: u32) -> (r: Access)
        requires
            baud > 0,
        ensures
            r == (Access::Store {
                address: (self.base() + 0x8) as u32,
                value: usartdiv_spec(
                    CLOCK,
                    baud,
                    if control_word & OVER8_BIT != 0 { 1u32 } else { 0u32 },
                ),
            }),
    {
        let over8: u32 = if (control_word & OVER8_BIT) > 0 {
            1
        } else {
            0
        };
        let usartdiv = compute_usartdiv(CLOCK, baud, over8);
        Access::Store { address: self.get_baud_rate_register(), value: usartdiv }
    }

    /// Two-bit stop bit field at bit 12 of the second control register.
    pub fn set_stop_bits(&self, stop_bits: StopBits) -> (r: Access)
        ensures
            r == (Access::SetField {
                address: (self.base() + 0x10) as u32,
                offset: 12,
                len: 2,
                value: stop_bits.bits_spec(),
            }),
            r.wf(),
    {
        Access::SetField {
            address: self.get_control_register_2(),
            offset: 12,
            len: 2,
            value: stop_bits.bits(),
        }
    }

    /// One store of `ch` to the data register.
    pub fn write_byte(&self, ch: u8) -> (r: Access)
        ensures
            r == (Access::Store { address: (self.base() + 0x4) as u32, value: ch as u32 }),
    {
        Access::Store { address: self.get_data_register(), value: ch as u32 }
    }

    /// The received byte: the low eight bits of `data_word`, the word loaded
    /// from the data register.
    pub fn read_byte(&self, data_word: u32) -> (r: u8)
        ensures
            r == data_word & 0xFF,
    {
        assert(data_word & 0xFF < 256) by (bit_vector);
        (data_word & 0xFF) as u8
    }

    /// The status snapshot of `status_word`, the word loaded from the
    /// status register.
    pub fn get_status(&self, status_word: u32) -> (r: Status)
        ensures
            r.bits() == status_word & 0x1FF,
    {
        Status::from(status_word)
    }

    /// One load and one store of the first control register that clear the
    /// bit of `control` and nothing else.
    pub fn set_disable(&self, control: Control) -> (r: Access)
        ensures
            r == (Access::Merge {
                address: (self.base() + 0xC) as u32,
                clear: control.bit_spec(),
                set: 0,
            }),
            forall|word: u32| #[trigger] r.stored_spec(word) == word & !control.bit_spec(),
    {
        let bit = control.bit();
        assert forall|word: u32| #[trigger] merge_spec(word, bit, 0) == word & !bit by {
            assert((word & !bit) | 0 == word & !bit) by (bit_vector);
        }
        Access::Merge { address: self.get_control_register_1(), clear: bit, set: 0 }
    }

    /// One load and one store of the first control register that set the
    /// bit of `control` and nothing else.
    pub fn set_enable(&self, control: Control) -> (r: Access)
        ensures
            r == (Access::Merge {
                address: (self.base() + 0xC) as u32,
                clear: 0,
                set: control.bit_spec(),
            }),
            forall|word: u32| #[trigger] r.stored_spec(word) == word | control.bit_spec(),
    {
        let bit = control.bit();
        assert forall|word: u32| #[trigger] merge_spec(word, 0, bit) == word | bit by {
            assert((word & !0u32) | bit == word | bit) by (bit_vector);
        }
        Access::Merge { address: self.get_control_register_1(), clear: 0, set: bit }
    }
}

} // verus!
