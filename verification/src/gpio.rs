//! General-purpose I/O: per-pin configuration and port clock gating.

use crate::util::Access;
use vstd::prelude::*;

verus! {

/// Base of the reset and clock control block.
pub const RCC_BASE: u32 = 0x4002_3800;

/// Clock enable register of the bus that the ports sit on.
pub const RCC_AHB1ENR: u32 = RCC_BASE + 0x30;

/// A port: a block of sixteen pins.
#[derive(Clone, Copy, Debug, PartialEq, Eq)]
pub enum Port {
    A,
}

/// Direction and function of a pin.
#[derive(Clone, Copy, Debug, PartialEq, Eq)]
pub enum Mode {
    Input,
    Output,
    AlternateFunction,
    Analog,
}

/// Pull resistor of a pin. `Floating` connects none.
#[derive(Clone, Copy, Debug, PartialEq, Eq)]
pub enum PullUpDown {
    Floating,
    PullUp,
    PullDown,
}

/// Output driver of a pin.
#[derive(Clone, Copy, Debug, PartialEq, Eq)]
pub enum Type {
    PushPull,
    OpenDrain,
}

/// Slew rate of an output pin.
#[derive(Clone, Copy, Debug, PartialEq, Eq)]
pub enum Speed {
    Low,
    Medium,
    Fast,
    High,
}

impl Mode {
    pub open spec fn bits_spec(&self) -> u32 {
        match *self {
            Mode::Input => 0,
            Mode::Output => 1,
            Mode::AlternateFunction => 2,
            Mode::Analog => 3,
        }
    }

    /// Hardware encoding of the mode.
    pub fn bits(&self) -> (r: u32)
        ensures
            r == self.bits_spec(),
    {
        match *self {
            Mode::Input => 0,
            Mode::Output => 1,
            Mode::AlternateFunction => 2,
            Mode::Analog => 3,
        }
    }
}

impl PullUpDown {
    pub open spec fn bits_spec(&self) -> u32 {
        match *self {
            PullUpDown::Floating => 0,
            PullUpDown::PullUp => 1,
            PullUpDown::PullDown => 2,
        }
    }

    /// Hardware encoding of the pull resistor setting.
    pub fn bits(&self) -> (r: u32)
        ensures
            r == self.bits_spec(),
    {
        match *self {
            PullUpDown::Floating => 0,
            PullUpDown::PullUp => 1,
            PullUpDown::PullDown => 2,
        }
    }
}

impl Type {
    pub open spec fn bits_spec(&self) -> u32 {
        match *self {
            Type::PushPull => 0,
            Type::OpenDrain => 1,
        }
    }

    /// Hardware encoding of the output type.
    pub fn bits(&self) -> (r: u32)
        ensures
            r == self.bits_spec(),
    {
        match *self {
            Type::PushPull => 0,
            Type::OpenDrain => 1,
        }
    }
}

impl Speed {
    pub open spec fn bits_spec(&self) -> u32 {
        match *self {
            Speed::Low => 0,
            Speed::Medium => 1,
            Speed::Fast => 2,
            Speed::High => 3,
        }
    }

    /// Hardware encoding of the output speed.
    pub fn bits(&self) -> (r: u32)
        ensures
            r == self.bits_spec(),
    {
        match *self {
            Speed::Low => 0,
            Speed::Medium => 1,
            Speed::Fast => 2,
            Speed::High => 3,
        }
    }
}

impl Port {
    /// Base address of the port's register block.
    pub open spec fn base(&self) -> u32 {
        match *self {
            Port::A => 0x4002_0000,
        }
    }

    /// Bit of the port in the clock enable register.
    pub open spec fn clock_bit(&self) -> u32 {
        match *self {
            Port::A => 0,
        }
    }

    /// Address of the register at `offset` in the port's block.
    pub fn get_register(&self, offset: u32) -> (r: u32)
        requires
            self.base() + offset <= u32::MAX,
        ensures
            r == self.base() + offset,
    {
        let base: u32 = match *self {
            Port::A => 0x4002_0000,
        };
        base + offset
    }

    pub fn get_output_data_register(&self) -> (r: u32)
        ensures
            r == self.base() + 0x14,
    {
        self.get_register(0x14)
    }

    pub fn get_output_type_register(&self) -> (r: u32)
        ensures
            r == self.base() + 0x4,
    {
        self.get_register(0x4)
    }

    pub fn get_output_speed_register(&self) -> (r: u32)
        ensures
            r == self.base() + 0x8,
    {
        self.get_register(0x8)
    }

    pub fn get_pull_up_down_register(&self) -> (r: u32)
        ensures
            r == self.base() + 0xC,
    {
        self.get_register(0xC)
    }

    pub fn get_mode_register(&self) -> (r: u32)
        ensures
            r == self.base(),
    {
        self.get_register(0x0)
    }

    pub fn get_alternate_function_low_register(&self) -> (r: u32)
        ensures
            r == self.base() + 0x20,
    {
        self.get_register(0x20)
    }

    pub fn get_alternate_function_high_register(&self) -> (r: u32)
        ensures
            r == self.base() + 0x24,
    {
        self.get_register(0x24)
    }

    /// Gates the port's clock: one bit of the clock enable register. The
    /// other operations act on the hardware only while the clock runs.
    pub fn enable_clock(&self, enable: bool) -> (r: Access)
        ensures
            r == (Access::SetField {
                address: RCC_AHB1ENR,
                offset: self.clock_bit(),
                len: 1,
                value: if enable { 1u32 } else { 0u32 },
            }),
            r.wf(),
    {
        let offset: u32 = match *self {
            Port::A => 0,
        };
        Access::SetField {
            address: RCC_AHB1ENR,
            offset,
            len: 1,
            value: if enable { 1 } else { 0 },
        }
    }
}

/// One pin of a port. Its index is below 16.
pub struct Pin {
    pin: u8,
    port: Port,
}

impl Pin {
    #[verifier::type_invariant]
    spec fn index_in_range(&self) -> bool {
        self.pin < 16
    }

    /// Index of the pin in its port.
    pub closed spec fn index(&self) -> u8 {
        self.pin
    }

    /// The port that the pin belongs to.
    pub closed spec fn port(&self) -> Port {
        self.port
    }

    /// Pin `pin` of `port`.
    pub fn from_port_and_pin(port: Port, pin: u8) -> (r: Self)
        requires
            pin < 16,
        ensures
            r.index() == pin,
            r.port() == port,
    {
        Pin { port, pin }
    }

    /// Two-bit mode field at twice the pin index.
    pub fn set_mode(&self, mode: Mode) -> (r: Access)
        ensures
            self.index() < 16,
            r == (Access::SetField {
                address: self.port().base(),
                offset: (self.index() * 2) as u32,
                len: 2,
                value: mode.bits_spec(),
            }),
            r.wf(),
    {
        proof {
            use_type_invariant(self);
        }
        let pin: u32 = self.pin as u32;
        Access::SetField {
            address: self.port.get_mode_register(),
            offset: pin * 2,
            len: 2,
            value: mode.bits(),
        }
    }

    /// One-bit output type field at the pin index.
    pub fn set_type(&self, gpio_type: Type) -> (r: Access)
        ensures
            self.index() < 16,
            r == (Access::SetField {
                address: (self.port().base() + 0x4) as u32,
                offset: self.index() as u32,
                len: 1,
                value: gpio_type.bits_spec(),
            }),
            r.wf(),
    {
        proof {
            use_type_invariant(self);
        }
        Access::SetField {
            address: self.port.get_output_type_register(),
            offset: self.pin as u32,
            len: 1,
            value: gpio_type.bits(),
        }
    }

    /// Two-bit speed field at twice the pin index.
    pub fn set_speed(&self, speed: Speed) -> (r: Access)
        ensures
            self.index() < 16,
            r == (Access::SetField {
                address: (self.port().base() + 0x8) as u32,
                offset: (self.index() * 2) as u32,
                len: 2,
                value: speed.bits_spec(),
            }),
            r.wf(),
    {
        proof {
            use_type_invariant(self);
        }
        let pin: u32 = self.pin as u32;
        Access::SetField {
            address: self.port.get_output_speed_register(),
            offset: pin * 2,
            len: 2,
            value: speed.bits(),
        }
    }

    /// One-bit output level at the pin index.
    pub fn set(&self, value: bool) -> (r: Access)
        ensures
            self.index() < 16,
            r == (Access::SetField {
                address: (self.port().base() + 0x14) as u32,
                offset: self.index() as u32,
                len: 1,
                value: if value { 1u32 } else { 0u32 },
            }),
            r.wf(),
    {
        proof {
            use_type_invariant(self);
        }
        Access::SetField {
            address: self.port.get_output_data_register(),
            offset: self.pin as u32,
            len: 1,
            value: if value { 1 } else { 0 },
        }
    }

    /// Four-bit alternate function field: pins 0 to 7 in the low register,
    /// pins 8 to 15 in the high one, at four times the index within it.
    pub fn set_alternate_function(&self, alternate_function: u8) -> (r: Access)
        requires
            alternate_function < 16,
        ensures
            self.index() < 16,
            r == (Access::SetField {
                address: (self.port().base() + if self.index() < 8 { 0x20u32 } else { 0x24u32 })
                    as u32,
                offset: ((self.index() % 8) * 4) as u32,
                len: 4,
                value: alternate_function as u32,
            }),
            r.wf(),
    {
        proof {
            use_type_invariant(self);
        }
        let afr = if self.pin < 8 {
            self.port.get_alternate_function_low_register()
        } else {
            self.port.get_alternate_function_high_register()
        };
        let afr_index: u32 = (self.pin % 8) as u32;
        Access::SetField {
            address: afr,
            offset: afr_index * 4,
            len: 4,
            value: alternate_function as u32,
        }
    }

    /// Two-bit pull resistor field at twice the pin index.
    pub fn set_pull_up_down(&self, pull_up_down: PullUpDown) -> (r: Access)
        ensures
            self.index() < 16,
            r == (Access::SetField {
                address: (self.port().base() + 0xC) as u32,
                offset: (self.index() * 2) as u32,
                len: 2,
                value: pull_up_down.bits_spec(),
            }),
            r.wf(),
    {
        proof {
            use_type_invariant(self);
        }
        let pin: u32 = self.pin as u32;
        Access::SetField {
            address: self.port.get_pull_up_down_register(),
            offset: pin * 2,
            len: 2,
            value: pull_up_down.bits(),
        }
    }
}

} // verus!
