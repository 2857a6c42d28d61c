//! System tick timer: a fixed-period tick source.

use crate::util::Access;
use vstd::prelude::*;

verus! {

/// Control and status register.
pub const SYST_CSR: u32 = 0xE000_E010;

/// Reload value register.
pub const SYST_RVR: u32 = 0xE000_E014;

/// Current value register.
pub const SYST_CVR: u32 = 0xE000_E018;

/// Reference clock of the counter, in kHz.
pub const CLOCK_KHZ: u32 = 8000;

/// Tick period, in milliseconds.
pub const PERIOD_MS: u32 = 1;

/// Counter enable, interrupt enable, processor clock source.
pub const ENABLE_BITS: u32 = 0b111;

/// The stores that start the timer, in the order they must be made: the
/// reload value for one period, the current value reset to zero, and only
/// then the enable bits, so that the first period is a full one.
pub fn enable() -> (r: [Access; 3])
    ensures
        r@ == seq![
            (Access::Store { address: SYST_RVR, value: (CLOCK_KHZ * PERIOD_MS - 1) as u32 }),
            (Access::Store { address: SYST_CVR, value: 0 }),
            (Access::Store { address: SYST_CSR, value: ENABLE_BITS }),
        ],
{
    let r = [
        Access::Store { address: SYST_RVR, value: CLOCK_KHZ * PERIOD_MS - 1 },
        Access::Store { address: SYST_CVR, value: 0 },
        Access::Store { address: SYST_CSR, value: ENABLE_BITS },
    ];
    assert(r@ =~= seq![
        (Access::Store { address: SYST_RVR, value: (CLOCK_KHZ * PERIOD_MS - 1) as u32 }),
        (Access::Store { address: SYST_CVR, value: 0 }),
        (Access::Store { address: SYST_CSR, value: ENABLE_BITS }),
    ]);
    r
}

} // verus!
