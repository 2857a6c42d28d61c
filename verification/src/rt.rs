//! Boot layout: the vector table that the processor reads at reset, and the
//! memory preparation that the reset entry performs.

use crate::util::Access;
use vstd::prelude::*;

verus! {

pub const KIB: u32 = 1024;

pub const RAM_START: u32 = 0x2000_0000;

pub const RAM_SIZE: u32 = 128 * KIB;

/// Top of RAM: the stack grows down from here.
pub const INITIAL_STACK_POINTER: u32 = RAM_START + RAM_SIZE;

/// Interrupt number of the second serial interface.
pub const USART2_INTERRUPT_ID: u8 = 38;

/// Sixteen system vectors followed by ninety-six interrupt vectors.
pub const VECTOR_COUNT: usize = 112;

/// What one slot of the vector table holds.
#[derive(Clone, Copy, Debug, PartialEq, Eq)]
pub enum Vector {
    /// The initial stack pointer: a value, not code.
    StackTop,
    /// The reset entry.
    Reset,
    /// The fail-stop handler of faults and traps.
    Default,
    /// The supervisor call entry.
    SvCall,
    /// The system tick entry.
    SysTick,
    /// The entry of the second serial interface's interrupt.
    Usart2,
    /// Nothing: the slot is zero.
    Empty,
}

/// Code addresses of the entries that the table points to.
#[derive(Clone, Copy, Debug, PartialEq, Eq)]
pub struct Entries {
    pub reset: u32,
    pub default_handler: u32,
    pub sv_call: u32,
    pub sys_tick: u32,
    pub usart2: u32,
}

/// The layout that the architecture dictates.
pub open spec fn vector_spec(index: int) -> Vector {
    if index == 0 {
        Vector::StackTop
    } else if index == 1 {
        Vector::Reset
    } else if 2 <= index <= 6 || index == 12 || index == 14 {
        Vector::Default
    } else if index == 11 {
        Vector::SvCall
    } else if index == 15 {
        Vector::SysTick
    } else if index == 16 + USART2_INTERRUPT_ID {
        Vector::Usart2
    } else {
        Vector::Empty
    }
}

/// The word that a slot holds.
pub open spec fn word_spec(vector: Vector, entries: Entries) -> u32 {
    match vector {
        Vector::StackTop => INITIAL_STACK_POINTER,
        Vector::Reset => entries.reset,
        Vector::Default => entries.default_handler,
        Vector::SvCall => entries.sv_call,
        Vector::SysTick => entries.sys_tick,
        Vector::Usart2 => entries.usart2,
        Vector::Empty => 0,
    }
}

/// What slot `index` of the table holds.
pub fn vector(index: usize) -> (r: Vector)
    requires
        index < VECTOR_COUNT,
    ensures
        r == vector_spec(index as int),
{
    if index == 0 {
        Vector::StackTop
    } else if index == 1 {
        Vector::Reset
    } else if (2 <= index && index <= 6) || index == 12 || index == 14 {
        Vector::Default
    } else if index == 11 {
        Vector::SvCall
    } else if index == 15 {
        Vector::SysTick
    } else if index == 54 {
        Vector::Usart2
    } else {
        Vector::Empty
    }
}

/// The whole table, slot by slot: the stack top first, the reset entry
/// second, and zero in every slot that the layout leaves unpopulated.
pub fn isr_vector(entries: &Entries) -> (r: [u32; 112])
    ensures
        forall|i: int| 0 <= i < 112 ==> #[trigger] r@[i] == word_spec(vector_spec(i), *entries),
        r@[0] == INITIAL_STACK_POINTER,
        r@[1] == entries.reset,
        forall|i: int| 0 <= i < 112 && vector_spec(i) is Empty ==> #[trigger] r@[i] == 0,
{
    let mut arr = [0u32;112];
    arr[0] = INITIAL_STACK_POINTER;
    arr[1] = entries.reset;
    arr[2] = entries.default_handler;
    arr[3] = entries.default_handler;
    arr[4] = entries.default_handler;
    arr[5] = entries.default_handler;
    arr[6] = entries.default_handler;
    arr[11] = entries.sv_call;
    arr[12] = entries.default_handler;
    arr[14] = entries.default_handler;
    arr[15] = entries.sys_tick;
    arr[(USART2_INTERRUPT_ID as usize) + 16] = entries.usart2;
    arr
}

/// Addresses that the link step provides.
#[derive(Clone, Copy, Debug, PartialEq, Eq)]
pub struct LinkSymbols {
    /// Start of initialized data in RAM.
    pub sdata: u32,
    /// End of initialized data in RAM.
    pub edata: u32,
    /// Load address of the data image.
    pub etext: u32,
    /// Start of the zero-initialized region.
    pub sbss: u32,
    /// End of the zero-initialized region.
    pub ebss: u32,
}

/// One step of the reset entry.
#[derive(Clone, Copy, Debug, PartialEq, Eq)]
pub enum BootStep {
    /// Copy `len` bytes from `from` to `to`.
    Copy { from: u32, to: u32, len: u32 },
    /// Fill `len` bytes at `at` with zero.
    Zero { at: u32, len: u32 },
    /// Call the entry point, which never returns.
    Enter,
}

/// What the reset entry does, in order: copy the data image from its load
/// address to RAM, clear the zero-initialized region, enter the program.
pub fn reset_handler(symbols: &LinkSymbols) -> (r: [BootStep; 3])
    requires
        symbols.sdata <= symbols.edata,
        symbols.sbss <= symbols.ebss,
    ensures
        r@ == seq![
            (BootStep::Copy {
                from: symbols.etext,
                to: symbols.sdata,
                len: (symbols.edata - symbols.sdata) as u32,
            }),
            (BootStep::Zero { at: symbols.sbss, len: (symbols.ebss - symbols.sbss) as u32 }),
            BootStep::Enter,
        ],
{
    let data_size = symbols.edata - symbols.sdata;
    let bss_size = symbols.ebss - symbols.sbss;
    let r = [
        BootStep::Copy { from: symbols.etext, to: symbols.sdata, len: data_size },
        BootStep::Zero { at: symbols.sbss, len: bss_size },
        BootStep::Enter,
    ];
    assert(r@ =~= seq![
        (BootStep::Copy {
            from: symbols.etext,
            to: symbols.sdata,
            len: (symbols.edata - symbols.sdata) as u32,
        }),
        (BootStep::Zero { at: symbols.sbss, len: (symbols.ebss - symbols.sbss) as u32 }),
        BootStep::Enter,
    ]);
    r
}

/// Base of the interrupt set-enable registers.
pub const NVIC_ISER_BASE: u32 = 0xE000_E100;

/// Enables interrupt `index` in the interrupt controller: one bit, in the
/// set-enable word that holds it. The other bits of the word are kept.
pub fn enable_nvic(index: u8) -> (r: Access)
    ensures
        r == (Access::Merge {
            address: (NVIC_ISER_BASE + (index / 32) * 4) as u32,
            clear: 0,
            set: 1u32 << ((index % 32) as u32),
        }),
{
    let word: u32 = (index / 32) as u32;
    let bit: u32 = (index % 32) as u32;
    Access::Merge { address: NVIC_ISER_BASE + word * 4, clear: 0, set: 1u32 << bit }
}

} // verus!
