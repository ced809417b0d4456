//! The mathematical model of the machine, and the values a cycle reports.
use vstd::prelude::*;

verus! {

/// Number of addressable memory bytes.
pub const MEMORY_SIZE: usize = 0xFFF;

/// Address at which a program image starts, and where execution begins.
pub const PROGRAM_START: u16 = 0x200;

/// Largest program image, in bytes, that fits between `PROGRAM_START` and the
/// end of memory.
pub const PROGRAM_CAPACITY: usize = 0xDFF;

/// Number of general-purpose registers; the last one doubles as the flag.
pub const REGISTER_COUNT: usize = 16;

/// Index of the register that receives carry, borrow and collision flags.
pub const FLAG_REGISTER: usize = 0xF;

/// Number of return addresses the call stack can hold.
pub const STACK_DEPTH: usize = 16;

/// Number of keys on the pad.
pub const KEY_COUNT: usize = 16;

/// Display width in pixels.
pub const SCREEN_WIDTH: usize = 64;

/// Display height in pixels.
pub const SCREEN_HEIGHT: usize = 32;

/// Number of display cells, `SCREEN_WIDTH * SCREEN_HEIGHT`.
pub const SCREEN_CELLS: usize = 2048;

/// Number of bytes in the glyph table at the bottom of memory.
pub const FONT_SIZE: usize = 80;

/// Why a load or a cycle was refused. A refused operation leaves the machine
/// as it was.
#[derive(Clone, Copy, Debug, PartialEq, Eq, Structural)]
pub enum CpuError {
    /// The program image does not fit between `PROGRAM_START` and the end of
    /// memory.
    LoadError,
    /// A call was made with sixteen return addresses already on the stack.
    StackOverflow,
    /// A return was made with no return address on the stack.
    StackUnderflow,
    /// An instruction would read or write memory past its last byte, or
    /// resume at an address that does not fit in sixteen bits.
    AddressOutOfRange,
    /// A key instruction named a key above `0xF`.
    KeyOutOfRange,
}

/// What one completed cycle tells the host.
#[derive(Clone, Copy, Debug, PartialEq, Eq, Structural)]
pub struct CycleOutcome {
    /// The sound timer went from one to zero in this cycle.
    pub tone: bool,
    /// The instruction word matched no instruction; it was stepped over.
    pub unknown_instruction: bool,
}

/// The state of one machine as plain mathematical values.
pub struct Machine {
    pub memory: Seq<u8>,
    pub registers: Seq<u8>,
    pub index_register: u16,
    pub program_counter: u16,
    pub stack: Seq<u16>,
    pub stack_pointer: u16,
    pub cur_opcode: u16,
    pub framebuffer: Seq<bool>,
    pub key: Seq<bool>,
    pub delay_timer: u8,
    pub sound_timer: u8,
}

impl Machine {
    /// Every component has the size the hardware fixes.
    pub open spec fn well_sized(self) -> bool {
        &&& self.memory.len() == MEMORY_SIZE
        &&& self.registers.len() == REGISTER_COUNT
        &&& self.stack.len() == STACK_DEPTH
        &&& self.framebuffer.len() == SCREEN_CELLS
        &&& self.key.len() == KEY_COUNT
    }

    /// This machine with register `x` holding `value`.
    pub open spec fn with_register(self, x: int, value: u8) -> Machine {
        Machine { registers: self.registers.update(x, value), ..self }
    }

    /// This machine with the flag register holding `value`.
    pub open spec fn with_flag(self, value: u8) -> Machine {
        self.with_register(FLAG_REGISTER as int, value)
    }

    /// This machine with the program counter moved forward by `bytes`.
    pub open spec fn advanced(self, bytes: int) -> Machine {
        Machine { program_counter: (self.program_counter + bytes) as u16, ..self }
    }
}

/// The glyph table: sixteen glyphs of five rows each, for the digits `0` to `F`.
pub open spec fn font() -> Seq<u8> {
    seq![
        0xF0u8, 0x90u8, 0x90u8, 0x90u8, 0xF0u8,
        0x20u8, 0x60u8, 0x20u8, 0x20u8, 0x70u8,
        0xF0u8, 0x10u8, 0xF0u8, 0x80u8, 0xF0u8,
        0xF0u8, 0x10u8, 0xF0u8, 0x10u8, 0xF0u8,
        0x90u8, 0x90u8, 0xF0u8, 0x10u8, 0x10u8,
        0xF0u8, 0x80u8, 0xF0u8, 0x10u8, 0xF0u8,
        0xF0u8, 0x80u8, 0xF0u8, 0x90u8, 0xF0u8,
        0xF0u8, 0x10u8, 0x20u8, 0x40u8, 0x40u8,
        0xF0u8, 0x90u8, 0xF0u8, 0x90u8, 0xF0u8,
        0xF0u8, 0x90u8, 0xF0u8, 0x10u8, 0xF0u8,
        0xF0u8, 0x90u8, 0xF0u8, 0x90u8, 0x90u8,
        0xE0u8, 0x90u8, 0xE0u8, 0x90u8, 0xE0u8,
        0xF0u8, 0x80u8, 0x80u8, 0x80u8, 0xF0u8,
        0xE0u8, 0x90u8, 0x90u8, 0x90u8, 0xE0u8,
        0xF0u8, 0x80u8, 0xF0u8, 0x80u8, 0xF0u8,
        0xF0u8, 0x80u8, 0xF0u8, 0x80u8, 0x80u8,
    ]
}

/// The machine as it is built: every byte, register, pixel, key and timer
/// zero, and the program counter at zero.
pub open spec fn power_on() -> Machine {
    Machine {
        memory: Seq::new(MEMORY_SIZE as nat, |a: int| 0u8),
        registers: Seq::new(REGISTER_COUNT as nat, |r: int| 0u8),
        index_register: 0,
        program_counter: 0,
        stack: Seq::new(STACK_DEPTH as nat, |s: int| 0u16),
        stack_pointer: 0,
        cur_opcode: 0,
        framebuffer: Seq::new(SCREEN_CELLS as nat, |cell: int| false),
        key: Seq::new(KEY_COUNT as nat, |k: int| false),
        delay_timer: 0,
        sound_timer: 0,
    }
}

/// The machine after a reset: registers, stack, stack pointer, index register
/// and instruction word zero, the glyph table in the first bytes of memory,
/// and the program counter at `PROGRAM_START`. Memory above the glyph table,
/// the display, the keys and the timers keep what they held.
pub open spec fn reset(m: Machine) -> Machine {
    Machine {
        memory: Seq::new(
            m.memory.len(),
            |a: int| if a < FONT_SIZE { font()[a] } else { m.memory[a] },
        ),
        registers: Seq::new(REGISTER_COUNT as nat, |r: int| 0u8),
        index_register: 0,
        program_counter: PROGRAM_START,
        stack: Seq::new(STACK_DEPTH as nat, |s: int| 0u16),
        stack_pointer: 0,
        cur_opcode: 0,
        ..m
    }
}

/// Whether a program image of `len` bytes fits in memory.
pub open spec fn fits(len: nat) -> bool {
    len <= PROGRAM_CAPACITY
}

/// The machine with `program` copied into memory from `PROGRAM_START` on.
pub open spec fn loaded(m: Machine, program: Seq<u8>) -> Machine {
    Machine {
        memory: Seq::new(
            m.memory.len(),
            |a: int|
                if PROGRAM_START <= a < PROGRAM_START + program.len() {
                    program[a - PROGRAM_START]
                } else {
                    m.memory[a]
                },
        ),
        ..m
    }
}

/// The glyph table as bytes.
pub fn font_table() -> (table: [u8; 80])
    ensures
        table@ == font(),
{
    let table: [u8; 80] = [
        0xF0, 0x90, 0x90, 0x90, 0xF0,
        0x20, 0x60, 0x20, 0x20, 0x70,
        0xF0, 0x10, 0xF0, 0x80, 0xF0,
        0xF0, 0x10, 0xF0, 0x10, 0xF0,
        0x90, 0x90, 0xF0, 0x10, 0x10,
        0xF0, 0x80, 0xF0, 0x10, 0xF0,
        0xF0, 0x80, 0xF0, 0x90, 0xF0,
        0xF0, 0x10, 0x20, 0x40, 0x40,
        0xF0, 0x90, 0xF0, 0x90, 0xF0,
        0xF0, 0x90, 0xF0, 0x10, 0xF0,
        0xF0, 0x90, 0xF0, 0x90, 0x90,
        0xE0, 0x90, 0xE0, 0x90, 0xE0,
        0xF0, 0x80, 0x80, 0x80, 0xF0,
        0xE0, 0x90, 0x90, 0x90, 0xE0,
        0xF0, 0x80, 0xF0, 0x80, 0xF0,
        0xF0, 0x80, 0xF0, 0x80, 0x80,
    ];
    assert(table@ =~= font());
    table
}

} // verus!
