//! The executable machine and its cycle.
use vstd::prelude::*;
use crate::machine::{
    Machine, CpuError, CycleOutcome, power_on, reset, fits, loaded, font_table, font, FONT_SIZE,
    MEMORY_SIZE, PROGRAM_START, PROGRAM_CAPACITY, REGISTER_COUNT, KEY_COUNT, SCREEN_WIDTH,
    SCREEN_HEIGHT,
};
use crate::decode::{opcode_family, opcode_n, opcode_nn};
use crate::semantics::{
    blank_display, fetch_fault, fetch, recognized, execute_fault, execute, tone, tick,
    cycle_fault, refused, cycle, cycle_outcome,
};
use crate::opcodes::{
    opcode_0_0ee, opcode_1_nnn, opcode_2_nnn, opcode_3_xnn, opcode_4_xnn, opcode_5_xy0,
    opcode_6_xnn, opcode_7_xnn, opcode_8_xy0, opcode_8_xy1, opcode_8_xy2, opcode_8_xy3,
    opcode_8_xy4, opcode_8_xy5, opcode_8_xy6, opcode_8_xy7, opcode_8_xye, opcode_9_xy0,
    opcode_a_nnn, opcode_b_nnn, opcode_c_xnn_with, opcode_d_xyn, opcode_e_x9e, opcode_e_xa1,
    opcode_f_x07, opcode_f_x0a, opcode_f_x15, opcode_f_x18, opcode_f_x1e, opcode_f_x29,
    opcode_f_x33, opcode_f_x55, opcode_f_x65, random_byte,
};

verus! {

/// One machine. The fields are the hardware's registers and memories, open to
/// the host: the host writes `key` between cycles and reads `framebuffer`
/// after them.
#[derive(Clone, Copy, Debug, PartialEq, Eq)]
pub struct CPU {
    /// Memory, 4095 bytes. The glyph table sits in the first eighty bytes and
    /// programs start at `0x200`.
    pub game_memory: [u8; 0xFFF],
    /// The registers `V0` to `VF`.
    pub registers: [u8; 16],
    /// The index register `I`.
    pub index_register: u16,
    /// The address of the next instruction.
    pub program_counter: u16,
    /// The call sites of the subroutines being run, oldest first.
    pub stack: [u16; 16],
    /// The number of call sites on the stack.
    pub stack_pointer: u16,
    /// The instruction word fetched last.
    pub cur_opcode: u16,
    /// The display, row by row; the cell of column `c` in row `r` is at
    /// `c + 64 * r`.
    pub framebuffer: [bool; 2048],
    /// The keys `0` to `F`, `true` while pressed.
    pub key: [bool; 16],
    /// The delay timer.
    pub delay_timer: u8,
    /// The sound timer.
    pub sound_timer: u8,
}

impl View for CPU {
    type V = Machine;

    open spec fn view(&self) -> Machine {
        Machine {
            memory: self.game_memory@,
            registers: self.registers@,
            index_register: self.index_register,
            program_counter: self.program_counter,
            stack: self.stack@,
            stack_pointer: self.stack_pointer,
            cur_opcode: self.cur_opcode,
            framebuffer: self.framebuffer@,
            key: self.key@,
            delay_timer: self.delay_timer,
            sound_timer: self.sound_timer,
        }
    }
}

impl CPU {
    /// Builds a machine with everything zero.
    pub fn new() -> (cpu: Self)
        ensures
            cpu@ == power_on(),
    {
        let cpu = Self {
            game_memory: [0u8; 0xFFF],
            registers: [0u8; 16],
            index_register: 0,
            program_counter: 0,
            stack: [0u16; 16],
            stack_pointer: 0,
            cur_opcode: 0,
            framebuffer: [false; 2048],
            key: [false; 16],
            delay_timer: 0,
            sound_timer: 0,
        };
        assert(cpu@.memory =~= power_on().memory);
        assert(cpu@.registers =~= power_on().registers);
        assert(cpu@.stack =~= power_on().stack);
        assert(cpu@.framebuffer =~= power_on().framebuffer);
        assert(cpu@.key =~= power_on().key);
        assert(cpu@ =~= power_on());
        cpu
    }

    /// The model of any machine has the sizes the hardware fixes, so that the
    /// laws of [`crate::laws`] hold of it.
    pub proof fn view_is_well_sized(&self)
        ensures
            self@.well_sized(),
    {
    }

    /// Resets the machine: see [`reset`].
    pub fn initialize(&mut self)
        ensures
            final(self)@ == reset(old(self)@),
    {
        self.index_register = 0;
        self.program_counter = PROGRAM_START;
        self.stack_pointer = 0;
        self.cur_opcode = 0;
        self.stack = [0u16; 16];
        self.registers = [0u8; 16];
        let table: [u8; 80] = font_table();
        let mut i: usize = 0;
        while i < FONT_SIZE
            invariant
                i <= FONT_SIZE,
                table@ == font(),
                forall|a: int| 0 <= a < i ==> self.game_memory@[a] == font()[a],
                forall|a: int| i <= a < MEMORY_SIZE ==> self.game_memory@[a] == old(self).game_memory@[a],
                self.registers@ == reset(old(self)@).registers,
                self.stack@ == reset(old(self)@).stack,
                self.index_register == 0,
                self.program_counter == PROGRAM_START,
                self.stack_pointer == 0,
                self.cur_opcode == 0,
                self.framebuffer == old(self).framebuffer,
                self.key == old(self).key,
                self.delay_timer == old(self).delay_timer,
                self.sound_timer == old(self).sound_timer,
            decreases FONT_SIZE - i,
        {
            self.game_memory[i] = table[i];
            i += 1;
        }
        assert(self@.memory =~= reset(old(self)@).memory);
        assert(self@ =~= reset(old(self)@));
    }

    /// Copies a program image into memory from `PROGRAM_START` on. An image
    /// that does not fit is refused as a whole, and nothing is written.
    pub fn load_rom(&mut self, program: &[u8]) -> (r: Result<(), CpuError>)
        ensures
            fits(program@.len()) ==> r is Ok && final(self)@ == loaded(old(self)@, program@),
            !fits(program@.len()) ==> r == Err::<(), CpuError>(CpuError::LoadError) && final(self)@
                == old(self)@,
    {
        let len: usize = program.len();
        if len > PROGRAM_CAPACITY {
            return Err(CpuError::LoadError);
        }
        let mut i: usize = 0;
        while i < len
            invariant
                i <= len,
                len == program@.len(),
                len <= PROGRAM_CAPACITY,
                forall|a: int|
                    PROGRAM_START <= a < PROGRAM_START + i ==> self.game_memory@[a] == program@[a
                        - PROGRAM_START],
                forall|a: int|
                    0 <= a < MEMORY_SIZE && !(PROGRAM_START <= a < PROGRAM_START + i)
                        ==> self.game_memory@[a] == old(self).game_memory@[a],
                self.registers == old(self).registers,
                self.stack == old(self).stack,
                self.index_register == old(self).index_register,
                self.program_counter == old(self).program_counter,
                self.stack_pointer == old(self).stack_pointer,
                self.cur_opcode == old(self).cur_opcode,
                self.framebuffer == old(self).framebuffer,
                self.key == old(self).key,
                self.delay_timer == old(self).delay_timer,
                self.sound_timer == old(self).sound_timer,
            decreases len - i,
        {
            self.game_memory[0x200 + i] = program[i];
            i += 1;
        }
        assert(self@.memory =~= loaded(old(self)@, program@).memory);
        assert(self@ =~= loaded(old(self)@, program@));
        Ok(())
    }

    /// Fetches the instruction word at the program counter into `cur_opcode`:
    /// see [`fetch`].
    pub fn get_next_opcode(&mut self) -> (r: Result<(), CpuError>)
        ensures
            match r {
                Ok(()) => fetch_fault(old(self)@) is None && final(self)@ == fetch(old(self)@),
                Err(e) => fetch_fault(old(self)@) == Some(e) && final(self)@ == old(self)@,
            },
    {
        let at: usize = self.program_counter as usize;
        if at + 1 >= MEMORY_SIZE {
            return Err(CpuError::AddressOutOfRange);
        }
        let high: u16 = self.game_memory[at] as u16;
        let low: u16 = self.game_memory[at + 1] as u16;
        assert(high << 8 | low == high * 256 + low) by (bit_vector)
            requires
                high < 256,
                low < 256,
        ;
        self.cur_opcode = high << 8 | low;
        Ok(())
    }

    /// Clears every pixel of the display.
    pub fn clear_display(&mut self)
        ensures
            final(self)@ == crate::semantics::clear_display(old(self)@),
    {
        self.framebuffer = [false; 2048];
        assert(self@.framebuffer =~= blank_display());
    }

    /// Housekeeping at the end of a cycle: see [`tick`]. Returns whether the
    /// sound timer went from one to zero.
    pub fn tick_timers(&mut self) -> (sounding: bool)
        ensures
            final(self)@ == tick(old(self)@),
            sounding == tone(old(self)@),
    {
        if self.delay_timer > 0 {
            self.delay_timer -= 1;
        }
        let sounding: bool = self.sound_timer == 1;
        if self.sound_timer > 0 {
            self.sound_timer -= 1;
        }
        sounding
    }

    /// Runs the instruction in `cur_opcode` and says whether it was one:
    /// see [`execute`].
    pub fn execute(&mut self, random: u8) -> (r: Result<bool, CpuError>)
        requires
            old(self).program_counter <= 0xFFFB,
        ensures
            match r {
                Ok(known) => {
                    &&& execute_fault(old(self)@, old(self).cur_opcode) is None
                    &&& final(self)@ == execute(old(self)@, old(self).cur_opcode, random)
                    &&& known == recognized(old(self).cur_opcode)
                },
                Err(e) => {
                    &&& execute_fault(old(self)@, old(self).cur_opcode) == Some(e)
                    &&& final(self)@ == old(self)@
                },
            },
    {
        let opcode: u16 = self.cur_opcode;
        let family: u16 = opcode_family(opcode);
        let n: u8 = opcode_n(opcode);
        let nn: u8 = opcode_nn(opcode);
        let mut known: bool = true;
        match family {
            0x0 => match n {
                0x0 => {
                    self.clear_display();
                    self.program_counter += 2;
                },
                0xE => {
                    match opcode_0_0ee(self) {
                        Ok(()) => {},
                        Err(e) => {
                            return Err(e);
                        },
                    }
                },
                _ => {
                    known = false;
                    self.program_counter += 2;
                },
            },
            0x1 => opcode_1_nnn(self, opcode),
            0x2 => {
                match opcode_2_nnn(self, opcode) {
                    Ok(()) => {},
                    Err(e) => {
                        return Err(e);
                    },
                }
            },
            0x3 => opcode_3_xnn(self, opcode),
            0x4 => opcode_4_xnn(self, opcode),
            0x5 => {
                opcode_5_xy0(self, opcode);
                self.program_counter += 2;
            },
            0x6 => {
                opcode_6_xnn(self, opcode);
                self.program_counter += 2;
            },
            0x7 => {
                opcode_7_xnn(self, opcode);
                self.program_counter += 2;
            },
            0x8 => {
                match n {
                    0x0 => opcode_8_xy0(self, opcode),
                    0x1 => opcode_8_xy1(self, opcode),
                    0x2 => opcode_8_xy2(self, opcode),
                    0x3 => opcode_8_xy3(self, opcode),
                    0x4 => opcode_8_xy4(self, opcode),
                    0x5 => opcode_8_xy5(self, opcode),
                    0x6 => opcode_8_xy6(self, opcode),
                    0x7 => opcode_8_xy7(self, opcode),
                    0xE => opcode_8_xye(self, opcode),
                    _ => {
                        known = false;
                    },
                }
                self.program_counter += 2;
            },
            0x9 => opcode_9_xy0(self, opcode),
            0xA => {
                opcode_a_nnn(self, opcode);
                self.program_counter += 2;
            },
            0xB => opcode_b_nnn(self, opcode),
            0xC => {
                opcode_c_xnn_with(self, opcode, random);
                self.program_counter += 2;
            },
            0xD => {
                match opcode_d_xyn(self, opcode) {
                    Ok(()) => {
                        self.program_counter += 2;
                    },
                    Err(e) => {
                        return Err(e);
                    },
                }
            },
            0xE => match nn {
                0x9E => {
                    match opcode_e_x9e(self, opcode) {
                        Ok(()) => {},
                        Err(e) => {
                            return Err(e);
                        },
                    }
                },
                0xA1 => {
                    match opcode_e_xa1(self, opcode) {
                        Ok(()) => {},
                        Err(e) => {
                            return Err(e);
                        },
                    }
                },
                _ => {
                    known = false;
                    self.program_counter += 2;
                },
            },
            _ => match nn {
                0x07 => {
                    opcode_f_x07(self, opcode);
                    self.program_counter += 2;
                },
                0x0A => opcode_f_x0a(self, opcode),
                0x15 => {
                    opcode_f_x15(self, opcode);
                    self.program_counter += 2;
                },
                0x18 => {
                    opcode_f_x18(self, opcode);
                    self.program_counter += 2;
                },
                0x1E => {
                    opcode_f_x1e(self, opcode);
                    self.program_counter += 2;
                },
                0x29 => {
                    opcode_f_x29(self, opcode);
                    self.program_counter += 2;
                },
                0x33 => {
                    match opcode_f_x33(self, opcode) {
                        Ok(()) => {
                            self.program_counter += 2;
                        },
                        Err(e) => {
                            return Err(e);
                        },
                    }
                },
                0x55 => {
                    match opcode_f_x55(self, opcode) {
                        Ok(()) => {
                            self.program_counter += 2;
                        },
                        Err(e) => {
                            return Err(e);
                        },
                    }
                },
                0x65 => {
                    match opcode_f_x65(self, opcode) {
                        Ok(()) => {
                            self.program_counter += 2;
                        },
                        Err(e) => {
                            return Err(e);
                        },
                    }
                },
                _ => {
                    known = false;
                    self.program_counter += 2;
                },
            },
        }
        Ok(known)
    }

    /// Runs one cycle with `random` as the byte that a random instruction
    /// would draw: fetch, the instruction, housekeeping. A refused cycle
    /// changes nothing but `cur_opcode`, and the timers do not move.
    pub fn update_with(&mut self, random: u8) -> (r: Result<CycleOutcome, CpuError>)
        ensures
            match r {
                Ok(outcome) => {
                    &&& cycle_fault(old(self)@) is None
                    &&& final(self)@ == cycle(old(self)@, random)
                    &&& outcome == cycle_outcome(old(self)@, random)
                },
                Err(e) => cycle_fault(old(self)@) == Some(e) && final(self)@ == refused(
                    old(self)@,
                ),
            },
    {
        match self.get_next_opcode() {
            Ok(()) => {},
            Err(e) => {
                return Err(e);
            },
        }
        match self.execute(random) {
            Ok(known) => {
                let sounding: bool = self.tick_timers();
                Ok(CycleOutcome { tone: sounding, unknown_instruction: !known })
            },
            Err(e) => Err(e),
        }
    }

    /// Runs one cycle: fetch, the instruction, housekeeping. The outcome is
    /// that of [`CPU::update_with`] for the byte that the random generator
    /// gave, which only the random instruction asks for.
    pub fn update(&mut self) -> (r: Result<CycleOutcome, CpuError>)
        ensures
            match r {
                Ok(outcome) => {
                    &&& cycle_fault(old(self)@) is None
                    &&& exists|random: u8|
                        final(self)@ == cycle(old(self)@, random) && outcome == cycle_outcome(
                            old(self)@,
                            random,
                        )
                },
                Err(e) => cycle_fault(old(self)@) == Some(e) && final(self)@ == refused(
                    old(self)@,
                ),
            },
    {
        match self.get_next_opcode() {
            Ok(()) => {},
            Err(e) => {
                return Err(e);
            },
        }
        let random: u8 = if opcode_family(self.cur_opcode) == 0xC {
            random_byte()
        } else {
            0
        };
        match self.execute(random) {
            Ok(known) => {
                let sounding: bool = self.tick_timers();
                let outcome = CycleOutcome { tone: sounding, unknown_instruction: !known };
                assert(self@ == cycle(old(self)@, random) && outcome == cycle_outcome(
                    old(self)@,
                    random,
                ));
                Ok(outcome)
            },
            Err(e) => Err(e),
        }
    }

    /// The delay timer.
    pub fn get_delay(&self) -> (delay: u8)
        ensures
            delay == self@.delay_timer,
    {
        self.delay_timer
    }

    /// Register `x`, or `None` when there is no such register.
    pub fn register(&self, x: usize) -> (value: Option<u8>)
        ensures
            value == if x < REGISTER_COUNT {
                Some(self@.registers[x as int])
            } else {
                None
            },
    {
        if x < REGISTER_COUNT {
            Some(self.registers[x])
        } else {
            None
        }
    }

    /// Writes `value` to register `x` and says whether there is such a
    /// register; when there is none, nothing is written.
    pub fn set_register(&mut self, x: usize, value: u8) -> (written: bool)
        ensures
            written == (x < REGISTER_COUNT),
            final(self)@ == if x < REGISTER_COUNT {
                old(self)@.with_register(x as int, value)
            } else {
                old(self)@
            },
    {
        if x < REGISTER_COUNT {
            self.registers[x] = value;
            true
        } else {
            false
        }
    }

    /// The byte at `address`, or `None` past the end of memory.
    pub fn memory(&self, address: usize) -> (value: Option<u8>)
        ensures
            value == if address < MEMORY_SIZE {
                Some(self@.memory[address as int])
            } else {
                None
            },
    {
        if address < MEMORY_SIZE {
            Some(self.game_memory[address])
        } else {
            None
        }
    }

    /// Writes `value` at `address` and says whether the address lies in
    /// memory; when it does not, nothing is written.
    pub fn set_memory(&mut self, address: usize, value: u8) -> (written: bool)
        ensures
            written == (address < MEMORY_SIZE),
            final(self)@ == if address < MEMORY_SIZE {
                (Machine { memory: old(self)@.memory.update(address as int, value), ..old(self)@ })
            } else {
                old(self)@
            },
    {
        if address < MEMORY_SIZE {
            self.game_memory[address] = value;
            true
        } else {
            false
        }
    }

    /// Whether key `k` is pressed, or `None` when there is no such key.
    pub fn is_pressed(&self, k: usize) -> (pressed: Option<bool>)
        ensures
            pressed == if k < KEY_COUNT {
                Some(self@.key[k as int])
            } else {
                None
            },
    {
        if k < KEY_COUNT {
            Some(self.key[k])
        } else {
            None
        }
    }

    /// Takes the state of all sixteen keys from the host, `true` for pressed.
    pub fn set_keys(&mut self, keys: [bool; 16])
        ensures
            final(self)@ == (Machine { key: keys@, ..old(self)@ }),
    {
        self.key = keys;
    }

    /// The display, row by row.
    pub fn display(&self) -> (grid: &[bool; 2048])
        ensures
            grid@ == self@.framebuffer,
    {
        &self.framebuffer
    }

    /// The pixel in column `column` of row `row`, or `None` off the display.
    pub fn pixel(&self, column: usize, row: usize) -> (lit: Option<bool>)
        ensures
            lit == if column < SCREEN_WIDTH && row < SCREEN_HEIGHT {
                Some(self@.framebuffer[column + SCREEN_WIDTH * row])
            } else {
                None
            },
    {
        if column < SCREEN_WIDTH && row < SCREEN_HEIGHT {
            Some(self.framebuffer[column + SCREEN_WIDTH * row])
        } else {
            None
        }
    }
}

} // verus!
