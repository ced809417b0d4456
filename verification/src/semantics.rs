//! What each instruction does, as a function on the model.
//!
//! Every function here takes the state before the instruction and gives the
//! state after it. Where an instruction can be refused, a companion function
//! ending in `_fault` says when, and with which error; the state function then
//! describes the accepted case only.
//!
//! Instructions read their operands from the state before any register is
//! written. Where an instruction writes both a result and the flag, the order
//! of the two writes is part of its definition, and decides what the flag
//! register holds when it is also the destination.
use vstd::prelude::*;
use crate::machine::{
    Machine, CpuError, MEMORY_SIZE, STACK_DEPTH, KEY_COUNT, SCREEN_CELLS, SCREEN_WIDTH,
    SCREEN_HEIGHT, FLAG_REGISTER,
};
use crate::machine::CycleOutcome;
use crate::decode::{family, field_x, field_y, field_n, field_nn, field_nnn};

verus! {

/// Register `X` of the instruction, as it stands in `m`.
pub open spec fn vx(m: Machine, opcode: u16) -> u8 {
    m.registers[field_x(opcode)]
}

/// Register `Y` of the instruction, as it stands in `m`.
pub open spec fn vy(m: Machine, opcode: u16) -> u8 {
    m.registers[field_y(opcode)]
}

/// A display with every pixel clear.
pub open spec fn blank_display() -> Seq<bool> {
    Seq::new(SCREEN_CELLS as nat, |cell: int| false)
}

/// Clear display: every pixel is cleared.
pub open spec fn clear_display(m: Machine) -> Machine {
    Machine { framebuffer: blank_display(), ..m }
}

/// When a return is refused: with an empty stack, with a stack pointer beyond
/// the stack, or when the address after the call site does not fit in sixteen
/// bits.
pub open spec fn subroutine_return_fault(m: Machine) -> Option<CpuError> {
    if m.stack_pointer == 0 {
        Some(CpuError::StackUnderflow)
    } else if m.stack_pointer > STACK_DEPTH {
        Some(CpuError::StackOverflow)
    } else if m.stack[m.stack_pointer - 1] > 0xFFFD {
        Some(CpuError::AddressOutOfRange)
    } else {
        None
    }
}

/// Return: pops the call site and resumes at the instruction after it.
pub open spec fn subroutine_return(m: Machine) -> Machine {
    Machine {
        stack_pointer: (m.stack_pointer - 1) as u16,
        program_counter: (m.stack[m.stack_pointer - 1] + 2) as u16,
        ..m
    }
}

/// Jump: continues at `NNN`.
pub open spec fn jump(m: Machine, opcode: u16) -> Machine {
    Machine { program_counter: field_nnn(opcode), ..m }
}

/// When a call is refused: with no free stack slot.
pub open spec fn call_fault(m: Machine) -> Option<CpuError> {
    if m.stack_pointer >= STACK_DEPTH {
        Some(CpuError::StackOverflow)
    } else {
        None
    }
}

/// Call: pushes the address of the call itself and continues at `NNN`.
pub open spec fn call(m: Machine, opcode: u16) -> Machine {
    Machine {
        stack: m.stack.update(m.stack_pointer as int, m.program_counter),
        stack_pointer: (m.stack_pointer + 1) as u16,
        program_counter: field_nnn(opcode),
        ..m
    }
}

/// Skip if `VX == NN`: steps over the next instruction when they are equal.
pub open spec fn skip_if_equal(m: Machine, opcode: u16) -> Machine {
    m.advanced(if vx(m, opcode) == field_nn(opcode) { 4 } else { 2 })
}

/// Skip if `VX != NN`: steps over the next instruction when they differ.
pub open spec fn skip_if_not_equal(m: Machine, opcode: u16) -> Machine {
    m.advanced(if vx(m, opcode) != field_nn(opcode) { 4 } else { 2 })
}

/// Skip if `VX == VY`, the instruction's own share: two bytes more when the
/// registers are equal. The cycle adds the ordinary two bytes afterwards.
pub open spec fn skip_if_registers_equal(m: Machine, opcode: u16) -> Machine {
    m.advanced(if vx(m, opcode) == vy(m, opcode) { 2 } else { 0 })
}

/// Load immediate: `VX = NN`.
pub open spec fn load_immediate(m: Machine, opcode: u16) -> Machine {
    m.with_register(field_x(opcode), field_nn(opcode))
}

/// Add immediate: `VX = (VX + NN) mod 256`; the flag is untouched.
pub open spec fn add_immediate(m: Machine, opcode: u16) -> Machine {
    m.with_register(field_x(opcode), ((vx(m, opcode) + field_nn(opcode)) % 256) as u8)
}

/// Copy: `VX = VY`.
pub open spec fn copy_register(m: Machine, opcode: u16) -> Machine {
    m.with_register(field_x(opcode), vy(m, opcode))
}

/// Or: `VX = VX | VY`.
pub open spec fn or_register(m: Machine, opcode: u16) -> Machine {
    m.with_register(field_x(opcode), vx(m, opcode) | vy(m, opcode))
}

/// And: `VX = VX & VY`.
pub open spec fn and_register(m: Machine, opcode: u16) -> Machine {
    m.with_register(field_x(opcode), vx(m, opcode) & vy(m, opcode))
}

/// Exclusive or: `VX = VX ^ VY`.
pub open spec fn xor_register(m: Machine, opcode: u16) -> Machine {
    m.with_register(field_x(opcode), vx(m, opcode) ^ vy(m, opcode))
}

/// Add with carry: the flag becomes 1 when `VX + VY` exceeds 255 and 0
/// otherwise, then `VX` becomes the sum modulo 256.
pub open spec fn add_register(m: Machine, opcode: u16) -> Machine {
    let sum = vx(m, opcode) + vy(m, opcode);
    m.with_flag(if sum > 255 { 1 } else { 0 }).with_register(field_x(opcode), (sum % 256) as u8)
}

/// Subtract with borrow: the flag becomes 0 when `VY > VX` and 1 otherwise,
/// then `VX` becomes `VX - VY` modulo 256.
pub open spec fn subtract_register(m: Machine, opcode: u16) -> Machine {
    let x = vx(m, opcode);
    let y = vy(m, opcode);
    m.with_flag(if y > x { 0 } else { 1 }).with_register(field_x(opcode), ((x - y) % 256) as u8)
}

/// Shift right: `VX` becomes `VY` halved, then the flag becomes the low bit
/// that `VY` had before.
pub open spec fn shift_right(m: Machine, opcode: u16) -> Machine {
    let y = vy(m, opcode);
    m.with_register(field_x(opcode), y / 2).with_flag(y % 2)
}

/// Reversed subtract: the flag becomes 0 when `VX > VY` and 1 otherwise, then
/// `VX` becomes `VY - VX` modulo 256.
pub open spec fn subtract_reversed(m: Machine, opcode: u16) -> Machine {
    let x = vx(m, opcode);
    let y = vy(m, opcode);
    m.with_flag(if x > y { 0 } else { 1 }).with_register(field_x(opcode), ((y - x) % 256) as u8)
}

/// Shift left: `VX` becomes `VY` doubled modulo 256, then the flag becomes the
/// high bit that `VY` had before.
pub open spec fn shift_left(m: Machine, opcode: u16) -> Machine {
    let y = vy(m, opcode);
    m.with_register(field_x(opcode), ((y * 2) % 256) as u8).with_flag(y / 128)
}

/// Skip if `VX != VY`: steps over the next instruction when they differ.
pub open spec fn skip_if_registers_differ(m: Machine, opcode: u16) -> Machine {
    m.advanced(if vx(m, opcode) != vy(m, opcode) { 4 } else { 2 })
}

/// Load index: `I = NNN`.
pub open spec fn load_index(m: Machine, opcode: u16) -> Machine {
    Machine { index_register: field_nnn(opcode), ..m }
}

/// Jump with offset: continues at `NNN + V0`.
pub open spec fn jump_with_offset(m: Machine, opcode: u16) -> Machine {
    Machine { program_counter: (field_nnn(opcode) + m.registers[0]) as u16, ..m }
}

/// Random: `VX = byte & NN`, where `byte` is the random byte drawn.
pub open spec fn load_random(m: Machine, opcode: u16, byte: u8) -> Machine {
    m.with_register(field_x(opcode), byte & field_nn(opcode))
}

/// When a key test is refused: `VX` names no key.
pub open spec fn key_fault(m: Machine, opcode: u16) -> Option<CpuError> {
    if vx(m, opcode) >= KEY_COUNT {
        Some(CpuError::KeyOutOfRange)
    } else {
        None
    }
}

/// Skip if key `VX` is pressed.
pub open spec fn skip_if_key_pressed(m: Machine, opcode: u16) -> Machine {
    m.advanced(if m.key[vx(m, opcode) as int] { 4 } else { 2 })
}

/// Skip if key `VX` is released.
pub open spec fn skip_if_key_released(m: Machine, opcode: u16) -> Machine {
    m.advanced(if !m.key[vx(m, opcode) as int] { 4 } else { 2 })
}

/// Read delay: `VX = delay timer`.
pub open spec fn read_delay(m: Machine, opcode: u16) -> Machine {
    m.with_register(field_x(opcode), m.delay_timer)
}

/// The highest pressed key among the first `n`, or -1 when none of them is
/// pressed.
pub open spec fn last_pressed(keys: Seq<bool>, n: int) -> int
    decreases n,
{
    if n <= 0 {
        -1
    } else if keys[n - 1] {
        n - 1
    } else {
        last_pressed(keys, n - 1)
    }
}

/// Wait for key: with a key pressed, `VX` becomes the highest pressed key and
/// the program moves on; with none pressed nothing changes, so that the same
/// instruction runs again in the next cycle.
pub open spec fn wait_for_key(m: Machine, opcode: u16) -> Machine {
    let k = last_pressed(m.key, KEY_COUNT as int);
    if k >= 0 {
        m.with_register(field_x(opcode), k as u8).advanced(2)
    } else {
        m
    }
}

/// Set delay: `delay timer = VX`.
pub open spec fn set_delay(m: Machine, opcode: u16) -> Machine {
    Machine { delay_timer: vx(m, opcode), ..m }
}

/// Set sound: `sound timer = VX`.
pub open spec fn set_sound(m: Machine, opcode: u16) -> Machine {
    Machine { sound_timer: vx(m, opcode), ..m }
}

/// Add to index: `I = (I + VX) mod 4096`.
pub open spec fn add_to_index(m: Machine, opcode: u16) -> Machine {
    Machine { index_register: ((m.index_register + vx(m, opcode)) % 4096) as u16, ..m }
}

/// Glyph lookup: `I = VX mod 5`.
pub open spec fn glyph_address(m: Machine, opcode: u16) -> Machine {
    Machine { index_register: (vx(m, opcode) % 5) as u16, ..m }
}

/// When the decimal store is refused: one of its three bytes lies past the end
/// of memory.
pub open spec fn store_decimal_fault(m: Machine) -> Option<CpuError> {
    if m.index_register + 2 >= MEMORY_SIZE {
        Some(CpuError::AddressOutOfRange)
    } else {
        None
    }
}

/// Decimal store: the hundreds, tens and units of `VX` go to `I`, `I + 1` and
/// `I + 2`.
pub open spec fn store_decimal(m: Machine, opcode: u16) -> Machine {
    let v = vx(m, opcode);
    let i = m.index_register as int;
    Machine {
        memory: m.memory.update(i, v / 100).update(i + 1, (v / 10) % 10).update(i + 2, v % 10),
        ..m
    }
}

/// When a register block transfer is refused: its last byte, at `I + X + 1`,
/// lies past the end of memory.
pub open spec fn register_block_fault(m: Machine, opcode: u16) -> Option<CpuError> {
    if m.index_register + field_x(opcode) + 1 >= MEMORY_SIZE {
        Some(CpuError::AddressOutOfRange)
    } else {
        None
    }
}

/// Register store: `V0` to `VX` inclusive go to memory from `I + 1` on, and `I`
/// ends on the last byte written. The byte at `I` itself is left alone.
pub open spec fn store_registers(m: Machine, opcode: u16) -> Machine {
    let i = m.index_register as int;
    let last = i + field_x(opcode) + 1;
    Machine {
        memory: Seq::new(
            m.memory.len(),
            |a: int| if i < a <= last { m.registers[a - i - 1] } else { m.memory[a] },
        ),
        index_register: last as u16,
        ..m
    }
}

/// Register load: `V0` to `VX` inclusive are read from memory from `I + 1` on,
/// and `I` ends on the last byte read.
pub open spec fn load_registers(m: Machine, opcode: u16) -> Machine {
    let i = m.index_register as int;
    let x = field_x(opcode);
    Machine {
        registers: Seq::new(
            m.registers.len(),
            |r: int| if r <= x { m.memory[i + 1 + r] } else { m.registers[r] },
        ),
        index_register: (i + x + 1) as u16,
        ..m
    }
}

/// Whether a sprite row holds a pixel in column `col`, counted from the left:
/// column 0 is the high bit.
pub open spec fn sprite_bit(byte: u8, col: int) -> bool {
    byte & (0x80u8 >> (col as u8)) != 0
}

/// The sprite column that falls on display cell `cell`: how far the cell's
/// column lies to the right of `VX`, going round the display's edge.
pub open spec fn sprite_column(m: Machine, opcode: u16, cell: int) -> int {
    (cell % (SCREEN_WIDTH as int) - vx(m, opcode)) % (SCREEN_WIDTH as int)
}

/// The sprite row that falls on display cell `cell`: how far the cell's row
/// lies below `VY`, going round the display's edge.
pub open spec fn sprite_row(m: Machine, opcode: u16, cell: int) -> int {
    (cell / (SCREEN_WIDTH as int) - vy(m, opcode)) % (SCREEN_HEIGHT as int)
}

/// Whether the sprite of the draw instruction has a set pixel on display cell
/// `cell`. The sprite is eight columns wide and `N` rows high, its rows are
/// the bytes from `I` on, and its top left corner lies at column `VX mod 64`,
/// row `VY mod 32`; what would pass the right or lower edge comes back in at
/// the left or at the top.
pub open spec fn sprite_lights(m: Machine, opcode: u16, cell: int) -> bool {
    let col = sprite_column(m, opcode, cell);
    let row = sprite_row(m, opcode, cell);
    &&& col < 8
    &&& row < field_n(opcode)
    &&& sprite_bit(m.memory[m.index_register + row], col)
}

/// Whether the sprite has a set pixel on a display cell that is set.
pub open spec fn draw_collides(m: Machine, opcode: u16) -> bool {
    exists|cell: int|
        0 <= cell < SCREEN_CELLS && m.framebuffer[cell] && #[trigger] sprite_lights(
            m,
            opcode,
            cell,
        )
}

/// When a draw is refused: one of the sprite's rows lies past the end of
/// memory.
pub open spec fn draw_fault(m: Machine, opcode: u16) -> Option<CpuError> {
    if field_n(opcode) > 0 && m.index_register + field_n(opcode) > MEMORY_SIZE {
        Some(CpuError::AddressOutOfRange)
    } else {
        None
    }
}

/// Draw: every display cell under a set sprite pixel is inverted, and the flag
/// becomes 1 when that cleared a cell and 0 otherwise.
pub open spec fn draw(m: Machine, opcode: u16) -> Machine {
    Machine {
        framebuffer: Seq::new(
            m.framebuffer.len(),
            |cell: int| m.framebuffer[cell] != sprite_lights(m, opcode, cell),
        ),
        registers: m.registers.update(
            FLAG_REGISTER as int,
            if draw_collides(m, opcode) { 1u8 } else { 0u8 },
        ),
        ..m
    }
}

/// When the fetch is refused: one of the two bytes of the instruction word
/// lies past the end of memory.
pub open spec fn fetch_fault(m: Machine) -> Option<CpuError> {
    if m.program_counter + 1 >= MEMORY_SIZE {
        Some(CpuError::AddressOutOfRange)
    } else {
        None
    }
}

/// The instruction word at the program counter: two bytes, high byte first.
pub open spec fn instruction_word(m: Machine) -> u16 {
    (m.memory[m.program_counter as int] * 256 + m.memory[m.program_counter + 1]) as u16
}

/// Fetch: the instruction word at the program counter becomes the current
/// one.
pub open spec fn fetch(m: Machine) -> Machine {
    Machine { cur_opcode: instruction_word(m), ..m }
}

/// Whether `opcode` is an instruction of the machine.
pub open spec fn recognized(opcode: u16) -> bool {
    let f = family(opcode);
    let n = field_n(opcode);
    let nn = field_nn(opcode);
    if f == 0x0 {
        n == 0x0 || n == 0xE
    } else if f == 0x8 {
        n <= 0x7 || n == 0xE
    } else if f == 0xE {
        nn == 0x9E || nn == 0xA1
    } else if f == 0xF {
        nn == 0x07 || nn == 0x0A || nn == 0x15 || nn == 0x18 || nn == 0x1E || nn == 0x29 || nn
            == 0x33 || nn == 0x55 || nn == 0x65
    } else {
        true
    }
}

/// When `opcode` is refused in state `m`, and with which error.
pub open spec fn execute_fault(m: Machine, opcode: u16) -> Option<CpuError> {
    let f = family(opcode);
    let n = field_n(opcode);
    let nn = field_nn(opcode);
    if f == 0x0 && n == 0xE {
        subroutine_return_fault(m)
    } else if f == 0x2 {
        call_fault(m)
    } else if f == 0xD {
        draw_fault(m, opcode)
    } else if f == 0xE && (nn == 0x9E || nn == 0xA1) {
        key_fault(m, opcode)
    } else if f == 0xF && nn == 0x33 {
        store_decimal_fault(m)
    } else if f == 0xF && (nn == 0x55 || nn == 0x65) {
        register_block_fault(m, opcode)
    } else {
        None
    }
}

/// The state after `opcode` has run in state `m`, program counter included,
/// where it is not refused. `random` is the byte that the random instruction
/// draws; no other instruction looks at it. A word that is no instruction
/// changes nothing and is stepped over.
pub open spec fn execute(m: Machine, opcode: u16, random: u8) -> Machine {
    let f = family(opcode);
    let n = field_n(opcode);
    let nn = field_nn(opcode);
    if f == 0x0 {
        if n == 0x0 {
            clear_display(m).advanced(2)
        } else if n == 0xE {
            subroutine_return(m)
        } else {
            m.advanced(2)
        }
    } else if f == 0x1 {
        jump(m, opcode)
    } else if f == 0x2 {
        call(m, opcode)
    } else if f == 0x3 {
        skip_if_equal(m, opcode)
    } else if f == 0x4 {
        skip_if_not_equal(m, opcode)
    } else if f == 0x5 {
        skip_if_registers_equal(m, opcode).advanced(2)
    } else if f == 0x6 {
        load_immediate(m, opcode).advanced(2)
    } else if f == 0x7 {
        add_immediate(m, opcode).advanced(2)
    } else if f == 0x8 {
        (if n == 0x0 {
            copy_register(m, opcode)
        } else if n == 0x1 {
            or_register(m, opcode)
        } else if n == 0x2 {
            and_register(m, opcode)
        } else if n == 0x3 {
            xor_register(m, opcode)
        } else if n == 0x4 {
            add_register(m, opcode)
        } else if n == 0x5 {
            subtract_register(m, opcode)
        } else if n == 0x6 {
            shift_right(m, opcode)
        } else if n == 0x7 {
            subtract_reversed(m, opcode)
        } else if n == 0xE {
            shift_left(m, opcode)
        } else {
            m
        }).advanced(2)
    } else if f == 0x9 {
        skip_if_registers_differ(m, opcode)
    } else if f == 0xA {
        load_index(m, opcode).advanced(2)
    } else if f == 0xB {
        jump_with_offset(m, opcode)
    } else if f == 0xC {
        load_random(m, opcode, random).advanced(2)
    } else if f == 0xD {
        draw(m, opcode).advanced(2)
    } else if f == 0xE {
        if nn == 0x9E {
            skip_if_key_pressed(m, opcode)
        } else if nn == 0xA1 {
            skip_if_key_released(m, opcode)
        } else {
            m.advanced(2)
        }
    } else {
        if nn == 0x07 {
            read_delay(m, opcode).advanced(2)
        } else if nn == 0x0A {
            wait_for_key(m, opcode)
        } else if nn == 0x15 {
            set_delay(m, opcode).advanced(2)
        } else if nn == 0x18 {
            set_sound(m, opcode).advanced(2)
        } else if nn == 0x1E {
            add_to_index(m, opcode).advanced(2)
        } else if nn == 0x29 {
            glyph_address(m, opcode).advanced(2)
        } else if nn == 0x33 {
            store_decimal(m, opcode).advanced(2)
        } else if nn == 0x55 {
            store_registers(m, opcode).advanced(2)
        } else if nn == 0x65 {
            load_registers(m, opcode).advanced(2)
        } else {
            m.advanced(2)
        }
    }
}

/// Whether the sound timer is about to go from one to zero.
pub open spec fn tone(m: Machine) -> bool {
    m.sound_timer == 1
}

/// Housekeeping at the end of a cycle: each timer that is not zero goes down
/// by one.
pub open spec fn tick(m: Machine) -> Machine {
    Machine {
        delay_timer: if m.delay_timer > 0 { (m.delay_timer - 1) as u8 } else { 0 },
        sound_timer: if m.sound_timer > 0 { (m.sound_timer - 1) as u8 } else { 0 },
        ..m
    }
}

/// When a cycle is refused, and with which error: at the fetch, or else by
/// the instruction fetched.
pub open spec fn cycle_fault(m: Machine) -> Option<CpuError> {
    if fetch_fault(m) is Some {
        fetch_fault(m)
    } else {
        execute_fault(fetch(m), instruction_word(m))
    }
}

/// The state a refused cycle leaves: the state before it, with the
/// instruction word fetched if the fetch itself went through.
pub open spec fn refused(m: Machine) -> Machine {
    if fetch_fault(m) is Some {
        m
    } else {
        fetch(m)
    }
}

/// The state after one accepted cycle: fetch, the instruction, housekeeping.
pub open spec fn cycle(m: Machine, random: u8) -> Machine {
    tick(execute(fetch(m), instruction_word(m), random))
}

/// What one accepted cycle reports: a tone when the sound timer stands at one
/// after the instruction and before housekeeping, and whether the word
/// fetched was no instruction.
pub open spec fn cycle_outcome(m: Machine, random: u8) -> CycleOutcome {
    CycleOutcome {
        tone: tone(execute(fetch(m), instruction_word(m), random)),
        unknown_instruction: !recognized(instruction_word(m)),
    }
}

} // verus!
