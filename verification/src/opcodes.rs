//! The instructions, one function each.
//!
//! Each function applies one instruction to the machine and is proved to
//! compute the function of the same meaning in [`crate::semantics`]. An
//! instruction that cannot be carried out returns the error and leaves the
//! machine untouched.
use vstd::prelude::*;
use vstd::arithmetic::div_mod::{
    lemma_fundamental_div_mod, lemma_fundamental_div_mod_converse,
    lemma_fundamental_div_mod_converse_mod,
};
use crate::cpu::CPU;
use crate::machine::{Machine, CpuError, MEMORY_SIZE, SCREEN_CELLS, KEY_COUNT};
use crate::decode::{opcode_x, opcode_y, opcode_n, opcode_nn, opcode_nnn, field_n, field_x};
use crate::semantics::{
    vx, vy, sprite_bit, sprite_column, sprite_row, sprite_lights, draw_collides, draw_fault, draw,
    subroutine_return_fault, subroutine_return, jump, call_fault, call, skip_if_equal,
    skip_if_not_equal, skip_if_registers_equal, load_immediate, add_immediate, copy_register,
    or_register, and_register, xor_register, add_register, subtract_register, shift_right,
    subtract_reversed, shift_left, skip_if_registers_differ, load_index, jump_with_offset,
    load_random, key_fault, skip_if_key_pressed, skip_if_key_released, read_delay, last_pressed,
    wait_for_key, set_delay, set_sound, add_to_index, glyph_address, store_decimal_fault,
    store_decimal, register_block_fault, store_registers, load_registers,
};

verus! {

/// Return `00EE`: see [`subroutine_return`].
pub fn opcode_0_0ee(cpu: &mut CPU) -> (r: Result<(), CpuError>)
    ensures
        match r {
            Ok(()) => subroutine_return_fault(old(cpu)@) is None && final(cpu)@
                == subroutine_return(old(cpu)@),
            Err(e) => subroutine_return_fault(old(cpu)@) == Some(e) && final(cpu)@ == old(cpu)@,
        },
{
    if cpu.stack_pointer == 0 {
        return Err(CpuError::StackUnderflow);
    }
    if cpu.stack_pointer > 16 {
        return Err(CpuError::StackOverflow);
    }
    let site: u16 = cpu.stack[(cpu.stack_pointer - 1) as usize];
    if site > 0xFFFD {
        return Err(CpuError::AddressOutOfRange);
    }
    cpu.stack_pointer -= 1;
    cpu.program_counter = site + 2;
    Ok(())
}

/// Jump `1NNN`: see [`jump`].
pub fn opcode_1_nnn(cpu: &mut CPU, opcode: u16)
    ensures
        final(cpu)@ == jump(old(cpu)@, opcode),
{
    cpu.program_counter = opcode_nnn(opcode);
}

/// Call `2NNN`: see [`call`].
pub fn opcode_2_nnn(cpu: &mut CPU, opcode: u16) -> (r: Result<(), CpuError>)
    ensures
        match r {
            Ok(()) => call_fault(old(cpu)@) is None && final(cpu)@ == call(old(cpu)@, opcode),
            Err(e) => call_fault(old(cpu)@) == Some(e) && final(cpu)@ == old(cpu)@,
        },
{
    if cpu.stack_pointer >= 16 {
        return Err(CpuError::StackOverflow);
    }
    cpu.stack[cpu.stack_pointer as usize] = cpu.program_counter;
    cpu.stack_pointer += 1;
    cpu.program_counter = opcode_nnn(opcode);
    Ok(())
}

/// Skip if equal `3XNN`: see [`skip_if_equal`].
pub fn opcode_3_xnn(cpu: &mut CPU, opcode: u16)
    requires
        old(cpu).program_counter <= 0xFFFB,
    ensures
        final(cpu)@ == skip_if_equal(old(cpu)@, opcode),
{
    if cpu.registers[opcode_x(opcode)] == opcode_nn(opcode) {
        cpu.program_counter += 4;
    } else {
        cpu.program_counter += 2;
    }
}

/// Skip if not equal `4XNN`: see [`skip_if_not_equal`].
pub fn opcode_4_xnn(cpu: &mut CPU, opcode: u16)
    requires
        old(cpu).program_counter <= 0xFFFB,
    ensures
        final(cpu)@ == skip_if_not_equal(old(cpu)@, opcode),
{
    if cpu.registers[opcode_x(opcode)] != opcode_nn(opcode) {
        cpu.program_counter += 4;
    } else {
        cpu.program_counter += 2;
    }
}

/// Skip if registers equal `5XY0`: see [`skip_if_registers_equal`]. This adds
/// only the two bytes of the skip; the cycle adds the two of the instruction.
pub fn opcode_5_xy0(cpu: &mut CPU, opcode: u16)
    requires
        old(cpu).program_counter <= 0xFFFD,
    ensures
        final(cpu)@ == skip_if_registers_equal(old(cpu)@, opcode),
{
    if cpu.registers[opcode_x(opcode)] == cpu.registers[opcode_y(opcode)] {
        cpu.program_counter += 2;
    }
}

/// Load immediate `6XNN`: see [`load_immediate`].
pub fn opcode_6_xnn(cpu: &mut CPU, opcode: u16)
    ensures
        final(cpu)@ == load_immediate(old(cpu)@, opcode),
{
    cpu.registers[opcode_x(opcode)] = opcode_nn(opcode);
}

/// Add immediate `7XNN`: see [`add_immediate`].
pub fn opcode_7_xnn(cpu: &mut CPU, opcode: u16)
    ensures
        final(cpu)@ == add_immediate(old(cpu)@, opcode),
{
    let x: usize = opcode_x(opcode);
    cpu.registers[x] = cpu.registers[x].wrapping_add(opcode_nn(opcode));
}

/// Copy `8XY0`: see [`copy_register`].
pub fn opcode_8_xy0(cpu: &mut CPU, opcode: u16)
    ensures
        final(cpu)@ == copy_register(old(cpu)@, opcode),
{
    let yval: u8 = cpu.registers[opcode_y(opcode)];
    cpu.registers[opcode_x(opcode)] = yval;
}

/// Or `8XY1`: see [`or_register`].
pub fn opcode_8_xy1(cpu: &mut CPU, opcode: u16)
    ensures
        final(cpu)@ == or_register(old(cpu)@, opcode),
{
    let x: usize = opcode_x(opcode);
    let yval: u8 = cpu.registers[opcode_y(opcode)];
    cpu.registers[x] = cpu.registers[x] | yval;
}

/// And `8XY2`: see [`and_register`].
pub fn opcode_8_xy2(cpu: &mut CPU, opcode: u16)
    ensures
        final(cpu)@ == and_register(old(cpu)@, opcode),
{
    let x: usize = opcode_x(opcode);
    let yval: u8 = cpu.registers[opcode_y(opcode)];
    cpu.registers[x] = cpu.registers[x] & yval;
}

/// Exclusive or `8XY3`: see [`xor_register`].
pub fn opcode_8_xy3(cpu: &mut CPU, opcode: u16)
    ensures
        final(cpu)@ == xor_register(old(cpu)@, opcode),
{
    let x: usize = opcode_x(opcode);
    let yval: u8 = cpu.registers[opcode_y(opcode)];
    cpu.registers[x] = cpu.registers[x] ^ yval;
}

/// Add with carry `8XY4`: see [`add_register`].
pub fn opcode_8_xy4(cpu: &mut CPU, opcode: u16)
    ensures
        final(cpu)@ == add_register(old(cpu)@, opcode),
{
    let x: usize = opcode_x(opcode);
    let xval: u8 = cpu.registers[x];
    let yval: u8 = cpu.registers[opcode_y(opcode)];
    cpu.registers[0xF] = if xval as u16 + yval as u16 > 255 { 1 } else { 0 };
    cpu.registers[x] = xval.wrapping_add(yval);
}

/// Subtract with borrow `8XY5`: see [`subtract_register`].
pub fn opcode_8_xy5(cpu: &mut CPU, opcode: u16)
    ensures
        final(cpu)@ == subtract_register(old(cpu)@, opcode),
{
    let x: usize = opcode_x(opcode);
    let xval: u8 = cpu.registers[x];
    let yval: u8 = cpu.registers[opcode_y(opcode)];
    cpu.registers[0xF] = if yval > xval { 0 } else { 1 };
    cpu.registers[x] = xval.wrapping_sub(yval);
}

/// Shift right `8XY6`: see [`shift_right`].
pub fn opcode_8_xy6(cpu: &mut CPU, opcode: u16)
    ensures
        final(cpu)@ == shift_right(old(cpu)@, opcode),
{
    let yval: u8 = cpu.registers[opcode_y(opcode)];
    assert(yval >> 1 == yval / 2 && yval & 1 == yval % 2) by (bit_vector);
    cpu.registers[opcode_x(opcode)] = yval >> 1;
    cpu.registers[0xF] = yval & 0x01;
}

/// Reversed subtract `8XY7`: see [`subtract_reversed`].
pub fn opcode_8_xy7(cpu: &mut CPU, opcode: u16)
    ensures
        final(cpu)@ == subtract_reversed(old(cpu)@, opcode),
{
    let x: usize = opcode_x(opcode);
    let xval: u8 = cpu.registers[x];
    let yval: u8 = cpu.registers[opcode_y(opcode)];
    cpu.registers[0xF] = if xval > yval { 0 } else { 1 };
    cpu.registers[x] = yval.wrapping_sub(xval);
}

/// Shift left `8XYE`: see [`shift_left`].
pub fn opcode_8_xye(cpu: &mut CPU, opcode: u16)
    ensures
        final(cpu)@ == shift_left(old(cpu)@, opcode),
{
    let yval: u8 = cpu.registers[opcode_y(opcode)];
    assert(yval << 1 == (yval * 2) % 256 && yval >> 7 == yval / 128) by (bit_vector);
    cpu.registers[opcode_x(opcode)] = yval << 1;
    cpu.registers[0xF] = yval >> 7;
}

/// Skip if registers differ `9XY0`: see [`skip_if_registers_differ`].
pub fn opcode_9_xy0(cpu: &mut CPU, opcode: u16)
    requires
        old(cpu).program_counter <= 0xFFFB,
    ensures
        final(cpu)@ == skip_if_registers_differ(old(cpu)@, opcode),
{
    if cpu.registers[opcode_x(opcode)] != cpu.registers[opcode_y(opcode)] {
        cpu.program_counter += 4;
    } else {
        cpu.program_counter += 2;
    }
}

/// Load index `ANNN`: see [`load_index`].
pub fn opcode_a_nnn(cpu: &mut CPU, opcode: u16)
    ensures
        final(cpu)@ == load_index(old(cpu)@, opcode),
{
    cpu.index_register = opcode_nnn(opcode);
}

/// Jump with offset `BNNN`: see [`jump_with_offset`].
pub fn opcode_b_nnn(cpu: &mut CPU, opcode: u16)
    ensures
        final(cpu)@ == jump_with_offset(old(cpu)@, opcode),
{
    cpu.program_counter = opcode_nnn(opcode) + cpu.registers[0] as u16;
}

/// Draws one byte from the thread-local generator of the `rand` crate, by
/// `Rng::gen` on `rand::thread_rng()`. Any byte may come back and two calls
/// need not agree, so nothing is claimed of the result. The generator seeds
/// itself from the operating system on first use, and `rand` stops the
/// program if the system has no entropy to give; nothing here can rule that
/// out.
#[verifier::external_body]
pub(crate) fn random_byte() -> (byte: u8) {
    rand::Rng::gen(&mut rand::thread_rng())
}

/// Random `CXNN` with the random byte given: see [`load_random`].
pub fn opcode_c_xnn_with(cpu: &mut CPU, opcode: u16, byte: u8)
    ensures
        final(cpu)@ == load_random(old(cpu)@, opcode, byte),
{
    cpu.registers[opcode_x(opcode)] = byte & opcode_nn(opcode);
}

/// Random `CXNN`: draws a random byte and stores it masked by `NN`, as
/// [`opcode_c_xnn_with`] does for the byte drawn.
pub fn opcode_c_xnn(cpu: &mut CPU, opcode: u16)
    ensures
        exists|byte: u8| final(cpu)@ == load_random(old(cpu)@, opcode, byte),
{
    let byte: u8 = random_byte();
    opcode_c_xnn_with(cpu, opcode, byte);
}

/// Where column `col` of row `row` of a sprite drawn at `(x, y)` falls on the
/// display.
spec fn sprite_cell(x: int, y: int, row: int, col: int) -> int {
    (x + col) % 64 + 64 * ((y + row) % 32)
}

/// The cell under a sprite pixel lies on the display, and the pixel is the one
/// that lies over it.
proof fn lemma_sprite_cell(x: int, y: int, row: int, col: int)
    requires
        0 <= x < 256,
        0 <= y < 256,
        0 <= row < 16,
        0 <= col < 8,
    ensures
        0 <= sprite_cell(x, y, row, col) < 2048,
        (sprite_cell(x, y, row, col) % 64 - x) % 64 == col,
        (sprite_cell(x, y, row, col) / 64 - y) % 32 == row,
{
    let c = (x + col) % 64;
    let r = (y + row) % 32;
    let cell = c + 64 * r;
    lemma_fundamental_div_mod(x + col, 64);
    lemma_fundamental_div_mod(y + row, 32);
    lemma_fundamental_div_mod_converse(cell, 64, r, c);
    lemma_fundamental_div_mod_converse_mod(c - x, 64, -((x + col) / 64), col);
    lemma_fundamental_div_mod_converse_mod(r - y, 32, -((y + row) / 32), row);
}

/// A sprite pixel lies over one cell only.
proof fn lemma_sprite_cell_unique(x: int, y: int, row: int, col: int, other: int)
    requires
        0 <= x < 256,
        0 <= y < 256,
        0 <= row < 16,
        0 <= col < 8,
        0 <= other < 2048,
        (other % 64 - x) % 64 == col,
        (other / 64 - y) % 32 == row,
    ensures
        other == sprite_cell(x, y, row, col),
{
    let c = other % 64;
    let r = other / 64;
    lemma_fundamental_div_mod(other, 64);
    lemma_fundamental_div_mod(c - x, 64);
    lemma_fundamental_div_mod(r - y, 32);
    lemma_fundamental_div_mod_converse_mod(x + col, 64, -((c - x) / 64), c);
    lemma_fundamental_div_mod_converse_mod(y + row, 32, -((r - y) / 32), r);
}

/// Whether the sprite pixel over `cell` is set and comes before column `col`
/// of row `row` in drawing order.
spec fn drawn_before(m: Machine, opcode: u16, cell: int, row: int, col: int) -> bool {
    let r = sprite_row(m, opcode, cell);
    &&& sprite_lights(m, opcode, cell)
    &&& (r < row || (r == row && sprite_column(m, opcode, cell) < col))
}

/// Whether a sprite pixel drawn before column `col` of row `row` fell on a
/// set cell.
spec fn collides_before(m: Machine, opcode: u16, row: int, col: int) -> bool {
    exists|cell: int|
        0 <= cell < SCREEN_CELLS && m.framebuffer[cell] && #[trigger] drawn_before(
            m,
            opcode,
            cell,
            row,
            col,
        )
}

/// Draw `DXYN`: see [`draw`].
pub fn opcode_d_xyn(cpu: &mut CPU, opcode: u16) -> (r: Result<(), CpuError>)
    ensures
        match r {
            Ok(()) => draw_fault(old(cpu)@, opcode) is None && final(cpu)@ == draw(
                old(cpu)@,
                opcode,
            ),
            Err(e) => draw_fault(old(cpu)@, opcode) == Some(e) && final(cpu)@ == old(cpu)@,
        },
{
    let x: u8 = cpu.registers[opcode_x(opcode)];
    let y: u8 = cpu.registers[opcode_y(opcode)];
    let height: u8 = opcode_n(opcode);
    if height > 0 && cpu.index_register as usize + height as usize > MEMORY_SIZE {
        return Err(CpuError::AddressOutOfRange);
    }
    let ghost m = cpu@;
    let mut flipped: bool = false;
    let mut row: u8 = 0;
    while row < height
        invariant
            row <= height,
            height == field_n(opcode),
            height > 0 ==> m.index_register + height <= MEMORY_SIZE,
            m == old(cpu)@,
            x == vx(m, opcode),
            y == vy(m, opcode),
            cpu@ == (Machine { framebuffer: cpu@.framebuffer, ..m }),
            forall|cell: int|
                0 <= cell < SCREEN_CELLS ==> cpu.framebuffer@[cell] == (m.framebuffer[cell]
                    != drawn_before(m, opcode, cell, row as int, 0)),
            flipped == collides_before(m, opcode, row as int, 0),
        decreases height - row,
    {
        let pixels: u8 = cpu.game_memory[cpu.index_register as usize + row as usize];
        let mut col: u8 = 0;
        while col < 8
            invariant
                col <= 8,
                row < height,
                height == field_n(opcode),
                m.index_register + height <= MEMORY_SIZE,
                m == old(cpu)@,
                x == vx(m, opcode),
                y == vy(m, opcode),
                pixels == m.memory[m.index_register + row],
                cpu@ == (Machine { framebuffer: cpu@.framebuffer, ..m }),
                forall|cell: int|
                    0 <= cell < SCREEN_CELLS ==> cpu.framebuffer@[cell] == (m.framebuffer[cell]
                        != drawn_before(m, opcode, cell, row as int, col as int)),
                flipped == collides_before(m, opcode, row as int, col as int),
            decreases 8 - col,
        {
            let px: usize = (x as usize + col as usize) % 64;
            let py: usize = (y as usize + row as usize) % 32;
            let idx: usize = px + 64 * py;
            proof {
                lemma_sprite_cell(x as int, y as int, row as int, col as int);
                assert(idx == sprite_cell(x as int, y as int, row as int, col as int));
                assert(sprite_column(m, opcode, idx as int) == col);
                assert(sprite_row(m, opcode, idx as int) == row);
                assert(!drawn_before(m, opcode, idx as int, row as int, col as int));
                assert(sprite_lights(m, opcode, idx as int) == sprite_bit(pixels, col as int));
                assert forall|cell: int| 0 <= cell < SCREEN_CELLS && cell != idx implies drawn_before(
                    m,
                    opcode,
                    cell,
                    row as int,
                    col as int + 1,
                ) == drawn_before(m, opcode, cell, row as int, col as int) by {
                    if sprite_row(m, opcode, cell) == row && sprite_column(m, opcode, cell) == col {
                        lemma_sprite_cell_unique(x as int, y as int, row as int, col as int, cell);
                    }
                }
            }
            let ghost before = cpu.framebuffer@;
            if pixels & (0x80u8 >> col) != 0 {
                flipped = flipped || cpu.framebuffer[idx];
                cpu.framebuffer[idx] = !cpu.framebuffer[idx];
            }
            proof {
                let lit = sprite_bit(pixels, col as int);
                assert(drawn_before(m, opcode, idx as int, row as int, col as int + 1) == lit);
                if collides_before(m, opcode, row as int, col as int + 1) {
                    let cell = choose|cell: int|
                        0 <= cell < SCREEN_CELLS && m.framebuffer[cell] && #[trigger] drawn_before(
                            m,
                            opcode,
                            cell,
                            row as int,
                            col as int + 1,
                        );
                    if cell != idx {
                        assert(drawn_before(m, opcode, cell, row as int, col as int));
                    }
                }
                if collides_before(m, opcode, row as int, col as int) {
                    let cell = choose|cell: int|
                        0 <= cell < SCREEN_CELLS && m.framebuffer[cell] && #[trigger] drawn_before(
                            m,
                            opcode,
                            cell,
                            row as int,
                            col as int,
                        );
                    assert(cell != idx);
                    assert(drawn_before(m, opcode, cell, row as int, col as int + 1));
                }
                if lit && m.framebuffer[idx as int] {
                    assert(drawn_before(m, opcode, idx as int, row as int, col as int + 1));
                }
            }
            col += 1;
        }
        proof {
            assert forall|cell: int| 0 <= cell < SCREEN_CELLS implies drawn_before(
                m,
                opcode,
                cell,
                row as int,
                8,
            ) == drawn_before(m, opcode, cell, row as int + 1, 0) by {}
            if collides_before(m, opcode, row as int, 8) {
                let cell = choose|cell: int|
                    0 <= cell < SCREEN_CELLS && m.framebuffer[cell] && #[trigger] drawn_before(
                        m,
                        opcode,
                        cell,
                        row as int,
                        8,
                    );
                assert(drawn_before(m, opcode, cell, row as int + 1, 0));
            }
            if collides_before(m, opcode, row as int + 1, 0) {
                let cell = choose|cell: int|
                    0 <= cell < SCREEN_CELLS && m.framebuffer[cell] && #[trigger] drawn_before(
                        m,
                        opcode,
                        cell,
                        row as int + 1,
                        0,
                    );
                assert(drawn_before(m, opcode, cell, row as int, 8));
            }
        }
        row += 1;
    }
    proof {
        assert forall|cell: int| 0 <= cell < SCREEN_CELLS implies drawn_before(
            m,
            opcode,
            cell,
            height as int,
            0,
        ) == sprite_lights(m, opcode, cell) by {}
        if collides_before(m, opcode, height as int, 0) {
            let cell = choose|cell: int|
                0 <= cell < SCREEN_CELLS && m.framebuffer[cell] && #[trigger] drawn_before(
                    m,
                    opcode,
                    cell,
                    height as int,
                    0,
                );
            assert(sprite_lights(m, opcode, cell));
        }
        if draw_collides(m, opcode) {
            let cell = choose|cell: int|
                0 <= cell < SCREEN_CELLS && m.framebuffer[cell] && #[trigger] sprite_lights(
                    m,
                    opcode,
                    cell,
                );
            assert(drawn_before(m, opcode, cell, height as int, 0));
        }
        assert(flipped == draw_collides(m, opcode));
    }
    cpu.registers[0xF] = if flipped { 1 } else { 0 };
    assert(cpu@.framebuffer =~= draw(m, opcode).framebuffer);
    assert(cpu@ =~= draw(m, opcode));
    Ok(())
}

/// Skip if key pressed `EX9E`: see [`skip_if_key_pressed`].
pub fn opcode_e_x9e(cpu: &mut CPU, opcode: u16) -> (r: Result<(), CpuError>)
    requires
        old(cpu).program_counter <= 0xFFFB,
    ensures
        match r {
            Ok(()) => key_fault(old(cpu)@, opcode) is None && final(cpu)@ == skip_if_key_pressed(
                old(cpu)@,
                opcode,
            ),
            Err(e) => key_fault(old(cpu)@, opcode) == Some(e) && final(cpu)@ == old(cpu)@,
        },
{
    let k: usize = cpu.registers[opcode_x(opcode)] as usize;
    if k >= KEY_COUNT {
        return Err(CpuError::KeyOutOfRange);
    }
    if cpu.key[k] {
        cpu.program_counter += 4;
    } else {
        cpu.program_counter += 2;
    }
    Ok(())
}

/// Skip if key released `EXA1`: see [`skip_if_key_released`].
pub fn opcode_e_xa1(cpu: &mut CPU, opcode: u16) -> (r: Result<(), CpuError>)
    requires
        old(cpu).program_counter <= 0xFFFB,
    ensures
        match r {
            Ok(()) => key_fault(old(cpu)@, opcode) is None && final(cpu)@ == skip_if_key_released(
                old(cpu)@,
                opcode,
            ),
            Err(e) => key_fault(old(cpu)@, opcode) == Some(e) && final(cpu)@ == old(cpu)@,
        },
{
    let k: usize = cpu.registers[opcode_x(opcode)] as usize;
    if k >= KEY_COUNT {
        return Err(CpuError::KeyOutOfRange);
    }
    if !cpu.key[k] {
        cpu.program_counter += 4;
    } else {
        cpu.program_counter += 2;
    }
    Ok(())
}

/// Read delay `FX07`: see [`read_delay`].
pub fn opcode_f_x07(cpu: &mut CPU, opcode: u16)
    ensures
        final(cpu)@ == read_delay(old(cpu)@, opcode),
{
    cpu.registers[opcode_x(opcode)] = cpu.get_delay();
}

/// Wait for key `FX0A`: see [`wait_for_key`].
pub fn opcode_f_x0a(cpu: &mut CPU, opcode: u16)
    requires
        old(cpu).program_counter <= 0xFFFD,
    ensures
        final(cpu)@ == wait_for_key(old(cpu)@, opcode),
{
    let x: usize = opcode_x(opcode);
    let ghost m = cpu@;
    let mut key_pressed: bool = false;
    let mut i: usize = 0;
    while i < KEY_COUNT
        invariant
            i <= KEY_COUNT,
            x == field_x(opcode),
            m == old(cpu)@,
            key_pressed == (last_pressed(m.key, i as int) >= 0),
            last_pressed(m.key, i as int) < i,
            cpu@ == if key_pressed {
                m.with_register(x as int, last_pressed(m.key, i as int) as u8)
            } else {
                m
            },
        decreases KEY_COUNT - i,
    {
        if cpu.key[i] {
            cpu.registers[x] = i as u8;
            key_pressed = true;
            assert(cpu@.registers =~= m.registers.update(x as int, i as u8));
        }
        i += 1;
    }
    if key_pressed {
        cpu.program_counter += 2;
    }
}

/// Set delay `FX15`: see [`set_delay`].
pub fn opcode_f_x15(cpu: &mut CPU, opcode: u16)
    ensures
        final(cpu)@ == set_delay(old(cpu)@, opcode),
{
    cpu.delay_timer = cpu.registers[opcode_x(opcode)];
}

/// Set sound `FX18`: see [`set_sound`].
pub fn opcode_f_x18(cpu: &mut CPU, opcode: u16)
    ensures
        final(cpu)@ == set_sound(old(cpu)@, opcode),
{
    cpu.sound_timer = cpu.registers[opcode_x(opcode)];
}

/// Add to index `FX1E`: see [`add_to_index`].
pub fn opcode_f_x1e(cpu: &mut CPU, opcode: u16)
    ensures
        final(cpu)@ == add_to_index(old(cpu)@, opcode),
{
    let sum: u32 = cpu.index_register as u32 + cpu.registers[opcode_x(opcode)] as u32;
    cpu.index_register = (sum % 4096) as u16;
}

/// Glyph lookup `FX29`: see [`glyph_address`].
pub fn opcode_f_x29(cpu: &mut CPU, opcode: u16)
    ensures
        final(cpu)@ == glyph_address(old(cpu)@, opcode),
{
    cpu.index_register = (cpu.registers[opcode_x(opcode)] % 5) as u16;
}

/// Decimal store `FX33`: see [`store_decimal`].
pub fn opcode_f_x33(cpu: &mut CPU, opcode: u16) -> (r: Result<(), CpuError>)
    ensures
        match r {
            Ok(()) => store_decimal_fault(old(cpu)@) is None && final(cpu)@ == store_decimal(
                old(cpu)@,
                opcode,
            ),
            Err(e) => store_decimal_fault(old(cpu)@) == Some(e) && final(cpu)@ == old(cpu)@,
        },
{
    let at: usize = cpu.index_register as usize;
    if at + 2 >= MEMORY_SIZE {
        return Err(CpuError::AddressOutOfRange);
    }
    let value: u8 = cpu.registers[opcode_x(opcode)];
    cpu.game_memory[at] = value / 100;
    cpu.game_memory[at + 1] = (value / 10) % 10;
    cpu.game_memory[at + 2] = value % 10;
    Ok(())
}

/// Register store `FX55`: see [`store_registers`].
pub fn opcode_f_x55(cpu: &mut CPU, opcode: u16) -> (r: Result<(), CpuError>)
    ensures
        match r {
            Ok(()) => register_block_fault(old(cpu)@, opcode) is None && final(cpu)@
                == store_registers(old(cpu)@, opcode),
            Err(e) => register_block_fault(old(cpu)@, opcode) == Some(e) && final(cpu)@ == old(
                cpu,
            )@,
        },
{
    let x: usize = opcode_x(opcode);
    if cpu.index_register as usize + x + 1 >= MEMORY_SIZE {
        return Err(CpuError::AddressOutOfRange);
    }
    let ghost m = cpu@;
    let mut i: usize = 0;
    while i <= x
        invariant
            i <= x + 1,
            x < 16,
            x == field_x(opcode),
            m == old(cpu)@,
            m.index_register + x + 1 < MEMORY_SIZE,
            cpu.index_register == m.index_register + i,
            cpu@ == (Machine { memory: cpu@.memory, index_register: cpu.index_register, ..m }),
            forall|a: int|
                0 <= a < MEMORY_SIZE ==> cpu.game_memory@[a] == if m.index_register < a
                    <= m.index_register + i {
                    m.registers[a - m.index_register - 1]
                } else {
                    m.memory[a]
                },
        decreases x + 1 - i,
    {
        cpu.index_register += 1;
        cpu.game_memory[cpu.index_register as usize] = cpu.registers[i];
        i += 1;
    }
    assert(cpu@.memory =~= store_registers(m, opcode).memory);
    Ok(())
}

/// Register load `FX65`: see [`load_registers`].
pub fn opcode_f_x65(cpu: &mut CPU, opcode: u16) -> (r: Result<(), CpuError>)
    ensures
        match r {
            Ok(()) => register_block_fault(old(cpu)@, opcode) is None && final(cpu)@
                == load_registers(old(cpu)@, opcode),
            Err(e) => register_block_fault(old(cpu)@, opcode) == Some(e) && final(cpu)@ == old(
                cpu,
            )@,
        },
{
    let x: usize = opcode_x(opcode);
    if cpu.index_register as usize + x + 1 >= MEMORY_SIZE {
        return Err(CpuError::AddressOutOfRange);
    }
    let ghost m = cpu@;
    let mut i: usize = 0;
    while i <= x
        invariant
            i <= x + 1,
            x < 16,
            x == field_x(opcode),
            m == old(cpu)@,
            m.index_register + x + 1 < MEMORY_SIZE,
            cpu.index_register == m.index_register + i,
            cpu@ == (Machine { registers: cpu@.registers, index_register: cpu.index_register, ..m }),
            forall|r: int|
                0 <= r < 16 ==> cpu.registers@[r] == if r < i {
                    m.memory[m.index_register + 1 + r]
                } else {
                    m.registers[r]
                },
        decreases x + 1 - i,
    {
        cpu.index_register += 1;
        cpu.registers[i] = cpu.game_memory[cpu.index_register as usize];
        i += 1;
    }
    assert(cpu@.registers =~= load_registers(m, opcode).registers);
    Ok(())
}

} // verus!
