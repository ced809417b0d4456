//! Laws of the instruction set, proved from the definitions in
//! [`crate::semantics`].
use vstd::prelude::*;
use vstd::arithmetic::div_mod::{
    lemma_fundamental_div_mod, lemma_fundamental_div_mod_converse,
    lemma_fundamental_div_mod_converse_mod,
};
use crate::machine::{Machine, FLAG_REGISTER, SCREEN_CELLS, STACK_DEPTH};
use crate::decode::{family, field_x, field_n, field_nn, field_nnn};
use crate::semantics::{
    vx, vy, load_immediate, add_immediate, add_register, subtract_register, subtract_reversed,
    sprite_bit, sprite_lights, draw, draw_collides, call, call_fault, subroutine_return,
    subroutine_return_fault, skip_if_equal, execute, fetch, fetch_fault, instruction_word, cycle,
    cycle_fault, tick, tone, last_pressed,
};

verus! {

/// A load-immediate instruction leaves exactly the immediate byte in register
/// `X`, and changes no other register and nothing else in the machine.
pub proof fn law_load_immediate(m: Machine, opcode: u16)
    requires
        m.well_sized(),
    ensures
        load_immediate(m, opcode).registers[field_x(opcode)] == field_nn(opcode),
        forall|r: int|
            0 <= r < 16 && r != field_x(opcode) ==> load_immediate(m, opcode).registers[r]
                == m.registers[r],
        load_immediate(m, opcode) == (Machine {
            registers: load_immediate(m, opcode).registers,
            ..m
        }),
{
}

/// A cycle that fetches a load-immediate instruction is never refused; it
/// leaves the immediate byte in register `X`, changes no other register, and
/// moves the program counter to the next instruction.
pub proof fn law_load_immediate_cycle(m: Machine, random: u8)
    requires
        m.well_sized(),
        fetch_fault(m) is None,
        family(instruction_word(m)) == 0x6,
    ensures
        cycle_fault(m) is None,
        cycle(m, random).registers[field_x(instruction_word(m))] == field_nn(
            instruction_word(m),
        ),
        forall|r: int|
            0 <= r < 16 && r != field_x(instruction_word(m)) ==> cycle(m, random).registers[r]
                == m.registers[r],
        cycle(m, random).program_counter == m.program_counter + 2,
{
}

/// Addition wraps modulo 256. The immediate form leaves the flag alone; the
/// register form sets it to 1 exactly when the true sum exceeds 255, unless
/// the destination is the flag register itself, which then holds the sum.
pub proof fn law_add_wraps(m: Machine, opcode: u16)
    requires
        m.well_sized(),
    ensures
        add_immediate(m, opcode).registers[field_x(opcode)] == (vx(m, opcode) + field_nn(opcode))
            % 256,
        field_x(opcode) != FLAG_REGISTER ==> add_immediate(m, opcode).registers[FLAG_REGISTER as int]
            == m.registers[FLAG_REGISTER as int],
        add_register(m, opcode).registers[field_x(opcode)] == (vx(m, opcode) + vy(m, opcode))
            % 256,
        field_x(opcode) != FLAG_REGISTER ==> add_register(m, opcode).registers[FLAG_REGISTER as int]
            == (if vx(m, opcode) + vy(m, opcode) > 255 {
            1u8
        } else {
            0u8
        }),
{
}

/// Subtraction wraps modulo 256, in both directions. The flag is 0 exactly
/// when the subtrahend exceeds the minuend, and 1 otherwise, unless the
/// destination is the flag register itself, which then holds the difference.
pub proof fn law_subtract_wraps(m: Machine, opcode: u16)
    requires
        m.well_sized(),
    ensures
        subtract_register(m, opcode).registers[field_x(opcode)] == (vx(m, opcode) - vy(m, opcode))
            % 256,
        field_x(opcode) != FLAG_REGISTER ==> subtract_register(
            m,
            opcode,
        ).registers[FLAG_REGISTER as int] == (if vy(m, opcode) > vx(m, opcode) {
            0u8
        } else {
            1u8
        }),
        subtract_reversed(m, opcode).registers[field_x(opcode)] == (vy(m, opcode) - vx(m, opcode))
            % 256,
        field_x(opcode) != FLAG_REGISTER ==> subtract_reversed(
            m,
            opcode,
        ).registers[FLAG_REGISTER as int] == (if vx(m, opcode) > vy(m, opcode) {
            0u8
        } else {
            1u8
        }),
{
}

/// Drawing a sprite twice in the same place restores the display, and the
/// second draw sets the flag exactly when the first one had set a pixel.
/// The place is the same when the flag that the first draw writes does not
/// change the registers that hold the sprite's position.
pub proof fn law_draw_twice_restores(m: Machine, opcode: u16)
    requires
        m.well_sized(),
        vx(draw(m, opcode), opcode) == vx(m, opcode),
        vy(draw(m, opcode), opcode) == vy(m, opcode),
    ensures
        draw(draw(m, opcode), opcode).framebuffer == m.framebuffer,
        draw(draw(m, opcode), opcode).registers[FLAG_REGISTER as int] == (if exists|cell: int|
            0 <= cell < SCREEN_CELLS && !m.framebuffer[cell] && #[trigger] sprite_lights(
                m,
                opcode,
                cell,
            ) {
            1u8
        } else {
            0u8
        }),
{
    let once = draw(m, opcode);
    let twice = draw(once, opcode);
    assert forall|cell: int| 0 <= cell < SCREEN_CELLS implies sprite_lights(once, opcode, cell)
        == sprite_lights(m, opcode, cell) by {}
    assert(twice.framebuffer =~= m.framebuffer);
    let sets = exists|cell: int|
        0 <= cell < SCREEN_CELLS && !m.framebuffer[cell] && #[trigger] sprite_lights(
            m,
            opcode,
            cell,
        );
    if sets {
        let cell = choose|cell: int|
            0 <= cell < SCREEN_CELLS && !m.framebuffer[cell] && #[trigger] sprite_lights(
                m,
                opcode,
                cell,
            );
        assert(once.framebuffer[cell] && sprite_lights(once, opcode, cell));
    }
    if draw_collides(once, opcode) {
        let cell = choose|cell: int|
            0 <= cell < SCREEN_CELLS && once.framebuffer[cell] && #[trigger] sprite_lights(
                once,
                opcode,
                cell,
            );
        assert(!m.framebuffer[cell] && sprite_lights(m, opcode, cell));
    }
}

/// A set sprite pixel in column `col` of row `row` inverts the display cell at
/// column `(VX + col) mod 64` of row `(VY + row) mod 32`: a sprite that
/// reaches past the right or the lower edge comes back in at the left or at
/// the top, and never leaves the display. With the sprite in the last column,
/// its second column falls on column 0.
pub proof fn law_draw_wraps(m: Machine, opcode: u16, row: int, col: int)
    requires
        m.well_sized(),
        0 <= row < field_n(opcode),
        0 <= col < 8,
        sprite_bit(m.memory[m.index_register + row], col),
    ensures
        ({
            let column = (vx(m, opcode) + col) % 64;
            let line = (vy(m, opcode) + row) % 32;
            let cell = column + 64 * line;
            &&& 0 <= column < 64
            &&& 0 <= line < 32
            &&& 0 <= cell < SCREEN_CELLS
            &&& draw(m, opcode).framebuffer[cell] == !m.framebuffer[cell]
            &&& vx(m, opcode) % 64 == 63 && col >= 1 ==> column == col - 1
        }),
{
    let x = vx(m, opcode) as int;
    let y = vy(m, opcode) as int;
    let c = (x + col) % 64;
    let r = (y + row) % 32;
    let cell = c + 64 * r;
    lemma_fundamental_div_mod(x + col, 64);
    lemma_fundamental_div_mod(y + row, 32);
    lemma_fundamental_div_mod_converse(cell, 64, r, c);
    lemma_fundamental_div_mod_converse_mod(c - x, 64, -((x + col) / 64), col);
    lemma_fundamental_div_mod_converse_mod(r - y, 32, -((y + row) / 32), row);
    assert(sprite_lights(m, opcode, cell));
    if x % 64 == 63 && col >= 1 {
        lemma_fundamental_div_mod(x, 64);
        lemma_fundamental_div_mod_converse_mod(x + col, 64, x / 64 + 1, col - 1);
    }
}

/// A return straight after a call lands on the instruction after the call,
/// whatever the call's target, and restores the stack pointer. Neither of the
/// two is refused while the stack has a free slot.
pub proof fn law_call_then_return(m: Machine, opcode: u16)
    requires
        m.well_sized(),
        m.stack_pointer < STACK_DEPTH,
        m.program_counter <= 0xFFFD,
    ensures
        call_fault(m) is None,
        subroutine_return_fault(call(m, opcode)) is None,
        subroutine_return(call(m, opcode)).program_counter == m.program_counter + 2,
        subroutine_return(call(m, opcode)).stack_pointer == m.stack_pointer,
{
}

/// The state after the calls `opcodes`, each made where the one before it
/// led, or `None` when one of them is refused.
pub open spec fn after_calls(m: Machine, opcodes: Seq<u16>) -> Option<Machine>
    decreases opcodes.len(),
{
    if opcodes.len() == 0 {
        Some(m)
    } else if call_fault(m) is Some {
        None
    } else {
        after_calls(call(m, opcodes[0]), opcodes.drop_first())
    }
}

/// The state after `n` returns in a row, or `None` when one of them is
/// refused.
pub open spec fn after_returns(m: Machine, n: nat) -> Option<Machine>
    decreases n,
{
    if n == 0 {
        Some(m)
    } else if subroutine_return_fault(m) is Some {
        None
    } else {
        after_returns(subroutine_return(m), (n - 1) as nat)
    }
}

/// One more return after `n` returns is `n + 1` returns.
proof fn lemma_one_more_return(m: Machine, n: nat)
    requires
        after_returns(m, n) is Some,
        subroutine_return_fault(after_returns(m, n).unwrap()) is None,
    ensures
        after_returns(m, n + 1) == Some(subroutine_return(after_returns(m, n).unwrap())),
    decreases n,
{
    let next = subroutine_return(m);
    if n == 0 {
        assert(after_returns(next, 0) == Some(next));
    } else {
        lemma_one_more_return(next, (n - 1) as nat);
        assert(after_returns(m, n + 1) == after_returns(next, n));
        assert(after_returns(m, n) == after_returns(next, (n - 1) as nat));
    }
}

/// Calls nested as deep as the stack allows, followed by as many returns, are
/// all accepted and come back to the instruction after the first call, with
/// the stack pointer and the older stack entries as they were.
pub proof fn law_calls_then_returns(m: Machine, opcodes: Seq<u16>)
    requires
        m.well_sized(),
        m.stack_pointer + opcodes.len() <= STACK_DEPTH,
        m.program_counter <= 0xFFFD,
    ensures
        after_calls(m, opcodes) is Some,
        after_returns(after_calls(m, opcodes).unwrap(), opcodes.len()) is Some,
        ({
            let back = after_returns(after_calls(m, opcodes).unwrap(), opcodes.len()).unwrap();
            &&& back.well_sized()
            &&& back.program_counter == if opcodes.len() == 0 {
                m.program_counter as int
            } else {
                m.program_counter + 2
            }
            &&& back.stack_pointer == m.stack_pointer
            &&& forall|i: int| 0 <= i < m.stack_pointer ==> back.stack[i] == m.stack[i]
        }),
    decreases opcodes.len(),
{
    if opcodes.len() > 0 {
        let inner = call(m, opcodes[0]);
        let rest = opcodes.drop_first();
        law_calls_then_returns(inner, rest);
        let deep = after_calls(inner, rest).unwrap();
        let almost = after_returns(deep, rest.len()).unwrap();
        assert(almost.stack[m.stack_pointer as int] == m.program_counter);
        lemma_one_more_return(deep, rest.len());
    }
}

/// A skip-if-equal instruction leaves the program counter four bytes past its
/// own address when register `X` equals the immediate byte, and two bytes past
/// when it does not; nothing else changes.
pub proof fn law_skip_if_equal(m: Machine, opcode: u16)
    requires
        m.well_sized(),
        m.program_counter <= 0xFFFB,
    ensures
        vx(m, opcode) == field_nn(opcode) ==> skip_if_equal(m, opcode).program_counter
            == m.program_counter + 4,
        vx(m, opcode) != field_nn(opcode) ==> skip_if_equal(m, opcode).program_counter
            == m.program_counter + 2,
        skip_if_equal(m, opcode) == (Machine {
            program_counter: skip_if_equal(m, opcode).program_counter,
            ..m
        }),
{
}

/// A jump to its own address is a steady state: once it has been fetched and
/// the timers have run out, a cycle changes nothing and reports nothing.
pub proof fn law_jump_to_self_is_steady(m: Machine, random: u8)
    requires
        m.well_sized(),
        fetch_fault(m) is None,
        family(instruction_word(m)) == 0x1,
        field_nnn(instruction_word(m)) == m.program_counter,
        m.cur_opcode == instruction_word(m),
        m.delay_timer == 0,
        m.sound_timer == 0,
    ensures
        cycle_fault(m) is None,
        cycle(m, random) == m,
        !tone(execute(fetch(m), instruction_word(m), random)),
{
}

/// The tone sounds in exactly one cycle of a countdown: the one in which the
/// sound timer goes from one to zero.
pub proof fn law_tone_is_an_edge(m: Machine)
    ensures
        tone(m) ==> tick(m).sound_timer == 0 && !tone(tick(m)),
        m.sound_timer > 1 ==> tick(m).sound_timer == m.sound_timer - 1 && !tone(m),
        m.sound_timer == 0 ==> tick(m) == (Machine { delay_timer: tick(m).delay_timer, ..m })
            && !tone(m),
{
}

/// The key that a wait-for-key instruction reports is pressed, and no key
/// above it is; it reports none exactly when no key is pressed.
pub proof fn law_last_pressed(keys: Seq<bool>, n: int)
    requires
        0 <= n <= keys.len(),
    ensures
        -1 <= last_pressed(keys, n) < n,
        last_pressed(keys, n) >= 0 ==> keys[last_pressed(keys, n)],
        forall|k: int| last_pressed(keys, n) < k < n ==> !keys[k],
    decreases n,
{
    if n > 0 && !keys[n - 1] {
        law_last_pressed(keys, n - 1);
    }
}

} // verus!
