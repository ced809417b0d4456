use chip8::cpu::CPU;
use chip8::machine::{CpuError, CycleOutcome};

fn quiet() -> CycleOutcome {
    CycleOutcome { tone: false, unknown_instruction: false }
}

fn machine_with(program: &[u8]) -> CPU {
    let mut cpu = CPU::new();
    cpu.initialize();
    assert_eq!(cpu.load_rom(program), Ok(()));
    cpu
}

#[test]
fn load_then_jump_to_self_reaches_a_steady_state() {
    let mut cpu = machine_with(&[0x60, 0x42, 0x12, 0x02]);
    assert_eq!(cpu.update(), Ok(quiet()));
    assert_eq!(cpu.registers[0], 0x42);
    assert_eq!(cpu.program_counter, 0x202);
    assert_eq!(cpu.cur_opcode, 0x6042);
    let after_load = cpu;
    assert_eq!(cpu.update(), Ok(quiet()));
    assert_eq!(cpu.cur_opcode, 0x1202);
    let mut expected = after_load;
    expected.cur_opcode = 0x1202;
    assert_eq!(cpu, expected);
    let steady = cpu;
    for _ in 0..100 {
        assert_eq!(cpu.update(), Ok(quiet()));
        assert_eq!(cpu, steady);
    }
}

#[test]
fn sound_timer_at_one_gives_a_single_tone() {
    let mut cpu = machine_with(&[0x12, 0x00]);
    cpu.sound_timer = 1;
    assert_eq!(cpu.update(), Ok(CycleOutcome { tone: true, unknown_instruction: false }));
    assert_eq!(cpu.sound_timer, 0);
    assert_eq!(cpu.update(), Ok(quiet()));
    assert_eq!(cpu.sound_timer, 0);
}

#[test]
fn sound_timer_counts_down_to_its_tone() {
    let mut cpu = machine_with(&[0x12, 0x00]);
    cpu.sound_timer = 3;
    assert_eq!(cpu.update(), Ok(quiet()));
    assert_eq!(cpu.sound_timer, 2);
    assert_eq!(cpu.update(), Ok(quiet()));
    assert_eq!(cpu.sound_timer, 1);
    assert_eq!(cpu.update(), Ok(CycleOutcome { tone: true, unknown_instruction: false }));
    assert_eq!(cpu.sound_timer, 0);
    assert_eq!(cpu.update(), Ok(quiet()));
}

#[test]
fn sound_timer_set_to_one_sounds_in_the_same_cycle() {
    let mut cpu = machine_with(&[0xF1, 0x18]);
    cpu.registers[1] = 1;
    assert_eq!(cpu.update(), Ok(CycleOutcome { tone: true, unknown_instruction: false }));
    assert_eq!(cpu.sound_timer, 0);
    assert_eq!(cpu.program_counter, 0x202);
}

#[test]
fn delay_timer_counts_down_and_stops_at_zero() {
    let mut cpu = machine_with(&[0x12, 0x00]);
    cpu.delay_timer = 2;
    assert_eq!(cpu.update(), Ok(quiet()));
    assert_eq!(cpu.delay_timer, 1);
    assert_eq!(cpu.update(), Ok(quiet()));
    assert_eq!(cpu.delay_timer, 0);
    assert_eq!(cpu.update(), Ok(quiet()));
    assert_eq!(cpu.delay_timer, 0);
}

#[test]
fn delay_timer_set_by_an_instruction_ticks_in_the_same_cycle() {
    let mut cpu = machine_with(&[0xF1, 0x15, 0xF2, 0x07]);
    cpu.registers[1] = 10;
    assert_eq!(cpu.update(), Ok(quiet()));
    assert_eq!(cpu.delay_timer, 9);
    assert_eq!(cpu.update(), Ok(quiet()));
    assert_eq!(cpu.registers[2], 9);
    assert_eq!(cpu.delay_timer, 8);
}

#[test]
fn fetch_is_big_endian() {
    let mut cpu = machine_with(&[0xA1, 0x23]);
    assert_eq!(cpu.get_next_opcode(), Ok(()));
    assert_eq!(cpu.cur_opcode, 0xA123);
    assert_eq!(cpu.program_counter, 0x200);
}

#[test]
fn fetch_past_the_end_of_memory_is_refused() {
    let mut cpu = machine_with(&[]);
    cpu.game_memory[0xFFD] = 0x60;
    cpu.game_memory[0xFFE] = 0x07;
    cpu.program_counter = 0xFFD;
    assert_eq!(cpu.update(), Ok(quiet()));
    assert_eq!(cpu.registers[0], 7);
    assert_eq!(cpu.program_counter, 0xFFF);
    let before = cpu;
    assert_eq!(cpu.update(), Err(CpuError::AddressOutOfRange));
    assert_eq!(cpu, before);
    cpu.program_counter = 0xFFE;
    let before = cpu;
    assert_eq!(cpu.get_next_opcode(), Err(CpuError::AddressOutOfRange));
    assert_eq!(cpu, before);
    cpu.program_counter = 0xFFFF;
    let before = cpu;
    assert_eq!(cpu.update(), Err(CpuError::AddressOutOfRange));
    assert_eq!(cpu, before);
}

#[test]
fn clear_display_clears_every_pixel() {
    let mut cpu = machine_with(&[0x00, 0xE0]);
    cpu.framebuffer[0] = true;
    cpu.framebuffer[1000] = true;
    cpu.framebuffer[2047] = true;
    assert_eq!(cpu.update(), Ok(quiet()));
    assert!(cpu.framebuffer.iter().all(|pixel| !*pixel));
    assert_eq!(cpu.program_counter, 0x202);
}

#[test]
fn call_and_return_through_the_cycle() {
    let mut program = vec![0u8; 0x40];
    program[0x00] = 0x22;
    program[0x01] = 0x20;
    program[0x02] = 0x61;
    program[0x03] = 0x05;
    program[0x20] = 0x00;
    program[0x21] = 0xEE;
    let mut cpu = machine_with(&program);
    assert_eq!(cpu.update(), Ok(quiet()));
    assert_eq!(cpu.program_counter, 0x220);
    assert_eq!(cpu.stack_pointer, 1);
    assert_eq!(cpu.stack[0], 0x200);
    assert_eq!(cpu.update(), Ok(quiet()));
    assert_eq!(cpu.program_counter, 0x202);
    assert_eq!(cpu.stack_pointer, 0);
    assert_eq!(cpu.update(), Ok(quiet()));
    assert_eq!(cpu.registers[1], 5);
    assert_eq!(cpu.program_counter, 0x204);
}

#[test]
fn endless_recursion_overflows_the_stack() {
    let mut cpu = machine_with(&[0x22, 0x00]);
    for depth in 0..16 {
        assert_eq!(cpu.update(), Ok(quiet()));
        assert_eq!(cpu.stack_pointer, depth + 1);
    }
    cpu.delay_timer = 5;
    let before = cpu;
    assert_eq!(cpu.update(), Err(CpuError::StackOverflow));
    assert_eq!(cpu, before);
}

#[test]
fn return_without_call_underflows_the_stack() {
    let mut cpu = machine_with(&[0x00, 0xEE]);
    cpu.sound_timer = 1;
    let mut expected = cpu;
    expected.cur_opcode = 0x00EE;
    assert_eq!(cpu.update(), Err(CpuError::StackUnderflow));
    assert_eq!(cpu, expected);
}

#[test]
fn refused_instructions_are_reported_by_the_cycle() {
    let mut cpu = machine_with(&[0xD0, 0x02]);
    cpu.index_register = 0xFFE;
    assert_eq!(cpu.update(), Err(CpuError::AddressOutOfRange));
    assert_eq!(cpu.program_counter, 0x200);
    let mut cpu = machine_with(&[0xE0, 0x9E]);
    cpu.registers[0] = 0x10;
    assert_eq!(cpu.update(), Err(CpuError::KeyOutOfRange));
    assert_eq!(cpu.program_counter, 0x200);
    let mut cpu = machine_with(&[0xF0, 0x33]);
    cpu.index_register = 0xFFD;
    assert_eq!(cpu.update(), Err(CpuError::AddressOutOfRange));
    let mut cpu = machine_with(&[0xF3, 0x55]);
    cpu.index_register = 0xFFB;
    assert_eq!(cpu.update(), Err(CpuError::AddressOutOfRange));
    let mut cpu = machine_with(&[0xF3, 0x65]);
    cpu.index_register = 0xFFB;
    assert_eq!(cpu.update(), Err(CpuError::AddressOutOfRange));
    assert_eq!(cpu.cur_opcode, 0xF365);
}

#[test]
fn skip_instructions_through_the_cycle() {
    let mut cpu = machine_with(&[0x31, 0x07]);
    cpu.registers[1] = 7;
    assert_eq!(cpu.update(), Ok(quiet()));
    assert_eq!(cpu.program_counter, 0x204);
    let mut cpu = machine_with(&[0x31, 0x07]);
    cpu.registers[1] = 8;
    assert_eq!(cpu.update(), Ok(quiet()));
    assert_eq!(cpu.program_counter, 0x202);
    let mut cpu = machine_with(&[0x41, 0x07]);
    cpu.registers[1] = 8;
    assert_eq!(cpu.update(), Ok(quiet()));
    assert_eq!(cpu.program_counter, 0x204);
    let mut cpu = machine_with(&[0x91, 0x20]);
    cpu.registers[1] = 8;
    assert_eq!(cpu.update(), Ok(quiet()));
    assert_eq!(cpu.program_counter, 0x204);
    let mut cpu = machine_with(&[0x91, 0x20]);
    assert_eq!(cpu.update(), Ok(quiet()));
    assert_eq!(cpu.program_counter, 0x202);
}

#[test]
fn skip_if_registers_equal_through_the_cycle() {
    let mut cpu = machine_with(&[0x51, 0x20]);
    cpu.registers[1] = 3;
    cpu.registers[2] = 3;
    assert_eq!(cpu.update(), Ok(quiet()));
    assert_eq!(cpu.program_counter, 0x204);
    let mut cpu = machine_with(&[0x51, 0x20]);
    cpu.registers[1] = 3;
    cpu.registers[2] = 4;
    assert_eq!(cpu.update(), Ok(quiet()));
    assert_eq!(cpu.program_counter, 0x202);
}

#[test]
fn jumps_set_the_program_counter_directly() {
    let mut cpu = machine_with(&[0x13, 0x45]);
    assert_eq!(cpu.update(), Ok(quiet()));
    assert_eq!(cpu.program_counter, 0x345);
    let mut cpu = machine_with(&[0xB3, 0x00]);
    cpu.registers[0] = 0x12;
    assert_eq!(cpu.update(), Ok(quiet()));
    assert_eq!(cpu.program_counter, 0x312);
}

#[test]
fn arithmetic_through_the_cycle() {
    let mut cpu = machine_with(&[0x61, 0xFF, 0x62, 0x01, 0x81, 0x24, 0x71, 0x05, 0xA3, 0x00]);
    for _ in 0..3 {
        assert_eq!(cpu.update(), Ok(quiet()));
    }
    assert_eq!(cpu.registers[1], 0);
    assert_eq!(cpu.registers[0xF], 1);
    assert_eq!(cpu.program_counter, 0x206);
    assert_eq!(cpu.update(), Ok(quiet()));
    assert_eq!(cpu.registers[1], 5);
    assert_eq!(cpu.registers[0xF], 1);
    assert_eq!(cpu.update(), Ok(quiet()));
    assert_eq!(cpu.index_register, 0x300);
    assert_eq!(cpu.program_counter, 0x20A);
}

#[test]
fn draw_through_the_cycle() {
    let mut cpu = machine_with(&[0xD0, 0x05]);
    assert_eq!(cpu.update(), Ok(quiet()));
    assert!(cpu.framebuffer[0]);
    assert!(!cpu.framebuffer[1 + 64]);
    assert_eq!(cpu.program_counter, 0x202);
}

#[test]
fn wait_for_key_repeats_until_a_key_is_down() {
    let mut cpu = machine_with(&[0xF4, 0x0A]);
    cpu.delay_timer = 3;
    assert_eq!(cpu.update(), Ok(quiet()));
    assert_eq!(cpu.program_counter, 0x200);
    assert_eq!(cpu.delay_timer, 2);
    assert_eq!(cpu.update(), Ok(quiet()));
    assert_eq!(cpu.program_counter, 0x200);
    cpu.key[0xC] = true;
    assert_eq!(cpu.update(), Ok(quiet()));
    assert_eq!(cpu.program_counter, 0x202);
    assert_eq!(cpu.registers[4], 0xC);
}

#[test]
fn unknown_instructions_are_stepped_over_and_reported() {
    let words: [[u8; 2]; 7] = [
        [0x00, 0x01],
        [0x01, 0x2F],
        [0x81, 0x28],
        [0x81, 0x2F],
        [0xE1, 0x00],
        [0xF1, 0x00],
        [0xF1, 0x66],
    ];
    for word in words {
        let mut cpu = machine_with(&word);
        cpu.delay_timer = 4;
        cpu.sound_timer = 1;
        let mut expected = cpu;
        expected.program_counter = 0x202;
        expected.cur_opcode = (word[0] as u16) << 8 | word[1] as u16;
        expected.delay_timer = 3;
        expected.sound_timer = 0;
        assert_eq!(cpu.update(), Ok(CycleOutcome { tone: true, unknown_instruction: true }));
        assert_eq!(cpu, expected);
    }
}

#[test]
fn the_selector_of_family_zero_is_the_low_nibble() {
    let mut cpu = machine_with(&[0x01, 0x20]);
    cpu.framebuffer[9] = true;
    assert_eq!(cpu.update(), Ok(quiet()));
    assert!(!cpu.framebuffer[9]);
    assert_eq!(cpu.program_counter, 0x202);
}

#[test]
fn random_through_the_cycle_with_a_given_byte() {
    let mut cpu = machine_with(&[0xC3, 0x3C]);
    assert_eq!(cpu.update_with(0xFF), Ok(quiet()));
    assert_eq!(cpu.registers[3], 0x3C);
    assert_eq!(cpu.program_counter, 0x202);
    let mut cpu = machine_with(&[0xC3, 0x3C]);
    assert_eq!(cpu.update_with(0x55), Ok(quiet()));
    assert_eq!(cpu.registers[3], 0x14);
}

#[test]
fn random_through_the_cycle_stays_under_its_mask() {
    for _ in 0..100 {
        let mut cpu = machine_with(&[0xC3, 0x03]);
        cpu.registers[3] = 0xFF;
        assert_eq!(cpu.update(), Ok(quiet()));
        assert!(cpu.registers[3] <= 3);
        assert_eq!(cpu.program_counter, 0x202);
    }
}

#[test]
fn a_given_byte_is_ignored_by_other_instructions() {
    let mut a = machine_with(&[0x60, 0x42]);
    let mut b = a;
    assert_eq!(a.update_with(0x00), Ok(quiet()));
    assert_eq!(b.update_with(0xFF), Ok(quiet()));
    assert_eq!(a, b);
}

#[test]
fn execute_runs_the_word_in_cur_opcode() {
    let mut cpu = machine_with(&[]);
    cpu.cur_opcode = 0x6A11;
    assert_eq!(cpu.execute(0), Ok(true));
    assert_eq!(cpu.registers[0xA], 0x11);
    assert_eq!(cpu.program_counter, 0x202);
    cpu.cur_opcode = 0xFFFF;
    assert_eq!(cpu.execute(0), Ok(false));
    assert_eq!(cpu.program_counter, 0x204);
}

#[test]
fn tick_timers_reports_the_tone() {
    let mut cpu = machine_with(&[]);
    cpu.delay_timer = 1;
    cpu.sound_timer = 2;
    assert!(!cpu.tick_timers());
    assert_eq!(cpu.delay_timer, 0);
    assert_eq!(cpu.sound_timer, 1);
    assert!(cpu.tick_timers());
    assert_eq!(cpu.delay_timer, 0);
    assert_eq!(cpu.sound_timer, 0);
    assert!(!cpu.tick_timers());
}
