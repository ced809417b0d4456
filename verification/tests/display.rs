use chip8::cpu::CPU;
use chip8::machine::CpuError;
use chip8::opcodes::opcode_d_xyn;

fn machine() -> CPU {
    let mut cpu = CPU::new();
    cpu.initialize();
    cpu
}

fn lit_cells(cpu: &CPU) -> Vec<(usize, usize)> {
    let mut cells = Vec::new();
    for row in 0..32 {
        for column in 0..64 {
            if cpu.framebuffer[column + 64 * row] {
                cells.push((column, row));
            }
        }
    }
    cells
}

#[test]
fn draw_glyph_zero_at_origin() {
    let mut cpu = machine();
    cpu.index_register = 0;
    assert_eq!(opcode_d_xyn(&mut cpu, 0xD015), Ok(()));
    let expected = vec![
        (0, 0), (1, 0), (2, 0), (3, 0),
        (0, 1), (3, 1),
        (0, 2), (3, 2),
        (0, 3), (3, 3),
        (0, 4), (1, 4), (2, 4), (3, 4),
    ];
    assert_eq!(lit_cells(&cpu), expected);
    assert_eq!(cpu.registers[0xF], 0);
    assert_eq!(cpu.program_counter, 0x200);
    assert_eq!(cpu.index_register, 0);
}

#[test]
fn draw_places_sprite_at_register_coordinates() {
    let mut cpu = machine();
    cpu.game_memory[0x300] = 0b1000_0001;
    cpu.game_memory[0x301] = 0b0100_0000;
    cpu.index_register = 0x300;
    cpu.registers[1] = 10;
    cpu.registers[2] = 20;
    assert_eq!(opcode_d_xyn(&mut cpu, 0xD122), Ok(()));
    assert_eq!(lit_cells(&cpu), vec![(10, 20), (17, 20), (11, 21)]);
    assert_eq!(cpu.registers[0xF], 0);
}

#[test]
fn draw_twice_restores_the_display_and_flags_collision() {
    let mut cpu = machine();
    cpu.framebuffer[5 + 64 * 7] = true;
    cpu.framebuffer[40 + 64 * 30] = true;
    cpu.game_memory[0x300] = 0xFF;
    cpu.game_memory[0x301] = 0x81;
    cpu.game_memory[0x302] = 0x3C;
    cpu.index_register = 0x300;
    cpu.registers[1] = 20;
    cpu.registers[2] = 9;
    let before = cpu.framebuffer;
    assert_eq!(opcode_d_xyn(&mut cpu, 0xD123), Ok(()));
    assert_eq!(cpu.registers[0xF], 0);
    assert_ne!(cpu.framebuffer, before);
    assert_eq!(opcode_d_xyn(&mut cpu, 0xD123), Ok(()));
    assert_eq!(cpu.registers[0xF], 1);
    assert_eq!(cpu.framebuffer, before);
}

#[test]
fn draw_over_a_set_pixel_clears_it_and_sets_the_flag() {
    let mut cpu = machine();
    cpu.framebuffer[3 + 64 * 2] = true;
    cpu.game_memory[0x300] = 0b0001_1000;
    cpu.index_register = 0x300;
    cpu.registers[1] = 0;
    cpu.registers[2] = 2;
    assert_eq!(opcode_d_xyn(&mut cpu, 0xD121), Ok(()));
    assert_eq!(lit_cells(&cpu), vec![(4, 2)]);
    assert_eq!(cpu.registers[0xF], 1);
}

#[test]
fn draw_beside_a_set_pixel_leaves_the_flag_clear() {
    let mut cpu = machine();
    cpu.framebuffer[2 + 64 * 2] = true;
    cpu.registers[0xF] = 1;
    cpu.game_memory[0x300] = 0b0001_1000;
    cpu.index_register = 0x300;
    cpu.registers[1] = 0;
    cpu.registers[2] = 2;
    assert_eq!(opcode_d_xyn(&mut cpu, 0xD121), Ok(()));
    assert_eq!(lit_cells(&cpu), vec![(2, 2), (3, 2), (4, 2)]);
    assert_eq!(cpu.registers[0xF], 0);
}

#[test]
fn draw_in_the_last_column_wraps_to_column_zero() {
    let mut cpu = machine();
    cpu.game_memory[0x300] = 0b1110_0000;
    cpu.index_register = 0x300;
    cpu.registers[1] = 63;
    cpu.registers[2] = 4;
    assert_eq!(opcode_d_xyn(&mut cpu, 0xD121), Ok(()));
    assert_eq!(lit_cells(&cpu), vec![(0, 4), (1, 4), (63, 4)]);
}

#[test]
fn draw_in_the_last_row_wraps_to_row_zero() {
    let mut cpu = machine();
    cpu.game_memory[0x300] = 0b1000_0000;
    cpu.game_memory[0x301] = 0b1000_0000;
    cpu.game_memory[0x302] = 0b0100_0000;
    cpu.index_register = 0x300;
    cpu.registers[1] = 8;
    cpu.registers[2] = 31;
    assert_eq!(opcode_d_xyn(&mut cpu, 0xD123), Ok(()));
    assert_eq!(lit_cells(&cpu), vec![(8, 0), (9, 1), (8, 31)]);
}

#[test]
fn draw_takes_coordinates_modulo_the_display() {
    let mut cpu = machine();
    cpu.game_memory[0x300] = 0b1000_0001;
    cpu.index_register = 0x300;
    cpu.registers[1] = 250;
    cpu.registers[2] = 255;
    assert_eq!(opcode_d_xyn(&mut cpu, 0xD121), Ok(()));
    assert_eq!(lit_cells(&cpu), vec![(1, 31), (58, 31)]);
}

#[test]
fn draw_of_height_zero_clears_the_flag_only() {
    let mut cpu = machine();
    cpu.framebuffer[0] = true;
    cpu.registers[0xF] = 1;
    cpu.index_register = 0xFFFF;
    let mut expected = cpu;
    expected.registers[0xF] = 0;
    assert_eq!(opcode_d_xyn(&mut cpu, 0xD120), Ok(()));
    assert_eq!(cpu, expected);
}

#[test]
fn draw_of_fifteen_rows() {
    let mut cpu = machine();
    for row in 0..15 {
        cpu.game_memory[0x300 + row] = 0b0000_0001;
    }
    cpu.index_register = 0x300;
    cpu.registers[1] = 0;
    cpu.registers[2] = 0;
    assert_eq!(opcode_d_xyn(&mut cpu, 0xD12F), Ok(()));
    let expected: Vec<(usize, usize)> = (0..15).map(|row| (7, row)).collect();
    assert_eq!(lit_cells(&cpu), expected);
}

#[test]
fn draw_reading_past_the_end_of_memory_is_refused() {
    let mut cpu = machine();
    cpu.game_memory[0xFFD] = 0x80;
    cpu.game_memory[0xFFE] = 0x80;
    cpu.index_register = 0xFFD;
    assert_eq!(opcode_d_xyn(&mut cpu, 0xD122), Ok(()));
    assert_eq!(lit_cells(&cpu), vec![(0, 0), (0, 1)]);
    cpu.index_register = 0xFFE;
    let before = cpu;
    assert_eq!(opcode_d_xyn(&mut cpu, 0xD122), Err(CpuError::AddressOutOfRange));
    assert_eq!(cpu, before);
}

#[test]
fn draw_with_position_in_the_flag_register_moves_on_the_second_draw() {
    let mut cpu = machine();
    cpu.framebuffer[0] = true;
    cpu.game_memory[0x300] = 0b1000_0000;
    cpu.index_register = 0x300;
    cpu.registers[0xF] = 0;
    cpu.registers[1] = 0;
    assert_eq!(opcode_d_xyn(&mut cpu, 0xDF11), Ok(()));
    assert_eq!(lit_cells(&cpu), Vec::new());
    assert_eq!(cpu.registers[0xF], 1);
    assert_eq!(opcode_d_xyn(&mut cpu, 0xDF11), Ok(()));
    assert_eq!(lit_cells(&cpu), vec![(1, 0)]);
    assert_eq!(cpu.registers[0xF], 0);
}
