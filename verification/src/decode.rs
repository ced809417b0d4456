//! The fields of a 16-bit instruction word.
//!
//! A word is four nibbles `F X Y N`. The family is the top nibble; `X` and `Y`
//! name registers; `N`, the low byte `NN` and the low twelve bits `NNN` are
//! immediate operands.
use vstd::prelude::*;

verus! {

/// The family nibble, bits 12 to 15.
pub open spec fn family(opcode: u16) -> int {
    opcode as int / 4096
}

/// The register index in bits 8 to 11.
pub open spec fn field_x(opcode: u16) -> int {
    (opcode as int / 256) % 16
}

/// The register index in bits 4 to 7.
pub open spec fn field_y(opcode: u16) -> int {
    (opcode as int / 16) % 16
}

/// The low nibble.
pub open spec fn field_n(opcode: u16) -> int {
    opcode as int % 16
}

/// The low byte.
pub open spec fn field_nn(opcode: u16) -> u8 {
    (opcode as int % 256) as u8
}

/// The low twelve bits.
pub open spec fn field_nnn(opcode: u16) -> u16 {
    (opcode as int % 4096) as u16
}

/// Reads the family nibble of `opcode`.
pub fn opcode_family(opcode: u16) -> (f: u16)
    ensures
        f == family(opcode),
        f < 16,
{
    assert((opcode & 0xF000) >> 12 == opcode / 4096 && (opcode & 0xF000) >> 12 < 16)
        by (bit_vector);
    (opcode & 0xF000) >> 12
}

/// Reads the register index `X` of `opcode`.
pub fn opcode_x(opcode: u16) -> (x: usize)
    ensures
        x == field_x(opcode),
        x < 16,
{
    assert((opcode & 0x0F00) >> 8 == (opcode / 256) % 16) by (bit_vector);
    ((opcode & 0x0F00) >> 8) as usize
}

/// Reads the register index `Y` of `opcode`.
pub fn opcode_y(opcode: u16) -> (y: usize)
    ensures
        y == field_y(opcode),
        y < 16,
{
    assert((opcode & 0x00F0) >> 4 == (opcode / 16) % 16) by (bit_vector);
    ((opcode & 0x00F0) >> 4) as usize
}

/// Reads the low nibble of `opcode`.
pub fn opcode_n(opcode: u16) -> (n: u8)
    ensures
        n == field_n(opcode),
        n < 16,
{
    assert(opcode & 0x000F == opcode % 16) by (bit_vector);
    (opcode & 0x000F) as u8
}

/// Reads the low byte of `opcode`.
pub fn opcode_nn(opcode: u16) -> (nn: u8)
    ensures
        nn == field_nn(opcode),
{
    assert(opcode & 0x00FF == opcode % 256) by (bit_vector);
    (opcode & 0x00FF) as u8
}

/// Reads the low twelve bits of `opcode`.
pub fn opcode_nnn(opcode: u16) -> (nnn: u16)
    ensures
        nnn == field_nnn(opcode),
        nnn < 0x1000,
{
    assert(opcode & 0x0FFF == opcode % 4096) by (bit_vector);
    opcode & 0x0FFF
}

} // verus!
