use vstd::prelude::*;

verus! {

use crate::operation::Operation;

/// The opcode is one this core implements; anything else is a decode error.
pub open spec fn spec_op_defined(opcode: u8) -> bool {
    match opcode {
        0x01 => true,
        0x05 => true,
        0x06 => true,
        0x08 => true,
        0x09 => true,
        0x0A => true,
        0x0D => true,
        0x0E => true,
        0x10 => true,
        0x11 => true,
        0x15 => true,
        0x16 => true,
        0x18 => true,
        0x19 => true,
        0x1D => true,
        0x1E => true,
        0x20 => true,
        0x21 => true,
        0x24 => true,
        0x25 => true,
        0x26 => true,
        0x28 => true,
        0x29 => true,
        0x2A => true,
        0x2C => true,
        0x2D => true,
        0x2E => true,
        0x30 => true,
        0x31 => true,
        0x35 => true,
        0x36 => true,
        0x38 => true,
        0x39 => true,
        0x3D => true,
        0x3E => true,
        0x40 => true,
        0x41 => true,
        0x45 => true,
        0x46 => true,
        0x48 => true,
        0x49 => true,
        0x4A => true,
        0x4C => true,
        0x4D => true,
        0x4E => true,
        0x50 => true,
        0x51 => true,
        0x55 => true,
        0x56 => true,
        0x58 => true,
        0x59 => true,
        0x5D => true,
        0x5E => true,
        0x60 => true,
        0x61 => true,
        0x65 => true,
        0x66 => true,
        0x68 => true,
        0x69 => true,
        0x6A => true,
        0x6C => true,
        0x6D => true,
        0x6E => true,
        0x70 => true,
        0x71 => true,
        0x75 => true,
        0x76 => true,
        0x78 => true,
        0x79 => true,
        0x7D => true,
        0x7E => true,
        0x81 => true,
        0x84 => true,
        0x85 => true,
        0x86 => true,
        0x88 => true,
        0x8A => true,
        0x8C => true,
        0x8D => true,
        0x8E => true,
        0x90 => true,
        0x91 => true,
        0x94 => true,
        0x95 => true,
        0x96 => true,
        0x98 => true,
        0x99 => true,
        0x9A => true,
        0x9D => true,
        0xA0 => true,
        0xA1 => true,
        0xA2 => true,
        0xA4 => true,
        0xA5 => true,
        0xA6 => true,
        0xA8 => true,
        0xA9 => true,
        0xAA => true,
        0xAC => true,
        0xAD => true,
        0xAE => true,
        0xB0 => true,
        0xB1 => true,
        0xB4 => true,
        0xB5 => true,
        0xB6 => true,
        0xB8 => true,
        0xB9 => true,
        0xBA => true,
        0xBC => true,
        0xBD => true,
        0xBE => true,
        0xC0 => true,
        0xC1 => true,
        0xC4 => true,
        0xC5 => true,
        0xC6 => true,
        0xC8 => true,
        0xC9 => true,
        0xCA => true,
        0xCC => true,
        0xCD => true,
        0xCE => true,
        0xD0 => true,
        0xD1 => true,
        0xD5 => true,
        0xD6 => true,
        0xD8 => true,
        0xD9 => true,
        0xDD => true,
        0xDE => true,
        0xE0 => true,
        0xE1 => true,
        0xE4 => true,
        0xE5 => true,
        0xE6 => true,
        0xE8 => true,
        0xE9 => true,
        0xEA => true,
        0xEC => true,
        0xED => true,
        0xEE => true,
        0xF0 => true,
        0xF1 => true,
        0xF5 => true,
        0xF6 => true,
        0xF8 => true,
        0xF9 => true,
        0xFD => true,
        0xFE => true,
        _ => false,
    }
}

/// Byte size of the operation, opcode included; the interpreter performs a
/// dummy read for entries of size one, because the part always reads at
/// least two bytes per instruction.
pub open spec fn spec_op_size(opcode: u8) -> u8 {
    match opcode {
        0x01 => 2,
        0x05 => 2,
        0x06 => 2,
        0x08 => 1,
        0x09 => 2,
        0x0A => 1,
        0x0D => 3,
        0x0E => 3,
        0x10 => 2,
        0x11 => 2,
        0x15 => 2,
        0x16 => 2,
        0x18 => 1,
        0x19 => 3,
        0x1D => 3,
        0x1E => 3,
        0x20 => 3,
        0x21 => 2,
        0x24 => 2,
        0x25 => 2,
        0x26 => 2,
        0x28 => 1,
        0x29 => 2,
        0x2A => 1,
        0x2C => 3,
        0x2D => 3,
        0x2E => 3,
        0x30 => 2,
        0x31 => 2,
        0x35 => 2,
        0x36 => 2,
        0x38 => 1,
        0x39 => 3,
        0x3D => 3,
        0x3E => 3,
        0x40 => 1,
        0x41 => 2,
        0x45 => 2,
        0x46 => 2,
        0x48 => 1,
        0x49 => 2,
        0x4A => 1,
        0x4C => 3,
        0x4D => 3,
        0x4E => 3,
        0x50 => 2,
        0x51 => 2,
        0x55 => 2,
        0x56 => 2,
        0x58 => 1,
        0x59 => 3,
        0x5D => 3,
        0x5E => 3,
        0x60 => 1,
        0x61 => 2,
        0x65 => 2,
        0x66 => 2,
        0x68 => 1,
        0x69 => 2,
        0x6A => 1,
        0x6C => 3,
        0x6D => 3,
        0x6E => 3,
        0x70 => 2,
        0x71 => 2,
        0x75 => 2,
        0x76 => 2,
        0x78 => 1,
        0x79 => 3,
        0x7D => 3,
        0x7E => 3,
        0x81 => 2,
        0x84 => 2,
        0x85 => 2,
        0x86 => 2,
        0x88 => 1,
        0x8A => 1,
        0x8C => 3,
        0x8D => 3,
        0x8E => 3,
        0x90 => 2,
        0x91 => 2,
        0x94 => 3,
        0x95 => 2,
        0x96 => 3,
        0x98 => 1,
        0x99 => 3,
        0x9A => 1,
        0x9D => 3,
        0xA0 => 2,
        0xA1 => 2,
        0xA2 => 2,
        0xA4 => 2,
        0xA5 => 2,
        0xA6 => 2,
        0xA8 => 1,
        0xA9 => 2,
        0xAA => 1,
        0xAC => 2,
        0xAD => 2,
        0xAE => 2,
        0xB0 => 2,
        0xB1 => 2,
        0xB4 => 2,
        0xB5 => 2,
        0xB6 => 2,
        0xB8 => 1,
        0xB9 => 2,
        0xBA => 1,
        0xBC => 2,
        0xBD => 2,
        0xBE => 2,
        0xC0 => 2,
        0xC1 => 2,
        0xC4 => 2,
        0xC5 => 2,
        0xC6 => 2,
        0xC8 => 1,
        0xC9 => 2,
        0xCA => 1,
        0xCC => 3,
        0xCD => 3,
        0xCE => 3,
        0xD0 => 2,
        0xD1 => 2,
        0xD5 => 2,
        0xD6 => 2,
        0xD8 => 1,
        0xD9 => 3,
        0xDD => 3,
        0xDE => 3,
        0xE0 => 2,
        0xE1 => 2,
        0xE4 => 2,
        0xE5 => 2,
        0xE6 => 2,
        0xE8 => 1,
        0xE9 => 2,
        0xEA => 1,
        0xEC => 3,
        0xED => 3,
        0xEE => 3,
        0xF0 => 2,
        0xF1 => 2,
        0xF5 => 2,
        0xF6 => 2,
        0xF8 => 1,
        0xF9 => 3,
        0xFD => 3,
        0xFE => 3,
        _ => 0,
    }
}

/// The opcode dispatch table.
pub struct Table {}

impl Default for Table {
    fn default() -> (r: Table) {
        Table {  }
    }
}

impl Table {
    /// Look one opcode up.
    #[verifier::rlimit(100)]
    #[verifier::spinoff_prover]
    pub fn index(&self, opcode: u8) -> (r: Operation)
        ensures
            r.defined == spec_op_defined(opcode),
            r.size == spec_op_size(opcode),
    {
        match opcode {
            0x01 => Operation::new("ORA (${0:X}, X)", 2),
            0x05 => Operation::new("ORA ${0:X}", 2),
            0x06 => Operation::new("ASL ${0:X}", 2),
            0x08 => Operation::new("PHP", 1),
            0x09 => Operation::new("ORA #${0:X}", 2),
            0x0A => Operation::new("ASL A", 1),
            0x0D => Operation::new("ORA ${1:X}{0:X}", 3),
            0x0E => Operation::new("ASL ${1:X}{0:X}", 3),
            0x10 => Operation::new("BPL {0}", 2),
            0x11 => Operation::new("ORA (${0:X}), Y", 2),
            0x15 => Operation::new("ORA ${0:X}, X", 2),
            0x16 => Operation::new("ASL ${0:X}, X", 2),
            0x18 => Operation::new("CLC", 1),
            0x19 => Operation::new("ORA ${1:X}{0:X}, Y", 3),
            0x1D => Operation::new("ORA ${1:X}{0:X}, X", 3),
            0x1E => Operation::new("ASL ${1:X}{0:X}, X", 3),
            0x20 => Operation::new("JSR ${1:X}{0:X}", 3),
            0x21 => Operation::new("AND (${0:X}, X)", 2),
            0x24 => Operation::new("BIT ${0:X}", 2),
            0x25 => Operation::new("AND ${0:X}", 2),
            0x26 => Operation::new("ROL ${0:X}", 2),
            0x28 => Operation::new("PLP", 1),
            0x29 => Operation::new("AND #${0:X}", 2),
            0x2A => Operation::new("ROL A", 1),
            0x2C => Operation::new("BIT ${1:X}{0:X}", 3),
            0x2D => Operation::new("AND ${1:X}{0:X}", 3),
            0x2E => Operation::new("ROL ${1:X}{0:X}", 3),
            0x30 => Operation::new("BMI {0}", 2),
            0x31 => Operation::new("AND (${0:X}), Y", 2),
            0x35 => Operation::new("AND ${0:X}, X", 2),
            0x36 => Operation::new("ROL ${0:X}, X", 2),
            0x38 => Operation::new("SEC", 1),
            0x39 => Operation::new("AND ${1:X}{0:X}, Y", 3),
            0x3D => Operation::new("AND ${1:X}{0:X}, X", 3),
            0x3E => Operation::new("ROL ${1:X}{0:X}, X", 3),
            0x40 => Operation::new("RTI", 1),
            0x41 => Operation::new("EOR (${0:X}, X)", 2),
            0x45 => Operation::new("EOR ${0:X}", 2),
            0x46 => Operation::new("LRS ${0:X}", 2),
            0x48 => Operation::new("PHA", 1),
            0x49 => Operation::new("EOR #${0:X}", 2),
            0x4A => Operation::new("LRS A", 1),
            0x4C => Operation::new("JMP ${1:X}{0:X}", 3),
            0x4D => Operation::new("EOR ${1:X}{0:X}", 3),
            0x4E => Operation::new("LRS ${1:X}{0:X}", 3),
            0x50 => Operation::new("BVC {0}", 2),
            0x51 => Operation::new("EOR (${0:X}), Y", 2),
            0x55 => Operation::new("EOR ${0:X}, X", 2),
            0x56 => Operation::new("LRS ${0:X}, X", 2),
            0x58 => Operation::new("CLD", 1),
            0x59 => Operation::new("EOR ${1:X}{0:X}, Y", 3),
            0x5D => Operation::new("EOR ${1:X}{0:X}, X", 3),
            0x5E => Operation::new("LRS ${1:X}{0:X}, X", 3),
            0x60 => Operation::new("RTS", 1),
            0x61 => Operation::new("ADC (${0:X}, X)", 2),
            0x65 => Operation::new("ADC ${0:X}", 2),
            0x66 => Operation::new("ROR ${0:X}", 2),
            0x68 => Operation::new("PLA", 1),
            0x69 => Operation::new("ADC #${0:X}", 2),
            0x6A => Operation::new("ROR A", 1),
            0x6C => Operation::new("JMP (${1:X}{0:X})", 3),
            0x6D => Operation::new("ADC ${1:X}{0:X}", 3),
            0x6E => Operation::new("ROR ${1:X}{0:X}", 3),
            0x70 => Operation::new("BVS {0}", 2),
            0x71 => Operation::new("ADC (${0:X}), Y", 2),
            0x75 => Operation::new("ADC ${0:X}, X", 2),
            0x76 => Operation::new("ROR ${0:X}, X", 2),
            0x78 => Operation::new("SED", 1),
            0x79 => Operation::new("ADC ${1:X}{0:X}, Y", 3),
            0x7D => Operation::new("ADC ${1:X}{0:X}, X", 3),
            0x7E => Operation::new("ROR ${1:X}{0:X}, X", 3),
            0x81 => Operation::new("STA (${0:X}, X)", 2),
            0x84 => Operation::new("STY ${0:X}", 2),
            0x85 => Operation::new("STA ${0:X}", 2),
            0x86 => Operation::new("STX ${0:X}", 2),
            0x88 => Operation::new("DEY", 1),
            0x8A => Operation::new("TXA", 1),
            0x8C => Operation::new("STY ${1:X}{0:X}", 3),
            0x8D => Operation::new("STA ${1:X}{0:X}", 3),
            0x8E => Operation::new("STX ${1:X}{0:X}", 3),
            0x90 => Operation::new("BCC {0}", 2),
            0x91 => Operation::new("STA (${0:X}), Y", 2),
            0x94 => Operation::new("STY ${0:X}, X", 3),
            0x95 => Operation::new("STA ${0:X}, X", 2),
            0x96 => Operation::new("STX ${0:X}, Y", 3),
            0x98 => Operation::new("TYA", 1),
            0x99 => Operation::new("STA ${1:X}{0:X}, Y", 3),
            0x9A => Operation::new("TXS", 1),
            0x9D => Operation::new("STA ${1:X}{0:X}, X", 3),
            0xA0 => Operation::new("LDY #${0:X}", 2),
            0xA1 => Operation::new("LDA (${0:X}, X)", 2),
            0xA2 => Operation::new("LDX #${0:X}", 2),
            0xA4 => Operation::new("LDX ${0:X}", 2),
            0xA5 => Operation::new("LDA ${0:X}", 2),
            0xA6 => Operation::new("LDX ${0:X}", 2),
            0xA8 => Operation::new("TAY", 1),
            0xA9 => Operation::new("LDA #${0:X}", 2),
            0xAA => Operation::new("TAX", 1),
            0xAC => Operation::new("LDX ${1:X}{0:X}", 2),
            0xAD => Operation::new("LDA ${1:X}{0:X}", 2),
            0xAE => Operation::new("LDX ${1:X}{0:X}", 2),
            0xB0 => Operation::new("BCS {0}", 2),
            0xB1 => Operation::new("LDA (${0:X}), Y", 2),
            0xB4 => Operation::new("LDX ${0:X}, X", 2),
            0xB5 => Operation::new("LDA ${0:X}, X", 2),
            0xB6 => Operation::new("LDX ${0:X}, Y", 2),
            0xB8 => Operation::new("CLV", 1),
            0xB9 => Operation::new("LDA ${1:X}{0:X}, Y", 2),
            0xBA => Operation::new("TSX", 1),
            0xBC => Operation::new("LDX ${1:X}{0:X}, X", 2),
            0xBD => Operation::new("LDA ${1:X}{0:X}, X", 2),
            0xBE => Operation::new("LDX ${1:X}{0:X}, Y", 2),
            0xC0 => Operation::new("CPY #${0:X}", 2),
            0xC1 => Operation::new("CMP (${0:X}, X)", 2),
            0xC4 => Operation::new("CPY ${0:X}", 2),
            0xC5 => Operation::new("CMP ${0:X}", 2),
            0xC6 => Operation::new("DEC ${0:X}", 2),
            0xC8 => Operation::new("INY", 1),
            0xC9 => Operation::new("CMP #${0:X}", 2),
            0xCA => Operation::new("DEX", 1),
            0xCC => Operation::new("CPY ${1:X}{0:X}", 3),
            0xCD => Operation::new("CMP ${1:X}{0:X}", 3),
            0xCE => Operation::new("DEC ${1:X}{0:X}", 3),
            0xD0 => Operation::new("BNE {0}", 2),
            0xD1 => Operation::new("CMP (${0:X}), Y", 2),
            0xD5 => Operation::new("CMP ${0:X}, X", 2),
            0xD6 => Operation::new("DEC ${0:X}, X", 2),
            0xD8 => Operation::new("CLD", 1),
            0xD9 => Operation::new("CMP ${1:X}{0:X}, Y", 3),
            0xDD => Operation::new("CMP ${1:X}{0:X}, X", 3),
            0xDE => Operation::new("DEC ${1:X}{0:X}, X", 3),
            0xE0 => Operation::new("CPX #${0:X}", 2),
            0xE1 => Operation::new("SBC (${0:X}, X)", 2),
            0xE4 => Operation::new("CPX ${0:X}", 2),
            0xE5 => Operation::new("SBC ${0:X}", 2),
            0xE6 => Operation::new("INC ${0:X}", 2),
            0xE8 => Operation::new("INX", 1),
            0xE9 => Operation::new("SBC #${0:X}", 2),
            0xEA => Operation::new("NOP", 1),
            0xEC => Operation::new("CPX ${1:X}{0:X}", 3),
            0xED => Operation::new("SBC ${1:X}{0:X}", 3),
            0xEE => Operation::new("INC ${1:X}{0:X}", 3),
            0xF0 => Operation::new("BEQ {0}", 2),
            0xF1 => Operation::new("SBC (${0:X}), Y", 2),
            0xF5 => Operation::new("SBC ${0:X}, X", 2),
            0xF6 => Operation::new("INC ${0:X}, X", 2),
            0xF8 => Operation::new("SEI", 1),
            0xF9 => Operation::new("SBC ${1:X}{0:X}, Y", 3),
            0xFD => Operation::new("SBC ${1:X}{0:X}, X", 3),
            0xFE => Operation::new("INC ${1:X}{0:X}, X", 3),
            _ => Operation::empty(),
        }
    }
}

} // verus!
