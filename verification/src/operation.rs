use vstd::prelude::*;

verus! {

/// How an operation finds its operand.
#[derive(Clone, Copy, Debug, PartialEq, Eq, Structural)]
pub enum AddressingMode {
    /// No operand beyond the instruction itself (`CLC`)
    Implied,
    /// Operates on the accumulator alone (`LSR A`)
    Accumulator,
    /// An 8-bit constant right after the opcode (`LDA #$10`)
    Immediate,
    /// An 8-bit address into the zero page (`LDA $00`)
    ZeroPage,
    /// Zero-page address plus X, wrapping in the page (`STY $10, X`)
    ZeroPageX,
    /// Zero-page address plus Y, wrapping in the page (`LDX $10, Y`)
    ZeroPageY,
    /// A signed 8-bit displacement for branches (`BNE -6`)
    Relative,
    /// A full 16-bit address (`LDA $1234`)
    Absolute,
    /// A 16-bit address plus X (`LDA $1234, X`)
    AbsoluteX,
    /// A 16-bit address plus Y (`LDA $1234, Y`)
    AbsoluteY,
    /// A 16-bit pointer to the target address (`JMP ($1234)`)
    Indirect,
    /// A zero-page pointer plus X selects the address (`LDA ($10, X)`)
    IndexedIndirect,
    /// A zero-page pointer selects the address, plus Y (`LDA ($10), Y`)
    IndirectIndexed,
}

/// One entry of the opcode table: whether the opcode exists, its
/// disassembly template, and its byte size (opcode included).
pub struct Operation {
    /// The opcode is implemented; an undefined entry is a decode error.
    pub defined: bool,

    /// Disassembly template of the operation
    pub disassembly: &'static str,

    /// Number of bytes (opcode included)
    pub size: u8,
}

impl Operation {
    /// An undefined table entry.
    pub fn empty() -> (r: Operation)
        ensures
            !r.defined,
            r.size == 0,
    {
        Operation { defined: false, disassembly: "", size: 0 }
    }

    /// A defined table entry.
    pub fn new(disassembly: &'static str, size: u8) -> (r: Operation)
        ensures
            r.defined,
            r.size == size,
            r.disassembly == disassembly,
    {
        Operation { defined: true, disassembly: disassembly, size: size }
    }
}

} // verus!
