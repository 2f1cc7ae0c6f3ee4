use vstd::prelude::*;

verus! {

/// Opcode byte of LDA with an immediate operand.
pub const OP_LDA_IMMEDIATE: u8 = 0xA9;

/// Opcode byte of TAX.
pub const OP_TAX: u8 = 0xAA;

/// Opcode byte of INX.
pub const OP_INX: u8 = 0xE8;

/// Opcode byte of BRK.
pub const OP_BRK: u8 = 0x00;

/// The instructions this core executes.
#[derive(Clone, Copy, Debug, PartialEq, Eq, Structural)]
pub enum Opcode {
    /// Load the next byte of the instruction stream into the accumulator.
    LdaImmediate,
    /// Copy the accumulator into index X.
    Tax,
    /// Increment index X, wrapping from 255 to 0.
    Inx,
    /// Halt.
    Brk,
}

/// The instruction table: which opcode byte selects which instruction.
pub open spec fn decode_spec(byte: u8) -> Option<Opcode> {
    if byte == OP_LDA_IMMEDIATE {
        Some(Opcode::LdaImmediate)
    } else if byte == OP_TAX {
        Some(Opcode::Tax)
    } else if byte == OP_INX {
        Some(Opcode::Inx)
    } else if byte == OP_BRK {
        Some(Opcode::Brk)
    } else {
        None
    }
}

/// Looks `byte` up in the instruction table; `None` for an opcode outside it.
pub fn decode(byte: u8) -> (r: Option<Opcode>)
    ensures
        r == decode_spec(byte),
{
    match byte {
        OP_LDA_IMMEDIATE => Some(Opcode::LdaImmediate),
        OP_TAX => Some(Opcode::Tax),
        OP_INX => Some(Opcode::Inx),
        OP_BRK => Some(Opcode::Brk),
        _ => None,
    }
}

/// Why a run stopped without reaching a halt instruction.
#[derive(Clone, Copy, Debug, PartialEq, Eq, Structural)]
pub enum ExecError {
    /// The fetched byte is not in the instruction table.
    UnknownOpcode(u8),
    /// A byte was to be fetched from the last address, after which the
    /// program counter has no next value.
    AddressSpaceExhausted,
}

} // verus!
