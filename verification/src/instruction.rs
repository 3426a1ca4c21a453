//! The closed instruction set of the stack-based virtual machine.

use vstd::prelude::*;

verus! {

/// One opcode.  Each variant is written into the bytecode as a single byte
/// holding its ordinal position in this enumeration.
#[derive(Clone, Copy, Debug, PartialEq, Eq, Structural)]
pub enum Instruction {
    /// Push an immediate value: one size byte, then that many payload bytes.
    Push,
    /// Push a value fetched from flat storage: one size byte, then a 4-byte
    /// storage offset.
    PushDeref,
    /// Remove a value from the stack and store it: one size byte, then a
    /// 4-byte storage offset.
    Pop,
    /// Integer-to-integer conversion: one source-size byte, then one
    /// destination-size byte.
    ConvII,
    /// Integer-to-float conversion, operands as for `ConvII`.
    ConvIF,
    /// Float-to-integer conversion, operands as for `ConvII`.
    ConvFI,
    /// Float-to-float conversion, operands as for `ConvII`.
    ConvFF,
    /// End of the program; no operands, always exactly once, always last.
    Halt,
}

impl Instruction {
    /// The byte an opcode is encoded as: its ordinal in the enumeration.
    pub open spec fn spec_opcode(self) -> u8 {
        match self {
            Instruction::Push => 0,
            Instruction::PushDeref => 1,
            Instruction::Pop => 2,
            Instruction::ConvII => 3,
            Instruction::ConvIF => 4,
            Instruction::ConvFI => 5,
            Instruction::ConvFF => 6,
            Instruction::Halt => 7,
        }
    }

    /// Executable opcode byte; agrees with [`Self::spec_opcode`].
    #[verifier::when_used_as_spec(spec_opcode)]
    pub fn opcode(self) -> (byte: u8)
        ensures
            byte == self.spec_opcode(),
    {
        match self {
            Instruction::Push => 0,
            Instruction::PushDeref => 1,
            Instruction::Pop => 2,
            Instruction::ConvII => 3,
            Instruction::ConvIF => 4,
            Instruction::ConvFI => 5,
            Instruction::ConvFF => 6,
            Instruction::Halt => 7,
        }
    }
}

/// Every instruction byte the emitter writes is a valid ordinal of the
/// closed enumeration.
pub proof fn lemma_opcode_in_range(instruction: Instruction)
    ensures
        instruction.spec_opcode() < 8,
{
}

} // verus!
