use vstd::prelude::*;

use crate::arch::Width;
use crate::error::Error;

verus! {

/// The `wfi` instruction.
pub const WFI_INSTRUCTION: usize = 0x1050_0073;

/// Length in bytes of `ecall`.
pub const ECALL_INSTRUCTION_LENGTH: usize = 4;

/// Major opcode of the integer load instructions.
pub const OPCODE_LOAD: usize = 0b000_0011;

/// The length in bytes of the instruction whose first 16 bits are `i`, from the length
/// encoding of its low bits.
pub open spec fn instruction_length_of(i: u16) -> usize {
    if i & 0b11 != 0b11 {
        2
    } else if i & 0b11100 != 0b11100 {
        4
    } else if i & 0b111111 == 0b011111 {
        6
    } else if i & 0b1111111 == 0b011111 {
        8
    } else {
        (10 + 2 * ((i >> 12u16) & 0b111)) as usize
    }
}

/// Relies on `riscv_decode::instruction_length`: the length of an instruction from the length
/// encoding in its first 16 bits.
#[verifier::external_body]
fn instruction_length(i: u16) -> (r: usize)
    ensures
        r == instruction_length_of(i),
{
    riscv_decode::instruction_length(i)
}

/// The length in bytes of the instruction whose first 16 bits are the low bits of
/// `instruction`.
pub fn length_of_instruction(instruction: usize) -> (r: usize)
    ensures
        r == instruction_length_of(instruction as u16),
        2 <= r <= 24,
{
    let r = instruction_length(instruction as u16);
    let i = instruction as u16;
    assert((i >> 12u16) & 0b111 <= 7) by (bit_vector);
    r
}

/// The major opcode of a 32-bit instruction.
pub open spec fn opcode_of(instruction: usize) -> usize {
    instruction & 0b111_1111
}

/// The destination register field of a 32-bit instruction.
pub open spec fn rd_of(instruction: usize) -> usize {
    (instruction >> 7usize) & 0b1_1111
}

/// The `funct3` field of a 32-bit instruction, which for a load gives width and signedness.
pub open spec fn funct3_of(instruction: usize) -> usize {
    (instruction >> 12usize) & 0b111
}

/// The instruction is an integer load (`lb`, `lh`, `lw`, `ld`, `lbu`, `lhu`, `lwu`).
pub open spec fn is_load(instruction: usize) -> bool {
    opcode_of(instruction) == OPCODE_LOAD && funct3_of(instruction) != 0b111
}

/// The width of the access that a load with this `funct3` makes.
pub open spec fn load_width_of(funct3: usize) -> Width {
    if funct3 & 0b11 == 0 {
        Width::Byte
    } else if funct3 & 0b11 == 1 {
        Width::Byte2
    } else if funct3 & 0b11 == 2 {
        Width::Byte4
    } else {
        Width::Byte8
    }
}

/// The width of a load and whether it sign-extends the value it reads.
pub fn load_access(instruction: usize) -> (r: (Width, bool))
    ensures
        r.0 == load_width_of(funct3_of(instruction)),
        r.1 == (funct3_of(instruction) < 4),
{
    let funct3 = (instruction >> 12usize) & 0b111;
    let width = if funct3 & 0b11 == 0 {
        Width::Byte
    } else if funct3 & 0b11 == 1 {
        Width::Byte2
    } else if funct3 & 0b11 == 2 {
        Width::Byte4
    } else {
        Width::Byte8
    };
    (width, funct3 < 4)
}

/// The register that a load instruction writes. Fails with `InvalidParameter` for any other
/// instruction.
pub fn decode_result_register(instruction: usize) -> (r: Result<usize, Error>)
    ensures
        r is Ok <==> is_load(instruction),
        r is Ok ==> r->Ok_0 == rd_of(instruction) && r->Ok_0 < 32,
        r is Err ==> r->Err_0 == Error::InvalidParameter(),
{
    if instruction & 0b111_1111 == OPCODE_LOAD && (instruction >> 12usize) & 0b111 != 0b111 {
        let rd = (instruction >> 7usize) & 0b1_1111;
        assert(((instruction >> 7usize) & 0b1_1111) < 32) by (bit_vector);
        Ok(rd)
    } else {
        Err(Error::InvalidParameter())
    }
}

} // verus!
