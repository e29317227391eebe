//! The instruction table: opcode decode across the two-level (prefixed)
//! opcode space, the flavor records (addressing mode, size, nominal cycle
//! count) and the outcome of an evaluation. The table covers the simulator's
//! implemented subset of the 6809 instruction set.

use vstd::prelude::*;

use crate::memory::AccessType;
use crate::registers::RegisterSet;

verus! {

/// The 6809 addressing modes.
#[derive(Clone, Copy, PartialEq, Eq, Structural, Debug)]
pub enum AddressingMode {
    Immediate,
    Direct,
    Extended,
    Inherent,
    Relative,
    Indexed,
}

/// Meta-instructions: state changes the execution loop performs after the
/// instruction itself has been evaluated.
#[derive(Clone, Copy, PartialEq, Eq, Structural, Debug)]
pub enum Meta {
    Swi,
    Swi2,
    Swi3,
    Sync,
    Cwai,
    Exit,
}

/// The operations of the implemented instruction subset.
#[derive(Clone, Copy, PartialEq, Eq, Structural, Debug)]
pub enum Op {
    Lda,
    Ldb,
    Ldx,
    Sta,
    Stb,
    Stx,
    Nop,
    Jmp,
    Bra,
    Lbra,
    Pshs,
    Puls,
    Swi,
    Swi2,
    Swi3,
    Sync,
    Cwai,
    Exit,
}

/// One entry of the opcode table: what the instruction does, how its operand
/// is addressed, its total encoded size in bytes (before any indexed-mode
/// extension bytes), and its nominal clock cycles.
#[derive(Clone, Copy, PartialEq, Eq, Structural, Debug)]
pub struct Flavor {
    pub op: Op,
    pub mode: AddressingMode,
    pub sz: u16,
    pub clk: u8,
}

/// A decoded instruction: its opcode, its total size so far, the size of the
/// opcode itself, its flavor, and the resolved effective address.
#[derive(Clone, Copy, PartialEq, Eq, Structural, Debug)]
pub struct Instance {
    pub opcode: u16,
    pub size: u16,
    pub opsize: u16,
    pub flavor: Flavor,
    pub ea: u16,
}

/// One byte of memory change an instruction asks for; the commit stage
/// flushes these through the bus with their access tags.
#[derive(Clone, Copy, PartialEq, Eq, Structural, Debug)]
pub struct DeferredWrite {
    pub at: AccessType,
    pub addr: u16,
    pub data: u8,
}

/// The result of evaluating one instruction: the register set to commit, the
/// memory writes to flush, and an optional meta marker.
#[derive(Debug)]
pub struct Outcome {
    pub inst: Instance,
    pub new_ctx: RegisterSet,
    pub writes: Vec<DeferredWrite>,
    pub meta: Option<Meta>,
}

/// Whether a first opcode byte announces a two-byte opcode.
pub open spec fn is_prefix_byte(b: u8) -> bool {
    b == 0x10 || b == 0x11
}

pub fn is_high_byte_of_16bit_instruction(b: u8) -> (r: bool)
    ensures
        r == is_prefix_byte(b),
{
    b == 0x10 || b == 0x11
}

/// The opcode table as a function from the (possibly prefixed) opcode to its
/// flavor. Cycle counts are the data-sheet values for the base form.
pub open spec fn flavor_spec(op16: u16) -> Option<Flavor> {
    match op16 {
        0x12 => Some(Flavor { op: Op::Nop, mode: AddressingMode::Inherent, sz: 1, clk: 2 }),
        0x13 => Some(Flavor { op: Op::Sync, mode: AddressingMode::Inherent, sz: 1, clk: 4 }),
        0x16 => Some(Flavor { op: Op::Lbra, mode: AddressingMode::Relative, sz: 3, clk: 5 }),
        0x20 => Some(Flavor { op: Op::Bra, mode: AddressingMode::Relative, sz: 2, clk: 3 }),
        0x34 => Some(Flavor { op: Op::Pshs, mode: AddressingMode::Immediate, sz: 2, clk: 5 }),
        0x35 => Some(Flavor { op: Op::Puls, mode: AddressingMode::Immediate, sz: 2, clk: 5 }),
        0x3c => Some(Flavor { op: Op::Cwai, mode: AddressingMode::Immediate, sz: 2, clk: 20 }),
        0x3e => Some(Flavor { op: Op::Exit, mode: AddressingMode::Inherent, sz: 1, clk: 2 }),
        0x3f => Some(Flavor { op: Op::Swi, mode: AddressingMode::Inherent, sz: 1, clk: 19 }),
        0x6e => Some(Flavor { op: Op::Jmp, mode: AddressingMode::Indexed, sz: 2, clk: 3 }),
        0x7e => Some(Flavor { op: Op::Jmp, mode: AddressingMode::Extended, sz: 3, clk: 4 }),
        0x86 => Some(Flavor { op: Op::Lda, mode: AddressingMode::Immediate, sz: 2, clk: 2 }),
        0x8e => Some(Flavor { op: Op::Ldx, mode: AddressingMode::Immediate, sz: 3, clk: 3 }),
        0x96 => Some(Flavor { op: Op::Lda, mode: AddressingMode::Direct, sz: 2, clk: 4 }),
        0x97 => Some(Flavor { op: Op::Sta, mode: AddressingMode::Direct, sz: 2, clk: 4 }),
        0x9e => Some(Flavor { op: Op::Ldx, mode: AddressingMode::Direct, sz: 2, clk: 5 }),
        0x9f => Some(Flavor { op: Op::Stx, mode: AddressingMode::Direct, sz: 2, clk: 5 }),
        0xa6 => Some(Flavor { op: Op::Lda, mode: AddressingMode::Indexed, sz: 2, clk: 4 }),
        0xa7 => Some(Flavor { op: Op::Sta, mode: AddressingMode::Indexed, sz: 2, clk: 4 }),
        0xae => Some(Flavor { op: Op::Ldx, mode: AddressingMode::Indexed, sz: 2, clk: 5 }),
        0xaf => Some(Flavor { op: Op::Stx, mode: AddressingMode::Indexed, sz: 2, clk: 5 }),
        0xb6 => Some(Flavor { op: Op::Lda, mode: AddressingMode::Extended, sz: 3, clk: 5 }),
        0xb7 => Some(Flavor { op: Op::Sta, mode: AddressingMode::Extended, sz: 3, clk: 5 }),
        0xbe => Some(Flavor { op: Op::Ldx, mode: AddressingMode::Extended, sz: 3, clk: 6 }),
        0xbf => Some(Flavor { op: Op::Stx, mode: AddressingMode::Extended, sz: 3, clk: 6 }),
        0xc6 => Some(Flavor { op: Op::Ldb, mode: AddressingMode::Immediate, sz: 2, clk: 2 }),
        0xd6 => Some(Flavor { op: Op::Ldb, mode: AddressingMode::Direct, sz: 2, clk: 4 }),
        0xd7 => Some(Flavor { op: Op::Stb, mode: AddressingMode::Direct, sz: 2, clk: 4 }),
        0xe6 => Some(Flavor { op: Op::Ldb, mode: AddressingMode::Indexed, sz: 2, clk: 4 }),
        0xe7 => Some(Flavor { op: Op::Stb, mode: AddressingMode::Indexed, sz: 2, clk: 4 }),
        0xf6 => Some(Flavor { op: Op::Ldb, mode: AddressingMode::Extended, sz: 3, clk: 5 }),
        0xf7 => Some(Flavor { op: Op::Stb, mode: AddressingMode::Extended, sz: 3, clk: 5 }),
        0x103f => Some(Flavor { op: Op::Swi2, mode: AddressingMode::Inherent, sz: 2, clk: 20 }),
        0x113f => Some(Flavor { op: Op::Swi3, mode: AddressingMode::Inherent, sz: 2, clk: 20 }),
        _ => None,
    }
}

/// Looks up the flavor of a (possibly prefixed) opcode.
pub fn opcode_to_flavor(op16: u16) -> (r: Option<Flavor>)
    ensures
        r == flavor_spec(op16),
{
    match op16 {
        0x12 => Some(Flavor { op: Op::Nop, mode: AddressingMode::Inherent, sz: 1, clk: 2 }),
        0x13 => Some(Flavor { op: Op::Sync, mode: AddressingMode::Inherent, sz: 1, clk: 4 }),
        0x16 => Some(Flavor { op: Op::Lbra, mode: AddressingMode::Relative, sz: 3, clk: 5 }),
        0x20 => Some(Flavor { op: Op::Bra, mode: AddressingMode::Relative, sz: 2, clk: 3 }),
        0x34 => Some(Flavor { op: Op::Pshs, mode: AddressingMode::Immediate, sz: 2, clk: 5 }),
        0x35 => Some(Flavor { op: Op::Puls, mode: AddressingMode::Immediate, sz: 2, clk: 5 }),
        0x3c => Some(Flavor { op: Op::Cwai, mode: AddressingMode::Immediate, sz: 2, clk: 20 }),
        0x3e => Some(Flavor { op: Op::Exit, mode: AddressingMode::Inherent, sz: 1, clk: 2 }),
        0x3f => Some(Flavor { op: Op::Swi, mode: AddressingMode::Inherent, sz: 1, clk: 19 }),
        0x6e => Some(Flavor { op: Op::Jmp, mode: AddressingMode::Indexed, sz: 2, clk: 3 }),
        0x7e => Some(Flavor { op: Op::Jmp, mode: AddressingMode::Extended, sz: 3, clk: 4 }),
        0x86 => Some(Flavor { op: Op::Lda, mode: AddressingMode::Immediate, sz: 2, clk: 2 }),
        0x8e => Some(Flavor { op: Op::Ldx, mode: AddressingMode::Immediate, sz: 3, clk: 3 }),
        0x96 => Some(Flavor { op: Op::Lda, mode: AddressingMode::Direct, sz: 2, clk: 4 }),
        0x97 => Some(Flavor { op: Op::Sta, mode: AddressingMode::Direct, sz: 2, clk: 4 }),
        0x9e => Some(Flavor { op: Op::Ldx, mode: AddressingMode::Direct, sz: 2, clk: 5 }),
        0x9f => Some(Flavor { op: Op::Stx, mode: AddressingMode::Direct, sz: 2, clk: 5 }),
        0xa6 => Some(Flavor { op: Op::Lda, mode: AddressingMode::Indexed, sz: 2, clk: 4 }),
        0xa7 => Some(Flavor { op: Op::Sta, mode: AddressingMode::Indexed, sz: 2, clk: 4 }),
        0xae => Some(Flavor { op: Op::Ldx, mode: AddressingMode::Indexed, sz: 2, clk: 5 }),
        0xaf => Some(Flavor { op: Op::Stx, mode: AddressingMode::Indexed, sz: 2, clk: 5 }),
        0xb6 => Some(Flavor { op: Op::Lda, mode: AddressingMode::Extended, sz: 3, clk: 5 }),
        0xb7 => Some(Flavor { op: Op::Sta, mode: AddressingMode::Extended, sz: 3, clk: 5 }),
        0xbe => Some(Flavor { op: Op::Ldx, mode: AddressingMode::Extended, sz: 3, clk: 6 }),
        0xbf => Some(Flavor { op: Op::Stx, mode: AddressingMode::Extended, sz: 3, clk: 6 }),
        0xc6 => Some(Flavor { op: Op::Ldb, mode: AddressingMode::Immediate, sz: 2, clk: 2 }),
        0xd6 => Some(Flavor { op: Op::Ldb, mode: AddressingMode::Direct, sz: 2, clk: 4 }),
        0xd7 => Some(Flavor { op: Op::Stb, mode: AddressingMode::Direct, sz: 2, clk: 4 }),
        0xe6 => Some(Flavor { op: Op::Ldb, mode: AddressingMode::Indexed, sz: 2, clk: 4 }),
        0xe7 => Some(Flavor { op: Op::Stb, mode: AddressingMode::Indexed, sz: 2, clk: 4 }),
        0xf6 => Some(Flavor { op: Op::Ldb, mode: AddressingMode::Extended, sz: 3, clk: 5 }),
        0xf7 => Some(Flavor { op: Op::Stb, mode: AddressingMode::Extended, sz: 3, clk: 5 }),
        0x103f => Some(Flavor { op: Op::Swi2, mode: AddressingMode::Inherent, sz: 2, clk: 20 }),
        0x113f => Some(Flavor { op: Op::Swi3, mode: AddressingMode::Inherent, sz: 2, clk: 20 }),
        _ => None,
    }
}

impl Meta {
    /// The interrupt a software-interrupt meta marker starts, if any.
    pub open spec fn to_interrupt_type_spec(self) -> Option<crate::cpu::InterruptType> {
        match self {
            Meta::Swi => Some(crate::cpu::InterruptType::Swi),
            Meta::Swi2 => Some(crate::cpu::InterruptType::Swi2),
            Meta::Swi3 => Some(crate::cpu::InterruptType::Swi3),
            _ => None,
        }
    }

    pub fn to_interrupt_type(&self) -> (r: Option<crate::cpu::InterruptType>)
        ensures
            r == self.to_interrupt_type_spec(),
    {
        match self {
            Meta::Swi => Some(crate::cpu::InterruptType::Swi),
            Meta::Swi2 => Some(crate::cpu::InterruptType::Swi2),
            Meta::Swi3 => Some(crate::cpu::InterruptType::Swi3),
            _ => None,
        }
    }
}

} // verus!
