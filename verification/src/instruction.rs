//! Decoded instructions: the three biased offsets, the operand sources, the
//! result mode, the register update modes and the opcode.
use vstd::prelude::*;

verus! {

use num_bigint::BigInt;
use crate::bigint_ops::big_val;

/// The register an offset is taken from.
#[derive(Clone, Copy, Debug, PartialEq, Eq, Structural)]
pub enum Register {
    AP,
    FP,
}

/// Where the second operand comes from.
#[derive(Clone, Copy, Debug, PartialEq, Eq, Structural)]
pub enum Op1Addr {
    Imm,
    AP,
    FP,
    Op0,
}

/// How the result is computed from the operands.
#[derive(Clone, Copy, Debug, PartialEq, Eq, Structural)]
pub enum Res {
    Op1,
    Add,
    Mul,
    Unconstrained,
}

/// How the program counter advances.
#[derive(Clone, Copy, Debug, PartialEq, Eq, Structural)]
pub enum PcUpdate {
    Regular,
    Jump,
    JumpRel,
    Jnz,
}

/// How the allocation pointer advances.
#[derive(Clone, Copy, Debug, PartialEq, Eq, Structural)]
pub enum ApUpdate {
    Regular,
    Add,
    Add1,
    Add2,
}

/// How the frame pointer advances; derived from the opcode.
#[derive(Clone, Copy, Debug, PartialEq, Eq, Structural)]
pub enum FpUpdate {
    Regular,
    APPlus2,
    Dst,
}

/// The instruction's opcode tag.
#[derive(Clone, Copy, Debug, PartialEq, Eq, Structural)]
pub enum Opcode {
    NOp,
    AssertEq,
    Ret,
    Call,
}

/// A decoded instruction. The offsets are the de-biased signed 16-bit
/// values; the immediate is the memory word after the instruction, when the
/// second operand is immediate.
#[derive(Clone, Debug, PartialEq, Eq)]
pub struct Instruction {
    pub off0: i64,
    pub off1: i64,
    pub off2: i64,
    pub imm: Option<BigInt>,
    pub dst_register: Register,
    pub op0_register: Register,
    pub op1_addr: Op1Addr,
    pub res: Res,
    pub pc_update: PcUpdate,
    pub ap_update: ApUpdate,
    pub fp_update: FpUpdate,
    pub opcode: Opcode,
}

/// Ghost model of a decoded instruction.
pub ghost struct InstrView {
    pub off0: int,
    pub off1: int,
    pub off2: int,
    pub imm: Option<int>,
    pub dst_register: Register,
    pub op0_register: Register,
    pub op1_addr: Op1Addr,
    pub res: Res,
    pub pc_update: PcUpdate,
    pub ap_update: ApUpdate,
    pub fp_update: FpUpdate,
    pub opcode: Opcode,
}

impl View for Instruction {
    type V = InstrView;

    open spec fn view(&self) -> InstrView {
        InstrView {
            off0: self.off0 as int,
            off1: self.off1 as int,
            off2: self.off2 as int,
            imm: match self.imm {
                Some(b) => Some(big_val(b)),
                None => None,
            },
            dst_register: self.dst_register,
            op0_register: self.op0_register,
            op1_addr: self.op1_addr,
            res: self.res,
            pc_update: self.pc_update,
            ap_update: self.ap_update,
            fp_update: self.fp_update,
            opcode: self.opcode,
        }
    }
}

/// An instruction occupies two memory words when it carries an immediate,
/// else one.
pub open spec fn instr_size(i: InstrView) -> int {
    if i.imm is Some {
        2
    } else {
        1
    }
}

impl Instruction {
    /// The number of memory words the instruction occupies.
    pub fn size(&self) -> (r: usize)
        ensures
            r as int == instr_size(self@),
    {
        match self.imm {
            Some(_) => 2,
            None => 1,
        }
    }
}

} // verus!
