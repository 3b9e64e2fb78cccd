//! The run context: the three registers and the prime, with the operand
//! address computations.
use vstd::prelude::*;

verus! {

use num_bigint::BigInt;
use crate::bigint_ops::big_val;
use crate::errors::{VirtualMachineError, VmErrV, result_view};
use crate::instruction::{Instruction, InstrView, Register, Op1Addr};
use crate::relocatable::{MaybeRelocatable, MrVal, mrv_add_int, mrv_add_usize, mrv_wf};

/// The registers of the machine and the field prime.
pub struct RunContext {
    pub pc: MaybeRelocatable,
    pub ap: MaybeRelocatable,
    pub fp: MaybeRelocatable,
    pub prime: BigInt,
}

/// Ghost model of the run context.
pub ghost struct CtxView {
    pub pc: MrVal,
    pub ap: MrVal,
    pub fp: MrVal,
    pub prime: int,
}

impl View for RunContext {
    type V = CtxView;

    open spec fn view(&self) -> CtxView {
        CtxView { pc: self.pc@, ap: self.ap@, fp: self.fp@, prime: big_val(self.prime) }
    }
}

impl CtxView {
    /// The register a `Register` tag selects.
    pub open spec fn reg(self, r: Register) -> MrVal {
        match r {
            Register::AP => self.ap,
            Register::FP => self.fp,
        }
    }

    /// A well-formed context: positive prime, canonical register values.
    pub open spec fn wf(self) -> bool {
        self.prime > 0 && mrv_wf(self.pc) && mrv_wf(self.ap) && mrv_wf(self.fp)
    }
}

/// Address of the destination operand: the selected register shifted by the
/// first offset.
pub open spec fn dst_addr_spec(c: CtxView, i: InstrView) -> Result<MrVal, VmErrV> {
    mrv_add_int(c.reg(i.dst_register), i.off0, c.prime)
}

/// Address of the first operand: the selected register shifted by the second
/// offset.
pub open spec fn op0_addr_spec(c: CtxView, i: InstrView) -> Result<MrVal, VmErrV> {
    mrv_add_int(c.reg(i.op0_register), i.off1, c.prime)
}

/// Address of the second operand: the word after the instruction for an
/// immediate; a register shifted by the third offset; or the first operand's
/// value shifted by the third offset, which needs that value to be known.
pub open spec fn op1_addr_spec(c: CtxView, i: InstrView, op0: Option<MrVal>) -> Result<
    MrVal,
    VmErrV,
> {
    match i.op1_addr {
        Op1Addr::Imm => mrv_add_usize(c.pc, 1, None),
        Op1Addr::AP => mrv_add_int(c.ap, i.off2, c.prime),
        Op1Addr::FP => mrv_add_int(c.fp, i.off2, c.prime),
        Op1Addr::Op0 => match op0 {
            Some(v) => mrv_add_int(v, i.off2, c.prime),
            None => Err(VmErrV::UnknownOp0),
        },
    }
}

impl RunContext {
    /// Computes the destination operand's address.
    pub fn compute_dst_addr(&self, instruction: &Instruction) -> (r: Result<
        MaybeRelocatable,
        VirtualMachineError,
    >)
        requires
            self@.prime > 0,
        ensures
            result_view(r) == dst_addr_spec(self@, instruction@),
    {
        let base = match instruction.dst_register {
            Register::AP => &self.ap,
            Register::FP => &self.fp,
        };
        base.add_i64_mod(instruction.off0, &self.prime)
    }

    /// Computes the first operand's address.
    pub fn compute_op0_addr(&self, instruction: &Instruction) -> (r: Result<
        MaybeRelocatable,
        VirtualMachineError,
    >)
        requires
            self@.prime > 0,
        ensures
            result_view(r) == op0_addr_spec(self@, instruction@),
    {
        let base = match instruction.op0_register {
            Register::AP => &self.ap,
            Register::FP => &self.fp,
        };
        base.add_i64_mod(instruction.off1, &self.prime)
    }

    /// Computes the second operand's address; needs the first operand when
    /// the instruction reads through it.
    pub fn compute_op1_addr(
        &self,
        instruction: &Instruction,
        op0: Option<&MaybeRelocatable>,
    ) -> (r: Result<MaybeRelocatable, VirtualMachineError>)
        requires
            self@.prime > 0,
        ensures
            result_view(r) == op1_addr_spec(
                self@,
                instruction@,
                match op0 {
                    Some(v) => Some(v@),
                    None => None,
                },
            ),
    {
        match instruction.op1_addr {
            Op1Addr::Imm => self.pc.add_usize_mod(1, None),
            Op1Addr::AP => self.ap.add_i64_mod(instruction.off2, &self.prime),
            Op1Addr::FP => self.fp.add_i64_mod(instruction.off2, &self.prime),
            Op1Addr::Op0 => match op0 {
                Some(v) => v.add_i64_mod(instruction.off2, &self.prime),
                None => Err(VirtualMachineError::UnknownOp0),
            },
        }
    }
}

} // verus!
