//! The fetch-decode-execute core: operand resolution with deduction, opcode
//! assertions, register updates, trace emission and accessed-address
//! tracking.
use vstd::prelude::*;

verus! {

use num_bigint::BigInt;
use crate::bigint_ops::{big_val, big_is_zero, big_mod_floor, big_mul, big_to_u64};
use crate::dict_manager::DictManager;
use crate::decoder::{decode_instruction, decode_spec};
use crate::errors::{VirtualMachineError, VmErrV};
use crate::exec_scope::ExecutionScopes;
use crate::hint_utils::HintReference;
use crate::instruction::{ApUpdate, FpUpdate, Instruction, InstrView, instr_size, Opcode, PcUpdate,
    Res};
use crate::memory::{Memory, mem_insert_spec};
use crate::modular::{field_div, field_div_exec};
use crate::relocatable::{MaybeRelocatable, MrVal, mrv_add, mrv_add_int, mrv_add_usize, mrv_sub,
    mrv_wf};
use crate::run_context::{CtxView, dst_addr_spec, op0_addr_spec, op1_addr_spec, RunContext};
use crate::segments::SegmentManager;

/// The resolved operands of one instruction.
#[derive(Debug, PartialEq, Eq)]
pub struct Operands {
    pub dst: MaybeRelocatable,
    pub res: Option<MaybeRelocatable>,
    pub op0: MaybeRelocatable,
    pub op1: MaybeRelocatable,
}

/// Ghost model of resolved operands.
pub ghost struct OperandsView {
    pub dst: MrVal,
    pub res: Option<MrVal>,
    pub op0: MrVal,
    pub op1: MrVal,
}

impl View for Operands {
    type V = OperandsView;

    open spec fn view(&self) -> OperandsView {
        OperandsView {
            dst: self.dst@,
            res: match self.res {
                Some(v) => Some(v@),
                None => None,
            },
            op0: self.op0@,
            op1: self.op1@,
        }
    }
}

/// All operands are well formed; integers among them are canonical residues.
pub open spec fn ops_wf(o: OperandsView) -> bool {
    &&& mrv_wf(o.dst)
    &&& mrv_wf(o.op0)
    &&& mrv_wf(o.op1)
    &&& match o.res {
        Some(v) => mrv_wf(v),
        None => true,
    }
}

/// One line of the execution trace: the registers before the update.
#[derive(Debug, PartialEq, Eq)]
pub struct TraceEntry {
    pub pc: MaybeRelocatable,
    pub ap: MaybeRelocatable,
    pub fp: MaybeRelocatable,
}

/// Ghost model of a trace entry.
pub ghost struct TraceView {
    pub pc: MrVal,
    pub ap: MrVal,
    pub fp: MrVal,
}

impl View for TraceEntry {
    type V = TraceView;

    open spec fn view(&self) -> TraceView {
        TraceView { pc: self.pc@, ap: self.ap@, fp: self.fp@ }
    }
}

/// View of an optional borrowed machine value.
pub open spec fn opt_ref_view(o: Option<&MaybeRelocatable>) -> Option<MrVal> {
    match o {
        Some(v) => Some(v@),
        None => None,
    }
}

/// View of an optional machine value.
pub open spec fn opt_val_view(o: Option<MaybeRelocatable>) -> Option<MrVal> {
    match o {
        Some(v) => Some(v@),
        None => None,
    }
}

/// An optional value is well formed when the value it may hold is.
pub open spec fn opt_wf(o: Option<MrVal>) -> bool {
    match o {
        Some(v) => mrv_wf(v),
        None => true,
    }
}

/// What the memory answers at an address: absent outside the map, absent for
/// a field-element address.
pub open spec fn mget(m: Map<(int, int), MrVal>, a: MrVal) -> Option<MrVal> {
    match a {
        MrVal::Rel(s, o) => if m.dom().contains((s, o)) {
            Some(m[(s, o)])
        } else {
            None
        },
        MrVal::Int(_) => None,
    }
}

/// Deduction of the first operand: a Call knows it is the return pc; an
/// AssertEq inverts its addition or multiplication when destination and
/// second operand are known. Alongside it, the result deduced on the way.
pub open spec fn deduce_op0_spec(
    i: InstrView,
    dst: Option<MrVal>,
    op1: Option<MrVal>,
    c: CtxView,
) -> Result<(Option<MrVal>, Option<MrVal>), VmErrV> {
    match i.opcode {
        Opcode::Call => match mrv_add_usize(c.pc, instr_size(i), None) {
            Ok(v) => Ok((Some(v), None)),
            Err(e) => Err(e),
        },
        Opcode::AssertEq => match i.res {
            Res::Add => match (dst, op1) {
                (Some(d), Some(o1)) => match mrv_sub(d, o1, c.prime) {
                    Ok(v) => Ok((Some(v), Some(d))),
                    Err(e) => Err(e),
                },
                _ => Ok((None, None)),
            },
            Res::Mul => match (dst, op1) {
                (Some(MrVal::Int(dv)), Some(MrVal::Int(ov))) => if ov != 0 {
                    Ok((Some(MrVal::Int(field_div(dv, ov, c.prime))), Some(MrVal::Int(dv))))
                } else {
                    Ok((None, None))
                },
                _ => Ok((None, None)),
            },
            _ => Ok((None, None)),
        },
        _ => Ok((None, None)),
    }
}

/// Deduction of the second operand by an AssertEq: the destination itself,
/// or the inverse of the addition or multiplication with the first operand.
pub open spec fn deduce_op1_spec(
    i: InstrView,
    dst: Option<MrVal>,
    op0: Option<MrVal>,
    c: CtxView,
) -> Result<(Option<MrVal>, Option<MrVal>), VmErrV> {
    match i.opcode {
        Opcode::AssertEq => match i.res {
            Res::Op1 => match dst {
                Some(d) => Ok((Some(d), Some(d))),
                None => Ok((None, None)),
            },
            Res::Add => match (dst, op0) {
                (Some(d), Some(o0)) => match mrv_sub(d, o0, c.prime) {
                    Ok(v) => Ok((Some(v), Some(d))),
                    Err(e) => Err(e),
                },
                _ => Ok((None, None)),
            },
            Res::Mul => match (dst, op0) {
                (Some(MrVal::Int(dv)), Some(MrVal::Int(ov))) => if ov != 0 {
                    Ok((Some(MrVal::Int(field_div(dv, ov, c.prime))), Some(MrVal::Int(dv))))
                } else {
                    Ok((None, None))
                },
                _ => Ok((None, None)),
            },
            _ => Ok((None, None)),
        },
        _ => Ok((None, None)),
    }
}

/// The result of an instruction: the second operand, a modular sum, a
/// modular product of two field elements, or nothing when unconstrained.
pub open spec fn compute_res_spec(i: InstrView, op0: MrVal, op1: MrVal, p: int) -> Result<
    Option<MrVal>,
    VmErrV,
> {
    match i.res {
        Res::Op1 => Ok(Some(op1)),
        Res::Add => match mrv_add(op0, op1, p) {
            Ok(v) => Ok(Some(v)),
            Err(e) => Err(e),
        },
        Res::Mul => match (op0, op1) {
            (MrVal::Int(a), MrVal::Int(b)) => Ok(Some(MrVal::Int((a * b) % p))),
            _ => Err(VmErrV::PureValue),
        },
        Res::Unconstrained => Ok(None),
    }
}

/// Deduction of the destination: an AssertEq makes it the result, a Call the
/// frame pointer.
pub open spec fn deduce_dst_spec(i: InstrView, res: Option<MrVal>, c: CtxView) -> Option<MrVal> {
    match i.opcode {
        Opcode::AssertEq => res,
        Opcode::Call => Some(c.fp),
        _ => None,
    }
}

/// The opcode's consistency demands: an AssertEq needs a result equal to the
/// destination (modular equality holds for field elements, which operand
/// resolution keeps canonical); a Call needs the return pc in op0 and the
/// caller's fp in the destination, whatever kind of value each is.
pub open spec fn opcode_asserts_spec(i: InstrView, o: OperandsView, c: CtxView) -> Result<
    (),
    VmErrV,
> {
    match i.opcode {
        Opcode::AssertEq => match o.res {
            None => Err(VmErrV::UnconstrainedResAssertEq),
            Some(r) => match (r, o.dst) {
                (MrVal::Int(rv), MrVal::Int(dv)) => if rv != dv {
                    Err(VmErrV::DiffAssertValues(rv, dv))
                } else {
                    Ok(())
                },
                _ => Ok(()),
            },
        },
        Opcode::Call => match mrv_add_usize(c.pc, instr_size(i), None) {
            Err(e) => Err(e),
            Ok(rp) => if o.op0 != rp {
                Err(VmErrV::CantWriteReturnPc(o.op0, rp))
            } else if o.dst != c.fp {
                Err(VmErrV::CantWriteReturnFp(o.dst, c.fp))
            } else {
                Ok(())
            },
        },
        _ => Ok(()),
    }
}

/// The frame pointer after the instruction.
pub open spec fn fp_update_spec(i: InstrView, o: OperandsView, c: CtxView) -> Result<
    MrVal,
    VmErrV,
> {
    match i.fp_update {
        FpUpdate::APPlus2 => mrv_add_usize(c.ap, 2, None),
        FpUpdate::Dst => Ok(o.dst),
        FpUpdate::Regular => Ok(c.fp),
    }
}

/// The allocation pointer after the instruction.
pub open spec fn ap_update_spec(i: InstrView, o: OperandsView, c: CtxView) -> Result<
    MrVal,
    VmErrV,
> {
    match i.ap_update {
        ApUpdate::Add => match o.res {
            Some(r) => mrv_add(c.ap, r, c.prime),
            None => Err(VmErrV::UnconstrainedResAdd),
        },
        ApUpdate::Add1 => mrv_add_usize(c.ap, 1, None),
        ApUpdate::Add2 => mrv_add_usize(c.ap, 2, None),
        ApUpdate::Regular => Ok(c.ap),
    }
}

/// The program counter after the instruction.
pub open spec fn pc_update_spec(i: InstrView, o: OperandsView, c: CtxView) -> Result<
    MrVal,
    VmErrV,
> {
    match i.pc_update {
        PcUpdate::Regular => mrv_add_usize(c.pc, instr_size(i), Some(c.prime)),
        PcUpdate::Jump => match o.res {
            Some(r) => Ok(r),
            None => Err(VmErrV::UnconstrainedResJump),
        },
        PcUpdate::JumpRel => match o.res {
            Some(MrVal::Int(n)) => mrv_add_int(c.pc, n, c.prime),
            Some(_) => Err(VmErrV::PureValue),
            None => Err(VmErrV::UnconstrainedResJumpRel),
        },
        PcUpdate::Jnz => match o.dst {
            MrVal::Int(d) => if d == 0 {
                mrv_add_usize(c.pc, instr_size(i), None)
            } else {
                mrv_add(c.pc, o.op1, c.prime)
            },
            _ => Err(VmErrV::PureValue),
        },
    }
}

/// The registers after the instruction, updated in the fixed order fp, ap,
/// pc, all from the pre-update snapshot.
pub open spec fn registers_update_spec(i: InstrView, o: OperandsView, c: CtxView) -> Result<
    (MrVal, MrVal, MrVal),
    VmErrV,
> {
    match fp_update_spec(i, o, c) {
        Err(e) => Err(e),
        Ok(f) => match ap_update_spec(i, o, c) {
            Err(e) => Err(e),
            Ok(a) => match pc_update_spec(i, o, c) {
                Err(e) => Err(e),
                Ok(p) => Ok((f, a, p)),
            },
        },
    }
}

/// A deduced operand written back to its cell, error lifted to the machine's.
pub open spec fn wb_spec(m: Map<(int, int), MrVal>, nsegs: int, a: MrVal, v: MrVal) -> Result<
    Map<(int, int), MrVal>,
    VmErrV,
> {
    match mem_insert_spec(m, nsegs, a, v) {
        Ok(m2) => Ok(m2),
        Err(e) => Err(VmErrV::MemoryError(e)),
    }
}

/// Operand resolution: compute the three addresses, read them, deduce what
/// is absent, compute the result, and write every deduced operand back.
/// Yields the operands, the three addresses and the memory afterwards.
pub open spec fn compute_operands_spec(
    i: InstrView,
    c: CtxView,
    m: Map<(int, int), MrVal>,
    nsegs: int,
) -> Result<
    (OperandsView, (MrVal, MrVal, MrVal), Map<(int, int), MrVal>),
    (VmErrV, Map<(int, int), MrVal>),
> {
    match dst_addr_spec(c, i) {
        Err(e) => Err((e, m)),
        Ok(dst_addr) => match op0_addr_spec(c, i) {
            Err(e) => Err((e, m)),
            Ok(op0_addr) => {
                let dst0 = mget(m, dst_addr);
                let op0_0 = mget(m, op0_addr);
                match op1_addr_spec(c, i, op0_0) {
                    Err(e) => Err((e, m)),
                    Ok(op1_addr) => {
                        let op1_0 = mget(m, op1_addr);
                        match (if op0_0 is None {
                            deduce_op0_spec(i, dst0, op1_0, c)
                        } else {
                            Ok((op0_0, None))
                        }) {
                            Err(e) => Err((e, m)),
                            Ok((op0_1, res1)) => match (if op1_0 is None {
                                deduce_op1_spec(i, dst0, op0_1, c)
                            } else {
                                Ok((op1_0, None))
                            }) {
                                Err(e) => Err((e, m)),
                                Ok((op1_1, res2)) => {
                                    let res12 = if res1 is None {
                                        res2
                                    } else {
                                        res1
                                    };
                                    match (op0_1, op1_1) {
                                        (Some(op0v), Some(op1v)) => {
                                            match (if res12 is None {
                                                compute_res_spec(i, op0v, op1v, c.prime)
                                            } else {
                                                Ok(res12)
                                            }) {
                                                Err(e) => Err((e, m)),
                                                Ok(resv) => {
                                                    let dstd = if dst0 is None {
                                                        deduce_dst_spec(i, resv, c)
                                                    } else {
                                                        dst0
                                                    };
                                                    match dstd {
                                                        None => Err((VmErrV::NoDst, m)),
                                                        Some(dstv) => {
                                                            match (if dst0 is None {
                                                                wb_spec(m, nsegs, dst_addr, dstv)
                                                            } else {
                                                                Ok(m)
                                                            }) {
                                                                Err(e) => Err((e, m)),
                                                                Ok(m1) => {
                                                                    match (if op0_0 is None {
                                                                        wb_spec(
                                                                            m1,
                                                                            nsegs,
                                                                            op0_addr,
                                                                            op0v,
                                                                        )
                                                                    } else {
                                                                        Ok(m1)
                                                                    }) {
                                                                        Err(e) => Err((e, m1)),
                                                                        Ok(m2) => {
                                                                            match (if op1_0
                                                                                is None {
                                                                                wb_spec(
                                                                                    m2,
                                                                                    nsegs,
                                                                                    op1_addr,
                                                                                    op1v,
                                                                                )
                                                                            } else {
                                                                                Ok(m2)
                                                                            }) {
                                                                                Err(e) => Err(
                                                                                    (e, m2),
                                                                                ),
                                                                                Ok(m3) => Ok(
                                                                                    (
                                                                                        OperandsView {
                                                                                            dst: dstv,
                                                                                            res: resv,
                                                                                            op0: op0v,
                                                                                            op1: op1v,
                                                                                        },
                                                                                        (
                                                                                            dst_addr,
                                                                                            op0_addr,
                                                                                            op1_addr,
                                                                                        ),
                                                                                        m3,
                                                                                    ),
                                                                                ),
                                                                            }
                                                                        },
                                                                    }
                                                                },
                                                            }
                                                        },
                                                    }
                                                },
                                            }
                                        },
                                        _ => Err((VmErrV::FailedToComputeOperands, m)),
                                    }
                                },
                            },
                        }
                    },
                }
            },
        },
    }
}

/// One resolved instruction: operands, opcode assertions, register update.
pub open spec fn instruction_step_spec(
    i: InstrView,
    c: CtxView,
    m: Map<(int, int), MrVal>,
    nsegs: int,
) -> Result<
    (OperandsView, (MrVal, MrVal, MrVal), Map<(int, int), MrVal>, (MrVal, MrVal, MrVal)),
    VmErrV,
> {
    match compute_operands_spec(i, c, m, nsegs) {
        Err(p) => Err(p.0),
        Ok((ops, addrs, m2)) => match opcode_asserts_spec(i, ops, c) {
            Err(e) => Err(e),
            Ok(_) => match registers_update_spec(i, ops, c) {
                Err(e) => Err(e),
                Ok(regs) => Ok((ops, addrs, m2, regs)),
            },
        },
    }
}

/// Fetch at pc: the instruction word, which must be a field element, and the
/// word after it, if any.
pub open spec fn fetch_spec(c: CtxView, m: Map<(int, int), MrVal>) -> Result<
    (int, Option<MrVal>),
    VmErrV,
> {
    match mget(m, c.pc) {
        Some(MrVal::Int(w)) => match mrv_add_usize(c.pc, 1, None) {
            Ok(a1) => Ok((w, mget(m, a1))),
            Err(e) => Err(e),
        },
        _ => Err(VmErrV::InvalidInstructionEncoding),
    }
}

/// One full machine step on the model: fetch, decode, resolve, assert,
/// update.
pub open spec fn step_spec(c: CtxView, m: Map<(int, int), MrVal>, nsegs: int) -> Result<
    (InstrView, OperandsView, (MrVal, MrVal, MrVal), Map<(int, int), MrVal>, (MrVal, MrVal, MrVal)),
    VmErrV,
> {
    match fetch_spec(c, m) {
        Err(e) => Err(e),
        Ok((w, immv)) => {
            let imm = match immv {
                Some(MrVal::Int(v)) => Some(v),
                _ => None,
            };
            match decode_spec(w, imm) {
                Err(e) => Err(e),
                Ok(iv) => match instruction_step_spec(iv, c, m, nsegs) {
                    Err(e) => Err(e),
                    Ok((ops, addrs, m2, regs)) => Ok((iv, ops, addrs, m2, regs)),
                },
            }
        },
    }
}

/// The state a finished run leaves behind: the registers, the memory, the
/// trace entries appended, the accessed addresses, and how many steps ran.
pub ghost struct RunView {
    pub pc: MrVal,
    pub ap: MrVal,
    pub fp: MrVal,
    pub mem: Map<(int, int), MrVal>,
    pub entries: Seq<TraceView>,
    pub acc: Seq<MrVal>,
    pub steps: nat,
}

/// The run loop on the model: step until the pc equals the terminal address.
/// Succeeds exactly when some number of successful steps within the fuel
/// reaches the terminal; yields the budget error exactly when the fuel runs
/// out first; any other error is the error of the step that failed.
pub open spec fn run_spec(
    c: CtxView,
    m: Map<(int, int), MrVal>,
    nsegs: int,
    acc: Seq<MrVal>,
    terminal: MrVal,
    fuel: nat,
) -> Result<RunView, VmErrV>
    decreases fuel,
{
    if c.pc == terminal {
        Ok(
            RunView {
                pc: c.pc,
                ap: c.ap,
                fp: c.fp,
                mem: m,
                entries: Seq::empty(),
                acc: acc,
                steps: 0,
            },
        )
    } else if fuel == 0 {
        Err(VmErrV::EndOfProgram)
    } else {
        match step_spec(c, m, nsegs) {
            Err(e) => Err(e),
            Ok(t) => {
                let c2 = CtxView { pc: t.4.2, ap: t.4.1, fp: t.4.0, prime: c.prime };
                let te = TraceView { pc: c.pc, ap: c.ap, fp: c.fp };
                match run_spec(
                    c2,
                    t.3,
                    nsegs,
                    acc_record(acc, t.2, c.pc),
                    terminal,
                    (fuel - 1) as nat,
                ) {
                    Err(e) => Err(e),
                    Ok(o) => Ok(
                        RunView {
                            pc: o.pc,
                            ap: o.ap,
                            fp: o.fp,
                            mem: o.mem,
                            entries: seq![te] + o.entries,
                            acc: o.acc,
                            steps: o.steps + 1,
                        },
                    ),
                }
            },
        }
    }
}

/// A run outcome seen from `k` steps and `prefix` trace entries earlier.
pub open spec fn extend_run(prefix: Seq<TraceView>, k: nat, r: Result<RunView, VmErrV>) -> Result<
    RunView,
    VmErrV,
> {
    match r {
        Ok(o) => Ok(
            RunView {
                pc: o.pc,
                ap: o.ap,
                fp: o.fp,
                mem: o.mem,
                entries: prefix + o.entries,
                acc: o.acc,
                steps: o.steps + k,
            },
        ),
        Err(e) => Err(e),
    }
}

/// The views of a sequence of machine values.
pub open spec fn mr_views(s: Seq<MaybeRelocatable>) -> Seq<MrVal> {
    s.map_values(|x: MaybeRelocatable| x@)
}

/// Recording an address: appended once, never twice.
pub open spec fn acc_add(acc: Seq<MrVal>, a: MrVal) -> Seq<MrVal> {
    if acc.contains(a) {
        acc
    } else {
        acc.push(a)
    }
}

/// Recording the three operand addresses and the pc of one instruction.
pub open spec fn acc_record(acc: Seq<MrVal>, addrs: (MrVal, MrVal, MrVal), pc: MrVal) -> Seq<
    MrVal,
> {
    acc_add(acc_add(acc_add(acc_add(acc, addrs.0), addrs.1), addrs.2), pc)
}

/// The views of a trace.
pub open spec fn trace_views(s: Seq<TraceEntry>) -> Seq<TraceView> {
    s.map_values(|t: TraceEntry| t@)
}

/// The view of the error a unit result carries, if any.
pub open spec fn err_opt(r: Result<(), VirtualMachineError>) -> Option<VmErrV> {
    match r {
        Ok(_) => None,
        Err(e) => Some(e@),
    }
}

/// The machine: registers, memory, trace, bookkeeping, and the hint-side
/// state (segment allocator, dictionary trackers, scopes, references).
pub struct VirtualMachine {
    pub run_context: RunContext,
    pub prime: BigInt,
    pub _program_base: Option<MaybeRelocatable>,
    pub memory: Memory,
    pub validated_addresses: Vec<MaybeRelocatable>,
    pub accessed_addresses: Vec<MaybeRelocatable>,
    pub trace: Vec<TraceEntry>,
    pub current_step: usize,
    pub skip_instruction_execution: bool,
    pub segments: SegmentManager,
    pub dict_manager: DictManager,
    pub exec_scopes: ExecutionScopes,
    pub references: Vec<HintReference>,
}

/// Everything but the registers and the memory is the same in both machines.
pub open spec fn same_but_registers_and_memory(a: &VirtualMachine, b: &VirtualMachine) -> bool {
    &&& a.prime == b.prime
    &&& a._program_base == b._program_base
    &&& a.validated_addresses == b.validated_addresses
    &&& a.accessed_addresses == b.accessed_addresses
    &&& a.trace == b.trace
    &&& a.current_step == b.current_step
    &&& a.skip_instruction_execution == b.skip_instruction_execution
    &&& a.segments == b.segments
    &&& a.dict_manager == b.dict_manager
    &&& a.exec_scopes == b.exec_scopes
    &&& a.references == b.references
    &&& a.run_context.prime == b.run_context.prime
}

/// The registers are the same in both machines.
pub open spec fn same_registers(a: &VirtualMachine, b: &VirtualMachine) -> bool {
    &&& a.run_context.pc == b.run_context.pc
    &&& a.run_context.ap == b.run_context.ap
    &&& a.run_context.fp == b.run_context.fp
}

/// The state that only hints touch is the same in both machines.
pub open spec fn same_hint_state(a: &VirtualMachine, b: &VirtualMachine) -> bool {
    &&& a.prime == b.prime
    &&& a._program_base == b._program_base
    &&& a.validated_addresses == b.validated_addresses
    &&& a.segments == b.segments
    &&& a.dict_manager == b.dict_manager
    &&& a.exec_scopes == b.exec_scopes
    &&& a.references == b.references
    &&& a.run_context.prime == b.run_context.prime
}

/// One trace entry was appended, holding the registers before the update.
pub open spec fn trace_pushed(a: &VirtualMachine, b: &VirtualMachine) -> bool {
    &&& b.trace@.len() == a.trace@.len() + 1
    &&& b.trace@.drop_last() == a.trace@
    &&& b.trace@.last()@.pc == a.run_context.pc@
    &&& b.trace@.last()@.ap == a.run_context.ap@
    &&& b.trace@.last()@.fp == a.run_context.fp@
}

/// The accessed-address set gained the three operand addresses and the pc.
pub open spec fn accessed_recorded(
    a: &VirtualMachine,
    b: &VirtualMachine,
    addrs: (MrVal, MrVal, MrVal),
) -> bool {
    mr_views(b.accessed_addresses@) == acc_record(
        mr_views(a.accessed_addresses@),
        addrs,
        a.run_context.pc@,
    )
}

/// What executing one decoded instruction does, stage by stage. An error
/// during operand resolution or in the opcode assertions leaves trace,
/// accessed addresses and registers untouched; a register-update error comes
/// after the trace entry and the accessed addresses were recorded; memory
/// holds the write-backs made up to the failure. On success everything is
/// pinned and the step is counted.
pub open spec fn instruction_outcome_post(
    i: InstrView,
    a: &VirtualMachine,
    b: &VirtualMachine,
    e: Option<VmErrV>,
) -> bool {
    let c = a.run_context@;
    match compute_operands_spec(i, c, a.memory@, a.memory.data@.len() as int) {
        Err(p) => {
            &&& e == Some(p.0)
            &&& b.memory@ == p.1
            &&& b.memory.data@.len() == a.memory.data@.len()
            &&& b.trace == a.trace
            &&& b.accessed_addresses == a.accessed_addresses
            &&& same_registers(a, b)
            &&& b.current_step == a.current_step
        },
        Ok(t) => match opcode_asserts_spec(i, t.0, c) {
            Err(e2) => {
                &&& e == Some(e2)
                &&& b.memory@ == t.2
                &&& b.memory.data@.len() == a.memory.data@.len()
                &&& b.trace == a.trace
                &&& b.accessed_addresses == a.accessed_addresses
                &&& same_registers(a, b)
                &&& b.current_step == a.current_step
            },
            Ok(_) => match registers_update_spec(i, t.0, c) {
                Err(e2) => {
                    &&& e == Some(e2)
                    &&& b.memory@ == t.2
                    &&& b.memory.data@.len() == a.memory.data@.len()
                    &&& trace_pushed(a, b)
                    &&& accessed_recorded(a, b, t.1)
                    &&& b.current_step == a.current_step
                },
                Ok(regs) => {
                    &&& e is None
                    &&& b.memory@ == t.2
                    &&& b.memory.data@.len() == a.memory.data@.len()
                    &&& b.run_context.fp@ == regs.0
                    &&& b.run_context.ap@ == regs.1
                    &&& b.run_context.pc@ == regs.2
                    &&& trace_pushed(a, b)
                    &&& accessed_recorded(a, b, t.1)
                    &&& b.current_step == a.current_step + 1
                },
            },
        },
    }
}

impl VirtualMachine {
    /// A well-formed machine: a positive prime held consistently in both
    /// places, canonical register values, and canonical memory contents.
    pub open spec fn wf(&self) -> bool {
        &&& big_val(self.prime) > 0
        &&& big_val(self.run_context.prime) == big_val(self.prime)
        &&& self.run_context@.wf()
        &&& self.memory.wf()
    }

    /// A fresh machine over a prime: registers at the zero address of the
    /// zero segment, everything else empty.
    pub fn new(prime: BigInt) -> (r: VirtualMachine)
        requires
            big_val(prime) > 0,
        ensures
            r.wf(),
            big_val(r.prime) == big_val(prime),
            r.run_context.pc@ == MrVal::Rel(0, 0),
            r.run_context.ap@ == MrVal::Rel(0, 0),
            r.run_context.fp@ == MrVal::Rel(0, 0),
            r.memory@ == Map::<(int, int), MrVal>::empty(),
            r.memory.data@.len() == 0,
            r.trace@.len() == 0,
            r.accessed_addresses@.len() == 0,
            r.validated_addresses@.len() == 0,
            r.current_step == 0,
            !r.skip_instruction_execution,
            r.segments.num_segments == 0,
            r.dict_manager.trackers@ == Map::<int, crate::dict_manager::TrackerView>::empty(),
            r.exec_scopes.data@.len() == 1,
            r.references@.len() == 0,
    {
        let run_context = RunContext {
            pc: MaybeRelocatable::from((0, 0)),
            ap: MaybeRelocatable::from((0, 0)),
            fp: MaybeRelocatable::from((0, 0)),
            prime: prime.clone(),
        };
        VirtualMachine {
            run_context,
            prime,
            _program_base: None,
            memory: Memory::new(),
            validated_addresses: Vec::new(),
            accessed_addresses: Vec::new(),
            trace: Vec::new(),
            current_step: 0,
            skip_instruction_execution: false,
            segments: SegmentManager::new(),
            dict_manager: DictManager::new(),
            exec_scopes: ExecutionScopes::new(),
            references: Vec::new(),
        }
    }

    /// True exactly of the zero field element; an address has no zero test.
    pub fn is_zero(addr: MaybeRelocatable) -> (r: Result<bool, VirtualMachineError>)
        ensures
            match r {
                Ok(b) => addr@ matches MrVal::Int(v) && b == (v == 0),
                Err(e) => addr@ is Rel && e@ == VmErrV::PureValue,
            },
    {
        match addr {
            MaybeRelocatable::Int(num) => Ok(big_is_zero(&num)),
            MaybeRelocatable::RelocatableValue(_) => Err(VirtualMachineError::PureValue),
        }
    }

    /// The instruction word at pc, which must be a field element, and the
    /// word after it, if present.
    pub fn get_instruction_encoding(&self) -> (r: Result<
        (BigInt, Option<MaybeRelocatable>),
        VirtualMachineError,
    >)
        ensures
            match r {
                Ok((w, imm)) => fetch_spec(self.run_context@, self.memory@) matches Ok((wv, iv))
                    && big_val(w) == wv && opt_val_view(imm) == iv,
                Err(e) => fetch_spec(self.run_context@, self.memory@) matches Err(e2) && e@ == e2,
            },
    {
        let enc = match self.memory.get(&self.run_context.pc) {
            Some(MaybeRelocatable::Int(enc)) => enc.clone(),
            _ => {
                return Err(VirtualMachineError::InvalidInstructionEncoding);
            },
        };
        let imm_addr = match self.run_context.pc.add_usize_mod(1, None) {
            Ok(a) => a,
            Err(e) => {
                return Err(e);
            },
        };
        let imm = match self.memory.get(&imm_addr) {
            Some(v) => Some(v.clone_value()),
            None => None,
        };
        Ok((enc, imm))
    }

    /// Fetches and decodes the instruction at pc.
    pub fn decode_current_instruction(&self) -> (r: Result<Instruction, VirtualMachineError>)
        ensures
            match r {
                Ok(i) => step_decode_spec(self.run_context@, self.memory@) matches Ok(iv) && i@
                    == iv,
                Err(e) => step_decode_spec(self.run_context@, self.memory@) matches Err(e2) && e@
                    == e2,
            },
    {
        let (enc, imm) = match self.get_instruction_encoding() {
            Ok(p) => p,
            Err(e) => {
                return Err(e);
            },
        };
        let word = match big_to_u64(&enc) {
            Some(w) => w,
            None => {
                return Err(VirtualMachineError::InvalidInstructionEncoding);
            },
        };
        let imm_int = match imm {
            Some(MaybeRelocatable::Int(b)) => Some(b),
            _ => None,
        };
        decode_instruction(word, imm_int)
    }
}

/// Clones an optional machine value.
fn opt_clone(o: &Option<MaybeRelocatable>) -> (r: Option<MaybeRelocatable>)
    ensures
        opt_val_view(r) == opt_val_view(*o),
{
    match o {
        Some(v) => Some(v.clone_value()),
        None => None,
    }
}

/// Reads a cell as an owned value.
fn mem_get_cloned(m: &Memory, addr: &MaybeRelocatable) -> (r: Option<MaybeRelocatable>)
    ensures
        opt_val_view(r) == mget(m@, addr@),
        m.wf() ==> opt_wf(opt_val_view(r)),
{
    match m.get(addr) {
        Some(v) => Some(v.clone_value()),
        None => None,
    }
}

/// Whether some element of the vector holds the same machine value.
fn mr_vec_contains(v: &Vec<MaybeRelocatable>, x: &MaybeRelocatable) -> (r: bool)
    ensures
        r == mr_views(v@).contains(x@),
{
    let mut i: usize = 0;
    while i < v.len()
        invariant
            i <= v@.len(),
            forall|j: int| 0 <= j < i ==> mr_views(v@)[j] != x@,
        decreases v@.len() - i,
    {
        if v[i].eq_value(x) {
            proof {
                assert(mr_views(v@)[i as int] == x@);
            }
            return true;
        }
        i = i + 1;
    }
    false
}

impl VirtualMachine {
    /// A positive prime, held consistently by the machine and its context.
    pub open spec fn prime_wf(&self) -> bool {
        big_val(self.prime) > 0 && big_val(self.run_context.prime) == big_val(self.prime)
    }

    /// Applies the frame-pointer update.
    pub fn update_fp(&mut self, instruction: &Instruction, operands: &Operands) -> (r: Result<
        (),
        VirtualMachineError,
    >)
        ensures
            same_but_registers_and_memory(old(self), final(self)),
            final(self).memory == old(self).memory,
            final(self).run_context.pc == old(self).run_context.pc,
            final(self).run_context.ap == old(self).run_context.ap,
            match r {
                Ok(_) => fp_update_spec(instruction@, operands@, old(self).run_context@)
                    matches Ok(v) && final(self).run_context.fp@ == v,
                Err(e) => fp_update_spec(instruction@, operands@, old(self).run_context@)
                    matches Err(e2) && e@ == e2 && final(self).run_context.fp == old(
                    self,
                ).run_context.fp,
            },
    {
        let new_fp: MaybeRelocatable = match instruction.fp_update {
            FpUpdate::APPlus2 => match self.run_context.ap.add_usize_mod(2, None) {
                Ok(v) => v,
                Err(e) => {
                    return Err(e);
                },
            },
            FpUpdate::Dst => operands.dst.clone_value(),
            FpUpdate::Regular => {
                return Ok(());
            },
        };
        self.run_context.fp = new_fp;
        Ok(())
    }

    /// Applies the allocation-pointer update.
    pub fn update_ap(&mut self, instruction: &Instruction, operands: &Operands) -> (r: Result<
        (),
        VirtualMachineError,
    >)
        requires
            old(self).prime_wf(),
        ensures
            same_but_registers_and_memory(old(self), final(self)),
            final(self).memory == old(self).memory,
            final(self).run_context.pc == old(self).run_context.pc,
            final(self).run_context.fp == old(self).run_context.fp,
            match r {
                Ok(_) => ap_update_spec(instruction@, operands@, old(self).run_context@)
                    matches Ok(v) && final(self).run_context.ap@ == v,
                Err(e) => ap_update_spec(instruction@, operands@, old(self).run_context@)
                    matches Err(e2) && e@ == e2 && final(self).run_context.ap == old(
                    self,
                ).run_context.ap,
            },
    {
        let new_ap: MaybeRelocatable = match instruction.ap_update {
            ApUpdate::Add => match &operands.res {
                Some(res) => match self.run_context.ap.add_mod(res, &self.prime) {
                    Ok(v) => v,
                    Err(e) => {
                        return Err(e);
                    },
                },
                None => {
                    return Err(VirtualMachineError::UnconstrainedResAdd);
                },
            },
            ApUpdate::Add1 => match self.run_context.ap.add_usize_mod(1, None) {
                Ok(v) => v,
                Err(e) => {
                    return Err(e);
                },
            },
            ApUpdate::Add2 => match self.run_context.ap.add_usize_mod(2, None) {
                Ok(v) => v,
                Err(e) => {
                    return Err(e);
                },
            },
            ApUpdate::Regular => {
                return Ok(());
            },
        };
        self.run_context.ap = new_ap;
        Ok(())
    }

    /// Applies the program-counter update.
    pub fn update_pc(&mut self, instruction: &Instruction, operands: &Operands) -> (r: Result<
        (),
        VirtualMachineError,
    >)
        requires
            old(self).prime_wf(),
        ensures
            same_but_registers_and_memory(old(self), final(self)),
            final(self).memory == old(self).memory,
            final(self).run_context.ap == old(self).run_context.ap,
            final(self).run_context.fp == old(self).run_context.fp,
            match r {
                Ok(_) => pc_update_spec(instruction@, operands@, old(self).run_context@)
                    matches Ok(v) && final(self).run_context.pc@ == v,
                Err(e) => pc_update_spec(instruction@, operands@, old(self).run_context@)
                    matches Err(e2) && e@ == e2 && final(self).run_context.pc == old(
                    self,
                ).run_context.pc,
            },
    {
        let new_pc: MaybeRelocatable = match instruction.pc_update {
            PcUpdate::Regular => match self.run_context.pc.add_usize_mod(
                instruction.size(),
                Some(&self.prime),
            ) {
                Ok(v) => v,
                Err(e) => {
                    return Err(e);
                },
            },
            PcUpdate::Jump => match &operands.res {
                Some(res) => res.clone_value(),
                None => {
                    return Err(VirtualMachineError::UnconstrainedResJump);
                },
            },
            PcUpdate::JumpRel => match &operands.res {
                Some(res) => match res {
                    MaybeRelocatable::Int(num_res) => match self.run_context.pc.add_int_mod(
                        num_res,
                        &self.prime,
                    ) {
                        Ok(v) => v,
                        Err(e) => {
                            return Err(e);
                        },
                    },
                    _ => {
                        return Err(VirtualMachineError::PureValue);
                    },
                },
                None => {
                    return Err(VirtualMachineError::UnconstrainedResJumpRel);
                },
            },
            PcUpdate::Jnz => {
                let dst_zero = match Self::is_zero(operands.dst.clone_value()) {
                    Ok(b) => b,
                    Err(e) => {
                        return Err(e);
                    },
                };
                if dst_zero {
                    match self.run_context.pc.add_usize_mod(instruction.size(), None) {
                        Ok(v) => v,
                        Err(e) => {
                            return Err(e);
                        },
                    }
                } else {
                    match self.run_context.pc.add_mod(&operands.op1, &self.prime) {
                        Ok(v) => v,
                        Err(e) => {
                            return Err(e);
                        },
                    }
                }
            },
        };
        self.run_context.pc = new_pc;
        Ok(())
    }

    /// Applies the register updates in the fixed order fp, ap, pc, all
    /// computed from the pre-update snapshot.
    pub fn update_registers(&mut self, instruction: Instruction, operands: Operands) -> (r: Result<
        (),
        VirtualMachineError,
    >)
        requires
            old(self).prime_wf(),
        ensures
            same_but_registers_and_memory(old(self), final(self)),
            final(self).memory == old(self).memory,
            match r {
                Ok(_) => registers_update_spec(instruction@, operands@, old(self).run_context@)
                    matches Ok(regs) && final(self).run_context.fp@ == regs.0
                    && final(self).run_context.ap@ == regs.1
                    && final(self).run_context.pc@ == regs.2,
                Err(e) => registers_update_spec(instruction@, operands@, old(self).run_context@)
                    matches Err(e2) && e@ == e2,
            },
            old(self).wf() && ops_wf(operands@) ==> final(self).wf(),
    {
        let ghost c0 = old(self).run_context@;
        match self.update_fp(&instruction, &operands) {
            Ok(_) => (),
            Err(e) => {
                return Err(e);
            },
        }
        proof {
            assert(self.run_context@.ap == c0.ap);
            assert(self.run_context@.pc == c0.pc);
            assert(self.run_context@.prime == c0.prime);
            assert(ap_update_spec(instruction@, operands@, self.run_context@) == ap_update_spec(
                instruction@,
                operands@,
                c0,
            ));
            assert(pc_update_spec(instruction@, operands@, self.run_context@) == pc_update_spec(
                instruction@,
                operands@,
                c0,
            ));
        }
        let ghost c1 = self.run_context@;
        match self.update_ap(&instruction, &operands) {
            Ok(_) => (),
            Err(e) => {
                return Err(e);
            },
        }
        proof {
            assert(pc_update_spec(instruction@, operands@, self.run_context@) == pc_update_spec(
                instruction@,
                operands@,
                c1,
            ));
        }
        match self.update_pc(&instruction, &operands) {
            Ok(_) => (),
            Err(e) => {
                return Err(e);
            },
        }
        Ok(())
    }

    /// Deduces the first operand and, where it falls out, the result.
    pub fn deduce_op0(
        &self,
        instruction: &Instruction,
        dst: Option<&MaybeRelocatable>,
        op1: Option<&MaybeRelocatable>,
    ) -> (r: Result<
        (Option<MaybeRelocatable>, Option<MaybeRelocatable>),
        VirtualMachineError,
    >)
        requires
            self.prime_wf(),
            opt_wf(opt_ref_view(dst)),
            opt_wf(opt_ref_view(op1)),
        ensures
            match r {
                Ok((o0, rs)) => deduce_op0_spec(
                    instruction@,
                    opt_ref_view(dst),
                    opt_ref_view(op1),
                    self.run_context@,
                ) matches Ok(pair) && opt_val_view(o0) == pair.0 && opt_val_view(rs) == pair.1,
                Err(e) => deduce_op0_spec(
                    instruction@,
                    opt_ref_view(dst),
                    opt_ref_view(op1),
                    self.run_context@,
                ) matches Err(e2) && e@ == e2,
            },
            (self.run_context@.wf() && (r matches Ok((o0, rs)) ==> opt_wf(opt_val_view(o0))
                && opt_wf(opt_val_view(rs)))) || !self.run_context@.wf(),
    {
        match instruction.opcode {
            Opcode::Call => {
                let v = match self.run_context.pc.add_usize_mod(instruction.size(), None) {
                    Ok(v) => v,
                    Err(e) => {
                        return Err(e);
                    },
                };
                Ok((Some(v), None))
            },
            Opcode::AssertEq => {
                match instruction.res {
                    Res::Add => match (dst, op1) {
                        (Some(dst_val), Some(op1_val)) => {
                            let diff = match dst_val.sub_mod(op1_val, &self.prime) {
                                Ok(v) => v,
                                Err(e) => {
                                    return Err(e);
                                },
                            };
                            Ok((Some(diff), Some(dst_val.clone_value())))
                        },
                        _ => Ok((None, None)),
                    },
                    Res::Mul => match (dst, op1) {
                        (
                            Some(MaybeRelocatable::Int(num_dst)),
                            Some(MaybeRelocatable::Int(num_op1)),
                        ) => {
                            if !big_is_zero(num_op1) {
                                let quotient = field_div_exec(num_dst, num_op1, &self.prime);
                                Ok(
                                    (
                                        Some(MaybeRelocatable::Int(quotient)),
                                        Some(MaybeRelocatable::Int(num_dst.clone())),
                                    ),
                                )
                            } else {
                                Ok((None, None))
                            }
                        },
                        _ => Ok((None, None)),
                    },
                    _ => Ok((None, None)),
                }
            },
            _ => Ok((None, None)),
        }
    }

    /// Deduces the second operand and, where it falls out, the result.
    pub fn deduce_op1(
        &self,
        instruction: &Instruction,
        dst: Option<&MaybeRelocatable>,
        op0: Option<MaybeRelocatable>,
    ) -> (r: Result<
        (Option<MaybeRelocatable>, Option<MaybeRelocatable>),
        VirtualMachineError,
    >)
        requires
            self.prime_wf(),
            opt_wf(opt_ref_view(dst)),
            opt_wf(opt_val_view(op0)),
        ensures
            match r {
                Ok((o1, rs)) => deduce_op1_spec(
                    instruction@,
                    opt_ref_view(dst),
                    opt_val_view(op0),
                    self.run_context@,
                ) matches Ok(pair) && opt_val_view(o1) == pair.0 && opt_val_view(rs) == pair.1,
                Err(e) => deduce_op1_spec(
                    instruction@,
                    opt_ref_view(dst),
                    opt_val_view(op0),
                    self.run_context@,
                ) matches Err(e2) && e@ == e2,
            },
            r matches Ok((o1, rs)) ==> opt_wf(opt_val_view(o1)) && opt_wf(opt_val_view(rs)),
    {
        match instruction.opcode {
            Opcode::AssertEq => {
                match instruction.res {
                    Res::Op1 => match dst {
                        Some(dst_val) => Ok(
                            (Some(dst_val.clone_value()), Some(dst_val.clone_value())),
                        ),
                        None => Ok((None, None)),
                    },
                    Res::Add => match (dst, &op0) {
                        (Some(dst_val), Some(op0_val)) => {
                            let diff = match dst_val.sub_mod(op0_val, &self.prime) {
                                Ok(v) => v,
                                Err(e) => {
                                    return Err(e);
                                },
                            };
                            Ok((Some(diff), Some(dst_val.clone_value())))
                        },
                        _ => Ok((None, None)),
                    },
                    Res::Mul => match (dst, &op0) {
                        (
                            Some(MaybeRelocatable::Int(num_dst)),
                            Some(MaybeRelocatable::Int(num_op0)),
                        ) => {
                            if !big_is_zero(num_op0) {
                                let quotient = field_div_exec(num_dst, num_op0, &self.prime);
                                Ok(
                                    (
                                        Some(MaybeRelocatable::Int(quotient)),
                                        Some(MaybeRelocatable::Int(num_dst.clone())),
                                    ),
                                )
                            } else {
                                Ok((None, None))
                            }
                        },
                        _ => Ok((None, None)),
                    },
                    _ => Ok((None, None)),
                }
            },
            _ => Ok((None, None)),
        }
    }

    /// Computes the result where the instruction defines one.
    pub fn compute_res(
        &self,
        instruction: &Instruction,
        op0: &MaybeRelocatable,
        op1: &MaybeRelocatable,
    ) -> (r: Result<Option<MaybeRelocatable>, VirtualMachineError>)
        requires
            self.prime_wf(),
        ensures
            match r {
                Ok(v) => compute_res_spec(instruction@, op0@, op1@, big_val(self.prime))
                    matches Ok(v2) && opt_val_view(v) == v2,
                Err(e) => compute_res_spec(instruction@, op0@, op1@, big_val(self.prime))
                    matches Err(e2) && e@ == e2,
            },
            mrv_wf(op1@) ==> (r matches Ok(v) ==> opt_wf(opt_val_view(v))),
    {
        match instruction.res {
            Res::Op1 => Ok(Some(op1.clone_value())),
            Res::Add => match op0.add_mod(op1, &self.prime) {
                Ok(v) => Ok(Some(v)),
                Err(e) => Err(e),
            },
            Res::Mul => match (op0, op1) {
                (MaybeRelocatable::Int(num_op0), MaybeRelocatable::Int(num_op1)) => {
                    let prod = big_mul(num_op0, num_op1);
                    Ok(Some(MaybeRelocatable::Int(big_mod_floor(&prod, &self.prime))))
                },
                _ => Err(VirtualMachineError::PureValue),
            },
            Res::Unconstrained => Ok(None),
        }
    }

    /// Deduces the destination from the opcode: the result for an AssertEq,
    /// the frame pointer for a Call.
    pub fn deduce_dst(&self, instruction: &Instruction, res: Option<&MaybeRelocatable>) -> (r:
        Option<MaybeRelocatable>)
        ensures
            opt_val_view(r) == deduce_dst_spec(instruction@, opt_ref_view(res), self.run_context@),
    {
        match instruction.opcode {
            Opcode::AssertEq => match res {
                Some(res_val) => Some(res_val.clone_value()),
                None => None,
            },
            Opcode::Call => Some(self.run_context.fp.clone_value()),
            _ => None,
        }
    }

    /// Checks the opcode's consistency demands on the resolved operands.
    pub fn opcode_assertions(&self, instruction: &Instruction, operands: &Operands) -> (r: Result<
        (),
        VirtualMachineError,
    >)
        ensures
            match r {
                Ok(_) => opcode_asserts_spec(instruction@, operands@, self.run_context@) is Ok,
                Err(e) => opcode_asserts_spec(instruction@, operands@, self.run_context@)
                    matches Err(e2) && e@ == e2,
            },
    {
        match instruction.opcode {
            Opcode::AssertEq => {
                match &operands.res {
                    None => Err(VirtualMachineError::UnconstrainedResAssertEq),
                    Some(res) => match (res, &operands.dst) {
                        (MaybeRelocatable::Int(res_num), MaybeRelocatable::Int(dst_num)) => {
                            if !res_num.eq(dst_num) {
                                Err(
                                    VirtualMachineError::DiffAssertValues(
                                        res_num.clone(),
                                        dst_num.clone(),
                                    ),
                                )
                            } else {
                                Ok(())
                            }
                        },
                        _ => Ok(()),
                    },
                }
            },
            Opcode::Call => {
                let return_pc = match self.run_context.pc.add_usize_mod(instruction.size(), None) {
                    Ok(v) => v,
                    Err(e) => {
                        return Err(e);
                    },
                };
                if !operands.op0.eq_value(&return_pc) {
                    return Err(
                        VirtualMachineError::CantWriteReturnPc(
                            operands.op0.clone_value(),
                            return_pc,
                        ),
                    );
                }
                if !operands.dst.eq_value(&self.run_context.fp) {
                    return Err(
                        VirtualMachineError::CantWriteReturnFp(
                            operands.dst.clone_value(),
                            self.run_context.fp.clone_value(),
                        ),
                    );
                }
                Ok(())
            },
            _ => Ok(()),
        }
    }
}

impl VirtualMachine {
    /// Resolves the operands of one instruction: reads their cells, deduces
    /// what is absent, computes the result, and writes every deduced operand
    /// back into memory. Returns the operands and their three addresses.
    pub fn compute_operands(&mut self, instruction: &Instruction) -> (r: Result<
        (Operands, Vec<MaybeRelocatable>),
        VirtualMachineError,
    >)
        requires
            old(self).wf(),
        ensures
            final(self).wf(),
            same_but_registers_and_memory(old(self), final(self)),
            same_registers(old(self), final(self)),
            final(self).memory.data@.len() == old(self).memory.data@.len(),
            match r {
                Ok((ops, addrs)) => compute_operands_spec(
                    instruction@,
                    old(self).run_context@,
                    old(self).memory@,
                    old(self).memory.data@.len() as int,
                ) matches Ok(t) && ops@ == t.0 && ops_wf(ops@) && addrs@.len() == 3 && addrs@[0]@
                    == t.1.0 && addrs@[1]@ == t.1.1 && addrs@[2]@ == t.1.2 && final(self).memory@
                    == t.2,
                Err(e) => compute_operands_spec(
                    instruction@,
                    old(self).run_context@,
                    old(self).memory@,
                    old(self).memory.data@.len() as int,
                ) matches Err(p) && e@ == p.0 && final(self).memory@ == p.1,
            },
    {
        let ghost iv = instruction@;
        let ghost c = old(self).run_context@;
        let ghost m0 = old(self).memory@;
        let ghost ns = old(self).memory.data@.len() as int;
        let dst_addr: MaybeRelocatable = match self.run_context.compute_dst_addr(instruction) {
            Ok(a) => a,
            Err(e) => {
                return Err(e);
            },
        };
        let op0_addr: MaybeRelocatable = match self.run_context.compute_op0_addr(instruction) {
            Ok(a) => a,
            Err(e) => {
                return Err(e);
            },
        };
        let dst: Option<MaybeRelocatable> = mem_get_cloned(&self.memory, &dst_addr);
        let mut op0: Option<MaybeRelocatable> = mem_get_cloned(&self.memory, &op0_addr);
        let op1_addr: MaybeRelocatable = match self.run_context.compute_op1_addr(
            instruction,
            op0.as_ref(),
        ) {
            Ok(a) => a,
            Err(e) => {
                return Err(e);
            },
        };
        let mut op1: Option<MaybeRelocatable> = mem_get_cloned(&self.memory, &op1_addr);
        let mut res: Option<MaybeRelocatable> = None;

        let should_update_dst = dst.is_none();
        let should_update_op0 = op0.is_none();
        let should_update_op1 = op1.is_none();
        let ghost dst0 = opt_val_view(dst);
        let ghost op0_0 = opt_val_view(op0);
        let ghost op1_0 = opt_val_view(op1);

        if op0.is_none() {
            match self.deduce_op0(instruction, dst.as_ref(), op1.as_ref()) {
                Ok((o0, r0)) => {
                    op0 = o0;
                    res = r0;
                },
                Err(e) => {
                    return Err(e);
                },
            }
        }
        let ghost op0_1 = opt_val_view(op0);
        let ghost res1 = opt_val_view(res);

        if op1.is_none() {
            let op0_clone = opt_clone(&op0);
            match self.deduce_op1(instruction, dst.as_ref(), op0_clone) {
                Ok((o1, r1)) => {
                    op1 = o1;
                    if res.is_none() {
                        res = r1;
                    }
                },
                Err(e) => {
                    return Err(e);
                },
            }
        }
        let ghost op1_1 = opt_val_view(op1);
        let ghost res12 = opt_val_view(res);

        let op0_val = match op0 {
            Some(v) => v,
            None => {
                return Err(VirtualMachineError::FailedToComputeOperands);
            },
        };
        let op1_val = match op1 {
            Some(v) => v,
            None => {
                return Err(VirtualMachineError::FailedToComputeOperands);
            },
        };

        if res.is_none() {
            res = match self.compute_res(instruction, &op0_val, &op1_val) {
                Ok(v) => v,
                Err(e) => {
                    return Err(e);
                },
            };
        }
        let ghost resv = opt_val_view(res);

        let dst_val = match dst {
            Some(v) => v,
            None => match self.deduce_dst(instruction, res.as_ref()) {
                Some(v) => v,
                None => {
                    return Err(VirtualMachineError::NoDst);
                },
            },
        };

        if should_update_dst {
            match self.memory.insert(&dst_addr, &dst_val) {
                Ok(_) => (),
                Err(e) => {
                    return Err(VirtualMachineError::MemoryError(e));
                },
            }
        }
        if should_update_op0 {
            match self.memory.insert(&op0_addr, &op0_val) {
                Ok(_) => (),
                Err(e) => {
                    return Err(VirtualMachineError::MemoryError(e));
                },
            }
        }
        if should_update_op1 {
            match self.memory.insert(&op1_addr, &op1_val) {
                Ok(_) => (),
                Err(e) => {
                    return Err(VirtualMachineError::MemoryError(e));
                },
            }
        }

        let mut addresses: Vec<MaybeRelocatable> = Vec::new();
        addresses.push(dst_addr);
        addresses.push(op0_addr);
        addresses.push(op1_addr);
        Ok((Operands { dst: dst_val, res, op0: op0_val, op1: op1_val }, addresses))
    }

    /// Executes one resolved instruction: checks the opcode's demands,
    /// appends the trace entry, records the accessed addresses, updates the
    /// registers and counts the step.
    #[verifier::rlimit(100)]
    pub fn run_instruction(&mut self, instruction: Instruction) -> (r: Result<
        (),
        VirtualMachineError,
    >)
        requires
            old(self).wf(),
            old(self).current_step < usize::MAX,
        ensures
            final(self).wf(),
            same_hint_state(old(self), final(self)),
            final(self).skip_instruction_execution == old(self).skip_instruction_execution,
            instruction_outcome_post(instruction@, old(self), final(self), err_opt(r)),
    {
        let ghost iv = instruction@;
        let ghost c = old(self).run_context@;
        let (operands, operands_mem_addresses) = match self.compute_operands(&instruction) {
            Ok(p) => p,
            Err(e) => {
                return Err(e);
            },
        };
        let ghost opsv = operands@;
        match self.opcode_assertions(&instruction, &operands) {
            Ok(_) => (),
            Err(e) => {
                return Err(e);
            },
        }
        self.trace.push(
            TraceEntry {
                pc: self.run_context.pc.clone_value(),
                ap: self.run_context.ap.clone_value(),
                fp: self.run_context.fp.clone_value(),
            },
        );
        proof {
            assert(self.trace@.drop_last() =~= old(self).trace@);
        }
        let ghost acc0 = mr_views(self.accessed_addresses@);
        if !mr_vec_contains(&self.accessed_addresses, &operands_mem_addresses[0]) {
            let a = operands_mem_addresses[0].clone_value();
            self.accessed_addresses.push(a);
        }
        proof {
            assert(mr_views(self.accessed_addresses@) =~= acc_add(
                acc0,
                operands_mem_addresses@[0]@,
            ));
        }
        let ghost acc1 = mr_views(self.accessed_addresses@);
        if !mr_vec_contains(&self.accessed_addresses, &operands_mem_addresses[1]) {
            let a = operands_mem_addresses[1].clone_value();
            self.accessed_addresses.push(a);
        }
        proof {
            assert(mr_views(self.accessed_addresses@) =~= acc_add(
                acc1,
                operands_mem_addresses@[1]@,
            ));
        }
        let ghost acc2 = mr_views(self.accessed_addresses@);
        if !mr_vec_contains(&self.accessed_addresses, &operands_mem_addresses[2]) {
            let a = operands_mem_addresses[2].clone_value();
            self.accessed_addresses.push(a);
        }
        proof {
            assert(mr_views(self.accessed_addresses@) =~= acc_add(
                acc2,
                operands_mem_addresses@[2]@,
            ));
        }
        let ghost acc3 = mr_views(self.accessed_addresses@);
        if !mr_vec_contains(&self.accessed_addresses, &self.run_context.pc) {
            let a = self.run_context.pc.clone_value();
            self.accessed_addresses.push(a);
        }
        proof {
            assert(mr_views(self.accessed_addresses@) =~= acc_add(acc3, self.run_context.pc@));
        }
        match self.update_registers(instruction, operands) {
            Ok(_) => (),
            Err(e) => {
                return Err(e);
            },
        }
        self.current_step = self.current_step + 1;
        Ok(())
    }

    /// One machine cycle: fetch the word at pc, decode it, resolve and check
    /// the operands, emit the trace entry, record the accessed addresses and
    /// update the registers.
    pub fn step(&mut self) -> (r: Result<(), VirtualMachineError>)
        requires
            old(self).wf(),
            old(self).current_step < usize::MAX,
        ensures
            final(self).wf(),
            same_hint_state(old(self), final(self)),
            !final(self).skip_instruction_execution,
            match step_decode_spec(old(self).run_context@, old(self).memory@) {
                Err(e2) => {
                    &&& r matches Err(e) && e@ == e2
                    &&& final(self).memory == old(self).memory
                    &&& final(self).trace == old(self).trace
                    &&& final(self).accessed_addresses == old(self).accessed_addresses
                    &&& same_registers(old(self), final(self))
                    &&& final(self).current_step == old(self).current_step
                },
                Ok(iv) => instruction_outcome_post(iv, old(self), final(self), err_opt(r)),
            },
    {
        self.skip_instruction_execution = false;
        let instruction = match self.decode_current_instruction() {
            Ok(i) => i,
            Err(e) => {
                return Err(e);
            },
        };
        match self.run_instruction(instruction) {
            Ok(_) => Ok(()),
            Err(e) => Err(e),
        }
    }
}

impl VirtualMachine {
    /// The run loop: steps until pc reaches the terminal address, or the
    /// step budget runs out, or a step fails; the outcome and the final
    /// state mirror the run model.
    pub fn run_until_pc(&mut self, terminal: &MaybeRelocatable, max_steps: usize) -> (r: Result<
        (),
        VirtualMachineError,
    >)
        requires
            old(self).wf(),
            old(self).current_step + max_steps <= usize::MAX,
        ensures
            final(self).wf(),
            same_hint_state(old(self), final(self)),
            ({
                let outcome = run_spec(
                    old(self).run_context@,
                    old(self).memory@,
                    old(self).memory.data@.len() as int,
                    mr_views(old(self).accessed_addresses@),
                    terminal@,
                    max_steps as nat,
                );
                match r {
                    Ok(_) => outcome matches Ok(o) && {
                        &&& final(self).run_context.pc@ == terminal@
                        &&& final(self).run_context.pc@ == o.pc
                        &&& final(self).run_context.ap@ == o.ap
                        &&& final(self).run_context.fp@ == o.fp
                        &&& final(self).memory@ == o.mem
                        &&& final(self).memory.data@.len() == old(self).memory.data@.len()
                        &&& trace_views(final(self).trace@) == trace_views(old(self).trace@)
                            + o.entries
                        &&& mr_views(final(self).accessed_addresses@) == o.acc
                        &&& final(self).current_step == old(self).current_step + o.steps
                        &&& o.steps <= max_steps
                    },
                    Err(e) => outcome matches Err(e2) && e@ == e2 && (e@ == VmErrV::EndOfProgram
                        ==> final(self).current_step == old(self).current_step + max_steps
                        && final(self).run_context.pc@ != terminal@),
                }
            }),
    {
        let ghost c0 = old(self).run_context@;
        let ghost m0 = old(self).memory@;
        let ghost ns = old(self).memory.data@.len() as int;
        let ghost acc0 = mr_views(old(self).accessed_addresses@);
        let ghost t0 = old(self).trace@;
        let ghost total = run_spec(c0, m0, ns, acc0, terminal@, max_steps as nat);
        proof {
            assert(trace_views(self.trace@).skip(t0.len() as int) =~= Seq::<TraceView>::empty());
            lemma_extend_run_zero(total);
        }
        let mut done: usize = 0;
        while done < max_steps
            invariant
                done <= max_steps,
                self.wf(),
                same_hint_state(old(self), self),
                c0 == old(self).run_context@,
                m0 == old(self).memory@,
                ns == old(self).memory.data@.len() as int,
                acc0 == mr_views(old(self).accessed_addresses@),
                t0 == old(self).trace@,
                total == run_spec(c0, m0, ns, acc0, terminal@, max_steps as nat),
                self.memory.data@.len() == old(self).memory.data@.len(),
                self.current_step == old(self).current_step + done,
                old(self).current_step + max_steps <= usize::MAX,
                self.trace@.len() >= t0.len(),
                self.trace@.subrange(0, t0.len() as int) == t0,
                total == extend_run(
                    trace_views(self.trace@).skip(t0.len() as int),
                    done as nat,
                    run_spec(
                        self.run_context@,
                        self.memory@,
                        ns,
                        mr_views(self.accessed_addresses@),
                        terminal@,
                        (max_steps - done) as nat,
                    ),
                ),
            decreases max_steps - done,
        {
            let ghost c1 = self.run_context@;
            let ghost m1 = self.memory@;
            let ghost acc1 = mr_views(self.accessed_addresses@);
            let ghost tr1 = self.trace@;
            let ghost fuel = (max_steps - done) as nat;
            let ghost pre_vm = *self;
            if self.run_context.pc.eq_value(terminal) {
                proof {
                    let prefix = trace_views(self.trace@).skip(t0.len() as int);
                    assert(prefix + Seq::<TraceView>::empty() =~= prefix);
                    assert(trace_views(self.trace@) =~= trace_views(t0) + prefix) by {
                        assert(forall|j: int|
                            0 <= j < t0.len() ==> self.trace@[j] == #[trigger] self.trace@
                                .subrange(0, t0.len() as int)[j]);
                    }
                }
                return Ok(());
            }
            match self.step() {
                Ok(_) => (),
                Err(e) => {
                    proof {
                        lemma_step_error_mirrors(c1, m1, ns, &pre_vm, self, e@);
                        assert(run_spec(c1, m1, ns, acc1, terminal@, fuel) == Err::<
                            RunView,
                            VmErrV,
                        >(e@));
                        lemma_step_spec_no_budget_error(c1, m1, ns);
                    }
                    return Err(e);
                },
            }
            proof {
                let iv = step_decode_spec(c1, m1)->Ok_0;
                let t = compute_operands_spec(iv, c1, m1, ns)->Ok_0;
                let regs = registers_update_spec(iv, t.0, c1)->Ok_0;
                assert(instruction_step_spec(iv, c1, m1, ns) == Ok::<
                    (OperandsView, (MrVal, MrVal, MrVal), Map<(int, int), MrVal>, (
                        MrVal,
                        MrVal,
                        MrVal,
                    )),
                    VmErrV,
                >((t.0, t.1, t.2, regs)));
                lemma_step_spec_unfold(c1, m1, ns);
                let tt = step_spec(c1, m1, ns)->Ok_0;
                let te = TraceView { pc: c1.pc, ap: c1.ap, fp: c1.fp };
                assert(self.run_context@ == CtxView {
                    pc: tt.4.2,
                    ap: tt.4.1,
                    fp: tt.4.0,
                    prime: c1.prime,
                });
                let sub = run_spec(
                    self.run_context@,
                    self.memory@,
                    ns,
                    mr_views(self.accessed_addresses@),
                    terminal@,
                    (fuel - 1) as nat,
                );
                assert(run_spec(c1, m1, ns, acc1, terminal@, fuel) == extend_run(
                    seq![te],
                    1,
                    sub,
                )) by {
                    if sub is Ok {
                        assert(run_spec(c1, m1, ns, acc1, terminal@, fuel)->Ok_0 == extend_run(
                            seq![te],
                            1,
                            sub,
                        )->Ok_0);
                    }
                }
                // the new trace entry extends the recorded suffix
                assert(trace_views(self.trace@).skip(t0.len() as int) =~= trace_views(tr1).skip(
                    t0.len() as int,
                ) + seq![te]) by {
                    assert(self.trace@.last()@ == te);
                    assert(forall|j: int|
                        0 <= j < tr1.len() ==> #[trigger] self.trace@[j] == tr1[j]) by {
                        assert(forall|j: int|
                            0 <= j < tr1.len() ==> self.trace@[j] == #[trigger] self.trace@
                                .drop_last()[j]);
                    }
                }
                assert(self.trace@.subrange(0, t0.len() as int) =~= t0) by {
                    assert(forall|j: int|
                        0 <= j < tr1.len() ==> #[trigger] self.trace@[j] == tr1[j]) by {
                        assert(forall|j: int|
                            0 <= j < tr1.len() ==> self.trace@[j] == #[trigger] self.trace@
                                .drop_last()[j]);
                    }
                }
                lemma_extend_run_compose(trace_views(tr1).skip(t0.len() as int), done as nat, te, sub);
            }
            done = done + 1;
        }
        if self.run_context.pc.eq_value(terminal) {
            proof {
                let prefix = trace_views(self.trace@).skip(t0.len() as int);
                assert(prefix + Seq::<TraceView>::empty() =~= prefix);
                assert(trace_views(self.trace@) =~= trace_views(t0) + prefix) by {
                    assert(forall|j: int|
                        0 <= j < t0.len() ==> self.trace@[j] == #[trigger] self.trace@.subrange(
                            0,
                            t0.len() as int,
                        )[j]);
                }
            }
            Ok(())
        } else {
            Err(VirtualMachineError::EndOfProgram)
        }
    }
}

/// Seeing a run from zero steps earlier changes nothing.
proof fn lemma_extend_run_zero(r: Result<RunView, VmErrV>)
    ensures
        extend_run(Seq::<TraceView>::empty(), 0, r) == r,
{
    if r is Ok {
        let o = r->Ok_0;
        assert(Seq::<TraceView>::empty() + o.entries =~= o.entries);
        assert(extend_run(Seq::<TraceView>::empty(), 0, r)->Ok_0 == o);
    }
}

/// Two shifts of a run outcome compose into one.
proof fn lemma_extend_run_compose(
    prefix: Seq<TraceView>,
    k: nat,
    te: TraceView,
    r: Result<RunView, VmErrV>,
)
    ensures
        extend_run(prefix, k, extend_run(seq![te], 1, r)) == extend_run(
            prefix + seq![te],
            k + 1,
            r,
        ),
{
    if r is Ok {
        let o = r->Ok_0;
        assert(prefix + (seq![te] + o.entries) =~= (prefix + seq![te]) + o.entries);
        assert(extend_run(prefix, k, extend_run(seq![te], 1, r))->Ok_0 == extend_run(
            prefix + seq![te],
            k + 1,
            r,
        )->Ok_0);
    }
}

/// One full machine step composes from its stages.
proof fn lemma_step_spec_unfold(c: CtxView, m: Map<(int, int), MrVal>, nsegs: int)
    ensures
        match step_decode_spec(c, m) {
            Err(e) => step_spec(c, m, nsegs) == Err::<
                (InstrView, OperandsView, (MrVal, MrVal, MrVal), Map<(int, int), MrVal>, (
                    MrVal,
                    MrVal,
                    MrVal,
                )),
                VmErrV,
            >(e),
            Ok(iv) => match instruction_step_spec(iv, c, m, nsegs) {
                Err(e) => step_spec(c, m, nsegs) == Err::<
                    (InstrView, OperandsView, (MrVal, MrVal, MrVal), Map<(int, int), MrVal>, (
                        MrVal,
                        MrVal,
                        MrVal,
                    )),
                    VmErrV,
                >(e),
                Ok(t) => step_spec(c, m, nsegs) == Ok::<
                    (InstrView, OperandsView, (MrVal, MrVal, MrVal), Map<(int, int), MrVal>, (
                        MrVal,
                        MrVal,
                        MrVal,
                    )),
                    VmErrV,
                >((iv, t.0, t.1, t.2, t.3)),
            },
        },
{
}

/// A failing step mirrors the step model: the model fails with the same
/// error.
proof fn lemma_step_error_mirrors(
    c: CtxView,
    m: Map<(int, int), MrVal>,
    nsegs: int,
    pre: &VirtualMachine,
    post: &VirtualMachine,
    e: VmErrV,
)
    requires
        pre.run_context@ == c,
        pre.memory@ == m,
        pre.memory.data@.len() as int == nsegs,
        match step_decode_spec(c, m) {
            Err(e2) => e == e2,
            Ok(iv) => instruction_outcome_post(iv, pre, post, Some(e)),
        },
    ensures
        step_spec(c, m, nsegs) == Err::<
            (InstrView, OperandsView, (MrVal, MrVal, MrVal), Map<(int, int), MrVal>, (
                MrVal,
                MrVal,
                MrVal,
            )),
            VmErrV,
        >(e),
{
    lemma_step_spec_unfold(c, m, nsegs);
    if step_decode_spec(c, m) is Ok {
        let iv = step_decode_spec(c, m)->Ok_0;
        match compute_operands_spec(iv, c, m, nsegs) {
            Err(p) => {
                assert(instruction_step_spec(iv, c, m, nsegs) == Err::<
                    (OperandsView, (MrVal, MrVal, MrVal), Map<(int, int), MrVal>, (
                        MrVal,
                        MrVal,
                        MrVal,
                    )),
                    VmErrV,
                >(p.0));
            },
            Ok(t) => {
                assert(opcode_asserts_spec(iv, t.0, c) is Err || registers_update_spec(
                    iv,
                    t.0,
                    c,
                ) is Err);
            },
        }
    }
}

/// The step model never runs out of budget on its own: the budget error
/// belongs to the run loop alone.
proof fn lemma_step_spec_no_budget_error(c: CtxView, m: Map<(int, int), MrVal>, nsegs: int)
    ensures
        step_spec(c, m, nsegs) matches Err(e) ==> e != VmErrV::EndOfProgram,
{
}

/// Fetch and decode together: the word at pc decoded against the word after
/// it.
pub open spec fn step_decode_spec(c: CtxView, m: Map<(int, int), MrVal>) -> Result<
    InstrView,
    VmErrV,
> {
    match fetch_spec(c, m) {
        Err(e) => Err(e),
        Ok((w, immv)) => decode_spec(
            w,
            match immv {
                Some(MrVal::Int(v)) => Some(v),
                _ => None,
            },
        ),
    }
}

} // verus!
