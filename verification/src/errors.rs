//! Error types of the machine, with ghost models so that contracts can
//! speak about which error a function returns and with which payload.
use vstd::prelude::*;

verus! {

use num_bigint::BigInt;
use crate::bigint_ops::big_val;
use crate::relocatable::{MaybeRelocatable, Relocatable, MrVal};

/// Errors of the memory layer.
#[derive(Debug, PartialEq, Eq)]
pub enum MemoryError {
    /// A cell already holds a different value: address, old value, new value.
    InconsistentMemory(MaybeRelocatable, MaybeRelocatable, MaybeRelocatable),
    /// The address names a segment that was never allocated: segment, count.
    UnallocatedSegment(i64, usize),
    /// The address of a store must be relocatable, not a field element.
    AddressNotRelocatable,
}

/// Ghost model of `MemoryError`.
pub ghost enum MemErrV {
    InconsistentMemory(MrVal, MrVal, MrVal),
    UnallocatedSegment(int, int),
    AddressNotRelocatable,
}

impl View for MemoryError {
    type V = MemErrV;

    open spec fn view(&self) -> MemErrV {
        match self {
            MemoryError::InconsistentMemory(a, old_v, new_v) => MemErrV::InconsistentMemory(
                a@,
                old_v@,
                new_v@,
            ),
            MemoryError::UnallocatedSegment(s, n) => MemErrV::UnallocatedSegment(
                *s as int,
                *n as int,
            ),
            MemoryError::AddressNotRelocatable => MemErrV::AddressNotRelocatable,
        }
    }
}

/// Errors of the machine: decoding, operand resolution, register updates,
/// and the hint subsystem.
#[derive(Debug, PartialEq, Eq)]
pub enum VirtualMachineError {
    InvalidInstructionEncoding,
    InvalidDstReg,
    InvalidOp0Reg,
    InvalidOp1Reg,
    ImmShouldBe1,
    UnknownOp0,
    InvalidFpUpdate,
    InvalidApUpdate,
    InvalidPcUpdate,
    InvalidOpcode,
    UnconstrainedResAdd,
    UnconstrainedResJump,
    UnconstrainedResJumpRel,
    UnconstrainedResAssertEq,
    /// An AssertEq instruction whose result and destination differ.
    DiffAssertValues(BigInt, BigInt),
    /// A Call whose op0 cell does not hold the return pc: op0, expected.
    CantWriteReturnPc(MaybeRelocatable, MaybeRelocatable),
    /// A Call whose dst cell does not hold the caller's fp: dst, fp.
    CantWriteReturnFp(MaybeRelocatable, MaybeRelocatable),
    NoDst,
    FailedToComputeOperands,
    PureValue,
    InvalidRes,
    RelocatableAdd,
    /// A relocatable offset left the range a machine word can hold.
    OffsetExceeded,
    NotImplemented,
    DiffIndexSub,
    MemoryError(MemoryError),
    ExpectedInteger(MaybeRelocatable),
    ExpectedRelocatable(MaybeRelocatable),
    NoDictTracker(i64),
    MismatchedDictPtr(Relocatable, Relocatable),
    NoValueForKey(BigInt),
    /// A dict update whose claimed previous value is wrong: given, current, key.
    WrongPrevValue(BigInt, BigInt, BigInt),
    NoInitialDict,
    FailedToGetIds,
    /// The step budget ran out before the program reached its end.
    EndOfProgram,
}

/// Ghost model of `VirtualMachineError`.
pub ghost enum VmErrV {
    InvalidInstructionEncoding,
    InvalidDstReg,
    InvalidOp0Reg,
    InvalidOp1Reg,
    ImmShouldBe1,
    UnknownOp0,
    InvalidFpUpdate,
    InvalidApUpdate,
    InvalidPcUpdate,
    InvalidOpcode,
    UnconstrainedResAdd,
    UnconstrainedResJump,
    UnconstrainedResJumpRel,
    UnconstrainedResAssertEq,
    DiffAssertValues(int, int),
    CantWriteReturnPc(MrVal, MrVal),
    CantWriteReturnFp(MrVal, MrVal),
    NoDst,
    FailedToComputeOperands,
    PureValue,
    InvalidRes,
    RelocatableAdd,
    OffsetExceeded,
    NotImplemented,
    DiffIndexSub,
    MemoryError(MemErrV),
    ExpectedInteger(MrVal),
    ExpectedRelocatable(MrVal),
    NoDictTracker(int),
    MismatchedDictPtr((int, int), (int, int)),
    NoValueForKey(int),
    WrongPrevValue(int, int, int),
    NoInitialDict,
    FailedToGetIds,
    EndOfProgram,
}

impl View for VirtualMachineError {
    type V = VmErrV;

    open spec fn view(&self) -> VmErrV {
        match self {
            VirtualMachineError::InvalidInstructionEncoding => VmErrV::InvalidInstructionEncoding,
            VirtualMachineError::InvalidDstReg => VmErrV::InvalidDstReg,
            VirtualMachineError::InvalidOp0Reg => VmErrV::InvalidOp0Reg,
            VirtualMachineError::InvalidOp1Reg => VmErrV::InvalidOp1Reg,
            VirtualMachineError::ImmShouldBe1 => VmErrV::ImmShouldBe1,
            VirtualMachineError::UnknownOp0 => VmErrV::UnknownOp0,
            VirtualMachineError::InvalidFpUpdate => VmErrV::InvalidFpUpdate,
            VirtualMachineError::InvalidApUpdate => VmErrV::InvalidApUpdate,
            VirtualMachineError::InvalidPcUpdate => VmErrV::InvalidPcUpdate,
            VirtualMachineError::InvalidOpcode => VmErrV::InvalidOpcode,
            VirtualMachineError::UnconstrainedResAdd => VmErrV::UnconstrainedResAdd,
            VirtualMachineError::UnconstrainedResJump => VmErrV::UnconstrainedResJump,
            VirtualMachineError::UnconstrainedResJumpRel => VmErrV::UnconstrainedResJumpRel,
            VirtualMachineError::UnconstrainedResAssertEq => VmErrV::UnconstrainedResAssertEq,
            VirtualMachineError::DiffAssertValues(r, d) => VmErrV::DiffAssertValues(
                big_val(*r),
                big_val(*d),
            ),
            VirtualMachineError::CantWriteReturnPc(a, b) => VmErrV::CantWriteReturnPc(a@, b@),
            VirtualMachineError::CantWriteReturnFp(a, b) => VmErrV::CantWriteReturnFp(a@, b@),
            VirtualMachineError::NoDst => VmErrV::NoDst,
            VirtualMachineError::FailedToComputeOperands => VmErrV::FailedToComputeOperands,
            VirtualMachineError::PureValue => VmErrV::PureValue,
            VirtualMachineError::InvalidRes => VmErrV::InvalidRes,
            VirtualMachineError::RelocatableAdd => VmErrV::RelocatableAdd,
            VirtualMachineError::OffsetExceeded => VmErrV::OffsetExceeded,
            VirtualMachineError::NotImplemented => VmErrV::NotImplemented,
            VirtualMachineError::DiffIndexSub => VmErrV::DiffIndexSub,
            VirtualMachineError::MemoryError(e) => VmErrV::MemoryError(e@),
            VirtualMachineError::ExpectedInteger(a) => VmErrV::ExpectedInteger(a@),
            VirtualMachineError::ExpectedRelocatable(a) => VmErrV::ExpectedRelocatable(a@),
            VirtualMachineError::NoDictTracker(s) => VmErrV::NoDictTracker(*s as int),
            VirtualMachineError::MismatchedDictPtr(a, b) => VmErrV::MismatchedDictPtr(a@, b@),
            VirtualMachineError::NoValueForKey(k) => VmErrV::NoValueForKey(big_val(*k)),
            VirtualMachineError::WrongPrevValue(g, c, k) => VmErrV::WrongPrevValue(
                big_val(*g),
                big_val(*c),
                big_val(*k),
            ),
            VirtualMachineError::NoInitialDict => VmErrV::NoInitialDict,
            VirtualMachineError::FailedToGetIds => VmErrV::FailedToGetIds,
            VirtualMachineError::EndOfProgram => VmErrV::EndOfProgram,
        }
    }
}

/// View of a `Result` whose sides both have views.
pub open spec fn result_view<T: View, E: View>(r: Result<T, E>) -> Result<T::V, E::V> {
    match r {
        Ok(v) => Ok(v@),
        Err(e) => Err(e@),
    }
}

} // verus!
