use cairo_vm::decoder::decode_instruction;
use cairo_vm::dict_manager::KvStore;
use cairo_vm::exec_scope::{ExecutionScopes, PyValueType, VarMap};
use cairo_vm::errors::{MemoryError, VirtualMachineError};
use cairo_vm::instruction::{ApUpdate, FpUpdate, Op1Addr, Opcode, PcUpdate, Register, Res};
use cairo_vm::memory::Memory;
use cairo_vm::relocatable::{MaybeRelocatable, Relocatable};
use num_bigint::BigInt;

fn bi(x: u64) -> BigInt {
    BigInt::from(x)
}

fn mr_int(x: u64) -> MaybeRelocatable {
    MaybeRelocatable::Int(BigInt::from(x))
}

#[test]
fn memory_write_once_rejects_a_second_value_and_keeps_the_first() {
    let mut memory = Memory::new();
    memory.data.push(Vec::new());
    let addr = MaybeRelocatable::from((0, 4));
    assert_eq!(Ok(()), memory.insert(&addr, &mr_int(7)));
    assert_eq!(
        Err(MemoryError::InconsistentMemory(addr.clone(), mr_int(7), mr_int(9))),
        memory.insert(&addr, &mr_int(9))
    );
    assert_eq!(memory.get(&addr), Some(&mr_int(7)));
}

#[test]
fn memory_rewriting_the_same_value_is_a_no_op() {
    let mut memory = Memory::new();
    memory.data.push(Vec::new());
    let addr = MaybeRelocatable::from((0, 0));
    assert_eq!(Ok(()), memory.insert(&addr, &mr_int(7)));
    assert_eq!(Ok(()), memory.insert(&addr, &mr_int(7)));
    assert_eq!(memory.get(&addr), Some(&mr_int(7)));
}

#[test]
fn memory_insert_into_an_unallocated_segment_is_refused() {
    let mut memory = Memory::new();
    memory.data.push(Vec::new());
    assert_eq!(
        Err(MemoryError::UnallocatedSegment(3, 1)),
        memory.insert(&MaybeRelocatable::from((3, 0)), &mr_int(1))
    );
}

#[test]
fn memory_insert_at_a_field_element_address_is_refused() {
    let mut memory = Memory::new();
    memory.data.push(Vec::new());
    assert_eq!(
        Err(MemoryError::AddressNotRelocatable),
        memory.insert(&mr_int(4), &mr_int(1))
    );
}

#[test]
fn memory_reads_of_absent_cells_are_absent() {
    let mut memory = Memory::new();
    memory.data.push(Vec::new());
    assert_eq!(memory.get(&MaybeRelocatable::from((0, 5))), None);
    assert_eq!(memory.get(&MaybeRelocatable::from((2, 0))), None);
    assert_eq!(memory.get(&mr_int(3)), None);
}

#[test]
fn memory_get_integer_requires_a_field_element() {
    let mut memory = Memory::new();
    memory.data.push(Vec::new());
    memory.insert(&MaybeRelocatable::from((0, 0)), &MaybeRelocatable::from((1, 0))).unwrap();
    memory.insert(&MaybeRelocatable::from((0, 1)), &mr_int(8)).unwrap();
    assert_eq!(
        memory.get_integer(&MaybeRelocatable::from((0, 0))),
        Err(VirtualMachineError::ExpectedInteger(MaybeRelocatable::from((0, 0))))
    );
    assert_eq!(memory.get_integer(&MaybeRelocatable::from((0, 1))), Ok(bi(8)));
}

#[test]
fn memory_get_relocatable_requires_an_address() {
    let mut memory = Memory::new();
    memory.data.push(Vec::new());
    memory.insert(&MaybeRelocatable::from((0, 0)), &MaybeRelocatable::from((1, 0))).unwrap();
    memory.insert(&MaybeRelocatable::from((0, 1)), &mr_int(8)).unwrap();
    assert_eq!(
        memory.get_relocatable(&MaybeRelocatable::from((0, 0))),
        Ok(Relocatable { segment_index: 1, offset: 0 })
    );
    assert_eq!(
        memory.get_relocatable(&MaybeRelocatable::from((0, 1))),
        Err(VirtualMachineError::ExpectedRelocatable(MaybeRelocatable::from((0, 1))))
    );
}

#[test]
fn adding_two_addresses_is_refused() {
    let a = MaybeRelocatable::from((0, 1));
    let b = MaybeRelocatable::from((0, 2));
    assert_eq!(Err(VirtualMachineError::RelocatableAdd), a.add_mod(&b, &bi(127)));
}

#[test]
fn subtracting_addresses_of_different_segments_is_refused() {
    let a = MaybeRelocatable::from((1, 2));
    let b = MaybeRelocatable::from((2, 1));
    assert_eq!(Err(VirtualMachineError::DiffIndexSub), a.sub_mod(&b, &bi(127)));
}

#[test]
fn subtracting_addresses_of_one_segment_gives_the_offset_difference() {
    let a = MaybeRelocatable::from((1, 7));
    let b = MaybeRelocatable::from((1, 5));
    assert_eq!(Ok(mr_int(2)), a.sub_mod(&b, &bi(127)));
}

#[test]
fn field_subtraction_wraps_modulo_the_prime() {
    let a = mr_int(2);
    let b = mr_int(5);
    assert_eq!(Ok(mr_int(124)), a.sub_mod(&b, &bi(127)));
}

#[test]
fn an_address_jumps_backwards_by_a_wrapped_field_element() {
    // adding P - 2 to an address moves it two cells back
    let pc = MaybeRelocatable::from((0, 5));
    assert_eq!(Ok(MaybeRelocatable::from((0, 3))), pc.add_int_mod(&bi(125), &bi(127)));
}

#[test]
fn an_offset_past_the_machine_word_is_refused() {
    let a = Relocatable { segment_index: 0, offset: usize::MAX };
    assert_eq!(Err(VirtualMachineError::OffsetExceeded), a.add_offset(1));
}

#[test]
fn decode_a_return_word() {
    let i = decode_instruction(0x208b7fff7fff7ffe, None).unwrap();
    assert_eq!(i.off0, -2);
    assert_eq!(i.off1, -1);
    assert_eq!(i.off2, -1);
    assert_eq!(i.imm, None);
    assert_eq!(i.dst_register, Register::FP);
    assert_eq!(i.op0_register, Register::FP);
    assert_eq!(i.op1_addr, Op1Addr::FP);
    assert_eq!(i.res, Res::Op1);
    assert_eq!(i.pc_update, PcUpdate::Jump);
    assert_eq!(i.ap_update, ApUpdate::Regular);
    assert_eq!(i.fp_update, FpUpdate::Dst);
    assert_eq!(i.opcode, Opcode::Ret);
    assert_eq!(i.size(), 1);
}

#[test]
fn decode_an_assert_with_immediate() {
    let i = decode_instruction(0x400680017fff8000, Some(bi(4))).unwrap();
    assert_eq!(i.off0, 0);
    assert_eq!(i.off1, -1);
    assert_eq!(i.off2, 1);
    assert_eq!(i.imm, Some(bi(4)));
    assert_eq!(i.dst_register, Register::AP);
    assert_eq!(i.op0_register, Register::FP);
    assert_eq!(i.op1_addr, Op1Addr::Imm);
    assert_eq!(i.res, Res::Op1);
    assert_eq!(i.pc_update, PcUpdate::Regular);
    assert_eq!(i.ap_update, ApUpdate::Regular);
    assert_eq!(i.fp_update, FpUpdate::Regular);
    assert_eq!(i.opcode, Opcode::AssertEq);
    assert_eq!(i.size(), 2);
}

#[test]
fn decode_a_call_word() {
    let i = decode_instruction(0x1104800180018000, Some(bi(9))).unwrap();
    assert_eq!(i.off0, 0);
    assert_eq!(i.off1, 1);
    assert_eq!(i.off2, 1);
    assert_eq!(i.imm, Some(bi(9)));
    assert_eq!(i.op1_addr, Op1Addr::Imm);
    assert_eq!(i.pc_update, PcUpdate::JumpRel);
    assert_eq!(i.ap_update, ApUpdate::Add2);
    assert_eq!(i.fp_update, FpUpdate::APPlus2);
    assert_eq!(i.opcode, Opcode::Call);
}

#[test]
fn decode_an_unconstrained_jnz_word() {
    let i = decode_instruction(0x206800180018001, Some(bi(4))).unwrap();
    assert_eq!(i.off0, 1);
    assert_eq!(i.off1, 1);
    assert_eq!(i.off2, 1);
    assert_eq!(i.res, Res::Unconstrained);
    assert_eq!(i.pc_update, PcUpdate::Jnz);
    assert_eq!(i.opcode, Opcode::NOp);
}

#[test]
fn decode_refuses_an_oversized_word() {
    assert_eq!(
        Err(VirtualMachineError::InvalidInstructionEncoding),
        decode_instruction(0x8000000000000000, None)
    );
}

#[test]
fn decode_refuses_bad_operand_source_bits() {
    // flag bits 2..5 hold 3, which selects no operand source
    assert_eq!(
        Err(VirtualMachineError::InvalidOp1Reg),
        decode_instruction(0x000c800080008000, None)
    );
}

#[test]
fn decode_refuses_bad_pc_update_bits() {
    // flag bits 7..10 hold 3, which selects no pc update
    assert_eq!(
        Err(VirtualMachineError::InvalidPcUpdate),
        decode_instruction(0x0180800080008000, None)
    );
}

#[test]
fn decode_refuses_bad_res_bits() {
    // flag bits 5..7 hold 3, which selects no result mode
    assert_eq!(
        Err(VirtualMachineError::InvalidRes),
        decode_instruction(0x0060800080008000, None)
    );
}

#[test]
fn decode_refuses_bad_ap_update_bits() {
    // flag bits 10..12 hold 3, which selects no ap update
    assert_eq!(
        Err(VirtualMachineError::InvalidApUpdate),
        decode_instruction(0x0c00800080008000, None)
    );
}

#[test]
fn decode_refuses_bad_opcode_bits() {
    // flag bits 12..15 hold 3, which selects no opcode
    assert_eq!(
        Err(VirtualMachineError::InvalidOpcode),
        decode_instruction(0x3000800080008000, None)
    );
}

#[test]
fn decode_requires_off2_one_for_an_immediate() {
    // operand source Imm but off2 encodes 0
    assert_eq!(
        Err(VirtualMachineError::ImmShouldBe1),
        decode_instruction(0x0004800080008000, None)
    );
}

#[test]
fn an_immediate_is_only_attached_for_an_immediate_operand() {
    // a Ret word followed by another word does not grow to two cells
    let i = decode_instruction(0x208b7fff7fff7ffe, Some(bi(99))).unwrap();
    assert_eq!(i.imm, None);
    assert_eq!(i.size(), 1);
}

#[test]
fn scopes_enter_and_exit_restore_the_stack() {
    let mut scopes = ExecutionScopes::new();
    assert_eq!(scopes.data.len(), 1);
    let mut frame = VarMap::new();
    frame.insert("value", PyValueType::BigInt(bi(3)));
    scopes.enter_scope(frame);
    assert_eq!(scopes.data.len(), 2);
    assert_eq!(
        scopes.get_local_variables().unwrap().get("value"),
        Some(&PyValueType::BigInt(bi(3)))
    );
    scopes.exit_scope();
    assert_eq!(scopes.data.len(), 1);
    assert_eq!(scopes.get_local_variables().unwrap().get("value"), None);
}

#[test]
fn a_dictionary_keeps_the_last_binding_for_a_key() {
    let mut kv = KvStore::new();
    kv.insert(&bi(5), &bi(10));
    kv.insert(&bi(7), &bi(14));
    kv.insert(&bi(5), &bi(12));
    assert_eq!(kv.get(&bi(5)), Some(bi(12)));
    assert_eq!(kv.get(&bi(7)), Some(bi(14)));
    assert_eq!(kv.get(&bi(9)), None);
}

#[test]
fn subtracting_an_address_from_a_field_element_is_refused() {
    let a = mr_int(9);
    let b = MaybeRelocatable::from((1, 2));
    assert_eq!(Err(VirtualMachineError::NotImplemented), a.sub_mod(&b, &bi(127)));
}

#[test]
fn decode_refuses_a_call_that_does_not_jump() {
    // the call word with its pc-update bits cleared
    assert_eq!(
        Err(VirtualMachineError::InvalidPcUpdate),
        decode_instruction(0x1004800180018000, Some(bi(9)))
    );
}

#[test]
fn decode_refuses_a_call_that_does_not_build_its_frame() {
    // the call word with ap-update bits selecting a single-cell advance
    assert_eq!(
        Err(VirtualMachineError::InvalidApUpdate),
        decode_instruction(0x1904800180018000, Some(bi(9)))
    );
}

#[test]
fn decode_refuses_a_call_with_a_computed_target() {
    // the call word with result bits selecting an addition
    assert_eq!(
        Err(VirtualMachineError::InvalidRes),
        decode_instruction(0x1124800180018000, Some(bi(9)))
    );
}

#[test]
fn decode_refuses_a_return_that_moves_ap() {
    // the return word with ap-update bits selecting a single-cell advance
    assert_eq!(
        Err(VirtualMachineError::InvalidApUpdate),
        decode_instruction(0x288b7fff7fff7ffe, None)
    );
}
