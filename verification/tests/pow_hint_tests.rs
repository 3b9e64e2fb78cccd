use cairo_vm::errors::{MemoryError, VirtualMachineError};
use cairo_vm::hint_utils::{ApTracking, HintReference};
use cairo_vm::instruction::Register;
use cairo_vm::pow_utils::pow;
use cairo_vm::relocatable::MaybeRelocatable;
use cairo_vm::vm_core::VirtualMachine;
use num_bigint::{BigInt, Sign};

fn bi(x: u64) -> BigInt {
    BigInt::from(x)
}

fn mr_int(x: u64) -> MaybeRelocatable {
    MaybeRelocatable::Int(BigInt::from(x))
}

fn stark_prime() -> BigInt {
    BigInt::new(Sign::Plus, vec![1, 0, 0, 0, 0, 0, 17, 134217728])
}

fn new_vm() -> VirtualMachine {
    VirtualMachine::new(stark_prime())
}

fn put(vm: &mut VirtualMachine, s: i64, o: usize, v: MaybeRelocatable) {
    while vm.memory.data.len() <= s as usize {
        vm.memory.data.push(Vec::new());
    }
    vm.memory.insert(&MaybeRelocatable::from((s, o)), &v).unwrap();
}

fn ids(names: &[&str]) -> Vec<(String, usize)> {
    let mut out: Vec<(String, usize)> = Vec::new();
    for (i, name) in names.iter().enumerate() {
        out.push((String::from(*name), i));
    }
    out
}

fn ap_ref(offset1: i32, tracking: Option<ApTracking>) -> HintReference {
    HintReference {
        dereference: true,
        register: Register::AP,
        offset1,
        offset2: 0,
        inner_dereference: false,
        ap_tracking_data: tracking,
        immediate: None,
    }
}

#[test]
fn run_pow_ok() {
    let mut vm = new_vm();
    vm.run_context.ap = MaybeRelocatable::from((1, 12));
    let ids = ids(&["prev_locs", "locs"]);
    vm.references = vec![
        ap_ref(-5, Some(ApTracking { group: 4, offset: 3 })),
        ap_ref(0, Some(ApTracking { group: 4, offset: 3 })),
    ];
    put(&mut vm, 1, 10, mr_int(3));
    let ap_tracking = ApTracking { group: 4, offset: 4 };
    assert_eq!(pow(&mut vm, &ids, Some(&ap_tracking)), Ok(()));
    assert_eq!(vm.memory.get(&MaybeRelocatable::from((1, 11))), Some(&mr_int(1)));
}

#[test]
fn run_pow_even_exponent_gives_zero() {
    let mut vm = new_vm();
    vm.run_context.ap = MaybeRelocatable::from((1, 12));
    let ids = ids(&["prev_locs", "locs"]);
    vm.references = vec![
        ap_ref(-5, Some(ApTracking { group: 4, offset: 3 })),
        ap_ref(0, Some(ApTracking { group: 4, offset: 3 })),
    ];
    put(&mut vm, 1, 10, mr_int(8));
    let ap_tracking = ApTracking { group: 4, offset: 4 };
    assert_eq!(pow(&mut vm, &ids, Some(&ap_tracking)), Ok(()));
    assert_eq!(vm.memory.get(&MaybeRelocatable::from((1, 11))), Some(&mr_int(0)));
}

#[test]
fn run_pow_incorrect_ids() {
    let mut vm = new_vm();
    vm.run_context.ap = MaybeRelocatable::from((1, 11));
    let ids = ids(&["locs"]);
    assert_eq!(
        pow(&mut vm, &ids, Some(&ApTracking::new())),
        Err(VirtualMachineError::FailedToGetIds)
    );
}

#[test]
fn run_pow_incorrect_references() {
    let mut vm = new_vm();
    vm.run_context.fp = MaybeRelocatable::from((1, 11));
    let ids = ids(&["prev_locs", "locs"]);
    // the second reference points out of range; the read of prev_locs.exp
    // fails first
    vm.references = vec![HintReference::new_simple(-5), HintReference::new_simple(-12)];
    assert_eq!(
        pow(&mut vm, &ids, Some(&ApTracking::new())),
        Err(VirtualMachineError::ExpectedInteger(MaybeRelocatable::from((1, 10))))
    );
}

#[test]
fn run_pow_prev_locs_exp_is_not_integer() {
    let mut vm = new_vm();
    vm.run_context.fp = MaybeRelocatable::from((1, 11));
    let ids = ids(&["prev_locs", "locs"]);
    vm.references = vec![HintReference::new_simple(-5), HintReference::new_simple(0)];
    put(&mut vm, 1, 10, MaybeRelocatable::from((1, 11)));
    assert_eq!(
        pow(&mut vm, &ids, Some(&ApTracking::new())),
        Err(VirtualMachineError::ExpectedInteger(MaybeRelocatable::from((1, 10))))
    );
}

#[test]
fn run_pow_invalid_memory_insert() {
    let mut vm = new_vm();
    vm.run_context.ap = MaybeRelocatable::from((1, 11));
    let ids = ids(&["prev_locs", "locs"]);
    vm.references = vec![
        ap_ref(-5, Some(ApTracking::new())),
        ap_ref(0, Some(ApTracking::new())),
    ];
    put(&mut vm, 1, 10, mr_int(3));
    // the cell for ids.locs is already taken, so the hint's write clashes
    put(&mut vm, 1, 11, mr_int(3));
    assert_eq!(
        pow(&mut vm, &ids, Some(&ApTracking::new())),
        Err(VirtualMachineError::MemoryError(MemoryError::InconsistentMemory(
            MaybeRelocatable::from((1, 11)),
            mr_int(3),
            mr_int(1)
        )))
    );
}

#[test]
fn a_reference_tracked_in_another_group_is_refused() {
    let mut vm = new_vm();
    vm.run_context.ap = MaybeRelocatable::from((1, 12));
    let ids = ids(&["prev_locs", "locs"]);
    vm.references = vec![
        ap_ref(-5, Some(ApTracking { group: 7, offset: 3 })),
        ap_ref(0, Some(ApTracking { group: 7, offset: 3 })),
    ];
    put(&mut vm, 1, 10, mr_int(3));
    let ap_tracking = ApTracking { group: 4, offset: 4 };
    assert_eq!(
        pow(&mut vm, &ids, Some(&ap_tracking)),
        Err(VirtualMachineError::FailedToGetIds)
    );
}
