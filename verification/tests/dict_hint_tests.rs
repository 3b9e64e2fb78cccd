use cairo_vm::dict_hint_utils::{default_dict_new, dict_new, dict_read, dict_squash_copy_dict,
    dict_squash_update_ptr, dict_update, dict_write};
use cairo_vm::dict_manager::{DictManager, DictTracker, KvStore};
use cairo_vm::errors::{MemoryError, VirtualMachineError};
use cairo_vm::exec_scope::PyValueType;
use cairo_vm::hint_utils::{ApTracking, HintReference};
use cairo_vm::relocatable::{MaybeRelocatable, Relocatable};
use cairo_vm::vm_core::VirtualMachine;
use num_bigint::{BigInt, Sign};

fn bi(x: u64) -> BigInt {
    BigInt::from(x)
}

fn mr_int(x: u64) -> MaybeRelocatable {
    MaybeRelocatable::Int(BigInt::from(x))
}

fn rel(s: i64, o: usize) -> Relocatable {
    Relocatable { segment_index: s, offset: o }
}

fn stark_prime() -> BigInt {
    BigInt::new(Sign::Plus, vec![1, 0, 0, 0, 0, 0, 17, 134217728])
}

fn new_vm() -> VirtualMachine {
    VirtualMachine::new(stark_prime())
}

fn put(vm: &mut VirtualMachine, s: i64, o: usize, v: MaybeRelocatable) {
    while vm.memory.data.len() <= s as usize {
        vm.memory.data.push(Vec::new());
    }
    vm.memory.insert(&MaybeRelocatable::from((s, o)), &v).unwrap();
}

/// Builds the ids table: each listed name maps to its position.
fn ids(names: &[&str]) -> Vec<(String, usize)> {
    let mut out: Vec<(String, usize)> = Vec::new();
    for (i, name) in names.iter().enumerate() {
        out.push((String::from(*name), i));
    }
    out
}

/// Builds `n` plain fp-relative references, the i-th at offset `i - n`.
fn references(n: usize) -> Vec<HintReference> {
    let mut out: Vec<HintReference> = Vec::new();
    for i in 0..n {
        out.push(HintReference::new_simple(i as i32 - n as i32));
    }
    out
}

fn kv(pairs: &[(u64, u64)]) -> KvStore {
    let mut out = KvStore::new();
    for (k, v) in pairs.iter() {
        out.insert(&bi(*k), &bi(*v));
    }
    out
}

#[test]
fn run_dict_new_with_initial_dict_empty() {
    let mut vm = new_vm();
    vm.exec_scopes.assign_or_update_variable("initial_dict", PyValueType::Dictionary(KvStore::new()));
    dict_new(&mut vm).expect("Error while executing hint");
    assert_eq!(vm.segments.num_segments, 1);
    assert_eq!(
        vm.memory.get(&MaybeRelocatable::from((0, 0))),
        Some(&MaybeRelocatable::from((0, 0)))
    );
    assert_eq!(
        vm.dict_manager.trackers.get(&0),
        Some(&DictTracker::new_empty(&rel(0, 0)))
    );
}

#[test]
fn run_dict_new_with_no_initial_dict() {
    let mut vm = new_vm();
    assert_eq!(dict_new(&mut vm), Err(VirtualMachineError::NoInitialDict));
}

#[test]
fn run_dict_new_ap_is_taken() {
    let mut vm = new_vm();
    vm.exec_scopes.assign_or_update_variable("initial_dict", PyValueType::Dictionary(KvStore::new()));
    put(&mut vm, 0, 0, mr_int(1));
    assert_eq!(
        dict_new(&mut vm),
        Err(VirtualMachineError::MemoryError(MemoryError::InconsistentMemory(
            MaybeRelocatable::from((0, 0)),
            mr_int(1),
            MaybeRelocatable::from((0, 0))
        )))
    );
}

#[test]
fn run_dict_read_valid() {
    let mut vm = new_vm();
    vm.run_context.fp = MaybeRelocatable::from((0, 3));
    let mut tracker = DictTracker::new_empty(&rel(1, 0));
    tracker.insert_value(&bi(5), &bi(12));
    let mut dict_manager = DictManager::new();
    dict_manager.trackers.insert(1, tracker);
    vm.dict_manager = dict_manager;
    put(&mut vm, 0, 0, mr_int(5));
    put(&mut vm, 0, 2, MaybeRelocatable::from((1, 0)));
    let ids = ids(&["key", "value", "dict_ptr"]);
    vm.references = references(3);
    assert_eq!(dict_read(&mut vm, &ids, Some(&ApTracking::new())), Ok(()));
    assert_eq!(vm.memory.get(&MaybeRelocatable::from((0, 1))), Some(&mr_int(12)));
    assert_eq!(vm.dict_manager.trackers.get(&1).unwrap().current_ptr, rel(1, 3));
}

#[test]
fn run_dict_read_invalid_key() {
    let mut vm = new_vm();
    vm.run_context.fp = MaybeRelocatable::from((0, 3));
    let mut tracker = DictTracker::new_empty(&rel(1, 0));
    tracker.insert_value(&bi(5), &bi(12));
    let mut dict_manager = DictManager::new();
    dict_manager.trackers.insert(1, tracker);
    vm.dict_manager = dict_manager;
    put(&mut vm, 0, 0, mr_int(6));
    put(&mut vm, 0, 2, MaybeRelocatable::from((1, 0)));
    let ids = ids(&["key", "value", "dict_ptr"]);
    vm.references = references(3);
    assert_eq!(
        dict_read(&mut vm, &ids, Some(&ApTracking::new())),
        Err(VirtualMachineError::NoValueForKey(bi(6)))
    );
}

#[test]
fn run_dict_read_no_tracker() {
    let mut vm = new_vm();
    vm.run_context.fp = MaybeRelocatable::from((0, 3));
    vm.dict_manager = DictManager::new();
    put(&mut vm, 0, 0, mr_int(6));
    put(&mut vm, 0, 2, MaybeRelocatable::from((1, 0)));
    let ids = ids(&["key", "value", "dict_ptr"]);
    vm.references = references(3);
    assert_eq!(
        dict_read(&mut vm, &ids, Some(&ApTracking::new())),
        Err(VirtualMachineError::NoDictTracker(1))
    );
}

#[test]
fn run_default_dict_new_valid() {
    let mut vm = new_vm();
    vm.run_context.fp = MaybeRelocatable::from((1, 1));
    put(&mut vm, 1, 0, mr_int(17));
    let ids = ids(&["default_value"]);
    vm.references = references(1);
    default_dict_new(&mut vm, &ids, Some(&ApTracking::new())).expect("Error while executing hint");
    assert_eq!(vm.memory.data.len(), 3);
    assert_eq!(
        vm.memory.get(&MaybeRelocatable::from((0, 0))),
        Some(&MaybeRelocatable::from((0, 0)))
    );
    assert_eq!(
        vm.dict_manager.trackers.get(&0),
        Some(&DictTracker::new_default_dict(&rel(0, 0), &bi(17), None))
    );
}

#[test]
fn run_default_dict_new_no_default_value() {
    let mut vm = new_vm();
    vm.run_context.fp = MaybeRelocatable::from((0, 1));
    let ids = ids(&["default_value"]);
    vm.references = references(1);
    assert_eq!(
        default_dict_new(&mut vm, &ids, Some(&ApTracking::new())),
        Err(VirtualMachineError::ExpectedInteger(MaybeRelocatable::from((0, 0))))
    );
}

#[test]
fn run_dict_write_default_valid_empty_dict() {
    let mut vm = new_vm();
    vm.run_context.fp = MaybeRelocatable::from((0, 3));
    let tracker = DictTracker::new_default_dict(&rel(1, 0), &bi(2), None);
    let mut dict_manager = DictManager::new();
    dict_manager.trackers.insert(1, tracker);
    vm.dict_manager = dict_manager;
    put(&mut vm, 0, 0, mr_int(5));
    put(&mut vm, 0, 1, mr_int(17));
    put(&mut vm, 0, 2, MaybeRelocatable::from((1, 0)));
    while vm.memory.data.len() <= 1 {
        vm.memory.data.push(Vec::new());
    }
    let ids = ids(&["key", "new_value", "dict_ptr"]);
    vm.references = references(3);
    assert_eq!(dict_write(&mut vm, &ids, Some(&ApTracking::new())), Ok(()));
    assert_eq!(
        vm.dict_manager.trackers.get(&1).unwrap().get_value(&bi(5)),
        Ok(bi(17))
    );
    assert_eq!(vm.dict_manager.trackers.get(&1).unwrap().current_ptr, rel(1, 3));
    assert_eq!(vm.memory.get(&MaybeRelocatable::from((1, 1))), Some(&mr_int(2)));
}

#[test]
fn run_dict_write_default_valid_overwrite_value() {
    let mut vm = new_vm();
    vm.run_context.fp = MaybeRelocatable::from((0, 3));
    let mut tracker = DictTracker::new_default_dict(&rel(1, 0), &bi(2), None);
    tracker.insert_value(&bi(5), &bi(10));
    let mut dict_manager = DictManager::new();
    dict_manager.trackers.insert(1, tracker);
    vm.dict_manager = dict_manager;
    put(&mut vm, 0, 0, mr_int(5));
    put(&mut vm, 0, 1, mr_int(17));
    put(&mut vm, 0, 2, MaybeRelocatable::from((1, 0)));
    while vm.memory.data.len() <= 1 {
        vm.memory.data.push(Vec::new());
    }
    let ids = ids(&["key", "new_value", "dict_ptr"]);
    vm.references = references(3);
    assert_eq!(dict_write(&mut vm, &ids, Some(&ApTracking::new())), Ok(()));
    assert_eq!(
        vm.dict_manager.trackers.get(&1).unwrap().get_value(&bi(5)),
        Ok(bi(17))
    );
    assert_eq!(vm.dict_manager.trackers.get(&1).unwrap().current_ptr, rel(1, 3));
    assert_eq!(vm.memory.get(&MaybeRelocatable::from((1, 1))), Some(&mr_int(10)));
}

#[test]
fn run_dict_write_simple_valid_overwrite_value() {
    let mut vm = new_vm();
    vm.run_context.fp = MaybeRelocatable::from((0, 3));
    let mut tracker = DictTracker::new_empty(&rel(1, 0));
    tracker.insert_value(&bi(5), &bi(10));
    let mut dict_manager = DictManager::new();
    dict_manager.trackers.insert(1, tracker);
    vm.dict_manager = dict_manager;
    put(&mut vm, 0, 0, mr_int(5));
    put(&mut vm, 0, 1, mr_int(17));
    put(&mut vm, 0, 2, MaybeRelocatable::from((1, 0)));
    while vm.memory.data.len() <= 1 {
        vm.memory.data.push(Vec::new());
    }
    let ids = ids(&["key", "new_value", "dict_ptr"]);
    vm.references = references(3);
    assert_eq!(dict_write(&mut vm, &ids, Some(&ApTracking::new())), Ok(()));
    assert_eq!(
        vm.dict_manager.trackers.get(&1).unwrap().get_value(&bi(5)),
        Ok(bi(17))
    );
    assert_eq!(vm.dict_manager.trackers.get(&1).unwrap().current_ptr, rel(1, 3));
    assert_eq!(vm.memory.get(&MaybeRelocatable::from((1, 1))), Some(&mr_int(10)));
}

#[test]
fn run_dict_write_simple_valid_cant_write_new_key() {
    let mut vm = new_vm();
    vm.run_context.fp = MaybeRelocatable::from((0, 3));
    let tracker = DictTracker::new_empty(&rel(1, 0));
    let mut dict_manager = DictManager::new();
    dict_manager.trackers.insert(1, tracker);
    vm.dict_manager = dict_manager;
    put(&mut vm, 0, 0, mr_int(5));
    put(&mut vm, 0, 1, mr_int(17));
    put(&mut vm, 0, 2, MaybeRelocatable::from((1, 0)));
    while vm.memory.data.len() <= 1 {
        vm.memory.data.push(Vec::new());
    }
    let ids = ids(&["key", "new_value", "dict_ptr"]);
    vm.references = references(3);
    assert_eq!(
        dict_write(&mut vm, &ids, Some(&ApTracking::new())),
        Err(VirtualMachineError::NoValueForKey(bi(5)))
    );
}

#[test]
fn run_dict_update_simple_valid() {
    let mut vm = new_vm();
    vm.run_context.fp = MaybeRelocatable::from((0, 4));
    let mut tracker = DictTracker::new_empty(&rel(1, 0));
    tracker.insert_value(&bi(5), &bi(10));
    let mut dict_manager = DictManager::new();
    dict_manager.trackers.insert(1, tracker);
    vm.dict_manager = dict_manager;
    put(&mut vm, 0, 0, mr_int(5));
    put(&mut vm, 0, 1, mr_int(10));
    put(&mut vm, 0, 2, mr_int(20));
    put(&mut vm, 0, 3, MaybeRelocatable::from((1, 0)));
    let ids = ids(&["key", "prev_value", "new_value", "dict_ptr"]);
    vm.references = references(4);
    assert_eq!(dict_update(&mut vm, &ids, Some(&ApTracking::new())), Ok(()));
    assert_eq!(
        vm.dict_manager.trackers.get(&1).unwrap().get_value(&bi(5)),
        Ok(bi(20))
    );
    assert_eq!(vm.dict_manager.trackers.get(&1).unwrap().current_ptr, rel(1, 3));
}

#[test]
fn run_dict_update_simple_valid_no_change() {
    let mut vm = new_vm();
    vm.run_context.fp = MaybeRelocatable::from((0, 4));
    let mut tracker = DictTracker::new_empty(&rel(1, 0));
    tracker.insert_value(&bi(5), &bi(10));
    let mut dict_manager = DictManager::new();
    dict_manager.trackers.insert(1, tracker);
    vm.dict_manager = dict_manager;
    put(&mut vm, 0, 0, mr_int(5));
    put(&mut vm, 0, 1, mr_int(10));
    put(&mut vm, 0, 2, mr_int(10));
    put(&mut vm, 0, 3, MaybeRelocatable::from((1, 0)));
    let ids = ids(&["key", "prev_value", "new_value", "dict_ptr"]);
    vm.references = references(4);
    assert_eq!(dict_update(&mut vm, &ids, Some(&ApTracking::new())), Ok(()));
    assert_eq!(
        vm.dict_manager.trackers.get(&1).unwrap().get_value(&bi(5)),
        Ok(bi(10))
    );
    assert_eq!(vm.dict_manager.trackers.get(&1).unwrap().current_ptr, rel(1, 3));
}

#[test]
fn run_dict_update_simple_invalid_wrong_prev_key() {
    let mut vm = new_vm();
    vm.run_context.fp = MaybeRelocatable::from((0, 4));
    let mut tracker = DictTracker::new_empty(&rel(1, 0));
    tracker.insert_value(&bi(5), &bi(10));
    let mut dict_manager = DictManager::new();
    dict_manager.trackers.insert(1, tracker);
    vm.dict_manager = dict_manager;
    put(&mut vm, 0, 0, mr_int(5));
    put(&mut vm, 0, 1, mr_int(11));
    put(&mut vm, 0, 2, mr_int(20));
    put(&mut vm, 0, 3, MaybeRelocatable::from((1, 0)));
    let ids = ids(&["key", "prev_value", "new_value", "dict_ptr"]);
    vm.references = references(4);
    assert_eq!(
        dict_update(&mut vm, &ids, Some(&ApTracking::new())),
        Err(VirtualMachineError::WrongPrevValue(bi(11), bi(10), bi(5)))
    );
    assert_eq!(vm.dict_manager.trackers.get(&1).unwrap().current_ptr, rel(1, 0));
}

#[test]
fn run_dict_update_simple_invalid_wrong_key() {
    let mut vm = new_vm();
    vm.run_context.fp = MaybeRelocatable::from((0, 4));
    let mut tracker = DictTracker::new_empty(&rel(1, 0));
    tracker.insert_value(&bi(5), &bi(10));
    let mut dict_manager = DictManager::new();
    dict_manager.trackers.insert(1, tracker);
    vm.dict_manager = dict_manager;
    put(&mut vm, 0, 0, mr_int(6));
    put(&mut vm, 0, 1, mr_int(10));
    put(&mut vm, 0, 2, mr_int(10));
    put(&mut vm, 0, 3, MaybeRelocatable::from((1, 0)));
    let ids = ids(&["key", "prev_value", "new_value", "dict_ptr"]);
    vm.references = references(4);
    assert_eq!(
        dict_update(&mut vm, &ids, Some(&ApTracking::new())),
        Err(VirtualMachineError::NoValueForKey(bi(6)))
    );
}

#[test]
fn run_dict_update_default_valid() {
    let mut vm = new_vm();
    vm.run_context.fp = MaybeRelocatable::from((0, 4));
    let mut tracker = DictTracker::new_default_dict(&rel(1, 0), &bi(17), Some(KvStore::new()));
    tracker.insert_value(&bi(5), &bi(10));
    let mut dict_manager = DictManager::new();
    dict_manager.trackers.insert(1, tracker);
    vm.dict_manager = dict_manager;
    put(&mut vm, 0, 0, mr_int(5));
    put(&mut vm, 0, 1, mr_int(10));
    put(&mut vm, 0, 2, mr_int(20));
    put(&mut vm, 0, 3, MaybeRelocatable::from((1, 0)));
    let ids = ids(&["key", "prev_value", "new_value", "dict_ptr"]);
    vm.references = references(4);
    assert_eq!(dict_update(&mut vm, &ids, Some(&ApTracking::new())), Ok(()));
    assert_eq!(
        vm.dict_manager.trackers.get(&1).unwrap().get_value(&bi(5)),
        Ok(bi(20))
    );
    assert_eq!(vm.dict_manager.trackers.get(&1).unwrap().current_ptr, rel(1, 3));
}

#[test]
fn run_dict_update_default_valid_no_change() {
    let mut vm = new_vm();
    vm.run_context.fp = MaybeRelocatable::from((0, 4));
    let mut tracker = DictTracker::new_default_dict(&rel(1, 0), &bi(17), Some(KvStore::new()));
    tracker.insert_value(&bi(5), &bi(10));
    let mut dict_manager = DictManager::new();
    dict_manager.trackers.insert(1, tracker);
    vm.dict_manager = dict_manager;
    put(&mut vm, 0, 0, mr_int(5));
    put(&mut vm, 0, 1, mr_int(10));
    put(&mut vm, 0, 2, mr_int(10));
    put(&mut vm, 0, 3, MaybeRelocatable::from((1, 0)));
    let ids = ids(&["key", "prev_value", "new_value", "dict_ptr"]);
    vm.references = references(4);
    assert_eq!(dict_update(&mut vm, &ids, Some(&ApTracking::new())), Ok(()));
    assert_eq!(
        vm.dict_manager.trackers.get(&1).unwrap().get_value(&bi(5)),
        Ok(bi(10))
    );
    assert_eq!(vm.dict_manager.trackers.get(&1).unwrap().current_ptr, rel(1, 3));
}

#[test]
fn run_dict_update_default_invalid_wrong_prev_key() {
    let mut vm = new_vm();
    vm.run_context.fp = MaybeRelocatable::from((0, 4));
    let mut tracker = DictTracker::new_default_dict(&rel(1, 0), &bi(17), Some(KvStore::new()));
    tracker.insert_value(&bi(5), &bi(10));
    let mut dict_manager = DictManager::new();
    dict_manager.trackers.insert(1, tracker);
    vm.dict_manager = dict_manager;
    put(&mut vm, 0, 0, mr_int(5));
    put(&mut vm, 0, 1, mr_int(11));
    put(&mut vm, 0, 2, mr_int(10));
    put(&mut vm, 0, 3, MaybeRelocatable::from((1, 0)));
    let ids = ids(&["key", "prev_value", "new_value", "dict_ptr"]);
    vm.references = references(4);
    assert_eq!(
        dict_update(&mut vm, &ids, Some(&ApTracking::new())),
        Err(VirtualMachineError::WrongPrevValue(bi(11), bi(10), bi(5)))
    );
}

#[test]
fn run_dict_update_default_invalid_wrong_key() {
    let mut vm = new_vm();
    vm.run_context.fp = MaybeRelocatable::from((0, 4));
    let mut tracker = DictTracker::new_default_dict(&rel(1, 0), &bi(17), Some(KvStore::new()));
    tracker.insert_value(&bi(5), &bi(10));
    let mut dict_manager = DictManager::new();
    dict_manager.trackers.insert(1, tracker);
    vm.dict_manager = dict_manager;
    put(&mut vm, 0, 0, mr_int(6));
    put(&mut vm, 0, 1, mr_int(10));
    put(&mut vm, 0, 2, mr_int(10));
    put(&mut vm, 0, 3, MaybeRelocatable::from((1, 0)));
    let ids = ids(&["key", "prev_value", "new_value", "dict_ptr"]);
    vm.references = references(4);
    assert_eq!(
        dict_update(&mut vm, &ids, Some(&ApTracking::new())),
        Err(VirtualMachineError::WrongPrevValue(bi(10), bi(17), bi(6)))
    );
}

#[test]
fn run_dict_update_default_valid_no_key_prev_value_equals_default() {
    let mut vm = new_vm();
    vm.run_context.fp = MaybeRelocatable::from((0, 4));
    let tracker = DictTracker::new_default_dict(&rel(1, 0), &bi(17), Some(KvStore::new()));
    let mut dict_manager = DictManager::new();
    dict_manager.trackers.insert(1, tracker);
    vm.dict_manager = dict_manager;
    put(&mut vm, 0, 0, mr_int(5));
    put(&mut vm, 0, 1, mr_int(17));
    put(&mut vm, 0, 2, mr_int(20));
    put(&mut vm, 0, 3, MaybeRelocatable::from((1, 0)));
    let ids = ids(&["key", "prev_value", "new_value", "dict_ptr"]);
    vm.references = references(4);
    assert_eq!(dict_update(&mut vm, &ids, Some(&ApTracking::new())), Ok(()));
    assert_eq!(
        vm.dict_manager.trackers.get(&1).unwrap().get_value(&bi(5)),
        Ok(bi(20))
    );
    assert_eq!(vm.dict_manager.trackers.get(&1).unwrap().current_ptr, rel(1, 3));
}

#[test]
fn run_dict_squash_copy_dict_valid_empty_dict() {
    let mut vm = new_vm();
    vm.run_context.fp = MaybeRelocatable::from((0, 1));
    let tracker = DictTracker::new_empty(&rel(1, 0));
    let mut dict_manager = DictManager::new();
    dict_manager.trackers.insert(1, tracker);
    vm.dict_manager = dict_manager;
    put(&mut vm, 0, 0, MaybeRelocatable::from((1, 0)));
    let ids = ids(&["dict_accesses_end"]);
    vm.references = references(1);
    assert_eq!(dict_squash_copy_dict(&mut vm, &ids, Some(&ApTracking::new())), Ok(()));
    assert_eq!(vm.exec_scopes.data.len(), 2);
    let variables = vm.exec_scopes.get_local_variables().unwrap();
    assert_eq!(variables.len(), 1);
    assert_eq!(
        variables.get("initial_dict"),
        Some(&PyValueType::Dictionary(KvStore::new()))
    );
}

#[test]
fn run_dict_squash_copy_dict_valid_non_empty_dict() {
    let mut vm = new_vm();
    vm.run_context.fp = MaybeRelocatable::from((0, 1));
    let mut tracker = DictTracker::new_empty(&rel(1, 0));
    tracker.insert_value(&bi(1), &bi(2));
    tracker.insert_value(&bi(3), &bi(4));
    tracker.insert_value(&bi(5), &bi(6));
    let mut dict_manager = DictManager::new();
    dict_manager.trackers.insert(1, tracker);
    vm.dict_manager = dict_manager;
    put(&mut vm, 0, 0, MaybeRelocatable::from((1, 0)));
    let ids = ids(&["dict_accesses_end"]);
    vm.references = references(1);
    assert_eq!(dict_squash_copy_dict(&mut vm, &ids, Some(&ApTracking::new())), Ok(()));
    assert_eq!(vm.exec_scopes.data.len(), 2);
    let variables = vm.exec_scopes.get_local_variables().unwrap();
    assert_eq!(variables.len(), 1);
    assert_eq!(
        variables.get("initial_dict"),
        Some(&PyValueType::Dictionary(kv(&[(1, 2), (3, 4), (5, 6)])))
    );
}

#[test]
fn run_dict_squash_copy_dict_invalid_no_dict() {
    let mut vm = new_vm();
    vm.run_context.fp = MaybeRelocatable::from((0, 1));
    vm.dict_manager = DictManager::new();
    put(&mut vm, 0, 0, MaybeRelocatable::from((1, 0)));
    let ids = ids(&["dict_accesses_end"]);
    vm.references = references(1);
    assert_eq!(
        dict_squash_copy_dict(&mut vm, &ids, Some(&ApTracking::new())),
        Err(VirtualMachineError::NoDictTracker(1))
    );
}

#[test]
fn run_dict_squash_update_ptr_no_tracker() {
    let mut vm = new_vm();
    vm.run_context.fp = MaybeRelocatable::from((0, 2));
    vm.dict_manager = DictManager::new();
    put(&mut vm, 0, 0, MaybeRelocatable::from((1, 0)));
    put(&mut vm, 0, 1, MaybeRelocatable::from((1, 3)));
    let ids = ids(&["squashed_dict_start", "squashed_dict_end"]);
    vm.references = references(2);
    assert_eq!(
        dict_squash_update_ptr(&mut vm, &ids, Some(&ApTracking::new())),
        Err(VirtualMachineError::NoDictTracker(1))
    );
}

#[test]
fn run_dict_squash_update_ptr_valid() {
    let mut vm = new_vm();
    vm.run_context.fp = MaybeRelocatable::from((0, 2));
    let mut tracker = DictTracker::new_empty(&rel(1, 0));
    tracker.insert_value(&bi(1), &bi(2));
    let mut dict_manager = DictManager::new();
    dict_manager.trackers.insert(1, tracker);
    vm.dict_manager = dict_manager;
    put(&mut vm, 0, 0, MaybeRelocatable::from((1, 0)));
    put(&mut vm, 0, 1, MaybeRelocatable::from((1, 3)));
    let ids = ids(&["squashed_dict_start", "squashed_dict_end"]);
    vm.references = references(2);
    assert_eq!(dict_squash_update_ptr(&mut vm, &ids, Some(&ApTracking::new())), Ok(()));
    assert_eq!(
        vm.dict_manager.get_tracker(&rel(1, 3)).unwrap().current_ptr,
        rel(1, 3)
    );
}

#[test]
fn run_dict_squash_update_ptr_mismatched_dict_ptr() {
    let mut vm = new_vm();
    vm.run_context.fp = MaybeRelocatable::from((0, 2));
    let mut tracker = DictTracker::new_empty(&rel(1, 0));
    tracker.insert_value(&bi(1), &bi(2));
    let mut dict_manager = DictManager::new();
    dict_manager.trackers.insert(1, tracker);
    vm.dict_manager = dict_manager;
    put(&mut vm, 0, 0, MaybeRelocatable::from((1, 3)));
    put(&mut vm, 0, 1, MaybeRelocatable::from((1, 6)));
    let ids = ids(&["squashed_dict_start", "squashed_dict_end"]);
    vm.references = references(2);
    assert_eq!(
        dict_squash_update_ptr(&mut vm, &ids, Some(&ApTracking::new())),
        Err(VirtualMachineError::MismatchedDictPtr(rel(1, 0), rel(1, 3)))
    );
}
