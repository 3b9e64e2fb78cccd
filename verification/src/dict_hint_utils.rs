//! The dictionary hints: non-deterministic helpers that allocate dictionary
//! segments and reconcile the access records the program writes against the
//! hint-side trackers.
use vstd::prelude::*;

verus! {

use crate::dict_manager::{DictTracker, get_tracker_spec, KvStore, TrackerView};
use crate::errors::{VirtualMachineError, VmErrV};
use crate::exec_scope::{ExecutionScopes, PyValueType, ScopeValV, VarMap};
use crate::hint_utils::{ApTracking, get_integer_from_var_name, get_ptr_from_var_name, Ids,
    insert_value_from_var_name, insert_value_into_ap, tracking_view, var_int_spec, var_ptr_spec};
use crate::memory::mem_insert_spec;
use crate::relocatable::{MaybeRelocatable, MrVal};
use crate::vm_core::VirtualMachine;

/// Each dictionary access record occupies three cells: key, previous value,
/// new value.
pub const DICT_ACCESS_SIZE: usize = 3;

/// A tracker with its pointer advanced past one access record.
pub open spec fn advanced(t: TrackerView) -> TrackerView {
    TrackerView { ptr: (t.ptr.0, t.ptr.1 + 3), data: t.data, default: t.default }
}

/// Everything a dictionary hint may not touch is the same in both machines:
/// registers, trace, bookkeeping and the segment allocator are only read.
pub open spec fn same_but_hint_effects(a: &VirtualMachine, b: &VirtualMachine) -> bool {
    &&& a.run_context.pc == b.run_context.pc
    &&& a.run_context.ap == b.run_context.ap
    &&& a.run_context.fp == b.run_context.fp
    &&& a.run_context.prime == b.run_context.prime
    &&& a.prime == b.prime
    &&& a._program_base == b._program_base
    &&& a.validated_addresses == b.validated_addresses
    &&& a.accessed_addresses == b.accessed_addresses
    &&& a.trace == b.trace
    &&& a.current_step == b.current_step
    &&& a.skip_instruction_execution == b.skip_instruction_execution
    &&& a.references == b.references
}

/// The initial dictionary the active scope offers, if a hint stored one.
pub open spec fn copy_initial_dict_spec(scopes: &ExecutionScopes) -> Option<Map<int, int>> {
    if scopes.data@.len() > 0 {
        let top = scopes.data@.last()@;
        if top.dom().contains("initial_dict"@) {
            match top["initial_dict"@] {
                ScopeValV::Dictionary(d) => Some(d),
                _ => None,
            }
        } else {
            None
        }
    } else {
        None
    }
}

/// Copies the initial dictionary out of the active scope, where one is set.
fn copy_initial_dict(exec_scopes: &ExecutionScopes) -> (r: Option<KvStore>)
    ensures
        match r {
            Some(kv) => copy_initial_dict_spec(exec_scopes) matches Some(d) && kv@ == d,
            None => copy_initial_dict_spec(exec_scopes) is None,
        },
{
    match exec_scopes.get_local_variables() {
        Some(variables) => match variables.get("initial_dict") {
            Some(PyValueType::Dictionary(initial)) => Some(initial.duplicate()),
            _ => None,
        },
        None => None,
    }
}

/// What allocating a dictionary does: a fresh segment whose base is written
/// at ap, and a tracker for it holding the given data and default.
pub open spec fn new_dict_outcome(
    vm: &VirtualMachine,
    data: Map<int, int>,
    default: Option<int>,
) -> Result<(Map<(int, int), MrVal>, Map<int, TrackerView>), VmErrV> {
    let base = (vm.segments.num_segments as int, 0int);
    let dm2 = vm.dict_manager.trackers@.insert(
        base.0,
        TrackerView { ptr: base, data: data, default: default },
    );
    match mem_insert_spec(
        vm.memory@,
        vm.memory.data@.len() as int + 1,
        vm.run_context.ap@,
        MrVal::Rel(base.0, base.1),
    ) {
        Ok(m2) => Ok((m2, dm2)),
        Err(me) => Err(VmErrV::MemoryError(me)),
    }
}

/// Allocates a dictionary segment and its tracker and writes the base at ap.
/// The initial dictionary must have been left in the active scope by an
/// earlier hint.
pub fn dict_new(vm: &mut VirtualMachine) -> (r: Result<(), VirtualMachineError>)
    requires
        (old(vm).segments.num_segments as int) < (i64::MAX as int),
        old(vm).segments.num_segments < usize::MAX,
    ensures
        same_but_hint_effects(old(vm), final(vm)),
        final(vm).exec_scopes == old(vm).exec_scopes,
        old(vm).memory.wf() ==> final(vm).memory.wf(),
        match (r, copy_initial_dict_spec(&old(vm).exec_scopes)) {
            (Err(e), None) => e@ == VmErrV::NoInitialDict && *final(vm) == *old(vm),
            (_, Some(initial)) => {
                &&& final(vm).segments.num_segments == old(vm).segments.num_segments + 1
                &&& final(vm).memory.data@.len() == old(vm).memory.data@.len() + 1
                &&& match (r, new_dict_outcome(old(vm), initial, None)) {
                    (Ok(_), Ok(t)) => final(vm).memory@ == t.0 && final(vm).dict_manager.trackers@
                        == t.1,
                    (Err(e), Err(e2)) => e@ == e2 && final(vm).memory@ == old(vm).memory@
                        && final(vm).dict_manager.trackers@
                        == old(vm).dict_manager.trackers@.insert(
                        old(vm).segments.num_segments as int,
                        TrackerView {
                            ptr: (old(vm).segments.num_segments as int, 0int),
                            data: initial,
                            default: None,
                        },
                    ),
                    _ => false,
                }
            },
            (Ok(_), None) => false,
        },
{
    let initial_dict = match copy_initial_dict(&vm.exec_scopes) {
        Some(kv) => kv,
        None => {
            return Err(VirtualMachineError::NoInitialDict);
        },
    };
    let base = vm.segments.add(&mut vm.memory, None);
    let tracker = DictTracker::new_with_initial(&base, initial_dict);
    vm.dict_manager.trackers.insert(base.segment_index, tracker);
    insert_value_into_ap(
        &mut vm.memory,
        &vm.run_context,
        MaybeRelocatable::RelocatableValue(base),
    )
}

/// Allocates a dictionary segment with a default value and its tracker and
/// writes the base at ap. An initial dictionary in the active scope is taken
/// up; without one the dictionary starts empty.
pub fn default_dict_new(
    vm: &mut VirtualMachine,
    ids: &Ids,
    hint_ap_tracking: Option<&ApTracking>,
) -> (r: Result<(), VirtualMachineError>)
    requires
        (old(vm).segments.num_segments as int) < (i64::MAX as int),
        old(vm).segments.num_segments < usize::MAX,
    ensures
        same_but_hint_effects(old(vm), final(vm)),
        final(vm).exec_scopes == old(vm).exec_scopes,
        old(vm).memory.wf() ==> final(vm).memory.wf(),
        ({
            let dv = var_int_spec(
                "default_value"@,
                ids@,
                old(vm).references@,
                old(vm).run_context@,
                old(vm).memory@,
                tracking_view(hint_ap_tracking),
            );
            let initial = match copy_initial_dict_spec(&old(vm).exec_scopes) {
                Some(d) => d,
                None => Map::<int, int>::empty(),
            };
            match (r, dv) {
                (Err(e), Err(e2)) => e@ == e2 && *final(vm) == *old(vm),
                (_, Ok(d)) => {
                    &&& final(vm).segments.num_segments == old(vm).segments.num_segments + 1
                    &&& final(vm).memory.data@.len() == old(vm).memory.data@.len() + 1
                    &&& match (r, new_dict_outcome(old(vm), initial, Some(d))) {
                        (Ok(_), Ok(t)) => final(vm).memory@ == t.0
                            && final(vm).dict_manager.trackers@ == t.1,
                        (Err(e), Err(e2)) => e@ == e2 && final(vm).memory@ == old(vm).memory@
                            && final(vm).dict_manager.trackers@
                            == old(vm).dict_manager.trackers@.insert(
                            old(vm).segments.num_segments as int,
                            TrackerView {
                                ptr: (old(vm).segments.num_segments as int, 0int),
                                data: initial,
                                default: Some(d),
                            },
                        ),
                        _ => false,
                    }
                },
                (Ok(_), Err(_)) => false,
            }
        }),
{
    let default_value = match get_integer_from_var_name(
        "default_value",
        ids,
        &vm.memory,
        &vm.run_context,
        &vm.references,
        hint_ap_tracking,
    ) {
        Ok(b) => b,
        Err(e) => {
            return Err(e);
        },
    };
    let initial_dict = copy_initial_dict(&vm.exec_scopes);
    let base = vm.segments.add(&mut vm.memory, None);
    let tracker = DictTracker::new_default_dict(&base, &default_value, initial_dict);
    vm.dict_manager.trackers.insert(base.segment_index, tracker);
    insert_value_into_ap(
        &mut vm.memory,
        &vm.run_context,
        MaybeRelocatable::RelocatableValue(base),
    )
}

/// What a dictionary read does: the tracker named by `dict_ptr` advances one
/// record and the value of `key` is written into `ids.value`.
pub open spec fn dict_read_spec(
    ids: Seq<(String, usize)>,
    vm: &VirtualMachine,
    ht: Option<(int, int)>,
) -> Result<(Map<(int, int), MrVal>, Map<int, TrackerView>), VmErrV> {
    let c = vm.run_context@;
    let m = vm.memory@;
    let refs = vm.references@;
    let dm = vm.dict_manager.trackers@;
    match var_int_spec("key"@, ids, refs, c, m, ht) {
        Err(e) => Err(e),
        Ok(key) => match var_ptr_spec("dict_ptr"@, ids, refs, c, m, ht) {
            Err(e) => Err(e),
            Ok(ptr) => match get_tracker_spec(dm, ptr) {
                Err(e) => Err(e),
                Ok(t) => if ptr.1 + 3 > usize::MAX as int {
                    Err(VmErrV::OffsetExceeded)
                } else {
                    match crate::dict_manager::tracker_get(t, key) {
                        None => Err(VmErrV::NoValueForKey(key)),
                        Some(val) => match crate::hint_utils::var_addr_spec(
                            "value"@,
                            ids,
                            refs,
                            c,
                            m,
                            ht,
                        ) {
                            Err(e) => Err(e),
                            Ok(a) => match mem_insert_spec(
                                m,
                                vm.memory.data@.len() as int,
                                MrVal::Rel(a.0, a.1),
                                MrVal::Int(val),
                            ) {
                                Ok(m2) => Ok((m2, dm.insert(ptr.0, advanced(t)))),
                                Err(me) => Err(VmErrV::MemoryError(me)),
                            },
                        },
                    }
                },
            },
        },
    }
}

/// Reads `ids.key` from the dictionary `ids.dict_ptr` names: advances the
/// tracker one record and writes the value into `ids.value`.
pub fn dict_read(vm: &mut VirtualMachine, ids: &Ids, hint_ap_tracking: Option<&ApTracking>) -> (r:
    Result<(), VirtualMachineError>)
    ensures
        same_but_hint_effects(old(vm), final(vm)),
        final(vm).exec_scopes == old(vm).exec_scopes,
        final(vm).segments == old(vm).segments,
        final(vm).memory.data@.len() == old(vm).memory.data@.len(),
        match r {
            Ok(_) => dict_read_spec(ids@, old(vm), tracking_view(hint_ap_tracking)) matches Ok(t2)
                && final(vm).memory@ == t2.0 && final(vm).dict_manager.trackers@ == t2.1,
            Err(e) => dict_read_spec(ids@, old(vm), tracking_view(hint_ap_tracking))
                matches Err(e2) && e@ == e2 && *final(vm) == *old(vm),
        },
{
    let key = match get_integer_from_var_name(
        "key",
        ids,
        &vm.memory,
        &vm.run_context,
        &vm.references,
        hint_ap_tracking,
    ) {
        Ok(b) => b,
        Err(e) => {
            return Err(e);
        },
    };
    let dict_ptr = match get_ptr_from_var_name(
        "dict_ptr",
        ids,
        &vm.memory,
        &vm.run_context,
        &vm.references,
        hint_ap_tracking,
    ) {
        Ok(p) => p,
        Err(e) => {
            return Err(e);
        },
    };
    let (value, new_tracker) = {
        let tracker = match vm.dict_manager.get_tracker(&dict_ptr) {
            Ok(t) => t,
            Err(e) => {
                return Err(e);
            },
        };
        let new_ptr = match dict_ptr.add_offset(DICT_ACCESS_SIZE) {
            Ok(a) => a,
            Err(e) => {
                return Err(e);
            },
        };
        let value = match tracker.get_value(&key) {
            Ok(v) => v,
            Err(e) => {
                return Err(e);
            },
        };
        (value, DictTracker { current_ptr: new_ptr, data: tracker.data.duplicate() })
    };
    match insert_value_from_var_name(
        "value",
        MaybeRelocatable::Int(value),
        ids,
        &mut vm.memory,
        &vm.run_context,
        &vm.references,
        hint_ap_tracking,
    ) {
        Ok(_) => (),
        Err(e) => {
            return Err(e);
        },
    }
    vm.dict_manager.trackers.insert(dict_ptr.segment_index, new_tracker);
    Ok(())
}

/// The access stride of a read: after a successful dictionary read, the
/// pointer of the tracker named by `ids.dict_ptr` has moved forward by
/// exactly one access record of three cells.
pub proof fn lemma_dict_read_advances_one_record(
    ids: Seq<(String, usize)>,
    vm: &VirtualMachine,
    ht: Option<(int, int)>,
)
    requires
        dict_read_spec(ids, vm, ht) is Ok,
    ensures
        ({
            let ptr = var_ptr_spec(
                "dict_ptr"@,
                ids,
                vm.references@,
                vm.run_context@,
                vm.memory@,
                ht,
            )->Ok_0;
            let dm2 = (dict_read_spec(ids, vm, ht)->Ok_0).1;
            &&& vm.dict_manager.trackers@[ptr.0].ptr == ptr
            &&& dm2[ptr.0].ptr == (ptr.0, ptr.1 + 3)
        }),
{
}

/// What a dictionary write does: the previous value of `key` lands in the
/// access record's second cell, the dictionary takes the new value, and the
/// tracker advances one record.
pub open spec fn dict_write_spec(
    ids: Seq<(String, usize)>,
    vm: &VirtualMachine,
    ht: Option<(int, int)>,
) -> Result<(Map<(int, int), MrVal>, Map<int, TrackerView>), VmErrV> {
    let c = vm.run_context@;
    let m = vm.memory@;
    let refs = vm.references@;
    let dm = vm.dict_manager.trackers@;
    match var_int_spec("key"@, ids, refs, c, m, ht) {
        Err(e) => Err(e),
        Ok(key) => match var_int_spec("new_value"@, ids, refs, c, m, ht) {
            Err(e) => Err(e),
            Ok(newv) => match var_ptr_spec("dict_ptr"@, ids, refs, c, m, ht) {
                Err(e) => Err(e),
                Ok(ptr) => match get_tracker_spec(dm, ptr) {
                    Err(e) => Err(e),
                    Ok(t) => if ptr.1 + 3 > usize::MAX as int {
                        Err(VmErrV::OffsetExceeded)
                    } else {
                        match crate::dict_manager::tracker_get(t, key) {
                            None => Err(VmErrV::NoValueForKey(key)),
                            Some(prev) => match mem_insert_spec(
                                m,
                                vm.memory.data@.len() as int,
                                MrVal::Rel(ptr.0, ptr.1 + 1),
                                MrVal::Int(prev),
                            ) {
                                Err(me) => Err(VmErrV::MemoryError(me)),
                                Ok(m2) => Ok(
                                    (
                                        m2,
                                        dm.insert(
                                            ptr.0,
                                            TrackerView {
                                                ptr: (ptr.0, ptr.1 + 3),
                                                data: t.data.insert(key, newv),
                                                default: t.default,
                                            },
                                        ),
                                    ),
                                ),
                            },
                        }
                    },
                },
            },
        },
    }
}

/// Writes `ids.new_value` under `ids.key` in the dictionary `ids.dict_ptr`
/// names: stores the previous value into the access record's second cell and
/// advances the tracker one record.
pub fn dict_write(vm: &mut VirtualMachine, ids: &Ids, hint_ap_tracking: Option<&ApTracking>) -> (r:
    Result<(), VirtualMachineError>)
    ensures
        same_but_hint_effects(old(vm), final(vm)),
        final(vm).exec_scopes == old(vm).exec_scopes,
        final(vm).segments == old(vm).segments,
        final(vm).memory.data@.len() == old(vm).memory.data@.len(),
        match r {
            Ok(_) => dict_write_spec(ids@, old(vm), tracking_view(hint_ap_tracking))
                matches Ok(t2) && final(vm).memory@ == t2.0 && final(vm).dict_manager.trackers@
                == t2.1,
            Err(e) => dict_write_spec(ids@, old(vm), tracking_view(hint_ap_tracking))
                matches Err(e2) && e@ == e2 && *final(vm) == *old(vm),
        },
{
    let key = match get_integer_from_var_name(
        "key",
        ids,
        &vm.memory,
        &vm.run_context,
        &vm.references,
        hint_ap_tracking,
    ) {
        Ok(b) => b,
        Err(e) => {
            return Err(e);
        },
    };
    let new_value = match get_integer_from_var_name(
        "new_value",
        ids,
        &vm.memory,
        &vm.run_context,
        &vm.references,
        hint_ap_tracking,
    ) {
        Ok(b) => b,
        Err(e) => {
            return Err(e);
        },
    };
    let dict_ptr = match get_ptr_from_var_name(
        "dict_ptr",
        ids,
        &vm.memory,
        &vm.run_context,
        &vm.references,
        hint_ap_tracking,
    ) {
        Ok(p) => p,
        Err(e) => {
            return Err(e);
        },
    };
    let (prev_value, new_tracker) = {
        let tracker = match vm.dict_manager.get_tracker(&dict_ptr) {
            Ok(t) => t,
            Err(e) => {
                return Err(e);
            },
        };
        let new_ptr = match dict_ptr.add_offset(DICT_ACCESS_SIZE) {
            Ok(a) => a,
            Err(e) => {
                return Err(e);
            },
        };
        let prev_value = match tracker.get_value(&key) {
            Ok(v) => v,
            Err(e) => {
                return Err(e);
            },
        };
        let mut new_tracker = DictTracker {
            current_ptr: new_ptr,
            data: tracker.data.duplicate(),
        };
        new_tracker.insert_value(&key, &new_value);
        (prev_value, new_tracker)
    };
    // the access record's second cell holds the previous value
    let prev_cell = match dict_ptr.add_offset(1) {
        Ok(a) => a,
        Err(e) => {
            return Err(e);
        },
    };
    match vm.memory.insert(
        &MaybeRelocatable::RelocatableValue(prev_cell),
        &MaybeRelocatable::Int(prev_value),
    ) {
        Ok(_) => (),
        Err(e) => {
            return Err(VirtualMachineError::MemoryError(e));
        },
    }
    vm.dict_manager.trackers.insert(dict_ptr.segment_index, new_tracker);
    Ok(())
}

/// The access stride of a write: after a successful dictionary write, the
/// pointer of the tracker named by `ids.dict_ptr` has moved forward by
/// exactly one access record of three cells.
pub proof fn lemma_dict_write_advances_one_record(
    ids: Seq<(String, usize)>,
    vm: &VirtualMachine,
    ht: Option<(int, int)>,
)
    requires
        dict_write_spec(ids, vm, ht) is Ok,
    ensures
        ({
            let ptr = var_ptr_spec(
                "dict_ptr"@,
                ids,
                vm.references@,
                vm.run_context@,
                vm.memory@,
                ht,
            )->Ok_0;
            let dm2 = (dict_write_spec(ids, vm, ht)->Ok_0).1;
            &&& vm.dict_manager.trackers@[ptr.0].ptr == ptr
            &&& dm2[ptr.0].ptr == (ptr.0, ptr.1 + 3)
        }),
{
}

/// What a dictionary update does: the claimed previous value must be the
/// current one; the dictionary takes the new value and the tracker advances
/// one record. Memory is untouched.
pub open spec fn dict_update_spec(
    ids: Seq<(String, usize)>,
    vm: &VirtualMachine,
    ht: Option<(int, int)>,
) -> Result<Map<int, TrackerView>, VmErrV> {
    let c = vm.run_context@;
    let m = vm.memory@;
    let refs = vm.references@;
    let dm = vm.dict_manager.trackers@;
    match var_int_spec("key"@, ids, refs, c, m, ht) {
        Err(e) => Err(e),
        Ok(key) => match var_int_spec("prev_value"@, ids, refs, c, m, ht) {
            Err(e) => Err(e),
            Ok(prev) => match var_int_spec("new_value"@, ids, refs, c, m, ht) {
                Err(e) => Err(e),
                Ok(newv) => match var_ptr_spec("dict_ptr"@, ids, refs, c, m, ht) {
                    Err(e) => Err(e),
                    Ok(ptr) => match get_tracker_spec(dm, ptr) {
                        Err(e) => Err(e),
                        Ok(t) => match crate::dict_manager::tracker_get(t, key) {
                            None => Err(VmErrV::NoValueForKey(key)),
                            Some(current) => if current != prev {
                                Err(VmErrV::WrongPrevValue(prev, current, key))
                            } else if ptr.1 + 3 > usize::MAX as int {
                                Err(VmErrV::OffsetExceeded)
                            } else {
                                Ok(
                                    dm.insert(
                                        ptr.0,
                                        TrackerView {
                                            ptr: (ptr.0, ptr.1 + 3),
                                            data: t.data.insert(key, newv),
                                            default: t.default,
                                        },
                                    ),
                                )
                            },
                        },
                    },
                },
            },
        },
    }
}

/// Updates `ids.key` to `ids.new_value` in the dictionary `ids.dict_ptr`
/// names, after checking that `ids.prev_value` is the value currently held;
/// a wrong previous value is refused and leaves the tracker unchanged.
pub fn dict_update(vm: &mut VirtualMachine, ids: &Ids, hint_ap_tracking: Option<&ApTracking>) -> (r:
    Result<(), VirtualMachineError>)
    ensures
        same_but_hint_effects(old(vm), final(vm)),
        final(vm).exec_scopes == old(vm).exec_scopes,
        final(vm).segments == old(vm).segments,
        final(vm).memory == old(vm).memory,
        match r {
            Ok(_) => dict_update_spec(ids@, old(vm), tracking_view(hint_ap_tracking))
                matches Ok(dm2) && final(vm).dict_manager.trackers@ == dm2,
            Err(e) => dict_update_spec(ids@, old(vm), tracking_view(hint_ap_tracking))
                matches Err(e2) && e@ == e2 && *final(vm) == *old(vm),
        },
{
    let key = match get_integer_from_var_name(
        "key",
        ids,
        &vm.memory,
        &vm.run_context,
        &vm.references,
        hint_ap_tracking,
    ) {
        Ok(b) => b,
        Err(e) => {
            return Err(e);
        },
    };
    let prev_value = match get_integer_from_var_name(
        "prev_value",
        ids,
        &vm.memory,
        &vm.run_context,
        &vm.references,
        hint_ap_tracking,
    ) {
        Ok(b) => b,
        Err(e) => {
            return Err(e);
        },
    };
    let new_value = match get_integer_from_var_name(
        "new_value",
        ids,
        &vm.memory,
        &vm.run_context,
        &vm.references,
        hint_ap_tracking,
    ) {
        Ok(b) => b,
        Err(e) => {
            return Err(e);
        },
    };
    let dict_ptr = match get_ptr_from_var_name(
        "dict_ptr",
        ids,
        &vm.memory,
        &vm.run_context,
        &vm.references,
        hint_ap_tracking,
    ) {
        Ok(p) => p,
        Err(e) => {
            return Err(e);
        },
    };
    let new_tracker = {
        let tracker = match vm.dict_manager.get_tracker(&dict_ptr) {
            Ok(t) => t,
            Err(e) => {
                return Err(e);
            },
        };
        let current_value = match tracker.get_value(&key) {
            Ok(v) => v,
            Err(e) => {
                return Err(e);
            },
        };
        if !current_value.eq(&prev_value) {
            return Err(
                VirtualMachineError::WrongPrevValue(prev_value, current_value, key),
            );
        }
        let new_ptr = match dict_ptr.add_offset(DICT_ACCESS_SIZE) {
            Ok(a) => a,
            Err(e) => {
                return Err(e);
            },
        };
        let mut new_tracker = DictTracker {
            current_ptr: new_ptr,
            data: tracker.data.duplicate(),
        };
        new_tracker.insert_value(&key, &new_value);
        new_tracker
    };
    vm.dict_manager.trackers.insert(dict_ptr.segment_index, new_tracker);
    Ok(())
}

/// The access stride of an update: after a successful dictionary update, the
/// pointer of the tracker named by `ids.dict_ptr` has moved forward by
/// exactly one access record of three cells.
pub proof fn lemma_dict_update_advances_one_record(
    ids: Seq<(String, usize)>,
    vm: &VirtualMachine,
    ht: Option<(int, int)>,
)
    requires
        dict_update_spec(ids, vm, ht) is Ok,
    ensures
        ({
            let ptr = var_ptr_spec(
                "dict_ptr"@,
                ids,
                vm.references@,
                vm.run_context@,
                vm.memory@,
                ht,
            )->Ok_0;
            let dm2 = dict_update_spec(ids, vm, ht)->Ok_0;
            &&& vm.dict_manager.trackers@[ptr.0].ptr == ptr
            &&& dm2[ptr.0].ptr == (ptr.0, ptr.1 + 3)
        }),
{
}

/// What preparing a squash does: a fresh scope holding a copy of the
/// dictionary the tracker for `dict_accesses_end` holds, under the name an
/// allocation hint reads.
pub open spec fn dict_squash_copy_dict_spec(
    ids: Seq<(String, usize)>,
    vm: &VirtualMachine,
    ht: Option<(int, int)>,
) -> Result<Map<int, int>, VmErrV> {
    match var_ptr_spec(
        "dict_accesses_end"@,
        ids,
        vm.references@,
        vm.run_context@,
        vm.memory@,
        ht,
    ) {
        Err(e) => Err(e),
        Ok(ptr) => match get_tracker_spec(vm.dict_manager.trackers@, ptr) {
            Err(e) => Err(e),
            Ok(t) => Ok(t.data),
        },
    }
}

/// Enters a scope holding a copy of the dictionary whose tracker
/// `ids.dict_accesses_end` names, so that a later allocation hint starts the
/// squashed dictionary from the same bindings.
pub fn dict_squash_copy_dict(
    vm: &mut VirtualMachine,
    ids: &Ids,
    hint_ap_tracking: Option<&ApTracking>,
) -> (r: Result<(), VirtualMachineError>)
    ensures
        same_but_hint_effects(old(vm), final(vm)),
        final(vm).memory == old(vm).memory,
        final(vm).dict_manager == old(vm).dict_manager,
        final(vm).segments == old(vm).segments,
        match r {
            Ok(_) => dict_squash_copy_dict_spec(ids@, old(vm), tracking_view(hint_ap_tracking))
                matches Ok(d) && final(vm).exec_scopes.data@.len() == old(
                vm,
            ).exec_scopes.data@.len() + 1 && final(vm).exec_scopes.data@.drop_last() == old(
                vm,
            ).exec_scopes.data@ && final(vm).exec_scopes.data@.last()@ == Map::<
                Seq<char>,
                ScopeValV,
            >::empty().insert("initial_dict"@, ScopeValV::Dictionary(d)),
            Err(e) => dict_squash_copy_dict_spec(ids@, old(vm), tracking_view(hint_ap_tracking))
                matches Err(e2) && e@ == e2 && *final(vm) == *old(vm),
        },
{
    let dict_accesses_end = match get_ptr_from_var_name(
        "dict_accesses_end",
        ids,
        &vm.memory,
        &vm.run_context,
        &vm.references,
        hint_ap_tracking,
    ) {
        Ok(p) => p,
        Err(e) => {
            return Err(e);
        },
    };
    let dict_copy = match vm.dict_manager.get_tracker(&dict_accesses_end) {
        Ok(t) => t.get_dictionary_copy(),
        Err(e) => {
            return Err(e);
        },
    };
    let mut frame = VarMap::new();
    frame.insert("initial_dict", PyValueType::Dictionary(dict_copy));
    vm.exec_scopes.enter_scope(frame);
    proof {
        assert(final(vm).exec_scopes.data@.drop_last() =~= old(vm).exec_scopes.data@);
    }
    Ok(())
}

/// What closing a squash does: the tracker whose pointer is
/// `squashed_dict_start` is retargeted to `squashed_dict_end`.
pub open spec fn dict_squash_update_ptr_spec(
    ids: Seq<(String, usize)>,
    vm: &VirtualMachine,
    ht: Option<(int, int)>,
) -> Result<Map<int, TrackerView>, VmErrV> {
    let c = vm.run_context@;
    let m = vm.memory@;
    let refs = vm.references@;
    let dm = vm.dict_manager.trackers@;
    match var_ptr_spec("squashed_dict_start"@, ids, refs, c, m, ht) {
        Err(e) => Err(e),
        Ok(start) => match var_ptr_spec("squashed_dict_end"@, ids, refs, c, m, ht) {
            Err(e) => Err(e),
            Ok(end) => match get_tracker_spec(dm, start) {
                Err(e) => Err(e),
                Ok(t) => Ok(
                    dm.insert(
                        start.0,
                        TrackerView { ptr: end, data: t.data, default: t.default },
                    ),
                ),
            },
        },
    }
}

/// Moves the tracker whose pointer is `ids.squashed_dict_start` to point at
/// `ids.squashed_dict_end`, the end of the squashed dictionary.
pub fn dict_squash_update_ptr(
    vm: &mut VirtualMachine,
    ids: &Ids,
    hint_ap_tracking: Option<&ApTracking>,
) -> (r: Result<(), VirtualMachineError>)
    ensures
        same_but_hint_effects(old(vm), final(vm)),
        final(vm).exec_scopes == old(vm).exec_scopes,
        final(vm).segments == old(vm).segments,
        final(vm).memory == old(vm).memory,
        match r {
            Ok(_) => dict_squash_update_ptr_spec(ids@, old(vm), tracking_view(hint_ap_tracking))
                matches Ok(dm2) && final(vm).dict_manager.trackers@ == dm2,
            Err(e) => dict_squash_update_ptr_spec(ids@, old(vm), tracking_view(hint_ap_tracking))
                matches Err(e2) && e@ == e2 && *final(vm) == *old(vm),
        },
{
    let squashed_dict_start = match get_ptr_from_var_name(
        "squashed_dict_start",
        ids,
        &vm.memory,
        &vm.run_context,
        &vm.references,
        hint_ap_tracking,
    ) {
        Ok(p) => p,
        Err(e) => {
            return Err(e);
        },
    };
    let squashed_dict_end = match get_ptr_from_var_name(
        "squashed_dict_end",
        ids,
        &vm.memory,
        &vm.run_context,
        &vm.references,
        hint_ap_tracking,
    ) {
        Ok(p) => p,
        Err(e) => {
            return Err(e);
        },
    };
    let new_tracker = {
        let tracker = match vm.dict_manager.get_tracker(&squashed_dict_start) {
            Ok(t) => t,
            Err(e) => {
                return Err(e);
            },
        };
        DictTracker { current_ptr: squashed_dict_end, data: tracker.data.duplicate() }
    };
    vm.dict_manager.trackers.insert(squashed_dict_start.segment_index, new_tracker);
    Ok(())
}

} // verus!
