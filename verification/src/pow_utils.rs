//! The pow helper hint: materializes the low bit of a previously stored
//! exponent into the next frame.
use vstd::prelude::*;

verus! {

use crate::bigint_ops::{big_val, big_from_u64, big_is_odd, big_mod_floor};
use crate::errors::{VirtualMachineError, VmErrV};
use crate::hint_utils::{ApTracking, get_relocatable_from_var_name, Ids, insert_value_from_var_name,
    mget, tracking_view, var_addr_spec};
use crate::memory::mem_insert_spec;
use crate::relocatable::{MaybeRelocatable, MrVal};
use crate::vm_core::{same_but_registers_and_memory, same_registers, VirtualMachine};

/// What the pow hint does to the memory: reads the exponent four cells past
/// `prev_locs`, and writes its low bit modulo the prime into `locs`.
pub open spec fn pow_spec(
    ids: Seq<(String, usize)>,
    vm: &VirtualMachine,
    ht: Option<(int, int)>,
) -> Result<Map<(int, int), MrVal>, VmErrV> {
    let c = vm.run_context@;
    let m = vm.memory@;
    match var_addr_spec("prev_locs"@, ids, vm.references@, c, m, ht) {
        Err(e) => Err(e),
        Ok(a) => if a.1 + 4 > usize::MAX as int {
            Err(VmErrV::OffsetExceeded)
        } else {
            match mget(m, MrVal::Rel(a.0, a.1 + 4)) {
                Some(MrVal::Int(exp)) => {
                    let bit = (exp % big_val(vm.prime)) % 2;
                    match var_addr_spec("locs"@, ids, vm.references@, c, m, ht) {
                        Err(e) => Err(e),
                        Ok(la) => match mem_insert_spec(
                            m,
                            vm.memory.data@.len() as int,
                            MrVal::Rel(la.0, la.1),
                            MrVal::Int(bit),
                        ) {
                            Ok(m2) => Ok(m2),
                            Err(me) => Err(VmErrV::MemoryError(me)),
                        },
                    }
                },
                _ => Err(VmErrV::ExpectedInteger(MrVal::Rel(a.0, a.1 + 4))),
            }
        },
    }
}

/// Extracts the low bit of the exponent stored four cells past `prev_locs`,
/// reduced modulo the prime, and writes it into `locs`.
pub fn pow(vm: &mut VirtualMachine, ids: &Ids, hint_ap_tracking: Option<&ApTracking>) -> (r:
    Result<(), VirtualMachineError>)
    requires
        old(vm).prime_wf(),
    ensures
        same_but_registers_and_memory(old(vm), final(vm)),
        same_registers(old(vm), final(vm)),
        final(vm).memory.data@.len() == old(vm).memory.data@.len(),
        old(vm).memory.wf() ==> final(vm).memory.wf(),
        match r {
            Ok(_) => pow_spec(ids@, old(vm), tracking_view(hint_ap_tracking)) matches Ok(m2)
                && final(vm).memory@ == m2,
            Err(e) => pow_spec(ids@, old(vm), tracking_view(hint_ap_tracking)) matches Err(e2)
                && e@ == e2 && *final(vm) == *old(vm),
        },
{
    let prev_locs_addr = match get_relocatable_from_var_name(
        "prev_locs",
        ids,
        &vm.memory,
        &vm.run_context,
        &vm.references,
        hint_ap_tracking,
    ) {
        Ok(a) => a,
        Err(e) => {
            return Err(e);
        },
    };
    let exp_addr = match prev_locs_addr.add_offset(4) {
        Ok(a) => a,
        Err(e) => {
            return Err(e);
        },
    };
    let prev_locs_exp = match vm.memory.get_integer(
        &MaybeRelocatable::RelocatableValue(exp_addr),
    ) {
        Ok(b) => b,
        Err(e) => {
            return Err(e);
        },
    };
    let reduced = big_mod_floor(&prev_locs_exp, &vm.prime);
    let locs_bit = if big_is_odd(&reduced) {
        big_from_u64(1)
    } else {
        big_from_u64(0)
    };
    insert_value_from_var_name(
        "locs",
        MaybeRelocatable::Int(locs_bit),
        ids,
        &mut vm.memory,
        &vm.run_context,
        &vm.references,
        hint_ap_tracking,
    )
}

} // verus!
