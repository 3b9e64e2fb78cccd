//! Hint variable resolution: compiled references, ap-tracking correction,
//! and the readers and writers hints use to reach `ids.NAME`.
use vstd::prelude::*;

verus! {

use num_bigint::BigInt;
use crate::bigint_ops::big_val;
use crate::errors::{VirtualMachineError, VmErrV};
use crate::exec_scope::str_eq;
use crate::instruction::Register;
use crate::memory::Memory;
use crate::relocatable::{MaybeRelocatable, MrVal, Relocatable};
use crate::run_context::{CtxView, RunContext};

/// The compiler's ap-tracking record: a group and the ap offset within it.
#[derive(Clone, Copy, Debug, PartialEq, Eq, Structural)]
pub struct ApTracking {
    pub group: usize,
    pub offset: usize,
}

impl ApTracking {
    /// Tracking at the start of the first group.
    pub fn new() -> (r: ApTracking)
        ensures
            r.group == 0 && r.offset == 0,
    {
        ApTracking { group: 0, offset: 0 }
    }
}

/// A compiled reference: how a hint variable's slot is found from a register.
/// The hints of this machine all read dereferenced, non-immediate variables,
/// so resolution here serves exactly those; the `dereference` and `immediate`
/// fields carry the compiled record whole.
#[derive(Clone, Debug, PartialEq, Eq)]
pub struct HintReference {
    pub register: Register,
    pub offset1: i32,
    pub offset2: i32,
    pub dereference: bool,
    pub inner_dereference: bool,
    pub ap_tracking_data: Option<ApTracking>,
    pub immediate: Option<BigInt>,
}

impl HintReference {
    /// A plain fp-relative reference with one offset.
    pub fn new_simple(offset1: i32) -> (r: HintReference)
        ensures
            r.register == Register::FP,
            r.offset1 == offset1,
            r.offset2 == 0,
            r.dereference,
            !r.inner_dereference,
            r.ap_tracking_data is None,
            r.immediate is None,
    {
        HintReference {
            register: Register::FP,
            offset1,
            offset2: 0,
            dereference: true,
            inner_dereference: false,
            ap_tracking_data: None,
            immediate: None,
        }
    }
}

/// Ghost model of a reference.
pub ghost struct RefView {
    pub register: Register,
    pub offset1: int,
    pub offset2: int,
    pub inner_dereference: bool,
    pub ap_tracking: Option<(int, int)>,
}

impl View for HintReference {
    type V = RefView;

    open spec fn view(&self) -> RefView {
        RefView {
            register: self.register,
            offset1: self.offset1 as int,
            offset2: self.offset2 as int,
            inner_dereference: self.inner_dereference,
            ap_tracking: match self.ap_tracking_data {
                Some(t) => Some((t.group as int, t.offset as int)),
                None => None,
            },
        }
    }
}

/// The base address a reference starts from: the chosen register, which must
/// hold an address; an ap-relative reference is corrected by the ap movement
/// between the reference's tracking point and the hint's, within one group.
pub open spec fn ref_base_spec(r: RefView, c: CtxView, hint_tracking: Option<(int, int)>) -> Result<
    (int, int),
    VmErrV,
> {
    match r.register {
        Register::FP => match c.fp {
            MrVal::Rel(s, o) => Ok((s, o)),
            _ => Err(VmErrV::FailedToGetIds),
        },
        Register::AP => match c.ap {
            MrVal::Rel(s, o) => match (r.ap_tracking, hint_tracking) {
                (Some((rg, ro)), Some((hg, ho))) => if rg != hg {
                    Err(VmErrV::FailedToGetIds)
                } else if 0 <= o - (ho - ro) <= usize::MAX as int {
                    Ok((s, o - (ho - ro)))
                } else {
                    Err(VmErrV::FailedToGetIds)
                },
                _ => Ok((s, o)),
            },
            _ => Err(VmErrV::FailedToGetIds),
        },
    }
}

/// The address a reference resolves to: the corrected base shifted by the
/// first offset, read through once when the reference says so, then shifted
/// by the second offset.
pub open spec fn ref_addr_spec(
    r: RefView,
    c: CtxView,
    m: Map<(int, int), MrVal>,
    hint_tracking: Option<(int, int)>,
) -> Result<(int, int), VmErrV> {
    match ref_base_spec(r, c, hint_tracking) {
        Err(e) => Err(e),
        Ok((s, o)) => if !(0 <= o + r.offset1 <= usize::MAX as int) {
            Err(VmErrV::FailedToGetIds)
        } else {
            let a1 = (s, o + r.offset1);
            match (if r.inner_dereference {
                match mget(m, MrVal::Rel(a1.0, a1.1)) {
                    Some(MrVal::Rel(s2, o2)) => Ok((s2, o2)),
                    _ => Err(VmErrV::ExpectedRelocatable(MrVal::Rel(a1.0, a1.1))),
                }
            } else {
                Ok(a1)
            }) {
                Err(e) => Err(e),
                Ok((s3, o3)) => if 0 <= o3 + r.offset2 <= usize::MAX as int {
                    Ok((s3, o3 + r.offset2))
                } else {
                    Err(VmErrV::FailedToGetIds)
                },
            }
        },
    }
}

/// What the memory answers at an address (shared with the step model).
pub open spec fn mget(m: Map<(int, int), MrVal>, a: MrVal) -> Option<MrVal> {
    match a {
        MrVal::Rel(s, o) => if m.dom().contains((s, o)) {
            Some(m[(s, o)])
        } else {
            None
        },
        MrVal::Int(_) => None,
    }
}

/// Looks a name up among the hint's variable ids.
pub open spec fn ids_lookup(s: Seq<(Seq<char>, int)>, n: Seq<char>) -> Option<int>
    decreases s.len(),
{
    if s.len() == 0 {
        None
    } else if s[0].0 == n {
        Some(s[0].1)
    } else {
        ids_lookup(s.drop_first(), n)
    }
}

/// An id whose name matches nothing before it is the one found.
proof fn lemma_ids_found(s: Seq<(Seq<char>, int)>, n: Seq<char>, i: int)
    requires
        0 <= i < s.len(),
        s[i].0 == n,
        forall|j: int| 0 <= j < i ==> s[j].0 != n,
    ensures
        ids_lookup(s, n) == Some(s[i].1),
    decreases i,
{
    if i > 0 {
        lemma_ids_found(s.drop_first(), n, i - 1);
    }
}

/// A name no id carries is not found.
proof fn lemma_ids_absent(s: Seq<(Seq<char>, int)>, n: Seq<char>)
    requires
        forall|j: int| 0 <= j < s.len() ==> s[j].0 != n,
    ensures
        ids_lookup(s, n) is None,
    decreases s.len(),
{
    if s.len() > 0 {
        lemma_ids_absent(s.drop_first(), n);
    }
}

/// The hint's variable table: names to reference ids.
pub type Ids = Vec<(String, usize)>;

/// The ids table as a sequence of name/id models.
pub open spec fn ids_seq(ids: Seq<(String, usize)>) -> Seq<(Seq<char>, int)> {
    ids.map_values(|p: (String, usize)| (p.0@, p.1 as int))
}

/// The reference a hint variable names: its id looked up in the table, the
/// reference taken from the machine's table.
pub open spec fn var_ref_spec(ids: Seq<(String, usize)>, refs: Seq<HintReference>, n: Seq<char>)
    -> Result<RefView, VmErrV> {
    match ids_lookup(ids_seq(ids), n) {
        None => Err(VmErrV::FailedToGetIds),
        Some(id) => if 0 <= id < refs.len() {
            Ok(refs[id]@)
        } else {
            Err(VmErrV::FailedToGetIds)
        },
    }
}

/// Finds the reference for a hint variable name.
fn get_reference<'a>(
    name: &str,
    ids: &Ids,
    references: &'a Vec<HintReference>,
) -> (r: Result<&'a HintReference, VirtualMachineError>)
    ensures
        match r {
            Ok(hr) => var_ref_spec(ids@, references@, name@) matches Ok(rv) && hr@ == rv,
            Err(e) => var_ref_spec(ids@, references@, name@) matches Err(e2) && e@ == e2,
        },
{
    let ghost sq = ids_seq(ids@);
    let mut i: usize = 0;
    while i < ids.len()
        invariant
            i <= ids@.len(),
            sq == ids_seq(ids@),
            forall|j: int| 0 <= j < i ==> sq[j].0 != name@,
        decreases ids@.len() - i,
    {
        if str_eq(ids[i].0.as_str(), name) {
            proof {
                lemma_ids_found(sq, name@, i as int);
            }
            let id = ids[i].1;
            if id < references.len() {
                return Ok(&references[id]);
            } else {
                return Err(VirtualMachineError::FailedToGetIds);
            }
        }
        i = i + 1;
    }
    proof {
        lemma_ids_absent(sq, name@);
    }
    Err(VirtualMachineError::FailedToGetIds)
}

/// Resolves a reference to the address of its variable's cell.
pub fn compute_addr_from_reference(
    reference: &HintReference,
    memory: &Memory,
    run_context: &RunContext,
    hint_ap_tracking: Option<&ApTracking>,
) -> (r: Result<Relocatable, VirtualMachineError>)
    ensures
        match r {
            Ok(a) => ref_addr_spec(
                reference@,
                run_context@,
                memory@,
                tracking_view(hint_ap_tracking),
            ) matches Ok(av) && a@ == av,
            Err(e) => ref_addr_spec(
                reference@,
                run_context@,
                memory@,
                tracking_view(hint_ap_tracking),
            ) matches Err(e2) && e@ == e2,
        },
{
    let base = match reference.register {
        Register::FP => match &run_context.fp {
            MaybeRelocatable::RelocatableValue(rel) => *rel,
            _ => {
                return Err(VirtualMachineError::FailedToGetIds);
            },
        },
        Register::AP => {
            let rel = match &run_context.ap {
                MaybeRelocatable::RelocatableValue(rel) => *rel,
                _ => {
                    return Err(VirtualMachineError::FailedToGetIds);
                },
            };
            match (&reference.ap_tracking_data, hint_ap_tracking) {
                (Some(rt), Some(ht)) => {
                    if rt.group != ht.group {
                        return Err(VirtualMachineError::FailedToGetIds);
                    }
                    match shift_offset_tracked(rel, rt, ht) {
                        Some(a) => a,
                        None => {
                            return Err(VirtualMachineError::FailedToGetIds);
                        },
                    }
                },
                _ => rel,
            }
        },
    };
    let a1 = match shift_offset(base, reference.offset1) {
        Some(a) => a,
        None => {
            return Err(VirtualMachineError::FailedToGetIds);
        },
    };
    let a2 = if reference.inner_dereference {
        match memory.get_relocatable(&MaybeRelocatable::RelocatableValue(a1)) {
            Ok(inner) => inner,
            Err(e) => {
                return Err(e);
            },
        }
    } else {
        a1
    };
    match shift_offset(a2, reference.offset2) {
        Some(a) => Ok(a),
        None => Err(VirtualMachineError::FailedToGetIds),
    }
}

/// View of an optional tracking record.
pub open spec fn tracking_view(t: Option<&ApTracking>) -> Option<(int, int)> {
    match t {
        Some(a) => Some((a.group as int, a.offset as int)),
        None => None,
    }
}

/// Shifts an address by a signed word, within the machine's offset range.
fn shift_offset(base: Relocatable, off: i32) -> (r: Option<Relocatable>)
    ensures
        match r {
            Some(a) => 0 <= base@.1 + off <= usize::MAX as int && a@ == (base@.0, base@.1 + off),
            None => !(0 <= base@.1 + off <= usize::MAX as int),
        },
{
    if off >= 0 {
        match base.offset.checked_add(off as usize) {
            Some(o) => Some(Relocatable { segment_index: base.segment_index, offset: o }),
            None => None,
        }
    } else {
        let back = (-(off as i64)) as u64;
        if (base.offset as u64) >= back {
            Some(
                Relocatable {
                    segment_index: base.segment_index,
                    offset: (base.offset as u64 - back) as usize,
                },
            )
        } else {
            None
        }
    }
}

/// Applies the ap-tracking correction: the ap moved forward by the offset
/// difference since the reference was compiled.
fn shift_offset_tracked(base: Relocatable, rt: &ApTracking, ht: &ApTracking) -> (r: Option<
    Relocatable,
>)
    ensures
        ({
            let d = ht.offset - rt.offset;
            match r {
                Some(a) => 0 <= base@.1 - d <= usize::MAX as int && a@ == (base@.0, base@.1 - d),
                None => !(0 <= base@.1 - d <= usize::MAX as int),
            }
        }),

{
    if ht.offset >= rt.offset {
        let back = ht.offset - rt.offset;
        if base.offset >= back {
            Some(Relocatable { segment_index: base.segment_index, offset: base.offset - back })
        } else {
            None
        }
    } else {
        let fwd = rt.offset - ht.offset;
        match base.offset.checked_add(fwd) {
            Some(o) => Some(Relocatable { segment_index: base.segment_index, offset: o }),
            None => None,
        }
    }
}

/// The field element a hint variable's cell holds.
pub open spec fn var_int_spec(
    name: Seq<char>,
    ids: Seq<(String, usize)>,
    refs: Seq<HintReference>,
    c: CtxView,
    m: Map<(int, int), MrVal>,
    ht: Option<(int, int)>,
) -> Result<int, VmErrV> {
    match var_addr_spec(name, ids, refs, c, m, ht) {
        Err(e) => Err(e),
        Ok(a) => match mget(m, MrVal::Rel(a.0, a.1)) {
            Some(MrVal::Int(v)) => Ok(v),
            _ => Err(VmErrV::ExpectedInteger(MrVal::Rel(a.0, a.1))),
        },
    }
}

/// The address a hint variable's cell holds.
pub open spec fn var_ptr_spec(
    name: Seq<char>,
    ids: Seq<(String, usize)>,
    refs: Seq<HintReference>,
    c: CtxView,
    m: Map<(int, int), MrVal>,
    ht: Option<(int, int)>,
) -> Result<(int, int), VmErrV> {
    match var_addr_spec(name, ids, refs, c, m, ht) {
        Err(e) => Err(e),
        Ok(a) => match mget(m, MrVal::Rel(a.0, a.1)) {
            Some(MrVal::Rel(s, o)) => Ok((s, o)),
            _ => Err(VmErrV::ExpectedRelocatable(MrVal::Rel(a.0, a.1))),
        },
    }
}

/// The address of a hint variable: its reference resolved against the
/// current context.
pub open spec fn var_addr_spec(
    name: Seq<char>,
    ids: Seq<(String, usize)>,
    refs: Seq<HintReference>,
    c: CtxView,
    m: Map<(int, int), MrVal>,
    ht: Option<(int, int)>,
) -> Result<(int, int), VmErrV> {
    match var_ref_spec(ids, refs, name) {
        Err(e) => Err(e),
        Ok(rv) => ref_addr_spec(rv, c, m, ht),
    }
}

/// The address a hint variable's cell has.
pub fn get_relocatable_from_var_name(
    name: &str,
    ids: &Ids,
    memory: &Memory,
    run_context: &RunContext,
    references: &Vec<HintReference>,
    hint_ap_tracking: Option<&ApTracking>,
) -> (r: Result<Relocatable, VirtualMachineError>)
    ensures
        match r {
            Ok(a) => var_addr_spec(
                name@,
                ids@,
                references@,
                run_context@,
                memory@,
                tracking_view(hint_ap_tracking),
            ) matches Ok(av) && a@ == av,
            Err(e) => var_addr_spec(
                name@,
                ids@,
                references@,
                run_context@,
                memory@,
                tracking_view(hint_ap_tracking),
            ) matches Err(e2) && e@ == e2,
        },
{
    let reference = match get_reference(name, ids, references) {
        Ok(hr) => hr,
        Err(e) => {
            return Err(e);
        },
    };
    compute_addr_from_reference(reference, memory, run_context, hint_ap_tracking)
}

/// The field element a hint variable holds.
pub fn get_integer_from_var_name(
    name: &str,
    ids: &Ids,
    memory: &Memory,
    run_context: &RunContext,
    references: &Vec<HintReference>,
    hint_ap_tracking: Option<&ApTracking>,
) -> (r: Result<BigInt, VirtualMachineError>)
    ensures
        ({
            let iv = var_int_spec(
                name@,
                ids@,
                references@,
                run_context@,
                memory@,
                tracking_view(hint_ap_tracking),
            );
            match r {
                Ok(b) => iv matches Ok(v) && big_val(b) == v,
                Err(e) => iv matches Err(e2) && e@ == e2,
            }
        }),
{
    let addr = match get_relocatable_from_var_name(
        name,
        ids,
        memory,
        run_context,
        references,
        hint_ap_tracking,
    ) {
        Ok(a) => a,
        Err(e) => {
            return Err(e);
        },
    };
    memory.get_integer(&MaybeRelocatable::RelocatableValue(addr))
}

/// The address a hint variable points at: its cell read once.
pub fn get_ptr_from_var_name(
    name: &str,
    ids: &Ids,
    memory: &Memory,
    run_context: &RunContext,
    references: &Vec<HintReference>,
    hint_ap_tracking: Option<&ApTracking>,
) -> (r: Result<Relocatable, VirtualMachineError>)
    ensures
        ({
            let pv = var_ptr_spec(
                name@,
                ids@,
                references@,
                run_context@,
                memory@,
                tracking_view(hint_ap_tracking),
            );
            match r {
                Ok(p) => pv matches Ok(a) && p@ == a,
                Err(e) => pv matches Err(e2) && e@ == e2,
            }
        }),
{
    let addr = match get_relocatable_from_var_name(
        name,
        ids,
        memory,
        run_context,
        references,
        hint_ap_tracking,
    ) {
        Ok(a) => a,
        Err(e) => {
            return Err(e);
        },
    };
    memory.get_relocatable(&MaybeRelocatable::RelocatableValue(addr))
}

/// Writes a value into a hint variable's cell, subject to memory
/// consistency.
pub fn insert_value_from_var_name(
    name: &str,
    value: MaybeRelocatable,
    ids: &Ids,
    memory: &mut Memory,
    run_context: &RunContext,
    references: &Vec<HintReference>,
    hint_ap_tracking: Option<&ApTracking>,
) -> (r: Result<(), VirtualMachineError>)
    ensures
        ({
            let av = var_addr_spec(
                name@,
                ids@,
                references@,
                run_context@,
                old(memory)@,
                tracking_view(hint_ap_tracking),
            );
            match r {
                Ok(_) => av matches Ok(a) && crate::memory::mem_insert_spec(
                    old(memory)@,
                    old(memory).data@.len() as int,
                    MrVal::Rel(a.0, a.1),
                    value@,
                ) matches Ok(m2) && final(memory)@ == m2 && final(memory).data@.len() == old(
                    memory,
                ).data@.len(),
                Err(e) => match av {
                    Err(e2) => e@ == e2 && *final(memory) == *old(memory),
                    Ok(a) => crate::memory::mem_insert_spec(
                        old(memory)@,
                        old(memory).data@.len() as int,
                        MrVal::Rel(a.0, a.1),
                        value@,
                    ) matches Err(me) && e@ == VmErrV::MemoryError(me) && *final(memory) == *old(
                        memory,
                    ),
                },
            }
        }),
        old(memory).wf() && crate::relocatable::mrv_wf(value@) ==> final(memory).wf(),
{
    let addr = match get_relocatable_from_var_name(
        name,
        ids,
        memory,
        run_context,
        references,
        hint_ap_tracking,
    ) {
        Ok(a) => a,
        Err(e) => {
            return Err(e);
        },
    };
    match memory.insert(&MaybeRelocatable::RelocatableValue(addr), &value) {
        Ok(_) => Ok(()),
        Err(e) => Err(VirtualMachineError::MemoryError(e)),
    }
}

/// Writes a value at the allocation pointer, subject to memory consistency.
pub fn insert_value_into_ap(
    memory: &mut Memory,
    run_context: &RunContext,
    value: MaybeRelocatable,
) -> (r: Result<(), VirtualMachineError>)
    ensures
        match r {
            Ok(_) => crate::memory::mem_insert_spec(
                old(memory)@,
                old(memory).data@.len() as int,
                run_context.ap@,
                value@,
            ) matches Ok(m2) && final(memory)@ == m2 && final(memory).data@.len() == old(
                memory,
            ).data@.len(),
            Err(e) => crate::memory::mem_insert_spec(
                old(memory)@,
                old(memory).data@.len() as int,
                run_context.ap@,
                value@,
            ) matches Err(me) && e@ == VmErrV::MemoryError(me) && *final(memory) == *old(memory),
        },
        old(memory).wf() && crate::relocatable::mrv_wf(value@) ==> final(memory).wf(),
{
    match memory.insert(&run_context.ap, &value) {
        Ok(_) => Ok(()),
        Err(e) => Err(VirtualMachineError::MemoryError(e)),
    }
}

} // verus!
