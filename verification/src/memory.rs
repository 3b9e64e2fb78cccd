//! Segmented write-once memory: a sparse mapping from relocatable addresses
//! to machine values. A cell, once written, can only be rewritten with the
//! same value.
use vstd::prelude::*;

verus! {

use num_bigint::BigInt;
use crate::bigint_ops::big_val;
use crate::relocatable::{MaybeRelocatable, Relocatable, MrVal, mrv_wf};
use crate::errors::{MemoryError, MemErrV, VirtualMachineError, VmErrV};
use vstd::map::*;

/// The memory: one sparse cell vector per segment.
pub struct Memory {
    pub data: Vec<Vec<Option<MaybeRelocatable>>>,
}

impl View for Memory {
    type V = Map<(int, int), MrVal>;

    /// The memory as a map from (segment, offset) to the value held there.
    open spec fn view(&self) -> Map<(int, int), MrVal> {
        Map::new(
            |k: (int, int)|
                0 <= k.0 < self.data@.len() && 0 <= k.1 < self.data@[k.0]@.len()
                    && self.data@[k.0]@[k.1] is Some,
            |k: (int, int)| self.data@[k.0]@[k.1].unwrap()@,
        )
    }
}

/// What one write does to the memory as a map: a field-element address is
/// refused; the segment must exist; an occupied cell only accepts the value
/// it already holds and keeps it otherwise; a free cell gains the binding.
pub open spec fn mem_insert_spec(
    m: Map<(int, int), MrVal>,
    nsegs: int,
    a: MrVal,
    v: MrVal,
) -> Result<Map<(int, int), MrVal>, MemErrV> {
    match a {
        MrVal::Int(_) => Err(MemErrV::AddressNotRelocatable),
        MrVal::Rel(s, o) => if !(0 <= s < nsegs) {
            Err(MemErrV::UnallocatedSegment(s, nsegs))
        } else if m.dom().contains((s, o)) {
            if m[(s, o)] == v {
                Ok(m)
            } else {
                Err(MemErrV::InconsistentMemory(a, m[(s, o)], v))
            }
        } else {
            Ok(m.insert((s, o), v))
        },
    }
}

/// Write-once law: after a value is first written at a free address, writing
/// a different value there fails as an inconsistency naming the address and
/// both values, and the cell keeps the value written first.
pub proof fn lemma_write_once(
    m: Map<(int, int), MrVal>,
    nsegs: int,
    s: int,
    o: int,
    v1: MrVal,
    v2: MrVal,
)
    requires
        v1 != v2,
        0 <= s < nsegs,
        !m.dom().contains((s, o)),
    ensures
        mem_insert_spec(m, nsegs, MrVal::Rel(s, o), v1) matches Ok(m1) && {
            &&& mem_insert_spec(m1, nsegs, MrVal::Rel(s, o), v2) == Err::<
                Map<(int, int), MrVal>,
                MemErrV,
            >(MemErrV::InconsistentMemory(MrVal::Rel(s, o), v1, v2))
            &&& m1[(s, o)] == v1
        },
{
}

impl Memory {
    /// Every integer held in memory is a nonnegative canonical residue.
    pub open spec fn wf(&self) -> bool {
        forall|k: (int, int)| self@.dom().contains(k) ==> mrv_wf(#[trigger] self@[k])
    }

    /// A fresh memory with no segments.
    pub fn new() -> (r: Memory)
        ensures
            r@ == Map::<(int, int), MrVal>::empty(),
            r.data@.len() == 0,
            r.wf(),
    {
        let m = Memory { data: Vec::new() };
        proof {
            assert(m@ =~= Map::<(int, int), MrVal>::empty());
        }
        m
    }

    /// Appends a fresh empty segment; no cell changes.
    pub fn add_segment(&mut self)
        ensures
            final(self)@ == old(self)@,
            final(self).data@.len() == old(self).data@.len() + 1,
            final(self).wf() == old(self).wf(),
    {
        self.data.push(Vec::new());
        proof {
            assert(self@ =~= old(self)@);
        }
    }

    /// Reads a cell; absent cells and non-relocatable addresses read as absent.
    pub fn get(&self, addr: &MaybeRelocatable) -> (r: Option<&MaybeRelocatable>)
        ensures
            match addr@ {
                MrVal::Rel(s, o) => if self@.dom().contains((s, o)) {
                    r is Some && r.unwrap()@ == self@[(s, o)]
                } else {
                    r is None
                },
                MrVal::Int(_) => r is None,
            },
    {
        match addr {
            MaybeRelocatable::RelocatableValue(rel) => {
                if rel.segment_index >= 0 && (rel.segment_index as u64) < self.data.len() as u64 {
                    let seg = &self.data[rel.segment_index as usize];
                    if rel.offset < seg.len() {
                        match &seg[rel.offset] {
                            Some(v) => Some(v),
                            None => None,
                        }
                    } else {
                        None
                    }
                } else {
                    None
                }
            },
            MaybeRelocatable::Int(_) => None,
        }
    }

    /// Writes a cell. A write to an occupied cell succeeds only with the value
    /// already held; a different value is an inconsistency and the cell keeps
    /// its old value. The segment must have been allocated.
    pub fn insert(&mut self, addr: &MaybeRelocatable, value: &MaybeRelocatable) -> (r: Result<
        (),
        MemoryError,
    >)
        ensures
            match r {
                Ok(_) => {
                    &&& mem_insert_spec(old(self)@, old(self).data@.len() as int, addr@, value@)
                        matches Ok(m2) && final(self)@ == m2
                    &&& final(self).data@.len() == old(self).data@.len()
                },
                Err(e) => mem_insert_spec(
                    old(self)@,
                    old(self).data@.len() as int,
                    addr@,
                    value@,
                ) matches Err(e2) && e@ == e2 && *final(self) == *old(self),
            },
            old(self).wf() && mrv_wf(value@) ==> final(self).wf(),
    {
        let rel = match addr {
            MaybeRelocatable::RelocatableValue(rel) => rel,
            MaybeRelocatable::Int(_) => {
                return Err(MemoryError::AddressNotRelocatable);
            },
        };
        if rel.segment_index < 0 {
            return Err(MemoryError::UnallocatedSegment(rel.segment_index, self.data.len()));
        }
        if rel.segment_index as u64 >= self.data.len() as u64 {
            return Err(MemoryError::UnallocatedSegment(rel.segment_index, self.data.len()));
        }
        let si = rel.segment_index as usize;
        let off = rel.offset;
        let ghost s = rel.segment_index as int;
        let ghost o = off as int;
        {
            let seg_ref = &self.data[si];
            if off < seg_ref.len() {
                match &seg_ref[off] {
                    Some(held) => {
                        proof {
                            assert(old(self)@.dom().contains((s, o)));
                        }
                        if held.eq_value(value) {
                            return Ok(());
                        }
                        let kept = held.clone_value();
                        return Err(
                            MemoryError::InconsistentMemory(
                                addr.clone_value(),
                                kept,
                                value.clone_value(),
                            ),
                        );
                    },
                    None => {},
                }
            }
        }
        proof {
            assert(!old(self)@.dom().contains((s, o)));
        }
        let mut seg = self.data.remove(si);
        let ghost oldseg = seg@;
        if off < seg.len() {
            seg[off] = Some(value.clone_value());
        } else {
            // extend the segment with absent cells up to the written offset
            while seg.len() < off
                invariant
                    oldseg.len() <= seg@.len() <= off,
                    seg@.subrange(0, oldseg.len() as int) == oldseg,
                    forall|j: int| oldseg.len() <= j < seg@.len() ==> seg@[j] is None,
                decreases off - seg.len(),
            {
                seg.push(None);
            }
            seg.push(Some(value.clone_value()));
            proof {
                assert(forall|j: int| 0 <= j < oldseg.len() ==> seg@[j] == oldseg[j]) by {
                    assert(forall|j: int|
                        0 <= j < oldseg.len() ==> seg@[j] == #[trigger] seg@.subrange(
                            0,
                            oldseg.len() as int,
                        )[j]);
                }
            }
        }
        self.data.insert(si, seg);
        proof {
            assert(self.data@ =~= old(self).data@.update(s, self.data@[s]));
            assert(forall|j: int|
                0 <= j < self.data@[s]@.len() && j != o ==> #[trigger] cell_at(*self, s, j)
                    == cell_at(*old(self), s, j));
            lemma_insert_view(*old(self), *self, s, o, value@);
        }
        Ok(())
    }

    /// Reads a cell that must hold a field element.
    pub fn get_integer(&self, addr: &MaybeRelocatable) -> (r: Result<BigInt, VirtualMachineError>)
        ensures
            match r {
                Ok(b) => addr@ matches MrVal::Rel(s, o) && self@.dom().contains((s, o)) && self@[
                    (s, o)
                ] == MrVal::Int(big_val(b)),
                Err(e) => {
                    &&& e@ == VmErrV::ExpectedInteger(addr@)
                    &&& match addr@ {
                        MrVal::Rel(s, o) => !self@.dom().contains((s, o)) || !(self@[
                            (s, o)
                        ] is Int),
                        MrVal::Int(_) => true,
                    }
                },
            },
    {
        match self.get(addr) {
            Some(MaybeRelocatable::Int(b)) => Ok(b.clone()),
            _ => Err(VirtualMachineError::ExpectedInteger(addr.clone_value())),
        }
    }

    /// Reads a cell that must hold a relocatable address.
    pub fn get_relocatable(&self, addr: &MaybeRelocatable) -> (r: Result<
        Relocatable,
        VirtualMachineError,
    >)
        ensures
            match r {
                Ok(a) => addr@ matches MrVal::Rel(s, o) && self@.dom().contains((s, o)) && self@[
                    (s, o)
                ] == MrVal::Rel(a@.0, a@.1),
                Err(e) => {
                    &&& e@ == VmErrV::ExpectedRelocatable(addr@)
                    &&& match addr@ {
                        MrVal::Rel(s, o) => !self@.dom().contains((s, o)) || !(self@[
                            (s, o)
                        ] is Rel),
                        MrVal::Int(_) => true,
                    }
                },
            },
    {
        match self.get(addr) {
            Some(MaybeRelocatable::RelocatableValue(a)) => Ok(*a),
            _ => Err(VirtualMachineError::ExpectedRelocatable(addr.clone_value())),
        }
    }
}

/// After writing value `v` into the free cell `(s, o)` of `pre`, giving
/// `post`, the memory as a map gains exactly that one binding.
proof fn lemma_insert_view(pre: Memory, post: Memory, s: int, o: int, v: MrVal)
    requires
        0 <= s < pre.data@.len(),
        o >= 0,
        post.data@ == pre.data@.update(s, post.data@[s]),
        pre.data@[s]@.len() <= post.data@[s]@.len(),
        o < post.data@[s]@.len(),
        post.data@[s]@[o] is Some,
        post.data@[s]@[o].unwrap()@ == v,
        forall|j: int|
            0 <= j < post.data@[s]@.len() && j != o ==> #[trigger] cell_at(post, s, j) == cell_at(
                pre,
                s,
                j,
            ),
        !pre@.dom().contains((s, o)),
    ensures
        post@ == pre@.insert((s, o), v),
        pre.wf() && mrv_wf(v) ==> post.wf(),
{
    let target = pre@.insert((s, o), v);
    assert_maps_equal!(post@, target, k => {
        if k == (s, o) {
            assert(post@.dom().contains(k));
            assert(target.dom().contains(k));
        } else {
            if k.0 == s {
                if 0 <= k.1 < post.data@[s]@.len() {
                    assert(cell_at(post, k.0, k.1) == cell_at(pre, k.0, k.1));
                } else {
                    assert(cell_at(post, k.0, k.1) is None);
                }
            }
            assert(post@.dom().contains(k) == pre@.dom().contains(k));
            if post@.dom().contains(k) {
                assert(post@[k] == pre@[k]);
            }
        }
    });
    assert(post@ == target);
    if pre.wf() && mrv_wf(v) {
        assert forall|k: (int, int)| post@.dom().contains(k) implies mrv_wf(#[trigger] post@[k]) by {
            if k != (s, o) {
                assert(pre@.dom().contains(k));
            }
        }
    }
}

/// The cell a segment holds at an offset: absent outside the segment's extent.
pub open spec fn cell_at(m: Memory, s: int, j: int) -> Option<MaybeRelocatable> {
    if 0 <= s < m.data@.len() && 0 <= j < m.data@[s]@.len() {
        m.data@[s]@[j]
    } else {
        None
    }
}

} // verus!
