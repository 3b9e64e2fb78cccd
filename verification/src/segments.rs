//! Segment allocation: fresh segment indices handed out in order, each one
//! backed by an empty segment appended to the memory.
use vstd::prelude::*;

verus! {

use crate::errors::{MemErrV, VirtualMachineError, VmErrV};
use crate::memory::{Memory, mem_insert_spec};
use crate::relocatable::{MaybeRelocatable, MrVal, Relocatable};
use crate::vm_core::mr_views;

/// Writing a row of values at successive offsets from a base: each write is
/// an ordinary insert, subject to the write-once rule.
pub open spec fn write_arg_spec(
    m: Map<(int, int), MrVal>,
    nsegs: int,
    base: (int, int),
    items: Seq<MrVal>,
) -> Result<Map<(int, int), MrVal>, MemErrV>
    decreases items.len(),
{
    if items.len() == 0 {
        Ok(m)
    } else {
        match mem_insert_spec(m, nsegs, MrVal::Rel(base.0, base.1), items[0]) {
            Err(e) => Err(e),
            Ok(m2) => write_arg_spec(m2, nsegs, (base.0, base.1 + 1), items.drop_first()),
        }
    }
}

/// Some segment's base does not fit a machine word.
pub open spec fn some_base_out_of_range(sizes: Seq<int>, first: int) -> bool {
    exists|i: int|
        0 < i < sizes.len() && #[trigger] relocated_base(sizes, first, i) > usize::MAX as int
}

/// The base relocation assigns to segment `i`: the first segment at `first`,
/// each following segment directly after the one before it.
pub open spec fn relocated_base(sizes: Seq<int>, first: int, i: int) -> int
    decreases i,
{
    if i <= 0 {
        first
    } else {
        relocated_base(sizes, first, i - 1) + sizes[i - 1]
    }
}

/// Hands out fresh segment indices in order.
pub struct SegmentManager {
    pub num_segments: usize,
}

impl SegmentManager {
    /// A manager that has allocated nothing.
    pub fn new() -> (r: SegmentManager)
        ensures
            r.num_segments == 0,
    {
        SegmentManager { num_segments: 0 }
    }

    /// Allocates a fresh segment: returns its base address and appends an
    /// empty segment to the memory, whose cells do not change.
    pub fn add(&mut self, memory: &mut Memory, _size: Option<usize>) -> (r: Relocatable)
        requires
            (old(self).num_segments as int) < (i64::MAX as int),
            old(self).num_segments < usize::MAX,
        ensures
            r@ == (old(self).num_segments as int, 0int),
            final(self).num_segments == old(self).num_segments + 1,
            final(memory)@ == old(memory)@,
            final(memory).data@.len() == old(memory).data@.len() + 1,
            final(memory).wf() == old(memory).wf(),
    {
        let base = Relocatable { segment_index: self.num_segments as i64, offset: 0 };
        self.num_segments = self.num_segments + 1;
        memory.add_segment();
        base
    }

    /// Writes the items at successive offsets from `ptr`, subject to the
    /// write-once rule, and returns the address past the last one.
    pub fn write_arg(
        &self,
        memory: &mut Memory,
        ptr: &Relocatable,
        items: &Vec<MaybeRelocatable>,
    ) -> (r: Result<Relocatable, VirtualMachineError>)
        ensures
            ({
                let ws = write_arg_spec(
                    old(memory)@,
                    old(memory).data@.len() as int,
                    ptr@,
                    mr_views(items@),
                );
                match r {
                    Ok(end) => {
                        &&& ptr@.1 + items@.len() <= usize::MAX
                        &&& end@ == (ptr@.0, ptr@.1 + items@.len())
                        &&& ws matches Ok(m2) && final(memory)@ == m2
                        &&& final(memory).data@.len() == old(memory).data@.len()
                    },
                    Err(e) => if ptr@.1 + items@.len() > usize::MAX {
                        e@ == VmErrV::OffsetExceeded
                    } else {
                        ws matches Err(me) && e@ == VmErrV::MemoryError(me)
                    },
                }
            }),
    {
        let ghost items_v = mr_views(items@);
        let ghost m0 = old(memory)@;
        let ghost ns = old(memory).data@.len() as int;
        // the whole row must stay within machine offsets
        let end = match ptr.add_offset(items.len()) {
            Ok(a) => a,
            Err(e) => {
                return Err(e);
            },
        };
        let mut i: usize = 0;
        proof {
            assert(items_v.skip(0) =~= items_v);
        }
        while i < items.len()
            invariant
                i <= items@.len(),
                items_v == mr_views(items@),
                m0 == old(memory)@,
                ptr@.1 + items@.len() <= usize::MAX,
                ns == old(memory).data@.len() as int,
                memory.data@.len() == old(memory).data@.len(),
                write_arg_spec(m0, ns, ptr@, items_v) == write_arg_spec(
                    memory@,
                    ns,
                    (ptr@.0, ptr@.1 + i),
                    items_v.skip(i as int),
                ),
            decreases items@.len() - i,
        {
            let cell = Relocatable { segment_index: ptr.segment_index, offset: ptr.offset + i };
            proof {
                assert(items_v.skip(i as int)[0] == items_v[i as int]);
                assert(items_v.skip(i as int).drop_first() =~= items_v.skip(i as int + 1));
            }
            match memory.insert(&MaybeRelocatable::RelocatableValue(cell), &items[i]) {
                Ok(_) => (),
                Err(e) => {
                    proof {
                        assert(write_arg_spec(m0, ns, ptr@, items_v) == Err::<
                            Map<(int, int), MrVal>,
                            MemErrV,
                        >(e@));
                    }
                    return Err(VirtualMachineError::MemoryError(e));
                },
            }
            i = i + 1;
        }
        proof {
            assert(items_v.skip(items@.len() as int) =~= Seq::<MrVal>::empty());
        }
        Ok(end)
    }

    /// The relocation table: each segment, sized as given, is placed directly
    /// after the one before it, the first at `first`. Fails only when a base
    /// leaves the machine's address range.
    pub fn relocate_segments(&self, sizes: &Vec<usize>, first: usize) -> (r: Result<
        Vec<usize>,
        VirtualMachineError,
    >)
        ensures
            ({
                let sz = sizes@.map_values(|s: usize| s as int);
                match r {
                    Ok(bases) => {
                        &&& bases@.len() == sizes@.len()
                        &&& forall|i: int|
                            0 <= i < bases@.len() ==> #[trigger] bases@[i] == relocated_base(
                                sz,
                                first as int,
                                i,
                            )
                    },
                    Err(e) => e@ == VmErrV::OffsetExceeded && some_base_out_of_range(
                        sz,
                        first as int,
                    ),
                }
            }),
    {
        let ghost sz = sizes@.map_values(|s: usize| s as int);
        let mut bases: Vec<usize> = Vec::new();
        let mut acc: usize = first;
        let mut i: usize = 0;
        while i < sizes.len()
            invariant
                i <= sizes@.len(),
                sz == sizes@.map_values(|s: usize| s as int),
                bases@.len() == i,
                i < sizes@.len() ==> acc as int == relocated_base(sz, first as int, i as int),
                forall|i2: int|
                    0 <= i2 < i ==> #[trigger] bases@[i2] == relocated_base(sz, first as int, i2),
            decreases sizes@.len() - i,
        {
            bases.push(acc);
            if i + 1 < sizes.len() {
                acc = match acc.checked_add(sizes[i]) {
                    Some(a) => a,
                    None => {
                        proof {
                            assert(relocated_base(sz, first as int, i as int + 1)
                                > usize::MAX as int);
                        }
                        return Err(VirtualMachineError::OffsetExceeded);
                    },
                };
            }
            i = i + 1;
        }
        Ok(bases)
    }
}

} // verus!
