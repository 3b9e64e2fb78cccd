//! Values of the machine: field elements and relocatable addresses, with
//! their arithmetic modulo the configured prime.
use vstd::prelude::*;

verus! {

use num_bigint::BigInt;
use crate::bigint_ops::{
    big_val, big_add, big_sub, big_mod_floor, big_from_usize, big_to_usize,
};
use crate::errors::{VirtualMachineError, VmErrV, result_view};

/// A segmented address: the segment's absolute position is assigned only
/// at relocation time.
#[derive(Clone, Copy, Debug, PartialEq, Eq, Structural)]
pub struct Relocatable {
    pub segment_index: i64,
    pub offset: usize,
}

impl View for Relocatable {
    type V = (int, int);

    open spec fn view(&self) -> (int, int) {
        (self.segment_index as int, self.offset as int)
    }
}

impl Relocatable {
    /// Shifts the address forward within its segment.
    pub fn add_offset(&self, n: usize) -> (r: Result<Relocatable, VirtualMachineError>)
        ensures
            match r {
                Ok(a) => self@.1 + n <= usize::MAX && a@ == (self@.0, self@.1 + n),
                Err(e) => self@.1 + n > usize::MAX && e@ == VmErrV::OffsetExceeded,
            },
    {
        match self.offset.checked_add(n) {
            Some(o) => Ok(Relocatable { segment_index: self.segment_index, offset: o }),
            None => Err(VirtualMachineError::OffsetExceeded),
        }
    }
}

/// Ghost model of a machine value: a mathematical integer or an address.
pub ghost enum MrVal {
    Int(int),
    Rel(int, int),
}

/// A tagged machine value: a field element or a relocatable address.
#[derive(Clone, Debug, PartialEq, Eq)]
pub enum MaybeRelocatable {
    RelocatableValue(Relocatable),
    Int(BigInt),
}

impl View for MaybeRelocatable {
    type V = MrVal;

    open spec fn view(&self) -> MrVal {
        match self {
            MaybeRelocatable::RelocatableValue(r) => MrVal::Rel(r@.0, r@.1),
            MaybeRelocatable::Int(b) => MrVal::Int(big_val(*b)),
        }
    }
}

impl From<(i64, usize)> for MaybeRelocatable {
    fn from(p: (i64, usize)) -> (r: MaybeRelocatable) {
        MaybeRelocatable::RelocatableValue(Relocatable { segment_index: p.0, offset: p.1 })
    }
}

impl vstd::std_specs::convert::FromSpecImpl<(i64, usize)> for MaybeRelocatable {
    open spec fn obeys_from_spec() -> bool {
        true
    }

    open spec fn from_spec(p: (i64, usize)) -> MaybeRelocatable {
        MaybeRelocatable::RelocatableValue(Relocatable { segment_index: p.0, offset: p.1 })
    }
}

impl From<BigInt> for MaybeRelocatable {
    fn from(b: BigInt) -> (r: MaybeRelocatable) {
        MaybeRelocatable::Int(b)
    }
}

impl vstd::std_specs::convert::FromSpecImpl<BigInt> for MaybeRelocatable {
    open spec fn obeys_from_spec() -> bool {
        true
    }

    open spec fn from_spec(b: BigInt) -> MaybeRelocatable {
        MaybeRelocatable::Int(b)
    }
}

impl From<Relocatable> for MaybeRelocatable {
    fn from(a: Relocatable) -> (r: MaybeRelocatable) {
        MaybeRelocatable::RelocatableValue(a)
    }
}

impl vstd::std_specs::convert::FromSpecImpl<Relocatable> for MaybeRelocatable {
    open spec fn obeys_from_spec() -> bool {
        true
    }

    open spec fn from_spec(a: Relocatable) -> MaybeRelocatable {
        MaybeRelocatable::RelocatableValue(a)
    }
}

/// A value is well formed when an integer it holds is nonnegative: field
/// elements are canonical residues.
pub open spec fn mrv_wf(v: MrVal) -> bool {
    match v {
        MrVal::Int(i) => i >= 0,
        MrVal::Rel(s, o) => true,
    }
}

/// Adding an integer `d` modulo `p`: a field element moves within the field,
/// an address shifts its offset, which must stay a machine word.
pub open spec fn mrv_add_int(v: MrVal, d: int, p: int) -> Result<MrVal, VmErrV> {
    match v {
        MrVal::Int(a) => Ok(MrVal::Int((a + d) % p)),
        MrVal::Rel(s, o) => if (o + d) % p <= usize::MAX as int {
            Ok(MrVal::Rel(s, (o + d) % p))
        } else {
            Err(VmErrV::OffsetExceeded)
        },
    }
}

/// Adding a machine-word count `n`, reduced modulo `p` only on field elements
/// and only when a prime is supplied.
pub open spec fn mrv_add_usize(v: MrVal, n: int, p: Option<int>) -> Result<MrVal, VmErrV> {
    match v {
        MrVal::Int(a) => Ok(
            MrVal::Int(
                match p {
                    Some(q) => (a + n) % q,
                    None => a + n,
                },
            ),
        ),
        MrVal::Rel(s, o) => if o + n <= usize::MAX as int {
            Ok(MrVal::Rel(s, o + n))
        } else {
            Err(VmErrV::OffsetExceeded)
        },
    }
}

/// Addition of two machine values: two field elements add modulo `p`, an
/// address shifts by a field element; two addresses cannot be added.
pub open spec fn mrv_add(v: MrVal, w: MrVal, p: int) -> Result<MrVal, VmErrV> {
    match (v, w) {
        (MrVal::Int(a), MrVal::Int(b)) => Ok(MrVal::Int((a + b) % p)),
        (MrVal::Rel(s, o), MrVal::Int(b)) => if (o + b) % p <= usize::MAX as int {
            Ok(MrVal::Rel(s, (o + b) % p))
        } else {
            Err(VmErrV::OffsetExceeded)
        },
        _ => Err(VmErrV::RelocatableAdd),
    }
}

/// Subtraction of two machine values: field elements subtract modulo `p`;
/// two addresses of one segment yield their offset difference as a field
/// element; an address shifts back by a field element.
pub open spec fn mrv_sub(v: MrVal, w: MrVal, p: int) -> Result<MrVal, VmErrV> {
    match (v, w) {
        (MrVal::Int(a), MrVal::Int(b)) => Ok(MrVal::Int((a - b) % p)),
        (MrVal::Rel(s1, o1), MrVal::Rel(s2, o2)) => if s1 == s2 {
            Ok(MrVal::Int((o1 - o2) % p))
        } else {
            Err(VmErrV::DiffIndexSub)
        },
        (MrVal::Rel(s, o), MrVal::Int(b)) => if (o - b) % p <= usize::MAX as int {
            Ok(MrVal::Rel(s, (o - b) % p))
        } else {
            Err(VmErrV::OffsetExceeded)
        },
        (MrVal::Int(a), MrVal::Rel(s, o)) => Err(VmErrV::NotImplemented),
    }
}

impl MaybeRelocatable {
    /// Value equality: field elements by their integers, addresses by
    /// segment and offset.
    pub fn eq_value(&self, other: &MaybeRelocatable) -> (r: bool)
        ensures
            r == (self@ == other@),
    {
        match (self, other) {
            (MaybeRelocatable::Int(a), MaybeRelocatable::Int(b)) => a.eq(b),
            (MaybeRelocatable::RelocatableValue(a), MaybeRelocatable::RelocatableValue(b)) => {
                a.segment_index == b.segment_index && a.offset == b.offset
            },
            _ => false,
        }
    }

    /// A deep copy holding the same value.
    pub fn clone_value(&self) -> (r: MaybeRelocatable)
        ensures
            r@ == self@,
    {
        match self {
            MaybeRelocatable::Int(b) => MaybeRelocatable::Int(b.clone()),
            MaybeRelocatable::RelocatableValue(a) => MaybeRelocatable::RelocatableValue(*a),
        }
    }

    /// Adds the signed word `d` modulo `prime`.
    pub fn add_i64_mod(&self, d: i64, prime: &BigInt) -> (r: Result<
        MaybeRelocatable,
        VirtualMachineError,
    >)
        requires
            big_val(*prime) > 0,
        ensures
            result_view(r) == mrv_add_int(self@, d as int, big_val(*prime)),
    {
        let db = crate::bigint_ops::big_from_i64(d);
        self.add_int_mod(&db, prime)
    }

    /// Adds the integer `other` modulo `prime`.
    pub fn add_int_mod(&self, other: &BigInt, prime: &BigInt) -> (r: Result<
        MaybeRelocatable,
        VirtualMachineError,
    >)
        requires
            big_val(*prime) > 0,
        ensures
            result_view(r) == mrv_add_int(self@, big_val(*other), big_val(*prime)),
    {
        match self {
            MaybeRelocatable::Int(a) => {
                let s = big_add(a, other);
                Ok(MaybeRelocatable::Int(big_mod_floor(&s, prime)))
            },
            MaybeRelocatable::RelocatableValue(rel) => {
                let ob = big_from_usize(rel.offset);
                let s = big_add(&ob, other);
                let m = big_mod_floor(&s, prime);
                match big_to_usize(&m) {
                    Some(o2) => Ok(
                        MaybeRelocatable::RelocatableValue(
                            Relocatable { segment_index: rel.segment_index, offset: o2 },
                        ),
                    ),
                    None => Err(VirtualMachineError::OffsetExceeded),
                }
            },
        }
    }

    /// Adds the word count `n`, modulo `prime` on field elements when a
    /// prime is supplied.
    pub fn add_usize_mod(&self, n: usize, prime: Option<&BigInt>) -> (r: Result<
        MaybeRelocatable,
        VirtualMachineError,
    >)
        requires
            match prime {
                Some(p) => big_val(*p) > 0,
                None => true,
            },
        ensures
            result_view(r) == mrv_add_usize(
                self@,
                n as int,
                match prime {
                    Some(p) => Some(big_val(*p)),
                    None => None,
                },
            ),
    {
        match self {
            MaybeRelocatable::Int(a) => {
                let nb = big_from_usize(n);
                let s = big_add(a, &nb);
                match prime {
                    Some(p) => Ok(MaybeRelocatable::Int(big_mod_floor(&s, p))),
                    None => Ok(MaybeRelocatable::Int(s)),
                }
            },
            MaybeRelocatable::RelocatableValue(rel) => {
                match rel.add_offset(n) {
                    Ok(a) => Ok(MaybeRelocatable::RelocatableValue(a)),
                    Err(e) => Err(e),
                }
            },
        }
    }

    /// Adds another machine value modulo `prime`.
    pub fn add_mod(&self, other: &MaybeRelocatable, prime: &BigInt) -> (r: Result<
        MaybeRelocatable,
        VirtualMachineError,
    >)
        requires
            big_val(*prime) > 0,
        ensures
            result_view(r) == mrv_add(self@, other@, big_val(*prime)),
    {
        match (self, other) {
            (MaybeRelocatable::Int(a), MaybeRelocatable::Int(b)) => {
                let s = big_add(a, b);
                Ok(MaybeRelocatable::Int(big_mod_floor(&s, prime)))
            },
            (MaybeRelocatable::RelocatableValue(rel), MaybeRelocatable::Int(b)) => {
                self.add_int_mod(b, prime)
            },
            _ => Err(VirtualMachineError::RelocatableAdd),
        }
    }

    /// Subtracts another machine value modulo `prime`.
    pub fn sub_mod(&self, other: &MaybeRelocatable, prime: &BigInt) -> (r: Result<
        MaybeRelocatable,
        VirtualMachineError,
    >)
        requires
            big_val(*prime) > 0,
        ensures
            result_view(r) == mrv_sub(self@, other@, big_val(*prime)),
    {
        match (self, other) {
            (MaybeRelocatable::Int(a), MaybeRelocatable::Int(b)) => {
                let d = big_sub(a, b);
                Ok(MaybeRelocatable::Int(big_mod_floor(&d, prime)))
            },
            (
                MaybeRelocatable::RelocatableValue(r1),
                MaybeRelocatable::RelocatableValue(r2),
            ) => {
                if r1.segment_index == r2.segment_index {
                    let o1 = big_from_usize(r1.offset);
                    let o2 = big_from_usize(r2.offset);
                    let d = big_sub(&o1, &o2);
                    Ok(MaybeRelocatable::Int(big_mod_floor(&d, prime)))
                } else {
                    Err(VirtualMachineError::DiffIndexSub)
                }
            },
            (MaybeRelocatable::RelocatableValue(rel), MaybeRelocatable::Int(b)) => {
                let ob = big_from_usize(rel.offset);
                let d = big_sub(&ob, b);
                let m = big_mod_floor(&d, prime);
                match big_to_usize(&m) {
                    Some(o2) => Ok(
                        MaybeRelocatable::RelocatableValue(
                            Relocatable { segment_index: rel.segment_index, offset: o2 },
                        ),
                    ),
                    None => Err(VirtualMachineError::OffsetExceeded),
                }
            },
            (MaybeRelocatable::Int(a), MaybeRelocatable::RelocatableValue(rel)) => Err(
                VirtualMachineError::NotImplemented,
            ),
        }
    }
}

} // verus!
