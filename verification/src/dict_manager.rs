//! The hint-side dictionary subsystem: per-segment trackers, each holding a
//! pointer into its dictionary segment and the key-value data reconciled
//! against the access records the program writes.
use vstd::prelude::*;

verus! {

use num_bigint::BigInt;
use crate::bigint_ops::big_val;
use crate::errors::{VirtualMachineError, VmErrV};
use crate::relocatable::Relocatable;

/// Looks a key up in an association sequence: the first binding wins.
pub open spec fn assoc_lookup(s: Seq<(int, int)>, k: int) -> Option<int>
    decreases s.len(),
{
    if s.len() == 0 {
        None
    } else if s[0].0 == k {
        Some(s[0].1)
    } else {
        assoc_lookup(s.drop_first(), k)
    }
}

/// A binding whose key matches nothing before it is the one the lookup finds.
proof fn lemma_assoc_found(s: Seq<(int, int)>, k: int, i: int)
    requires
        0 <= i < s.len(),
        s[i].0 == k,
        forall|j: int| 0 <= j < i ==> s[j].0 != k,
    ensures
        assoc_lookup(s, k) == Some(s[i].1),
    decreases i,
{
    if i > 0 {
        lemma_assoc_found(s.drop_first(), k, i - 1);
    }
}

/// A key that no binding carries is not found.
proof fn lemma_assoc_absent(s: Seq<(int, int)>, k: int)
    requires
        forall|j: int| 0 <= j < s.len() ==> s[j].0 != k,
    ensures
        assoc_lookup(s, k) is None,
    decreases s.len(),
{
    if s.len() > 0 {
        lemma_assoc_absent(s.drop_first(), k);
    }
}

/// Replacing a binding in place, keeping its key, changes no other key's
/// lookup.
proof fn lemma_assoc_update_other(s: Seq<(int, int)>, i: int, kv: (int, int), k2: int)
    requires
        0 <= i < s.len(),
        k2 != kv.0,
        k2 != s[i].0,
    ensures
        assoc_lookup(s.update(i, kv), k2) == assoc_lookup(s, k2),
    decreases s.len(),
{
    let s2 = s.update(i, kv);
    if i == 0 {
        assert(s2.drop_first() =~= s.drop_first());
    } else {
        if s[0].0 != k2 {
            assert(s2.drop_first() =~= s.drop_first().update(i - 1, kv));
            lemma_assoc_update_other(s.drop_first(), i - 1, kv, k2);
        }
    }
}

/// Appending a binding changes no other key's lookup.
proof fn lemma_assoc_push_other(s: Seq<(int, int)>, kv: (int, int), k2: int)
    requires
        k2 != kv.0,
    ensures
        assoc_lookup(s.push(kv), k2) == assoc_lookup(s, k2),
    decreases s.len(),
{
    let s2 = s.push(kv);
    assert(s2.len() == s.len() + 1);
    if s.len() == 0 {
        assert(s2[0] == kv);
        assert(s2.drop_first() =~= Seq::<(int, int)>::empty());
        assert(assoc_lookup(Seq::<(int, int)>::empty(), k2) is None);
    } else {
        assert(s2[0] == s[0]);
        assert(s2.drop_first() =~= s.drop_first().push(kv));
        if s[0].0 != k2 {
            lemma_assoc_push_other(s.drop_first(), kv, k2);
        }
    }
}

/// A dictionary: keys and values are field elements.
#[derive(Debug, PartialEq, Eq)]
pub struct KvStore {
    pub entries: Vec<(BigInt, BigInt)>,
}

impl KvStore {
    /// The bindings as a sequence of integer pairs.
    pub open spec fn entry_seq(&self) -> Seq<(int, int)> {
        self.entries@.map_values(|p: (BigInt, BigInt)| (big_val(p.0), big_val(p.1)))
    }
}

impl View for KvStore {
    type V = Map<int, int>;

    open spec fn view(&self) -> Map<int, int> {
        Map::new(
            |k: int| assoc_lookup(self.entry_seq(), k) is Some,
            |k: int| assoc_lookup(self.entry_seq(), k).unwrap(),
        )
    }
}

impl KvStore {
    /// An empty dictionary.
    pub fn new() -> (r: KvStore)
        ensures
            r@ == Map::<int, int>::empty(),
    {
        let r = KvStore { entries: Vec::new() };
        proof {
            assert(r@ =~= Map::<int, int>::empty());
        }
        r
    }

    /// The value bound to a key, if any.
    pub fn get(&self, k: &BigInt) -> (r: Option<BigInt>)
        ensures
            match r {
                Some(v) => self@.dom().contains(big_val(*k)) && self@[big_val(*k)] == big_val(v),
                None => !self@.dom().contains(big_val(*k)),
            },
    {
        let ghost sq = self.entry_seq();
        let ghost kk = big_val(*k);
        let mut i: usize = 0;
        while i < self.entries.len()
            invariant
                i <= self.entries@.len(),
                sq == self.entry_seq(),
                kk == big_val(*k),
                forall|j: int| 0 <= j < i ==> sq[j].0 != kk,
            decreases self.entries@.len() - i,
        {
            if self.entries[i].0.eq(k) {
                proof {
                    lemma_assoc_found(sq, kk, i as int);
                }
                return Some(self.entries[i].1.clone());
            }
            i = i + 1;
        }
        proof {
            lemma_assoc_absent(sq, kk);
        }
        None
    }

    /// Binds a key to a value, replacing any previous binding.
    pub fn insert(&mut self, k: &BigInt, v: &BigInt)
        ensures
            final(self)@ == old(self)@.insert(big_val(*k), big_val(*v)),
    {
        let ghost sq = self.entry_seq();
        let ghost kk = big_val(*k);
        let ghost vv = big_val(*v);
        let mut i: usize = 0;
        while i < self.entries.len()
            invariant
                i <= self.entries@.len(),
                sq == self.entry_seq(),
                kk == big_val(*k),
                vv == big_val(*v),
                *self == *old(self),
                forall|j: int| 0 <= j < i ==> sq[j].0 != kk,
            decreases self.entries@.len() - i,
        {
            if self.entries[i].0.eq(k) {
                self.entries[i] = (k.clone(), v.clone());
                proof {
                    let sq2 = self.entry_seq();
                    assert(sq2 =~= sq.update(i as int, (kk, vv)));
                    lemma_assoc_found(sq2, kk, i as int);
                    assert forall|k2: int| k2 != kk implies assoc_lookup(sq2, k2) == assoc_lookup(
                        sq,
                        k2,
                    ) by {
                        lemma_assoc_update_other(sq, i as int, (kk, vv), k2);
                    }
                    assert(self@ =~= old(self)@.insert(kk, vv));
                }
                return ;
            }
            i = i + 1;
        }
        self.entries.push((k.clone(), v.clone()));
        proof {
            let sq2 = self.entry_seq();
            assert(sq2 =~= sq.push((kk, vv)));
            lemma_assoc_found(sq2, kk, sq.len() as int);
            assert forall|k2: int| k2 != kk implies assoc_lookup(sq2, k2) == assoc_lookup(
                sq,
                k2,
            ) by {
                lemma_assoc_push_other(sq, (kk, vv), k2);
            }
            assert(self@ =~= old(self)@.insert(kk, vv));
        }
    }

    /// A deep copy holding the same bindings in the same order.
    pub fn duplicate(&self) -> (r: KvStore)
        ensures
            r.entry_seq() == self.entry_seq(),
            r@ == self@,
    {
        let mut out: Vec<(BigInt, BigInt)> = Vec::new();
        let mut i: usize = 0;
        while i < self.entries.len()
            invariant
                i <= self.entries@.len(),
                out@.len() == i,
                forall|j: int|
                    0 <= j < i ==> (big_val(#[trigger] out@[j].0), big_val(out@[j].1))
                        == self.entry_seq()[j],
            decreases self.entries@.len() - i,
        {
            let k = self.entries[i].0.clone();
            let v = self.entries[i].1.clone();
            out.push((k, v));
            i = i + 1;
        }
        let r = KvStore { entries: out };
        proof {
            assert(r.entry_seq() =~= self.entry_seq());
        }
        r
    }
}

/// The dictionary data of a tracker: a plain dictionary misses on unknown
/// keys; one with a default value answers them with the default.
#[derive(Debug, PartialEq, Eq)]
pub enum Dictionary {
    SimpleDictionary(KvStore),
    DefaultDictionary { dict: KvStore, default_value: BigInt },
}

impl Dictionary {
    /// The bindings the dictionary holds.
    pub open spec fn data_view(&self) -> Map<int, int> {
        match self {
            Dictionary::SimpleDictionary(kv) => kv@,
            Dictionary::DefaultDictionary { dict, default_value } => dict@,
        }
    }

    /// The default value, where there is one.
    pub open spec fn default_view(&self) -> Option<int> {
        match self {
            Dictionary::SimpleDictionary(_) => None,
            Dictionary::DefaultDictionary { dict, default_value } => Some(big_val(*default_value)),
        }
    }
}

/// Ghost model of a tracker: its pointer into the dictionary segment and its
/// data.
pub ghost struct TrackerView {
    pub ptr: (int, int),
    pub data: Map<int, int>,
    pub default: Option<int>,
}

/// What a lookup in a tracker answers: the stored value, else the default,
/// else nothing.
pub open spec fn tracker_get(t: TrackerView, k: int) -> Option<int> {
    if t.data.dom().contains(k) {
        Some(t.data[k])
    } else {
        t.default
    }
}

/// A tracker: the dictionary of one segment and the pointer to the next
/// access record in that segment.
#[derive(Debug, PartialEq, Eq)]
pub struct DictTracker {
    pub current_ptr: Relocatable,
    pub data: Dictionary,
}

impl View for DictTracker {
    type V = TrackerView;

    open spec fn view(&self) -> TrackerView {
        TrackerView {
            ptr: self.current_ptr@,
            data: self.data.data_view(),
            default: self.data.default_view(),
        }
    }
}

impl DictTracker {
    /// A tracker over an empty plain dictionary.
    pub fn new_empty(ptr: &Relocatable) -> (r: DictTracker)
        ensures
            r@.ptr == ptr@,
            r@.data == Map::<int, int>::empty(),
            r@.default is None,
    {
        DictTracker { current_ptr: *ptr, data: Dictionary::SimpleDictionary(KvStore::new()) }
    }

    /// A tracker over a plain dictionary with initial bindings.
    pub fn new_with_initial(ptr: &Relocatable, initial: KvStore) -> (r: DictTracker)
        ensures
            r@.ptr == ptr@,
            r@.data == initial@,
            r@.default is None,
    {
        DictTracker { current_ptr: *ptr, data: Dictionary::SimpleDictionary(initial) }
    }

    /// A tracker over a dictionary with a default value and optional initial
    /// bindings.
    pub fn new_default_dict(
        ptr: &Relocatable,
        default_value: &BigInt,
        initial: Option<KvStore>,
    ) -> (r: DictTracker)
        ensures
            r@.ptr == ptr@,
            r@.data == match initial {
                Some(kv) => kv@,
                None => Map::<int, int>::empty(),
            },
            r@.default == Some(big_val(*default_value)),
    {
        let dict = match initial {
            Some(kv) => kv,
            None => KvStore::new(),
        };
        DictTracker {
            current_ptr: *ptr,
            data: Dictionary::DefaultDictionary { dict, default_value: default_value.clone() },
        }
    }

    /// Binds a key in the tracker's dictionary.
    pub fn insert_value(&mut self, k: &BigInt, v: &BigInt)
        ensures
            final(self)@.ptr == old(self)@.ptr,
            final(self)@.default == old(self)@.default,
            final(self)@.data == old(self)@.data.insert(big_val(*k), big_val(*v)),
    {
        match &mut self.data {
            Dictionary::SimpleDictionary(kv) => kv.insert(k, v),
            Dictionary::DefaultDictionary { dict, default_value } => dict.insert(k, v),
        }
    }

    /// The value for a key: the stored one, else the default, else an error
    /// naming the key.
    pub fn get_value(&self, k: &BigInt) -> (r: Result<BigInt, VirtualMachineError>)
        ensures
            match r {
                Ok(v) => tracker_get(self@, big_val(*k)) == Some(big_val(v)),
                Err(e) => tracker_get(self@, big_val(*k)) is None && e@ == VmErrV::NoValueForKey(
                    big_val(*k),
                ),
            },
    {
        let stored = match &self.data {
            Dictionary::SimpleDictionary(kv) => kv.get(k),
            Dictionary::DefaultDictionary { dict, default_value } => dict.get(k),
        };
        match stored {
            Some(v) => Ok(v),
            None => match &self.data {
                Dictionary::DefaultDictionary { dict, default_value } => Ok(default_value.clone()),
                Dictionary::SimpleDictionary(_) => Err(
                    VirtualMachineError::NoValueForKey(k.clone()),
                ),
            },
        }
    }

    /// A copy of the dictionary's bindings.
    pub fn get_dictionary_copy(&self) -> (r: KvStore)
        ensures
            r@ == self@.data,
    {
        match &self.data {
            Dictionary::SimpleDictionary(kv) => kv.duplicate(),
            Dictionary::DefaultDictionary { dict, default_value } => dict.duplicate(),
        }
    }
}

/// The trackers, one slot per segment index.
#[derive(Debug, PartialEq, Eq)]
pub struct TrackerStore {
    pub slots: Vec<Option<DictTracker>>,
}

impl View for TrackerStore {
    type V = Map<int, TrackerView>;

    /// The trackers as a map from segment index to tracker model.
    open spec fn view(&self) -> Map<int, TrackerView> {
        Map::new(
            |s: int| 0 <= s < self.slots@.len() && self.slots@[s] is Some,
            |s: int| self.slots@[s].unwrap()@,
        )
    }
}

impl TrackerStore {
    /// A store with no trackers.
    pub fn new() -> (r: TrackerStore)
        ensures
            r@ == Map::<int, TrackerView>::empty(),
    {
        let r = TrackerStore { slots: Vec::new() };
        proof {
            assert(r@ =~= Map::<int, TrackerView>::empty());
        }
        r
    }

    /// Places a tracker for a segment, replacing any present one.
    pub fn insert(&mut self, segment: i64, tracker: DictTracker)
        requires
            segment >= 0,
            segment < usize::MAX,
        ensures
            final(self)@ == old(self)@.insert(segment as int, tracker@),
    {
        let idx = segment as usize;
        let ghost s = segment as int;
        if idx >= self.slots.len() {
            let ghost oldlen = self.slots@.len();
            while self.slots.len() < idx
                invariant
                    oldlen <= self.slots@.len() <= idx,
                    self.slots@.subrange(0, oldlen as int) == old(self).slots@,
                    forall|j: int| oldlen <= j < self.slots@.len() ==> self.slots@[j] is None,
                decreases idx - self.slots.len(),
            {
                self.slots.push(None);
            }
            self.slots.push(Some(tracker));
            proof {
                assert(forall|j: int|
                    0 <= j < oldlen ==> self.slots@[j] == old(self).slots@[j]) by {
                    assert(forall|j: int|
                        0 <= j < oldlen ==> self.slots@[j] == #[trigger] self.slots@.subrange(
                            0,
                            oldlen as int,
                        )[j]);
                }
                assert(self@ =~= old(self)@.insert(s, tracker@));
            }
        } else {
            self.slots[idx] = Some(tracker);
            proof {
                assert(self.slots@ =~= old(self).slots@.update(s, self.slots@[s]));
                assert(self@ =~= old(self)@.insert(s, tracker@));
            }
        }
    }

    /// The tracker for a segment, if one exists.
    pub fn get(&self, segment: &i64) -> (r: Option<&DictTracker>)
        ensures
            match r {
                Some(t) => self@.dom().contains(*segment as int) && self@[*segment as int] == t@
                    && *segment >= 0 && (*segment as int) < (usize::MAX as int),
                None => !self@.dom().contains(*segment as int),
            },
    {
        if *segment < 0 || (*segment as u64) >= self.slots.len() as u64 {
            return None;
        }
        match &self.slots[*segment as usize] {
            Some(t) => Some(t),
            None => None,
        }
    }
}

impl Dictionary {
    /// A deep copy holding the same bindings and default.
    pub fn duplicate(&self) -> (r: Dictionary)
        ensures
            r.data_view() == self.data_view(),
            r.default_view() == self.default_view(),
    {
        match self {
            Dictionary::SimpleDictionary(kv) => Dictionary::SimpleDictionary(kv.duplicate()),
            Dictionary::DefaultDictionary { dict, default_value } => Dictionary::DefaultDictionary {
                dict: dict.duplicate(),
                default_value: default_value.clone(),
            },
        }
    }
}

/// The tracker an address selects: there must be one for the address's
/// segment, and its pointer must be exactly that address.
pub open spec fn get_tracker_spec(dm: Map<int, TrackerView>, ptr: (int, int)) -> Result<
    TrackerView,
    VmErrV,
> {
    if !dm.dom().contains(ptr.0) {
        Err(VmErrV::NoDictTracker(ptr.0))
    } else if dm[ptr.0].ptr != ptr {
        Err(VmErrV::MismatchedDictPtr(dm[ptr.0].ptr, ptr))
    } else {
        Ok(dm[ptr.0])
    }
}

/// The dictionary manager: at most one tracker per segment.
#[derive(Debug, PartialEq, Eq)]
pub struct DictManager {
    pub trackers: TrackerStore,
}

impl DictManager {
    /// A manager with no trackers.
    pub fn new() -> (r: DictManager)
        ensures
            r.trackers@ == Map::<int, TrackerView>::empty(),
    {
        DictManager { trackers: TrackerStore::new() }
    }

    /// The tracker whose segment and pointer the address names.
    pub fn get_tracker(&self, addr: &Relocatable) -> (r: Result<
        &DictTracker,
        VirtualMachineError,
    >)
        ensures
            match r {
                Ok(t) => get_tracker_spec(self.trackers@, addr@) matches Ok(tv) && t@ == tv
                    && self.trackers@.dom().contains(addr@.0) && addr.segment_index >= 0 && (
                addr.segment_index as int) < (usize::MAX as int),
                Err(e) => get_tracker_spec(self.trackers@, addr@) matches Err(e2) && e@ == e2,
            },
    {
        match self.trackers.get(&addr.segment_index) {
            None => Err(VirtualMachineError::NoDictTracker(addr.segment_index)),
            Some(t) => {
                if t.current_ptr == *addr {
                    Ok(t)
                } else {
                    Err(VirtualMachineError::MismatchedDictPtr(t.current_ptr, *addr))
                }
            },
        }
    }
}

} // verus!
