//! Execution scopes for hints: a stack of frames mapping names to values,
//! with the topmost frame active.
use vstd::prelude::*;

verus! {

use num_bigint::BigInt;
use crate::bigint_ops::big_val;
use crate::dict_manager::KvStore;

/// A value a hint can keep in a scope.
#[derive(Debug, PartialEq, Eq)]
pub enum PyValueType {
    BigInt(BigInt),
    List(Vec<BigInt>),
    Dictionary(KvStore),
}

/// Ghost model of a scope value.
pub ghost enum ScopeValV {
    Int(int),
    List(Seq<int>),
    Dictionary(Map<int, int>),
}

impl View for PyValueType {
    type V = ScopeValV;

    open spec fn view(&self) -> ScopeValV {
        match self {
            PyValueType::BigInt(b) => ScopeValV::Int(big_val(*b)),
            PyValueType::List(v) => ScopeValV::List(v@.map_values(|b: BigInt| big_val(b))),
            PyValueType::Dictionary(kv) => ScopeValV::Dictionary(kv@),
        }
    }
}

/// Looks a name up among bindings: the first binding wins.
pub open spec fn name_lookup(s: Seq<(Seq<char>, ScopeValV)>, n: Seq<char>) -> Option<ScopeValV>
    decreases s.len(),
{
    if s.len() == 0 {
        None
    } else if s[0].0 == n {
        Some(s[0].1)
    } else {
        name_lookup(s.drop_first(), n)
    }
}

/// A binding whose name matches nothing before it is the one found.
proof fn lemma_name_found(s: Seq<(Seq<char>, ScopeValV)>, n: Seq<char>, i: int)
    requires
        0 <= i < s.len(),
        s[i].0 == n,
        forall|j: int| 0 <= j < i ==> s[j].0 != n,
    ensures
        name_lookup(s, n) == Some(s[i].1),
    decreases i,
{
    if i > 0 {
        lemma_name_found(s.drop_first(), n, i - 1);
    }
}

/// A name no binding carries is not found.
proof fn lemma_name_absent(s: Seq<(Seq<char>, ScopeValV)>, n: Seq<char>)
    requires
        forall|j: int| 0 <= j < s.len() ==> s[j].0 != n,
    ensures
        name_lookup(s, n) is None,
    decreases s.len(),
{
    if s.len() > 0 {
        lemma_name_absent(s.drop_first(), n);
    }
}

/// Replacing a binding in place, keeping its name, changes no other name's
/// lookup.
proof fn lemma_name_update_other(
    s: Seq<(Seq<char>, ScopeValV)>,
    i: int,
    kv: (Seq<char>, ScopeValV),
    n2: Seq<char>,
)
    requires
        0 <= i < s.len(),
        n2 != kv.0,
        n2 != s[i].0,
    ensures
        name_lookup(s.update(i, kv), n2) == name_lookup(s, n2),
    decreases s.len(),
{
    let s2 = s.update(i, kv);
    if i == 0 {
        assert(s2.drop_first() =~= s.drop_first());
    } else {
        if s[0].0 != n2 {
            assert(s2.drop_first() =~= s.drop_first().update(i - 1, kv));
            lemma_name_update_other(s.drop_first(), i - 1, kv, n2);
        }
    }
}

/// Appending a binding changes no other name's lookup.
proof fn lemma_name_push_other(
    s: Seq<(Seq<char>, ScopeValV)>,
    kv: (Seq<char>, ScopeValV),
    n2: Seq<char>,
)
    requires
        n2 != kv.0,
    ensures
        name_lookup(s.push(kv), n2) == name_lookup(s, n2),
    decreases s.len(),
{
    let s2 = s.push(kv);
    if s.len() == 0 {
        assert(s2.drop_first() =~= Seq::<(Seq<char>, ScopeValV)>::empty());
        assert(name_lookup(Seq::<(Seq<char>, ScopeValV)>::empty(), n2) is None);
    } else {
        assert(s2[0] == s[0]);
        assert(s2.drop_first() =~= s.drop_first().push(kv));
        if s[0].0 != n2 {
            lemma_name_push_other(s.drop_first(), kv, n2);
        }
    }
}

/// Relies on `<str as PartialEq>::eq`: equality of the character sequences.
#[verifier::external_body]
pub(crate) fn str_eq(a: &str, b: &str) -> (r: bool)
    ensures
        r == (a@ == b@),
{
    a == b
}

/// One scope frame: named values, the name bound at most once.
#[derive(Debug, PartialEq, Eq)]
pub struct VarMap {
    pub entries: Vec<(String, PyValueType)>,
}

impl VarMap {
    /// The bindings as a sequence of name/value models.
    pub open spec fn entry_seq(&self) -> Seq<(Seq<char>, ScopeValV)> {
        self.entries@.map_values(|p: (String, PyValueType)| (p.0@, p.1@))
    }
}

impl View for VarMap {
    type V = Map<Seq<char>, ScopeValV>;

    open spec fn view(&self) -> Map<Seq<char>, ScopeValV> {
        Map::new(
            |n: Seq<char>| name_lookup(self.entry_seq(), n) is Some,
            |n: Seq<char>| name_lookup(self.entry_seq(), n).unwrap(),
        )
    }
}

impl VarMap {
    /// A frame with no bindings.
    pub fn new() -> (r: VarMap)
        ensures
            r@ == Map::<Seq<char>, ScopeValV>::empty(),
            r.entries@.len() == 0,
    {
        let r = VarMap { entries: Vec::new() };
        proof {
            assert(r@ =~= Map::<Seq<char>, ScopeValV>::empty());
        }
        r
    }

    /// The number of bindings.
    pub fn len(&self) -> (r: usize)
        ensures
            r == self.entries@.len(),
    {
        self.entries.len()
    }

    /// The value bound to a name, if any.
    pub fn get(&self, name: &str) -> (r: Option<&PyValueType>)
        ensures
            match r {
                Some(v) => self@.dom().contains(name@) && self@[name@] == v@,
                None => !self@.dom().contains(name@),
            },
    {
        let ghost sq = self.entry_seq();
        let mut i: usize = 0;
        while i < self.entries.len()
            invariant
                i <= self.entries@.len(),
                sq == self.entry_seq(),
                forall|j: int| 0 <= j < i ==> sq[j].0 != name@,
            decreases self.entries@.len() - i,
        {
            if str_eq(self.entries[i].0.as_str(), name) {
                proof {
                    lemma_name_found(sq, name@, i as int);
                }
                return Some(&self.entries[i].1);
            }
            i = i + 1;
        }
        proof {
            lemma_name_absent(sq, name@);
        }
        None
    }

    /// Binds a name to a value, replacing any previous binding.
    pub fn insert(&mut self, name: &str, value: PyValueType)
        ensures
            final(self)@ == old(self)@.insert(name@, value@),
    {
        let ghost sq = self.entry_seq();
        let ghost vv = value@;
        let mut i: usize = 0;
        while i < self.entries.len()
            invariant
                i <= self.entries@.len(),
                sq == self.entry_seq(),
                *self == *old(self),
                vv == value@,
                forall|j: int| 0 <= j < i ==> sq[j].0 != name@,
            decreases self.entries@.len() - i,
        {
            if str_eq(self.entries[i].0.as_str(), name) {
                self.entries[i] = (name.to_owned(), value);
                proof {
                    let sq2 = self.entry_seq();
                    assert(sq2 =~= sq.update(i as int, (name@, vv)));
                    lemma_name_found(sq2, name@, i as int);
                    assert forall|n2: Seq<char>| n2 != name@ implies name_lookup(sq2, n2)
                        == name_lookup(sq, n2) by {
                        lemma_name_update_other(sq, i as int, (name@, vv), n2);
                    }
                    assert(self@ =~= old(self)@.insert(name@, vv));
                }
                return ;
            }
            i = i + 1;
        }
        self.entries.push((name.to_owned(), value));
        proof {
            let sq2 = self.entry_seq();
            assert(sq2 =~= sq.push((name@, vv)));
            lemma_name_found(sq2, name@, sq.len() as int);
            assert forall|n2: Seq<char>| n2 != name@ implies name_lookup(sq2, n2) == name_lookup(
                sq,
                n2,
            ) by {
                lemma_name_push_other(sq, (name@, vv), n2);
            }
            assert(self@ =~= old(self)@.insert(name@, vv));
        }
    }
}

/// The scope stack: at least the bottom "main" frame; the topmost frame is
/// the active one.
#[derive(Debug, PartialEq, Eq)]
pub struct ExecutionScopes {
    pub data: Vec<VarMap>,
}

impl ExecutionScopes {
    /// A stack holding the empty main frame.
    pub fn new() -> (r: ExecutionScopes)
        ensures
            r.data@.len() == 1,
            r.data@[0]@ == Map::<Seq<char>, ScopeValV>::empty(),
    {
        let mut data: Vec<VarMap> = Vec::new();
        data.push(VarMap::new());
        ExecutionScopes { data }
    }

    /// Pushes a frame, which becomes the active one.
    pub fn enter_scope(&mut self, frame: VarMap)
        ensures
            final(self).data@ == old(self).data@.push(frame),
    {
        self.data.push(frame);
    }

    /// Pops the active frame; the bottom frame stays.
    pub fn exit_scope(&mut self)
        requires
            old(self).data@.len() > 1,
        ensures
            final(self).data@ == old(self).data@.drop_last(),
    {
        let _ = self.data.pop();
        proof {
            assert(self.data@ =~= old(self).data@.drop_last());
        }
    }

    /// The active frame, where the stack is not empty.
    pub fn get_local_variables(&self) -> (r: Option<&VarMap>)
        ensures
            match r {
                Some(f) => self.data@.len() > 0 && *f == self.data@.last(),
                None => self.data@.len() == 0,
            },
    {
        if self.data.len() == 0 {
            None
        } else {
            Some(&self.data[self.data.len() - 1])
        }
    }

    /// Binds a name in the active frame.
    pub fn assign_or_update_variable(&mut self, name: &str, value: PyValueType)
        requires
            old(self).data@.len() > 0,
        ensures
            final(self).data@.len() == old(self).data@.len(),
            final(self).data@.last()@ == old(self).data@.last()@.insert(name@, value@),
            final(self).data@.drop_last() == old(self).data@.drop_last(),
    {
        let idx = self.data.len() - 1;
        let top = &mut self.data[idx];
        top.insert(name, value);
        proof {
            assert(final(self).data@.drop_last() =~= old(self).data@.drop_last());
        }
    }
}

} // verus!
