//! Machine definitions and the registry that keeps them by name.

use vstd::prelude::*;

verus! {

/// The launch parameters of one machine, as mathematical text.
pub struct VMInfoView {
    pub name: Seq<char>,
    pub memory: Seq<char>,
    pub cpu: Seq<char>,
    pub threads: Seq<char>,
    pub disk: Seq<char>,
    pub iso: Seq<char>,
}

/// The definition of one machine.  Every field is passed through verbatim;
/// an empty `iso` means that the machine has no boot medium.
#[derive(Debug, PartialEq, Eq)]
pub struct VMInfo {
    pub name: String,
    pub memory: String,
    pub cpu: String,
    pub threads: String,
    pub disk: String,
    pub iso: String,
}

impl View for VMInfo {
    type V = VMInfoView;

    open spec fn view(&self) -> VMInfoView {
        VMInfoView {
            name: self.name@,
            memory: self.memory@,
            cpu: self.cpu@,
            threads: self.threads@,
            disk: self.disk@,
            iso: self.iso@,
        }
    }
}

impl Clone for VMInfo {
    fn clone(&self) -> (copy: Self)
        ensures
            copy@ == self@,
    {
        VMInfo {
            name: self.name.clone(),
            memory: self.memory.clone(),
            cpu: self.cpu.clone(),
            threads: self.threads.clone(),
            disk: self.disk.clone(),
            iso: self.iso.clone(),
        }
    }
}

/// Whether some record of `s` carries the name `k`.
pub open spec fn holds(s: Seq<VMInfo>, k: Seq<char>) -> bool {
    exists|i: int| 0 <= i < s.len() && (#[trigger] s[i]).name@ == k
}

/// The position in `s` of a record named `k`, where there is one.
pub open spec fn slot(s: Seq<VMInfo>, k: Seq<char>) -> int {
    choose|i: int| 0 <= i < s.len() && (#[trigger] s[i]).name@ == k
}

/// No two records of `s` share a name.
pub open spec fn names_distinct(s: Seq<VMInfo>) -> bool {
    forall|i: int, j: int| 0 <= i < j < s.len() ==> (#[trigger] s[i]).name@ != (#[trigger] s[j]).name@
}

/// The records of `s`, keyed by name.
pub open spec fn as_map(s: Seq<VMInfo>) -> Map<Seq<char>, VMInfoView> {
    Map::new(|k: Seq<char>| holds(s, k), |k: Seq<char>| s[slot(s, k)]@)
}

/// In a sequence without repeated names, a name determines its position.
pub proof fn lemma_slot_unique(s: Seq<VMInfo>, k: Seq<char>, i: int)
    requires
        names_distinct(s),
        0 <= i < s.len(),
        s[i].name@ == k,
    ensures
        holds(s, k),
        slot(s, k) == i,
        as_map(s).contains_key(k),
        as_map(s)[k] == s[i]@,
{
    let j = slot(s, k);
    assert(0 <= j < s.len() && s[j].name@ == k);
    if j < i {
        assert(s[j].name@ != s[i].name@);
    } else if i < j {
        assert(s[i].name@ != s[j].name@);
    }
}

/// Replacing the record at `i` by one of the same name rebinds that name.
pub proof fn lemma_replace(s: Seq<VMInfo>, i: int, r: VMInfo)
    requires
        names_distinct(s),
        0 <= i < s.len(),
        s[i].name@ == r.name@,
    ensures
        names_distinct(s.update(i, r)),
        as_map(s.update(i, r)) == as_map(s).insert(r.name@, r@),
{
    let t = s.update(i, r);
    assert(names_distinct(t)) by {
        assert forall|a: int, b: int| 0 <= a < b < t.len() implies (#[trigger] t[a]).name@ != (
        #[trigger] t[b]).name@ by {
            assert(s[a].name@ != s[b].name@);
        }
    }
    let lhs = as_map(t);
    let rhs = as_map(s).insert(r.name@, r@);
    assert forall|k: Seq<char>| #[trigger] lhs.contains_key(k) == rhs.contains_key(k) by {
        if k == r.name@ {
            lemma_slot_unique(t, k, i);
        } else if holds(s, k) {
            let j = slot(s, k);
            assert(t[j].name@ == k);
        } else if holds(t, k) {
            let j = slot(t, k);
            assert(s[j].name@ == k);
        }
    }
    assert forall|k: Seq<char>| #[trigger] lhs.contains_key(k) implies lhs[k] == rhs[k] by {
        if k == r.name@ {
            lemma_slot_unique(t, k, i);
        } else {
            let j = slot(t, k);
            assert(s[j].name@ == k);
            lemma_slot_unique(s, k, j);
        }
    }
    assert(lhs =~= rhs);
}

/// Appending a record whose name is new binds that name.
pub proof fn lemma_append(s: Seq<VMInfo>, r: VMInfo)
    requires
        names_distinct(s),
        !holds(s, r.name@),
    ensures
        names_distinct(s.push(r)),
        as_map(s.push(r)) == as_map(s).insert(r.name@, r@),
{
    let t = s.push(r);
    let n = s.len() as int;
    assert(names_distinct(t)) by {
        assert forall|a: int, b: int| 0 <= a < b < t.len() implies (#[trigger] t[a]).name@ != (
        #[trigger] t[b]).name@ by {
            if b < n {
                assert(s[a].name@ != s[b].name@);
            } else {
                assert(t[a] == s[a]);
                if s[a].name@ == r.name@ {
                    assert(holds(s, r.name@));
                }
            }
        }
    }
    let lhs = as_map(t);
    let rhs = as_map(s).insert(r.name@, r@);
    assert forall|k: Seq<char>| #[trigger] lhs.contains_key(k) == rhs.contains_key(k) by {
        if k == r.name@ {
            lemma_slot_unique(t, k, n);
        } else if holds(s, k) {
            let j = slot(s, k);
            assert(t[j].name@ == k);
        } else if holds(t, k) {
            let j = slot(t, k);
            assert(s[j].name@ == k);
        }
    }
    assert forall|k: Seq<char>| #[trigger] lhs.contains_key(k) implies lhs[k] == rhs[k] by {
        if k == r.name@ {
            lemma_slot_unique(t, k, n);
        } else {
            let j = slot(t, k);
            assert(s[j].name@ == k);
            lemma_slot_unique(s, k, j);
        }
    }
    assert(lhs =~= rhs);
}

/// Taking out the record at `i` unbinds its name and no other.
pub proof fn lemma_take_out(s: Seq<VMInfo>, i: int)
    requires
        names_distinct(s),
        0 <= i < s.len(),
    ensures
        names_distinct(s.remove(i)),
        as_map(s.remove(i)) == as_map(s).remove(s[i].name@),
{
    let t = s.remove(i);
    let gone = s[i].name@;
    assert forall|a: int| 0 <= a < t.len() implies #[trigger] t[a] == s[if a < i { a } else { a + 1 }] by {}
    assert(names_distinct(t)) by {
        assert forall|a: int, b: int| 0 <= a < b < t.len() implies (#[trigger] t[a]).name@ != (
        #[trigger] t[b]).name@ by {
            let a2 = if a < i { a } else { a + 1 };
            let b2 = if b < i { b } else { b + 1 };
            assert(s[a2].name@ != s[b2].name@);
        }
    }
    let lhs = as_map(t);
    let rhs = as_map(s).remove(gone);
    assert forall|k: Seq<char>| #[trigger] lhs.contains_key(k) == rhs.contains_key(k) by {
        if holds(t, k) {
            let j = slot(t, k);
            let j2 = if j < i { j } else { j + 1 };
            assert(s[j2].name@ == k);
            lemma_slot_unique(s, k, j2);
            if k == gone {
                lemma_slot_unique(s, k, i);
            }
        } else if k != gone && holds(s, k) {
            let j = slot(s, k);
            let j1 = if j < i { j } else { j - 1 };
            assert(t[j1].name@ == k);
        }
    }
    assert forall|k: Seq<char>| #[trigger] lhs.contains_key(k) implies lhs[k] == rhs[k] by {
        let j = slot(t, k);
        let j2 = if j < i { j } else { j + 1 };
        assert(s[j2].name@ == k);
        lemma_slot_unique(s, k, j2);
    }
    assert(lhs =~= rhs);
}

/// The records of `s` stored one after the other, a later record replacing
/// an earlier one of the same name.
pub open spec fn inserted_all(s: Seq<VMInfo>) -> Map<Seq<char>, VMInfoView>
    decreases s.len(),
{
    if s.len() == 0 {
        Map::empty()
    } else {
        inserted_all(s.drop_last()).insert(s.last().name@, s.last()@)
    }
}

/// Storing records of distinct names one after the other keeps them all.
pub proof fn lemma_distinct_records_are_kept(s: Seq<VMInfo>)
    requires
        names_distinct(s),
    ensures
        inserted_all(s) == as_map(s),
    decreases s.len(),
{
    if s.len() == 0 {
        assert(as_map(s) =~= Map::<Seq<char>, VMInfoView>::empty());
    } else {
        let t = s.drop_last();
        let r = s.last();
        assert(names_distinct(t)) by {
            assert forall|a: int, b: int| 0 <= a < b < t.len() implies (#[trigger] t[a]).name@ != (
            #[trigger] t[b]).name@ by {
                assert(s[a].name@ != s[b].name@);
            }
        }
        lemma_distinct_records_are_kept(t);
        if holds(t, r.name@) {
            let j = slot(t, r.name@);
            assert(s[j].name@ != s[s.len() - 1].name@);
        }
        lemma_append(t, r);
        assert(t.push(r) =~= s);
    }
}

/// The registry: the defined machines, at most one under each name.
#[derive(Debug)]
pub struct VMConfig {
    vms: Vec<VMInfo>,
}

impl View for VMConfig {
    type V = Map<Seq<char>, VMInfoView>;

    closed spec fn view(&self) -> Map<Seq<char>, VMInfoView> {
        as_map(self.vms@)
    }
}

impl VMConfig {
    /// The registry's invariant: no name is defined twice.
    pub closed spec fn wf(&self) -> bool {
        names_distinct(self.vms@)
    }

    /// The records in the order in which their names were first defined.
    pub closed spec fn entries(&self) -> Seq<VMInfo> {
        self.vms@
    }

    /// A registry that defines no machine.
    pub fn new() -> (store: Self)
        ensures
            store.wf(),
            store@ == Map::<Seq<char>, VMInfoView>::empty(),
            store.entries().len() == 0,
    {
        let store = VMConfig { vms: Vec::new() };
        assert(store@ =~= Map::<Seq<char>, VMInfoView>::empty());
        store
    }

    /// The registry that results from storing `records` one after the other.
    pub fn from_records(records: &Vec<VMInfo>) -> (store: Self)
        ensures
            store.wf(),
            store@ == inserted_all(records@),
    {
        let mut store = VMConfig::new();
        let mut i: usize = 0;
        while i < records.len()
            invariant
                i <= records@.len(),
                store.wf(),
                store@ == inserted_all(records@.take(i as int)),
            decreases records@.len() - i,
        {
            let copy = records[i].clone();
            proof {
                assert(records@.take(i + 1).drop_last() =~= records@.take(i as int));
                assert(records@.take(i + 1).last() == records@[i as int]);
            }
            store.insert(copy);
            i += 1;
        }
        assert(records@.take(i as int) =~= records@);
        store
    }

    /// A registry is what its own records give when they are stored anew: what
    /// is written out record by record and read back defines the same machines.
    pub proof fn records_round_trip(&self)
        requires
            self.wf(),
        ensures
            inserted_all(self.entries()) == self@,
    {
        lemma_distinct_records_are_kept(self.vms@);
    }

    /// The number of defined machines.
    pub fn len(&self) -> (n: usize)
        ensures
            n == self.entries().len(),
    {
        self.vms.len()
    }

    /// The defined machines, each once, in the order in which their names
    /// were first defined.
    pub fn records(&self) -> (all: &Vec<VMInfo>)
        ensures
            all@ == self.entries(),
            as_map(all@) == self@,
            self.wf() ==> names_distinct(all@),
    {
        &self.vms
    }

    fn find(&self, name: &str) -> (found: Option<usize>)
        ensures
            match found {
                Some(i) => i < self.vms@.len() && self.vms@[i as int].name@ == name@,
                None => !holds(self.vms@, name@),
            },
    {
        let key = String::from_str(name);
        let mut i: usize = 0;
        while i < self.vms.len()
            invariant
                i <= self.vms@.len(),
                key@ == name@,
                forall|j: int| 0 <= j < i ==> (#[trigger] self.vms@[j]).name@ != name@,
            decreases self.vms@.len() - i,
        {
            if self.vms[i].name == key {
                return Some(i);
            }
            i += 1;
        }
        None
    }

    /// Whether a machine is defined under `name`.
    pub fn contains(&self, name: &str) -> (present: bool)
        ensures
            present == self@.contains_key(name@),
    {
        self.find(name).is_some()
    }

    /// The definition stored under `name`, if there is one.
    pub fn get(&self, name: &str) -> (found: Option<&VMInfo>)
        requires
            self.wf(),
        ensures
            match found {
                Some(vm) => self@.contains_key(name@) && vm@ == self@[name@] && vm.name@ == name@,
                None => !self@.contains_key(name@),
            },
    {
        match self.find(name) {
            Some(i) => {
                proof {
                    lemma_slot_unique(self.vms@, name@, i as int);
                }
                Some(&self.vms[i])
            },
            None => None,
        }
    }

    /// Stores `record` under its own name.  A definition already stored under
    /// that name is replaced as a whole: the last write wins.
    pub fn insert(&mut self, record: VMInfo)
        requires
            old(self).wf(),
        ensures
            final(self).wf(),
            final(self)@ == old(self)@.insert(record.name@, record@),
    {
        match self.find(record.name.as_str()) {
            Some(i) => {
                proof {
                    lemma_replace(self.vms@, i as int, record);
                }
                self.vms.set(i, record);
            },
            None => {
                proof {
                    lemma_append(self.vms@, record);
                }
                self.vms.push(record);
            },
        }
    }

    /// Takes the definition stored under `name` out of the registry and hands
    /// it back; a registry without that name is left as it was.
    pub fn remove(&mut self, name: &str) -> (taken: Option<VMInfo>)
        requires
            old(self).wf(),
        ensures
            final(self).wf(),
            final(self)@ == old(self)@.remove(name@),
            match taken {
                Some(vm) => old(self)@.contains_key(name@) && vm@ == old(self)@[name@] && vm.name@
                    == name@,
                None => !old(self)@.contains_key(name@) && final(self)@ == old(self)@,
            },
    {
        match self.find(name) {
            Some(i) => {
                proof {
                    lemma_slot_unique(self.vms@, name@, i as int);
                    lemma_take_out(self.vms@, i as int);
                }
                let vm = self.vms.remove(i);
                Some(vm)
            },
            None => {
                assert(self@.remove(name@) =~= self@);
                None
            },
        }
    }
}

impl Default for VMConfig {
    fn default() -> (store: Self)
        ensures
            store.wf(),
            store@ == Map::<Seq<char>, VMInfoView>::empty(),
    {
        VMConfig::new()
    }
}

} // verus!
