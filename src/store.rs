use vstd::prelude::*;
use crate::error::VexError;
use crate::record::{QemuConfig, RecordView, copy_strings, opt_view, strs_view};

verus! {

/// What a stored entry means: a record, or `None` where the stored text is
/// not a readable record.
pub open spec fn entry_view(e: Option<QemuConfig>) -> Option<RecordView> {
    match e {
        Some(c) => Some(c@),
        None => None,
    }
}

/// What loading `name` from a store with contents `m` gives.
pub open spec fn load_spec(m: Map<Seq<char>, Option<RecordView>>, name: Seq<char>) -> Result<RecordView, VexError> {
    if !m.contains_key(name) {
        Err(VexError::NotFound)
    } else {
        match m[name] {
            Some(r) => Ok(r),
            None => Err(VexError::Corrupt),
        }
    }
}

/// A record after a rename: the new description where one is given.
pub open spec fn with_desc(r: RecordView, desc: Option<Seq<char>>) -> RecordView {
    match desc {
        Some(d) => RecordView { desc: Some(d), ..r },
        None => r,
    }
}

/// `r` lists each readable record of `m` once, with its name.
pub open spec fn lists_readable(r: Seq<(String, QemuConfig)>, m: Map<Seq<char>, Option<RecordView>>) -> bool {
    &&& forall|j: int|
        0 <= j < r.len() ==> m.contains_key(#[trigger] r[j].0@) && m[r[j].0@] == Some(r[j].1@)
    &&& forall|k: Seq<char>|
        m.contains_key(k) && (#[trigger] m[k]).is_some() ==> exists|j: int| 0 <= j < r.len() && #[trigger] r[j].0@ == k
    &&& forall|j1: int, j2: int|
        0 <= j1 < r.len() && 0 <= j2 < r.len() && j1 != j2 ==> #[trigger] r[j1].0@ != #[trigger] r[j2].0@
}

/// `r` lists each name of `m` once.
pub open spec fn lists_names(r: Seq<Seq<char>>, m: Map<Seq<char>, Option<RecordView>>) -> bool {
    &&& forall|k: Seq<char>| m.contains_key(k) <==> #[trigger] r.contains(k)
    &&& forall|j1: int, j2: int|
        0 <= j1 < r.len() && 0 <= j2 < r.len() && j1 != j2 ==> #[trigger] r[j1] != #[trigger] r[j2]
}

pub open spec fn load_view(r: Result<QemuConfig, VexError>) -> Result<RecordView, VexError> {
    match r {
        Ok(c) => Ok(c@),
        Err(e) => Err(e),
    }
}

/// The configurations of one directory, keyed by name. An entry holds the
/// record stored under that name, or `None` where what is stored there
/// could not be read as a record.
pub struct ConfigStore {
    names: Vec<String>,
    entries: Vec<Option<QemuConfig>>,
    contents: Ghost<Map<Seq<char>, Option<RecordView>>>,
}

impl View for ConfigStore {
    type V = Map<Seq<char>, Option<RecordView>>;

    closed spec fn view(&self) -> Map<Seq<char>, Option<RecordView>> {
        self.contents@
    }
}

impl ConfigStore {
    /// Names are unique, and the two vectors hold exactly the map's entries.
    pub closed spec fn wf(&self) -> bool {
        &&& self.names.len() == self.entries.len()
        &&& forall|i: int, j: int|
            0 <= i < self.names.len() && 0 <= j < self.names.len() && i != j
                ==> #[trigger] self.names@[i]@ != #[trigger] self.names@[j]@
        &&& forall|k: Seq<char>|
            #[trigger] self.contents@.contains_key(k)
                <==> exists|i: int| 0 <= i < self.names.len() && #[trigger] self.names@[i]@ == k
        &&& forall|i: int|
            0 <= i < self.names.len() ==> self.contents@[#[trigger] self.names@[i]@] == entry_view(
                self.entries@[i],
            )
    }

    pub fn new() -> (r: ConfigStore)
        ensures
            r.wf(),
            r@ == Map::<Seq<char>, Option<RecordView>>::empty(),
    {
        ConfigStore { names: Vec::new(), entries: Vec::new(), contents: Ghost(Map::empty()) }
    }

    fn find(&self, name: &String) -> (r: Option<usize>)
        requires
            self.wf(),
        ensures
            match r {
                Some(i) => i < self.names.len() && self.names@[i as int]@ == name@,
                None => !self@.contains_key(name@),
            },
    {
        let mut i: usize = 0;
        while i < self.names.len()
            invariant
                self.wf(),
                i <= self.names.len(),
                forall|j: int| 0 <= j < i ==> #[trigger] self.names@[j]@ != name@,
            decreases self.names.len() - i,
        {
            if self.names[i] == *name {
                return Some(i);
            }
            i = i + 1;
        }
        None
    }

    /// Whether anything, readable or not, is stored under `name`.
    pub fn contains(&self, name: &String) -> (r: bool)
        requires
            self.wf(),
        ensures
            r == self@.contains_key(name@),
    {
        self.find(name).is_some()
    }

    /// The record stored under `name`.
    pub fn load(&self, name: &String) -> (r: Result<QemuConfig, VexError>)
        requires
            self.wf(),
        ensures
            load_view(r) == load_spec(self@, name@),
    {
        match self.find(name) {
            None => Err(VexError::NotFound),
            Some(i) => match &self.entries[i] {
                Some(c) => Ok(c.duplicate()),
                None => Err(VexError::Corrupt),
            },
        }
    }

    /// Stores `entry` under `name`, in place of what was there.
    pub fn insert_entry(&mut self, name: String, entry: Option<QemuConfig>)
        requires
            old(self).wf(),
        ensures
            final(self).wf(),
            final(self)@ == old(self)@.insert(name@, entry_view(entry)),
    {
        let ghost v = entry_view(entry);
        match self.find(&name) {
            Some(i) => {
                self.entries.set(i, entry);
                proof {
                    self.contents@ = self.contents@.insert(name@, v);
                    assert forall|j: int| 0 <= j < self.names.len() implies self.contents@[
                        #[trigger] self.names@[j]@] == entry_view(self.entries@[j]) by {
                        if j != i {
                            assert(self.names@[j]@ != self.names@[i as int]@);
                        }
                    }
                    assert forall|k: Seq<char>| #[trigger] self.contents@.contains_key(k)
                        implies exists|j: int| 0 <= j < self.names.len() && #[trigger] self.names@[j]@ == k by {
                        if k == name@ {
                            assert(self.names@[i as int]@ == k);
                        }
                    }
                }
            },
            None => {
                let ghost n = self.names@;
                self.names.push(name);
                self.entries.push(entry);
                proof {
                    let last = self.names.len() - 1;
                    self.contents@ = self.contents@.insert(self.names@[last]@, v);
                    assert(forall|j: int| 0 <= j < last ==> self.names@[j] == n[j]);
                    assert forall|k: Seq<char>| #[trigger] self.contents@.contains_key(k)
                        implies exists|j: int| 0 <= j < self.names.len() && #[trigger] self.names@[j]@ == k by {
                        if k == self.names@[last]@ {
                            assert(self.names@[last]@ == k);
                        } else {
                            let j = choose|j: int| 0 <= j < n.len() && #[trigger] n[j]@ == k;
                            assert(self.names@[j]@ == k);
                        }
                    }
                    assert forall|k: Seq<char>|
                        exists|j: int| 0 <= j < self.names.len() && #[trigger] self.names@[j]@ == k
                        implies #[trigger] self.contents@.contains_key(k) by {
                        let j = choose|j: int| 0 <= j < self.names.len() && #[trigger] self.names@[j]@ == k;
                        if j < last {
                            assert(n[j]@ == k);
                        }
                    }
                }
            },
        }
    }

    /// Stores `record` under `name`, in place of what was there.
    pub fn save(&mut self, name: String, record: QemuConfig)
        requires
            old(self).wf(),
        ensures
            final(self).wf(),
            final(self)@ == old(self)@.insert(name@, Some(record@)),
    {
        self.insert_entry(name, Some(record));
    }

    /// Removes what is stored under `name`.
    pub fn delete(&mut self, name: &String) -> (r: Result<(), VexError>)
        requires
            old(self).wf(),
        ensures
            final(self).wf(),
            old(self)@.contains_key(name@) ==> r is Ok && final(self)@ == old(self)@.remove(name@),
            !old(self)@.contains_key(name@) ==> r == Err::<(), VexError>(VexError::NotFound)
                && final(self)@ == old(self)@,
    {
        match self.find(name) {
            None => Err(VexError::NotFound),
            Some(i) => {
                let ghost n = self.names@;
                let ghost e = self.entries@;
                self.names.remove(i);
                self.entries.remove(i);
                proof {
                    self.contents@ = self.contents@.remove(name@);
                    assert forall|j: int| 0 <= j < self.names.len() implies #[trigger] self.names@[j]
                        == n[if j < i { j } else { j + 1 }] && self.entries@[j] == e[if j < i { j } else { j + 1 }] by {}
                    assert forall|j1: int, j2: int|
                        0 <= j1 < self.names.len() && 0 <= j2 < self.names.len() && j1 != j2
                        implies #[trigger] self.names@[j1]@ != #[trigger] self.names@[j2]@ by {
                        let a = if j1 < i { j1 } else { j1 + 1 };
                        let b = if j2 < i { j2 } else { j2 + 1 };
                        assert(n[a]@ != n[b]@);
                    }
                    assert forall|j: int| 0 <= j < self.names.len() implies self.contents@[
                        #[trigger] self.names@[j]@] == entry_view(self.entries@[j]) by {
                        let a = if j < i { j } else { j + 1 };
                        assert(n[a]@ != n[i as int]@);
                    }
                    assert forall|k: Seq<char>| #[trigger] self.contents@.contains_key(k)
                        implies exists|j: int| 0 <= j < self.names.len() && #[trigger] self.names@[j]@ == k by {
                        let a = choose|a: int| 0 <= a < n.len() && #[trigger] n[a]@ == k;
                        assert(a != i);
                        let j = if a < i { a } else { a - 1 };
                        assert(self.names@[j]@ == k);
                    }
                    assert forall|k: Seq<char>|
                        exists|j: int| 0 <= j < self.names.len() && #[trigger] self.names@[j]@ == k
                        implies #[trigger] self.contents@.contains_key(k) by {
                        let j = choose|j: int| 0 <= j < self.names.len() && #[trigger] self.names@[j]@ == k;
                        let a = if j < i { j } else { j + 1 };
                        assert(n[a]@ == k);
                        assert(n[a]@ != n[i as int]@);
                    }
                }
                Ok(())
            },
        }
    }

    /// The readable records with their names, in storage order; entries that
    /// cannot be read are left out.
    pub fn list(&self) -> (r: Vec<(String, QemuConfig)>)
        requires
            self.wf(),
        ensures
            lists_readable(r@, self@),
    {
        let mut r: Vec<(String, QemuConfig)> = Vec::new();
        let ghost mut idx: Seq<int> = Seq::empty();
        let mut i: usize = 0;
        while i < self.names.len()
            invariant
                self.wf(),
                i <= self.names.len(),
                idx.len() == r.len(),
                forall|j: int| 0 <= j < r.len() ==> 0 <= #[trigger] idx[j] < i
                    && r@[j].0@ == self.names@[idx[j]]@ && self.entries@[idx[j]] is Some
                    && r@[j].1@ == self.entries@[idx[j]]->Some_0@,
                forall|j1: int, j2: int| 0 <= j1 < j2 < r.len() ==> #[trigger] idx[j1] < #[trigger] idx[j2],
                forall|p: int| 0 <= p < i && (#[trigger] self.entries@[p]) is Some
                    ==> exists|j: int| 0 <= j < r.len() && #[trigger] idx[j] == p,
            decreases self.names.len() - i,
        {
            match &self.entries[i] {
                Some(c) => {
                    let ghost old_idx = idx;
                    r.push((self.names[i].clone(), c.duplicate()));
                    proof { idx = idx.push(i as int); }
                    assert forall|p: int| 0 <= p < i + 1 && (#[trigger] self.entries@[p]) is Some
                        implies exists|j: int| 0 <= j < r.len() && #[trigger] idx[j] == p by {
                        if p == i {
                            assert(idx[r.len() - 1] == p);
                        } else {
                            let j = choose|j: int| 0 <= j < old_idx.len() && #[trigger] old_idx[j] == p;
                            assert(idx[j] == old_idx[j]);
                        }
                    }
                },
                None => {},
            }
            i = i + 1;
        }
        proof {
            assert forall|j: int| 0 <= j < r.len() implies self@.contains_key(#[trigger] r@[j].0@)
                && self@[r@[j].0@] == Some(r@[j].1@) by {
                assert(self.names@[idx[j]]@ == r@[j].0@);
            }
            assert forall|k: Seq<char>| self@.contains_key(k) && (#[trigger] self@[k]).is_some()
                implies exists|j: int| 0 <= j < r.len() && #[trigger] r@[j].0@ == k by {
                let p = choose|p: int| 0 <= p < self.names.len() && #[trigger] self.names@[p]@ == k;
                assert(self.entries@[p] is Some);
                let j = choose|j: int| 0 <= j < r.len() && #[trigger] idx[j] == p;
                assert(r@[j].0@ == k);
            }
            assert forall|j1: int, j2: int| 0 <= j1 < r.len() && 0 <= j2 < r.len() && j1 != j2
                implies #[trigger] r@[j1].0@ != #[trigger] r@[j2].0@ by {
                if j1 < j2 {
                    assert(idx[j1] < idx[j2]);
                } else {
                    assert(idx[j2] < idx[j1]);
                }
                assert(self.names@[idx[j1]]@ != self.names@[idx[j2]]@);
            }
        }
        r
    }

    /// Every stored name, readable or not, in storage order.
    pub fn list_names(&self) -> (r: Vec<String>)
        requires
            self.wf(),
        ensures
            lists_names(strs_view(r@), self@),
    {
        let r = copy_strings(&self.names);
        proof {
            let v = strs_view(r@);
            assert(v.len() == self.names.len());
            assert forall|j: int| 0 <= j < v.len() implies #[trigger] v[j] == self.names@[j]@ by {
                assert(strs_view(self.names@)[j] == self.names@[j]@);
            }
            assert forall|k: Seq<char>| self@.contains_key(k) <==> #[trigger] v.contains(k) by {
                if self@.contains_key(k) {
                    let p = choose|p: int| 0 <= p < self.names.len() && #[trigger] self.names@[p]@ == k;
                    assert(v[p] == k);
                }
                if v.contains(k) {
                    let p = choose|p: int| 0 <= p < v.len() && v[p] == k;
                    assert(self.names@[p]@ == k);
                }
            }
        }
        r
    }

    /// Moves the record under `old_name` to `new_name`, with `desc` as its
    /// description where one is given. What was under `new_name` is
    /// replaced. The result is the record as now stored.
    pub fn rename(&mut self, old_name: &String, new_name: &String, desc: Option<String>) -> (r: Result<QemuConfig, VexError>)
        requires
            old(self).wf(),
        ensures
            final(self).wf(),
            match load_spec(old(self)@, old_name@) {
                Err(e) => r == Err::<QemuConfig, VexError>(e) && final(self)@ == old(self)@,
                Ok(rec) => r is Ok && r->Ok_0@ == with_desc(rec, opt_view(desc))
                    && final(self)@ == old(self)@.insert(new_name@, Some(with_desc(rec, opt_view(desc)))).remove(old_name@),
            },
    {
        match self.load(old_name) {
            Err(e) => Err(e),
            Ok(c) => {
                let record = match desc {
                    Some(d) => QemuConfig { desc: Some(d), ..c },
                    None => c,
                };
                self.save(new_name.clone(), record.duplicate());
                let _ = self.delete(old_name);
                Ok(record)
            },
        }
    }
}

/// Loading a name right after saving a record under it gives that record.
pub proof fn lemma_save_then_load(m: Map<Seq<char>, Option<RecordView>>, name: Seq<char>, rec: RecordView)
    ensures
        load_spec(m.insert(name, Some(rec)), name) == Ok::<RecordView, VexError>(rec),
{
}

/// Deleting a name right after saving under it leaves nothing under that
/// name, and loading it then fails with `NotFound`.
pub proof fn lemma_delete_after_save(m: Map<Seq<char>, Option<RecordView>>, name: Seq<char>, rec: RecordView)
    ensures
        !m.insert(name, Some(rec)).remove(name).contains_key(name),
        load_spec(m.insert(name, Some(rec)).remove(name), name) == Err::<RecordView, VexError>(VexError::NotFound),
{
}

/// A rename between two different names leaves nothing under the old name
/// and, under the new one, the old record with the new description where
/// one is given.
pub proof fn lemma_rename_moves(
    m: Map<Seq<char>, Option<RecordView>>,
    old_name: Seq<char>,
    new_name: Seq<char>,
    desc: Option<Seq<char>>,
)
    requires
        old_name != new_name,
        load_spec(m, old_name) is Ok,
    ensures
        ({
            let rec = load_spec(m, old_name)->Ok_0;
            let after = m.insert(new_name, Some(with_desc(rec, desc))).remove(old_name);
            &&& !after.contains_key(old_name)
            &&& after.contains_key(new_name)
            &&& load_spec(after, new_name) == Ok::<RecordView, VexError>(with_desc(rec, desc))
        }),
{
}

/// A rename from a name that holds nothing fails with `NotFound`, and so
/// (by `rename`'s contract) leaves the store as it was.
pub proof fn lemma_rename_absent_source(m: Map<Seq<char>, Option<RecordView>>, old_name: Seq<char>)
    requires
        !m.contains_key(old_name),
    ensures
        load_spec(m, old_name) == Err::<RecordView, VexError>(VexError::NotFound),
{
}

} // verus!
