//! The object handle table: VM object references kept under names the caller
//! chose, so that an object returned by one call can be an argument of a later
//! one.
use crate::text::same_text;
use jni::objects::GlobalRef;
use vstd::prelude::*;

verus! {

/// One named reference.
struct JObjectEntry {
    id: String,
    object: GlobalRef,
}

impl JObjectEntry {
    fn new(id: &str, object: GlobalRef) -> (r: JObjectEntry)
        ensures
            r.id@ == id@,
            r.object == object,
    {
        JObjectEntry { id: id.to_owned(), object }
    }
}

/// Named references to VM objects. No name occurs twice; the table owns each
/// reference from the moment it is added until it is replaced or the table is
/// dropped.
pub struct JObjectStore {
    inner: Vec<JObjectEntry>,
}

impl View for JObjectStore {
    type V = Map<Seq<char>, GlobalRef>;

    /// The table as a finite map from name to reference.
    closed spec fn view(&self) -> Map<Seq<char>, GlobalRef> {
        Map::new(
            |id: Seq<char>| self.names().contains(id),
            |id: Seq<char>| self.inner@[self.names().index_of(id)].object,
        )
    }
}

impl JObjectStore {
    /// The names in the order in which they were first added.
    pub closed spec fn names(&self) -> Seq<Seq<char>> {
        Seq::new(self.inner@.len(), |i: int| self.inner@[i].id@)
    }

    /// Well-formedness: no name occurs twice.
    pub closed spec fn wf(&self) -> bool {
        self.names().no_duplicates()
    }

    proof fn lemma_entry_at(&self, i: int)
        requires
            self.wf(),
            0 <= i < self.inner@.len(),
        ensures
            self@.dom().contains(self.inner@[i].id@),
            self@[self.inner@[i].id@] == self.inner@[i].object,
    {
        let names = self.names();
        assert(names[i] == self.inner@[i].id@);
        assert(names.contains(self.inner@[i].id@));
        let j = names.index_of(self.inner@[i].id@);
        assert(names[j] == names[i]);
    }

    /// An empty table.
    pub fn new() -> (r: Self)
        ensures
            r.wf(),
            r@ == Map::<Seq<char>, GlobalRef>::empty(),
    {
        let r = JObjectStore { inner: Vec::new() };
        proof {
            assert(r.names() =~= Seq::<Seq<char>>::empty());
            assert(r@ =~= Map::<Seq<char>, GlobalRef>::empty());
        }
        r
    }

    fn position(&self, j_object_id: &str) -> (r: Option<usize>)
        requires
            self.wf(),
        ensures
            match r {
                Some(i) => i < self.inner@.len() && self.inner@[i as int].id@ == j_object_id@,
                None => !self.names().contains(j_object_id@),
            },
    {
        let mut i: usize = 0;
        while i < self.inner.len()
            invariant
                i <= self.inner@.len(),
                forall|k: int| 0 <= k < i ==> self.inner@[k].id@ != j_object_id@,
            decreases self.inner@.len() - i,
        {
            if same_text(self.inner[i].id.as_str(), j_object_id) {
                return Some(i);
            }
            i = i + 1;
        }
        proof {
            let names = self.names();
            assert forall|k: int| 0 <= k < names.len() implies names[k] != j_object_id@ by {
                assert(names[k] == self.inner@[k].id@);
            }
        }
        None
    }

    /// The reference kept under `j_object_id`, if there is one.
    pub fn find(&self, j_object_id: &str) -> (r: Option<&GlobalRef>)
        requires
            self.wf(),
        ensures
            r is Some <==> self@.dom().contains(j_object_id@),
            r matches Some(o) ==> *o == self@[j_object_id@],
    {
        match self.position(j_object_id) {
            Some(i) => {
                proof {
                    self.lemma_entry_at(i as int);
                }
                Some(&self.inner[i].object)
            },
            None => None,
        }
    }

    /// Whether a reference is kept under `j_object_id`.
    pub fn contains(&self, j_object_id: &str) -> (r: bool)
        requires
            self.wf(),
        ensures
            r == self@.dom().contains(j_object_id@),
    {
        self.find(j_object_id).is_some()
    }

    /// The number of references kept.
    pub fn len(&self) -> (r: usize)
        requires
            self.wf(),
        ensures
            r == self@.dom().len(),
            self@.dom().finite(),
    {
        proof {
            self.names().unique_seq_to_set();
            assert(self@.dom() =~= self.names().to_set());
        }
        self.inner.len()
    }

    /// Keeps `j_object` under `id`. Where `id` is already taken the new
    /// reference replaces the old one, which is released: the last write wins
    /// and every other name keeps its reference.
    pub fn add_object_with_id(&mut self, id: &str, j_object: GlobalRef) -> (r: &mut Self)
        requires
            old(self).wf(),
        ensures
            r.wf(),
            r@ == old(self)@.insert(id@, j_object),
            *final(self) == *final(r),
    {
        match self.position(id) {
            Some(i) => {
                let ghost before = *self;
                self.inner.set(i, JObjectEntry::new(id, j_object));
                proof {
                    assert(self.names() =~= before.names());
                    assert forall|key: Seq<char>| self@.dom().contains(key) implies #[trigger] self@[key]
                        == before@.insert(id@, j_object)[key] by {
                        let k = self.names().index_of(key);
                        assert(self.names()[k] == key);
                        if key == id@ {
                            assert(self.names()[i as int] == id@);
                        } else {
                            assert(k != i);
                        }
                    }
                    assert(before@.dom().contains(id@)) by {
                        assert(before.names()[i as int] == id@);
                    }
                    assert(self@ =~= before@.insert(id@, j_object));
                }
            },
            None => {
                let ghost before = *self;
                self.inner.push(JObjectEntry::new(id, j_object));
                proof {
                    assert(self.names() =~= before.names().push(id@));
                    let n = before.names().len() as int;
                    assert(self.names()[n] == id@);
                    assert forall|key: Seq<char>| self@.dom().contains(key) implies #[trigger] self@[key]
                        == before@.insert(id@, j_object)[key] by {
                        let k = self.names().index_of(key);
                        assert(self.names()[k] == key);
                        if key != id@ {
                            assert(k < n);
                            assert(before.names()[k] == key);
                            let k0 = before.names().index_of(key);
                            assert(before.names()[k0] == key);
                        } else {
                            assert(k == n);
                        }
                    }
                    assert forall|key: Seq<char>|
                        self@.dom().contains(key) <==> before@.insert(id@, j_object).dom().contains(
                            key,
                        ) by {
                        if self.names().contains(key) {
                            let k = self.names().index_of(key);
                            assert(self.names()[k] == key);
                            if k < n {
                                assert(before.names()[k] == key);
                            }
                        }
                        if before.names().contains(key) {
                            let k = before.names().index_of(key);
                            assert(before.names()[k] == key);
                            assert(self.names()[k] == key);
                        }
                    }
                    assert(self@ =~= before@.insert(id@, j_object));
                }
            },
        }
        self
    }
}

} // verus!
