use crate::types::{same_id, AccountId, Error, File, FileId, FileView};
use vstd::prelude::*;

verus! {

/// One file of the store with the identifier it is kept under.
struct StoredFile {
    id: FileId,
    file: File,
}

/// The identifiers of a sequence of stored files, in the same order.
spec fn ids_of(entries: Seq<StoredFile>) -> Seq<FileId> {
    Seq::new(entries.len(), |i: int| entries[i].id)
}

/// The registry's files by identifier. A file is never taken out again, and
/// only its owner ever changes.
pub struct FileStore {
    entries: Vec<StoredFile>,
}

impl View for FileStore {
    type V = Map<FileId, FileView>;

    /// The file kept under each identifier.
    closed spec fn view(&self) -> Map<FileId, FileView> {
        let ids = ids_of(self.entries@);
        Map::new(|id: FileId| ids.contains(id), |id: FileId| self.entries@[ids.index_of(id)].file@)
    }
}

impl FileStore {
    /// No identifier is kept twice.
    pub closed spec fn wf(&self) -> bool {
        ids_of(self.entries@).no_duplicates()
    }

    /// The number of files in the store.
    pub closed spec fn count(&self) -> nat {
        self.entries@.len()
    }

    /// The store holds as many files as it has identifiers.
    pub proof fn lemma_count(&self)
        requires
            self.wf(),
        ensures
            self@.dom().finite(),
            self@.dom().len() == self.count(),
    {
        let ids = ids_of(self.entries@);
        vstd::seq_lib::seq_to_set_is_finite(ids);
        ids.unique_seq_to_set();
    }

    /// A store without files.
    pub fn new() -> (store: FileStore)
        ensures
            store.wf(),
            store@ == Map::<FileId, FileView>::empty(),
            store.count() == 0,
    {
        let store = FileStore { entries: Vec::new() };
        store
    }

    /// The number of files in the store.
    pub fn len(&self) -> (n: usize)
        requires
            self.wf(),
        ensures
            n == self.count(),
            self@.dom().finite(),
            n == self@.dom().len(),
    {
        proof {
            self.lemma_count();
        }
        self.entries.len()
    }

    /// The place of `id` among the entries.
    fn find(&self, id: &FileId) -> (res: Option<usize>)
        ensures
            match res {
                Some(i) => {
                    &&& i < self.entries@.len()
                    &&& self.entries@[i as int].id == *id
                    &&& self@.contains_key(*id)
                    &&& self.wf() ==> self@[*id] == self.entries@[i as int].file@
                },
                None => !self@.contains_key(*id),
            },
    {
        let ghost ids = ids_of(self.entries@);
        let n = self.entries.len();
        let mut i: usize = 0;
        while i < n
            invariant
                i <= n,
                n == self.entries@.len(),
                ids == ids_of(self.entries@),
                forall|j: int| 0 <= j < i ==> ids[j] != *id,
            decreases n - i,
        {
            if same_id(&self.entries[i].id, id) {
                proof {
                    assert(ids[i as int] == *id);
                    assert(self.wf() ==> ids.index_of(*id) == i);
                }
                return Some(i);
            }
            i = i + 1;
        }
        None
    }

    /// Whether a file is kept under `id`.
    pub fn contains(&self, id: &FileId) -> (found: bool)
        ensures
            found == self@.contains_key(*id),
    {
        self.find(id).is_some()
    }

    /// The file kept under `id`.
    pub fn get(&self, id: &FileId) -> (res: Option<&File>)
        requires
            self.wf(),
        ensures
            match res {
                Some(file) => self@.contains_key(*id) && file@ == self@[*id],
                None => !self@.contains_key(*id),
            },
    {
        match self.find(id) {
            Some(i) => Some(&self.entries[i].file),
            None => None,
        }
    }

    /// Keeps `file` under `id`, unless a file is kept under `id` already.
    pub fn insert(&mut self, id: FileId, file: File) -> (res: Result<(), Error>)
        requires
            old(self).wf(),
        ensures
            final(self).wf(),
            match res {
                Ok(_) => {
                    &&& !old(self)@.contains_key(id)
                    &&& final(self)@ == old(self)@.insert(id, file@)
                    &&& final(self).count() == old(self).count() + 1
                },
                Err(error) => {
                    &&& error == Error::FileAlreadyExists
                    &&& old(self)@.contains_key(id)
                    &&& final(self)@ == old(self)@
                    &&& final(self).count() == old(self).count()
                },
            },
    {
        if self.contains(&id) {
            return Err(Error::FileAlreadyExists);
        }
        let ghost before = *self;
        let ghost view = file@;
        self.entries.push(StoredFile { id, file });
        proof {
            let old_ids = ids_of(before.entries@);
            let new_ids = ids_of(self.entries@);
            let last = before.entries@.len() as int;
            assert forall|i: int, j: int|
                0 <= i < new_ids.len() && 0 <= j < new_ids.len() && i != j implies new_ids[i]
                != new_ids[j] by {
                if i < last && j < last {
                    assert(old_ids[i] != old_ids[j]);
                } else if i < last {
                    assert(old_ids.contains(old_ids[i]));
                } else {
                    assert(old_ids.contains(old_ids[j]));
                }
            }
            assert forall|key: FileId|
                new_ids.contains(key) <==> (key == id || old_ids.contains(key)) by {
                if key == id {
                    assert(new_ids[last] == key);
                }
                if old_ids.contains(key) {
                    let at = old_ids.index_of(key);
                    assert(new_ids[at] == key);
                }
                if new_ids.contains(key) && key != id {
                    let at = new_ids.index_of(key);
                    assert(old_ids[at] == key);
                }
            }
            assert forall|key: FileId| new_ids.contains(key) implies #[trigger] self@[key]
                == before@.insert(id, view)[key] by {
                let was = if key == id { last } else { old_ids.index_of(key) };
                assert(new_ids[was] == key);
                assert(new_ids.index_of(key) == was);
            }
        }
        Ok(())
    }

    /// Hands the file kept under `id` to `new_owner`; the rest of the file
    /// stays as it is. Returns whether a file is kept under `id`.
    pub fn set_owner(&mut self, id: &FileId, new_owner: AccountId) -> (found: bool)
        requires
            old(self).wf(),
        ensures
            final(self).wf(),
            final(self).count() == old(self).count(),
            found == old(self)@.contains_key(*id),
            found ==> final(self)@ == old(self)@.insert(*id, old(self)@[*id].owned_by(new_owner)),
            !found ==> final(self)@ == old(self)@,
    {
        match self.find(id) {
            Some(i) => {
                let ghost before = *self;
                let entry = &mut self.entries[i];
                entry.file.owner = new_owner;
                proof {
                    let ids = ids_of(before.entries@);
                    let target = before@[*id].owned_by(new_owner);
                    assert(forall|j: int|
                        0 <= j < ids.len() && j != i ==> self.entries@[j] == before.entries@[j]);
                    assert(ids_of(self.entries@) =~= ids);
                    assert forall|key: FileId| ids.contains(key) implies #[trigger] self@[key]
                        == before@.insert(*id, target)[key] by {
                        if key == *id {
                            assert(ids[ids.index_of(key)] == ids[i as int]);
                        }
                    }
                }
                true
            },
            None => false,
        }
    }
}

} // verus!
