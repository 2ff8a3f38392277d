use crate::bounded::{
    bounded_ids, id_list_get, id_list_len, id_list_new, id_list_remove, id_list_try_push, IdList,
};
use crate::types::{same_id, AccountId, Error, FileId};
use std::collections::HashMap;
use vstd::prelude::*;

verus! {

broadcast use vstd::std_specs::hash::group_hash_axioms;

/// Whether `i` is the first place at which `id` stands in `ids`.
pub open spec fn is_first_position(ids: Seq<FileId>, id: FileId, i: int) -> bool {
    &&& 0 <= i < ids.len()
    &&& ids[i] == id
    &&& forall|j: int| 0 <= j < i ==> ids[j] != id
}

/// For each account a list of identifiers, no list longer than the quota
/// that the index was made with. An account that was never given an
/// identifier has the empty list.
pub struct AccountIndex {
    quota: u32,
    lists: HashMap<AccountId, IdList>,
}

impl View for AccountIndex {
    type V = Map<AccountId, Seq<FileId>>;

    /// The list of every account.
    open spec fn view(&self) -> Map<AccountId, Seq<FileId>> {
        Map::total(|account: AccountId| self.ids(account))
    }
}

impl AccountIndex {
    /// The identifiers listed for `account`, in the order in which they were
    /// added.
    pub closed spec fn ids(&self, account: AccountId) -> Seq<FileId> {
        if self.lists@.contains_key(account) {
            bounded_ids(self.lists@[account])
        } else {
            Seq::empty()
        }
    }

    /// The most identifiers that the index lists for one account.
    pub closed spec fn quota_spec(&self) -> u32 {
        self.quota
    }

    /// No list is longer than the quota.
    pub open spec fn wf(&self) -> bool {
        forall|account: AccountId| #[trigger] self.ids(account).len() <= self.quota_spec()
    }

    /// An index in which every account has the empty list, with the quota
    /// `quota`.
    pub fn new(quota: u32) -> (index: AccountIndex)
        ensures
            index.wf(),
            index.quota_spec() == quota,
            forall|account: AccountId| #[trigger] index.ids(account) == Seq::<FileId>::empty(),
    {
        AccountIndex { quota, lists: HashMap::new() }
    }

    /// The most identifiers that the index lists for one account.
    pub fn quota(&self) -> (quota: u32)
        ensures
            quota == self.quota_spec(),
    {
        self.quota
    }

    /// The number of identifiers listed for `account`.
    pub fn len(&self, account: AccountId) -> (n: usize)
        ensures
            n == self@[account].len(),
    {
        match self.lists.get(&account) {
            Some(list) => id_list_len(list),
            None => 0,
        }
    }

    /// Whether the list of `account` holds as many identifiers as the quota
    /// allows.
    pub fn is_full(&self, account: AccountId) -> (full: bool)
        ensures
            full == (self@[account].len() >= self.quota_spec()),
    {
        self.len(account) >= self.quota as usize
    }

    /// The identifiers listed for `account`, in order.
    pub fn list(&self, account: AccountId) -> (ids: Vec<FileId>)
        ensures
            ids@ == self@[account],
    {
        let mut ids: Vec<FileId> = Vec::new();
        match self.lists.get(&account) {
            Some(list) => {
                let ghost all = bounded_ids(*list);
                let n = id_list_len(list);
                let mut i: usize = 0;
                while i < n
                    invariant
                        i <= n,
                        n == all.len(),
                        all == bounded_ids(*list),
                        ids@ == all.take(i as int),
                    decreases n - i,
                {
                    ids.push(id_list_get(list, i));
                    assert(all.take(i + 1) =~= all.take(i as int).push(all[i as int]));
                    i = i + 1;
                }
                assert(all.take(n as int) =~= all);
            },
            None => {},
        }
        ids
    }

    /// Whether `id` is listed for `account`.
    pub fn contains(&self, account: AccountId, id: &FileId) -> (found: bool)
        ensures
            found == self@[account].contains(*id),
    {
        match self.lists.get(&account) {
            Some(list) => find_id(list, id).is_some(),
            None => false,
        }
    }

    /// Appends `id` to the list of `account`, unless the list is full.
    pub fn add(&mut self, account: AccountId, id: FileId) -> (res: Result<(), Error>)
        requires
            old(self).wf(),
        ensures
            final(self).wf(),
            final(self).quota_spec() == old(self).quota_spec(),
            match res {
                Ok(_) => {
                    &&& old(self)@[account].len() < old(self).quota_spec()
                    &&& final(self)@ == old(self)@.insert(account, old(self)@[account].push(id))
                },
                Err(error) => {
                    &&& error == Error::ExceedMaxFileUploaded
                    &&& old(self)@[account].len() >= old(self).quota_spec()
                    &&& final(self)@ == old(self)@
                },
            },
    {
        if self.is_full(account) {
            return Err(Error::ExceedMaxFileUploaded);
        }
        let ghost before = *self;
        let mut list = match self.lists.remove(&account) {
            Some(list) => list,
            None => id_list_new(),
        };
        let pushed = id_list_try_push(&mut list, id);
        self.lists.insert(account, list);
        proof {
            self.lemma_one_list_changed(before, account, before.ids(account).push(id));
        }
        match pushed {
            Ok(_) => Ok(()),
            Err(_) => Err(Error::ExceedMaxFileUploaded),
        }
    }

    /// Takes the first `id` out of the list of `account` and returns the
    /// place it stood at, or `None` where the list does not hold it.
    pub fn remove(&mut self, account: AccountId, id: &FileId) -> (res: Option<usize>)
        requires
            old(self).wf(),
        ensures
            final(self).wf(),
            final(self).quota_spec() == old(self).quota_spec(),
            match res {
                Some(i) => {
                    &&& is_first_position(old(self)@[account], *id, i as int)
                    &&& final(self)@ == old(self)@.insert(
                        account,
                        old(self)@[account].remove(i as int),
                    )
                },
                None => {
                    &&& !old(self)@[account].contains(*id)
                    &&& final(self)@ == old(self)@
                },
            },
    {
        let ghost before = *self;
        let found = match self.lists.get(&account) {
            Some(list) => find_id(list, id),
            None => None,
        };
        let at = match found {
            Some(at) => at,
            None => {
                return None;
            },
        };
        let mut list = match self.lists.remove(&account) {
            Some(list) => list,
            None => id_list_new(),
        };
        id_list_remove(&mut list, at);
        self.lists.insert(account, list);
        proof {
            self.lemma_one_list_changed(before, account, before.ids(account).remove(at as int));
        }
        Some(at)
    }

    /// Where only the list of `account` differs from an index `before`, the
    /// view differs at `account` alone, and a list within the quota leaves
    /// the index well formed.
    proof fn lemma_one_list_changed(
        &self,
        before: AccountIndex,
        account: AccountId,
        after: Seq<FileId>,
    )
        requires
            self.quota_spec() == before.quota_spec(),
            self.ids(account) == after,
            forall|other: AccountId| other != account ==> self.ids(other) == before.ids(other),
        ensures
            self@ == before@.insert(account, after),
            before.wf() && after.len() <= before.quota_spec() ==> self.wf(),
    {
        assert(self@ =~= before@.insert(account, after));
        if before.wf() && after.len() <= before.quota_spec() {
            assert forall|any: AccountId| #[trigger]
                self.ids(any).len() <= self.quota_spec() by {
                if any != account {
                    assert(before.ids(any).len() <= before.quota_spec());
                }
            }
        }
    }
}

/// The first place at which `id` stands in `list`, if it stands in it.
fn find_id(list: &IdList, id: &FileId) -> (res: Option<usize>)
    ensures
        match res {
            Some(i) => is_first_position(bounded_ids(*list), *id, i as int),
            None => !bounded_ids(*list).contains(*id),
        },
{
    let n = id_list_len(list);
    let mut i: usize = 0;
    while i < n
        invariant
            i <= n,
            n == bounded_ids(*list).len(),
            forall|j: int| 0 <= j < i ==> bounded_ids(*list)[j] != *id,
        decreases n - i,
    {
        let current = id_list_get(list, i);
        if same_id(&current, id) {
            return Some(i);
        }
        i = i + 1;
    }
    None
}

} // verus!
