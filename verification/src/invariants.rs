use crate::model::State;
use crate::types::{AccountId, Balance, FileId, FileView};
use vstd::prelude::*;

verus! {

/// What is left of a list without repeats once the first `id` is taken out:
/// every other identifier, each once, and not `id`.
pub proof fn lemma_remove_value(ids: Seq<FileId>, id: FileId)
    requires
        ids.no_duplicates(),
        ids.contains(id),
    ensures
        ids.remove_value(id).len() == ids.len() - 1,
        ids.remove_value(id).no_duplicates(),
        !ids.remove_value(id).contains(id),
        forall|other: FileId|
            other != id ==> (ids.remove_value(id).contains(other) <==> ids.contains(other)),
{
    ids.index_of_first_ensures(id);
    let at = ids.index_of_first(id).unwrap();
    let rest = ids.remove(at);
    assert forall|other: FileId| other != id && ids.contains(other) implies rest.contains(
        other,
    ) by {
        let a = ids.index_of(other);
        let j = if a < at { a } else { a - 1 };
        assert(rest[j] == ids[a]);
    }
}

/// The registry before the first upload is well formed, whatever its quota.
pub proof fn lemma_empty_wf(quota: nat)
    ensures
        State::empty(quota).wf(),
{
}

/// Registering a file keeps the registry well formed.
pub proof fn lemma_register_wf(state: State, id: FileId, file: FileView)
    requires
        state.wf(),
    ensures
        state.register(id, file).next.wf(),
{
    let step = state.register(id, file);
    if step.result is Ok {
        let next = step.next;
        let before = state.owned[file.owner];
        assert forall|account: AccountId| #[trigger] next.owned[account].no_duplicates() by {
            assert(state.owned[account].no_duplicates());
        }
        assert forall|key: FileId| #[trigger] next.files.contains_key(key) implies {
            next.owned[next.files[key].owner].contains(key)
        } by {
            if key == id {
                assert(before.push(id)[before.len() as int] == id);
            } else {
                let holder = state.files[key].owner;
                let at = state.owned[holder].index_of(key);
                assert(next.owned[holder][at] == key);
            }
        }
    }
}

/// A download keeps the registry well formed.
pub proof fn lemma_download_wf(
    state: State,
    caller: AccountId,
    id: FileId,
    free_balance: Balance,
)
    requires
        state.wf(),
    ensures
        state.download(caller, id, free_balance).next.wf(),
{
}

/// A transfer keeps the registry well formed.
pub proof fn lemma_transfer_wf(state: State, caller: AccountId, id: FileId, new_owner: AccountId)
    requires
        state.wf(),
    ensures
        state.transfer(caller, id, new_owner).next.wf(),
{
    let step = state.transfer(caller, id, new_owner);
    if step.result is Ok {
        let next = step.next;
        let target = state.released(caller, id)[new_owner];
        lemma_remove_value(state.owned[caller], id);
        assert(!target.contains(id));
        assert(target.no_duplicates());
        // Every identifier of a new list was in the old list of the same
        // account, but for `id`, which is now with `new_owner`.
        assert forall|account: AccountId, i: int| 0 <= i < next.owned[account].len() implies {
            &&& next.files.contains_key(#[trigger] next.owned[account][i])
            &&& next.files[next.owned[account][i]].owner == account
        } by {
            if !(account == new_owner && i == target.len()) {
                assert(state.owned[account].contains(next.owned[account][i]));
            }
        }
        assert forall|key: FileId| #[trigger] next.files.contains_key(key) implies {
            next.owned[next.files[key].owner].contains(key)
        } by {
            if key == id {
                assert(target.push(id)[target.len() as int] == id);
            } else if state.files[key].owner == new_owner {
                let at = target.index_of(key);
                assert(target.push(id)[at] == key);
            }
        }
    }
}

} // verus!
