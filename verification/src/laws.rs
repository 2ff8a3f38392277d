use crate::invariants::lemma_remove_value;
use crate::model::{done, refused, State};
use crate::types::{AccountId, Balance, Error, ErrorKind, Event, FileId, FileType};
use vstd::prelude::*;

verus! {

/// An operation that is refused changes nothing, whichever it is.
pub proof fn law_refusal_changes_nothing(
    state: State,
    account: AccountId,
    other: AccountId,
    id: FileId,
    file_link: Seq<char>,
    allow_download: bool,
    file_type: FileType,
    cost: Option<Balance>,
    file_size: u64,
    free_balance: Balance,
)
    ensures
        state.upload(account, file_link, allow_download, file_type, cost, file_size).result is Err
            ==> state.upload(account, file_link, allow_download, file_type, cost, file_size).next
            == state,
        state.download(account, id, free_balance).result is Err ==> state.download(
            account,
            id,
            free_balance,
        ).next == state,
        state.transfer(account, id, other).result is Err ==> state.transfer(
            account,
            id,
            other,
        ).next == state,
{
}

/// No operation changes the quota.
pub proof fn law_quota_is_kept(
    state: State,
    account: AccountId,
    other: AccountId,
    id: FileId,
    file_link: Seq<char>,
    allow_download: bool,
    file_type: FileType,
    cost: Option<Balance>,
    file_size: u64,
    free_balance: Balance,
)
    ensures
        state.upload(account, file_link, allow_download, file_type, cost, file_size).next.quota
            == state.quota,
        state.download(account, id, free_balance).next.quota == state.quota,
        state.transfer(account, id, other).next.quota == state.quota,
{
}

/// A file stays registered under its identifier with the fields it was
/// uploaded with. Only a transfer changes it, and only its owner.
pub proof fn law_files_are_kept(
    state: State,
    account: AccountId,
    other: AccountId,
    id: FileId,
    file_link: Seq<char>,
    allow_download: bool,
    file_type: FileType,
    cost: Option<Balance>,
    file_size: u64,
    free_balance: Balance,
    kept: FileId,
)
    requires
        state.files.contains_key(kept),
    ensures
        ({
            let next = state.upload(
                account,
                file_link,
                allow_download,
                file_type,
                cost,
                file_size,
            ).next;
            next.files.contains_key(kept) && next.files[kept] == state.files[kept]
        }),
        ({
            let next = state.download(account, id, free_balance).next;
            next.files.contains_key(kept) && next.files[kept] == state.files[kept]
        }),
        ({
            let next = state.transfer(account, id, other).next;
            next.files.contains_key(kept) && next.files[kept].owned_by(state.files[kept].owner)
                == state.files[kept] && (kept != id ==> next.files[kept] == state.files[kept])
        }),
{
}

/// Two uploads of the same six fields derive the same identifier, in whatever
/// state each is made. Once a file is registered under it, an upload of these
/// fields is refused as a duplicate; so the second of two such uploads in a
/// row is.
pub proof fn law_identifier_determinism(
    first: State,
    second: State,
    sender: AccountId,
    file_link: Seq<char>,
    allow_download: bool,
    file_type: FileType,
    cost: Option<Balance>,
    file_size: u64,
)
    ensures
        ({
            let id = State::uploaded_file(
                sender,
                file_link,
                allow_download,
                file_type,
                cost,
                file_size,
            ).id();
            let one = first.upload(sender, file_link, allow_download, file_type, cost, file_size);
            let two = second.upload(sender, file_link, allow_download, file_type, cost, file_size);
            let again = one.next.upload(
                sender,
                file_link,
                allow_download,
                file_type,
                cost,
                file_size,
            );
            &&& one.result is Ok ==> one.result == done(Event::Uploaded(sender, id))
            &&& two.result is Ok ==> two.result == done(Event::Uploaded(sender, id))
            &&& second.files.contains_key(id) ==> two.result == refused(
                Error::FileAlreadyExists,
            )
            &&& one.result is Ok ==> again.result == refused(Error::FileAlreadyExists)
                && again.next == one.next
        }),
{
}

/// An upload succeeds exactly where the identifier is new, the count can
/// grow and the sender's list has room. It then lengthens the sender's list
/// by the identifier and leaves every other list as it was.
pub proof fn law_upload_outcome(
    state: State,
    sender: AccountId,
    file_link: Seq<char>,
    allow_download: bool,
    file_type: FileType,
    cost: Option<Balance>,
    file_size: u64,
    other: AccountId,
)
    requires
        state.wf(),
        other != sender,
    ensures
        ({
            let file = State::uploaded_file(
                sender,
                file_link,
                allow_download,
                file_type,
                cost,
                file_size,
            );
            let step = state.upload(sender, file_link, allow_download, file_type, cost, file_size);
            &&& step.result is Ok <==> !state.files.contains_key(file.id()) && state.count
                < u64::MAX && state.owned[sender].len() < state.quota
            &&& step.result is Ok ==> step.next.owned[sender] == state.owned[sender].push(
                file.id(),
            ) && step.next.files.contains_key(file.id()) && step.next.files[file.id()] == file
            &&& step.next.owned[other] == state.owned[other]
            &&& step.next.downloaded == state.downloaded
        }),
{
}

/// Once the list of an account holds as many files as the quota allows, an
/// upload by that account of a file that is not registered yet is refused
/// for want of room. The lists of other accounts do not enter into this: an
/// account with room can still upload.
pub proof fn law_quota_enforcement(
    state: State,
    sender: AccountId,
    file_link: Seq<char>,
    allow_download: bool,
    file_type: FileType,
    cost: Option<Balance>,
    file_size: u64,
    other: AccountId,
)
    requires
        state.wf(),
        state.owned[sender].len() == state.quota,
        other != sender,
    ensures
        ({
            let id = State::uploaded_file(
                sender,
                file_link,
                allow_download,
                file_type,
                cost,
                file_size,
            ).id();
            let step = state.upload(sender, file_link, allow_download, file_type, cost, file_size);
            &&& step.result is Err
            &&& step.next == state
            &&& !state.files.contains_key(id) ==> step.result->Err_0.kind_spec()
                == ErrorKind::ResourceExhausted
        }),
        ({
            let id = State::uploaded_file(
                other,
                file_link,
                allow_download,
                file_type,
                cost,
                file_size,
            ).id();
            let step = state.upload(other, file_link, allow_download, file_type, cost, file_size);
            !state.files.contains_key(id) && state.count < u64::MAX && state.owned[other].len()
                < state.quota ==> step.result is Ok
        }),
{
}

/// The count is the number of registered files. An upload that succeeds
/// raises it by one; nothing else changes it.
pub proof fn law_counter(
    state: State,
    account: AccountId,
    other: AccountId,
    id: FileId,
    file_link: Seq<char>,
    allow_download: bool,
    file_type: FileType,
    cost: Option<Balance>,
    file_size: u64,
    free_balance: Balance,
)
    requires
        state.wf(),
    ensures
        state.count == state.files.dom().len(),
        ({
            let step = state.upload(account, file_link, allow_download, file_type, cost, file_size);
            step.next.count == if step.result is Ok {
                state.count + 1
            } else {
                state.count
            }
        }),
        state.download(account, id, free_balance).next.count == state.count,
        state.transfer(account, id, other).next.count == state.count,
{
}

/// A privileged file without a price above zero cannot be downloaded by
/// anyone but its owner: whoever else may see it is turned away for its
/// price, whatever their balance.
pub proof fn law_pricing_gate(state: State, caller: AccountId, id: FileId, free_balance: Balance)
    requires
        state.wf(),
        state.files.contains_key(id),
        state.files[id].file_type == FileType::Priviledged,
        state.files[id].cost == None::<Balance> || state.files[id].cost == Some(0u128),
        caller != state.files[id].owner,
        state.files[id].allow_download,
    ensures
        state.download(caller, id, free_balance).result == refused(
            Error::FilePricetooLow,
        ),
        Error::FilePricetooLow.kind_spec() == ErrorKind::InvalidPricing,
        state.download(caller, id, free_balance).next == state,
{
}

/// A file that does not allow downloads is refused to everyone but its
/// owner. The owner downloads it for nothing, given room in the owner's list
/// of downloads.
pub proof fn law_visibility_gate(state: State, caller: AccountId, id: FileId, free_balance: Balance)
    requires
        state.wf(),
        state.files.contains_key(id),
        !state.files[id].allow_download,
    ensures
        caller != state.files[id].owner ==> state.download(caller, id, free_balance).result
            == refused(Error::FileNotAllowedToDownload) && state.download(
            caller,
            id,
            free_balance,
        ).next == state,
        Error::FileNotAllowedToDownload.kind_spec() == ErrorKind::PermissionDenied,
        caller == state.files[id].owner && state.downloaded[caller].len() < state.quota
            ==> state.download(caller, id, free_balance).result == done(
            Event::Downloaded(caller, id, 0),
        ),
{
}

/// Who is not the owner and can pay the price of a downloadable file owes
/// exactly that price, and the download is entered at the end of the
/// caller's list. Nothing else changes.
pub proof fn law_payment(state: State, caller: AccountId, id: FileId, free_balance: Balance)
    requires
        state.wf(),
        state.files.contains_key(id),
        caller != state.files[id].owner,
        state.files[id].allow_download,
        state.files[id].price_is_valid(),
        free_balance >= state.files[id].price(),
        state.downloaded[caller].len() < state.quota,
    ensures
        ({
            let step = state.download(caller, id, free_balance);
            &&& step.result == done(
                Event::Downloaded(caller, id, state.files[id].price()),
            )
            &&& step.next.downloaded[caller] == state.downloaded[caller].push(id)
            &&& forall|other: AccountId|
                other != caller ==> step.next.downloaded[other] == state.downloaded[other]
            &&& step.next.files == state.files
            &&& step.next.owned == state.owned
            &&& step.next.count == state.count
        }),
{
}

/// Who is not the owner and cannot pay the price of a downloadable file is
/// refused, and nothing is entered in any list.
pub proof fn law_insufficient_funds(
    state: State,
    caller: AccountId,
    id: FileId,
    free_balance: Balance,
)
    requires
        state.wf(),
        state.files.contains_key(id),
        caller != state.files[id].owner,
        state.files[id].allow_download,
        state.files[id].price_is_valid(),
        free_balance < state.files[id].price(),
    ensures
        state.download(caller, id, free_balance).result == refused(
            Error::NotEnoughBalance,
        ),
        Error::NotEnoughBalance.kind_spec() == ErrorKind::Payment,
        state.download(caller, id, free_balance).next == state,
{
}

/// A transfer to another account whose list is full is refused for want of
/// room, and everything stays as it was: the owner, the owner's list and the
/// other account's list.
pub proof fn law_transfer_atomicity(
    state: State,
    caller: AccountId,
    id: FileId,
    new_owner: AccountId,
)
    requires
        state.wf(),
        state.files.contains_key(id),
        state.files[id].owner == caller,
        new_owner != caller,
        state.owned[new_owner].len() == state.quota,
    ensures
        state.transfer(caller, id, new_owner).result == refused(
            Error::ExceedMaxFileUploaded,
        ),
        Error::ExceedMaxFileUploaded.kind_spec() == ErrorKind::ResourceExhausted,
        ({
            let next = state.transfer(caller, id, new_owner).next;
            &&& next == state
            &&& next.files[id].owner == caller
            &&& next.owned[caller].contains(id)
            &&& next.owned[new_owner] == state.owned[new_owner]
        }),
{
}

/// A transfer succeeds exactly where the caller owns the file and the new
/// owner has room for it; a caller that keeps the file always has.
pub proof fn law_transfer_outcome(
    state: State,
    caller: AccountId,
    id: FileId,
    new_owner: AccountId,
)
    requires
        state.wf(),
    ensures
        state.transfer(caller, id, new_owner).result is Ok <==> state.files.contains_key(id)
            && state.files[id].owner == caller && (new_owner == caller
            || state.owned[new_owner].len() < state.quota),
{
    if state.files.contains_key(id) && state.files[id].owner == caller {
        lemma_remove_value(state.owned[caller], id);
    }
}

/// After a transfer that succeeded the file belongs to the new owner, its
/// identifier stands at the end of the new owner's list and, where the new
/// owner is another account, no longer in the list of the old one, which
/// keeps its other files. The event names the old owner, the new owner and
/// the identifier.
pub proof fn law_transfer_success(
    state: State,
    caller: AccountId,
    id: FileId,
    new_owner: AccountId,
)
    requires
        state.wf(),
        state.transfer(caller, id, new_owner).result is Ok,
    ensures
        ({
            let step = state.transfer(caller, id, new_owner);
            &&& step.result == done(Event::Transfered(caller, new_owner, id))
            &&& step.next.files.contains_key(id)
            &&& step.next.files[id] == state.files[id].owned_by(new_owner)
            &&& step.next.owned[new_owner].contains(id)
            &&& step.next.owned[new_owner].last() == id
            &&& new_owner != caller ==> {
                &&& !step.next.owned[caller].contains(id)
                &&& step.next.owned[caller].len() == state.owned[caller].len() - 1
                &&& step.next.owned[new_owner] == state.owned[new_owner].push(id)
                &&& forall|other: FileId|
                    other != id ==> (step.next.owned[caller].contains(other)
                        <==> state.owned[caller].contains(other))
            }
            &&& step.next.downloaded == state.downloaded
        }),
{
    let step = state.transfer(caller, id, new_owner);
    let target = state.released(caller, id)[new_owner];
    lemma_remove_value(state.owned[caller], id);
    assert(target.push(id)[target.len() as int] == id);
}

} // verus!
