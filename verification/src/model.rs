use crate::types::{AccountId, Balance, Error, Event, FileId, FileType, FileView};
use vstd::prelude::*;

verus! {

/// What the registry holds: the quota that it was made with, the count of
/// uploads, the file of each identifier, and for each account the
/// identifiers it owns and the identifiers it has downloaded. The quota is
/// the most identifiers that either list of one account can hold.
#[verifier::ext_equal]
pub struct State {
    pub quota: nat,
    pub count: nat,
    pub files: Map<FileId, FileView>,
    pub owned: Map<AccountId, Seq<FileId>>,
    pub downloaded: Map<AccountId, Seq<FileId>>,
}

/// What an operation makes of a state: the state after it and what it
/// returns.
#[verifier::ext_equal]
pub struct Step {
    pub next: State,
    pub result: Result<Event, Error>,
}

/// What an operation returns that succeeded and announces `event`.
pub open spec fn done(event: Event) -> Result<Event, Error> {
    Ok(event)
}

/// What an operation returns that was refused for `error`.
pub open spec fn refused(error: Error) -> Result<Event, Error> {
    Err(error)
}

impl State {
    /// The registry with the quota `quota` before the first upload.
    pub open spec fn empty(quota: nat) -> State {
        State {
            quota,
            count: 0,
            files: Map::empty(),
            owned: Map::total(|account: AccountId| Seq::<FileId>::empty()),
            downloaded: Map::total(|account: AccountId| Seq::<FileId>::empty()),
        }
    }

    /// Every account has both lists.
    pub open spec fn lists_total(self) -> bool {
        &&& forall|account: AccountId| #[trigger] self.owned.contains_key(account)
        &&& forall|account: AccountId| #[trigger] self.downloaded.contains_key(account)
    }

    /// No list is longer than the quota.
    pub open spec fn lists_bounded(self) -> bool {
        &&& forall|account: AccountId| #[trigger]
            self.owned[account].len() <= self.quota
        &&& forall|account: AccountId| #[trigger]
            self.downloaded[account].len() <= self.quota
    }

    /// An account's list of owned files names each of its files once, and
    /// nothing else.
    pub open spec fn ownership_consistent(self) -> bool {
        &&& forall|account: AccountId| #[trigger] self.owned[account].no_duplicates()
        &&& forall|account: AccountId, i: int|
            0 <= i < self.owned[account].len() ==> self.files.contains_key(
                #[trigger] self.owned[account][i],
            ) && self.files[self.owned[account][i]].owner == account
        &&& forall|id: FileId| #[trigger]
            self.files.contains_key(id) ==> self.owned[self.files[id].owner].contains(id)
    }

    /// Only registered files are in the lists of downloads.
    pub open spec fn downloads_registered(self) -> bool {
        forall|account: AccountId, i: int|
            0 <= i < self.downloaded[account].len() ==> self.files.contains_key(
                #[trigger] self.downloaded[account][i],
            )
    }

    /// What holds of the registry between any two operations. The count is
    /// the number of files, since a file is never removed.
    pub open spec fn wf(self) -> bool {
        &&& self.files.dom().finite()
        &&& self.count == self.files.dom().len()
        &&& self.lists_total()
        &&& self.lists_bounded()
        &&& self.ownership_consistent()
        &&& self.downloads_registered()
    }

    /// The operation is refused: nothing changes.
    pub open spec fn refuse(self, error: Error) -> Step {
        Step { next: self, result: refused(error) }
    }

    /// Registers `file` under `id` for its owner. It is refused where `id` is
    /// taken, where the count cannot grow, or where the owner's list is full,
    /// in this order.
    pub open spec fn register(self, id: FileId, file: FileView) -> Step {
        if self.files.contains_key(id) {
            self.refuse(Error::FileAlreadyExists)
        } else if self.count >= u64::MAX {
            self.refuse(Error::FileCountOverflow)
        } else if self.owned[file.owner].len() >= self.quota {
            self.refuse(Error::ExceedMaxFileUploaded)
        } else {
            Step {
                next: State {
                    quota: self.quota,
                    count: self.count + 1,
                    files: self.files.insert(id, file),
                    owned: self.owned.insert(file.owner, self.owned[file.owner].push(id)),
                    downloaded: self.downloaded,
                },
                result: done(Event::Uploaded(file.owner, id)),
            }
        }
    }

    /// The file that an upload by `sender` describes.
    pub open spec fn uploaded_file(
        sender: AccountId,
        file_link: Seq<char>,
        allow_download: bool,
        file_type: FileType,
        cost: Option<Balance>,
        file_size: u64,
    ) -> FileView {
        FileView { file_link, allow_download, file_type, cost, file_size, owner: sender }
    }

    /// An upload: the file is registered under the identifier derived from
    /// its fields.
    pub open spec fn upload(
        self,
        sender: AccountId,
        file_link: Seq<char>,
        allow_download: bool,
        file_type: FileType,
        cost: Option<Balance>,
        file_size: u64,
    ) -> Step {
        let file = Self::uploaded_file(
            sender,
            file_link,
            allow_download,
            file_type,
            cost,
            file_size,
        );
        self.register(file.id(), file)
    }

    /// What `caller` owes for a download of `id`, or why `caller` cannot have
    /// it. The owner owes nothing and is never turned away; anyone else needs
    /// the file to allow downloads and its price to be valid, in this order.
    pub open spec fn amount_due(self, caller: AccountId, id: FileId) -> Result<Balance, Error> {
        if !self.files.contains_key(id) {
            Err(Error::FileNotExist)
        } else if caller == self.files[id].owner {
            Ok(0)
        } else if !self.files[id].allow_download {
            Err(Error::FileNotAllowedToDownload)
        } else if !self.files[id].price_is_valid() {
            Err(Error::FilePricetooLow)
        } else {
            Ok(self.files[id].price())
        }
    }

    /// A download by `caller`, whose free balance is `free_balance`. After
    /// the checks of [`State::amount_due`] it is refused where the balance is
    /// below the amount due, or where the caller's list of downloads is full,
    /// in this order. Otherwise the identifier is appended to that list.
    pub open spec fn download(self, caller: AccountId, id: FileId, free_balance: Balance) -> Step {
        match self.amount_due(caller, id) {
            Err(error) => self.refuse(error),
            Ok(amount) => if free_balance < amount {
                self.refuse(Error::NotEnoughBalance)
            } else if self.downloaded[caller].len() >= self.quota {
                self.refuse(Error::ExceedMaxFileUploaded)
            } else {
                Step {
                    next: State {
                        downloaded: self.downloaded.insert(
                            caller,
                            self.downloaded[caller].push(id),
                        ),
                        ..self
                    },
                    result: done(Event::Downloaded(caller, id, amount)),
                }
            },
        }
    }

    /// The lists of owned files once `caller` has let go of `id`.
    pub open spec fn released(self, caller: AccountId, id: FileId) -> Map<AccountId, Seq<FileId>> {
        self.owned.insert(caller, self.owned[caller].remove_value(id))
    }

    /// A transfer of `id` by `caller` to `new_owner`. It is refused where no
    /// file has the identifier, where `caller` does not own the file, or
    /// where the list of `new_owner` has no room once `caller` has let go of
    /// the file, in this order. Otherwise the identifier moves to the end of
    /// the list of `new_owner` and the file's owner changes; its identifier
    /// stays what it was.
    pub open spec fn transfer(self, caller: AccountId, id: FileId, new_owner: AccountId) -> Step {
        if !self.files.contains_key(id) {
            self.refuse(Error::FileNotExist)
        } else if self.files[id].owner != caller {
            self.refuse(Error::NotFileOwner)
        } else if self.released(caller, id)[new_owner].len() >= self.quota {
            self.refuse(Error::ExceedMaxFileUploaded)
        } else {
            Step {
                next: State {
                    files: self.files.insert(id, self.files[id].owned_by(new_owner)),
                    owned: self.released(caller, id).insert(
                        new_owner,
                        self.released(caller, id)[new_owner].push(id),
                    ),
                    ..self
                },
                result: done(Event::Transfered(caller, new_owner, id)),
            }
        }
    }
}

} // verus!
