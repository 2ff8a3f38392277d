use crate::digest::link_fits;
use crate::index::AccountIndex;
use crate::invariants::{lemma_download_wf, lemma_empty_wf, lemma_register_wf, lemma_transfer_wf};
use crate::model::{done, refused, State};
use crate::store::FileStore;
use crate::types::{AccountId, Balance, Error, Event, File, FileId, FileType};
use vstd::prelude::*;

verus! {

/// The constants of a deployment. The size and the price are recorded for
/// the host; no rule of the registry reads them.
#[derive(Clone, Copy, Debug, PartialEq, Eq)]
pub struct Config {
    /// The size in bytes up to which the host stores a file for free.
    pub default_free_file_size: u32,
    /// What the host asks for each byte above that size.
    pub cost_per_byte: u32,
    /// The most files that one account may own, and the most downloads that
    /// are recorded for one account.
    pub max_files_uploaded: u32,
}

/// The registry: every file that was ever uploaded, who owns it, and who has
/// downloaded what. It changes only through [`Pallet::upload_file`] (and
/// [`Pallet::register_file`], which does its work), [`Pallet::download_file`]
/// and [`Pallet::transfer_file`], each of which either makes all of its
/// changes or none.
pub struct Pallet {
    config: Config,
    all_files_count: u64,
    files: FileStore,
    files_per_user: AccountIndex,
    downloaded_files: AccountIndex,
}

impl View for Pallet {
    type V = State;

    closed spec fn view(&self) -> State {
        State {
            quota: self.files_per_user.quota_spec() as nat,
            count: self.all_files_count as nat,
            files: self.files@,
            owned: self.files_per_user@,
            downloaded: self.downloaded_files@,
        }
    }
}

impl Pallet {
    /// What holds of a registry between any two operations.
    pub closed spec fn wf(&self) -> bool {
        &&& self.files.wf()
        &&& self.files.count() == self.all_files_count
        &&& self.files_per_user.wf()
        &&& self.downloaded_files.wf()
        &&& self.downloaded_files.quota_spec() == self.files_per_user.quota_spec()
        &&& self@.quota == self.config.max_files_uploaded
        &&& self@.wf()
    }

    /// The constants that the registry was made with.
    pub closed spec fn config_spec(&self) -> Config {
        self.config
    }

    /// A well-formed registry has a well-formed state, whose quota is the
    /// one that its constants ask for.
    pub proof fn lemma_view_wf(&self)
        requires
            self.wf(),
        ensures
            self@.wf(),
            self@.quota == self.config_spec().max_files_uploaded,
    {
    }

    /// A registry without files.
    pub fn new(config: Config) -> (pallet: Pallet)
        ensures
            pallet.wf(),
            pallet@ == State::empty(config.max_files_uploaded as nat),
            pallet.config_spec() == config,
    {
        let pallet = Pallet {
            config,
            all_files_count: 0,
            files: FileStore::new(),
            files_per_user: AccountIndex::new(config.max_files_uploaded),
            downloaded_files: AccountIndex::new(config.max_files_uploaded),
        };
        proof {
            lemma_empty_wf(config.max_files_uploaded as nat);
            assert(pallet@ =~= State::empty(config.max_files_uploaded as nat));
        }
        pallet
    }

    /// The constants that the registry was made with.
    pub fn config(&self) -> (config: &Config)
        ensures
            *config == self.config_spec(),
    {
        &self.config
    }

    /// The quota: the most files that one account may own, and the
    /// most downloads that are recorded for one account.
    pub fn quota(&self) -> (quota: u32)
        ensures
            quota == self@.quota,
    {
        self.files_per_user.quota()
    }

    /// The number of files that were ever uploaded.
    pub fn all_files_count(&self) -> (count: u64)
        ensures
            count == self@.count,
    {
        self.all_files_count
    }

    /// The file registered under `file_cid`.
    pub fn file_details(&self, file_cid: &FileId) -> (res: Option<&File>)
        requires
            self.wf(),
        ensures
            match res {
                Some(file) => self@.files.contains_key(*file_cid) && file@
                    == self@.files[*file_cid],
                None => !self@.files.contains_key(*file_cid),
            },
    {
        self.files.get(file_cid)
    }

    /// The identifiers of the files that `account` owns, in the order in
    /// which it came by them.
    pub fn get_user_file_details(&self, account: AccountId) -> (ids: Vec<FileId>)
        ensures
            ids@ == self@.owned[account],
    {
        self.files_per_user.list(account)
    }

    /// The identifiers that `account` has downloaded, oldest first, one for
    /// each download.
    pub fn downloaded_files(&self, account: AccountId) -> (ids: Vec<FileId>)
        ensures
            ids@ == self@.downloaded[account],
    {
        self.downloaded_files.list(account)
    }

    /// What `caller` owes the owner for a download of `file_cid`, or why
    /// `caller` cannot have the file.
    pub fn amount_due(&self, caller: AccountId, file_cid: &FileId) -> (res: Result<Balance, Error>)
        requires
            self.wf(),
        ensures
            res == self@.amount_due(caller, *file_cid),
    {
        match self.files.get(file_cid) {
            None => Err(Error::FileNotExist),
            Some(file) => {
                if caller == file.owner {
                    Ok(0)
                } else if !file.allow_download {
                    Err(Error::FileNotAllowedToDownload)
                } else if !file.price_is_valid() {
                    Err(Error::FilePricetooLow)
                } else {
                    Ok(file.price())
                }
            },
        }
    }

    /// What [`Pallet::download_file`] would do for `caller` with
    /// `free_balance`, without doing it: the amount that `caller` would owe
    /// the owner, or the error. A host that moves the amount before it
    /// records the download asks here first.
    pub fn check_download(
        &self,
        caller: AccountId,
        file_cid: &FileId,
        free_balance: Balance,
    ) -> (res: Result<Balance, Error>)
        requires
            self.wf(),
        ensures
            match res {
                Ok(amount) => self@.download(caller, *file_cid, free_balance).result == done(
                    Event::Downloaded(caller, *file_cid, amount),
                ),
                Err(error) => self@.download(caller, *file_cid, free_balance).result == refused(
                    error,
                ),
            },
    {
        let amount = match self.amount_due(caller, file_cid) {
            Ok(amount) => amount,
            Err(error) => {
                return Err(error);
            },
        };
        if free_balance < amount {
            return Err(Error::NotEnoughBalance);
        }
        if self.downloaded_files.is_full(caller) {
            return Err(Error::ExceedMaxFileUploaded);
        }
        Ok(amount)
    }

    /// Registers `file` for its owner under `file_cid`, the identifier that
    /// the caller has derived for it.
    pub fn register_file(&mut self, file_cid: FileId, file: File) -> (res: Result<Event, Error>)
        requires
            old(self).wf(),
        ensures
            final(self).wf(),
            final(self)@ == old(self)@.register(file_cid, file@).next,
            res == old(self)@.register(file_cid, file@).result,
            final(self).config_spec() == old(self).config_spec(),
    {
        proof {
            lemma_register_wf(self@, file_cid, file@);
        }
        if self.files.contains(&file_cid) {
            return Err(Error::FileAlreadyExists);
        }
        let new_count = match self.all_files_count.checked_add(1) {
            Some(count) => count,
            None => {
                return Err(Error::FileCountOverflow);
            },
        };
        let owner = file.owner;
        match self.files_per_user.add(owner, file_cid) {
            Ok(_) => {},
            Err(error) => {
                return Err(error);
            },
        }
        match self.files.insert(file_cid, file) {
            Ok(_) => {},
            Err(error) => {
                return Err(error);
            },
        }
        self.all_files_count = new_count;
        Ok(Event::Uploaded(owner, file_cid))
    }

    /// Uploads a file for `origin`. The identifier of the file is derived
    /// from its six fields, `origin` among them as the owner; `file_cid`,
    /// the identifier that the caller proposes, is not read. The link must be
    /// one that can be digested, which
    /// [`link_is_digestible`](crate::digest::link_is_digestible) tests.
    #[allow(unused_variables)]
    pub fn upload_file(
        &mut self,
        origin: AccountId,
        file_cid: FileId,
        file_link: String,
        allow_download: bool,
        file_type: FileType,
        cost: Option<Balance>,
        file_size: u64,
    ) -> (res: Result<Event, Error>)
        requires
            old(self).wf(),
            link_fits(file_link@),
        ensures
            final(self).wf(),
            final(self)@ == old(self)@.upload(
                origin,
                file_link@,
                allow_download,
                file_type,
                cost,
                file_size,
            ).next,
            res == old(self)@.upload(
                origin,
                file_link@,
                allow_download,
                file_type,
                cost,
                file_size,
            ).result,
            final(self).config_spec() == old(self).config_spec(),
    {
        let file = File { file_link, allow_download, file_type, cost, file_size, owner: origin };
        let derived = file.id();
        self.register_file(derived, file)
    }

    /// Downloads `file_cid` for `caller`, whose free balance the host gives
    /// as `free_balance`. On success the event names the amount that the
    /// host is to move from `caller` to the owner of the file; where it is
    /// zero nothing is to be moved.
    pub fn download_file(
        &mut self,
        caller: AccountId,
        file_cid: FileId,
        free_balance: Balance,
    ) -> (res: Result<Event, Error>)
        requires
            old(self).wf(),
        ensures
            final(self).wf(),
            final(self)@ == old(self)@.download(caller, file_cid, free_balance).next,
            res == old(self)@.download(caller, file_cid, free_balance).result,
            final(self).config_spec() == old(self).config_spec(),
    {
        proof {
            lemma_download_wf(self@, caller, file_cid, free_balance);
        }
        let amount = match self.check_download(caller, &file_cid, free_balance) {
            Ok(amount) => amount,
            Err(error) => {
                return Err(error);
            },
        };
        match self.downloaded_files.add(caller, file_cid) {
            Ok(_) => {},
            Err(error) => {
                return Err(error);
            },
        }
        Ok(Event::Downloaded(caller, file_cid, amount))
    }

    /// Hands the file `file_cid` of `caller` to `new_owner`.
    pub fn transfer_file(
        &mut self,
        caller: AccountId,
        file_cid: FileId,
        new_owner: AccountId,
    ) -> (res: Result<Event, Error>)
        requires
            old(self).wf(),
        ensures
            final(self).wf(),
            final(self)@ == old(self)@.transfer(caller, file_cid, new_owner).next,
            res == old(self)@.transfer(caller, file_cid, new_owner).result,
            final(self).config_spec() == old(self).config_spec(),
    {
        proof {
            lemma_transfer_wf(self@, caller, file_cid, new_owner);
        }
        let owner = match self.files.get(&file_cid) {
            Some(file) => file.owner,
            None => {
                return Err(Error::FileNotExist);
            },
        };
        if owner != caller {
            return Err(Error::NotFileOwner);
        }
        proof {
            // The caller's list holds the file, so taking it out makes room.
            self@.owned[caller].index_of_first_ensures(file_cid);
        }
        if new_owner == caller {
            self.files_per_user.remove(caller, &file_cid);
            match self.files_per_user.add(caller, file_cid) {
                Ok(_) => {},
                Err(error) => {
                    return Err(error);
                },
            }
        } else {
            match self.files_per_user.add(new_owner, file_cid) {
                Ok(_) => {},
                Err(error) => {
                    return Err(error);
                },
            }
            self.files_per_user.remove(caller, &file_cid);
        }
        self.files.set_owner(&file_cid, new_owner);
        assert(self@ =~= old(self)@.transfer(caller, file_cid, new_owner).next);
        Ok(Event::Transfered(caller, new_owner, file_cid))
    }
}

} // verus!
