use vstd::prelude::*;

verus! {

/// An account of the host environment.
pub type AccountId = u64;

/// An amount of the host's currency.
pub type Balance = u128;

/// The identifier of a registered file: a 32-byte digest of the fields it
/// was uploaded with.
pub type FileId = [u8; 32];

/// Classification of a registered file.
#[derive(Clone, Copy, Debug, PartialEq, Eq, Structural)]
pub enum FileType {
    /// An ordinary file, which may be free of charge.
    Normal,
    /// A file that is only handed out against a nonzero price.
    Priviledged,
}

impl FileType {
    /// The one-byte tag that stands for the classification where a file is
    /// digested.
    pub open spec fn tag(self) -> u8 {
        match self {
            FileType::Normal => 0u8,
            FileType::Priviledged => 1u8,
        }
    }

    /// Computes [`FileType::tag`].
    pub fn to_tag(self) -> (t: u8)
        ensures
            t == self.tag(),
    {
        match self {
            FileType::Normal => 0u8,
            FileType::Priviledged => 1u8,
        }
    }
}

/// The record that the registry keeps of one file. The bytes of the file live
/// elsewhere, behind `file_link`.
#[derive(Clone, Debug, PartialEq, Eq)]
pub struct File {
    /// Where the bytes of the file are kept.
    pub file_link: String,
    /// Whether accounts other than the owner may download the file.
    pub allow_download: bool,
    /// The classification of the file.
    pub file_type: FileType,
    /// The price of a download; `None` and `Some(0)` both mean no price.
    pub cost: Option<Balance>,
    /// The size of the file in bytes. It is recorded and never interpreted.
    pub file_size: u64,
    /// The account that owns the file.
    pub owner: AccountId,
}

/// What a [`File`] is to the contracts: its fields, the link as a sequence of
/// characters.
pub struct FileView {
    pub file_link: Seq<char>,
    pub allow_download: bool,
    pub file_type: FileType,
    pub cost: Option<Balance>,
    pub file_size: u64,
    pub owner: AccountId,
}

impl View for File {
    type V = FileView;

    open spec fn view(&self) -> FileView {
        FileView {
            file_link: self.file_link@,
            allow_download: self.allow_download,
            file_type: self.file_type,
            cost: self.cost,
            file_size: self.file_size,
            owner: self.owner,
        }
    }
}

impl FileView {
    /// The amount that the record asks for: its cost, or zero where it has
    /// none.
    pub open spec fn price(self) -> Balance {
        match self.cost {
            Some(amount) => amount,
            None => 0,
        }
    }

    /// Whether the record may be handed out at its price: a privileged file
    /// must ask for more than zero, a normal file may be free.
    pub open spec fn price_is_valid(self) -> bool {
        self.file_type == FileType::Priviledged ==> self.price() > 0
    }

    /// The same record in the hands of `new_owner`.
    pub open spec fn owned_by(self, new_owner: AccountId) -> FileView {
        FileView { owner: new_owner, ..self }
    }
}

impl File {
    /// Computes [`FileView::price`].
    pub fn price(&self) -> (amount: Balance)
        ensures
            amount == self@.price(),
    {
        match self.cost {
            Some(amount) => amount,
            None => 0,
        }
    }

    /// Computes [`FileView::price_is_valid`].
    pub fn price_is_valid(&self) -> (valid: bool)
        ensures
            valid == self@.price_is_valid(),
    {
        match self.file_type {
            FileType::Normal => true,
            FileType::Priviledged => self.price() > 0,
        }
    }
}

/// What an operation that succeeded tells the host to announce.
#[derive(Clone, Copy, Debug, PartialEq, Eq)]
pub enum Event {
    /// A file was successfully uploaded: the uploader and the identifier.
    Uploaded(AccountId, FileId),
    /// A file was successfully downloaded: the downloader, the identifier and
    /// the amount that the downloader owes the owner.
    Downloaded(AccountId, FileId, Balance),
    /// A file was successfully transfered: the old owner, the new owner and
    /// the identifier.
    Transfered(AccountId, AccountId, FileId),
}

/// The broad kinds of failure, for hosts that do not care which rule was
/// broken.
#[derive(Clone, Copy, Debug, PartialEq, Eq, Structural)]
pub enum ErrorKind {
    /// No file has the identifier.
    NotFound,
    /// The caller may not do this to the file.
    PermissionDenied,
    /// The file is privileged and asks for no price.
    InvalidPricing,
    /// A counter or a per-account list is full.
    ResourceExhausted,
    /// The caller cannot pay.
    Payment,
    /// The file is registered already.
    Duplicate,
}

/// Why an operation was refused. A refused operation changes nothing.
#[derive(Clone, Copy, Debug, PartialEq, Eq, Structural)]
pub enum Error {
    /// User is not allowed to download file.
    FileNotAllowedToDownload,
    /// The file does not exist.
    FileNotExist,
    /// A privileged file must ask for a price above zero.
    FilePricetooLow,
    /// The count of all files is at the largest value it can hold.
    FileCountOverflow,
    /// The account's list of files is full.
    ExceedMaxFileUploaded,
    /// The account has not enough funds to download the file.
    NotEnoughBalance,
    /// Only the owner of a file may transfer it.
    NotFileOwner,
    /// A file with the same identifier is registered already.
    FileAlreadyExists,
}

impl Error {
    /// The broad kind that the error belongs to.
    pub open spec fn kind_spec(self) -> ErrorKind {
        match self {
            Error::FileNotExist => ErrorKind::NotFound,
            Error::FileNotAllowedToDownload => ErrorKind::PermissionDenied,
            Error::NotFileOwner => ErrorKind::PermissionDenied,
            Error::FilePricetooLow => ErrorKind::InvalidPricing,
            Error::FileCountOverflow => ErrorKind::ResourceExhausted,
            Error::ExceedMaxFileUploaded => ErrorKind::ResourceExhausted,
            Error::NotEnoughBalance => ErrorKind::Payment,
            Error::FileAlreadyExists => ErrorKind::Duplicate,
        }
    }

    /// Computes [`Error::kind_spec`].
    pub fn kind(&self) -> (k: ErrorKind)
        ensures
            k == self.kind_spec(),
    {
        match self {
            Error::FileNotExist => ErrorKind::NotFound,
            Error::FileNotAllowedToDownload => ErrorKind::PermissionDenied,
            Error::NotFileOwner => ErrorKind::PermissionDenied,
            Error::FilePricetooLow => ErrorKind::InvalidPricing,
            Error::FileCountOverflow => ErrorKind::ResourceExhausted,
            Error::ExceedMaxFileUploaded => ErrorKind::ResourceExhausted,
            Error::NotEnoughBalance => ErrorKind::Payment,
            Error::FileAlreadyExists => ErrorKind::Duplicate,
        }
    }
}

/// Whether two identifiers are the same 32 bytes.
pub fn same_id(a: &FileId, b: &FileId) -> (same: bool)
    ensures
        same == (*a == *b),
{
    let mut i: usize = 0;
    while i < 32
        invariant
            i <= 32,
            forall|j: int| 0 <= j < i ==> a[j] == b[j],
        decreases 32 - i,
    {
        if a[i] != b[i] {
            return false;
        }
        i = i + 1;
    }
    assert(*a =~= *b);
    true
}

} // verus!
