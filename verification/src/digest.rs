use crate::types::{File, FileId, FileView};
use frame_support::sp_runtime::traits::BlakeTwo256;
use vstd::prelude::*;
use vstd::utf8::encode_utf8;

verus! {

/// Whether a link can be digested: the codec writes the number of its UTF-8
/// bytes in 32 bits.
pub open spec fn link_fits(file_link: Seq<char>) -> bool {
    encode_utf8(file_link).len() <= u32::MAX
}

/// Computes [`link_fits`].
pub fn link_is_digestible(file_link: &str) -> (fits: bool)
    ensures
        fits == link_fits(file_link@),
{
    file_link.as_bytes().len() <= 0xffff_ffff
}

/// The Blake2 256-bit digest of the SCALE encoding of the six fields of a
/// file, in the order in which a file declares them. It is the digest that a
/// runtime hashing with `BlakeTwo256` gives to a record of these fields.
pub uninterp spec fn blake2_256_of_fields(
    file_link: Seq<char>,
    allow_download: bool,
    file_type: u8,
    cost: Option<u128>,
    file_size: u64,
    owner: u64,
) -> [u8; 32];

/// Calls `sp_runtime::traits::Hash::hash_of` of `BlakeTwo256` on the tuple of
/// the six fields. The call encodes the tuple with SCALE, which writes the
/// fields one after the other, and digests the bytes with Blake2b to 32
/// bytes. The codec panics on a string of more than `u32::MAX` bytes, which
/// `requires` leaves out. Nothing is claimed of the digest but that it is a
/// function of the fields.
#[verifier::external_body]
fn hash_of_fields(
    file_link: &String,
    allow_download: bool,
    file_type: u8,
    cost: Option<u128>,
    file_size: u64,
    owner: u64,
) -> (id: [u8; 32])
    requires
        link_fits(file_link@),
    ensures
        id == blake2_256_of_fields(file_link@, allow_download, file_type, cost, file_size, owner),
{
    let fields = (file_link, allow_download, file_type, cost, file_size, owner);
    <BlakeTwo256 as frame_support::sp_runtime::traits::Hash>::hash_of(&fields).0
}

impl FileView {
    /// The identifier that a file of these fields is registered under.
    pub open spec fn id(self) -> FileId {
        blake2_256_of_fields(
            self.file_link,
            self.allow_download,
            self.file_type.tag(),
            self.cost,
            self.file_size,
            self.owner,
        )
    }
}

impl File {
    /// Derives the identifier of the file from its fields.
    pub fn id(&self) -> (id: FileId)
        requires
            link_fits(self@.file_link),
        ensures
            id == self@.id(),
    {
        hash_of_fields(
            &self.file_link,
            self.allow_download,
            self.file_type.to_tag(),
            self.cost,
            self.file_size,
            self.owner,
        )
    }
}

} // verus!
