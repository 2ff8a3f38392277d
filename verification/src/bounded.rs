use crate::types::FileId;
use frame_support::traits::ConstU32;
use frame_support::BoundedVec;
use vstd::prelude::*;

verus! {

/// The bound that the type of a list carries: the largest value that a quota
/// can have. The quota of a registry is a value and is tested before a list
/// is given an identifier, so the bound itself never turns one away.
pub const LIST_CAPACITY: u32 = 0xffff_ffff;

/// `frame_support::BoundedVec`, a vector that never holds more items than
/// its bound `S` gives. The verifier sees nothing inside it.
#[verifier::external_type_specification]
#[verifier::external_body]
#[verifier::reject_recursive_types(T)]
#[verifier::reject_recursive_types(S)]
pub struct ExBoundedVec<T, S>(BoundedVec<T, S>);

/// `frame_support::traits::ConstU32`, the type that gives a bounded vector
/// the bound `T`.
#[verifier::external_type_specification]
#[verifier::external_body]
pub struct ExConstU32<const T: u32>(ConstU32<T>);

/// The list of identifiers that the registry keeps for one account.
pub type IdList = BoundedVec<FileId, ConstU32<LIST_CAPACITY>>;

/// The identifiers that a bounded list holds, first pushed first.
pub uninterp spec fn bounded_ids(
    list: BoundedVec<[u8; 32], ConstU32<LIST_CAPACITY>>,
) -> Seq<[u8; 32]>;

/// Calls `BoundedVec::new`, which wraps an empty vector.
#[verifier::external_body]
pub(crate) fn id_list_new() -> (list: IdList)
    ensures
        bounded_ids(list) == Seq::<FileId>::empty(),
{
    BoundedVec::new()
}

/// Calls `Vec::len` through the bounded vector's `Deref`: the number of
/// identifiers held.
#[verifier::external_body]
pub(crate) fn id_list_len(list: &IdList) -> (n: usize)
    ensures
        n == bounded_ids(*list).len(),
{
    list.len()
}

/// Calls the bounded vector's `Index::index`, which indexes the wrapped
/// vector and panics past its end: a copy of the identifier at `i`.
#[verifier::external_body]
pub(crate) fn id_list_get(list: &IdList, i: usize) -> (id: FileId)
    requires
        i < bounded_ids(*list).len(),
    ensures
        id == bounded_ids(*list)[i as int],
{
    list[i]
}

/// Calls `BoundedVec::try_push`. With fewer identifiers than the bound it
/// pushes `id` at the end and returns `Ok`; otherwise it leaves the list as it
/// was and hands `id` back in `Err`. The push panics where the vector would
/// need more than `isize::MAX` bytes; no list of at most [`LIST_CAPACITY`]
/// identifiers of 32 bytes needs that many where such a list can be held.
#[verifier::external_body]
pub(crate) fn id_list_try_push(list: &mut IdList, id: FileId) -> (res: Result<(), FileId>)
    ensures
        match res {
            Ok(_) => bounded_ids(*old(list)).len() < LIST_CAPACITY
                && bounded_ids(*final(list)) == bounded_ids(*old(list)).push(id),
            Err(back) => bounded_ids(*old(list)).len() >= LIST_CAPACITY
                && back == id
                && bounded_ids(*final(list)) == bounded_ids(*old(list)),
        },
{
    list.try_push(id)
}

/// Calls `BoundedVec::remove`, which is `Vec::remove` on the wrapped vector:
/// it takes out the identifier at `i`, moves the later ones one place down
/// and returns it. It panics past the end of the list.
#[verifier::external_body]
pub(crate) fn id_list_remove(list: &mut IdList, i: usize) -> (removed: FileId)
    requires
        i < bounded_ids(*old(list)).len(),
    ensures
        removed == bounded_ids(*old(list))[i as int],
        bounded_ids(*final(list)) == bounded_ids(*old(list)).remove(i as int),
{
    list.remove(i)
}

} // verus!
