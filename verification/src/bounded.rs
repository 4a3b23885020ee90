//! The bounded list of fingerprints that one owner holds, kept in a
//! `frame_support::BoundedVec`.

use frame_support::traits::ConstU32;
use frame_support::BoundedVec;
use vstd::prelude::*;

verus! {

/// The most kitties that one account can own.
pub const MAX_OWNER_KITTY: u32 = 3;

/// `frame_support::BoundedVec`, a vector that never grows past the bound its
/// second parameter names. Verus sees nothing inside it: [`listed`] stands for
/// what it holds.
#[verifier::external_type_specification]
#[verifier::external_body]
#[verifier::reject_recursive_types(T)]
#[verifier::reject_recursive_types(S)]
pub struct ExBoundedVec<T, S>(BoundedVec<T, S>);

/// `frame_support::traits::ConstU32`, the type that names a bound.
#[verifier::external_type_specification]
#[verifier::external_body]
pub struct ExConstU32<const T: u32>(ConstU32<T>);

/// The fingerprints in a list, in the order in which the list holds them.
pub uninterp spec fn listed(list: BoundedVec<[u8; 16], ConstU32<MAX_OWNER_KITTY>>) -> Seq<[u8; 16]>;

/// What is left of `s` when the item at `i` is replaced by the last one and the
/// last slot is dropped.
pub open spec fn swap_removed(s: Seq<[u8; 16]>, i: int) -> Seq<[u8; 16]>
    recommends
        0 <= i < s.len(),
{
    s.update(i, s.last()).drop_last()
}

/// Calls `BoundedVec::new`. Trusted: the new list holds nothing.
#[verifier::external_body]
pub(crate) fn list_new() -> (list: BoundedVec<[u8; 16], ConstU32<MAX_OWNER_KITTY>>)
    ensures
        listed(list) == Seq::<[u8; 16]>::empty(),
{
    BoundedVec::new()
}

/// Calls `BoundedVec::is_full`. Trusted: a list is full when it holds as many
/// items as its bound, which is [`MAX_OWNER_KITTY`].
#[verifier::external_body]
pub(crate) fn list_is_full(list: &BoundedVec<[u8; 16], ConstU32<MAX_OWNER_KITTY>>) -> (full: bool)
    ensures
        full == (listed(*list).len() >= MAX_OWNER_KITTY),
{
    list.is_full()
}

/// Calls `BoundedVec::into_inner` on a clone of the list. Trusted: the vector
/// holds the items of the list in the same order.
#[verifier::external_body]
pub(crate) fn list_items(list: &BoundedVec<[u8; 16], ConstU32<MAX_OWNER_KITTY>>) -> (items: Vec<[u8; 16]>)
    ensures
        items@ == listed(*list),
{
    list.clone().into_inner()
}

/// Calls `BoundedVec::try_push`. Trusted: below the bound the item is appended
/// and `Ok` comes back; at the bound the list stays as it is and the item comes
/// back in `Err`.
#[verifier::external_body]
pub(crate) fn list_try_push(list: &mut BoundedVec<[u8; 16], ConstU32<MAX_OWNER_KITTY>>, id: [u8; 16]) -> (pushed:
    Result<(), [u8; 16]>)
    ensures
        match pushed {
            Ok(_) => listed(*old(list)).len() < MAX_OWNER_KITTY && listed(*final(list)) == listed(
                *old(list),
            ).push(id),
            Err(back) => listed(*old(list)).len() >= MAX_OWNER_KITTY && back == id && listed(
                *final(list),
            ) == listed(*old(list)),
        },
{
    list.try_push(id)
}

/// Calls `BoundedVec::swap_remove`. Trusted: the item at `index` comes back, the
/// last item takes its place and the list is one shorter. The outside function
/// panics when `index` is out of bounds, which `requires` rules out.
#[verifier::external_body]
pub(crate) fn list_swap_remove(list: &mut BoundedVec<[u8; 16], ConstU32<MAX_OWNER_KITTY>>, index: usize) -> (removed:
    [u8; 16])
    requires
        index < listed(*old(list)).len(),
    ensures
        removed == listed(*old(list))[index as int],
        listed(*final(list)) == swap_removed(listed(*old(list)), index as int),
{
    list.swap_remove(index)
}

} // verus!
