//! The fixed-capacity lists that a filtering policy holds its addresses in.
//!
//! The lists are `heapless::Vec`s of capacity 3, one list per filter kind.
//! Verus does not look inside them: their contents have a name each, and the
//! functions below say, without proof, what the methods of `heapless::Vec`
//! do to those contents.

use super::{Mac, MacAddressFilter};
use vstd::prelude::*;

verus! {

/// `heapless::Vec` itself, taken as it stands: a value of it is carried
/// around, and nothing of its inside is visible to the proofs.
#[verifier::external_type_specification]
#[verifier::external_body]
#[verifier::reject_recursive_types(T)]
pub struct ExHeaplessVec<T, const N: usize>(heapless::Vec<T, N>);

/// The filters that a list holds, first to last.
pub uninterp spec fn filter_list(list: heapless::Vec<MacAddressFilter, 3>) -> Seq<MacAddressFilter>;

/// The addresses that a list holds, first to last.
pub uninterp spec fn address_list(list: heapless::Vec<Mac, 3>) -> Seq<Mac>;

/// `heapless::Vec::new`: the new list holds nothing.
#[verifier::external_body]
pub(crate) fn filters_new() -> (list: heapless::Vec<MacAddressFilter, 3>)
    ensures
        filter_list(list) == Seq::<MacAddressFilter>::empty(),
{
    heapless::Vec::new()
}

/// `heapless::Vec::push`: while the list holds fewer items than its capacity
/// of 3, the item goes to its end; a full list stays as it is and the item
/// comes back.
#[verifier::external_body]
pub(crate) fn filters_push(
    list: &mut heapless::Vec<MacAddressFilter, 3>,
    filter: MacAddressFilter,
) -> (pushed: Result<(), MacAddressFilter>)
    ensures
        pushed is Ok <==> filter_list(*old(list)).len() < 3,
        pushed is Ok ==> filter_list(*final(list)) == filter_list(*old(list)).push(filter),
        pushed is Err ==> pushed->Err_0 == filter && filter_list(*final(list)) == filter_list(
            *old(list),
        ),
{
    list.push(filter)
}

/// `heapless::Vec::as_slice` on a list of filters: the slice holds the list's
/// items in order, and they are at most as many as the capacity of 3.
#[verifier::external_body]
pub(crate) fn filters_as_slice(list: &heapless::Vec<MacAddressFilter, 3>) -> (items: &[MacAddressFilter])
    ensures
        items@ == filter_list(*list),
        items@.len() <= 3,
{
    list.as_slice()
}

/// `heapless::Vec::as_slice` on a list of addresses: the slice holds the
/// list's items in order, and they are at most as many as the capacity of 3.
#[verifier::external_body]
pub(crate) fn addresses_as_slice(list: &heapless::Vec<Mac, 3>) -> (items: &[Mac])
    ensures
        items@ == address_list(*list),
        items@.len() <= 3,
{
    list.as_slice()
}

/// `heapless::Vec::new`: the new list holds nothing.
#[verifier::external_body]
pub(crate) fn addresses_new() -> (list: heapless::Vec<Mac, 3>)
    ensures
        address_list(list) == Seq::<Mac>::empty(),
{
    heapless::Vec::new()
}

/// `heapless::Vec::push`: while the list holds fewer items than its capacity
/// of 3, the item goes to its end; a full list stays as it is and the item
/// comes back.
#[verifier::external_body]
pub(crate) fn addresses_push(list: &mut heapless::Vec<Mac, 3>, address: Mac) -> (pushed: Result<
    (),
    Mac,
>)
    ensures
        pushed is Ok <==> address_list(*old(list)).len() < 3,
        pushed is Ok ==> address_list(*final(list)) == address_list(*old(list)).push(address),
        pushed is Err ==> pushed->Err_0 == address && address_list(*final(list)) == address_list(
            *old(list),
        ),
{
    list.push(address)
}

/// A list that holds the same filters in the same order.
pub fn copy_filters(list: &heapless::Vec<MacAddressFilter, 3>) -> (copy: heapless::Vec<
    MacAddressFilter,
    3,
>)
    ensures
        filter_list(copy) == filter_list(*list),
{
    let items = filters_as_slice(list);
    let mut copy = filters_new();
    let mut i: usize = 0;
    while i < items.len()
        invariant
            i <= items@.len() <= 3,
            filter_list(copy) == items@.take(i as int),
        decreases items@.len() - i,
    {
        let pushed = filters_push(&mut copy, items[i]);
        assert(items@.take(i as int).push(items@[i as int]) == items@.take(i + 1));
        i += 1;
    }
    assert(items@.take(i as int) == items@);
    copy
}

/// A list that holds the same addresses in the same order.
pub fn copy_addresses(list: &heapless::Vec<Mac, 3>) -> (copy: heapless::Vec<Mac, 3>)
    ensures
        address_list(copy) == address_list(*list),
{
    let items = addresses_as_slice(list);
    let mut copy = addresses_new();
    let mut i: usize = 0;
    while i < items.len()
        invariant
            i <= items@.len() <= 3,
            address_list(copy) == items@.take(i as int),
        decreases items@.len() - i,
    {
        let pushed = addresses_push(&mut copy, items[i]);
        assert(items@.take(i as int).push(items@[i as int]) == items@.take(i + 1));
        i += 1;
    }
    assert(items@.take(i as int) == items@);
    copy
}

} // verus!
