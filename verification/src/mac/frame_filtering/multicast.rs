//! Filtering of multicast frames.

use super::lists::{address_list, addresses_as_slice, copy_addresses};
use super::Mac;
use vstd::prelude::*;

verus! {

/// Multicast address filtering
#[derive(Debug)]
pub enum MulticastAddressFiltering {
    /// All received multicast frames are passed to the
    /// application.
    PassAll,
    /// Only multicast frames whose destination address
    /// passes the hash table check are passed to the
    /// application.
    DestinationAddressHash,
    /// Only multicast frames whose destination address
    /// is equal to one of the provided destination addresses
    /// are passed to the application.
    DestinationAddress(heapless::Vec<Mac, 3>),
}

impl MulticastAddressFiltering {
    /// The addresses that multicast frames are matched against, in list
    /// order; none unless the mode filters by address.
    pub open spec fn addresses(&self) -> Seq<Mac> {
        match self {
            MulticastAddressFiltering::PassAll => Seq::empty(),
            MulticastAddressFiltering::DestinationAddressHash => Seq::empty(),
            MulticastAddressFiltering::DestinationAddress(list) => address_list(*list),
        }
    }

    /// Create a new multicast address filtering that passes all
    /// multicast frames.
    pub fn new() -> (mode: Self)
        ensures
            mode is PassAll,
    {
        Self::PassAll
    }

    /// The number of addresses that multicast frames are matched against.
    /// There are at most 3.
    pub fn address_count(&self) -> (count: usize)
        ensures
            count == self.addresses().len(),
            count <= 3,
    {
        match self {
            MulticastAddressFiltering::PassAll => 0,
            MulticastAddressFiltering::DestinationAddressHash => 0,
            MulticastAddressFiltering::DestinationAddress(list) => addresses_as_slice(list).len(),
        }
    }
}

impl Clone for MulticastAddressFiltering {
    fn clone(&self) -> (copy: Self)
        ensures
            copy.addresses() == self.addresses(),
            copy is PassAll == self is PassAll,
            copy is DestinationAddressHash == self is DestinationAddressHash,
    {
        match self {
            MulticastAddressFiltering::PassAll => Self::PassAll,
            MulticastAddressFiltering::DestinationAddressHash => Self::DestinationAddressHash,
            MulticastAddressFiltering::DestinationAddress(list) => Self::DestinationAddress(
                copy_addresses(list),
            ),
        }
    }
}

impl Default for MulticastAddressFiltering {
    fn default() -> (mode: Self)
        ensures
            mode is PassAll,
    {
        Self::new()
    }
}

} // verus!
