//! The 64-bit hash table of the MAC.

use vstd::prelude::*;

verus! {

/// The value of the hash table that hash-based destination and multicast
/// filtering look addresses up in: 64 bits, held as two halves.
#[derive(Debug, Clone, Copy, PartialEq, Eq, Structural)]
pub struct HashTableValue {
    /// The low register of the hash table.
    pub low: u32,
    /// The high register of the hash table.
    pub high: u32,
}

impl HashTableValue {
    /// Create a new hash table value that matches no address.
    pub fn new() -> (value: Self)
        ensures
            value.low == 0,
            value.high == 0,
    {
        Self { low: 0, high: 0 }
    }
}

impl Default for HashTableValue {
    fn default() -> (value: Self)
        ensures
            value.low == 0,
            value.high == 0,
    {
        Self::new()
    }
}

} // verus!
