//! Filtering on the destination address.

use super::lists::{copy_filters, filter_list, filters_as_slice, filters_new};
use super::MacAddressFilter;
use vstd::prelude::*;

verus! {

/// The type of destination address filtering that
/// the MAC should apply to incoming frames.
#[derive(Debug)]
pub struct DestinationAddressFiltering {
    /// Filtering to be performed based on perfect address matches.
    pub perfect_filtering: PerfectDestinationAddressFiltering,
    /// Enable or disable hash table filtering for destination
    /// addresses.
    pub hash_table_filtering: bool,
}

/// The type of destination address filtering that
/// the MAC should apply to incoming frames.
#[derive(Debug)]
pub enum PerfectDestinationAddressFiltering {
    /// Filter incoming frames based on their destination address,
    /// where all incoming frames that do not have a destination
    /// address in the list are dropped.
    Normal(heapless::Vec<MacAddressFilter, 3>),
    /// Filter incoming frames based on their destination address,
    /// where all incoming frames that do have a destination
    /// address in the list are dropped.
    Inverse(heapless::Vec<MacAddressFilter, 3>),
}

impl PerfectDestinationAddressFiltering {
    /// The filters of this mode, in list order.
    pub open spec fn filters(&self) -> Seq<MacAddressFilter> {
        match self {
            PerfectDestinationAddressFiltering::Normal(list) => filter_list(*list),
            PerfectDestinationAddressFiltering::Inverse(list) => filter_list(*list),
        }
    }

    /// Whether a match drops the frame instead of letting it pass.
    pub open spec fn spec_is_inverse(&self) -> bool {
        self is Inverse
    }

    /// Create a new perfect destination filtering that lets no
    /// extra address pass.
    pub fn new() -> (mode: Self)
        ensures
            mode is Normal,
            mode.filters() == Seq::<MacAddressFilter>::empty(),
    {
        Self::Normal(filters_new())
    }

    /// Whether a match drops the frame instead of letting it pass.
    #[verifier::when_used_as_spec(spec_is_inverse)]
    pub fn is_inverse(&self) -> (yes: bool)
        ensures
            yes == self.spec_is_inverse(),
    {
        match self {
            PerfectDestinationAddressFiltering::Normal(_) => false,
            PerfectDestinationAddressFiltering::Inverse(_) => true,
        }
    }

    /// The filters of this mode, in list order. There are at most 3.
    pub fn as_slice(&self) -> (items: &[MacAddressFilter])
        ensures
            items@ == self.filters(),
            items@.len() <= 3,
    {
        match self {
            PerfectDestinationAddressFiltering::Normal(list) => filters_as_slice(list),
            PerfectDestinationAddressFiltering::Inverse(list) => filters_as_slice(list),
        }
    }
}

impl Clone for PerfectDestinationAddressFiltering {
    fn clone(&self) -> (copy: Self)
        ensures
            copy.filters() == self.filters(),
            copy.spec_is_inverse() == self.spec_is_inverse(),
    {
        match self {
            PerfectDestinationAddressFiltering::Normal(list) => Self::Normal(copy_filters(list)),
            PerfectDestinationAddressFiltering::Inverse(list) => Self::Inverse(copy_filters(list)),
        }
    }
}

impl Default for PerfectDestinationAddressFiltering {
    fn default() -> (mode: Self)
        ensures
            mode is Normal,
            mode.filters() == Seq::<MacAddressFilter>::empty(),
    {
        Self::new()
    }
}

impl DestinationAddressFiltering {
    /// Create a new destination address filtering that lets no extra
    /// address pass and does not consult the hash table.
    pub fn new() -> (mode: Self)
        ensures
            mode.perfect_filtering is Normal,
            mode.perfect_filtering.filters() == Seq::<MacAddressFilter>::empty(),
            !mode.hash_table_filtering,
    {
        Self { perfect_filtering: PerfectDestinationAddressFiltering::new(), hash_table_filtering: false }
    }
}

impl Clone for DestinationAddressFiltering {
    fn clone(&self) -> (copy: Self)
        ensures
            copy.perfect_filtering.filters() == self.perfect_filtering.filters(),
            copy.perfect_filtering.spec_is_inverse() == self.perfect_filtering.spec_is_inverse(),
            copy.hash_table_filtering == self.hash_table_filtering,
    {
        Self {
            perfect_filtering: self.perfect_filtering.clone(),
            hash_table_filtering: self.hash_table_filtering,
        }
    }
}

impl Default for DestinationAddressFiltering {
    fn default() -> (mode: Self)
        ensures
            mode.perfect_filtering is Normal,
            mode.perfect_filtering.filters() == Seq::<MacAddressFilter>::empty(),
            !mode.hash_table_filtering,
    {
        Self::new()
    }
}

} // verus!
