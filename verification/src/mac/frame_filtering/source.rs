//! Filtering on the source address.

use super::lists::{copy_filters, filter_list, filters_as_slice};
use super::MacAddressFilter;
use vstd::prelude::*;

verus! {

/// The type of source address frame filtering that
/// the MAC should apply to incoming frames.
#[derive(Debug)]
pub enum SourceAddressFiltering {
    /// Source address filtering never fails.
    Ignore,
    /// Filter frames by their source address, based on
    /// the provided addresses: frames from an address that is
    /// not in the list are dropped.
    Normal(heapless::Vec<MacAddressFilter, 3>),
    /// Filter frames by their source address, based on
    /// the provided addresses: frames from an address that is
    /// in the list are dropped.
    Inverse(heapless::Vec<MacAddressFilter, 3>),
}

impl SourceAddressFiltering {
    /// The filters of this mode, in list order; none when the source
    /// address is ignored.
    pub open spec fn filters(&self) -> Seq<MacAddressFilter> {
        match self {
            SourceAddressFiltering::Ignore => Seq::empty(),
            SourceAddressFiltering::Normal(list) => filter_list(*list),
            SourceAddressFiltering::Inverse(list) => filter_list(*list),
        }
    }

    /// Whether frames are filtered by their source address at all.
    pub open spec fn spec_is_enabled(&self) -> bool {
        !(self is Ignore)
    }

    /// Whether a match drops the frame instead of letting it pass.
    pub open spec fn spec_is_inverse(&self) -> bool {
        self is Inverse
    }

    /// Create a new source address filtering that ignores
    /// the source address.
    pub fn new() -> (mode: Self)
        ensures
            mode is Ignore,
    {
        Self::Ignore
    }

    /// Whether frames are filtered by their source address at all.
    #[verifier::when_used_as_spec(spec_is_enabled)]
    pub fn is_enabled(&self) -> (yes: bool)
        ensures
            yes == self.spec_is_enabled(),
    {
        match self {
            SourceAddressFiltering::Ignore => false,
            SourceAddressFiltering::Normal(_) => true,
            SourceAddressFiltering::Inverse(_) => true,
        }
    }

    /// Whether a match drops the frame instead of letting it pass.
    #[verifier::when_used_as_spec(spec_is_inverse)]
    pub fn is_inverse(&self) -> (yes: bool)
        ensures
            yes == self.spec_is_inverse(),
    {
        match self {
            SourceAddressFiltering::Ignore => false,
            SourceAddressFiltering::Normal(_) => false,
            SourceAddressFiltering::Inverse(_) => true,
        }
    }

    /// The filters of this mode, in list order, or `None` when the source
    /// address is ignored. There are at most 3.
    pub fn as_slice(&self) -> (items: Option<&[MacAddressFilter]>)
        ensures
            self is Ignore <==> items.is_none(),
            items.is_some() ==> items.unwrap()@ == self.filters() && items.unwrap()@.len() <= 3,
    {
        match self {
            SourceAddressFiltering::Ignore => None,
            SourceAddressFiltering::Normal(list) => Some(filters_as_slice(list)),
            SourceAddressFiltering::Inverse(list) => Some(filters_as_slice(list)),
        }
    }
}

impl Clone for SourceAddressFiltering {
    fn clone(&self) -> (copy: Self)
        ensures
            copy.filters() == self.filters(),
            copy.spec_is_enabled() == self.spec_is_enabled(),
            copy.spec_is_inverse() == self.spec_is_inverse(),
    {
        match self {
            SourceAddressFiltering::Ignore => Self::Ignore,
            SourceAddressFiltering::Normal(list) => Self::Normal(copy_filters(list)),
            SourceAddressFiltering::Inverse(list) => Self::Inverse(copy_filters(list)),
        }
    }
}

impl Default for SourceAddressFiltering {
    fn default() -> (mode: Self)
        ensures
            mode is Ignore,
    {
        Self::new()
    }
}

} // verus!
