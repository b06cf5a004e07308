//! The register writes that a filtering configuration compiles to.
//!
//! A write is a plain value that names one register of the MAC and the
//! fields to put into it. The code that owns the peripheral performs the
//! writes of a configuration one by one, in the order of the list.

use super::{register_high, register_low, MacAddressFilter};
use vstd::prelude::*;

verus! {

/// The number of address filter slots that the MAC has beside the station
/// address.
pub const FILTER_SLOTS: usize = 3;

/// Why a filtering configuration was rejected.
#[derive(Debug, Clone, Copy, PartialEq, Eq, Structural)]
pub enum FilterError {
    /// The destination, source and multicast address filters together are
    /// more than the 3 that the MAC has slots for.
    TooManyFilters {
        /// The number of address filters in the configuration.
        requested: usize,
    },
}

/// The fields of the frame filter register. A field that is not set is
/// written as zero.
#[derive(Debug, Clone, Copy, PartialEq, Eq, Structural)]
pub struct FilterControl {
    /// Pass every frame, whatever its addresses.
    pub promiscuous: bool,
    /// Pass a frame that matches the hash table or a perfect filter.
    pub hash_or_perfect: bool,
    /// Hand every frame to the application and only report the filters'
    /// verdict in its status.
    pub receive_all: bool,
    /// Drop frames that fail the source address filter.
    pub source_filter: bool,
    /// Invert the verdict of the source address filter.
    pub source_inverse: bool,
    /// The two-bit code of the control frame mode.
    pub control_frames: u8,
    /// Drop broadcast frames.
    pub broadcast_filter: bool,
    /// Pass every multicast frame.
    pub pass_all_multicast: bool,
    /// Invert the verdict of the destination address filter.
    pub destination_inverse: bool,
    /// Look multicast destinations up in the hash table.
    pub hash_multicast: bool,
    /// Look unicast destinations up in the hash table.
    pub hash_unicast: bool,
}

impl FilterControl {
    /// The register with only the promiscuous bit set.
    pub open spec fn spec_promiscuous() -> FilterControl {
        FilterControl {
            promiscuous: true,
            hash_or_perfect: false,
            receive_all: false,
            source_filter: false,
            source_inverse: false,
            control_frames: 0,
            broadcast_filter: false,
            pass_all_multicast: false,
            destination_inverse: false,
            hash_multicast: false,
            hash_unicast: false,
        }
    }

    /// The register with only the promiscuous bit set.
    #[verifier::when_used_as_spec(spec_promiscuous)]
    pub fn promiscuous() -> (control: Self)
        ensures
            control == Self::spec_promiscuous(),
    {
        FilterControl {
            promiscuous: true,
            hash_or_perfect: false,
            receive_all: false,
            source_filter: false,
            source_inverse: false,
            control_frames: 0,
            broadcast_filter: false,
            pass_all_multicast: false,
            destination_inverse: false,
            hash_multicast: false,
            hash_unicast: false,
        }
    }
}

/// One write to a register of the MAC.
#[derive(Debug, Clone, Copy, PartialEq, Eq, Structural)]
pub enum RegisterWrite {
    /// The high register of the station address.
    StationHigh {
        /// Bytes 5 and 4 of the address.
        high: u16,
    },
    /// The low register of the station address.
    StationLow {
        /// Bytes 3 to 0 of the address.
        low: u32,
    },
    /// The high register of an address filter slot.
    FilterHigh {
        /// The slot, 1 to 3.
        slot: u8,
        /// Whether the slot takes part in filtering.
        enable: bool,
        /// Whether the slot is compared with the source address of a frame
        /// instead of its destination address.
        source: bool,
        /// The bytes of the address that the comparison leaves out.
        mask: u8,
        /// Bytes 5 and 4 of the address.
        high: u16,
    },
    /// The low register of an address filter slot.
    FilterLow {
        /// The slot, 1 to 3.
        slot: u8,
        /// Bytes 3 to 0 of the address.
        low: u32,
    },
    /// The frame filter register, all fields at once.
    FrameFilter {
        /// The fields of the register.
        control: FilterControl,
    },
    /// The high register of the hash table.
    HashTableHigh {
        /// Bits 32 to 63 of the table.
        value: u32,
    },
    /// The low register of the hash table.
    HashTableLow {
        /// Bits 0 to 31 of the table.
        value: u32,
    },
}

/// The write to the high register of `slot` that programs `filter` into it.
pub open spec fn filter_high(filter: MacAddressFilter, source: bool, slot: int) -> RegisterWrite {
    RegisterWrite::FilterHigh {
        slot: slot as u8,
        enable: true,
        source,
        mask: filter.mask@,
        high: register_high(filter.address@) as u16,
    }
}

/// The write to the low register of `slot` that programs `filter` into it.
pub open spec fn filter_low(filter: MacAddressFilter, slot: int) -> RegisterWrite {
    RegisterWrite::FilterLow { slot: slot as u8, low: register_low(filter.address@) as u32 }
}

/// The writes that program `filters` into consecutive slots, the first of
/// them into slot `first`: for each filter its high register, then its low
/// register.
pub open spec fn slot_writes(filters: Seq<MacAddressFilter>, source: bool, first: int) -> Seq<
    RegisterWrite,
> {
    Seq::new(
        2 * filters.len(),
        |k: int|
            if k % 2 == 0 {
                filter_high(filters[k / 2], source, first + k / 2)
            } else {
                filter_low(filters[k / 2], first + k / 2)
            },
    )
}

/// Programming one more filter adds its two writes behind those of the
/// filters before it.
proof fn lemma_slot_writes_push(
    filters: Seq<MacAddressFilter>,
    filter: MacAddressFilter,
    source: bool,
    first: int,
)
    ensures
        slot_writes(filters.push(filter), source, first) == slot_writes(filters, source, first)
            + seq![
            filter_high(filter, source, first + filters.len()),
            filter_low(filter, first + filters.len()),
        ],
{
    let longer = slot_writes(filters.push(filter), source, first);
    let joined = slot_writes(filters, source, first) + seq![
        filter_high(filter, source, first + filters.len()),
        filter_low(filter, first + filters.len()),
    ];
    assert(longer.len() == joined.len());
    assert forall|k: int| 0 <= k < longer.len() implies longer[k] == joined[k] by {
        if k < 2 * filters.len() {
            assert(filters.push(filter)[k / 2] == filters[k / 2]);
        } else {
            assert(k / 2 == filters.len());
            assert(filters.push(filter)[k / 2] == filter);
        }
    }
    assert(longer =~= joined);
}

/// Append to `writes` the writes that program `filters` into consecutive
/// slots, starting at slot `first`.
pub(crate) fn program_slots(
    writes: &mut Vec<RegisterWrite>,
    filters: &[MacAddressFilter],
    source: bool,
    first: u8,
)
    requires
        first + filters@.len() <= u8::MAX,
    ensures
        final(writes)@ == old(writes)@ + slot_writes(filters@, source, first as int),
{
    let mut i: usize = 0;
    assert(filters@.take(0) =~= Seq::<MacAddressFilter>::empty());
    assert(slot_writes(filters@.take(0), source, first as int) =~= Seq::<RegisterWrite>::empty());
    assert(writes@ =~= old(writes)@ + slot_writes(filters@.take(0), source, first as int));
    while i < filters.len()
        invariant
            i <= filters@.len(),
            first + filters@.len() <= u8::MAX,
            writes@ == old(writes)@ + slot_writes(filters@.take(i as int), source, first as int),
        decreases filters@.len() - i,
    {
        let filter = filters[i];
        let slot: u8 = first + i as u8;
        proof {
            filter.address.lemma_register_round_trip();
            lemma_slot_writes_push(filters@.take(i as int), filter, source, first as int);
            assert(filters@.take(i as int).push(filter) =~= filters@.take(i + 1));
        }
        writes.push(
            RegisterWrite::FilterHigh {
                slot,
                enable: true,
                source,
                mask: filter.mask.bits(),
                high: filter.address.high(),
            },
        );
        writes.push(RegisterWrite::FilterLow { slot, low: filter.address.low() });
        i += 1;
    }
    assert(filters@.take(i as int) =~= filters@);
}

} // verus!
