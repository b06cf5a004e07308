//! Hardware filtering of Ethernet frames

use vstd::prelude::*;

mod destination;
pub use destination::{DestinationAddressFiltering, PerfectDestinationAddressFiltering};

mod source;
pub use source::SourceAddressFiltering;

mod multicast;
pub use multicast::MulticastAddressFiltering;

mod hash_table;
pub use hash_table::HashTableValue;

mod control;
pub use control::ControlFrameFiltering;

pub mod lists;

pub mod registers;
pub use registers::{FilterControl, FilterError, RegisterWrite, FILTER_SLOTS};

use lists::{address_list, addresses_as_slice, filters_new, filters_push};
use registers::{program_slots, slot_writes};

verus! {

/// The frame filtering that the MAC should apply to
/// received Ethernet frames.
#[derive(Debug)]
pub enum FrameFilteringMode {
    /// No frame filtering on any frames.
    Promiscuous,
    /// Perform frame filtering based on the provided
    /// configuration.
    Filter(FrameFiltering),
}

impl Default for FrameFilteringMode {
    fn default() -> (mode: Self)
        ensures
            mode is Promiscuous,
    {
        Self::Promiscuous
    }
}

impl Clone for FrameFilteringMode {
    fn clone(&self) -> (copy: Self)
        ensures
            copy is Promiscuous == self is Promiscuous,
            copy.writes() == self.writes(),
            copy.fits() == self.fits(),
            copy matches FrameFilteringMode::Filter(c) ==> self matches FrameFilteringMode::Filter(
                s,
            ) && c@ == s@,
    {
        match self {
            FrameFilteringMode::Promiscuous => Self::Promiscuous,
            FrameFilteringMode::Filter(config) => Self::Filter(config.clone()),
        }
    }
}

impl FrameFilteringMode {
    /// Whether the MAC has room for this mode: promiscuous mode needs no
    /// slot, a filtering configuration at most 3.
    pub open spec fn fits(&self) -> bool {
        match self {
            FrameFilteringMode::Promiscuous => true,
            FrameFilteringMode::Filter(config) => config@.fits(),
        }
    }

    /// The register writes that put this mode into effect. Promiscuous mode
    /// is one write, of the frame filter register with only the promiscuous
    /// bit set: no address register and no hash table register is touched.
    pub open spec fn writes(&self) -> Seq<RegisterWrite> {
        match self {
            FrameFilteringMode::Promiscuous => seq![
                RegisterWrite::FrameFilter { control: FilterControl::spec_promiscuous() },
            ],
            FrameFilteringMode::Filter(config) => config@.writes(),
        }
    }

    /// Compile this mode into the register writes that put it into effect,
    /// in the order in which they are to be made.
    ///
    /// A configuration with more than 3 address filters is rejected as a
    /// whole: the error stands in place of the writes, so none of them can
    /// reach a register.
    pub fn configure(&self) -> (result: Result<Vec<RegisterWrite>, FilterError>)
        ensures
            result is Ok <==> self.fits(),
            result matches Ok(writes) ==> writes@ == self.writes(),
            result matches Err(error) ==> self matches FrameFilteringMode::Filter(config) && error
                == (FilterError::TooManyFilters { requested: config@.filter_count() as usize }),
    {
        match self {
            FrameFilteringMode::Promiscuous => {
                let mut writes = Vec::new();
                writes.push(RegisterWrite::FrameFilter { control: FilterControl::promiscuous() });
                assert(writes@ =~= self.writes());
                Ok(writes)
            },
            FrameFilteringMode::Filter(config) => config.configure(),
        }
    }
}

/// The type of frame filtering that the MAC
/// should perform.
///
/// The total amount of [`MacAddressFilter`]s in this configuration object may
/// be at most 3.
#[derive(Debug)]
pub struct FrameFiltering {
    /// The MAC address of this station. This address is always
    /// used for Destination Address filtering.
    pub address: Mac,
    /// Frame filtering applied to frames based on
    /// their destination address.
    pub destination_address_filter: DestinationAddressFiltering,
    /// Frame filtering applied to frames based on
    /// their source address.
    pub source_address_filter: SourceAddressFiltering,
    /// Frame filtering applied to frames based on
    /// whether they have a multicast address or not.
    pub multicast_address_filter: MulticastAddressFiltering,
    /// Control frame filtering mode,
    pub control_filter: ControlFrameFiltering,
    /// Hash table configuration.
    pub hash_table_value: HashTableValue,
    /// Enable or disable broadcast frame filtering.
    ///
    /// If set to `true`, broadcast frames will be filtered out.
    pub filter_broadcast: bool,
    /// Enable or disable receive all mode.
    ///
    /// If receive all mode is disabled, address filtering
    /// is applied to incoming frames (and corresponding bits
    /// in the descriptors are configured), but the MAC does not
    /// drop any frames.
    pub receive_all: bool,
}

/// What a [`FrameFiltering`] says, with its lists as sequences.
pub struct Policy {
    /// The station address.
    pub address: Mac,
    /// The destination address filters, in list order.
    pub destination: Seq<MacAddressFilter>,
    /// Whether a destination match drops the frame.
    pub destination_inverse: bool,
    /// Whether destination addresses are also looked up in the hash table.
    pub destination_hash: bool,
    /// Whether frames are filtered by source address.
    pub source_enabled: bool,
    /// Whether a source match drops the frame.
    pub source_inverse: bool,
    /// The source address filters, in list order.
    pub source: Seq<MacAddressFilter>,
    /// Whether every multicast frame passes.
    pub multicast_pass_all: bool,
    /// Whether multicast frames are looked up in the hash table.
    pub multicast_hash: bool,
    /// The multicast addresses that pass, in list order.
    pub multicast: Seq<Mac>,
    /// The control frame mode.
    pub control: ControlFrameFiltering,
    /// The hash table.
    pub hash_table: HashTableValue,
    /// Whether broadcast frames are dropped.
    pub filter_broadcast: bool,
    /// Whether receive all mode is on.
    pub receive_all: bool,
}

impl Policy {
    /// The number of address filters: destination, source and multicast
    /// together.
    pub open spec fn filter_count(&self) -> nat {
        self.destination.len() + self.source.len() + self.multicast.len()
    }

    /// Whether the MAC has a slot for each address filter.
    pub open spec fn fits(&self) -> bool {
        self.filter_count() <= FILTER_SLOTS
    }

    /// The fields of the frame filter register.
    pub open spec fn control_bits(&self) -> FilterControl {
        FilterControl {
            promiscuous: false,
            hash_or_perfect: false,
            receive_all: self.receive_all,
            source_filter: self.source_enabled,
            source_inverse: self.source_inverse,
            control_frames: self.control.spec_code(),
            broadcast_filter: self.filter_broadcast,
            pass_all_multicast: self.multicast_pass_all,
            destination_inverse: self.destination_inverse,
            hash_multicast: self.multicast_hash,
            hash_unicast: self.destination_hash,
        }
    }

    /// The filter that slot `slot` (1 to 3) is programmed with, and whether
    /// it is compared with source addresses: the destination filters take
    /// the first slots in list order, the source filters the slots after
    /// them in list order.
    pub open spec fn slot(&self, slot: int) -> Option<(MacAddressFilter, bool)> {
        if 1 <= slot <= self.destination.len() {
            Some((self.destination[slot - 1], false))
        } else if self.destination.len() < slot <= self.destination.len() + self.source.len() {
            Some((self.source[slot - 1 - self.destination.len()], true))
        } else {
            None
        }
    }

    /// The register writes that put the policy into effect, in order: the
    /// station address, the slots of the destination filters, the slots of
    /// the source filters, the frame filter register, the hash table. The
    /// multicast addresses are written to no slot; they only count against
    /// the number of slots.
    pub open spec fn writes(&self) -> Seq<RegisterWrite> {
        seq![
            RegisterWrite::StationHigh { high: register_high(self.address@) as u16 },
            RegisterWrite::StationLow { low: register_low(self.address@) as u32 },
        ] + slot_writes(self.destination, false, 1) + slot_writes(
            self.source,
            true,
            1 + self.destination.len() as int,
        ) + seq![
            RegisterWrite::FrameFilter { control: self.control_bits() },
            RegisterWrite::HashTableHigh { value: self.hash_table.high },
            RegisterWrite::HashTableLow { value: self.hash_table.low },
        ]
    }

    /// Slot assignment: of a policy that fits, every destination and every
    /// source filter has a slot, and the two writes of slot `slot` stand at
    /// positions `2 * slot` and `2 * slot + 1` of the list, the slots in
    /// rising order. The list holds nothing but the station address before
    /// them and the frame filter register and the hash table behind them.
    pub proof fn lemma_slot_assignment(self, slot: int)
        requires
            self.fits(),
            1 <= slot <= self.destination.len() + self.source.len(),
        ensures
            slot <= FILTER_SLOTS,
            self.writes().len() == 5 + 2 * (self.destination.len() + self.source.len()),
            self.slot(slot) matches Some((filter, source)) && self.writes()[2 * slot]
                == registers::filter_high(filter, source, slot) && self.writes()[2 * slot + 1]
                == registers::filter_low(filter, slot),
    {
        let head = seq![
            RegisterWrite::StationHigh { high: register_high(self.address@) as u16 },
            RegisterWrite::StationLow { low: register_low(self.address@) as u32 },
        ];
        let dest = slot_writes(self.destination, false, 1);
        let src = slot_writes(self.source, true, 1 + self.destination.len() as int);
        assert(head.len() == 2);
        assert(dest.len() == 2 * self.destination.len());
        assert(src.len() == 2 * self.source.len());
        let k = 2 * slot - 2;
        if slot <= self.destination.len() {
            assert(dest[k] == registers::filter_high(self.destination[k / 2], false, 1 + k / 2));
            assert(dest[k + 1] == registers::filter_low(self.destination[(k + 1) / 2], 1 + (k + 1) / 2));
            assert((head + dest)[2 * slot] == dest[k]);
            assert((head + dest)[2 * slot + 1] == dest[k + 1]);
        } else {
            let j = k - 2 * self.destination.len();
            assert(src[j] == registers::filter_high(
                self.source[j / 2],
                true,
                1 + self.destination.len() + j / 2,
            ));
            assert(src[j + 1] == registers::filter_low(
                self.source[(j + 1) / 2],
                1 + self.destination.len() + (j + 1) / 2,
            ));
            assert((head + dest + src)[2 * slot] == src[j]);
            assert((head + dest + src)[2 * slot + 1] == src[j + 1]);
        }
    }
}

impl View for FrameFiltering {
    type V = Policy;

    open spec fn view(&self) -> Policy {
        Policy {
            address: self.address,
            destination: self.destination_address_filter.perfect_filtering.filters(),
            destination_inverse: self.destination_address_filter.perfect_filtering.spec_is_inverse(),
            destination_hash: self.destination_address_filter.hash_table_filtering,
            source_enabled: self.source_address_filter.spec_is_enabled(),
            source_inverse: self.source_address_filter.spec_is_inverse(),
            source: self.source_address_filter.filters(),
            multicast_pass_all: self.multicast_address_filter is PassAll,
            multicast_hash: self.multicast_address_filter is DestinationAddressHash,
            multicast: self.multicast_address_filter.addresses(),
            control: self.control_filter,
            hash_table: self.hash_table_value,
            filter_broadcast: self.filter_broadcast,
            receive_all: self.receive_all,
        }
    }
}

impl Clone for FrameFiltering {
    fn clone(&self) -> (copy: Self)
        ensures
            copy@ == self@,
    {
        Self {
            address: self.address,
            destination_address_filter: self.destination_address_filter.clone(),
            source_address_filter: self.source_address_filter.clone(),
            multicast_address_filter: self.multicast_address_filter.clone(),
            control_filter: self.control_filter,
            hash_table_value: self.hash_table_value,
            filter_broadcast: self.filter_broadcast,
            receive_all: self.receive_all,
        }
    }
}

impl FrameFiltering {
    /// Compilation is deterministic: two configurations that say the same
    /// are accepted or rejected alike and compile to the same writes.
    pub proof fn lemma_same_policy_same_writes(self, other: FrameFiltering)
        requires
            self@ == other@,
        ensures
            self@.fits() == other@.fits(),
            self@.writes() == other@.writes(),
    {
    }

    /// Create a new basic [`FrameFiltering`] that:
    /// * Does not filter out frames destined for `station_addr` or an address
    /// contained in `extra_address`.
    /// * Does not filter out multicast frames.
    /// * Does not filter out broadcast frames.
    /// * Filters out all control frames.
    pub fn filter_destinations(station_addr: Mac, extra_addresses: heapless::Vec<Mac, 3>) -> (policy:
        Self)
        ensures
            policy@.address == station_addr,
            policy.destination_address_filter.perfect_filtering is Normal,
            policy@.destination.len() == address_list(extra_addresses).len(),
            forall|i: int|
                0 <= i < address_list(extra_addresses).len() ==> (#[trigger] policy@.destination[i]).address
                    == address_list(extra_addresses)[i] && policy@.destination[i].mask@ == 0,
            !policy@.destination_hash,
            policy.source_address_filter is Ignore,
            policy.multicast_address_filter is PassAll,
            policy.control_filter == ControlFrameFiltering::BlockAll,
            policy.hash_table_value == (HashTableValue { low: 0, high: 0 }),
            !policy.filter_broadcast,
            !policy.receive_all,
            policy@.fits(),
    {
        let extras = addresses_as_slice(&extra_addresses);
        let mut extra_addrs = filters_new();
        let mut i: usize = 0;
        while i < extras.len()
            invariant
                i <= extras@.len() <= 3,
                lists::filter_list(extra_addrs).len() == i,
                forall|k: int|
                    0 <= k < i ==> (#[trigger] lists::filter_list(extra_addrs)[k]).address == extras@[k]
                        && lists::filter_list(extra_addrs)[k].mask@ == 0,
            decreases extras@.len() - i,
        {
            let filter = MacAddressFilter::new(extras[i], MacAddressFilterMask::empty());
            let pushed = filters_push(&mut extra_addrs, filter);
            i += 1;
        }
        FrameFiltering {
            address: station_addr,
            destination_address_filter: DestinationAddressFiltering {
                perfect_filtering: PerfectDestinationAddressFiltering::Normal(extra_addrs),
                hash_table_filtering: false,
            },
            source_address_filter: SourceAddressFiltering::Ignore,
            multicast_address_filter: MulticastAddressFiltering::PassAll,
            control_filter: ControlFrameFiltering::BlockAll,
            hash_table_value: HashTableValue::new(),
            filter_broadcast: false,
            receive_all: false,
        }
    }

    /// The fields of the frame filter register that this configuration asks
    /// for.
    pub fn control_bits(&self) -> (control: FilterControl)
        ensures
            control == self@.control_bits(),
    {
        let (pass_all_multicast, hash_multicast) = match &self.multicast_address_filter {
            MulticastAddressFiltering::PassAll => (true, false),
            MulticastAddressFiltering::DestinationAddressHash => (false, true),
            MulticastAddressFiltering::DestinationAddress(_) => (false, false),
        };
        FilterControl {
            promiscuous: false,
            hash_or_perfect: false,
            receive_all: self.receive_all,
            source_filter: self.source_address_filter.is_enabled(),
            source_inverse: self.source_address_filter.is_inverse(),
            control_frames: self.control_filter.code(),
            broadcast_filter: self.filter_broadcast,
            pass_all_multicast,
            destination_inverse: self.destination_address_filter.perfect_filtering.is_inverse(),
            hash_multicast,
            hash_unicast: self.destination_address_filter.hash_table_filtering,
        }
    }

    /// The number of address filters in this configuration: destination,
    /// source and multicast together. Each list holds at most 3.
    pub fn filter_count(&self) -> (count: usize)
        ensures
            count == self@.filter_count(),
            count <= 9,
    {
        let destination = self.destination_address_filter.perfect_filtering.as_slice().len();
        let source = match self.source_address_filter.as_slice() {
            Some(filters) => filters.len(),
            None => 0,
        };
        let multicast = self.multicast_address_filter.address_count();
        destination + source + multicast
    }

    /// Compile this configuration into the register writes that put it into
    /// effect, in the order in which they are to be made.
    ///
    /// A configuration with more than 3 address filters is rejected as a
    /// whole: the error stands in place of the writes, so none of them can
    /// reach a register.
    pub fn configure(&self) -> (result: Result<Vec<RegisterWrite>, FilterError>)
        ensures
            result is Ok <==> self@.fits(),
            result matches Ok(writes) ==> writes@ == self@.writes(),
            result matches Err(error) ==> error == (FilterError::TooManyFilters {
                requested: self@.filter_count() as usize,
            }),
    {
        let requested = self.filter_count();
        if requested > FILTER_SLOTS {
            return Err(FilterError::TooManyFilters { requested });
        }
        proof {
            self.address.lemma_register_round_trip();
        }
        let mut writes = Vec::new();
        writes.push(RegisterWrite::StationHigh { high: self.address.high() });
        writes.push(RegisterWrite::StationLow { low: self.address.low() });
        let ghost head = writes@;
        let destination = self.destination_address_filter.perfect_filtering.as_slice();
        program_slots(&mut writes, destination, false, 1);
        match self.source_address_filter.as_slice() {
            Some(source) => {
                let first: u8 = 1 + destination.len() as u8;
                program_slots(&mut writes, source, true, first);
            },
            None => {
                assert(slot_writes(self@.source, true, 1 + self@.destination.len() as int)
                    =~= Seq::<RegisterWrite>::empty());
                assert(writes@ =~= writes@ + Seq::<RegisterWrite>::empty());
            },
        }
        assert(writes@ == head + slot_writes(self@.destination, false, 1) + slot_writes(
            self@.source,
            true,
            1 + self@.destination.len() as int,
        ));
        writes.push(RegisterWrite::FrameFilter { control: self.control_bits() });
        writes.push(RegisterWrite::HashTableHigh { value: self.hash_table_value.high });
        writes.push(RegisterWrite::HashTableLow { value: self.hash_table_value.low });
        assert(writes@ =~= self@.writes());
        Ok(writes)
    }
}

/// A big-endian MAC address.
#[derive(Debug, Clone, Copy, PartialEq, Eq)]
pub struct Mac([u8; 6]);

impl View for Mac {
    type V = Seq<u8>;

    /// The six bytes of the address, in transmission order.
    closed spec fn view(&self) -> Seq<u8> {
        self.0@
    }
}

impl From<[u8; 6]> for Mac {
    fn from(value: [u8; 6]) -> (mac: Self) {
        Mac(value)
    }
}

impl vstd::std_specs::convert::FromSpecImpl<[u8; 6]> for Mac {
    open spec fn obeys_from_spec() -> bool {
        true
    }

    closed spec fn from_spec(value: [u8; 6]) -> Self {
        Mac(value)
    }
}

/// The value that the high address register holds for an address: byte 5 in
/// bits 0 to 7, byte 4 in bits 8 to 15.
pub open spec fn register_high(address: Seq<u8>) -> int
    recommends
        address.len() == 6,
{
    address[5] + 0x100 * address[4]
}

/// The value that the low address register holds for an address: byte 3 in
/// bits 0 to 7, then bytes 2, 1 and 0, each eight bits further up.
pub open spec fn register_low(address: Seq<u8>) -> int
    recommends
        address.len() == 6,
{
    address[3] + 0x100 * address[2] + 0x1_0000 * address[1] + 0x100_0000 * address[0]
}

/// The address that a pair of address registers stands for.
pub open spec fn register_address(high: u16, low: u32) -> Seq<u8> {
    seq![
        (low / 0x100_0000) as u8,
        (low / 0x1_0000 % 0x100) as u8,
        (low / 0x100 % 0x100) as u8,
        (low % 0x100) as u8,
        (high / 0x100) as u8,
        (high % 0x100) as u8,
    ]
}

impl Mac {
    /// Every address has exactly six bytes.
    pub proof fn lemma_six_bytes(self)
        ensures
            self@.len() == 6,
    {
    }

    /// Two addresses with the same bytes are the same address.
    pub proof fn lemma_same_bytes(self, other: Mac)
        requires
            self@ == other@,
        ensures
            self == other,
    {
        assert(self.0 =~= other.0);
    }

    /// The address that the conversion from an array gives holds the bytes
    /// of the array.
    pub proof fn lemma_from_array(value: [u8; 6])
        ensures
            <Mac as vstd::std_specs::convert::FromSpec<[u8; 6]>>::from_spec(value)@ == value@,
    {
    }

    /// Create a new MAC address with the given big-endian value.
    pub fn new(address: [u8; 6]) -> (mac: Self)
        ensures
            mac@ == address@,
    {
        Self(address)
    }

    /// Get the raw bytes of this MAC address.
    pub fn raw(&self) -> (bytes: &[u8; 6])
        ensures
            bytes@ == self@,
    {
        &self.0
    }

    /// Whether the I/G bit, bit 0 of the first byte, is set.
    pub open spec fn spec_is_multicast(&self) -> bool {
        self@[0] & 0b1 == 0b1
    }

    /// Whether the U/L bit, bit 1 of the first byte, is set.
    pub open spec fn spec_is_locally_administred(&self) -> bool {
        self@[0] & 0b10 == 0b10
    }

    /// Whether every byte is `0xFF`.
    pub open spec fn spec_is_broadcast(&self) -> bool {
        forall|i: int| 0 <= i < 6 ==> self@[i] == 0xFF
    }

    /// Returns `true` if this MAC is a group address, i.e. it has the I/G bit set.
    #[verifier::when_used_as_spec(spec_is_multicast)]
    pub fn is_multicast(&self) -> (yes: bool)
        ensures
            yes == self.spec_is_multicast(),
    {
        (self.0[0] & 0b1) == 0b1
    }

    /// Returns `true` if this MAC is locally administred, i.e. it has the U/L bit set.
    #[verifier::when_used_as_spec(spec_is_locally_administred)]
    pub fn is_locally_administred(&self) -> (yes: bool)
        ensures
            yes == self.spec_is_locally_administred(),
    {
        (self.0[0] & 0b10) == 0b10
    }

    /// Returns `true` if this MAC is the broadcast address.
    #[verifier::when_used_as_spec(spec_is_broadcast)]
    pub fn is_broadcast(&self) -> (yes: bool)
        ensures
            yes == self.spec_is_broadcast(),
    {
        let mut i: usize = 0;
        while i < 6
            invariant
                i <= 6,
                forall|k: int| 0 <= k < i ==> self@[k] == 0xFF,
            decreases 6 - i,
        {
            if self.0[i] != 0xFF {
                assert(self@[i as int] != 0xFF);
                return false;
            }
            i += 1;
        }
        true
    }

    /// The broadcast address is a group address: an address that is all ones
    /// has its I/G bit set. It is the only value of which both predicates
    /// hold by definition; every other group address is not broadcast.
    pub proof fn lemma_broadcast_is_multicast(self)
        ensures
            self.spec_is_broadcast() ==> self.spec_is_multicast(),
            self.spec_is_broadcast() <==> self@ == seq![0xFFu8, 0xFFu8, 0xFFu8, 0xFFu8, 0xFFu8, 0xFFu8],
    {
        if self.spec_is_broadcast() {
            assert(self@[0] == 0xFF);
            assert(0xFFu8 & 0b1 == 0b1) by (bit_vector);
            assert(self@ =~= seq![0xFFu8, 0xFFu8, 0xFFu8, 0xFFu8, 0xFFu8, 0xFFu8]);
        }
    }

    /// Return bytes in a form that can be put into the high portion
    /// of a MAC address register: byte 5 in the low half, byte 4 above it.
    pub fn high(&self) -> (value: u16)
        ensures
            value == register_high(self@),
    {
        let b5: u16 = self.0[5] as u16;
        let b4: u16 = self.0[4] as u16;
        assert(b5 | (b4 << 8) == b5 + 0x100 * b4) by (bit_vector)
            requires
                b5 < 0x100,
                b4 < 0x100,
        ;
        b5 | (b4 << 8)
    }

    /// Return bytes in a form that can be put into the low portion
    /// of a MAC address register: byte 3 lowest, byte 0 highest.
    pub fn low(&self) -> (value: u32)
        ensures
            value == register_low(self@),
    {
        let b3: u32 = self.0[3] as u32;
        let b2: u32 = self.0[2] as u32;
        let b1: u32 = self.0[1] as u32;
        let b0: u32 = self.0[0] as u32;
        assert(b3 | (b2 << 8) | (b1 << 16) | (b0 << 24) == b3 + 0x100 * b2 + 0x1_0000 * b1
            + 0x100_0000 * b0) by (bit_vector)
            requires
                b3 < 0x100,
                b2 < 0x100,
                b1 < 0x100,
                b0 < 0x100,
        ;
        b3 | (b2 << 8) | (b1 << 16) | (b0 << 24)
    }

    /// Read an address back from the values of its two registers.
    pub fn from_registers(high: u16, low: u32) -> (mac: Self)
        ensures
            mac@ == register_address(high, low),
    {
        assert(low >> 24 == low / 0x100_0000 && (low >> 16) & 0xFF == low / 0x1_0000 % 0x100 && (low
            >> 8) & 0xFF == low / 0x100 % 0x100 && low & 0xFF == low % 0x100) by (bit_vector);
        assert(high >> 8 == high / 0x100 && high & 0xFF == high % 0x100) by (bit_vector);
        let mac = Self(
            [
                (low >> 24) as u8,
                ((low >> 16) & 0xFF) as u8,
                ((low >> 8) & 0xFF) as u8,
                (low & 0xFF) as u8,
                (high >> 8) as u8,
                (high & 0xFF) as u8,
            ],
        );
        assert(mac@ =~= register_address(high, low));
        mac
    }

    /// Writing an address to its registers and reading it back gives the
    /// address again.
    pub proof fn lemma_register_round_trip(self)
        ensures
            0 <= register_high(self@) <= u16::MAX,
            0 <= register_low(self@) <= u32::MAX,
            register_address(register_high(self@) as u16, register_low(self@) as u32) == self@,
    {
        let b0: u32 = self@[0] as u32;
        let b1: u32 = self@[1] as u32;
        let b2: u32 = self@[2] as u32;
        let b3: u32 = self@[3] as u32;
        let b4: u16 = self@[4] as u16;
        let b5: u16 = self@[5] as u16;
        let high: u16 = (b5 + 0x100 * b4) as u16;
        let low: u32 = (b3 + 0x100 * b2 + 0x1_0000 * b1 + 0x100_0000 * b0) as u32;
        assert(high / 0x100 == b4 && high % 0x100 == b5) by (bit_vector)
            requires
                b4 < 0x100,
                b5 < 0x100,
                high == b5 + 0x100 * b4,
        ;
        assert(low / 0x100_0000 == b0 && low / 0x1_0000 % 0x100 == b1 && low / 0x100 % 0x100 == b2
            && low % 0x100 == b3) by (bit_vector)
            requires
                b0 < 0x100,
                b1 < 0x100,
                b2 < 0x100,
                b3 < 0x100,
                low == b3 + 0x100 * b2 + 0x1_0000 * b1 + 0x100_0000 * b0,
        ;
        assert(register_address(high, low) =~= self@);
    }

    /// Reading a pair of registers as an address and writing that address
    /// gives the registers' values again.
    pub proof fn lemma_registers_kept(high: u16, low: u32)
        ensures
            register_high(register_address(high, low)) == high,
            register_low(register_address(high, low)) == low,
    {
        let b0: u32 = low / 0x100_0000;
        let b1: u32 = low / 0x1_0000 % 0x100;
        let b2: u32 = low / 0x100 % 0x100;
        let b3: u32 = low % 0x100;
        let b4: u16 = high / 0x100;
        let b5: u16 = high % 0x100;
        assert(b5 + 0x100 * b4 == high && b4 < 0x100 && b5 < 0x100) by (bit_vector)
            requires
                b4 == high / 0x100,
                b5 == high % 0x100,
        ;
        assert(b3 + 0x100 * b2 + 0x1_0000 * b1 + 0x100_0000 * b0 == low && b0 < 0x100 && b1 < 0x100
            && b2 < 0x100 && b3 < 0x100) by (bit_vector)
            requires
                b0 == low / 0x100_0000,
                b1 == low / 0x1_0000 % 0x100,
                b2 == low / 0x100 % 0x100,
                b3 == low % 0x100,
        ;
    }
}

/// A mask to be applied when comparing a [`MacAddressFilter`]
/// to an incoming address.
///
/// Bit `i` stands for byte `i` of the address; a set bit takes that byte out
/// of the comparison. Only the six low bits can be set.
#[derive(Debug, Clone, Copy, PartialEq, Eq, Hash, Structural)]
pub struct MacAddressFilterMask {
    bits: u8,
}

impl View for MacAddressFilterMask {
    type V = u8;

    /// The mask as the register field holds it.
    closed spec fn view(&self) -> u8 {
        self.bits
    }
}

impl MacAddressFilterMask {
    #[verifier::type_invariant]
    spec fn six_bits(self) -> bool {
        self.bits <= 0x3F
    }

    /// Whether the mask takes byte `byte` of the address out of the comparison.
    pub open spec fn ignores(&self, byte: int) -> bool {
        0 <= byte < 6 && self@ & (1u8 << (byte as u8)) != 0
    }

    /// Two masks with the same bits are the same mask.
    pub proof fn lemma_same_bits(self, other: MacAddressFilterMask)
        requires
            self@ == other@,
        ensures
            self == other,
    {
    }

    /// A mask that ignores no byte.
    pub fn empty() -> (mask: Self)
        ensures
            mask@ == 0,
    {
        Self { bits: 0 }
    }

    /// A mask that ignores all six bytes.
    pub fn all() -> (mask: Self)
        ensures
            mask@ == 0x3F,
    {
        Self { bits: 0x3F }
    }

    /// Ignore byte 5 (the most significant byte)
    /// during address comparison.
    pub fn byte5() -> (mask: Self)
        ensures
            mask@ == 0x20,
    {
        Self { bits: 0x20 }
    }

    /// Ignore byte 4 during address comparison.
    pub fn byte4() -> (mask: Self)
        ensures
            mask@ == 0x10,
    {
        Self { bits: 0x10 }
    }

    /// Ignore byte 3 during address comparison.
    pub fn byte3() -> (mask: Self)
        ensures
            mask@ == 0x08,
    {
        Self { bits: 0x08 }
    }

    /// Ignore byte 2 during address comparison.
    pub fn byte2() -> (mask: Self)
        ensures
            mask@ == 0x04,
    {
        Self { bits: 0x04 }
    }

    /// Ignore byte 1 during address comparison.
    pub fn byte1() -> (mask: Self)
        ensures
            mask@ == 0x02,
    {
        Self { bits: 0x02 }
    }

    /// Ignore byte 0 during address comparison.
    pub fn byte0() -> (mask: Self)
        ensures
            mask@ == 0x01,
    {
        Self { bits: 0x01 }
    }

    /// The raw value of the mask.
    pub fn bits(&self) -> (bits: u8)
        ensures
            bits == self@,
            bits <= 0x3F,
    {
        proof {
            use_type_invariant(self);
        }
        self.bits
    }

    /// The mask with the given raw value, unless that value has a bit set
    /// that stands for no byte.
    pub fn from_bits(bits: u8) -> (mask: Option<Self>)
        ensures
            bits <= 0x3F ==> mask.is_some() && mask.unwrap()@ == bits,
            bits > 0x3F ==> mask.is_none(),
    {
        if bits <= 0x3F {
            Some(Self { bits })
        } else {
            None
        }
    }

    /// The mask with the given raw value, without the bits that stand for no
    /// byte.
    pub fn from_bits_truncate(bits: u8) -> (mask: Self)
        ensures
            mask@ == bits & 0x3F,
    {
        assert(bits & 0x3F <= 0x3F) by (bit_vector);
        Self { bits: bits & 0x3F }
    }

    /// The mask that ignores every byte that `self` or `other` ignores.
    pub fn union(self, other: Self) -> (mask: Self)
        ensures
            mask@ == self@ | other@,
            forall|byte: int| #[trigger]
                mask.ignores(byte) <==> self.ignores(byte) || other.ignores(byte),
    {
        proof {
            use_type_invariant(self);
            use_type_invariant(other);
        }
        let a: u8 = self.bits;
        let b: u8 = other.bits;
        assert(a | b <= 0x3F) by (bit_vector)
            requires
                a <= 0x3F,
                b <= 0x3F,
        ;
        let mask = Self { bits: a | b };
        proof {
            assert forall|byte: int| #[trigger]
                mask.ignores(byte) <==> self.ignores(byte) || other.ignores(byte) by {
                if 0 <= byte < 6 {
                    let s: u8 = byte as u8;
                    assert((((a | b) & (1u8 << s)) != 0) <==> ((a & (1u8 << s)) != 0) || ((b & (1u8
                        << s)) != 0)) by (bit_vector);
                }
            }
        }
        mask
    }

    /// Whether `self` ignores every byte that `other` ignores.
    pub fn contains(&self, other: Self) -> (yes: bool)
        ensures
            yes == (self@ & other@ == other@),
    {
        (self.bits & other.bits) == other.bits
    }

    /// Whether the mask ignores no byte.
    pub fn is_empty(&self) -> (yes: bool)
        ensures
            yes == (self@ == 0),
    {
        self.bits == 0
    }
}

/// A MAC address filter
#[derive(Debug, Clone, Copy, PartialEq, Eq)]
pub struct MacAddressFilter {
    /// The address that this filter should use.
    pub address: Mac,
    /// The byte mask that should be used to mask
    /// out specific parts of the to-be-compared address
    /// for comparison.
    pub mask: MacAddressFilterMask,
}

impl MacAddressFilter {
    /// Create a new MAC address filter.
    pub fn new(address: Mac, mask: MacAddressFilterMask) -> (filter: Self)
        ensures
            filter.address == address,
            filter.mask == mask,
    {
        Self { address, mask }
    }
}

} // verus!
