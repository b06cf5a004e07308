use eth_driver::mac::frame_filtering::{
    ControlFrameFiltering, DestinationAddressFiltering, FilterControl, FilterError,
    FrameFiltering, FrameFilteringMode, HashTableValue, Mac, MacAddressFilter,
    MacAddressFilterMask, MulticastAddressFiltering, PerfectDestinationAddressFiltering,
    RegisterWrite, SourceAddressFiltering, FILTER_SLOTS,
};

fn mac(last: u8) -> Mac {
    Mac::new([0x02, 0x00, 0x00, 0x00, 0x00, last])
}

fn filters(items: &[MacAddressFilter]) -> heapless::Vec<MacAddressFilter, 3> {
    let mut list = heapless::Vec::new();
    for item in items {
        assert!(list.push(*item).is_ok());
    }
    list
}

fn addresses(items: &[Mac]) -> heapless::Vec<Mac, 3> {
    let mut list = heapless::Vec::new();
    for item in items {
        assert!(list.push(*item).is_ok());
    }
    list
}

fn plain(last: u8) -> MacAddressFilter {
    MacAddressFilter::new(mac(last), MacAddressFilterMask::empty())
}

fn policy(
    destination: &[MacAddressFilter],
    source: Option<&[MacAddressFilter]>,
    multicast: Option<&[Mac]>,
) -> FrameFiltering {
    FrameFiltering {
        address: Mac::new([0xAA, 0xBB, 0xCC, 0xDD, 0xEE, 0xFF]),
        destination_address_filter: DestinationAddressFiltering {
            perfect_filtering: PerfectDestinationAddressFiltering::Normal(filters(destination)),
            hash_table_filtering: false,
        },
        source_address_filter: match source {
            Some(items) => SourceAddressFiltering::Normal(filters(items)),
            None => SourceAddressFiltering::Ignore,
        },
        multicast_address_filter: match multicast {
            Some(items) => MulticastAddressFiltering::DestinationAddress(addresses(items)),
            None => MulticastAddressFiltering::PassAll,
        },
        control_filter: ControlFrameFiltering::BlockAll,
        hash_table_value: HashTableValue::new(),
        filter_broadcast: false,
        receive_all: false,
    }
}

fn cleared_control() -> FilterControl {
    FilterControl {
        promiscuous: false,
        hash_or_perfect: false,
        receive_all: false,
        source_filter: false,
        source_inverse: false,
        control_frames: 0,
        broadcast_filter: false,
        pass_all_multicast: false,
        destination_inverse: false,
        hash_multicast: false,
        hash_unicast: false,
    }
}

#[test]
fn promiscuous_mode_writes_only_the_promiscuous_bit() {
    let writes = FrameFilteringMode::Promiscuous.configure().unwrap();
    assert_eq!(
        writes,
        vec![RegisterWrite::FrameFilter {
            control: FilterControl { promiscuous: true, ..cleared_control() },
        }]
    );
    assert!(!writes.iter().any(|write| matches!(
        write,
        RegisterWrite::StationHigh { .. }
            | RegisterWrite::StationLow { .. }
            | RegisterWrite::FilterHigh { .. }
            | RegisterWrite::FilterLow { .. }
            | RegisterWrite::HashTableHigh { .. }
            | RegisterWrite::HashTableLow { .. }
    )));
}

#[test]
fn default_mode_is_promiscuous() {
    assert!(matches!(FrameFilteringMode::default(), FrameFilteringMode::Promiscuous));
    assert_eq!(FilterControl::promiscuous(), FilterControl { promiscuous: true, ..cleared_control() });
}

#[test]
fn filter_destinations_builds_the_basic_policy() {
    let station = Mac::new([0xAA, 0xBB, 0xCC, 0xDD, 0xEE, 0xFF]);
    let extra = Mac::new([0x11, 0x22, 0x33, 0x44, 0x55, 0x66]);
    let policy = FrameFiltering::filter_destinations(station, addresses(&[extra]));

    assert_eq!(policy.address, station);
    match &policy.destination_address_filter.perfect_filtering {
        PerfectDestinationAddressFiltering::Normal(list) => {
            assert_eq!(list.as_slice(), &[MacAddressFilter::new(extra, MacAddressFilterMask::empty())]);
        }
        PerfectDestinationAddressFiltering::Inverse(_) => panic!("destination mode is inverse"),
    }
    assert!(!policy.destination_address_filter.hash_table_filtering);
    assert!(matches!(policy.source_address_filter, SourceAddressFiltering::Ignore));
    assert!(matches!(policy.multicast_address_filter, MulticastAddressFiltering::PassAll));
    assert_eq!(policy.control_filter, ControlFrameFiltering::BlockAll);
    assert_eq!(policy.hash_table_value, HashTableValue { low: 0, high: 0 });
    assert!(!policy.filter_broadcast);
    assert!(!policy.receive_all);
}

#[test]
fn filter_destinations_compiles_to_one_extra_slot_with_zero_mask() {
    let station = Mac::new([0xAA, 0xBB, 0xCC, 0xDD, 0xEE, 0xFF]);
    let extra = Mac::new([0x11, 0x22, 0x33, 0x44, 0x55, 0x66]);
    let policy = FrameFiltering::filter_destinations(station, addresses(&[extra]));
    let writes = policy.configure().unwrap();
    assert_eq!(
        writes,
        vec![
            RegisterWrite::StationHigh { high: 0xEEFF },
            RegisterWrite::StationLow { low: 0xAABB_CCDD },
            RegisterWrite::FilterHigh { slot: 1, enable: true, source: false, mask: 0, high: 0x5566 },
            RegisterWrite::FilterLow { slot: 1, low: 0x1122_3344 },
            RegisterWrite::FrameFilter {
                control: FilterControl { pass_all_multicast: true, ..cleared_control() },
            },
            RegisterWrite::HashTableHigh { value: 0 },
            RegisterWrite::HashTableLow { value: 0 },
        ]
    );
    let slots = writes.iter().filter(|write| matches!(write, RegisterWrite::FilterHigh { .. })).count();
    assert_eq!(slots, 1);
}

#[test]
fn filter_destinations_keeps_all_three_extras_in_order() {
    let policy =
        FrameFiltering::filter_destinations(mac(0), addresses(&[mac(3), mac(1), mac(2)]));
    match &policy.destination_address_filter.perfect_filtering {
        PerfectDestinationAddressFiltering::Normal(list) => {
            assert_eq!(list.as_slice(), &[plain(3), plain(1), plain(2)]);
        }
        PerfectDestinationAddressFiltering::Inverse(_) => panic!("destination mode is inverse"),
    }
    assert_eq!(policy.filter_count(), 3);
    assert!(policy.configure().is_ok());
}

#[test]
fn filter_destinations_without_extras_programs_no_slot() {
    let policy = FrameFiltering::filter_destinations(mac(9), addresses(&[]));
    assert_eq!(policy.filter_count(), 0);
    let writes = policy.configure().unwrap();
    assert_eq!(writes.len(), 5);
    assert_eq!(writes[0], RegisterWrite::StationHigh { high: mac(9).high() });
    assert_eq!(writes[1], RegisterWrite::StationLow { low: mac(9).low() });
}

#[test]
fn destination_filters_take_slots_before_source_filters() {
    let masked = MacAddressFilter::new(mac(7), MacAddressFilterMask::byte5().union(MacAddressFilterMask::byte0()));
    let policy = policy(&[plain(1), masked], Some(&[plain(5)]), None);
    let writes = policy.configure().unwrap();
    assert_eq!(writes.len(), 11);
    assert_eq!(
        &writes[2..8],
        &[
            RegisterWrite::FilterHigh { slot: 1, enable: true, source: false, mask: 0, high: mac(1).high() },
            RegisterWrite::FilterLow { slot: 1, low: mac(1).low() },
            RegisterWrite::FilterHigh { slot: 2, enable: true, source: false, mask: 0x21, high: mac(7).high() },
            RegisterWrite::FilterLow { slot: 2, low: mac(7).low() },
            RegisterWrite::FilterHigh { slot: 3, enable: true, source: true, mask: 0, high: mac(5).high() },
            RegisterWrite::FilterLow { slot: 3, low: mac(5).low() },
        ]
    );
}

#[test]
fn source_filters_alone_start_at_the_first_slot() {
    let policy = policy(&[], Some(&[plain(4), plain(6)]), None);
    let writes = policy.configure().unwrap();
    assert_eq!(
        &writes[2..6],
        &[
            RegisterWrite::FilterHigh { slot: 1, enable: true, source: true, mask: 0, high: mac(4).high() },
            RegisterWrite::FilterLow { slot: 1, low: mac(4).low() },
            RegisterWrite::FilterHigh { slot: 2, enable: true, source: true, mask: 0, high: mac(6).high() },
            RegisterWrite::FilterLow { slot: 2, low: mac(6).low() },
        ]
    );
}

#[test]
fn compiling_twice_gives_the_same_writes() {
    let policy = policy(&[plain(1)], Some(&[plain(2)]), Some(&[mac(3)]));
    assert_eq!(policy.configure(), policy.configure());
    assert_eq!(policy.clone().configure(), policy.configure());
}

#[test]
fn more_than_three_filters_are_rejected() {
    let four = policy(&[plain(1), plain(2)], Some(&[plain(3), plain(4)]), None);
    assert_eq!(four.filter_count(), 4);
    assert_eq!(four.configure(), Err(FilterError::TooManyFilters { requested: 4 }));
    assert_eq!(
        FrameFilteringMode::Filter(four).configure(),
        Err(FilterError::TooManyFilters { requested: 4 })
    );

    let nine = policy(
        &[plain(1), plain(2), plain(3)],
        Some(&[plain(4), plain(5), plain(6)]),
        Some(&[mac(7), mac(8), mac(9)]),
    );
    assert_eq!(nine.configure(), Err(FilterError::TooManyFilters { requested: 9 }));
}

#[test]
fn multicast_addresses_count_against_the_slots() {
    let fits = policy(&[plain(1)], Some(&[plain(2)]), Some(&[mac(3)]));
    assert_eq!(fits.filter_count(), FILTER_SLOTS);
    assert!(fits.configure().is_ok());

    let over = policy(&[plain(1)], Some(&[plain(2)]), Some(&[mac(3), mac(4)]));
    assert_eq!(over.filter_count(), 4);
    assert_eq!(over.configure(), Err(FilterError::TooManyFilters { requested: 4 }));
}

#[test]
fn exactly_three_filters_are_accepted() {
    let three = policy(&[plain(1), plain(2), plain(3)], None, None);
    let writes = three.configure().unwrap();
    assert_eq!(writes.len(), 2 + 6 + 3);
    let mode = FrameFilteringMode::Filter(three);
    assert_eq!(mode.configure().unwrap(), writes);
}

#[test]
fn control_bits_follow_the_modes() {
    let mut policy = policy(&[], None, None);
    assert_eq!(policy.control_bits(), FilterControl { pass_all_multicast: true, ..cleared_control() });

    policy.destination_address_filter = DestinationAddressFiltering {
        perfect_filtering: PerfectDestinationAddressFiltering::Inverse(filters(&[plain(1)])),
        hash_table_filtering: true,
    };
    policy.source_address_filter = SourceAddressFiltering::Inverse(filters(&[plain(2)]));
    policy.multicast_address_filter = MulticastAddressFiltering::DestinationAddressHash;
    policy.control_filter = ControlFrameFiltering::AddressFilter;
    policy.filter_broadcast = true;
    policy.receive_all = true;
    assert_eq!(
        policy.control_bits(),
        FilterControl {
            promiscuous: false,
            hash_or_perfect: false,
            receive_all: true,
            source_filter: true,
            source_inverse: true,
            control_frames: 0b11,
            broadcast_filter: true,
            pass_all_multicast: false,
            destination_inverse: true,
            hash_multicast: true,
            hash_unicast: true,
        }
    );

    policy.source_address_filter = SourceAddressFiltering::Normal(filters(&[]));
    policy.multicast_address_filter = MulticastAddressFiltering::DestinationAddress(addresses(&[]));
    let control = policy.control_bits();
    assert!(control.source_filter);
    assert!(!control.source_inverse);
    assert!(!control.pass_all_multicast);
    assert!(!control.hash_multicast);
}

#[test]
fn control_frame_codes() {
    assert_eq!(ControlFrameFiltering::BlockAll.code(), 0b00);
    assert_eq!(ControlFrameFiltering::NoPause.code(), 0b01);
    assert_eq!(ControlFrameFiltering::AllowAll.code(), 0b10);
    assert_eq!(ControlFrameFiltering::AddressFilter.code(), 0b11);
    assert_eq!(ControlFrameFiltering::new(), ControlFrameFiltering::BlockAll);
    assert_eq!(ControlFrameFiltering::default(), ControlFrameFiltering::BlockAll);
}

#[test]
fn hash_table_is_written_last_high_then_low() {
    let mut policy = policy(&[plain(1)], None, None);
    policy.hash_table_value = HashTableValue { low: 0x0000_0001, high: 0x8000_0000 };
    let writes = policy.configure().unwrap();
    let count = writes.len();
    assert_eq!(writes[count - 2], RegisterWrite::HashTableHigh { value: 0x8000_0000 });
    assert_eq!(writes[count - 1], RegisterWrite::HashTableLow { value: 0x0000_0001 });
    assert!(matches!(writes[count - 3], RegisterWrite::FrameFilter { .. }));
}

#[test]
fn mode_defaults() {
    assert!(matches!(SourceAddressFiltering::new(), SourceAddressFiltering::Ignore));
    assert!(matches!(SourceAddressFiltering::default(), SourceAddressFiltering::Ignore));
    assert!(matches!(MulticastAddressFiltering::new(), MulticastAddressFiltering::PassAll));
    assert!(matches!(MulticastAddressFiltering::default(), MulticastAddressFiltering::PassAll));
    assert_eq!(HashTableValue::default(), HashTableValue { low: 0, high: 0 });
    let destination = DestinationAddressFiltering::new();
    assert!(!destination.hash_table_filtering);
    assert!(!destination.perfect_filtering.is_inverse());
    assert!(destination.perfect_filtering.as_slice().is_empty());
    assert!(PerfectDestinationAddressFiltering::default().as_slice().is_empty());
    assert!(DestinationAddressFiltering::default().perfect_filtering.as_slice().is_empty());
}

#[test]
fn mode_queries() {
    let source = SourceAddressFiltering::Inverse(filters(&[plain(1), plain(2)]));
    assert!(source.is_enabled());
    assert!(source.is_inverse());
    assert_eq!(source.as_slice(), Some(&[plain(1), plain(2)][..]));
    assert_eq!(SourceAddressFiltering::Ignore.as_slice(), None);
    assert!(!SourceAddressFiltering::Ignore.is_enabled());
    assert!(!SourceAddressFiltering::Normal(filters(&[])).is_inverse());

    let multicast = MulticastAddressFiltering::DestinationAddress(addresses(&[mac(1), mac(2)]));
    assert_eq!(multicast.address_count(), 2);
    assert_eq!(MulticastAddressFiltering::PassAll.address_count(), 0);
    assert_eq!(MulticastAddressFiltering::DestinationAddressHash.address_count(), 0);

    let destination = PerfectDestinationAddressFiltering::Inverse(filters(&[plain(3)]));
    assert!(destination.is_inverse());
    assert_eq!(destination.as_slice(), &[plain(3)]);
}

#[test]
fn clones_hold_the_same_lists() {
    let first = policy(&[plain(1), plain(2)], Some(&[plain(3)]), Some(&[mac(4), mac(5)]));
    let copy = first.clone();
    assert_eq!(copy.address, first.address);
    assert_eq!(copy.destination_address_filter.perfect_filtering.as_slice(), &[plain(1), plain(2)]);
    assert_eq!(copy.source_address_filter.as_slice(), Some(&[plain(3)][..]));
    match &copy.multicast_address_filter {
        MulticastAddressFiltering::DestinationAddress(list) => {
            assert_eq!(list.as_slice(), &[mac(4), mac(5)]);
        }
        _ => panic!("multicast mode changed"),
    }
    assert_eq!(copy.filter_count(), 5);

    let mode = FrameFilteringMode::Filter(policy(&[plain(1)], None, None));
    assert_eq!(mode.clone().configure(), mode.configure());
    assert!(matches!(FrameFilteringMode::Promiscuous.clone(), FrameFilteringMode::Promiscuous));
}
