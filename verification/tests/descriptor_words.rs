use eth_driver::dma::desc::{
    ERROR_SUMMARY, OWN, RX_END_OF_RING, RX_FIRST_SEGMENT, RX_LAST_SEGMENT, TX_END_OF_RING,
    TX_FIRST_SEGMENT, TX_INTERRUPT, TX_LAST_SEGMENT,
};
use eth_driver::dma::{
    buffer_size_word, owner_of, rx_control_word, rx_length_of, tx_command, with_owner, Owner,
    RxStatus, BUFFER_SIZE_MAX, RX_LENGTH_MAX,
};

#[test]
fn ownership_is_bit_31() {
    assert_eq!(OWN, 1 << 31);
    assert_eq!(owner_of(0x8000_0000), Owner::Hardware);
    assert_eq!(owner_of(0xFFFF_FFFF), Owner::Hardware);
    assert_eq!(owner_of(0x7FFF_FFFF), Owner::Software);
    assert_eq!(owner_of(0), Owner::Software);
}

#[test]
fn with_owner_changes_only_the_ownership_bit() {
    assert_eq!(with_owner(0, Owner::Hardware), 0x8000_0000);
    assert_eq!(with_owner(0x8000_0000, Owner::Software), 0);
    assert_eq!(with_owner(0x1234_5678, Owner::Hardware), 0x9234_5678);
    assert_eq!(with_owner(0x9234_5678, Owner::Software), 0x1234_5678);
    assert_eq!(with_owner(0x9234_5678, Owner::Hardware), 0x9234_5678);
    assert_eq!(owner_of(with_owner(0x0BAD_F00D, Owner::Hardware)), Owner::Hardware);
}

#[test]
fn receive_length_is_bits_16_to_29() {
    assert_eq!(rx_length_of(0x0040_0000), 64);
    assert_eq!(rx_length_of(0x05EE_0300), 1518);
    assert_eq!(rx_length_of(0xFFFF_FFFF), RX_LENGTH_MAX);
    assert_eq!(rx_length_of(0xC000_FFFF), 0);
    assert_eq!(RX_LENGTH_MAX, 16383);
}

#[test]
fn receive_status_bits() {
    assert_eq!(ERROR_SUMMARY, 1 << 15);
    assert_eq!(RX_FIRST_SEGMENT, 1 << 9);
    assert_eq!(RX_LAST_SEGMENT, 1 << 8);
    assert_eq!(
        RxStatus::from_word(0x0040_0300),
        RxStatus { error: false, first_segment: true, last_segment: true }
    );
    assert_eq!(RxStatus::from_word(0x0040_0300), RxStatus::whole_frame());
    assert_eq!(
        RxStatus::from_word(0x0040_8200),
        RxStatus { error: true, first_segment: true, last_segment: false }
    );
    assert_eq!(RxStatus::from_word(0), RxStatus::cleared());
    assert_eq!(RxStatus::from_word(!(ERROR_SUMMARY | RX_FIRST_SEGMENT | RX_LAST_SEGMENT)), RxStatus::cleared());
}

#[test]
fn transmit_command_word() {
    assert_eq!(TX_INTERRUPT, 1 << 30);
    assert_eq!(TX_LAST_SEGMENT, 1 << 29);
    assert_eq!(TX_FIRST_SEGMENT, 1 << 28);
    assert_eq!(TX_END_OF_RING, 1 << 21);
    assert_eq!(tx_command(true, false), 0xF000_0000);
    assert_eq!(tx_command(false, false), 0xB000_0000);
    assert_eq!(tx_command(true, true), 0xF020_0000);
    assert_eq!(tx_command(false, true), 0xB020_0000);
    assert_eq!(owner_of(tx_command(false, false)), Owner::Hardware);
}

#[test]
fn receive_control_word() {
    assert_eq!(RX_END_OF_RING, 1 << 15);
    assert_eq!(rx_control_word(1524, false), Some(1524));
    assert_eq!(rx_control_word(1524, true), Some(0x8000 | 1524));
    assert_eq!(rx_control_word(0, true), Some(0x8000));
    assert_eq!(rx_control_word(8191, false), Some(8191));
    assert_eq!(rx_control_word(8192, false), None);
    assert_eq!(rx_control_word(8192, true), None);
}

#[test]
fn buffer_size_fits_thirteen_bits() {
    assert_eq!(BUFFER_SIZE_MAX, 8191);
    assert_eq!(buffer_size_word(0), Some(0));
    assert_eq!(buffer_size_word(1500), Some(1500));
    assert_eq!(buffer_size_word(8191), Some(8191));
    assert_eq!(buffer_size_word(8192), None);
    assert_eq!(buffer_size_word(usize::MAX), None);
}
