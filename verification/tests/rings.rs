use eth_driver::dma::{Drained, Owner, RxRing, RxStatus, TxError, TxRing};

fn whole() -> RxStatus {
    RxStatus::whole_frame()
}

#[test]
fn receive_on_a_fresh_ring_is_empty_every_time() {
    let mut ring = RxRing::new(16);
    assert_eq!(ring.capacity(), 16);
    for _ in 0..100 {
        assert!(ring.receive_next().is_none());
    }
    // The cursor has not moved: the first frame that arrives is the first
    // that comes out, from slot 0.
    assert_eq!(ring.hardware_deposit(vec![1, 2, 3], whole()), Ok(()));
    let packet = ring.receive_next().unwrap();
    assert_eq!(packet.slot(), 0);
    assert_eq!(packet.data(), &[1, 2, 3]);
}

#[test]
fn received_frame_carries_length_contents_and_status() {
    let mut ring = RxRing::new(4);
    assert!(ring.hardware_deposit(vec![0xDE, 0xAD, 0xBE, 0xEF], whole()).is_ok());
    let packet = ring.receive_next().unwrap();
    assert_eq!(packet.len(), 4);
    assert_eq!(packet.data(), &[0xDE, 0xAD, 0xBE, 0xEF]);
    assert_eq!(packet.status(), RxStatus { error: false, first_segment: true, last_segment: true });
    assert!(!packet.has_error());
    assert!(ring.receive_next().is_none());
}

#[test]
fn frames_come_out_in_the_order_they_arrived() {
    let mut ring = RxRing::new(3);
    for n in 0..3u8 {
        assert!(ring.hardware_deposit(vec![n; n as usize + 1], whole()).is_ok());
    }
    for n in 0..3u8 {
        let packet = ring.receive_next().unwrap();
        assert_eq!(packet.slot(), n as usize);
        assert_eq!(packet.data(), vec![n; n as usize + 1].as_slice());
        assert!(ring.release(packet));
    }
    assert!(ring.receive_next().is_none());
}

#[test]
fn frame_with_error_flag_is_still_delivered() {
    let mut ring = RxRing::new(2);
    let damaged = RxStatus { error: true, first_segment: true, last_segment: false };
    assert!(ring.hardware_deposit(vec![9, 9], damaged).is_ok());
    let packet = ring.receive_next().unwrap();
    assert!(packet.has_error());
    assert_eq!(packet.status(), damaged);
    assert_eq!(packet.data(), &[9, 9]);
}

#[test]
fn engine_halts_when_it_runs_out_of_descriptors() {
    let mut ring = RxRing::new(2);
    assert!(ring.is_running());
    assert!(ring.hardware_deposit(vec![1], whole()).is_ok());
    assert!(ring.hardware_deposit(vec![2], whole()).is_ok());
    assert!(ring.is_running());
    assert_eq!(ring.hardware_deposit(vec![3], whole()), Err(vec![3]));
    assert!(!ring.is_running());

    // It does not start by itself, even when a descriptor is free again.
    let first = ring.receive_next().unwrap();
    assert!(ring.release(first));
    assert!(!ring.is_running());
    assert_eq!(ring.hardware_deposit(vec![4], whole()), Err(vec![4]));

    assert!(ring.resume());
    assert!(ring.is_running());
    assert!(ring.hardware_deposit(vec![5], whole()).is_ok());
    assert_eq!(ring.receive_next().unwrap().data(), &[2]);
    assert_eq!(ring.receive_next().unwrap().data(), &[5]);
}

#[test]
fn resume_fails_while_the_engine_has_no_descriptor() {
    let mut ring = RxRing::new(1);
    assert!(ring.hardware_deposit(vec![1], whole()).is_ok());
    assert!(ring.hardware_deposit(vec![2], whole()).is_err());
    assert!(!ring.resume());
    assert!(!ring.is_running());
    let packet = ring.receive_next().unwrap();
    assert!(!ring.resume());
    assert!(ring.release(packet));
    assert!(ring.resume());
}

#[test]
fn held_packet_keeps_its_slot_from_the_engine() {
    let mut ring = RxRing::new(2);
    assert!(ring.hardware_deposit(vec![1], whole()).is_ok());
    let held = ring.receive_next().unwrap();
    assert!(ring.hardware_deposit(vec![2], whole()).is_ok());
    // Slot 0 is still out: the engine cannot store a third frame.
    assert!(ring.hardware_deposit(vec![3], whole()).is_err());
    let second = ring.receive_next().unwrap();
    assert_eq!(second.data(), &[2]);
    assert!(ring.release(second));
    // The cursor is back at slot 0, which is still out: nothing to receive.
    assert!(ring.receive_next().is_none());
    assert!(ring.release(held));
    assert!(ring.receive_next().is_none());
    assert!(ring.resume());
    assert!(ring.hardware_deposit(vec![4], whole()).is_ok());
    assert_eq!(ring.receive_next().unwrap().data(), &[4]);
}

#[test]
fn release_of_a_foreign_packet_changes_nothing() {
    let mut small = RxRing::new(1);
    let mut large = RxRing::new(4);
    for n in 0..4u8 {
        assert!(large.hardware_deposit(vec![n], whole()).is_ok());
    }
    let mut last = None;
    for _ in 0..4 {
        last = large.receive_next();
    }
    let foreign = last.unwrap();
    assert_eq!(foreign.slot(), 3);
    assert!(!small.release(foreign));
    assert!(small.receive_next().is_none());
    assert!(small.hardware_deposit(vec![7], whole()).is_ok());

    // A slot of the right number, but with no packet out.
    let mut other = RxRing::new(1);
    assert!(other.hardware_deposit(vec![8], whole()).is_ok());
    let stray = other.receive_next().unwrap();
    assert!(!small.release(stray));
    assert_eq!(small.receive_next().unwrap().data(), &[7]);
}

#[test]
fn ring_without_descriptors_receives_nothing() {
    let mut ring = RxRing::new(0);
    assert_eq!(ring.capacity(), 0);
    assert!(!ring.is_running());
    assert!(ring.receive_next().is_none());
    assert_eq!(ring.hardware_deposit(vec![1], whole()), Err(vec![1]));
    assert!(!ring.resume());
    assert_eq!(ring.drain(5), Drained { frames: 0, bytes: 0 });
}

#[test]
fn drain_stops_at_its_limit() {
    let mut ring = RxRing::new(8);
    for n in 0..6u8 {
        assert!(ring.hardware_deposit(vec![0; 10 + n as usize], whole()).is_ok());
    }
    assert_eq!(ring.drain(4), Drained { frames: 4, bytes: 10 + 11 + 12 + 13 });
    assert_eq!(ring.drain(0), Drained { frames: 0, bytes: 0 });
    assert_eq!(ring.drain(4), Drained { frames: 2, bytes: 14 + 15 });
    assert_eq!(ring.drain(4), Drained { frames: 0, bytes: 0 });
    // Every drained descriptor is with the engine again.
    for n in 0..8u8 {
        assert!(ring.hardware_deposit(vec![n], whole()).is_ok());
    }
    assert!(ring.hardware_deposit(vec![8], whole()).is_err());
}

#[test]
fn transmit_blocks_when_every_descriptor_is_in_flight() {
    let capacity = 8;
    let mut ring = TxRing::new(capacity);
    assert_eq!(ring.capacity(), capacity);
    for n in 0..capacity {
        assert_eq!(ring.transmit(&[n as u8; 14]), Ok(()));
        assert_eq!(ring.in_flight(), n + 1);
    }
    assert_eq!(ring.transmit(&[0xFF; 14]), Err(TxError::WouldBlock));
    assert_eq!(ring.transmit(&[0xFF; 14]), Err(TxError::WouldBlock));
    assert_eq!(ring.in_flight(), capacity);

    assert_eq!(ring.hardware_complete(), Some(vec![0u8; 14]));
    assert_eq!(ring.transmit(&[0xEE; 14]), Ok(()));
    assert_eq!(ring.transmit(&[0xDD; 14]), Err(TxError::WouldBlock));
}

#[test]
fn engine_sends_frames_in_the_order_they_were_handed_over() {
    let mut ring = TxRing::new(3);
    assert!(ring.transmit(&[1]).is_ok());
    assert!(ring.transmit(&[2, 2]).is_ok());
    assert_eq!(ring.hardware_complete(), Some(vec![1]));
    assert!(ring.transmit(&[3, 3, 3]).is_ok());
    assert!(ring.transmit(&[4, 4, 4, 4]).is_ok());
    assert_eq!(ring.transmit(&[5]), Err(TxError::WouldBlock));
    assert_eq!(ring.hardware_complete(), Some(vec![2, 2]));
    assert_eq!(ring.hardware_complete(), Some(vec![3, 3, 3]));
    assert_eq!(ring.hardware_complete(), Some(vec![4, 4, 4, 4]));
    assert_eq!(ring.hardware_complete(), None);
    assert_eq!(ring.in_flight(), 0);
}

#[test]
fn completion_with_nothing_in_flight_is_none() {
    let mut ring = TxRing::new(2);
    assert_eq!(ring.hardware_complete(), None);
    assert!(ring.transmit(&[]).is_ok());
    assert_eq!(ring.hardware_complete(), Some(vec![]));
    assert_eq!(ring.hardware_complete(), None);
}

#[test]
fn ring_without_descriptors_always_blocks() {
    let mut ring = TxRing::new(0);
    assert_eq!(ring.transmit(&[1, 2, 3]), Err(TxError::WouldBlock));
    assert_eq!(ring.hardware_complete(), None);
    assert_eq!(ring.in_flight(), 0);
}

#[test]
fn one_slot_ring_alternates() {
    let mut ring = TxRing::new(1);
    for n in 0..5u8 {
        assert_eq!(ring.transmit(&[n]), Ok(()));
        assert_eq!(ring.transmit(&[n]), Err(TxError::WouldBlock));
        assert_eq!(ring.hardware_complete(), Some(vec![n]));
    }
}

#[test]
fn owners_follow_the_hand_off() {
    let mut rx = RxRing::new(2);
    assert_eq!(rx.owner(0), Some(Owner::Hardware));
    assert_eq!(rx.owner(1), Some(Owner::Hardware));
    assert_eq!(rx.owner(2), None);
    assert!(rx.hardware_deposit(vec![1], whole()).is_ok());
    assert_eq!(rx.owner(0), Some(Owner::Software));
    let packet = rx.receive_next().unwrap();
    assert_eq!(rx.owner(0), Some(Owner::Software));
    assert!(rx.release(packet));
    assert_eq!(rx.owner(0), Some(Owner::Hardware));

    let mut tx = TxRing::new(2);
    assert_eq!(tx.owner(0), Some(Owner::Software));
    assert_eq!(tx.owner(5), None);
    assert!(tx.transmit(&[1]).is_ok());
    assert_eq!(tx.owner(0), Some(Owner::Hardware));
    assert_eq!(tx.owner(1), Some(Owner::Software));
    assert_eq!(tx.hardware_complete(), Some(vec![1]));
    assert_eq!(tx.owner(0), Some(Owner::Software));
}

#[test]
fn cursor_and_engine_wrap_around() {
    let mut rx = RxRing::new(2);
    for round in 0..5u8 {
        assert_eq!(rx.engine(), round as usize % 2);
        assert!(rx.hardware_deposit(vec![round], whole()).is_ok());
        assert_eq!(rx.cursor(), round as usize % 2);
        let packet = rx.receive_next().unwrap();
        assert_eq!(packet.data(), &[round]);
        assert!(rx.release(packet));
    }

    let mut tx = TxRing::new(3);
    for round in 0..7u8 {
        assert_eq!(tx.cursor(), round as usize % 3);
        assert_eq!(tx.engine(), round as usize % 3);
        assert!(tx.transmit(&[round]).is_ok());
        assert_eq!(tx.engine(), round as usize % 3);
        assert_eq!(tx.hardware_complete(), Some(vec![round]));
    }
}

#[test]
fn reported_halt_stops_the_engine_until_resumed() {
    let mut ring = RxRing::new(2);
    ring.hardware_halt();
    assert!(!ring.is_running());
    assert_eq!(ring.hardware_deposit(vec![1], whole()), Err(vec![1]));
    assert_eq!(ring.owner(0), Some(Owner::Hardware));
    assert!(ring.resume());
    assert!(ring.hardware_deposit(vec![2], whole()).is_ok());
    assert_eq!(ring.receive_next().unwrap().data(), &[2]);
}

#[test]
fn fill_takes_every_free_descriptor() {
    let mut ring = TxRing::new(4);
    assert_eq!(ring.fill(&[9, 9]), 4);
    assert_eq!(ring.in_flight(), 4);
    assert_eq!(ring.transmit(&[1]), Err(TxError::WouldBlock));
    assert_eq!(ring.fill(&[9, 9]), 0);
    assert_eq!(ring.hardware_complete(), Some(vec![9, 9]));
    assert_eq!(ring.hardware_complete(), Some(vec![9, 9]));
    assert_eq!(ring.fill(&[7]), 2);
    assert_eq!(ring.hardware_complete(), Some(vec![9, 9]));
    assert_eq!(ring.hardware_complete(), Some(vec![9, 9]));
    assert_eq!(ring.hardware_complete(), Some(vec![7]));
    assert_eq!(ring.hardware_complete(), Some(vec![7]));
    assert_eq!(ring.hardware_complete(), None);
    assert_eq!(TxRing::new(0).fill(&[1]), 0);
}
