//! What the two descriptor rings have in common, and the words that a
//! descriptor is made of in the memory that the engine reads.
//!
//! The first word of a descriptor holds the ownership bit and the status.
//! Of a receive descriptor it also holds the length of the frame; the length
//! of a frame to send stands in the second word of its descriptor.

use vstd::prelude::*;

verus! {

/// The side that a descriptor, and with it the descriptor's buffer, belongs
/// to at the moment.
#[derive(Debug, Clone, Copy, PartialEq, Eq, Structural)]
pub enum Owner {
    /// The driver may read and write the descriptor; the engine passes it by.
    Software,
    /// The engine may read and write the descriptor; the driver waits.
    Hardware,
}

/// The position that follows `index` in a ring of `capacity` slots.
pub open spec fn next_index(index: int, capacity: int) -> int {
    if index + 1 >= capacity {
        0
    } else {
        index + 1
    }
}

/// The position that follows `index` in a ring of `capacity` slots.
pub(crate) fn advance(index: usize, capacity: usize) -> (next: usize)
    requires
        index < capacity,
    ensures
        next == next_index(index as int, capacity as int),
        next < capacity,
{
    if index + 1 >= capacity {
        0
    } else {
        index + 1
    }
}

/// Bit 31 of the first word: the descriptor is the engine's.
pub const OWN: u32 = 0x8000_0000;

/// Bit 15 of the first word: the error summary.
pub const ERROR_SUMMARY: u32 = 0x0000_8000;

/// Bit 9 of the first word of a receive descriptor: first segment.
pub const RX_FIRST_SEGMENT: u32 = 0x0000_0200;

/// Bit 8 of the first word of a receive descriptor: last segment.
pub const RX_LAST_SEGMENT: u32 = 0x0000_0100;

/// The frame length in the first word of a receive descriptor is 14 bits
/// wide.
pub const RX_LENGTH_MAX: usize = 0x3FFF;

/// Bit 30 of the first word of a transmit descriptor: interrupt on
/// completion.
pub const TX_INTERRUPT: u32 = 0x4000_0000;

/// Bit 29 of the first word of a transmit descriptor: last segment.
pub const TX_LAST_SEGMENT: u32 = 0x2000_0000;

/// Bit 28 of the first word of a transmit descriptor: first segment.
pub const TX_FIRST_SEGMENT: u32 = 0x1000_0000;

/// Bit 21 of the first word of a transmit descriptor: the descriptor is the
/// last of its ring, and the engine goes on with the first.
pub const TX_END_OF_RING: u32 = 0x0020_0000;

/// Bit 15 of the second word of a receive descriptor: the descriptor is the
/// last of its ring, and the engine goes on with the first.
pub const RX_END_OF_RING: u32 = 0x0000_8000;

/// The buffer size in the second word of a descriptor is 13 bits wide.
pub const BUFFER_SIZE_MAX: usize = 0x1FFF;

/// The owner that the first word of a descriptor names.
pub open spec fn spec_owner_of(word: u32) -> Owner {
    if word & OWN != 0 {
        Owner::Hardware
    } else {
        Owner::Software
    }
}

/// The length of the frame that the first word of a receive descriptor
/// reports: bits 16 to 29.
pub open spec fn spec_rx_length_of(word: u32) -> usize {
    ((word >> 16) & 0x3FFF) as usize
}

/// The owner that the first word of a descriptor names.
#[verifier::when_used_as_spec(spec_owner_of)]
pub fn owner_of(word: u32) -> (owner: Owner)
    ensures
        owner == spec_owner_of(word),
{
    if word & OWN != 0 {
        Owner::Hardware
    } else {
        Owner::Software
    }
}

/// The first word with its ownership bit set for `owner` and its other bits
/// as they are.
pub fn with_owner(word: u32, owner: Owner) -> (changed: u32)
    ensures
        spec_owner_of(changed) == owner,
        changed & !OWN == word & !OWN,
{
    match owner {
        Owner::Hardware => {
            assert((word | OWN) & OWN != 0 && (word | OWN) & !OWN == word & !OWN) by (bit_vector);
            word | OWN
        },
        Owner::Software => {
            assert((word & !OWN) & OWN == 0 && (word & !OWN) & !OWN == word & !OWN)
                by (bit_vector);
            word & !OWN
        },
    }
}

/// The length of the frame that the first word of a receive descriptor
/// reports.
#[verifier::when_used_as_spec(spec_rx_length_of)]
pub fn rx_length_of(word: u32) -> (length: usize)
    ensures
        length == spec_rx_length_of(word),
        length <= RX_LENGTH_MAX,
{
    assert((word >> 16) & 0x3FFF <= 0x3FFF) by (bit_vector);
    ((word >> 16) & 0x3FFF) as usize
}

/// The first word of a transmit descriptor that hands a whole frame to the
/// engine: the engine's, first and last segment, with or without an
/// interrupt when the frame is out, and with the end-of-ring bit in the last
/// descriptor of the ring.
pub fn tx_command(interrupt: bool, end_of_ring: bool) -> (word: u32)
    ensures
        word == 0xB000_0000u32 + (if interrupt {
            0x4000_0000u32
        } else {
            0u32
        }) + (if end_of_ring {
            0x0020_0000u32
        } else {
            0u32
        }),
        spec_owner_of(word) == Owner::Hardware,
        word & TX_FIRST_SEGMENT != 0,
        word & TX_LAST_SEGMENT != 0,
        (word & TX_INTERRUPT != 0) == interrupt,
        (word & TX_END_OF_RING != 0) == end_of_ring,
{
    let whole: u32 = OWN | TX_LAST_SEGMENT | TX_FIRST_SEGMENT;
    let notify: u32 = if interrupt {
        TX_INTERRUPT
    } else {
        0
    };
    let wrap: u32 = if end_of_ring {
        TX_END_OF_RING
    } else {
        0
    };
    assert(0x8000_0000u32 | 0x2000_0000u32 | 0x1000_0000u32 == 0xB000_0000u32) by (bit_vector);
    assert((notify == 0x4000_0000u32 || notify == 0) && (wrap == 0x0020_0000u32 || wrap == 0) ==> {
        let word = 0xB000_0000u32 | notify | wrap;
        &&& word == 0xB000_0000u32 + notify + wrap
        &&& word & 0x8000_0000u32 != 0
        &&& word & 0x1000_0000u32 != 0
        &&& word & 0x2000_0000u32 != 0
        &&& (word & 0x4000_0000u32 != 0) == (notify != 0)
        &&& (word & 0x0020_0000u32 != 0) == (wrap != 0)
    }) by (bit_vector);
    whole | notify | wrap
}

/// The second word of a transmit descriptor whose buffer holds `length`
/// bytes, or `None` where the length does not fit its 13 bits.
pub fn buffer_size_word(length: usize) -> (word: Option<u32>)
    ensures
        length <= BUFFER_SIZE_MAX ==> word == Some(length as u32),
        length > BUFFER_SIZE_MAX ==> word is None,
{
    if length <= BUFFER_SIZE_MAX {
        Some(length as u32)
    } else {
        None
    }
}

/// The second word of a receive descriptor whose buffer has room for
/// `size` bytes, with the end-of-ring bit in the last descriptor of the
/// ring, or `None` where the size does not fit its 13 bits.
pub fn rx_control_word(size: usize, end_of_ring: bool) -> (word: Option<u32>)
    ensures
        size > BUFFER_SIZE_MAX ==> word is None,
        size <= BUFFER_SIZE_MAX ==> word == Some(
            (size + if end_of_ring {
                0x8000u32
            } else {
                0u32
            }) as u32,
        ),
        word matches Some(w) ==> (w & 0x1FFF) as usize == size && (w & RX_END_OF_RING != 0)
            == end_of_ring,
{
    if size > BUFFER_SIZE_MAX {
        return None;
    }
    let size_bits: u32 = size as u32;
    let wrap: u32 = if end_of_ring {
        RX_END_OF_RING
    } else {
        0
    };
    assert(size_bits <= 0x1FFF && (wrap == 0x8000u32 || wrap == 0) ==> {
        let word = size_bits | wrap;
        &&& word == size_bits + wrap
        &&& word & 0x1FFF == size_bits
        &&& (word & 0x8000u32 != 0) == (wrap != 0)
    }) by (bit_vector);
    Some(size_bits | wrap)
}

} // verus!
