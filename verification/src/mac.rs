//! The MAC half of the peripheral.

pub mod frame_filtering;
