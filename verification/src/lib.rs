//! Driver core for an integrated Ethernet MAC with a descriptor-ring DMA engine.
//!
//! The crate holds the two parts of such a driver that carry rules of their
//! own: the compilation of a frame filtering policy into register writes
//! ([`mac`]) and the hand-off of buffers between software and the DMA engine
//! through descriptor rings ([`dma`]). Both are stated over plain values, so
//! that the code that touches the peripheral only has to move them.

pub mod dma;
pub mod mac;
