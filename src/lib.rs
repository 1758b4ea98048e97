//! Cross-chain asset transfer dispatch and relay.
//!
//! Assets and destinations are described by hierarchical locations. The
//! dispatch core classifies an asset and hands it to a transfer backend; the
//! relay core re-dispatches assets that arrive here on their way further on,
//! from a fixed custody location.

pub mod location;
pub mod asset;
pub mod xtransfer;
