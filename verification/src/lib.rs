//! A state-transition module for a blockchain runtime: a scalar on-chain
//! counter with its mutating calls, and a verified bridge between chain
//! state and node-local auxiliary storage.  During a call, the write path
//! derives a byte key from the module's namespace and the block height and
//! stores an encoded payload under it; after finalization, a background
//! worker re-derives the same key and reads the payload back.

pub mod codec;
pub mod key;
pub mod pallet;
pub mod store;
