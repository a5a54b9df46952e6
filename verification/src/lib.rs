//! Bootstrap layer of a bridge emulator: the device identity derived from its
//! hardware address, the decision whether a stored certificate can be kept,
//! the versioned loading of the persisted state, and the descriptors that the
//! running server hands out.

pub mod certificate;
pub mod clock;
pub mod handle;
pub mod identity;
pub mod startup;
pub mod store;
pub mod yaml;
