//! A verified execution substrate for the Z-machine, the virtual machine
//! behind classic interactive-fiction story files (versions 1 through 8).
//!
//! The crate models the addressable memory image with its kind-tagged
//! addresses, the 64-byte story header and its version negotiation, the
//! variable-length binary instruction decoder, the object database and the
//! packed-text subsystem. Loading a story image from a stream and presenting
//! input/output belong to the driving client, which hands the library plain
//! bytes and receives plain values back.

pub mod errors;
pub mod zcpu;
pub mod zmachine;
pub mod zmemory;
pub mod zobjects;
pub mod zstring;

pub use errors::{ZmError, ZmResult};
pub use zmachine::header::ZMachineVersion;
pub use zmachine::ZMachine;
