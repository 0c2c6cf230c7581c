//! Building blocks shared by the bridge operations.

pub mod bytes;
pub mod crypto;
