//! Trust core of a two-way token bridge: validator-set management, threshold
//! authentication of cross-chain messages, replay and expiry protection, and
//! the mint/burn accounting state machine.

pub mod authenticator;
pub mod encoding;
pub mod errors;
pub mod guard;
pub mod instructions;
pub mod registry;
pub mod state;
pub mod utils;
