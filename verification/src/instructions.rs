//! The bridge operations. Each takes the records it works on as an explicit
//! bundle, checks, and either commits every change and reports the event to
//! publish, or fails and leaves the bundle as it was.

pub mod confirm_unlock;
pub mod execute_mint;
pub mod initialize;
pub mod initiate_burn;
pub mod pause;
pub mod update_validators;
