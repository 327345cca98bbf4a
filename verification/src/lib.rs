//! Command-line overrides for EVM execution settings, and the overlay that
//! carries them onto a layered configuration.

pub mod dict;
pub mod evm;
pub mod hex;
