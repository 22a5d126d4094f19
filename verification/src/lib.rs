//! Verified core of a six-band parametric equaliser: which response each band
//! applies, how many channels are filtered, and the per-channel bank of band
//! filters.

pub mod filter_type;
pub mod routing;
pub mod bank;
