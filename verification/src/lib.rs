//! Multi-hop swap routing: chain validation, forward and reverse quote
//! simulation, and the scheduling of a chain as continuation messages with a
//! minimum-receive guarantee.

pub mod asset;
pub mod validate;
pub mod market;
pub mod simulate;
pub mod execute;
pub mod laws;
