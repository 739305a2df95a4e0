//! Time and length with unit-labelled constructors and accessors, and the
//! values that a train simulator and a safety device exchange.
pub mod ats;
pub mod length;
pub mod scalar;
pub mod structure;
pub mod time;
