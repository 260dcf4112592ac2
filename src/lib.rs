//! A minimal proof-of-work ledger: hash-sealed blocks, each linked to its
//! predecessor, and a chain that only grows at its tip.
pub mod encoding;
pub mod digest;
pub mod clock;
pub mod block;
pub mod chain;
