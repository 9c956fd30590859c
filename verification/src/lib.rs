//! Client-side codec for an on-chain order-book exchange program.
//!
//! The crate decodes the exchange program's fixed-layout market accounts
//! into typed, addressable fields and encodes typed swap requests into the
//! exact binary instruction format the program expects.  It performs no
//! network I/O of its own: callers fetch raw account bytes and submit the
//! produced instructions out of band.

pub mod instruction;
pub mod market;
pub mod pubkey;
