//! A chain adapter core for an inter-blockchain communication (IBC) relayer.
//!
//! The library translates abstract protocol operations (query state,
//! construct proofs, submit messages, observe events) into calls against an
//! account/contract ledger and a UTXO/cell ledger, and translates
//! ledger-native results back into canonical protocol objects.  Transport,
//! key management and background monitoring are collaborators: the functions
//! here take the plain values those layers produce and hand plain values
//! back.

pub mod adapter;
pub mod ckb;
pub mod commitment;
pub mod denom;
pub mod dispatch;
pub mod events;
pub mod error;
pub mod height;
pub mod proofs;
pub mod queries;
pub mod transfer;
