//! Consensus-ordering core for client-side-validated contract state.
//!
//! The library defines the canonical total order over global-state update
//! records ([`order::GlobalOrd`]), a validated, caching accessor over an
//! externally stored, append-only history of such records
//! ([`window::GlobalContractState`]), and the read-only query surface the
//! validation engine consumes ([`contract::ContractState`]).

pub mod contract;
pub mod cursor;
pub mod order;
pub mod window;
