//! Turn-synchronization and snapshot-reconciliation core for a two-player,
//! turn-based, physics-driven match.
//!
//! The backend half keeps an authoritative per-match record — status, score,
//! turn holder, formation registry and an append-only turn ledger — and
//! exposes the two transactions that mutate it (formation completion and
//! turn submission) together with a snapshot builder and a per-match
//! notification registry. The client half keeps a local mirror that gates
//! input on a "my turn" flag, queues one outgoing turn payload, and
//! reconciles itself against incoming snapshots idempotently.
//!
//! Everything here is plain data and verified logic; sockets, storage and
//! rendering live with the caller, which hands in events and carries out the
//! returned actions.

pub mod client;
pub mod directory;
pub mod formation;
pub mod laws;
pub mod match_state;
pub mod registry;
pub mod snapshot;
pub mod transactions;
pub mod users;
