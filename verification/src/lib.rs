//! A ledger node for agents that propose model updates and vote on them.
//!
//! Agents hand in transactions. A proposal is registered and waits; votes on it wait with
//! it. Once two thirds of the connected peers, the proposer left out, have voted to accept,
//! the waiting transactions are sealed into a block, which is linked by its hash to the
//! block before it. The library holds the ledger, the hashing and the rules of the vote;
//! sockets, decoding and the clock's owner stay with the caller.

pub mod blockchain;
pub mod net;
pub mod p2p;
pub mod types;
pub mod utils;
