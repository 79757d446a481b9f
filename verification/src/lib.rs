//! A query facade over two blockchain data sources: a confirmed, append-only
//! chain index and a mutable pool of unconfirmed transactions guarded by a
//! reader/writer lock. Every public query combines the two sources under a
//! fixed, confirmed-first merge policy.

pub mod assoc;
pub mod chain;
pub mod laws;
pub mod mempool;
pub mod query;
pub mod records;
pub mod script;
pub mod types;
