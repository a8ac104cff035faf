//! The client side of replication.

pub mod replica_client;
