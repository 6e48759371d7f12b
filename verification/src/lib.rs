//! The application-facing core of a peer-to-peer node's networking: the
//! table of connected peers, the send path built on it, the correlation of
//! rpc requests with their responses, and the demultiplexing of inbound
//! messages into application events. Beside it stand the pieces of the node
//! that it serves: the acknowledgement state of a reliable broadcast, the
//! first phase of block partitioning, and the indexer's transaction cache.
//!
//! Nothing here suspends a task or owns a thread. Where the runtime decides
//! (whether a queue has room, what a stream yields next, when time is up),
//! the runtime's answer comes in as a value, and what is done with it is
//! stated and proved here.

pub mod identity;
pub mod protocol;
pub mod error;
pub mod codec;
pub mod wire;
pub mod config;
pub mod channel;
pub mod closer;
pub mod matcher;
pub mod registry;
pub mod sender;
pub mod source;
pub mod events;
pub mod broadcast;
pub mod partitioner;
pub mod indexer;
pub mod fifo;
