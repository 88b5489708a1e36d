//! Core logic of a gossip-persistence actor: the message-loop state machine,
//! the derived fields of announcement and update rows, the hex and decimal
//! encodings those rows use, and an idempotent model of the row store.
//!
//! All I/O (the relational store, the bounded input channel, the graph cache
//! file) lives outside this crate; the functions here compute, for each
//! incoming message, exactly what the surrounding process must do.

mod dec;
mod hex;
mod persister;
mod store;
mod types;

pub use hex::hex_str;
pub use hex::hex_decode;
pub use persister::Persister;
pub use persister::RowWrite;
pub use persister::StepEffects;
pub use persister::SyncState;
pub use persister::CACHE_INTERVAL_SECS;
pub use persister::CHANNEL_CAPACITY;
pub use store::AnnouncementRow;
pub use store::GossipStore;
pub use store::UpdateRow;
pub use types::AnnouncementContents;
pub use types::UpdateContents;
pub use types::GossipMessage;
pub use types::block_height;
pub use types::scid_be_bytes;
pub use types::scid_hex;
pub use types::direction;
pub use types::disable;
pub use types::composite_index;
