//! Messaging threads and a username directory, kept in an explicit store.
//!
//! A [`Pallet`] value holds four keyed maps: the message thread of each
//! conversation, the flag that marks a conversation as started, the list of
//! conversations each account takes part in, and the owner of each username.
//! Every call either applies all of its writes or leaves the store as it was.

pub mod bounded;
pub mod laws;
pub mod model;
pub mod pallet;
pub mod storage;
pub mod types;

pub use bounded::BoundedVec;
pub use model::Config;
pub use pallet::Pallet;
pub use storage::StorageMap;
pub use types::{AccountId, ActiveConversation, Conversation, Error, Event, Message, User};
