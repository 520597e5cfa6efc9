//! The records that the store holds, and the values a call reports.

use vstd::prelude::*;
use crate::bounded::{duplicate_vec, views, Duplicate};

verus! {

/// The verified principal on whose behalf a call runs.
pub type AccountId = u64;

/// Why a call was rejected.
#[derive(Clone, Copy, Debug, PartialEq, Eq, Structural)]
pub enum Error {
    /// The name is longer than the configured maximum.
    UsernameExceedsLength,
    /// The conversation id is longer than the configured maximum.
    InvalidConvoId,
    /// An append would take a bounded list past its capacity.
    ConversationLimitReached,
}

/// What a successful call reports to observers.
#[derive(Clone, Copy, Debug, PartialEq, Eq, Structural)]
pub enum Event {
    /// A message was sent.
    MessageSent { sender: AccountId },
    /// A new active conversation was started.
    ConvoStarted { sender: AccountId, recipient: AccountId },
    /// A username was bound to an account.
    RegisteredUsername { user: AccountId },
}

/// Copies a byte string.
pub fn duplicate_bytes(v: &Vec<u8>) -> (r: Vec<u8>)
    ensures
        r@ == v@,
{
    let r = duplicate_vec(v);
    proof {
        assert(views(r@).len() == r@.len());
        assert(views(v@).len() == v@.len());
        assert forall|i: int| 0 <= i < r@.len() implies r@[i] == v@[i] by {
            assert(views(r@)[i] == views(v@)[i]);
        }
        assert(r@ =~= v@);
    }
    r
}

/// A single message: who sent it, to whom, when, and what it says.
#[derive(Clone, Debug, PartialEq, Eq)]
pub struct Message {
    /// The sender of the message.
    pub sender: AccountId,
    /// The recipient of the message.
    pub recipient: AccountId,
    /// UNIX timestamp of when the message was sent.
    pub time: u64,
    /// The message content as bytes.
    pub message: Vec<u8>,
}

/// What a [`Message`] holds.
pub struct MessageView {
    pub sender: AccountId,
    pub recipient: AccountId,
    pub time: u64,
    pub message: Seq<u8>,
}

impl View for Message {
    type V = MessageView;

    open spec fn view(&self) -> MessageView {
        MessageView {
            sender: self.sender,
            recipient: self.recipient,
            time: self.time,
            message: self.message@,
        }
    }
}

impl Duplicate for Message {
    fn duplicate(&self) -> (r: Self) {
        Message {
            sender: self.sender,
            recipient: self.recipient,
            time: self.time,
            message: duplicate_bytes(&self.message),
        }
    }
}

/// An active conversation, naming its initiator and its recipient.
#[derive(Clone, Debug, PartialEq, Eq)]
pub struct ActiveConversation {
    /// The account that started the conversation.
    pub initiator_address: AccountId,
    /// The display name the initiator gave for itself.
    pub initiator_name: Vec<u8>,
    /// The display name the initiator gave for the recipient.
    pub recipient_name: Vec<u8>,
    /// The account the conversation was started with.
    pub recipient_address: AccountId,
}

/// What an [`ActiveConversation`] holds.
pub struct ActiveConversationView {
    pub initiator_address: AccountId,
    pub initiator_name: Seq<u8>,
    pub recipient_name: Seq<u8>,
    pub recipient_address: AccountId,
}

impl View for ActiveConversation {
    type V = ActiveConversationView;

    open spec fn view(&self) -> ActiveConversationView {
        ActiveConversationView {
            initiator_address: self.initiator_address,
            initiator_name: self.initiator_name@,
            recipient_name: self.recipient_name@,
            recipient_address: self.recipient_address,
        }
    }
}

impl Duplicate for ActiveConversation {
    fn duplicate(&self) -> (r: Self) {
        ActiveConversation {
            initiator_address: self.initiator_address,
            initiator_name: duplicate_bytes(&self.initiator_name),
            recipient_name: duplicate_bytes(&self.recipient_name),
            recipient_address: self.recipient_address,
        }
    }
}

/// A conversation between two accounts together with its messages.
#[derive(Clone, Debug, PartialEq, Eq)]
pub struct Conversation {
    /// The initiator of the conversation.
    pub sender: AccountId,
    /// The recipient of the conversation.
    pub recipient: AccountId,
    /// The messages exchanged, oldest first.
    pub msgs: Vec<Message>,
}

/// What a [`Conversation`] holds.
pub struct ConversationView {
    pub sender: AccountId,
    pub recipient: AccountId,
    pub msgs: Seq<MessageView>,
}

impl View for Conversation {
    type V = ConversationView;

    open spec fn view(&self) -> ConversationView {
        ConversationView {
            sender: self.sender,
            recipient: self.recipient,
            msgs: views(self.msgs@),
        }
    }
}

impl Duplicate for Conversation {
    fn duplicate(&self) -> (r: Self) {
        Conversation {
            sender: self.sender,
            recipient: self.recipient,
            msgs: duplicate_vec(&self.msgs),
        }
    }
}

/// A username together with the account that owns it.
#[derive(Clone, Debug, PartialEq, Eq)]
pub struct User {
    /// The owner's account.
    pub account_id: AccountId,
    /// The name bound to that account.
    pub username: Vec<u8>,
}

/// What a [`User`] holds.
pub struct UserView {
    pub account_id: AccountId,
    pub username: Seq<u8>,
}

impl View for User {
    type V = UserView;

    open spec fn view(&self) -> UserView {
        UserView { account_id: self.account_id, username: self.username@ }
    }
}

impl Duplicate for User {
    fn duplicate(&self) -> (r: Self) {
        User { account_id: self.account_id, username: duplicate_bytes(&self.username) }
    }
}

} // verus!
