//! The store as a mathematical value, and each call as a function on it.

use vstd::prelude::*;
use crate::types::{
    AccountId, ActiveConversationView, Error, Event, MessageView, UserView,
};

verus! {

/// The limits a deployment fixes once for the life of a store.
#[derive(Clone, Copy, Debug, PartialEq, Eq, Structural)]
pub struct Config {
    /// The max allowed length for a username.
    pub max_username_length: u32,
    /// The max amount of messages per conversation.
    pub max_message_amount: u32,
    /// The max amount of conversations per account.
    pub max_active_conversation_amount: u32,
    /// The max allowed length for a conversation id.
    pub max_convo_id_length: u32,
}

/// Everything the store holds.
#[verifier::ext_equal]
pub struct State {
    /// The message thread of each conversation id that has one.
    pub conversations: Map<Seq<u8>, Seq<MessageView>>,
    /// The activation flag of each conversation id that has one.
    pub is_active: Map<Seq<u8>, bool>,
    /// The conversations each account takes part in.
    pub active: Map<AccountId, Seq<ActiveConversationView>>,
    /// The owner of each registered name.
    pub usernames: Map<Seq<u8>, UserView>,
    /// The notifications emitted so far and not yet collected.
    pub events: Seq<Event>,
}

impl State {
    /// The store before any call.
    pub open spec fn empty() -> State {
        State {
            conversations: Map::empty(),
            is_active: Map::empty(),
            active: Map::empty(),
            usernames: Map::empty(),
            events: Seq::empty(),
        }
    }

    /// The thread of `convo_id`, empty when nothing was sent under it.
    pub open spec fn thread(self, convo_id: Seq<u8>) -> Seq<MessageView> {
        if self.conversations.dom().contains(convo_id) {
            self.conversations[convo_id]
        } else {
            Seq::empty()
        }
    }

    /// Whether `convo_id` has been activated.
    pub open spec fn started(self, convo_id: Seq<u8>) -> bool {
        self.is_active.dom().contains(convo_id) && self.is_active[convo_id]
    }

    /// The active conversations of `account`, oldest first.
    pub open spec fn index(self, account: AccountId) -> Seq<ActiveConversationView> {
        if self.active.dom().contains(account) {
            self.active[account]
        } else {
            Seq::empty()
        }
    }

    /// The directory entry of `name`, if the name is registered.
    pub open spec fn owner(self, name: Seq<u8>) -> Option<UserView> {
        if self.usernames.dom().contains(name) {
            Some(self.usernames[name])
        } else {
            None
        }
    }

    /// Every key and every list respects the limits of `cfg`, and every
    /// directory entry is stored under its own name.
    pub open spec fn wf(self, cfg: Config) -> bool {
        &&& forall|c: Seq<u8>| #[trigger]
            self.conversations.dom().contains(c) ==> c.len() <= cfg.max_convo_id_length
                && self.conversations[c].len() <= cfg.max_message_amount
        &&& forall|c: Seq<u8>| #[trigger]
            self.is_active.dom().contains(c) ==> c.len() <= cfg.max_convo_id_length
        &&& forall|a: AccountId| #[trigger]
            self.active.dom().contains(a) ==> self.active[a].len()
                <= cfg.max_active_conversation_amount
        &&& forall|n: Seq<u8>| #[trigger]
            self.usernames.dom().contains(n) ==> n.len() <= cfg.max_username_length
                && self.usernames[n].username == n
    }
}

/// The record that activation files under both participants.
pub open spec fn activation_record(
    initiator: AccountId,
    initiator_name: Seq<u8>,
    recipient: AccountId,
    recipient_name: Seq<u8>,
) -> ActiveConversationView {
    ActiveConversationView {
        initiator_address: initiator,
        initiator_name,
        recipient_name,
        recipient_address: recipient,
    }
}

/// Activation of `convo_id`: the new store and whether this call was the one
/// that activated it, or the reason for refusing.
pub open spec fn ensure_activated(
    cfg: Config,
    s: State,
    convo_id: Seq<u8>,
    initiator: AccountId,
    initiator_name: Seq<u8>,
    recipient: AccountId,
    recipient_name: Seq<u8>,
) -> Result<(State, bool), Error> {
    let record = activation_record(initiator, initiator_name, recipient, recipient_name);
    if convo_id.len() > cfg.max_convo_id_length {
        Err(Error::InvalidConvoId)
    } else if s.started(convo_id) {
        Ok((s, false))
    } else if s.index(initiator).len() >= cfg.max_active_conversation_amount || s.index(
        recipient,
    ).len() >= cfg.max_active_conversation_amount {
        Err(Error::ConversationLimitReached)
    } else {
        Ok(
            (
                State {
                    is_active: s.is_active.insert(convo_id, true),
                    active: s.active.insert(initiator, s.index(initiator).push(record)).insert(
                        recipient,
                        s.index(recipient).push(record),
                    ),
                    events: s.events.push(Event::ConvoStarted { sender: initiator, recipient }),
                    ..s
                },
                true,
            ),
        )
    }
}

/// Appending `message` to the thread of `convo_id`.
pub open spec fn append(cfg: Config, s: State, convo_id: Seq<u8>, message: MessageView) -> Result<
    State,
    Error,
> {
    if s.thread(convo_id).len() >= cfg.max_message_amount {
        Err(Error::ConversationLimitReached)
    } else {
        Ok(
            State {
                conversations: s.conversations.insert(convo_id, s.thread(convo_id).push(message)),
                events: s.events.push(Event::MessageSent { sender: message.sender }),
                ..s
            },
        )
    }
}

/// Sending a message: activation of the conversation if it is new, then the
/// append, both or neither.
pub open spec fn store_message(
    cfg: Config,
    s: State,
    sender: AccountId,
    message: Seq<u8>,
    time: u64,
    convo_id: Seq<u8>,
    recipient: AccountId,
    recipient_name: Seq<u8>,
    initiator_name: Seq<u8>,
) -> Result<State, Error> {
    match ensure_activated(cfg, s, convo_id, sender, initiator_name, recipient, recipient_name) {
        Err(e) => Err(e),
        Ok((activated, _)) => append(
            cfg,
            activated,
            convo_id,
            MessageView { sender, recipient, time, message },
        ),
    }
}

/// Binding `name` to `caller`, whoever owned it before.
pub open spec fn register(cfg: Config, s: State, caller: AccountId, name: Seq<u8>) -> Result<
    State,
    Error,
> {
    if name.len() > cfg.max_username_length {
        Err(Error::UsernameExceedsLength)
    } else {
        let user = UserView { account_id: caller, username: name };
        Ok(
            State {
                usernames: s.usernames.insert(name, user),
                events: s.events.push(Event::RegisteredUsername { user: caller }),
                ..s
            },
        )
    }
}

} // verus!
