//! The store and the calls that change it.

use vstd::prelude::*;
use crate::bounded::{views, BoundedVec, Duplicate};
use crate::model::{self, Config, State};
use crate::storage::{lemma_value_views_insert, StorageMap};
use crate::types::{
    duplicate_bytes, AccountId, ActiveConversation, Error, Event, Message, User,
};

verus! {

/// The message threads, the activation index and the username directory of
/// one deployment.
#[derive(Clone, Debug, PartialEq, Eq)]
pub struct Pallet {
    config: Config,
    conversations: StorageMap<Vec<u8>, BoundedVec<Message>>,
    is_active: StorageMap<Vec<u8>, bool>,
    active: StorageMap<AccountId, BoundedVec<ActiveConversation>>,
    usernames: StorageMap<Vec<u8>, User>,
    events: Vec<Event>,
}

impl View for Pallet {
    type V = State;

    closed spec fn view(&self) -> State {
        State {
            conversations: self.conversations@,
            is_active: self.is_active@,
            active: self.active@,
            usernames: self.usernames@,
            events: self.events@,
        }
    }
}

impl Pallet {
    /// The limits this store was made with.
    pub closed spec fn spec_config(&self) -> Config {
        self.config
    }

    /// Every map holds each key once, and every stored list carries the
    /// limit of its kind.
    pub closed spec fn inv(&self) -> bool {
        &&& self.conversations.wf()
        &&& self.is_active.wf()
        &&& self.active.wf()
        &&& self.usernames.wf()
        &&& forall|c: Seq<u8>| #[trigger]
            self.conversations.raw().dom().contains(c) ==> self.conversations.raw()[c].wf()
                && self.conversations.raw()[c].spec_bound() == self.config.max_message_amount
        &&& forall|a: AccountId| #[trigger]
            self.active.raw().dom().contains(a) ==> self.active.raw()[a].wf()
                && self.active.raw()[a].spec_bound()
                == self.config.max_active_conversation_amount
    }

    /// The store is sound inside, and what it holds respects its limits.
    pub open spec fn wf(&self) -> bool {
        self.inv() && self@.wf(self.spec_config())
    }

    /// An empty store with the given limits.
    pub fn new(config: Config) -> (r: Self)
        ensures
            r.wf(),
            r.spec_config() == config,
            r@ == State::empty(),
    {
        let r = Pallet {
            config,
            conversations: StorageMap::new(),
            is_active: StorageMap::new(),
            active: StorageMap::new(),
            usernames: StorageMap::new(),
            events: Vec::new(),
        };
        assert(r@ =~= State::empty());
        r
    }

    /// The limits this store was made with.
    pub fn config(&self) -> (r: Config)
        ensures
            r == self.spec_config(),
    {
        self.config
    }

    /// The thread of `convo_id`, empty when nothing was sent under it.
    pub fn conversations(&self, convo_id: &Vec<u8>) -> (r: BoundedVec<Message>)
        requires
            self.wf(),
        ensures
            r@ == self@.thread(convo_id@),
            r.wf(),
            r.spec_bound() == self.spec_config().max_message_amount,
    {
        match self.conversations.get(convo_id) {
            Some(thread) => thread.duplicate(),
            None => BoundedVec::new(self.config.max_message_amount),
        }
    }

    /// Whether `convo_id` has been activated.
    pub fn isactive(&self, convo_id: &Vec<u8>) -> (r: bool)
        requires
            self.wf(),
        ensures
            r == self@.started(convo_id@),
    {
        match self.is_active.get(convo_id) {
            Some(flag) => *flag,
            None => false,
        }
    }

    /// The active conversations of `account`, oldest first.
    pub fn active(&self, account: AccountId) -> (r: BoundedVec<ActiveConversation>)
        requires
            self.wf(),
        ensures
            r@ == self@.index(account),
            r.wf(),
            r.spec_bound() == self.spec_config().max_active_conversation_amount,
    {
        match self.active.get(&account) {
            Some(list) => list.duplicate(),
            None => BoundedVec::new(self.config.max_active_conversation_amount),
        }
    }

    /// The directory entry of `name`, if the name is registered.
    pub fn username(&self, name: &Vec<u8>) -> (r: Option<User>)
        requires
            self.wf(),
        ensures
            match r {
                Some(user) => self@.owner(name@) == Some(user@),
                None => self@.owner(name@) is None,
            },
    {
        match self.usernames.get(name) {
            Some(user) => Some(user.duplicate()),
            None => None,
        }
    }

    /// The notifications emitted so far and not yet collected.
    pub fn events(&self) -> (r: &Vec<Event>)
        ensures
            r@ == self@.events,
    {
        &self.events
    }

    /// Hands the collected notifications over and starts a fresh log.
    pub fn take_events(&mut self) -> (r: Vec<Event>)
        requires
            old(self).wf(),
        ensures
            final(self).wf(),
            final(self).spec_config() == old(self).spec_config(),
            r@ == old(self)@.events,
            final(self)@ == (State { events: Seq::empty(), ..old(self)@ }),
    {
        let mut taken: Vec<Event> = Vec::new();
        core::mem::swap(&mut taken, &mut self.events);
        taken
    }

    /// Stores `thread` as the thread of `convo_id`, as a host does that
    /// keeps the threads elsewhere between calls. An id or a thread past
    /// its limit is refused, and nothing is emitted.
    pub fn put_thread(&mut self, convo_id: Vec<u8>, thread: Vec<Message>) -> (r: Result<
        (),
        Error,
    >)
        requires
            old(self).wf(),
        ensures
            final(self).wf(),
            final(self).spec_config() == old(self).spec_config(),
            ({
                let cfg = old(self).spec_config();
                if convo_id@.len() > cfg.max_convo_id_length {
                    r == Err::<(), Error>(Error::InvalidConvoId) && final(self)@ == old(self)@
                } else if thread@.len() > cfg.max_message_amount {
                    r == Err::<(), Error>(Error::ConversationLimitReached)
                        && final(self)@ == old(self)@
                } else {
                    r is Ok && final(self)@ == (State {
                        conversations: old(self)@.conversations.insert(convo_id@, views(thread@)),
                        ..old(self)@
                    })
                }
            }),
    {
        if convo_id.len() > self.config.max_convo_id_length as usize {
            return Err(Error::InvalidConvoId);
        }
        let bounded = match BoundedVec::try_from_vec(thread, self.config.max_message_amount) {
            Ok(bounded) => bounded,
            Err(_) => {
                return Err(Error::ConversationLimitReached);
            },
        };
        let ghost before = *self;
        self.conversations.insert(convo_id, bounded);
        proof {
            lemma_value_views_insert(before.conversations.raw(), convo_id@, bounded);
            assert(bounded@.len() == thread@.len());
            assert(self@.conversations == before@.conversations.insert(convo_id@, bounded@));
        }
        Ok(())
    }

    /// Marks `convo_id` as started without filing it under anyone, as a
    /// host does that keeps the flags elsewhere between calls. An id past
    /// its limit is refused, and nothing is emitted.
    pub fn put_started(&mut self, convo_id: Vec<u8>) -> (r: Result<(), Error>)
        requires
            old(self).wf(),
        ensures
            final(self).wf(),
            final(self).spec_config() == old(self).spec_config(),
            ({
                let cfg = old(self).spec_config();
                if convo_id@.len() > cfg.max_convo_id_length {
                    r == Err::<(), Error>(Error::InvalidConvoId) && final(self)@ == old(self)@
                } else {
                    r is Ok && final(self)@ == (State {
                        is_active: old(self)@.is_active.insert(convo_id@, true),
                        ..old(self)@
                    })
                }
            }),
    {
        if convo_id.len() > self.config.max_convo_id_length as usize {
            return Err(Error::InvalidConvoId);
        }
        let ghost before = *self;
        self.is_active.insert(convo_id, true);
        proof {
            lemma_value_views_insert(before.is_active.raw(), convo_id@, true);
            assert(self@.is_active == before@.is_active.insert(convo_id@, true));
        }
        Ok(())
    }

    /// Stores `list` as the active conversations of `account`, as a host
    /// does that keeps the lists elsewhere between calls. A list past its
    /// limit is refused, and nothing is emitted.
    pub fn put_active(&mut self, account: AccountId, list: Vec<ActiveConversation>) -> (r: Result<
        (),
        Error,
    >)
        requires
            old(self).wf(),
        ensures
            final(self).wf(),
            final(self).spec_config() == old(self).spec_config(),
            ({
                let cfg = old(self).spec_config();
                if list@.len() > cfg.max_active_conversation_amount {
                    r == Err::<(), Error>(Error::ConversationLimitReached)
                        && final(self)@ == old(self)@
                } else {
                    r is Ok && final(self)@ == (State {
                        active: old(self)@.active.insert(account, views(list@)),
                        ..old(self)@
                    })
                }
            }),
    {
        let bounded = match BoundedVec::try_from_vec(
            list,
            self.config.max_active_conversation_amount,
        ) {
            Ok(bounded) => bounded,
            Err(_) => {
                return Err(Error::ConversationLimitReached);
            },
        };
        let ghost before = *self;
        self.active.insert(account, bounded);
        proof {
            lemma_value_views_insert(before.active.raw(), account, bounded);
            assert(bounded@.len() == list@.len());
            assert(self@.active == before@.active.insert(account, bounded@));
        }
        Ok(())
    }

    /// Stores `user` under its own name, as a host does that keeps the
    /// directory elsewhere between calls. A name past its limit is
    /// refused, and nothing is emitted.
    pub fn put_user(&mut self, user: User) -> (r: Result<(), Error>)
        requires
            old(self).wf(),
        ensures
            final(self).wf(),
            final(self).spec_config() == old(self).spec_config(),
            ({
                let cfg = old(self).spec_config();
                if user@.username.len() > cfg.max_username_length {
                    r == Err::<(), Error>(Error::UsernameExceedsLength)
                        && final(self)@ == old(self)@
                } else {
                    r is Ok && final(self)@ == (State {
                        usernames: old(self)@.usernames.insert(user@.username, user@),
                        ..old(self)@
                    })
                }
            }),
    {
        if user.username.len() > self.config.max_username_length as usize {
            return Err(Error::UsernameExceedsLength);
        }
        let name = duplicate_bytes(&user.username);
        let ghost before = *self;
        self.usernames.insert(name, user);
        proof {
            lemma_value_views_insert(before.usernames.raw(), name@, user);
            assert(self@.conversations == before@.conversations);
            assert(self@.is_active == before@.is_active);
            assert(self@.active == before@.active);
            assert(self@.usernames == before@.usernames.insert(name@, user@));
            assert forall|n: Seq<u8>| #[trigger]
                self@.usernames.dom().contains(n) implies n.len()
                <= self.config.max_username_length && self@.usernames[n].username == n by {
                if n != name@ {
                    assert(before@.usernames.dom().contains(n));
                }
            }
        }
        Ok(())
    }

    /// Activation of a conversation id that is already known to be within
    /// the length limit.
    fn activate(
        &mut self,
        convo_id: &Vec<u8>,
        initiator: AccountId,
        initiator_name: Vec<u8>,
        recipient: AccountId,
        recipient_name: Vec<u8>,
    ) -> (r: Result<bool, Error>)
        requires
            old(self).wf(),
            convo_id@.len() <= old(self).spec_config().max_convo_id_length,
        ensures
            final(self).wf(),
            final(self).spec_config() == old(self).spec_config(),
            match model::ensure_activated(
                old(self).spec_config(),
                old(self)@,
                convo_id@,
                initiator,
                initiator_name@,
                recipient,
                recipient_name@,
            ) {
                Ok((s, first)) => r == Ok::<bool, Error>(first) && final(self)@ == s,
                Err(e) => r == Err::<bool, Error>(e) && final(self)@ == old(self)@,
            },
    {
        if self.isactive(convo_id) {
            return Ok(false);
        }
        let new_active_convo = ActiveConversation {
            initiator_address: initiator,
            initiator_name,
            recipient_name,
            recipient_address: recipient,
        };
        let mut sender_conversations = self.active(initiator);
        let mut recipient_conversations = self.active(recipient);
        if sender_conversations.try_push(new_active_convo.duplicate()).is_err() {
            return Err(Error::ConversationLimitReached);
        }
        if recipient_conversations.try_push(new_active_convo).is_err() {
            return Err(Error::ConversationLimitReached);
        }
        let ghost before = *self;
        let ghost record = new_active_convo@;
        self.is_active.insert(duplicate_bytes(convo_id), true);
        self.events.push(Event::ConvoStarted { sender: initiator, recipient });
        self.active.insert(initiator, sender_conversations);
        self.active.insert(recipient, recipient_conversations);
        proof {
            lemma_value_views_insert(before.is_active.raw(), convo_id@, true);
            lemma_value_views_insert(before.active.raw(), initiator, sender_conversations);
            lemma_value_views_insert(
                before.active.raw().insert(initiator, sender_conversations),
                recipient,
                recipient_conversations,
            );
            assert(sender_conversations@ =~= before@.index(initiator).push(record));
            assert(recipient_conversations@ =~= before@.index(recipient).push(record));
        }
        Ok(true)
    }

    /// Marks `convo_id` as started and files it under both participants,
    /// unless it is started already. Returns whether this call was the one
    /// that started it. A refused call changes nothing.
    pub fn ensure_activated(
        &mut self,
        convo_id: Vec<u8>,
        initiator: AccountId,
        initiator_name: Vec<u8>,
        recipient: AccountId,
        recipient_name: Vec<u8>,
    ) -> (r: Result<bool, Error>)
        requires
            old(self).wf(),
        ensures
            final(self).wf(),
            final(self).spec_config() == old(self).spec_config(),
            match model::ensure_activated(
                old(self).spec_config(),
                old(self)@,
                convo_id@,
                initiator,
                initiator_name@,
                recipient,
                recipient_name@,
            ) {
                Ok((s, first)) => r == Ok::<bool, Error>(first) && final(self)@ == s,
                Err(e) => r == Err::<bool, Error>(e) && final(self)@ == old(self)@,
            },
    {
        let bounded_id = match BoundedVec::try_from_vec(
            convo_id,
            self.config.max_convo_id_length,
        ) {
            Ok(id) => id.into_inner(),
            Err(_) => {
                return Err(Error::InvalidConvoId);
            },
        };
        self.activate(&bounded_id, initiator, initiator_name, recipient, recipient_name)
    }

    /// Appends `message` to the thread of a conversation id that the caller
    /// has validated. A full thread refuses the message and stays as it is.
    pub fn append_message(&mut self, convo_id: Vec<u8>, message: Message) -> (r: Result<
        (),
        Error,
    >)
        requires
            old(self).wf(),
            convo_id@.len() <= old(self).spec_config().max_convo_id_length,
        ensures
            final(self).wf(),
            final(self).spec_config() == old(self).spec_config(),
            match model::append(old(self).spec_config(), old(self)@, convo_id@, message@) {
                Ok(s) => r is Ok && final(self)@ == s,
                Err(e) => r == Err::<(), Error>(e) && final(self)@ == old(self)@,
            },
    {
        let mut conversation = self.conversations(&convo_id);
        let sender = message.sender;
        if conversation.try_push(message).is_err() {
            return Err(Error::ConversationLimitReached);
        }
        let ghost before = *self;
        self.events.push(Event::MessageSent { sender });
        self.conversations.insert(convo_id, conversation);
        proof {
            lemma_value_views_insert(before.conversations.raw(), convo_id@, conversation);
            assert(conversation@ =~= before@.thread(convo_id@).push(message@));
        }
        Ok(())
    }

    /// Sends `message` from `sender` to `recipient` under `convo_id`: the
    /// conversation is activated if this is its first message, and the
    /// message joins its thread. A refused call changes nothing.
    pub fn store_message(
        &mut self,
        sender: AccountId,
        message: Vec<u8>,
        time: u64,
        convo_id: Vec<u8>,
        recipient: AccountId,
        recipient_name: Vec<u8>,
        initiator_name: Vec<u8>,
    ) -> (r: Result<(), Error>)
        requires
            old(self).wf(),
        ensures
            final(self).wf(),
            final(self).spec_config() == old(self).spec_config(),
            match model::store_message(
                old(self).spec_config(),
                old(self)@,
                sender,
                message@,
                time,
                convo_id@,
                recipient,
                recipient_name@,
                initiator_name@,
            ) {
                Ok(s) => r is Ok && final(self)@ == s,
                Err(e) => r == Err::<(), Error>(e) && final(self)@ == old(self)@,
            },
    {
        let bounded_id = match BoundedVec::try_from_vec(
            convo_id,
            self.config.max_convo_id_length,
        ) {
            Ok(id) => id.into_inner(),
            Err(_) => {
                return Err(Error::InvalidConvoId);
            },
        };
        // The thread is staged first, so that a full thread is found before
        // anything is written.
        let mut conversation = self.conversations(&bounded_id);
        let new_message = Message { sender, recipient, time, message };
        if conversation.try_push(new_message).is_err() {
            return Err(Error::ConversationLimitReached);
        }
        match self.activate(&bounded_id, sender, initiator_name, recipient, recipient_name) {
            Ok(_) => {},
            Err(e) => {
                return Err(e);
            },
        }
        let ghost activated = *self;
        self.events.push(Event::MessageSent { sender });
        self.conversations.insert(bounded_id, conversation);
        proof {
            lemma_value_views_insert(activated.conversations.raw(), bounded_id@, conversation);
            assert(conversation@ =~= activated@.thread(bounded_id@).push(new_message@));
        }
        Ok(())
    }

    /// Binds `name` to `caller`, in place of whoever owned it before.
    pub fn register(&mut self, caller: AccountId, name: Vec<u8>) -> (r: Result<(), Error>)
        requires
            old(self).wf(),
        ensures
            final(self).wf(),
            final(self).spec_config() == old(self).spec_config(),
            match model::register(old(self).spec_config(), old(self)@, caller, name@) {
                Ok(s) => r is Ok && final(self)@ == s,
                Err(e) => r == Err::<(), Error>(e) && final(self)@ == old(self)@,
            },
    {
        let bound_name = match BoundedVec::try_from_vec(name, self.config.max_username_length) {
            Ok(bounded) => bounded.into_inner(),
            Err(_) => {
                return Err(Error::UsernameExceedsLength);
            },
        };
        let new_user = User { account_id: caller, username: duplicate_bytes(&bound_name) };
        let ghost before = *self;
        self.events.push(Event::RegisteredUsername { user: caller });
        self.usernames.insert(bound_name, new_user);
        proof {
            lemma_value_views_insert(before.usernames.raw(), bound_name@, new_user);
        }
        Ok(())
    }

    /// Accepts the request and does nothing.
    pub fn start_conversation(&self, _caller: AccountId, _recipient: AccountId) -> (r: Result<
        (),
        Error,
    >)
        ensures
            r == Ok::<(), Error>(()),
    {
        Ok(())
    }
}

} // verus!
