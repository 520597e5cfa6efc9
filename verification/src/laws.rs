//! What holds of the calls on every store.

use vstd::prelude::*;
use crate::model::{
    activation_record, append, ensure_activated, register, store_message, Config, State,
};
use crate::types::{AccountId, Error, MessageView, UserView};

verus! {

/// One request to send a message, without the conversation id.
pub struct SendRequest {
    pub sender: AccountId,
    pub message: Seq<u8>,
    pub time: u64,
    pub recipient: AccountId,
    pub recipient_name: Seq<u8>,
    pub initiator_name: Seq<u8>,
}

impl SendRequest {
    /// The message this request asks to store.
    pub open spec fn to_message(self) -> MessageView {
        MessageView {
            sender: self.sender,
            recipient: self.recipient,
            time: self.time,
            message: self.message,
        }
    }

    /// The record that activation files for this request.
    pub open spec fn to_record(self) -> crate::types::ActiveConversationView {
        activation_record(self.sender, self.initiator_name, self.recipient, self.recipient_name)
    }
}

/// What `store_message` answers to `send` under `convo_id`.
pub open spec fn outcome(cfg: Config, s: State, convo_id: Seq<u8>, send: SendRequest) -> Result<
    State,
    Error,
> {
    store_message(
        cfg,
        s,
        send.sender,
        send.message,
        send.time,
        convo_id,
        send.recipient,
        send.recipient_name,
        send.initiator_name,
    )
}

/// The store after one send under `convo_id`; a refused send leaves it as it
/// was.
pub open spec fn after_send(cfg: Config, s: State, convo_id: Seq<u8>, send: SendRequest) -> State {
    match outcome(cfg, s, convo_id, send) {
        Ok(next) => next,
        Err(_) => s,
    }
}

/// The store after the given sends under `convo_id`, in order.
pub open spec fn after_sends(
    cfg: Config,
    s: State,
    convo_id: Seq<u8>,
    sends: Seq<SendRequest>,
) -> State
    decreases sends.len(),
{
    if sends.len() == 0 {
        s
    } else {
        after_send(cfg, after_sends(cfg, s, convo_id, sends.drop_last()), convo_id, sends.last())
    }
}

/// The first accepted send under a conversation id that was not started
/// files exactly one record under the sender and one under the recipient,
/// starts the conversation, and touches the list of no other account.
pub proof fn law_first_send_activates_once(
    cfg: Config,
    s: State,
    convo_id: Seq<u8>,
    send: SendRequest,
)
    requires
        !s.started(convo_id),
        outcome(cfg, s, convo_id, send) is Ok,
    ensures
        ({
            let next = after_send(cfg, s, convo_id, send);
            &&& next.started(convo_id)
            &&& next.index(send.sender) == s.index(send.sender).push(send.to_record())
            &&& next.index(send.recipient) == s.index(send.recipient).push(send.to_record())
            &&& forall|a: AccountId|
                a != send.sender && a != send.recipient ==> next.index(a) == s.index(a)
        }),
{
}

/// Once a conversation id is started, no number of further sends under it,
/// accepted or refused, by whichever accounts, changes any account's list
/// of active conversations or any activation flag.
pub proof fn law_activation_is_idempotent(
    cfg: Config,
    s: State,
    convo_id: Seq<u8>,
    sends: Seq<SendRequest>,
)
    requires
        s.started(convo_id),
    ensures
        after_sends(cfg, s, convo_id, sends).active == s.active,
        after_sends(cfg, s, convo_id, sends).is_active == s.is_active,
        after_sends(cfg, s, convo_id, sends).started(convo_id),
    decreases sends.len(),
{
    if sends.len() > 0 {
        law_activation_is_idempotent(cfg, s, convo_id, sends.drop_last());
    }
}

/// A send under a valid id whose thread is full, or that would have to
/// activate the conversation while the sender's or the recipient's list is
/// full, is refused with `ConversationLimitReached`.
pub proof fn law_capacity_is_enforced(cfg: Config, s: State, convo_id: Seq<u8>, send: SendRequest)
    requires
        convo_id.len() <= cfg.max_convo_id_length,
        ({
            ||| s.thread(convo_id).len() >= cfg.max_message_amount
            ||| !s.started(convo_id) && s.index(send.sender).len()
                >= cfg.max_active_conversation_amount
            ||| !s.started(convo_id) && s.index(send.recipient).len()
                >= cfg.max_active_conversation_amount
        }),
    ensures
        outcome(cfg, s, convo_id, send) == Err::<State, Error>(Error::ConversationLimitReached),
{
}

/// A send is accepted exactly when the id is within its limit, the thread
/// has room, and activation, where it is due, finds room in both lists.
pub proof fn law_send_is_accepted_iff(cfg: Config, s: State, convo_id: Seq<u8>, send: SendRequest)
    ensures
        outcome(cfg, s, convo_id, send) is Ok <==> {
            &&& convo_id.len() <= cfg.max_convo_id_length
            &&& s.thread(convo_id).len() < cfg.max_message_amount
            &&& s.started(convo_id) || {
                &&& s.index(send.sender).len() < cfg.max_active_conversation_amount
                &&& s.index(send.recipient).len() < cfg.max_active_conversation_amount
            }
        },
{
}

/// No call takes a store past its limits.
pub proof fn law_calls_keep_the_limits(
    cfg: Config,
    s: State,
    convo_id: Seq<u8>,
    send: SendRequest,
    caller: AccountId,
    name: Seq<u8>,
)
    requires
        s.wf(cfg),
    ensures
        after_send(cfg, s, convo_id, send).wf(cfg),
        register(cfg, s, caller, name) matches Ok(next) ==> next.wf(cfg),
{
    let next = after_send(cfg, s, convo_id, send);
    if next != s {
        assert forall|a: AccountId| #[trigger] next.active.dom().contains(a) implies
            next.active[a].len() <= cfg.max_active_conversation_amount by {
            if s.started(convo_id) || (a != send.sender && a != send.recipient) {
                assert(s.active.dom().contains(a));
            }
        }
        assert forall|c: Seq<u8>| #[trigger] next.conversations.dom().contains(c) implies
            c.len() <= cfg.max_convo_id_length && next.conversations[c].len()
            <= cfg.max_message_amount by {
            if c != convo_id {
                assert(s.conversations.dom().contains(c));
            }
        }
        assert forall|c: Seq<u8>| #[trigger] next.is_active.dom().contains(c) implies
            c.len() <= cfg.max_convo_id_length by {
            if c != convo_id {
                assert(s.is_active.dom().contains(c));
            }
        }
    }
    if let Ok(registered) = register(cfg, s, caller, name) {
        assert forall|n: Seq<u8>| #[trigger] registered.usernames.dom().contains(n) implies
            n.len() <= cfg.max_username_length && registered.usernames[n].username == n by {
            if n != name {
                assert(s.usernames.dom().contains(n));
            }
        }
    }
}

/// A conversation id one byte longer than the limit is refused with
/// `InvalidConvoId`, and one of exactly the limit never is; a name one byte
/// longer than the limit is refused with `UsernameExceedsLength`, and one of
/// exactly the limit is registered.
pub proof fn law_lengths_are_validated(
    cfg: Config,
    s: State,
    convo_id: Seq<u8>,
    send: SendRequest,
    caller: AccountId,
    name: Seq<u8>,
)
    ensures
        convo_id.len() == cfg.max_convo_id_length + 1 ==> outcome(cfg, s, convo_id, send) == Err::<
            State,
            Error,
        >(Error::InvalidConvoId),
        convo_id.len() == cfg.max_convo_id_length ==> outcome(cfg, s, convo_id, send) != Err::<
            State,
            Error,
        >(Error::InvalidConvoId),
        name.len() == cfg.max_username_length + 1 ==> register(cfg, s, caller, name) == Err::<
            State,
            Error,
        >(Error::UsernameExceedsLength),
        name.len() == cfg.max_username_length ==> register(cfg, s, caller, name) is Ok,
{
}

/// When two callers register the same name one after the other, the
/// directory ends with one entry for the name, owned by the second, and is
/// otherwise what it was.
pub proof fn law_last_registration_owns_the_name(
    cfg: Config,
    s: State,
    first: AccountId,
    second: AccountId,
    name: Seq<u8>,
)
    requires
        name.len() <= cfg.max_username_length,
    ensures
        ({
            let owned = UserView { account_id: second, username: name };
            &&& register(cfg, s, first, name) matches Ok(once)
            &&& register(cfg, once, second, name) matches Ok(twice)
            &&& twice.owner(name) == Some(owned)
            &&& twice.usernames == s.usernames.insert(name, owned)
        }),
{
    let once = register(cfg, s, first, name)->Ok_0;
    let twice = register(cfg, once, second, name)->Ok_0;
    let owned = UserView { account_id: second, username: name };
    assert(twice.usernames =~= s.usernames.insert(name, owned));
}

/// When activation would go through and the append that follows is
/// refused, the send as a whole is refused, and the store it leaves behind
/// is the one it found, with the conversation unstarted.
pub proof fn law_refused_append_undoes_activation(
    cfg: Config,
    s: State,
    convo_id: Seq<u8>,
    send: SendRequest,
)
    requires
        ensure_activated(
            cfg,
            s,
            convo_id,
            send.sender,
            send.initiator_name,
            send.recipient,
            send.recipient_name,
        ) matches Ok((staged, first)) && first && append(
            cfg,
            staged,
            convo_id,
            send.to_message(),
        ) is Err,
    ensures
        outcome(cfg, s, convo_id, send) == Err::<State, Error>(Error::ConversationLimitReached),
        after_send(cfg, s, convo_id, send) == s,
        !after_send(cfg, s, convo_id, send).started(convo_id),
{
}

/// A started conversation stays started, an accepted send extends the
/// thread of its conversation by its message, and no send touches the
/// thread of another conversation.
pub proof fn law_sends_only_append(
    cfg: Config,
    s: State,
    convo_id: Seq<u8>,
    send: SendRequest,
    other: Seq<u8>,
)
    ensures
        s.started(other) ==> after_send(cfg, s, convo_id, send).started(other),
        other != convo_id ==> after_send(cfg, s, convo_id, send).thread(other) == s.thread(other),
        outcome(cfg, s, convo_id, send) is Ok ==> after_send(cfg, s, convo_id, send).thread(
            convo_id,
        ) == s.thread(convo_id).push(send.to_message()),
{
}

} // verus!
