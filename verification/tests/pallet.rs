use uke::{ActiveConversation, Config, Error, Event, Message, Pallet, User};

fn test_config() -> Config {
    Config {
        max_username_length: 10,
        max_message_amount: 10,
        max_active_conversation_amount: 10,
        max_convo_id_length: 10,
    }
}

fn bytes(text: &str) -> Vec<u8> {
    text.as_bytes().to_vec()
}

fn send(
    uke: &mut Pallet,
    sender: u64,
    text: &str,
    time: u64,
    convo_id: &str,
    recipient: u64,
) -> Result<(), Error> {
    uke.store_message(sender, bytes(text), time, bytes(convo_id), recipient, Vec::new(), Vec::new())
}

fn send_named(
    uke: &mut Pallet,
    sender: u64,
    text: &str,
    time: u64,
    convo_id: &str,
    recipient: u64,
    recipient_name: &str,
    initiator_name: &str,
) -> Result<(), Error> {
    uke.store_message(
        sender,
        bytes(text),
        time,
        bytes(convo_id),
        recipient,
        bytes(recipient_name),
        bytes(initiator_name),
    )
}

fn record(
    initiator: u64,
    initiator_name: &str,
    recipient: u64,
    recipient_name: &str,
) -> ActiveConversation {
    ActiveConversation {
        initiator_address: initiator,
        initiator_name: bytes(initiator_name),
        recipient_name: bytes(recipient_name),
        recipient_address: recipient,
    }
}

#[test]
fn store_message_should_work() {
    let mut uke = Pallet::new(test_config());
    assert_eq!(
        uke.store_message(
            1,
            "yes".as_bytes().to_vec(),
            1,
            "abc123".as_bytes().to_vec(),
            1,
            Vec::new(),
            Vec::new()
        ),
        Ok(())
    );
    let thread = uke.conversations(&bytes("abc123"));
    assert_eq!(thread.len(), 1);
    assert_eq!(
        thread.as_vec()[0],
        Message { sender: 1, recipient: 1, time: 1, message: bytes("yes") }
    );
    assert!(uke.isactive(&bytes("abc123")));
}

#[test]
fn registering_new_name_should_work() {
    let mut uke = Pallet::new(test_config());
    assert_eq!(uke.register(1, "badery".as_bytes().to_vec()), Ok(()));
    assert_eq!(
        uke.username(&bytes("badery")),
        Some(User { account_id: 1, username: bytes("badery") })
    );
    assert_eq!(uke.events(), &vec![Event::RegisteredUsername { user: 1 }]);
}

#[test]
fn username_too_long_should_work() {
    let mut uke = Pallet::new(test_config());
    let before = uke.clone();
    assert_eq!(
        uke.register(1, "12345678901".as_bytes().to_vec()),
        Err(Error::UsernameExceedsLength)
    );
    assert_eq!(uke, before);
}

#[test]
fn invalid_id_should_work() {
    let mut uke = Pallet::new(test_config());
    let before = uke.clone();
    assert_eq!(
        uke.store_message(
            1,
            "yes".as_bytes().to_vec(),
            1,
            "12345678901".as_bytes().to_vec(),
            1,
            Vec::new(),
            Vec::new()
        ),
        Err(Error::InvalidConvoId)
    );
    assert_eq!(uke, before);
}

#[test]
fn new_store_is_empty() {
    let uke = Pallet::new(test_config());
    assert_eq!(uke.config(), test_config());
    assert!(uke.conversations(&bytes("c1")).is_empty());
    assert_eq!(uke.conversations(&bytes("c1")).bound(), 10);
    assert!(!uke.isactive(&bytes("c1")));
    assert!(uke.active(1).is_empty());
    assert_eq!(uke.active(1).bound(), 10);
    assert_eq!(uke.username(&bytes("alice")), None);
    assert!(uke.events().is_empty());
}

#[test]
fn three_sends_with_room_for_two() {
    let config = Config {
        max_username_length: 10,
        max_message_amount: 2,
        max_active_conversation_amount: 10,
        max_convo_id_length: 16,
    };
    let (a, b) = (1u64, 2u64);
    let mut uke = Pallet::new(config);
    let m1 = Message { sender: a, recipient: b, time: 1, message: bytes("abc") };
    let m2 = Message { sender: a, recipient: b, time: 2, message: bytes("def") };
    let started = record(a, "alice", b, "bob");

    assert_eq!(send_named(&mut uke, a, "abc", 1, "c1", b, "bob", "alice"), Ok(()));
    assert_eq!(uke.conversations(&bytes("c1")).into_inner(), vec![m1.clone()]);
    assert_eq!(uke.active(a).into_inner(), vec![started.clone()]);
    assert_eq!(uke.active(b).into_inner(), vec![started.clone()]);

    assert_eq!(send_named(&mut uke, a, "def", 2, "c1", b, "bob", "alice"), Ok(()));
    assert_eq!(uke.conversations(&bytes("c1")).into_inner(), vec![m1.clone(), m2.clone()]);
    assert_eq!(uke.active(a).into_inner(), vec![started.clone()]);
    assert_eq!(uke.active(b).into_inner(), vec![started.clone()]);

    let before = uke.clone();
    assert_eq!(
        send_named(&mut uke, a, "ghi", 3, "c1", b, "bob", "alice"),
        Err(Error::ConversationLimitReached)
    );
    assert_eq!(uke.conversations(&bytes("c1")).into_inner(), vec![m1, m2]);
    assert_eq!(uke, before);
    assert_eq!(
        uke.events(),
        &vec![
            Event::ConvoStarted { sender: a, recipient: b },
            Event::MessageSent { sender: a },
            Event::MessageSent { sender: a },
        ]
    );
}

#[test]
fn activation_happens_once_per_conversation() {
    let mut uke = Pallet::new(test_config());
    assert_eq!(send_named(&mut uke, 1, "one", 10, "c", 2, "bob", "alice"), Ok(()));
    assert_eq!(send_named(&mut uke, 1, "two", 11, "c", 2, "bob", "alice"), Ok(()));
    // The reply comes from the other side, under other display names.
    assert_eq!(send_named(&mut uke, 2, "three", 12, "c", 1, "al", "bo"), Ok(()));
    assert_eq!(send(&mut uke, 3, "four", 13, "c", 4), Ok(()));
    assert_eq!(uke.active(1).into_inner(), vec![record(1, "alice", 2, "bob")]);
    assert_eq!(uke.active(2).into_inner(), vec![record(1, "alice", 2, "bob")]);
    assert!(uke.active(3).is_empty());
    assert!(uke.active(4).is_empty());
    assert_eq!(uke.conversations(&bytes("c")).len(), 4);
    assert!(uke.isactive(&bytes("c")));
}

#[test]
fn a_conversation_with_oneself_is_filed_once() {
    let mut uke = Pallet::new(test_config());
    assert_eq!(send_named(&mut uke, 7, "note", 1, "me", 7, "self", "self"), Ok(()));
    assert_eq!(uke.active(7).into_inner(), vec![record(7, "self", 7, "self")]);
}

#[test]
fn a_full_thread_refuses_the_message() {
    let config = Config { max_message_amount: 1, ..test_config() };
    let mut uke = Pallet::new(config);
    assert_eq!(send(&mut uke, 1, "a", 1, "c", 2), Ok(()));
    let before = uke.clone();
    assert_eq!(
        send(&mut uke, 2, "b", 2, "c", 1),
        Err(Error::ConversationLimitReached)
    );
    assert_eq!(uke.conversations(&bytes("c")).len(), 1);
    assert_eq!(uke, before);
}

#[test]
fn a_full_list_of_the_sender_refuses_activation() {
    let config = Config { max_active_conversation_amount: 1, ..test_config() };
    let mut uke = Pallet::new(config);
    assert_eq!(send(&mut uke, 1, "a", 1, "c1", 2), Ok(()));
    let before = uke.clone();
    assert_eq!(
        send(&mut uke, 1, "b", 2, "c2", 3),
        Err(Error::ConversationLimitReached)
    );
    assert_eq!(uke.active(1).len(), 1);
    assert!(uke.active(3).is_empty());
    assert!(!uke.isactive(&bytes("c2")));
    assert!(uke.conversations(&bytes("c2")).is_empty());
    assert_eq!(uke, before);
}

#[test]
fn a_full_list_of_the_recipient_refuses_activation() {
    let config = Config { max_active_conversation_amount: 1, ..test_config() };
    let mut uke = Pallet::new(config);
    assert_eq!(send(&mut uke, 1, "a", 1, "c1", 2), Ok(()));
    let before = uke.clone();
    assert_eq!(
        send(&mut uke, 3, "b", 2, "c2", 2),
        Err(Error::ConversationLimitReached)
    );
    assert!(uke.active(3).is_empty());
    assert_eq!(uke.active(2).len(), 1);
    assert!(!uke.isactive(&bytes("c2")));
    assert_eq!(uke, before);
    // A started conversation needs no room in the lists.
    assert_eq!(send(&mut uke, 3, "c", 3, "c1", 2), Ok(()));
}

#[test]
fn a_refused_first_message_leaves_the_conversation_unstarted() {
    let config = Config { max_message_amount: 0, ..test_config() };
    let mut uke = Pallet::new(config);
    let before = uke.clone();
    assert_eq!(
        send_named(&mut uke, 1, "a", 1, "fresh", 2, "bob", "alice"),
        Err(Error::ConversationLimitReached)
    );
    assert!(!uke.isactive(&bytes("fresh")));
    assert!(uke.active(1).is_empty());
    assert!(uke.active(2).is_empty());
    assert!(uke.conversations(&bytes("fresh")).is_empty());
    assert!(uke.events().is_empty());
    assert_eq!(uke, before);
}

#[test]
fn conversation_id_lengths_at_and_past_the_limit() {
    let mut uke = Pallet::new(test_config());
    assert_eq!(send(&mut uke, 1, "a", 1, "0123456789", 2), Ok(()));
    assert!(uke.isactive(&bytes("0123456789")));
    assert_eq!(
        send(&mut uke, 1, "a", 1, "0123456789a", 2),
        Err(Error::InvalidConvoId)
    );
    assert!(!uke.isactive(&bytes("0123456789a")));
    assert_eq!(uke.store_message(1, bytes("a"), 1, Vec::new(), 2, Vec::new(), Vec::new()), Ok(()));
    assert_eq!(uke.conversations(&Vec::new()).len(), 1);
}

#[test]
fn an_invalid_id_is_reported_before_a_full_list() {
    let config =
        Config { max_message_amount: 0, max_active_conversation_amount: 0, ..test_config() };
    let mut uke = Pallet::new(config);
    assert_eq!(
        send(&mut uke, 1, "a", 1, "0123456789a", 2),
        Err(Error::InvalidConvoId)
    );
    assert_eq!(
        send(&mut uke, 1, "a", 1, "ok", 2),
        Err(Error::ConversationLimitReached)
    );
}

#[test]
fn username_lengths_at_and_past_the_limit() {
    let mut uke = Pallet::new(test_config());
    assert_eq!(uke.register(1, bytes("0123456789")), Ok(()));
    assert_eq!(
        uke.username(&bytes("0123456789")),
        Some(User { account_id: 1, username: bytes("0123456789") })
    );
    assert_eq!(uke.register(1, bytes("0123456789a")), Err(Error::UsernameExceedsLength));
    assert_eq!(uke.username(&bytes("0123456789a")), None);
    assert_eq!(uke.register(1, Vec::new()), Ok(()));
}

#[test]
fn the_last_caller_to_register_a_name_owns_it() {
    let mut uke = Pallet::new(test_config());
    assert_eq!(uke.register(1, bytes("badery")), Ok(()));
    assert_eq!(uke.register(2, bytes("badery")), Ok(()));
    assert_eq!(
        uke.username(&bytes("badery")),
        Some(User { account_id: 2, username: bytes("badery") })
    );
    assert_eq!(
        uke.events(),
        &vec![Event::RegisteredUsername { user: 1 }, Event::RegisteredUsername { user: 2 }]
    );
}

#[test]
fn one_account_may_own_several_names() {
    let mut uke = Pallet::new(test_config());
    assert_eq!(uke.register(1, bytes("first")), Ok(()));
    assert_eq!(uke.register(1, bytes("second")), Ok(()));
    assert_eq!(uke.username(&bytes("first")).map(|u| u.account_id), Some(1));
    assert_eq!(uke.username(&bytes("second")).map(|u| u.account_id), Some(1));
}

#[test]
fn start_conversation_changes_nothing() {
    let mut uke = Pallet::new(test_config());
    assert_eq!(uke.register(1, bytes("alice")), Ok(()));
    let before = uke.clone();
    assert_eq!(uke.start_conversation(1, 2), Ok(()));
    assert_eq!(uke, before);
}

#[test]
fn ensure_activated_reports_the_first_activation() {
    let mut uke = Pallet::new(test_config());
    assert_eq!(uke.ensure_activated(bytes("c"), 1, bytes("alice"), 2, bytes("bob")), Ok(true));
    assert!(uke.isactive(&bytes("c")));
    assert_eq!(uke.active(1).into_inner(), vec![record(1, "alice", 2, "bob")]);
    assert_eq!(uke.active(2).into_inner(), vec![record(1, "alice", 2, "bob")]);
    assert_eq!(uke.events(), &vec![Event::ConvoStarted { sender: 1, recipient: 2 }]);
    let before = uke.clone();
    assert_eq!(uke.ensure_activated(bytes("c"), 5, Vec::new(), 6, Vec::new()), Ok(false));
    assert_eq!(uke, before);
    assert_eq!(
        uke.ensure_activated(bytes("0123456789a"), 1, Vec::new(), 2, Vec::new()),
        Err(Error::InvalidConvoId)
    );
    assert_eq!(uke, before);
}

#[test]
fn append_message_fills_the_thread_in_order() {
    let config = Config { max_message_amount: 2, ..test_config() };
    let mut uke = Pallet::new(config);
    let m1 = Message { sender: 1, recipient: 2, time: 5, message: bytes("x") };
    let m2 = Message { sender: 2, recipient: 1, time: 6, message: bytes("y") };
    let m3 = Message { sender: 1, recipient: 2, time: 7, message: bytes("z") };
    assert_eq!(uke.append_message(bytes("c"), m1.clone()), Ok(()));
    assert_eq!(uke.append_message(bytes("c"), m2.clone()), Ok(()));
    assert_eq!(uke.append_message(bytes("c"), m3), Err(Error::ConversationLimitReached));
    assert_eq!(uke.conversations(&bytes("c")).into_inner(), vec![m1, m2]);
    assert!(!uke.isactive(&bytes("c")));
    assert_eq!(
        uke.events(),
        &vec![Event::MessageSent { sender: 1 }, Event::MessageSent { sender: 2 }]
    );
}

#[test]
fn take_events_empties_the_log() {
    let mut uke = Pallet::new(test_config());
    assert_eq!(send(&mut uke, 1, "a", 1, "c", 2), Ok(()));
    let taken = uke.take_events();
    assert_eq!(
        taken,
        vec![Event::ConvoStarted { sender: 1, recipient: 2 }, Event::MessageSent { sender: 1 }]
    );
    assert!(uke.events().is_empty());
    assert_eq!(uke.conversations(&bytes("c")).len(), 1);
}

#[test]
fn threads_are_kept_apart() {
    let mut uke = Pallet::new(test_config());
    assert_eq!(send(&mut uke, 1, "a", 1, "c1", 2), Ok(()));
    assert_eq!(send(&mut uke, 1, "b", 2, "c2", 3), Ok(()));
    assert_eq!(send(&mut uke, 2, "c", 3, "c1", 1), Ok(()));
    assert_eq!(uke.conversations(&bytes("c1")).len(), 2);
    assert_eq!(uke.conversations(&bytes("c2")).len(), 1);
    assert_eq!(uke.active(1).len(), 2);
    assert_eq!(uke.active(2).len(), 1);
    assert_eq!(uke.active(3).len(), 1);
}

#[test]
fn a_full_thread_under_an_unstarted_id_refuses_the_send() {
    let config = Config { max_message_amount: 1, ..test_config() };
    let mut uke = Pallet::new(config);
    let earlier = Message { sender: 9, recipient: 8, time: 0, message: bytes("old") };
    assert_eq!(uke.put_thread(bytes("fresh"), vec![earlier.clone()]), Ok(()));
    assert!(!uke.isactive(&bytes("fresh")));
    let before = uke.clone();
    assert_eq!(
        send_named(&mut uke, 1, "a", 1, "fresh", 2, "bob", "alice"),
        Err(Error::ConversationLimitReached)
    );
    assert!(!uke.isactive(&bytes("fresh")));
    assert!(uke.active(1).is_empty());
    assert!(uke.active(2).is_empty());
    assert_eq!(uke.conversations(&bytes("fresh")).into_inner(), vec![earlier]);
    assert!(uke.events().is_empty());
    assert_eq!(uke, before);
}

#[test]
fn put_thread_takes_what_fits() {
    let config = Config { max_message_amount: 2, ..test_config() };
    let mut uke = Pallet::new(config);
    let m = |time: u64| Message { sender: 1, recipient: 2, time, message: bytes("m") };
    assert_eq!(uke.put_thread(bytes("c"), vec![m(1), m(2)]), Ok(()));
    assert_eq!(uke.conversations(&bytes("c")).into_inner(), vec![m(1), m(2)]);
    assert_eq!(uke.put_thread(bytes("c"), vec![m(3)]), Ok(()));
    assert_eq!(uke.conversations(&bytes("c")).into_inner(), vec![m(3)]);
    let before = uke.clone();
    assert_eq!(
        uke.put_thread(bytes("c"), vec![m(1), m(2), m(3)]),
        Err(Error::ConversationLimitReached)
    );
    assert_eq!(uke.put_thread(bytes("0123456789a"), Vec::new()), Err(Error::InvalidConvoId));
    assert_eq!(
        uke.put_thread(bytes("0123456789a"), vec![m(1), m(2), m(3)]),
        Err(Error::InvalidConvoId)
    );
    assert_eq!(uke, before);
    assert!(uke.events().is_empty());
    assert!(!uke.isactive(&bytes("c")));
}

#[test]
fn put_started_marks_the_conversation_only() {
    let mut uke = Pallet::new(test_config());
    assert_eq!(uke.put_started(bytes("c")), Ok(()));
    assert!(uke.isactive(&bytes("c")));
    assert!(uke.events().is_empty());
    let before = uke.clone();
    assert_eq!(uke.put_started(bytes("0123456789a")), Err(Error::InvalidConvoId));
    assert_eq!(uke, before);
    // A send under a started id files nothing.
    assert_eq!(send(&mut uke, 1, "a", 1, "c", 2), Ok(()));
    assert!(uke.active(1).is_empty());
    assert!(uke.active(2).is_empty());
    assert_eq!(uke.events(), &vec![Event::MessageSent { sender: 1 }]);
}

#[test]
fn put_active_takes_what_fits() {
    let config = Config { max_active_conversation_amount: 2, ..test_config() };
    let mut uke = Pallet::new(config);
    let list = vec![record(1, "a", 2, "b"), record(3, "c", 1, "a")];
    assert_eq!(uke.put_active(1, list.clone()), Ok(()));
    assert_eq!(uke.active(1).into_inner(), list);
    assert!(uke.active(2).is_empty());
    let before = uke.clone();
    let long = vec![record(1, "a", 2, "b"), record(3, "c", 1, "a"), record(1, "a", 4, "d")];
    assert_eq!(uke.put_active(1, long), Err(Error::ConversationLimitReached));
    assert_eq!(uke, before);
    // The list is full: a new conversation of this account is refused.
    assert_eq!(
        send(&mut uke, 1, "a", 1, "new", 5),
        Err(Error::ConversationLimitReached)
    );
    assert_eq!(uke, before);
}

#[test]
fn put_user_files_the_entry_under_its_name() {
    let mut uke = Pallet::new(test_config());
    assert_eq!(uke.put_user(User { account_id: 4, username: bytes("dora") }), Ok(()));
    assert_eq!(uke.username(&bytes("dora")), Some(User { account_id: 4, username: bytes("dora") }));
    assert!(uke.events().is_empty());
    let before = uke.clone();
    assert_eq!(
        uke.put_user(User { account_id: 4, username: bytes("0123456789a") }),
        Err(Error::UsernameExceedsLength)
    );
    assert_eq!(uke, before);
    assert_eq!(uke.register(5, bytes("dora")), Ok(()));
    assert_eq!(uke.username(&bytes("dora")), Some(User { account_id: 5, username: bytes("dora") }));
}
