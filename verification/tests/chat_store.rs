use rustdesk_managed::managed_chat::{ChatConversation, ChatMessage, ChatParticipant};
use rustdesk_managed::managed_chat_store::{
    get_retention, insert_message, list_conversations, list_messages, mark_delivered, mark_read,
    prune_conversation, prune_modifier, purge_conversation, set_retention, upsert_conversation,
    ChatStore, RETENTION_FOREVER, RETENTION_OFF,
};

fn empty() -> ChatStore {
    ChatStore { conversations: vec![], messages: vec![] }
}

fn conversation(id: &str, name: Option<&str>, created_at: &str) -> ChatConversation {
    ChatConversation {
        id: id.to_owned(),
        conversation_type: "direct".to_owned(),
        name: name.map(|name| name.to_owned()),
        created_at: created_at.to_owned(),
        participants: vec![ChatParticipant {
            device_id: "device-2".to_owned(),
            friendly_name: None,
            hostname: "peer".to_owned(),
        }],
    }
}

fn message(id: &str, sent_at: &str) -> ChatMessage {
    ChatMessage {
        id: id.to_owned(),
        sender_device_id: "device-2".to_owned(),
        body: format!("body of {}", id),
        sent_at: sent_at.to_owned(),
        delivered_to: vec![],
    }
}

fn receive(store: &mut ChatStore, conversation_id: &str, id: &str, sent_at: &str) {
    insert_message(store, conversation_id, &message(id, sent_at), false, true, None);
}

fn ids(store: &ChatStore, conversation_id: &str) -> Vec<String> {
    list_messages(store, conversation_id).into_iter().map(|message| message.id).collect()
}

#[test]
fn conversations_are_noted_and_refreshed() {
    let mut store = empty();
    upsert_conversation(&mut store, &conversation("c-1", Some("old"), "2026-01-01"));
    set_retention(&mut store, "c-1", 30, None);
    let mut news = conversation("c-1", None, "2026-09-09");
    news.conversation_type = "group".to_owned();
    news.participants.clear();
    upsert_conversation(&mut store, &news);
    assert_eq!(store.conversations.len(), 1);
    let row = &store.conversations[0];
    assert_eq!(row.conversation_type, "group");
    assert_eq!(row.name, None);
    assert!(row.participants.is_empty());
    // Local choices and the time of creation stay.
    assert_eq!(row.created_at, "2026-01-01");
    assert_eq!(row.retention_days, 30);
    upsert_conversation(&mut store, &conversation("c-2", None, "x"));
    assert_eq!(store.conversations.len(), 2);
    assert_eq!(get_retention(&store, "c-2"), RETENTION_FOREVER);
}

#[test]
fn retention_is_what_was_set() {
    let mut store = empty();
    assert_eq!(get_retention(&store, "c-1"), -1);
    set_retention(&mut store, "c-1", 7, None);
    assert_eq!(get_retention(&store, "c-1"), -1);
    upsert_conversation(&mut store, &conversation("c-1", None, "x"));
    upsert_conversation(&mut store, &conversation("c-2", None, "x"));
    set_retention(&mut store, "c-1", 7, None);
    assert_eq!(get_retention(&store, "c-1"), 7);
    assert_eq!(get_retention(&store, "c-2"), -1);
}

#[test]
fn repeated_message_is_kept_once() {
    let mut store = empty();
    receive(&mut store, "c-1", "m-1", "2026-01-01");
    receive(&mut store, "c-2", "m-1", "2026-02-02");
    assert_eq!(store.messages.len(), 1);
    assert_eq!(store.messages[0].conversation_id, "c-1");
    assert_eq!(store.messages[0].message.body, "body of m-1");
    assert_eq!(store.messages[0].message.sent_at, "2026-01-01");
}

#[test]
fn own_messages_are_read_already() {
    let mut store = empty();
    insert_message(&mut store, "c-1", &message("m-1", "1"), true, false, None);
    receive(&mut store, "c-1", "m-2", "2");
    assert!(store.messages[0].message.is_read);
    assert!(!store.messages[0].message.delivered);
    assert!(!store.messages[1].message.is_read);
    assert!(store.messages[1].message.delivered);
}

#[test]
fn deliveries_are_noted() {
    let mut store = empty();
    insert_message(&mut store, "c-1", &message("m-1", "1"), true, false, None);
    insert_message(&mut store, "c-1", &message("m-2", "2"), true, false, None);
    mark_delivered(&mut store, "m-2");
    mark_delivered(&mut store, "m-9");
    let flags: Vec<bool> = store.messages.iter().map(|row| row.message.delivered).collect();
    assert_eq!(flags, vec![false, true]);
}

#[test]
fn reading_clears_unread_messages() {
    let mut store = empty();
    upsert_conversation(&mut store, &conversation("c-1", None, "1"));
    upsert_conversation(&mut store, &conversation("c-2", None, "0"));
    receive(&mut store, "c-1", "m-1", "5");
    receive(&mut store, "c-1", "m-2", "6");
    receive(&mut store, "c-2", "m-3", "4");
    let counts = |store: &ChatStore| -> Vec<(String, i64)> {
        list_conversations(store).into_iter().map(|c| (c.id, c.unread_count)).collect()
    };
    assert_eq!(counts(&store), vec![("c-1".to_owned(), 2), ("c-2".to_owned(), 1)]);
    mark_read(&mut store, "c-1", None);
    assert_eq!(counts(&store), vec![("c-1".to_owned(), 0), ("c-2".to_owned(), 1)]);
}

#[test]
fn pruning_drops_what_is_too_old() {
    let mut store = empty();
    upsert_conversation(&mut store, &conversation("c-1", None, "1"));
    receive(&mut store, "c-1", "m-1", "2026-01-01 00:00:00");
    receive(&mut store, "c-1", "m-2", "2026-01-02 00:00:00");
    receive(&mut store, "c-1", "m-3", "2026-01-03 00:00:00");
    receive(&mut store, "c-2", "m-4", "2025-01-01 00:00:00");
    // Kept for ever, and kept while the window is open: nothing goes.
    prune_conversation(&mut store, "c-1", Some("2026-01-03 00:00:00"));
    set_retention(&mut store, "c-1", RETENTION_OFF, Some("2026-01-03 00:00:00"));
    assert_eq!(store.messages.len(), 4);
    // Without a time to prune by nothing goes either.
    set_retention(&mut store, "c-1", 30, None);
    assert_eq!(store.messages.len(), 4);
    prune_conversation(&mut store, "c-1", Some("2026-01-02 00:00:00"));
    assert_eq!(ids(&store, "c-1"), vec!["m-2", "m-3"]);
    mark_read(&mut store, "c-1", Some("2026-01-02 00:00:01"));
    assert_eq!(ids(&store, "c-1"), vec!["m-3"]);
    insert_message(
        &mut store,
        "c-1",
        &message("m-5", "2026-01-05"),
        false,
        true,
        Some("2026-01-04"),
    );
    assert_eq!(ids(&store, "c-1"), vec!["m-5"]);
    set_retention(&mut store, "c-1", 1, Some("2026-01-06"));
    assert!(ids(&store, "c-1").is_empty());
    assert_eq!(ids(&store, "c-2"), vec!["m-4"]);
}

#[test]
fn pruning_goes_back_by_days() {
    assert_eq!(prune_modifier(RETENTION_FOREVER), None);
    assert_eq!(prune_modifier(RETENTION_OFF), None);
    assert_eq!(prune_modifier(30).as_deref(), Some("-30 days"));
    assert_eq!(prune_modifier(-5).as_deref(), Some("--5 days"));
    assert_eq!(
        prune_modifier(i64::MIN).as_deref(),
        Some("--9223372036854775808 days")
    );
}

#[test]
fn purging_drops_a_whole_conversation() {
    let mut store = empty();
    receive(&mut store, "c-1", "m-1", "1");
    receive(&mut store, "c-2", "m-2", "2");
    insert_message(&mut store, "c-1", &message("m-3", "3"), true, true, None);
    purge_conversation(&mut store, "c-1");
    assert!(ids(&store, "c-1").is_empty());
    assert_eq!(ids(&store, "c-2"), vec!["m-2"]);
}

#[test]
fn messages_are_listed_by_time() {
    let mut store = empty();
    for (id, sent_at) in [("m-1", "b"), ("m-2", "a"), ("m-3", "c"), ("m-4", "a"), ("m-5", "")] {
        receive(&mut store, "c-1", id, sent_at);
    }
    receive(&mut store, "c-2", "m-6", "a");
    assert_eq!(ids(&store, "c-1"), vec!["m-5", "m-2", "m-4", "m-1", "m-3"]);
    assert!(ids(&store, "c-3").is_empty());
}

#[test]
fn conversations_are_listed_by_activity() {
    let mut store = empty();
    upsert_conversation(&mut store, &conversation("c-1", None, "2026-01-05"));
    upsert_conversation(&mut store, &conversation("c-2", Some("two"), "2026-01-01"));
    upsert_conversation(&mut store, &conversation("c-3", None, "2026-01-05"));
    upsert_conversation(&mut store, &conversation("c-4", None, "2026-01-09"));
    receive(&mut store, "c-2", "m-1", "2026-01-07");
    receive(&mut store, "c-2", "m-2", "2026-01-08");
    receive(&mut store, "c-2", "m-3", "2026-01-08");
    receive(&mut store, "c-4", "m-4", "2025-12-31");
    let listed = list_conversations(&store);
    let order: Vec<&str> = listed.iter().map(|c| c.id.as_str()).collect();
    assert_eq!(order, vec!["c-2", "c-1", "c-3", "c-4"]);
    let two = &listed[0];
    assert_eq!(two.name.as_deref(), Some("two"));
    assert_eq!(two.participants[0].hostname, "peer");
    assert_eq!(two.unread_count, 3);
    // Of two at the same time the later one is the last message, as it is in the list.
    assert_eq!(two.last_message.as_ref().unwrap().id, "m-3");
    assert_eq!(ids(&store, "c-2").last().unwrap(), "m-3");
    assert!(listed[1].last_message.is_none());
}
