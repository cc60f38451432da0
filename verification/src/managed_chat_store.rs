//! The chat history that this device keeps. The server is a delivery mailbox only: once a
//! message is gone there, this is the only copy. Each conversation has its own retention,
//! set and enforced on this machine alone.

use crate::managed_chat::{ChatConversation, ChatMessage, ChatParticipant};
use crate::ordering::{
    ascending, descending, has_key, law_rearranging_loses_nothing, lemma_filter_push,
    lemma_insert_ascending, lemma_insert_descending, lemma_insert_rearranged, rearranged,
    with_key,
};
use crate::text::{
    borrowed_view, copied_text, joined, lemma_precedes_strict, lemma_precedes_total,
    lemma_precedes_transitive, optional_view, precedes, same_text, signed_decimal,
    signed_decimal_text, text_precedes,
};
use vstd::prelude::*;
use vstd::string::*;

verus! {

// Retention, in days. FOREVER never prunes by age; OFF keeps messages only for as long as
// the conversation's window stays open, and is enforced when that window closes.
pub const RETENTION_FOREVER: i64 = -1;

pub const RETENTION_OFF: i64 = 0;

/// The retention of a conversation for which none was set.
pub const DEFAULT_RETENTION_DAYS: i64 = -1;

#[derive(Debug, Clone)]
pub struct LocalMessage {
    pub id: String,
    pub sender_device_id: String,
    pub body: String,
    pub sent_at: String,
    pub is_read: bool,
    pub delivered: bool,
}

#[derive(Debug, Clone)]
pub struct LocalConversation {
    pub id: String,
    pub conversation_type: String,
    pub name: Option<String>,
    pub created_at: String,
    pub participants: Vec<ChatParticipant>,
    pub retention_days: i64,
    pub last_message: Option<LocalMessage>,
    pub unread_count: i64,
}

/// A conversation that this device knows.
pub struct ConversationRow {
    pub id: String,
    pub conversation_type: String,
    pub name: Option<String>,
    pub created_at: String,
    pub participants: Vec<ChatParticipant>,
    pub retention_days: i64,
}

/// A message that this device keeps.
pub struct MessageRow {
    pub conversation_id: String,
    pub message: LocalMessage,
}

/// Everything that this device keeps, each list in the order in which things came.
pub struct ChatStore {
    pub conversations: Vec<ConversationRow>,
    pub messages: Vec<MessageRow>,
}

pub struct ParticipantView {
    pub device_id: Seq<char>,
    pub friendly_name: Option<Seq<char>>,
    pub hostname: Seq<char>,
}

pub struct ConversationView {
    pub id: Seq<char>,
    pub conversation_type: Seq<char>,
    pub name: Option<Seq<char>>,
    pub created_at: Seq<char>,
    pub participants: Seq<ParticipantView>,
    pub retention_days: i64,
}

pub struct LocalMessageView {
    pub id: Seq<char>,
    pub sender_device_id: Seq<char>,
    pub body: Seq<char>,
    pub sent_at: Seq<char>,
    pub is_read: bool,
    pub delivered: bool,
}

pub struct MessageView {
    pub conversation_id: Seq<char>,
    pub message: LocalMessageView,
}

pub struct SummaryView {
    pub conversation: ConversationView,
    pub last_message: Option<LocalMessageView>,
    pub unread_count: int,
}

pub struct StoreView {
    pub conversations: Seq<ConversationView>,
    pub messages: Seq<MessageView>,
}

impl View for ChatParticipant {
    type V = ParticipantView;

    open spec fn view(&self) -> ParticipantView {
        ParticipantView {
            device_id: self.device_id@,
            friendly_name: optional_view(self.friendly_name),
            hostname: self.hostname@,
        }
    }
}

pub open spec fn participant_views(items: Seq<ChatParticipant>) -> Seq<ParticipantView> {
    Seq::new(items.len(), |i: int| items[i]@)
}

impl View for ConversationRow {
    type V = ConversationView;

    open spec fn view(&self) -> ConversationView {
        ConversationView {
            id: self.id@,
            conversation_type: self.conversation_type@,
            name: optional_view(self.name),
            created_at: self.created_at@,
            participants: participant_views(self.participants@),
            retention_days: self.retention_days,
        }
    }
}

impl View for LocalMessage {
    type V = LocalMessageView;

    open spec fn view(&self) -> LocalMessageView {
        LocalMessageView {
            id: self.id@,
            sender_device_id: self.sender_device_id@,
            body: self.body@,
            sent_at: self.sent_at@,
            is_read: self.is_read,
            delivered: self.delivered,
        }
    }
}

impl View for MessageRow {
    type V = MessageView;

    open spec fn view(&self) -> MessageView {
        MessageView { conversation_id: self.conversation_id@, message: self.message@ }
    }
}

impl View for LocalConversation {
    type V = SummaryView;

    open spec fn view(&self) -> SummaryView {
        SummaryView {
            conversation: ConversationView {
                id: self.id@,
                conversation_type: self.conversation_type@,
                name: optional_view(self.name),
                created_at: self.created_at@,
                participants: participant_views(self.participants@),
                retention_days: self.retention_days,
            },
            last_message: match self.last_message {
                Some(message) => Some(message@),
                None => None,
            },
            unread_count: self.unread_count as int,
        }
    }
}

pub open spec fn conversation_views(rows: Seq<ConversationRow>) -> Seq<ConversationView> {
    Seq::new(rows.len(), |i: int| rows[i]@)
}

pub open spec fn message_views(rows: Seq<MessageRow>) -> Seq<MessageView> {
    Seq::new(rows.len(), |i: int| rows[i]@)
}

pub open spec fn local_views(items: Seq<LocalMessage>) -> Seq<LocalMessageView> {
    Seq::new(items.len(), |i: int| items[i]@)
}

pub open spec fn summary_views(items: Seq<LocalConversation>) -> Seq<SummaryView> {
    Seq::new(items.len(), |i: int| items[i]@)
}

impl View for ChatStore {
    type V = StoreView;

    open spec fn view(&self) -> StoreView {
        StoreView {
            conversations: conversation_views(self.conversations@),
            messages: message_views(self.messages@),
        }
    }
}

/// A conversation of this id is known.
pub open spec fn conversation_known(rows: Seq<ConversationView>, id: Seq<char>) -> bool {
    exists|i: int| 0 <= i < rows.len() && (#[trigger] rows[i]).id == id
}

/// A message of this id is kept.
pub open spec fn message_known(rows: Seq<MessageView>, id: Seq<char>) -> bool {
    exists|i: int| 0 <= i < rows.len() && (#[trigger] rows[i]).message.id == id
}

impl StoreView {
    /// No two conversations and no two messages have the same id.
    pub open spec fn well_formed(self) -> bool {
        &&& forall|i: int, j: int|
            0 <= i < j < self.conversations.len() ==> (#[trigger] self.conversations[i]).id != (
            #[trigger] self.conversations[j]).id
        &&& forall|i: int, j: int|
            0 <= i < j < self.messages.len() ==> (#[trigger] self.messages[i]).message.id != (
            #[trigger] self.messages[j]).message.id
    }
}

/// The retention of the conversation `id`; the default where it is not known.
pub open spec fn retention_of(rows: Seq<ConversationView>, id: Seq<char>) -> i64
    decreases rows.len(),
{
    if rows.len() == 0 {
        DEFAULT_RETENTION_DAYS
    } else if rows[0].id == id {
        rows[0].retention_days
    } else {
        retention_of(rows.skip(1), id)
    }
}

/// What a conversation is as the server knows it.
pub open spec fn conversation_view(conversation: ChatConversation) -> ConversationView {
    ConversationView {
        id: conversation.id@,
        conversation_type: conversation.conversation_type@,
        name: optional_view(conversation.name),
        created_at: conversation.created_at@,
        participants: participant_views(conversation.participants@),
        retention_days: DEFAULT_RETENTION_DAYS,
    }
}

/// A known conversation with what the server says of it now. When it was created and how
/// long its messages are kept stay as they are.
pub open spec fn refreshed(row: ConversationView, news: ConversationView) -> ConversationView {
    ConversationView {
        conversation_type: news.conversation_type,
        name: news.name,
        participants: news.participants,
        ..row
    }
}

/// The conversations after the server told of one.
pub open spec fn upserted(rows: Seq<ConversationView>, news: ConversationView) -> Seq<
    ConversationView,
> {
    if conversation_known(rows, news.id) {
        Seq::new(
            rows.len(),
            |i: int|
                if rows[i].id == news.id {
                    refreshed(rows[i], news)
                } else {
                    rows[i]
                },
        )
    } else {
        rows.push(news)
    }
}

/// The conversations after the retention of one was set.
pub open spec fn with_retention(rows: Seq<ConversationView>, id: Seq<char>, days: i64) -> Seq<
    ConversationView,
> {
    Seq::new(
        rows.len(),
        |i: int|
            if rows[i].id == id {
                ConversationView { retention_days: days, ..rows[i] }
            } else {
                rows[i]
            },
    )
}

/// The message as it is kept: one that this device sent counts as read.
pub open spec fn kept_message(
    conversation_id: Seq<char>,
    message: ChatMessage,
    is_from_self: bool,
    delivered: bool,
) -> MessageView {
    MessageView {
        conversation_id,
        message: LocalMessageView {
            id: message.id@,
            sender_device_id: message.sender_device_id@,
            body: message.body@,
            sent_at: message.sent_at@,
            is_read: is_from_self,
            delivered,
        },
    }
}

/// The messages after one came; one whose id is kept already changes nothing.
pub open spec fn with_message(rows: Seq<MessageView>, row: MessageView) -> Seq<MessageView> {
    if message_known(rows, row.message.id) {
        rows
    } else {
        rows.push(row)
    }
}

/// The messages after the one of this id was delivered.
pub open spec fn with_delivery(rows: Seq<MessageView>, message_id: Seq<char>) -> Seq<MessageView> {
    Seq::new(
        rows.len(),
        |i: int|
            if rows[i].message.id == message_id {
                MessageView {
                    message: LocalMessageView { delivered: true, ..rows[i].message },
                    ..rows[i]
                }
            } else {
                rows[i]
            },
    )
}

/// The messages after those of a conversation were read.
pub open spec fn with_reading(rows: Seq<MessageView>, conversation_id: Seq<char>) -> Seq<
    MessageView,
> {
    Seq::new(
        rows.len(),
        |i: int|
            if rows[i].conversation_id == conversation_id {
                MessageView {
                    message: LocalMessageView { is_read: true, ..rows[i].message },
                    ..rows[i]
                }
            } else {
                rows[i]
            },
    )
}

/// The message is of another conversation, or was not sent before `cutoff`.
pub open spec fn stays(conversation_id: Seq<char>, cutoff: Option<Seq<char>>) -> spec_fn(
    MessageView,
) -> bool {
    |row: MessageView|
        row.conversation_id != conversation_id || (cutoff is Some && !precedes(
            row.message.sent_at,
            cutoff->0,
        ))
}

/// Messages of this retention are pruned by their age.
pub open spec fn prunes(retention_days: i64) -> bool {
    retention_days != RETENTION_FOREVER && retention_days != RETENTION_OFF
}

/// The store after a conversation was pruned: where its retention prunes by age and there
/// is a time to prune by, its messages from before that time are gone.
pub open spec fn pruned(
    store: StoreView,
    conversation_id: Seq<char>,
    cutoff: Option<Seq<char>>,
) -> StoreView {
    if prunes(retention_of(store.conversations, conversation_id)) && cutoff is Some {
        StoreView {
            messages: store.messages.filter(stays(conversation_id, cutoff)),
            ..store
        }
    } else {
        store
    }
}

/// How far back messages of a retention are kept, as a time modifier of the database;
/// nothing where they are not pruned by age.
pub fn prune_modifier(retention_days: i64) -> (r: Option<String>)
    ensures
        r is Some <==> prunes(retention_days),
        r matches Some(text) ==> text@ == "-"@ + signed_decimal(retention_days as int) + " days"@,
{
    if retention_days != RETENTION_FOREVER && retention_days != RETENTION_OFF {
        Some(
            joined("-", signed_decimal_text(retention_days).as_str()).concat(" days"),
        )
    } else {
        None
    }
}

fn copied_participants(items: &Vec<ChatParticipant>) -> (r: Vec<ChatParticipant>)
    ensures
        r@ == items@,
{
    let mut out: Vec<ChatParticipant> = Vec::new();
    let mut i: usize = 0;
    while i < items.len()
        invariant
            i <= items@.len(),
            out@ == items@.take(i as int),
        decreases items@.len() - i,
    {
        let item = &items[i];
        out.push(
            ChatParticipant {
                device_id: item.device_id.clone(),
                friendly_name: copied_text(&item.friendly_name),
                hostname: item.hostname.clone(),
            },
        );
        proof {
            assert(items@.take(i as int + 1) == items@.take(i as int).push(items@[i as int]));
        }
        i += 1;
    }
    proof {
        assert(items@.take(items@.len() as int) == items@);
    }
    out
}

fn copied_message(message: &LocalMessage) -> (r: LocalMessage)
    ensures
        r == *message,
{
    LocalMessage {
        id: message.id.clone(),
        sender_device_id: message.sender_device_id.clone(),
        body: message.body.clone(),
        sent_at: message.sent_at.clone(),
        is_read: message.is_read,
        delivered: message.delivered,
    }
}

/// Notes a conversation, or refreshes what is known of it. The retention of a known one is
/// a local choice and stays as it is.
pub fn upsert_conversation(store: &mut ChatStore, conversation: &ChatConversation)
    ensures
        final(store)@ == (StoreView {
            conversations: upserted(
                old(store)@.conversations,
                conversation_view(*conversation),
            ),
            ..old(store)@
        }),
        old(store)@.well_formed() ==> final(store)@.well_formed(),
{
    let ghost rows = old(store)@.conversations;
    let ghost news = conversation_view(*conversation);
    let mut known = false;
    let mut i: usize = 0;
    while i < store.conversations.len()
        invariant
            i <= store.conversations@.len(),
            store.conversations@.len() == rows.len(),
            store.messages == old(store).messages,
            news == conversation_view(*conversation),
            known == exists|j: int| 0 <= j < i && (#[trigger] rows[j]).id == news.id,
            forall|j: int|
                0 <= j < i ==> (#[trigger] store.conversations@[j])@ == (if rows[j].id == news.id {
                    refreshed(rows[j], news)
                } else {
                    rows[j]
                }),
            forall|j: int|
                i <= j < rows.len() ==> (#[trigger] store.conversations@[j])@ == rows[j],
        decreases store.conversations@.len() - i,
    {
        proof {
            assert(store.conversations@[i as int]@ == rows[i as int]);
        }
        if store.conversations[i].id == conversation.id {
            let row = ConversationRow {
                id: store.conversations[i].id.clone(),
                conversation_type: conversation.conversation_type.clone(),
                name: copied_text(&conversation.name),
                created_at: store.conversations[i].created_at.clone(),
                participants: copied_participants(&conversation.participants),
                retention_days: store.conversations[i].retention_days,
            };
            store.conversations.set(i, row);
            known = true;
            proof {
                assert(rows[i as int].id == news.id);
            }
        }
        i += 1;
    }
    if !known {
        let row = ConversationRow {
            id: conversation.id.clone(),
            conversation_type: conversation.conversation_type.clone(),
            name: copied_text(&conversation.name),
            created_at: conversation.created_at.clone(),
            participants: copied_participants(&conversation.participants),
            retention_days: DEFAULT_RETENTION_DAYS,
        };
        store.conversations.push(row);
    }
    proof {
        assert(conversation_views(store.conversations@) =~= upserted(rows, news));
        assert(store@ == StoreView { conversations: upserted(rows, news), ..old(store)@ });
    }
}

/// How long the messages of a conversation are kept, in days.
pub fn get_retention(store: &ChatStore, conversation_id: &str) -> (r: i64)
    ensures
        r == retention_of(store@.conversations, conversation_id@),
{
    let ghost rows = store@.conversations;
    let mut i: usize = 0;
    proof {
        assert(rows.skip(0) == rows);
    }
    while i < store.conversations.len()
        invariant
            i <= store.conversations@.len(),
            rows == store@.conversations,
            retention_of(rows, conversation_id@) == retention_of(
                rows.skip(i as int),
                conversation_id@,
            ),
        decreases store.conversations@.len() - i,
    {
        proof {
            assert(rows.skip(i as int)[0] == store.conversations@[i as int]@);
            assert(rows.skip(i as int).skip(1) == rows.skip(i as int + 1));
        }
        if same_text(store.conversations[i].id.as_str(), conversation_id) {
            return store.conversations[i].retention_days;
        }
        i += 1;
    }
    DEFAULT_RETENTION_DAYS
}

fn kept_messages(
    messages: Vec<MessageRow>,
    conversation_id: &str,
    cutoff: Option<&str>,
) -> (r: Vec<MessageRow>)
    ensures
        message_views(r@) == message_views(messages@).filter(
            stays(conversation_id@, borrowed_view(cutoff)),
        ),
{
    let ghost rows = messages@;
    let ghost keep = stays(conversation_id@, borrowed_view(cutoff));
    let mut kept: Vec<MessageRow> = Vec::new();
    proof {
        reveal(Seq::filter);
        assert(message_views(rows.take(0)).filter(keep) =~= message_views(kept@));
    }
    for row in it: messages.into_iter()
        invariant
            it.seq() == rows,
            keep == stays(conversation_id@, borrowed_view(cutoff)),
            message_views(kept@) == message_views(rows.take(it.index() as int)).filter(keep),
    {
        let ghost front = message_views(rows.take(it.index() as int));
        let ghost before = kept@;
        proof {
            assert(message_views(rows.take(it.index() as int + 1)) =~= front.push(row@));
            lemma_filter_push(front, keep, row@);
        }
        let old_enough = match cutoff {
            Some(cutoff) => text_precedes(row.message.sent_at.as_str(), cutoff),
            None => true,
        };
        if !(same_text(row.conversation_id.as_str(), conversation_id) && old_enough) {
            kept.push(row);
            proof {
                assert(message_views(kept@) =~= message_views(before).push(row@));
            }
        }
    }
    proof {
        assert(rows.take(rows.len() as int) == rows);
    }
    kept
}

proof fn lemma_filter_keeps_ids_apart(rows: Seq<MessageView>, keep: spec_fn(MessageView) -> bool)
    requires
        forall|i: int, j: int|
            0 <= i < j < rows.len() ==> (#[trigger] rows[i]).message.id != (
            #[trigger] rows[j]).message.id,
    ensures
        forall|i: int, j: int|
            0 <= i < j < rows.filter(keep).len() ==> (#[trigger] rows.filter(keep)[i]).message.id
                != (#[trigger] rows.filter(keep)[j]).message.id,
    decreases rows.len(),
{
    reveal(Seq::filter);
    if rows.len() > 0 {
        let front = rows.drop_last();
        lemma_filter_keeps_ids_apart(front, keep);
        let kept = front.filter(keep);
        assert forall|i: int| 0 <= i < kept.len() implies (#[trigger] kept[i]).message.id
            != rows.last().message.id by {
            assert(kept.contains(kept[i]));
            front.lemma_filter_contains_rev(keep, kept[i]);
            let j = choose|j: int| 0 <= j < front.len() && front[j] == kept[i];
            assert(front[j] == rows[j]);
            assert(rows[j].message.id != rows[rows.len() - 1].message.id);
        }
    }
}

/// Drops the messages of a conversation that are older than its retention allows, given the
/// time that its retention comes to. A conversation that is kept for ever, or only while its
/// window is open, is not pruned: a message must not vanish before it was shown.
pub fn prune_conversation(store: &mut ChatStore, conversation_id: &str, cutoff: Option<&str>)
    ensures
        final(store)@ == pruned(old(store)@, conversation_id@, borrowed_view(cutoff)),
        old(store)@.well_formed() ==> final(store)@.well_formed(),
{
    let retention_days: i64 = get_retention(store, conversation_id);
    if retention_days != RETENTION_FOREVER && retention_days != RETENTION_OFF && cutoff.is_some() {
        let mut messages: Vec<MessageRow> = Vec::new();
        std::mem::swap(&mut messages, &mut store.messages);
        store.messages = kept_messages(messages, conversation_id, cutoff);
        proof {
            if old(store)@.well_formed() {
                lemma_filter_keeps_ids_apart(
                    old(store)@.messages,
                    stays(conversation_id@, borrowed_view(cutoff)),
                );
            }
        }
    }
}

/// Keeps a message that was just sent or received, and prunes its conversation. One that
/// this device sent counts as read. A received one is delivered; of a sent one `delivered`
/// says whether the recipient was connected.
pub fn insert_message(
    store: &mut ChatStore,
    conversation_id: &str,
    message: &ChatMessage,
    is_from_self: bool,
    delivered: bool,
    cutoff: Option<&str>,
)
    ensures
        final(store)@ == pruned(
            StoreView {
                messages: with_message(
                    old(store)@.messages,
                    kept_message(conversation_id@, *message, is_from_self, delivered),
                ),
                ..old(store)@
            },
            conversation_id@,
            borrowed_view(cutoff),
        ),
        old(store)@.well_formed() ==> final(store)@.well_formed(),
{
    let ghost rows = old(store)@.messages;
    let ghost row_view = kept_message(conversation_id@, *message, is_from_self, delivered);
    let mut known = false;
    let mut i: usize = 0;
    while i < store.messages.len()
        invariant
            i <= store.messages@.len(),
            rows == store@.messages,
            *store == *old(store),
            known == exists|j: int| 0 <= j < i && (#[trigger] rows[j]).message.id == message.id@,
        decreases store.messages@.len() - i,
    {
        proof {
            assert(rows[i as int] == store.messages@[i as int]@);
        }
        if store.messages[i].message.id == message.id {
            known = true;
        }
        i += 1;
    }
    if !known {
        let row = MessageRow {
            conversation_id: conversation_id.to_owned(),
            message: LocalMessage {
                id: message.id.clone(),
                sender_device_id: message.sender_device_id.clone(),
                body: message.body.clone(),
                sent_at: message.sent_at.clone(),
                is_read: is_from_self,
                delivered,
            },
        };
        store.messages.push(row);
        proof {
            assert(store@.messages =~= rows.push(row_view));
        }
    }
    proof {
        assert(store@ == StoreView { messages: with_message(rows, row_view), ..old(store)@ });
        if old(store)@.well_formed() && !known {
            assert forall|i: int, j: int| 0 <= i < j < store@.messages.len() implies (
            #[trigger] store@.messages[i]).message.id != (
            #[trigger] store@.messages[j]).message.id by {
                assert(store@.messages[i] == rows[i]);
                if j < rows.len() {
                    assert(store@.messages[j] == rows[j]);
                }
            }
        }
    }
    prune_conversation(store, conversation_id, cutoff);
}

/// Notes that a message of this device has reached its recipient.
pub fn mark_delivered(store: &mut ChatStore, message_id: &str)
    ensures
        final(store)@ == (StoreView {
            messages: with_delivery(old(store)@.messages, message_id@),
            ..old(store)@
        }),
        old(store)@.well_formed() ==> final(store)@.well_formed(),
{
    let ghost rows = old(store)@.messages;
    let mut i: usize = 0;
    while i < store.messages.len()
        invariant
            i <= store.messages@.len(),
            store.messages@.len() == rows.len(),
            store.conversations == old(store).conversations,
            forall|j: int|
                0 <= j < i ==> (#[trigger] store.messages@[j])@ == with_delivery(
                    rows,
                    message_id@,
                )[j],
            forall|j: int| i <= j < rows.len() ==> (#[trigger] store.messages@[j])@ == rows[j],
        decreases store.messages@.len() - i,
    {
        proof {
            assert(store.messages@[i as int]@ == rows[i as int]);
        }
        if same_text(store.messages[i].message.id.as_str(), message_id) {
            let row = MessageRow {
                conversation_id: store.messages[i].conversation_id.clone(),
                message: LocalMessage {
                    delivered: true,
                    ..copied_message(&store.messages[i].message)
                },
            };
            store.messages.set(i, row);
        }
        i += 1;
    }
    proof {
        assert(store@.messages =~= with_delivery(rows, message_id@));
        assert(store@ == StoreView { messages: with_delivery(rows, message_id@), ..old(store)@ });
    }
}

/// Notes that the messages of a conversation were read, and prunes it.
pub fn mark_read(store: &mut ChatStore, conversation_id: &str, cutoff: Option<&str>)
    ensures
        final(store)@ == pruned(
            StoreView {
                messages: with_reading(old(store)@.messages, conversation_id@),
                ..old(store)@
            },
            conversation_id@,
            borrowed_view(cutoff),
        ),
        old(store)@.well_formed() ==> final(store)@.well_formed(),
{
    let ghost rows = old(store)@.messages;
    let mut i: usize = 0;
    while i < store.messages.len()
        invariant
            i <= store.messages@.len(),
            store.messages@.len() == rows.len(),
            store.conversations == old(store).conversations,
            forall|j: int|
                0 <= j < i ==> (#[trigger] store.messages@[j])@ == with_reading(
                    rows,
                    conversation_id@,
                )[j],
            forall|j: int| i <= j < rows.len() ==> (#[trigger] store.messages@[j])@ == rows[j],
        decreases store.messages@.len() - i,
    {
        proof {
            assert(store.messages@[i as int]@ == rows[i as int]);
        }
        if same_text(store.messages[i].conversation_id.as_str(), conversation_id) {
            let row = MessageRow {
                conversation_id: store.messages[i].conversation_id.clone(),
                message: LocalMessage {
                    is_read: true,
                    ..copied_message(&store.messages[i].message)
                },
            };
            store.messages.set(i, row);
        }
        i += 1;
    }
    proof {
        assert(store@.messages =~= with_reading(rows, conversation_id@));
        assert(store@ == StoreView {
            messages: with_reading(rows, conversation_id@),
            ..old(store)@
        });
    }
    prune_conversation(store, conversation_id, cutoff);
}

/// Sets how long the messages of a conversation are kept, and prunes it.
pub fn set_retention(
    store: &mut ChatStore,
    conversation_id: &str,
    retention_days: i64,
    cutoff: Option<&str>,
)
    ensures
        final(store)@ == pruned(
            StoreView {
                conversations: with_retention(
                    old(store)@.conversations,
                    conversation_id@,
                    retention_days,
                ),
                ..old(store)@
            },
            conversation_id@,
            borrowed_view(cutoff),
        ),
        old(store)@.well_formed() ==> final(store)@.well_formed(),
{
    let ghost rows = old(store)@.conversations;
    let mut i: usize = 0;
    while i < store.conversations.len()
        invariant
            i <= store.conversations@.len(),
            store.conversations@.len() == rows.len(),
            store.messages == old(store).messages,
            forall|j: int|
                0 <= j < i ==> (#[trigger] store.conversations@[j])@ == with_retention(
                    rows,
                    conversation_id@,
                    retention_days,
                )[j],
            forall|j: int|
                i <= j < rows.len() ==> (#[trigger] store.conversations@[j])@ == rows[j],
        decreases store.conversations@.len() - i,
    {
        proof {
            assert(store.conversations@[i as int]@ == rows[i as int]);
        }
        if same_text(store.conversations[i].id.as_str(), conversation_id) {
            let row = ConversationRow {
                id: store.conversations[i].id.clone(),
                conversation_type: store.conversations[i].conversation_type.clone(),
                name: copied_text(&store.conversations[i].name),
                created_at: store.conversations[i].created_at.clone(),
                participants: copied_participants(&store.conversations[i].participants),
                retention_days,
            };
            store.conversations.set(i, row);
        }
        i += 1;
    }
    proof {
        let changed = with_retention(rows, conversation_id@, retention_days);
        assert(store@.conversations =~= changed);
        assert(store@ == StoreView { conversations: changed, ..old(store)@ });
    }
    prune_conversation(store, conversation_id, cutoff);
}

/// Drops every message of a conversation, read or not. This is for a conversation whose
/// messages are kept only while its window is open, when that window closes.
pub fn purge_conversation(store: &mut ChatStore, conversation_id: &str)
    ensures
        final(store)@ == (StoreView {
            messages: old(store)@.messages.filter(stays(conversation_id@, None)),
            ..old(store)@
        }),
        old(store)@.well_formed() ==> final(store)@.well_formed(),
{
    let mut messages: Vec<MessageRow> = Vec::new();
    std::mem::swap(&mut messages, &mut store.messages);
    store.messages = kept_messages(messages, conversation_id, None);
    proof {
        if old(store)@.well_formed() {
            lemma_filter_keeps_ids_apart(
                old(store)@.messages,
                stays(conversation_id@, None),
            );
        }
    }
}

/// The messages of a conversation, in the order in which they came.
pub open spec fn of_conversation(rows: Seq<MessageView>, conversation_id: Seq<char>) -> Seq<
    LocalMessageView,
> {
    rows.filter(|row: MessageView| row.conversation_id == conversation_id).map_values(
        |row: MessageView| row.message,
    )
}

/// Messages go by when they were sent.
pub open spec fn sent_key() -> spec_fn(LocalMessageView) -> Seq<char> {
    |message: LocalMessageView| message.sent_at
}

fn messages_of(store: &ChatStore, conversation_id: &str) -> (r: Vec<LocalMessage>)
    ensures
        local_views(r@) == of_conversation(store@.messages, conversation_id@),
{
    let ghost rows = store@.messages;
    let ghost wanted = |row: MessageView| row.conversation_id == conversation_id@;
    let ghost inner = |row: MessageView| row.message;
    let mut out: Vec<LocalMessage> = Vec::new();
    let mut i: usize = 0;
    proof {
        reveal(Seq::filter);
        assert(rows.take(0).filter(wanted).map_values(inner) =~= local_views(out@));
    }
    while i < store.messages.len()
        invariant
            i <= store.messages@.len(),
            rows == store@.messages,
            wanted == |row: MessageView| row.conversation_id == conversation_id@,
            inner == |row: MessageView| row.message,
            local_views(out@) == rows.take(i as int).filter(wanted).map_values(inner),
        decreases store.messages@.len() - i,
    {
        let row = &store.messages[i];
        let ghost before = out@;
        proof {
            assert(rows.take(i as int + 1) == rows.take(i as int).push(row@));
            lemma_filter_push(rows.take(i as int), wanted, row@);
        }
        if same_text(row.conversation_id.as_str(), conversation_id) {
            out.push(copied_message(&row.message));
            proof {
                assert(local_views(out@) =~= local_views(before).push(row.message@));
                assert(rows.take(i as int + 1).filter(wanted).map_values(inner) =~= rows.take(
                    i as int,
                ).filter(wanted).map_values(inner).push(row.message@));
            }
        }
        i += 1;
    }
    proof {
        assert(rows.take(rows.len() as int) == rows);
    }
    out
}

fn sorted_by_time(messages: Vec<LocalMessage>) -> (r: Vec<LocalMessage>)
    ensures
        ascending(local_views(r@), sent_key()),
        rearranged(local_views(r@), local_views(messages@), sent_key()),
{
    let ghost items = messages@;
    let mut out: Vec<LocalMessage> = Vec::new();
    proof {
        assert(local_views(out@) =~= local_views(items.take(0)));
    }
    for message in it: messages.into_iter()
        invariant
            it.seq() == items,
            ascending(local_views(out@), sent_key()),
            rearranged(
                local_views(out@),
                local_views(items.take(it.index() as int)),
                sent_key(),
            ),
    {
        let ghost front = local_views(items.take(it.index() as int));
        let ghost arranged = local_views(out@);
        let mut at: usize = 0;
        while at < out.len() && !text_precedes(
            message.sent_at.as_str(),
            out[at].message_time(),
        )
            invariant
                at <= out@.len(),
                arranged == local_views(out@),
                forall|i: int|
                    0 <= i < at ==> !precedes(message.sent_at@, (#[trigger] arranged[i]).sent_at),
            decreases out@.len() - at,
        {
            proof {
                assert(arranged[at as int] == out@[at as int]@);
            }
            at += 1;
        }
        proof {
            if at < out@.len() {
                assert(arranged[at as int] == out@[at as int]@);
            }
            lemma_insert_ascending(arranged, sent_key(), at as int, message@);
            lemma_insert_rearranged(arranged, front, sent_key(), at as int, message@);
            assert(local_views(items.take(it.index() as int + 1)) =~= front.push(message@));
            assert(local_views(out@.insert(at as int, message)) =~= arranged.insert(
                at as int,
                message@,
            ));
        }
        out.insert(at, message);
    }
    proof {
        assert(items.take(items.len() as int) == items);
    }
    out
}

impl LocalMessage {
    fn message_time(&self) -> (r: &str)
        ensures
            r@ == self@.sent_at,
    {
        self.sent_at.as_str()
    }
}

/// The messages of a conversation by when they were sent; those of the same time in the
/// order in which they came.
pub fn list_messages(store: &ChatStore, conversation_id: &str) -> (r: Vec<LocalMessage>)
    ensures
        ascending(local_views(r@), sent_key()),
        rearranged(
            local_views(r@),
            of_conversation(store@.messages, conversation_id@),
            sent_key(),
        ),
{
    sorted_by_time(messages_of(store, conversation_id))
}

/// The message that was sent last; of several of the same time the one that came last.
pub open spec fn newest(messages: Seq<LocalMessageView>) -> Option<LocalMessageView>
    decreases messages.len(),
{
    if messages.len() == 0 {
        None
    } else {
        match newest(messages.drop_last()) {
            Some(best) => if precedes(messages.last().sent_at, best.sent_at) {
                Some(best)
            } else {
                Some(messages.last())
            },
            None => Some(messages.last()),
        }
    }
}

/// How many messages of a conversation were not read yet.
pub open spec fn unread(rows: Seq<MessageView>, conversation_id: Seq<char>) -> int {
    of_conversation(rows, conversation_id).filter(
        |message: LocalMessageView| !message.is_read,
    ).len() as int
}

/// What is shown of a conversation in a list.
pub open spec fn summary(rows: Seq<MessageView>, conversation: ConversationView) -> SummaryView {
    SummaryView {
        conversation,
        last_message: newest(of_conversation(rows, conversation.id)),
        unread_count: unread(rows, conversation.id),
    }
}

/// The conversations as they are shown, in the order in which they became known.
pub open spec fn summaries(store: StoreView) -> Seq<SummaryView> {
    Seq::new(
        store.conversations.len(),
        |i: int| summary(store.messages, store.conversations[i]),
    )
}

/// Conversations go by their last message; one without messages by when it was created.
pub open spec fn activity_key() -> spec_fn(SummaryView) -> Seq<char> {
    |conversation: SummaryView|
        match conversation.last_message {
            Some(message) => message.sent_at,
            None => conversation.conversation.created_at,
        }
}

fn newest_of(messages: &Vec<LocalMessage>) -> (r: Option<LocalMessage>)
    ensures
        (match r {
            Some(message) => Some(message@),
            None => None,
        }) == newest(local_views(messages@)),
{
    let ghost items = local_views(messages@);
    let mut best: Option<usize> = None;
    let mut i: usize = 0;
    proof {
        assert(items.take(0).len() == 0);
    }
    while i < messages.len()
        invariant
            i <= messages@.len(),
            items == local_views(messages@),
            best matches Some(b) ==> b < i,
            (match best {
                Some(b) => Some(items[b as int]),
                None => None,
            }) == newest(items.take(i as int)),
        decreases messages@.len() - i,
    {
        proof {
            assert(items.take(i as int + 1).drop_last() == items.take(i as int));
            assert(items.take(i as int + 1).last() == items[i as int]);
        }
        let newer = match best {
            Some(b) => !text_precedes(
                messages[i].sent_at.as_str(),
                messages[b].sent_at.as_str(),
            ),
            None => true,
        };
        if newer {
            best = Some(i);
        }
        i += 1;
    }
    proof {
        assert(items.take(items.len() as int) == items);
    }
    match best {
        Some(b) => Some(copied_message(&messages[b])),
        None => None,
    }
}

fn unread_of(messages: &Vec<LocalMessage>) -> (r: usize)
    ensures
        r == local_views(messages@).filter(|message: LocalMessageView| !message.is_read).len(),
{
    let ghost items = local_views(messages@);
    let ghost pred = |message: LocalMessageView| !message.is_read;
    let mut count: usize = 0;
    let mut i: usize = 0;
    proof {
        reveal(Seq::filter);
        assert(items.take(0).filter(pred).len() == 0);
    }
    while i < messages.len()
        invariant
            i <= messages@.len(),
            count <= i,
            items == local_views(messages@),
            pred == |message: LocalMessageView| !message.is_read,
            count == items.take(i as int).filter(pred).len(),
        decreases messages@.len() - i,
    {
        proof {
            assert(items.take(i as int + 1) == items.take(i as int).push(items[i as int]));
            lemma_filter_push(items.take(i as int), pred, items[i as int]);
        }
        if !messages[i].is_read {
            count += 1;
        }
        i += 1;
    }
    proof {
        assert(items.take(items.len() as int) == items);
    }
    count
}

impl LocalConversation {
    fn activity(&self) -> (r: &str)
        ensures
            r@ == activity_key()(self@),
    {
        match &self.last_message {
            Some(message) => message.sent_at.as_str(),
            None => self.created_at.as_str(),
        }
    }
}

fn summary_of(store: &ChatStore, index: usize) -> (r: LocalConversation)
    requires
        index < store.conversations@.len(),
        store.messages@.len() <= i64::MAX,
    ensures
        r@ == summary(store@.messages, store@.conversations[index as int]),
{
    let row = &store.conversations[index];
    let messages = messages_of(store, row.id.as_str());
    let unread_messages: usize = unread_of(&messages);
    proof {
        lemma_fewer_in_conversation(store@.messages, row.id@);
    }
    LocalConversation {
        id: row.id.clone(),
        conversation_type: row.conversation_type.clone(),
        name: copied_text(&row.name),
        created_at: row.created_at.clone(),
        participants: copied_participants(&row.participants),
        retention_days: row.retention_days,
        last_message: newest_of(&messages),
        unread_count: unread_messages as i64,
    }
}

proof fn lemma_fewer_in_conversation(rows: Seq<MessageView>, conversation_id: Seq<char>)
    ensures
        unread(rows, conversation_id) <= rows.len(),
{
    rows.lemma_filter_len(|row: MessageView| row.conversation_id == conversation_id);
    of_conversation(rows, conversation_id).lemma_filter_len(
        |message: LocalMessageView| !message.is_read,
    );
}

/// The conversations by their last activity, the latest first; those of the same time in
/// the order in which they became known.
pub fn list_conversations(store: &ChatStore) -> (r: Vec<LocalConversation>)
    requires
        store.messages@.len() <= i64::MAX,
    ensures
        descending(summary_views(r@), activity_key()),
        rearranged(summary_views(r@), summaries(store@), activity_key()),
{
    let ghost items = summaries(store@);
    let mut out: Vec<LocalConversation> = Vec::new();
    let mut next: usize = 0;
    proof {
        assert(summary_views(out@) =~= items.take(0));
    }
    while next < store.conversations.len()
        invariant
            next <= store.conversations@.len(),
            store.messages@.len() <= i64::MAX,
            items == summaries(store@),
            descending(summary_views(out@), activity_key()),
            rearranged(summary_views(out@), items.take(next as int), activity_key()),
        decreases store.conversations@.len() - next,
    {
        let conversation = summary_of(store, next);
        let ghost arranged = summary_views(out@);
        let mut at: usize = 0;
        while at < out.len() && !text_precedes(out[at].activity(), conversation.activity())
            invariant
                at <= out@.len(),
                arranged == summary_views(out@),
                forall|i: int|
                    0 <= i < at ==> !precedes(
                        activity_key()(#[trigger] arranged[i]),
                        activity_key()(conversation@),
                    ),
            decreases out@.len() - at,
        {
            proof {
                assert(arranged[at as int] == out@[at as int]@);
            }
            at += 1;
        }
        proof {
            if at < out@.len() {
                assert(arranged[at as int] == out@[at as int]@);
            }
            lemma_insert_descending(arranged, activity_key(), at as int, conversation@);
            lemma_insert_rearranged(
                arranged,
                items.take(next as int),
                activity_key(),
                at as int,
                conversation@,
            );
            assert(items.take(next as int + 1) =~= items.take(next as int).push(conversation@));
            assert(summary_views(out@.insert(at as int, conversation)) =~= arranged.insert(
                at as int,
                conversation@,
            ));
        }
        out.insert(at, conversation);
        next += 1;
    }
    proof {
        assert(items.take(items.len() as int) == items);
    }
    out
}

/// A re-sync never changes how long messages are kept, of any conversation: a known one
/// keeps what was set for it, and a new one starts with the default.
pub proof fn law_sync_keeps_retention(
    rows: Seq<ConversationView>,
    news: ConversationView,
    id: Seq<char>,
)
    requires
        news.retention_days == DEFAULT_RETENTION_DAYS,
    ensures
        retention_of(upserted(rows, news), id) == retention_of(rows, id),
{
    if conversation_known(rows, news.id) {
        lemma_same_retentions(upserted(rows, news), rows, id);
    } else {
        lemma_retention_of_push(rows, news, id);
        if id == news.id {
            lemma_unknown_retention(rows, id);
        }
    }
}

proof fn lemma_same_retentions(
    left: Seq<ConversationView>,
    right: Seq<ConversationView>,
    id: Seq<char>,
)
    requires
        left.len() == right.len(),
        forall|i: int|
            0 <= i < left.len() ==> (#[trigger] left[i]).id == right[i].id
                && left[i].retention_days == right[i].retention_days,
    ensures
        retention_of(left, id) == retention_of(right, id),
    decreases left.len(),
{
    if left.len() > 0 && left[0].id != id {
        assert forall|i: int| 0 <= i < left.skip(1).len() implies (#[trigger] left.skip(1)[i]).id
            == right.skip(1)[i].id && left.skip(1)[i].retention_days == right.skip(
            1,
        )[i].retention_days by {
            assert(left.skip(1)[i] == left[i + 1]);
        }
        lemma_same_retentions(left.skip(1), right.skip(1), id);
    }
}

proof fn lemma_retention_of_push(
    rows: Seq<ConversationView>,
    row: ConversationView,
    id: Seq<char>,
)
    ensures
        retention_of(rows.push(row), id) == (if !conversation_known(rows, id) && row.id == id {
            row.retention_days
        } else {
            retention_of(rows, id)
        }),
    decreases rows.len(),
{
    reveal_with_fuel(retention_of, 2);
    if rows.len() == 0 {
        assert(rows.push(row)[0] == row);
        assert(rows.push(row).skip(1).len() == 0);
    } else if rows[0].id != id {
        lemma_retention_of_push(rows.skip(1), row, id);
        assert(rows.push(row).skip(1) =~= rows.skip(1).push(row));
        if conversation_known(rows, id) {
            let i = choose|i: int| 0 <= i < rows.len() && (#[trigger] rows[i]).id == id;
            assert(rows.skip(1)[i - 1].id == id);
        }
        if conversation_known(rows.skip(1), id) {
            let i = choose|i: int|
                0 <= i < rows.skip(1).len() && (#[trigger] rows.skip(1)[i]).id == id;
            assert(rows[i + 1].id == id);
        }
    } else {
        assert(rows[0].id == id);
        assert(rows.push(row)[0] == rows[0]);
    }
}

proof fn lemma_unknown_retention(rows: Seq<ConversationView>, id: Seq<char>)
    requires
        !conversation_known(rows, id),
    ensures
        retention_of(rows, id) == DEFAULT_RETENTION_DAYS,
    decreases rows.len(),
{
    if rows.len() > 0 {
        assert(rows[0].id != id);
        if conversation_known(rows.skip(1), id) {
            let i = choose|i: int|
                0 <= i < rows.skip(1).len() && (#[trigger] rows.skip(1)[i]).id == id;
            assert(rows[i + 1].id == id);
        }
        lemma_unknown_retention(rows.skip(1), id);
    }
}

/// The retention that was set for a known conversation is the one it has, and no other
/// conversation's changes.
pub proof fn law_retention_is_what_was_set(
    rows: Seq<ConversationView>,
    id: Seq<char>,
    days: i64,
    other: Seq<char>,
)
    ensures
        conversation_known(rows, id) ==> retention_of(with_retention(rows, id, days), id) == days,
        other != id ==> retention_of(with_retention(rows, id, days), other) == retention_of(
            rows,
            other,
        ),
    decreases rows.len(),
{
    if rows.len() > 0 {
        let changed = with_retention(rows, id, days);
        assert(changed.skip(1) =~= with_retention(rows.skip(1), id, days));
        law_retention_is_what_was_set(rows.skip(1), id, days, other);
        if conversation_known(rows, id) && rows[0].id != id {
            let i = choose|i: int| 0 <= i < rows.len() && (#[trigger] rows[i]).id == id;
            assert(rows.skip(1)[i - 1].id == id);
        }
    }
}

/// A message that comes twice is kept once.
pub proof fn law_repeated_message_is_kept_once(rows: Seq<MessageView>, row: MessageView)
    ensures
        with_message(with_message(rows, row), row) == with_message(rows, row),
        message_known(with_message(rows, row), row.message.id),
{
    let after = with_message(rows, row);
    if !message_known(rows, row.message.id) {
        assert(after[rows.len() as int].message.id == row.message.id);
    }
}

/// A message that is kept for ever, or while its window is open, is there after it came:
/// pruning does not take it before it was shown.
pub proof fn law_messages_are_there_to_be_shown(
    store: StoreView,
    row: MessageView,
    cutoff: Option<Seq<char>>,
)
    requires
        retention_of(store.conversations, row.conversation_id) == RETENTION_FOREVER
            || retention_of(store.conversations, row.conversation_id) == RETENTION_OFF,
    ensures
        message_known(
            pruned(
                StoreView { messages: with_message(store.messages, row), ..store },
                row.conversation_id,
                cutoff,
            ).messages,
            row.message.id,
        ),
{
    law_repeated_message_is_kept_once(store.messages, row);
}

/// Pruning and purging a conversation leave the messages of every other one as they are,
/// and purging leaves none of its own.
pub proof fn law_removal_is_local(
    rows: Seq<MessageView>,
    conversation_id: Seq<char>,
    cutoff: Option<Seq<char>>,
    other: Seq<char>,
)
    ensures
        other != conversation_id ==> of_conversation(
            rows.filter(stays(conversation_id, cutoff)),
            other,
        ) == of_conversation(rows, other),
        of_conversation(rows.filter(stays(conversation_id, None)), conversation_id).len() == 0,
    decreases rows.len(),
{
    reveal(Seq::filter);
    let keep = stays(conversation_id, cutoff);
    let purge = stays(conversation_id, None);
    let of_other = |row: MessageView| row.conversation_id == other;
    let of_this = |row: MessageView| row.conversation_id == conversation_id;
    if rows.len() > 0 {
        let front = rows.drop_last();
        law_removal_is_local(front, conversation_id, cutoff, other);
        assert(rows == front.push(rows.last()));
        lemma_filter_push(front, keep, rows.last());
        lemma_filter_push(front, purge, rows.last());
        lemma_filter_push(front, of_other, rows.last());
        lemma_filter_push(front.filter(keep), of_other, rows.last());
        lemma_filter_push(front.filter(purge), of_this, rows.last());
        if other != conversation_id {
            let left = front.filter(keep).filter(of_other);
            let right = front.filter(of_other);
            let inner = |row: MessageView| row.message;
            assert(left.map_values(inner) == right.map_values(inner));
            assert(left.push(rows.last()).map_values(inner) =~= left.map_values(inner).push(
                rows.last().message,
            ));
            assert(right.push(rows.last()).map_values(inner) =~= right.map_values(inner).push(
                rows.last().message,
            ));
        }
    }
}

/// After a conversation was read none of its messages is unread, and reading one
/// conversation leaves the unread messages of every other one as they are.
pub proof fn law_reading_clears_unread(
    rows: Seq<MessageView>,
    conversation_id: Seq<char>,
    other: Seq<char>,
)
    ensures
        unread(with_reading(rows, conversation_id), conversation_id) == 0,
        other != conversation_id ==> of_conversation(with_reading(rows, conversation_id), other)
            == of_conversation(rows, other),
    decreases rows.len(),
{
    reveal(Seq::filter);
    let read = with_reading(rows, conversation_id);
    let of_this = |row: MessageView| row.conversation_id == conversation_id;
    let of_other = |row: MessageView| row.conversation_id == other;
    let open = |message: LocalMessageView| !message.is_read;
    let inner = |row: MessageView| row.message;
    if rows.len() > 0 {
        let front = rows.drop_last();
        let read_front = with_reading(front, conversation_id);
        law_reading_clears_unread(front, conversation_id, other);
        assert(rows == front.push(rows.last()));
        assert(read =~= read_front.push(read.last()));
        lemma_filter_push(read_front, of_this, read.last());
        lemma_filter_push(read_front, of_other, read.last());
        lemma_filter_push(front, of_other, rows.last());
        let own = read_front.filter(of_this);
        assert(own.push(read.last()).map_values(inner) =~= own.map_values(inner).push(
            read.last().message,
        ));
        lemma_filter_push(own.map_values(inner), open, read.last().message);
        let theirs = read_front.filter(of_other);
        assert(theirs.push(read.last()).map_values(inner) =~= theirs.map_values(inner).push(
            read.last().message,
        ));
        let were_theirs = front.filter(of_other);
        assert(were_theirs.push(rows.last()).map_values(inner) =~= were_theirs.map_values(
            inner,
        ).push(rows.last().message));
    }
}

/// A message that this device sent never counts as unread, and one that it received counts
/// until it is read.
pub proof fn law_own_messages_are_read(
    rows: Seq<MessageView>,
    conversation_id: Seq<char>,
    message: ChatMessage,
    is_from_self: bool,
    delivered: bool,
)
    requires
        !message_known(rows, message.id@),
    ensures
        unread(
            with_message(rows, kept_message(conversation_id, message, is_from_self, delivered)),
            conversation_id,
        ) == unread(rows, conversation_id) + if is_from_self {
            0int
        } else {
            1int
        },
{
    let row = kept_message(conversation_id, message, is_from_self, delivered);
    let of_this = |row: MessageView| row.conversation_id == conversation_id;
    let open = |message: LocalMessageView| !message.is_read;
    let inner = |row: MessageView| row.message;
    lemma_filter_push(rows, of_this, row);
    let own = rows.filter(of_this);
    assert(own.push(row).map_values(inner) =~= own.map_values(inner).push(row.message));
    lemma_filter_push(own.map_values(inner), open, row.message);
}

/// Nothing of a list is sent after its newest message, which is one of the list, and what
/// comes behind it in the list was sent before it.
proof fn lemma_newest(messages: Seq<LocalMessageView>) -> (at: int)
    requires
        messages.len() > 0,
    ensures
        0 <= at < messages.len(),
        newest(messages) == Some(messages[at]),
        forall|i: int|
            0 <= i < messages.len() ==> !precedes(
                messages[at].sent_at,
                (#[trigger] messages[i]).sent_at,
            ),
        forall|i: int|
            at < i < messages.len() ==> (#[trigger] messages[i]).sent_at != messages[at].sent_at,
    decreases messages.len(),
{
    let front = messages.drop_last();
    let last = messages.last();
    lemma_precedes_strict(last.sent_at, last.sent_at);
    if front.len() == 0 {
        assert(newest(front) is None);
        0
    } else {
        let best = lemma_newest(front);
        assert(front[best] == messages[best]);
        if precedes(last.sent_at, messages[best].sent_at) {
            lemma_precedes_strict(last.sent_at, messages[best].sent_at);
            assert forall|i: int| 0 <= i < messages.len() implies !precedes(
                messages[best].sent_at,
                (#[trigger] messages[i]).sent_at,
            ) by {
                if i < front.len() {
                    assert(front[i] == messages[i]);
                }
            }
            assert forall|i: int| best < i < messages.len() implies (
            #[trigger] messages[i]).sent_at != messages[best].sent_at by {
                if i < front.len() {
                    assert(front[i] == messages[i]);
                }
            }
            best
        } else {
            let at = messages.len() - 1;
            assert forall|i: int| 0 <= i < messages.len() implies !precedes(
                last.sent_at,
                (#[trigger] messages[i]).sent_at,
            ) by {
                if i < front.len() {
                    assert(front[i] == messages[i]);
                    if precedes(last.sent_at, messages[i].sent_at) {
                        lemma_precedes_total(messages[i].sent_at, messages[best].sent_at);
                        if messages[i].sent_at != messages[best].sent_at {
                            lemma_precedes_transitive(
                                last.sent_at,
                                messages[i].sent_at,
                                messages[best].sent_at,
                            );
                        }
                    }
                }
            }
            at
        }
    }
}

proof fn lemma_last_with_key(messages: Seq<LocalMessageView>, at: int)
    requires
        0 <= at < messages.len(),
        forall|i: int|
            at < i < messages.len() ==> (#[trigger] messages[i]).sent_at != messages[at].sent_at,
    ensures
        with_key(messages, sent_key(), messages[at].sent_at).len() > 0,
        with_key(messages, sent_key(), messages[at].sent_at).last() == messages[at],
    decreases messages.len(),
{
    let k = messages[at].sent_at;
    let pred = has_key(sent_key(), k);
    let front = messages.drop_last();
    assert(messages == front.push(messages.last()));
    lemma_filter_push(front, pred, messages.last());
    if at < messages.len() - 1 {
        assert(front[at] == messages[at]);
        assert forall|i: int| at < i < front.len() implies (#[trigger] front[i]).sent_at
            != front[at].sent_at by {
            assert(front[i] == messages[i]);
        }
        lemma_last_with_key(front, at);
        assert(messages[messages.len() - 1].sent_at != k);
    }
}

/// The last message that a conversation is listed with is the last one of its list.
pub proof fn law_last_message_is_the_last_listed(
    listed: Seq<LocalMessageView>,
    messages: Seq<LocalMessageView>,
)
    requires
        ascending(listed, sent_key()),
        rearranged(listed, messages, sent_key()),
    ensures
        newest(messages) == (if listed.len() == 0 {
            None
        } else {
            Some(listed.last())
        }),
{
    if messages.len() > 0 {
        let at = lemma_newest(messages);
        let k = messages[at].sent_at;
        lemma_last_with_key(messages, at);
        assert(with_key(listed, sent_key(), k) == with_key(messages, sent_key(), k));
        assert(with_key(listed, sent_key(), k).contains(messages[at]));
        listed.lemma_filter_contains_rev(has_key(sent_key(), k), messages[at]);
        let end = listed.len() - 1;
        let found = choose|i: int| 0 <= i < listed.len() && listed[i] == messages[at];
        // The last one listed is not before the newest, nor after it.
        assert(!precedes(listed[end].sent_at, k)) by {
            if found < end {
                assert(!precedes(sent_key()(listed[end]), sent_key()(listed[found])));
            } else {
                lemma_precedes_strict(k, k);
            }
        }
        lemma_last_with_key(listed, end);
        let k_end = listed[end].sent_at;
        assert(with_key(listed, sent_key(), k_end) == with_key(messages, sent_key(), k_end));
        assert(with_key(messages, sent_key(), k_end).contains(listed[end]));
        messages.lemma_filter_contains_rev(has_key(sent_key(), k_end), listed[end]);
        assert(!precedes(k, k_end));
        lemma_precedes_total(k, k_end);
    } else if listed.len() > 0 {
        lemma_last_with_key(listed, listed.len() - 1);
        let k = listed.last().sent_at;
        assert(with_key(listed, sent_key(), k) == with_key(messages, sent_key(), k));
        messages.lemma_filter_len(has_key(sent_key(), k));
    }
}

/// A kept message and a known conversation are seen field by field as they are.
pub proof fn law_rows_are_seen_as_they_are(
    row: MessageRow,
    known: ConversationRow,
    shown: LocalConversation,
    news: ChatConversation,
    i: int,
)
    ensures
        row@.conversation_id == row.conversation_id@,
        row@.message.id == row.message.id@,
        row@.message.sender_device_id == row.message.sender_device_id@,
        row@.message.body == row.message.body@,
        row@.message.sent_at == row.message.sent_at@,
        row@.message.is_read == row.message.is_read,
        row@.message.delivered == row.message.delivered,
        known@.id == known.id@,
        known@.conversation_type == known.conversation_type@,
        known@.name is Some <==> known.name is Some,
        known.name matches Some(name) ==> known@.name == Some(name@),
        known@.created_at == known.created_at@,
        known@.retention_days == known.retention_days,
        known@.participants.len() == known.participants@.len(),
        0 <= i < known.participants@.len() ==> known@.participants[i] == known.participants@[i]@,
        shown@.conversation.id == shown.id@,
        shown@.conversation.conversation_type == shown.conversation_type@,
        shown@.conversation.name is Some <==> shown.name is Some,
        shown.name matches Some(name) ==> shown@.conversation.name == Some(name@),
        shown@.conversation.created_at == shown.created_at@,
        shown@.conversation.retention_days == shown.retention_days,
        shown@.conversation.participants.len() == shown.participants@.len(),
        0 <= i < shown.participants@.len() ==> shown@.conversation.participants[i]
            == shown.participants@[i]@,
        shown@.last_message is Some <==> shown.last_message is Some,
        shown.last_message matches Some(message) ==> shown@.last_message == Some(message@),
        shown@.unread_count == shown.unread_count,
        0 <= i < news.participants@.len() ==> {
            &&& news.participants@[i]@.device_id == news.participants@[i].device_id@
            &&& news.participants@[i]@.hostname == news.participants@[i].hostname@
            &&& news.participants@[i]@.friendly_name is Some
                <==> news.participants@[i].friendly_name is Some
            &&& news.participants@[i].friendly_name matches Some(name)
                ==> news.participants@[i]@.friendly_name == Some(name@)
        },
{
}

/// A store is seen row by row, in the order of its rows.
pub proof fn law_store_is_seen_row_by_row(store: ChatStore, i: int)
    ensures
        store@.messages.len() == store.messages@.len(),
        store@.conversations.len() == store.conversations@.len(),
        0 <= i < store.messages@.len() ==> store@.messages[i] == store.messages@[i]@,
        0 <= i < store.conversations@.len() ==> store@.conversations[i]
            == store.conversations@[i]@,
{
}

/// The messages of a conversation are those that name it, in the order in which they came.
pub proof fn law_messages_belong_to_the_conversation_they_name(
    rows: Seq<MessageView>,
    row: MessageView,
    conversation_id: Seq<char>,
)
    ensures
        of_conversation(Seq::empty(), conversation_id).len() == 0,
        row.conversation_id == conversation_id ==> of_conversation(rows.push(row), conversation_id)
            == of_conversation(rows, conversation_id).push(row.message),
        row.conversation_id != conversation_id ==> of_conversation(rows.push(row), conversation_id)
            == of_conversation(rows, conversation_id),
{
    reveal(Seq::filter);
    let of_this = |row: MessageView| row.conversation_id == conversation_id;
    let inner = |row: MessageView| row.message;
    lemma_filter_push(rows, of_this, row);
    assert(rows.filter(of_this).push(row).map_values(inner) =~= rows.filter(of_this).map_values(
        inner,
    ).push(row.message));
}

/// Nothing that is known of a conversation asks for its messages to be pruned by age: it is
/// kept for ever, kept while its window is open, or not known at all.
pub open spec fn is_kept_by_age(store: ChatStore, conversation_id: Seq<char>) -> bool {
    forall|i: int|
        0 <= i < store.conversations@.len() && (
        #[trigger] store.conversations@[i]).id@ == conversation_id
            ==> store.conversations@[i].retention_days == -1
            || store.conversations@[i].retention_days == 0
}

proof fn lemma_kept_by_age(store: ChatStore, conversation_id: Seq<char>)
    requires
        is_kept_by_age(store, conversation_id),
    ensures
        !prunes(retention_of(store@.conversations, conversation_id)),
{
    lemma_retention_of_one(store@.conversations, conversation_id);
    let rows = store@.conversations;
    assert forall|i: int| 0 <= i < rows.len() && (#[trigger] rows[i]).id == conversation_id implies
        rows[i].retention_days == -1 || rows[i].retention_days == 0 by {
        assert(rows[i] == store.conversations@[i]@);
    }
}

/// The retention of a conversation is that of a row of its id, where there is one.
proof fn lemma_retention_of_one(rows: Seq<ConversationView>, id: Seq<char>)
    ensures
        conversation_known(rows, id) ==> exists|i: int|
            0 <= i < rows.len() && (#[trigger] rows[i]).id == id && rows[i].retention_days
                == retention_of(rows, id) && (forall|j: int|
                0 <= j < i ==> (#[trigger] rows[j]).id != id),
        !conversation_known(rows, id) ==> retention_of(rows, id) == -1,
    decreases rows.len(),
{
    if rows.len() > 0 {
        let rest = rows.skip(1);
        if rows[0].id == id {
            assert(rows[0].retention_days == retention_of(rows, id));
        } else {
            lemma_retention_of_one(rest, id);
            if conversation_known(rows, id) {
                let i = choose|i: int| 0 <= i < rows.len() && (#[trigger] rows[i]).id == id;
                assert(rest[i - 1].id == id);
                let j = choose|j: int|
                    0 <= j < rest.len() && (#[trigger] rest[j]).id == id && rest[j].retention_days
                        == retention_of(rest, id) && (forall|k: int|
                        0 <= k < j ==> (#[trigger] rest[k]).id != id);
                assert(rows[j + 1].id == id && rows[j + 1].retention_days == retention_of(
                    rows,
                    id,
                ));
                assert forall|k: int| 0 <= k < j + 1 implies (#[trigger] rows[k]).id != id by {
                    if k > 0 {
                        assert(rest[k - 1].id != id);
                    }
                }
            } else {
                assert forall|i: int| 0 <= i < rest.len() implies (#[trigger] rest[i]).id != id by {
                    assert(rest[i] == rows[i + 1]);
                }
            }
        }
    }
}

/// No message of this id is kept.
pub open spec fn is_new_message(store: ChatStore, message_id: Seq<char>) -> bool {
    forall|j: int|
        0 <= j < store.messages@.len() ==> (#[trigger] store.messages@[j]).message.id@
            != message_id
}

proof fn lemma_new_message(store: ChatStore, message_id: Seq<char>)
    requires
        is_new_message(store, message_id),
    ensures
        !message_known(store@.messages, message_id),
{
    assert forall|j: int| 0 <= j < store@.messages.len() implies (
    #[trigger] store@.messages[j]).message.id != message_id by {
        assert(store@.messages[j] == store.messages@[j]@);
    }
}

/// A message that comes for the first time is kept behind all others, with its own id,
/// sender, text and time, as this conversation's, with the mark of delivery that is given,
/// and as read exactly where this device sent it. One that is kept already changes nothing,
/// and no conversation changes either way.
pub proof fn law_message_is_kept_as_it_came(
    store: &mut ChatStore,
    conversation_id: &str,
    message: &ChatMessage,
    is_from_self: bool,
    delivered: bool,
    cutoff: Option<&str>,
    i: int,
)
    requires
        call_ensures(
            insert_message,
            (store, conversation_id, message, is_from_self, delivered, cutoff),
            (),
        ),
        cutoff is None || is_kept_by_age(*old(store), conversation_id@),
    ensures
        final(store)@.conversations == old(store)@.conversations,
        (exists|j: int|
            0 <= j < old(store).messages@.len() && (
            #[trigger] old(store).messages@[j]).message.id@ == message.id@)
            ==> final(store)@.messages == old(store)@.messages,
        is_new_message(*old(store), message.id@) ==> {
            let last = old(store).messages@.len() as int;
            let row = final(store).messages@[last];
            &&& final(store).messages@.len() == last + 1
            &&& row.conversation_id@ == conversation_id@
            &&& row.message.id@ == message.id@
            &&& row.message.sender_device_id@ == message.sender_device_id@
            &&& row.message.body@ == message.body@
            &&& row.message.sent_at@ == message.sent_at@
            &&& row.message.is_read == is_from_self
            &&& row.message.delivered == delivered
            &&& 0 <= i < last ==> final(store).messages@[i]@ == old(store).messages@[i]@
        },
{
    lemma_kept_by_age_or_none(*old(store), conversation_id@, borrowed_view(cutoff));
    if is_new_message(*old(store), message.id@) {
        lemma_new_message(*old(store), message.id@);
    }
    let before = old(store)@.messages;
    let after = final(store)@.messages;
    if exists|j: int|
        0 <= j < old(store).messages@.len() && (#[trigger] old(store).messages@[j]).message.id@
            == message.id@ {
        let j = choose|j: int|
            0 <= j < old(store).messages@.len() && (
            #[trigger] old(store).messages@[j]).message.id@ == message.id@;
        assert(before[j].message.id == message.id@);
    }
    if !message_known(before, message.id@) {
        assert(after.len() == before.len() + 1);
        assert(after[before.len() as int] == final(store).messages@[before.len() as int]@);
        if 0 <= i < before.len() {
            assert(after[i] == before[i]);
        }
    }
}

proof fn lemma_kept_by_age_or_none(
    store: ChatStore,
    conversation_id: Seq<char>,
    cutoff: Option<Seq<char>>,
)
    requires
        cutoff is None || is_kept_by_age(store, conversation_id),
    ensures
        cutoff is None || !prunes(retention_of(store@.conversations, conversation_id)),
{
    if cutoff is Some {
        lemma_kept_by_age(store, conversation_id);
    }
}

/// A message that comes for the first time is the last of its conversation, with its own
/// fields, and every other conversation has the messages that it had.
pub proof fn law_message_is_the_last_of_its_conversation(
    store: &mut ChatStore,
    conversation_id: &str,
    message: &ChatMessage,
    is_from_self: bool,
    delivered: bool,
    cutoff: Option<&str>,
    other: Seq<char>,
)
    requires
        call_ensures(
            insert_message,
            (store, conversation_id, message, is_from_self, delivered, cutoff),
            (),
        ),
        cutoff is None || is_kept_by_age(*old(store), conversation_id@),
        is_new_message(*old(store), message.id@),
    ensures
        of_conversation(final(store)@.messages, conversation_id@) == of_conversation(
            old(store)@.messages,
            conversation_id@,
        ).push(
            (LocalMessageView {
                id: message.id@,
                sender_device_id: message.sender_device_id@,
                body: message.body@,
                sent_at: message.sent_at@,
                is_read: is_from_self,
                delivered,
            }),
        ),
        other != conversation_id@ ==> of_conversation(final(store)@.messages, other)
            == of_conversation(old(store)@.messages, other),
{
    lemma_kept_by_age_or_none(*old(store), conversation_id@, borrowed_view(cutoff));
    lemma_new_message(*old(store), message.id@);
    let row = MessageView {
        conversation_id: conversation_id@,
        message: LocalMessageView {
            id: message.id@,
            sender_device_id: message.sender_device_id@,
            body: message.body@,
            sent_at: message.sent_at@,
            is_read: is_from_self,
            delivered,
        },
    };
    assert(final(store)@.messages == old(store)@.messages.push(row));
    law_messages_belong_to_the_conversation_they_name(
        old(store)@.messages,
        row,
        conversation_id@,
    );
    law_messages_belong_to_the_conversation_they_name(old(store)@.messages, row, other);
}

/// Keeping a message, reading a conversation and setting its retention prune it just as
/// pruning it afterwards would.
pub proof fn law_changes_prune_their_conversation(
    direct: &mut ChatStore,
    changed: &mut ChatStore,
    cleaned: &mut ChatStore,
    conversation_id: &str,
    message: &ChatMessage,
    is_from_self: bool,
    delivered: bool,
    days: i64,
    cutoff: Option<&str>,
)
    requires
        old(changed)@ == old(direct)@,
        old(cleaned)@ == final(changed)@,
        call_ensures(prune_conversation, (cleaned, conversation_id, cutoff), ()),
        ({
            ||| call_ensures(
                insert_message,
                (direct, conversation_id, message, is_from_self, delivered, cutoff),
                (),
            ) && call_ensures(
                insert_message,
                (changed, conversation_id, message, is_from_self, delivered, None::<&str>),
                (),
            )
            ||| call_ensures(mark_read, (direct, conversation_id, cutoff), ()) && call_ensures(
                mark_read,
                (changed, conversation_id, None::<&str>),
                (),
            )
            ||| call_ensures(set_retention, (direct, conversation_id, days, cutoff), ())
                && call_ensures(set_retention, (changed, conversation_id, days, None::<&str>), ())
        }),
    ensures
        final(direct)@ == final(cleaned)@,
{
}

/// Pruning takes exactly the messages of its conversation that were sent before the time
/// that is given, where the first row of that conversation has a retention in days; kept
/// for ever, kept while its window is open, or without such a time, all of them stay. The
/// conversations stay as they are.
pub proof fn law_pruning_goes_by_age(
    store: &mut ChatStore,
    conversation_id: &str,
    cutoff: Option<&str>,
    i: int,
)
    requires
        call_ensures(prune_conversation, (store, conversation_id, cutoff), ()),
    ensures
        final(store)@.conversations == old(store)@.conversations,
        cutoff is None || is_kept_by_age(*old(store), conversation_id@) ==> final(store)@.messages
            == old(store)@.messages,
        cutoff matches Some(time) ==> (0 <= i < old(store).conversations@.len()
            && old(store).conversations@[i].id@ == conversation_id@
            && old(store).conversations@[i].retention_days != -1
            && old(store).conversations@[i].retention_days != 0 && (forall|j: int|
            0 <= j < i ==> (#[trigger] old(store).conversations@[j]).id@ != conversation_id@)
            ==> final(store)@.messages == old(store)@.messages.filter(
            |row: MessageView|
                row.conversation_id != conversation_id@ || !precedes(
                    row.message.sent_at,
                    time@,
                ),
        )),
{
    if cutoff is None || is_kept_by_age(*old(store), conversation_id@) {
        lemma_kept_by_age_or_none(*old(store), conversation_id@, borrowed_view(cutoff));
    }
    if let Some(time) = cutoff {
        let rows = old(store)@.conversations;
        if 0 <= i < rows.len() && rows[i].id == conversation_id@ && rows[i].retention_days != -1
            && rows[i].retention_days != 0 && (forall|j: int|
            0 <= j < i ==> (#[trigger] old(store).conversations@[j]).id@ != conversation_id@) {
            lemma_retention_of_one(rows, conversation_id@);
            let k = choose|k: int|
                0 <= k < rows.len() && (#[trigger] rows[k]).id == conversation_id@
                    && rows[k].retention_days == retention_of(rows, conversation_id@) && (
                forall|j: int| 0 <= j < k ==> (#[trigger] rows[j]).id != conversation_id@);
            if k < i {
                assert(old(store).conversations@[k].id@ != conversation_id@);
            }
            let keep = |row: MessageView|
                row.conversation_id != conversation_id@ || !precedes(row.message.sent_at, time@);
            assert(keep =~= stays(conversation_id@, borrowed_view(cutoff)));
        }
    }
}

/// Purging leaves exactly the messages of the other conversations.
pub proof fn law_purging_leaves_the_others(store: &mut ChatStore, conversation_id: &str)
    requires
        call_ensures(purge_conversation, (store, conversation_id), ()),
    ensures
        final(store)@.conversations == old(store)@.conversations,
        final(store)@.messages == old(store)@.messages.filter(
            |row: MessageView| row.conversation_id != conversation_id@,
        ),
{
    let keep = |row: MessageView| row.conversation_id != conversation_id@;
    assert(keep =~= stays(conversation_id@, None));
}

/// The retention of a conversation is that of its row, and a conversation without a row is
/// kept for ever.
pub proof fn law_retention_is_that_of_the_row(
    store: &ChatStore,
    conversation_id: &str,
    r: i64,
    i: int,
)
    requires
        call_ensures(get_retention, (store, conversation_id), r),
    ensures
        0 <= i < store.conversations@.len() && store.conversations@[i].id@ == conversation_id@ && (
        forall|j: int|
            0 <= j < i ==> (#[trigger] store.conversations@[j]).id@ != conversation_id@) ==> r
            == store.conversations@[i].retention_days,
        (forall|j: int|
            0 <= j < store.conversations@.len() ==> (#[trigger] store.conversations@[j]).id@
                != conversation_id@) ==> r == -1,
{
    let rows = store@.conversations;
    lemma_retention_of_one(rows, conversation_id@);
    if conversation_known(rows, conversation_id@) {
        let k = choose|k: int|
            0 <= k < rows.len() && (#[trigger] rows[k]).id == conversation_id@
                && rows[k].retention_days == retention_of(rows, conversation_id@) && (forall|j: int|
                0 <= j < k ==> (#[trigger] rows[j]).id != conversation_id@);
        assert(store.conversations@[k].id@ == conversation_id@);
        if 0 <= i < rows.len() {
            assert(rows[i].id == store.conversations@[i].id@);
        }
    }
}

/// Telling of a conversation changes its kind, name and participants where it is known, and
/// nothing else of it and nothing of the others; one that is not known is added behind the
/// others with all that was told, to be kept for ever. No message changes.
pub proof fn law_conversation_is_noted_as_told(
    store: &mut ChatStore,
    news: &ChatConversation,
    i: int,
)
    requires
        call_ensures(upsert_conversation, (store, news), ()),
    ensures
        final(store)@.messages == old(store)@.messages,
        ({
            let rows = old(store).conversations@;
            let after = final(store).conversations@;
            &&& (exists|j: int| 0 <= j < rows.len() && (#[trigger] rows[j]).id@ == news.id@)
                ==> after.len() == rows.len()
            &&& 0 <= i < rows.len() && rows[i].id@ != news.id@ ==> after[i]@ == rows[i]@
            &&& 0 <= i < rows.len() && rows[i].id@ == news.id@ ==> {
                &&& after[i].id@ == rows[i].id@
                &&& after[i].created_at@ == rows[i].created_at@
                &&& after[i].retention_days == rows[i].retention_days
                &&& after[i].conversation_type@ == news.conversation_type@
                &&& optional_view(after[i].name) == optional_view(news.name)
                &&& participant_views(after[i].participants@) == participant_views(
                    news.participants@,
                )
            }
            &&& (forall|j: int| 0 <= j < rows.len() ==> (#[trigger] rows[j]).id@ != news.id@) ==> {
                let row = after[rows.len() as int];
                &&& after.len() == rows.len() + 1
                &&& row.id@ == news.id@
                &&& row.created_at@ == news.created_at@
                &&& row.retention_days == -1
                &&& row.conversation_type@ == news.conversation_type@
                &&& optional_view(row.name) == optional_view(news.name)
                &&& participant_views(row.participants@) == participant_views(news.participants@)
            }
        }),
{
    let rows = old(store)@.conversations;
    let after = final(store)@.conversations;
    assert(rows.len() == old(store).conversations@.len());
    assert(after.len() == final(store).conversations@.len());
    assert forall|j: int| 0 <= j < rows.len() implies #[trigger] rows[j]
        == old(store).conversations@[j]@ by {}
    assert forall|j: int| 0 <= j < after.len() implies #[trigger] after[j]
        == final(store).conversations@[j]@ by {}
    if conversation_known(rows, news.id@) {
        let j = choose|j: int| 0 <= j < rows.len() && (#[trigger] rows[j]).id == news.id@;
        assert(old(store).conversations@[j].id@ == news.id@);
        if 0 <= i < rows.len() {
            assert(after[i] == final(store).conversations@[i]@);
        }
    } else {
        assert(after[rows.len() as int] == final(store).conversations@[rows.len() as int]@);
        if 0 <= i < rows.len() {
            assert(after[i] == rows[i]);
            assert(rows[i].id != news.id@);
        }
        if exists|j: int|
            0 <= j < rows.len() && (#[trigger] old(store).conversations@[j]).id@ == news.id@ {
            let j = choose|j: int|
                0 <= j < rows.len() && (#[trigger] old(store).conversations@[j]).id@ == news.id@;
            assert(rows[j].id == news.id@);
        }
    }
}

/// Setting the retention of a conversation sets it for that conversation only, and changes
/// nothing else of it; without a time to prune by no message changes.
pub proof fn law_retention_is_set_for_its_conversation(
    store: &mut ChatStore,
    conversation_id: &str,
    days: i64,
    cutoff: Option<&str>,
    i: int,
)
    requires
        call_ensures(set_retention, (store, conversation_id, days, cutoff), ()),
    ensures
        final(store).conversations@.len() == old(store).conversations@.len(),
        0 <= i < old(store).conversations@.len() ==> {
            let row = old(store).conversations@[i];
            let after = final(store).conversations@[i];
            &&& row.id@ != conversation_id@ ==> after@ == row@
            &&& row.id@ == conversation_id@ ==> {
                &&& after.retention_days == days
                &&& after.id@ == row.id@
                &&& after.conversation_type@ == row.conversation_type@
                &&& after.created_at@ == row.created_at@
                &&& optional_view(after.name) == optional_view(row.name)
                &&& participant_views(after.participants@) == participant_views(row.participants@)
            }
        },
        cutoff is None ==> final(store)@.messages == old(store)@.messages,
{
    let rows = old(store)@.conversations;
    let after = final(store)@.conversations;
    assert(after.len() == rows.len());
    if 0 <= i < rows.len() {
        assert(rows[i] == old(store).conversations@[i]@);
        assert(after[i] == final(store).conversations@[i]@);
    }
}

/// A delivery marks the message of its id as delivered, and nothing else changes.
pub proof fn law_delivery_is_marked_on_its_message(store: &mut ChatStore, message_id: &str, i: int)
    requires
        call_ensures(mark_delivered, (store, message_id), ()),
    ensures
        final(store)@.conversations == old(store)@.conversations,
        final(store).messages@.len() == old(store).messages@.len(),
        0 <= i < old(store).messages@.len() ==> {
            let row = old(store).messages@[i];
            let after = final(store).messages@[i];
            &&& after.conversation_id@ == row.conversation_id@
            &&& after.message.id@ == row.message.id@
            &&& after.message.sender_device_id@ == row.message.sender_device_id@
            &&& after.message.body@ == row.message.body@
            &&& after.message.sent_at@ == row.message.sent_at@
            &&& after.message.is_read == row.message.is_read
            &&& after.message.delivered <==> row.message.delivered || row.message.id@
                == message_id@
        },
{
    let rows = old(store)@.messages;
    let after = final(store)@.messages;
    assert(after.len() == rows.len());
    if 0 <= i < rows.len() {
        assert(rows[i] == old(store).messages@[i]@);
        assert(after[i] == final(store).messages@[i]@);
    }
}

/// Reading a conversation marks its messages as read, and nothing else changes where
/// nothing is pruned.
pub proof fn law_reading_marks_the_messages_of_its_conversation(
    store: &mut ChatStore,
    conversation_id: &str,
    cutoff: Option<&str>,
    i: int,
)
    requires
        call_ensures(mark_read, (store, conversation_id, cutoff), ()),
        cutoff is None || is_kept_by_age(*old(store), conversation_id@),
    ensures
        final(store)@.conversations == old(store)@.conversations,
        final(store).messages@.len() == old(store).messages@.len(),
        0 <= i < old(store).messages@.len() ==> {
            let row = old(store).messages@[i];
            let after = final(store).messages@[i];
            &&& after.conversation_id@ == row.conversation_id@
            &&& after.message.id@ == row.message.id@
            &&& after.message.sender_device_id@ == row.message.sender_device_id@
            &&& after.message.body@ == row.message.body@
            &&& after.message.sent_at@ == row.message.sent_at@
            &&& after.message.delivered == row.message.delivered
            &&& after.message.is_read <==> row.message.is_read || row.conversation_id@
                == conversation_id@
        },
{
    lemma_kept_by_age_or_none(*old(store), conversation_id@, borrowed_view(cutoff));
    let rows = old(store)@.messages;
    let after = final(store)@.messages;
    assert(after.len() == rows.len());
    if 0 <= i < rows.len() {
        assert(rows[i] == old(store).messages@[i]@);
        assert(after[i] == final(store).messages@[i]@);
    }
}

/// A list of messages has exactly those of its conversation, none sent before one that is
/// listed earlier, and those of one time in the order in which they came.
pub proof fn law_messages_are_listed_by_their_times(
    store: &ChatStore,
    conversation_id: &str,
    r: Vec<LocalMessage>,
    i: int,
    j: int,
    time: Seq<char>,
)
    requires
        call_ensures(list_messages, (store, conversation_id), r),
    ensures
        0 <= i < j < r@.len() ==> !precedes(r@[j].sent_at@, r@[i].sent_at@),
        local_views(r@).to_multiset() == of_conversation(
            store@.messages,
            conversation_id@,
        ).to_multiset(),
        local_views(r@).filter(|message: LocalMessageView| message.sent_at == time)
            == of_conversation(store@.messages, conversation_id@).filter(
            |message: LocalMessageView| message.sent_at == time,
        ),
{
    let listed = local_views(r@);
    let messages = of_conversation(store@.messages, conversation_id@);
    law_rearranging_loses_nothing(listed, messages, sent_key());
    if 0 <= i < j < r@.len() {
        assert(!precedes(sent_key()(listed[j]), sent_key()(listed[i])));
    }
    let of_time = |message: LocalMessageView| message.sent_at == time;
    assert(of_time =~= has_key(sent_key(), time));
    assert(with_key(listed, sent_key(), time) == with_key(messages, sent_key(), time));
}

/// A message list shows each message as it is kept.
pub proof fn law_listed_messages_are_seen_as_they_are(messages: Seq<LocalMessage>, i: int)
    requires
        0 <= i < messages.len(),
    ensures
        local_views(messages).len() == messages.len(),
        local_views(messages)[i].id == messages[i].id@,
        local_views(messages)[i].sender_device_id == messages[i].sender_device_id@,
        local_views(messages)[i].body == messages[i].body@,
        local_views(messages)[i].sent_at == messages[i].sent_at@,
        local_views(messages)[i].is_read == messages[i].is_read,
        local_views(messages)[i].delivered == messages[i].delivered,
{
}

/// When something last happened in a conversation that is shown.
pub open spec fn last_activity(shown: LocalConversation) -> Seq<char> {
    if shown.last_message is Some {
        shown.last_message->0.sent_at@
    } else {
        shown.created_at@
    }
}

/// The list of conversations has each conversation once for each row of it, as that row has
/// it, and none comes before one in which something happened later.
pub proof fn law_conversations_are_listed_by_their_activity(
    store: &ChatStore,
    r: Vec<LocalConversation>,
    i: int,
    j: int,
)
    requires
        call_ensures(list_conversations, (store,), r),
    ensures
        r@.len() == store.conversations@.len(),
        0 <= i < j < r@.len() ==> !precedes(last_activity(r@[i]), last_activity(r@[j])),
        0 <= i < r@.len() ==> exists|k: int|
            0 <= k < store.conversations@.len() && (#[trigger] store.conversations@[k])@
                == r@[i]@.conversation,
        0 <= i < store.conversations@.len() ==> exists|k: int|
            0 <= k < r@.len() && (#[trigger] r@[k])@.conversation == store.conversations@[i]@,
{
    broadcast use vstd::seq_lib::group_to_multiset_ensures;

    let listed = summary_views(r@);
    let items = summaries(store@);
    law_rearranging_loses_nothing(listed, items, activity_key());
    assert(listed.len() == listed.to_multiset().len());
    assert(items.len() == items.to_multiset().len());
    if 0 <= i < j < r@.len() {
        assert(!precedes(activity_key()(listed[i]), activity_key()(listed[j])));
    }
    if 0 <= i < r@.len() {
        assert(listed.contains(listed[i]));
        assert(items.to_multiset().count(listed[i]) > 0);
        assert(items.contains(listed[i]));
        let k = choose|k: int| 0 <= k < items.len() && items[k] == listed[i];
        assert(store.conversations@[k]@ == r@[i]@.conversation);
    }
    if 0 <= i < store.conversations@.len() {
        assert(items.contains(items[i]));
        assert(listed.to_multiset().count(items[i]) > 0);
        assert(listed.contains(items[i]));
        let k = choose|k: int| 0 <= k < listed.len() && listed[k] == items[i];
        assert(r@[k]@.conversation == store.conversations@[i]@);
    }
}

/// A conversation is listed with the last message of its own list, and with as many unread
/// messages as it has messages that were not read.
pub proof fn law_conversation_is_listed_with_its_messages(
    store: &ChatStore,
    r: Vec<LocalConversation>,
    i: int,
    id: &str,
    messages: Vec<LocalMessage>,
)
    requires
        call_ensures(list_conversations, (store,), r),
        call_ensures(list_messages, (store, id), messages),
        0 <= i < r@.len(),
        r@[i].id@ == id@,
    ensures
        r@[i].last_message is Some <==> messages@.len() > 0,
        r@[i].last_message matches Some(last) ==> last@ == messages@.last()@,
        r@[i].unread_count == of_conversation(store@.messages, id@).filter(
            |message: LocalMessageView| !message.is_read,
        ).len(),
{
    broadcast use vstd::seq_lib::group_to_multiset_ensures;

    let listed = summary_views(r@);
    let items = summaries(store@);
    law_rearranging_loses_nothing(listed, items, activity_key());
    assert(listed.contains(listed[i]));
    assert(items.to_multiset().count(listed[i]) > 0);
    assert(items.contains(listed[i]));
    let k = choose|k: int| 0 <= k < items.len() && items[k] == listed[i];
    assert(listed[i] == r@[i]@);
    assert(listed[i].conversation.id == id@);
    assert(items[k] == summary(store@.messages, store@.conversations[k]));
    law_last_message_is_the_last_listed(
        local_views(messages@),
        of_conversation(store@.messages, id@),
    );
}

/// Messages are pruned by age exactly where the retention is neither for ever nor off, and
/// the modifier goes back as many days as the retention has.
pub proof fn law_modifier_goes_back_by_the_retention(days: i64, r: Option<String>)
    requires
        call_ensures(prune_modifier, (days,), r),
    ensures
        r is None <==> days == -1 || days == 0,
        r matches Some(text) ==> text@ == "-"@ + signed_decimal(days as int) + " days"@,
{
}

/// A store in which no two rows of a kind have the same id stays one, whatever is done to it.
pub proof fn law_ids_stay_apart(
    store: &mut ChatStore,
    conversation_id: &str,
    message_id: &str,
    message: &ChatMessage,
    news: &ChatConversation,
    is_from_self: bool,
    delivered: bool,
    days: i64,
    cutoff: Option<&str>,
    i: int,
    j: int,
)
    requires
        ({
            ||| call_ensures(
                insert_message,
                (store, conversation_id, message, is_from_self, delivered, cutoff),
                (),
            )
            ||| call_ensures(upsert_conversation, (store, news), ())
            ||| call_ensures(mark_read, (store, conversation_id, cutoff), ())
            ||| call_ensures(mark_delivered, (store, message_id), ())
            ||| call_ensures(set_retention, (store, conversation_id, days, cutoff), ())
            ||| call_ensures(prune_conversation, (store, conversation_id, cutoff), ())
            ||| call_ensures(purge_conversation, (store, conversation_id), ())
        }),
        forall|a: int, b: int|
            0 <= a < b < old(store).messages@.len() ==> (
            #[trigger] old(store).messages@[a]).message.id@ != (
            #[trigger] old(store).messages@[b]).message.id@,
        forall|a: int, b: int|
            0 <= a < b < old(store).conversations@.len() ==> (
            #[trigger] old(store).conversations@[a]).id@ != (
            #[trigger] old(store).conversations@[b]).id@,
    ensures
        0 <= i < j < final(store).messages@.len() ==> final(store).messages@[i].message.id@
            != final(store).messages@[j].message.id@,
        0 <= i < j < final(store).conversations@.len() ==> final(store).conversations@[i].id@
            != final(store).conversations@[j].id@,
{
    let before = old(store)@;
    let after = final(store)@;
    assert forall|a: int, b: int| 0 <= a < b < before.messages.len() implies (
    #[trigger] before.messages[a]).message.id != (#[trigger] before.messages[b]).message.id by {
        assert(before.messages[a] == old(store).messages@[a]@);
        assert(before.messages[b] == old(store).messages@[b]@);
    }
    assert forall|a: int, b: int| 0 <= a < b < before.conversations.len() implies (
    #[trigger] before.conversations[a]).id != (#[trigger] before.conversations[b]).id by {
        assert(before.conversations[a] == old(store).conversations@[a]@);
        assert(before.conversations[b] == old(store).conversations@[b]@);
    }
    assert(before.well_formed());
    assert(after.well_formed());
    if 0 <= i < j < final(store).messages@.len() {
        assert(after.messages[i] == final(store).messages@[i]@);
        assert(after.messages[j] == final(store).messages@[j]@);
    }
    if 0 <= i < j < final(store).conversations@.len() {
        assert(after.conversations[i] == final(store).conversations@[i]@);
        assert(after.conversations[j] == final(store).conversations@[j]@);
    }
}

} // verus!
