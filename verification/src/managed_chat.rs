//! Out-of-session chat between managed devices: what is sent to the messaging routes,
//! what is made of a pushed frame, and how an operation that another process asks for
//! is answered.

use crate::json::{
    empty_object, no_fields, no_members, put, render_in_order, render_object, rendered,
    rendered_in_order, texts, JsonInput, JsonNode,
};
use crate::requests::{
    add_text, and_text, empty_body, put_text, with_text, HttpMethod, HttpRequest, RequestView,
};
use crate::text::{
    after_prefix, joined, optional_view, same_text, starts_with, strip_trailing, without_trailing,
};
use crate::web::join_url;
use vstd::prelude::*;
use vstd::string::*;

verus! {

#[derive(Debug, Clone)]
pub struct ChatMessage {
    pub id: String,
    pub sender_device_id: String,
    pub body: String,
    pub sent_at: String,
    // Holds something only in the answer to sending a message: the recipients that were
    // connected at that moment.
    pub delivered_to: Vec<String>,
}

#[derive(Debug, Clone)]
pub struct ChatParticipant {
    pub device_id: String,
    pub friendly_name: Option<String>,
    pub hostname: String,
}

// Neither a last message nor an unread count: the server is a mailbox and keeps no history.
#[derive(Debug, Clone)]
pub struct ChatConversation {
    pub id: String,
    pub conversation_type: String,
    pub name: Option<String>,
    pub created_at: String,
    pub participants: Vec<ChatParticipant>,
}

/// How many seconds lie between the end of a connection and the next one.
pub const RECONNECT_SECONDS: u64 = 5;

/// A request to the messaging routes.
pub open spec fn messaging_request(
    base: Seq<char>,
    credential: Seq<char>,
    path: Seq<char>,
    method: HttpMethod,
    body: Option<Seq<char>>,
) -> RequestView {
    RequestView {
        method,
        url: without_trailing(base, '/') + path,
        bearer: Some(credential),
        body,
    }
}

fn plan_messaging(
    base_url: &str,
    credential: &str,
    path: &str,
    method: HttpMethod,
    body: Option<String>,
) -> (r: HttpRequest)
    ensures
        r@ == messaging_request(base_url@, credential@, path@, method, optional_view(body)),
{
    HttpRequest {
        method,
        url: join_url(base_url, path),
        bearer: Some(credential.to_owned()),
        body,
    }
}

/// The route of a conversation's messages.
pub open spec fn messages_path(conversation_id: Seq<char>) -> Seq<char> {
    "/v1/messaging/conversations/"@ + conversation_id + "/messages"@
}

fn messages_path_text(conversation_id: &str) -> (r: String)
    ensures
        r@ == messages_path(conversation_id@),
{
    joined("/v1/messaging/conversations/", conversation_id).concat("/messages")
}

/// Opens a conversation with a peer, given its RustDesk id; the server finds the device
/// that has it.
pub fn start_conversation(base_url: &str, credential: &str, peer_rustdesk_id: &str) -> (r:
    HttpRequest)
    ensures
        r@ == messaging_request(
            base_url@,
            credential@,
            "/v1/messaging/conversations"@,
            HttpMethod::Post,
            Some(
                rendered_in_order(
                    and_text(no_fields(), "peer_rustdesk_id"@, peer_rustdesk_id@),
                ),
            ),
        ),
{
    let mut body = empty_body();
    add_text(&mut body, "peer_rustdesk_id", peer_rustdesk_id);
    plan_messaging(
        base_url,
        credential,
        "/v1/messaging/conversations",
        HttpMethod::Post,
        Some(render_in_order(body)),
    )
}

/// Sends a message to a conversation.
pub fn send_message(base_url: &str, credential: &str, conversation_id: &str, body: &str) -> (r:
    HttpRequest)
    ensures
        r@ == messaging_request(
            base_url@,
            credential@,
            messages_path(conversation_id@),
            HttpMethod::Post,
            Some(rendered_in_order(and_text(no_fields(), "body"@, body@))),
        ),
{
    let mut fields = empty_body();
    add_text(&mut fields, "body", body);
    let path = messages_path_text(conversation_id);
    plan_messaging(
        base_url,
        credential,
        path.as_str(),
        HttpMethod::Post,
        Some(render_in_order(fields)),
    )
}

/// Asks for the conversations of this device.
pub fn list_conversations(base_url: &str, credential: &str) -> (r: HttpRequest)
    ensures
        r@ == messaging_request(
            base_url@,
            credential@,
            "/v1/messaging/conversations"@,
            HttpMethod::Get,
            None,
        ),
{
    plan_messaging(base_url, credential, "/v1/messaging/conversations", HttpMethod::Get, None)
}

/// Asks for the messages of a conversation that wait for this device.
pub fn get_messages(base_url: &str, credential: &str, conversation_id: &str) -> (r: HttpRequest)
    ensures
        r@ == messaging_request(
            base_url@,
            credential@,
            messages_path(conversation_id@),
            HttpMethod::Get,
            None,
        ),
{
    let path = messages_path_text(conversation_id);
    plan_messaging(base_url, credential, path.as_str(), HttpMethod::Get, None)
}

/// The messaging requests, by the names under which they fail.
#[derive(Debug, Clone, Copy, PartialEq, Eq, Structural)]
pub enum ChatRequest {
    StartConversation,
    SendMessage,
    ListConversations,
    GetMessages,
}

impl ChatRequest {
    pub open spec fn name(self) -> Seq<char> {
        match self {
            ChatRequest::StartConversation => "start_conversation"@,
            ChatRequest::SendMessage => "send_message"@,
            ChatRequest::ListConversations => "list_conversations"@,
            ChatRequest::GetMessages => "get_messages"@,
        }
    }
}

/// Holds the answer to a messaging request to the status of success; otherwise says which
/// status came, by its own words, and with what body.
pub fn chat_answer(request: ChatRequest, status: u16, status_text: &str, body: &str) -> (r: Result<
    (),
    String,
>)
    ensures
        r is Ok <==> status == 200,
        r matches Err(text) ==> text@ == request.name() + " failed: "@ + status_text@ + " "@
            + body@,
{
    if status != 200 {
        let name = match request {
            ChatRequest::StartConversation => "start_conversation",
            ChatRequest::SendMessage => "send_message",
            ChatRequest::ListConversations => "list_conversations",
            ChatRequest::GetMessages => "get_messages",
        };
        return Err(joined(name, " failed: ").concat(status_text).concat(" ").concat(body));
    }
    Ok(())
}

/// The address of the message socket: that of the directory, under the socket's own
/// scheme, without trailing slashes, and then the socket's route. Nothing where the
/// directory is under neither of the two schemes.
pub open spec fn socket_address(base: Seq<char>) -> Option<Seq<char>> {
    if starts_with(base, "https://"@) {
        Some(
            "wss://"@ + without_trailing(base.skip("https://"@.len() as int), '/')
                + "/v1/messaging/ws"@,
        )
    } else if starts_with(base, "http://"@) {
        Some(
            "ws://"@ + without_trailing(base.skip("http://"@.len() as int), '/')
                + "/v1/messaging/ws"@,
        )
    } else {
        None
    }
}

/// The address of the message socket.
pub fn ws_url_for(base_url: &str) -> (r: Result<String, &'static str>)
    ensures
        match socket_address(base_url@) {
            Some(address) => r is Ok && r->Ok_0@ == address,
            None => r is Err && r->Err_0@ == "Unrecognized managed directory base URL scheme"@,
        },
{
    if let Some(rest) = after_prefix(base_url, "https://") {
        let host = strip_trailing(rest.as_str(), '/');
        return Ok(joined("wss://", host.as_str()).concat("/v1/messaging/ws"));
    }
    if let Some(rest) = after_prefix(base_url, "http://") {
        let host = strip_trailing(rest.as_str(), '/');
        return Ok(joined("ws://", host.as_str()).concat("/v1/messaging/ws"));
    }
    Err("Unrecognized managed directory base URL scheme")
}

/// The authorization of the message socket.
pub fn authorization_header(credential: &str) -> (r: String)
    ensures
        r@ == "Bearer "@ + credential@,
{
    joined("Bearer ", credential)
}

/// What the server pushes.
pub struct IncomingPush {
    pub kind: String,
    pub conversation_id: String,
    // Of a pushed message.
    pub message: Option<ChatMessage>,
    // Of a delivery.
    pub message_id: Option<String>,
}

/// What came out of the message socket.
pub enum ChatFrame {
    /// A text frame, where it is a push.
    Text(Option<IncomingPush>),
    Close,
    /// A frame of another kind.
    Other,
    /// The socket failed; its own words.
    Failed(String),
    /// The socket has ended.
    End,
}

/// What to do with a frame.
pub enum FrameAction {
    /// Store a message with these marks, then show the event.
    StoreMessage {
        conversation_id: String,
        message: ChatMessage,
        is_from_self: bool,
        delivered: bool,
        event: String,
    },
    /// Mark a message of this device as delivered, then show the event.
    MarkDelivered { message_id: String, event: String },
    Ignore,
    /// Give the connection up, for this reason.
    GiveUp(String),
}

/// What to do with a frame, in characters.
pub enum FrameView {
    StoreMessage {
        conversation_id: Seq<char>,
        message: ChatMessage,
        is_from_self: bool,
        delivered: bool,
        event: Seq<char>,
    },
    MarkDelivered { message_id: Seq<char>, event: Seq<char> },
    Ignore,
    GiveUp(Seq<char>),
}

impl View for FrameAction {
    type V = FrameView;

    open spec fn view(&self) -> FrameView {
        match *self {
            FrameAction::StoreMessage {
                conversation_id,
                message,
                is_from_self,
                delivered,
                event,
            } => FrameView::StoreMessage {
                conversation_id: conversation_id@,
                message,
                is_from_self,
                delivered,
                event: event@,
            },
            FrameAction::MarkDelivered { message_id, event } => FrameView::MarkDelivered {
                message_id: message_id@,
                event: event@,
            },
            FrameAction::Ignore => FrameView::Ignore,
            FrameAction::GiveUp(reason) => FrameView::GiveUp(reason@),
        }
    }
}

/// The members of a message.
pub open spec fn message_members(message: ChatMessage) -> Map<Seq<char>, JsonNode> {
    let members = with_text(no_members(), "id"@, message.id@);
    let members = with_text(members, "sender_device_id"@, message.sender_device_id@);
    let members = with_text(members, "body"@, message.body@);
    let members = with_text(members, "sent_at"@, message.sent_at@);
    members.insert("delivered_to"@, JsonNode::Texts(texts(message.delivered_to@)))
}

/// The members of the event that a pushed message is shown by.
pub open spec fn message_event(conversation_id: Seq<char>, message: ChatMessage) -> Map<
    Seq<char>,
    JsonNode,
> {
    let members = with_text(no_members(), "name"@, "managed_chat_message"@);
    let members = with_text(members, "conversation_id"@, conversation_id);
    members.insert("message"@, JsonNode::Object(message_members(message)))
}

/// The members of the event that a delivery is shown by.
pub open spec fn delivery_event(conversation_id: Seq<char>, message_id: Seq<char>) -> Map<
    Seq<char>,
    JsonNode,
> {
    let members = with_text(no_members(), "name"@, "managed_chat_delivered"@);
    let members = with_text(members, "conversation_id"@, conversation_id);
    with_text(members, "message_id"@, message_id)
}

fn copied_texts(items: &Vec<String>) -> (r: Vec<String>)
    ensures
        r@ == items@,
{
    let mut out: Vec<String> = Vec::new();
    let mut i: usize = 0;
    while i < items.len()
        invariant
            i <= items@.len(),
            out@ == items@.take(i as int),
        decreases items@.len() - i,
    {
        out.push(items[i].clone());
        proof {
            assert(items@.take(i as int + 1) == items@.take(i as int).push(items@[i as int]));
        }
        i += 1;
    }
    proof {
        assert(items@.take(items@.len() as int) == items@);
    }
    out
}

fn message_event_text(conversation_id: &str, message: &ChatMessage) -> (r: String)
    ensures
        r@ == rendered(message_event(conversation_id@, *message)),
{
    let mut inner = empty_object();
    put_text(&mut inner, "id", message.id.as_str());
    put_text(&mut inner, "sender_device_id", message.sender_device_id.as_str());
    put_text(&mut inner, "body", message.body.as_str());
    put_text(&mut inner, "sent_at", message.sent_at.as_str());
    put(&mut inner, "delivered_to", JsonInput::Texts(copied_texts(&message.delivered_to)));
    let mut event = empty_object();
    put_text(&mut event, "name", "managed_chat_message");
    put_text(&mut event, "conversation_id", conversation_id);
    put(&mut event, "message", JsonInput::Object(inner));
    render_object(event)
}

fn delivery_event_text(conversation_id: &str, message_id: &str) -> (r: String)
    ensures
        r@ == rendered(delivery_event(conversation_id@, message_id@)),
{
    let mut event = empty_object();
    put_text(&mut event, "name", "managed_chat_delivered");
    put_text(&mut event, "conversation_id", conversation_id);
    put_text(&mut event, "message_id", message_id);
    render_object(event)
}

/// What a push calls for: a message that is there is stored, as someone else's and as
/// delivered, a delivery that names its message is noted, and anything else is let be.
pub open spec fn push_outcome(push: IncomingPush) -> FrameView {
    if push.kind@ == "message"@ {
        match push.message {
            Some(message) => FrameView::StoreMessage {
                conversation_id: push.conversation_id@,
                message,
                is_from_self: false,
                delivered: true,
                event: rendered(message_event(push.conversation_id@, message)),
            },
            None => FrameView::Ignore,
        }
    } else if push.kind@ == "delivered"@ {
        match push.message_id {
            Some(message_id) => FrameView::MarkDelivered {
                message_id: message_id@,
                event: rendered(delivery_event(push.conversation_id@, message_id@)),
            },
            None => FrameView::Ignore,
        }
    } else {
        FrameView::Ignore
    }
}

/// What to do with a push.
pub fn push_action(push: IncomingPush) -> (r: FrameAction)
    ensures
        r@ == push_outcome(push),
{
    if same_text(push.kind.as_str(), "message") {
        match push.message {
            Some(message) => {
                let event = message_event_text(push.conversation_id.as_str(), &message);
                FrameAction::StoreMessage {
                    conversation_id: push.conversation_id,
                    message,
                    is_from_self: false,
                    delivered: true,
                    event,
                }
            },
            None => FrameAction::Ignore,
        }
    } else if same_text(push.kind.as_str(), "delivered") {
        match push.message_id {
            Some(message_id) => {
                let event = delivery_event_text(
                    push.conversation_id.as_str(),
                    message_id.as_str(),
                );
                FrameAction::MarkDelivered { message_id, event }
            },
            None => FrameAction::Ignore,
        }
    } else {
        FrameAction::Ignore
    }
}

/// What a frame calls for: what its push does, nothing, or the end of the connection.
pub open spec fn frame_outcome(frame: ChatFrame) -> FrameView {
    match frame {
        ChatFrame::Text(Some(push)) => push_outcome(push),
        ChatFrame::Text(None) | ChatFrame::Other => FrameView::Ignore,
        ChatFrame::Close => FrameView::GiveUp("managed chat websocket closed by server"@),
        ChatFrame::Failed(error) => FrameView::GiveUp("managed chat websocket error: "@ + error@),
        ChatFrame::End => FrameView::GiveUp("managed chat websocket stream ended"@),
    }
}

/// What to do with what came out of the message socket.
pub fn frame_action(frame: ChatFrame) -> (r: FrameAction)
    ensures
        r@ == frame_outcome(frame),
{
    match frame {
        ChatFrame::Text(Some(push)) => push_action(push),
        ChatFrame::Text(None) | ChatFrame::Other => FrameAction::Ignore,
        ChatFrame::Close => FrameAction::GiveUp(
            "managed chat websocket closed by server".to_owned(),
        ),
        ChatFrame::Failed(error) => FrameAction::GiveUp(
            joined("managed chat websocket error: ", error.as_str()),
        ),
        ChatFrame::End => FrameAction::GiveUp("managed chat websocket stream ended".to_owned()),
    }
}

/// Where the service of a connection is.
pub enum ListenerStep {
    /// A frame is awaited.
    Listening,
    /// A push is being stored; its event comes next.
    Storing(String),
    /// An event is being shown.
    Showing,
    /// The connection was given up.
    Over,
}

/// Where the service of a connection is, in characters.
pub enum ListenerStepView {
    Listening,
    Storing(Seq<char>),
    Showing,
    Over,
}

impl View for ListenerStep {
    type V = ListenerStepView;

    open spec fn view(&self) -> ListenerStepView {
        match *self {
            ListenerStep::Listening => ListenerStepView::Listening,
            ListenerStep::Storing(event) => ListenerStepView::Storing(event@),
            ListenerStep::Showing => ListenerStepView::Showing,
            ListenerStep::Over => ListenerStepView::Over,
        }
    }
}

/// What has happened on a connection.
pub enum ListenerEvent {
    Received(ChatFrame),
    /// Storing was tried, and worked or not.
    Stored { succeeded: bool },
    /// Showing was tried.
    Shown,
}

/// What is done next on a connection.
pub enum ListenerAction {
    AwaitFrame,
    StoreMessage {
        conversation_id: String,
        message: ChatMessage,
        is_from_self: bool,
        delivered: bool,
    },
    MarkDelivered(String),
    ShowEvent(String),
    /// Give the connection up, for this reason.
    GiveUp(String),
    /// The event does not belong to the step. Nothing is done.
    OutOfTurn,
}

/// What is done next on a connection, in characters.
pub enum ListenerActionView {
    AwaitFrame,
    StoreMessage {
        conversation_id: Seq<char>,
        message: ChatMessage,
        is_from_self: bool,
        delivered: bool,
    },
    MarkDelivered(Seq<char>),
    ShowEvent(Seq<char>),
    GiveUp(Seq<char>),
    OutOfTurn,
}

impl View for ListenerAction {
    type V = ListenerActionView;

    open spec fn view(&self) -> ListenerActionView {
        match *self {
            ListenerAction::AwaitFrame => ListenerActionView::AwaitFrame,
            ListenerAction::StoreMessage {
                conversation_id,
                message,
                is_from_self,
                delivered,
            } => ListenerActionView::StoreMessage {
                conversation_id: conversation_id@,
                message,
                is_from_self,
                delivered,
            },
            ListenerAction::MarkDelivered(message_id) => ListenerActionView::MarkDelivered(
                message_id@,
            ),
            ListenerAction::ShowEvent(event) => ListenerActionView::ShowEvent(event@),
            ListenerAction::GiveUp(reason) => ListenerActionView::GiveUp(reason@),
            ListenerAction::OutOfTurn => ListenerActionView::OutOfTurn,
        }
    }
}

/// Where the service of a connection comes to, and what is done there.
pub struct ListenerTurn {
    pub step: ListenerStepView,
    pub action: ListenerActionView,
}

/// A frame has come.
pub open spec fn after_frame(frame: ChatFrame) -> ListenerTurn {
    match frame_outcome(frame) {
        FrameView::StoreMessage {
            conversation_id,
            message,
            is_from_self,
            delivered,
            event,
        } => ListenerTurn {
            step: ListenerStepView::Storing(event),
            action: ListenerActionView::StoreMessage {
                conversation_id,
                message,
                is_from_self,
                delivered,
            },
        },
        FrameView::MarkDelivered { message_id, event } => ListenerTurn {
            step: ListenerStepView::Storing(event),
            action: ListenerActionView::MarkDelivered(message_id),
        },
        FrameView::Ignore => ListenerTurn {
            step: ListenerStepView::Listening,
            action: ListenerActionView::AwaitFrame,
        },
        FrameView::GiveUp(reason) => ListenerTurn {
            step: ListenerStepView::Over,
            action: ListenerActionView::GiveUp(reason),
        },
    }
}

/// One turn of the service of a connection.
pub open spec fn listener_turn(step: ListenerStepView, event: ListenerEvent) -> ListenerTurn {
    let out_of_turn = ListenerTurn { step, action: ListenerActionView::OutOfTurn };
    match step {
        ListenerStepView::Listening => match event {
            ListenerEvent::Received(frame) => after_frame(frame),
            _ => out_of_turn,
        },
        ListenerStepView::Storing(shown) => match event {
            ListenerEvent::Stored { .. } => ListenerTurn {
                step: ListenerStepView::Showing,
                action: ListenerActionView::ShowEvent(shown),
            },
            _ => out_of_turn,
        },
        ListenerStepView::Showing => match event {
            ListenerEvent::Shown => ListenerTurn {
                step: ListenerStepView::Listening,
                action: ListenerActionView::AwaitFrame,
            },
            _ => out_of_turn,
        },
        ListenerStepView::Over => out_of_turn,
    }
}

/// The service of one connection of the message socket.
pub struct ChatListener {
    pub step: ListenerStep,
}

impl ChatListener {
    /// Begins the service of a connection, which awaits a frame.
    pub fn new() -> (r: Self)
        ensures
            r.step == ListenerStep::Listening,
    {
        ChatListener { step: ListenerStep::Listening }
    }

    fn receive(frame: ChatFrame) -> (r: (ListenerStep, ListenerAction))
        ensures
            (ListenerTurn { step: r.0@, action: r.1@ }) == after_frame(frame),
    {
        match frame_action(frame) {
            FrameAction::StoreMessage {
                conversation_id,
                message,
                is_from_self,
                delivered,
                event,
            } => (
                ListenerStep::Storing(event),
                ListenerAction::StoreMessage { conversation_id, message, is_from_self, delivered },
            ),
            FrameAction::MarkDelivered { message_id, event } => (
                ListenerStep::Storing(event),
                ListenerAction::MarkDelivered(message_id),
            ),
            FrameAction::Ignore => (ListenerStep::Listening, ListenerAction::AwaitFrame),
            FrameAction::GiveUp(reason) => (ListenerStep::Over, ListenerAction::GiveUp(reason)),
        }
    }

    /// Takes what has happened, and says what is done next.
    pub fn advance(&mut self, event: ListenerEvent) -> (r: ListenerAction)
        ensures
            (ListenerTurn { step: final(self).step@, action: r@ }) == listener_turn(
                old(self).step@,
                event,
            ),
    {
        let mut step = ListenerStep::Over;
        std::mem::swap(&mut step, &mut self.step);
        let (next, action) = match (step, event) {
            (ListenerStep::Listening, ListenerEvent::Received(frame)) => Self::receive(frame),
            (ListenerStep::Storing(shown), ListenerEvent::Stored { .. }) => (
                ListenerStep::Showing,
                ListenerAction::ShowEvent(shown),
            ),
            (ListenerStep::Showing, ListenerEvent::Shown) => (
                ListenerStep::Listening,
                ListenerAction::AwaitFrame,
            ),
            (step, _) => (step, ListenerAction::OutOfTurn),
        };
        self.step = next;
        action
    }
}

/// How often an event is handed to the process that shows it, which may still be starting.
pub const RELAY_ATTEMPTS: u32 = 10;

/// How many milliseconds lie between two attempts.
pub const RELAY_PAUSE_MILLIS: u64 = 1_000;

/// Whether to try once more after the given attempt, counted from one, found nobody.
pub fn relay_again(attempt: u32) -> (r: bool)
    ensures
        r == (attempt < RELAY_ATTEMPTS),
{
    attempt < RELAY_ATTEMPTS
}

/// The operations that another process can ask for.
#[derive(Debug, Clone, Copy, PartialEq, Eq, Structural)]
pub enum ChatOperation {
    StartConversation,
    SendMessage,
    ListConversations,
    GetMessages,
    SelfDeviceId,
}

/// The operation of a name.
pub open spec fn operation_named(name: Seq<char>) -> Option<ChatOperation> {
    if name == "start_conversation"@ {
        Some(ChatOperation::StartConversation)
    } else if name == "send_message"@ {
        Some(ChatOperation::SendMessage)
    } else if name == "list_conversations"@ {
        Some(ChatOperation::ListConversations)
    } else if name == "get_messages"@ {
        Some(ChatOperation::GetMessages)
    } else if name == "self_device_id"@ {
        Some(ChatOperation::SelfDeviceId)
    } else {
        None
    }
}

/// Finds the operation of a name.
pub fn parse_chat_operation(name: &str) -> (r: Result<ChatOperation, String>)
    ensures
        match operation_named(name@) {
            Some(operation) => r == Ok::<ChatOperation, String>(operation),
            None => r is Err && r->Err_0@ == "unknown managed chat IPC operation: "@ + name@,
        },
{
    if same_text(name, "start_conversation") {
        Ok(ChatOperation::StartConversation)
    } else if same_text(name, "send_message") {
        Ok(ChatOperation::SendMessage)
    } else if same_text(name, "list_conversations") {
        Ok(ChatOperation::ListConversations)
    } else if same_text(name, "get_messages") {
        Ok(ChatOperation::GetMessages)
    } else if same_text(name, "self_device_id") {
        Ok(ChatOperation::SelfDeviceId)
    } else {
        Err(joined("unknown managed chat IPC operation: ", name))
    }
}

/// The members of an answer that names this device.
pub open spec fn device_answer(device_id: Seq<char>) -> Seq<char> {
    rendered(with_text(no_members(), "device_id"@, device_id))
}

/// The answer that names this device, which tells it apart among the participants of a
/// conversation.
pub fn self_device_id(device_id: &str) -> (r: String)
    ensures
        r@ == device_answer(device_id@),
{
    let mut object = empty_object();
    put_text(&mut object, "device_id", device_id);
    render_object(object)
}

/// The answer of an operation that failed.
pub open spec fn error_answer(error: Seq<char>) -> Seq<char> {
    rendered(with_text(no_members(), "error"@, error))
}

/// The answer of an operation: the JSON text that it came to, or an object with the error.
pub fn ipc_answer(outcome: Result<String, String>) -> (r: String)
    ensures
        r@ == (match outcome {
            Ok(json) => json@,
            Err(error) => error_answer(error@),
        }),
{
    match outcome {
        Ok(json) => json,
        Err(error) => {
            let mut object = empty_object();
            put_text(&mut object, "error", error.as_str());
            render_object(object)
        },
    }
}

/// An operation with its arguments.
pub enum ChatCall {
    StartConversation { peer_rustdesk_id: String },
    SendMessage { conversation_id: String, body: String },
    ListConversations,
    GetMessages { conversation_id: String },
    SelfDeviceId,
}

/// Where the directory is and the credential for it.
pub struct ChatAccess {
    pub base_url: String,
    pub credential: String,
}

/// What an operation needs: a request to be sent, or nothing more than its answer.
pub enum IpcReply {
    Send(HttpRequest, ChatRequest),
    Answer(String),
}

/// The mathematical form of a reply.
pub enum ReplyView {
    Send(RequestView, ChatRequest),
    Answer(Seq<char>),
}

impl View for IpcReply {
    type V = ReplyView;

    open spec fn view(&self) -> ReplyView {
        match *self {
            IpcReply::Send(request, kind) => ReplyView::Send(request@, kind),
            IpcReply::Answer(text) => ReplyView::Answer(text@),
        }
    }
}

/// The request of a call, where it has one.
pub open spec fn call_request(call: ChatCall, base: Seq<char>, credential: Seq<char>) -> Option<
    (RequestView, ChatRequest),
> {
    match call {
        ChatCall::StartConversation { peer_rustdesk_id } => Some(
            (
                messaging_request(
                    base,
                    credential,
                    "/v1/messaging/conversations"@,
                    HttpMethod::Post,
                    Some(
                        rendered_in_order(
                            and_text(no_fields(), "peer_rustdesk_id"@, peer_rustdesk_id@),
                        ),
                    ),
                ),
                ChatRequest::StartConversation,
            ),
        ),
        ChatCall::SendMessage { conversation_id, body } => Some(
            (
                messaging_request(
                    base,
                    credential,
                    messages_path(conversation_id@),
                    HttpMethod::Post,
                    Some(rendered_in_order(and_text(no_fields(), "body"@, body@))),
                ),
                ChatRequest::SendMessage,
            ),
        ),
        ChatCall::ListConversations => Some(
            (
                messaging_request(
                    base,
                    credential,
                    "/v1/messaging/conversations"@,
                    HttpMethod::Get,
                    None,
                ),
                ChatRequest::ListConversations,
            ),
        ),
        ChatCall::GetMessages { conversation_id } => Some(
            (
                messaging_request(
                    base,
                    credential,
                    messages_path(conversation_id@),
                    HttpMethod::Get,
                    None,
                ),
                ChatRequest::GetMessages,
            ),
        ),
        ChatCall::SelfDeviceId => None,
    }
}

/// The reply to a call: an answer with the error where the call itself, the access to the
/// directory or the device's id is not to be had; the device's id; or the request.
pub open spec fn call_reply(
    call: Result<ChatCall, String>,
    access: Result<ChatAccess, String>,
    device_id: Result<String, String>,
) -> ReplyView {
    match call {
        Err(error) => ReplyView::Answer(error_answer(error@)),
        Ok(ChatCall::SelfDeviceId) => match device_id {
            Ok(id) => ReplyView::Answer(device_answer(id@)),
            Err(error) => ReplyView::Answer(error_answer(error@)),
        },
        Ok(call) => match access {
            Err(error) => ReplyView::Answer(error_answer(error@)),
            Ok(access) => {
                let (request, kind) = call_request(
                    call,
                    access.base_url@,
                    access.credential@,
                )->0;
                ReplyView::Send(request, kind)
            },
        },
    }
}

/// Carries out an operation that another process asks for, as far as that can be done
/// without sending anything.
pub fn handle_ipc_request(
    call: Result<ChatCall, String>,
    access: Result<ChatAccess, String>,
    device_id: Result<String, String>,
) -> (r: IpcReply)
    ensures
        r@ == call_reply(call, access, device_id),
{
    let call = match call {
        Ok(call) => call,
        Err(error) => {
            return IpcReply::Answer(ipc_answer(Err(error)));
        },
    };
    if let ChatCall::SelfDeviceId = call {
        return match device_id {
            Ok(id) => IpcReply::Answer(self_device_id(id.as_str())),
            Err(error) => IpcReply::Answer(ipc_answer(Err(error))),
        };
    }
    let access = match access {
        Ok(access) => access,
        Err(error) => {
            return IpcReply::Answer(ipc_answer(Err(error)));
        },
    };
    let base_url = access.base_url.as_str();
    let credential = access.credential.as_str();
    match call {
        ChatCall::StartConversation { peer_rustdesk_id } => IpcReply::Send(
            start_conversation(base_url, credential, peer_rustdesk_id.as_str()),
            ChatRequest::StartConversation,
        ),
        ChatCall::SendMessage { conversation_id, body } => IpcReply::Send(
            send_message(base_url, credential, conversation_id.as_str(), body.as_str()),
            ChatRequest::SendMessage,
        ),
        ChatCall::GetMessages { conversation_id } => IpcReply::Send(
            get_messages(base_url, credential, conversation_id.as_str()),
            ChatRequest::GetMessages,
        ),
        ChatCall::ListConversations | ChatCall::SelfDeviceId => IpcReply::Send(
            list_conversations(base_url, credential),
            ChatRequest::ListConversations,
        ),
    }
}

/// No push is lost. A pushed message is handed to the store as someone else's and as
/// delivered, and a delivery of one of this device's own is handed to it as noted; then,
/// whether or not that worked, the event is shown, and then the next frame is awaited.
pub proof fn law_no_push_is_lost(push: IncomingPush, succeeded: bool)
    ensures
        push.kind@ == "message"@ ==> (push.message matches Some(message) ==> {
            let stored = listener_turn(
                ListenerStepView::Listening,
                ListenerEvent::Received(ChatFrame::Text(Some(push))),
            );
            let shown = listener_turn(stored.step, ListenerEvent::Stored { succeeded });
            &&& stored.action == ListenerActionView::StoreMessage {
                conversation_id: push.conversation_id@,
                message,
                is_from_self: false,
                delivered: true,
            }
            &&& shown.action == ListenerActionView::ShowEvent(
                rendered(message_event(push.conversation_id@, message)),
            )
            &&& listener_turn(shown.step, ListenerEvent::Shown) == (ListenerTurn {
                step: ListenerStepView::Listening,
                action: ListenerActionView::AwaitFrame,
            })
        }),
        push.kind@ == "delivered"@ ==> (push.message_id matches Some(message_id) ==> {
            let stored = listener_turn(
                ListenerStepView::Listening,
                ListenerEvent::Received(ChatFrame::Text(Some(push))),
            );
            let shown = listener_turn(stored.step, ListenerEvent::Stored { succeeded });
            &&& stored.action == ListenerActionView::MarkDelivered(message_id@)
            &&& shown.action == ListenerActionView::ShowEvent(
                rendered(delivery_event(push.conversation_id@, message_id@)),
            )
            &&& listener_turn(shown.step, ListenerEvent::Shown) == (ListenerTurn {
                step: ListenerStepView::Listening,
                action: ListenerActionView::AwaitFrame,
            })
        }),
{
    reveal_strlit("message");
    reveal_strlit("delivered");
    assert("message"@.len() != "delivered"@.len());
}

/// A text that is no push, a push of another kind or without what its kind needs, and a
/// frame that is neither text nor the end are skipped: the next frame is awaited.
pub proof fn law_other_frames_are_skipped(frame: ChatFrame)
    requires
        match frame {
            ChatFrame::Text(Some(push)) => {
                &&& push.kind@ == "message"@ ==> push.message is None
                &&& push.kind@ == "delivered"@ ==> push.message_id is None
            },
            ChatFrame::Text(None) | ChatFrame::Other => true,
            ChatFrame::Close | ChatFrame::Failed(_) | ChatFrame::End => false,
        },
    ensures
        listener_turn(ListenerStepView::Listening, ListenerEvent::Received(frame)) == (
        ListenerTurn {
            step: ListenerStepView::Listening,
            action: ListenerActionView::AwaitFrame,
        }),
{
}

/// The service of a connection ends only where the socket is closed, fails or ends, and
/// never without a reason. No text ends it, and neither does a failure to store or to show.
pub proof fn law_connection_ends_only_with_the_socket(
    step: ListenerStepView,
    event: ListenerEvent,
)
    requires
        !(step is Over),
    ensures
        listener_turn(step, event).step is Over <==> listener_turn(step, event).action is GiveUp,
        listener_turn(step, event).step is Over <==> {
            &&& step is Listening
            &&& event matches ListenerEvent::Received(frame)
            &&& (frame is Close || frame is Failed || frame is End)
        },
{
}

/// The request goes to `path` under `base`, without a slash too many, with the credential as
/// its bearer and with the body that is given.
pub open spec fn goes_to(
    request: HttpRequest,
    base: Seq<char>,
    credential: Seq<char>,
    path: Seq<char>,
    method: HttpMethod,
    body: Option<Seq<char>>,
) -> bool {
    &&& request.method == method
    &&& request.url@ == without_trailing(base, '/') + path
    &&& request.bearer is Some
    &&& request.bearer->0@ == credential
    &&& body matches Some(text) ==> request.body is Some && request.body->0@ == text
    &&& body is None ==> request.body is None
}

/// A request that goes somewhere goes only there, with one method, one credential and one body.
pub proof fn law_request_goes_to_one_place(
    request: HttpRequest,
    base: Seq<char>,
    credential: Seq<char>,
    path: Seq<char>,
    method: HttpMethod,
    body: Option<Seq<char>>,
)
    requires
        goes_to(request, base, credential, path, method, body),
    ensures
        request.method == method,
        request.url@ == without_trailing(base, '/') + path,
        optional_view(request.bearer) == Some(credential),
        optional_view(request.body) == body,
{
}

/// Each messaging request carries its own arguments: the peer in the body of a new conversation,
/// the text in the body of a message, and the conversation in the route of its messages.
pub proof fn law_messaging_requests_carry_their_arguments(
    base: &str,
    credential: &str,
    peer: &str,
    conversation: &str,
    text: &str,
    start: HttpRequest,
    send: HttpRequest,
    list: HttpRequest,
    get: HttpRequest,
)
    requires
        call_ensures(start_conversation, (base, credential, peer), start),
        call_ensures(send_message, (base, credential, conversation, text), send),
        call_ensures(list_conversations, (base, credential), list),
        call_ensures(get_messages, (base, credential, conversation), get),
    ensures
        goes_to(
            start,
            base@,
            credential@,
            "/v1/messaging/conversations"@,
            HttpMethod::Post,
            Some(rendered_in_order(seq![("peer_rustdesk_id"@, JsonNode::Text(peer@))])),
        ),
        goes_to(
            send,
            base@,
            credential@,
            "/v1/messaging/conversations/"@ + conversation@ + "/messages"@,
            HttpMethod::Post,
            Some(rendered_in_order(seq![("body"@, JsonNode::Text(text@))])),
        ),
        goes_to(
            list,
            base@,
            credential@,
            "/v1/messaging/conversations"@,
            HttpMethod::Get,
            None,
        ),
        goes_to(
            get,
            base@,
            credential@,
            "/v1/messaging/conversations/"@ + conversation@ + "/messages"@,
            HttpMethod::Get,
            None,
        ),
{
    let views = (start@, send@, list@, get@);
    assert(and_text(no_fields(), "peer_rustdesk_id"@, peer@) =~= seq![
        ("peer_rustdesk_id"@, JsonNode::Text(peer@)),
    ]);
    assert(and_text(no_fields(), "body"@, text@) =~= seq![("body"@, JsonNode::Text(text@))]);
}

/// A call that another process makes is carried out with its own arguments, under the access
/// that there is: what the user typed is what is sent, to the conversation that was named.
pub proof fn law_call_is_carried_out_with_its_arguments(
    call: ChatCall,
    access: ChatAccess,
    device_id: Result<String, String>,
    r: IpcReply,
)
    requires
        call_ensures(
            handle_ipc_request,
            (
                Ok::<ChatCall, String>(call),
                Ok::<ChatAccess, String>(access),
                device_id,
            ),
            r,
        ),
    ensures
        call matches ChatCall::StartConversation { peer_rustdesk_id } ==> {
            &&& r matches IpcReply::Send(request, kind)
            &&& kind == ChatRequest::StartConversation
            &&& goes_to(
                request,
                access.base_url@,
                access.credential@,
                "/v1/messaging/conversations"@,
                HttpMethod::Post,
                Some(
                    rendered_in_order(
                        seq![("peer_rustdesk_id"@, JsonNode::Text(peer_rustdesk_id@))],
                    ),
                ),
            )
        },
        call matches ChatCall::SendMessage { conversation_id, body } ==> {
            &&& r matches IpcReply::Send(request, kind)
            &&& kind == ChatRequest::SendMessage
            &&& goes_to(
                request,
                access.base_url@,
                access.credential@,
                "/v1/messaging/conversations/"@ + conversation_id@ + "/messages"@,
                HttpMethod::Post,
                Some(rendered_in_order(seq![("body"@, JsonNode::Text(body@))])),
            )
        },
        call is ListConversations ==> {
            &&& r matches IpcReply::Send(request, kind)
            &&& kind == ChatRequest::ListConversations
            &&& goes_to(
                request,
                access.base_url@,
                access.credential@,
                "/v1/messaging/conversations"@,
                HttpMethod::Get,
                None,
            )
        },
        call matches ChatCall::GetMessages { conversation_id } ==> {
            &&& r matches IpcReply::Send(request, kind)
            &&& kind == ChatRequest::GetMessages
            &&& goes_to(
                request,
                access.base_url@,
                access.credential@,
                "/v1/messaging/conversations/"@ + conversation_id@ + "/messages"@,
                HttpMethod::Get,
                None,
            )
        },
{
    if let IpcReply::Send(request, kind) = r {
        let view = request@;
    }
    match call {
        ChatCall::StartConversation { peer_rustdesk_id } => {
            assert(and_text(no_fields(), "peer_rustdesk_id"@, peer_rustdesk_id@) =~= seq![
                ("peer_rustdesk_id"@, JsonNode::Text(peer_rustdesk_id@)),
            ]);
        },
        ChatCall::SendMessage { body, .. } => {
            assert(and_text(no_fields(), "body"@, body@) =~= seq![
                ("body"@, JsonNode::Text(body@)),
            ]);
        },
        _ => {},
    }
}

/// A call that cannot be understood, or has no access, is answered with the error in its own
/// words; the device's own id is answered without any access.
pub proof fn law_call_is_answered_with_its_error(
    call: Result<ChatCall, String>,
    access: Result<ChatAccess, String>,
    device_id: Result<String, String>,
    r: IpcReply,
)
    requires
        call_ensures(handle_ipc_request, (call, access, device_id), r),
    ensures
        call matches Err(error) ==> r matches IpcReply::Answer(text) && text@ == rendered(
            map!["error"@ => JsonNode::Text(error@)],
        ),
        call matches Ok(asked) ==> {
            &&& asked is SelfDeviceId ==> (device_id matches Ok(id) ==> (
            r matches IpcReply::Answer(text) && text@ == rendered(
                map!["device_id"@ => JsonNode::Text(id@)],
            )))
            &&& asked is SelfDeviceId ==> (device_id matches Err(error) ==> (
            r matches IpcReply::Answer(text) && text@ == rendered(
                map!["error"@ => JsonNode::Text(error@)],
            )))
            &&& !(asked is SelfDeviceId) ==> (access matches Err(error) ==> (
            r matches IpcReply::Answer(text) && text@ == rendered(
                map!["error"@ => JsonNode::Text(error@)],
            )))
        },
{
    assert forall|text: Seq<char>| #[trigger]
        error_answer(text) == rendered(map!["error"@ => JsonNode::Text(text)]) by {
        assert(with_text(no_members(), "error"@, text) =~= map!["error"@ => JsonNode::Text(text)]);
    }
    assert forall|text: Seq<char>| #[trigger]
        device_answer(text) == rendered(map!["device_id"@ => JsonNode::Text(text)]) by {
        assert(with_text(no_members(), "device_id"@, text) =~= map![
            "device_id"@ => JsonNode::Text(text),
        ]);
    }
}

/// An outcome is answered as it is, and a failure with its own words.
pub proof fn law_outcome_is_answered_as_it_is(
    outcome: Result<String, String>,
    r: String,
    device_id: &str,
    named: String,
)
    requires
        call_ensures(ipc_answer, (outcome,), r),
        call_ensures(self_device_id, (device_id,), named),
    ensures
        outcome matches Ok(json) ==> r@ == json@,
        outcome matches Err(error) ==> r@ == rendered(map!["error"@ => JsonNode::Text(error@)]),
        named@ == rendered(map!["device_id"@ => JsonNode::Text(device_id@)]),
{
    if let Err(error) = outcome {
        assert(with_text(no_members(), "error"@, error@) =~= map![
            "error"@ => JsonNode::Text(error@),
        ]);
    }
    assert(with_text(no_members(), "device_id"@, device_id@) =~= map![
        "device_id"@ => JsonNode::Text(device_id@),
    ]);
}

/// The name of an operation denotes that operation and no other, and another name is answered
/// with it.
pub proof fn law_operations_are_told_by_their_names(
    name: &str,
    r: Result<ChatOperation, String>,
)
    requires
        call_ensures(parse_chat_operation, (name,), r),
    ensures
        name@ == "start_conversation"@ <==> r == Ok::<ChatOperation, String>(
            ChatOperation::StartConversation,
        ),
        name@ == "send_message"@ <==> r == Ok::<ChatOperation, String>(ChatOperation::SendMessage),
        name@ == "list_conversations"@ <==> r == Ok::<ChatOperation, String>(
            ChatOperation::ListConversations,
        ),
        name@ == "get_messages"@ <==> r == Ok::<ChatOperation, String>(ChatOperation::GetMessages),
        name@ == "self_device_id"@ <==> r == Ok::<ChatOperation, String>(
            ChatOperation::SelfDeviceId,
        ),
        r matches Err(text) ==> text@ == "unknown managed chat IPC operation: "@ + name@,
{
    reveal_strlit("start_conversation");
    reveal_strlit("send_message");
    reveal_strlit("list_conversations");
    reveal_strlit("get_messages");
    reveal_strlit("self_device_id");
    assert("start_conversation"@.len() == 18 && "start_conversation"@[1] == 't');
    assert("send_message"@.len() == 12 && "send_message"@[0] == 's');
    assert("list_conversations"@.len() == 18 && "list_conversations"@[1] == 'i');
    assert("get_messages"@.len() == 12 && "get_messages"@[0] == 'g');
    assert("self_device_id"@.len() == 14);
}

/// The answer to a messaging request is good exactly where its status is that of success, and
/// otherwise the request, the status and the body are named.
pub proof fn law_messaging_needs_success(
    request: ChatRequest,
    status: u16,
    status_text: &str,
    body: &str,
    r: Result<(), String>,
)
    requires
        call_ensures(chat_answer, (request, status, status_text, body), r),
    ensures
        r is Ok <==> status == 200,
        r matches Err(text) ==> {
            let name = if request == ChatRequest::StartConversation {
                "start_conversation"@
            } else if request == ChatRequest::SendMessage {
                "send_message"@
            } else if request == ChatRequest::ListConversations {
                "list_conversations"@
            } else {
                "get_messages"@
            };
            text@ == name + " failed: "@ + status_text@ + " "@ + body@
        },
{
}

/// The message socket is at the directory's own host, encrypted where the directory is, and its
/// bearer is the credential.
pub proof fn law_socket_is_where_the_directory_is(
    base: &str,
    rest: Seq<char>,
    r: Result<String, &'static str>,
    credential: &str,
    header: String,
)
    requires
        call_ensures(ws_url_for, (base,), r),
        call_ensures(authorization_header, (credential,), header),
    ensures
        base@ == "https://"@ + rest ==> r is Ok && r->Ok_0@ == "wss://"@ + without_trailing(
            rest,
            '/',
        ) + "/v1/messaging/ws"@,
        base@ == "http://"@ + rest ==> r is Ok && r->Ok_0@ == "ws://"@ + without_trailing(
            rest,
            '/',
        ) + "/v1/messaging/ws"@,
        r is Ok ==> starts_with(base@, "https://"@) || starts_with(base@, "http://"@),
        r matches Err(reason) ==> reason@ == "Unrecognized managed directory base URL scheme"@,
        header@ == "Bearer "@ + credential@,
{
    reveal_strlit("https://");
    reveal_strlit("http://");
    let secure = "https://"@;
    let plain = "http://"@;
    assert(secure.len() == 8 && secure[4] == 's');
    assert(plain.len() == 7 && plain[4] == ':');
    if base@ == secure + rest {
        assert(base@.take(8) =~= secure);
        assert(base@.skip(8) =~= rest);
    }
    if base@ == plain + rest {
        assert(base@.take(7) =~= plain);
        assert(base@.skip(7) =~= rest);
        assert(base@[4] == ':');
        if starts_with(base@, secure) {
            assert(base@.take(8)[4] == 's');
        }
    }
}

/// The members of a pushed message.
pub open spec fn pushed_members(message: ChatMessage) -> Map<Seq<char>, JsonNode> {
    map![
        "id"@ => JsonNode::Text(message.id@),
        "sender_device_id"@ => JsonNode::Text(message.sender_device_id@),
        "body"@ => JsonNode::Text(message.body@),
        "sent_at"@ => JsonNode::Text(message.sent_at@),
        "delivered_to"@ => JsonNode::Texts(
            Seq::new(message.delivered_to@.len(), |i: int| message.delivered_to@[i]@),
        ),
    ]
}

/// The members of a pushed message are its own fields under their names.
pub proof fn law_pushed_members_are_the_messages_own(message: ChatMessage)
    ensures
        pushed_members(message)["id"@] == JsonNode::Text(message.id@),
        pushed_members(message)["sender_device_id"@] == JsonNode::Text(message.sender_device_id@),
        pushed_members(message)["body"@] == JsonNode::Text(message.body@),
        pushed_members(message)["sent_at"@] == JsonNode::Text(message.sent_at@),
        pushed_members(message)["delivered_to"@] == JsonNode::Texts(
            Seq::new(message.delivered_to@.len(), |i: int| message.delivered_to@[i]@),
        ),
{
    reveal_strlit("id");
    reveal_strlit("sender_device_id");
    reveal_strlit("body");
    reveal_strlit("sent_at");
    reveal_strlit("delivered_to");
    assert("id"@.len() == 2);
    assert("sender_device_id"@.len() == 16);
    assert("body"@.len() == 4);
    assert("sent_at"@.len() == 7);
    assert("delivered_to"@.len() == 12);
}

/// A connection that listens hands a pushed message to the store as it came, as someone else's
/// and as delivered, and a delivery by its message; it skips every other text; and it is given
/// up exactly where the socket is over. The event that comes next has what was pushed.
pub proof fn law_listening_takes_each_push(
    listener: &mut ChatListener,
    frame: ChatFrame,
    r: ListenerAction,
)
    requires
        call_ensures(ChatListener::advance, (listener, ListenerEvent::Received(frame)), r),
        old(listener).step == ListenerStep::Listening,
    ensures
        frame matches ChatFrame::Text(Some(push)) ==> {
            &&& push.kind@ == "message"@ ==> (push.message matches Some(pushed) ==> {
                &&& r matches ListenerAction::StoreMessage {
                    conversation_id,
                    message,
                    is_from_self,
                    delivered,
                }
                &&& conversation_id@ == push.conversation_id@
                &&& message == pushed
                &&& !is_from_self
                &&& delivered
                &&& final(listener).step matches ListenerStep::Storing(event)
                &&& event@ == rendered(
                    map![
                        "name"@ => JsonNode::Text("managed_chat_message"@),
                        "conversation_id"@ => JsonNode::Text(push.conversation_id@),
                        "message"@ => JsonNode::Object(pushed_members(pushed)),
                    ],
                )
            })
            &&& push.kind@ == "delivered"@ ==> (push.message_id matches Some(named) ==> {
                &&& r matches ListenerAction::MarkDelivered(message_id)
                &&& message_id@ == named@
                &&& final(listener).step matches ListenerStep::Storing(event)
                &&& event@ == rendered(
                    map![
                        "name"@ => JsonNode::Text("managed_chat_delivered"@),
                        "conversation_id"@ => JsonNode::Text(push.conversation_id@),
                        "message_id"@ => JsonNode::Text(named@),
                    ],
                )
            })
            &&& push.kind@ != "message"@ && push.kind@ != "delivered"@ ==> r is AwaitFrame
                && final(listener).step is Listening
            &&& push.kind@ == "message"@ && push.message is None ==> r is AwaitFrame
                && final(listener).step is Listening
            &&& push.kind@ == "delivered"@ && push.message_id is None ==> r is AwaitFrame
                && final(listener).step is Listening
        },
        frame == ChatFrame::Text(None) || frame is Other ==> r is AwaitFrame
            && final(listener).step is Listening,
        frame is Close ==> {
            &&& r matches ListenerAction::GiveUp(reason)
            &&& reason@ == "managed chat websocket closed by server"@
            &&& final(listener).step is Over
        },
        frame matches ChatFrame::Failed(error) ==> {
            &&& r matches ListenerAction::GiveUp(reason)
            &&& reason@ == "managed chat websocket error: "@ + error@
            &&& final(listener).step is Over
        },
        frame is End ==> {
            &&& r matches ListenerAction::GiveUp(reason)
            &&& reason@ == "managed chat websocket stream ended"@
            &&& final(listener).step is Over
        },
{
    reveal_strlit("message");
    reveal_strlit("delivered");
    assert("message"@.len() != "delivered"@.len());
    let seen = (old(listener).step@, final(listener).step@, r@);
    if let ChatFrame::Text(Some(push)) = frame {
        if let Some(pushed) = push.message {
            assert(texts(pushed.delivered_to@) =~= Seq::new(
                pushed.delivered_to@.len(),
                |i: int| pushed.delivered_to@[i]@,
            ));
            assert(message_members(pushed) =~= pushed_members(pushed));
            assert(message_event(push.conversation_id@, pushed) =~= map![
                "name"@ => JsonNode::Text("managed_chat_message"@),
                "conversation_id"@ => JsonNode::Text(push.conversation_id@),
                "message"@ => JsonNode::Object(pushed_members(pushed)),
            ]);
        }
        if let Some(named) = push.message_id {
            assert(delivery_event(push.conversation_id@, named@) =~= map![
                "name"@ => JsonNode::Text("managed_chat_delivered"@),
                "conversation_id"@ => JsonNode::Text(push.conversation_id@),
                "message_id"@ => JsonNode::Text(named@),
            ]);
        }
    }
}

/// After storing was tried, whether or not it worked, the event that was waiting is shown, and
/// after that the next frame is awaited. A new connection listens.
pub proof fn law_event_is_shown_after_storing(
    listener: &mut ChatListener,
    event: ListenerEvent,
    r: ListenerAction,
    fresh: ChatListener,
)
    requires
        call_ensures(ChatListener::advance, (listener, event), r),
        call_ensures(ChatListener::new, (), fresh),
    ensures
        fresh.step is Listening,
        old(listener).step matches ListenerStep::Storing(waiting) ==> (event is Stored ==> {
            &&& r matches ListenerAction::ShowEvent(shown)
            &&& shown@ == waiting@
            &&& final(listener).step is Showing
        }),
        old(listener).step is Showing && event is Shown ==> r is AwaitFrame
            && final(listener).step is Listening,
        old(listener).step is Over ==> r is OutOfTurn && final(listener).step is Over,
{
    let seen = (old(listener).step@, final(listener).step@, r@);
}

/// An event is handed on ten times at most.
pub proof fn law_events_are_handed_on_ten_times(attempt: u32, r: bool)
    requires
        call_ensures(relay_again, (attempt,), r),
    ensures
        r <==> attempt < 10,
{
}

/// A push of a message that is there is stored as it came, as someone else's and as
/// delivered, one that names a delivered message marks that, and every other one is let be.
/// A frame does what its push does.
pub proof fn law_push_is_acted_on_by_its_kind(
    push: IncomingPush,
    r: FrameAction,
    framed: FrameAction,
)
    requires
        call_ensures(push_action, (push,), r),
        call_ensures(frame_action, (ChatFrame::Text(Some(push)),), framed),
    ensures
        framed@ == r@,
        push.kind@ == "message"@ ==> (push.message matches Some(pushed) ==> {
            &&& r matches FrameAction::StoreMessage {
                conversation_id,
                message,
                is_from_self,
                delivered,
                event,
            }
            &&& conversation_id@ == push.conversation_id@
            &&& message == pushed
            &&& !is_from_self
            &&& delivered
            &&& event@ == rendered(
                map![
                    "name"@ => JsonNode::Text("managed_chat_message"@),
                    "conversation_id"@ => JsonNode::Text(push.conversation_id@),
                    "message"@ => JsonNode::Object(pushed_members(pushed)),
                ],
            )
        }),
        push.kind@ == "delivered"@ ==> (push.message_id matches Some(named) ==> {
            &&& r matches FrameAction::MarkDelivered { message_id, event }
            &&& message_id@ == named@
            &&& event@ == rendered(
                map![
                    "name"@ => JsonNode::Text("managed_chat_delivered"@),
                    "conversation_id"@ => JsonNode::Text(push.conversation_id@),
                    "message_id"@ => JsonNode::Text(named@),
                ],
            )
        }),
        push.kind@ == "message"@ && push.message is None ==> r is Ignore,
        push.kind@ == "delivered"@ && push.message_id is None ==> r is Ignore,
        push.kind@ != "message"@ && push.kind@ != "delivered"@ ==> r is Ignore,
{
    reveal_strlit("message");
    reveal_strlit("delivered");
    assert("message"@.len() != "delivered"@.len());
    let seen = r@;
    if let Some(pushed) = push.message {
        assert(texts(pushed.delivered_to@) =~= Seq::new(
            pushed.delivered_to@.len(),
            |i: int| pushed.delivered_to@[i]@,
        ));
        assert(message_members(pushed) =~= pushed_members(pushed));
        assert(message_event(push.conversation_id@, pushed) =~= map![
            "name"@ => JsonNode::Text("managed_chat_message"@),
            "conversation_id"@ => JsonNode::Text(push.conversation_id@),
            "message"@ => JsonNode::Object(pushed_members(pushed)),
        ]);
    }
    if let Some(named) = push.message_id {
        assert(delivery_event(push.conversation_id@, named@) =~= map![
            "name"@ => JsonNode::Text("managed_chat_delivered"@),
            "conversation_id"@ => JsonNode::Text(push.conversation_id@),
            "message_id"@ => JsonNode::Text(named@),
        ]);
    }
}

/// The connection is given up exactly where the socket was closed, failed or came to its end,
/// and says which; a text without a push, and any other frame, are let be.
pub proof fn law_connection_is_given_up_at_its_end(frame: ChatFrame, r: FrameAction)
    requires
        call_ensures(frame_action, (frame,), r),
    ensures
        r is GiveUp <==> frame is Close || frame is Failed || frame is End,
        r matches FrameAction::GiveUp(reason) ==> {
            &&& frame is Close ==> reason@ == "managed chat websocket closed by server"@
            &&& frame matches ChatFrame::Failed(error) ==> reason@
                == "managed chat websocket error: "@ + error@
            &&& frame is End ==> reason@ == "managed chat websocket stream ended"@
        },
        frame is Other || frame == ChatFrame::Text(None) ==> r is Ignore,
{
    let seen = r@;
}

} // verus!
