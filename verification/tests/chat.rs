use rustdesk_managed::managed_chat::{
    authorization_header, chat_answer, frame_action, get_messages, handle_ipc_request, ipc_answer,
    list_conversations, parse_chat_operation, relay_again, self_device_id, send_message,
    start_conversation, ws_url_for, ChatAccess, ChatCall, ChatFrame, ChatListener, ChatMessage,
    ChatOperation, ChatRequest, FrameAction, IncomingPush, IpcReply, ListenerAction,
    ListenerEvent,
};
use rustdesk_managed::requests::HttpMethod;

const BASE: &str = "https://directory.example//";

fn message() -> ChatMessage {
    ChatMessage {
        id: "m-1".to_owned(),
        sender_device_id: "device-2".to_owned(),
        body: "line\n\"two\"".to_owned(),
        sent_at: "2026-01-01T00:00:00Z".to_owned(),
        delivered_to: vec!["device-1".to_owned(), "device-3".to_owned()],
    }
}

fn push(kind: &str, message: Option<ChatMessage>, message_id: Option<&str>) -> IncomingPush {
    IncomingPush {
        kind: kind.to_owned(),
        conversation_id: "c-1".to_owned(),
        message,
        message_id: message_id.map(|id| id.to_owned()),
    }
}

#[test]
fn messaging_requests_go_to_their_routes() {
    let start = start_conversation(BASE, "cred", "42");
    assert_eq!(start.method, HttpMethod::Post);
    assert_eq!(start.url, "https://directory.example/v1/messaging/conversations");
    assert_eq!(start.body.as_deref(), Some("{\"peer_rustdesk_id\":\"42\"}"));
    let send = send_message(BASE, "cred", "c-1", "hi");
    assert_eq!(send.method, HttpMethod::Post);
    assert_eq!(send.url, "https://directory.example/v1/messaging/conversations/c-1/messages");
    assert_eq!(send.body.as_deref(), Some("{\"body\":\"hi\"}"));
    let list = list_conversations(BASE, "cred");
    assert_eq!((list.method, list.body.is_none()), (HttpMethod::Get, true));
    assert_eq!(list.url, start.url);
    let get = get_messages(BASE, "cred", "c-1");
    assert_eq!((get.method, get.body.is_none()), (HttpMethod::Get, true));
    assert_eq!(get.url, send.url);
    for request in [start, send, list, get] {
        assert_eq!(request.bearer.as_deref(), Some("cred"));
    }
}

#[test]
fn messaging_answers_must_succeed() {
    assert_eq!(chat_answer(ChatRequest::SendMessage, 200, "200 OK", "x"), Ok(()));
    for (request, name) in [
        (ChatRequest::StartConversation, "start_conversation"),
        (ChatRequest::SendMessage, "send_message"),
        (ChatRequest::ListConversations, "list_conversations"),
        (ChatRequest::GetMessages, "get_messages"),
    ] {
        assert_eq!(
            chat_answer(request, 404, "404 Not Found", "gone"),
            Err(format!("{} failed: 404 Not Found gone", name))
        );
    }
}

#[test]
fn socket_has_its_own_scheme() {
    assert_eq!(
        ws_url_for("https://directory.example//").ok().as_deref(),
        Some("wss://directory.example/v1/messaging/ws")
    );
    assert_eq!(
        ws_url_for("http://localhost:80").ok().as_deref(),
        Some("ws://localhost:80/v1/messaging/ws")
    );
    for base in ["", "https:/x", "HTTPS://x", "ftp://x"] {
        assert_eq!(
            ws_url_for(base).err(),
            Some("Unrecognized managed directory base URL scheme")
        );
    }
    assert_eq!(authorization_header("cred"), "Bearer cred");
}

#[test]
fn pushed_message_is_stored_and_shown() {
    match frame_action(ChatFrame::Text(Some(push("message", Some(message()), None)))) {
        FrameAction::StoreMessage { conversation_id, message, is_from_self, delivered, event } => {
            assert_eq!(conversation_id, "c-1");
            assert!(!is_from_self);
            assert!(delivered);
            assert_eq!(message.id, "m-1");
            let event: serde_json::Value = serde_json::from_str(&event).unwrap();
            assert_eq!(event["name"], "managed_chat_message");
            assert_eq!(event["conversation_id"], "c-1");
            assert_eq!(event["message"]["id"], "m-1");
            assert_eq!(event["message"]["sender_device_id"], "device-2");
            assert_eq!(event["message"]["body"], "line\n\"two\"");
            assert_eq!(event["message"]["sent_at"], "2026-01-01T00:00:00Z");
            assert_eq!(event["message"]["delivered_to"][1], "device-3");
            assert_eq!(event["message"].as_object().unwrap().len(), 5);
        }
        _ => panic!(),
    }
}

#[test]
fn delivery_is_noted_and_shown() {
    match frame_action(ChatFrame::Text(Some(push("delivered", None, Some("m-1"))))) {
        FrameAction::MarkDelivered { message_id, event } => {
            assert_eq!(message_id, "m-1");
            assert_eq!(
                event,
                "{\"conversation_id\":\"c-1\",\"message_id\":\"m-1\",\
                 \"name\":\"managed_chat_delivered\"}"
            );
        }
        _ => panic!(),
    }
}

#[test]
fn connection_is_served_until_the_socket_ends() {
    for succeeded in [true, false] {
        let mut listener = ChatListener::new();
        let frame = ChatFrame::Text(Some(push("message", Some(message()), None)));
        match listener.advance(ListenerEvent::Received(frame)) {
            ListenerAction::StoreMessage { conversation_id, message, is_from_self, delivered } => {
                assert_eq!(conversation_id, "c-1");
                assert_eq!(message.id, "m-1");
                assert!(!is_from_self);
                assert!(delivered);
            }
            _ => panic!(),
        }
        let action = listener.advance(ListenerEvent::Shown);
        assert!(matches!(action, ListenerAction::OutOfTurn));
        match listener.advance(ListenerEvent::Stored { succeeded }) {
            ListenerAction::ShowEvent(event) => {
                let event: serde_json::Value = serde_json::from_str(&event).unwrap();
                assert_eq!(event["name"], "managed_chat_message");
            }
            _ => panic!(),
        }
        let action = listener.advance(ListenerEvent::Shown);
        assert!(matches!(action, ListenerAction::AwaitFrame));

        let action = listener.advance(ListenerEvent::Received(ChatFrame::Text(None)));
        assert!(matches!(action, ListenerAction::AwaitFrame));

        let frame = ChatFrame::Text(Some(push("delivered", None, Some("m-1"))));
        match listener.advance(ListenerEvent::Received(frame)) {
            ListenerAction::MarkDelivered(message_id) => assert_eq!(message_id, "m-1"),
            _ => panic!(),
        }
        match listener.advance(ListenerEvent::Stored { succeeded }) {
            ListenerAction::ShowEvent(event) => {
                let event: serde_json::Value = serde_json::from_str(&event).unwrap();
                assert_eq!(event["name"], "managed_chat_delivered");
            }
            _ => panic!(),
        }
        listener.advance(ListenerEvent::Shown);

        match listener.advance(ListenerEvent::Received(ChatFrame::End)) {
            ListenerAction::GiveUp(reason) => {
                assert_eq!(reason, "managed chat websocket stream ended");
            }
            _ => panic!(),
        }
        let action = listener.advance(ListenerEvent::Received(ChatFrame::Other));
        assert!(matches!(action, ListenerAction::OutOfTurn));
    }
}

#[test]
fn other_frames_are_let_be() {
    for frame in [
        ChatFrame::Text(None),
        ChatFrame::Other,
        ChatFrame::Text(Some(push("message", None, Some("m-1")))),
        ChatFrame::Text(Some(push("delivered", Some(message()), None))),
        ChatFrame::Text(Some(push("typing", Some(message()), Some("m-1")))),
    ] {
        assert!(matches!(frame_action(frame), FrameAction::Ignore));
    }
}

#[test]
fn ended_sockets_are_given_up() {
    for (frame, reason) in [
        (ChatFrame::Close, "managed chat websocket closed by server"),
        (ChatFrame::Failed("reset".to_owned()), "managed chat websocket error: reset"),
        (ChatFrame::End, "managed chat websocket stream ended"),
    ] {
        match frame_action(frame) {
            FrameAction::GiveUp(text) => assert_eq!(text, reason),
            _ => panic!(),
        }
    }
    assert!(relay_again(1));
    assert!(relay_again(9));
    assert!(!relay_again(10));
}

#[test]
fn operations_have_names() {
    for (name, operation) in [
        ("start_conversation", ChatOperation::StartConversation),
        ("send_message", ChatOperation::SendMessage),
        ("list_conversations", ChatOperation::ListConversations),
        ("get_messages", ChatOperation::GetMessages),
        ("self_device_id", ChatOperation::SelfDeviceId),
    ] {
        assert_eq!(parse_chat_operation(name), Ok(operation));
    }
    assert_eq!(
        parse_chat_operation("dance"),
        Err("unknown managed chat IPC operation: dance".to_owned())
    );
}

fn access() -> Result<ChatAccess, String> {
    Ok(ChatAccess { base_url: BASE.to_owned(), credential: "cred".to_owned() })
}

fn answered(reply: IpcReply) -> String {
    match reply {
        IpcReply::Answer(text) => text,
        _ => panic!(),
    }
}

#[test]
fn calls_are_sent() {
    let none = || Err("unused".to_owned());
    for (call, kind, url) in [
        (
            ChatCall::StartConversation { peer_rustdesk_id: "42".to_owned() },
            ChatRequest::StartConversation,
            "https://directory.example/v1/messaging/conversations",
        ),
        (
            ChatCall::SendMessage { conversation_id: "c".to_owned(), body: "b".to_owned() },
            ChatRequest::SendMessage,
            "https://directory.example/v1/messaging/conversations/c/messages",
        ),
        (
            ChatCall::ListConversations,
            ChatRequest::ListConversations,
            "https://directory.example/v1/messaging/conversations",
        ),
        (
            ChatCall::GetMessages { conversation_id: "c".to_owned() },
            ChatRequest::GetMessages,
            "https://directory.example/v1/messaging/conversations/c/messages",
        ),
    ] {
        match handle_ipc_request(Ok(call), access(), none()) {
            IpcReply::Send(request, sent) => {
                assert_eq!(request.url, url);
                assert_eq!(sent, kind);
            }
            _ => panic!(),
        }
    }
}

#[test]
fn failed_calls_are_answered_with_the_error() {
    let unused = || Err("unused".to_owned());
    assert_eq!(
        answered(handle_ipc_request(Err("bad call".to_owned()), access(), unused())),
        "{\"error\":\"bad call\"}"
    );
    assert_eq!(
        answered(handle_ipc_request(
            Ok(ChatCall::ListConversations),
            Err("no access".to_owned()),
            unused(),
        )),
        "{\"error\":\"no access\"}"
    );
    assert_eq!(
        answered(handle_ipc_request(
            Ok(ChatCall::SelfDeviceId),
            Err("unused".to_owned()),
            Ok("device-1".to_owned()),
        )),
        "{\"device_id\":\"device-1\"}"
    );
    assert_eq!(
        answered(handle_ipc_request(
            Ok(ChatCall::SelfDeviceId),
            access(),
            Err("not enrolled".to_owned()),
        )),
        "{\"error\":\"not enrolled\"}"
    );
    assert_eq!(self_device_id("d"), "{\"device_id\":\"d\"}");
    assert_eq!(ipc_answer(Ok("[1]".to_owned())), "[1]");
    assert_eq!(ipc_answer(Err("a \"b\"".to_owned())), "{\"error\":\"a \\\"b\\\"\"}");
}
