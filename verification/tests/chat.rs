use webrtc_chat::chat_model::{
    chat_content, message_class, message_sender_name, scroll_top_target,
    validation_failure_alert, ChatContent, ChatModel, Command, Message, MessageSender, Msg,
};
use webrtc_chat::connection::{
    get_debug_header_string, get_debug_state_string, is_chat_enabled,
    is_disconnect_button_visible, ConnectionState, DataChannelState, IceConnectionState,
    IceGatheringState, State,
};
use webrtc_chat::offer_code::encode_offer_and_candidates;

fn open_server() -> State {
    State::Server(ConnectionState {
        ice_gathering_state: Some(IceGatheringState::Complete),
        ice_connection_state: Some(IceConnectionState::Connected),
        data_channel_state: Some(DataChannelState::Open),
    })
}

fn typed(text: &str) -> ChatModel {
    let mut chat = ChatModel::new();
    chat.update(Msg::UpdateInputChatValue(text.to_string()), &State::Default);
    chat
}

#[test]
fn new_chat_is_empty() {
    let chat = ChatModel::new();
    assert!(chat.messages().is_empty());
    assert_eq!(chat.value(), "");
    assert_eq!(chat.chat_value(), "");
}

#[test]
fn message_keeps_sender_and_content() {
    let m = Message::new("hi".to_string(), MessageSender::Other);
    assert_eq!(m.sender(), MessageSender::Other);
    assert_eq!(m.content(), "hi");
}

#[test]
fn send_appends_my_message_and_sends_it() {
    let mut chat = typed("hello");
    let r = chat.update(Msg::Send, &open_server());
    assert!(r.should_render);
    assert_eq!(chat.messages().len(), 1);
    assert_eq!(chat.messages()[0].sender(), MessageSender::Me);
    assert_eq!(chat.messages()[0].content(), "hello");
    assert_eq!(chat.chat_value(), "");
    assert_eq!(r.commands.len(), 2);
    assert!(matches!(&r.commands[0], Command::SendMessage(t) if t == "hello"));
    assert!(matches!(&r.commands[1], Command::ScrollTop));
}

#[test]
fn send_with_empty_box_still_sends() {
    let mut chat = ChatModel::new();
    let r = chat.update(Msg::Send, &open_server());
    assert_eq!(chat.messages().len(), 1);
    assert_eq!(chat.messages()[0].content(), "");
    assert!(matches!(&r.commands[0], Command::SendMessage(t) if t.is_empty()));
}

#[test]
fn enter_key_sends_typed_text() {
    let mut chat = typed("yo");
    let r = chat.update(Msg::OnKeyUp(13), &open_server());
    assert_eq!(chat.messages().len(), 1);
    assert_eq!(chat.messages()[0].content(), "yo");
    assert_eq!(chat.chat_value(), "");
    assert!(matches!(&r.commands[0], Command::SendMessage(t) if t == "yo"));
}

#[test]
fn enter_key_on_empty_box_does_nothing() {
    let mut chat = ChatModel::new();
    let r = chat.update(Msg::OnKeyUp(13), &open_server());
    assert!(r.should_render);
    assert!(chat.messages().is_empty());
    assert!(r.commands.is_empty());
}

#[test]
fn other_key_does_nothing() {
    let mut chat = typed("abc");
    let r = chat.update(Msg::OnKeyUp(65), &open_server());
    assert!(chat.messages().is_empty());
    assert_eq!(chat.chat_value(), "abc");
    assert!(r.commands.is_empty());
}

#[test]
fn peer_message_is_appended_and_scrolled() {
    let mut chat = ChatModel::new();
    let r = chat.update(
        Msg::NewMessage(Message::new("hey".to_string(), MessageSender::Other)),
        &open_server(),
    );
    assert_eq!(chat.messages().len(), 1);
    assert_eq!(chat.messages()[0].sender(), MessageSender::Other);
    assert_eq!(r.commands.len(), 1);
    assert!(matches!(&r.commands[0], Command::ScrollTop));
}

#[test]
fn history_keeps_order() {
    let mut chat = ChatModel::new();
    chat.update(
        Msg::NewMessage(Message::new("one".to_string(), MessageSender::Other)),
        &open_server(),
    );
    chat.update(Msg::UpdateInputChatValue("two".to_string()), &open_server());
    chat.update(Msg::Send, &open_server());
    chat.update(Msg::UpdateInputValue("code".to_string()), &open_server());
    let contents: Vec<&str> = chat.messages().iter().map(|m| m.content()).collect();
    assert_eq!(contents, vec!["one", "two"]);
}

#[test]
fn disconnect_clears_everything() {
    let mut chat = typed("draft");
    chat.update(Msg::UpdateInputValue("code".to_string()), &open_server());
    chat.update(Msg::Send, &open_server());
    chat.update(Msg::UpdateInputChatValue("more".to_string()), &open_server());
    let r = chat.update(Msg::Disconnect, &open_server());
    assert!(chat.messages().is_empty());
    assert_eq!(chat.value(), "");
    assert_eq!(chat.chat_value(), "");
    assert_eq!(r.commands.len(), 1);
    assert!(matches!(&r.commands[0], Command::ResetManager));
}

#[test]
fn reset_clears_everything() {
    let mut chat = typed("draft");
    chat.update(Msg::Send, &open_server());
    let r = chat.update(Msg::ResetWebRTC, &open_server());
    assert!(chat.messages().is_empty());
    assert!(matches!(&r.commands[0], Command::ResetManager));
}

#[test]
fn start_as_server_sets_server_state_then_starts() {
    let mut chat = ChatModel::new();
    let r = chat.update(Msg::StartAsServer, &State::Default);
    assert_eq!(r.commands.len(), 2);
    match &r.commands[0] {
        Command::SetState(State::Server(c)) => {
            assert!(c.ice_gathering_state.is_none());
            assert!(c.ice_connection_state.is_none());
            assert!(c.data_channel_state.is_none());
        }
        other => panic!("unexpected command {:?}", other),
    }
    assert!(matches!(&r.commands[1], Command::StartWebRtc));
}

#[test]
fn connect_to_server_sets_client_state_then_starts() {
    let mut chat = ChatModel::new();
    let r = chat.update(Msg::ConnectToServer, &State::Default);
    assert!(matches!(&r.commands[0], Command::SetState(State::Client(_))));
    assert!(matches!(&r.commands[1], Command::StartWebRtc));
}

#[test]
fn validate_as_server_checks_answer() {
    let mut chat = ChatModel::new();
    chat.update(Msg::UpdateInputValue("answer-code".to_string()), &open_server());
    let r = chat.update(Msg::ValidateOffer, &open_server());
    assert!(matches!(&r.commands[0], Command::ValidateAnswer(t) if t == "answer-code"));
    assert_eq!(chat.value(), "answer-code");
}

#[test]
fn validate_as_client_checks_offer() {
    let mut chat = ChatModel::new();
    chat.update(Msg::UpdateInputValue("offer-code".to_string()), &State::Default);
    let client = State::Client(ConnectionState::new());
    let r = chat.update(Msg::ValidateOffer, &client);
    assert!(matches!(&r.commands[0], Command::ValidateOffer(t) if t == "offer-code"));
}

#[test]
fn connection_report_clears_code_box_and_logs() {
    let mut chat = typed("draft");
    chat.update(Msg::UpdateInputValue("code".to_string()), &State::Default);
    let r = chat.update(Msg::UpdateWebRTCState(State::Default), &State::Default);
    assert_eq!(chat.value(), "");
    assert_eq!(chat.chat_value(), "draft");
    assert!(matches!(&r.commands[0], Command::LogDebug(t) if t == "Default State"));
}

#[test]
fn copy_to_clipboard_is_asked() {
    let mut chat = ChatModel::new();
    let r = chat.update(Msg::CopyToClipboard, &State::Default);
    assert!(matches!(&r.commands[0], Command::CopyToClipboard));
}

#[test]
fn debug_state_string_default() {
    assert_eq!(get_debug_state_string(&State::Default), "Default State");
}

#[test]
fn debug_state_string_server() {
    let s = State::Server(ConnectionState {
        ice_gathering_state: Some(IceGatheringState::Gathering),
        ice_connection_state: None,
        data_channel_state: Some(DataChannelState::Connecting),
    });
    assert_eq!(
        get_debug_state_string(&s),
        "Server\nice gathering: Some(Gathering)\nice connection: None\ndata channel: Some(Connecting)\n"
    );
}

#[test]
fn debug_state_string_client() {
    let s = State::Client(ConnectionState {
        ice_gathering_state: Some(IceGatheringState::New),
        ice_connection_state: Some(IceConnectionState::Disconnected),
        data_channel_state: Some(DataChannelState::Closed),
    });
    assert_eq!(
        get_debug_state_string(&s),
        "Client\nice gathering: Some(New)\nice connection: Some(Disconnected)\ndata channel: Some(Closed)\n"
    );
}

#[test]
fn debug_state_string_matches_debug_of_options() {
    let c = ConnectionState {
        ice_gathering_state: Some(IceGatheringState::Complete),
        ice_connection_state: Some(IceConnectionState::Checking),
        data_channel_state: None,
    };
    let expected = format!(
        "{}\nice gathering: {:?}\nice connection: {:?}\ndata channel: {:?}\n",
        "Server", c.ice_gathering_state, c.ice_connection_state, c.data_channel_state,
    );
    assert_eq!(get_debug_state_string(&State::Server(c)), expected);
}

#[test]
fn debug_header_strings() {
    assert_eq!(get_debug_header_string(&State::Default), "|Default State|");
    let s = State::Client(ConnectionState {
        ice_gathering_state: None,
        ice_connection_state: Some(IceConnectionState::Failed),
        data_channel_state: Some(DataChannelState::Closing),
    });
    assert_eq!(
        get_debug_header_string(&s),
        "|Client| |ice_gathering: None| |ice_connection: Some(Failed)| |data_channel: Some(Closing)|"
    );
}

#[test]
fn chat_enabled_only_with_open_channel() {
    assert!(!is_chat_enabled(&State::Default));
    assert!(is_chat_enabled(&open_server()));
    assert!(!is_chat_enabled(&State::Client(ConnectionState::new())));
    let closed = State::Client(ConnectionState {
        ice_gathering_state: None,
        ice_connection_state: None,
        data_channel_state: Some(DataChannelState::Closed),
    });
    assert!(!is_chat_enabled(&closed));
}

#[test]
fn disconnect_button_visible_once_a_role_is_taken() {
    assert!(!is_disconnect_button_visible(&State::Default));
    assert!(is_disconnect_button_visible(&State::Client(ConnectionState::new())));
    assert!(is_disconnect_button_visible(&open_server()));
}

#[test]
fn send_button_needs_open_channel_and_text() {
    let chat = typed("x");
    assert!(chat.is_send_button_enabled(&open_server()));
    assert!(!chat.is_send_button_enabled(&State::Default));
    let empty = ChatModel::new();
    assert!(!empty.is_send_button_enabled(&open_server()));
}

#[test]
fn content_for_each_state() {
    assert_eq!(chat_content(&State::Default), ChatContent::Welcome);
    assert_eq!(chat_content(&open_server()), ChatContent::Messages);
    let gathering = ConnectionState {
        ice_gathering_state: Some(IceGatheringState::Gathering),
        ice_connection_state: None,
        data_channel_state: None,
    };
    assert_eq!(chat_content(&State::Server(gathering)), ChatContent::OfferAndAnswerInput);
    assert_eq!(chat_content(&State::Server(ConnectionState::new())), ChatContent::Nothing);
    assert_eq!(chat_content(&State::Client(gathering)), ChatContent::Offer);
    assert_eq!(chat_content(&State::Client(ConnectionState::new())), ChatContent::OfferInput);
}

#[test]
fn message_side_and_name() {
    assert_eq!(message_class(MessageSender::Other), "msg left-msg");
    assert_eq!(message_class(MessageSender::Me), "msg right-msg");
    assert_eq!(message_sender_name(MessageSender::Other), "Friend");
    assert_eq!(message_sender_name(MessageSender::Me), "Me");
}

#[test]
fn failure_alerts() {
    assert_eq!(
        validation_failure_alert(true, "JsValue(\"bad\")"),
        "Cannot use answer. Failure reason: JsValue(\"bad\")"
    );
    assert_eq!(
        validation_failure_alert(false, "x"),
        "Cannot use offer. Failure reason: x"
    );
}

#[test]
fn scroll_target_adds_step() {
    assert_eq!(scroll_top_target(0), Some(100000000));
    assert_eq!(scroll_top_target(250), Some(100000250));
    assert_eq!(scroll_top_target(i32::MAX - 5), None);
}

#[test]
fn offer_code_is_base64_of_json() {
    assert_eq!(encode_offer_and_candidates("{\"a\":1}"), "eyJhIjoxfQ==");
    assert_eq!(
        encode_offer_and_candidates("{\"ice_candidates\":[],\"offer\":\"v=0\"}"),
        "eyJpY2VfY2FuZGlkYXRlcyI6W10sIm9mZmVyIjoidj0wIn0="
    );
    assert_eq!(encode_offer_and_candidates("héllo"), "aMOpbGxv");
    assert_eq!(encode_offer_and_candidates(""), "");
}
