//! The conversation and what each event does to it. The page and the peer
//! connection stay outside: `ChatModel::update` hands back, as commands, what
//! must be done to them, and reads the connection's role as an argument.
use vstd::prelude::*;
use vstd::string::StringExecFns;

use crate::connection::{
    channel_open,
    chat_enabled,
    get_debug_state_string,
    initial_connection_state,
    is_chat_enabled,
    state_log_text,
    ConnectionState,
    State,
};

verus! {

/// Who wrote a message.
#[derive(Clone, Copy, Debug, PartialEq, Eq, Structural)]
pub enum MessageSender {
    Me,
    Other,
}

/// One message of the conversation.
#[derive(Clone, Debug)]
pub struct Message {
    sender: MessageSender,
    content: String,
}

pub struct MessageView {
    pub sender: MessageSender,
    pub content: Seq<char>,
}

impl View for Message {
    type V = MessageView;

    closed spec fn view(&self) -> MessageView {
        MessageView { sender: self.sender, content: self.content@ }
    }
}

impl Message {
    pub fn new(content: String, sender: MessageSender) -> (m: Message)
        ensures
            m@ == (MessageView { sender, content: content@ }),
    {
        Message { content, sender }
    }

    pub fn sender(&self) -> (s: MessageSender)
        ensures
            s == self@.sender,
    {
        self.sender
    }

    pub fn content(&self) -> (c: &str)
        ensures
            c@ == self@.content,
    {
        self.content.as_str()
    }
}

/// The events the chat reacts to: the user's actions, the messages of the
/// peer and the reports of the connection.
#[derive(Clone, Debug)]
pub enum Msg {
    StartAsServer,
    ConnectToServer,
    UpdateWebRTCState(State),
    Disconnect,
    Send,
    NewMessage(Message),
    UpdateInputValue(String),
    UpdateInputChatValue(String),
    /// A key was released in the message box; the argument is its key code.
    OnKeyUp(u32),
    CopyToClipboard,
    ValidateOffer,
    ResetWebRTC,
}

pub enum MsgView {
    StartAsServer,
    ConnectToServer,
    UpdateWebRTCState(State),
    Disconnect,
    Send,
    NewMessage(MessageView),
    UpdateInputValue(Seq<char>),
    UpdateInputChatValue(Seq<char>),
    OnKeyUp(u32),
    CopyToClipboard,
    ValidateOffer,
    ResetWebRTC,
}

impl View for Msg {
    type V = MsgView;

    open spec fn view(&self) -> MsgView {
        match self {
            Msg::StartAsServer => MsgView::StartAsServer,
            Msg::ConnectToServer => MsgView::ConnectToServer,
            Msg::UpdateWebRTCState(s) => MsgView::UpdateWebRTCState(*s),
            Msg::Disconnect => MsgView::Disconnect,
            Msg::Send => MsgView::Send,
            Msg::NewMessage(m) => MsgView::NewMessage(m@),
            Msg::UpdateInputValue(v) => MsgView::UpdateInputValue(v@),
            Msg::UpdateInputChatValue(v) => MsgView::UpdateInputChatValue(v@),
            Msg::OnKeyUp(k) => MsgView::OnKeyUp(*k),
            Msg::CopyToClipboard => MsgView::CopyToClipboard,
            Msg::ValidateOffer => MsgView::ValidateOffer,
            Msg::ResetWebRTC => MsgView::ResetWebRTC,
        }
    }
}

/// What the chat asks of the page and of the connection, in the order it
/// asks.
#[derive(Clone, Debug)]
pub enum Command {
    /// Give the connection this state.
    SetState(State),
    /// Start the connection in the state it was given.
    StartWebRtc,
    /// Write this text to the console.
    LogDebug(String),
    /// Drop the connection and begin with a fresh one.
    ResetManager,
    /// Hand the peer's answer, as typed, to the connection.
    ValidateAnswer(String),
    /// Hand the peer's offer, as typed, to the connection.
    ValidateOffer(String),
    /// Send this text to the peer.
    SendMessage(String),
    /// Scroll the conversation to its end.
    ScrollTop,
    /// Copy the connection code to the clipboard.
    CopyToClipboard,
}

pub enum CommandView {
    SetState(State),
    StartWebRtc,
    LogDebug(Seq<char>),
    ResetManager,
    ValidateAnswer(Seq<char>),
    ValidateOffer(Seq<char>),
    SendMessage(Seq<char>),
    ScrollTop,
    CopyToClipboard,
}

impl View for Command {
    type V = CommandView;

    open spec fn view(&self) -> CommandView {
        match self {
            Command::SetState(s) => CommandView::SetState(*s),
            Command::StartWebRtc => CommandView::StartWebRtc,
            Command::LogDebug(t) => CommandView::LogDebug(t@),
            Command::ResetManager => CommandView::ResetManager,
            Command::ValidateAnswer(t) => CommandView::ValidateAnswer(t@),
            Command::ValidateOffer(t) => CommandView::ValidateOffer(t@),
            Command::SendMessage(t) => CommandView::SendMessage(t@),
            Command::ScrollTop => CommandView::ScrollTop,
            Command::CopyToClipboard => CommandView::CopyToClipboard,
        }
    }
}

pub open spec fn commands_view(commands: Seq<Command>) -> Seq<CommandView> {
    commands.map_values(|c: Command| c@)
}

pub open spec fn messages_view(messages: Seq<Message>) -> Seq<MessageView> {
    messages.map_values(|m: Message| m@)
}

/// What `update` returns: whether the page must be drawn again, and the
/// commands for the page and the connection.
pub struct Reaction {
    pub should_render: bool,
    pub commands: Vec<Command>,
}

/// The conversation, the text typed in the offer/answer box (`value`) and the
/// text typed in the message box (`chat_value`).
pub struct ChatModel {
    messages: Vec<Message>,
    value: String,
    chat_value: String,
}

pub struct ChatModelView {
    pub messages: Seq<MessageView>,
    pub value: Seq<char>,
    pub chat_value: Seq<char>,
}

impl View for ChatModel {
    type V = ChatModelView;

    closed spec fn view(&self) -> ChatModelView {
        ChatModelView {
            messages: messages_view(self.messages@),
            value: self.value@,
            chat_value: self.chat_value@,
        }
    }
}

/// A chat with no message and both boxes empty.
pub open spec fn empty_chat() -> ChatModelView {
    ChatModelView { messages: Seq::empty(), value: Seq::empty(), chat_value: Seq::empty() }
}

/// The key code of the Enter key.
pub const ENTER_KEY_CODE: u32 = 13;

/// Sending: the typed text joins the conversation as this side's message, is
/// sent to the peer, and the message box empties.
pub open spec fn send_step(s: ChatModelView) -> (ChatModelView, Seq<CommandView>) {
    (
        ChatModelView {
            messages: s.messages.push(MessageView { sender: MessageSender::Me, content: s.chat_value }),
            chat_value: Seq::empty(),
            ..s
        },
        seq![CommandView::SendMessage(s.chat_value), CommandView::ScrollTop],
    )
}

/// Starting over: a fresh connection, no message, both boxes empty.
pub open spec fn reset_step() -> (ChatModelView, Seq<CommandView>) {
    (empty_chat(), seq![CommandView::ResetManager])
}

/// The effect of one event on the chat, given the connection's current state:
/// the next chat and the commands, in order.
pub open spec fn step(s: ChatModelView, msg: MsgView, connection: State) -> (
    ChatModelView,
    Seq<CommandView>,
) {
    match msg {
        MsgView::StartAsServer => (
            s,
            seq![
                CommandView::SetState(State::Server(initial_connection_state())),
                CommandView::StartWebRtc,
            ],
        ),
        MsgView::ConnectToServer => (
            s,
            seq![
                CommandView::SetState(State::Client(initial_connection_state())),
                CommandView::StartWebRtc,
            ],
        ),
        MsgView::UpdateWebRTCState(st) => (
            ChatModelView { value: Seq::empty(), ..s },
            seq![CommandView::LogDebug(state_log_text(st))],
        ),
        MsgView::ResetWebRTC => reset_step(),
        MsgView::Disconnect => reset_step(),
        MsgView::UpdateInputValue(v) => (ChatModelView { value: v, ..s }, Seq::empty()),
        MsgView::UpdateInputChatValue(v) => (ChatModelView { chat_value: v, ..s }, Seq::empty()),
        MsgView::ValidateOffer => (
            s,
            match connection {
                State::Server(_) => seq![CommandView::ValidateAnswer(s.value)],
                _ => seq![CommandView::ValidateOffer(s.value)],
            },
        ),
        MsgView::NewMessage(m) => (
            ChatModelView { messages: s.messages.push(m), ..s },
            seq![CommandView::ScrollTop],
        ),
        MsgView::Send => send_step(s),
        MsgView::OnKeyUp(code) => if code == ENTER_KEY_CODE && s.chat_value.len() > 0 {
            send_step(s)
        } else {
            (s, Seq::empty())
        },
        MsgView::CopyToClipboard => (s, seq![CommandView::CopyToClipboard]),
    }
}

fn one_command(c: Command) -> (commands: Vec<Command>)
    ensures
        commands_view(commands@) == seq![c@],
{
    let mut commands = Vec::new();
    commands.push(c);
    assert(commands_view(commands@) =~= seq![c@]);
    commands
}

fn two_commands(first: Command, second: Command) -> (commands: Vec<Command>)
    ensures
        commands_view(commands@) == seq![first@, second@],
{
    let mut commands = Vec::new();
    commands.push(first);
    commands.push(second);
    assert(commands_view(commands@) =~= seq![first@, second@]);
    commands
}

fn no_command() -> (commands: Vec<Command>)
    ensures
        commands_view(commands@) == Seq::<CommandView>::empty(),
{
    let commands = Vec::new();
    assert(commands_view(commands@) =~= Seq::<CommandView>::empty());
    commands
}

impl ChatModel {
    pub fn new() -> (chat: ChatModel)
        ensures
            chat@ == empty_chat(),
    {
        let chat = ChatModel { messages: Vec::new(), value: String::new(), chat_value: String::new() };
        assert(messages_view(chat.messages@) =~= Seq::<MessageView>::empty());
        chat
    }

    pub fn messages(&self) -> (messages: &Vec<Message>)
        ensures
            messages_view(messages@) == self@.messages,
    {
        &self.messages
    }

    pub fn value(&self) -> (value: &str)
        ensures
            value@ == self@.value,
    {
        self.value.as_str()
    }

    pub fn chat_value(&self) -> (chat_value: &str)
        ensures
            chat_value@ == self@.chat_value,
    {
        self.chat_value.as_str()
    }

    fn send_chat_value(&mut self) -> (commands: Vec<Command>)
        ensures
            (final(self)@, commands_view(commands@)) == send_step(old(self)@),
    {
        let ghost before = self.messages@;
        let mine = Message::new(self.chat_value.clone(), MessageSender::Me);
        self.messages.push(mine);
        let commands = two_commands(Command::SendMessage(self.chat_value.clone()), Command::ScrollTop);
        self.chat_value = String::new();
        assert(messages_view(self.messages@) =~= messages_view(before).push(mine@));
        commands
    }

    fn reset(&mut self) -> (commands: Vec<Command>)
        ensures
            (final(self)@, commands_view(commands@)) == reset_step(),
    {
        self.messages = Vec::new();
        self.chat_value = String::new();
        self.value = String::new();
        assert(messages_view(self.messages@) =~= Seq::<MessageView>::empty());
        one_command(Command::ResetManager)
    }

    /// Reacts to one event. `connection` is the state the connection is in
    /// when the event arrives. Every event asks for the page to be drawn again.
    pub fn update(&mut self, msg: Msg, connection: &State) -> (reaction: Reaction)
        ensures
            reaction.should_render,
            (final(self)@, commands_view(reaction.commands@)) == step(old(self)@, msg@, *connection),
    {
        let commands = match msg {
            Msg::StartAsServer => two_commands(
                Command::SetState(State::Server(ConnectionState::new())),
                Command::StartWebRtc,
            ),
            Msg::ConnectToServer => two_commands(
                Command::SetState(State::Client(ConnectionState::new())),
                Command::StartWebRtc,
            ),
            Msg::UpdateWebRTCState(web_rtc_state) => {
                self.value = String::new();
                one_command(Command::LogDebug(get_debug_state_string(&web_rtc_state)))
            },
            Msg::ResetWebRTC => self.reset(),
            Msg::UpdateInputValue(val) => {
                self.value = val;
                no_command()
            },
            Msg::UpdateInputChatValue(val) => {
                self.chat_value = val;
                no_command()
            },
            Msg::ValidateOffer => match connection {
                State::Server(_) => one_command(Command::ValidateAnswer(self.value.clone())),
                _ => one_command(Command::ValidateOffer(self.value.clone())),
            },
            Msg::NewMessage(message) => {
                let ghost before = self.messages@;
                let ghost added = message@;
                self.messages.push(message);
                assert(messages_view(self.messages@) =~= messages_view(before).push(added));
                one_command(Command::ScrollTop)
            },
            Msg::Send => self.send_chat_value(),
            Msg::Disconnect => self.reset(),
            Msg::OnKeyUp(key_code) => {
                if key_code == ENTER_KEY_CODE && !self.chat_value.as_str().is_empty() {
                    self.send_chat_value()
                } else {
                    no_command()
                }
            },
            Msg::CopyToClipboard => one_command(Command::CopyToClipboard),
        };
        Reaction { should_render: true, commands }
    }

    /// The send button works when chatting is possible and something is typed.
    pub fn is_send_button_enabled(&self, connection: &State) -> (enabled: bool)
        ensures
            enabled == (chat_enabled(*connection) && self@.chat_value.len() > 0),
    {
        is_chat_enabled(connection) && !self.chat_value.as_str().is_empty()
    }
}

/// What the main area of the page shows.
#[derive(Clone, Copy, Debug, PartialEq, Eq, Structural)]
pub enum ChatContent {
    /// The greeting, with the two ways to begin.
    Welcome,
    /// The conversation.
    Messages,
    /// The code to hand over, and the box for the peer's answer.
    OfferAndAnswerInput,
    /// Nothing yet.
    Nothing,
    /// The code to hand over.
    Offer,
    /// The box for the peer's code.
    OfferInput,
}

/// The main area for a connection state: the conversation once the channel
/// is open; before that, the code once candidates are being gathered; and
/// otherwise nothing on the offering side, the box for the peer's code on the
/// answering side.
pub open spec fn content_for(s: State) -> ChatContent {
    match s {
        State::Default => ChatContent::Welcome,
        State::Server(c) => if channel_open(c) {
            ChatContent::Messages
        } else if c.ice_gathering_state is Some {
            ChatContent::OfferAndAnswerInput
        } else {
            ChatContent::Nothing
        },
        State::Client(c) => if channel_open(c) {
            ChatContent::Messages
        } else if c.ice_gathering_state is Some {
            ChatContent::Offer
        } else {
            ChatContent::OfferInput
        },
    }
}

/// What the main area of the page shows for a connection state. The
/// conversation is shown exactly when chatting is possible, and never before a
/// role has been taken.
pub fn chat_content(state: &State) -> (content: ChatContent)
    ensures
        content == content_for(*state),
        (content == ChatContent::Messages) <==> chat_enabled(*state),
        *state is Default ==> content == ChatContent::Welcome,
{
    match state {
        State::Default => ChatContent::Welcome,
        State::Server(c) => {
            if is_chat_enabled(state) {
                ChatContent::Messages
            } else if c.ice_gathering_state.is_some() {
                ChatContent::OfferAndAnswerInput
            } else {
                ChatContent::Nothing
            }
        },
        State::Client(c) => {
            if is_chat_enabled(state) {
                ChatContent::Messages
            } else if c.ice_gathering_state.is_some() {
                ChatContent::Offer
            } else {
                ChatContent::OfferInput
            }
        },
    }
}

pub open spec fn message_class_text(sender: MessageSender) -> Seq<char> {
    match sender {
        MessageSender::Other => "msg left-msg"@,
        MessageSender::Me => "msg right-msg"@,
    }
}

pub open spec fn sender_name_text(sender: MessageSender) -> Seq<char> {
    match sender {
        MessageSender::Other => "Friend"@,
        MessageSender::Me => "Me"@,
    }
}

/// The style class of a message: the peer's on the left, this side's on the
/// right.
pub fn message_class(sender: MessageSender) -> (class: &'static str)
    ensures
        class@ == message_class_text(sender),
{
    if sender == MessageSender::Other {
        "msg left-msg"
    } else {
        "msg right-msg"
    }
}

/// The name shown above a message.
pub fn message_sender_name(sender: MessageSender) -> (name: &'static str)
    ensures
        name@ == sender_name_text(sender),
{
    if sender == MessageSender::Other {
        "Friend"
    } else {
        "Me"
    }
}

pub open spec fn failure_alert_text(is_answer: bool, reason: Seq<char>) -> Seq<char> {
    (if is_answer {
        "Cannot use answer. Failure reason: "@
    } else {
        "Cannot use offer. Failure reason: "@
    }) + reason
}

/// The alert shown when the connection refuses the typed code: an answer when
/// this side made the offer, an offer otherwise. `reason` is the refusal in
/// debug form.
pub fn validation_failure_alert(is_answer: bool, reason: &str) -> (text: String)
    ensures
        text@ == failure_alert_text(is_answer, reason@),
{
    let mut text = String::new();
    if is_answer {
        text.append("Cannot use answer. Failure reason: ");
    } else {
        text.append("Cannot use offer. Failure reason: ");
    }
    text.append(reason);
    text
}

/// How far past the current position the conversation scrolls to reach its end.
pub const SCROLL_STEP: i32 = 100000000;

/// The scroll position that shows the end of the conversation, or `None` when
/// it does not fit in an `i32`.
pub fn scroll_top_target(current: i32) -> (target: Option<i32>)
    ensures
        target == (if current + SCROLL_STEP <= i32::MAX {
            Some((current + SCROLL_STEP) as i32)
        } else {
            None::<i32>
        }),
{
    current.checked_add(SCROLL_STEP)
}

} // verus!
