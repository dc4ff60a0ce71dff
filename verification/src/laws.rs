//! What holds of the chat across events: the properties that `ChatModel::update`
//! keeps, stated over `step`, which its contract equals.
use vstd::prelude::*;

use crate::chat_model::{
    content_for,
    failure_alert_text,
    message_class_text,
    sender_name_text,
    step,
    ChatContent,
    ChatModelView,
    CommandView,
    MessageSender,
    MessageView,
    MsgView,
};
use crate::connection::{
    channel_name,
    chat_enabled,
    connection_name,
    gathering_name,
    state_header_text,
    state_log_text,
    ConnectionState,
    DataChannelState,
    IceConnectionState,
    IceGatheringState,
    State,
};
use crate::offer_code::{base64_char, base64_standard};

verus! {

/// Disconnecting and resetting do the same thing: whatever the chat held, it
/// ends with no message and both boxes empty, and the connection is replaced.
pub proof fn reset_and_disconnect_start_over(s: ChatModelView, connection: State)
    ensures
        step(s, MsgView::Disconnect, connection) == step(s, MsgView::ResetWebRTC, connection),
        step(s, MsgView::Disconnect, connection).0 == (ChatModelView {
            messages: Seq::empty(),
            value: Seq::empty(),
            chat_value: Seq::empty(),
        }),
        step(s, MsgView::Disconnect, connection).1 == seq![CommandView::ResetManager],
{
}

/// The conversation only grows: apart from starting over, no event removes,
/// reorders or changes a message, and an event adds at most one, at the end.
pub proof fn history_is_append_only(s: ChatModelView, msg: MsgView, connection: State)
    requires
        !(msg is Disconnect),
        !(msg is ResetWebRTC),
    ensures
        ({
            let next = step(s, msg, connection).0.messages;
            &&& next.len() == s.messages.len() || next.len() == s.messages.len() + 1
            &&& next.subrange(0, s.messages.len() as int) == s.messages
        }),
{
    let next = step(s, msg, connection).0.messages;
    assert(next.subrange(0, s.messages.len() as int) =~= s.messages);
}

/// What is sent is what is shown: whenever an event sends a text to the peer,
/// that text is what was typed in the message box, it joins the conversation
/// as this side's last message, and the box empties.
pub proof fn sent_text_is_shown_as_mine(
    s: ChatModelView,
    msg: MsgView,
    connection: State,
    i: int,
    text: Seq<char>,
)
    requires
        0 <= i < step(s, msg, connection).1.len(),
        step(s, msg, connection).1[i] == CommandView::SendMessage(text),
    ensures
        text == s.chat_value,
        step(s, msg, connection).0.messages == s.messages.push(
            MessageView { sender: MessageSender::Me, content: text },
        ),
        step(s, msg, connection).0.chat_value == Seq::<char>::empty(),
{
}

/// Only the user's own actions send: a message that arrives from the peer is
/// added to the conversation as it came and is not sent back.
pub proof fn peer_messages_are_kept_not_sent(s: ChatModelView, m: MessageView, connection: State)
    ensures
        step(s, MsgView::NewMessage(m), connection).0.messages == s.messages.push(m),
        step(s, MsgView::NewMessage(m), connection).0.value == s.value,
        step(s, MsgView::NewMessage(m), connection).0.chat_value == s.chat_value,
        step(s, MsgView::NewMessage(m), connection).1 == seq![CommandView::ScrollTop],
{
}

/// Releasing Enter with text in the message box is the same as pressing Send;
/// any other key, or Enter on an empty box, changes nothing and asks for
/// nothing.
pub proof fn enter_key_acts_as_send(s: ChatModelView, key_code: u32, connection: State)
    ensures
        (key_code == 13 && s.chat_value.len() > 0) ==> step(
            s,
            MsgView::OnKeyUp(key_code),
            connection,
        ) == step(s, MsgView::Send, connection),
        !(key_code == 13 && s.chat_value.len() > 0) ==> step(
            s,
            MsgView::OnKeyUp(key_code),
            connection,
        ) == (s, Seq::<CommandView>::empty()),
{
}

/// Typing a text and then pressing Send sends exactly that text and shows it as
/// this side's message, whatever the box held before.
pub proof fn typed_text_is_what_is_sent(
    s: ChatModelView,
    text: Seq<char>,
    first: State,
    second: State,
)
    ensures
        ({
            let typed = step(s, MsgView::UpdateInputChatValue(text), first).0;
            let (sent, commands) = step(typed, MsgView::Send, second);
            &&& commands == seq![CommandView::SendMessage(text), CommandView::ScrollTop]
            &&& sent.messages == s.messages.push(
                MessageView { sender: MessageSender::Me, content: text },
            )
            &&& sent.chat_value == Seq::<char>::empty()
        }),
{
}

/// Typing in either box asks nothing of the page or the connection, and
/// leaves the conversation and the other box as they were.
pub proof fn typing_only_changes_its_box(s: ChatModelView, text: Seq<char>, connection: State)
    ensures
        step(s, MsgView::UpdateInputValue(text), connection) == (
            ChatModelView { value: text, ..s },
            Seq::<CommandView>::empty(),
        ),
        step(s, MsgView::UpdateInputChatValue(text), connection) == (
            ChatModelView { chat_value: text, ..s },
            Seq::<CommandView>::empty(),
        ),
{
}

/// A report from the connection empties the offer/answer box and keeps the
/// conversation and the message box.
pub proof fn connection_report_clears_code_box(s: ChatModelView, report: State, connection: State)
    ensures
        step(s, MsgView::UpdateWebRTCState(report), connection).0 == (ChatModelView {
            value: Seq::empty(),
            ..s
        }),
{
}

/// The typed code is handed to the connection as the peer's answer when this
/// side made the offer, and as the peer's offer otherwise; the chat itself
/// does not change.
pub proof fn typed_code_goes_to_the_right_check(s: ChatModelView, connection: State)
    ensures
        step(s, MsgView::ValidateOffer, connection).0 == s,
        connection is Server ==> step(s, MsgView::ValidateOffer, connection).1 == seq![
            CommandView::ValidateAnswer(s.value),
        ],
        !(connection is Server) ==> step(s, MsgView::ValidateOffer, connection).1 == seq![
            CommandView::ValidateOffer(s.value),
        ],
{
}

/// The conversation is shown exactly when chatting is possible.
pub proof fn conversation_shown_iff_chat_enabled(state: State)
    ensures
        (content_for(state) == ChatContent::Messages) <==> chat_enabled(state),
{
}

/// Choosing a role takes that role with nothing reported yet and starts the
/// connection, and asks for nothing else; the chat itself does not change.
pub proof fn choosing_a_role_starts_that_role(s: ChatModelView, connection: State)
    ensures
        step(s, MsgView::StartAsServer, connection) == (
            s,
            seq![
                CommandView::SetState(
                    State::Server(
                        ConnectionState {
                            ice_gathering_state: None,
                            ice_connection_state: None,
                            data_channel_state: None,
                        },
                    ),
                ),
                CommandView::StartWebRtc,
            ],
        ),
        step(s, MsgView::ConnectToServer, connection) == (
            s,
            seq![
                CommandView::SetState(
                    State::Client(
                        ConnectionState {
                            ice_gathering_state: None,
                            ice_connection_state: None,
                            data_channel_state: None,
                        },
                    ),
                ),
                CommandView::StartWebRtc,
            ],
        ),
{
}

/// A connection report logs the text that describes the reported state, and
/// asks for nothing else.
pub proof fn connection_report_is_logged(s: ChatModelView, report: State, connection: State)
    ensures
        step(s, MsgView::UpdateWebRTCState(report), connection).1 == seq![
            CommandView::LogDebug(state_log_text(report)),
        ],
{
}

/// Chatting is possible exactly when a role has been taken and the data
/// channel is reported open; no other channel state, and no report at all,
/// allows it.
pub proof fn chat_needs_an_open_channel(state: State)
    ensures
        chat_enabled(state) <==> match state {
            State::Default => false,
            State::Server(c) => c.data_channel_state == Some(DataChannelState::Open),
            State::Client(c) => c.data_channel_state == Some(DataChannelState::Open),
        },
{
}

/// Before the channel opens, the offering side shows its code and the box for
/// the answer as soon as gathering has been reported, whatever its stage, and
/// nothing before; the answering side shows its code once gathering has been
/// reported, and the box for the peer's code before.
pub proof fn main_area_before_the_channel_opens(c: ConnectionState)
    requires
        c.data_channel_state != Some(DataChannelState::Open),
    ensures
        content_for(State::Server(c)) == (if c.ice_gathering_state is Some {
            ChatContent::OfferAndAnswerInput
        } else {
            ChatContent::Nothing
        }),
        content_for(State::Client(c)) == (if c.ice_gathering_state is Some {
            ChatContent::Offer
        } else {
            ChatContent::OfferInput
        }),
{
}

/// Once the channel is open, both sides show the conversation; before a role
/// is taken, the page shows the welcome.
pub proof fn main_area_with_an_open_channel(c: ConnectionState)
    requires
        c.data_channel_state == Some(DataChannelState::Open),
    ensures
        content_for(State::Server(c)) == ChatContent::Messages,
        content_for(State::Client(c)) == ChatContent::Messages,
        content_for(State::Default) == ChatContent::Welcome,
{
}

/// The header line names the role: it begins with `|Server|` on the offering
/// side, with `|Client|` on the answering side, and is `|Default State|`
/// before a role is taken; the two roles give different lines for the same
/// connection state, and the rest of the line is the same for both.
pub proof fn header_names_the_role(c: ConnectionState)
    ensures
        "|Server|"@.is_prefix_of(state_header_text(State::Server(c))),
        "|Client|"@.is_prefix_of(state_header_text(State::Client(c))),
        state_header_text(State::Default) == "|Default State|"@,
        state_header_text(State::Server(c)) != state_header_text(State::Client(c)),
        state_header_text(State::Server(c)).skip(8) == state_header_text(State::Client(c)).skip(8),
{
    reveal_strlit("|Server|");
    reveal_strlit("|Client|");
    let server = state_header_text(State::Server(c));
    let client = state_header_text(State::Client(c));
    assert("|Server|"@ =~= server.subrange(0, 8));
    assert("|Client|"@ =~= client.subrange(0, 8));
    assert(server[1] != client[1]);
    assert(server.skip(8) =~= client.skip(8));
}

/// The logged text names the role the same way: `Server` or `Client` first,
/// then the same description of the connection for both roles.
pub proof fn log_names_the_role(c: ConnectionState)
    ensures
        "Server"@.is_prefix_of(state_log_text(State::Server(c))),
        "Client"@.is_prefix_of(state_log_text(State::Client(c))),
        state_log_text(State::Default) == "Default State"@,
        state_log_text(State::Server(c)) != state_log_text(State::Client(c)),
        state_log_text(State::Server(c)).skip(6) == state_log_text(State::Client(c)).skip(6),
{
    reveal_strlit("Server");
    reveal_strlit("Client");
    let server = state_log_text(State::Server(c));
    let client = state_log_text(State::Client(c));
    assert("Server"@ =~= server.subrange(0, 6));
    assert("Client"@ =~= client.subrange(0, 6));
    assert(server[0] != client[0]);
    assert(server.skip(6) =~= client.skip(6));
}

/// Different states of the same kind are named differently, so the texts
/// tell them apart.
pub proof fn state_names_are_distinct(
    g1: IceGatheringState,
    g2: IceGatheringState,
    i1: IceConnectionState,
    i2: IceConnectionState,
    d1: DataChannelState,
    d2: DataChannelState,
)
    ensures
        gathering_name(g1) == gathering_name(g2) ==> g1 == g2,
        connection_name(i1) == connection_name(i2) ==> i1 == i2,
        channel_name(d1) == channel_name(d2) ==> d1 == d2,
{
    reveal_strlit("New");
    reveal_strlit("Gathering");
    reveal_strlit("Complete");
    reveal_strlit("Checking");
    reveal_strlit("Connected");
    reveal_strlit("Completed");
    reveal_strlit("Failed");
    reveal_strlit("Disconnected");
    reveal_strlit("Closed");
    reveal_strlit("Connecting");
    reveal_strlit("Open");
    reveal_strlit("Closing");
    if gathering_name(g1) == gathering_name(g2) && g1 != g2 {
        assert(gathering_name(g1).len() != gathering_name(g2).len());
    }
    if channel_name(d1) == channel_name(d2) && d1 != d2 {
        assert(channel_name(d1).len() != channel_name(d2).len());
    }
    if connection_name(i1) == connection_name(i2) && i1 != i2 {
        let a = connection_name(i1);
        let b = connection_name(i2);
        assert(a.len() != b.len() || a[0] != b[0] || a[3] != b[3]);
    }
}

/// The peer's messages and one's own are drawn on opposite sides and under
/// different names.
pub proof fn senders_are_told_apart()
    ensures
        message_class_text(MessageSender::Other) != message_class_text(MessageSender::Me),
        sender_name_text(MessageSender::Other) != sender_name_text(MessageSender::Me),
{
    reveal_strlit("msg left-msg");
    reveal_strlit("msg right-msg");
    reveal_strlit("Friend");
    reveal_strlit("Me");
    assert(message_class_text(MessageSender::Other).len() != message_class_text(MessageSender::Me).len());
    assert(sender_name_text(MessageSender::Other).len() != sender_name_text(MessageSender::Me).len());
}

/// The alert about a refused code ends with the refusal's reason, and says
/// whether an answer or an offer was refused.
pub proof fn failure_alert_carries_the_reason(is_answer: bool, reason: Seq<char>)
    ensures
        reason.is_suffix_of(failure_alert_text(is_answer, reason)),
        failure_alert_text(true, reason) != failure_alert_text(false, reason),
{
    reveal_strlit("Cannot use answer. Failure reason: ");
    reveal_strlit("Cannot use offer. Failure reason: ");
    let t = failure_alert_text(is_answer, reason);
    assert(reason =~= t.subrange(t.len() - reason.len(), t.len() as int));
    let a = failure_alert_text(true, reason);
    let o = failure_alert_text(false, reason);
    assert(a.len() != o.len());
}

/// A character of the standard base64 alphabet: `A`-`Z`, `a`-`z`, `0`-`9`,
/// `+` or `/`.
pub open spec fn is_base64_symbol(c: char) -> bool {
    ||| 65 <= c as int <= 90
    ||| 97 <= c as int <= 122
    ||| 48 <= c as int <= 57
    ||| c == '+'
    ||| c == '/'
}

/// The connection code has the shape of standard base64: four characters for
/// every three bytes or part of three, each one of the alphabet, except `=`
/// padding in the last two places only.
pub proof fn base64_code_shape(bytes: Seq<u8>)
    ensures
        base64_standard(bytes).len() == 4 * ((bytes.len() + 2) / 3),
        forall|i: int|
            0 <= i < base64_standard(bytes).len() ==> is_base64_symbol(
                #[trigger] base64_standard(bytes)[i],
            ) || (base64_standard(bytes)[i] == '=' && i >= base64_standard(bytes).len() - 2),
    decreases bytes.len(),
{
    let n = bytes.len() as int;
    let code = base64_standard(bytes);
    if n >= 3 {
        base64_code_shape(bytes.skip(3));
        let rest = base64_standard(bytes.skip(3));
        assert((n + 2) / 3 == (n - 3 + 2) / 3 + 1);
        assert forall|i: int| 0 <= i < 4 implies is_base64_symbol(#[trigger] code[i]) by {
            let b0 = bytes[0] as int;
            let b1 = bytes[1] as int;
            let b2 = bytes[2] as int;
            base64_char_is_symbol(b0 / 4);
            base64_char_is_symbol((b0 % 4) * 16 + b1 / 16);
            base64_char_is_symbol((b1 % 16) * 4 + b2 / 64);
            base64_char_is_symbol(b2 % 64);
        }
        assert forall|i: int| 4 <= i < code.len() implies code[i] == rest[i - 4] by {}
    } else if n == 2 {
        let b0 = bytes[0] as int;
        let b1 = bytes[1] as int;
        base64_char_is_symbol(b0 / 4);
        base64_char_is_symbol((b0 % 4) * 16 + b1 / 16);
        base64_char_is_symbol((b1 % 16) * 4);
    } else if n == 1 {
        let b0 = bytes[0] as int;
        base64_char_is_symbol(b0 / 4);
        base64_char_is_symbol((b0 % 4) * 16);
    }
}

proof fn base64_char_is_symbol(v: int)
    requires
        0 <= v < 64,
    ensures
        is_base64_symbol(base64_char(v)),
{
}

} // verus!
