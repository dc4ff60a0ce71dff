//! The state of the peer connection, as the chat sees it, and the text that
//! describes it in the log and in the header.
use vstd::prelude::*;
use vstd::string::StringExecFns;

verus! {

/// How far the gathering of ICE candidates has come.
#[derive(Clone, Copy, Debug, PartialEq, Eq, Structural)]
pub enum IceGatheringState {
    New,
    Gathering,
    Complete,
}

/// The state of the ICE connection between the two peers.
#[derive(Clone, Copy, Debug, PartialEq, Eq, Structural)]
pub enum IceConnectionState {
    New,
    Checking,
    Connected,
    Completed,
    Failed,
    Disconnected,
    Closed,
}

/// The state of the data channel that carries the chat messages.
#[derive(Clone, Copy, Debug, PartialEq, Eq, Structural)]
pub enum DataChannelState {
    Connecting,
    Open,
    Closing,
    Closed,
}

/// What is known of a connection in progress; each part is absent until the
/// browser has reported it.
#[derive(Clone, Copy, Debug)]
pub struct ConnectionState {
    pub ice_gathering_state: Option<IceGatheringState>,
    pub ice_connection_state: Option<IceConnectionState>,
    pub data_channel_state: Option<DataChannelState>,
}

/// The role this side plays: none yet, the one that makes the offer
/// (server), or the one that answers it (client).
#[derive(Clone, Copy, Debug)]
pub enum State {
    Default,
    Server(ConnectionState),
    Client(ConnectionState),
}

/// One ICE candidate, as it travels inside the connection code.
#[derive(Clone, Debug)]
pub struct IceCandidate {
    pub candidate: String,
    pub sdp_mid: String,
    pub sdp_m_line_index: u16,
}

/// A connection on which nothing has been reported yet.
pub open spec fn initial_connection_state() -> ConnectionState {
    ConnectionState { ice_gathering_state: None, ice_connection_state: None, data_channel_state: None }
}

impl ConnectionState {
    pub fn new() -> (c: ConnectionState)
        ensures
            c == initial_connection_state(),
    {
        ConnectionState { ice_gathering_state: None, ice_connection_state: None, data_channel_state: None }
    }
}

/// The data channel of this connection is open.
pub open spec fn channel_open(c: ConnectionState) -> bool {
    c.data_channel_state == Some(DataChannelState::Open)
}

/// Chatting is possible: a role has been taken and its data channel is open.
pub open spec fn chat_enabled(s: State) -> bool {
    match s {
        State::Default => false,
        State::Server(c) => channel_open(c),
        State::Client(c) => channel_open(c),
    }
}

pub open spec fn gathering_name(g: IceGatheringState) -> Seq<char> {
    match g {
        IceGatheringState::New => "New"@,
        IceGatheringState::Gathering => "Gathering"@,
        IceGatheringState::Complete => "Complete"@,
    }
}

pub open spec fn connection_name(c: IceConnectionState) -> Seq<char> {
    match c {
        IceConnectionState::New => "New"@,
        IceConnectionState::Checking => "Checking"@,
        IceConnectionState::Connected => "Connected"@,
        IceConnectionState::Completed => "Completed"@,
        IceConnectionState::Failed => "Failed"@,
        IceConnectionState::Disconnected => "Disconnected"@,
        IceConnectionState::Closed => "Closed"@,
    }
}

pub open spec fn channel_name(d: DataChannelState) -> Seq<char> {
    match d {
        DataChannelState::Connecting => "Connecting"@,
        DataChannelState::Open => "Open"@,
        DataChannelState::Closing => "Closing"@,
        DataChannelState::Closed => "Closed"@,
    }
}

/// How an optional value is written in debug form: `None`, or `Some(..)`
/// around the name of the value.
pub open spec fn optional_text(name: Option<Seq<char>>) -> Seq<char> {
    match name {
        Some(n) => "Some("@ + n + ")"@,
        None => "None"@,
    }
}

pub open spec fn gathering_text(c: ConnectionState) -> Seq<char> {
    optional_text(
        match c.ice_gathering_state {
            Some(g) => Some(gathering_name(g)),
            None => None,
        },
    )
}

pub open spec fn ice_connection_text(c: ConnectionState) -> Seq<char> {
    optional_text(
        match c.ice_connection_state {
            Some(i) => Some(connection_name(i)),
            None => None,
        },
    )
}

pub open spec fn channel_text(c: ConnectionState) -> Seq<char> {
    optional_text(
        match c.data_channel_state {
            Some(d) => Some(channel_name(d)),
            None => None,
        },
    )
}

/// The multi-line text that is logged when the connection state changes.
pub open spec fn state_log_text(s: State) -> Seq<char> {
    match s {
        State::Default => "Default State"@,
        State::Server(c) => "Server"@ + connection_log_text(c),
        State::Client(c) => "Client"@ + connection_log_text(c),
    }
}

pub open spec fn connection_log_text(c: ConnectionState) -> Seq<char> {
    "\nice gathering: "@ + gathering_text(c) + "\nice connection: "@ + ice_connection_text(c)
        + "\ndata channel: "@ + channel_text(c) + "\n"@
}

/// The one-line text that the chat header shows about the connection.
pub open spec fn state_header_text(s: State) -> Seq<char> {
    match s {
        State::Default => "|Default State|"@,
        State::Server(c) => "|Server|"@ + connection_header_text(c),
        State::Client(c) => "|Client|"@ + connection_header_text(c),
    }
}

pub open spec fn connection_header_text(c: ConnectionState) -> Seq<char> {
    " |ice_gathering: "@ + gathering_text(c) + "|"@ + " |ice_connection: "@
        + ice_connection_text(c) + "|"@ + " |data_channel: "@ + channel_text(c) + "|"@
}

fn append_optional(out: &mut String, name: Option<&str>)
    ensures
        final(out)@ == old(out)@ + optional_text(
            match name {
                Some(n) => Some(n@),
                None => None,
            },
        ),
{
    match name {
        Some(n) => {
            out.append("Some(");
            out.append(n);
            out.append(")");
        },
        None => {
            out.append("None");
        },
    }
}

fn gathering_label(g: IceGatheringState) -> (r: &'static str)
    ensures
        r@ == gathering_name(g),
{
    match g {
        IceGatheringState::New => "New",
        IceGatheringState::Gathering => "Gathering",
        IceGatheringState::Complete => "Complete",
    }
}

fn connection_label(c: IceConnectionState) -> (r: &'static str)
    ensures
        r@ == connection_name(c),
{
    match c {
        IceConnectionState::New => "New",
        IceConnectionState::Checking => "Checking",
        IceConnectionState::Connected => "Connected",
        IceConnectionState::Completed => "Completed",
        IceConnectionState::Failed => "Failed",
        IceConnectionState::Disconnected => "Disconnected",
        IceConnectionState::Closed => "Closed",
    }
}

fn channel_label(d: DataChannelState) -> (r: &'static str)
    ensures
        r@ == channel_name(d),
{
    match d {
        DataChannelState::Connecting => "Connecting",
        DataChannelState::Open => "Open",
        DataChannelState::Closing => "Closing",
        DataChannelState::Closed => "Closed",
    }
}

fn append_gathering(out: &mut String, c: &ConnectionState)
    ensures
        final(out)@ == old(out)@ + gathering_text(*c),
{
    match c.ice_gathering_state {
        Some(g) => append_optional(out, Some(gathering_label(g))),
        None => append_optional(out, None),
    }
}

fn append_ice_connection(out: &mut String, c: &ConnectionState)
    ensures
        final(out)@ == old(out)@ + ice_connection_text(*c),
{
    match c.ice_connection_state {
        Some(i) => append_optional(out, Some(connection_label(i))),
        None => append_optional(out, None),
    }
}

fn append_channel(out: &mut String, c: &ConnectionState)
    ensures
        final(out)@ == old(out)@ + channel_text(*c),
{
    match c.data_channel_state {
        Some(d) => append_optional(out, Some(channel_label(d))),
        None => append_optional(out, None),
    }
}

fn append_connection_log(out: &mut String, c: &ConnectionState)
    ensures
        final(out)@ == old(out)@ + connection_log_text(*c),
{
    let ghost start = out@;
    out.append("\nice gathering: ");
    append_gathering(out, c);
    out.append("\nice connection: ");
    append_ice_connection(out, c);
    out.append("\ndata channel: ");
    append_channel(out, c);
    out.append("\n");
    assert(out@ =~= start + connection_log_text(*c));
}

fn append_connection_header(out: &mut String, c: &ConnectionState)
    ensures
        final(out)@ == old(out)@ + connection_header_text(*c),
{
    let ghost start = out@;
    out.append(" |ice_gathering: ");
    append_gathering(out, c);
    out.append("|");
    out.append(" |ice_connection: ");
    append_ice_connection(out, c);
    out.append("|");
    out.append(" |data_channel: ");
    append_channel(out, c);
    out.append("|");
    assert(out@ =~= start + connection_header_text(*c));
}

/// The text that is logged when the connection reports a new state.
pub fn get_debug_state_string(state: &State) -> (text: String)
    ensures
        text@ == state_log_text(*state),
{
    let mut out = String::new();
    match state {
        State::Default => {
            out.append("Default State");
        },
        State::Server(c) => {
            out.append("Server");
            append_connection_log(&mut out, c);
        },
        State::Client(c) => {
            out.append("Client");
            append_connection_log(&mut out, c);
        },
    }
    out
}

/// The text that the chat header shows about the connection.
pub fn get_debug_header_string(state: &State) -> (text: String)
    ensures
        text@ == state_header_text(*state),
{
    let mut out = String::new();
    match state {
        State::Default => {
            out.append("|Default State|");
        },
        State::Server(c) => {
            out.append("|Server|");
            append_connection_header(&mut out, c);
        },
        State::Client(c) => {
            out.append("|Client|");
            append_connection_header(&mut out, c);
        },
    }
    out
}

/// Whether messages can be exchanged in this state.
pub fn is_chat_enabled(state: &State) -> (enabled: bool)
    ensures
        enabled == chat_enabled(*state),
{
    match state {
        State::Default => false,
        State::Server(c) => match c.data_channel_state {
            Some(DataChannelState::Open) => true,
            _ => false,
        },
        State::Client(c) => match c.data_channel_state {
            Some(DataChannelState::Open) => true,
            _ => false,
        },
    }
}

/// Whether the header offers to disconnect: once a role has been taken.
pub fn is_disconnect_button_visible(state: &State) -> (visible: bool)
    ensures
        visible == !(*state is Default),
{
    match state {
        State::Default => false,
        _ => true,
    }
}

} // verus!
