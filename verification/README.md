# webrtc_chat

The logic of a two-peer chat over a WebRTC data channel, verified with Verus.

- `src/connection.rs` — the connection's role and state, and the text that
  describes it in the console log and in the page header.
- `src/chat_model.rs` — the conversation and `ChatModel::update`, which turns
  each event into the next chat state and the commands for the page and the
  connection; the decisions of what the page shows.
- `src/offer_code.rs` — the connection code: the serialized offer and
  candidates in standard base64, through the `base64` crate.
- `src/laws.rs` — properties that hold across events, proved over the step
  that `update` follows.
- `app/` — the yew component, the DOM work and the JSON form of the types.
- `tests/` — tests on concrete values.
