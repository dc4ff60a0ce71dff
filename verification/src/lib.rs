//! The decisions of a two-peer WebRTC chat: what each user action and each
//! network event does to the conversation, what the page shows, and the text
//! that describes the connection.
pub mod connection;
pub mod offer_code;
pub mod chat_model;
pub mod laws;
