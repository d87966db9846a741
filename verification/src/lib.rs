//! Core logic of a line-delimited websocket transport: endpoint URL
//! normalization, framing of socket payloads into protocol lines, and the
//! connection state with its disconnect-notification protocol.

pub mod connect;
pub mod framing;
pub mod pump;
pub mod state;
pub mod text;
pub mod url;
