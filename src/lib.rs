//! Per-connection relay between dashboard clients and a publish/subscribe
//! network: the message vocabulary, the translation of client commands into
//! protocol messages with their local echo, and the session life cycle.

pub mod messages;
pub mod protocol;
pub mod ids;
pub mod translator;
pub mod session;
