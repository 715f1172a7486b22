//! Decisions, parsers and formatters of a desktop client for a peer-to-peer
//! Minecraft tunnel.
pub mod text;
pub mod lines;
pub mod number;
pub mod settings;
pub mod persist;
pub mod paths;
pub mod lan;
pub mod input;
pub mod host;
pub mod session;
pub mod format;
pub mod logs;
pub mod share;
