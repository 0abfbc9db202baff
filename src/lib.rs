//! Real-time chat synchronisation engine: wire frames, room directory,
//! message history, notification queue and connection state machine, with
//! the form checks and paging arithmetic of the surrounding client.

pub mod table;
pub mod directory;
pub mod history;
pub mod notice;
pub mod frame;
pub mod text;
pub mod sync;
pub mod session;
pub mod account;
pub mod error;
pub mod validate;
pub mod request;
pub mod pager;
