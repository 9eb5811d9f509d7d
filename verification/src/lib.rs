//! Verified core of a chat-triggered registration bot.
//!
//! The library holds the pure, verified logic of the bot: routing free-text
//! chat input to a typed command, the ordered verification pipeline run for
//! the `!register` command, the FIFO notifier channel that decouples pipeline
//! progress messages from delivery, and the construction of the registration
//! record that is handed to the store.  All network, database and chat-room
//! I/O stays outside the library; callers perform those calls and feed the
//! outcomes back in as plain values.

pub mod command_parser;
pub mod config;
pub mod database;
pub mod dispatch;
pub mod errors;
pub mod ids;
pub mod messages;
pub mod notices;
pub mod notifier;
pub mod pipeline;
pub mod register;
pub mod text;
pub mod well_known;
