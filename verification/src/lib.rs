//! Verified core of a prefix-command chat bot: command dispatch, a
//! correlator that pairs follow-up messages with suspended commands, and a
//! bounded number-guessing game session.
//!
//! The gateway transport itself (connecting, sending, receiving) lives
//! outside this crate; the crate decides, for every inbound message and
//! every game event, what happens next and what text is announced.

pub mod commands;
pub mod correlator;
pub mod dispatch;
pub mod game;
pub mod intake;
pub mod registry;
pub mod text;
