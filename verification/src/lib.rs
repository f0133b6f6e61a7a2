//! Verified core of a socket-mode pizza-roulette bot.
//!
//! The library holds the connection-lifecycle decisions, frame
//! classification, random catalog selection and per-user usage tracking.
//! Network I/O and serialization live outside; the logic here is specified
//! and proved.

pub mod roulette;
pub mod slack;
pub mod slack_message;
pub mod text;
