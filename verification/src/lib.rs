//! A polling bridge for a social network account's mentions: messages are
//! classified by a lightweight keyword convention (`#idea`, `#pregunta`,
//! `#comentario`), turned into acknowledgement replies and records for a set
//! of downstream sinks, and the identifier of the newest processed message is
//! tracked so that polling can resume without duplicates.
//!
//! The crate holds the decision logic only: classification, dispatch
//! planning, and cursor bookkeeping. Network delivery is left to the caller,
//! which executes the planned actions.

pub mod config;
pub mod dispatch;
pub mod feedback;
pub mod mastodon;
pub mod matrix;
pub mod mattermost;
pub mod message;
pub mod poll;
pub mod text;
pub mod trusted;
pub mod twitter;
pub mod zinc;
