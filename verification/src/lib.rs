//! Core of a Telegram account-inspection bot.
//!
//! The library holds the two pieces worth proving: an age estimator that
//! interpolates an account-creation date from a numeric user id over a fixed
//! anchor table, and a message formatter that renders user, chat and forward
//! metadata as a tree-drawn text reply. Webhook transport and the outbound
//! Telegram call are collaborators outside the library.

pub mod numfmt;
pub mod dates;
pub mod anchors;
pub mod estimator;
pub mod message;
pub mod format;
