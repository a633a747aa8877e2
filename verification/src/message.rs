//! The message metadata the formatter consumes: sender, chat and optional
//! forward origin, as plain values decoded upstream from an inbound update.

use vstd::prelude::*;

verus! {

/// The sender of a message, as Telegram reports it.
#[derive(Clone, Debug)]
pub struct UserInfo {
    pub id: u64,
    pub is_bot: bool,
    pub first_name: String,
    pub last_name: Option<String>,
    pub username: Option<String>,
    pub language_code: Option<String>,
}

/// The kind of chat a message arrived in.
#[derive(Clone, Copy, Debug, PartialEq, Eq, Structural)]
pub enum ChatType {
    Private,
    Group,
    Supergroup,
    Channel,
}

/// The chat a message arrived in.
#[derive(Clone, Debug)]
pub struct ChatInfo {
    pub id: i64,
    pub kind: ChatType,
    pub title: Option<String>,
    pub username: Option<String>,
}

/// Where a forwarded message originally came from.
#[derive(Clone, Debug)]
pub enum ForwardOrigin {
    /// Forwarded from a user whose profile is visible.
    User(UserInfo),
    /// Forwarded from a user who only exposes a display name.
    SenderName(String),
    /// Forwarded from a channel.
    Chat(ChatInfo),
}

/// Forward metadata: the origin and, when Telegram supplies it, the epoch
/// seconds at which the original message was sent.
#[derive(Clone, Debug)]
pub struct ForwardInfo {
    pub origin: ForwardOrigin,
    pub date_secs: Option<i64>,
}

} // verus!
