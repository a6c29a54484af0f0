//! The domain's entities and their typed identifiers.

use crate::ident::{fresh_token, is_token, IdView, Identifier, Table};
use vstd::prelude::*;

verus! {

/// The identifier of a user row: a token in the `users` table.
#[derive(Debug)]
pub struct UserId {
    token: String,
}

/// The identifier of a message row: a token in the `messages` table.
#[derive(Debug)]
pub struct MessageId {
    token: String,
}

/// The identifier of a channel row: a token in the `channels` table.
#[derive(Debug)]
pub struct ChannelId {
    token: String,
}

impl View for UserId {
    type V = Seq<char>;

    closed spec fn view(&self) -> Seq<char> {
        self.token@
    }
}

impl View for MessageId {
    type V = Seq<char>;

    closed spec fn view(&self) -> Seq<char> {
        self.token@
    }
}

impl View for ChannelId {
    type V = Seq<char>;

    closed spec fn view(&self) -> Seq<char> {
        self.token@
    }
}

impl UserId {
    /// The user identifier with the given token.
    pub fn from_inner_id(inner_id: String) -> (r: UserId)
        ensures
            r@ == inner_id@,
    {
        UserId { token: inner_id }
    }

    /// The token, without the table.
    pub fn get_inner_string(&self) -> (r: String)
        ensures
            r@ == self@,
    {
        self.token.clone()
    }

    /// The full, table-scoped identifier.
    pub fn record(&self) -> (r: Identifier)
        ensures
            r@ == (Table::Users, self@),
    {
        Identifier::from_token(Table::Users, self.token.clone())
    }
}

impl MessageId {
    /// The message identifier with the given token.
    pub fn from_inner_id(inner_id: String) -> (r: MessageId)
        ensures
            r@ == inner_id@,
    {
        MessageId { token: inner_id }
    }

    /// The token, without the table.
    pub fn get_inner_string(&self) -> (r: String)
        ensures
            r@ == self@,
    {
        self.token.clone()
    }

    /// The full, table-scoped identifier.
    pub fn record(&self) -> (r: Identifier)
        ensures
            r@ == (Table::Messages, self@),
    {
        Identifier::from_token(Table::Messages, self.token.clone())
    }
}

impl ChannelId {
    /// The channel identifier with the given token.
    pub fn from_inner_id(inner_id: String) -> (r: ChannelId)
        ensures
            r@ == inner_id@,
    {
        ChannelId { token: inner_id }
    }

    /// The token, without the table.
    pub fn get_inner_string(&self) -> (r: String)
        ensures
            r@ == self@,
    {
        self.token.clone()
    }

    /// The full, table-scoped identifier.
    pub fn record(&self) -> (r: Identifier)
        ensures
            r@ == (Table::Channels, self@),
    {
        Identifier::from_token(Table::Channels, self.token.clone())
    }
}

impl Clone for UserId {
    fn clone(&self) -> (r: UserId)
        ensures
            r@ == self@,
    {
        UserId { token: self.token.clone() }
    }
}

impl Clone for MessageId {
    fn clone(&self) -> (r: MessageId)
        ensures
            r@ == self@,
    {
        MessageId { token: self.token.clone() }
    }
}

impl Clone for ChannelId {
    fn clone(&self) -> (r: ChannelId)
        ensures
            r@ == self@,
    {
        ChannelId { token: self.token.clone() }
    }
}

/// A user: a unique username and an optional nickname.
#[derive(Debug)]
pub struct User {
    pub id: UserId,
    pub username: String,
    pub nickname: Option<String>,
}

/// A channel, by name.
#[derive(Debug)]
pub struct Channel {
    pub id: ChannelId,
    pub name: String,
}

/// A message's content; who sent it and where live in the store's edges.
#[derive(Debug)]
pub struct Message {
    pub id: MessageId,
    pub content: String,
}

/// The text of an optional string.
pub open spec fn text_opt(s: Option<String>) -> Option<Seq<char>> {
    match s {
        Some(t) => Some(t@),
        None => None,
    }
}

/// The name shown for a user: the nickname if there is one, else the username.
pub open spec fn display_name(username: Seq<char>, nickname: Option<Seq<char>>) -> Seq<char> {
    match nickname {
        Some(n) => n,
        None => username,
    }
}

impl User {
    /// A new user with a freshly generated identifier; nothing is stored yet.
    pub fn new(username: String, nickname: Option<String>) -> (r: User)
        ensures
            r.username@ == username@,
            text_opt(r.nickname) == text_opt(nickname),
            is_token(r.id@),
    {
        User { id: UserId { token: fresh_token() }, username, nickname }
    }

    pub fn get_display_name(&self) -> (r: String)
        ensures
            r@ == display_name(self.username@, text_opt(self.nickname)),
    {
        match &self.nickname {
            Some(nickname) => nickname.clone(),
            None => self.username.clone(),
        }
    }

    pub fn get_username(&self) -> (r: String)
        ensures
            r@ == self.username@,
    {
        self.username.clone()
    }

    /// The token of the user's identifier.
    pub fn id(&self) -> (r: String)
        ensures
            r@ == self.id@,
    {
        self.id.get_inner_string()
    }

    /// The table-scoped identifier of the user's row.
    pub fn key(&self) -> (r: Identifier)
        ensures
            r@ == user_key(self.id@),
    {
        self.id.record()
    }
}

impl Channel {
    /// A new channel with a freshly generated identifier; nothing is stored yet.
    pub fn new(name: String) -> (r: Channel)
        ensures
            r.name@ == name@,
            is_token(r.id@),
    {
        Channel { id: ChannelId { token: fresh_token() }, name }
    }

    /// The token of the channel's identifier.
    pub fn id(&self) -> (r: String)
        ensures
            r@ == self.id@,
    {
        self.id.get_inner_string()
    }

    pub fn name(&self) -> (r: String)
        ensures
            r@ == self.name@,
    {
        self.name.clone()
    }

    /// The table-scoped identifier of the channel's row.
    pub fn key(&self) -> (r: Identifier)
        ensures
            r@ == channel_key(self.id@),
    {
        self.id.record()
    }
}

impl Message {
    /// A new message with a freshly generated identifier; nothing is stored yet.
    pub fn new(content: String) -> (r: Message)
        ensures
            r.content@ == content@,
            is_token(r.id@),
    {
        Message { id: MessageId { token: fresh_token() }, content }
    }

    pub fn get_content(&self) -> (r: String)
        ensures
            r@ == self.content@,
    {
        self.content.clone()
    }

    /// The token of the message's identifier.
    pub fn id(&self) -> (r: String)
        ensures
            r@ == self.id@,
    {
        self.id.get_inner_string()
    }

    /// The table-scoped identifier of the message's row.
    pub fn key(&self) -> (r: Identifier)
        ensures
            r@ == message_key(self.id@),
    {
        self.id.record()
    }
}

pub open spec fn user_key(token: Seq<char>) -> IdView {
    (Table::Users, token)
}

pub open spec fn channel_key(token: Seq<char>) -> IdView {
    (Table::Channels, token)
}

pub open spec fn message_key(token: Seq<char>) -> IdView {
    (Table::Messages, token)
}

impl Clone for User {
    fn clone(&self) -> (r: User)
        ensures
            r.id@ == self.id@,
            r.username@ == self.username@,
            text_opt(r.nickname) == text_opt(self.nickname),
    {
        let nickname = match &self.nickname {
            Some(n) => Some(n.clone()),
            None => None,
        };
        User { id: self.id.clone(), username: self.username.clone(), nickname }
    }
}

impl Clone for Channel {
    fn clone(&self) -> (r: Channel)
        ensures
            r.id@ == self.id@,
            r.name@ == self.name@,
    {
        Channel { id: self.id.clone(), name: self.name.clone() }
    }
}

impl Clone for Message {
    fn clone(&self) -> (r: Message)
        ensures
            r.id@ == self.id@,
            r.content@ == self.content@,
    {
        Message { id: self.id.clone(), content: self.content.clone() }
    }
}

} // verus!
