//! The repository operations on each entity: the request or state machine
//! that carries each one out, and how a reply to a read is understood.

use crate::entity::{
    channel_key, message_key, text_opt, user_key, Channel, Message, User, UserId,
};
use crate::ident::{is_token, Identifier};
use crate::ops::{
    delete_channel_init, reply_init, save_init, send_init, DeleteChannel, ErrorKind, Reply,
    SaveUser, SendMessage,
};
use crate::store::{id_opt, Label, Record, Request, RequestView, Response, ResponseView, RowView};
use vstd::prelude::*;

verus! {

impl User {
    /// Writes the user keyed by username (get-or-create): an existing row
    /// with the username is updated in place and keeps its identifier.
    pub fn save(&self) -> (r: SaveUser)
        ensures
            r@ == save_init(user_key(self.id@), self.username@, text_opt(self.nickname)),
    {
        let nickname = match &self.nickname {
            Some(n) => Some(n.clone()),
            None => None,
        };
        SaveUser::new(self.key(), self.username.clone(), nickname)
    }

    /// Inserts the user as a new row; the store answers `Conflict` if the
    /// username already belongs to another row.
    pub fn create(&self) -> (r: Request)
        ensures
            r@ == RequestView::Create(
                user_key(self.id@),
                RowView::User { username: self.username@, nickname: text_opt(self.nickname) },
            ),
    {
        Request::Create(self.key(), Record::of_user(self))
    }

    /// Removes the user's row.
    pub fn delete(&self) -> (r: Request)
        ensures
            r@ == RequestView::Delete(user_key(self.id@)),
    {
        Request::Delete(self.key())
    }
}

impl Channel {
    /// Inserts the channel as a new row.
    pub fn create(&self) -> (r: Request)
        ensures
            r@ == RequestView::Create(channel_key(self.id@), RowView::Channel { name: self.name@ }),
    {
        Request::Create(self.key(), Record::of_channel(self))
    }

    /// The request that lists the messages sent in the channel.
    pub fn get_messages(&self) -> (r: Request)
        ensures
            r@ == RequestView::MessagesLinkedTo(channel_key(self.id@), Label::SentInChannel),
    {
        Request::MessagesLinkedTo(self.key(), Label::SentInChannel)
    }

    /// Deletes the channel and every message sent in it.
    pub fn delete(self) -> (r: DeleteChannel)
        ensures
            r@ == delete_channel_init(channel_key(self.id@)),
    {
        DeleteChannel::new(self.key())
    }
}

impl Message {
    /// Stores the message as sent by `user_id` into `channel`.
    pub fn send(&self, user_id: UserId, channel: Channel) -> (r: SendMessage)
        ensures
            r@ == send_init(message_key(self.id@), user_key(user_id@), channel_key(channel.id@), self.content@),
    {
        SendMessage::new(self.key(), user_id.record(), channel.key(), self.content.clone())
    }

    /// A new message with `content`, sent by the user with token `user_id`
    /// as a reply to this one, and the machine that stores it.
    pub fn reply(&self, user_id: String, content: String) -> (r: (Message, Reply))
        ensures
            r.0.content@ == content@,
            is_token(r.0.id@),
            r.1@ == reply_init(message_key(self.id@), message_key(r.0.id@), user_key(user_id@), content@),
    {
        let child = Message::new(content);
        let sender = UserId::from_inner_id(user_id);
        let r = Reply::new(self.key(), child.key(), sender.record(), child.content.clone());
        (child, r)
    }

    /// Removes the message's row.
    pub fn delete(self) -> (r: Request)
        ensures
            r@ == RequestView::Delete(message_key(self.id@)),
    {
        Request::Delete(self.key())
    }

    /// The request that finds the channel the message was sent in.
    pub fn get_channel(&self) -> (r: Request)
        ensures
            r@ == RequestView::Follow(message_key(self.id@), Label::SentInChannel),
    {
        Request::Follow(self.key(), Label::SentInChannel)
    }

    /// The request that finds the user who sent the message.
    pub fn get_sender(&self) -> (r: Request)
        ensures
            r@ == RequestView::Follow(message_key(self.id@), Label::SentBy),
    {
        Request::Follow(self.key(), Label::SentBy)
    }

    /// The request that lists the messages that reply to this one.
    pub fn get_replies(&self) -> (r: Request)
        ensures
            r@ == RequestView::MessagesLinkedTo(message_key(self.id@), Label::ReplyTo),
    {
        Request::MessagesLinkedTo(self.key(), Label::ReplyTo)
    }

    /// The request that finds the message this one replies to.
    pub fn replied_from(&self) -> (r: Request)
        ensures
            r@ == RequestView::Follow(message_key(self.id@), Label::ReplyTo),
    {
        Request::Follow(self.key(), Label::ReplyTo)
    }
}

/// The outcome of a traversal whose target may be absent (a channel, a
/// parent message): absence is an answer, not an error.
pub fn optional_target(a: Response) -> (r: Result<Option<Identifier>, ErrorKind>)
    ensures
        a@ matches ResponseView::Found(t) ==> r is Ok && id_opt(r->Ok_0) == t,
        !(a@ is Found) ==> r == Err::<Option<Identifier>, ErrorKind>(ErrorKind::StoreUnavailable),
{
    match a {
        Response::Found(t) => Ok(t),
        _ => Err(ErrorKind::StoreUnavailable),
    }
}

/// The outcome of a traversal whose target the invariants guarantee (a
/// message's sender): absence means the store is inconsistent.
pub fn required_target(a: Response) -> (r: Result<Identifier, ErrorKind>)
    ensures
        a@ matches ResponseView::Found(Some(t)) ==> r is Ok && r->Ok_0@ == t,
        a@ == ResponseView::Found(None) ==> r == Err::<Identifier, ErrorKind>(ErrorKind::ConsistencyViolation),
        !(a@ is Found) ==> r == Err::<Identifier, ErrorKind>(ErrorKind::StoreUnavailable),
{
    match a {
        Response::Found(Some(t)) => Ok(t),
        Response::Found(None) => Err(ErrorKind::ConsistencyViolation),
        _ => Err(ErrorKind::StoreUnavailable),
    }
}

/// The outcome of a listing: the identifiers, in the order the store gave.
pub fn listed(a: Response) -> (r: Result<Vec<Identifier>, ErrorKind>)
    ensures
        a@ matches ResponseView::Listed(ids) ==> r is Ok && r->Ok_0@.map_values(|i: Identifier| i@).to_set() == ids,
        !(a@ is Listed) ==> r == Err::<Vec<Identifier>, ErrorKind>(ErrorKind::StoreUnavailable),
{
    match a {
        Response::Listed(v) => Ok(v),
        _ => Err(ErrorKind::StoreUnavailable),
    }
}

/// The outcome of a single write (create, update, delete).
pub fn write_outcome(a: Response) -> (r: Result<(), ErrorKind>)
    ensures
        a@ == ResponseView::Written <==> r is Ok,
        a@ == ResponseView::Missing ==> r == Err::<(), ErrorKind>(ErrorKind::NotFound),
        a@ == ResponseView::Conflict ==> r == Err::<(), ErrorKind>(ErrorKind::Conflict),
        (a@ is Found || a@ is Listed || a@ is Count || a@ is Failed) ==> r == Err::<(), ErrorKind>(ErrorKind::StoreUnavailable),
{
    match a {
        Response::Written => Ok(()),
        Response::Missing => Err(ErrorKind::NotFound),
        Response::Conflict => Err(ErrorKind::Conflict),
        _ => Err(ErrorKind::StoreUnavailable),
    }
}

} // verus!
