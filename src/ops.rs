//! The composite operations as state machines.
//!
//! Each machine hands out its first request, then takes the store's reply to
//! each request and answers with the next request or with its outcome. The
//! caller performs the requests; the decisions are all made here. Steps run
//! strictly in order, and each is awaited before the next is issued.

use crate::ident::{IdView, Identifier, Table};
use crate::store::{Label, Record, Request, RequestView, Response, ResponseView, RowView};
use vstd::prelude::*;

verus! {

/// What went wrong in an operation.
#[derive(Clone, Copy, Debug, PartialEq, Eq, Structural)]
pub enum ErrorKind {
    /// A record that the operation needs does not exist.
    NotFound,
    /// A uniqueness rule refused a write.
    Conflict,
    /// The store holds a state that an invariant rules out, left by an
    /// earlier partial failure.
    ConsistencyViolation,
    /// The store could not be reached, or answered out of turn.
    StoreUnavailable,
    /// The channel a message belongs in does not exist.
    ChannelNotFound,
    /// The message a reply answers does not exist.
    MessageNotFound,
}

/// The step of an operation at which it stopped.
#[derive(Clone, Copy, Debug, PartialEq, Eq, Structural)]
pub enum Stage {
    /// Looking a user up by username.
    FindUser,
    /// Creating the operation's row.
    CreateRow,
    /// Overwriting an existing row.
    UpdateRow,
    /// Checking that the row to delete exists.
    CheckRow,
    /// Finding the channel of the message replied to.
    ResolveChannel,
    /// Linking a message to its sender.
    LinkSender,
    /// Linking a message to its channel.
    LinkChannel,
    /// Linking a reply to the message it answers.
    LinkParent,
    /// Linking two records, on its own.
    Link,
    /// Removing the messages of a channel.
    RemoveMessages,
    /// Removing the row itself.
    RemoveRow,
}

/// The failure of an operation: what went wrong, at which step, and whether
/// some of its writes had already been applied when it stopped (so that the
/// store may now hold a partial result, and retrying the whole operation is
/// the remedy).
#[derive(Clone, Copy, Debug, PartialEq, Eq, Structural)]
pub struct Failure {
    pub kind: ErrorKind,
    pub step: Stage,
    pub partial: bool,
}

pub open spec fn failure(kind: ErrorKind, step: Stage, partial: bool) -> Failure {
    Failure { kind, step, partial }
}

/// What an operation does next: issue a request, or stop with its outcome
/// (on success, the identifier of the record it was about).
#[derive(Debug)]
pub enum Step {
    Issue(Request),
    Finish(Result<Identifier, Failure>),
}

pub enum StepView {
    Issue(RequestView),
    Finish(Result<IdView, Failure>),
}

pub open spec fn outcome_view(r: Result<Identifier, Failure>) -> Result<IdView, Failure> {
    match r {
        Ok(id) => Ok(id@),
        Err(f) => Err(f),
    }
}

impl View for Step {
    type V = StepView;

    open spec fn view(&self) -> StepView {
        match self {
            Step::Issue(q) => StepView::Issue(q@),
            Step::Finish(r) => StepView::Finish(outcome_view(*r)),
        }
    }
}

pub open spec fn finish_ok(id: IdView) -> StepView {
    StepView::Finish(Ok(id))
}

pub open spec fn finish_err(kind: ErrorKind, step: Stage, partial: bool) -> StepView {
    StepView::Finish(Err(failure(kind, step, partial)))
}

fn fail(kind: ErrorKind, step: Stage, partial: bool) -> (r: Step)
    ensures
        r@ == finish_err(kind, step, partial),
{
    Step::Finish(Err(Failure { kind, step, partial }))
}

// ---------------------------------------------------------------------------
// connect: at most one edge of a label between two records

/// Creates the edge `from -label-> to` unless one is already there, so that
/// issuing it twice leaves a single edge. With `stamp`, the edge records
/// the store's clock as its sent time.
pub struct Connect {
    from: Identifier,
    label: Label,
    to: Identifier,
    stamp: bool,
    relating: bool,
}

pub struct ConnectView {
    pub from: IdView,
    pub label: Label,
    pub to: IdView,
    pub stamp: bool,
    pub relating: bool,
}

impl View for Connect {
    type V = ConnectView;

    closed spec fn view(&self) -> ConnectView {
        ConnectView { from: self.from@, label: self.label, to: self.to@, stamp: self.stamp, relating: self.relating }
    }
}

pub open spec fn connect_init(from: IdView, label: Label, to: IdView, stamp: bool) -> ConnectView {
    ConnectView { from, label, to, stamp, relating: false }
}

pub open spec fn connect_first(c: ConnectView) -> RequestView {
    RequestView::CountEdges(c.from, c.label, c.to)
}

pub open spec fn connect_next(c: ConnectView, a: ResponseView) -> (ConnectView, StepView) {
    if !c.relating {
        match a {
            ResponseView::Count(n) => if n == 0 {
                (ConnectView { relating: true, ..c }, StepView::Issue(RequestView::Relate(c.from, c.label, c.to, c.stamp)))
            } else {
                (c, finish_ok(c.from))
            },
            _ => (c, finish_err(ErrorKind::StoreUnavailable, Stage::Link, false)),
        }
    } else {
        match a {
            ResponseView::Written => (c, finish_ok(c.from)),
            ResponseView::Missing => (c, finish_err(ErrorKind::NotFound, Stage::Link, false)),
            _ => (c, finish_err(ErrorKind::StoreUnavailable, Stage::Link, false)),
        }
    }
}

impl Connect {
    pub fn new(from: Identifier, label: Label, to: Identifier, stamp: bool) -> (r: Connect)
        ensures
            r@ == connect_init(from@, label, to@, stamp),
    {
        Connect { from, label, to, stamp, relating: false }
    }

    pub fn first(&self) -> (r: Request)
        ensures
            r@ == connect_first(self@),
    {
        Request::CountEdges(self.from.clone(), self.label, self.to.clone())
    }

    pub fn next(self, a: Response) -> (r: (Connect, Step))
        ensures
            (r.0@, r.1@) == connect_next(self@, a@),
    {
        if !self.relating {
            match a {
                Response::Count(n) => {
                    if n == 0 {
                        let q = Request::Relate(self.from.clone(), self.label, self.to.clone(), self.stamp);
                        (Connect { relating: true, ..self }, Step::Issue(q))
                    } else {
                        let id = self.from.clone();
                        (self, Step::Finish(Ok(id)))
                    }
                },
                _ => (self, fail(ErrorKind::StoreUnavailable, Stage::Link, false)),
            }
        } else {
            match a {
                Response::Written => {
                    let id = self.from.clone();
                    (self, Step::Finish(Ok(id)))
                },
                Response::Missing => (self, fail(ErrorKind::NotFound, Stage::Link, false)),
                _ => (self, fail(ErrorKind::StoreUnavailable, Stage::Link, false)),
            }
        }
    }
}

// ---------------------------------------------------------------------------
// send: the message row, then its sender edge, then its channel edge

/// Stores a message and links it to its sender and its channel, in that
/// order. Every step may be repeated safely: a row that is already there is
/// kept, and an edge that is already there is not added again, so the whole
/// sequence can be retried after a partial failure.
pub struct SendMessage {
    message: Identifier,
    sender: Identifier,
    channel: Identifier,
    content: String,
    stage: SendStage,
}

pub enum SendStage {
    Creating,
    LinkingSender(Connect),
    LinkingChannel(Connect),
}

pub struct SendView {
    pub message: IdView,
    pub sender: IdView,
    pub channel: IdView,
    pub content: Seq<char>,
    pub stage: SendStageView,
}

pub enum SendStageView {
    Creating,
    LinkingSender(ConnectView),
    LinkingChannel(ConnectView),
}

impl View for SendMessage {
    type V = SendView;

    closed spec fn view(&self) -> SendView {
        SendView {
            message: self.message@,
            sender: self.sender@,
            channel: self.channel@,
            content: self.content@,
            stage: match self.stage {
                SendStage::Creating => SendStageView::Creating,
                SendStage::LinkingSender(c) => SendStageView::LinkingSender(c@),
                SendStage::LinkingChannel(c) => SendStageView::LinkingChannel(c@),
            },
        }
    }
}

pub open spec fn send_init(message: IdView, sender: IdView, channel: IdView, content: Seq<char>) -> SendView {
    SendView { message, sender, channel, content, stage: SendStageView::Creating }
}

pub open spec fn send_first(m: SendView) -> RequestView {
    RequestView::Create(m.message, RowView::Message { content: m.content })
}

pub open spec fn send_next(m: SendView, a: ResponseView) -> (SendView, StepView) {
    match m.stage {
        SendStageView::Creating => match a {
            ResponseView::Written | ResponseView::Conflict => {
                let c = connect_init(m.message, Label::SentBy, m.sender, true);
                (SendView { stage: SendStageView::LinkingSender(c), ..m }, StepView::Issue(connect_first(c)))
            },
            _ => (m, finish_err(ErrorKind::StoreUnavailable, Stage::CreateRow, false)),
        },
        SendStageView::LinkingSender(c) => {
            let (c2, st) = connect_next(c, a);
            match st {
                StepView::Issue(q) => (SendView { stage: SendStageView::LinkingSender(c2), ..m }, StepView::Issue(q)),
                StepView::Finish(Ok(_)) => {
                    let c3 = connect_init(m.message, Label::SentInChannel, m.channel, false);
                    (SendView { stage: SendStageView::LinkingChannel(c3), ..m }, StepView::Issue(connect_first(c3)))
                },
                StepView::Finish(Err(f)) => (m, finish_err(f.kind, Stage::LinkSender, true)),
            }
        },
        SendStageView::LinkingChannel(c) => {
            let (c2, st) = connect_next(c, a);
            match st {
                StepView::Issue(q) => (SendView { stage: SendStageView::LinkingChannel(c2), ..m }, StepView::Issue(q)),
                StepView::Finish(Ok(_)) => (m, finish_ok(m.message)),
                StepView::Finish(Err(f)) => (
                    m,
                    finish_err(
                        if f.kind == ErrorKind::NotFound { ErrorKind::ChannelNotFound } else { f.kind },
                        Stage::LinkChannel,
                        true,
                    ),
                ),
            }
        },
    }
}

impl SendMessage {
    pub fn new(message: Identifier, sender: Identifier, channel: Identifier, content: String) -> (r: SendMessage)
        ensures
            r@ == send_init(message@, sender@, channel@, content@),
    {
        SendMessage { message, sender, channel, content, stage: SendStage::Creating }
    }

    pub fn first(&self) -> (r: Request)
        ensures
            r@ == send_first(self@),
    {
        Request::Create(self.message.clone(), Record::Message { content: self.content.clone() })
    }

    pub fn next(self, a: Response) -> (r: (SendMessage, Step))
        ensures
            (r.0@, r.1@) == send_next(self@, a@),
    {
        let SendMessage { message, sender, channel, content, stage } = self;
        match stage {
            SendStage::Creating => match a {
                Response::Written | Response::Conflict => {
                    let c = Connect::new(message.clone(), Label::SentBy, sender.clone(), true);
                    let q = c.first();
                    (SendMessage { message, sender, channel, content, stage: SendStage::LinkingSender(c) }, Step::Issue(q))
                },
                _ => (
                    SendMessage { message, sender, channel, content, stage: SendStage::Creating },
                    fail(ErrorKind::StoreUnavailable, Stage::CreateRow, false),
                ),
            },
            SendStage::LinkingSender(c) => {
                let (c2, st) = c.next(a);
                match st {
                    Step::Issue(q) => (
                        SendMessage { message, sender, channel, content, stage: SendStage::LinkingSender(c2) },
                        Step::Issue(q),
                    ),
                    Step::Finish(Ok(_)) => {
                        let c3 = Connect::new(message.clone(), Label::SentInChannel, channel.clone(), false);
                        let q = c3.first();
                        (
                            SendMessage { message, sender, channel, content, stage: SendStage::LinkingChannel(c3) },
                            Step::Issue(q),
                        )
                    },
                    Step::Finish(Err(f)) => (
                        SendMessage { message, sender, channel, content, stage: SendStage::LinkingSender(c2) },
                        fail(f.kind, Stage::LinkSender, true),
                    ),
                }
            },
            SendStage::LinkingChannel(c) => {
                let (c2, st) = c.next(a);
                match st {
                    Step::Issue(q) => (
                        SendMessage { message, sender, channel, content, stage: SendStage::LinkingChannel(c2) },
                        Step::Issue(q),
                    ),
                    Step::Finish(Ok(_)) => {
                        let id = message.clone();
                        (
                            SendMessage { message, sender, channel, content, stage: SendStage::LinkingChannel(c2) },
                            Step::Finish(Ok(id)),
                        )
                    },
                    Step::Finish(Err(f)) => {
                        let kind = if f.kind == ErrorKind::NotFound { ErrorKind::ChannelNotFound } else { f.kind };
                        (
                            SendMessage { message, sender, channel, content, stage: SendStage::LinkingChannel(c2) },
                            fail(kind, Stage::LinkChannel, true),
                        )
                    },
                }
            },
        }
    }
}

// ---------------------------------------------------------------------------
// reply: find the parent's channel, send the reply there, link it to the parent

/// Sends a reply into the channel of the message it answers, then links the
/// reply to that message with a `ReplyTo` edge from reply to parent.
pub struct Reply {
    parent: Identifier,
    child: Identifier,
    sender: Identifier,
    content: String,
    stage: ReplyStage,
}

pub enum ReplyStage {
    Resolving,
    Sending(SendMessage),
    Linking(Connect),
}

pub struct ReplyView {
    pub parent: IdView,
    pub child: IdView,
    pub sender: IdView,
    pub content: Seq<char>,
    pub stage: ReplyStageView,
}

pub enum ReplyStageView {
    Resolving,
    Sending(SendView),
    Linking(ConnectView),
}

impl View for Reply {
    type V = ReplyView;

    closed spec fn view(&self) -> ReplyView {
        ReplyView {
            parent: self.parent@,
            child: self.child@,
            sender: self.sender@,
            content: self.content@,
            stage: match self.stage {
                ReplyStage::Resolving => ReplyStageView::Resolving,
                ReplyStage::Sending(m) => ReplyStageView::Sending(m@),
                ReplyStage::Linking(c) => ReplyStageView::Linking(c@),
            },
        }
    }
}

pub open spec fn reply_init(parent: IdView, child: IdView, sender: IdView, content: Seq<char>) -> ReplyView {
    ReplyView { parent, child, sender, content, stage: ReplyStageView::Resolving }
}

pub open spec fn reply_first(r: ReplyView) -> RequestView {
    RequestView::Follow(r.parent, Label::SentInChannel)
}

pub open spec fn reply_next(r: ReplyView, a: ResponseView) -> (ReplyView, StepView) {
    match r.stage {
        ReplyStageView::Resolving => match a {
            ResponseView::Found(Some(c)) => if c.0 == Table::Channels {
                let m = send_init(r.child, r.sender, c, r.content);
                (ReplyView { stage: ReplyStageView::Sending(m), ..r }, StepView::Issue(send_first(m)))
            } else {
                (r, finish_err(ErrorKind::ConsistencyViolation, Stage::ResolveChannel, false))
            },
            ResponseView::Found(None) => (r, finish_err(ErrorKind::ChannelNotFound, Stage::ResolveChannel, false)),
            _ => (r, finish_err(ErrorKind::StoreUnavailable, Stage::ResolveChannel, false)),
        },
        ReplyStageView::Sending(m) => {
            let (m2, st) = send_next(m, a);
            match st {
                StepView::Issue(q) => (ReplyView { stage: ReplyStageView::Sending(m2), ..r }, StepView::Issue(q)),
                StepView::Finish(Ok(_)) => {
                    let c = connect_init(r.child, Label::ReplyTo, r.parent, false);
                    (ReplyView { stage: ReplyStageView::Linking(c), ..r }, StepView::Issue(connect_first(c)))
                },
                StepView::Finish(Err(f)) => (r, StepView::Finish(Err(f))),
            }
        },
        ReplyStageView::Linking(c) => {
            let (c2, st) = connect_next(c, a);
            match st {
                StepView::Issue(q) => (ReplyView { stage: ReplyStageView::Linking(c2), ..r }, StepView::Issue(q)),
                StepView::Finish(Ok(_)) => (r, finish_ok(r.child)),
                StepView::Finish(Err(f)) => (
                    r,
                    finish_err(
                        if f.kind == ErrorKind::NotFound { ErrorKind::MessageNotFound } else { f.kind },
                        Stage::LinkParent,
                        true,
                    ),
                ),
            }
        },
    }
}

impl Reply {
    pub fn new(parent: Identifier, child: Identifier, sender: Identifier, content: String) -> (r: Reply)
        ensures
            r@ == reply_init(parent@, child@, sender@, content@),
    {
        Reply { parent, child, sender, content, stage: ReplyStage::Resolving }
    }

    pub fn first(&self) -> (r: Request)
        ensures
            r@ == reply_first(self@),
    {
        Request::Follow(self.parent.clone(), Label::SentInChannel)
    }

    pub fn next(self, a: Response) -> (r: (Reply, Step))
        ensures
            (r.0@, r.1@) == reply_next(self@, a@),
    {
        let Reply { parent, child, sender, content, stage } = self;
        match stage {
            ReplyStage::Resolving => match a {
                Response::Found(Some(c)) => {
                    if c.table == Table::Channels {
                        let m = SendMessage::new(child.clone(), sender.clone(), c, content.clone());
                        let q = m.first();
                        (Reply { parent, child, sender, content, stage: ReplyStage::Sending(m) }, Step::Issue(q))
                    } else {
                        (
                            Reply { parent, child, sender, content, stage: ReplyStage::Resolving },
                            fail(ErrorKind::ConsistencyViolation, Stage::ResolveChannel, false),
                        )
                    }
                },
                Response::Found(None) => (
                    Reply { parent, child, sender, content, stage: ReplyStage::Resolving },
                    fail(ErrorKind::ChannelNotFound, Stage::ResolveChannel, false),
                ),
                _ => (
                    Reply { parent, child, sender, content, stage: ReplyStage::Resolving },
                    fail(ErrorKind::StoreUnavailable, Stage::ResolveChannel, false),
                ),
            },
            ReplyStage::Sending(m) => {
                let (m2, st) = m.next(a);
                match st {
                    Step::Issue(q) => (Reply { parent, child, sender, content, stage: ReplyStage::Sending(m2) }, Step::Issue(q)),
                    Step::Finish(Ok(_)) => {
                        let c = Connect::new(child.clone(), Label::ReplyTo, parent.clone(), false);
                        let q = c.first();
                        (Reply { parent, child, sender, content, stage: ReplyStage::Linking(c) }, Step::Issue(q))
                    },
                    Step::Finish(Err(f)) => (
                        Reply { parent, child, sender, content, stage: ReplyStage::Sending(m2) },
                        Step::Finish(Err(f)),
                    ),
                }
            },
            ReplyStage::Linking(c) => {
                let (c2, st) = c.next(a);
                match st {
                    Step::Issue(q) => (Reply { parent, child, sender, content, stage: ReplyStage::Linking(c2) }, Step::Issue(q)),
                    Step::Finish(Ok(_)) => {
                        let id = child.clone();
                        (Reply { parent, child, sender, content, stage: ReplyStage::Linking(c2) }, Step::Finish(Ok(id)))
                    },
                    Step::Finish(Err(f)) => {
                        let kind = if f.kind == ErrorKind::NotFound { ErrorKind::MessageNotFound } else { f.kind };
                        (Reply { parent, child, sender, content, stage: ReplyStage::Linking(c2) }, fail(kind, Stage::LinkParent, true))
                    },
                }
            },
        }
    }
}

// ---------------------------------------------------------------------------
// save: get-or-create a user by username

/// Writes a user keyed by username: if a user row with the username exists
/// it is overwritten in place and keeps its identifier; otherwise a row is
/// created under the new user's identifier. The store's unique index on
/// usernames settles a race between two creations: the loser looks the
/// username up again and updates the winner's row.
pub struct SaveUser {
    user: Identifier,
    username: String,
    nickname: Option<String>,
    stage: SaveStage,
}

pub enum SaveStage {
    Looking,
    Creating,
    Retrying,
    Updating(Identifier),
}

pub struct SaveView {
    pub user: IdView,
    pub username: Seq<char>,
    pub nickname: Option<Seq<char>>,
    pub stage: SaveStageView,
}

pub enum SaveStageView {
    Looking,
    Creating,
    Retrying,
    Updating(IdView),
}

impl View for SaveUser {
    type V = SaveView;

    closed spec fn view(&self) -> SaveView {
        SaveView {
            user: self.user@,
            username: self.username@,
            nickname: crate::entity::text_opt(self.nickname),
            stage: match self.stage {
                SaveStage::Looking => SaveStageView::Looking,
                SaveStage::Creating => SaveStageView::Creating,
                SaveStage::Retrying => SaveStageView::Retrying,
                SaveStage::Updating(id) => SaveStageView::Updating(id@),
            },
        }
    }
}

pub open spec fn save_row(u: SaveView) -> RowView {
    RowView::User { username: u.username, nickname: u.nickname }
}

pub open spec fn save_init(user: IdView, username: Seq<char>, nickname: Option<Seq<char>>) -> SaveView {
    SaveView { user, username, nickname, stage: SaveStageView::Looking }
}

pub open spec fn save_first(u: SaveView) -> RequestView {
    RequestView::FindUserByName(u.username)
}

pub open spec fn save_next(u: SaveView, a: ResponseView) -> (SaveView, StepView) {
    match u.stage {
        SaveStageView::Looking => match a {
            ResponseView::Found(Some(id)) => (
                SaveView { stage: SaveStageView::Updating(id), ..u },
                StepView::Issue(RequestView::Update(id, save_row(u))),
            ),
            ResponseView::Found(None) => (
                SaveView { stage: SaveStageView::Creating, ..u },
                StepView::Issue(RequestView::Create(u.user, save_row(u))),
            ),
            _ => (u, finish_err(ErrorKind::StoreUnavailable, Stage::FindUser, false)),
        },
        SaveStageView::Creating => match a {
            ResponseView::Written => (u, finish_ok(u.user)),
            ResponseView::Conflict => (
                SaveView { stage: SaveStageView::Retrying, ..u },
                StepView::Issue(RequestView::FindUserByName(u.username)),
            ),
            _ => (u, finish_err(ErrorKind::StoreUnavailable, Stage::CreateRow, false)),
        },
        SaveStageView::Retrying => match a {
            ResponseView::Found(Some(id)) => (
                SaveView { stage: SaveStageView::Updating(id), ..u },
                StepView::Issue(RequestView::Update(id, save_row(u))),
            ),
            ResponseView::Found(None) => (u, finish_err(ErrorKind::Conflict, Stage::FindUser, false)),
            _ => (u, finish_err(ErrorKind::StoreUnavailable, Stage::FindUser, false)),
        },
        SaveStageView::Updating(id) => match a {
            ResponseView::Written => (u, finish_ok(id)),
            ResponseView::Missing => (u, finish_err(ErrorKind::NotFound, Stage::UpdateRow, false)),
            ResponseView::Conflict => (u, finish_err(ErrorKind::Conflict, Stage::UpdateRow, false)),
            _ => (u, finish_err(ErrorKind::StoreUnavailable, Stage::UpdateRow, false)),
        },
    }
}

impl SaveUser {
    pub fn new(user: Identifier, username: String, nickname: Option<String>) -> (r: SaveUser)
        ensures
            r@ == save_init(user@, username@, crate::entity::text_opt(nickname)),
    {
        SaveUser { user, username, nickname, stage: SaveStage::Looking }
    }

    fn row(&self) -> (r: Record)
        ensures
            r@ == save_row(self@),
    {
        let nickname = match &self.nickname {
            Some(n) => Some(n.clone()),
            None => None,
        };
        Record::User { username: self.username.clone(), nickname }
    }

    pub fn first(&self) -> (r: Request)
        ensures
            r@ == save_first(self@),
    {
        Request::FindUserByName(self.username.clone())
    }

    pub fn next(self, a: Response) -> (r: (SaveUser, Step))
        ensures
            (r.0@, r.1@) == save_next(self@, a@),
    {
        match self.stage {
            SaveStage::Looking | SaveStage::Retrying => {
                let retrying = match self.stage {
                    SaveStage::Retrying => true,
                    _ => false,
                };
                match a {
                    Response::Found(Some(id)) => {
                        let q = Request::Update(id.clone(), self.row());
                        (SaveUser { stage: SaveStage::Updating(id), ..self }, Step::Issue(q))
                    },
                    Response::Found(None) => {
                        if retrying {
                            (self, fail(ErrorKind::Conflict, Stage::FindUser, false))
                        } else {
                            let q = Request::Create(self.user.clone(), self.row());
                            (SaveUser { stage: SaveStage::Creating, ..self }, Step::Issue(q))
                        }
                    },
                    _ => (self, fail(ErrorKind::StoreUnavailable, Stage::FindUser, false)),
                }
            },
            SaveStage::Creating => match a {
                Response::Written => {
                    let id = self.user.clone();
                    (self, Step::Finish(Ok(id)))
                },
                Response::Conflict => {
                    let q = Request::FindUserByName(self.username.clone());
                    (SaveUser { stage: SaveStage::Retrying, ..self }, Step::Issue(q))
                },
                _ => (self, fail(ErrorKind::StoreUnavailable, Stage::CreateRow, false)),
            },
            SaveStage::Updating(ref id) => {
                let id = id.clone();
                match a {
                    Response::Written => (self, Step::Finish(Ok(id))),
                    Response::Missing => (self, fail(ErrorKind::NotFound, Stage::UpdateRow, false)),
                    Response::Conflict => (self, fail(ErrorKind::Conflict, Stage::UpdateRow, false)),
                    _ => (self, fail(ErrorKind::StoreUnavailable, Stage::UpdateRow, false)),
                }
            },
        }
    }
}

// ---------------------------------------------------------------------------
// delete a channel: its messages first, the channel row last

/// Deletes a channel together with the messages sent in it. It first checks
/// that the channel exists, and touches nothing if it does not. Then the
/// messages go, and the channel row last, so that no message is ever left
/// pointing at a channel that is gone.
pub struct DeleteChannel {
    channel: Identifier,
    stage: DeleteStage,
}

#[derive(Clone, Copy, Debug, PartialEq, Eq, Structural)]
pub enum DeleteStage {
    Checking,
    Purging,
    Removing,
}

pub struct DeleteChannelView {
    pub channel: IdView,
    pub stage: DeleteStage,
}

impl View for DeleteChannel {
    type V = DeleteChannelView;

    closed spec fn view(&self) -> DeleteChannelView {
        DeleteChannelView { channel: self.channel@, stage: self.stage }
    }
}

pub open spec fn delete_channel_init(channel: IdView) -> DeleteChannelView {
    DeleteChannelView { channel, stage: DeleteStage::Checking }
}

pub open spec fn delete_channel_first(d: DeleteChannelView) -> RequestView {
    RequestView::Exists(d.channel)
}

pub open spec fn delete_channel_next(d: DeleteChannelView, a: ResponseView) -> (DeleteChannelView, StepView) {
    match d.stage {
        DeleteStage::Checking => match a {
            ResponseView::Found(Some(_)) => (
                DeleteChannelView { stage: DeleteStage::Purging, ..d },
                StepView::Issue(RequestView::DeleteMessagesIn(d.channel)),
            ),
            ResponseView::Found(None) => (d, finish_err(ErrorKind::NotFound, Stage::CheckRow, false)),
            _ => (d, finish_err(ErrorKind::StoreUnavailable, Stage::CheckRow, false)),
        },
        DeleteStage::Purging => match a {
            ResponseView::Written => (
                DeleteChannelView { stage: DeleteStage::Removing, ..d },
                StepView::Issue(RequestView::Delete(d.channel)),
            ),
            _ => (d, finish_err(ErrorKind::StoreUnavailable, Stage::RemoveMessages, false)),
        },
        DeleteStage::Removing => match a {
            ResponseView::Written => (d, finish_ok(d.channel)),
            ResponseView::Missing => (d, finish_err(ErrorKind::NotFound, Stage::RemoveRow, true)),
            _ => (d, finish_err(ErrorKind::StoreUnavailable, Stage::RemoveRow, true)),
        },
    }
}

impl DeleteChannel {
    pub fn new(channel: Identifier) -> (r: DeleteChannel)
        ensures
            r@ == delete_channel_init(channel@),
    {
        DeleteChannel { channel, stage: DeleteStage::Checking }
    }

    pub fn first(&self) -> (r: Request)
        ensures
            r@ == delete_channel_first(self@),
    {
        Request::Exists(self.channel.clone())
    }

    pub fn next(self, a: Response) -> (r: (DeleteChannel, Step))
        ensures
            (r.0@, r.1@) == delete_channel_next(self@, a@),
    {
        match self.stage {
            DeleteStage::Checking => match a {
                Response::Found(Some(_)) => {
                    let q = Request::DeleteMessagesIn(self.channel.clone());
                    (DeleteChannel { stage: DeleteStage::Purging, ..self }, Step::Issue(q))
                },
                Response::Found(None) => (self, fail(ErrorKind::NotFound, Stage::CheckRow, false)),
                _ => (self, fail(ErrorKind::StoreUnavailable, Stage::CheckRow, false)),
            },
            DeleteStage::Purging => match a {
                Response::Written => {
                    let q = Request::Delete(self.channel.clone());
                    (DeleteChannel { stage: DeleteStage::Removing, ..self }, Step::Issue(q))
                },
                _ => (self, fail(ErrorKind::StoreUnavailable, Stage::RemoveMessages, false)),
            },
            DeleteStage::Removing => match a {
                Response::Written => {
                    let id = self.channel.clone();
                    (self, Step::Finish(Ok(id)))
                },
                Response::Missing => (self, fail(ErrorKind::NotFound, Stage::RemoveRow, true)),
                _ => (self, fail(ErrorKind::StoreUnavailable, Stage::RemoveRow, true)),
            },
        }
    }
}

} // verus!
