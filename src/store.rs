//! The requests this library hands to the backing store, the replies it
//! expects, and an abstract model of what the store does with each request.
//!
//! The model is what the operations' guarantees are stated over: rows keyed
//! by identifier, and directed labelled edges counted with multiplicity
//! (the store itself permits several edges of one label between a pair).
//! Usernames are unique among user rows, as a unique index on the store
//! enforces.

use crate::entity::{text_opt, Channel, Message, User};
use crate::ident::{IdView, Identifier, Table};
use vstd::prelude::*;

verus! {

/// The labels of the domain's edges.
#[derive(Clone, Copy, Debug, PartialEq, Eq, Structural)]
pub enum Label {
    /// Message to the user who sent it.
    SentBy,
    /// Message to the channel it was sent in.
    SentInChannel,
    /// Reply to the message it answers (child to parent).
    ReplyTo,
}

/// A directed, labelled edge between two records.
pub struct EdgeView {
    pub from: IdView,
    pub label: Label,
    pub to: IdView,
}

pub open spec fn edge(from: IdView, label: Label, to: IdView) -> EdgeView {
    EdgeView { from, label, to }
}

/// What a row holds.
pub enum RowView {
    User { username: Seq<char>, nickname: Option<Seq<char>> },
    Channel { name: Seq<char> },
    Message { content: Seq<char> },
}

/// The content written to a row.
#[derive(Debug)]
pub enum Record {
    User { username: String, nickname: Option<String> },
    Channel { name: String },
    Message { content: String },
}

impl View for Record {
    type V = RowView;

    open spec fn view(&self) -> RowView {
        match self {
            Record::User { username, nickname } => RowView::User {
                username: username@,
                nickname: text_opt(*nickname),
            },
            Record::Channel { name } => RowView::Channel { name: name@ },
            Record::Message { content } => RowView::Message { content: content@ },
        }
    }
}

impl Record {
    pub fn of_user(u: &User) -> (r: Record)
        ensures
            r@ == (RowView::User { username: u.username@, nickname: text_opt(u.nickname) }),
    {
        let nickname = match &u.nickname {
            Some(n) => Some(n.clone()),
            None => None,
        };
        Record::User { username: u.username.clone(), nickname }
    }

    pub fn of_channel(c: &Channel) -> (r: Record)
        ensures
            r@ == (RowView::Channel { name: c.name@ }),
    {
        Record::Channel { name: c.name.clone() }
    }

    pub fn of_message(m: &Message) -> (r: Record)
        ensures
            r@ == (RowView::Message { content: m.content@ }),
    {
        Record::Message { content: m.content.clone() }
    }
}

/// The store's state: rows by identifier, how many edges there are of each
/// (from, label, to), and which edges carry a sent time.
pub struct StoreView {
    pub rows: Map<IdView, RowView>,
    pub edges: Map<EdgeView, nat>,
    pub timed: Set<EdgeView>,
}

/// One request to the store.
#[derive(Debug)]
pub enum Request {
    /// The user row with this username, if any.
    FindUserByName(String),
    /// Insert a row; refused if the identifier, or a user's username, is taken.
    Create(Identifier, Record),
    /// Overwrite an existing row, keeping its identifier.
    Update(Identifier, Record),
    /// Remove a row, with every edge that touches it.
    Delete(Identifier),
    /// Add one edge between two existing rows; with `true`, the edge also
    /// records the store's clock as its sent time.
    Relate(Identifier, Label, Identifier, bool),
    /// How many edges of the label run between the two records.
    CountEdges(Identifier, Label, Identifier),
    /// An existing record that an edge of the label leads to from the record.
    Follow(Identifier, Label),
    /// Whether the row exists.
    Exists(Identifier),
    /// The existing messages with an edge of the label into the record.
    MessagesLinkedTo(Identifier, Label),
    /// Remove every message sent in the channel, with all edges touching them.
    DeleteMessagesIn(Identifier),
}

pub enum RequestView {
    FindUserByName(Seq<char>),
    Create(IdView, RowView),
    Update(IdView, RowView),
    Delete(IdView),
    Relate(IdView, Label, IdView, bool),
    CountEdges(IdView, Label, IdView),
    Follow(IdView, Label),
    Exists(IdView),
    MessagesLinkedTo(IdView, Label),
    DeleteMessagesIn(IdView),
}

impl View for Request {
    type V = RequestView;

    open spec fn view(&self) -> RequestView {
        match self {
            Request::FindUserByName(n) => RequestView::FindUserByName(n@),
            Request::Create(id, r) => RequestView::Create(id@, r@),
            Request::Update(id, r) => RequestView::Update(id@, r@),
            Request::Delete(id) => RequestView::Delete(id@),
            Request::Relate(f, l, t, stamp) => RequestView::Relate(f@, *l, t@, *stamp),
            Request::CountEdges(f, l, t) => RequestView::CountEdges(f@, *l, t@),
            Request::Follow(f, l) => RequestView::Follow(f@, *l),
            Request::Exists(id) => RequestView::Exists(id@),
            Request::MessagesLinkedTo(t, l) => RequestView::MessagesLinkedTo(t@, *l),
            Request::DeleteMessagesIn(c) => RequestView::DeleteMessagesIn(c@),
        }
    }
}

/// The store's reply to one request.
#[derive(Debug)]
pub enum Response {
    /// The answer to `FindUserByName`, `Follow` or `Exists`.
    Found(Option<Identifier>),
    /// The answer to `MessagesLinkedTo`, in any order.
    Listed(Vec<Identifier>),
    /// The answer to `CountEdges`.
    Count(u64),
    /// A write was applied.
    Written,
    /// A write found no row to apply to.
    Missing,
    /// A write was refused by a uniqueness rule.
    Conflict,
    /// The request did not get through (connection, authentication, transport).
    Failed,
}

pub enum ResponseView {
    Found(Option<IdView>),
    Listed(Set<IdView>),
    Count(nat),
    Written,
    Missing,
    Conflict,
    Failed,
}

pub open spec fn id_opt(o: Option<Identifier>) -> Option<IdView> {
    match o {
        Some(i) => Some(i@),
        None => None,
    }
}

impl View for Response {
    type V = ResponseView;

    open spec fn view(&self) -> ResponseView {
        match self {
            Response::Found(o) => ResponseView::Found(id_opt(*o)),
            Response::Listed(v) => ResponseView::Listed(v@.map_values(|i: Identifier| i@).to_set()),
            Response::Count(n) => ResponseView::Count(*n as nat),
            Response::Written => ResponseView::Written,
            Response::Missing => ResponseView::Missing,
            Response::Conflict => ResponseView::Conflict,
            Response::Failed => ResponseView::Failed,
        }
    }
}

pub open spec fn live(s: StoreView, id: IdView) -> bool {
    s.rows.contains_key(id)
}

pub open spec fn edge_count(s: StoreView, e: EdgeView) -> nat {
    if s.edges.contains_key(e) {
        s.edges[e]
    } else {
        0
    }
}

/// Whether `id` is a user row with this username.
pub open spec fn user_named(s: StoreView, id: IdView, name: Seq<char>) -> bool {
    &&& live(s, id)
    &&& s.rows[id] matches RowView::User { username, .. }
    &&& username == name
}

/// The user row with this username, if there is one.
pub open spec fn find_user(s: StoreView, name: Seq<char>) -> Option<IdView> {
    if exists|id: IdView| user_named(s, id, name) {
        Some(choose|id: IdView| user_named(s, id, name))
    } else {
        None
    }
}

/// Whether writing `row` at `id` would give a second user the username of
/// another user row.
pub open spec fn username_taken(s: StoreView, id: IdView, row: RowView) -> bool {
    row matches RowView::User { username, .. } && exists|o: IdView| o != id && user_named(s, o, username)
}

/// Whether an edge of `label` leads from `from` to the existing record `to`.
pub open spec fn leads_to(s: StoreView, from: IdView, label: Label, to: IdView) -> bool {
    edge_count(s, edge(from, label, to)) > 0 && live(s, to)
}

/// A single-hop traversal: an existing record that an edge of `label`
/// leads to from `from`, if any.
pub open spec fn follow(s: StoreView, from: IdView, label: Label) -> Option<IdView> {
    if exists|t: IdView| leads_to(s, from, label, t) {
        Some(choose|t: IdView| leads_to(s, from, label, t))
    } else {
        None
    }
}

/// Whether `m` is an existing message with an edge into channel `c`.
pub open spec fn sent_in(s: StoreView, m: IdView, c: IdView) -> bool {
    &&& m.0 == Table::Messages
    &&& live(s, m)
    &&& edge_count(s, edge(m, Label::SentInChannel, c)) > 0
}

/// The store after removing every message sent in `c`, with every edge
/// that touches one of them.
pub open spec fn purge_channel(s: StoreView, c: IdView) -> StoreView {
    StoreView {
        rows: s.rows.remove_keys(Set::new(|m: IdView| sent_in(s, m, c))),
        edges: Map::new(
            |e: EdgeView| s.edges.contains_key(e) && !sent_in(s, e.from, c) && !sent_in(s, e.to, c),
            |e: EdgeView| s.edges[e],
        ),
        timed: s.timed.filter(|e: EdgeView| !sent_in(s, e.from, c) && !sent_in(s, e.to, c)),
    }
}

/// The store after removing the row `id` and every edge that touches it.
pub open spec fn remove_row(s: StoreView, id: IdView) -> StoreView {
    StoreView {
        rows: s.rows.remove(id),
        edges: Map::new(
            |e: EdgeView| s.edges.contains_key(e) && e.from != id && e.to != id,
            |e: EdgeView| s.edges[e],
        ),
        timed: s.timed.filter(|e: EdgeView| e.from != id && e.to != id),
    }
}

/// The existing messages with an edge of `label` into `to`.
pub open spec fn linked_messages(s: StoreView, to: IdView, label: Label) -> Set<IdView> {
    Set::new(|x: IdView| x.0 == Table::Messages && live(s, x) && edge_count(s, edge(x, label, to)) > 0)
}

/// What the store does with a request: its next state and its reply.
pub open spec fn execute(s: StoreView, q: RequestView) -> (StoreView, ResponseView) {
    match q {
        RequestView::FindUserByName(name) => (s, ResponseView::Found(find_user(s, name))),
        RequestView::Create(id, row) => {
            if live(s, id) || username_taken(s, id, row) {
                (s, ResponseView::Conflict)
            } else {
                (StoreView { rows: s.rows.insert(id, row), ..s }, ResponseView::Written)
            }
        },
        RequestView::Update(id, row) => {
            if !live(s, id) {
                (s, ResponseView::Missing)
            } else if username_taken(s, id, row) {
                (s, ResponseView::Conflict)
            } else {
                (StoreView { rows: s.rows.insert(id, row), ..s }, ResponseView::Written)
            }
        },
        RequestView::Delete(id) => {
            if live(s, id) {
                (remove_row(s, id), ResponseView::Written)
            } else {
                (s, ResponseView::Missing)
            }
        },
        RequestView::Relate(from, label, to, stamp) => {
            if live(s, from) && live(s, to) {
                let e = edge(from, label, to);
                (
                    StoreView {
                        edges: s.edges.insert(e, edge_count(s, e) + 1),
                        timed: if stamp { s.timed.insert(e) } else { s.timed },
                        ..s
                    },
                    ResponseView::Written,
                )
            } else {
                (s, ResponseView::Missing)
            }
        },
        RequestView::CountEdges(from, label, to) => (
            s,
            ResponseView::Count(edge_count(s, edge(from, label, to))),
        ),
        RequestView::Follow(from, label) => (s, ResponseView::Found(follow(s, from, label))),
        RequestView::Exists(id) => (s, ResponseView::Found(if live(s, id) { Some(id) } else { None })),
        RequestView::MessagesLinkedTo(to, label) => (s, ResponseView::Listed(linked_messages(s, to, label))),
        RequestView::DeleteMessagesIn(c) => (purge_channel(s, c), ResponseView::Written),
    }
}

/// Usernames are unique among user rows.
pub open spec fn usernames_unique(s: StoreView) -> bool {
    forall|a: IdView, b: IdView, n: Seq<char>|
        #[trigger] user_named(s, a, n) && #[trigger] user_named(s, b, n) ==> a == b
}

/// An identifier that has never been used: no row, and no edge at either end.
pub open spec fn fresh(s: StoreView, id: IdView) -> bool {
    &&& !live(s, id)
    &&& forall|e: EdgeView| (e.from == id || e.to == id) ==> #[trigger] edge_count(s, e) == 0
}

/// Every request keeps usernames unique.
pub proof fn lemma_execute_keeps_usernames_unique(s: StoreView, q: RequestView)
    requires
        usernames_unique(s),
    ensures
        usernames_unique(execute(s, q).0),
{
    let s2 = execute(s, q).0;
    assert forall|a: IdView, b: IdView, n: Seq<char>|
        #[trigger] user_named(s2, a, n) && #[trigger] user_named(s2, b, n) implies a == b by {
        match q {
            RequestView::Create(id, row) => {
                if !(live(s, id) || username_taken(s, id, row)) {
                    if a == id && b != id {
                        assert(user_named(s, b, n));
                    } else if b == id && a != id {
                        assert(user_named(s, a, n));
                    } else if a != id && b != id {
                        assert(user_named(s, a, n) && user_named(s, b, n));
                    }
                }
            },
            RequestView::Update(id, row) => {
                if live(s, id) && !username_taken(s, id, row) {
                    if a == id && b != id {
                        assert(user_named(s, b, n));
                    } else if b == id && a != id {
                        assert(user_named(s, a, n));
                    } else if a != id && b != id {
                        assert(user_named(s, a, n) && user_named(s, b, n));
                    }
                }
            },
            RequestView::Delete(id) => {
                assert(user_named(s, a, n) && user_named(s, b, n));
            },
            RequestView::DeleteMessagesIn(c) => {
                assert(user_named(s, a, n) && user_named(s, b, n));
            },
            _ => {},
        }
    }
}

/// The channel a message was sent in, as a traversal finds it.
pub open spec fn channel_of(s: StoreView, m: IdView) -> Option<IdView> {
    follow(s, m, Label::SentInChannel)
}

/// The user who sent a message, as a traversal finds it.
pub open spec fn sender_of(s: StoreView, m: IdView) -> Option<IdView> {
    follow(s, m, Label::SentBy)
}

/// The message a message replies to, as a traversal finds it.
pub open spec fn parent_of(s: StoreView, m: IdView) -> Option<IdView> {
    follow(s, m, Label::ReplyTo)
}

/// The existing messages that reply to `m`.
pub open spec fn replies_of(s: StoreView, m: IdView) -> Set<IdView> {
    linked_messages(s, m, Label::ReplyTo)
}

/// The existing messages with an edge into channel `c`.
pub open spec fn messages_in(s: StoreView, c: IdView) -> Set<IdView> {
    linked_messages(s, c, Label::SentInChannel)
}

} // verus!
