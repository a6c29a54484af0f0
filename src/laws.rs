//! What the operations do to the store: each machine run against the store
//! model, request by request, and the guarantees that follow.

use crate::ident::{IdView, Table};
use crate::ops::{
    failure, Stage, connect_first, connect_init, connect_next, delete_channel_first, delete_channel_init,
    delete_channel_next, reply_first, reply_init, reply_next, save_first, save_init, save_next,
    send_first, send_init, send_next, ConnectView, DeleteChannelView, ErrorKind, Failure,
    ReplyView, SaveView, SendView, StepView,
};
use crate::store::{
    channel_of, edge, edge_count, execute, find_user, follow, fresh, leads_to,
    lemma_execute_keeps_usernames_unique, live, remove_row, messages_in, parent_of, purge_channel, replies_of,
    sender_of, sent_in, user_named, usernames_unique, Label, RequestView, ResponseView, RowView,
    StoreView,
};
use vstd::prelude::*;

verus! {

/// Runs a machine against the store model: the store executes each request
/// the machine issues and the machine takes the reply, for at most `fuel`
/// requests. The result is the final store and the outcome (`None` if the
/// machine was still running).
pub open spec fn drive<M>(
    next: spec_fn(M, ResponseView) -> (M, StepView),
    m: M,
    step: StepView,
    s: StoreView,
    fuel: nat,
) -> (StoreView, Option<Result<IdView, Failure>>)
    decreases fuel,
{
    match step {
        StepView::Finish(o) => (s, Some(o)),
        StepView::Issue(q) => if fuel == 0 {
            (s, None)
        } else {
            let (s2, a) = execute(s, q);
            let (m2, st) = next(m, a);
            drive(next, m2, st, s2, (fuel - 1) as nat)
        },
    }
}

pub open spec fn run_connect(s: StoreView, from: IdView, label: Label, to: IdView, stamp: bool) -> (
    StoreView,
    Option<Result<IdView, Failure>>,
) {
    let c = connect_init(from, label, to, stamp);
    drive(|c: ConnectView, a: ResponseView| connect_next(c, a), c, StepView::Issue(connect_first(c)), s, 2)
}

/// Connecting is idempotent: a second `connect` with the same arguments
/// leaves the store exactly as the first one left it, so a single-hop
/// traversal over the label finds no more edges than after the first.
pub proof fn lemma_connect_idempotent(s: StoreView, from: IdView, label: Label, to: IdView, stamp: bool)
    ensures
        run_connect(run_connect(s, from, label, to, stamp).0, from, label, to, stamp).0 == run_connect(
            s,
            from,
            label,
            to,
            stamp,
        ).0,
{
    reveal_with_fuel(drive, 3);
    let e = edge(from, label, to);
    let s1 = run_connect(s, from, label, to, stamp).0;
    if edge_count(s, e) == 0 && live(s, from) && live(s, to) {
        assert(s1.edges.contains_key(e));
        assert(edge_count(s1, e) == 1);
    }
}

pub open spec fn run_save(s: StoreView, user: IdView, username: Seq<char>, nickname: Option<Seq<char>>) -> (
    StoreView,
    Option<Result<IdView, Failure>>,
) {
    let u = save_init(user, username, nickname);
    drive(|u: SaveView, a: ResponseView| save_next(u, a), u, StepView::Issue(save_first(u)), s, 4)
}

/// With unique usernames, the lookup by username finds the one row that
/// has it.
proof fn lemma_find_user_unique(s: StoreView, k: IdView, name: Seq<char>)
    requires
        usernames_unique(s),
        user_named(s, k, name),
    ensures
        find_user(s, name) == Some(k),
{
    let c = choose|id: IdView| user_named(s, id, name);
    assert(user_named(s, c, name));
}

/// Saving a user whose identifier is unused, on a store with unique
/// usernames: the outcome names the row that now holds the username
/// (the existing one, if there was one), and that row holds the new
/// nickname.
proof fn lemma_save_once(s: StoreView, user: IdView, username: Seq<char>, nickname: Option<Seq<char>>)
    requires
        usernames_unique(s),
        !live(s, user),
    ensures
        ({
            let (s1, o) = run_save(s, user, username, nickname);
            let k = match find_user(s, username) {
                Some(e) => e,
                None => user,
            };
            &&& o == Some(Ok::<IdView, Failure>(k))
            &&& usernames_unique(s1)
            &&& user_named(s1, k, username)
            &&& s1.rows[k] == (RowView::User { username, nickname })
            &&& forall|id: IdView| id != k ==> (live(s1, id) == live(s, id))
        }),
{
    reveal_with_fuel(drive, 5);
    let row = RowView::User { username, nickname };
    match find_user(s, username) {
        Some(e) => {
            let c = choose|id: IdView| user_named(s, id, username);
            assert(user_named(s, c, username));
            assert(!(exists|o: IdView| o != e && user_named(s, o, username)));
            let s1 = execute(s, RequestView::Update(e, row)).0;
            lemma_execute_keeps_usernames_unique(s, RequestView::Update(e, row));
            assert(user_named(s1, e, username));
        },
        None => {
            assert(!(exists|o: IdView| o != user && user_named(s, o, username)));
            let s1 = execute(s, RequestView::Create(user, row)).0;
            lemma_execute_keeps_usernames_unique(s, RequestView::Create(user, row));
            assert(user_named(s1, user, username));
        },
    }
}

/// Upserting the same username twice keeps a single row for it: both calls
/// report the same identifier (the row's original one), no other row holds
/// the username, and the row's nickname is the one of the second call.
pub proof fn lemma_upsert_twice(
    s: StoreView,
    first: IdView,
    second: IdView,
    username: Seq<char>,
    first_nickname: Option<Seq<char>>,
    second_nickname: Option<Seq<char>>,
)
    requires
        usernames_unique(s),
        !live(s, first),
        !live(s, second),
        first != second,
    ensures
        ({
            let (s1, o1) = run_save(s, first, username, first_nickname);
            let (s2, o2) = run_save(s1, second, username, second_nickname);
            let k = match find_user(s, username) {
                Some(e) => e,
                None => first,
            };
            &&& o1 == Some(Ok::<IdView, Failure>(k))
            &&& o2 == Some(Ok::<IdView, Failure>(k))
            &&& s2.rows[k] == (RowView::User { username, nickname: second_nickname })
            &&& forall|id: IdView| #[trigger] user_named(s2, id, username) <==> id == k
        }),
{
    let (s1, o1) = run_save(s, first, username, first_nickname);
    let k = match find_user(s, username) {
        Some(e) => e,
        None => first,
    };
    lemma_save_once(s, first, username, first_nickname);
    lemma_find_user_unique(s1, k, username);
    if k != second {
        assert(!live(s1, second));
    } else {
        assert(k == first || find_user(s, username) == Some(second));
        if find_user(s, username) == Some(second) {
            let c = choose|id: IdView| user_named(s, id, username);
            assert(user_named(s, c, username));
        }
    }
    lemma_save_once(s1, second, username, second_nickname);
    let s2 = run_save(s1, second, username, second_nickname).0;
    assert(user_named(s2, k, username));
}

pub open spec fn run_send(s: StoreView, message: IdView, sender: IdView, channel: IdView, content: Seq<char>) -> (
    StoreView,
    Option<Result<IdView, Failure>>,
) {
    let m = send_init(message, sender, channel, content);
    drive(|m: SendView, a: ResponseView| send_next(m, a), m, StepView::Issue(send_first(m)), s, 5)
}

/// The store after a message is sent into a fresh identifier: the row and
/// one edge of each kind.
pub open spec fn sent_store(s: StoreView, message: IdView, sender: IdView, channel: IdView, content: Seq<char>) -> StoreView {
    StoreView {
        rows: s.rows.insert(message, RowView::Message { content }),
        edges: s.edges.insert(edge(message, Label::SentBy, sender), 1).insert(
            edge(message, Label::SentInChannel, channel),
            1,
        ),
        timed: s.timed.insert(edge(message, Label::SentBy, sender)),
    }
}

/// Sending into a fresh identifier, from an existing user into an existing
/// channel, succeeds and adds exactly the row, its two edges, and the sent
/// time on the sender edge; nothing else in the store changes.
pub proof fn lemma_send_steps(s: StoreView, message: IdView, sender: IdView, channel: IdView, content: Seq<char>)
    requires
        fresh(s, message),
        live(s, sender),
        live(s, channel),
    ensures
        run_send(s, message, sender, channel, content) == (
            sent_store(s, message, sender, channel, content),
            Some(Ok::<IdView, Failure>(message)),
        ),
{
    reveal_with_fuel(drive, 6);
    let e1 = edge(message, Label::SentBy, sender);
    let e2 = edge(message, Label::SentInChannel, channel);
    assert(edge_count(s, e1) == 0);
    assert(edge_count(s, e2) == 0);
    let s1 = StoreView { rows: s.rows.insert(message, RowView::Message { content }), ..s };
    assert(edge_count(s1, e1) == 0);
    let s2 = StoreView { edges: s1.edges.insert(e1, 1), timed: s1.timed.insert(e1), ..s1 };
    assert(e1 != e2);
    assert(edge_count(s2, e2) == 0);
}

/// A traversal from a message over a label finds `t` when the only edge of
/// that label leaving the message leads to the existing record `t`.
proof fn lemma_follow_single(s: StoreView, from: IdView, label: Label, t: IdView)
    requires
        live(s, t),
        edge_count(s, edge(from, label, t)) > 0,
        forall|x: IdView| x != t ==> #[trigger] edge_count(s, edge(from, label, x)) == 0,
    ensures
        follow(s, from, label) == Some(t),
{
    assert(leads_to(s, from, label, t));
    let c = choose|x: IdView| leads_to(s, from, label, x);
    assert(leads_to(s, from, label, c));
}

/// A message sent with `send` has, as read back by traversal, exactly the
/// sender and the channel it was sent with, through exactly one edge each.
pub proof fn lemma_send_links_sender_and_channel(
    s: StoreView,
    message: IdView,
    sender: IdView,
    channel: IdView,
    content: Seq<char>,
)
    requires
        fresh(s, message),
        live(s, sender),
        live(s, channel),
    ensures
        ({
            let (s1, o) = run_send(s, message, sender, channel, content);
            &&& o == Some(Ok::<IdView, Failure>(message))
            &&& sender_of(s1, message) == Some(sender)
            &&& channel_of(s1, message) == Some(channel)
            &&& s1.rows[message] == (RowView::Message { content })
            &&& s1.timed.contains(edge(message, Label::SentBy, sender))
            &&& edge_count(s1, edge(message, Label::SentBy, sender)) == 1
            &&& edge_count(s1, edge(message, Label::SentInChannel, channel)) == 1
            &&& forall|x: IdView| x != sender ==> #[trigger] edge_count(s1, edge(message, Label::SentBy, x)) == 0
            &&& forall|x: IdView| x != channel ==> #[trigger] edge_count(s1, edge(message, Label::SentInChannel, x)) == 0
        }),
{
    lemma_send_steps(s, message, sender, channel, content);
    let s1 = sent_store(s, message, sender, channel, content);
    assert forall|x: IdView| x != sender implies #[trigger] edge_count(s1, edge(message, Label::SentBy, x)) == 0 by {
        assert(edge_count(s, edge(message, Label::SentBy, x)) == 0);
    }
    assert forall|x: IdView| x != channel implies #[trigger] edge_count(s1, edge(message, Label::SentInChannel, x))
        == 0 by {
        assert(edge_count(s, edge(message, Label::SentInChannel, x)) == 0);
    }
    assert(edge_count(s1, edge(message, Label::SentBy, sender)) > 0);
    lemma_follow_single(s1, message, Label::SentBy, sender);
    lemma_follow_single(s1, message, Label::SentInChannel, channel);
}

pub open spec fn run_reply(
    s: StoreView,
    parent: IdView,
    child: IdView,
    sender: IdView,
    content: Seq<char>,
) -> (StoreView, Option<Result<IdView, Failure>>) {
    let r = reply_init(parent, child, sender, content);
    drive(|r: ReplyView, a: ResponseView| reply_next(r, a), r, StepView::Issue(reply_first(r)), s, 8)
}

/// The store after a reply is sent into a fresh identifier: the sent
/// message and its edge to its parent.
pub open spec fn replied_store(
    s: StoreView,
    parent: IdView,
    child: IdView,
    sender: IdView,
    channel: IdView,
    content: Seq<char>,
) -> StoreView {
    let t = sent_store(s, child, sender, channel, content);
    StoreView { edges: t.edges.insert(edge(child, Label::ReplyTo, parent), 1), ..t }
}

/// Replying from an existing user, with a fresh identifier, to an existing
/// message that sits in a channel, succeeds and adds exactly the reply's
/// row, its sender and channel edges, the sent time, and its edge to the
/// parent; nothing else in the store changes.
pub proof fn lemma_reply_steps(
    s: StoreView,
    parent: IdView,
    child: IdView,
    sender: IdView,
    channel: IdView,
    content: Seq<char>,
)
    requires
        fresh(s, child),
        live(s, sender),
        live(s, parent),
        channel_of(s, parent) == Some(channel),
        channel.0 == Table::Channels,
    ensures
        run_reply(s, parent, child, sender, content) == (
            replied_store(s, parent, child, sender, channel, content),
            Some(Ok::<IdView, Failure>(child)),
        ),
{
    reveal_with_fuel(drive, 9);
    let c = choose|t: IdView| leads_to(s, parent, Label::SentInChannel, t);
    assert(leads_to(s, parent, Label::SentInChannel, c));
    assert(live(s, channel));
    let e1 = edge(child, Label::SentBy, sender);
    let e2 = edge(child, Label::SentInChannel, channel);
    let e3 = edge(child, Label::ReplyTo, parent);
    assert(edge_count(s, e1) == 0);
    assert(edge_count(s, e2) == 0);
    assert(edge_count(s, e3) == 0);
    let s1 = StoreView { rows: s.rows.insert(child, RowView::Message { content }), ..s };
    assert(edge_count(s1, e1) == 0);
    let s2 = StoreView { edges: s1.edges.insert(e1, 1), timed: s1.timed.insert(e1), ..s1 };
    assert(e1 != e2 && e1 != e3 && e2 != e3);
    assert(edge_count(s2, e2) == 0);
    let s3 = StoreView { edges: s2.edges.insert(e2, 1), ..s2 };
    assert(s3 == sent_store(s, child, sender, channel, content));
    assert(edge_count(s3, e3) == 0);
    assert(live(s3, child) && live(s3, parent));
}

/// A reply made with `reply` reads back as a reply to its parent: the
/// parent is what `parent_of` finds, the reply is among the parent's
/// replies, and it sits in the parent's channel with its sender. The reply
/// has a single parent edge and nothing replies to it yet, so the new edge
/// closes no cycle: reply edges stay a forest.
pub proof fn lemma_reply_links_parent(
    s: StoreView,
    parent: IdView,
    child: IdView,
    sender: IdView,
    channel: IdView,
    content: Seq<char>,
)
    requires
        fresh(s, child),
        child.0 == Table::Messages,
        live(s, sender),
        live(s, parent),
        channel_of(s, parent) == Some(channel),
        channel.0 == Table::Channels,
    ensures
        ({
            let (s1, o) = run_reply(s, parent, child, sender, content);
            &&& o == Some(Ok::<IdView, Failure>(child))
            &&& parent_of(s1, child) == Some(parent)
            &&& replies_of(s1, parent).contains(child)
            &&& channel_of(s1, child) == Some(channel)
            &&& sender_of(s1, child) == Some(sender)
            &&& edge_count(s1, edge(child, Label::ReplyTo, parent)) == 1
            &&& forall|x: IdView| x != parent ==> #[trigger] edge_count(s1, edge(child, Label::ReplyTo, x)) == 0
            &&& forall|x: IdView| #[trigger] edge_count(s1, edge(x, Label::ReplyTo, child)) == 0
        }),
{
    lemma_reply_steps(s, parent, child, sender, channel, content);
    let s1 = replied_store(s, parent, child, sender, channel, content);
    let c = choose|t: IdView| leads_to(s, parent, Label::SentInChannel, t);
    assert(leads_to(s, parent, Label::SentInChannel, c));
    assert forall|x: IdView| x != sender implies #[trigger] edge_count(s1, edge(child, Label::SentBy, x)) == 0 by {
        assert(edge_count(s, edge(child, Label::SentBy, x)) == 0);
    }
    assert forall|x: IdView| x != channel implies #[trigger] edge_count(s1, edge(child, Label::SentInChannel, x))
        == 0 by {
        assert(edge_count(s, edge(child, Label::SentInChannel, x)) == 0);
    }
    assert forall|x: IdView| x != parent implies #[trigger] edge_count(s1, edge(child, Label::ReplyTo, x)) == 0 by {
        assert(edge_count(s, edge(child, Label::ReplyTo, x)) == 0);
    }
    assert(edge_count(s1, edge(child, Label::SentBy, sender)) > 0);
    assert(edge_count(s1, edge(child, Label::SentInChannel, channel)) > 0);
    assert(edge_count(s1, edge(child, Label::ReplyTo, parent)) > 0);
    lemma_follow_single(s1, child, Label::SentBy, sender);
    lemma_follow_single(s1, child, Label::SentInChannel, channel);
    lemma_follow_single(s1, child, Label::ReplyTo, parent);
    assert(live(s1, child));
    assert forall|x: IdView| #[trigger] edge_count(s1, edge(x, Label::ReplyTo, child)) == 0 by {
        assert(edge_count(s, edge(x, Label::ReplyTo, child)) == 0);
    }
}

pub open spec fn run_delete_channel(s: StoreView, channel: IdView) -> (StoreView, Option<Result<IdView, Failure>>) {
    let d = delete_channel_init(channel);
    drive(
        |d: DeleteChannelView, a: ResponseView| delete_channel_next(d, a),
        d,
        StepView::Issue(delete_channel_first(d)),
        s,
        3,
    )
}

/// Deleting a channel leaves no message pointing at it. If the channel
/// does not exist, nothing is touched and `NotFound` comes back from the
/// existence check. Otherwise the deletion succeeds: the channel is gone,
/// every message that was sent in it is gone and has no channel, no edge of
/// any label leads into the channel any more, and no message is left in it.
/// Either way no traversal finds the channel afterwards.
pub proof fn lemma_delete_channel_detaches(s: StoreView, channel: IdView)
    requires
        channel.0 == Table::Channels,
    ensures
        ({
            let (s1, o) = run_delete_channel(s, channel);
            &&& !live(s1, channel)
            &&& forall|m: IdView| #[trigger] channel_of(s1, m) != Some(channel)
            &&& !live(s, channel) ==> s1 == s && o == Some(
                Err::<IdView, Failure>(failure(ErrorKind::NotFound, Stage::CheckRow, false)),
            )
            &&& live(s, channel) ==> {
                &&& o == Some(Ok::<IdView, Failure>(channel))
                &&& messages_in(s1, channel) == Set::<IdView>::empty()
                &&& forall|m: IdView| sent_in(s, m, channel) ==> !live(s1, m) && #[trigger] channel_of(s1, m) == None::<IdView>
                &&& forall|x: IdView, l: Label| #[trigger] edge_count(s1, edge(x, l, channel)) == 0
            }
        }),
{
    reveal_with_fuel(drive, 4);
    let s1 = run_delete_channel(s, channel).0;
    if live(s, channel) {
        let p = purge_channel(s, channel);
        assert(live(p, channel));
        assert(s1 == remove_row(p, channel));
        assert forall|m: IdView| sent_in(s, m, channel) implies !live(s1, m) && #[trigger] channel_of(s1, m) == None::<IdView> by {
            assert(!live(p, m));
            assert forall|t: IdView| !leads_to(s1, m, Label::SentInChannel, t) by {
                assert(!p.edges.contains_key(edge(m, Label::SentInChannel, t)));
            }
        }
        assert(messages_in(s1, channel) =~= Set::<IdView>::empty()) by {
            assert forall|m: IdView| !messages_in(s1, channel).contains(m) by {
                assert(edge_count(s1, edge(m, Label::SentInChannel, channel)) == 0);
            }
        }
    }
    assert forall|m: IdView| #[trigger] channel_of(s1, m) != Some(channel) by {
        if channel_of(s1, m) == Some(channel) {
            let t = choose|t: IdView| leads_to(s1, m, Label::SentInChannel, t);
            assert(leads_to(s1, m, Label::SentInChannel, t));
        }
    }
}

/// Whether `rank` falls along every reply edge, so that reply edges can
/// close no cycle.
pub open spec fn reply_ranked(s: StoreView, rank: spec_fn(IdView) -> nat) -> bool {
    forall|x: IdView, y: IdView| #[trigger] edge_count(s, edge(x, Label::ReplyTo, y)) > 0 ==> rank(x) > rank(y)
}

/// Reply edges form a forest: a message has at most one reply edge, to at
/// most one parent, and the edges close no cycle.
pub open spec fn reply_forest(s: StoreView) -> bool {
    &&& forall|x: IdView, y: IdView| #[trigger] edge_count(s, edge(x, Label::ReplyTo, y)) <= 1
    &&& forall|x: IdView, y1: IdView, y2: IdView|
        #[trigger] edge_count(s, edge(x, Label::ReplyTo, y1)) > 0 && #[trigger] edge_count(s, edge(x, Label::ReplyTo, y2)) > 0
            ==> y1 == y2
    &&& exists|rank: spec_fn(IdView) -> nat| reply_ranked(s, rank)
}

/// A reply keeps reply edges a forest.
pub proof fn lemma_reply_keeps_forest(
    s: StoreView,
    parent: IdView,
    child: IdView,
    sender: IdView,
    channel: IdView,
    content: Seq<char>,
)
    requires
        reply_forest(s),
        fresh(s, child),
        live(s, sender),
        live(s, parent),
        channel_of(s, parent) == Some(channel),
        channel.0 == Table::Channels,
    ensures
        reply_forest(run_reply(s, parent, child, sender, content).0),
{
    lemma_reply_steps(s, parent, child, sender, channel, content);
    let s1 = replied_store(s, parent, child, sender, channel, content);
    assert(child != parent);
    let rank = choose|rank: spec_fn(IdView) -> nat| reply_ranked(s, rank);
    let rank2 = |x: IdView| if x == child { rank(parent) + 1 } else { rank(x) };
    assert forall|x: IdView, y: IdView| #[trigger] edge_count(s1, edge(x, Label::ReplyTo, y)) <= 1 by {
        if x != child {
            assert(edge_count(s1, edge(x, Label::ReplyTo, y)) == edge_count(s, edge(x, Label::ReplyTo, y)));
        } else {
            assert(edge_count(s, edge(x, Label::ReplyTo, y)) == 0);
        }
    }
    assert forall|x: IdView, y1: IdView, y2: IdView|
        #[trigger] edge_count(s1, edge(x, Label::ReplyTo, y1)) > 0 && #[trigger] edge_count(s1, edge(x, Label::ReplyTo, y2)) > 0
            implies y1 == y2 by {
        if x == child {
            assert(edge_count(s, edge(x, Label::ReplyTo, y1)) == 0);
            assert(edge_count(s, edge(x, Label::ReplyTo, y2)) == 0);
        } else {
            assert(edge_count(s, edge(x, Label::ReplyTo, y1)) > 0);
            assert(edge_count(s, edge(x, Label::ReplyTo, y2)) > 0);
        }
    }
    assert(reply_ranked(s1, rank2)) by {
        assert forall|x: IdView, y: IdView| #[trigger] edge_count(s1, edge(x, Label::ReplyTo, y)) > 0 implies rank2(x) > rank2(y) by {
            if x == child {
                assert(edge_count(s, edge(x, Label::ReplyTo, y)) == 0);
            } else {
                assert(edge_count(s, edge(x, Label::ReplyTo, y)) > 0);
                assert(edge_count(s, edge(x, Label::ReplyTo, child)) == 0);
            }
        }
    }
}

} // verus!
