use chat_store::entity::{Channel, Message, User, UserId};
use chat_store::ident::{Identifier, Table};
use chat_store::ops::{
    Connect, DeleteChannel, ErrorKind, Failure, Reply, SaveUser, SendMessage, Stage, Step,
};
use chat_store::repo::{listed, optional_target, required_target, write_outcome};
use chat_store::store::{Label, Record, Request, Response};

type Key = (Table, String);

/// A store held in memory, with the semantics the library expects of the
/// real one: unique usernames, edges counted with multiplicity.
#[derive(Default)]
struct MemStore {
    rows: Vec<(Key, Record)>,
    edges: Vec<(Key, Label, Key)>,
    timed: Vec<(Key, Label, Key)>,
    down: bool,
}

fn key(id: &Identifier) -> Key {
    (id.table, id.token.clone())
}

fn ident(k: &Key) -> Identifier {
    Identifier::from_token(k.0, k.1.clone())
}

impl MemStore {
    fn live(&self, k: &Key) -> bool {
        self.rows.iter().any(|(r, _)| r == k)
    }

    fn user_named(&self, name: &str) -> Vec<Key> {
        self.rows
            .iter()
            .filter(|(_, r)| matches!(r, Record::User { username, .. } if username == name))
            .map(|(k, _)| k.clone())
            .collect()
    }

    fn taken(&self, k: &Key, rec: &Record) -> bool {
        match rec {
            Record::User { username, .. } => self.user_named(username).iter().any(|o| o != k),
            _ => false,
        }
    }

    fn count(&self, f: &Key, l: Label, t: &Key) -> usize {
        self.edges.iter().filter(|(a, b, c)| a == f && *b == l && c == t).count()
    }

    fn follow(&self, f: &Key, l: Label) -> Option<Key> {
        self.edges
            .iter()
            .find(|(a, b, c)| a == f && *b == l && self.live(c))
            .map(|(_, _, c)| c.clone())
    }

    fn exec(&mut self, q: Request) -> Response {
        if self.down {
            return Response::Failed;
        }
        match q {
            Request::FindUserByName(n) => Response::Found(self.user_named(&n).first().map(ident)),
            Request::Create(id, rec) => {
                let k = key(&id);
                if self.live(&k) || self.taken(&k, &rec) {
                    Response::Conflict
                } else {
                    self.rows.push((k, rec));
                    Response::Written
                }
            }
            Request::Update(id, rec) => {
                let k = key(&id);
                if !self.live(&k) {
                    Response::Missing
                } else if self.taken(&k, &rec) {
                    Response::Conflict
                } else {
                    if let Some(r) = self.rows.iter_mut().find(|r| r.0 == k) {
                        r.1 = rec;
                    }
                    Response::Written
                }
            }
            Request::Delete(id) => {
                let k = key(&id);
                if self.live(&k) {
                    self.rows.retain(|(r, _)| *r != k);
                    self.edges.retain(|(a, _, b)| *a != k && *b != k);
                    self.timed.retain(|(a, _, b)| *a != k && *b != k);
                    Response::Written
                } else {
                    Response::Missing
                }
            }
            Request::Relate(f, l, t, stamp) => {
                let (f, t) = (key(&f), key(&t));
                if self.live(&f) && self.live(&t) {
                    if stamp {
                        self.timed.push((f.clone(), l, t.clone()));
                    }
                    self.edges.push((f, l, t));
                    Response::Written
                } else {
                    Response::Missing
                }
            }
            Request::CountEdges(f, l, t) => Response::Count(self.count(&key(&f), l, &key(&t)) as u64),
            Request::Follow(f, l) => Response::Found(self.follow(&key(&f), l).as_ref().map(ident)),
            Request::Exists(id) => {
                let k = key(&id);
                Response::Found(if self.live(&k) { Some(id) } else { None })
            }
            Request::MessagesLinkedTo(t, l) => {
                let t = key(&t);
                let found: Vec<Identifier> = self
                    .rows
                    .iter()
                    .map(|(k, _)| k.clone())
                    .filter(|m| m.0 == Table::Messages && self.count(m, l, &t) > 0)
                    .map(|m| ident(&m))
                    .collect();
                Response::Listed(found)
            }
            Request::DeleteMessagesIn(c) => {
                let c = key(&c);
                let doomed: Vec<Key> = self
                    .rows
                    .iter()
                    .map(|(k, _)| k.clone())
                    .filter(|m| m.0 == Table::Messages && self.count(m, Label::SentInChannel, &c) > 0)
                    .collect();
                self.rows.retain(|(k, _)| !doomed.contains(k));
                self.edges.retain(|(a, _, b)| !doomed.contains(a) && !doomed.contains(b));
                self.timed.retain(|(a, _, b)| !doomed.contains(a) && !doomed.contains(b));
                Response::Written
            }
        }
    }

    fn channel_of(&mut self, m: &Message) -> Option<Identifier> {
        let a = self.exec(m.get_channel());
        optional_target(a).unwrap()
    }

    fn channel_name(&mut self, m: &Message) -> Option<String> {
        let c = self.channel_of(m)?;
        self.rows.iter().find_map(|(k, r)| match r {
            Record::Channel { name } if *k == key(&c) => Some(name.clone()),
            _ => None,
        })
    }

    fn sender_name(&mut self, m: &Message) -> String {
        let a = self.exec(m.get_sender());
        let u = required_target(a).unwrap();
        self.rows
            .iter()
            .find_map(|(k, r)| match r {
                Record::User { username, .. } if *k == key(&u) => Some(username.clone()),
                _ => None,
            })
            .unwrap()
    }

    fn parent_of(&mut self, m: &Message) -> Option<Identifier> {
        let a = self.exec(m.replied_from());
        optional_target(a).unwrap()
    }

    fn replies_of(&mut self, m: &Message) -> Vec<Key> {
        let a = self.exec(m.get_replies());
        listed(a).unwrap().iter().map(key).collect()
    }

    fn messages_in(&mut self, c: &Channel) -> Vec<Key> {
        let a = self.exec(c.get_messages());
        listed(a).unwrap().iter().map(key).collect()
    }

    fn write(&mut self, q: Request) -> Result<(), ErrorKind> {
        let a = self.exec(q);
        write_outcome(a)
    }
}

trait Machine: Sized {
    fn first_request(&self) -> Request;
    fn advance(self, a: Response) -> (Self, Step);
}

impl Machine for Connect {
    fn first_request(&self) -> Request {
        self.first()
    }
    fn advance(self, a: Response) -> (Self, Step) {
        self.next(a)
    }
}

impl Machine for SendMessage {
    fn first_request(&self) -> Request {
        self.first()
    }
    fn advance(self, a: Response) -> (Self, Step) {
        self.next(a)
    }
}

impl Machine for Reply {
    fn first_request(&self) -> Request {
        self.first()
    }
    fn advance(self, a: Response) -> (Self, Step) {
        self.next(a)
    }
}

impl Machine for SaveUser {
    fn first_request(&self) -> Request {
        self.first()
    }
    fn advance(self, a: Response) -> (Self, Step) {
        self.next(a)
    }
}

impl Machine for DeleteChannel {
    fn first_request(&self) -> Request {
        self.first()
    }
    fn advance(self, a: Response) -> (Self, Step) {
        self.next(a)
    }
}

fn run<M: Machine>(store: &mut MemStore, m: M) -> Result<Identifier, Failure> {
    let mut q = m.first_request();
    let mut m = m;
    for _ in 0..16 {
        let a = store.exec(q);
        let (m2, step) = m.advance(a);
        m = m2;
        match step {
            Step::Issue(next) => q = next,
            Step::Finish(r) => return r,
        }
    }
    panic!("operation did not finish")
}

fn saved_user(store: &mut MemStore, name: &str) -> User {
    let u = User::new(name.to_string(), None);
    run(store, u.save()).unwrap();
    u
}

fn created_channel(store: &mut MemStore, name: &str) -> Channel {
    let c = Channel::new(name.to_string());
    store.write(c.create()).unwrap();
    c
}

fn fail(kind: ErrorKind, step: Stage, partial: bool) -> Result<Identifier, Failure> {
    Err(Failure { kind, step, partial })
}

#[test]
fn upsert_twice_keeps_one_row_and_its_id() {
    let mut store = MemStore::default();
    let first = User::new("alice".to_string(), Some("Al".to_string()));
    let second = User::new("alice".to_string(), Some("Ally".to_string()));
    let a = run(&mut store, first.save()).unwrap();
    let b = run(&mut store, second.save()).unwrap();
    assert_eq!(a, first.key());
    assert_eq!(b, a);
    let rows = store.user_named("alice");
    assert_eq!(rows, vec![key(&a)]);
    let nick = store.rows.iter().find_map(|(k, r)| match r {
        Record::User { nickname, .. } if *k == key(&a) => Some(nickname.clone()),
        _ => None,
    });
    assert_eq!(nick, Some(Some("Ally".to_string())));
}

#[test]
fn create_user_conflicts_on_taken_username() {
    let mut store = MemStore::default();
    saved_user(&mut store, "alice");
    let other = User::new("alice".to_string(), None);
    assert_eq!(store.write(other.create()), Err(ErrorKind::Conflict));
    let fresh = User::new("bob".to_string(), None);
    assert_eq!(store.write(fresh.create()), Ok(()));
}

#[test]
fn save_falls_back_to_update_after_losing_a_race() {
    let mut store = MemStore::default();
    let winner = User::new("carol".to_string(), None);
    let loser = User::new("carol".to_string(), Some("C".to_string()));
    let m = loser.save();
    let q = m.first();
    // The lookup runs before the winner's row lands.
    let a = store.exec(q);
    store.write(winner.create()).unwrap();
    let (m, step) = m.next(a);
    let Step::Issue(q) = step else { panic!("expected a create") };
    assert!(matches!(q, Request::Create(..)));
    let a = store.exec(q);
    assert!(matches!(a, Response::Conflict));
    let (m, step) = m.next(a);
    let Step::Issue(q) = step else { panic!("expected a second lookup") };
    let a = store.exec(q);
    let (m, step) = m.next(a);
    let Step::Issue(q) = step else { panic!("expected an update") };
    let a = store.exec(q);
    let (_, step) = m.next(a);
    let Step::Finish(r) = step else { panic!("expected the outcome") };
    assert_eq!(r, Ok(winner.key()));
    assert_eq!(store.user_named("carol").len(), 1);
}

#[test]
fn save_reports_conflict_when_retry_finds_nothing() {
    let m = User::new("dave".to_string(), None).save();
    let (m, _) = m.next(Response::Found(None));
    let (m, _) = m.next(Response::Conflict);
    let (_, step) = m.next(Response::Found(None));
    let Step::Finish(r) = step else { panic!("expected the outcome") };
    assert_eq!(r, fail(ErrorKind::Conflict, Stage::FindUser, false));
}

#[test]
fn save_update_of_vanished_row_is_not_found() {
    let existing = Identifier::from_token(Table::Users, "E".to_string());
    let m = User::new("erin".to_string(), None).save();
    let (m, _) = m.next(Response::Found(Some(existing)));
    let (_, step) = m.next(Response::Missing);
    let Step::Finish(r) = step else { panic!("expected the outcome") };
    assert_eq!(r, fail(ErrorKind::NotFound, Stage::UpdateRow, false));
}

#[test]
fn send_links_sender_and_channel() {
    let mut store = MemStore::default();
    let alice = saved_user(&mut store, "alice");
    let general = created_channel(&mut store, "general");
    let msg = Message::new("hi".to_string());
    let r = run(&mut store, msg.send(alice.id.clone(), general.clone()));
    assert_eq!(r, Ok(msg.key()));
    assert_eq!(store.channel_of(&msg), Some(general.key()));
    assert_eq!(store.sender_name(&msg), "alice");
    assert_eq!(store.edges.len(), 2);
    assert_eq!(store.timed, vec![(key(&msg.key()), Label::SentBy, key(&alice.key()))]);
}

#[test]
fn send_retried_after_partial_failure_adds_no_duplicates() {
    let mut store = MemStore::default();
    let alice = saved_user(&mut store, "alice");
    let general = created_channel(&mut store, "general");
    let msg = Message::new("hi".to_string());
    // First attempt: the row and the sender edge land, then the store drops.
    let m = msg.send(alice.id.clone(), general.clone());
    let mut q = m.first();
    let mut m = m;
    let mut writes = 0;
    let outcome = loop {
        if writes == 2 {
            store.down = true;
        }
        if matches!(q, Request::Create(..) | Request::Relate(..)) {
            writes += 1;
        }
        let a = store.exec(q);
        let (m2, step) = m.next(a);
        m = m2;
        match step {
            Step::Issue(next) => q = next,
            Step::Finish(r) => break r,
        }
    };
    assert_eq!(outcome, fail(ErrorKind::StoreUnavailable, Stage::LinkChannel, true));
    store.down = false;
    assert_eq!(store.channel_of(&msg), None);
    // Retrying the whole sequence completes it without a second sender edge.
    let r = run(&mut store, msg.send(alice.id.clone(), general.clone()));
    assert_eq!(r, Ok(msg.key()));
    assert_eq!(store.count(&key(&msg.key()), Label::SentBy, &key(&alice.key())), 1);
    assert_eq!(store.count(&key(&msg.key()), Label::SentInChannel, &key(&general.key())), 1);
}

#[test]
fn send_into_missing_channel_is_channel_not_found() {
    let mut store = MemStore::default();
    let alice = saved_user(&mut store, "alice");
    let ghost = Channel::new("nowhere".to_string());
    let msg = Message::new("hi".to_string());
    let r = run(&mut store, msg.send(alice.id.clone(), ghost));
    assert_eq!(r, fail(ErrorKind::ChannelNotFound, Stage::LinkChannel, true));
}

#[test]
fn send_from_missing_user_is_not_found() {
    let mut store = MemStore::default();
    let general = created_channel(&mut store, "general");
    let msg = Message::new("hi".to_string());
    let r = run(&mut store, msg.send(UserId::from_inner_id("nobody".to_string()), general));
    assert_eq!(r, fail(ErrorKind::NotFound, Stage::LinkSender, true));
}

#[test]
fn failed_store_is_unavailable_before_any_write() {
    let mut store = MemStore::default();
    store.down = true;
    let r = run(&mut store, User::new("x".to_string(), None).save());
    assert_eq!(r, fail(ErrorKind::StoreUnavailable, Stage::FindUser, false));
}

#[test]
fn connect_twice_adds_one_edge() {
    let mut store = MemStore::default();
    let alice = saved_user(&mut store, "alice");
    let general = created_channel(&mut store, "general");
    let msg = Message::new("hi".to_string());
    store.write(Request::Create(msg.key(), Record::Message { content: "hi".to_string() })).unwrap();
    for _ in 0..2 {
        let r = run(&mut store, Connect::new(msg.key(), Label::SentBy, alice.key(), false));
        assert_eq!(r, Ok(msg.key()));
    }
    assert_eq!(store.count(&key(&msg.key()), Label::SentBy, &key(&alice.key())), 1);
    assert_eq!(store.channel_of(&msg), None);
    let _ = general;
}

#[test]
fn connect_to_missing_record_is_not_found() {
    let mut store = MemStore::default();
    let a = Identifier::new(Table::Messages);
    let b = Identifier::new(Table::Users);
    let r = run(&mut store, Connect::new(a, Label::SentBy, b, false));
    assert_eq!(r, fail(ErrorKind::NotFound, Stage::Link, false));
}

#[test]
fn end_to_end_send_and_reply() {
    let mut store = MemStore::default();
    let alice = User::new("alice".to_string(), None);
    let id = run(&mut store, alice.save()).unwrap();
    assert_eq!(id, alice.key());
    let general = created_channel(&mut store, "general");
    let msg = Message::new("hi".to_string());
    run(&mut store, msg.send(alice.id.clone(), general.clone())).unwrap();
    assert_eq!(store.channel_name(&msg), Some("general".to_string()));
    assert_eq!(store.sender_name(&msg), "alice");

    let (reply, machine) = msg.reply(alice.id(), "hi again".to_string());
    assert_eq!(reply.get_content(), "hi again");
    let r = run(&mut store, machine);
    assert_eq!(r, Ok(reply.key()));
    assert_eq!(store.channel_name(&reply), Some("general".to_string()));
    assert_eq!(store.sender_name(&reply), "alice");
    assert_eq!(store.parent_of(&reply), Some(msg.key()));
    assert_eq!(store.replies_of(&msg), vec![key(&reply.key())]);
    assert_eq!(store.parent_of(&msg), None);
}

#[test]
fn reply_to_message_without_channel_is_channel_not_found() {
    let mut store = MemStore::default();
    let alice = saved_user(&mut store, "alice");
    let orphan = Message::new("lost".to_string());
    store.write(Request::Create(orphan.key(), Record::Message { content: "lost".to_string() })).unwrap();
    let (_, machine) = orphan.reply(alice.id(), "anyone?".to_string());
    assert_eq!(run(&mut store, machine), fail(ErrorKind::ChannelNotFound, Stage::ResolveChannel, false));
}

#[test]
fn reply_whose_parent_vanished_is_message_not_found() {
    let parent = Message::new("p".to_string());
    let (child, m) = parent.reply("u".to_string(), "c".to_string());
    let chan = Identifier::from_token(Table::Channels, "C".to_string());
    let (m, _) = m.next(Response::Found(Some(chan)));
    let (m, _) = m.next(Response::Written);
    let (m, _) = m.next(Response::Count(1));
    let (m, _) = m.next(Response::Count(1));
    let (m, step) = m.next(Response::Count(0));
    let Step::Issue(Request::Relate(f, Label::ReplyTo, t, false)) = step else { panic!("expected the reply edge") };
    assert_eq!(f, child.key());
    assert_eq!(t, parent.key());
    let (_, step) = m.next(Response::Missing);
    let Step::Finish(r) = step else { panic!("expected the outcome") };
    assert_eq!(r, fail(ErrorKind::MessageNotFound, Stage::LinkParent, true));
}

#[test]
fn reply_into_non_channel_is_consistency_violation() {
    let parent = Message::new("p".to_string());
    let (_, m) = parent.reply("u".to_string(), "c".to_string());
    let wrong = Identifier::from_token(Table::Users, "U".to_string());
    let (_, step) = m.next(Response::Found(Some(wrong)));
    let Step::Finish(r) = step else { panic!("expected the outcome") };
    assert_eq!(r, fail(ErrorKind::ConsistencyViolation, Stage::ResolveChannel, false));
}

#[test]
fn deleting_channel_detaches_its_messages() {
    let mut store = MemStore::default();
    let alice = saved_user(&mut store, "alice");
    let general = created_channel(&mut store, "general");
    let random = created_channel(&mut store, "random");
    let msg = Message::new("hi".to_string());
    run(&mut store, msg.send(alice.id.clone(), general.clone())).unwrap();
    let (reply, machine) = msg.reply(alice.id(), "hi again".to_string());
    run(&mut store, machine).unwrap();
    let other = Message::new("elsewhere".to_string());
    run(&mut store, other.send(alice.id.clone(), random.clone())).unwrap();

    let gkey = general.key();
    assert_eq!(store.messages_in(&general), vec![key(&msg.key()), key(&reply.key())]);
    let r = run(&mut store, general.clone().delete());
    assert_eq!(r, Ok(gkey.clone()));
    assert_eq!(store.channel_of(&msg), None);
    assert_eq!(store.channel_of(&reply), None);
    assert!(store.messages_in(&general).is_empty());
    assert!(!store.edges.iter().any(|(_, _, t)| *t == key(&gkey)));
    assert_eq!(store.channel_of(&other), Some(random.key()));
}

#[test]
fn deleting_missing_channel_touches_nothing() {
    let mut store = MemStore::default();
    let alice = saved_user(&mut store, "alice");
    let c = Channel::new("gone".to_string());
    let msg = Message::new("dangling".to_string());
    store.write(Request::Create(msg.key(), Record::Message { content: "dangling".to_string() })).unwrap();
    store.edges.push((key(&msg.key()), Label::SentInChannel, key(&c.key())));
    let _ = alice;
    assert_eq!(run(&mut store, c.delete()), fail(ErrorKind::NotFound, Stage::CheckRow, false));
    assert!(store.live(&key(&msg.key())));
    assert_eq!(store.edges.len(), 1);
}

#[test]
fn delete_requests_and_outcomes() {
    let mut store = MemStore::default();
    let alice = saved_user(&mut store, "alice");
    assert_eq!(store.write(alice.delete()), Ok(()));
    assert_eq!(store.write(alice.delete()), Err(ErrorKind::NotFound));
    let m = Message::new("x".to_string());
    assert_eq!(store.write(m.delete()), Err(ErrorKind::NotFound));
    assert_eq!(write_outcome(Response::Failed), Err(ErrorKind::StoreUnavailable));
}

#[test]
fn sender_absence_is_a_consistency_violation() {
    assert_eq!(required_target(Response::Found(None)), Err(ErrorKind::ConsistencyViolation));
    assert_eq!(required_target(Response::Failed), Err(ErrorKind::StoreUnavailable));
    assert_eq!(optional_target(Response::Found(None)), Ok(None));
    assert_eq!(optional_target(Response::Written), Err(ErrorKind::StoreUnavailable));
}
