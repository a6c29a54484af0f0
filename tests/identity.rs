use chat_store::entity::{Channel, ChannelId, Message, MessageId, User, UserId};
use chat_store::ident::{fresh_token, ulid, Identifier, Table};

const CROCKFORD: &str = "0123456789ABCDEFGHJKMNPQRSTVWXYZ";

fn is_token(s: &str) -> bool {
    s.len() == 26 && s.chars().all(|c| CROCKFORD.contains(c))
}

#[test]
fn fresh_token_is_crockford_base32() {
    let t = fresh_token();
    assert!(is_token(&t), "{t}");
}

#[test]
fn fresh_tokens_differ() {
    let a = fresh_token();
    let b = fresh_token();
    assert_ne!(a, b);
}

#[test]
fn ulid_values_sort_by_creation() {
    let a = ulid();
    let mut b = ulid();
    while b.timestamp_ms() <= a.timestamp_ms() {
        b = ulid();
    }
    assert!(a < b);
    assert!(a.to_string() < b.to_string());
}

#[test]
fn table_names() {
    assert_eq!(Table::Users.name(), "users");
    assert_eq!(Table::Channels.name(), "channels");
    assert_eq!(Table::Messages.name(), "messages");
}

#[test]
fn identifier_text_is_table_colon_token() {
    let id = Identifier::from_token(Table::Messages, "01HZX3K9V1M6Q2W8E4R7T5Y0AB".to_string());
    assert_eq!(id.to_string(), "messages:01HZX3K9V1M6Q2W8E4R7T5Y0AB");
}

#[test]
fn identifier_equality_needs_table_and_token() {
    let a = Identifier::from_token(Table::Users, "X".to_string());
    let b = Identifier::from_token(Table::Users, "X".to_string());
    let c = Identifier::from_token(Table::Channels, "X".to_string());
    let d = Identifier::from_token(Table::Users, "Y".to_string());
    assert!(a.same(&b));
    assert_eq!(a, b);
    assert_ne!(a, c);
    assert_ne!(a, d);
    assert_eq!(a.clone(), a);
}

#[test]
fn new_identifier_has_fresh_token() {
    let id = Identifier::new(Table::Channels);
    assert_eq!(id.table, Table::Channels);
    assert!(is_token(&id.token));
}

#[test]
fn typed_ids_round_trip_their_token() {
    let u = UserId::from_inner_id("abc".to_string());
    assert_eq!(u.get_inner_string(), "abc");
    assert_eq!(u.record(), Identifier::from_token(Table::Users, "abc".to_string()));
    let m = MessageId::from_inner_id("def".to_string());
    assert_eq!(m.record().to_string(), "messages:def");
    let c = ChannelId::from_inner_id("ghi".to_string());
    assert_eq!(c.clone().record().to_string(), "channels:ghi");
}

#[test]
fn user_display_name_prefers_nickname() {
    let u = User::new("alice".to_string(), Some("Al".to_string()));
    assert_eq!(u.get_display_name(), "Al");
    assert_eq!(u.get_username(), "alice");
    let v = User::new("bob".to_string(), None);
    assert_eq!(v.get_display_name(), "bob");
}

#[test]
fn new_entities_get_fresh_ids() {
    let u = User::new("alice".to_string(), None);
    let c = Channel::new("general".to_string());
    let m = Message::new("hi".to_string());
    assert!(is_token(&u.id()));
    assert!(is_token(&c.id()));
    assert!(is_token(&m.id()));
    assert_eq!(c.name(), "general");
    assert_eq!(m.get_content(), "hi");
    assert_eq!(u.key().table, Table::Users);
    assert_eq!(c.key().table, Table::Channels);
    assert_eq!(m.key().to_string(), format!("messages:{}", m.id()));
}

#[test]
fn clones_keep_fields() {
    let u = User::new("alice".to_string(), Some("Al".to_string()));
    let v = u.clone();
    assert_eq!(v.id(), u.id());
    assert_eq!(v.nickname, Some("Al".to_string()));
    let m = Message::new("hi".to_string());
    assert_eq!(m.clone().get_content(), "hi");
    let c = Channel::new("general".to_string());
    assert_eq!(c.clone().id(), c.id());
}
