//! Table-scoped, time-sortable identifiers.

use ulid::Ulid;
use vstd::prelude::*;

verus! {

/// Relies on `ulid::Ulid::new`: a fresh ULID from the clock and the thread's
/// random source. Nothing about its value can be promised.
pub assume_specification[ Ulid::new ]() -> Ulid;

/// Relies on `ulid::Ulid::to_string`: the Crockford base32 text of the
/// 128-bit value, always `ulid::ULID_LEN` (26) characters of the alphabet.
pub assume_specification[ Ulid::to_string ](u: &Ulid) -> (r: String)
    ensures
        is_token(r@),
;

#[verifier::external_type_specification]
#[verifier::external_body]
pub struct ExUlid(Ulid);

/// The Crockford base32 digits, in the order of their values.
pub open spec fn is_crockford_digit(c: char) -> bool {
    ('0' <= c && c <= '9') || ('A' <= c && c <= 'Z' && c != 'I' && c != 'L' && c != 'O' && c != 'U')
}

/// A token as generated for a fresh record: 26 Crockford base32 digits.
pub open spec fn is_token(s: Seq<char>) -> bool {
    &&& s.len() == 26
    &&& forall|i: int| 0 <= i < s.len() ==> is_crockford_digit(#[trigger] s[i])
}

/// Generates a new ULID.
pub fn ulid() -> Ulid {
    Ulid::new()
}

/// A fresh token: the text of a new ULID.
pub fn fresh_token() -> (r: String)
    ensures
        is_token(r@),
{
    let u = ulid();
    u.to_string()
}

/// The tables that hold the domain's records.
#[derive(Clone, Copy, Debug, PartialEq, Eq, Hash, Structural)]
pub enum Table {
    Users,
    Channels,
    Messages,
}

/// The name of a table in the store.
pub open spec fn table_name(t: Table) -> Seq<char> {
    match t {
        Table::Users => seq!['u', 's', 'e', 'r', 's'],
        Table::Channels => seq!['c', 'h', 'a', 'n', 'n', 'e', 'l', 's'],
        Table::Messages => seq!['m', 'e', 's', 's', 'a', 'g', 'e', 's'],
    }
}

impl Table {
    pub fn name(&self) -> (r: &'static str)
        ensures
            r@ == table_name(*self),
    {
        match self {
            Table::Users => {
                proof { reveal_strlit("users"); }
                "users"
            },
            Table::Channels => {
                proof { reveal_strlit("channels"); }
                "channels"
            },
            Table::Messages => {
                proof { reveal_strlit("messages"); }
                "messages"
            },
        }
    }
}

/// What an identifier is, mathematically: its table and its token.
pub type IdView = (Table, Seq<char>);

/// A record's identity: the table it lives in and an opaque, sortable token.
/// Two identifiers are equal exactly when both table and token are equal.
#[derive(Debug)]
pub struct Identifier {
    pub table: Table,
    pub token: String,
}

impl View for Identifier {
    type V = IdView;

    open spec fn view(&self) -> IdView {
        (self.table, self.token@)
    }
}

/// The external text of an identifier, as used in query text: `table:token`.
pub open spec fn id_text(id: IdView) -> Seq<char> {
    table_name(id.0) + seq![':'] + id.1
}

impl Identifier {
    /// A new identifier in `table`, with a freshly generated token.
    pub fn new(table: Table) -> (r: Identifier)
        ensures
            r.table == table,
            is_token(r.token@),
    {
        Identifier { table, token: fresh_token() }
    }

    /// The identifier of the record `token` in `table`.
    pub fn from_token(table: Table, token: String) -> (r: Identifier)
        ensures
            r@ == (table, token@),
    {
        Identifier { table, token }
    }

    /// Whether two identifiers name the same record.
    pub fn same(&self, other: &Identifier) -> (r: bool)
        ensures
            r == (self@ == other@),
    {
        self.table == other.table && self.token == other.token
    }

    /// The stable external representation, `table:token`.
    pub fn to_string(&self) -> (r: String)
        ensures
            r@ == id_text(self@),
    {
        let mut r = String::from_str(self.table.name());
        proof { reveal_strlit(":"); }
        r.append(":");
        r.append(self.token.as_str());
        r
    }
}

impl Clone for Identifier {
    fn clone(&self) -> (r: Identifier)
        ensures
            r == *self,
    {
        Identifier { table: self.table, token: self.token.clone() }
    }
}

impl PartialEq for Identifier {
    fn eq(&self, other: &Identifier) -> (r: bool) {
        self.same(other)
    }
}

impl vstd::std_specs::cmp::PartialEqSpecImpl for Identifier {
    open spec fn obeys_eq_spec() -> bool {
        true
    }

    open spec fn eq_spec(&self, other: &Identifier) -> bool {
        self@ == other@
    }
}

} // verus!
