//! A fixed set of authenticated store handles, handed out round-robin, and
//! the settings needed to open them.

use vstd::arithmetic::div_mod::{
    lemma_add_mod_noop, lemma_mod_add_multiples_vanish, lemma_mod_pos_bound, lemma_small_mod,
};
use vstd::prelude::*;

verus! {

/// Relies on `rand::random`: a value from the thread-local generator.
/// Nothing about it can be promised.
pub assume_specification<T>[ rand::random::<T> ]() -> T
    where
        rand::distributions::Standard: rand::distributions::Distribution<T>,
;

/// How many handles a pool opens unless told otherwise.
pub const DEFAULT_POOL_SIZE: usize = 10;

/// One authenticated handle to the store, tagged with an id for tracing.
pub struct DbConn<H> {
    pub handle: H,
    pub id: usize,
}

/// A pool of handles shared by all callers. Handles are never checked out
/// exclusively: the store multiplexes concurrent requests on each of them.
/// `get_conn` walks the handles in turn, so that over any `n` consecutive
/// calls on a pool of `n` handles each one is handed out exactly once.
pub struct DbConnPool<H> {
    conns: Vec<DbConn<H>>,
    cursor: usize,
}

/// The position that round-robin selection hands out after `start`, `k`
/// calls later, on a pool of `n` handles.
pub open spec fn round_robin(start: nat, k: nat, n: nat) -> nat
    recommends
        n > 0,
{
    (start + k) % n
}

impl<H> DbConnPool<H> {
    /// The handles, in order.
    pub closed spec fn conns(&self) -> Seq<DbConn<H>> {
        self.conns@
    }

    /// The position of the handle that the next `get_conn` hands out.
    pub closed spec fn cursor(&self) -> nat {
        self.cursor as nat
    }

    /// The cursor is a position of the pool, or 0 for a pool without handles.
    pub open spec fn wf(&self) -> bool {
        if self.conns().len() == 0 {
            self.cursor() == 0
        } else {
            self.cursor() < self.conns().len()
        }
    }

    /// A pool over the given handles; the first handed out is the first given.
    pub fn new(conns: Vec<DbConn<H>>) -> (r: DbConnPool<H>)
        ensures
            r.wf(),
            r.conns() == conns@,
            r.cursor() == 0,
    {
        DbConnPool { conns, cursor: 0 }
    }

    pub fn len(&self) -> (r: usize)
        ensures
            r == self.conns().len(),
    {
        self.conns.len()
    }

    /// The next handle in turn, or `None` for a pool without handles.
    pub fn get_conn(&mut self) -> (r: Option<&DbConn<H>>)
        requires
            old(self).wf(),
        ensures
            final(self).wf(),
            final(self).conns() == old(self).conns(),
            old(self).conns().len() == 0 ==> r.is_none() && final(self).cursor() == 0,
            old(self).conns().len() > 0 ==> {
                &&& r == Some(&old(self).conns()[old(self).cursor() as int])
                &&& final(self).cursor() == round_robin(old(self).cursor(), 1, old(self).conns().len())
            },
    {
        let n = self.conns.len();
        if n == 0 {
            return None;
        }
        let i = self.cursor;
        self.cursor = if i + 1 == n { 0 } else { i + 1 };
        proof {
            if i + 1 == n {
                lemma_mod_add_multiples_vanish(0, n as int);
            } else {
                lemma_small_mod((i + 1) as nat, n as nat);
            }
        }
        Some(&self.conns[i])
    }
}

/// Whether position `j` is handed out within `n` selections from `start`.
pub open spec fn handed_out_within(start: nat, n: nat, j: nat) -> bool {
    exists|k: nat| k < n && #[trigger] round_robin(start, k, n) == j
}

/// Round-robin selection in closed form, for fewer than `n` steps.
proof fn lemma_round_robin_step(start: nat, k: nat, n: nat)
    requires
        n > 0,
        k < n,
    ensures
        start % n < n,
        start % n + k < n ==> round_robin(start, k, n) == start % n + k,
        start % n + k >= n ==> round_robin(start, k, n) == start % n + k - n,
{
    let s = start % n;
    lemma_mod_pos_bound(start as int, n as int);
    lemma_small_mod(k, n);
    lemma_add_mod_noop(start as int, k as int, n as int);
    if s + k < n {
        lemma_small_mod((s + k) as nat, n);
    } else {
        lemma_mod_add_multiples_vanish((s + k - n) as int, n as int);
        lemma_small_mod((s + k - n) as nat, n);
    }
}

/// Fairness of round-robin selection: on a pool of `n` handles, any `n`
/// consecutive selections, from any starting position, hand out every
/// handle exactly once.
pub proof fn lemma_round_robin_fair(start: nat, n: nat)
    requires
        n > 0,
    ensures
        forall|j: nat| j < n ==> #[trigger] handed_out_within(start, n, j),
        forall|k1: nat, k2: nat|
            k1 < n && k2 < n && #[trigger] round_robin(start, k1, n) == #[trigger] round_robin(start, k2, n)
                ==> k1 == k2,
{
    assert forall|j: nat| j < n implies #[trigger] handed_out_within(start, n, j) by {
        lemma_mod_pos_bound(start as int, n as int);
        let s = start % n;
        let k: nat = if j >= s { (j - s) as nat } else { (j + n - s) as nat };
        lemma_round_robin_step(start, k, n);
        assert(round_robin(start, k, n) == j);
    }
    assert forall|k1: nat, k2: nat|
        k1 < n && k2 < n && #[trigger] round_robin(start, k1, n) == #[trigger] round_robin(start, k2, n)
            implies k1 == k2 by {
        lemma_round_robin_step(start, k1, n);
        lemma_round_robin_step(start, k2, n);
    }
}

/// One more selection after `k` is selection `k + 1`: chaining `get_conn`
/// calls walks the positions `round_robin(start, k, n)` for `k = 0, 1, ...`.
pub proof fn lemma_round_robin_advance(start: nat, k: nat, n: nat)
    requires
        n > 0,
    ensures
        round_robin(round_robin(start, k, n), 1, n) == round_robin(start, k + 1, n),
{
    lemma_add_mod_noop((start + k) as int, 1, n as int);
    lemma_mod_pos_bound((start + k) as int, n as int);
    if n == 1 {
        assert(((start + k) % n + 1) % n == 0);
        assert((start + k + 1) % n == 0);
    } else {
        lemma_small_mod(1, n);
    }
}

/// Opens a pool all or nothing: handles are added one by one as they
/// authenticate, and a pool comes out only once all of them are in.
pub struct PoolBuilder<H> {
    size: usize,
    conns: Vec<DbConn<H>>,
}

impl<H> PoolBuilder<H> {
    /// The number of handles the pool is to hold.
    pub closed spec fn size(&self) -> nat {
        self.size as nat
    }

    /// The handles added so far.
    pub closed spec fn added(&self) -> Seq<H> {
        self.conns@.map_values(|c: DbConn<H>| c.handle)
    }

    pub open spec fn wf(&self) -> bool {
        self.added().len() <= self.size()
    }

    pub fn new(size: usize) -> (r: PoolBuilder<H>)
        ensures
            r.wf(),
            r.size() == size,
            r.added() == Seq::<H>::empty(),
    {
        let r = PoolBuilder { size, conns: Vec::new() };
        assert(r.added() =~= Seq::<H>::empty());
        r
    }

    /// Whether another authenticated handle is wanted.
    pub fn needs_more(&self) -> (r: bool)
        requires
            self.wf(),
        ensures
            r == (self.added().len() < self.size()),
    {
        self.conns.len() < self.size
    }

    /// Adds a handle that has connected and authenticated.
    pub fn add(&mut self, handle: H)
        requires
            old(self).wf(),
            old(self).added().len() < old(self).size(),
        ensures
            final(self).wf(),
            final(self).size() == old(self).size(),
            final(self).added() == old(self).added().push(handle),
    {
        let id: usize = rand::random::<usize>();
        self.conns.push(DbConn { handle, id });
        assert(self.added() =~= old(self).added().push(handle));
    }

    /// The pool, once every handle is in; `None` while any is missing.
    pub fn finish(self) -> (r: Option<DbConnPool<H>>)
        requires
            self.wf(),
        ensures
            r.is_some() == (self.added().len() == self.size()),
            r matches Some(p) ==> {
                &&& p.wf()
                &&& p.cursor() == 0
                &&& p.conns().map_values(|c: DbConn<H>| c.handle) == self.added()
            },
    {
        if self.conns.len() == self.size {
            Some(DbConnPool::new(self.conns))
        } else {
            None
        }
    }
}

/// A setting that the store connection needs.
#[derive(Clone, Copy, Debug, PartialEq, Eq, Structural)]
pub enum Setting {
    DatabaseUrl,
    Username,
    Password,
    Database,
    Namespace,
}

impl Setting {
    /// The environment variable that holds the setting.
    pub fn var_name(&self) -> (r: &'static str)
        ensures
            *self == Setting::DatabaseUrl ==> r@ == "DATABASE_URL"@,
            *self == Setting::Username ==> r@ == "SURREAL_USERNAME"@,
            *self == Setting::Password ==> r@ == "SURREAL_PASSWORD"@,
            *self == Setting::Database ==> r@ == "SURREAL_DATABASE"@,
            *self == Setting::Namespace ==> r@ == "SURREAL_NAMESPACE"@,
    {
        match self {
            Setting::DatabaseUrl => "DATABASE_URL",
            Setting::Username => "SURREAL_USERNAME",
            Setting::Password => "SURREAL_PASSWORD",
            Setting::Database => "SURREAL_DATABASE",
            Setting::Namespace => "SURREAL_NAMESPACE",
        }
    }
}

/// Where and as whom to connect.
pub struct EnvConfig {
    pub database_url: String,
    pub username: String,
    pub password: String,
    pub database: String,
    pub namespace: String,
}

impl EnvConfig {
    /// The settings from their looked-up values; the first one absent, in
    /// the order of the parameters, is reported.
    pub fn from_values(
        database_url: Option<String>,
        username: Option<String>,
        password: Option<String>,
        database: Option<String>,
        namespace: Option<String>,
    ) -> (r: Result<EnvConfig, Setting>)
        ensures
            database_url.is_none() ==> r == Err::<EnvConfig, Setting>(Setting::DatabaseUrl),
            database_url.is_some() && username.is_none() ==> r == Err::<EnvConfig, Setting>(Setting::Username),
            database_url.is_some() && username.is_some() && password.is_none()
                ==> r == Err::<EnvConfig, Setting>(Setting::Password),
            database_url.is_some() && username.is_some() && password.is_some() && database.is_none()
                ==> r == Err::<EnvConfig, Setting>(Setting::Database),
            database_url.is_some() && username.is_some() && password.is_some() && database.is_some()
                && namespace.is_none() ==> r == Err::<EnvConfig, Setting>(Setting::Namespace),
            database_url.is_some() && username.is_some() && password.is_some() && database.is_some()
                && namespace.is_some() ==> r is Ok,
            r matches Ok(c) ==> {
                &&& database_url == Some(c.database_url)
                &&& username == Some(c.username)
                &&& password == Some(c.password)
                &&& database == Some(c.database)
                &&& namespace == Some(c.namespace)
            },
    {
        let database_url = match database_url {
            Some(v) => v,
            None => return Err(Setting::DatabaseUrl),
        };
        let username = match username {
            Some(v) => v,
            None => return Err(Setting::Username),
        };
        let password = match password {
            Some(v) => v,
            None => return Err(Setting::Password),
        };
        let database = match database {
            Some(v) => v,
            None => return Err(Setting::Database),
        };
        let namespace = match namespace {
            Some(v) => v,
            None => return Err(Setting::Namespace),
        };
        Ok(EnvConfig { database_url, username, password, database, namespace })
    }
}

} // verus!
