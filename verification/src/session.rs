//! The session manager: issues, resolves, refreshes and revokes opaque
//! session tokens backed by the TTL store.
//!
//! A token maps to the serialized user record (an opaque blob to this
//! logic) under a sliding TTL: every refresh rewrites the binding with a
//! fresh window. Deletion from the store is revocation; there is no
//! separate revocation list and no in-process cache, so the store is the
//! single source of truth.

use crate::constant;
use crate::decimal::{i64_to_dec, lemma_i64_dec_injective, lemma_i64_dec_no_colon, spec_i64_dec};
use crate::error::Error;
use crate::store::{
    live, spec_del, spec_get, spec_set, EntryView, StoreModel,
};
use vstd::prelude::*;

verus! {

/// Session time-to-live in the store's native milliseconds.
pub open spec fn spec_session_ttl_ms() -> u64 {
    (constant::EXPIRATION_SECS * 1000) as u64
}

/// Session time-to-live in the store's native milliseconds.
pub fn session_ttl_ms() -> (r: u64)
    ensures
        r == spec_session_ttl_ms(),
{
    constant::EXPIRATION_SECS * 1000
}

/// The token issued for user `id` with disambiguator `salt`:
/// `Session:<id>:<salt>`.
pub open spec fn spec_session_token(id: int, salt: int) -> Seq<char> {
    "Session"@ + ":"@ + spec_i64_dec(id) + ":"@ + spec_i64_dec(salt)
}

/// Builds the session token for user `user_id` with disambiguator `salt`.
pub fn session_token(user_id: i64, salt: i64) -> (r: String)
    ensures
        r@ == spec_session_token(user_id as int, salt as int),
{
    let mut s = constant::SESSION_KEY.to_owned();
    s.append(":");
    let id_part = i64_to_dec(user_id);
    s.append(id_part.as_str());
    s.append(":");
    let salt_part = i64_to_dec(salt);
    s.append(salt_part.as_str());
    proof {
        reveal_strlit("Session");
        reveal_strlit(":");
        assert(s@ =~= spec_session_token(user_id as int, salt as int));
    }
    s
}

/// Relies on chrono::Local::now and DateTime::timestamp: the current local
/// time as whole seconds since the Unix epoch. The result depends on the
/// clock, so nothing is promised of it.
#[verifier::external_body]
fn now_timestamp() -> i64 {
    chrono::Local::now().timestamp()
}

/// Plain image of a stored user record: the fields the session and
/// permission logic reads.
#[derive(Debug, Clone, PartialEq, Eq)]
pub struct UserRecord {
    pub id: i64,
    pub username: String,
    pub role: i32,
}

/// An authenticated user: the session token and the record behind it.
#[derive(Debug, Clone)]
pub struct UserInfo {
    pub token: String,
    pub user_db: UserRecord,
}

impl UserInfo {
    /// Creates a session at instant `now_ms` with an explicit
    /// disambiguator `salt`: stores `principal` (the serialized record)
    /// under `Session:<id>:<salt>` with the configured TTL. One store
    /// write, nothing else.
    pub fn login_at(
        store: &mut StoreModel,
        user_db: UserRecord,
        principal: &String,
        salt: i64,
        now_ms: u64,
    ) -> (r: UserInfo)
        requires
            old(store).wf(),
            now_ms + spec_session_ttl_ms() <= u64::MAX,
        ensures
            final(store).wf(),
            r.token@ == spec_session_token(user_db.id as int, salt as int),
            r.user_db == user_db,
            final(store)@ == spec_set(
                old(store)@,
                r.token@,
                principal@,
                spec_session_ttl_ms(),
                now_ms,
            ),
    {
        let token = session_token(user_db.id, salt);
        store.set_px(&token, principal, session_ttl_ms(), now_ms);
        UserInfo { token, user_db }
    }

    /// Creates a session whose disambiguator is the current timestamp, as
    /// issued on login.
    pub fn login(
        store: &mut StoreModel,
        user_db: UserRecord,
        principal: &String,
        now_ms: u64,
    ) -> (r: UserInfo)
        requires
            old(store).wf(),
            now_ms + spec_session_ttl_ms() <= u64::MAX,
        ensures
            final(store).wf(),
            r.user_db == user_db,
            exists|salt: int| r.token@ == spec_session_token(user_db.id as int, salt),
            final(store)@ == spec_set(
                old(store)@,
                r.token@,
                principal@,
                spec_session_ttl_ms(),
                now_ms,
            ),
    {
        let salt = now_timestamp();
        Self::login_at(store, user_db, principal, salt, now_ms)
    }

    /// Resolves `token` at instant `now_ms`: the serialized record stored
    /// under it, or `NotLogin` when the binding is absent or lapsed — the
    /// two are one indistinguishable condition on purpose.
    pub fn from_token(store: &StoreModel, token: &String, now_ms: u64) -> (r: Result<
        String,
        Error,
    >)
        requires
            store.wf(),
        ensures
            match r {
                Ok(principal) => spec_get(store@, token@, now_ms) == Some(principal@),
                Err(e) => spec_get(store@, token@, now_ms) is None && e == Error::NotLogin,
            },
    {
        match store.get(token, now_ms) {
            Some(principal) => Ok(principal),
            None => Err(Error::NotLogin),
        }
    }

    /// Rewrites this session's binding with a fresh TTL window (sliding
    /// expiry); invoked on every authenticated request.
    pub fn refresh_session(&self, store: &mut StoreModel, principal: &String, now_ms: u64)
        requires
            old(store).wf(),
            now_ms + spec_session_ttl_ms() <= u64::MAX,
        ensures
            final(store).wf(),
            final(store)@ == spec_set(
                old(store)@,
                self.token@,
                principal@,
                spec_session_ttl_ms(),
                now_ms,
            ),
    {
        store.set_px(&self.token, principal, session_ttl_ms(), now_ms);
    }

    /// Revokes this session: deletes the binding. Deleting an absent key
    /// is not an error, so revocation is idempotent.
    pub fn logout(&self, store: &mut StoreModel)
        requires
            old(store).wf(),
        ensures
            final(store).wf(),
            final(store)@ == spec_del(old(store)@, self.token@),
    {
        store.del(&self.token);
    }

    /// Whether this user is an administrator (role 0).
    pub fn is_admin(&self) -> (r: bool)
        ensures
            r == (self.user_db.role == 0),
    {
        self.user_db.role == 0
    }
}

/// Law: the token determines the session: two tokens are equal only when
/// both the user id and the disambiguator agree, so distinct logins (and
/// re-logins at distinct timestamps) never collide.
pub proof fn lemma_session_token_unique(id1: i64, salt1: i64, id2: i64, salt2: i64)
    requires
        spec_session_token(id1 as int, salt1 as int) == spec_session_token(
            id2 as int,
            salt2 as int,
        ),
    ensures
        id1 == id2,
        salt1 == salt2,
{
    reveal_strlit("Session");
    reveal_strlit(":");
    let p = "Session"@ + ":"@;
    let a1 = spec_i64_dec(id1 as int);
    let b1 = spec_i64_dec(salt1 as int);
    let a2 = spec_i64_dec(id2 as int);
    let b2 = spec_i64_dec(salt2 as int);
    let t1 = spec_session_token(id1 as int, salt1 as int);
    let t2 = spec_session_token(id2 as int, salt2 as int);
    lemma_i64_dec_no_colon(id1 as int);
    lemma_i64_dec_no_colon(id2 as int);
    assert(":"@.len() == 1);
    assert(":"@[0] == ':');
    let q1 = p + a1;
    let q2 = p + a2;
    assert(t1 == (q1 + ":"@) + b1);
    assert(t2 == (q2 + ":"@) + b2);
    assert(t1.len() == p.len() + a1.len() + 1 + b1.len());
    assert(t2.len() == p.len() + a2.len() + 1 + b2.len());
    assert(forall|i: int| 0 <= i < a1.len() ==> t1[p.len() + i] == #[trigger] a1[i]);
    assert(forall|i: int| 0 <= i < a2.len() ==> t2[p.len() + i] == #[trigger] a2[i]);
    assert(t1[q1.len() as int] == ':');
    assert(t2[q2.len() as int] == ':');
    if a1.len() < a2.len() {
        let pos = p.len() + a1.len();
        assert(t1[pos as int] == ':');
        assert(t2[pos as int] == a2[a1.len() as int]);
        assert(false);
    }
    if a2.len() < a1.len() {
        let pos = p.len() + a2.len();
        assert(t2[pos as int] == ':');
        assert(t1[pos as int] == a1[a2.len() as int]);
        assert(false);
    }
    assert(a1 =~= a2);
    assert(b1.len() == b2.len());
    assert(forall|i: int| 0 <= i < b1.len() ==> t1[q1.len() + 1 + i] == #[trigger] b1[i]);
    assert(forall|i: int| 0 <= i < b2.len() ==> t2[q2.len() + 1 + i] == #[trigger] b2[i]);
    assert(b1 =~= b2);
    lemma_i64_dec_injective(id1 as int, id2 as int);
    lemma_i64_dec_injective(salt1 as int, salt2 as int);
}

/// Law: a session created at `now_ms` resolves, at any instant inside its
/// TTL window, to exactly the principal that was stored.
pub proof fn lemma_create_then_resolve(
    m: Map<Seq<char>, EntryView>,
    token: Seq<char>,
    principal: Seq<char>,
    ttl_ms: u64,
    now_ms: u64,
    later_ms: u64,
)
    requires
        now_ms + ttl_ms <= u64::MAX,
        now_ms <= later_ms < now_ms + ttl_ms,
    ensures
        spec_get(spec_set(m, token, principal, ttl_ms, now_ms), token, later_ms) == Some(
            principal,
        ),
{
}

/// Law: a refresh at `refresh_ms` makes the session resolvable at any
/// instant before `refresh_ms + ttl_ms`, even at instants where the
/// unrefreshed binding would already be dead.
pub proof fn lemma_refresh_extends(
    m: Map<Seq<char>, EntryView>,
    token: Seq<char>,
    principal: Seq<char>,
    ttl_ms: u64,
    refresh_ms: u64,
    later_ms: u64,
)
    requires
        refresh_ms + ttl_ms <= u64::MAX,
        refresh_ms <= later_ms < refresh_ms + ttl_ms,
        !live(m, token, later_ms),
    ensures
        spec_get(m, token, later_ms) is None,
        spec_get(spec_set(m, token, principal, ttl_ms, refresh_ms), token, later_ms) == Some(
            principal,
        ),
{
}

/// Law: revoking a token leaves nothing to resolve, and revoking it twice
/// is the same as revoking it once.
pub proof fn lemma_revoke_idempotent(m: Map<Seq<char>, EntryView>, token: Seq<char>, now_ms: u64)
    ensures
        spec_get(spec_del(m, token), token, now_ms) is None,
        spec_del(spec_del(m, token), token) == spec_del(m, token),
{
    assert(spec_del(spec_del(m, token), token) =~= spec_del(m, token));
}

/// Law: a token that was never issued resolves to the very same outcome as
/// one whose binding has lapsed: nothing.
pub proof fn lemma_unauthenticated_indistinguishable(
    m: Map<Seq<char>, EntryView>,
    never_issued: Seq<char>,
    expired: Seq<char>,
    now_ms: u64,
)
    requires
        !m.contains_key(never_issued),
        m.contains_key(expired) && m[expired].expires_at_ms <= now_ms,
    ensures
        spec_get(m, never_issued, now_ms) == spec_get(m, expired, now_ms),
        spec_get(m, never_issued, now_ms) is None,
{
}

} // verus!
