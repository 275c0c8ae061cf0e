//! The distributed lock manager.
//!
//! `acquire` is one non-blocking, atomic set-if-absent of a fresh owner
//! token under the caller's key: it either takes the lock or fails at once
//! with `AlreadyExists` — no retry loop, no queueing. Release and renewal
//! go through the store's atomic compare-then-act operations, so only the
//! party whose owner token still matches the stored value can delete or
//! extend the binding; a stale holder's attempt is a no-op. The background
//! renewal task re-extends the TTL at half-life cadence until the renewal
//! flag is cleared; `renew_tick` is the step it performs at each tick.

use crate::error::Error;
use crate::store::{
    live, spec_compare_and_delete, spec_compare_and_extend, spec_set, spec_set_nx, value_is,
    EntryView, StoreModel,
};
use vstd::prelude::*;

verus! {

/// Converts a duration, given as whole seconds plus the nanosecond part,
/// to the store's native milliseconds. `InvalidDuration` exactly when the
/// value does not fit — decided before any store access.
pub fn duration_to_ms(secs: u64, nanos: u32) -> (r: Result<u64, Error>)
    requires
        nanos < 1_000_000_000,
    ensures
        r is Ok <==> secs * 1000 + nanos as int / 1_000_000 <= u64::MAX,
        match r {
            Ok(ms) => ms == secs * 1000 + nanos as int / 1_000_000,
            Err(e) => e matches Error::InvalidDuration(_),
        },
{
    let sub_ms: u64 = (nanos / 1_000_000) as u64;
    if secs <= (u64::MAX - sub_ms) / 1000 {
        Ok(secs * 1000 + sub_ms)
    } else {
        Err(Error::InvalidDuration("duration exceeds the store's millisecond range".to_owned()))
    }
}

/// Relies on uuid::Uuid::new_v4 and its Display rendering: a fresh random
/// version-4 UUID in hyphenated form, which is exactly 36 characters. The
/// value is random, so nothing more is promised of it.
#[verifier::external_body]
fn fresh_owner_token() -> (r: String)
    ensures
        r@.len() == 36,
{
    uuid::Uuid::new_v4().to_string()
}

/// A distributed lock handle: the locked key, the owner token that proves
/// ownership on release and renewal, the TTL each renewal restores, and
/// the flag that keeps the background renewal task going.
#[derive(Debug, Clone)]
pub struct RedisLock {
    pub key: String,
    pub token: String,
    pub ttl_ms: u64,
    pub auto_renew_flag: bool,
}

impl RedisLock {
    /// One non-blocking acquisition attempt at instant `now_ms`: an atomic
    /// set-if-absent of a fresh owner token under `key` with expiry
    /// `ttl_ms`. Succeeds exactly when no live binding of `key` exists;
    /// otherwise the key is already held and `AlreadyExists` carries it
    /// back. Nothing is ever partially written.
    pub fn acquire(
        store: &mut StoreModel,
        key: &String,
        ttl_ms: u64,
        auto_renew: bool,
        now_ms: u64,
    ) -> (r: Result<RedisLock, Error>)
        requires
            old(store).wf(),
            now_ms + ttl_ms <= u64::MAX,
        ensures
            final(store).wf(),
            r is Ok <==> !live(old(store)@, key@, now_ms),
            match r {
                Ok(lock) => {
                    &&& lock.key@ == key@
                    &&& lock.ttl_ms == ttl_ms
                    &&& lock.auto_renew_flag == auto_renew
                    &&& lock.token@.len() == 36
                    &&& final(store)@ == spec_set(old(store)@, key@, lock.token@, ttl_ms, now_ms)
                },
                Err(e) => {
                    &&& final(store)@ == old(store)@
                    &&& e matches Error::AlreadyExists(k) && k@ == key@
                },
            },
    {
        let token = fresh_owner_token();
        let taken = store.set_nx_px(key, &token, ttl_ms, now_ms);
        if taken {
            Ok(RedisLock { key: key.clone(), token, ttl_ms, auto_renew_flag: auto_renew })
        } else {
            Err(Error::AlreadyExists(key.clone()))
        }
    }

    /// The cadence of the background renewal task: half the TTL, so even
    /// one delayed round trip leaves an attempt before natural expiry.
    pub fn renew_interval_ms(&self) -> (r: u64)
        ensures
            r == self.ttl_ms / 2,
    {
        self.ttl_ms / 2
    }

    /// One renewal attempt, as the background task performs at each tick:
    /// atomically resets the expiry to `now_ms + ttl_ms` if and only if
    /// the key still holds this lock's owner token; a since-transferred or
    /// lapsed key is left alone.
    pub fn renew_tick(&self, store: &mut StoreModel, now_ms: u64) -> (r: bool)
        requires
            old(store).wf(),
            now_ms + self.ttl_ms <= u64::MAX,
        ensures
            final(store).wf(),
            r == value_is(old(store)@, self.key@, self.token@, now_ms),
            final(store)@ == spec_compare_and_extend(
                old(store)@,
                self.key@,
                self.token@,
                self.ttl_ms,
                now_ms,
            ),
    {
        store.compare_and_extend(&self.key, &self.token, self.ttl_ms, now_ms)
    }

    /// Releases the lock: clears the renewal flag, then atomically deletes
    /// the key if and only if it still holds this lock's owner token.
    /// Idempotent, and a no-op on a key that has since lapsed and been
    /// re-acquired by another holder.
    pub fn release(&mut self, store: &mut StoreModel, now_ms: u64)
        requires
            old(store).wf(),
        ensures
            final(store).wf(),
            !final(self).auto_renew_flag,
            final(self).key == old(self).key,
            final(self).token == old(self).token,
            final(self).ttl_ms == old(self).ttl_ms,
            final(store)@ == spec_compare_and_delete(
                old(store)@,
                old(self).key@,
                old(self).token@,
                now_ms,
            ),
    {
        self.auto_renew_flag = false;
        store.compare_and_delete(&self.key, &self.token, now_ms);
    }
}

/// The outcome of each attempt when several acquisitions of `key` are
/// serialized at one instant, in serialization order.
pub open spec fn acquire_outcomes(
    m: Map<Seq<char>, EntryView>,
    key: Seq<char>,
    tokens: Seq<Seq<char>>,
    ttl_ms: u64,
    now_ms: u64,
) -> Seq<bool>
    decreases tokens.len(),
{
    if tokens.len() == 0 {
        Seq::empty()
    } else {
        seq![!live(m, key, now_ms)] + acquire_outcomes(
            spec_set_nx(m, key, tokens.first(), ttl_ms, now_ms),
            key,
            tokens.drop_first(),
            ttl_ms,
            now_ms,
        )
    }
}

/// While `key` is live, every acquisition attempt fails and leaves the
/// store unchanged.
proof fn lemma_acquire_all_fail(
    m: Map<Seq<char>, EntryView>,
    key: Seq<char>,
    tokens: Seq<Seq<char>>,
    ttl_ms: u64,
    now_ms: u64,
)
    requires
        live(m, key, now_ms),
    ensures
        acquire_outcomes(m, key, tokens, ttl_ms, now_ms).len() == tokens.len(),
        forall|i: int|
            0 <= i < tokens.len() ==> !acquire_outcomes(m, key, tokens, ttl_ms, now_ms)[i],
    decreases tokens.len(),
{
    if tokens.len() > 0 {
        assert(spec_set_nx(m, key, tokens.first(), ttl_ms, now_ms) == m);
        lemma_acquire_all_fail(m, key, tokens.drop_first(), ttl_ms, now_ms);
    }
}

/// Law: of N acquisition attempts on a fresh key serialized at one
/// instant, exactly one — the first to reach the store — succeeds; every
/// other attempt observes the key as already held, immediately.
pub proof fn lemma_acquire_one_winner(
    m: Map<Seq<char>, EntryView>,
    key: Seq<char>,
    tokens: Seq<Seq<char>>,
    ttl_ms: u64,
    now_ms: u64,
)
    requires
        !live(m, key, now_ms),
        0 < ttl_ms,
        now_ms + ttl_ms <= u64::MAX,
        tokens.len() >= 1,
    ensures
        acquire_outcomes(m, key, tokens, ttl_ms, now_ms).len() == tokens.len(),
        acquire_outcomes(m, key, tokens, ttl_ms, now_ms)[0],
        forall|i: int|
            1 <= i < tokens.len() ==> !acquire_outcomes(m, key, tokens, ttl_ms, now_ms)[i],
{
    let m1 = spec_set_nx(m, key, tokens.first(), ttl_ms, now_ms);
    assert(live(m1, key, now_ms));
    lemma_acquire_all_fail(m1, key, tokens.drop_first(), ttl_ms, now_ms);
}

/// Law: once the holder has released, an acquisition by any other party
/// succeeds at any instant from the release on.
pub proof fn lemma_release_then_acquire(
    m: Map<Seq<char>, EntryView>,
    key: Seq<char>,
    holder: Seq<char>,
    release_ms: u64,
    later_ms: u64,
)
    requires
        value_is(m, key, holder, release_ms),
    ensures
        !live(spec_compare_and_delete(m, key, holder, release_ms), key, later_ms),
{
}

/// Law: while a key is live, an acquisition attempt by any party fails
/// and leaves the store unchanged, immediately — there is no queue to
/// wait in.
pub proof fn lemma_held_excludes_acquire(
    m: Map<Seq<char>, EntryView>,
    key: Seq<char>,
    contender: Seq<char>,
    ttl_ms: u64,
    now_ms: u64,
)
    requires
        live(m, key, now_ms),
    ensures
        spec_set_nx(m, key, contender, ttl_ms, now_ms) == m,
{
}

/// The store after a chain of renewal attempts by one holder at the given
/// instants, earliest first.
pub open spec fn renew_all(
    m: Map<Seq<char>, EntryView>,
    key: Seq<char>,
    token: Seq<char>,
    ttl_ms: u64,
    times: Seq<u64>,
) -> Map<Seq<char>, EntryView>
    decreases times.len(),
{
    if times.len() == 0 {
        m
    } else {
        renew_all(
            spec_compare_and_extend(m, key, token, ttl_ms, times.first()),
            key,
            token,
            ttl_ms,
            times.drop_first(),
        )
    }
}

/// Law: a holder that renews at instants never further apart than the TTL
/// keeps the key: after the whole chain the key still holds the owner
/// token at every instant up to `ttl_ms` past the last renewal, so nobody
/// else can acquire it anywhere in that window. With the half-TTL cadence,
/// k renewal cycles keep the key held for at least k*ttl/2 beyond the
/// acquisition.
pub proof fn lemma_renewal_keeps_lock(
    m: Map<Seq<char>, EntryView>,
    key: Seq<char>,
    token: Seq<char>,
    ttl_ms: u64,
    times: Seq<u64>,
)
    requires
        times.len() >= 1,
        value_is(m, key, token, times[0]),
        forall|i: int| 0 <= i < times.len() - 1 ==> #[trigger] times[i] <= times[i + 1],
        forall|i: int| 0 <= i < times.len() - 1 ==> times[i + 1] < #[trigger] times[i] + ttl_ms,
        forall|i: int| 0 <= i < times.len() ==> #[trigger] times[i] + ttl_ms <= u64::MAX,
    ensures
        forall|t: u64|
            times.last() <= t < times.last() + ttl_ms ==> value_is(
                renew_all(m, key, token, ttl_ms, times),
                key,
                token,
                t,
            ),
    decreases times.len(),
{
    let m1 = spec_compare_and_extend(m, key, token, ttl_ms, times.first());
    assert(forall|t: u64|
        times.first() <= t < times.first() + ttl_ms ==> value_is(m1, key, token, t));
    if times.len() == 1 {
        assert(times.last() == times.first());
        assert(times.drop_first().len() == 0);
        assert(renew_all(m1, key, token, ttl_ms, times.drop_first()) == m1);
        assert(renew_all(m, key, token, ttl_ms, times) == m1);
    } else {
        let rest = times.drop_first();
        assert(rest[0] == times[1]);
        assert(value_is(m1, key, token, rest[0]));
        assert(forall|i: int| 0 <= i < rest.len() - 1 ==> #[trigger] rest[i] <= rest[i + 1]);
        assert(forall|i: int| 0 <= i < rest.len() - 1 ==> rest[i + 1] < #[trigger] rest[i] + ttl_ms);
        assert(forall|i: int| 0 <= i < rest.len() ==> #[trigger] rest[i] + ttl_ms <= u64::MAX);
        lemma_renewal_keeps_lock(m1, key, token, ttl_ms, rest);
        assert(rest.last() == times.last());
        assert(renew_all(m, key, token, ttl_ms, times) == renew_all(m1, key, token, ttl_ms, rest));
    }
}

/// Law: with no renewal after the one at `last_ms`, the key is free for
/// anyone at every instant from `last_ms + ttl_ms` on — the lock outlives
/// its holder's crash by at most the TTL, never longer.
pub proof fn lemma_crash_frees_lock(
    m: Map<Seq<char>, EntryView>,
    key: Seq<char>,
    last_ms: u64,
    ttl_ms: u64,
    t: u64,
)
    requires
        m.contains_key(key) ==> m[key].expires_at_ms <= last_ms + ttl_ms,
        last_ms + ttl_ms <= t,
    ensures
        !live(m, key, t),
{
}

/// Law: a release whose owner token no longer matches the stored value —
/// because the lock lapsed and was re-acquired — changes nothing: the new
/// holder's binding stays exactly as it was.
pub proof fn lemma_stale_release_noop(
    m: Map<Seq<char>, EntryView>,
    key: Seq<char>,
    stale_token: Seq<char>,
    now_ms: u64,
)
    requires
        !value_is(m, key, stale_token, now_ms),
    ensures
        spec_compare_and_delete(m, key, stale_token, now_ms) == m,
{
}

} // verus!
