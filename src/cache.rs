use vstd::prelude::*;

use crate::error::ApiError;
use crate::model::Session;

verus! {

/// Seconds a cached upstream answer stays usable.
pub const CACHE_TTL_SECS: u64 = 3600;

/// The three upstream lookups whose answers are cached.
#[derive(PartialEq, Eq, Structural, Clone, Copy, Debug)]
pub enum LookupKind {
    UsernameToUuid,
    UuidToUsername,
    DiscordIdToUsername,
}

/// What a cache entry is filed under: the lookup, the session that asked
/// (so no answer leaks to another session) and the lookup's argument.
#[derive(Debug)]
pub struct CacheKey {
    pub kind: LookupKind,
    pub session_id: u128,
    pub arg: String,
}

pub type KeyView = (LookupKind, u128, Seq<char>);

/// A cached value and the second it was stored at.
pub type EntryView = (Seq<char>, u64);

impl View for CacheKey {
    type V = KeyView;

    open spec fn view(&self) -> KeyView {
        (self.kind, self.session_id, self.arg@)
    }
}

impl CacheKey {
    pub fn new(kind: LookupKind, session_id: u128, arg: &str) -> (r: CacheKey)
        ensures
            r@ == (kind, session_id, arg@),
    {
        CacheKey { kind, session_id, arg: arg.to_owned() }
    }

    /// The key under which the lookup `kind` of `arg` is cached for the
    /// session that asks. Only a session live at `now` (Unix seconds) may
    /// look up; with none, the lookup is `Unauthenticated`.
    pub fn for_session(kind: LookupKind, session: Option<&Session>, arg: &str, now: i64) -> (r: Result<CacheKey, ApiError>)
        ensures
            !live_session(session, now) ==> r.is_err() && r.unwrap_err() == ApiError::Unauthenticated,
            live_session(session, now) ==> r.is_ok() && r.unwrap()@ == (kind, session.unwrap().session_id, arg@),
    {
        match session {
            Some(s) if s.is_live(now) => Ok(CacheKey::new(kind, s.session_id, arg)),
            _ => Err(ApiError::Unauthenticated),
        }
    }

    pub fn same(&self, other: &CacheKey) -> (r: bool)
        ensures
            r == (self@ == other@),
    {
        self.kind == other.kind && self.session_id == other.session_id && self.arg == other.arg
    }

    pub fn duplicate(&self) -> (r: CacheKey)
        ensures
            r@ == self@,
    {
        CacheKey { kind: self.kind, session_id: self.session_id, arg: self.arg.clone() }
    }
}

#[derive(Debug)]
struct CacheEntry {
    key: CacheKey,
    value: String,
    inserted_at: u64,
}

impl CacheEntry {
    spec fn key_view(&self) -> KeyView {
        self.key@
    }

    spec fn entry_view(&self) -> EntryView {
        (self.value@, self.inserted_at)
    }

    fn duplicate(&self) -> (r: CacheEntry)
        ensures
            r.key_view() == self.key_view(),
            r.entry_view() == self.entry_view(),
    {
        CacheEntry {
            key: self.key.duplicate(),
            value: self.value.clone(),
            inserted_at: self.inserted_at,
        }
    }
}

/// An entry stored at `inserted_at` is still usable at `now` while less than
/// the TTL has passed (a clock that reads earlier counts as no time passed).
pub open spec fn fresh(inserted_at: u64, now: u64) -> bool {
    (now as int) < inserted_at as int + CACHE_TTL_SECS as int
}

/// The mapping with every entry that is no longer fresh at `now` removed.
pub open spec fn swept(m: Map<KeyView, EntryView>, now: u64) -> Map<KeyView, EntryView> {
    Map::new(|k: KeyView| m.contains_key(k) && fresh(m[k].1, now), |k: KeyView| m[k])
}

/// What a lookup of `k` at `now` answers, given the mapping before it.
pub open spec fn lookup(m: Map<KeyView, EntryView>, k: KeyView, now: u64) -> Option<Seq<char>> {
    if swept(m, now).contains_key(k) {
        Some(m[k].0)
    } else {
        None
    }
}


/// A value stored under a key is what a read of that key answers while the
/// TTL has not run out since the write; once it has run out, the read
/// misses and its sweep has dropped the entry.
pub proof fn lemma_put_then_get(
    m: Map<KeyView, EntryView>,
    k: KeyView,
    v: Seq<char>,
    put_at: u64,
    get_at: u64,
)
    ensures
        (get_at as int) < put_at as int + CACHE_TTL_SECS as int ==> lookup(
            m.insert(k, (v, put_at)),
            k,
            get_at,
        ) == Some(v),
        (get_at as int) >= put_at as int + CACHE_TTL_SECS as int ==> lookup(
            m.insert(k, (v, put_at)),
            k,
            get_at,
        ) == None::<Seq<char>> && !swept(m.insert(k, (v, put_at)), get_at).contains_key(k),
{
}

/// A response cache whose entries expire after `CACHE_TTL_SECS`; every read
/// first sweeps out all expired entries.
///
/// The entries sit in a `Vec` with no two under the same key, rather than in
/// a hash map: vstd gives `HashMap` a usable view only for keys such as
/// integers, not for a key made of a string and an enum like `CacheKey`, so
/// with a map the contracts below could not be proved. Every read sweeps all
/// entries anyway, so the linear search adds no cost of a new order.
#[derive(Debug)]
pub struct TtlCache {
    entries: Vec<CacheEntry>,
}

spec fn keys_unique(s: Seq<CacheEntry>) -> bool {
    forall|i: int, j: int|
        0 <= i < s.len() && 0 <= j < s.len() && #[trigger] s[i].key_view()
            == #[trigger] s[j].key_view() ==> i == j
}

spec fn holds_key(s: Seq<CacheEntry>, k: KeyView) -> bool {
    exists|i: int| 0 <= i < s.len() && #[trigger] s[i].key_view() == k
}

spec fn map_of(s: Seq<CacheEntry>) -> Map<KeyView, EntryView> {
    Map::new(
        |k: KeyView| holds_key(s, k),
        |k: KeyView|
            {
                let i = choose|i: int| 0 <= i < s.len() && #[trigger] s[i].key_view() == k;
                s[i].entry_view()
            },
    )
}

proof fn lemma_map_of_at(s: Seq<CacheEntry>, i: int)
    requires
        keys_unique(s),
        0 <= i < s.len(),
    ensures
        map_of(s).contains_key(s[i].key_view()),
        map_of(s)[s[i].key_view()] == s[i].entry_view(),
{
    assert(holds_key(s, s[i].key_view()));
}

impl View for TtlCache {
    type V = Map<KeyView, EntryView>;

    closed spec fn view(&self) -> Map<KeyView, EntryView> {
        map_of(self.entries@)
    }
}

impl TtlCache {
    pub closed spec fn wf(&self) -> bool {
        keys_unique(self.entries@)
    }

    pub fn new() -> (r: TtlCache)
        ensures
            r.wf(),
            r@ == Map::<KeyView, EntryView>::empty(),
    {
        let r = TtlCache { entries: Vec::new() };
        assert(r@ =~= Map::<KeyView, EntryView>::empty());
        r
    }

    fn find(&self, key: &CacheKey) -> (r: Option<usize>)
        requires
            self.wf(),
        ensures
            match r {
                Some(i) => i < self.entries@.len() && self.entries@[i as int].key_view() == key@,
                None => !holds_key(self.entries@, key@),
            },
    {
        let mut i: usize = 0;
        while i < self.entries.len()
            invariant
                0 <= i <= self.entries@.len(),
                forall|j: int| 0 <= j < i ==> #[trigger] self.entries@[j].key_view() != key@,
            decreases self.entries@.len() - i,
        {
            if self.entries[i].key.same(key) {
                return Some(i);
            }
            i = i + 1;
        }
        None
    }

    /// Removes every entry that is no longer fresh at `now`.
    pub fn sweep(&mut self, now: u64)
        requires
            old(self).wf(),
        ensures
            final(self).wf(),
            final(self)@ == swept(old(self)@, now),
    {
        let ghost old_s = self.entries@;
        let mut kept: Vec<CacheEntry> = Vec::new();
        let ghost mut src: Seq<int> = Seq::empty();
        let mut i: usize = 0;
        while i < self.entries.len()
            invariant
                old_s == self.entries@,
                keys_unique(old_s),
                0 <= i <= old_s.len(),
                src.len() == kept@.len(),
                forall|j: int| 0 <= j < src.len() ==> 0 <= #[trigger] src[j] < i,
                forall|j1: int, j2: int| 0 <= j1 < j2 < src.len() ==> src[j1] < src[j2],
                forall|j: int|
                    0 <= j < src.len() ==> (#[trigger] kept@[j]).key_view()
                        == old_s[src[j]].key_view() && kept@[j].entry_view()
                        == old_s[src[j]].entry_view() && fresh(kept@[j].inserted_at, now),
                forall|t: int|
                    0 <= t < i && fresh(#[trigger] old_s[t].inserted_at, now) ==> exists|j: int|
                        0 <= j < src.len() && src[j] == t,
            decreases old_s.len() - i,
        {
            let e = &self.entries[i];
            if now < e.inserted_at || now - e.inserted_at < CACHE_TTL_SECS {
                let d = e.duplicate();
                kept.push(d);
                proof {
                    let ghost prev = src;
                    src = src.push(i as int);
                    assert(kept@[kept@.len() - 1].key_view() == old_s[i as int].key_view());
                    assert forall|t: int|
                        0 <= t < i + 1 && fresh(#[trigger] old_s[t].inserted_at, now) implies exists|j: int|
                            0 <= j < src.len() && src[j] == t by {
                        if t == i {
                            assert(src[src.len() - 1] == t);
                        } else {
                            let j = choose|j: int| 0 <= j < prev.len() && prev[j] == t;
                            assert(src[j] == t);
                        }
                    }
                }
            }
            i = i + 1;
        }
        proof {
            let ks = kept@;
            assert forall|a: int, b: int|
                0 <= a < ks.len() && 0 <= b < ks.len() && #[trigger] ks[a].key_view()
                    == #[trigger] ks[b].key_view() implies a == b by {
                assert(old_s[src[a]].key_view() == old_s[src[b]].key_view());
                if a < b {
                    assert(src[a] < src[b]);
                } else if b < a {
                    assert(src[b] < src[a]);
                }
            }
            let m_old = map_of(old_s);
            let m_new = map_of(ks);
            assert forall|k: KeyView| #[trigger] m_new.contains_key(k) == swept(m_old, now).contains_key(k)
                && (m_new.contains_key(k) ==> m_new[k] == swept(m_old, now)[k]) by {
                if m_new.contains_key(k) {
                    let j = choose|j: int| 0 <= j < ks.len() && #[trigger] ks[j].key_view() == k;
                    lemma_map_of_at(ks, j);
                    lemma_map_of_at(old_s, src[j]);
                }
                if swept(m_old, now).contains_key(k) {
                    let t = choose|t: int| 0 <= t < old_s.len() && #[trigger] old_s[t].key_view() == k;
                    lemma_map_of_at(old_s, t);
                    let j = choose|j: int| 0 <= j < src.len() && src[j] == t;
                    assert(ks[j].key_view() == k);
                    lemma_map_of_at(ks, j);
                }
            }
            assert(m_new =~= swept(m_old, now));
        }
        self.entries = kept;
    }

    /// Sweeps, then answers the fresh value stored under `key`, if any.
    pub fn get(&mut self, key: &CacheKey, now: u64) -> (r: Option<String>)
        requires
            old(self).wf(),
        ensures
            final(self).wf(),
            final(self)@ == swept(old(self)@, now),
            r.is_some() == lookup(old(self)@, key@, now).is_some(),
            r.is_some() ==> r.unwrap()@ == lookup(old(self)@, key@, now).unwrap(),
    {
        self.sweep(now);
        match self.find(key) {
            Some(i) => {
                proof {
                    lemma_map_of_at(self.entries@, i as int);
                }
                Some(self.entries[i].value.clone())
            },
            None => None,
        }
    }

    /// Stores `value` under `key` as of `now`, replacing what was there.
    pub fn put(&mut self, key: CacheKey, value: String, now: u64)
        requires
            old(self).wf(),
        ensures
            final(self).wf(),
            final(self)@ == old(self)@.insert(key@, (value@, now)),
    {
        let ghost old_s = self.entries@;
        let ghost kv = key@;
        let ghost ev = (value@, now);
        let e = CacheEntry { key, value, inserted_at: now };
        match self.find(&e.key) {
            Some(i) => {
                self.entries.set(i, e);
                proof {
                    let s = self.entries@;
                    assert forall|a: int, b: int|
                        0 <= a < s.len() && 0 <= b < s.len() && #[trigger] s[a].key_view()
                            == #[trigger] s[b].key_view() implies a == b by {
                        if a != i && b != i {
                            assert(old_s[a].key_view() == old_s[b].key_view());
                        } else if a != i {
                            assert(old_s[a].key_view() == old_s[i as int].key_view());
                        } else if b != i {
                            assert(old_s[b].key_view() == old_s[i as int].key_view());
                        }
                    }
                    self.lemma_view_after_write(old_s, i as int, kv, ev);
                }
            },
            None => {
                self.entries.push(e);
                proof {
                    let s = self.entries@;
                    assert forall|a: int, b: int|
                        0 <= a < s.len() && 0 <= b < s.len() && #[trigger] s[a].key_view()
                            == #[trigger] s[b].key_view() implies a == b by {
                        if a < old_s.len() && b < old_s.len() {
                            assert(old_s[a].key_view() == old_s[b].key_view());
                        } else if a < old_s.len() {
                            assert(old_s[a].key_view() == kv);
                        } else if b < old_s.len() {
                            assert(old_s[b].key_view() == kv);
                        }
                    }
                    self.lemma_view_after_write(old_s, old_s.len() as int, kv, ev);
                }
            },
        }
    }

    proof fn lemma_view_after_write(&self, old_s: Seq<CacheEntry>, i: int, kv: KeyView, ev: EntryView)
        requires
            keys_unique(old_s),
            keys_unique(self.entries@),
            0 <= i < self.entries@.len(),
            i <= old_s.len(),
            self.entries@[i].key_view() == kv,
            self.entries@[i].entry_view() == ev,
            i == old_s.len() ==> self.entries@.len() == old_s.len() + 1,
            i < old_s.len() ==> self.entries@.len() == old_s.len() && old_s[i].key_view() == kv,
            forall|j: int| 0 <= j < old_s.len() && j != i ==> #[trigger] self.entries@[j] == old_s[j],
        ensures
            self@ == map_of(old_s).insert(kv, ev),
    {
        let s = self.entries@;
        let m = map_of(old_s).insert(kv, ev);
        lemma_map_of_at(s, i);
        assert(s.len() == old_s.len() || s.len() == old_s.len() + 1);
        assert forall|k: KeyView| #[trigger] self@.contains_key(k) == m.contains_key(k)
            && (self@.contains_key(k) ==> self@[k] == m[k]) by {
            if k != kv {
                if self@.contains_key(k) {
                    let j = choose|j: int| 0 <= j < s.len() && #[trigger] s[j].key_view() == k;
                    assert(j != i);
                    assert(j < old_s.len());
                    assert(s[j] == old_s[j]);
                    lemma_map_of_at(s, j);
                    lemma_map_of_at(old_s, j);
                }
                if map_of(old_s).contains_key(k) {
                    let j = choose|j: int| 0 <= j < old_s.len() && #[trigger] old_s[j].key_view() == k;
                    lemma_map_of_at(old_s, j);
                    assert(j != i);
                    assert(s[j] == old_s[j]);
                    lemma_map_of_at(s, j);
                }
            }
        }
        assert(self@ =~= m);
    }
}

/// What a lookup endpoint does after consulting the cache.
#[derive(Debug)]
pub enum LookupStep {
    /// A fresh answer was cached: serve it.
    Hit { payload: String },
    /// Nothing fresh: ask upstream, then store the answer under `key`.
    Fetch { key: CacheKey },
}

/// A session is given and is live at `now`.
pub open spec fn live_session(session: Option<&Session>, now: i64) -> bool {
    session.is_some() && session.unwrap().live(now)
}

/// Consults the cache, at cache time `now`, for the lookup `kind` of `arg` on
/// behalf of the session that asks, whose liveness is judged at the Unix
/// time `unix_time`. Without a live session the lookup is `Unauthenticated`
/// and the cache is not touched; otherwise the cache is swept and either its
/// fresh answer or the key to fetch and store under comes back.
pub fn begin_lookup(
    cache: &mut TtlCache,
    kind: LookupKind,
    session: Option<&Session>,
    arg: &str,
    now: u64,
    unix_time: i64,
) -> (r: Result<LookupStep, ApiError>)
    requires
        old(cache).wf(),
    ensures
        final(cache).wf(),
        !live_session(session, unix_time) ==> r.is_err() && r.unwrap_err() == ApiError::Unauthenticated
            && final(cache)@ == old(cache)@,
        live_session(session, unix_time) ==> ({
            let k = (kind, session.unwrap().session_id, arg@);
            &&& final(cache)@ == swept(old(cache)@, now)
            &&& r.is_ok()
            &&& match lookup(old(cache)@, k, now) {
                Some(v) => r.unwrap() matches LookupStep::Hit { payload } && payload@ == v,
                None => r.unwrap() matches LookupStep::Fetch { key } && key@ == k,
            }
        }),
{
    let key = match CacheKey::for_session(kind, session, arg, unix_time) {
        Ok(k) => k,
        Err(e) => return Err(e),
    };
    match cache.get(&key, now) {
        Some(payload) => Ok(LookupStep::Hit { payload }),
        None => Ok(LookupStep::Fetch { key }),
    }
}

} // verus!
