use vstd::prelude::*;

verus! {

/// One stored entry, as the contracts see it.
pub struct EntryView {
    pub key: Seq<char>,
    pub value: Seq<u8>,
    pub expires_at: u64,
}

/// One stored entry: its key, its serialized value and the instant from which it is stale.
pub struct CacheEntry {
    pub key: String,
    pub value: Vec<u8>,
    pub expires_at: u64,
}

impl View for CacheEntry {
    type V = EntryView;

    open spec fn view(&self) -> EntryView {
        EntryView { key: self.key@, value: self.value@, expires_at: self.expires_at }
    }
}

/// No two entries share a key.
pub open spec fn keys_unique(s: Seq<EntryView>) -> bool {
    forall|i: int, j: int| 0 <= i < s.len() && 0 <= j < s.len() && s[i].key == s[j].key ==> i == j
}

pub open spec fn has_key(s: Seq<EntryView>, k: Seq<char>) -> bool {
    exists|i: int| 0 <= i < s.len() && s[i].key == k
}

/// The position of the entry under `k`; meaningful when `has_key(s, k)`.
pub open spec fn key_index(s: Seq<EntryView>, k: Seq<char>) -> int {
    choose|i: int| 0 <= i < s.len() && s[i].key == k
}

/// An entry is live strictly before its expiry instant.
pub open spec fn is_live(e: EntryView, now: u64) -> bool {
    now < e.expires_at
}

/// What a read of `k` at `now` reports: the value of a live entry, or a miss.
pub open spec fn read_result(s: Seq<EntryView>, k: Seq<char>, now: u64) -> Option<Seq<u8>> {
    if has_key(s, k) && is_live(s[key_index(s, k)], now) {
        Some(s[key_index(s, k)].value)
    } else {
        None
    }
}

/// The entries after a read of `k` at `now`: a hit becomes the most recently used entry,
/// an expired entry is dropped.
pub open spec fn after_read(s: Seq<EntryView>, k: Seq<char>, now: u64) -> Seq<EntryView> {
    if has_key(s, k) {
        let i = key_index(s, k);
        if is_live(s[i], now) {
            s.remove(i).push(s[i])
        } else {
            s.remove(i)
        }
    } else {
        s
    }
}

/// The entries after `k` is removed.
pub open spec fn after_delete(s: Seq<EntryView>, k: Seq<char>) -> Seq<EntryView> {
    if has_key(s, k) {
        s.remove(key_index(s, k))
    } else {
        s
    }
}

/// The instant at which an entry written at `now` with lifetime `ttl` goes stale
/// (the clock's last instant where the sum does not fit).
pub open spec fn expiry(now: u64, ttl: u64) -> u64 {
    if now + ttl <= u64::MAX {
        (now + ttl) as u64
    } else {
        u64::MAX
    }
}

/// The entries after `k` is written: any previous entry under `k` goes, the least recently
/// used entry is evicted when the cache is full, and the new entry is the most recent.
pub open spec fn after_write(
    s: Seq<EntryView>,
    capacity: nat,
    k: Seq<char>,
    v: Seq<u8>,
    expires_at: u64,
) -> Seq<EntryView> {
    let rest = after_delete(s, k);
    let kept = if rest.len() >= capacity {
        rest.subrange(1, rest.len() as int)
    } else {
        rest
    };
    kept.push(EntryView { key: k, value: v, expires_at })
}

/// Entries an in-process cache holds unless configured otherwise.
pub const DEFAULT_CAPACITY: usize = 10_000;

/// Entry lifetime, in seconds, unless configured otherwise.
pub const DEFAULT_TTL_SECS: u64 = 300;

/// The in-process backend: a bounded cache whose entries are kept from least to most
/// recently used, each with its own expiry instant. Time is passed in by the caller.
pub struct MemoryCache {
    entries: Vec<CacheEntry>,
    capacity: usize,
    default_ttl: u64,
}

impl View for MemoryCache {
    type V = Seq<EntryView>;

    closed spec fn view(&self) -> Seq<EntryView> {
        self.entries@.map_values(|e: CacheEntry| e@)
    }
}

proof fn lemma_remove_keeps_unique(s: Seq<EntryView>, i: int)
    requires
        keys_unique(s),
        0 <= i < s.len(),
    ensures
        keys_unique(s.remove(i)),
        !has_key(s.remove(i), s[i].key),
{
    let t = s.remove(i);
    assert forall|a: int, b: int|
        0 <= a < t.len() && 0 <= b < t.len() && t[a].key == t[b].key implies a == b by {
        let a2 = if a < i { a } else { a + 1 };
        let b2 = if b < i { b } else { b + 1 };
        assert(t[a] == s[a2] && t[b] == s[b2]);
    }
    if has_key(t, s[i].key) {
        let a = choose|a: int| 0 <= a < t.len() && t[a].key == s[i].key;
        let a2 = if a < i { a } else { a + 1 };
        assert(t[a] == s[a2]);
    }
}

proof fn lemma_drop_oldest_keeps_unique(s: Seq<EntryView>, k: Seq<char>)
    requires
        keys_unique(s),
        s.len() > 0,
        !has_key(s, k),
    ensures
        keys_unique(s.subrange(1, s.len() as int)),
        !has_key(s.subrange(1, s.len() as int), k),
{
    let t = s.subrange(1, s.len() as int);
    assert forall|a: int, b: int|
        0 <= a < t.len() && 0 <= b < t.len() && t[a].key == t[b].key implies a == b by {
        assert(t[a] == s[a + 1] && t[b] == s[b + 1]);
    }
    if has_key(t, k) {
        let a = choose|a: int| 0 <= a < t.len() && t[a].key == k;
        assert(t[a] == s[a + 1]);
    }
}

proof fn lemma_push_keeps_unique(s: Seq<EntryView>, e: EntryView)
    requires
        keys_unique(s),
        !has_key(s, e.key),
    ensures
        keys_unique(s.push(e)),
{
    let t = s.push(e);
    assert forall|a: int, b: int|
        0 <= a < t.len() && 0 <= b < t.len() && t[a].key == t[b].key implies a == b by {
        if a < s.len() && b == s.len() {
            assert(t[a] == s[a]);
        }
        if b < s.len() && a == s.len() {
            assert(t[b] == s[b]);
        }
        if a < s.len() && b < s.len() {
            assert(t[a] == s[a] && t[b] == s[b]);
        }
    }
}

/// Writing `k` leaves the keys unique, with `k` in the most recent position.
proof fn lemma_write_puts_last(s: Seq<EntryView>, capacity: nat, k: Seq<char>, v: Seq<u8>, exp: u64)
    requires
        keys_unique(s),
        capacity > 0,
    ensures
        keys_unique(after_write(s, capacity, k, v, exp)),
        has_key(after_write(s, capacity, k, v, exp), k),
        key_index(after_write(s, capacity, k, v, exp), k) == after_write(s, capacity, k, v, exp).len()
            - 1,
        after_write(s, capacity, k, v, exp).last() == (EntryView { key: k, value: v, expires_at: exp }),
{
    let rest = after_delete(s, k);
    if has_key(s, k) {
        lemma_remove_keeps_unique(s, key_index(s, k));
    }
    let kept = if rest.len() >= capacity {
        lemma_drop_oldest_keeps_unique(rest, k);
        rest.subrange(1, rest.len() as int)
    } else {
        rest
    };
    let t = after_write(s, capacity, k, v, exp);
    let e = EntryView { key: k, value: v, expires_at: exp };
    assert(t == kept.push(e));
    lemma_push_keeps_unique(kept, e);
    assert(t[t.len() - 1].key == k);
    let i = key_index(t, k);
    assert(t[i].key == t[t.len() - 1].key);
}

/// In either backend's place, the in-process cache hands back what was last written under a
/// key for as long as the entry lives.
pub proof fn law_read_after_write(
    s: Seq<EntryView>,
    capacity: nat,
    k: Seq<char>,
    v: Seq<u8>,
    ttl: u64,
    written_at: u64,
    now: u64,
)
    requires
        keys_unique(s),
        capacity > 0,
        now < expiry(written_at, ttl),
    ensures
        read_result(after_write(s, capacity, k, v, expiry(written_at, ttl)), k, now) == Some(v),
{
    lemma_write_puts_last(s, capacity, k, v, expiry(written_at, ttl));
}

/// An entry written with lifetime `ttl` is no longer a hit once `ttl` has elapsed.
pub proof fn law_expired_entry_misses(
    s: Seq<EntryView>,
    capacity: nat,
    k: Seq<char>,
    v: Seq<u8>,
    ttl: u64,
    written_at: u64,
    now: u64,
)
    requires
        keys_unique(s),
        capacity > 0,
        written_at + ttl <= now,
    ensures
        read_result(after_write(s, capacity, k, v, expiry(written_at, ttl)), k, now)
            == None::<Seq<u8>>,
        after_read(after_write(s, capacity, k, v, expiry(written_at, ttl)), k, now)
            == after_delete(after_write(s, capacity, k, v, expiry(written_at, ttl)), k),
{
    lemma_write_puts_last(s, capacity, k, v, expiry(written_at, ttl));
}

/// After a key is deleted, a read of it misses, whenever it comes.
pub proof fn law_read_after_delete(s: Seq<EntryView>, k: Seq<char>, now: u64)
    requires
        keys_unique(s),
    ensures
        read_result(after_delete(s, k), k, now) == None::<Seq<u8>>,
{
    if has_key(s, k) {
        lemma_remove_keeps_unique(s, key_index(s, k));
    }
}

/// Copies a byte string.
fn copy_bytes(v: &Vec<u8>) -> (r: Vec<u8>)
    ensures
        r@ == v@,
{
    let mut out: Vec<u8> = Vec::new();
    let mut i: usize = 0;
    while i < v.len()
        invariant
            i <= v@.len(),
            out@ == v@.subrange(0, i as int),
        decreases v@.len() - i,
    {
        out.push(v[i]);
        i = i + 1;
        assert(out@ =~= v@.subrange(0, i as int));
    }
    assert(out@ =~= v@);
    out
}

impl MemoryCache {
    /// Largest number of entries held at once.
    pub closed spec fn spec_capacity(&self) -> nat {
        self.capacity as nat
    }

    /// Lifetime given to entries written without their own.
    pub closed spec fn spec_default_ttl(&self) -> u64 {
        self.default_ttl
    }

    pub closed spec fn wf(&self) -> bool {
        &&& self.capacity > 0
        &&& self.entries@.len() <= self.capacity
        &&& keys_unique(self@)
    }

    /// A well-formed cache has unique keys and room for at least one entry.
    pub proof fn lemma_wf_view(&self)
        requires
            self.wf(),
        ensures
            keys_unique(self@),
            self.spec_capacity() > 0,
            self@.len() <= self.spec_capacity(),
    {
    }

    /// An empty cache holding at most `capacity` entries, whose entries live `default_ttl`
    /// time units unless written with another lifetime.
    pub fn new(capacity: usize, default_ttl: u64) -> (r: MemoryCache)
        requires
            capacity > 0,
        ensures
            r.wf(),
            r@ == Seq::<EntryView>::empty(),
            r.spec_capacity() == capacity,
            r.spec_default_ttl() == default_ttl,
    {
        let r = MemoryCache { entries: Vec::new(), capacity, default_ttl };
        assert(r@ =~= Seq::<EntryView>::empty());
        r
    }

    /// An empty cache with the default capacity and lifetime.
    pub fn with_defaults() -> (r: MemoryCache)
        ensures
            r.wf(),
            r@ == Seq::<EntryView>::empty(),
            r.spec_capacity() == DEFAULT_CAPACITY,
            r.spec_default_ttl() == DEFAULT_TTL_SECS,
    {
        MemoryCache::new(DEFAULT_CAPACITY, DEFAULT_TTL_SECS)
    }

    pub fn capacity(&self) -> (r: usize)
        ensures
            r == self.spec_capacity(),
    {
        self.capacity
    }

    pub fn default_ttl(&self) -> (r: u64)
        ensures
            r == self.spec_default_ttl(),
    {
        self.default_ttl
    }

    /// Number of entries held, stale ones included.
    pub fn len(&self) -> (r: usize)
        ensures
            r == self@.len(),
    {
        self.entries.len()
    }

    /// Finds the entry under `key`.
    fn find(&self, key: &String) -> (r: Option<usize>)
        requires
            self.wf(),
        ensures
            match r {
                Some(i) => has_key(self@, key@) && i == key_index(self@, key@),
                None => !has_key(self@, key@),
            },
    {
        let mut i: usize = 0;
        while i < self.entries.len()
            invariant
                self.wf(),
                i <= self.entries@.len(),
                self@.len() == self.entries@.len(),
                forall|j: int| 0 <= j < i ==> self@[j].key != key@,
            decreases self.entries@.len() - i,
        {
            assert(self@[i as int] == self.entries@[i as int]@);
            if self.entries[i].key == *key {
                assert(self@[i as int].key == key@);
                assert(has_key(self@, key@));
                let ghost c = key_index(self@, key@);
                assert(self@[c].key == self@[i as int].key);
                return Some(i);
            }
            i = i + 1;
        }
        None
    }
    /// Removes the entry under `key`, if any. Removing an absent key is no error.
    pub fn delete(&mut self, key: &String)
        requires
            old(self).wf(),
        ensures
            final(self).wf(),
            final(self)@ == after_delete(old(self)@, key@),
            final(self).spec_capacity() == old(self).spec_capacity(),
            final(self).spec_default_ttl() == old(self).spec_default_ttl(),
    {
        match self.find(key) {
            Some(i) => {
                let ghost s = self@;
                self.entries.remove(i);
                assert(self@ =~= s.remove(i as int));
                proof {
                    lemma_remove_keeps_unique(s, i as int);
                }
            },
            None => {},
        }
    }

    /// Reads the value under `key` at instant `now`. A live entry is returned and becomes
    /// the most recently used; an expired one is dropped and reported as a miss.
    pub fn read(&mut self, key: &String, now: u64) -> (r: Option<Vec<u8>>)
        requires
            old(self).wf(),
        ensures
            final(self).wf(),
            match r {
                Some(v) => read_result(old(self)@, key@, now) == Some(v@),
                None => read_result(old(self)@, key@, now) == None::<Seq<u8>>,
            },
            final(self)@ == after_read(old(self)@, key@, now),
            final(self).spec_capacity() == old(self).spec_capacity(),
            final(self).spec_default_ttl() == old(self).spec_default_ttl(),
    {
        match self.find(key) {
            None => None,
            Some(i) => {
                let ghost s = self@;
                assert(s[i as int] == self.entries@[i as int]@);
                let e = self.entries.remove(i);
                assert(self@ =~= s.remove(i as int));
                proof {
                    lemma_remove_keeps_unique(s, i as int);
                }
                if now < e.expires_at {
                    let v = copy_bytes(&e.value);
                    self.entries.push(e);
                    assert(self@ =~= s.remove(i as int).push(s[i as int]));
                    proof {
                        lemma_push_keeps_unique(s.remove(i as int), s[i as int]);
                    }
                    Some(v)
                } else {
                    None
                }
            },
        }
    }

    /// Stores `value` under `key` at instant `now`, live for `ttl` time units. An earlier
    /// entry under `key` is replaced; when the cache is full the least recently used entry
    /// is evicted first.
    pub fn write(&mut self, key: String, value: Vec<u8>, ttl: u64, now: u64)
        requires
            old(self).wf(),
        ensures
            final(self).wf(),
            final(self)@ == after_write(
                old(self)@,
                old(self).spec_capacity(),
                key@,
                value@,
                expiry(now, ttl),
            ),
            final(self).spec_capacity() == old(self).spec_capacity(),
            final(self).spec_default_ttl() == old(self).spec_default_ttl(),
    {
        let ghost s0 = self@;
        let ghost k = key@;
        self.delete(&key);
        let ghost s1 = self@;
        assert(!has_key(s1, k)) by {
            if has_key(s0, k) {
                lemma_remove_keeps_unique(s0, key_index(s0, k));
            }
        }
        if self.entries.len() >= self.capacity {
            self.entries.remove(0);
            assert(self@ =~= s1.subrange(1, s1.len() as int));
            proof {
                lemma_drop_oldest_keeps_unique(s1, k);
            }
        }
        let ghost s2 = self@;
        let expires_at: u64 = if ttl <= u64::MAX - now {
            now + ttl
        } else {
            u64::MAX
        };
        let entry = CacheEntry { key, value, expires_at };
        proof {
            lemma_push_keeps_unique(s2, entry@);
        }
        self.entries.push(entry);
        assert(self@ =~= s2.push(entry@));
    }
}

} // verus!
