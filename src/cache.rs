use std::hash::BuildHasher;
use std::hash::Hash;
use std::time::Duration;
use ttl_cache::TtlCache;
use vstd::prelude::*;

verus! {

/// Tag of a zone identifier in the cache.
pub const ZONE: u8 = 1;

/// Tag of a record identifier in the cache.
pub const RECORD: u8 = 2;

/// The longest time to live accepted, in seconds (about a century). A
/// longer one could overflow the clock arithmetic of the underlying cache.
pub const MAX_TTL_SECS: u64 = 3_155_760_000;

#[verifier::external_type_specification]
#[verifier::external_body]
#[verifier::reject_recursive_types(K)]
#[verifier::reject_recursive_types(V)]
#[verifier::reject_recursive_types(S)]
pub struct ExTtlCache<K: Eq + Hash, V, S: BuildHasher>(TtlCache<K, V, S>);

/// What a time-to-live cache stores, expired entries included: an entry
/// stays here until it is overwritten or pushed out, while a lookup skips it
/// once its time is up.
pub uninterp spec fn stored(c: TtlCache<(u8, String), String>) -> Map<(u8, Seq<char>), Seq<char>>;

/// The number of entries the cache was created to hold.
pub uninterp spec fn capacity_of(c: TtlCache<(u8, String), String>) -> nat;

/// Relies on `TtlCache::new`: an empty cache that holds at most `capacity`
/// entries.
#[verifier::external_body]
fn ttl_new(capacity: usize) -> (r: TtlCache<(u8, String), String>)
    ensures
        stored(r).dom().is_empty(),
        capacity_of(r) == capacity as nat,
{
    TtlCache::new(capacity)
}

/// Relies on `TtlCache::get`: a value comes back only from an entry stored
/// under the key (and only while that entry has not expired).
#[verifier::external_body]
fn ttl_get(c: &TtlCache<(u8, String), String>, key: &(u8, String)) -> (r: Option<String>)
    ensures
        r matches Some(v) ==> stored(*c).contains_key((key.0, key.1@)) && stored(*c)[(
            key.0,
            key.1@,
        )] == v@,
{
    c.get(key).cloned()
}

/// Relies on `TtlCache::insert`: the entry is stored under the key,
/// replacing an older one; where the cache then holds more than its
/// capacity, its oldest entry is dropped (the new one is the newest), and
/// expired entries may go too. The deadline `Instant::now() + ttl` must not
/// overflow, hence the bound on `secs`.
#[verifier::external_body]
fn ttl_insert(c: &mut TtlCache<(u8, String), String>, key: (u8, String), value: String, secs: u64)
    requires
        secs <= MAX_TTL_SECS,
    ensures
        capacity_of(*final(c)) == capacity_of(*old(c)),
        stored(*final(c)).submap_of(stored(*old(c)).insert((key.0, key.1@), value@)),
        capacity_of(*old(c)) >= 1 ==> stored(*final(c)).contains_key((key.0, key.1@))
            && stored(*final(c))[(key.0, key.1@)] == value@,
{
    c.insert(key, value, Duration::from_secs(secs));
}

} // verus!

verus! {

/// What a provider identifier names.
#[derive(Clone, Copy, Debug, PartialEq, Eq, Structural)]
pub enum EntityKind {
    Zone,
    Record,
}

/// The tag under which identifiers of this kind are cached.
pub open spec fn kind_tag(kind: EntityKind) -> u8 {
    match kind {
        EntityKind::Zone => ZONE,
        EntityKind::Record => RECORD,
    }
}

/// The cache key of a name of the given kind.
pub open spec fn key_of(kind: EntityKind, name: Seq<char>) -> (u8, Seq<char>) {
    (kind_tag(kind), name)
}

/// The text of an optional string.
pub open spec fn text_of(r: Option<String>) -> Option<Seq<char>> {
    match r {
        Some(v) => Some(v@),
        None => None,
    }
}

/// What a lookup may answer from the stored entries `m`: nothing, or the
/// value stored under the key (an entry past its time gives nothing).
pub open spec fn lookup_allows(
    m: Map<(u8, Seq<char>), Seq<char>>,
    key: (u8, Seq<char>),
    r: Option<Seq<char>>,
) -> bool {
    r matches Some(v) ==> m.contains_key(key) && m[key] == v
}

/// How a store changes the entries: with a time to live of zero nothing is
/// stored; otherwise the entry is written and no other key appears, while
/// older entries may be dropped to keep within the capacity.
pub open spec fn store_effect(
    before: Map<(u8, Seq<char>), Seq<char>>,
    after: Map<(u8, Seq<char>), Seq<char>>,
    key: (u8, Seq<char>),
    id: Seq<char>,
    ttl: nat,
    capacity: nat,
) -> bool {
    if ttl == 0 {
        after == before
    } else {
        &&& after.submap_of(before.insert(key, id))
        &&& capacity >= 1 ==> after.contains_key(key) && after[key] == id
    }
}

/// Time-bounded store of provider identifiers, keyed by kind and name.
pub struct IdentifierCache {
    store: TtlCache<(u8, String), String>,
}

impl View for IdentifierCache {
    type V = Map<(u8, Seq<char>), Seq<char>>;

    closed spec fn view(&self) -> Self::V {
        stored(self.store)
    }
}

impl IdentifierCache {
    /// How many entries the cache holds at most.
    pub closed spec fn capacity(&self) -> nat {
        capacity_of(self.store)
    }

    fn tag(kind: EntityKind) -> (r: u8)
        ensures
            r == kind_tag(kind),
    {
        match kind {
            EntityKind::Zone => ZONE,
            EntityKind::Record => RECORD,
        }
    }

    /// An empty cache for at most `capacity` identifiers.
    pub fn new(capacity: usize) -> (r: IdentifierCache)
        ensures
            r@.dom().is_empty(),
            r.capacity() == capacity as nat,
    {
        IdentifierCache { store: ttl_new(capacity) }
    }

    /// The identifier cached for `name`, unless it is absent or expired.
    pub fn get(&self, kind: EntityKind, name: &str) -> (r: Option<String>)
        ensures
            lookup_allows(self@, key_of(kind, name@), text_of(r)),
    {
        let key = (Self::tag(kind), String::from_str(name));
        ttl_get(&self.store, &key)
    }

    /// Caches `id` for `name` for `ttl_secs` seconds; zero disables caching,
    /// so nothing is stored.
    pub fn set(&mut self, kind: EntityKind, name: &str, id: &str, ttl_secs: u64)
        requires
            ttl_secs <= MAX_TTL_SECS,
        ensures
            final(self).capacity() == old(self).capacity(),
            store_effect(
                old(self)@,
                final(self)@,
                key_of(kind, name@),
                id@,
                ttl_secs as nat,
                old(self).capacity(),
            ),
    {
        if ttl_secs > 0 {
            let key = (Self::tag(kind), String::from_str(name));
            ttl_insert(&mut self.store, key, String::from_str(id), ttl_secs);
        }
    }
}

/// A lookup made right after an identifier was stored with a positive time
/// to live answers that identifier or nothing (nothing once its time is up),
/// never another value; and where the cache has room for an entry, the
/// identifier is stored.
pub proof fn lemma_get_after_set(
    before: Map<(u8, Seq<char>), Seq<char>>,
    after: Map<(u8, Seq<char>), Seq<char>>,
    kind: EntityKind,
    name: Seq<char>,
    id: Seq<char>,
    ttl: nat,
    capacity: nat,
    r: Option<Seq<char>>,
)
    requires
        ttl > 0,
        store_effect(before, after, key_of(kind, name), id, ttl, capacity),
        lookup_allows(after, key_of(kind, name), r),
    ensures
        r matches Some(v) ==> v == id,
        capacity >= 1 ==> after.contains_key(key_of(kind, name)) && after[key_of(kind, name)] == id,
{
    let k = key_of(kind, name);
    let m = before.insert(k, id);
    if let Some(v) = r {
        assert(after.dom().contains(k));
        assert(m.dom().contains(k));
        assert(after[k] == m[k]);
    }
}

/// With caching disabled (time to live zero) a store leaves the cache as it
/// was, so a name never stored before is still a miss.
pub proof fn lemma_disabled_never_caches(
    before: Map<(u8, Seq<char>), Seq<char>>,
    after: Map<(u8, Seq<char>), Seq<char>>,
    kind: EntityKind,
    name: Seq<char>,
    id: Seq<char>,
    capacity: nat,
    r: Option<Seq<char>>,
)
    requires
        store_effect(before, after, key_of(kind, name), id, 0, capacity),
        !before.contains_key(key_of(kind, name)),
        lookup_allows(after, key_of(kind, name), r),
    ensures
        r is None,
{
}

} // verus!
