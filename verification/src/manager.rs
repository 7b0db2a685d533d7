use vstd::prelude::*;

use vstd::set_lib::lemma_len_subset;
use vstd::wrapping::u64_specs;

verus! {

/// An identifier handed out by the [`StringManager`] for one interned body.
pub type StringID = u64;

#[verifier::external_type_specification]
#[verifier::external_body]
#[verifier::reject_recursive_types(K)]
#[verifier::reject_recursive_types(V)]
#[verifier::reject_recursive_types(S)]
pub struct ExDashMap<K, V, S>(dashmap::DashMap<K, V, S>);

#[verifier::external_type_specification]
#[verifier::external_body]
pub struct ExRandomState(ahash::RandomState);

/// The entries a key-to-body map holds, as pairs of key and text.
pub uninterp spec fn cache_entries(
    m: dashmap::DashMap<u64, String, ahash::RandomState>,
) -> Map<u64, Seq<char>>;

/// The entries a body-to-key map holds, as pairs of text and key.
pub uninterp spec fn index_entries(
    m: dashmap::DashMap<String, u64, ahash::RandomState>,
) -> Map<Seq<char>, u64>;

/// Relies on `DashMap::with_hasher` and `ahash::RandomState::default`: a
/// freshly built map holds no entry.
#[verifier::external_body]
fn new_cache() -> (m: dashmap::DashMap<u64, String, ahash::RandomState>)
    ensures
        cache_entries(m).dom() == Set::<u64>::empty(),
{
    dashmap::DashMap::with_hasher(ahash::RandomState::default())
}

/// Relies on `DashMap::with_hasher` and `ahash::RandomState::default`: a
/// freshly built map holds no entry.
#[verifier::external_body]
fn new_index() -> (m: dashmap::DashMap<String, u64, ahash::RandomState>)
    ensures
        index_entries(m).dom() == Set::<Seq<char>>::empty(),
{
    dashmap::DashMap::with_hasher(ahash::RandomState::default())
}

/// Relies on `DashMap::get`: returns a copy of the value stored under an
/// equal key, and nothing when no such entry exists.
#[verifier::external_body]
fn cache_get(m: &dashmap::DashMap<u64, String, ahash::RandomState>, key: u64) -> (r: Option<
    String,
>)
    ensures
        r matches Some(body) ==> cache_entries(*m).contains_pair(key, body@),
        r is None ==> !cache_entries(*m).dom().contains(key),
{
    match m.get(&key) {
        Some(entry) => Some(entry.value().clone()),
        None => None,
    }
}

/// Relies on `DashMap::contains_key`.
#[verifier::external_body]
fn cache_has(m: &dashmap::DashMap<u64, String, ahash::RandomState>, key: u64) -> (r: bool)
    ensures
        r == cache_entries(*m).dom().contains(key),
{
    m.contains_key(&key)
}

/// Relies on `DashMap::len`: the number of entries the map holds.
#[verifier::external_body]
fn cache_count(m: &dashmap::DashMap<u64, String, ahash::RandomState>) -> (n: usize)
    ensures
        n == cache_entries(*m).dom().len(),
{
    m.len()
}

/// Relies on `DashMap::insert`: afterwards the map holds `body` under `key`
/// and every entry under another key is kept.
#[verifier::external_body]
fn cache_put(m: &mut dashmap::DashMap<u64, String, ahash::RandomState>, key: u64, body: String)
    ensures
        cache_entries(*final(m)) == cache_entries(*old(m)).insert(key, body@),
{
    m.insert(key, body);
}

/// Relies on `DashMap::get` with a borrowed key: returns the value stored
/// under a key equal to `body`, and nothing when no such entry exists.
#[verifier::external_body]
fn index_get(m: &dashmap::DashMap<String, u64, ahash::RandomState>, body: &str) -> (r: Option<
    u64,
>)
    ensures
        r matches Some(key) ==> index_entries(*m).contains_pair(body@, key),
        r is None ==> !index_entries(*m).dom().contains(body@),
{
    match m.get(body) {
        Some(entry) => Some(*entry.value()),
        None => None,
    }
}

/// Relies on `DashMap::insert`: afterwards the map holds `key` under `body`
/// and every entry under another body is kept.
#[verifier::external_body]
fn index_put(m: &mut dashmap::DashMap<String, u64, ahash::RandomState>, body: String, key: u64)
    ensures
        index_entries(*final(m)) == index_entries(*old(m)).insert(body@, key),
{
    m.insert(body, key);
}

/// A concurrency-safe cache deduplicating equal string bodies behind an
/// integer key. The key-to-body map is the store; the body-to-key map makes
/// interning content-addressed, so two distinct bodies never end up behind
/// one key, whatever their hashes are.
pub struct StringManager {
    cache: dashmap::DashMap<u64, String, ahash::RandomState>,
    index: dashmap::DashMap<String, u64, ahash::RandomState>,
}

/// The slot probed `j` steps after the slot a hash picked.
pub open spec fn probe_at(h: u64, j: u64) -> u64 {
    u64_specs::wrapping_add(h, j)
}

/// The first `m + 1` slots of a probe walk that starts at `h`.
spec fn probe_set(h: u64, m: u64) -> Set<u64>
    decreases m,
{
    if m == 0 {
        Set::empty().insert(probe_at(h, 0))
    } else {
        probe_set(h, (m - 1) as u64).insert(probe_at(h, m))
    }
}

/// A probe walk of at most one full trip around the key space never revisits
/// a slot, so `m + 1` probed slots are `m + 1` distinct keys.
proof fn lemma_probe_set_props(h: u64, m: u64)
    ensures
        probe_set(h, m).finite(),
        probe_set(h, m).len() == m + 1,
        forall|j: u64| j <= m ==> probe_set(h, m).contains(#[trigger] probe_at(h, j)),
        forall|k: u64| #[trigger] probe_set(h, m).contains(k) ==> exists|j: u64|
            j <= m && k == probe_at(h, j),
    decreases m,
{
    if m == 0 {
        assert forall|k: u64| #[trigger] probe_set(h, 0).contains(k) implies exists|j: u64|
            j <= 0 && k == probe_at(h, j) by {
            assert(0 <= 0 && k == probe_at(h, 0));
        }
    } else {
        lemma_probe_set_props(h, (m - 1) as u64);
        assert forall|j: u64| j < m implies probe_at(h, j) != probe_at(h, m) by {}
        assert(!probe_set(h, (m - 1) as u64).contains(probe_at(h, m)));
        assert forall|k: u64| #[trigger] probe_set(h, m).contains(k) implies exists|j: u64|
            j <= m && k == probe_at(h, j) by {
            if k == probe_at(h, m) {
                assert(m <= m && k == probe_at(h, m));
            } else {
                assert(probe_set(h, (m - 1) as u64).contains(k));
            }
        }
    }
}

/// Relation between a manager's state before and after interning `body`
/// under the returned `key`: the pair is stored both ways, an already interned
/// body keeps its old key and changes nothing, and a fresh body lands on a
/// previously unused key.
pub open spec fn inserted(
    pre: StringManager,
    post: StringManager,
    body: Seq<char>,
    key: u64,
) -> bool {
    &&& post.wf()
    &&& post.contents() == pre.contents().insert(key, body)
    &&& post.keys_of() == pre.keys_of().insert(body, key)
    &&& pre.keys_of().dom().contains(body) ==> key == pre.keys_of()[body] && post.contents()
        == pre.contents() && post.keys_of() == pre.keys_of()
    &&& !pre.keys_of().dom().contains(body) ==> !pre.contents().dom().contains(key)
}

impl StringManager {
    /// The interned bodies, by key.
    pub closed spec fn contents(self) -> Map<u64, Seq<char>> {
        cache_entries(self.cache)
    }

    /// The keys handed out, by body.
    pub closed spec fn keys_of(self) -> Map<Seq<char>, u64> {
        index_entries(self.index)
    }

    /// The two maps are exact inverses of one another: every stored body is
    /// indexed under its key and every indexed key stores its body.
    pub closed spec fn wf(self) -> bool {
        &&& self.contents().dom().finite()
        &&& forall|k: u64| #[trigger] self.contents().dom().contains(k)
            ==> self.keys_of().contains_pair(self.contents()[k], k)
        &&& forall|v: Seq<char>| #[trigger] self.keys_of().dom().contains(v)
            ==> self.contents().contains_pair(self.keys_of()[v], v)
    }

    /// An empty manager.
    pub fn new() -> (manager: StringManager)
        ensures
            manager.wf(),
            manager.contents() == Map::<u64, Seq<char>>::empty(),
            manager.keys_of() == Map::<Seq<char>, u64>::empty(),
    {
        let manager = StringManager { cache: new_cache(), index: new_index() };
        proof {
            assert(manager.contents() =~= Map::<u64, Seq<char>>::empty());
            assert(manager.keys_of() =~= Map::<Seq<char>, u64>::empty());
        }
        manager
    }

    /// Relies on `ahash::AHasher` through `Hash` and `Hasher` to derive a
    /// candidate key from the string's bytes; nothing is assumed about the
    /// value, which may differ between processes and machines.
    #[verifier::external_body]
    pub fn get_hash_key(string: &str) -> StringID {
        let mut hasher = ahash::AHasher::default();
        std::hash::Hash::hash(string, &mut hasher);
        std::hash::Hasher::finish(&hasher)
    }

    /// A copy of the body interned under `key`, or nothing for a key never
    /// handed out.
    pub fn get(&self, key: StringID) -> (r: Option<String>)
        ensures
            r matches Some(body) ==> self.contents().contains_pair(key, body@),
            r is None ==> !self.contents().dom().contains(key),
    {
        cache_get(&self.cache, key)
    }

    /// Interns `value`: an equal body already interned keeps its key and the
    /// stored bodies stay as they are; a fresh body is stored under a fresh
    /// key, found by probing forward from the body's hash past any key that a
    /// different body occupies.
    pub fn insert(&mut self, value: String) -> (key: StringID)
        requires
            old(self).wf(),
        ensures
            inserted(*old(self), *final(self), value@, key),
    {
        let found = index_get(&self.index, value.as_str());
        if let Some(existing) = found {
            proof {
                assert(self.keys_of().dom().contains(value@));
                assert(self.contents().contains_pair(self.keys_of()[value@], value@));
                assert(self.keys_of()[value@] == existing);
                assert(self.contents() =~= self.contents().insert(existing, value@));
                assert(self.keys_of() =~= self.keys_of().insert(value@, existing));
            }
            return existing;
        }
        let h = Self::get_hash_key(value.as_str());
        let n: usize = cache_count(&self.cache);
        let mut i: u64 = 0;
        loop
            invariant
                *self == *old(self),
                old(self).wf(),
                old(self).contents().dom().finite(),
                n == old(self).contents().dom().len(),
                i <= n as u64,
                !old(self).keys_of().dom().contains(value@),
                forall|j: u64| j < i ==> old(self).contents().dom().contains(
                    #[trigger] probe_at(h, j),
                ),
            decreases n as u64 - i,
        {
            let k = h.wrapping_add(i);
            if !cache_has(&self.cache, k) {
                let body = value.clone();
                cache_put(&mut self.cache, k, value);
                index_put(&mut self.index, body, k);
                proof {
                    lemma_insert_fresh_wf(*old(self), *self, value@, k);
                }
                return k;
            }
            proof {
                assert(k == probe_at(h, i));
                if i == n as u64 {
                    lemma_probe_set_props(h, i);
                    assert forall|p: u64| probe_set(h, i).contains(p) implies old(
                        self,
                    ).contents().dom().contains(p) by {
                        let j = choose|j: u64| j <= i && p == probe_at(h, j);
                        if j < i {
                        } else {
                            assert(p == probe_at(h, i));
                        }
                    }
                    lemma_len_subset(probe_set(h, i), old(self).contents().dom());
                    assert(false);
                }
            }
            i = i + 1;
        }
    }
}

/// Adding one fresh pair to both maps keeps them exact inverses.
proof fn lemma_insert_fresh_wf(pre: StringManager, post: StringManager, body: Seq<char>, key: u64)
    requires
        pre.wf(),
        !pre.keys_of().dom().contains(body),
        !pre.contents().dom().contains(key),
        post.contents() == pre.contents().insert(key, body),
        post.keys_of() == pre.keys_of().insert(body, key),
    ensures
        post.wf(),
        inserted(pre, post, body, key),
{
    assert forall|k: u64| #[trigger] post.contents().dom().contains(k) implies post.keys_of(

    ).contains_pair(post.contents()[k], k) by {
        if k == key {
        } else {
            assert(pre.contents().dom().contains(k));
            assert(pre.keys_of().contains_pair(pre.contents()[k], k));
            assert(pre.contents()[k] != body);
        }
    }
    assert forall|v: Seq<char>| #[trigger] post.keys_of().dom().contains(v) implies post.contents(

    ).contains_pair(post.keys_of()[v], v) by {
        if v == body {
        } else {
            assert(pre.keys_of().dom().contains(v));
            assert(pre.contents().contains_pair(pre.keys_of()[v], v));
            assert(pre.keys_of()[v] != key);
        }
    }
}

/// Interning the same body twice returns the same key both times, and leaves
/// the stored bodies untouched the second time; the key still stores the
/// body.
pub proof fn lemma_insert_idempotent(
    m0: StringManager,
    m1: StringManager,
    m2: StringManager,
    body: Seq<char>,
    k1: u64,
    k2: u64,
)
    requires
        m0.wf(),
        inserted(m0, m1, body, k1),
        inserted(m1, m2, body, k2),
    ensures
        k2 == k1,
        m2.contents() == m1.contents(),
        m2.keys_of() == m1.keys_of(),
        m1.contents().contains_pair(k1, body),
{
    assert(m1.keys_of().dom().contains(body));
    assert(m1.keys_of()[body] == k1);
}

/// Interning two distinct bodies returns two distinct keys, and each key
/// stores its own body afterwards: a collision of the underlying hashes never
/// conflates the two.
pub proof fn lemma_insert_distinct(
    m0: StringManager,
    m1: StringManager,
    m2: StringManager,
    a: Seq<char>,
    b: Seq<char>,
    ka: u64,
    kb: u64,
)
    requires
        m0.wf(),
        inserted(m0, m1, a, ka),
        inserted(m1, m2, b, kb),
        a != b,
    ensures
        ka != kb,
        m2.contents().contains_pair(ka, a),
        m2.contents().contains_pair(kb, b),
{
    assert(m1.contents().contains_pair(ka, a));
    if m1.keys_of().dom().contains(b) {
        assert(m1.contents().contains_pair(m1.keys_of()[b], b));
        assert(kb == m1.keys_of()[b]);
        if ka == kb {
            assert(m1.contents()[ka] == a);
            assert(m1.contents()[kb] == b);
            assert(false);
        }
    } else {
        assert(!m1.contents().dom().contains(kb));
    }
    assert(m2.contents().contains_pair(ka, a));
    assert(m2.contents().contains_pair(kb, b));
}

/// The manager never drops an entry: whatever was stored before an interning
/// is still stored, unchanged, after it.
pub proof fn lemma_contents_monotone(
    pre: StringManager,
    post: StringManager,
    body: Seq<char>,
    key: u64,
    k0: u64,
    v0: Seq<char>,
)
    requires
        pre.wf(),
        inserted(pre, post, body, key),
        pre.contents().contains_pair(k0, v0),
    ensures
        post.contents().contains_pair(k0, v0),
{
    if k0 == key {
        assert(pre.contents().dom().contains(k0));
        assert(pre.keys_of().contains_pair(v0, k0));
    }
}

impl Default for StringManager {
    /// An empty manager.
    fn default() -> (manager: Self)
        ensures
            manager.wf(),
            manager.contents() == Map::<u64, Seq<char>>::empty(),
            manager.keys_of() == Map::<Seq<char>, u64>::empty(),
    {
        Self::new()
    }
}

} // verus!
