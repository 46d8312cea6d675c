//! A string interning pool: equal text content is deduplicated so that many
//! logical owners share one heap allocation. The pool hands out
//! reference-counted, immutable [`SharedStr`] handles; when the last external
//! holder of a handle disappears, the handle's teardown removes the matching
//! pool entry, so unused content is reclaimed automatically.
//!
//! The pool is a concurrent map and may be shared freely between threads; no
//! external locking is required. The teardown path reads the strong count and
//! then removes the entry in two separate steps, by design: a clone taken by
//! another thread in between leaves that clone as a valid, independently owned
//! handle that is merely detached from the pool (a later lookup for the same
//! content allocates afresh instead of sharing it). This is an accepted
//! relaxation, never a correctness problem: content is immutable and handles
//! stay valid for as long as they are held.

use std::collections::hash_map::DefaultHasher;
use std::hash::Hasher;
use std::sync::Arc;
use vstd::prelude::*;
use vstd::std_specs::cmp::PartialEqSpec;
use vstd::std_specs::hash::DefaultHasherAdditionalSpecFns;

verus! {

// ---------------------------------------------------------------------------
// Declarations for the outside types that the pool is built on.
// ---------------------------------------------------------------------------
/// `scc::HashMap` is the concurrent hash map holding the pool's entries.
#[verifier::external_type_specification]
#[verifier::external_body]
#[verifier::reject_recursive_types(K)]
#[verifier::reject_recursive_types(V)]
#[verifier::reject_recursive_types(H)]
pub struct ExSccHashMap<K, V, H>(scc::HashMap<K, V, H>)
where
    H: std::hash::BuildHasher,
;

/// `foldhash::fast::FixedState` is the fixed-seed hasher state the pool's map
/// is built with.
#[verifier::external_type_specification]
#[verifier::external_body]
pub struct ExFixedState(foldhash::fast::FixedState);

/// `foldhash::fast::FoldHasher` is the hasher that `FixedState` builds.
#[verifier::external_type_specification]
#[verifier::external_body]
pub struct ExFoldHasher<'a>(foldhash::fast::FoldHasher<'a>);

/// The pool's backing store: content, as an owned key, mapped to the pool's
/// retained counted copy of the same content.
type PoolMap = scc::HashMap<String, Arc<String>, foldhash::fast::FixedState>;

// ---------------------------------------------------------------------------
// Trusted wrappers around the outside calls.
//
// The pool is interior-mutable shared state: any number of threads may be
// mutating it between two calls made here. No contract below therefore ties a
// result to the map's contents; the verified callers re-establish what they
// need about every value that comes back.
// ---------------------------------------------------------------------------
/// Relies on `foldhash::fast::FixedState::with_seed`: a hasher state built
/// from the seed alone.
#[verifier::external_body]
fn fixed_hasher(seed: u64) -> foldhash::fast::FixedState {
    foldhash::fast::FixedState::with_seed(seed)
}

/// Relies on `scc::HashMap::with_hasher`: an empty concurrent map using the
/// given hasher state.
#[verifier::external_body]
fn pool_new(hasher: foldhash::fast::FixedState) -> PoolMap {
    scc::HashMap::with_hasher(hasher)
}

/// Relies on `scc::HashMap::read_sync`: runs the closure on the entry whose
/// key equals `key`, if one exists right now; the closure clones the stored
/// counted copy. Nothing is promised of the clone's content: the caller
/// checks it.
#[verifier::external_body]
fn pool_read(pool: &PoolMap, key: &str) -> Option<Arc<String>> {
    pool.read_sync(key, |_k, v| v.clone())
}

/// Relies on `scc::HashMap::insert_sync`: inserts the pair unless the key is
/// already present. If another thread inserted the same key first, the pair
/// handed in here is simply dropped; either outcome is accepted.
#[verifier::external_body]
fn pool_insert(pool: &PoolMap, key: String, val: Arc<String>) {
    let _ = pool.insert_sync(key, val);
}

/// Relies on `scc::HashMap::remove_sync`: removes the entry whose key equals
/// the given content, if one exists right now. Does not unwind: scc documents
/// the map as impervious to out-of-memory errors and panics as long as
/// hashing and the key's and value's `drop` do not panic, which holds for
/// `String` and `Arc<String>` under `foldhash`.
#[verifier::external_body]
fn pool_remove(pool: &PoolMap, content: &Arc<String>)
    opens_invariants none
    no_unwind
{
    let _ = pool.remove_sync(content.as_str());
}

/// Relies on `std::sync::Arc::strong_count`: the number of strong references
/// to the allocation at the moment of the read. At least the one held through
/// the argument exists; other threads may change the count at any time.
#[verifier::external_body]
fn arc_strong_count(content: &Arc<String>) -> (r: usize)
    ensures
        r >= 1,
    opens_invariants none
    no_unwind
{
    Arc::strong_count(content)
}

/// Relies on `str`'s `==`: true exactly when the two strings have equal
/// content.
#[verifier::external_body]
fn str_eq(a: &str, b: &str) -> (r: bool)
    ensures
        r == (a@ == b@),
{
    a == b
}

/// Relies on `std::sync::Arc`'s `Clone`: the clone is a new strong reference
/// to the very same allocation, so it carries the same value.
#[verifier::external_body]
fn arc_clone<T>(v: &Arc<T>) -> (res: Arc<T>)
    ensures
        res == *v,
{
    v.clone()
}

// ---------------------------------------------------------------------------
// The shared handle.
// ---------------------------------------------------------------------------
/// A reference-counted, immutable handle onto one interned string.
///
/// All clones of a handle, and the pool's own retained copy, share one heap
/// allocation of the content. Two handles are equal exactly when their
/// content is equal, whether or not they share an allocation.
pub struct SharedStr {
    content: Arc<String>,
    pool: Arc<PoolMap>,
}

impl View for SharedStr {
    type V = Seq<char>;

    closed spec fn view(&self) -> Seq<char> {
        self.content@
    }
}

impl SharedStr {
    /// Read-only access to the underlying text.
    pub fn as_str(&self) -> (r: &str)
        ensures
            r@ == self@,
    {
        self.content.as_str()
    }

    /// The number of live strong references to this handle's content, the
    /// pool's retained copy included. Other threads may change the count at
    /// any moment, so no more than a lower bound is promised.
    pub fn strong_count(&self) -> (r: usize)
        ensures
            r >= 1,
    {
        arc_strong_count(&self.content)
    }

    /// The teardown hook: when the observed strong count says that the pool's
    /// retained copy and this handle are the only holders left, remove the
    /// pool's entry for this content.
    ///
    /// The count read and the removal are deliberately two separate steps. A
    /// clone taken by another thread in between leaves that clone valid but
    /// detached from the pool; the entry is removed all the same.
    fn detach_if_unreferenced(&self)
        opens_invariants none
        no_unwind
    {
        if arc_strong_count(&self.content) == 2 {
            pool_remove(&self.pool, &self.content);
        }
    }
}

/// The digest of a content value: what a fresh `DefaultHasher` yields after
/// being fed exactly the content's UTF-8 bytes. A function of the content
/// alone, never of allocation identity.
pub closed spec fn spec_digest(t: Seq<char>) -> u64 {
    DefaultHasher::spec_finish(Seq::<Seq<u8>>::empty().push(vstd::utf8::encode_utf8(t)))
}

impl SharedStr {
    /// A digest of the content: content-equal handles always digest alike.
    pub fn content_digest(&self) -> (d: u64)
        ensures
            d == spec_digest(self@),
    {
        let mut hasher = DefaultHasher::new();
        hasher.write(self.as_str().as_bytes());
        hasher.finish()
    }
}

impl Clone for SharedStr {
    /// A new handle onto the same content; the shared strong count grows by
    /// one and nothing is allocated.
    fn clone(&self) -> (res: Self)
        ensures
            res@ == self@,
    {
        SharedStr { content: arc_clone(&self.content), pool: arc_clone(&self.pool) }
    }
}

impl Drop for SharedStr {
    /// Ordinary ownership release, plus the pool detach check described in
    /// [`SharedStr::detach_if_unreferenced`].
    fn drop(&mut self)
        opens_invariants none
        no_unwind
    {
        self.detach_if_unreferenced();
    }
}

impl PartialEq for SharedStr {
    /// Handles are compared by content, never by allocation identity.
    fn eq(&self, other: &Self) -> (r: bool) {
        str_eq(self.as_str(), other.as_str())
    }
}

impl vstd::std_specs::cmp::PartialEqSpecImpl for SharedStr {
    open spec fn obeys_eq_spec() -> bool {
        true
    }

    open spec fn eq_spec(&self, other: &Self) -> bool {
        self@ == other@
    }
}

impl Eq for SharedStr {}

impl std::hash::Hash for SharedStr {
    /// Relies on `str`'s `Hash`: feeds the content's bytes, and nothing else,
    /// to the hasher, so content-equal handles hash alike in any hash-based
    /// container.
    #[verifier::external_body]
    fn hash<H: Hasher>(&self, state: &mut H) {
        self.content.as_str().hash(state)
    }
}

// ---------------------------------------------------------------------------
// Laws of the handle type.
// ---------------------------------------------------------------------------
/// Sharing is invisible to content: two handles acquired for the same text,
/// on whatever path and whether or not they share one allocation, have equal
/// views, compare equal, and digest alike.
pub proof fn lemma_handles_for_equal_content_agree(a: SharedStr, b: SharedStr, t: Seq<char>)
    requires
        a@ == t,
        b@ == t,
    ensures
        a@ == b@,
        a.eq_spec(&b),
        spec_digest(a@) == spec_digest(b@),
{
}

/// Equality and hashing go by content alone: handles compare equal exactly
/// when their contents are byte-equal, and content-equal handles have equal
/// digests.
pub proof fn lemma_eq_hash_by_content(a: SharedStr, b: SharedStr)
    ensures
        a.eq_spec(&b) <==> a@ == b@,
        a@ == b@ ==> spec_digest(a@) == spec_digest(b@),
{
}

// ---------------------------------------------------------------------------
// The interning pool.
// ---------------------------------------------------------------------------
/// The interning pool: a concurrent store holding, per distinct content, at
/// most one retained counted copy for handles to share.
///
/// The store never blocks unrelated keys: lookups are lock-light and
/// insertion and removal take no more than per-bucket exclusivity.
pub struct StrInterner {
    pool: Arc<PoolMap>,
}

impl StrInterner {
    /// An empty pool. Handles returned by [`StrInterner::get`] keep the pool
    /// alive for as long as they live.
    pub fn new() -> Self {
        StrInterner { pool: Arc::new(pool_new(fixed_hasher(0))) }
    }

    /// Returns a handle whose content equals the input, sharing the pool's
    /// retained copy when one with equal content is present (no allocation on
    /// that path), and otherwise allocating an owned copy, retaining it in
    /// the pool, and returning a handle onto it.
    ///
    /// Never fails: the caller always receives a valid handle with the
    /// requested content, whatever other threads do to the pool meanwhile.
    pub fn get<S: AsStr>(&self, text: S) -> (r: SharedStr)
        ensures
            r@ == text.text(),
    {
        match pool_read(&self.pool, text.as_str()) {
            Some(content) => {
                // The pool only ever retains copies stored under their own
                // content, but the map is shared state that no contract here
                // tracks, so check the clone that came back rather than
                // trust it.
                if str_eq(content_str(&content), text.as_str()) {
                    return SharedStr { content, pool: arc_clone(&self.pool) };
                }
            },
            None => {},
        }
        // Miss: only now materialize an owned copy. Its strong count accounts
        // for the pool's retained copy and the handle returned to the caller.
        // If another thread inserted the same content in the meantime, the
        // insert below is a no-op and this handle stays independently owned,
        // which is an accepted outcome.
        let owned: String = text.to_owned();
        let key: String = owned.clone();
        let content: Arc<String> = Arc::new(owned);
        let handle = SharedStr { content: arc_clone(&content), pool: arc_clone(&self.pool) };
        pool_insert(&self.pool, key, content);
        handle
    }
}

/// Read-only access to a counted copy's text.
fn content_str(content: &Arc<String>) -> (r: &str)
    ensures
        r@ == content@,
{
    content.as_str()
}

// ---------------------------------------------------------------------------
// Text inputs to the pool.
// ---------------------------------------------------------------------------
/// A borrowed-or-owned text value that the pool can accept: it can be viewed
/// without a copy for the lookup, and turned into an owned `String` — a copy
/// only where the caller did not own one already — on a miss.
pub trait AsStr: Sized {
    /// The text content this value stands for.
    spec fn text(&self) -> Seq<char>;

    /// A borrowed view of the content, for the allocation-free lookup path.
    fn as_str(&self) -> (r: &str)
        ensures
            r@ == self.text(),
    ;

    /// The content as an owned `String`, consuming `self`.
    fn to_owned(self) -> (r: String)
        ensures
            r@ == self.text(),
    ;
}

impl AsStr for &str {
    open spec fn text(&self) -> Seq<char> {
        self@
    }

    fn as_str(&self) -> (r: &str) {
        *self
    }

    fn to_owned(self) -> (r: String) {
        str::to_owned(self)
    }
}

impl AsStr for String {
    open spec fn text(&self) -> Seq<char> {
        self@
    }

    fn as_str(&self) -> (r: &str) {
        String::as_str(self)
    }

    fn to_owned(self) -> (r: String) {
        self
    }
}

} // verus!
