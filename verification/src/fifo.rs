//! An in-memory cache of transactions by version, with a bound on its size
//! in bytes. Versions enter in ascending order without gaps, and when room
//! is needed the oldest leave first.

use vstd::prelude::*;
use dashmap::DashMap;
use crate::indexer::Transaction;

verus! {

/// `dashmap::DashMap`: a hash map for concurrent use. It is opaque here; what
/// it holds is spoken of through `cached_items`.
#[verifier::external_type_specification]
#[verifier::external_body]
#[verifier::reject_recursive_types(K)]
#[verifier::reject_recursive_types(V)]
#[verifier::reject_recursive_types(S)]
pub struct ExDashMap<K, V, S>(dashmap::DashMap<K, V, S>);

/// The entries that a `DashMap` holds.
pub uninterp spec fn cached_items(items: DashMap<u64, Transaction>) -> Map<u64, Transaction>;

/// Whether a map has no entry.
pub open spec fn no_entries(items: Map<u64, Transaction>) -> bool {
    forall|key: u64| !items.contains_key(key)
}

/// `DashMap::new`: a map without entries.
#[verifier::external_body]
fn items_new() -> (items: DashMap<u64, Transaction>)
    ensures
        no_entries(cached_items(items)),
{
    DashMap::new()
}

/// `DashMap::is_empty`: whether the map has no entry.
#[verifier::external_body]
fn items_is_empty(items: &DashMap<u64, Transaction>) -> (r: bool)
    ensures
        r == no_entries(cached_items(*items)),
{
    items.is_empty()
}

/// `DashMap::insert`: sets the value of `key` and returns the value it had,
/// if any. The map is held exclusively here, so no reference into it is
/// alive that the call could wait for.
#[verifier::external_body]
fn items_insert(items: &mut DashMap<u64, Transaction>, key: u64, value: Transaction) -> (previous:
    Option<Transaction>)
    ensures
        cached_items(*final(items)) == cached_items(*old(items)).insert(key, value),
        previous == (if cached_items(*old(items)).contains_key(key) {
            Some(cached_items(*old(items))[key])
        } else {
            None
        }),
{
    items.insert(key, value)
}

/// `DashMap::remove`: takes the entry of `key` out and returns it, if there
/// is one.
#[verifier::external_body]
fn items_remove(items: &mut DashMap<u64, Transaction>, key: u64) -> (removed: Option<
    (u64, Transaction),
>)
    ensures
        cached_items(*final(items)) == cached_items(*old(items)).remove(key),
        removed == (if cached_items(*old(items)).contains_key(key) {
            Some((key, cached_items(*old(items))[key]))
        } else {
            None
        }),
{
    items.remove(&key)
}

/// `DashMap::get`, with the value copied out of the reference it returns:
/// the value of `key`, if there is one.
#[verifier::external_body]
fn items_get(items: &DashMap<u64, Transaction>, key: u64) -> (value: Option<Transaction>)
    ensures
        value == (if cached_items(*items).contains_key(key) {
            Some(cached_items(*items)[key])
        } else {
            None
        }),
{
    match items.get(&key) {
        Some(entry) => Some(*entry.value()),
        None => None,
    }
}

/// What a value counts for in the cache's size: the bytes of the value
/// itself.
pub open spec fn weight(value: Transaction) -> int {
    vstd::layout::spec_size_of_val::<Transaction>(&value) as int
}

/// The weight of the values under the `count` keys from `first` on.
pub open spec fn range_weight(items: Map<u64, Transaction>, first: int, count: nat) -> int
    decreases count,
{
    if count == 0 {
        0
    } else {
        weight(items[first as u64]) + range_weight(items, first + 1, (count - 1) as nat)
    }
}

/// The cache as a mathematical value.
pub struct CacheState {
    pub items: Map<u64, Transaction>,
    pub max_size_in_bytes: u64,
    pub total_size_in_bytes: u64,
    pub first_key: Option<u64>,
    pub last_key: Option<u64>,
}

impl CacheState {
    /// The cache holds nothing.
    pub open spec fn is_empty(self) -> bool {
        no_entries(self.items)
    }

    /// The number of entries of a cache that holds something.
    pub open spec fn count(self) -> nat {
        (self.last_key->0 - self.first_key->0 + 1) as nat
    }

    /// What every cache satisfies: its size is within its bound; when it
    /// holds something, that is the versions from `first_key` to `last_key`
    /// without a gap, and its size is their weight; when it holds nothing,
    /// its size is 0.
    pub open spec fn well_formed(self) -> bool {
        &&& self.total_size_in_bytes <= self.max_size_in_bytes
        &&& if self.is_empty() {
            self.total_size_in_bytes == 0
        } else {
            &&& self.first_key is Some
            &&& self.last_key is Some
            &&& self.first_key->0 <= self.last_key->0
            &&& forall|key: u64|
                self.items.contains_key(key) <==> self.first_key->0 <= key <= self.last_key->0
            &&& self.total_size_in_bytes == range_weight(
                self.items,
                self.first_key->0 as int,
                self.count(),
            )
        }
    }

    /// Whether `key` with `value` can enter: the value alone fits the
    /// bound, with room to add it to a full cache without running over
    /// `u64`, and `key` is the version after the last one.
    pub open spec fn admits(self, key: u64, value: Transaction) -> bool {
        &&& weight(value) <= self.max_size_in_bytes
        &&& self.max_size_in_bytes + weight(value) <= u64::MAX
        &&& !self.is_empty() ==> self.last_key->0 < u64::MAX && key == self.last_key->0 + 1
    }

    /// The version after `key`; after the largest comes 0.
    pub open spec fn next(key: u64) -> u64 {
        if key == u64::MAX {
            0
        } else {
            (key + 1) as u64
        }
    }

    /// The cache without its oldest entry.
    pub open spec fn without_oldest(self) -> CacheState {
        let first = self.first_key->0;
        CacheState {
            items: self.items.remove(first),
            total_size_in_bytes: (self.total_size_in_bytes - weight(self.items[first])) as u64,
            first_key: Some(Self::next(first)),
            ..self
        }
    }

    /// The cache without its `n` oldest entries.
    pub open spec fn without_oldest_n(self, n: nat) -> CacheState
        decreases n,
    {
        if n == 0 {
            self
        } else {
            self.without_oldest().without_oldest_n((n - 1) as nat)
        }
    }

    /// Whether a value of `weight` fits beside what the cache holds.
    pub open spec fn fits(self, weight: int) -> bool {
        self.total_size_in_bytes + weight <= self.max_size_in_bytes
    }

    /// How many of the oldest entries leave so that a value of `weight`
    /// fits: entries leave one by one until it does, or none is left. (Only
    /// a well-formed cache is meant; of any other, none leaves.)
    pub open spec fn evictions(self, weight: int) -> nat
        decreases self.items.dom().len(),
    {
        if self.fits(weight) || self.is_empty() || !self.well_formed()
            || !self.items.dom().finite() {
            0
        } else {
            1 + self.without_oldest().evictions(weight)
        }
    }

    /// The cache after `key` with `value` has entered: the oldest entries
    /// have left as far as needed, and the new one is the last.
    pub open spec fn inserted(self, key: u64, value: Transaction) -> CacheState {
        let kept = self.without_oldest_n(self.evictions(weight(value)));
        CacheState {
            items: kept.items.insert(key, value),
            total_size_in_bytes: (kept.total_size_in_bytes + weight(value)) as u64,
            first_key: if self.is_empty() {
                Some(key)
            } else {
                kept.first_key
            },
            last_key: Some(key),
            ..kept
        }
    }
}

/// Weights are not negative.
proof fn range_weight_is_not_negative(items: Map<u64, Transaction>, first: int, count: nat)
    ensures
        range_weight(items, first, count) >= 0,
    decreases count,
{
    if count > 0 {
        range_weight_is_not_negative(items, first + 1, (count - 1) as nat);
    }
}

/// The weight of a range depends only on the values in the range.
proof fn range_weight_of_equal_values(
    a: Map<u64, Transaction>,
    b: Map<u64, Transaction>,
    first: int,
    count: nat,
)
    requires
        0 <= first,
        first + count <= u64::MAX + 1,
        forall|key: u64| first <= key < first + count ==> a[key] == b[key],
    ensures
        range_weight(a, first, count) == range_weight(b, first, count),
    decreases count,
{
    if count > 0 {
        assert(a[first as u64] == b[first as u64]);
        range_weight_of_equal_values(a, b, first + 1, (count - 1) as nat);
    }
}

/// A range that is longer by one weighs more by the value at its end.
proof fn range_weight_with_one_more(items: Map<u64, Transaction>, first: int, count: nat)
    requires
        0 <= first,
        first + count <= u64::MAX,
    ensures
        range_weight(items, first, count + 1) == range_weight(items, first, count) + weight(
            items[(first + count) as u64],
        ),
    decreases count,
{
    if count > 0 {
        range_weight_with_one_more(items, first + 1, (count - 1) as nat);
    } else {
        assert(range_weight(items, first + 1, 0) == 0);
    }
}

/// A cache that holds something holds finitely many entries: as many as
/// there are versions from its first to its last.
proof fn entries_are_counted(state: CacheState)
    requires
        state.well_formed(),
        !state.is_empty(),
    ensures
        state.items.dom().finite(),
        state.items.dom().len() == state.count(),
    decreases state.count(),
{
    let first = state.first_key->0;
    let last = state.last_key->0;
    if first == last {
        assert(state.items.dom() =~= set![first]);
    } else {
        let rest = state.without_oldest();
        oldest_leaves(state);
        assert(rest.items.contains_key(last));
        entries_are_counted(rest);
        assert(state.items.dom() =~= rest.items.dom().insert(first));
    }
}

/// Taking the oldest entry out of a cache that holds something leaves a
/// cache as it should be, smaller by that entry's weight.
proof fn oldest_leaves(state: CacheState)
    requires
        state.well_formed(),
        !state.is_empty(),
    ensures
        state.without_oldest().well_formed(),
        weight(state.items[state.first_key->0]) <= state.total_size_in_bytes,
        state.first_key->0 == state.last_key->0 ==> state.without_oldest().is_empty(),
        state.first_key->0 < state.last_key->0 ==> {
            &&& !state.without_oldest().is_empty()
            &&& state.without_oldest().first_key == Some((state.first_key->0 + 1) as u64)
            &&& state.without_oldest().last_key == state.last_key
        },
{
    let first = state.first_key->0;
    let last = state.last_key->0;
    let rest = state.without_oldest();
    range_weight_is_not_negative(state.items, first + 1, (state.count() - 1) as nat);
    assert(state.total_size_in_bytes == weight(state.items[first]) + range_weight(
        state.items,
        first + 1,
        (state.count() - 1) as nat,
    ));
    if first == last {
        assert(range_weight(state.items, first + 1, 0) == 0);
        assert(rest.is_empty());
    } else {
        assert(rest.items.contains_key(last));
        range_weight_of_equal_values(
            state.items,
            rest.items,
            first + 1,
            (state.count() - 1) as nat,
        );
    }
}


#[derive(Clone, Copy, Debug)]
struct CacheMetadata {
    max_size_in_bytes: u64,
    total_size_in_bytes: u64,
    last_key: Option<u64>,
    first_key: Option<u64>,
}

/// FIFO is a simple in-memory cache with a deterministic FIFO eviction policy.
pub struct FIFOCache {
    /// Cache maps the cache key to the deserialized Transaction.
    items: DashMap<u64, Transaction>,
    cache_metadata: CacheMetadata,
}

impl View for FIFOCache {
    type V = CacheState;

    closed spec fn view(&self) -> CacheState {
        CacheState {
            items: cached_items(self.items),
            max_size_in_bytes: self.cache_metadata.max_size_in_bytes,
            total_size_in_bytes: self.cache_metadata.total_size_in_bytes,
            first_key: self.cache_metadata.first_key,
            last_key: self.cache_metadata.last_key,
        }
    }
}

/// What a value counts for in the cache's size.
pub fn weight_of(value: &Transaction) -> (r: u64)
    ensures
        r == weight(*value),
{
    std::mem::size_of_val(value) as u64
}

impl FIFOCache {
    pub fn new(max_size_in_bytes: u64) -> (r: Self)
        ensures
            r@.well_formed(),
            r@.is_empty(),
            r@.max_size_in_bytes == max_size_in_bytes,
            r@.total_size_in_bytes == 0,
            r@.first_key is None,
            r@.last_key is None,
    {
        FIFOCache {
            items: items_new(),
            cache_metadata: CacheMetadata {
                max_size_in_bytes,
                total_size_in_bytes: 0,
                last_key: None,
                first_key: None,
            },
        }
    }

    /// Takes the oldest entry out and returns its weight.
    fn pop(&mut self) -> (r: u64)
        requires
            old(self)@.well_formed(),
            !old(self)@.is_empty(),
        ensures
            final(self)@ == old(self)@.without_oldest(),
            r == weight(old(self)@.items[old(self)@.first_key->0]),
    {
        proof {
            oldest_leaves(self@);
        }
        let first_key = self.cache_metadata.first_key.unwrap();
        let (k, v) = items_remove(&mut self.items, first_key).unwrap();
        self.cache_metadata.first_key = Some(
            if k == u64::MAX {
                0
            } else {
                k + 1
            },
        );
        let weight = weight_of(&v);
        self.cache_metadata.total_size_in_bytes = self.cache_metadata.total_size_in_bytes - weight;
        weight
    }

    /// Takes out the oldest entries until a value of `new_value_weight`
    /// fits. Returns how many have left, and their weight together.
    fn evict(&mut self, new_value_weight: u64) -> (r: (u64, u64))
        requires
            old(self)@.well_formed(),
            new_value_weight <= old(self)@.max_size_in_bytes,
            !old(self)@.is_empty() ==> old(self)@.last_key->0 < u64::MAX,
        ensures
            final(self)@ == old(self)@.without_oldest_n(old(self)@.evictions(new_value_weight as int)),
            final(self)@.well_formed(),
            final(self)@.fits(new_value_weight as int),
            r.0 == old(self)@.evictions(new_value_weight as int),
            r.1 == old(self)@.total_size_in_bytes - final(self)@.total_size_in_bytes,
            !old(self)@.is_empty() ==> (if final(self)@.is_empty() {
                final(self)@.first_key == Some((old(self)@.last_key->0 + 1) as u64)
            } else {
                final(self)@.last_key == old(self)@.last_key
            }),
            old(self)@.is_empty() ==> final(self)@ == old(self)@,
    {
        let mut garbage_collection_count: u64 = 0;
        let mut garbage_collection_size: u64 = 0;
        let ghost start = self@;
        let ghost w = new_value_weight as int;
        loop
            invariant
                self@.well_formed(),
                self@.max_size_in_bytes == start.max_size_in_bytes,
                new_value_weight <= self@.max_size_in_bytes,
                w == new_value_weight,
                start == old(self)@,
                start.without_oldest_n(garbage_collection_count as nat) == self@,
                garbage_collection_count + self@.evictions(w) == start.evictions(w),
                garbage_collection_size == start.total_size_in_bytes
                    - self@.total_size_in_bytes,
                self@.total_size_in_bytes <= start.total_size_in_bytes,
                !start.is_empty() ==> start.last_key->0 < u64::MAX,
                !start.is_empty() ==> (if self@.is_empty() {
                    self@.first_key == Some((start.last_key->0 + 1) as u64)
                } else {
                    &&& self@.last_key == start.last_key
                    &&& garbage_collection_count + self@.count() <= start.last_key->0 + 1
                }),
                start.is_empty() ==> self@ == start,
            ensures
                self@.fits(w),
                self@.evictions(w) == 0,
            decreases self@.evictions(w),
        {
            if self.cache_metadata.total_size_in_bytes <= self.cache_metadata.max_size_in_bytes
                - new_value_weight {
                break ;
            }
            proof {
                let now = self@;
                assert(!now.is_empty());
                oldest_leaves(now);
                entries_are_counted(now);
                without_one_more(start, garbage_collection_count as nat);
            }
            let weight = self.pop();
            garbage_collection_count = garbage_collection_count + 1;
            garbage_collection_size = garbage_collection_size + weight;
        }
        (garbage_collection_count, garbage_collection_size)
    }

    /// Puts `key` with `value` behind the last entry.
    fn insert_impl(&mut self, key: u64, value: Transaction)
        requires
            old(self)@.total_size_in_bytes + weight(value) <= u64::MAX,
        ensures
            final(self)@ == (CacheState {
                items: old(self)@.items.insert(key, value),
                total_size_in_bytes: (old(self)@.total_size_in_bytes + weight(value)) as u64,
                last_key: Some(key),
                ..old(self)@
            }),
    {
        self.cache_metadata.last_key = Some(key);
        self.cache_metadata.total_size_in_bytes = self.cache_metadata.total_size_in_bytes
            + weight_of(&value);
        let _ = items_insert(&mut self.items, key, value);
    }

    /// The value cached under `key`, if there is one.
    pub fn get(&self, key: &u64) -> (r: Option<Transaction>)
        ensures
            r == (if self@.items.contains_key(*key) {
                Some(self@.items[*key])
            } else {
                None
            }),
    {
        items_get(&self.items, *key)
    }

    /// Whether `key` with `value` can enter the cache as it is.
    pub fn admits(&self, key: u64, value: &Transaction) -> (r: bool)
        requires
            self@.well_formed(),
        ensures
            r == self@.admits(key, *value),
    {
        let value_weight = weight_of(value);
        if value_weight > self.cache_metadata.max_size_in_bytes {
            return false;
        }
        if self.cache_metadata.max_size_in_bytes > u64::MAX - value_weight {
            return false;
        }
        if items_is_empty(&self.items) {
            return true;
        }
        match self.cache_metadata.last_key {
            Some(last) => {
                if last == u64::MAX {
                    false
                } else {
                    key == last + 1
                }
            },
            None => false,
        }
    }

    /// Puts `key` with `value` into the cache, after making room for it by
    /// taking out the oldest entries as far as needed. Returns how many
    /// have left, and their weight together.
    pub fn insert(&mut self, key: u64, value: Transaction) -> (r: (u64, u64))
        requires
            old(self)@.well_formed(),
            old(self)@.admits(key, value),
        ensures
            final(self)@.well_formed(),
            final(self)@ == old(self)@.inserted(key, value),
            r.0 == old(self)@.evictions(weight(value)),
            r.1 == old(self)@.total_size_in_bytes + weight(value)
                - final(self)@.total_size_in_bytes,
    {
        // If cache is empty, set the first to the new key.
        let was_empty = items_is_empty(&self.items);
        if was_empty {
            self.cache_metadata.first_key = Some(key);
        }
        // Evict until enough space is available for next value.
        let (garbage_collection_count, garbage_collection_size) = self.evict(weight_of(&value));
        let ghost kept = self@;
        self.insert_impl(key, value);
        proof {
            let after = self@;
            if kept.is_empty() {
                assert(after.items.contains_key(key));
                assert(range_weight(after.items, key as int, 1) == weight(value)) by {
                    assert(range_weight(after.items, key + 1, 0) == 0);
                }
            } else {
                let first = kept.first_key->0;
                assert(after.items.contains_key(key));
                range_weight_of_equal_values(kept.items, after.items, first as int, kept.count());
                range_weight_with_one_more(after.items, first as int, kept.count());
            }
        }
        (garbage_collection_count, garbage_collection_size)
    }

    pub fn total_size(&self) -> (r: u64)
        ensures
            r == self@.total_size_in_bytes,
    {
        self.cache_metadata.total_size_in_bytes
    }

    pub fn first_key(&self) -> (r: Option<u64>)
        ensures
            r == self@.first_key,
    {
        self.cache_metadata.first_key
    }

    pub fn last_key(&self) -> (r: Option<u64>)
        ensures
            r == self@.last_key,
    {
        self.cache_metadata.last_key
    }
}

/// Taking out `n` entries and then one more is taking out `n + 1`.
proof fn without_one_more(state: CacheState, n: nat)
    ensures
        state.without_oldest_n(n + 1) == state.without_oldest_n(n).without_oldest(),
    decreases n,
{
    if n > 0 {
        without_one_more(state.without_oldest(), (n - 1) as nat);
    } else {
        assert(state.without_oldest().without_oldest_n(0) == state.without_oldest());
    }
}


/// Of a cache that holds something, the `n` oldest entries leave in the
/// order of their versions: what stays are the versions from the `n`-th
/// after the first on, with the values they had, and the size goes down by
/// the weight of those that left.
pub proof fn oldest_go_first(state: CacheState, n: nat)
    requires
        state.well_formed(),
        !state.is_empty(),
        n <= state.count(),
    ensures
        state.without_oldest_n(n).well_formed(),
        forall|key: u64|
            state.without_oldest_n(n).items.contains_key(key) <==> state.first_key->0 + n <= key
                <= state.last_key->0,
        forall|key: u64|
            state.without_oldest_n(n).items.contains_key(key) ==> state.without_oldest_n(
                n,
            ).items[key] == state.items[key],
        state.without_oldest_n(n).total_size_in_bytes == state.total_size_in_bytes - range_weight(
            state.items,
            state.first_key->0 as int,
            n,
        ),
    decreases n,
{
    if n > 0 {
        let rest = state.without_oldest();
        oldest_leaves(state);
        if state.first_key->0 < state.last_key->0 {
            oldest_go_first(rest, (n - 1) as nat);
            range_weight_of_equal_values(
                state.items,
                rest.items,
                state.first_key->0 + 1,
                (n - 1) as nat,
            );
            assert forall|key: u64|
                state.without_oldest_n(n).items.contains_key(key) implies state.without_oldest_n(
                n,
            ).items[key] == state.items[key] by {
                assert(rest.items.contains_key(key));
                assert(rest.items[key] == state.items[key]);
            }
        } else {
            assert(rest.without_oldest_n(0) == rest);
            assert(range_weight(state.items, state.first_key->0 + 1, 0) == 0);
        }
    }
}

/// As many entries leave as are needed and no more: after `evictions` of
/// them the value fits, and after any smaller number it does not.
pub proof fn evictions_are_the_fewest(state: CacheState, weight: int, fewer: nat)
    requires
        state.well_formed(),
        0 <= weight <= state.max_size_in_bytes,
    ensures
        state.without_oldest_n(state.evictions(weight)).fits(weight),
        fewer < state.evictions(weight) ==> !state.without_oldest_n(fewer).fits(weight),
    decreases state.evictions(weight),
{
    if state.evictions(weight) > 0 {
        oldest_leaves(state);
        if fewer > 0 {
            evictions_are_the_fewest(state.without_oldest(), weight, (fewer - 1) as nat);
        } else {
            evictions_are_the_fewest(state.without_oldest(), weight, 0);
        }
    } else {
        if state.is_empty() {
            assert(state.total_size_in_bytes == 0);
        } else if !state.fits(weight) {
            entries_are_counted(state);
        }
    }
}

} // verus!
