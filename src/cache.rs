use crate::model::{Order, OrderView};
use lru::LruCache;
use vstd::prelude::*;

verus! {

#[verifier::external_type_specification]
#[verifier::external_body]
#[verifier::reject_recursive_types(K)]
#[verifier::reject_recursive_types(V)]
#[verifier::reject_recursive_types(S)]
pub struct ExLruCache<K, V, S>(LruCache<K, V, S>);

#[verifier::external_type_specification]
#[verifier::external_body]
pub struct ExDefaultHasher(lru::DefaultHasher);

/// The LRU cache of orders by `order_uid` that `OrderCache` keeps.
pub type OrderLru = LruCache<String, Order>;

/// What an LRU cache of orders holds: each key with the order stored under it.
pub uninterp spec fn lru_entries(c: OrderLru) -> Map<Seq<char>, OrderView>;

/// The keys of an LRU cache of orders, most recently used first.
pub uninterp spec fn lru_recency(c: OrderLru) -> Seq<Seq<char>>;

/// The capacity an LRU cache of orders was made with.
pub uninterp spec fn lru_cap(c: OrderLru) -> nat;

/// A cache model is consistent: at most `cap` entries, and `recency` lists
/// each key once.
pub open spec fn cache_wf(entries: Map<Seq<char>, OrderView>, recency: Seq<Seq<char>>, cap: nat) -> bool {
    &&& cap > 0
    &&& entries.dom().finite()
    &&& entries.len() <= cap
    &&& recency.no_duplicates()
    &&& recency.len() == entries.len()
    &&& forall|k: Seq<char>| entries.contains_key(k) <==> #[trigger] recency.contains(k)
}

/// What lru's own structure keeps: its map and its recency list agree, and it
/// holds at most its capacity.
pub open spec fn lru_wf(c: OrderLru) -> bool {
    cache_wf(lru_entries(c), lru_recency(c), lru_cap(c))
}

/// A cache model with no entries.
pub open spec fn no_orders() -> Map<Seq<char>, OrderView> {
    Map::empty()
}

/// A recency list with no keys.
pub open spec fn no_keys() -> Seq<Seq<char>> {
    Seq::empty()
}

/// The looked-up value of `key` in a cache model.
pub open spec fn lookup(m: Map<Seq<char>, OrderView>, key: Seq<char>) -> Option<OrderView> {
    if m.contains_key(key) {
        Some(m[key])
    } else {
        None
    }
}

/// `recency` without `key`.
pub open spec fn without_key(recency: Seq<Seq<char>>, key: Seq<char>) -> Seq<Seq<char>> {
    recency.filter(|k: Seq<char>| k != key)
}

/// `recency` after `key` is used: it comes first.
pub open spec fn touch(recency: Seq<Seq<char>>, key: Seq<char>) -> Seq<Seq<char>> {
    seq![key] + without_key(recency, key)
}

/// Storing under `key` overflows: the key is new and the cache is full.
pub open spec fn evicts(entries: Map<Seq<char>, OrderView>, cap: nat, key: Seq<char>) -> bool {
    !entries.contains_key(key) && entries.len() == cap
}

/// The entries after `value` is stored under `key`: on overflow the least
/// recently used entry, last in `recency`, goes.
pub open spec fn entries_after_insert(
    entries: Map<Seq<char>, OrderView>,
    recency: Seq<Seq<char>>,
    cap: nat,
    key: Seq<char>,
    value: OrderView,
) -> Map<Seq<char>, OrderView> {
    if evicts(entries, cap, key) {
        entries.remove(recency.last()).insert(key, value)
    } else {
        entries.insert(key, value)
    }
}

/// The recency list after a store under `key`.
pub open spec fn recency_after_insert(
    entries: Map<Seq<char>, OrderView>,
    recency: Seq<Seq<char>>,
    cap: nat,
    key: Seq<char>,
) -> Seq<Seq<char>> {
    if evicts(entries, cap, key) {
        touch(recency.drop_last(), key)
    } else {
        touch(recency, key)
    }
}

/// Relies on lru::LruCache::new: a new cache is empty and has the capacity it
/// was made with.
#[verifier::external_body]
fn lru_new(capacity: usize) -> (r: OrderLru)
    requires
        capacity > 0,
    ensures
        lru_entries(r) == no_orders(),
        lru_recency(r) == no_keys(),
        lru_cap(r) == capacity,
{
    LruCache::new(std::num::NonZeroUsize::new(capacity).unwrap())
}

/// Relies on lru::LruCache::get: returns the value stored under `key`, if any,
/// and makes `key` the most recently used.
#[verifier::external_body]
fn lru_get<'a>(c: &'a mut OrderLru, key: &str) -> (r: Option<&'a Order>)
    requires
        lru_wf(*old(c)),
    ensures
        lru_wf(*final(c)),
        lru_entries(*final(c)) == lru_entries(*old(c)),
        lru_cap(*final(c)) == lru_cap(*old(c)),
        match r {
            Some(o) => lookup(lru_entries(*old(c)), key@) == Some(o@)
                && lru_recency(*final(c)) == touch(lru_recency(*old(c)), key@),
            None => lookup(lru_entries(*old(c)), key@) is None
                && lru_recency(*final(c)) == lru_recency(*old(c)),
        },
{
    c.get(key)
}

/// Relies on lru::LruCache::push: stores `value` under `key` as the most
/// recently used. An entry that was there under `key` is handed back; else, if
/// the cache was full, the least recently used entry is evicted and handed
/// back.
#[verifier::external_body]
fn lru_push(c: &mut OrderLru, key: String, value: Order) -> (r: Option<(String, Order)>)
    requires
        lru_wf(*old(c)),
    ensures
        lru_wf(*final(c)),
        lru_cap(*final(c)) == lru_cap(*old(c)),
        lru_entries(*final(c)) == entries_after_insert(
            lru_entries(*old(c)),
            lru_recency(*old(c)),
            lru_cap(*old(c)),
            key@,
            value@,
        ),
        lru_recency(*final(c)) == recency_after_insert(
            lru_entries(*old(c)),
            lru_recency(*old(c)),
            lru_cap(*old(c)),
            key@,
        ),
        lru_entries(*old(c)).contains_key(key@) ==> r is Some && (r->0).0@ == key@
            && (r->0).1@ == lru_entries(*old(c))[key@],
        evicts(lru_entries(*old(c)), lru_cap(*old(c)), key@) ==> r is Some
            && (r->0).0@ == lru_recency(*old(c)).last()
            && (r->0).1@ == lru_entries(*old(c))[lru_recency(*old(c)).last()],
        !lru_entries(*old(c)).contains_key(key@) && !evicts(lru_entries(*old(c)), lru_cap(*old(c)), key@)
            ==> r is None,
{
    c.push(key, value)
}

/// Relies on lru::LruCache::pop: removes the entry under `key`, handing back
/// its value.
#[verifier::external_body]
fn lru_pop(c: &mut OrderLru, key: &str) -> (r: Option<Order>)
    requires
        lru_wf(*old(c)),
    ensures
        lru_wf(*final(c)),
        lru_cap(*final(c)) == lru_cap(*old(c)),
        lru_entries(*final(c)) == lru_entries(*old(c)).remove(key@),
        lru_recency(*final(c)) == without_key(lru_recency(*old(c)), key@),
        match r {
            Some(o) => lookup(lru_entries(*old(c)), key@) == Some(o@),
            None => lookup(lru_entries(*old(c)), key@) is None,
        },
{
    c.pop(key)
}

/// A bounded cache of complete orders, evicting the least recently used entry
/// when a new key would overflow it. It is not locked itself: a caller that
/// shares it between tasks holds it behind a mutex, and holds the lock only
/// for these calls.
pub struct OrderCache {
    entries: OrderLru,
}

impl View for OrderCache {
    type V = Map<Seq<char>, OrderView>;

    closed spec fn view(&self) -> Map<Seq<char>, OrderView> {
        lru_entries(self.entries)
    }
}

impl OrderCache {
    /// The cached keys, most recently used first.
    pub closed spec fn recency(&self) -> Seq<Seq<char>> {
        lru_recency(self.entries)
    }

    /// The most entries the cache holds.
    pub closed spec fn capacity(&self) -> nat {
        lru_cap(self.entries)
    }

    /// The cache is consistent and within its capacity.
    pub open spec fn wf(&self) -> bool {
        cache_wf(self@, self.recency(), self.capacity())
    }

    /// An empty cache that holds at most `capacity` orders.
    pub fn new(capacity: usize) -> (r: OrderCache)
        requires
            capacity > 0,
        ensures
            r.wf(),
            r@ == no_orders(),
            r.recency() == no_keys(),
            r.capacity() == capacity,
    {
        let r = OrderCache { entries: lru_new(capacity) };
        assert(r@.dom() =~= Set::<Seq<char>>::empty());
        r
    }

    /// The order cached under `key`, if any; a hit makes `key` the most
    /// recently used.
    pub fn peek_or_fetch(&mut self, key: &str) -> (r: Option<Order>)
        requires
            old(self).wf(),
        ensures
            final(self).wf(),
            final(self)@ == old(self)@,
            final(self).capacity() == old(self).capacity(),
            match r {
                Some(o) => lookup(old(self)@, key@) == Some(o@)
                    && final(self).recency() == touch(old(self).recency(), key@),
                None => lookup(old(self)@, key@) is None
                    && final(self).recency() == old(self).recency(),
            },
    {
        match lru_get(&mut self.entries, key) {
            Some(o) => Some(o.clone()),
            None => None,
        }
    }

    /// Caches `order` under `key` as the most recently used, replacing an
    /// entry there; if `key` is new and the cache is full, the least recently
    /// used entry is evicted. Tells whether an entry was there under `key`.
    pub fn insert(&mut self, key: String, order: Order) -> (existed: bool)
        requires
            old(self).wf(),
        ensures
            existed == old(self)@.contains_key(key@),
            inserted(*old(self), *final(self), key@, order@),
    {
        let wanted = key.clone();
        let ghost before = *self;
        let had = lru_push(&mut self.entries, key, order);
        proof {
            if evicts(before@, before.capacity(), wanted@) {
                let last = before.recency().last();
                assert(before.recency()[before.recency().len() - 1] == last);
                assert(before.recency().contains(last));
            }
        }
        match had {
            Some(p) => p.0 == wanted,
            None => false,
        }
    }

    /// Drops the entry under `key`, if any.
    pub fn remove(&mut self, key: &str)
        requires
            old(self).wf(),
        ensures
            final(self).wf(),
            final(self)@ == old(self)@.remove(key@),
            final(self).recency() == without_key(old(self).recency(), key@),
            final(self).capacity() == old(self).capacity(),
    {
        let _ = lru_pop(&mut self.entries, key);
    }
}

/// `after` is `before` with `value` stored under `key`: on overflow exactly
/// the least recently used entry is evicted, `key` becomes the most recently
/// used, and the capacity stays.
pub open spec fn inserted(before: OrderCache, after: OrderCache, key: Seq<char>, value: OrderView) -> bool {
    &&& after.wf()
    &&& after.capacity() == before.capacity()
    &&& after@ == entries_after_insert(before@, before.recency(), before.capacity(), key, value)
    &&& after.recency() == recency_after_insert(before@, before.recency(), before.capacity(), key)
}

} // verus!
