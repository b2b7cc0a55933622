//! Expiring key-value store.
//!
//! Values are kept under string keys, each for its own lifetime in
//! milliseconds. An entry whose lifetime has run out behaves as absent to every
//! operation, whether or not it has been physically removed yet: `get` removes
//! it lazily, `cleanup` removes every such entry at once.
//!
//! Each operation exists in two forms: one that reads the store's clock, and
//! one, suffixed `_at`, that takes the present time as an argument and whose
//! contract is exact for that time.

use crate::clock::Clock;
use vstd::prelude::*;

verus! {

/// A stored value with the time it was stored at and how long it stays valid.
pub struct CacheItem<T> {
    pub value: T,
    /// Milliseconds on the store's clock at which the value was stored.
    pub creation: u64,
    /// Milliseconds during which the value stays valid.
    pub lifetime: u64,
}

impl<T> CacheItem<T> {
    /// The item is expired once more than `lifetime` has elapsed since
    /// `creation`; a time before `creation` counts as no time elapsed.
    pub open spec fn spec_is_expired(&self, now: u64) -> bool {
        now > self.creation + self.lifetime
    }
}

impl<T: Clone> CacheItem<T> {
    /// Creates a new cache item.
    fn new(value: T, creation: u64, lifetime: u64) -> (r: Self)
        ensures
            r.value == value,
            r.creation == creation,
            r.lifetime == lifetime,
    {
        CacheItem { value, creation, lifetime }
    }

    /// Is the item expired at time `now`.
    fn is_expired(&self, now: u64) -> (r: bool)
        ensures
            r == self.spec_is_expired(now),
    {
        now > self.creation && now - self.creation > self.lifetime
    }
}

/// The contents of a store, key by key.
pub type Contents<T> = Map<Seq<char>, CacheItem<T>>;

/// `key` holds an unexpired item at time `now`.
pub open spec fn is_live<T>(m: Contents<T>, key: Seq<char>, now: u64) -> bool {
    m.contains_key(key) && !m[key].spec_is_expired(now)
}

/// The value that `key` holds at time `now`, if it holds an unexpired one.
pub open spec fn live_value<T>(m: Contents<T>, key: Seq<char>, now: u64) -> Option<T> {
    if is_live(m, key, now) {
        Some(m[key].value)
    } else {
        None
    }
}

/// The unexpired part of the contents at time `now`.
pub open spec fn live_part<T>(m: Contents<T>, now: u64) -> Contents<T> {
    Map::new(|k: Seq<char>| is_live(m, k, now), |k: Seq<char>| m[k])
}

/// What `set` leaves: `key` maps to a fresh item for `value`, stored at `now`.
pub open spec fn set_post<T>(
    old_m: Contents<T>,
    new_m: Contents<T>,
    key: Seq<char>,
    value: T,
    lifetime: u64,
    now: u64,
) -> bool {
    &&& new_m == old_m.insert(key, CacheItem { value, creation: now, lifetime })
}

/// What `get` leaves and returns: a clone of the live value, the contents
/// unchanged; or nothing, the key's expired or missing entry removed.
pub open spec fn get_post<T: Clone>(
    old_m: Contents<T>,
    new_m: Contents<T>,
    key: Seq<char>,
    now: u64,
    r: Option<T>,
) -> bool {
    if is_live(old_m, key, now) {
        &&& new_m == old_m
        &&& r matches Some(v) && cloned(old_m[key].value, v)
    } else {
        &&& new_m == old_m.remove(key)
        &&& r is None
    }
}

/// Thread-unaware expiring store; sharing it between tasks is a matter of
/// putting it behind a lock, which makes each operation atomic.
pub struct Cache<T> {
    items: Vec<(String, CacheItem<T>)>,
    clock: Clock,
    latest: u64,
    contents: Ghost<Contents<T>>,
}

impl<T> View for Cache<T> {
    type V = Contents<T>;

    closed spec fn view(&self) -> Contents<T> {
        self.contents@
    }
}

impl<T> Cache<T> {
    /// Keys are unique in `items`, and `contents` is exactly what `items` holds.
    pub closed spec fn wf(&self) -> bool {
        &&& forall|i: int, j: int|
            0 <= i < j < self.items@.len() ==> #[trigger] self.items@[i].0@
                != #[trigger] self.items@[j].0@
        &&& forall|i: int|
            0 <= i < self.items@.len() ==> self.contents@.contains_key(#[trigger] self.items@[i].0@)
                && self.contents@[self.items@[i].0@] == self.items@[i].1
        &&& forall|k: Seq<char>| #[trigger]
            self.contents@.contains_key(k) ==> exists|i: int|
                0 <= i < self.items@.len() && #[trigger] self.items@[i].0@ == k
    }

    /// The time of the latest operation that read the clock; the store's
    /// notion of time never goes back.
    pub closed spec fn latest(&self) -> u64 {
        self.latest
    }

    /// Position of `key` in `items`.
    fn find(&self, key: &str) -> (r: Option<usize>)
        requires
            self.wf(),
        ensures
            match r {
                Some(i) => i < self.items@.len() && self.items@[i as int].0@ == key@,
                None => !self@.contains_key(key@),
            },
    {
        let wanted = key.to_owned();
        let mut i: usize = 0;
        while i < self.items.len()
            invariant
                self.wf(),
                wanted@ == key@,
                i <= self.items@.len(),
                forall|j: int| 0 <= j < i ==> self.items@[j].0@ != key@,
            decreases self.items@.len() - i,
        {
            if self.items[i].0 == wanted {
                return Some(i);
            }
            i = i + 1;
        }
        None
    }

    /// Removes the entry at position `i` and hands it back.
    fn take(&mut self, i: usize) -> (r: (String, CacheItem<T>))
        requires
            old(self).wf(),
            i < old(self).items@.len(),
        ensures
            final(self).wf(),
            r == old(self).items@[i as int],
            final(self)@ == old(self)@.remove(r.0@),
            final(self).items@.len() == old(self).items@.len() - 1,
            forall|j: int| 0 <= j < i ==> final(self).items@[j] == old(self).items@[j],
            final(self).latest == old(self).latest,
    {
        let ghost key = self.items@[i as int].0@;
        let ghost before = self.items@;
        let r = self.items.swap_remove(i);
        self.contents = Ghost(self.contents@.remove(key));
        assert forall|k: Seq<char>| #[trigger] self.contents@.contains_key(k) implies exists|j: int|
            0 <= j < self.items@.len() && #[trigger] self.items@[j].0@ == k by {
            let j = choose|j: int| 0 <= j < before.len() && before[j].0@ == k;
            if j == before.len() - 1 {
                assert(self.items@[i as int].0@ == k);
            } else {
                assert(self.items@[j].0@ == k);
            }
        }
        r
    }
}

impl<T: Clone> Cache<T> {
    /// Creates an empty store with its own clock.
    pub fn new() -> (r: Self)
        ensures
            r.wf(),
            r@ == Contents::<T>::empty(),
    {
        Cache {
            items: Vec::new(),
            clock: Clock::start(),
            latest: 0,
            contents: Ghost(Map::empty()),
        }
    }

    /// Reads the clock, never going back before the latest reading.
    fn tick(&mut self) -> (now: u64)
        ensures
            now >= old(self).latest,
            final(self).latest == now,
            final(self).items == old(self).items,
            final(self).contents == old(self).contents,
    {
        let reading = self.clock.now();
        if reading > self.latest {
            self.latest = reading;
        }
        self.latest
    }

    /// Stores `value` under `key` for `lifetime` milliseconds from `now`.
    /// Returns the previous value if it was still live at `now`.
    pub fn set_at(&mut self, key: &str, value: T, lifetime: u64, now: u64) -> (r: Option<T>)
        requires
            old(self).wf(),
        ensures
            final(self).wf(),
            final(self).latest() == old(self).latest(),
            set_post(old(self)@, final(self)@, key@, value, lifetime, now),
            r == live_value(old(self)@, key@, now),
    {
        let item = CacheItem::new(value, now, lifetime);
        let previous = match self.find(key) {
            Some(i) => {
                let (_, old_item) = self.take(i);
                if old_item.is_expired(now) {
                    None
                } else {
                    Some(old_item.value)
                }
            },
            None => None,
        };
        let ghost before = self.items@;
        let ghost mid = self@;
        assert(!mid.contains_key(key@)) by {
            if mid.contains_key(key@) {
                let j = choose|j: int| 0 <= j < before.len() && before[j].0@ == key@;
            }
        }
        self.items.push((key.to_owned(), item));
        self.contents = Ghost(self.contents@.insert(key@, item));
        assert(self.items@.last().0@ == key@);
        assert forall|k: Seq<char>| #[trigger] self.contents@.contains_key(k) implies exists|j: int|
            0 <= j < self.items@.len() && #[trigger] self.items@[j].0@ == k by {
            if k == key@ {
                assert(self.items@[before.len() as int].0@ == k);
            } else {
                let j = choose|j: int| 0 <= j < before.len() && before[j].0@ == k;
                assert(self.items@[j].0@ == k);
            }
        }
        assert(self@ =~= old(self)@.insert(key@, CacheItem { value, creation: now, lifetime }));
        previous
    }

    /// Stores `value` under `key` for `lifetime` milliseconds. Returns the
    /// previous value if it had not expired.
    pub fn set(&mut self, key: &str, value: T, lifetime: u64) -> (r: Option<T>)
        requires
            old(self).wf(),
        ensures
            final(self).wf(),
            final(self).latest() >= old(self).latest(),
            set_post(old(self)@, final(self)@, key@, value, lifetime, final(self).latest()),
            r == live_value(old(self)@, key@, final(self).latest()),
    {
        let now = self.tick();
        self.set_at(key, value, lifetime, now)
    }

    /// Returns a clone of the value under `key` if it is live at `now`; an
    /// expired entry is removed and reported as absent.
    pub fn get_at(&mut self, key: &str, now: u64) -> (r: Option<T>)
        requires
            old(self).wf(),
        ensures
            final(self).wf(),
            final(self).latest() == old(self).latest(),
            get_post(old(self)@, final(self)@, key@, now, r),
    {
        match self.find(key) {
            Some(i) => {
                if self.items[i].1.is_expired(now) {
                    let _ = self.take(i);
                    None
                } else {
                    Some(self.items[i].1.value.clone())
                }
            },
            None => {
                assert(self@ =~= old(self)@.remove(key@));
                None
            },
        }
    }

    /// Returns a clone of the value under `key` if it has not expired; an
    /// expired entry is removed and reported as absent.
    pub fn get(&mut self, key: &str) -> (r: Option<T>)
        requires
            old(self).wf(),
        ensures
            final(self).wf(),
            final(self).latest() >= old(self).latest(),
            get_post(old(self)@, final(self)@, key@, final(self).latest(), r),
    {
        let now = self.tick();
        self.get_at(key, now)
    }

    /// Removes the entry under `key`, returning its value if it was live at
    /// `now`. An expired entry is removed too and reported as absent.
    pub fn del_at(&mut self, key: &str, now: u64) -> (r: Option<T>)
        requires
            old(self).wf(),
        ensures
            final(self).wf(),
            final(self).latest() == old(self).latest(),
            final(self)@ == old(self)@.remove(key@),
            r == live_value(old(self)@, key@, now),
    {
        match self.find(key) {
            Some(i) => {
                let (_, item) = self.take(i);
                if item.is_expired(now) {
                    None
                } else {
                    Some(item.value)
                }
            },
            None => {
                assert(self@ =~= old(self)@.remove(key@));
                None
            },
        }
    }

    /// Removes the entry under `key`, returning its value if it had not
    /// expired. This is a 'pop': at most one caller gets a given value.
    pub fn del(&mut self, key: &str) -> (r: Option<T>)
        requires
            old(self).wf(),
        ensures
            final(self).wf(),
            final(self).latest() >= old(self).latest(),
            final(self)@ == old(self)@.remove(key@),
            r == live_value(old(self)@, key@, final(self).latest()),
    {
        let now = self.tick();
        self.del_at(key, now)
    }

    /// Whether `key` holds a value that is live at `now`.
    pub fn contains_at(&self, key: &str, now: u64) -> (r: bool)
        requires
            self.wf(),
        ensures
            r == is_live(self@, key@, now),
    {
        match self.find(key) {
            Some(i) => !self.items[i].1.is_expired(now),
            None => false,
        }
    }

    /// Whether `key` holds a value that has not expired.
    pub fn contains(&mut self, key: &str) -> (r: bool)
        requires
            old(self).wf(),
        ensures
            final(self).wf(),
            final(self).latest() >= old(self).latest(),
            final(self)@ == old(self)@,
            r == is_live(old(self)@, key@, final(self).latest()),
    {
        let now = self.tick();
        self.contains_at(key, now)
    }

    /// Removes every entry that is expired at `now`.
    pub fn cleanup_at(&mut self, now: u64)
        requires
            old(self).wf(),
        ensures
            final(self).wf(),
            final(self).latest() == old(self).latest(),
            final(self)@ == live_part(old(self)@, now),
    {
        let ghost start = self@;
        let mut i: usize = 0;
        while i < self.items.len()
            invariant
                self.wf(),
                self.latest == old(self).latest,
                i <= self.items@.len(),
                forall|j: int| 0 <= j < i ==> !(#[trigger] self.items@[j].1).spec_is_expired(now),
                forall|k: Seq<char>|
                    #[trigger] self@.contains_key(k) ==> start.contains_key(k) && self@[k] == start[k],
                forall|k: Seq<char>| is_live(start, k, now) ==> #[trigger] self@.contains_key(k),
            decreases self.items@.len() - i,
        {
            if self.items[i].1.is_expired(now) {
                let ghost before = self.items@;
                let ghost last = (before.len() - 1) as int;
                let _ = self.take(i);
                assert forall|j: int| 0 <= j < i implies !(#[trigger] self.items@[j].1).spec_is_expired(
                    now,
                ) by {
                    assert(self.items@[j] == before[j]);
                }
            } else {
                i = i + 1;
            }
        }
        assert forall|k: Seq<char>| #[trigger] self@.contains_key(k) implies is_live(start, k, now) by {
            let j = choose|j: int| 0 <= j < self.items@.len() && #[trigger] self.items@[j].0@ == k;
        }
        assert(self@ =~= live_part(start, now));
    }

    /// Removes every expired entry. Nothing that other operations report
    /// changes: they treat expired entries as absent already.
    pub fn cleanup(&mut self)
        requires
            old(self).wf(),
        ensures
            final(self).wf(),
            final(self).latest() >= old(self).latest(),
            final(self)@ == live_part(old(self)@, final(self).latest()),
    {
        let now = self.tick();
        self.cleanup_at(now)
    }
}

/// A value stored under a key is returned, as a clone, by a read at any time
/// up to the end of its lifetime; the read leaves the contents as they were.
/// For a type whose clones equal their source, the read returns the value
/// itself.
pub proof fn lemma_set_then_get<T: Clone>(
    before: Contents<T>,
    stored: Contents<T>,
    after: Contents<T>,
    key: Seq<char>,
    value: T,
    lifetime: u64,
    set_time: u64,
    get_time: u64,
    r: Option<T>,
)
    requires
        set_post(before, stored, key, value, lifetime, set_time),
        get_time <= set_time + lifetime,
        get_post(stored, after, key, get_time, r),
    ensures
        r matches Some(v) && cloned(value, v),
        after == stored,
{
}

/// Once the lifetime of a value has elapsed, a read returns nothing and
/// removes it, so that the key is then absent at any time.
pub proof fn lemma_expired_then_absent<T: Clone>(
    before: Contents<T>,
    stored: Contents<T>,
    after: Contents<T>,
    key: Seq<char>,
    value: T,
    lifetime: u64,
    set_time: u64,
    get_time: u64,
    r: Option<T>,
    later: u64,
)
    requires
        set_post(before, stored, key, value, lifetime, set_time),
        get_time > set_time + lifetime,
        get_post(stored, after, key, get_time, r),
    ensures
        r is None,
        !is_live(after, key, later),
{
}

/// Deleting is idempotent: a key that is absent or expired gives nothing, and
/// a second deletion gives nothing and changes nothing.
pub proof fn lemma_delete_idempotent<T>(
    m: Contents<T>,
    key: Seq<char>,
    first_time: u64,
    second_time: u64,
)
    ensures
        !is_live(m, key, first_time) ==> live_value(m, key, first_time) is None,
        live_value(m.remove(key), key, second_time) is None,
        m.remove(key).remove(key) == m.remove(key),
{
    assert(m.remove(key).remove(key) =~= m.remove(key));
}

/// Removing expired entries at some time changes nothing that any operation
/// reports from then on.
pub proof fn lemma_cleanup_unobservable<T>(m: Contents<T>, key: Seq<char>, swept: u64, now: u64)
    requires
        swept <= now,
    ensures
        live_value(live_part(m, swept), key, now) == live_value(m, key, now),
        is_live(live_part(m, swept), key, now) == is_live(m, key, now),
{
}

/// Results of deleting `key` again and again, at the given times, starting
/// from contents `m`: the order in which the store's lock admits concurrent
/// callers.
pub open spec fn deletions<T>(m: Contents<T>, key: Seq<char>, times: Seq<u64>) -> Seq<Option<T>>
    decreases times.len(),
{
    if times.len() == 0 {
        Seq::empty()
    } else {
        seq![live_value(m, key, times[0])] + deletions(m.remove(key), key, times.drop_first())
    }
}

/// A call of `del` or `del_at` is one step of `deletions`: its result,
/// followed by the deletions from the contents it leaves, are the deletions
/// from the contents it started from.
pub proof fn lemma_delete_call_is_step<T>(
    before: Contents<T>,
    after: Contents<T>,
    key: Seq<char>,
    now: u64,
    r: Option<T>,
    later: Seq<u64>,
)
    requires
        after == before.remove(key),
        r == live_value(before, key, now),
    ensures
        deletions(before, key, seq![now] + later) == seq![r] + deletions(after, key, later),
{
    assert((seq![now] + later).drop_first() =~= later);
}

/// Of any number of deletions of a key that is live when the first of them
/// runs, exactly that first one gets the value and every later one gets
/// nothing; the key is gone afterwards.
pub proof fn lemma_delete_exactly_once<T>(m: Contents<T>, key: Seq<char>, times: Seq<u64>)
    requires
        times.len() >= 1,
        is_live(m, key, times[0]),
    ensures
        deletions(m, key, times).len() == times.len(),
        deletions(m, key, times)[0] == Some(m[key].value),
        forall|i: int| 1 <= i < times.len() ==> #[trigger] deletions(m, key, times)[i] is None,
{
    lemma_delete_after_removal(m.remove(key), key, times.drop_first());
    assert forall|i: int| 1 <= i < times.len() implies #[trigger] deletions(m, key, times)[i] is None by {
        assert(deletions(m, key, times)[i] == deletions(m.remove(key), key, times.drop_first())[i - 1]);
    }
}

/// Once the key is gone, every deletion gets nothing.
proof fn lemma_delete_after_removal<T>(m: Contents<T>, key: Seq<char>, times: Seq<u64>)
    requires
        !m.contains_key(key),
    ensures
        deletions(m, key, times).len() == times.len(),
        forall|i: int| 0 <= i < times.len() ==> #[trigger] deletions(m, key, times)[i] is None,
    decreases times.len(),
{
    if times.len() > 0 {
        lemma_delete_after_removal(m.remove(key), key, times.drop_first());
        assert(m.remove(key) =~= m);
        assert forall|i: int| 0 <= i < times.len() implies #[trigger] deletions(m, key, times)[i] is None by {
            if i > 0 {
                assert(deletions(m, key, times)[i] == deletions(m.remove(key), key, times.drop_first())[i - 1]);
            }
        }
    }
}

} // verus!
