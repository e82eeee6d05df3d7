//! Per-client admission control.
//!
//! The [`Limiter`] tracks, for every client key (the textual form of a
//! source IP address), how many connections are currently admitted, and
//! refuses a new one once a configured capacity is reached. A capacity of
//! zero disables limiting: every attempt is admitted. A successful attempt
//! yields a [`LimiterGuard`]; handing the guard back to [`Limiter::release`]
//! gives the slot up again, and a key whose count reaches zero is removed
//! from the table entirely rather than left as a zero entry.

use vstd::prelude::*;

verus! {

/// The per-key admission counters, kept in a sharded concurrent map so
/// that connection tasks contending for different keys do not serialize
/// on one lock.
#[verifier::external_body]
pub struct CounterMap {
    inner: dashmap::DashMap<String, usize>,
}

/// What the counter table holds: the admission count per client key.
pub uninterp spec fn counter_contents(m: CounterMap) -> Map<Seq<char>, usize>;

/// The empty counter table.
pub open spec fn empty_counts() -> Map<Seq<char>, usize> {
    Map::empty()
}

impl CounterMap {
    /// Relies on `dashmap::DashMap::new`: a freshly created map is empty.
    #[verifier::external_body]
    fn new() -> (r: CounterMap)
        ensures
            counter_contents(r) == empty_counts(),
    {
        CounterMap { inner: dashmap::DashMap::new() }
    }

    /// Relies on `dashmap::DashMap::get`: returns the value stored under
    /// the key, or nothing when the key is absent.
    #[verifier::external_body]
    fn get(&self, key: &String) -> (r: Option<usize>)
        ensures
            r == (if counter_contents(*self).dom().contains(key@) {
                Some(counter_contents(*self)[key@])
            } else {
                None::<usize>
            }),
    {
        self.inner.get(key).map(|v| *v)
    }

    /// Relies on `dashmap::DashMap::insert`: stores the value under the
    /// key, replacing any previous value.
    #[verifier::external_body]
    fn set(&mut self, key: &String, value: usize)
        ensures
            counter_contents(*final(self)) == counter_contents(*old(self)).insert(key@, value),
    {
        self.inner.insert(key.clone(), value);
    }

    /// Relies on `dashmap::DashMap::remove`: takes the key's entry out of
    /// the map, if there is one.
    #[verifier::external_body]
    fn remove(&mut self, key: &String)
        ensures
            counter_contents(*final(self)) == counter_contents(*old(self)).remove(key@),
    {
        self.inner.remove(key);
    }
}

/// The count a table holds for a key, reading zero for an absent key.
pub open spec fn spec_count(m: Map<Seq<char>, usize>, k: Seq<char>) -> usize {
    if m.dom().contains(k) {
        m[k]
    } else {
        0
    }
}

/// One release step: the key's count goes down by one, and an entry
/// reaching zero is removed rather than kept.
pub open spec fn spec_release(m: Map<Seq<char>, usize>, k: Seq<char>) -> Map<Seq<char>, usize> {
    if m.dom().contains(k) {
        if m[k] > 1 {
            m.insert(k, (m[k] - 1) as usize)
        } else {
            m.remove(k)
        }
    } else {
        m
    }
}

/// The admission limiter: per-key counts and a fixed capacity.
pub struct Limiter {
    counters: CounterMap,
    max_count: usize,
}

/// The scoped right to one admitted connection for one client key.
/// It is released exactly once, by [`Limiter::release`].
pub struct LimiterGuard {
    key: String,
}

impl LimiterGuard {
    /// The client key the guard was issued for.
    pub closed spec fn key_view(&self) -> Seq<char> {
        self.key@
    }
}

impl Limiter {
    /// The counts currently tracked, one entry per key with at least one
    /// outstanding permit.
    pub closed spec fn counts(&self) -> Map<Seq<char>, usize> {
        counter_contents(self.counters)
    }

    /// The configured capacity; zero disables limiting.
    pub closed spec fn capacity(&self) -> usize {
        self.max_count
    }

    /// The number of permits outstanding for a key.
    pub open spec fn count_of(&self, k: Seq<char>) -> usize {
        spec_count(self.counts(), k)
    }

    /// Every tracked entry is live (no zero entries are retained), and
    /// with limiting enabled no key exceeds the capacity.
    pub open spec fn wf(&self) -> bool {
        forall|k: Seq<char>|
            #[trigger] self.counts().dom().contains(k) ==> 1 <= self.counts()[k]
                && (self.capacity() > 0 ==> self.counts()[k] <= self.capacity())
    }

    /// An attempt for a key succeeds exactly when limiting is disabled or
    /// the key's count is still below the capacity.
    pub open spec fn acquire_allowed(&self, k: Seq<char>) -> bool {
        self.capacity() == 0 || self.count_of(k) < self.capacity()
    }

    /// Create a limiter with the given capacity and no tracked keys.
    pub fn new(limit: usize) -> (r: Limiter)
        ensures
            r.wf(),
            r.capacity() == limit,
            r.counts() == empty_counts(),
    {
        Limiter { counters: CounterMap::new(), max_count: limit }
    }

    /// Limiting is in force exactly when the configured capacity is
    /// positive.
    pub fn is_limit_enabled(&self) -> (r: bool)
        ensures
            r == (self.capacity() > 0),
    {
        self.max_count > 0
    }

    /// Atomically test and take one admission slot for `key`.
    ///
    /// Succeeds, counting the key up by one and returning a guard, exactly
    /// when limiting is disabled or the key's count is below the capacity;
    /// refuses with no side effect otherwise.
    pub fn try_acquire(&mut self, key: String) -> (r: Option<LimiterGuard>)
        requires
            old(self).wf(),
            old(self).capacity() == 0 ==> old(self).count_of(key@) < usize::MAX,
        ensures
            final(self).wf(),
            final(self).capacity() == old(self).capacity(),
            r is Some <==> old(self).acquire_allowed(key@),
            r matches Some(g) ==> g.key_view() == key@,
            r is Some ==> final(self).counts() == old(self).counts().insert(
                key@,
                (old(self).count_of(key@) + 1) as usize,
            ),
            r is None ==> final(self).counts() == old(self).counts(),
    {
        match self.counters.get(&key) {
            Some(current) => {
                if self.max_count == 0 || current < self.max_count {
                    self.counters.set(&key, current + 1);
                    proof {
                        lemma_wf_after_insert(*old(self), *self, key@, (current + 1) as usize);
                    }
                    Some(LimiterGuard { key })
                } else {
                    None
                }
            },
            None => {
                self.counters.set(&key, 1);
                proof {
                    lemma_wf_after_insert(*old(self), *self, key@, 1);
                }
                Some(LimiterGuard { key })
            },
        }
    }

    /// The tracked count for a key: the entry's value while permits are
    /// outstanding, and nothing at all — no zero entry — once the key's
    /// last permit is released.
    pub fn current_count(&self, key: &String) -> (r: Option<usize>)
        ensures
            r == (if self.counts().dom().contains(key@) {
                Some(self.counts()[key@])
            } else {
                None::<usize>
            }),
    {
        self.counters.get(key)
    }

    /// Give one admission slot for the guard's key back: the count goes
    /// down by one, and a key whose count reaches zero is removed
    /// entirely. The guard is consumed, so each permit is released
    /// exactly once.
    pub fn release(&mut self, guard: LimiterGuard)
        requires
            old(self).wf(),
        ensures
            final(self).wf(),
            final(self).capacity() == old(self).capacity(),
            final(self).counts() == spec_release(old(self).counts(), guard.key_view()),
    {
        match self.counters.get(&guard.key) {
            Some(current) => {
                if current > 1 {
                    self.counters.set(&guard.key, current - 1);
                } else {
                    self.counters.remove(&guard.key);
                }
                proof {
                    lemma_wf_after_release(*old(self), *self, guard.key_view());
                }
            },
            None => {},
        }
    }
}

/// A limiter stays well formed when one key's count is set to a live
/// value within the capacity.
proof fn lemma_wf_after_insert(pre: Limiter, post: Limiter, k: Seq<char>, v: usize)
    requires
        pre.wf(),
        post.capacity() == pre.capacity(),
        post.counts() == pre.counts().insert(k, v),
        1 <= v,
        pre.capacity() > 0 ==> v <= pre.capacity(),
    ensures
        post.wf(),
{
    assert forall|j: Seq<char>| #[trigger] post.counts().dom().contains(j) implies 1
        <= post.counts()[j] && (post.capacity() > 0 ==> post.counts()[j] <= post.capacity()) by {
        if j != k {
            assert(pre.counts().dom().contains(j));
        }
    }
}

/// A limiter stays well formed across one release step.
proof fn lemma_wf_after_release(pre: Limiter, post: Limiter, k: Seq<char>)
    requires
        pre.wf(),
        post.capacity() == pre.capacity(),
        post.counts() == spec_release(pre.counts(), k),
    ensures
        post.wf(),
{
    assert forall|j: Seq<char>| #[trigger] post.counts().dom().contains(j) implies 1
        <= post.counts()[j] && (post.capacity() > 0 ==> post.counts()[j] <= post.capacity()) by {
        assert(pre.counts().dom().contains(j));
    }
}

/// With limiting enabled, at most `capacity` permits are ever outstanding
/// for any one key.
pub proof fn lemma_counts_bounded(l: Limiter, k: Seq<char>)
    requires
        l.wf(),
        l.capacity() > 0,
    ensures
        l.count_of(k) <= l.capacity(),
{
}

/// With limiting enabled, an attempt for a saturated key — one whose
/// outstanding permits already equal the capacity — is refused.
pub proof fn lemma_saturated_refused(l: Limiter, k: Seq<char>)
    requires
        l.capacity() > 0,
        l.count_of(k) == l.capacity(),
    ensures
        !l.acquire_allowed(k),
{
}

/// With limiting disabled (capacity zero), every attempt is admitted,
/// whatever is outstanding.
pub proof fn lemma_disabled_always_allowed(l: Limiter, k: Seq<char>)
    requires
        l.capacity() == 0,
    ensures
        l.acquire_allowed(k),
{
}

/// After any one release for a key, a following attempt for that key
/// succeeds: with limiting enabled, the released key's count is strictly
/// below the capacity again.
pub proof fn lemma_release_reopens(l: Limiter, k: Seq<char>)
    requires
        l.wf(),
        l.capacity() > 0,
    ensures
        spec_count(spec_release(l.counts(), k), k) < l.capacity(),
{
}

/// A release counts its key down by one, and no other key moves.
pub proof fn lemma_release_counts_down(m: Map<Seq<char>, usize>, k: Seq<char>, other: Seq<char>)
    ensures
        spec_count(spec_release(m, k), k) == (if spec_count(m, k) > 0 {
            spec_count(m, k) - 1
        } else {
            0
        }),
        other != k ==> spec_count(spec_release(m, k), other) == spec_count(m, other),
{
}

/// Releasing the last permit for a key removes its entry: the table
/// afterwards shows no trace of the key.
pub proof fn lemma_release_last_removes(m: Map<Seq<char>, usize>, k: Seq<char>)
    requires
        spec_count(m, k) <= 1,
    ensures
        !spec_release(m, k).dom().contains(k),
{
}

} // verus!
