//! A bounded per-thread pool of reusable text buffers, used to format span and event text.
use vstd::prelude::*;
use vstd::string::StringExecFns;

verus! {

broadcast use vstd::seq_lib::group_to_multiset_ensures;

/// The capacity of a buffer allocated when the pool is empty.
pub const DEFAULT_BUFFER_CAPACITY: usize = 64;

/// The budget of a new cache, in bytes of buffer capacity.
pub const DEFAULT_MAX_CACHE_SIZE: usize = 8192;

/// A cached buffer with the capacity that the cache tracks for it.
pub struct CachedBuffer {
    pub text: String,
    pub capacity: usize,
}

/// The sum of the tracked capacities of some buffers.
pub open spec fn total_capacity(bufs: Seq<CachedBuffer>) -> nat
    decreases bufs.len(),
{
    if bufs.len() == 0 {
        0
    } else {
        total_capacity(bufs.drop_last()) + bufs.last().capacity as nat
    }
}

/// Whether a returned buffer of this capacity is dropped rather than cached.
pub open spec fn drops_buffer(total: nat, max: nat, capacity: nat) -> bool {
    total + capacity >= usize::MAX || capacity == 0 || max == 0
}

/// `after` is `before` with an empty buffer of this capacity added, then sorted by capacity, then
/// without one buffer of the largest capacity.
pub open spec fn cached_then_evicted(
    before: Seq<CachedBuffer>,
    capacity: nat,
    after: Seq<CachedBuffer>,
) -> bool {
    exists|b: CachedBuffer, e: CachedBuffer|
        #![trigger before.push(b), after.push(e)]
        {
            &&& b.capacity == capacity
            &&& b.text@ == Seq::<char>::empty()
            &&& after.push(e).to_multiset() == before.push(b).to_multiset()
            &&& forall|i: int| 0 <= i < after.len() ==> after[i].capacity <= e.capacity
            &&& forall|i: int, j: int|
                0 <= i < j < after.len() ==> after[i].capacity <= after[j].capacity
        }
}

/// Relies on `String::with_capacity`: a new empty string.
#[verifier::external_body]
fn empty_buffer(capacity: usize) -> (r: String)
    ensures
        r@ == Seq::<char>::empty(),
{
    String::with_capacity(capacity)
}

/// Relies on `String::capacity`: the allocator decides the value, so nothing is stated of it.
#[verifier::external_body]
fn capacity_of(s: &String) -> (r: usize) {
    s.capacity()
}

/// Relies on `String::clear`: the contents are removed (the capacity is kept).
#[verifier::external_body]
fn clear_text(s: &mut String)
    ensures
        final(s)@ == Seq::<char>::empty(),
{
    s.clear()
}

/// Relies on `slice::sort_unstable_by_key`: the same buffers, in ascending order of capacity.
#[verifier::external_body]
fn sort_by_capacity(bufs: &mut Vec<CachedBuffer>)
    ensures
        final(bufs)@.to_multiset() == old(bufs)@.to_multiset(),
        forall|i: int, j: int|
            0 <= i < j < final(bufs)@.len() ==> final(bufs)@[i].capacity <= final(bufs)@[j].capacity,
{
    bufs.sort_unstable_by_key(|b| b.capacity)
}

proof fn lemma_total_remove(s: Seq<CachedBuffer>, i: int)
    requires
        0 <= i < s.len(),
    ensures
        total_capacity(s) == total_capacity(s.remove(i)) + s[i].capacity,
    decreases s.len(),
{
    if i == s.len() - 1 {
        assert(s.remove(i) =~= s.drop_last());
    } else {
        assert(s.remove(i).drop_last() =~= s.drop_last().remove(i));
        assert(s.remove(i).last() == s.last());
        lemma_total_remove(s.drop_last(), i);
    }
}

proof fn lemma_total_permutation(a: Seq<CachedBuffer>, b: Seq<CachedBuffer>)
    requires
        a.to_multiset() == b.to_multiset(),
    ensures
        total_capacity(a) == total_capacity(b),
    decreases a.len(),
{
    if a.len() == 0 {
        assert(b.to_multiset().len() == 0);
        assert(b =~= Seq::<CachedBuffer>::empty());
    } else {
        let x = a.last();
        assert(a.contains(x));
        assert(b.to_multiset().count(x) > 0);
        assert(b.contains(x));
        let k = choose|k: int| 0 <= k < b.len() && b[k] == x;
        assert(a.drop_last() =~= a.remove(a.len() - 1));
        lemma_total_permutation(a.drop_last(), b.remove(k));
        lemma_total_remove(b, k);
    }
}

/// A buffer handed out by a cache, returned to it by `StrCache::release`.
pub struct StrCacheGuard {
    buf: String,
}

impl View for StrCacheGuard {
    type V = Seq<char>;

    closed spec fn view(&self) -> Seq<char> {
        self.buf@
    }
}

impl StrCacheGuard {
    /// Wraps a buffer.
    pub fn new(buf: String) -> (r: Self)
        ensures
            r@ == buf@,
    {
        StrCacheGuard { buf }
    }

    /// Takes the buffer out, so that it is not returned to a cache.
    pub fn into_inner(self) -> (r: String)
        ensures
            r@ == self@,
    {
        self.buf
    }

    /// Appends text to the buffer.
    pub fn push_str(&mut self, s: &str)
        ensures
            final(self)@ == old(self)@ + s@,
    {
        self.buf.append(s);
    }

    /// The text in the buffer.
    pub fn as_str(&self) -> (r: &str)
        ensures
            r@ == self@,
    {
        self.buf.as_str()
    }
}

/// A pool of cleared buffers with the running total of their capacities and a budget.
pub struct StrCache {
    str_bufs: Vec<CachedBuffer>,
    total_size: usize,
    max_size: usize,
}

impl StrCache {
    /// The cached buffers, the most recently returned last.
    pub closed spec fn pool(&self) -> Seq<CachedBuffer> {
        self.str_bufs@
    }

    /// The running total of the tracked capacities.
    pub closed spec fn total(&self) -> nat {
        self.total_size as nat
    }

    /// The budget, in bytes of capacity; zero disables caching.
    pub closed spec fn max(&self) -> nat {
        self.max_size as nat
    }

    /// The total is that of the pool, and every cached buffer is empty with a nonzero capacity.
    pub open spec fn wf(&self) -> bool {
        &&& self.total() == total_capacity(self.pool())
        &&& forall|i: int|
            0 <= i < self.pool().len() ==> #[trigger] self.pool()[i].text@ == Seq::<char>::empty()
                && self.pool()[i].capacity > 0
    }

    /// An empty cache with the default budget.
    pub fn new() -> (r: Self)
        ensures
            r.wf(),
            r.pool() == Seq::<CachedBuffer>::empty(),
            r.max() == DEFAULT_MAX_CACHE_SIZE,
    {
        let r = StrCache { str_bufs: Vec::new(), total_size: 0, max_size: DEFAULT_MAX_CACHE_SIZE };
        assert(r.pool() =~= Seq::<CachedBuffer>::empty());
        r
    }

    /// Hands out an empty buffer: the most recently returned one if the pool holds any, else a
    /// new one of the default capacity.
    pub fn acquire(&mut self) -> (r: StrCacheGuard)
        requires
            old(self).wf(),
        ensures
            final(self).wf(),
            r@ == Seq::<char>::empty(),
            final(self).max() == old(self).max(),
            old(self).pool().len() == 0 ==> final(self).pool() == old(self).pool() && final(self).total() == old(self).total(),
            old(self).pool().len() > 0 ==> final(self).pool() == old(self).pool().drop_last()
                && final(self).total() == old(self).total() - old(self).pool().last().capacity,
            final(self).total() <= old(self).total(),
    {
        match self.str_bufs.pop() {
            Some(cached) => {
                assert(old(self).pool().last() == cached);
                assert(cached.text@ == old(self).pool()[old(self).pool().len() - 1].text@);
                self.total_size = self.total_size - cached.capacity;
                assert forall|i: int| 0 <= i < self.pool().len() implies #[trigger] self.pool()[i].text@
                    == Seq::<char>::empty() && self.pool()[i].capacity > 0 by {
                    assert(self.pool()[i] == old(self).pool()[i]);
                    assert(old(self).pool()[i].text@ == Seq::<char>::empty());
                }
                StrCacheGuard::new(cached.text)
            },
            None => StrCacheGuard::new(empty_buffer(DEFAULT_BUFFER_CAPACITY)),
        }
    }

    /// Returns a buffer whose capacity was measured as `capacity`. It is dropped when caching is
    /// disabled, when its capacity is zero, or when the total would reach `usize::MAX`. Otherwise
    /// it is cleared and cached; if the total then exceeds the budget, the pool is sorted by
    /// capacity and the largest buffer is evicted.
    pub fn release_with_capacity(&mut self, buf: String, capacity: usize)
        requires
            old(self).wf(),
        ensures
            final(self).wf(),
            final(self).max() == old(self).max(),
            drops_buffer(old(self).total(), old(self).max(), capacity as nat) ==> final(self).pool()
                == old(self).pool() && final(self).total() == old(self).total(),
            !drops_buffer(old(self).total(), old(self).max(), capacity as nat) && old(self).total()
                + capacity <= old(self).max() ==> {
                &&& final(self).pool().len() == old(self).pool().len() + 1
                &&& final(self).pool().drop_last() == old(self).pool()
                &&& final(self).pool().last().capacity == capacity
                &&& final(self).pool().last().text@ == Seq::<char>::empty()
                &&& final(self).total() == old(self).total() + capacity
            },
            !drops_buffer(old(self).total(), old(self).max(), capacity as nat) && old(self).total()
                + capacity > old(self).max() ==> cached_then_evicted(
                old(self).pool(),
                capacity as nat,
                final(self).pool(),
            ) && final(self).pool().len() == old(self).pool().len()
                && final(self).total() <= old(self).total(),
            old(self).total() <= old(self).max() ==> final(self).total() <= final(self).max(),
    {
        if capacity >= usize::MAX - self.total_size || capacity == 0 || self.max_size == 0 {
            return;
        }
        let mut buf = buf;
        clear_text(&mut buf);
        let new_total = self.total_size + capacity;
        let ghost before = self.pool();
        self.str_bufs.push(CachedBuffer { text: buf, capacity });
        self.total_size = new_total;
        assert(self.pool() == before.push(CachedBuffer { text: buf, capacity }));
        assert(self.pool().drop_last() =~= before);
        assert(total_capacity(self.pool()) == total_capacity(before) + capacity);
        assert forall|i: int| 0 <= i < self.pool().len() implies #[trigger] self.pool()[i].text@
            == Seq::<char>::empty() && self.pool()[i].capacity > 0 by {
            if i < before.len() {
                assert(self.pool()[i] == before[i]);
            }
        }
        assert(self.wf());
        if new_total > self.max_size {
            let ghost full = self.pool();
            sort_by_capacity(&mut self.str_bufs);
            proof {
                lemma_total_permutation(full, self.pool());
            }
            let ghost sorted = self.pool();
            assert(sorted.to_multiset().len() == full.to_multiset().len());
            assert(sorted.len() == full.len());
            assert forall|i: int| 0 <= i < sorted.len() implies #[trigger] sorted[i].text@
                == Seq::<char>::empty() && sorted[i].capacity > 0 by {
                assert(sorted.contains(sorted[i]));
                assert(sorted.to_multiset().count(sorted[i]) > 0);
                assert(full.to_multiset().count(sorted[i]) > 0);
                assert(full.contains(sorted[i]));
                let m = choose|m: int| 0 <= m < full.len() && full[m] == sorted[i];
                assert(full[m].text@ == Seq::<char>::empty());
            }
            let trimmed = self.str_bufs.pop();
            match trimmed {
                Some(t) => {
                    assert(sorted.drop_last() == self.pool());
                    self.total_size = self.total_size - t.capacity;
                    assert(self.pool().push(t) =~= sorted);
                    assert(total_capacity(sorted) == total_capacity(self.pool()) + t.capacity);
                    assert(total_capacity(sorted) == total_capacity(self.pool()) + t.capacity);
                    assert(full.contains(full.last()));
                    assert(full.to_multiset().count(full.last()) > 0);
                    assert(sorted.to_multiset().count(full.last()) > 0);
                    assert(sorted.contains(full.last()));
                    let ghost k = choose|k: int| 0 <= k < sorted.len() && sorted[k] == full.last();
                    assert(sorted[k].capacity <= sorted.last().capacity);
                    assert(full == before.push(full.last()));
                    assert(self.pool().push(t).to_multiset() == before.push(full.last()).to_multiset());
                    assert forall|i: int| 0 <= i < self.pool().len() implies self.pool()[i].capacity
                        <= t.capacity by {
                        assert(self.pool()[i] == sorted[i]);
                    }
                    assert forall|i: int, j: int|
                        0 <= i < j < self.pool().len() implies self.pool()[i].capacity
                        <= self.pool()[j].capacity by {
                        assert(self.pool()[i] == sorted[i]);
                        assert(self.pool()[j] == sorted[j]);
                    }
                    assert forall|i: int| 0 <= i < self.pool().len() implies #[trigger] self.pool()[i].text@
                        == Seq::<char>::empty() && self.pool()[i].capacity > 0 by {
                        assert(self.pool()[i] == sorted[i]);
                    }
                },
                None => {},
            }
        }
    }

    /// Returns a guard's buffer to the cache, measuring its capacity first. Whatever the
    /// allocator gave, the budget stays respected: a cache within its budget stays within it.
    pub fn release(&mut self, guard: StrCacheGuard)
        requires
            old(self).wf(),
        ensures
            final(self).wf(),
            final(self).max() == old(self).max(),
            final(self).pool().len() <= old(self).pool().len() + 1,
            old(self).total() <= old(self).max() ==> final(self).total() <= final(self).max(),
    {
        let buf = guard.into_inner();
        let capacity = capacity_of(&buf);
        self.release_with_capacity(buf, capacity);
    }

    /// The running total of cached capacity, in bytes.
    pub fn cached_bytes(&self) -> (r: usize)
        ensures
            r == self.total(),
    {
        self.total_size
    }

    /// How many buffers are cached.
    pub fn len(&self) -> (r: usize)
        ensures
            r == self.pool().len(),
    {
        self.str_bufs.len()
    }

    /// The budget, in bytes of capacity.
    pub fn max_cache_size(&self) -> (r: usize)
        ensures
            r == self.max(),
    {
        self.max_size
    }
}

/// Sets the budget of a cache, in bytes of buffer capacity. Zero disables caching and
/// `usize::MAX` leaves it unlimited. Buffers already cached are kept: the new budget takes effect
/// at the next release.
pub fn set_max_cache_size(cache: &mut StrCache, max_bytes_used_per_thread: usize)
    requires
        old(cache).wf(),
    ensures
        final(cache).wf(),
        final(cache).max() == max_bytes_used_per_thread,
        final(cache).pool() == old(cache).pool(),
        final(cache).total() == old(cache).total(),
{
    cache.max_size = max_bytes_used_per_thread;
}

} // verus!
