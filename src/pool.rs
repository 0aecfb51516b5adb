//! A pool of reusable UTF-16 buffers for converting many strings.
use vstd::prelude::*;
use vstd::string::StringExecFns;

use crate::builder::vec_capacity;
use crate::string::{from_wide, push_utf16, utf16_len, utf16_length, utf16_of, wide_of};
use crate::wide_string::{content_len, lossy_text, WideString, INLINE_CAP};

verus! {

/// Buffers kept by a pool made with `new`.
pub const DEFAULT_MAX_SIZE: usize = 16;

/// Largest buffer capacity, in code units, kept by a pool made with `new`.
pub const DEFAULT_MAX_CAPACITY: usize = 4096;

/// Whether a returned buffer is kept: the pool has room, and the buffer is not too large.
pub open spec fn keeps_buffer(count: nat, max_size: usize, capacity: usize, max_capacity: usize) -> bool {
    count < max_size && capacity <= max_capacity
}

/// The index of the first capacity, in order, that is at least `required`.
pub open spec fn first_fit_spec(caps: Seq<usize>, required: usize) -> Option<int>
    decreases caps.len(),
{
    if caps.len() == 0 {
        None
    } else {
        match first_fit_spec(caps.drop_last(), required) {
            Some(i) => Some(i),
            None => if caps.last() >= required {
                Some(caps.len() - 1)
            } else {
                None
            },
        }
    }
}

/// The first fit is the least index whose capacity is large enough; there is
/// none exactly when no capacity is.
pub proof fn lemma_first_fit_spec(caps: Seq<usize>, required: usize)
    ensures
        match first_fit_spec(caps, required) {
            Some(i) => 0 <= i < caps.len() && caps[i] >= required && forall|j: int|
                0 <= j < i ==> caps[j] < required,
            None => forall|j: int| 0 <= j < caps.len() ==> caps[j] < required,
        },
    decreases caps.len(),
{
    if caps.len() > 0 {
        lemma_first_fit_spec(caps.drop_last(), required);
        assert forall|j: int| 0 <= j < caps.len() - 1 implies caps.drop_last()[j] == caps[j] by {}
    }
}

/// The pool after its buffer at `i` is taken out: the last buffer moves into
/// its place.
pub open spec fn swap_removed(caps: Seq<usize>, i: int) -> Seq<usize> {
    caps.update(i, caps.last()).drop_last()
}

/// First-fit search: the index of the first capacity, in pool order, that is at
/// least `required`.
pub fn first_fit(caps: &Vec<usize>, required: usize) -> (r: Option<usize>)
    ensures
        match r {
            Some(i) => first_fit_spec(caps@, required) == Some(i as int),
            None => first_fit_spec(caps@, required) is None,
        },
{
    proof {
        lemma_first_fit_spec(caps@, required);
    }
    let mut i: usize = 0;
    while i < caps.len()
        invariant
            i <= caps@.len(),
            forall|j: int| 0 <= j < i ==> caps@[j] < required,
            match first_fit_spec(caps@, required) {
                Some(k) => 0 <= k < caps@.len() && caps@[k] >= required && forall|j: int|
                    0 <= j < k ==> caps@[j] < required,
                None => forall|j: int| 0 <= j < caps@.len() ==> caps@[j] < required,
            },
        decreases caps@.len() - i,
    {
        if caps[i] >= required {
            return Some(i);
        }
        i = i + 1;
    }
    None
}

/// The units a pool asks of a buffer for `n` code units: those and a terminator.
pub open spec fn required_for(n: nat) -> usize {
    if n + 1 <= usize::MAX {
        (n + 1) as usize
    } else {
        usize::MAX
    }
}

/// A cache of empty buffers, handed out by `get` and taken back by `put`.
/// Each held buffer comes with the capacity it had when it entered the pool.
pub struct WideStringPool {
    pool: Vec<Vec<u16>>,
    caps: Vec<usize>,
    max_size: usize,
    max_capacity: usize,
}

/// A null-terminated UTF-16 string in a buffer checked out of a pool.
pub struct PooledWideString {
    buffer: Vec<u16>,
    checkout_capacity: Ghost<usize>,
}

impl View for PooledWideString {
    type V = Seq<u16>;

    /// The whole buffer, terminator included.
    closed spec fn view(&self) -> Seq<u16> {
        self.buffer@
    }
}

impl PooledWideString {
    /// The capacity of the buffer when it was checked out: the one recorded
    /// by the pool, or the one of the new buffer.
    pub closed spec fn capacity_at_checkout(&self) -> usize {
        self.checkout_capacity@
    }
}

impl WideStringPool {
    /// The pool's own bounds hold: at most `max_size` buffers, all empty, each
    /// with its recorded capacity.
    pub closed spec fn wf(&self) -> bool {
        &&& self.pool@.len() == self.caps@.len()
        &&& self.pool@.len() <= self.max_size
        &&& forall|i: int| 0 <= i < self.pool@.len() ==> (#[trigger] self.pool@[i])@.len() == 0
    }

    /// The recorded capacities of the held buffers, in pool order.
    pub closed spec fn caps(&self) -> Seq<usize> {
        self.caps@
    }

    /// The number of buffers held.
    pub open spec fn count(&self) -> nat {
        self.caps().len()
    }

    /// The most buffers the pool keeps.
    pub closed spec fn max_size(&self) -> usize {
        self.max_size
    }

    /// The largest capacity of a buffer that the pool keeps.
    pub closed spec fn max_capacity(&self) -> usize {
        self.max_capacity
    }

    /// An empty pool keeping up to 16 buffers of up to 4096 units.
    pub fn new() -> (r: WideStringPool)
        ensures
            r.wf(),
            r.caps() == Seq::<usize>::empty(),
            r.max_size() == DEFAULT_MAX_SIZE,
            r.max_capacity() == DEFAULT_MAX_CAPACITY,
    {
        WideStringPool {
            pool: Vec::new(),
            caps: Vec::new(),
            max_size: DEFAULT_MAX_SIZE,
            max_capacity: DEFAULT_MAX_CAPACITY,
        }
    }

    /// An empty pool with the given bounds.
    pub fn with_limits(max_size: usize, max_capacity: usize) -> (r: WideStringPool)
        ensures
            r.wf(),
            r.caps() == Seq::<usize>::empty(),
            r.max_size() == max_size,
            r.max_capacity() == max_capacity,
    {
        WideStringPool {
            pool: Vec::with_capacity(max_size),
            caps: Vec::with_capacity(max_size),
            max_size,
            max_capacity,
        }
    }

    /// A pool holding `count` empty buffers of room for `capacity` units; it
    /// keeps at most `count` buffers, of up to `capacity` or 4096 units,
    /// whichever is larger.
    pub fn with_preallocated(count: usize, capacity: usize) -> (r: WideStringPool)
        ensures
            r.wf(),
            r.count() == count,
            r.max_size() == count,
            r.max_capacity() == if capacity >= DEFAULT_MAX_CAPACITY {
                capacity
            } else {
                DEFAULT_MAX_CAPACITY
            },
    {
        let limit = if capacity >= DEFAULT_MAX_CAPACITY {
            capacity
        } else {
            DEFAULT_MAX_CAPACITY
        };
        let mut pool = WideStringPool::with_limits(count, limit);
        let mut i: usize = 0;
        while i < count
            invariant
                i <= count,
                pool.pool@.len() == i,
                pool.caps@.len() == i,
                pool.max_size == count,
                pool.max_capacity == limit,
                forall|j: int| 0 <= j < pool.pool@.len() ==> (#[trigger] pool.pool@[j])@.len() == 0,
            decreases count - i,
        {
            let buffer: Vec<u16> = Vec::with_capacity(capacity);
            let cap = vec_capacity(&buffer);
            pool.pool.push(buffer);
            pool.caps.push(cap);
            i = i + 1;
        }
        pool
    }

    /// Takes out the first buffer whose recorded capacity is at least
    /// `required` (the last buffer takes its place), or makes a new one.
    fn take_buffer(&mut self, required: usize) -> (r: (Vec<u16>, Ghost<usize>))
        requires
            old(self).wf(),
        ensures
            final(self).wf(),
            final(self).max_size == old(self).max_size,
            final(self).max_capacity == old(self).max_capacity,
            match first_fit_spec(old(self).caps(), required) {
                Some(i) => final(self).caps() == swap_removed(old(self).caps(), i)
                    && r.1@ == old(self).caps()[i],
                None => final(self).caps() == old(self).caps(),
            },
    {
        match first_fit(&self.caps, required) {
            Some(idx) => {
                proof {
                    lemma_first_fit_spec(self.caps@, required);
                }
                let buffer = self.pool.swap_remove(idx);
                let cap = self.caps.swap_remove(idx);
                proof {
                    assert forall|j: int| 0 <= j < self.pool@.len() implies (
                    #[trigger] self.pool@[j])@.len() == 0 by {
                        if j == idx {
                            assert(self.pool@[j] == old(self).pool@[old(self).pool@.len() - 1]);
                        } else {
                            assert(self.pool@[j] == old(self).pool@[j]);
                        }
                    }
                }
                (buffer, Ghost(cap))
            },
            None => {
                let buffer: Vec<u16> = Vec::with_capacity(required);
                let cap = vec_capacity(&buffer);
                (buffer, Ghost(cap))
            },
        }
    }

    /// Converts `s` into a buffer taken from the pool: the first one whose
    /// recorded capacity has room for the encoding and its terminator, with
    /// the last buffer moved into its place. When none has room, the pool is
    /// left as it is and a new buffer is used.
    pub fn get(&mut self, s: &str) -> (r: PooledWideString)
        requires
            old(self).wf(),
        ensures
            r@ == wide_of(s@),
            final(self).wf(),
            final(self).max_size() == old(self).max_size(),
            final(self).max_capacity() == old(self).max_capacity(),
            match first_fit_spec(old(self).caps(), required_for(utf16_length(s@))) {
                Some(i) => final(self).caps() == swap_removed(old(self).caps(), i)
                    && r.capacity_at_checkout() == old(self).caps()[i],
                None => final(self).caps() == old(self).caps(),
            },
    {
        let required = utf16_len(s).saturating_add(1);
        let (mut buffer, cap) = self.take_buffer(required);
        buffer.clear();
        push_utf16(&mut buffer, s);
        buffer.push(0);
        proof {
            assert(Seq::<u16>::empty() + utf16_of(s@) =~= utf16_of(s@));
        }
        PooledWideString { buffer, checkout_capacity: cap }
    }

    /// Like `get`, for a path given by its native UTF-16 units.
    pub fn get_path(&mut self, path: &[u16]) -> (r: PooledWideString)
        requires
            old(self).wf(),
        ensures
            r@ == path@.push(0u16),
            final(self).wf(),
            final(self).max_size() == old(self).max_size(),
            final(self).max_capacity() == old(self).max_capacity(),
            match first_fit_spec(old(self).caps(), required_for(path@.len())) {
                Some(i) => final(self).caps() == swap_removed(old(self).caps(), i)
                    && r.capacity_at_checkout() == old(self).caps()[i],
                None => final(self).caps() == old(self).caps(),
            },
    {
        let required = path.len().saturating_add(1);
        let (mut buffer, cap) = self.take_buffer(required);
        buffer.clear();
        let mut i: usize = 0;
        while i < path.len()
            invariant
                i <= path@.len(),
                buffer@ == path@.subrange(0, i as int),
            decreases path@.len() - i,
        {
            buffer.push(path[i]);
            i = i + 1;
            proof {
                assert(buffer@ =~= path@.subrange(0, i as int));
            }
        }
        buffer.push(0);
        proof {
            assert(path@.subrange(0, path@.len() as int) =~= path@);
        }
        PooledWideString { buffer, checkout_capacity: cap }
    }

    /// Takes back `buffer`, whose capacity is `cap`: it is emptied and added at
    /// the end when the pool holds fewer than `max_size` buffers and `cap` is
    /// at most `max_capacity`; otherwise it is dropped.
    pub fn keep_or_drop(&mut self, buffer: Vec<u16>, cap: usize)
        requires
            old(self).wf(),
        ensures
            final(self).wf(),
            final(self).max_size() == old(self).max_size(),
            final(self).max_capacity() == old(self).max_capacity(),
            final(self).caps() == if keeps_buffer(
                old(self).count(),
                old(self).max_size(),
                cap,
                old(self).max_capacity(),
            ) {
                old(self).caps().push(cap)
            } else {
                old(self).caps()
            },
    {
        let mut buffer = buffer;
        if self.caps.len() < self.max_size && cap <= self.max_capacity {
            buffer.clear();
            self.pool.push(buffer);
            self.caps.push(cap);
            proof {
                assert forall|j: int| 0 <= j < self.pool@.len() implies (
                #[trigger] self.pool@[j])@.len() == 0 by {
                    if j < old(self).pool@.len() {
                        assert(self.pool@[j] == old(self).pool@[j]);
                    }
                }
            }
        }
    }

    /// Takes a buffer back. It is kept, emptied, at the end of the pool when
    /// the pool holds fewer than `max_size` buffers and the buffer's capacity
    /// is at most `max_capacity`; otherwise it is dropped.
    pub fn put(&mut self, pooled: PooledWideString)
        requires
            old(self).wf(),
        ensures
            final(self).wf(),
            final(self).max_size() == old(self).max_size(),
            final(self).max_capacity() == old(self).max_capacity(),
            exists|cap: usize|
                cap >= pooled@.len() && final(self).caps() == if #[trigger] keeps_buffer(
                    old(self).count(),
                    old(self).max_size(),
                    cap,
                    old(self).max_capacity(),
                ) {
                    old(self).caps().push(cap)
                } else {
                    old(self).caps()
                },
    {
        let buffer = pooled.buffer;
        let cap = vec_capacity(&buffer);
        self.keep_or_drop(buffer, cap);
        assert(cap >= pooled@.len() && self.caps() == if keeps_buffer(
            old(self).count(),
            old(self).max_size(),
            cap,
            old(self).max_capacity(),
        ) {
            old(self).caps().push(cap)
        } else {
            old(self).caps()
        });
    }

    /// The number of buffers held.
    pub fn len(&self) -> (r: usize)
        requires
            self.wf(),
        ensures
            r == self.count(),
    {
        self.caps.len()
    }

    /// True when no buffer is held.
    pub fn is_empty(&self) -> (r: bool)
        requires
            self.wf(),
        ensures
            r == (self.count() == 0),
    {
        self.caps.len() == 0
    }

    /// Drops every held buffer.
    pub fn clear(&mut self)
        requires
            old(self).wf(),
        ensures
            final(self).wf(),
            final(self).caps() == Seq::<usize>::empty(),
            final(self).max_size() == old(self).max_size(),
            final(self).max_capacity() == old(self).max_capacity(),
    {
        self.pool.clear();
        self.caps.clear();
    }

    /// Keeps the first `size` buffers, in order, and drops the rest.
    pub fn shrink_to(&mut self, size: usize)
        requires
            old(self).wf(),
        ensures
            final(self).wf(),
            final(self).caps() == old(self).caps().take(
                if size < old(self).count() {
                    size as int
                } else {
                    old(self).count() as int
                },
            ),
            final(self).max_size() == old(self).max_size(),
            final(self).max_capacity() == old(self).max_capacity(),
    {
        self.pool.truncate(size);
        self.caps.truncate(size);
        proof {
            assert forall|j: int| 0 <= j < self.pool@.len() implies (
            #[trigger] self.pool@[j])@.len() == 0 by {
                assert(self.pool@[j] == old(self).pool@[j]);
            }
            if size >= old(self).caps@.len() {
                assert(old(self).caps@.take(old(self).caps@.len() as int) =~= old(self).caps@);
            }
        }
    }
}

impl Default for WideStringPool {
    fn default() -> (r: WideStringPool)
        ensures
            r.wf(),
            r.caps() == Seq::<usize>::empty(),
            r.max_size() == DEFAULT_MAX_SIZE,
            r.max_capacity() == DEFAULT_MAX_CAPACITY,
    {
        WideStringPool::new()
    }
}

impl PooledWideString {
    /// The length in code units, without the terminator.
    pub fn len(&self) -> (r: usize)
        ensures
            r == content_len(self@),
    {
        self.buffer.len().saturating_sub(1)
    }

    /// True when there are no code units before the terminator.
    pub fn is_empty(&self) -> (r: bool)
        ensures
            r == (content_len(self@) == 0),
    {
        self.len() == 0
    }

    /// The whole buffer, terminator included.
    pub fn as_slice(&self) -> (r: &[u16])
        ensures
            r@ == self@,
    {
        self.buffer.as_slice()
    }

    /// The text before the first zero unit, or a replacement character when
    /// that is not valid UTF-16.
    pub fn to_string_lossy(&self) -> (r: String)
        ensures
            r@ == lossy_text(self@),
    {
        match from_wide(self.buffer.as_slice()) {
            Ok(t) => t,
            Err(_) => String::from_str("\u{FFFD}"),
        }
    }

    /// Keeps the buffer for good instead of returning it to a pool.
    pub fn into_vec(self) -> (r: Vec<u16>)
        ensures
            r@ == self@,
    {
        self.buffer
    }

    /// Turns the buffer into a standalone `WideString`, leaving the pool for good.
    pub fn into_wide_string(self) -> (r: WideString)
        ensures
            r@ == self@,
            r.inline() <==> self@.len() <= INLINE_CAP,
    {
        WideString::from_vec(self.buffer)
    }
}

} // verus!
