//! A diagnostic allocator wrapper: a byte counter rides along with every
//! allocation and deallocation, so that callers can check at chosen points
//! that no memory is still outstanding.

use vstd::multiset::Multiset;
use vstd::prelude::*;

pub mod scope;
pub mod sum;

use crate::sum::{lemma_sum_insert, lemma_sum_member_le, lemma_sum_nonneg, lemma_sum_remove, sum_of};

verus! {

/// The wrapped allocator could not satisfy a request.
#[derive(Clone, Copy, Debug, PartialEq, Eq, Structural)]
pub struct AllocFailure;

/// Wraps an allocator value and counts the bytes currently allocated
/// through it: every successful allocation adds its size, every
/// deallocation subtracts it, so the counter reads zero exactly when no
/// memory handed out through this instance is still live.
pub struct LeakDetector<T> {
    inner: T,
    used: usize,
    live: Ghost<Multiset<nat>>,
}

impl<T> LeakDetector<T> {
    /// The current byte counter.
    pub closed spec fn used_bytes(self) -> nat {
        self.used as nat
    }

    /// The sizes of the allocations made through this instance and not yet
    /// returned, one entry per outstanding block.
    pub closed spec fn live_sizes(self) -> Multiset<nat> {
        self.live@
    }

    /// The wrapped allocator value.
    pub closed spec fn inner_value(self) -> T {
        self.inner
    }

    /// The counter is exactly the number of live bytes.
    pub open spec fn wf(self) -> bool {
        self.used_bytes() == sum_of(self.live_sizes())
    }

    /// Wrap an allocator value, with nothing allocated yet.
    pub fn new(val: T) -> (r: Self)
        ensures
            r.wf(),
            r.used_bytes() == 0,
            r.live_sizes() == Multiset::<nat>::empty(),
            r.inner_value() == val,
    {
        LeakDetector { inner: val, used: 0, live: Ghost(Multiset::empty()) }
    }

    /// Read the current byte counter.
    pub fn get_used(&self) -> (r: usize)
        ensures
            r as nat == self.used_bytes(),
    {
        self.used
    }

    /// Record that a block of `size` bytes was handed out.
    fn note_alloc(&mut self, size: usize)
        requires
            old(self).wf(),
            old(self).used_bytes() + size <= usize::MAX,
        ensures
            final(self).wf(),
            final(self).used_bytes() == old(self).used_bytes() + size,
            final(self).live_sizes() == old(self).live_sizes().insert(size as nat),
            final(self).inner_value() == old(self).inner_value(),
    {
        self.used = self.used + size;
        self.live = Ghost(self.live@.insert(size as nat));
        proof {
            lemma_sum_insert(old(self).live@, size as nat);
        }
    }

    /// Record that a block of `size` bytes was given back.
    fn note_dealloc(&mut self, size: usize)
        requires
            old(self).wf(),
            old(self).live_sizes().contains(size as nat),
        ensures
            final(self).wf(),
            final(self).used_bytes() == old(self).used_bytes() - size,
            final(self).live_sizes() == old(self).live_sizes().remove(size as nat),
            final(self).inner_value() == old(self).inner_value(),
    {
        proof {
            lemma_sum_remove(self.live@, size as nat);
            lemma_sum_nonneg(self.live@.remove(size as nat));
        }
        self.used = self.used - size;
        self.live = Ghost(self.live@.remove(size as nat));
    }

    /// Record that a live block of `old_size` bytes was replaced by one of
    /// `new_size` bytes.
    fn note_resize(&mut self, old_size: usize, new_size: usize)
        requires
            old(self).wf(),
            old(self).live_sizes().contains(old_size as nat),
            old(self).used_bytes() - old_size + new_size <= usize::MAX,
        ensures
            final(self).wf(),
            final(self).used_bytes() == old(self).used_bytes() - old_size + new_size,
            final(self).live_sizes() == old(self).live_sizes().remove(old_size as nat).insert(
                new_size as nat,
            ),
            final(self).inner_value() == old(self).inner_value(),
    {
        proof {
            lemma_sum_remove(self.live@, old_size as nat);
            lemma_sum_nonneg(self.live@.remove(old_size as nat));
        }
        let next: usize = self.used - old_size + new_size;
        self.used = next;
        self.live = Ghost(self.live@.remove(old_size as nat).insert(new_size as nat));
        proof {
            lemma_sum_insert(old(self).live@.remove(old_size as nat), new_size as nat);
        }
    }

    /// Ask for a block of `size` bytes. The caller forwards the request to
    /// the wrapped allocator and reports in `inner_ok` whether it produced
    /// memory; the counter grows by `size` exactly when it did.
    pub fn allocate(&mut self, size: usize, inner_ok: bool) -> (r: Result<(), AllocFailure>)
        requires
            old(self).wf(),
            inner_ok ==> old(self).used_bytes() + size <= usize::MAX,
        ensures
            final(self).wf(),
            r is Ok <==> inner_ok,
            inner_ok ==> final(self).used_bytes() == old(self).used_bytes() + size
                && final(self).live_sizes() == old(self).live_sizes().insert(size as nat),
            !inner_ok ==> *final(self) == *old(self),
            final(self).inner_value() == old(self).inner_value(),
    {
        if inner_ok {
            self.note_alloc(size);
            Ok(())
        } else {
            Err(AllocFailure)
        }
    }

    /// Like `allocate`, for a request whose extra bytes the wrapped
    /// allocator fills with zeroes; the bookkeeping is identical.
    pub fn allocate_zeroed(&mut self, size: usize, inner_ok: bool) -> (r: Result<
        (),
        AllocFailure,
    >)
        requires
            old(self).wf(),
            inner_ok ==> old(self).used_bytes() + size <= usize::MAX,
        ensures
            final(self).wf(),
            r is Ok <==> inner_ok,
            inner_ok ==> final(self).used_bytes() == old(self).used_bytes() + size
                && final(self).live_sizes() == old(self).live_sizes().insert(size as nat),
            !inner_ok ==> *final(self) == *old(self),
            final(self).inner_value() == old(self).inner_value(),
    {
        self.allocate(size, inner_ok)
    }

    /// Give back a block of `size` bytes. The size must match a prior
    /// allocation through this instance that is still outstanding; that is
    /// the caller's contract, not a runtime check.
    pub fn deallocate(&mut self, size: usize)
        requires
            old(self).wf(),
            old(self).live_sizes().contains(size as nat),
        ensures
            final(self).wf(),
            final(self).used_bytes() == old(self).used_bytes() - size,
            final(self).live_sizes() == old(self).live_sizes().remove(size as nat),
            final(self).inner_value() == old(self).inner_value(),
    {
        self.note_dealloc(size);
    }

    /// Grow a live block from `old_size` to `new_size` bytes. On success the
    /// counter rises by exactly the difference; on failure nothing changes.
    pub fn grow(&mut self, old_size: usize, new_size: usize, inner_ok: bool) -> (r: Result<
        (),
        AllocFailure,
    >)
        requires
            old(self).wf(),
            old(self).live_sizes().contains(old_size as nat),
            old_size <= new_size,
            inner_ok ==> old(self).used_bytes() + (new_size - old_size) <= usize::MAX,
        ensures
            final(self).wf(),
            r is Ok <==> inner_ok,
            inner_ok ==> final(self).used_bytes() == old(self).used_bytes() + (new_size - old_size)
                && final(self).live_sizes() == old(self).live_sizes().remove(old_size as nat).insert(
                new_size as nat,
            ),
            !inner_ok ==> *final(self) == *old(self),
            final(self).inner_value() == old(self).inner_value(),
    {
        if inner_ok {
            proof {
                lemma_sum_member_le(self.live@, old_size as nat);
            }
            self.note_resize(old_size, new_size);
            Ok(())
        } else {
            Err(AllocFailure)
        }
    }

    /// Like `grow`, for a request whose extra bytes the wrapped allocator
    /// fills with zeroes; the bookkeeping is identical.
    pub fn grow_zeroed(&mut self, old_size: usize, new_size: usize, inner_ok: bool) -> (r: Result<
        (),
        AllocFailure,
    >)
        requires
            old(self).wf(),
            old(self).live_sizes().contains(old_size as nat),
            old_size <= new_size,
            inner_ok ==> old(self).used_bytes() + (new_size - old_size) <= usize::MAX,
        ensures
            final(self).wf(),
            r is Ok <==> inner_ok,
            inner_ok ==> final(self).used_bytes() == old(self).used_bytes() + (new_size - old_size)
                && final(self).live_sizes() == old(self).live_sizes().remove(old_size as nat).insert(
                new_size as nat,
            ),
            !inner_ok ==> *final(self) == *old(self),
            final(self).inner_value() == old(self).inner_value(),
    {
        self.grow(old_size, new_size, inner_ok)
    }

    /// Shrink a live block from `old_size` to `new_size` bytes. On success
    /// the counter falls by exactly the difference; on failure nothing
    /// changes.
    pub fn shrink(&mut self, old_size: usize, new_size: usize, inner_ok: bool) -> (r: Result<
        (),
        AllocFailure,
    >)
        requires
            old(self).wf(),
            old(self).live_sizes().contains(old_size as nat),
            new_size <= old_size,
        ensures
            final(self).wf(),
            r is Ok <==> inner_ok,
            inner_ok ==> final(self).used_bytes() == old(self).used_bytes() - (old_size - new_size)
                && final(self).live_sizes() == old(self).live_sizes().remove(old_size as nat).insert(
                new_size as nat,
            ),
            !inner_ok ==> *final(self) == *old(self),
            final(self).inner_value() == old(self).inner_value(),
    {
        if inner_ok {
            proof {
                lemma_sum_member_le(self.live@, old_size as nat);
            }
            self.note_resize(old_size, new_size);
            Ok(())
        } else {
            Err(AllocFailure)
        }
    }

    /// The raw-pointer face of `allocate`: the result mirrors whether the
    /// wrapped allocator returned a block (`true`) or a null pointer
    /// (`false`), and the counter grows by `size` exactly on success.
    pub fn raw_alloc(&mut self, size: usize, inner_ok: bool) -> (r: bool)
        requires
            old(self).wf(),
            inner_ok ==> old(self).used_bytes() + size <= usize::MAX,
        ensures
            final(self).wf(),
            r == inner_ok,
            inner_ok ==> final(self).used_bytes() == old(self).used_bytes() + size
                && final(self).live_sizes() == old(self).live_sizes().insert(size as nat),
            !inner_ok ==> *final(self) == *old(self),
            final(self).inner_value() == old(self).inner_value(),
    {
        self.allocate(size, inner_ok).is_ok()
    }

    /// The raw-pointer face of `allocate_zeroed`; the bookkeeping is the
    /// same as for `raw_alloc`.
    pub fn alloc_zeroed(&mut self, size: usize, inner_ok: bool) -> (r: bool)
        requires
            old(self).wf(),
            inner_ok ==> old(self).used_bytes() + size <= usize::MAX,
        ensures
            final(self).wf(),
            r == inner_ok,
            inner_ok ==> final(self).used_bytes() == old(self).used_bytes() + size
                && final(self).live_sizes() == old(self).live_sizes().insert(size as nat),
            !inner_ok ==> *final(self) == *old(self),
            final(self).inner_value() == old(self).inner_value(),
    {
        self.allocate_zeroed(size, inner_ok).is_ok()
    }

    /// The raw-pointer face of `deallocate`.
    pub fn dealloc(&mut self, size: usize)
        requires
            old(self).wf(),
            old(self).live_sizes().contains(size as nat),
        ensures
            final(self).wf(),
            final(self).used_bytes() == old(self).used_bytes() - size,
            final(self).live_sizes() == old(self).live_sizes().remove(size as nat),
            final(self).inner_value() == old(self).inner_value(),
    {
        self.note_dealloc(size);
    }

    /// Replace a live block of `old_size` bytes by one of `new_size` bytes,
    /// in either direction. On success the counter is recomputed as the old
    /// count minus `old_size` plus `new_size`; a failed reallocation leaves
    /// both the counter and the live set untouched.
    pub fn realloc(&mut self, old_size: usize, new_size: usize, inner_ok: bool) -> (r: bool)
        requires
            old(self).wf(),
            old(self).live_sizes().contains(old_size as nat),
            inner_ok ==> old(self).used_bytes() - old_size + new_size <= usize::MAX,
        ensures
            final(self).wf(),
            r == inner_ok,
            inner_ok ==> final(self).used_bytes() == old(self).used_bytes() - old_size + new_size
                && final(self).live_sizes() == old(self).live_sizes().remove(old_size as nat).insert(
                new_size as nat,
            ),
            !inner_ok ==> *final(self) == *old(self),
            final(self).inner_value() == old(self).inner_value(),
    {
        if inner_ok {
            self.note_resize(old_size, new_size);
            true
        } else {
            false
        }
    }

    /// The leak check: callable only when the counter reads zero, so a
    /// caller that reaches it with a byte still outstanding is rejected at
    /// verification time rather than at run time.
    pub fn assert_no_leak(&self)
        requires
            self.used_bytes() == 0,
    {
        let used = self.get_used();
        assert(used == 0);
    }
}

impl<T: Default> Default for LeakDetector<T> {
    /// A detector wrapping the allocator type's default value, with nothing
    /// allocated yet.
    fn default() -> (r: Self)
        ensures
            r.wf(),
            r.used_bytes() == 0,
            r.live_sizes() == Multiset::<nat>::empty(),
    {
        Self::new(T::default())
    }
}

/// Declares std::alloc::System, the operating system's default allocator, so
/// that verified signatures can name it.
#[verifier::external_type_specification]
#[verifier::external_body]
pub struct ExSystem(std::alloc::System);

/// Relies on std::alloc::System: the zero-sized handle for the operating
/// system's default allocator, built here so that verified code can wrap it.
#[verifier::external_body]
fn system_allocator() -> std::alloc::System {
    std::alloc::System
}

impl LeakDetector<std::alloc::System> {
    /// A detector wrapping the operating system's default allocator.
    pub fn system() -> (r: Self)
        ensures
            r.wf(),
            r.used_bytes() == 0,
            r.live_sizes() == Multiset::<nat>::empty(),
    {
        Self::new(system_allocator())
    }
}

/// When every allocation made through the detector has been given back, the
/// counter reads zero and the leak check passes.
pub proof fn lemma_all_returned_counter_zero<T>(d: LeakDetector<T>)
    requires
        d.wf(),
        d.live_sizes() =~= Multiset::<nat>::empty(),
    ensures
        d.used_bytes() == 0,
{
}

/// A leaked block of any positive size keeps the counter above zero, so the
/// leak check cannot pass while the block is outstanding.
pub proof fn lemma_leak_keeps_counter_nonzero<T>(d: LeakDetector<T>, size: nat)
    requires
        d.wf(),
        d.live_sizes().contains(size),
        size > 0,
    ensures
        d.used_bytes() > 0,
{
    lemma_sum_member_le(d.live_sizes(), size);
}

} // verus!
