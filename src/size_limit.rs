//! Cumulative byte counting against an optional ceiling.

use vstd::prelude::*;

verus! {

/// The capacity asked for when no ceiling applies (one memory page).
pub const DEF_CAPACITY: usize = 4096;

/// The error that reports a crossed ceiling; it carries the ceiling.
#[derive(Debug, Clone, Copy, PartialEq, Eq, Structural)]
pub struct SizeLimitReached(pub usize);

/// Counts the bytes read so far against a ceiling `max`; a `max` of zero
/// means that no ceiling applies.
#[derive(Debug, PartialEq, Eq, Structural)]
pub struct SizeLimit {
    read: usize,
    max: usize,
}

impl SizeLimit {
    /// The number of bytes recorded so far.
    pub closed spec fn spec_read(&self) -> nat {
        self.read as nat
    }

    /// The ceiling, zero where none applies.
    pub closed spec fn spec_max(&self) -> nat {
        self.max as nat
    }

    /// The ceiling has been crossed: more bytes were read than it allows.
    pub open spec fn spec_surpassed(&self) -> bool {
        self.spec_max() > 0 && self.spec_read() > self.spec_max()
    }

    /// What `new_capacity` returns.
    pub open spec fn spec_new_capacity(&self) -> nat {
        if self.spec_max() == 0 {
            DEF_CAPACITY as nat
        } else if self.spec_max() <= self.spec_read() {
            0
        } else if self.spec_max() - self.spec_read() < DEF_CAPACITY {
            (self.spec_max() - self.spec_read()) as nat
        } else {
            DEF_CAPACITY as nat
        }
    }

    /// A ceiling of `max` bytes, nothing read yet.
    pub fn new(max: usize) -> (r: Self)
        requires
            max > 0,
        ensures
            r.spec_read() == 0,
            r.spec_max() == max,
    {
        SizeLimit { read: 0, max }
    }

    /// No ceiling, nothing read yet.
    pub fn empty() -> (r: Self)
        ensures
            r.spec_read() == 0,
            r.spec_max() == 0,
    {
        SizeLimit { read: 0, max: 0 }
    }

    /// How many bytes the next read may ask for: the default capacity
    /// without a ceiling, else what is left below the ceiling, at most the
    /// default capacity; zero once the ceiling is reached.
    pub fn new_capacity(&self) -> (r: usize)
        ensures
            r == self.spec_new_capacity(),
    {
        if self.max == 0 {
            DEF_CAPACITY
        } else if self.max <= self.read {
            0
        } else if self.max - self.read < DEF_CAPACITY {
            self.max - self.read
        } else {
            DEF_CAPACITY
        }
    }

    /// The number of bytes recorded so far.
    pub fn read_so_far(&self) -> (r: usize)
        ensures
            r == self.spec_read(),
    {
        self.read
    }

    /// The ceiling, zero where none applies.
    pub fn max_size(&self) -> (r: usize)
        ensures
            r == self.spec_max(),
    {
        self.max
    }

    /// Whether more bytes were read than the ceiling allows.
    pub fn surpassed(&self) -> (r: bool)
        ensures
            r == self.spec_surpassed(),
    {
        self.max > 0 && self.read > self.max
    }

    /// Records `read` more bytes. Fails with the ceiling once the total is
    /// strictly above it; reading exactly up to the ceiling succeeds.
    /// The count saturates at `usize::MAX`.
    pub fn add_read_res(&mut self, read: usize) -> (r: Result<(), SizeLimitReached>)
        ensures
            final(self).spec_max() == old(self).spec_max(),
            final(self).spec_read() as int == if old(self).spec_read() + read <= usize::MAX {
                old(self).spec_read() + read
            } else {
                usize::MAX as int
            },
            r is Err <==> final(self).spec_surpassed(),
            r matches Err(e) ==> e.0 == old(self).spec_max(),
            old(self).spec_surpassed() ==> final(self).spec_surpassed(),
    {
        self.read = self.read.saturating_add(read);
        if self.max > 0 && self.read > self.max {
            Err(SizeLimitReached(self.max))
        } else {
            Ok(())
        }
    }

    /// Sets a new ceiling; it may not be below what was already read.
    pub fn set(&mut self, max: usize)
        requires
            max > 0,
            old(self).spec_read() <= max,
            !old(self).spec_surpassed(),
        ensures
            final(self).spec_max() == max,
            final(self).spec_read() == old(self).spec_read(),
    {
        self.max = max;
    }
}

/// Once crossed, a ceiling stays crossed whatever is recorded after.
pub proof fn lemma_surpassed_stays(before: SizeLimit, after: SizeLimit)
    requires
        before.spec_surpassed(),
        after.spec_max() == before.spec_max(),
        after.spec_read() >= before.spec_read(),
    ensures
        after.spec_surpassed(),
{
}

} // verus!
