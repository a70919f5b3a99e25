//! Fixed-capacity receive buffers for variable-count query replies.
//!
//! Every enumeration request hands the kernel a fixed number of slots
//! per resource category and receives back the count of slots that were
//! actually populated. A [`BoundedBuffer`] is the terminal artifact of
//! one such query: it retains exactly the occupied prefix, never grows
//! or shrinks afterwards, and exposes that prefix as its whole view, so
//! the unused tail slots of the storage it was built from can never be
//! observed, compared or hashed.

use vstd::prelude::*;
use vstd::std_specs::cmp::PartialEqSpec;

verus! {

/// Number of slots a single query offers the kernel per category. A
/// device reporting more entries than this has its reply truncated to
/// this many; the call still succeeds and yields an internally
/// consistent prefix.
pub const BUFFER_CAPACITY: usize = 32;

/// A fixed-capacity ordered sequence of received entries together with
/// the occupied length the query reported.
#[derive(Debug, Hash)]
pub struct BoundedBuffer<T> {
    items: Vec<T>,
}

impl<T: Copy + Eq> Eq for BoundedBuffer<T> {

}

impl<T: Copy> Clone for BoundedBuffer<T> {
    /// A clone carries exactly the occupied entries of the original.
    fn clone(&self) -> (r: Self)
        ensures
            r@ == self@,
    {
        proof {
            use_type_invariant(self);
        }
        BoundedBuffer { items: vstd::slice::slice_to_vec(self.items.as_slice()) }
    }
}

impl<T> View for BoundedBuffer<T> {
    type V = Seq<T>;

    closed spec fn view(&self) -> Seq<T> {
        self.items@
    }
}

impl<T> BoundedBuffer<T> {
    #[verifier::type_invariant]
    spec fn within_capacity(self) -> bool {
        self.items@.len() <= BUFFER_CAPACITY
    }

    /// Builds a buffer from a caller-supplied fixed-size storage vector
    /// and the occupied count the query reported. Only the occupied
    /// prefix is retained: the tail is discarded here, which is what
    /// keeps equality and hashing independent of whatever the unused
    /// slots happened to hold.
    pub fn new(storage: Vec<T>, count: usize) -> (b: Self)
        requires
            storage@.len() == BUFFER_CAPACITY,
            count <= storage@.len(),
        ensures
            b@ == storage@.subrange(0, count as int),
    {
        let mut items = storage;
        items.truncate(count);
        BoundedBuffer { items }
    }

    /// Builds a buffer directly from the occupied entries of a query
    /// whose reply was already cut to the slot capacity.
    pub fn from_items(items: Vec<T>) -> (b: Self)
        requires
            items@.len() <= BUFFER_CAPACITY,
        ensures
            b@ == items@,
    {
        BoundedBuffer { items }
    }

    /// How many slots the query populated; never more than
    /// [`BUFFER_CAPACITY`].
    pub fn len(&self) -> (n: usize)
        ensures
            n == self@.len(),
            n <= BUFFER_CAPACITY,
    {
        proof {
            use_type_invariant(self);
        }
        self.items.len()
    }

    /// The occupied prefix, of exactly `self.len()` entries. No entry
    /// beyond the occupied length is reachable through this view.
    pub fn as_slice(&self) -> (s: &[T])
        ensures
            s@ == self@,
    {
        self.items.as_slice()
    }
}

impl<T: Copy + PartialEq> PartialEq for BoundedBuffer<T> {
    fn eq(&self, other: &Self) -> (r: bool) {
        let n = self.items.len();
        if n != other.items.len() {
            return false;
        }
        let mut i: usize = 0;
        while i < n
            invariant
                n == self.items@.len(),
                n == other.items@.len(),
                i <= n,
                vstd::laws_eq::obeys_concrete_eq::<T>() ==> forall|j: int|
                    0 <= j < i ==> self.items@[j] == other.items@[j],
            decreases n - i,
        {
            let a = self.items[i];
            let b = other.items[i];
            if !(a == b) {
                proof {
                    reveal(vstd::laws_eq::obeys_concrete_eq);
                    if vstd::laws_eq::obeys_concrete_eq::<T>() {
                        assert(self.items@[i as int] != other.items@[i as int]);
                        assert(self@ != other@);
                    }
                }
                return false;
            }
            proof {
                reveal(vstd::laws_eq::obeys_concrete_eq);
            }
            i += 1;
        }
        proof {
            if vstd::laws_eq::obeys_concrete_eq::<T>() {
                assert(self.items@ =~= other.items@);
            }
        }
        true
    }
}

impl<T: Copy + PartialEq> vstd::std_specs::cmp::PartialEqSpecImpl for BoundedBuffer<T> {
    open spec fn obeys_eq_spec() -> bool {
        vstd::laws_eq::obeys_concrete_eq::<T>()
    }

    open spec fn eq_spec(&self, other: &Self) -> bool {
        self@ == other@
    }
}

/// The unused tail of the storage a buffer was built from is never
/// observed: two buffers built from storages that agree on the occupied
/// prefix have the same view and satisfy the meaning of `==`, whatever
/// the discarded tail slots held.
pub proof fn lemma_tail_never_observed<T: Copy + PartialEq>(
    storage1: Seq<T>,
    storage2: Seq<T>,
    count: int,
    b1: BoundedBuffer<T>,
    b2: BoundedBuffer<T>,
)
    requires
        0 <= count,
        count <= storage1.len(),
        count <= storage2.len(),
        storage1.subrange(0, count) == storage2.subrange(0, count),
        b1@ == storage1.subrange(0, count),
        b2@ == storage2.subrange(0, count),
    ensures
        b1@ == b2@,
        b1.eq_spec(&b2),
{
}

} // verus!
