//! Shareable data that lasts forever, with no reference count.
//!
//! [`Forever<T>`] moves a value onto the heap and hands out any number of
//! aliasing, read-only handles to it. Duplicating a handle copies one
//! reference: no counter is touched, nothing is allocated, and the shared
//! value is never read or written by the duplication itself. Dropping a
//! handle is a no-op, so the allocation stays valid for every other handle
//! no matter how many go out of scope; by design the value lives until the
//! process exits. Because the handles perform no synchronization of their
//! own, the type can only be instantiated for `T: Send + Sync`.
//!
//! The one way the allocation is ever freed is an explicit, caller-proven
//! teardown: [`Forever::destroy`] consumes a handle and marks the end of
//! the allocation's life. Freeing the bytes themselves cannot be expressed
//! in the verified library, since it would dangle every sibling handle and
//! needs unsafe code; a program that must reclaim the memory does so in
//! unverified code of its own, starting from the reference that
//! [`Forever::inner`] returns, after proving that no other handle will
//! ever be used again.

use vstd::prelude::*;

verus! {

/// A handle to a heap-resident value of type `T` that is never freed
/// implicitly.
///
/// Any number of handles may alias one allocation; none of them is
/// privileged, and none of them frees the allocation when dropped. The
/// abstract view of a handle (`self@`) is simply the shared value.
pub struct Forever<T: 'static> {
    data: &'static T,
}

impl<T> View for Forever<T> {
    type V = T;

    closed spec fn view(&self) -> T {
        *self.data
    }
}

/// Relies on `Box::leak`: consumes the box without freeing its allocation
/// and returns a reference to the boxed value that stays valid for the
/// remainder of the process.
#[verifier::external_body]
fn leak_box<T>(b: Box<T>) -> (r: &'static T)
    ensures
        *r == *b,
{
    Box::leak(b)
}

impl<T: Send + Sync> Forever<T> {
    /// Move `val` into a fresh heap allocation and return the first handle
    /// to it.
    ///
    /// The allocation is never freed by the type itself: neither this
    /// handle nor any duplicate of it releases the memory on drop, so the
    /// value persists for the rest of the process unless a caller tears it
    /// down explicitly.
    pub fn new(val: T) -> (r: Forever<T>)
        ensures
            r@ == val,
    {
        Forever { data: leak_box(Box::new(val)) }
    }

    /// A read-only reference to the shared value.
    ///
    /// The reference performs no synchronization; it is safe to hold in
    /// any number of threads at once because `T` is `Sync`. It stays valid
    /// as long as no handle to this allocation has been torn down.
    pub fn inner(&self) -> (r: &'static T)
        ensures
            *r == self@,
    {
        self.data
    }

    /// A new handle aliasing the same allocation.
    ///
    /// This copies a single reference: nothing is allocated, no counter is
    /// incremented, and the shared value is not touched. The new handle
    /// equals this one as a value, so every operation behaves identically
    /// on either.
    pub fn duplicate(&self) -> (r: Forever<T>)
        ensures
            r == *self,
    {
        Forever { data: self.data }
    }

    /// Consume this handle, ending the allocation's life.
    ///
    /// After this call no handle to the same allocation may be used again;
    /// that obligation rests entirely on the caller, and the type checks
    /// nothing at run time. The verified library does not free the bytes:
    /// doing so requires unsafe code, which a caller that must reclaim the
    /// memory writes outside the library, starting from [`Forever::inner`].
    pub fn destroy(self) {
    }
}

/// Duplication is transparent: a duplicate `d` of a handle `h` equals `h`
/// as a value, so `d` and `h` observe identical contents through
/// [`Forever::inner`], and every contract in this library promises the
/// same of `d` as of `h`.
pub proof fn lemma_duplicate_transparent<T>(h: Forever<T>, d: Forever<T>)
    requires
        d == h,
    ensures
        d@ == h@,
{
}

} // verus!
