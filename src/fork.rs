use vstd::prelude::*;

verus! {

/// The fork point of the runtime: runs both closures to completion and
/// returns both results.
///
/// An implementation may run `a` and `b` one after the other on the calling
/// thread or concurrently on different threads, but it returns only after each
/// has run exactly once, and each result is the one its closure returned.
pub trait Fork {
    fn join<A, B, RA, RB>(&self, a: A, b: B) -> (r: (RA, RB)) where
        A: FnOnce() -> RA + Send,
        B: FnOnce() -> RB + Send,
        RA: Send,
        RB: Send,
        requires
            a.requires(()),
            b.requires(()),
        ensures
            a.ensures((), r.0),
            b.ensures((), r.1),
    ;
}

/// Joins on the calling thread: `a` first, then `b`.
pub struct Inline;

impl Fork for Inline {
    fn join<A, B, RA, RB>(&self, a: A, b: B) -> (r: (RA, RB)) where
        A: FnOnce() -> RA + Send,
        B: FnOnce() -> RB + Send,
        RA: Send,
        RB: Send,
    {
        let ra = a();
        let rb = b();
        (ra, rb)
    }
}

} // verus!
