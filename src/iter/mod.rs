use vstd::prelude::*;

pub mod vec;

verus! {

/// The items drained out of a vector, as a region that can be halved.
pub struct DrainProducer<T> {
    vec: Vec<T>,
}

impl<T> View for DrainProducer<T> {
    type V = Seq<T>;

    closed spec fn view(&self) -> Seq<T> {
        self.vec@
    }
}

impl<T> DrainProducer<T> {
    pub fn new(vec: Vec<T>) -> (r: Self)
        ensures
            r@ == vec@,
    {
        DrainProducer { vec }
    }

    /// Splits into the first `mid` items and the rest, order kept.
    pub fn split_at(self, mid: usize) -> (r: (Self, Self))
        requires
            mid <= self@.len(),
        ensures
            r.0@ == self@.subrange(0, mid as int),
            r.1@ == self@.subrange(mid as int, self@.len() as int),
    {
        let mut left = self.vec;
        let right = left.split_off(mid);
        (DrainProducer { vec: left }, DrainProducer { vec: right })
    }

    pub fn len(&self) -> (r: usize)
        ensures
            r == self@.len(),
    {
        self.vec.len()
    }

    /// The items, for sequential consumption.
    pub fn into_vec(self) -> (r: Vec<T>)
        ensures
            r@ == self@,
    {
        self.vec
    }
}

/// Moves every item of `vec` into a producer, leaving `vec` empty.
pub fn par_drain<T>(vec: &mut Vec<T>) -> (r: DrainProducer<T>)
    ensures
        r@ == old(vec)@,
        final(vec)@.len() == 0,
{
    let mut items: Vec<T> = Vec::new();
    core::mem::swap(vec, &mut items);
    DrainProducer::new(items)
}

} // verus!
