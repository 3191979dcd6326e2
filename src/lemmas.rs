use crate::iter::vec::{
    mapped_by, IntoIter, IntoParallelIterator, MapIter, ParallelIterator,
};
use vstd::prelude::*;

verus! {

/// Turning a vector into a parallel iterator and collecting it gives back the
/// vector's items: same length, same multiplicities, same order.
pub proof fn lemma_collect_keeps_items<T: Send>(v: Vec<T>, it: IntoIter<T>, out: Vec<T>)
    requires
        v.converts(it),
        exists|items: Seq<T>| it.yields(items) && out@ == items,
    ensures
        out@ == v@,
        out@.to_multiset() == v@.to_multiset(),
{
}

/// Mapping `f` over a vector's parallel iterator and collecting gives `f`
/// applied to each item of the vector, in the vector's order.
pub proof fn lemma_map_collect<T: Send, F: Fn(T) -> T + Send + Sync>(
    v: Vec<T>,
    m: MapIter<IntoIter<T>, F>,
    out: Vec<T>,
)
    requires
        v.converts(m.base()),
        exists|items: Seq<T>| m.yields(items) && out@ == items,
    ensures
        out@.len() == v@.len(),
        forall|i: int| 0 <= i < v@.len() ==> m.func().ensures((v@[i],), #[trigger] out@[i]),
{
    let items = choose|items: Seq<T>| m.yields(items) && out@ == items;
    m.lemma_yields(items);
    assert(mapped_by(m.func(), v@, out@));
}

/// Chained maps compose: two maps then a collect give the second function
/// applied, position by position, to the first function's results on the
/// vector's items, with nothing buffered in between.
pub proof fn lemma_map_map_collect<
    T: Send,
    F: Fn(T) -> T + Send + Sync,
    G: Fn(T) -> T + Send + Sync,
>(v: Vec<T>, m: MapIter<MapIter<IntoIter<T>, F>, G>, out: Vec<T>)
    requires
        v.converts(m.base().base()),
        exists|items: Seq<T>| m.yields(items) && out@ == items,
    ensures
        exists|ys: Seq<T>| mapped_by(m.base().func(), v@, ys) && mapped_by(m.func(), ys, out@),
{
    let items = choose|items: Seq<T>| m.yields(items) && out@ == items;
    m.lemma_yields(items);
    let ys = choose|ys: Seq<T>| m.base().yields(ys) && mapped_by(m.func(), ys, items);
    m.base().lemma_yields(ys);
}

} // verus!
