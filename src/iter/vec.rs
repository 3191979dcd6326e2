use crate::fork::Fork;
use crate::sched::CORE_NUMS;
use vstd::prelude::*;

verus! {

/// Combines the outputs of the two halves of a split consumer into one.
pub trait Reducer<T>: Sized {
    /// `out` is what reducing `left` with `right` gives.
    spec fn reduces(&self, left: T, right: T, out: T) -> bool;

    fn reduce(self, left: T, right: T) -> (out: T)
        ensures
            self.reduces(left, right, out),
    ;
}

/// An operation bound to a destination, fed with the items of one region.
///
/// `produces(items, out)` says that `out` is an output this consumer may give
/// once it has been fed `items`, in that order, and completed. Splitting at
/// `index` hands the first `index` items to the left consumer and the rest to
/// the right one; the reducer joins their outputs into an output of the whole.
pub trait Consumer<T>: Send + Sized {
    type Output: Send;

    type Reducer: Reducer<Self::Output>;

    spec fn inv(&self) -> bool;

    spec fn produces(&self, items: Seq<T>, out: Self::Output) -> bool;

    fn consume(self, item: T) -> (r: Self)
        requires
            self.inv(),
        ensures
            r.inv(),
            forall|more: Seq<T>, out: Self::Output|
                r.produces(more, out) ==> self.produces(seq![item] + more, out),
    ;

    fn consume_iter(self, items: Vec<T>) -> (r: Self)
        requires
            self.inv(),
        ensures
            r.inv(),
            forall|more: Seq<T>, out: Self::Output|
                r.produces(more, out) ==> self.produces(items@ + more, out),
    ;

    fn complete(self) -> (out: Self::Output)
        requires
            self.inv(),
        ensures
            self.produces(Seq::empty(), out),
    ;

    fn split_at(self, index: usize) -> (r: (Self, Self, Self::Reducer))
        requires
            self.inv(),
        ensures
            r.0.inv(),
            r.1.inv(),
            forall|a: Seq<T>, b: Seq<T>, oa: Self::Output, ob: Self::Output, o: Self::Output|
                a.len() == index && r.0.produces(a, oa) && r.1.produces(b, ob) && r.2.reduces(
                    oa,
                    ob,
                    o,
                ) ==> self.produces(a + b, o),
    ;
}

/// A contiguous owned region of items that can be halved.
pub struct VecSplitable<T> {
    vec: Vec<T>,
}

impl<T> View for VecSplitable<T> {
    type V = Seq<T>;

    closed spec fn view(&self) -> Seq<T> {
        self.vec@
    }
}

impl<T: Send> VecSplitable<T> {
    pub fn new(vec: Vec<T>) -> (r: Self)
        ensures
            r@ == vec@,
    {
        VecSplitable { vec }
    }

    /// Splits into the first `mid` items and the rest, order kept.
    pub fn split_at(self, mid: usize) -> (r: (Self, Self))
        requires
            mid <= self@.len(),
        ensures
            r.0@ == self@.subrange(0, mid as int),
            r.1@ == self@.subrange(mid as int, self@.len() as int),
    {
        let mut left = self.vec;
        let right = left.split_off(mid);
        (VecSplitable { vec: left }, VecSplitable { vec: right })
    }

    pub fn len(&self) -> (r: usize)
        ensures
            r == self@.len(),
    {
        self.vec.len()
    }

    /// The items, for sequential consumption.
    pub fn into_iter(self) -> (r: Vec<T>)
        ensures
            r@ == self@,
    {
        self.vec
    }
}

/// The fan-out budget of the splitting driver: it starts at the worker count
/// and halves on every split, and splitting stops once it would reach zero.
#[derive(Clone, Copy)]
pub struct Spliter {
    pub len: usize,
}

impl Spliter {
    pub fn new() -> (r: Self)
        ensures
            r.len == CORE_NUMS,
    {
        Spliter { len: CORE_NUMS }
    }

    /// Halves the budget if that leaves it non-zero, and says whether it did.
    pub fn try_split(&mut self) -> (split: bool)
        ensures
            split == (old(self).len / 2 != 0),
            final(self).len == if split { old(self).len / 2 } else { old(self).len },
    {
        if self.len / 2 != 0 {
            self.len = self.len / 2;
            true
        } else {
            false
        }
    }
}

/// Drives `consumer` over the items of `producer`: while the budget allows,
/// splits both at the same midpoint and runs the halves through `fork`, then
/// drains each remaining region sequentially and reduces on the way back.
pub fn run<T: Send, C: Consumer<T>, J: Fork + Sync>(
    fork: &J,
    producer: VecSplitable<T>,
    consumer: C,
) -> (out: C::Output)
    requires
        consumer.inv(),
    ensures
        consumer.produces(producer@, out),
{
    run_with(fork, Spliter::new(), producer, consumer)
}

fn run_with<T: Send, C: Consumer<T>, J: Fork + Sync>(
    fork: &J,
    spliter: Spliter,
    producer: VecSplitable<T>,
    consumer: C,
) -> (out: C::Output)
    requires
        consumer.inv(),
    ensures
        consumer.produces(producer@, out),
    decreases spliter.len,
{
    let mut spliter = spliter;
    if spliter.try_split() {
        let ghost whole = producer@;
        let mid = producer.len() / 2;
        let (left, right) = producer.split_at(mid);
        let (left_consumer, right_consumer, reducer) = consumer.split_at(mid);
        let ghost lv = left@;
        let ghost rv = right@;
        let s = spliter;
        let (l, r) = fork.join(
            move || -> (o: <C as Consumer<T>>::Output)
                requires
                    left_consumer.inv(),
                ensures
                    left_consumer.produces(lv, o)
            {
                run_with(fork, s, left, left_consumer)
            },
            move || -> (o: <C as Consumer<T>>::Output)
                requires
                    right_consumer.inv(),
                ensures
                    right_consumer.produces(rv, o)
            {
                run_with(fork, s, right, right_consumer)
            },
        );
        assert(lv + rv =~= whole);
        reducer.reduce(l, r)
    } else {
        let ghost items = producer@;
        let out = consumer.consume_iter(producer.into_iter()).complete();
        assert(items + Seq::empty() =~= items);
        out
    }
}

/// The items of `v` in reverse order, so that popping yields them front first.
fn reversed<T>(v: Vec<T>) -> (r: Vec<T>)
    ensures
        r@.len() == v@.len(),
        forall|j: int| 0 <= j < v@.len() ==> r@[j] == v@[v@.len() - 1 - j],
{
    let ghost orig = v@;
    let mut src = v;
    let mut r: Vec<T> = Vec::new();
    while src.len() > 0
        invariant
            src@ == orig.subrange(0, orig.len() - r@.len()),
            r@.len() <= orig.len(),
            forall|j: int| 0 <= j < r@.len() ==> r@[j] == orig[orig.len() - 1 - j],
        decreases src@.len(),
    {
        let x = src.pop().unwrap();
        r.push(x);
    }
    r
}

/// `ys` is `f` applied to each item of `xs`, position by position.
pub open spec fn mapped_by<T, F: Fn(T) -> T>(f: F, xs: Seq<T>, ys: Seq<T>) -> bool {
    &&& ys.len() == xs.len()
    &&& forall|i: int| 0 <= i < xs.len() ==> f.ensures((xs[i],), #[trigger] ys[i])
}

/// Joins the outputs of two collect shards: the left items, then the right.
pub struct CollectReducer;

impl<T> Reducer<Vec<T>> for CollectReducer {
    open spec fn reduces(&self, left: Vec<T>, right: Vec<T>, out: Vec<T>) -> bool {
        out@ == left@ + right@
    }

    fn reduce(self, left: Vec<T>, right: Vec<T>) -> (out: Vec<T>) {
        let mut out = left;
        let mut right = right;
        out.append(&mut right);
        out
    }
}

/// Collects items into a buffer of its own; `len` is the number of items the
/// shard is responsible for, which sizes the buffer up front.
pub struct CollectConsumer<T> {
    buf: Vec<T>,
    len: usize,
}

impl<T> CollectConsumer<T> {
    pub closed spec fn written(&self) -> Seq<T> {
        self.buf@
    }

    pub closed spec fn capacity(&self) -> usize {
        self.len
    }

    pub fn new(len: usize) -> (r: Self)
        ensures
            r.written() == Seq::<T>::empty(),
            r.capacity() == len,
    {
        CollectConsumer { buf: Vec::with_capacity(len), len }
    }
}

impl<T: Send> Consumer<T> for CollectConsumer<T> {
    type Output = Vec<T>;

    type Reducer = CollectReducer;

    open spec fn inv(&self) -> bool {
        true
    }

    open spec fn produces(&self, items: Seq<T>, out: Vec<T>) -> bool {
        out@ == self.written() + items
    }

    fn consume(self, item: T) -> (r: Self) {
        let mut this = self;
        this.buf.push(item);
        proof {
            assert forall|more: Seq<T>, out: Vec<T>| this.produces(more, out) implies self.produces(
                seq![item] + more,
                out,
            ) by {
                assert(self.written() + (seq![item] + more) =~= this.written() + more);
            }
        }
        this
    }

    fn consume_iter(self, items: Vec<T>) -> (r: Self) {
        let mut this = self;
        let mut items = items;
        let ghost added = items@;
        this.buf.append(&mut items);
        proof {
            assert forall|more: Seq<T>, out: Vec<T>| this.produces(more, out) implies self.produces(
                added + more,
                out,
            ) by {
                assert(self.written() + (added + more) =~= this.written() + more);
            }
        }
        this
    }

    fn complete(self) -> (out: Vec<T>) {
        let out = self.buf;
        assert(self.written() + Seq::empty() =~= out@);
        out
    }

    fn split_at(self, index: usize) -> (r: (Self, Self, CollectReducer)) {
        let right_len: usize = if index <= self.len { self.len - index } else { 0 };
        let right = CollectConsumer { buf: Vec::with_capacity(right_len), len: right_len };
        let left = CollectConsumer { buf: self.buf, len: index };
        proof {
            assert forall|a: Seq<T>, b: Seq<T>, oa: Vec<T>, ob: Vec<T>, o: Vec<T>|
                a.len() == index && left.produces(a, oa) && right.produces(b, ob)
                    && CollectReducer.reduces(oa, ob, o) implies self.produces(a + b, o) by {
                assert(oa@ + ob@ =~= self.written() + (a + b));
            }
        }
        (left, right, CollectReducer)
    }
}

/// Applies `op` to each item before handing it on to the wrapped consumer.
pub struct MapConsumer<'f, C, F> {
    op: &'f F,
    base: C,
}

impl<'f, T: Send, C: Consumer<T>, F: Fn(T) -> T + Sync> Consumer<T> for MapConsumer<'f, C, F> {
    type Output = C::Output;

    type Reducer = C::Reducer;

    closed spec fn inv(&self) -> bool {
        &&& self.base.inv()
        &&& forall|x: T| (*self.op).requires((x,))
    }

    closed spec fn produces(&self, items: Seq<T>, out: C::Output) -> bool {
        exists|ys: Seq<T>| mapped_by(*self.op, items, ys) && self.base.produces(ys, out)
    }

    fn consume(self, item: T) -> (r: Self) {
        let v = (self.op)(item);
        let base = self.base.consume(v);
        let r = MapConsumer { op: self.op, base };
        proof {
            assert forall|more: Seq<T>, out: C::Output| r.produces(more, out) implies self.produces(
                seq![item] + more,
                out,
            ) by {
                let ys = choose|ys: Seq<T>| mapped_by(*r.op, more, ys) && r.base.produces(ys, out);
                let zs = seq![v] + ys;
                assert(mapped_by(*self.op, seq![item] + more, zs)) by {
                    assert forall|i: int| 0 <= i < (seq![item] + more).len() implies (
                    *self.op).ensures(((seq![item] + more)[i],), #[trigger] zs[i]) by {
                        if i > 0 {
                            assert((seq![item] + more)[i] == more[i - 1]);
                            assert(zs[i] == ys[i - 1]);
                        }
                    }
                }
            }
        }
        r
    }

    fn consume_iter(self, items: Vec<T>) -> (r: Self) {
        let ghost xs = items@;
        let n = items.len();
        let mut src = reversed(items);
        let mut ys: Vec<T> = Vec::new();
        while src.len() > 0
            invariant
                forall|x: T| (*self.op).requires((x,)),
                ys@.len() + src@.len() == n,
                n == xs.len(),
                forall|j: int| 0 <= j < src@.len() ==> src@[j] == xs[n - 1 - j],
                forall|i: int| 0 <= i < ys@.len() ==> (*self.op).ensures((xs[i],), #[trigger] ys@[i]),
            decreases src@.len(),
        {
            let x = src.pop().unwrap();
            let y = (self.op)(x);
            ys.push(y);
        }
        let ghost mapped = ys@;
        let base = self.base.consume_iter(ys);
        let r = MapConsumer { op: self.op, base };
        proof {
            assert forall|more: Seq<T>, out: C::Output| r.produces(more, out) implies self.produces(
                xs + more,
                out,
            ) by {
                let zs = choose|zs: Seq<T>| mapped_by(*r.op, more, zs) && r.base.produces(zs, out);
                let all = mapped + zs;
                assert(mapped_by(*self.op, xs + more, all)) by {
                    assert forall|i: int| 0 <= i < (xs + more).len() implies (*self.op).ensures(
                        ((xs + more)[i],),
                        #[trigger] all[i],
                    ) by {
                        if i >= xs.len() {
                            assert((xs + more)[i] == more[i - xs.len()]);
                            assert(all[i] == zs[i - xs.len()]);
                        } else {
                            assert((xs + more)[i] == xs[i]);
                            assert(all[i] == mapped[i]);
                        }
                    }
                }
            }
        }
        r
    }

    fn complete(self) -> (out: C::Output) {
        let out = self.base.complete();
        assert(mapped_by(*self.op, Seq::<T>::empty(), Seq::<T>::empty()));
        out
    }

    fn split_at(self, index: usize) -> (r: (Self, Self, C::Reducer)) {
        let (left, right, reducer) = self.base.split_at(index);
        let l = MapConsumer { op: self.op, base: left };
        let rr = MapConsumer { op: self.op, base: right };
        proof {
            assert forall|a: Seq<T>, b: Seq<T>, oa: C::Output, ob: C::Output, o: C::Output|
                a.len() == index && l.produces(a, oa) && rr.produces(b, ob) && reducer.reduces(
                    oa,
                    ob,
                    o,
                ) implies self.produces(a + b, o) by {
                let ya = choose|ys: Seq<T>| mapped_by(*l.op, a, ys) && l.base.produces(ys, oa);
                let yb = choose|ys: Seq<T>| mapped_by(*rr.op, b, ys) && rr.base.produces(ys, ob);
                let all = ya + yb;
                assert(mapped_by(*self.op, a + b, all)) by {
                    assert forall|i: int| 0 <= i < (a + b).len() implies (*self.op).ensures(
                        ((a + b)[i],),
                        #[trigger] all[i],
                    ) by {
                        if i >= a.len() {
                            assert((a + b)[i] == b[i - a.len()]);
                            assert(all[i] == yb[i - a.len()]);
                        } else {
                            assert((a + b)[i] == a[i]);
                            assert(all[i] == ya[i]);
                        }
                    }
                }
            }
        }
        (l, rr, reducer)
    }
}

/// The reducer of consumers whose output carries nothing.
pub struct NoopReducer;

impl Reducer<()> for NoopReducer {
    open spec fn reduces(&self, left: (), right: (), out: ()) -> bool {
        true
    }

    fn reduce(self, left: (), right: ()) {
    }
}

/// Calls `op` on each item it receives; stateless, so a split copies it.
pub struct ForEachConsumer<'f, F> {
    op: &'f F,
}

impl<'f, F> ForEachConsumer<'f, F> {
    fn new(op: &'f F) -> (r: Self)
        ensures
            r.op == op,
    {
        ForEachConsumer { op }
    }
}

impl<'f, T: Send, F: Fn(T) + Sync> Consumer<T> for ForEachConsumer<'f, F> {
    type Output = ();

    type Reducer = NoopReducer;

    closed spec fn inv(&self) -> bool {
        forall|x: T| (*self.op).requires((x,))
    }

    closed spec fn produces(&self, items: Seq<T>, out: ()) -> bool {
        forall|i: int| 0 <= i < items.len() ==> (*self.op).ensures((#[trigger] items[i],), ())
    }

    fn consume(self, item: T) -> (r: Self) {
        (self.op)(item);
        proof {
            assert forall|more: Seq<T>, out: ()| self.produces(more, out) implies self.produces(
                seq![item] + more,
                out,
            ) by {
                assert forall|i: int| 0 <= i < (seq![item] + more).len() implies (
                *self.op).ensures((#[trigger] (seq![item] + more)[i],), ()) by {
                    if i > 0 {
                        assert((seq![item] + more)[i] == more[i - 1]);
                    }
                }
            }
        }
        self
    }

    fn consume_iter(self, items: Vec<T>) -> (r: Self) {
        let ghost xs = items@;
        let n = items.len();
        let mut src = reversed(items);
        while src.len() > 0
            invariant
                forall|x: T| (*self.op).requires((x,)),
                src@.len() <= n,
                n == xs.len(),
                forall|j: int| 0 <= j < src@.len() ==> src@[j] == xs[n - 1 - j],
                forall|i: int|
                    0 <= i < n - src@.len() ==> (*self.op).ensures((#[trigger] xs[i],), ()),
            decreases src@.len(),
        {
            let x = src.pop().unwrap();
            (self.op)(x);
        }
        proof {
            assert forall|more: Seq<T>, out: ()| self.produces(more, out) implies self.produces(
                xs + more,
                out,
            ) by {
                assert forall|i: int| 0 <= i < (xs + more).len() implies (*self.op).ensures(
                    (#[trigger] (xs + more)[i],),
                    (),
                ) by {
                    if i >= xs.len() {
                        assert((xs + more)[i] == more[i - xs.len()]);
                    } else {
                        assert((xs + more)[i] == xs[i]);
                    }
                }
            }
        }
        self
    }

    fn complete(self) {
    }

    fn split_at(self, index: usize) -> (r: (Self, Self, NoopReducer)) {
        let left = ForEachConsumer::new(self.op);
        proof {
            assert forall|a: Seq<T>, b: Seq<T>, oa: (), ob: (), o: ()|
                a.len() == index && left.produces(a, oa) && self.produces(b, ob)
                    && NoopReducer.reduces(oa, ob, o) implies self.produces(a + b, o) by {
                assert forall|i: int| 0 <= i < (a + b).len() implies (*self.op).ensures(
                    (#[trigger] (a + b)[i],),
                    (),
                ) by {
                    if i >= a.len() {
                        assert((a + b)[i] == b[i - a.len()]);
                    } else {
                        assert((a + b)[i] == a[i]);
                    }
                }
            }
        }
        (left, self, NoopReducer)
    }
}

/// A source of items that can be driven in parallel through a consumer.
pub trait ParallelIterator: Sized + Send {
    type Item: Send;

    spec fn inv(&self) -> bool;

    /// `items` is a sequence this iterator may hand to a consumer, in order.
    spec fn yields(&self, items: Seq<Self::Item>) -> bool;

    fn execute<OP: Consumer<Self::Item>, J: Fork + Sync>(self, fork: &J, op: OP) -> (out:
        OP::Output)
        requires
            self.inv(),
            op.inv(),
        ensures
            exists|items: Seq<Self::Item>| self.yields(items) && op.produces(items, out),
    ;

    fn len(&self) -> (r: usize)
        requires
            self.inv(),
        ensures
            forall|items: Seq<Self::Item>| self.yields(items) ==> items.len() == r,
    ;

    /// Calls `op` once on each item.
    fn for_each<OP: Fn(Self::Item) + Send + Sync, J: Fork + Sync>(self, fork: &J, op: OP)
        requires
            self.inv(),
            forall|x: Self::Item| op.requires((x,)),
        ensures
            exists|items: Seq<Self::Item>|
                self.yields(items) && forall|i: int|
                    0 <= i < items.len() ==> op.ensures((#[trigger] items[i],), ()),
    {
        let consumer = ForEachConsumer::new(&op);
        self.execute(fork, consumer);
    }

    /// A lazy adapter that applies `op` to each item.
    fn map<F: Fn(Self::Item) -> Self::Item + Send + Sync>(self, op: F) -> (r: MapIter<Self, F>)
        ensures
            r.base() == self,
            r.func() == op,
    {
        MapIter { iter: self, op }
    }

    /// The items, in order, in a new vector.
    fn collect<J: Fork + Sync>(self, fork: &J) -> (r: Vec<Self::Item>)
        requires
            self.inv(),
        ensures
            exists|items: Seq<Self::Item>| self.yields(items) && r@ == items,
    {
        let len = self.len();
        let consumer = CollectConsumer::new(len);
        let out = self.execute(fork, consumer);
        proof {
            let items = choose|items: Seq<Self::Item>|
                self.yields(items) && consumer.produces(items, out);
            assert(consumer.written() + items =~= items);
        }
        out
    }
}

/// A value that turns into a parallel iterator over its items.
pub trait IntoParallelIterator: Sized {
    type Item: Send;

    type Iter: ParallelIterator<Item = Self::Item>;

    /// `it` is the iterator this value turns into.
    spec fn converts(&self, it: Self::Iter) -> bool;

    fn into_par_iter(self) -> (r: Self::Iter)
        ensures
            self.converts(r),
    ;
}

/// A container that can be built from the items of a parallel iterator.
pub trait FromParallelIterator<T: Send>: Sized {
    /// `out` is the container built from `items`.
    spec fn collects(items: Seq<T>, out: Self) -> bool;

    fn from_par_iter<I: ParallelIterator<Item = T>, J: Fork + Sync>(par_iter: I, fork: &J) -> (r:
        Self)
        requires
            par_iter.inv(),
        ensures
            exists|items: Seq<T>| par_iter.yields(items) && Self::collects(items, r),
    ;
}

/// A parallel iterator over the items of an owned vector, in order.
pub struct IntoIter<T> {
    vec: Vec<T>,
}

impl<T> View for IntoIter<T> {
    type V = Seq<T>;

    closed spec fn view(&self) -> Seq<T> {
        self.vec@
    }
}

impl<T: Send> IntoParallelIterator for Vec<T> {
    type Item = T;

    type Iter = IntoIter<T>;

    open spec fn converts(&self, it: IntoIter<T>) -> bool {
        &&& it@ == self@
        &&& it.inv()
    }

    fn into_par_iter(self) -> (r: IntoIter<T>) {
        IntoIter { vec: self }
    }
}

/// A parallel iterator turns into itself.
impl<P: ParallelIterator> IntoParallelIterator for P {
    type Item = P::Item;

    type Iter = P;

    open spec fn converts(&self, it: P) -> bool {
        it == *self
    }

    fn into_par_iter(self) -> (r: P) {
        self
    }
}

impl<T: Send> ParallelIterator for IntoIter<T> {
    type Item = T;

    open spec fn inv(&self) -> bool {
        true
    }

    open spec fn yields(&self, items: Seq<T>) -> bool {
        items == self@
    }

    fn execute<OP: Consumer<T>, J: Fork + Sync>(self, fork: &J, op: OP) -> (out: OP::Output) {
        let splitable = VecSplitable::new(self.vec);
        let out = run(fork, splitable, op);
        assert(self.yields(self@));
        out
    }

    fn len(&self) -> (r: usize) {
        self.vec.len()
    }
}

/// The lazy result of `map`: applies `op` to each item of `iter` once a
/// consumer drives it, without buffering between chained maps.
pub struct MapIter<I, F> {
    iter: I,
    op: F,
}

impl<I, F> MapIter<I, F> {
    pub closed spec fn base(&self) -> I {
        self.iter
    }

    pub closed spec fn func(&self) -> F {
        self.op
    }
}

impl<I: ParallelIterator, F: Fn(I::Item) -> I::Item + Send + Sync> MapIter<I, F> {
    /// A map over a well-formed iterator, with a function defined on every
    /// item, is well formed.
    pub proof fn lemma_inv(&self)
        requires
            self.base().inv(),
            forall|x: I::Item| self.func().requires((x,)),
        ensures
            self.inv(),
    {
    }

    /// A map yields exactly the images, position by position, of what the
    /// underlying iterator yields.
    pub proof fn lemma_yields(&self, items: Seq<I::Item>)
        ensures
            self.yields(items) <==> exists|xs: Seq<I::Item>|
                self.base().yields(xs) && mapped_by(self.func(), xs, items),
    {
    }
}

impl<I: ParallelIterator, F: Fn(I::Item) -> I::Item + Send + Sync> ParallelIterator for MapIter<I, F> {
    type Item = I::Item;

    open spec fn inv(&self) -> bool {
        &&& self.base().inv()
        &&& forall|x: I::Item| self.func().requires((x,))
    }

    open spec fn yields(&self, items: Seq<I::Item>) -> bool {
        exists|xs: Seq<I::Item>| self.base().yields(xs) && mapped_by(self.func(), xs, items)
    }

    fn execute<OP: Consumer<I::Item>, J: Fork + Sync>(self, fork: &J, op: OP) -> (out:
        OP::Output) {
        let MapIter { iter, op: f } = self;
        let consumer = MapConsumer { op: &f, base: op };
        let out = iter.execute(fork, consumer);
        proof {
            let xs = choose|xs: Seq<I::Item>| iter.yields(xs) && consumer.produces(xs, out);
            let ys = choose|ys: Seq<I::Item>|
                mapped_by(*consumer.op, xs, ys) && consumer.base.produces(ys, out);
            assert(self.yields(ys));
        }
        out
    }

    fn len(&self) -> (r: usize) {
        let r = self.iter.len();
        proof {
            assert forall|items: Seq<I::Item>| self.yields(items) implies items.len() == r by {
                let xs = choose|xs: Seq<I::Item>|
                    self.base().yields(xs) && mapped_by(self.func(), xs, items);
            }
        }
        r
    }
}

impl<T: Send> FromParallelIterator<T> for Vec<T> {
    open spec fn collects(items: Seq<T>, out: Vec<T>) -> bool {
        out@ == items
    }

    fn from_par_iter<I: ParallelIterator<Item = T>, J: Fork + Sync>(par_iter: I, fork: &J) -> (r:
        Vec<T>) {
        collect(par_iter, fork)
    }
}

/// Appends the items of `i` to `vec`, in order.
pub fn extend<I: ParallelIterator, J: Fork + Sync>(i: I, fork: &J, vec: &mut Vec<I::Item>)
    requires
        i.inv(),
    ensures
        exists|items: Seq<I::Item>| i.yields(items) && final(vec)@ == old(vec)@ + items,
{
    let mut out = i.collect(fork);
    vec.append(&mut out);
}

/// The items of `i`, in order, in a new vector.
pub fn collect<I: ParallelIterator, J: Fork + Sync>(i: I, fork: &J) -> (r: Vec<I::Item>)
    requires
        i.inv(),
    ensures
        exists|items: Seq<I::Item>| i.yields(items) && r@ == items,
{
    let mut v: Vec<I::Item> = Vec::new();
    extend(i, fork, &mut v);
    proof {
        let items = choose|items: Seq<I::Item>|
            i.yields(items) && v@ == Seq::<I::Item>::empty() + items;
        assert(Seq::<I::Item>::empty() + items =~= items);
    }
    v
}

/// Calls `op` once on each item of `i`.
pub fn for_each<I: ParallelIterator, F: Fn(I::Item) + Send + Sync, J: Fork + Sync>(
    i: I,
    fork: &J,
    op: F,
)
    requires
        i.inv(),
        forall|x: I::Item| op.requires((x,)),
    ensures
        exists|items: Seq<I::Item>|
            i.yields(items) && forall|j: int|
                0 <= j < items.len() ==> op.ensures((#[trigger] items[j],), ()),
{
    i.for_each(fork, op)
}

} // verus!
