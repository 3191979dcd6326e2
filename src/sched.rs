use vstd::prelude::*;

verus! {

/// Number of worker threads in the pool.
pub const CORE_NUMS: usize = 4;

/// The peer queue a worker at `index` tries `k`-th when it looks for work to
/// steal: peers are scanned from index 0 upward, skipping the worker's own.
pub open spec fn peer_at(index: int, n: int, k: int) -> int {
    if k < index {
        k
    } else {
        k + 1
    }
}

/// The order in which worker `index` of a pool of `n` scans its peers' queues
/// for work to steal: every other worker once, from index 0 upward.
pub fn steal_order(index: usize, n: usize) -> (r: Vec<usize>)
    requires
        index < n,
    ensures
        r@.len() == n - 1,
        forall|k: int| 0 <= k < r@.len() ==> r@[k] == peer_at(index as int, n as int, k),
        forall|k: int| 0 <= k < r@.len() ==> r@[k] < n && r@[k] != index,
        forall|k1: int, k2: int| 0 <= k1 < k2 < r@.len() ==> r@[k1] < r@[k2],
{
    let mut r: Vec<usize> = Vec::new();
    let mut k: usize = 0;
    while k + 1 < n
        invariant
            index < n,
            k < n,
            r@.len() == k,
            forall|j: int| 0 <= j < k ==> r@[j] == peer_at(index as int, n as int, j),
        decreases n - k,
    {
        let p: usize = if k < index { k } else { k + 1 };
        r.push(p);
        k = k + 1;
    }
    r
}

/// A place where an idle worker looks for a job.
#[derive(Clone, Copy, Debug, PartialEq, Eq, Structural)]
pub enum Source {
    /// The worker's own queue.
    Own,
    /// The pool's queue of jobs submitted from outside the pool.
    Injected,
    /// The queue of the worker at this index; only ever tried without
    /// blocking, and skipped when contended.
    Peer(usize),
}

/// The order in which worker `index` of a pool of `n` looks for its next job:
/// its own queue, then the injection queue, then each peer from index 0
/// upward, skipping its own. When none has a job the worker yields and starts over.
pub fn discovery_order(index: usize, n: usize) -> (r: Vec<Source>)
    requires
        index < n,
    ensures
        r@.len() == n + 1,
        r@[0] == Source::Own,
        r@[1] == Source::Injected,
        forall|k: int|
            0 <= k < n - 1 ==> r@[k + 2] == Source::Peer(peer_at(index as int, n as int, k) as usize),
{
    let peers = steal_order(index, n);
    let mut r: Vec<Source> = Vec::new();
    r.push(Source::Own);
    r.push(Source::Injected);
    let mut k: usize = 0;
    while k < peers.len()
        invariant
            peers@.len() == n - 1,
            forall|j: int| 0 <= j < peers@.len() ==> peers@[j] == peer_at(index as int, n as int, j),
            k <= peers@.len(),
            r@.len() == k + 2,
            r@[0] == Source::Own,
            r@[1] == Source::Injected,
            forall|j: int| 0 <= j < k ==> r@[j + 2] == Source::Peer(peers@[j]),
        decreases peers@.len() - k,
    {
        r.push(Source::Peer(peers[k]));
        k = k + 1;
    }
    r
}

} // verus!
