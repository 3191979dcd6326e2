use std::collections::HashSet;
use std::sync::atomic::{AtomicUsize, Ordering};
use std::sync::Mutex;

use concurrent_threads::fork::{Fork, Inline};
use concurrent_threads::latch::Latch;
use concurrent_threads::sched::{discovery_order, steal_order, Source, CORE_NUMS};

#[test]
fn join_result() {
    let (r1, r2) = Inline.join(|| 1, || 2);

    assert_eq!(r1, 1);
    assert_eq!(r2, 2);
}

#[test]
fn join_runs_each_side_once() {
    let a = AtomicUsize::new(0);
    let b = AtomicUsize::new(0);
    let (x, y) = Inline.join(
        || a.fetch_add(1, Ordering::SeqCst) + 10,
        || b.fetch_add(1, Ordering::SeqCst) + 20,
    );
    assert_eq!((x, y), (10, 20));
    assert_eq!(a.load(Ordering::SeqCst), 1);
    assert_eq!(b.load(Ordering::SeqCst), 1);
}

#[test]
fn nested_join() {
    let log = Mutex::new(Vec::new());
    let push = |s: &'static str| log.lock().unwrap().push(s);
    Inline.join(
        || {
            push("a");
        },
        || {
            push("b");
            Inline.join(
                || {
                    push("c");
                    Inline.join(|| push("e"), || push("f"));
                },
                || {
                    push("d");
                },
            );
        },
    );
    assert_eq!(*log.lock().unwrap(), vec!["a", "b", "c", "e", "f", "d"]);
}

fn quick_sort<T: PartialOrd + Send>(v: &mut [T]) {
    if v.len() <= 1 {
        return;
    }

    let mid = partition(v);
    let (lo, hi) = v.split_at_mut(mid);
    Inline.join(|| quick_sort(lo), || quick_sort(hi));
}

fn partition<T: PartialOrd>(v: &mut [T]) -> usize {
    let pivot = v.len() - 1;
    let mut i = 0;
    for j in 0..pivot {
        if v[j] <= v[pivot] {
            v.swap(i, j);
            i += 1;
        }
    }
    v.swap(i, pivot);
    i
}

#[test]
fn sort() {
    let mut data: Vec<u16> = (0..10 * 1024)
        .map(|_| rand::random::<u16>())
        .collect::<HashSet<_>>()
        .into_iter()
        .collect();

    quick_sort(&mut data);
    let mut sorted_data = data.clone();
    sorted_data.sort();

    assert_eq!(data, sorted_data);
}

#[test]
fn latch_wait_after_set_returns_at_once() {
    let latch = Latch::new();
    assert!(!latch.probe());
    latch.set();
    assert!(latch.probe());
    assert!(latch.wait());
    latch.set();
    assert!(latch.wait());
}

#[test]
fn steal_order_scans_up_skipping_own() {
    assert_eq!(steal_order(0, 4), vec![1, 2, 3]);
    assert_eq!(steal_order(2, 4), vec![0, 1, 3]);
    assert_eq!(steal_order(3, 4), vec![0, 1, 2]);
    assert_eq!(steal_order(0, 1), Vec::<usize>::new());
}

#[test]
fn discovery_order_own_first() {
    assert_eq!(
        discovery_order(1, CORE_NUMS),
        vec![
            Source::Own,
            Source::Injected,
            Source::Peer(0),
            Source::Peer(2),
            Source::Peer(3)
        ]
    );
}
