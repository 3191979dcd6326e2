use std::sync::atomic::{AtomicUsize, Ordering};

use concurrent_threads::fork::Inline;
use concurrent_threads::iter::vec::{
    collect, extend, run, CollectConsumer, Consumer, FromParallelIterator, IntoParallelIterator,
    ParallelIterator, Reducer, Spliter, VecSplitable,
};

#[test]
fn map() {
    let v = vec![1, 2, 3]
        .into_par_iter()
        .map(|i| i * 2)
        .map(|i| i * 2)
        .collect(&Inline);

    assert!(v == vec![4, 8, 12]);
}

#[test]
fn for_each() {
    let items: Vec<_> = (0..100)
        .map(|_| rand::random::<u16>())
        .enumerate()
        .collect();

    items.into_par_iter().for_each(&Inline, |item| {
        println!("{:?}", item);
    });
}

#[test]
fn for_each_visits_every_item_once() {
    let items: Vec<u32> = (0..1000).collect();
    let count = AtomicUsize::new(0);
    let sum = AtomicUsize::new(0);
    items.into_par_iter().for_each(&Inline, |item| {
        count.fetch_add(1, Ordering::SeqCst);
        sum.fetch_add(item as usize, Ordering::SeqCst);
    });
    assert_eq!(count.load(Ordering::SeqCst), 1000);
    assert_eq!(sum.load(Ordering::SeqCst), 999 * 1000 / 2);
}

#[test]
fn collect_keeps_order_and_items() {
    let items: Vec<u64> = (0..1037).map(|i| (i * 7919) % 1000).collect();
    let out = items.clone().into_par_iter().collect(&Inline);
    assert_eq!(out, items);
}

#[test]
fn collect_of_one_item() {
    let out = vec![42u8].into_par_iter().collect(&Inline);
    assert_eq!(out, vec![42u8]);
}

#[test]
fn collect_of_nothing() {
    let out: Vec<u8> = Vec::new().into_par_iter().collect(&Inline);
    assert!(out.is_empty());
}

#[test]
fn map_applies_in_order() {
    let items: Vec<i64> = (0..20).collect();
    let out = items.into_par_iter().map(|x| x * x - 3).collect(&Inline);
    let expected: Vec<i64> = (0..20).map(|x| x * x - 3).collect();
    assert_eq!(out, expected);
}

#[test]
fn free_collect_and_extend() {
    let out = collect(vec![5, 6, 7].into_par_iter(), &Inline);
    assert_eq!(out, vec![5, 6, 7]);
    let mut v = vec![1, 2];
    extend(vec![3, 4, 5].into_par_iter().map(|x| x + 10), &Inline, &mut v);
    assert_eq!(v, vec![1, 2, 13, 14, 15]);
}

#[test]
fn len_counts_items() {
    let it = vec![1, 2, 3, 4].into_par_iter();
    assert_eq!(it.len(), 4);
    assert_eq!(it.map(|x| x + 1).len(), 4);
}

#[test]
fn spliter_halves_until_one() {
    let mut s = Spliter::new();
    assert_eq!(s.len, 4);
    assert!(s.try_split());
    assert_eq!(s.len, 2);
    assert!(s.try_split());
    assert_eq!(s.len, 1);
    assert!(!s.try_split());
    assert_eq!(s.len, 1);
}

#[test]
fn splitable_halves_keep_order() {
    let p = VecSplitable::new(vec![1, 2, 3, 4, 5]);
    assert_eq!(p.len(), 5);
    let (l, r) = p.split_at(2);
    assert_eq!(l.into_iter(), vec![1, 2]);
    assert_eq!(r.into_iter(), vec![3, 4, 5]);
}

#[test]
fn collect_consumer_split_and_reduce() {
    let c: CollectConsumer<u32> = CollectConsumer::new(5);
    let (l, r, reducer) = c.split_at(2);
    let l = l.consume(1).consume(2);
    let r = r.consume_iter(vec![3, 4, 5]);
    let out = reducer.reduce(l.complete(), r.complete());
    assert_eq!(out, vec![1, 2, 3, 4, 5]);
}

#[test]
fn from_par_iter_builds_vec() {
    let v: Vec<char> = Vec::from_par_iter(vec!['x', 'y', 'z'].into_par_iter(), &Inline);
    assert_eq!(v, vec!['x', 'y', 'z']);
}

#[test]
fn run_drives_collect_consumer() {
    let items: Vec<u32> = (0..9).collect();
    let out = run(&Inline, VecSplitable::new(items.clone()), CollectConsumer::new(9));
    assert_eq!(out, items);
}

#[test]
fn parallel_iterator_into_itself() {
    let it = vec![3, 1, 2].into_par_iter().map(|x| x * 10);
    let again = it.into_par_iter();
    assert_eq!(again.collect(&Inline), vec![30, 10, 20]);
}
